//! The namespace of the user that runs the process.

use vstd::prelude::*;
use std::path::PathBuf;
use crate::place::{in_tmp, placement, Placement};

verus! {

/// `whoami::username`: the login name of the user that runs the process, as
/// the host reports it (a fixed stand-in where the host reports none). It
/// depends on the host alone, so nothing is claimed of it.
#[verifier::external_body]
fn current_username() -> String {
    whoami::username()
}

/// The place of `filename` in the namespace named after the current user:
/// `in_tmp` with the user's name for the namespace, whatever name the host
/// reports.
pub fn in_user_tmp(temp_dir: &PathBuf, filename: &str) -> (res: Placement)
    ensures
        exists|user: Seq<char>| res == #[trigger] placement(*temp_dir, user, filename@),
{
    let user = current_username();
    in_tmp(temp_dir, user.as_str(), filename)
}

} // verus!
