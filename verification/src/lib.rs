//! Files in a namespace of the system's temporary directory.
//!
//! The crate works out where such a file lives and which directory has to
//! exist for it, and joins the path with the outcome of creating that
//! directory. It touches no file system itself: the caller supplies the
//! temporary directory, creates the namespace directory in whatever way suits
//! it (blocking or not), and hands the outcome back.

pub mod laws;
pub mod outcome;
pub mod place;
pub mod user;

pub use crate::outcome::io_result_to_opt_error;
pub use crate::place::{in_tmp, tmp_with_namespace, Placement};
pub use crate::user::in_user_tmp;
