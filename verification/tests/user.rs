use namespaced_tmp::{in_tmp, in_user_tmp};
use std::io;
use std::path::PathBuf;

#[test]
fn user_namespace_is_the_namespace_of_the_user_name() {
    let temp_dir = PathBuf::from("/tmp");
    let user = whoami::username();
    assert_eq!(in_user_tmp(&temp_dir, "cache.db"), in_tmp(&temp_dir, &user, "cache.db"));
}

#[test]
fn user_file_lies_in_user_dir_below_temp_dir() {
    let temp_dir = PathBuf::from("/tmp");
    let user = whoami::username();
    let place = in_user_tmp(&temp_dir, "cache.db");
    assert_eq!(place.dir, temp_dir.join(&user));
    assert_eq!(place.path, temp_dir.join(&user).join("cache.db"));
    assert_eq!(place.path.as_os_str(), format!("/tmp/{}/cache.db", user).as_str());
    assert_ne!(place.dir, temp_dir);
}

#[test]
fn user_name_is_asked_anew_and_stays() {
    let temp_dir = PathBuf::from("/var/tmp");
    assert_eq!(in_user_tmp(&temp_dir, "a"), in_user_tmp(&temp_dir, "a"));
}

#[test]
fn user_path_comes_with_or_without_error() {
    let temp_dir = PathBuf::from("/tmp");
    let expected = temp_dir.join(whoami::username()).join("f");
    let (path, err) = in_user_tmp(&temp_dir, "f").finish(Ok(()));
    assert_eq!(path, expected);
    assert!(err.is_none());
    let (path, err) = in_user_tmp(&temp_dir, "f").finish(Err(io::Error::from(io::ErrorKind::AlreadyExists)));
    assert_eq!(path, expected);
    assert_eq!(err.map(|e| e.kind()), Some(io::ErrorKind::AlreadyExists));
}
