use easy_git::utils::{get_repo_name, normalize_path, parent_path, path_to_string};

#[test]
fn test_get_repo_name() {
    let name = get_repo_name("/home/user/projects/my-repo");
    assert_eq!(name, "my-repo");
}

#[test]
fn test_get_repo_name_with_trailing_slash() {
    let name = get_repo_name("/home/user/projects/my-repo/");
    assert_eq!(name, "my-repo");
}

#[test]
fn test_get_repo_name_root() {
    let name = get_repo_name("/");
    assert!(!name.is_empty());
    assert_eq!(name, "unknown");
}

#[test]
fn test_normalize_path_relative() {
    let result = normalize_path("./test", "/work");
    assert_eq!(result, "/work/./test");
}

#[test]
fn test_normalize_path_absolute() {
    let result = normalize_path("/tmp", "/work");
    assert_eq!(result, "/tmp");
}

#[test]
fn test_path_to_string() {
    let result = path_to_string("/home/user/test");
    assert!(result.is_ok());
    assert!(result.unwrap().contains("test"));
}

#[test]
fn parent_path_drops_the_last_component() {
    assert_eq!(parent_path("/home/user/test"), Some("/home/user".to_string()));
    assert_eq!(parent_path("/"), None);
}
