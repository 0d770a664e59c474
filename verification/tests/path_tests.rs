use burncloud_database::get_default_database_path;
use burncloud_database::is_windows;
use burncloud_database::path::posix_default_path;
use burncloud_database::path::windows_default_path;

#[test]
fn test_is_windows() {
    let result = is_windows();
    let host_family = if std::path::MAIN_SEPARATOR == '\\' { "windows" } else { "posix" };
    assert_eq!(result, host_family == "windows");
}

#[test]
fn test_get_default_database_path() {
    let path_result = get_default_database_path();
    assert!(path_result.is_ok());

    let path = path_result.unwrap();
    println!("Default database path: {}", path);
    assert!(path.contains("data.db"));

    if is_windows() {
        assert!(path.contains("AppData\\Local\\BurnCloud"));
    } else {
        assert!(path.contains(".burncloud"));
    }
}

#[test]
fn default_path_is_absolute() {
    let path = get_default_database_path().unwrap();
    assert!(!path.is_empty());
    assert!(std::path::Path::new(&path).is_absolute());
    assert!(path.ends_with("data.db"));
}

#[test]
fn posix_default_path_composes() {
    let p = posix_default_path("/home/alice", "/");
    assert_eq!(p, "/home/alice/.burncloud/data.db");
}

#[test]
fn windows_default_path_composes() {
    let p = windows_default_path("C:\\Users\\Alice", "\\");
    assert_eq!(p, "C:\\Users\\Alice\\AppData\\Local\\BurnCloud\\data.db");
}
