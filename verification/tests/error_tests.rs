use burncloud_database::DatabaseError;

#[test]
fn test_all_error_variants() {
    let path_error = DatabaseError::PathResolution("Test path resolution error".to_string());
    assert_eq!(
        path_error.message(),
        "Failed to resolve default database path: Test path resolution error"
    );

    let dir_error = DatabaseError::DirectoryCreation("Test directory creation error".to_string());
    assert_eq!(
        dir_error.message(),
        "Failed to create database directory: Test directory creation error"
    );

    let not_init_error = DatabaseError::NotInitialized;
    assert_eq!(not_init_error.message(), "Database not initialized");

    println!("All error variants format correctly");
}

#[test]
fn test_error_message_quality() {
    let path_error = DatabaseError::PathResolution("HOME variable not set".to_string());
    let error_msg = path_error.message();
    assert!(error_msg.contains("Failed to resolve"));
    assert!(error_msg.contains("HOME variable not set"));
    assert!(error_msg.len() > 20);

    let dir_error =
        DatabaseError::DirectoryCreation("/protected/path: Permission denied".to_string());
    let error_msg = dir_error.message();
    assert!(error_msg.contains("Failed to create"));
    assert!(error_msg.contains("Permission denied"));
    assert!(error_msg.len() > 20);

    assert!(format!("{:?}", path_error).len() > 0);

    println!("Error messages are informative and well-formatted");
}

#[test]
fn every_error_variant_renders_its_prefix() {
    assert_eq!(
        DatabaseError::Connection("pool gone".to_string()).message(),
        "Database connection error: pool gone"
    );
    assert_eq!(
        DatabaseError::Migration("v2 missing".to_string()).message(),
        "Migration error: v2 missing"
    );
    assert_eq!(
        DatabaseError::Query("no such table".to_string()).message(),
        "Query error: no such table"
    );
    assert_eq!(
        DatabaseError::Serialization("bad json".to_string()).message(),
        "Serialization error: bad json"
    );
    assert_eq!(DatabaseError::Io("disk full".to_string()).message(), "IO error: disk full");
    assert_eq!(
        DatabaseError::InvalidData { message: "negative count".to_string() }.message(),
        "Invalid data: negative count"
    );
}
