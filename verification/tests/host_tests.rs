use things3::config::is_data_dir_name;
use things3::database::{connection_error, sqlite_url};
use things3::{HostPaths, ThingsError, Timestamp};

#[test]
fn data_folder_is_the_first_things_folder_with_a_database() {
    let candidates = vec![
        ("Other".to_string(), true),
        ("ThingsData-AAAAA".to_string(), false),
        ("ThingsData-BBBBB".to_string(), true),
        ("ThingsData-CCCCC".to_string(), true),
    ];
    assert_eq!(HostPaths::pick_data_dir(&candidates), Some("ThingsData-BBBBB".to_string()));

    let none_usable = vec![("ThingsData-AAAAA".to_string(), false), ("Backups".to_string(), true)];
    assert_eq!(HostPaths::pick_data_dir(&none_usable), None);
    assert_eq!(HostPaths::pick_data_dir(&Vec::new()), None);
}

#[test]
fn data_folder_names_start_with_things_data() {
    assert!(is_data_dir_name("ThingsData-0Z0Z2"));
    assert!(is_data_dir_name("ThingsData-"));
    assert!(!is_data_dir_name("ThingsData"));
    assert!(!is_data_dir_name("thingsdata-0Z0Z2"));
    assert!(!is_data_dir_name(""));
}

#[test]
fn sqlite_url_prefixes_the_path() {
    assert_eq!(sqlite_url("/path/to/things.db"), "sqlite:/path/to/things.db");
    assert_eq!(sqlite_url(""), "sqlite:");
}

#[test]
fn connection_failures_are_unknown_errors_with_the_cause() {
    match connection_error("unable to open database file") {
        ThingsError::Unknown { message } => {
            assert_eq!(message, "Failed to connect to database: unable to open database file");
        }
        other => panic!("Expected Unknown error, got: {other:?}"),
    }
}

#[test]
fn the_clock_reads_after_the_epoch_with_subsecond_nanoseconds() {
    let now = Timestamp::now();
    assert!(now.secs > 1_600_000_000);
    assert!(now.nanos < 1_000_000_000);
}
