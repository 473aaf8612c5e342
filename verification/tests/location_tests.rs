use wbr_migrations::errors::LocationError;
use wbr_migrations::location::resolve;

#[test]
fn resolve_derives_the_three_paths_from_the_root() {
    let loc = resolve(Some("/home/user/.config/reader".to_string())).unwrap();
    assert_eq!(loc.root_directory, "/home/user/.config/reader");
    assert_eq!(loc.primary_file, "/home/user/.config/reader/application.db");
    assert_eq!(loc.wal_file, "/home/user/.config/reader/application.db-wal");
    assert_eq!(loc.shm_file, "/home/user/.config/reader/application.db-shm");
}

#[test]
fn resolve_fails_when_the_host_has_no_root() {
    assert_eq!(resolve(None).err(), Some(LocationError));
}
