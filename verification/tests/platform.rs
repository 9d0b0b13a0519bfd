use console_player::daemon::Daemon;

#[test]
fn supported_platforms() {
    // The daemon's well-known paths are absolute on a Unix system only.
    assert!(std::path::Path::new(Daemon::SOCKET_PATH).is_absolute());
    assert!(std::path::Path::new(Daemon::LOCKFILE_PATH).is_absolute());
    assert!(std::path::MAIN_SEPARATOR == '/');
}
