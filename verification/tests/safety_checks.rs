use go_installer::InstallError;
use go_installer::usr_install_location_safety_check;

#[test]
fn refuses_the_default_system_prefix() {
    let r = usr_install_location_safety_check("/usr/local");
    match r {
        Err(InstallError::UnsafeDeletionTarget(p)) => assert_eq!(p, "/usr/local"),
        other => panic!("expected an unsafe-deletion refusal, got {:?}", other),
    }
}

#[test]
fn refuses_any_local_segment_under_the_system_root() {
    assert!(usr_install_location_safety_check("/usr/lib/some/deep/local").is_err());
    assert!(usr_install_location_safety_check("/usr/local/local").is_err());
    assert!(usr_install_location_safety_check("/usr/sbin/local").is_err());
}

#[test]
fn the_pattern_test_is_on_names_not_segments() {
    // The guard is a coarse name pattern: anything starting with the
    // system-binaries root characters counts, whole segment or not.
    assert!(usr_install_location_safety_check("/usrx/stuff/local").is_err());
}

#[test]
fn accepts_paths_outside_the_system_root() {
    assert!(usr_install_location_safety_check("/opt/go").is_ok());
    assert!(usr_install_location_safety_check("/home/user/go").is_ok());
    assert!(usr_install_location_safety_check("/local").is_ok());
}

#[test]
fn accepts_system_paths_that_do_not_end_in_local() {
    assert!(usr_install_location_safety_check("/usr/local/go").is_ok());
    assert!(usr_install_location_safety_check("/usr/lib/go").is_ok());
    assert!(usr_install_location_safety_check("/usr/localx").is_ok());
    assert!(usr_install_location_safety_check("/usr").is_ok());
}

#[test]
fn the_refusal_message_names_the_path() {
    let e = usr_install_location_safety_check("/usr/local").unwrap_err();
    assert_eq!(
        e.message(),
        "Preventing the destruction of the whole /usr/local directory."
    );
}
