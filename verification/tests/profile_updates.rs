use go_installer::export_line;
use go_installer::updated_profile_content;

#[test]
fn export_line_is_newline_delimited() {
    assert_eq!(
        export_line("/usr/local/go/bin"),
        "\nexport PATH=$PATH:/usr/local/go/bin\n"
    );
}

#[test]
fn a_fresh_profile_gains_exactly_the_export_line() {
    let profile = "# /etc/profile\numask 022\n";
    let updated = updated_profile_content(profile, "/usr/local/go/bin").unwrap();
    assert_eq!(
        updated,
        "# /etc/profile\numask 022\n\nexport PATH=$PATH:/usr/local/go/bin\n"
    );
}

#[test]
fn a_profile_that_mentions_the_directory_is_left_alone() {
    let profile = "# /etc/profile\nexport PATH=$PATH:/usr/local/go/bin\n";
    assert!(updated_profile_content(profile, "/usr/local/go/bin").is_none());
}

#[test]
fn updating_twice_equals_updating_once() {
    let profile = "# /etc/profile\n";
    let once = updated_profile_content(profile, "/usr/local/go/bin").unwrap();
    assert!(updated_profile_content(&once, "/usr/local/go/bin").is_none());
}

#[test]
fn idempotence_holds_for_an_empty_profile_too() {
    let once = updated_profile_content("", "/opt/go/bin").unwrap();
    assert_eq!(once, "\nexport PATH=$PATH:/opt/go/bin\n");
    assert!(updated_profile_content(&once, "/opt/go/bin").is_none());
}

#[test]
fn the_containment_test_is_a_plain_substring_test() {
    // Deliberately coarse: a mention inside an unrelated line counts.
    let profile = "# see /usr/local/go/bin for the toolchain\n";
    assert!(updated_profile_content(profile, "/usr/local/go/bin").is_none());
}

#[test]
fn a_different_directory_is_still_appended() {
    let profile = "export PATH=$PATH:/usr/local/go/bin\n";
    let updated = updated_profile_content(profile, "/opt/go/bin").unwrap();
    assert_eq!(
        updated,
        "export PATH=$PATH:/usr/local/go/bin\n\nexport PATH=$PATH:/opt/go/bin\n"
    );
}
