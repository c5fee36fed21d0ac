use statusbar::search_path::command_candidates;

#[test]
fn candidates_for_each_directory() {
    let r = command_candidates(&"/usr/bin:/bin".to_string(), &"acpi".to_string());
    assert_eq!(r, vec!["/usr/bin/acpi".to_string(), "/bin/acpi".to_string()]);
}

#[test]
fn empty_pieces_are_kept() {
    let r = command_candidates(&":/opt/x:".to_string(), &"dunst".to_string());
    assert_eq!(r, vec!["/dunst".to_string(), "/opt/x/dunst".to_string(), "/dunst".to_string()]);
}

#[test]
fn empty_search_path_gives_one_candidate() {
    let r = command_candidates(&"".to_string(), &"amixer".to_string());
    assert_eq!(r, vec!["/amixer".to_string()]);
}
