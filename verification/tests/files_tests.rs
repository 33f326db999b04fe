use omagari::files::{
    exported_file_name, filter_project_files, is_project_file_name, validate_project_filename,
    Folder,
};

#[test]
fn folder_paths() {
    assert_eq!(Folder::SavedEffects.to_path(), "saved_effects/");
    assert_eq!(Folder::ExportedEffects.to_path(), "exported_effects/");
}

#[test]
fn validate_accepts_project_names() {
    assert!(validate_project_filename("fire.omagari.ron"));
    assert!(validate_project_filename("a.b.omagari.ron"));
    assert!(validate_project_filename(".omagari.ron"));
}

#[test]
fn validate_matches_anywhere_in_the_name() {
    assert!(validate_project_filename("fire.omagari.ron.bak"));
    assert!(validate_project_filename("x\n.omagari.ron"));
}

#[test]
fn validate_rejects_other_names() {
    assert!(!validate_project_filename(""));
    assert!(!validate_project_filename("fire.ron"));
    assert!(!validate_project_filename("fire.omagari"));
    assert!(!validate_project_filename("fireXomagari.ron"));
    assert!(!validate_project_filename("fire.omagariXron"));
}

#[test]
fn project_file_names_end_with_the_suffix() {
    assert!(is_project_file_name("fire.omagari.ron"));
    assert!(is_project_file_name(".omagari.ron"));
    assert!(!is_project_file_name("fire.omagari.ron.bak"));
    assert!(!is_project_file_name("omagari.ron"));
    assert!(!is_project_file_name(""));
}

#[test]
fn filter_keeps_project_files_in_order() {
    let names = vec![
        "b.omagari.ron".to_string(),
        "notes.txt".to_string(),
        "a.omagari.ron".to_string(),
        "a.hanabi.ron".to_string(),
        "c.omagari.ron".to_string(),
    ];
    let kept = filter_project_files(names);
    assert_eq!(
        kept,
        vec![
            "b.omagari.ron".to_string(),
            "a.omagari.ron".to_string(),
            "c.omagari.ron".to_string()
        ]
    );
}

#[test]
fn filter_of_nothing_is_nothing() {
    assert!(filter_project_files(Vec::new()).is_empty());
    assert!(filter_project_files(vec!["x.ron".to_string()]).is_empty());
}

#[test]
fn export_name_replaces_everything_after_the_first_dot() {
    assert_eq!(exported_file_name("fire.omagari.ron"), "fire.hanabi.ron");
    assert_eq!(exported_file_name("a.b.c"), "a.hanabi.ron");
    assert_eq!(exported_file_name("plain"), "plain.hanabi.ron");
}

#[test]
fn export_name_of_empty_or_dot_names() {
    assert_eq!(exported_file_name(""), ".hanabi.ron");
    assert_eq!(exported_file_name(".hidden"), ".hanabi.ron");
}

#[test]
fn export_name_handles_non_ascii() {
    assert_eq!(exported_file_name("花火.omagari.ron"), "花火.hanabi.ron");
}

#[test]
fn export_name_is_idempotent() {
    let once = exported_file_name("smoke.omagari.ron");
    let twice = exported_file_name(&once);
    assert_eq!(once, twice);
}
