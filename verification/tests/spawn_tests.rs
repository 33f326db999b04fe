use omagari::settings::editor_texture_slot;
use omagari::spawn::{parent_choices, resolve_parents, SpawnEntry};

fn entry(name: &str, parent: Option<&str>) -> SpawnEntry {
    SpawnEntry { name: name.to_string(), parent: parent.map(|p| p.to_string()) }
}

#[test]
fn parents_are_found_among_earlier_effects() {
    let entries = vec![entry("smoke", None), entry("sparks", Some("smoke")), entry("glow", Some("sparks"))];
    assert_eq!(resolve_parents(&entries), vec![None, Some(0), Some(1)]);
}

#[test]
fn later_parents_are_not_found() {
    let entries = vec![entry("sparks", Some("smoke")), entry("smoke", None)];
    assert_eq!(resolve_parents(&entries), vec![None, None]);
}

#[test]
fn missing_parents_give_none() {
    let entries = vec![entry("a", Some("nothing")), entry("b", None)];
    assert_eq!(resolve_parents(&entries), vec![None, None]);
}

#[test]
fn an_effect_named_as_its_own_parent_follows_itself() {
    let entries = vec![entry("loop", Some("loop"))];
    assert_eq!(resolve_parents(&entries), vec![Some(0)]);
}

#[test]
fn the_latest_effect_of_a_name_is_taken() {
    let entries = vec![
        entry("a", None),
        entry("a", None),
        entry("b", Some("a")),
        entry("a", Some("a")),
        entry("c", Some("a")),
    ];
    assert_eq!(resolve_parents(&entries), vec![None, None, Some(1), Some(3), Some(3)]);
}

#[test]
fn no_effects_no_parents() {
    assert!(resolve_parents(&Vec::new()).is_empty());
}

#[test]
fn parent_choices_leave_out_the_own_name() {
    let names = vec!["a".to_string(), "b".to_string(), "a".to_string(), "c".to_string()];
    assert_eq!(parent_choices(&names, &"a".to_string()), vec![1, 3]);
    assert_eq!(parent_choices(&names, &"z".to_string()), vec![0, 1, 2, 3]);
    assert!(parent_choices(&Vec::new(), &"a".to_string()).is_empty());
}

#[test]
fn texture_slot_defaults_to_the_first() {
    assert_eq!(editor_texture_slot(None), 0);
    assert_eq!(editor_texture_slot(Some(4)), 4);
}

#[test]
fn effects_added_later_do_not_change_earlier_parents() {
    let short = vec![entry("a", None), entry("b", Some("a"))];
    let long = vec![entry("a", None), entry("b", Some("a")), entry("a", Some("b"))];
    let p_short = resolve_parents(&short);
    let p_long = resolve_parents(&long);
    assert_eq!(p_long[..2], p_short[..]);
    assert_eq!(p_long[2], Some(1));
}
