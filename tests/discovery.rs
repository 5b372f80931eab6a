use sample_presets::discovery::{get_all_samples, WalkEntry};

fn dir(name: &str) -> Option<WalkEntry> {
    Some(WalkEntry::new(true, name.to_string()))
}

fn file(name: &str) -> Option<WalkEntry> {
    Some(WalkEntry::new(false, name.to_string()))
}

#[test]
fn missing_root_discovers_nothing() {
    assert!(get_all_samples(&vec![None]).is_empty());
}

#[test]
fn empty_root_discovers_nothing() {
    assert!(get_all_samples(&vec![dir("samples")]).is_empty());
    assert!(get_all_samples(&Vec::new()).is_empty());
}

#[test]
fn nested_files_are_found_by_base_name() {
    let found = get_all_samples(&vec![dir("samples"), file("a.wav"), dir("sub"), file("b.wav")]);
    assert_eq!(found, vec!["a.wav", "b.wav"]);
}

#[test]
fn unreadable_entries_are_skipped() {
    let found = get_all_samples(&vec![dir("samples"), None, file("a.wav"), None, file("a.wav")]);
    assert_eq!(found, vec!["a.wav", "a.wav"]);
}
