use sample_presets::sample_set::SampleSet;
use sample_presets::store::{add_preset, delete_preset, find_preset, read_presets};

fn preset(name: &str, first: &str) -> SampleSet {
    let mut samples: [String; 8] = Default::default();
    samples[0] = first.to_string();
    SampleSet::new(name.to_string(), samples)
}

fn names(c: &[SampleSet]) -> Vec<String> {
    c.iter().map(|p| format!("{}:{}", p.name, p.samples[0])).collect()
}

#[test]
fn missing_or_corrupt_file_loads_empty() {
    assert!(read_presets(None).is_empty());
}

#[test]
fn load_keeps_parsed_collection() {
    let c = read_presets(Some(vec![preset("a", "1"), preset("b", "2")]));
    assert_eq!(names(&c), vec!["a:1", "b:2"]);
}

#[test]
fn loading_twice_yields_equal_collections() {
    let first = read_presets(Some(vec![preset("a", "1"), preset("b", "2")]));
    let second = read_presets(Some(vec![preset("a", "1"), preset("b", "2")]));
    assert!(first == second);
}

#[test]
fn add_appends_at_end() {
    let mut c = vec![preset("a", "1"), preset("b", "2")];
    add_preset(&mut c, preset("a", "3"));
    assert_eq!(names(&c), vec!["a:1", "b:2", "a:3"]);
}

#[test]
fn add_after_corrupt_load_gives_single_record() {
    let mut c = read_presets(None);
    add_preset(&mut c, preset("new", "kick.wav"));
    assert_eq!(names(&c), vec!["new:kick.wav"]);
}

#[test]
fn delete_removes_every_match() {
    let c = vec![preset("x", "A"), preset("y", "B"), preset("x", "C")];
    let r = delete_preset(c, &"x".to_string());
    assert_eq!(names(&r), vec!["y:B"]);
}

#[test]
fn delete_absent_name_is_noop() {
    let c = vec![preset("x", "A"), preset("y", "B")];
    let r = delete_preset(c, &"z".to_string());
    assert_eq!(names(&r), vec!["x:A", "y:B"]);
}

#[test]
fn delete_on_empty_collection() {
    assert!(delete_preset(Vec::new(), &"x".to_string()).is_empty());
}

#[test]
fn info_on_empty_collection_is_not_found() {
    assert!(find_preset(&Vec::new(), &"x".to_string()).is_none());
}

#[test]
fn info_returns_first_match() {
    let c = vec![preset("y", "B"), preset("x", "A"), preset("x", "C")];
    let found = find_preset(&c, &"x".to_string()).unwrap();
    assert_eq!(found.samples[0], "A");
    assert!(find_preset(&c, &"z".to_string()).is_none());
}
