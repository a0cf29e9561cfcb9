use shell_env::EnvironmentMap;

fn owned(pairs: &[(&str, &str)]) -> Vec<(String, String)> {
    pairs.iter().map(|(name, value)| (name.to_string(), value.to_string())).collect()
}

fn sorted(mut pairs: Vec<(String, String)>) -> Vec<(String, String)> {
    pairs.sort();
    pairs
}

#[test]
fn new_environment_defines_nothing() {
    let env = EnvironmentMap::new();
    assert_eq!(env.len(), 0);
    assert!(!env.contains_key("TERM"));
    assert_eq!(env.get("TERM"), None);
    assert!(env.into_pairs().is_empty());
}

#[test]
fn insert_binds_a_new_name() {
    let mut env = EnvironmentMap::new();
    env.insert("EDITOR".to_string(), "vi".to_string());
    assert_eq!(env.len(), 1);
    assert!(env.contains_key("EDITOR"));
    assert_eq!(env.get("EDITOR"), Some(&"vi".to_string()));
}

#[test]
fn insert_replaces_the_value_of_a_known_name() {
    let mut env = EnvironmentMap::new();
    env.insert("EDITOR".to_string(), "vi".to_string());
    env.insert("PAGER".to_string(), "less".to_string());
    env.insert("EDITOR".to_string(), "emacs".to_string());
    assert_eq!(env.len(), 2);
    assert_eq!(env.get("EDITOR"), Some(&"emacs".to_string()));
    assert_eq!(env.get("PAGER"), Some(&"less".to_string()));
    assert_eq!(
        sorted(env.into_pairs()),
        owned(&[("EDITOR", "emacs"), ("PAGER", "less")])
    );
}

#[test]
fn get_tells_an_empty_value_from_a_missing_name() {
    let mut env = EnvironmentMap::new();
    env.insert("EMPTY".to_string(), String::new());
    assert_eq!(env.get("EMPTY"), Some(&String::new()));
    assert!(env.contains_key("EMPTY"));
    assert_eq!(env.get("MISSING"), None);
    assert!(!env.contains_key("MISSING"));
}

#[test]
fn names_are_compared_exactly() {
    let mut env = EnvironmentMap::new();
    env.insert("Path".to_string(), "a".to_string());
    env.insert("PATH".to_string(), "b".to_string());
    env.insert("PATH ".to_string(), "c".to_string());
    assert_eq!(env.len(), 3);
    assert_eq!(env.get("Path"), Some(&"a".to_string()));
    assert_eq!(env.get("PATH"), Some(&"b".to_string()));
    assert_eq!(env.get("PATH "), Some(&"c".to_string()));
    assert_eq!(env.get("path"), None);
    assert_eq!(env.get("PAT"), None);
    assert_eq!(env.get(""), None);
}

#[test]
fn the_empty_name_is_a_name_like_any_other() {
    let mut env = EnvironmentMap::new();
    env.insert(String::new(), "x".to_string());
    assert_eq!(env.get(""), Some(&"x".to_string()));
    assert_eq!(env.len(), 1);
}

#[test]
fn from_pairs_keeps_every_distinct_name() {
    let env = EnvironmentMap::from_pairs(owned(&[("A", "1"), ("B", "2"), ("C", "3")]));
    assert_eq!(env.len(), 3);
    assert_eq!(env.get("A"), Some(&"1".to_string()));
    assert_eq!(env.get("B"), Some(&"2".to_string()));
    assert_eq!(env.get("C"), Some(&"3".to_string()));
}

#[test]
fn from_pairs_lets_the_last_value_of_a_name_win() {
    let env = EnvironmentMap::from_pairs(owned(&[("A", "1"), ("B", "2"), ("A", "3"), ("A", "4")]));
    assert_eq!(env.len(), 2);
    assert_eq!(env.get("A"), Some(&"4".to_string()));
    assert_eq!(env.get("B"), Some(&"2".to_string()));
}

#[test]
fn from_pairs_of_nothing_is_the_empty_environment() {
    let env = EnvironmentMap::from_pairs(Vec::new());
    assert_eq!(env.len(), 0);
    assert!(env.into_pairs().is_empty());
}

#[test]
fn into_pairs_gives_each_name_once() {
    let env = EnvironmentMap::from_pairs(owned(&[("A", "1"), ("B", "2"), ("A", "3")]));
    assert_eq!(sorted(env.into_pairs()), owned(&[("A", "3"), ("B", "2")]));
}

#[test]
fn into_pairs_and_from_pairs_round_trip() {
    let pairs = owned(&[("HOME", "/home/u"), ("LANG", "C"), ("SHELL", "/bin/sh")]);
    let back = EnvironmentMap::from_pairs(pairs.clone()).into_pairs();
    assert_eq!(sorted(back), sorted(pairs));
}

#[test]
fn values_beyond_ascii_are_kept_as_they_are() {
    let mut env = EnvironmentMap::new();
    env.insert("GRUSS".to_string(), "grüß dich, 世界".to_string());
    env.insert("NAMÉ".to_string(), "v".to_string());
    assert_eq!(env.get("GRUSS"), Some(&"grüß dich, 世界".to_string()));
    assert_eq!(env.get("NAMÉ"), Some(&"v".to_string()));
    assert_eq!(env.get("NAME"), None);
}
