use mates::config::Configuration;
use mates::error::MatesError;

fn pairs(ps: &[(&str, &str)]) -> Vec<(String, String)> {
    ps.iter().map(|(k, v)| (k.to_string(), v.to_string())).collect()
}

#[test]
fn full_configuration_is_taken_as_given() {
    let c = Configuration::from_env(pairs(&[
        ("MATES_INDEX", "/tmp/index"),
        ("MATES_DIR", "/tmp/contacts"),
        ("MATES_EDITOR", "vim"),
        ("MATES_GREP", "rg"),
    ]))
    .unwrap();
    assert_eq!(c.index_path, "/tmp/index");
    assert_eq!(c.vdir_path, "/tmp/contacts");
    assert_eq!(c.editor_cmd, "vim");
    assert_eq!(c.grep_cmd, "rg");
}

#[test]
fn index_path_defaults_to_home_and_grep_to_grep() {
    let c = Configuration::from_env(pairs(&[
        ("HOME", "/home/u"),
        ("MATES_DIR", "/tmp/contacts"),
        ("EDITOR", "vi"),
    ]))
    .unwrap();
    assert_eq!(c.index_path, "/home/u/.mates_index");
    assert_eq!(c.editor_cmd, "vi");
    assert_eq!(c.grep_cmd, "grep");
}

#[test]
fn missing_contact_directory_is_a_config_error() {
    let r = Configuration::from_env(pairs(&[("HOME", "/home/u"), ("EDITOR", "vi")]));
    assert!(matches!(r, Err(MatesError::Config(_))));
}

#[test]
fn missing_home_and_index_is_a_config_error() {
    let r = Configuration::from_env(pairs(&[("MATES_DIR", "/d"), ("EDITOR", "vi")]));
    assert!(matches!(r, Err(MatesError::Config(_))));
}

#[test]
fn missing_editor_is_a_config_error() {
    let r = Configuration::from_env(pairs(&[("MATES_INDEX", "/i"), ("MATES_DIR", "/d")]));
    assert!(matches!(r, Err(MatesError::Config(_))));
}

#[test]
fn empty_values_count_as_unset_and_later_pairs_win() {
    let c = Configuration::from_env(pairs(&[
        ("MATES_INDEX", "/first"),
        ("MATES_INDEX", "/second"),
        ("MATES_DIR", "/d"),
        ("EDITOR", "vi"),
        ("MATES_GREP", ""),
    ]))
    .unwrap();
    assert_eq!(c.index_path, "/second");
    assert_eq!(c.grep_cmd, "grep");
}
