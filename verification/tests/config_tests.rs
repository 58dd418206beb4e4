use run_config::config::lookup;
use run_config::part::part_options;
use run_config::{config_from_vars, get_config, load_config, parse_part, Config, ConfigError, Part};

fn invalid(value: &str) -> ConfigError {
    ConfigError::InvalidValue {
        value: value.to_string(),
        expected: vec!["one".to_string(), "two".to_string()],
    }
}

fn missing_part() -> ConfigError {
    ConfigError::MissingField { field: "part".to_string() }
}

#[test]
fn parses_one_in_any_casing() {
    for s in ["one", "One", "ONE", "oNe"] {
        assert_eq!(parse_part(s), Ok(Part::One));
    }
}

#[test]
fn parses_two_in_any_casing() {
    for s in ["two", "Two", "TWO", "tWo"] {
        assert_eq!(parse_part(s), Ok(Part::Two));
    }
}

#[test]
fn rejects_text_outside_the_closed_set() {
    assert_eq!(parse_part("three"), Err(invalid("three")));
    assert_eq!(parse_part(""), Err(invalid("")));
    assert_eq!(parse_part("one "), Err(invalid("one ")));
    assert_eq!(parse_part("onetwo"), Err(invalid("onetwo")));
}

#[test]
fn rejection_carries_the_original_casing() {
    assert_eq!(parse_part("THREE"), Err(invalid("THREE")));
    assert_eq!(parse_part("OneTwo"), Err(invalid("OneTwo")));
}

#[test]
fn part_options_lists_the_literals_in_order() {
    assert_eq!(part_options(), vec!["one".to_string(), "two".to_string()]);
}

#[test]
fn missing_part_fails_whatever_else_is_set() {
    assert_eq!(load_config(None, None), Err(missing_part()));
    assert_eq!(load_config(None, Some("/data/custom.txt".to_string())), Err(missing_part()));
}

#[test]
fn absent_input_file_takes_the_default() {
    let config = load_config(Some("one".to_string()), None).unwrap();
    assert_eq!(config.part, Part::One);
    assert_eq!(config.input_file, "full.txt");
}

#[test]
fn present_input_file_is_taken_as_is() {
    let config =
        load_config(Some("TWO".to_string()), Some("/data/custom.txt".to_string())).unwrap();
    assert_eq!(config.part, Part::Two);
    assert_eq!(config.input_file, "/data/custom.txt");
}

#[test]
fn invalid_part_names_the_offending_value() {
    assert_eq!(load_config(Some("three".to_string()), None), Err(invalid("three")));
    assert_eq!(
        load_config(Some("three".to_string()), Some("/data/custom.txt".to_string())),
        Err(invalid("three"))
    );
}

fn snapshot(pairs: &[(&str, &str)]) -> Vec<(String, String)> {
    pairs.iter().map(|(k, v)| (k.to_string(), v.to_string())).collect()
}

#[test]
fn snapshot_without_part_fails_regardless_of_other_variables() {
    let vars = snapshot(&[("debug", "1"), ("input_file", "a.txt"), ("verbose", "true")]);
    assert_eq!(config_from_vars(&vars), Err(missing_part()));
}

#[test]
fn snapshot_loads_both_fields() {
    let vars = snapshot(&[("verbose", "true"), ("part", "TWO"), ("input_file", "/data/custom.txt")]);
    let config = config_from_vars(&vars).unwrap();
    assert_eq!(config, Config { part: Part::Two, input_file: "/data/custom.txt".to_string() });
}

#[test]
fn snapshot_defaults_the_input_file() {
    let vars = snapshot(&[("part", "one")]);
    let config = config_from_vars(&vars).unwrap();
    assert_eq!(config, Config { part: Part::One, input_file: "full.txt".to_string() });
}

#[test]
fn lookup_finds_the_first_matching_name() {
    let vars = snapshot(&[("part", "one"), ("input_file", "a.txt")]);
    assert_eq!(lookup(&vars, "part"), Some("one".to_string()));
    assert_eq!(lookup(&vars, "input_file"), Some("a.txt".to_string()));
    assert_eq!(lookup(&vars, "missing"), None);
}

#[test]
fn loading_twice_from_one_snapshot_is_idempotent() {
    let vars = snapshot(&[("part", "One"), ("input_file", "b.txt")]);
    assert_eq!(config_from_vars(&vars), config_from_vars(&vars));
    let broken = snapshot(&[("part", "nine")]);
    assert_eq!(config_from_vars(&broken), config_from_vars(&broken));
    let empty: Vec<(String, String)> = Vec::new();
    assert_eq!(config_from_vars(&empty), config_from_vars(&empty));
}

#[test]
fn environment_without_app_part_reports_the_missing_field() {
    assert_eq!(get_config(), Err(missing_part()));
}

#[test]
fn loading_twice_from_the_environment_is_idempotent() {
    assert_eq!(get_config(), get_config());
}

#[test]
fn part_describes_itself() {
    assert_eq!(Part::One.describe(), "Part One");
    assert_eq!(Part::Two.describe(), "Part Two");
}

#[test]
fn default_input_file_is_full_txt() {
    assert_eq!(Config::default_input_file(), "full.txt");
}

#[test]
fn messages_carry_enough_context() {
    assert_eq!(missing_part().message(), "missing field `part`");
    assert_eq!(
        invalid("three").message(),
        "invalid value `three`, expected one of [\"one\", \"two\"]"
    );
}

#[test]
fn config_equality_is_field_by_field() {
    let a = Config { part: Part::One, input_file: "a.txt".to_string() };
    let b = Config { part: Part::One, input_file: "a.txt".to_string() };
    let c = Config { part: Part::Two, input_file: "a.txt".to_string() };
    let d = Config { part: Part::One, input_file: "b.txt".to_string() };
    assert_eq!(a, b);
    assert_ne!(a, c);
    assert_ne!(a, d);
    assert_ne!(invalid("x"), missing_part());
    assert_ne!(invalid("x"), invalid("y"));
    assert_eq!(invalid("x"), invalid("x"));
}
