use statbeacon::cli::CliArgs;
use statbeacon::cli::parse_cli_args;

#[test]
fn config_flag_yields_path() {
    let args = vec![String::from("--config"), String::from("foo.toml")];
    let parsed = parse_cli_args(&args);
    assert_eq!(parsed.config, "foo.toml");
}

#[test]
fn short_flag_yields_path() {
    let args = vec![String::from("-c"), String::from("bar.toml")];
    let parsed = parse_cli_args(&args);
    assert_eq!(parsed.config, "bar.toml");
}

#[test]
fn no_flag_yields_default() {
    let args = vec![String::from("serve"), String::from("--verbose")];
    let parsed = parse_cli_args(&args);
    assert_eq!(parsed.config, "StatBeacon.toml");
}

#[test]
fn empty_args_yield_default() {
    let args: Vec<String> = Vec::new();
    let parsed = parse_cli_args(&args);
    assert_eq!(parsed.config, "StatBeacon.toml");
}

#[test]
fn flag_without_value_yields_default() {
    let args = vec![String::from("--config")];
    let parsed = parse_cli_args(&args);
    assert_eq!(parsed.config, "StatBeacon.toml");
}

#[test]
fn first_flag_with_value_wins() {
    let args = vec![
        String::from("-c"),
        String::from("first.toml"),
        String::from("--config"),
        String::from("second.toml"),
    ];
    let parsed = parse_cli_args(&args);
    assert_eq!(parsed.config, "first.toml");
}

#[test]
fn default_args_use_default_path() {
    let parsed = CliArgs::default();
    assert_eq!(parsed.config, "StatBeacon.toml");
}
