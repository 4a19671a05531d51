use rmm_agent::cli::{parse_args, ArgError, CliCommand};

fn args(v: &[&str]) -> Vec<String> {
    v.iter().map(|s| s.to_string()).collect()
}

#[test]
fn default_is_run() {
    let inv = parse_args(&args(&[])).unwrap();
    assert_eq!(inv.command, CliCommand::Run);
    assert!(inv.url.is_none());
}

#[test]
fn url_override_with_run() {
    let inv = parse_args(&args(&["--url", "https://b.example", "run"])).unwrap();
    assert_eq!(inv.command, CliCommand::Run);
    assert_eq!(inv.url.as_deref(), Some("https://b.example"));
}

#[test]
fn other_commands() {
    assert_eq!(parse_args(&args(&["status"])).unwrap().command, CliCommand::Status);
    assert_eq!(parse_args(&args(&["--reset"])).unwrap().command, CliCommand::Reset);
    assert_eq!(parse_args(&args(&["install"])).unwrap().command, CliCommand::Install);
    assert_eq!(parse_args(&args(&["stop"])).unwrap().command, CliCommand::Stop);
}

#[test]
fn bad_command_lines() {
    assert_eq!(parse_args(&args(&["--url"])).err(), Some(ArgError::MissingUrl));
    assert_eq!(parse_args(&args(&["run", "--bogus"])).err(), Some(ArgError::Unknown(1)));
}
