use technopolis::command::parse_command;
use technopolis::Command;

#[test]
fn parse_lowercase_init() {
    assert_eq!(parse_command(Some("init")), Command::Init);
}

#[test]
fn parse_uppercase_init() {
    assert_eq!(parse_command(Some("INIT")), Command::Init);
}

#[test]
fn parse_capitalized_init() {
    assert_eq!(parse_command(Some("Init")), Command::Init);
}

#[test]
fn parse_mixed_case_init() {
    assert_eq!(parse_command(Some("iNiT")), Command::Init);
}

#[test]
fn parse_absent_token() {
    assert_eq!(parse_command(None), Command::Absent);
}

#[test]
fn parse_empty_token() {
    assert_eq!(parse_command(Some("")), Command::Absent);
}

#[test]
fn parse_unknown_keeps_original_spelling() {
    assert_eq!(
        parse_command(Some("frobnicate")),
        Command::Unknown(String::from("frobnicate"))
    );
    assert_eq!(
        parse_command(Some("FrobNicate")),
        Command::Unknown(String::from("FrobNicate"))
    );
}

#[test]
fn parse_near_miss_is_unknown() {
    assert_eq!(
        parse_command(Some("initial")),
        Command::Unknown(String::from("initial"))
    );
    assert_eq!(parse_command(Some("ini")), Command::Unknown(String::from("ini")));
}
