use ota_cli::error::Error;

#[test]
fn error_messages_have_their_headings() {
    assert_eq!(Error::Args("x".to_string()).message(), "Command args: x");
    assert_eq!(Error::Auth("x".to_string()).message(), "Authorization: x");
    assert_eq!(Error::Command("x".to_string()).message(), "Command input: x");
    assert_eq!(Error::Parse("x".to_string()).message(), "Parse error: x");
    assert_eq!(Error::Token("x".to_string()).message(), "Parsing access token: x");
    assert_eq!(Error::Uuid("x".to_string()).message(), "Parsing UUID: x");
}

#[test]
fn not_found_message_with_and_without_hint() {
    assert_eq!(
        Error::NotFound("Config file".to_string(), Some("Please run `ota init` first.".to_string())).message(),
        "Config file not found. Please run `ota init` first."
    );
    assert_eq!(Error::NotFound("Config file".to_string(), None).message(), "Config file not found.");
}

#[test]
fn url_error_message_describes_the_parse_failure() {
    let e = url::Url::parse("no scheme").expect_err("relative URL");
    let m = Error::Url(e).message();
    assert_eq!(m, format!("Parsing URL: {}", e));
}
