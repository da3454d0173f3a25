use to_be_free::task::{parse_cmd, XTaskCmd};

#[test]
fn parse_cmd_recognizes_the_three_commands() {
    assert_eq!(parse_cmd("test"), Some(XTaskCmd::Test));
    assert_eq!(parse_cmd("build"), Some(XTaskCmd::Build));
    assert_eq!(parse_cmd("run"), Some(XTaskCmd::Run));
}

#[test]
fn parse_cmd_rejects_unknown_words() {
    assert_eq!(parse_cmd(""), None);
    assert_eq!(parse_cmd("tests"), None);
    assert_eq!(parse_cmd("Run"), None);
    assert_eq!(parse_cmd("bench"), None);
}
