use vim_anywhere::str_eq;
use vim_anywhere::template::Shell;
use vim_anywhere::template::get_shell_from;

#[test]
fn str_eq_equal_strings() {
    assert!(str_eq("ab", "ab"));
    assert!(str_eq("", ""));
}

#[test]
fn str_eq_different_strings() {
    assert!(!str_eq("ab", "abc"));
    assert!(!str_eq("%s", "%sx"));
    assert!(!str_eq("a", "b"));
}

#[test]
fn parse_default_template() {
    let sh = Shell::parse("xterm -e \"%s\"").expect("default template parses");
    assert_eq!(sh.path, "xterm");
    assert_eq!(sh.argv, vec!["-e".to_string()]);
    assert_eq!(sh.cmd_idx, 1);
}

#[test]
fn parse_terminator_template() {
    let sh = Shell::parse("terminator -e \"%s\"").expect("terminator template parses");
    assert_eq!(sh.path, "terminator");
    assert_eq!(sh.argv, vec!["-e".to_string()]);
    assert_eq!(sh.cmd_idx, 1);
}

#[test]
fn parse_without_placeholder_is_absent() {
    assert!(Shell::parse("xterm -e").is_none());
}

#[test]
fn parse_embedded_placeholder_does_not_count() {
    assert!(Shell::parse("xterm -e %sx").is_none());
    assert!(Shell::parse("xterm -e x%s").is_none());
}

#[test]
fn parse_placeholder_as_first_token_does_not_count() {
    assert!(Shell::parse("%s").is_none());
}

#[test]
fn parse_malformed_quoting_is_absent() {
    assert!(Shell::parse("xterm -e \"%s").is_none());
}

#[test]
fn parse_empty_template_is_absent() {
    assert!(Shell::parse("").is_none());
}

#[test]
fn parse_keeps_only_first_placeholder() {
    let sh = Shell::parse("term -a %s -b %s").expect("template parses");
    assert_eq!(sh.path, "term");
    assert_eq!(sh.cmd_idx, 1);
    assert_eq!(sh.argv, vec!["-a".to_string(), "-b".to_string(), "%s".to_string()]);
}

#[test]
fn resolve_round_trip_reproduces_argument_list() {
    let sh = Shell::parse("term -a %s -b").expect("template parses");
    assert_eq!(sh.path, "term");
    assert_eq!(sh.cmd_idx, 1);
    let argv = sh.resolve("vim +star /tmp/f");
    assert_eq!(
        argv,
        vec!["-a".to_string(), "vim +star /tmp/f".to_string(), "-b".to_string()]
    );
}

#[test]
fn resolve_at_front_and_back() {
    let front = Shell::parse("t %s -x").expect("template parses");
    assert_eq!(front.resolve("C"), vec!["C".to_string(), "-x".to_string()]);
    let back = Shell::parse("t -x %s").expect("template parses");
    assert_eq!(back.resolve("C"), vec!["-x".to_string(), "C".to_string()]);
}

#[test]
fn get_shell_from_absent_uses_default() {
    let sh = get_shell_from(None).expect("built-in default parses");
    assert_eq!(sh.path, "xterm");
    assert_eq!(sh.argv, vec!["-e".to_string()]);
    assert_eq!(sh.cmd_idx, 1);
}

#[test]
fn get_shell_from_present_value_is_parsed() {
    let sh = get_shell_from(Some("terminator -e \"%s\"".to_string())).expect("value parses");
    assert_eq!(sh.path, "terminator");
}

#[test]
fn get_shell_from_unparsable_value_is_absent() {
    assert!(get_shell_from(Some("terminator -e".to_string())).is_none());
    assert!(get_shell_from(Some("xterm -e \"%s".to_string())).is_none());
}
