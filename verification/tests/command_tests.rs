use cell_validation::command::{parse_command, CommandParseError};

#[test]
fn parses_program_and_arguments() {
    let c = parse_command("echo hello world").unwrap();
    assert_eq!(c.program, "echo");
    assert_eq!(c.args, vec!["hello".to_string(), "world".to_string()]);
}

#[test]
fn parses_single_program() {
    let c = parse_command("ls").unwrap();
    assert_eq!(c.program, "ls");
    assert!(c.args.is_empty());
}

#[test]
fn collapses_repeated_whitespace() {
    let c = parse_command("  echo \t hello  ").unwrap();
    assert_eq!(c.program, "echo");
    assert_eq!(c.args, vec!["hello".to_string()]);
}

#[test]
fn double_quotes_keep_whitespace() {
    let c = parse_command("sh -c \"sleep 400\"").unwrap();
    assert_eq!(c.program, "sh");
    assert_eq!(c.args, vec!["-c".to_string(), "sleep 400".to_string()]);
}

#[test]
fn single_quotes_keep_whitespace() {
    let c = parse_command("echo 'a b'").unwrap();
    assert_eq!(c.args, vec!["a b".to_string()]);
}

#[test]
fn quoted_run_joins_surrounding_token() {
    let c = parse_command("ab\"cd ef\"gh").unwrap();
    assert_eq!(c.program, "abcd efgh");
    assert!(c.args.is_empty());
}

#[test]
fn other_quote_kind_is_literal_inside_quotes() {
    let c = parse_command("echo \"it's\"").unwrap();
    assert_eq!(c.args, vec!["it's".to_string()]);
}

#[test]
fn unbalanced_quote_fails() {
    assert!(matches!(parse_command("echo \"oops"), Err(CommandParseError::UnclosedQuote)));
    assert!(matches!(parse_command("echo 'oops"), Err(CommandParseError::UnclosedQuote)));
}

#[test]
fn empty_command_fails() {
    assert!(matches!(parse_command(""), Err(CommandParseError::EmptyCommand)));
    assert!(matches!(parse_command("   "), Err(CommandParseError::EmptyCommand)));
}
