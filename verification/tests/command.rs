use mcp_multi_tool::command::{command_from_words, parse_command, CommandError};

#[test]
fn command_line_is_split_like_a_shell() {
    let (program, args) = parse_command("echo 'a b' \"c d\" e\\ f").expect("parsed");
    assert_eq!(program, "echo");
    assert_eq!(args, vec!["a b".to_string(), "c d".to_string(), "e f".to_string()]);
    let (alone, none) = parse_command("  server  ").expect("parsed");
    assert_eq!(alone, "server");
    assert!(none.is_empty());
}

#[test]
fn command_line_errors() {
    assert_eq!(parse_command("run 'unterminated"), Err(CommandError::Unparsable));
    assert_eq!(parse_command(""), Err(CommandError::Empty));
    assert_eq!(parse_command("   "), Err(CommandError::Empty));
    assert_eq!(parse_command("# only a comment"), Err(CommandError::Empty));
    assert_eq!(CommandError::Empty.message("x"), "empty command");
    let cause = shell_words::split("run 'x").unwrap_err().to_string();
    assert_eq!(
        CommandError::Unparsable.message("run 'x"),
        format!("failed to parse command '{}': {}", "run 'x", cause)
    );
}

#[test]
fn words_become_program_and_arguments() {
    assert_eq!(command_from_words(None), Err(CommandError::Unparsable));
    assert_eq!(command_from_words(Some(vec![])), Err(CommandError::Empty));
    assert_eq!(
        command_from_words(Some(vec!["a".into()])),
        Ok(("a".to_string(), vec![]))
    );
    assert_eq!(
        command_from_words(Some(vec!["a".into(), "b".into(), "c".into()])),
        Ok(("a".to_string(), vec!["b".to_string(), "c".to_string()]))
    );
}
