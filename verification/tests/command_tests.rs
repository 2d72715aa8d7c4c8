use rudit::command::{parse_command, tokenize_command, CommandError, EditorCommand};

#[test]
fn tokenize_splits_on_whitespace() {
    let toks = tokenize_command("a b  c");
    assert_eq!(toks, vec!["a".to_string(), "b".to_string(), "c".to_string()]);
}

#[test]
fn tokenize_trims_surrounding_whitespace() {
    let toks = tokenize_command("  hello \t world \n");
    assert_eq!(toks, vec!["hello".to_string(), "world".to_string()]);
}

#[test]
fn tokenize_empty_input_yields_no_tokens() {
    assert_eq!(tokenize_command(""), Vec::<String>::new());
    assert_eq!(tokenize_command("   \t "), Vec::<String>::new());
}

#[test]
fn tokenize_double_quotes_embed_spaces() {
    let toks = tokenize_command("save_as \"my file.txt\"");
    assert_eq!(toks, vec!["save_as".to_string(), "my file.txt".to_string()]);
}

#[test]
fn tokenize_single_quotes_embed_spaces() {
    let toks = tokenize_command("save_as 'my file.txt'");
    assert_eq!(toks, vec!["save_as".to_string(), "my file.txt".to_string()]);
}

#[test]
fn tokenize_quoted_segment_splices_into_token() {
    let toks = tokenize_command("ab\"c d\"e");
    assert_eq!(toks, vec!["abc de".to_string()]);
}

#[test]
fn tokenize_unterminated_quote_extends_to_end() {
    let toks = tokenize_command("save_as 'abc def");
    assert_eq!(toks, vec!["save_as".to_string(), "abc def".to_string()]);
}

#[test]
fn tokenize_empty_quotes_yield_empty_token() {
    let toks = tokenize_command("a \"\" b");
    assert_eq!(toks, vec!["a".to_string(), "".to_string(), "b".to_string()]);
}

#[test]
fn parse_set_filename_with_argument() {
    let cmd = parse_command("set_filename notes.txt").unwrap();
    assert_eq!(cmd, EditorCommand::SetFilename("notes.txt".to_string()));
}

#[test]
fn parse_set_filename_without_argument_is_empty() {
    let cmd = parse_command("set_filename").unwrap();
    assert_eq!(cmd, EditorCommand::SetFilename("".to_string()));
}

#[test]
fn parse_save_as_with_argument() {
    let cmd = parse_command("save_as notes.txt").unwrap();
    assert_eq!(cmd, EditorCommand::SaveAs("notes.txt".to_string()));
}

#[test]
fn parse_save_as_quoted_argument() {
    let cmd = parse_command("save_as \"a b.txt\"").unwrap();
    assert_eq!(cmd, EditorCommand::SaveAs("a b.txt".to_string()));
}

#[test]
fn parse_save_as_without_argument_is_missing_argument() {
    assert_eq!(parse_command("save_as"), Err(CommandError::MissingArgument));
}

#[test]
fn parse_unknown_verb_is_unknown_command() {
    assert_eq!(parse_command("frobnicate x"), Err(CommandError::UnknownCommand));
}

#[test]
fn parse_empty_input_is_empty_command() {
    assert_eq!(parse_command(""), Err(CommandError::EmptyCommand));
    assert_eq!(parse_command("   "), Err(CommandError::EmptyCommand));
}

#[test]
fn parse_ignores_extra_arguments() {
    let cmd = parse_command("save_as one two three").unwrap();
    assert_eq!(cmd, EditorCommand::SaveAs("one".to_string()));
}
