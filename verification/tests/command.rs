use shell_bridge::command::CommandSpec;

fn spec_of(parts: &[&str]) -> CommandSpec {
    CommandSpec::new(parts.iter().map(|s| s.to_string()).collect())
}

#[test]
fn joins_statements_with_the_separator() {
    let spec = spec_of(&["echo 1", "read x", "echo got:$x", "echo done"]);
    assert_eq!(spec.command_line(), "echo 1;read x;echo got:$x;echo done");
}

#[test]
fn a_single_statement_is_left_as_it_is() {
    assert_eq!(spec_of(&["exit 1"]).command_line(), "exit 1");
}

#[test]
fn no_statement_gives_an_empty_line() {
    assert_eq!(spec_of(&[]).command_line(), "");
    assert_eq!(spec_of(&[]).len(), 0);
}

#[test]
fn the_shell_gets_one_argument() {
    let argv = spec_of(&["ls", "pwd"]).shell_args();
    assert_eq!(argv, vec!["bash".to_string(), "-c".to_string(), "ls;pwd".to_string()]);
}
