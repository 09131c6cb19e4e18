use display_switch::command_runner::{
    classify_output, join_then_split, plan_command, switch, CommandFailure, CommandPlan,
    FailureKind, StreamText,
};

fn spawn_of(plan: CommandPlan) -> (String, Vec<String>) {
    match plan {
        CommandPlan::Spawn { executable, args } => (executable, args),
        CommandPlan::NoOp => panic!("expected a spawn, got a no-op"),
        CommandPlan::Invalid => panic!("expected a spawn, got an invalid line"),
    }
}

#[test]
fn empty_command_is_a_no_op() {
    assert!(matches!(plan_command(""), CommandPlan::NoOp));
}

#[test]
fn blank_command_is_a_no_op() {
    assert!(matches!(plan_command(" \t  \n "), CommandPlan::NoOp));
}

#[test]
fn first_token_is_the_executable() {
    let (exe, args) = spawn_of(plan_command("echo hello world"));
    assert_eq!(exe, "echo");
    assert_eq!(args, vec!["hello".to_string(), "world".to_string()]);
}

#[test]
fn quoting_keeps_an_argument_whole() {
    let (exe, args) = spawn_of(plan_command("sh -c 'echo hi there'"));
    assert_eq!(exe, "sh");
    assert_eq!(args, vec!["-c".to_string(), "echo hi there".to_string()]);
}

#[test]
fn unterminated_quote_is_invalid() {
    assert!(matches!(plan_command("echo 'oops"), CommandPlan::Invalid));
}

#[test]
fn switch_without_a_command_plans_nothing() {
    assert!(switch(None).is_none());
}

#[test]
fn switch_with_a_command_plans_it() {
    let plan = switch(Some("notify-send done")).expect("a plan was owed");
    let (exe, args) = spawn_of(plan);
    assert_eq!(exe, "notify-send");
    assert_eq!(args, vec!["done".to_string()]);
}

#[test]
fn switch_with_a_blank_command_plans_a_no_op() {
    let plan = switch(Some("  ")).expect("a plan was owed");
    assert!(matches!(plan, CommandPlan::NoOp));
}

#[test]
fn join_then_split_returns_the_arguments_unchanged() {
    let tokens = vec!["echo".to_string(), "hello world".to_string(), "it's".to_string()];
    assert_eq!(join_then_split(&tokens), tokens);
}

#[test]
fn join_then_split_on_plain_words() {
    let tokens = vec!["cp".to_string(), "a.txt".to_string(), "b.txt".to_string()];
    assert_eq!(join_then_split(&tokens), tokens);
}

#[test]
fn join_then_split_keeps_an_empty_argument() {
    let tokens = vec!["printf".to_string(), "".to_string()];
    assert_eq!(join_then_split(&tokens), tokens);
}

#[test]
fn join_then_split_on_no_arguments() {
    let tokens: Vec<String> = Vec::new();
    assert_eq!(join_then_split(&tokens), tokens);
}

fn failure_of(r: Result<(), CommandFailure>) -> CommandFailure {
    match r {
        Ok(()) => panic!("expected a failure"),
        Err(f) => f,
    }
}

#[test]
fn exit_code_zero_is_the_one_success() {
    assert!(classify_output(Some(0), Vec::new(), Vec::new()).is_ok());
}

#[test]
fn nonzero_exit_is_a_failure_with_the_code() {
    let f = failure_of(classify_output(Some(1), Vec::new(), Vec::new()));
    assert!(matches!(f.kind, FailureKind::ExitCode(1)));
    assert_eq!(f.message(), "Exited with status 1\n No stdout\n No stderr\n");
}

#[test]
fn negative_exit_code_is_rendered_with_its_sign() {
    let f = failure_of(classify_output(Some(-9), Vec::new(), Vec::new()));
    assert_eq!(f.message(), "Exited with status -9\n No stdout\n No stderr\n");
}

#[test]
fn signal_termination_is_noted() {
    let f = failure_of(classify_output(None, Vec::new(), Vec::new()));
    assert!(matches!(f.kind, FailureKind::Signal));
    assert_eq!(f.message(), "Exited because of a signal\n No stdout\n No stderr\n");
}

#[test]
fn captured_text_output_is_quoted_in_the_message() {
    let f = failure_of(classify_output(Some(2), b"out line\n".to_vec(), b"err line\n".to_vec()));
    assert!(matches!(&f.stdout, StreamText::Text(s) if s == "out line\n"));
    assert_eq!(
        f.message(),
        "Exited with status 2\n Stdout = [out line\n]\n Stderr = [err line\n]\n"
    );
}

#[test]
fn output_that_is_not_text_is_still_reported() {
    let f = failure_of(classify_output(Some(3), vec![0xff, 0xfe, 0x00], Vec::new()));
    assert!(matches!(f.stdout, StreamText::NotText));
    assert_eq!(f.message(), "Exited with status 3\n Stdout was not UTF-8 No stderr\n");
}
