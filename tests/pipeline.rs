use mommy_lib::compiler::{parse_line, transpile, Compilation, TranspileError};
use mommy_lib::errors::MommyLangError;
use mommy_lib::lexer::insert_token;
use mommy_lib::syntax::ScopeType;

fn line(state: &mut Compilation, text: &str) -> Result<String, MommyLangError> {
    let tokens = insert_token(text);
    parse_line(&tokens, state)
}

#[test]
fn scalar_declaration_then_redeclaration() {
    let mut state = Compilation::new();
    assert_eq!(line(&mut state, "mayihave 5 in x as int"), Ok("int x = 5;".to_string()));
    assert_eq!(
        line(&mut state, "mayihave 7 in x as int"),
        Err(MommyLangError::VariableAlreadyExists)
    );
}

#[test]
fn divide_by_literal_zero_is_refused() {
    let mut state = Compilation::new();
    line(&mut state, "mayihave 10 in x as int").unwrap();
    assert_eq!(line(&mut state, "divide x with 0"), Err(MommyLangError::DivideByZero));
    assert_eq!(line(&mut state, "divide x with y"), Err(MommyLangError::UndeclaredVariable));
    assert_eq!(line(&mut state, "divide x with 2"), Ok("x = x / 2;".to_string()));
    assert_eq!(line(&mut state, "divide x with 0.0"), Ok("x = x / 0.0;".to_string()));
}

#[test]
fn array_write_checks_bounds() {
    let mut state = Compilation::new();
    assert_eq!(line(&mut state, "group 5 in arr as int"), Ok("int arr[5] = {0};".to_string()));
    assert_eq!(line(&mut state, "replace arr in 5 with 1"), Err(MommyLangError::AccessViolation));
    assert_eq!(line(&mut state, "replace arr in 4 with 1"), Ok("arr[4] = 1;".to_string()));
}

#[test]
fn unclosed_loop_fails_at_end_of_file() {
    assert_eq!(transpile("punishme 3\nsay 1\n"), Err(TranspileError::UnclosedBlock));
    assert_eq!(
        TranspileError::UnclosedBlock.message(),
        "You opened a door and forgot to close it. Were you raised in a barn? Close your blocks."
    );
}

#[test]
fn done_without_block_is_refused() {
    let mut state = Compilation::new();
    assert_eq!(line(&mut state, "done"), Err(MommyLangError::UnexpectedDone));
    assert_eq!(
        transpile("say 1\ndone"),
        Err(TranspileError::Line(2, MommyLangError::UnexpectedDone))
    );
}

#[test]
fn break_and_else_follow_the_scope_stack() {
    let mut state = Compilation::new();
    assert_eq!(line(&mut state, "satisfied"), Err(MommyLangError::UnexpectedSatisfied));
    assert_eq!(line(&mut state, "or"), Err(MommyLangError::OrphanElse));
    line(&mut state, "punishme 2").unwrap();
    assert_eq!(line(&mut state, "or"), Err(MommyLangError::OrphanElse));
    assert_eq!(line(&mut state, "ask if x > 1"), Ok("if (x > 1) {".to_string()));
    assert_eq!(line(&mut state, "or"), Ok("}else {".to_string()));
    // a loop anywhere below lets `satisfied` through
    assert_eq!(line(&mut state, "satisfied"), Ok("break;".to_string()));
    assert_eq!(state.scopes, vec![ScopeType::Loop, ScopeType::Condition]);
    assert_eq!(line(&mut state, "done"), Ok("}".to_string()));
    assert_eq!(line(&mut state, "done"), Ok("}".to_string()));
    assert!(state.scopes.is_empty());
}

#[test]
fn compiling_twice_gives_the_same_text() {
    let source = "makeme listen_and_read\nmayihave 1.5 in f as float\nsay f\npunishme 3\nsay \"Hi there\"\ndone\n";
    let first = transpile(source);
    let second = transpile(source);
    assert!(first.is_ok());
    assert_eq!(first, second);
}

#[test]
fn say_literal_and_float_variable() {
    let mut state = Compilation::new();
    assert_eq!(line(&mut state, "say \"Hello\""), Ok("printf(\"Hello\\n\");".to_string()));
    line(&mut state, "mayihave 2.5 in x as float").unwrap();
    assert_eq!(line(&mut state, "say x"), Ok("printf(\"%f\\n\", x);".to_string()));
}

#[test]
fn whole_program_output() {
    let source = "makeme listen_and_read\nmakeme listen_and_read\n\n  mayihave 3 in n as int  \npunishme n\nsay n\ndone\nleave";
    let expected = "#include <stdio.h>\n\nint main(){\n    int n = 3;\n    for (int i = 0; i < n; i++) {\n    printf(\"%d\\n\", n);\n    }\n    return 0;\n}\n";
    assert_eq!(transpile(source), Ok(expected.to_string()));
}

#[test]
fn program_without_headers_has_no_blank_line() {
    assert_eq!(transpile(""), Ok("int main(){\n}\n".to_string()));
    assert_eq!(transpile("say 1"), Ok("int main(){\n    printf(\"%d\\n\", 1);\n}\n".to_string()));
}

#[test]
fn first_error_is_reported_with_its_line() {
    let r = transpile("mayihave 1 in a as int\n\nfoo bar\nsay zzz");
    assert_eq!(r, Err(TranspileError::Line(3, MommyLangError::SyntaxError)));
    assert_eq!(
        r.unwrap_err().message(),
        "Line, 3: I can't read this mess. Fix your grammar before I lose my patience."
    );
}

#[test]
fn math_keywords_map_to_operators() {
    let mut state = Compilation::new();
    line(&mut state, "mayihave 1 in a as int").unwrap();
    line(&mut state, "mayihave 2 in b as int").unwrap();
    assert_eq!(line(&mut state, "add a with b"), Ok("a = a + b;".to_string()));
    assert_eq!(line(&mut state, "subtract a with -3"), Ok("a = a - -3;".to_string()));
    assert_eq!(line(&mut state, "multiply a with 2e3"), Ok("a = a * 2e3;".to_string()));
    assert_eq!(line(&mut state, "mod a with b"), Ok("a = a % b;".to_string()));
    assert_eq!(line(&mut state, "add a"), Err(MommyLangError::MissingArguments));
}

#[test]
fn loops_need_their_operand() {
    let mut state = Compilation::new();
    assert_eq!(line(&mut state, "punishme"), Err(MommyLangError::MissingArguments));
    assert_eq!(line(&mut state, "punishmeif"), Err(MommyLangError::MissingArguments));
    assert_eq!(line(&mut state, "punishmeif i < 10"), Ok("while (i < 10) {".to_string()));
    assert_eq!(state.scopes, vec![ScopeType::Loop]);
}

#[test]
fn packages_are_added_once() {
    let mut state = Compilation::new();
    assert_eq!(line(&mut state, "makeme ask_more"), Ok(String::new()));
    assert_eq!(line(&mut state, "makeme ask_more"), Ok(String::new()));
    assert_eq!(line(&mut state, "makeme listen_and_read"), Ok(String::new()));
    assert_eq!(state.includes, vec!["#include <stdlib.h>".to_string(), "#include <stdio.h>".to_string()]);
    assert_eq!(line(&mut state, "makeme sockets"), Err(MommyLangError::UnknownPackage));
    assert_eq!(line(&mut state, "makeme"), Err(MommyLangError::MissingArguments));
}

#[test]
fn unknown_command_and_empty_line() {
    let mut state = Compilation::new();
    assert_eq!(line(&mut state, "hello world"), Err(MommyLangError::SyntaxError));
    assert_eq!(parse_line(&Vec::new(), &mut state), Ok(String::new()));
    assert_eq!(line(&mut state, "leave"), Ok("return 0;".to_string()));
}

#[test]
fn done_closes_a_condition_too() {
    assert_eq!(transpile("ask if a == 1\ndone"), Ok("int main(){\n    if (a == 1) {\n    }\n}\n".to_string()));
}

#[test]
fn ask_needs_if() {
    let mut state = Compilation::new();
    assert_eq!(line(&mut state, "ask x > 1"), Err(MommyLangError::SyntaxError));
    assert_eq!(line(&mut state, "ask if"), Err(MommyLangError::MissingArguments));
}
