//! The command executor's text handling: splitting, tokenizing, trimming,
//! and the fixed recovery for a program that cannot be started.

use runet::command::{
    command_failed_message, command_reply, parse_command_line, tokenize_from, trim,
};

fn bytes(s: &str) -> Vec<u8> {
    s.as_bytes().to_vec()
}

#[test]
fn parse_echo_hello_world() {
    let (program, args) = parse_command_line(&bytes("echo hello world"));
    assert_eq!(program, bytes("echo"));
    assert_eq!(args, vec![bytes("hello"), bytes("world")]);
}

#[test]
fn parse_bare_program() {
    let (program, args) = parse_command_line(&bytes("pwd"));
    assert_eq!(program, bytes("pwd"));
    assert!(args.is_empty());
}

#[test]
fn parse_collapses_repeated_whitespace_in_args() {
    let (program, args) = parse_command_line(&bytes("ls  -l \t /tmp"));
    assert_eq!(program, bytes("ls"));
    assert_eq!(args, vec![bytes("-l"), bytes("/tmp")]);
}

#[test]
fn parse_empty_line() {
    let (program, args) = parse_command_line(&bytes(""));
    assert_eq!(program, bytes(""));
    assert!(args.is_empty());
}

#[test]
fn parse_leading_space_gives_empty_program() {
    let (program, args) = parse_command_line(&bytes(" ls"));
    assert_eq!(program, bytes(""));
    assert_eq!(args, vec![bytes("ls")]);
}

#[test]
fn parse_keeps_shell_metacharacters_inert() {
    let (program, args) = parse_command_line(&bytes("cat a.txt | grep x > out"));
    assert_eq!(program, bytes("cat"));
    assert_eq!(
        args,
        vec![bytes("a.txt"), bytes("|"), bytes("grep"), bytes("x"), bytes(">"), bytes("out")]
    );
}

#[test]
fn trim_strips_both_ends() {
    assert_eq!(trim(&bytes(" pwd\n")), bytes("pwd"));
    assert_eq!(trim(&bytes("\t a b \r\n")), bytes("a b"));
}

#[test]
fn trim_of_all_whitespace_is_empty() {
    assert_eq!(trim(&bytes(" \t\r\n")), bytes(""));
    assert_eq!(trim(&bytes("")), bytes(""));
}

#[test]
fn trim_leaves_inner_bytes_alone() {
    assert_eq!(trim(&bytes("already clean")), bytes("already clean"));
}

#[test]
fn tokenize_splits_on_any_whitespace() {
    let toks = tokenize_from(&bytes("a\tb  c\n"), 0);
    assert_eq!(toks, vec![bytes("a"), bytes("b"), bytes("c")]);
}

#[test]
fn tokenize_treats_vertical_tab_as_whitespace() {
    let toks = tokenize_from(&bytes("a\x0bb"), 0);
    assert_eq!(toks, vec![bytes("a"), bytes("b")]);
    assert_eq!(trim(&bytes("\x0bc\x0b")), bytes("c"));
}

#[test]
fn tokenize_from_offset() {
    let toks = tokenize_from(&bytes("echo hello world"), 4);
    assert_eq!(toks, vec![bytes("hello"), bytes("world")]);
}

#[test]
fn reply_passes_captured_output_through() {
    let reply = command_reply(Some(bytes("hello world\n")));
    assert_eq!(reply, bytes("hello world\n"));
}

#[test]
fn reply_recovers_failed_spawn_with_placeholder() {
    let reply = command_reply(None);
    assert_eq!(reply, bytes("Command failed to start\n"));
}

#[test]
fn placeholder_message_text() {
    assert_eq!(command_failed_message(), bytes("Command failed to start\n"));
}
