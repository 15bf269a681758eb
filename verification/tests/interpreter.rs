use termbf::interpreter::Interpreter;
use termbf::token::{tokenize, Token, TokenType};

fn run_interpreter(source: &str, input: &str) -> String {
    let mut interpreter = Interpreter::new(source, input);
    while !interpreter.end() {
        interpreter.step()
    }
    interpreter.output().to_string()
}

#[test]
fn test_tokenize() {
    let source = "
<>[] // xxx
abc .,
あいうえお
+- # foobar <>
";
    let actual = tokenize(source);
    let expected = vec![
        Token::new(TokenType::LeftAngle, 1, 0),
        Token::new(TokenType::RightAngle, 1, 1),
        Token::new(TokenType::LeftSquare, 1, 2),
        Token::new(TokenType::RightSquare, 1, 3),
        Token::new(TokenType::Dot, 2, 4),
        Token::new(TokenType::Comma, 2, 5),
        Token::new(TokenType::Plus, 4, 0),
        Token::new(TokenType::Minus, 4, 1),
        Token::new(TokenType::LeftAngle, 4, 12),
        Token::new(TokenType::RightAngle, 4, 13),
    ];
    assert_eq!(actual, expected);
}

#[test]
fn test_interpreter_hello_world() {
    let source = "++++++++[>++++[>++>+++>+++>+<<<<-]>+>+>->>+[<]<-]>>.>---.+++++++..+++.>>.<-.<.+++.------.--------.>>+.>++.";
    let output = run_interpreter(source, "");
    assert_eq!(output, "Hello World!\n")
}

#[test]
fn test_interpreter_echo() {
    let source = ",[.,]";
    let output = run_interpreter(source, "Rust");
    assert_eq!(output, "Rust")
}

#[test]
fn test_tokenize_empty_source() {
    assert_eq!(tokenize(""), vec![]);
    assert_eq!(tokenize("no instructions here\n"), vec![]);
}

#[test]
fn test_echo_abc_consumes_input_to_sentinel() {
    let source = ",[.,]";
    let mut interpreter = Interpreter::new(source, "abc");
    while !interpreter.end() {
        interpreter.step()
    }
    assert_eq!(interpreter.output(), "abc");
    assert_eq!(interpreter.input(), "");
    assert!(interpreter.end());
}

#[test]
fn test_step_count_increases_by_one_each_step() {
    let mut interpreter = Interpreter::new("+-", "");
    assert_eq!(interpreter.total_step_count(), 0);
    interpreter.step();
    assert_eq!(interpreter.total_step_count(), 1);
    interpreter.step();
    assert_eq!(interpreter.total_step_count(), 2);
    assert!(interpreter.end());
    // steps past the end still count, and count exactly one each
    interpreter.step();
    assert_eq!(interpreter.total_step_count(), 3);
    interpreter.step();
    assert_eq!(interpreter.total_step_count(), 4);
}

#[test]
fn test_no_state_change_after_end() {
    let source = "++++++++[>++++[>++>+++>+++>+<<<<-]>+>+>->>+[<]<-]>>.>---.+++++++..+++.>>.<-.<.+++.------.--------.>>+.>++.";
    let mut interpreter = Interpreter::new(source, "");
    while !interpreter.end() {
        interpreter.step()
    }
    assert_eq!(interpreter.output(), "Hello World!\n");
    let ptr = interpreter.current_ptr();
    let mem = interpreter.memory().clone();
    let steps = interpreter.total_step_count();
    interpreter.step();
    interpreter.step();
    assert!(interpreter.end());
    assert_eq!(interpreter.output(), "Hello World!\n");
    assert_eq!(interpreter.current_ptr(), ptr);
    assert_eq!(interpreter.memory(), &mem);
    assert_eq!(interpreter.total_step_count(), steps + 2);
}

#[test]
fn test_memory_and_pointer() {
    let mut interpreter = Interpreter::new("+>++", "");
    assert_eq!(interpreter.memory().len(), 256);
    while !interpreter.end() {
        interpreter.step()
    }
    assert_eq!(interpreter.memory()[0], 1);
    assert_eq!(interpreter.memory()[1], 2);
    assert_eq!(interpreter.current_ptr(), 1);
}

#[test]
fn test_current_line_and_pos() {
    let mut interpreter = Interpreter::new("+\n +", "");
    assert_eq!(interpreter.current_line_and_pos(), Some((0, 0)));
    interpreter.step();
    assert_eq!(interpreter.current_line_and_pos(), Some((1, 1)));
    interpreter.step();
    assert_eq!(interpreter.current_line_and_pos(), None);
}

#[test]
fn test_running_and_end() {
    let mut interpreter = Interpreter::new("+", "xyz");
    assert!(!interpreter.running());
    assert!(!interpreter.end());
    interpreter.step();
    assert!(interpreter.running());
    assert!(interpreter.end());
}

#[test]
fn test_set_input_replaces_pending_input() {
    let mut interpreter = Interpreter::new(",.", "ab");
    assert_eq!(interpreter.input(), "ab");
    interpreter.set_input("xy".to_string());
    assert_eq!(interpreter.input(), "xy");
    while !interpreter.end() {
        interpreter.step()
    }
    assert_eq!(interpreter.output(), "x");
    assert_eq!(interpreter.input(), "y");
}

#[test]
fn test_input_sentinel_at_end_of_input() {
    // with no pending input, `,` stores the 0 sentinel
    let mut interpreter = Interpreter::new("+,", "");
    interpreter.step();
    assert_eq!(interpreter.memory()[0], 1);
    interpreter.step();
    assert_eq!(interpreter.memory()[0], 0);
}

#[test]
fn test_can_step_detects_cell_overflow() {
    let source = "+".repeat(256);
    let mut interpreter = Interpreter::new(&source, "");
    for _ in 0..255 {
        assert!(interpreter.can_step());
        interpreter.step();
    }
    assert_eq!(interpreter.memory()[0], 255);
    assert!(!interpreter.can_step());
}

#[test]
fn test_can_step_detects_pointer_underflow() {
    let interpreter = Interpreter::new("<", "");
    assert!(!interpreter.can_step());
}

#[test]
fn test_can_step_detects_unmatched_bracket() {
    // taking the branch of an unmatched `[` would need a missing entry
    let interpreter = Interpreter::new("[", "");
    assert!(!interpreter.can_step());
    // with a nonzero cell the branch is not taken, so stepping is fine
    let mut other = Interpreter::new("+[", "");
    other.step();
    assert!(other.can_step());
}
