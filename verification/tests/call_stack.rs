use contexts::call_stack::CallStack;
use contexts::errors::{Error, InterpreterError};
use contexts::types::FunctionIdentifier;

fn function(name: &str) -> FunctionIdentifier {
    FunctionIdentifier { identifier: name.to_string() }
}

fn refused() -> Error {
    Error::Interpreter(InterpreterError::InterpreterError(
        "Tried to remove item from empty call stack.".to_string(),
    ))
}

#[test]
fn functions_are_entered_and_left() {
    let mut stack = CallStack::new();
    assert_eq!(stack.depth(), 0);
    stack.insert(&function("f"), true);
    stack.insert(&function("g"), false);
    assert_eq!(stack.depth(), 2);
    assert!(stack.contains(&function("f")));
    assert!(!stack.contains(&function("g")));
    assert_eq!(stack.make_stack_trace(true), vec![function("f"), function("g")]);
    assert_eq!(stack.make_stack_trace(false), vec![]);

    assert_eq!(stack.remove(&function("g"), false), Ok(()));
    assert_eq!(stack.remove(&function("f"), true), Ok(()));
    assert_eq!(stack.depth(), 0);
    assert!(!stack.contains(&function("f")));
}

#[test]
fn nothing_is_left_of_an_empty_stack() {
    let mut stack = CallStack::new();
    assert_eq!(stack.remove(&function("f"), false), Err(refused()));
    assert_eq!(stack.remove(&function("f"), true), Err(refused()));
    assert_eq!(stack.depth(), 0);
}

#[test]
fn leaving_another_function_is_refused_but_takes_the_call_off() {
    let mut stack = CallStack::new();
    stack.insert(&function("f"), true);
    stack.insert(&function("g"), true);
    assert_eq!(stack.remove(&function("f"), true), Err(refused()));
    assert_eq!(stack.make_stack_trace(true), vec![function("f")]);
    assert!(stack.contains(&function("f")));
    assert!(stack.contains(&function("g")));
}

#[test]
fn a_function_entered_twice_is_watched_until_it_is_left_once() {
    let mut stack = CallStack::new();
    stack.insert(&function("f"), true);
    stack.insert(&function("f"), true);
    assert_eq!(stack.remove(&function("f"), true), Ok(()));
    assert_eq!(stack.depth(), 1);
    assert!(!stack.contains(&function("f")));
    assert_eq!(stack.remove(&function("f"), false), Ok(()));
}
