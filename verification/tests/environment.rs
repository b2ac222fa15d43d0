use contexts::asset_map::{AssetMap, AssetMapEntry};
use contexts::call_stack::CallStack;
use contexts::contract_context::{Contract, ContractContext};
use contexts::environment::{select_call, Environment};
use contexts::errors::{Error, InterpreterError, InterpreterResult, RuntimeErrorType, UncheckedError};
use contexts::global_context::{GlobalContext, SavePointAction};
use contexts::local_context::{LocalContext, MAX_CONTEXT_DEPTH};
use contexts::owned_environment::OwnedEnvironment;
use contexts::types::{
    AssetIdentifier, DefinedFunction, FunctionIdentifier, PrincipalData, ResponseData,
    SymbolicExpression, Value,
};

fn account(name: &str) -> PrincipalData {
    PrincipalData::StandardPrincipal(name.to_string())
}

fn principal(name: &str) -> Value {
    Value::Principal(account(name))
}

fn response(committed: bool) -> Value {
    Value::Response(ResponseData { committed: committed, data: Box::new(Value::Int(1)) })
}

fn function(name: &str, public: bool, read_only: bool) -> DefinedFunction {
    DefinedFunction {
        identifier: FunctionIdentifier { identifier: name.to_string() },
        public: public,
        read_only: read_only,
    }
}

fn contract() -> Contract {
    let mut context = ContractContext::new("tokens".to_string());
    context.functions.insert("send".to_string(), function("send", true, false));
    context.functions.insert("peek".to_string(), function("peek", true, true));
    context.functions.insert("hidden".to_string(), function("hidden", false, false));
    Contract { contract_context: context }
}

fn known(name: &str) -> InterpreterResult<Contract> {
    assert_eq!(name, "tokens");
    Ok(contract())
}

fn unknown(_name: &str) -> InterpreterResult<Contract> {
    Err(Error::External("no such contract".to_string()))
}

fn pay(env: &mut Environment<'_, '_>, amount: i128) {
    env.global_context.log_token_transfer(&account("a"), "tokens", "coin", amount).unwrap();
}

fn paid(map: AssetMap) -> Option<i128> {
    let asset = AssetIdentifier {
        contract_name: "tokens".to_string(),
        asset_name: "coin".to_string(),
    };
    let table = map.to_table();
    match table.get(&account("a")) {
        Some(row) => match row.get(&asset) {
            Some(AssetMapEntry::Token(amount)) => Some(*amount),
            _ => panic!("not tokens"),
        },
        None => None,
    }
}

fn finish(context: GlobalContext<'_>) -> Option<i128> {
    let (result, action) = context.commit();
    assert_eq!(action, SavePointAction::Commit);
    paid(result.unwrap().unwrap())
}

#[test]
fn nesting_changes_sender_and_caller() {
    let mut context = GlobalContext::new();
    let contract_context = ContractContext::new("main".to_string());
    let mut stack = CallStack::new();
    let mut env = Environment::new(
        &mut context,
        &contract_context,
        &mut stack,
        Some(principal("a")),
        Some(principal("b")),
    );
    {
        let nested = env.nest_as_principal(principal("c"));
        assert_eq!(nested.sender, Some(principal("c")));
        assert_eq!(nested.caller, Some(principal("c")));
        assert_eq!(nested.contract_context.name, "main");
    }
    {
        let nested = env.nest_with_caller(principal("d"));
        assert_eq!(nested.sender, Some(principal("a")));
        assert_eq!(nested.caller, Some(principal("d")));
        pay(&mut { nested }, 2);
    }
    assert_eq!(env.sender, Some(principal("a")));
    assert_eq!(env.caller, Some(principal("b")));
    assert_eq!(finish(context), Some(2));
}

#[test]
fn a_transaction_runs_in_a_nested_context() {
    let mut context = GlobalContext::new();
    let main = ContractContext::new("main".to_string());
    let other = ContractContext::new("other".to_string());
    let mut stack = CallStack::new();
    let mut env = Environment::new(
        &mut context,
        &main,
        &mut stack,
        Some(principal("a")),
        Some(principal("b")),
    );
    pay(&mut env, 1);
    let send = function("send", true, false);
    let args = vec![Value::Int(5)];
    let outcome = env.execute_function_as_transaction(
        &send,
        &args,
        Some(&other),
        |f: &DefinedFunction, a: &[Value], e: &mut Environment<'_, '_>| {
            assert_eq!(f.identifier.identifier, "send");
            assert_eq!(a.len(), 1);
            assert_eq!(e.contract_context.name, "other");
            assert_eq!(e.sender, Some(principal("a")));
            assert_eq!(e.caller, Some(principal("b")));
            assert!(!e.global_context.is_read_only());
            e.call_stack.insert(&f.identifier, false);
            pay(e, 2);
            Ok(response(true))
        },
    );
    assert_eq!(outcome, (Ok(response(true)), SavePointAction::Commit));

    let outcome = env.execute_function_as_transaction(
        &send,
        &args,
        None,
        |_f: &DefinedFunction, _a: &[Value], e: &mut Environment<'_, '_>| {
            assert_eq!(e.contract_context.name, "main");
            assert_eq!(e.call_stack.depth(), 1);
            pay(e, 4);
            Ok(response(false))
        },
    );
    assert_eq!(outcome, (Ok(response(false)), SavePointAction::RollBack));
    assert_eq!(env.call_stack.depth(), 1);
    assert_eq!(finish(context), Some(3));
}

#[test]
fn a_read_only_function_keeps_nothing() {
    let mut context = GlobalContext::new();
    let main = ContractContext::new("main".to_string());
    let mut stack = CallStack::new();
    let mut env = Environment::new(&mut context, &main, &mut stack, None, None);
    let peek = function("peek", true, true);
    let outcome = env.execute_function_as_transaction(
        &peek,
        &[],
        None,
        |_f: &DefinedFunction, _a: &[Value], e: &mut Environment<'_, '_>| {
            assert!(e.global_context.is_read_only());
            pay(e, 4);
            Ok(response(true))
        },
    );
    assert_eq!(outcome, (Ok(response(true)), SavePointAction::RollBack));

    // what it returns need not be a response
    let outcome = env.execute_function_as_transaction(
        &peek,
        &[],
        None,
        |_f: &DefinedFunction, _a: &[Value], _e: &mut Environment<'_, '_>| Ok(Value::Int(3)),
    );
    assert_eq!(outcome, (Ok(Value::Int(3)), SavePointAction::RollBack));
    assert_eq!(finish(context), None);
}

#[test]
fn calls_in_a_call_that_aborts_are_dropped_with_it() {
    let mut context = GlobalContext::new();
    let main = ContractContext::new("main".to_string());
    let mut stack = CallStack::new();
    let mut env = Environment::new(&mut context, &main, &mut stack, None, None);
    let send = function("send", true, false);
    let outcome = env.execute_function_as_transaction(
        &send,
        &[],
        None,
        |f: &DefinedFunction, _a: &[Value], e: &mut Environment<'_, '_>| {
            let inner = e.execute_function_as_transaction(
                f,
                &[],
                None,
                |_f: &DefinedFunction, _a: &[Value], e: &mut Environment<'_, '_>| {
                    pay(e, 4);
                    Ok(response(true))
                },
            );
            assert_eq!(inner, (Ok(response(true)), SavePointAction::Commit));
            Err(Error::External("stop".to_string()))
        },
    );
    assert_eq!(
        outcome,
        (Err(Error::External("stop".to_string())), SavePointAction::RollBack)
    );
    assert_eq!(finish(context), None);
}

#[test]
fn a_contract_is_executed_on_values() {
    let mut context = GlobalContext::new();
    let main = ContractContext::new("main".to_string());
    let mut stack = CallStack::new();
    let mut env = Environment::new(&mut context, &main, &mut stack, Some(principal("a")), None);
    let args = vec![
        SymbolicExpression::AtomValue(Value::Int(5)),
        SymbolicExpression::AtomValue(principal("b")),
    ];
    let outcome = env.execute_contract(
        "tokens",
        "send",
        &args,
        known,
        |f: &DefinedFunction, a: &[Value], e: &mut Environment<'_, '_>| {
            assert_eq!(*f, function("send", true, false));
            assert_eq!(a.to_vec(), vec![Value::Int(5), principal("b")]);
            assert_eq!(e.contract_context.name, "tokens");
            assert_eq!(e.sender, Some(principal("a")));
            assert_eq!(e.caller, None);
            pay(e, 5);
            Ok(response(true))
        },
    );
    assert_eq!(outcome, (Ok(response(true)), Some(SavePointAction::Commit)));
    let outcome = env.execute_contract(
        "tokens",
        "peek",
        &[],
        known,
        |_f: &DefinedFunction, _a: &[Value], e: &mut Environment<'_, '_>| {
            pay(e, 7);
            Ok(Value::Int(9))
        },
    );
    assert_eq!(outcome, (Ok(Value::Int(9)), Some(SavePointAction::RollBack)));
    assert_eq!(finish(context), Some(5));
}

fn not_applied(
    _f: &DefinedFunction,
    _a: &[Value],
    _e: &mut Environment<'_, '_>,
) -> InterpreterResult<Value> {
    panic!("the function was run")
}

#[test]
fn a_contract_is_not_executed_where_it_may_not_be() {
    let mut context = GlobalContext::new();
    let main = ContractContext::new("main".to_string());
    let mut stack = CallStack::new();
    let mut env = Environment::new(&mut context, &main, &mut stack, None, None);

    assert_eq!(
        env.execute_contract("tokens", "send", &[], unknown, not_applied),
        (Err(Error::External("no such contract".to_string())), None)
    );
    assert_eq!(
        env.execute_contract("tokens", "missing", &[], known, not_applied),
        (
            Err(Error::Unchecked(UncheckedError::UndefinedFunction("missing".to_string()))),
            None
        )
    );
    assert_eq!(
        env.execute_contract("tokens", "hidden", &[], known, not_applied),
        (
            Err(Error::Unchecked(UncheckedError::NonPublicFunction("hidden".to_string()))),
            None
        )
    );
    let args = vec![
        SymbolicExpression::AtomValue(Value::Int(5)),
        SymbolicExpression::Atom("x".to_string()),
    ];
    assert_eq!(
        env.execute_contract("tokens", "send", &args, known, not_applied),
        (
            Err(Error::Interpreter(InterpreterError::InterpreterError(
                "Passed non-value expression to exec_tx on send!".to_string()
            ))),
            None
        )
    );
}

#[test]
fn refusals_come_before_the_sender_is_looked_at() {
    let mut context = GlobalContext::new();
    let main = ContractContext::new("main".to_string());
    let mut stack = CallStack::new();
    let mut env = Environment::new(&mut context, &main, &mut stack, None, None);
    env.sender = Some(Value::Int(1));
    env.caller = Some(Value::Int(2));
    assert_eq!(
        env.execute_contract("tokens", "send", &[], unknown, not_applied),
        (Err(Error::External("no such contract".to_string())), None)
    );
    assert_eq!(
        env.execute_contract("tokens", "hidden", &[], known, not_applied),
        (
            Err(Error::Unchecked(UncheckedError::NonPublicFunction("hidden".to_string()))),
            None
        )
    );
    assert_eq!(
        env.eval_read_only("tokens", "", parse, known, not_evaluated),
        (Err(no_program()), None)
    );
    assert_eq!(
        env.eval_read_only("tokens", "x", parse, unknown, not_evaluated),
        (Err(Error::External("no such contract".to_string())), None)
    );
}

/// How many more contexts can be nested in this one.
fn room(context: &LocalContext<'_>) -> u16 {
    match context.extend() {
        Ok(inner) => 1 + room(&inner),
        Err(_) => 0,
    }
}

#[test]
fn a_call_is_selected_from_a_contract() {
    let args = vec![SymbolicExpression::AtomValue(Value::Int(5))];
    assert_eq!(
        select_call(&contract(), "send", &args),
        Ok((function("send", true, false), vec![Value::Int(5)]))
    );
    assert_eq!(
        select_call(&contract(), "hidden", &args),
        Err(Error::Unchecked(UncheckedError::NonPublicFunction("hidden".to_string())))
    );
}

#[test]
fn a_context_put_in_the_place_of_a_call_is_committed_instead() {
    let mut context = GlobalContext::new();
    let main = ContractContext::new("main".to_string());
    let mut stack = CallStack::new();
    let mut env = Environment::new(&mut context, &main, &mut stack, None, None);
    let (result, action) = env.execute_function_as_transaction(
        &function("send", true, false),
        &[],
        None,
        |_f: &DefinedFunction, _a: &[Value], e: &mut Environment<'_, '_>| {
            pay(e, 6);
            *e.global_context = GlobalContext::new();
            pay(e, 7);
            Ok(response(true))
        },
    );
    assert_eq!((result, action), (Ok(response(true)), SavePointAction::Commit));
    assert_eq!(finish(context), None);
}

fn parse(program: &str) -> InterpreterResult<Vec<SymbolicExpression>> {
    if program == "" {
        Ok(vec![])
    } else if program == "(" {
        Err(Error::External("unbalanced".to_string()))
    } else {
        Ok(vec![
            SymbolicExpression::Atom(program.to_string()),
            SymbolicExpression::List(vec![]),
        ])
    }
}

fn no_program() -> Error {
    Error::Runtime(RuntimeErrorType::ParseError(
        "Expected a program of at least length 1".to_string(),
    ))
}

fn not_evaluated(
    _x: &SymbolicExpression,
    _e: &mut Environment<'_, '_>,
    _l: &LocalContext<'_>,
) -> InterpreterResult<Value> {
    panic!("the program was evaluated")
}

#[test]
fn a_program_is_evaluated_in_place() {
    let mut context = GlobalContext::new();
    let main = ContractContext::new("main".to_string());
    let mut stack = CallStack::new();
    let mut env = Environment::new(&mut context, &main, &mut stack, None, None);
    assert_eq!(env.eval_raw("", parse, not_evaluated), Err(no_program()));
    assert_eq!(
        env.eval_raw("(", parse, not_evaluated),
        Err(Error::External("unbalanced".to_string()))
    );
    let result = env.eval_raw(
        "x",
        parse,
        |x: &SymbolicExpression, e: &mut Environment<'_, '_>, l: &LocalContext<'_>| {
            assert_eq!(*x, SymbolicExpression::Atom("x".to_string()));
            assert!(l.parent.is_none());
            assert_eq!(room(l), MAX_CONTEXT_DEPTH);
            assert_eq!(l.lookup_variable("x"), None);
            assert_eq!(e.contract_context.name, "main");
            pay(e, 6);
            Ok(Value::Int(2))
        },
    );
    assert_eq!(result, Ok(Value::Int(2)));
    assert_eq!(finish(context), Some(6));
}

#[test]
fn a_read_only_evaluation_keeps_nothing() {
    let mut context = GlobalContext::new();
    let main = ContractContext::new("main".to_string());
    let mut stack = CallStack::new();
    let mut env = Environment::new(&mut context, &main, &mut stack, Some(principal("a")), None);
    assert_eq!(
        env.eval_read_only("tokens", "", parse, known, not_evaluated),
        (Err(no_program()), None)
    );
    assert_eq!(
        env.eval_read_only("tokens", "(", parse, unknown, not_evaluated),
        (Err(Error::External("unbalanced".to_string())), None)
    );
    assert_eq!(
        env.eval_read_only("tokens", "x", parse, unknown, not_evaluated),
        (Err(Error::External("no such contract".to_string())), None)
    );
    let outcome = env.eval_read_only(
        "tokens",
        "x",
        parse,
        known,
        |x: &SymbolicExpression, e: &mut Environment<'_, '_>, l: &LocalContext<'_>| {
            assert_eq!(*x, SymbolicExpression::Atom("x".to_string()));
            assert!(l.parent.is_none());
            assert_eq!(room(l), MAX_CONTEXT_DEPTH);
            assert_eq!(e.contract_context.name, "tokens");
            assert_eq!(e.sender, Some(principal("a")));
            pay(e, 6);
            Ok(Value::Int(2))
        },
    );
    assert_eq!(outcome, (Ok(Value::Int(2)), Some(SavePointAction::RollBack)));
    assert_eq!(finish(context), None);
}

#[test]
fn a_contract_is_set_up() {
    let mut context = GlobalContext::new();
    let main = ContractContext::new("main".to_string());
    let mut stack = CallStack::new();
    let mut env = Environment::new(&mut context, &main, &mut stack, None, None);
    let outcome = env.initialize_contract(
        "tokens",
        "(define x 1)",
        |name: &str, content: &str, g: &mut GlobalContext<'_>| {
            assert_eq!(name, "tokens");
            assert_eq!(content, "(define x 1)");
            g.log_token_transfer(&account("a"), "tokens", "coin", 8).unwrap();
            Ok(contract())
        },
    );
    assert_eq!(outcome.result, Ok(()));
    assert_eq!(outcome.insert.unwrap().contract_context.name, "tokens");
    assert_eq!(outcome.action, SavePointAction::Commit);

    let outcome = env.initialize_contract(
        "tokens",
        "(",
        |_name: &str, _content: &str, g: &mut GlobalContext<'_>| {
            g.log_token_transfer(&account("a"), "tokens", "coin", 8).unwrap();
            Err(Error::External("unbalanced".to_string()))
        },
    );
    assert_eq!(outcome.result, Err(Error::External("unbalanced".to_string())));
    assert!(outcome.insert.is_none());
    assert_eq!(outcome.action, SavePointAction::RollBack);

    let outcome = env.initialize_contract(
        "tokens",
        "",
        |_name: &str, _content: &str, g: &mut GlobalContext<'_>| {
            g.log_token_transfer(&account("a"), "tokens", "coin", i128::max_value()).unwrap();
            Ok(contract())
        },
    );
    assert_eq!(
        outcome.result,
        Err(Error::Runtime(RuntimeErrorType::ArithmeticOverflow))
    );
    assert!(outcome.insert.is_some());
    assert_eq!(outcome.action, SavePointAction::Abandon);
    assert_eq!(finish(context), Some(8));
}

#[test]
fn a_transaction_hands_out_its_record() {
    let (result, action, root) = OwnedEnvironment::new().execute_transaction(
        principal("a"),
        "tokens",
        "send",
        &[],
        known,
        |_f: &DefinedFunction, _a: &[Value], e: &mut Environment<'_, '_>| {
            assert_eq!(e.sender, Some(principal("a")));
            assert_eq!(e.caller, Some(principal("a")));
            assert_eq!(e.call_stack.depth(), 0);
            pay(e, 3);
            Ok(response(true))
        },
    );
    let (value, map) = result.unwrap();
    assert_eq!(value, response(true));
    assert_eq!(paid(map), Some(3));
    assert_eq!(action, Some(SavePointAction::Commit));
    assert_eq!(root, SavePointAction::Commit);
}

#[test]
fn a_transaction_whose_call_aborts_hands_out_nothing() {
    let (result, action, root) = OwnedEnvironment::new().execute_transaction(
        principal("a"),
        "tokens",
        "send",
        &[],
        known,
        |_f: &DefinedFunction, _a: &[Value], e: &mut Environment<'_, '_>| {
            pay(e, 3);
            Ok(response(false))
        },
    );
    let (value, map) = result.unwrap();
    assert_eq!(value, response(false));
    assert_eq!(paid(map), None);
    assert_eq!(action, Some(SavePointAction::RollBack));
    assert_eq!(root, SavePointAction::Commit);
}

#[test]
fn a_transaction_that_fails_is_abandoned() {
    let (result, action, root) = OwnedEnvironment::new().execute_transaction(
        principal("a"),
        "tokens",
        "send",
        &[],
        known,
        |_f: &DefinedFunction, _a: &[Value], _e: &mut Environment<'_, '_>| Ok(Value::Int(1)),
    );
    assert_eq!(
        result.err(),
        Some(Error::Unchecked(UncheckedError::ContractMustReturnBoolean))
    );
    assert_eq!(action, Some(SavePointAction::Abandon));
    assert_eq!(root, SavePointAction::Abandon);

    let (result, action, root) = OwnedEnvironment::new().execute_transaction(
        principal("a"),
        "tokens",
        "missing",
        &[],
        known,
        not_applied,
    );
    assert_eq!(
        result.err(),
        Some(Error::Unchecked(UncheckedError::UndefinedFunction("missing".to_string())))
    );
    assert_eq!(action, None);
    assert_eq!(root, SavePointAction::Abandon);
}

#[test]
fn a_contract_is_set_up_in_a_transaction() {
    let (outcome, root) = OwnedEnvironment::new().initialize_contract(
        "tokens",
        "",
        |_name: &str, _content: &str, _g: &mut GlobalContext<'_>| Ok(contract()),
    );
    assert_eq!(outcome.result, Ok(()));
    assert!(outcome.insert.is_some());
    assert_eq!(outcome.action, SavePointAction::Commit);
    assert_eq!(root, SavePointAction::Commit);

    let (outcome, root) = OwnedEnvironment::new().initialize_contract(
        "tokens",
        "(",
        |_name: &str, _content: &str, _g: &mut GlobalContext<'_>| {
            Err(Error::External("unbalanced".to_string()))
        },
    );
    assert_eq!(outcome.result, Err(Error::External("unbalanced".to_string())));
    assert!(outcome.insert.is_none());
    assert_eq!(outcome.action, SavePointAction::RollBack);
    assert_eq!(root, SavePointAction::Abandon);
}

#[test]
fn an_owned_environment_runs_expressions_outside_contracts() {
    let mut owned = OwnedEnvironment::new();
    {
        let mut env = owned.get_exec_environment(Some(principal("a")));
        assert_eq!(env.contract_context.name, ":transient:");
        assert_eq!(env.sender, Some(principal("a")));
        assert_eq!(env.caller, Some(principal("a")));
        pay(&mut env, 2);
    }
    {
        let mut env = owned.get_exec_environment(None);
        assert_eq!(env.sender, None);
        pay(&mut env, 3);
    }
    let (result, action) = owned.commit();
    assert_eq!(paid(result.unwrap()), Some(5));
    assert_eq!(action, SavePointAction::Commit);
}

#[test]
fn a_nested_context_in_an_owned_environment_has_no_map_to_hand_out() {
    let mut around = GlobalContext::new();
    {
        let mut owned = OwnedEnvironment::new();
        let mut nested = around.nest();
        {
            let mut env = owned.get_exec_environment(None);
            pay(&mut env, 2);
            std::mem::swap(env.global_context, &mut nested);
            pay(&mut env, 4);
        }
        let (result, action) = owned.commit();
        assert_eq!(
            result.err(),
            Some(Error::Interpreter(InterpreterError::FailedToConstructAssetTable))
        );
        assert_eq!(action, SavePointAction::Commit);
    }
    assert_eq!(finish(around), Some(4));
}
