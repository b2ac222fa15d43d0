use contexts::contract_context::ContractContext;
use contexts::errors::{Error, RuntimeErrorType};
use contexts::local_context::{LocalContext, MAX_CONTEXT_DEPTH};
use contexts::types::{DefinedFunction, FunctionIdentifier, PrincipalData, ResponseData, Value};

#[test]
fn an_inner_binding_hides_the_outer_one() {
    let mut outer = LocalContext::new();
    outer.variables.insert("x".to_string(), Value::Int(1));
    outer.variables.insert("y".to_string(), Value::Int(2));
    let mut inner = outer.extend().unwrap();
    assert_eq!(inner.lookup_variable("x"), Some(Value::Int(1)));
    inner.variables.insert("x".to_string(), Value::Int(3));
    assert_eq!(inner.lookup_variable("x"), Some(Value::Int(3)));
    assert_eq!(inner.lookup_variable("y"), Some(Value::Int(2)));
    assert_eq!(inner.lookup_variable("z"), None);
    assert_eq!(outer.lookup_variable("x"), Some(Value::Int(1)));
}

#[test]
fn a_lookup_goes_through_contexts_without_bindings() {
    let mut outer = LocalContext::new();
    outer.variables.insert("x".to_string(), Value::Int(1));
    let middle = outer.extend().unwrap();
    let inner = middle.extend().unwrap();
    assert_eq!(room(&inner), MAX_CONTEXT_DEPTH - 2);
    assert_eq!(inner.lookup_variable("x"), Some(Value::Int(1)));
}

/// How many more contexts can be nested in this one.
fn room(context: &LocalContext<'_>) -> u16 {
    match context.extend() {
        Ok(inner) => 1 + room(&inner),
        Err(e) => {
            assert_eq!(e, Error::Runtime(RuntimeErrorType::MaxContextDepthReached));
            0
        }
    }
}

#[test]
fn contexts_nest_to_the_maximal_depth() {
    assert_eq!(MAX_CONTEXT_DEPTH, 256);
    assert_eq!(room(&LocalContext::new()), 256);
}

#[test]
fn a_contract_context_finds_what_it_defines() {
    let mut context = ContractContext::new("tokens".to_string());
    assert_eq!(context.name, "tokens");
    assert_eq!(context.lookup_variable("x"), None);
    assert_eq!(context.lookup_function("f"), None);

    let response = Value::Response(ResponseData {
        committed: true,
        data: Box::new(Value::Principal(PrincipalData::StandardPrincipal("a".to_string()))),
    });
    context.variables.insert("x".to_string(), response.clone());
    context.variables.insert("y".to_string(), Value::Other("true".to_string()));
    let function = DefinedFunction {
        identifier: FunctionIdentifier { identifier: "f".to_string() },
        public: true,
        read_only: false,
    };
    context.functions.insert("f".to_string(), function.clone());

    assert_eq!(context.lookup_variable("x"), Some(response));
    assert_eq!(context.lookup_variable("y"), Some(Value::Other("true".to_string())));
    assert_eq!(context.lookup_function("f"), Some(function));
    assert_eq!(context.lookup_function("x"), None);
}
