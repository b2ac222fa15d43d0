use contexts::asset_map::{AssetMap, AssetMapEntry};
use contexts::errors::{Error, RuntimeErrorType, UncheckedError};
use contexts::global_context::{GlobalContext, SavePointAction};
use contexts::types::{AssetIdentifier, PrincipalData, ResponseData, Value};

fn sender() -> PrincipalData {
    PrincipalData::StandardPrincipal("sender".to_string())
}

fn response(committed: bool) -> Value {
    Value::Response(ResponseData { committed: committed, data: Box::new(Value::Int(1)) })
}

fn entry(map: AssetMap, asset_name: &str) -> Option<AssetMapEntry> {
    let asset = AssetIdentifier {
        contract_name: "tokens".to_string(),
        asset_name: asset_name.to_string(),
    };
    let table = map.to_table();
    match table.get(&sender()) {
        Some(row) => match row.get(&asset) {
            Some(AssetMapEntry::Token(amount)) => Some(AssetMapEntry::Token(*amount)),
            Some(AssetMapEntry::Asset(pieces)) => Some(AssetMapEntry::Asset(pieces.clone())),
            None => None,
        },
        None => None,
    }
}

fn finish(context: GlobalContext<'_>) -> AssetMap {
    let (result, action) = context.commit();
    assert_eq!(action, SavePointAction::Commit);
    result.unwrap().unwrap()
}

#[test]
fn an_outermost_context_hands_out_its_map() {
    let mut context = GlobalContext::new();
    assert!(!context.is_read_only());
    context.log_token_transfer(&sender(), "tokens", "coin", 3).unwrap();
    context.log_token_transfer(&sender(), "tokens", "coin", 4).unwrap();
    assert_eq!(entry(finish(context), "coin"), Some(AssetMapEntry::Token(7)));
}

#[test]
fn a_nested_context_hands_its_record_to_the_one_around_it() {
    let mut context = GlobalContext::new();
    context.log_asset_transfer(&sender(), "tokens", "name", Value::Int(1));
    let mut nested = context.nest();
    nested.log_asset_transfer(&sender(), "tokens", "name", Value::Int(2));
    let (result, action) = nested.commit();
    assert!(result.unwrap().is_none());
    assert_eq!(action, SavePointAction::Commit);
    assert_eq!(
        entry(finish(context), "name"),
        Some(AssetMapEntry::Asset(vec![Value::Int(1), Value::Int(2)]))
    );
}

#[test]
fn a_commit_that_does_not_fit_abandons_the_save_point() {
    let mut context = GlobalContext::new();
    context.log_token_transfer(&sender(), "tokens", "coin", i128::max_value()).unwrap();
    let mut nested = context.nest();
    nested.log_token_transfer(&sender(), "tokens", "coin", 1).unwrap();
    let (result, action) = nested.commit();
    assert_eq!(
        result.err(),
        Some(Error::Runtime(RuntimeErrorType::ArithmeticOverflow))
    );
    assert_eq!(action, SavePointAction::Abandon);
    assert_eq!(
        context.log_token_transfer(&sender(), "tokens", "coin", 1),
        Err(Error::Runtime(RuntimeErrorType::ArithmeticOverflow))
    );
    assert_eq!(
        entry(finish(context), "coin"),
        Some(AssetMapEntry::Token(i128::max_value()))
    );
}

#[test]
fn read_only_contexts_nest_read_only_ones() {
    let mut context = GlobalContext::new();
    {
        let mut nested = context.nest();
        assert!(!nested.is_read_only());
        let mut read_only = nested.nest_read_only();
        assert!(read_only.is_read_only());
        assert!(read_only.nest().is_read_only());
        assert!(read_only.nest().nest().nest_read_only().nest().is_read_only());
    }
    assert!(!context.is_read_only());
}

#[test]
fn rolling_back_and_abandoning_keep_nothing() {
    let mut context = GlobalContext::new();
    let mut nested = context.nest();
    nested.log_token_transfer(&sender(), "tokens", "coin", 1).unwrap();
    assert_eq!(nested.roll_back(), SavePointAction::RollBack);
    let mut nested = context.nest();
    nested.log_token_transfer(&sender(), "tokens", "coin", 1).unwrap();
    assert_eq!(nested.abandon(), SavePointAction::Abandon);
    assert_eq!(entry(finish(context), "coin"), None);
}

#[test]
fn a_dropped_context_keeps_nothing() {
    let mut context = GlobalContext::new();
    context.log_token_transfer(&sender(), "tokens", "coin", 3).unwrap();
    {
        let mut nested = context.nest();
        nested.log_token_transfer(&sender(), "tokens", "coin", 1).unwrap();
    }
    {
        let mut nested = context.nest_read_only();
        nested.log_token_transfer(&sender(), "tokens", "coin", 1).unwrap();
    }
    assert_eq!(entry(finish(context), "coin"), Some(AssetMapEntry::Token(3)));
}

#[test]
fn a_committing_response_is_kept() {
    let mut context = GlobalContext::new();
    let mut nested = context.nest();
    nested.log_token_transfer(&sender(), "tokens", "coin", 1).unwrap();
    assert_eq!(
        nested.handle_tx_result(Ok(response(true))),
        (Ok(response(true)), SavePointAction::Commit)
    );
    assert_eq!(entry(finish(context), "coin"), Some(AssetMapEntry::Token(1)));
}

#[test]
fn an_outermost_context_handles_results_too() {
    assert_eq!(
        GlobalContext::new().handle_tx_result(Ok(response(true))),
        (Ok(response(true)), SavePointAction::Commit)
    );
    assert_eq!(
        GlobalContext::new().handle_tx_result(Ok(response(false))),
        (Ok(response(false)), SavePointAction::RollBack)
    );
}

#[test]
fn a_response_that_does_not_commit_is_rolled_back() {
    let mut context = GlobalContext::new();
    let mut nested = context.nest();
    nested.log_token_transfer(&sender(), "tokens", "coin", 1).unwrap();
    assert_eq!(
        nested.handle_tx_result(Ok(response(false))),
        (Ok(response(false)), SavePointAction::RollBack)
    );
    assert_eq!(entry(finish(context), "coin"), None);
}

#[test]
fn a_result_that_is_no_response_is_refused() {
    let mut context = GlobalContext::new();
    let mut nested = context.nest();
    nested.log_token_transfer(&sender(), "tokens", "coin", 1).unwrap();
    assert_eq!(
        nested.handle_tx_result(Ok(Value::Int(1))),
        (
            Err(Error::Unchecked(UncheckedError::ContractMustReturnBoolean)),
            SavePointAction::Abandon
        )
    );
    assert_eq!(entry(finish(context), "coin"), None);
}

#[test]
fn an_error_is_handed_on_and_rolled_back() {
    let mut context = GlobalContext::new();
    let mut nested = context.nest();
    nested.log_token_transfer(&sender(), "tokens", "coin", 1).unwrap();
    assert_eq!(
        nested.handle_tx_result(Err(Error::External("out of gas".to_string()))),
        (Err(Error::External("out of gas".to_string())), SavePointAction::RollBack)
    );
    assert_eq!(entry(finish(context), "coin"), None);
}

#[test]
fn a_committing_response_whose_transfers_do_not_fit_fails() {
    let mut context = GlobalContext::new();
    context.log_token_transfer(&sender(), "tokens", "coin", i128::max_value()).unwrap();
    let mut nested = context.nest();
    nested.log_token_transfer(&sender(), "tokens", "coin", 1).unwrap();
    assert_eq!(
        nested.handle_tx_result(Ok(response(true))),
        (
            Err(Error::Runtime(RuntimeErrorType::ArithmeticOverflow)),
            SavePointAction::Abandon
        )
    );
}
