use contexts::asset_map::{AssetMap, AssetMapEntry};
use contexts::errors::{Error, RuntimeErrorType};
use contexts::types::{AssetIdentifier, PrincipalData, Value};

fn principal(name: &str) -> PrincipalData {
    PrincipalData::ContractPrincipal(name.to_string())
}

fn asset(contract_name: &str) -> AssetIdentifier {
    AssetIdentifier {
        contract_name: contract_name.to_string(),
        asset_name: "a".to_string(),
    }
}

#[test]
fn test_asset_map_abort() {
    let p1 = principal("a");
    let p2 = principal("b");

    let t1 = asset("a");

    let mut am1 = AssetMap::new();
    let mut am2 = AssetMap::new();

    am1.add_token_transfer(&p1, t1.clone(), 1).unwrap();
    am1.add_token_transfer(&p2, t1.clone(), i128::max_value()).unwrap();
    am2.add_token_transfer(&p1, t1.clone(), 1).unwrap();
    am2.add_token_transfer(&p2, t1.clone(), 1).unwrap();

    am1.commit_other(am2).unwrap_err();

    let table = am1.to_table();

    assert_eq!(
        *table.get(&p2).unwrap().get(&t1).unwrap(),
        AssetMapEntry::Token(i128::max_value())
    );
    assert_eq!(*table.get(&p1).unwrap().get(&t1).unwrap(), AssetMapEntry::Token(1));
}

#[test]
fn test_asset_map_combinations() {
    let p1 = principal("a");
    let p2 = principal("b");
    let p3 = principal("c");

    let t1 = asset("a");
    let t2 = asset("b");
    let t3 = asset("c");
    let t4 = asset("d");
    let t5 = asset("e");

    let mut am1 = AssetMap::new();
    let mut am2 = AssetMap::new();

    am1.add_token_transfer(&p1, t1.clone(), 10).unwrap();
    am2.add_token_transfer(&p1, t1.clone(), 15).unwrap();

    // test merging in a token that _didn't_ have an entry in the parent
    am2.add_token_transfer(&p1, t4.clone(), 1).unwrap();

    // test merging in a principal that _didn't_ have an entry in the parent
    am2.add_token_transfer(&p2, t2.clone(), 10).unwrap();
    am2.add_token_transfer(&p2, t2.clone(), 1).unwrap();

    // test merging in a principal that _didn't_ have an entry in the parent
    am2.add_asset_transfer(&p3, t3.clone(), Value::Int(10));

    // test merging in an asset that _didn't_ have an entry in the parent
    am1.add_asset_transfer(&p1, t5.clone(), Value::Int(0));
    am2.add_asset_transfer(&p1, t3.clone(), Value::Int(1));
    am2.add_asset_transfer(&p1, t3.clone(), Value::Int(0));

    // test merging in an asset that _does_ have an entry in the parent
    am1.add_asset_transfer(&p2, t3.clone(), Value::Int(2));
    am1.add_asset_transfer(&p2, t3.clone(), Value::Int(5));
    am2.add_asset_transfer(&p2, t3.clone(), Value::Int(3));
    am2.add_asset_transfer(&p2, t3.clone(), Value::Int(4));

    am1.commit_other(am2).unwrap();

    let table = am1.to_table();

    // 3 Principals
    assert_eq!(table.len(), 3);

    assert_eq!(*table.get(&p1).unwrap().get(&t1).unwrap(), AssetMapEntry::Token(25));
    assert_eq!(*table.get(&p1).unwrap().get(&t4).unwrap(), AssetMapEntry::Token(1));

    assert_eq!(*table.get(&p2).unwrap().get(&t2).unwrap(), AssetMapEntry::Token(11));

    assert_eq!(
        *table.get(&p2).unwrap().get(&t3).unwrap(),
        AssetMapEntry::Asset(vec![Value::Int(2), Value::Int(5), Value::Int(3), Value::Int(4)])
    );

    assert_eq!(
        *table.get(&p1).unwrap().get(&t3).unwrap(),
        AssetMapEntry::Asset(vec![Value::Int(1), Value::Int(0)])
    );
    assert_eq!(
        *table.get(&p1).unwrap().get(&t5).unwrap(),
        AssetMapEntry::Asset(vec![Value::Int(0)])
    );

    assert_eq!(
        *table.get(&p3).unwrap().get(&t3).unwrap(),
        AssetMapEntry::Asset(vec![Value::Int(10)])
    );
}

#[test]
fn amounts_add_up_to_the_limit_and_no_further() {
    let p = principal("a");
    let t = asset("a");
    let mut map = AssetMap::new();
    map.add_token_transfer(&p, t.clone(), i128::max_value() - 1).unwrap();
    map.add_token_transfer(&p, t.clone(), 1).unwrap();
    assert_eq!(
        map.add_token_transfer(&p, t.clone(), 1),
        Err(Error::Runtime(RuntimeErrorType::ArithmeticOverflow))
    );
    map.add_token_transfer(&p, t.clone(), 0).unwrap();
    let table = map.to_table();
    assert_eq!(
        *table.get(&p).unwrap().get(&t).unwrap(),
        AssetMapEntry::Token(i128::max_value())
    );
}

#[test]
fn a_failed_commit_reports_the_overflow_and_drops_pieces_too() {
    let p = principal("a");
    let t = asset("a");
    let u = asset("b");
    let mut parent = AssetMap::new();
    parent.add_token_transfer(&p, t.clone(), i128::max_value()).unwrap();
    let mut child = AssetMap::new();
    child.add_token_transfer(&p, t.clone(), 1).unwrap();
    child.add_asset_transfer(&p, u.clone(), Value::Int(1));
    assert_eq!(
        parent.commit_other(child),
        Err(Error::Runtime(RuntimeErrorType::ArithmeticOverflow))
    );
    let table = parent.to_table();
    assert!(table.get(&p).unwrap().get(&u).is_none());
}

#[test]
fn standard_and_contract_principals_are_told_apart() {
    let standard = PrincipalData::StandardPrincipal("a".to_string());
    let contract = principal("a");
    let t = asset("a");
    let mut map = AssetMap::new();
    map.add_token_transfer(&standard, t.clone(), 1).unwrap();
    map.add_token_transfer(&contract, t.clone(), 2).unwrap();
    let table = map.to_table();
    assert_eq!(table.len(), 2);
    assert_eq!(*table.get(&standard).unwrap().get(&t).unwrap(), AssetMapEntry::Token(1));
    assert_eq!(*table.get(&contract).unwrap().get(&t).unwrap(), AssetMapEntry::Token(2));
}

#[test]
fn assets_are_told_apart_by_both_names() {
    let p = principal("a");
    let t = AssetIdentifier { contract_name: "ab".to_string(), asset_name: "c".to_string() };
    let u = AssetIdentifier { contract_name: "a".to_string(), asset_name: "bc".to_string() };
    let mut map = AssetMap::new();
    map.add_token_transfer(&p, t.clone(), 1).unwrap();
    map.add_token_transfer(&p, u.clone(), 2).unwrap();
    let table = map.to_table();
    assert_eq!(table.len(), 1);
    assert_eq!(table.get(&p).unwrap().len(), 2);
    assert_eq!(*table.get(&p).unwrap().get(&t).unwrap(), AssetMapEntry::Token(1));
    assert_eq!(*table.get(&p).unwrap().get(&u).unwrap(), AssetMapEntry::Token(2));
}

#[test]
fn a_table_shows_pieces_where_tokens_were_sent_too() {
    let p = principal("a");
    let t = asset("a");
    let mut map = AssetMap::new();
    map.add_asset_transfer(&p, t.clone(), Value::Int(7));
    map.add_token_transfer(&p, t.clone(), 3).unwrap();
    let table = map.to_table();
    assert_eq!(table.len(), 1);
    assert_eq!(table.get(&p).unwrap().len(), 1);
    assert_eq!(
        *table.get(&p).unwrap().get(&t).unwrap(),
        AssetMapEntry::Asset(vec![Value::Int(7)])
    );
}

#[test]
fn nothing_committed_or_committed_into_nothing_changes_nothing() {
    let p = principal("a");
    let t = asset("a");
    let mut map = AssetMap::new();
    map.add_token_transfer(&p, t.clone(), 5).unwrap();
    map.commit_other(AssetMap::new()).unwrap();
    let mut fresh = AssetMap::new();
    fresh.commit_other(map).unwrap();
    let table = fresh.to_table();
    assert_eq!(table.len(), 1);
    assert_eq!(*table.get(&p).unwrap().get(&t).unwrap(), AssetMapEntry::Token(5));
    assert_eq!(AssetMap::new().to_table().len(), 0);
}

fn sent(tokens: i128, piece: i128) -> AssetMap {
    let mut map = AssetMap::new();
    map.add_token_transfer(&principal("a"), asset("a"), tokens).unwrap();
    map.add_asset_transfer(&principal("a"), asset("b"), Value::Int(piece));
    map
}

#[test]
fn how_commits_are_nested_does_not_show() {
    let mut left = sent(1, 10);
    left.commit_other(sent(2, 20)).unwrap();
    left.commit_other(sent(3, 30)).unwrap();

    let mut inner = sent(2, 20);
    inner.commit_other(sent(3, 30)).unwrap();
    let mut right = sent(1, 10);
    right.commit_other(inner).unwrap();

    for map in vec![left, right] {
        let table = map.to_table();
        let row = table.get(&principal("a")).unwrap();
        assert_eq!(*row.get(&asset("a")).unwrap(), AssetMapEntry::Token(6));
        assert_eq!(
            *row.get(&asset("b")).unwrap(),
            AssetMapEntry::Asset(vec![Value::Int(10), Value::Int(20), Value::Int(30)])
        );
    }
}

#[test]
fn transfers_before_and_after_a_commit_are_the_same() {
    let p = principal("a");
    let mut early = sent(1, 10);
    let mut child = sent(2, 20);
    child.add_token_transfer(&p, asset("a"), 4).unwrap();
    child.add_asset_transfer(&p, asset("b"), Value::Int(40));
    early.commit_other(child).unwrap();

    let mut late = sent(1, 10);
    late.commit_other(sent(2, 20)).unwrap();
    late.add_token_transfer(&p, asset("a"), 4).unwrap();
    late.add_asset_transfer(&p, asset("b"), Value::Int(40));

    for map in vec![early, late] {
        let table = map.to_table();
        let row = table.get(&p).unwrap();
        assert_eq!(*row.get(&asset("a")).unwrap(), AssetMapEntry::Token(7));
        assert_eq!(
            *row.get(&asset("b")).unwrap(),
            AssetMapEntry::Asset(vec![Value::Int(10), Value::Int(20), Value::Int(40)])
        );
    }
}

#[test]
fn the_order_of_token_transfers_does_not_show() {
    let p = principal("a");
    let mut one = AssetMap::new();
    one.add_token_transfer(&p, asset("a"), 1).unwrap();
    one.add_token_transfer(&p, asset("b"), 2).unwrap();
    one.add_token_transfer(&p, asset("a"), 3).unwrap();
    let mut other = AssetMap::new();
    other.add_token_transfer(&p, asset("b"), 2).unwrap();
    other.add_token_transfer(&p, asset("a"), 4).unwrap();
    for map in vec![one, other] {
        let table = map.to_table();
        let row = table.get(&p).unwrap();
        assert_eq!(*row.get(&asset("a")).unwrap(), AssetMapEntry::Token(4));
        assert_eq!(*row.get(&asset("b")).unwrap(), AssetMapEntry::Token(2));
    }
}

fn words(map: &AssetMap) -> String {
    map.fmt(
        |p: &PrincipalData| match p {
            PrincipalData::StandardPrincipal(address) => format!("'{}", address),
            PrincipalData::ContractPrincipal(name) => format!("'CT{}", name),
        },
        |a: &AssetIdentifier| format!("{}.{}", a.contract_name, a.asset_name),
        |v: &Value| format!("{:?}", v),
    )
}

#[test]
fn an_empty_map_in_words() {
    assert_eq!(words(&AssetMap::new()), "[]");
}

#[test]
fn a_map_in_words() {
    let mut map = AssetMap::new();
    map.add_asset_transfer(&principal("b"), asset("x"), Value::Int(1));
    map.add_token_transfer(&principal("a"), asset("x"), 1200).unwrap();
    map.add_token_transfer(&principal("b"), asset("x"), i128::max_value()).unwrap();
    map.add_token_transfer(&principal("a"), asset("y"), 0).unwrap();
    map.add_asset_transfer(&principal("b"), asset("x"), Value::Int(2));
    assert_eq!(
        words(&map),
        "['CTa spent 1200 x.a\n'CTa spent 0 y.a\n'CTb spent 170141183460469231731687303715884105727 x.a\n'CTb transfered [Int(1), Int(2), ] x.a\n]"
    );
}
