//! The values that the contexts carry: principals, assets, values, expressions
//! and the functions of a contract.

use crate::keyed_map::Key;
use vstd::prelude::*;

verus! {

/// Who holds assets and sends transactions.
#[derive(Debug, PartialEq, Eq, Hash, PartialOrd, Ord)]
pub enum PrincipalData {
    /// An account, by its address.
    StandardPrincipal(String),
    /// A contract, by its name.
    ContractPrincipal(String),
}

/// What identifies a principal.
pub enum PrincipalView {
    StandardPrincipal(Seq<char>),
    ContractPrincipal(Seq<char>),
}

impl View for PrincipalData {
    type V = PrincipalView;

    open spec fn view(&self) -> PrincipalView {
        match self {
            PrincipalData::StandardPrincipal(address) => PrincipalView::StandardPrincipal(address@),
            PrincipalData::ContractPrincipal(name) => PrincipalView::ContractPrincipal(name@),
        }
    }
}

impl Clone for PrincipalData {
    fn clone(&self) -> (r: Self)
        ensures
            r == *self,
    {
        match self {
            PrincipalData::StandardPrincipal(address) => {
                PrincipalData::StandardPrincipal(address.clone())
            },
            PrincipalData::ContractPrincipal(name) => PrincipalData::ContractPrincipal(name.clone()),
        }
    }
}

impl Key for PrincipalData {
    fn same(&self, other: &Self) -> (b: bool) {
        match (self, other) {
            (PrincipalData::StandardPrincipal(a), PrincipalData::StandardPrincipal(b)) => *a == *b,
            (PrincipalData::ContractPrincipal(a), PrincipalData::ContractPrincipal(b)) => *a == *b,
            _ => false,
        }
    }
}

/// An asset, by the contract that defines it and its name there.
#[derive(Debug, PartialEq, Eq, Hash, PartialOrd, Ord)]
pub struct AssetIdentifier {
    pub contract_name: String,
    pub asset_name: String,
}

/// What identifies an asset.
pub struct AssetView {
    pub contract_name: Seq<char>,
    pub asset_name: Seq<char>,
}

impl View for AssetIdentifier {
    type V = AssetView;

    open spec fn view(&self) -> AssetView {
        AssetView { contract_name: self.contract_name@, asset_name: self.asset_name@ }
    }
}

impl Clone for AssetIdentifier {
    fn clone(&self) -> (r: Self)
        ensures
            r == *self,
    {
        AssetIdentifier {
            contract_name: self.contract_name.clone(),
            asset_name: self.asset_name.clone(),
        }
    }
}

impl Key for AssetIdentifier {
    fn same(&self, other: &Self) -> (b: bool) {
        self.contract_name == other.contract_name && self.asset_name == other.asset_name
    }
}

/// What a public function returns: its verdict on its own effects, and a value.
#[derive(Debug, PartialEq, Eq)]
pub struct ResponseData {
    /// Whether the effects of the call are to be kept.
    pub committed: bool,
    pub data: Box<Value>,
}

/// A value of the contract language. The contexts tell principals and responses
/// from the rest.
#[derive(Debug, PartialEq, Eq)]
pub enum Value {
    Int(i128),
    Principal(PrincipalData),
    Response(ResponseData),
    /// Any other value, in its printed form.
    Other(String),
}

impl Clone for Value {
    fn clone(&self) -> (r: Self)
        ensures
            r == *self,
        decreases self,
    {
        match self {
            Value::Int(n) => Value::Int(*n),
            Value::Principal(principal) => Value::Principal(principal.clone()),
            Value::Response(response) => Value::Response(
                ResponseData {
                    committed: response.committed,
                    data: Box::new((&*response.data).clone()),
                },
            ),
            Value::Other(text) => Value::Other(text.clone()),
        }
    }
}

/// A parsed expression.
#[derive(Debug, PartialEq, Eq)]
pub enum SymbolicExpression {
    AtomValue(Value),
    Atom(String),
    List(Vec<SymbolicExpression>),
}

impl SymbolicExpression {
    /// The value, where the expression is one already.
    pub fn match_atom_value(&self) -> (r: Option<&Value>)
        ensures
            r == (match *self {
                SymbolicExpression::AtomValue(value) => Some(&value),
                _ => None,
            }),
    {
        match self {
            SymbolicExpression::AtomValue(value) => Some(value),
            _ => None,
        }
    }
}

/// Every expression is a value already.
pub open spec fn all_values(expressions: Seq<SymbolicExpression>) -> bool {
    forall|i: int| 0 <= i < expressions.len() ==> #[trigger] expressions[i] is AtomValue
}

/// The values that the expressions are.
pub open spec fn atom_values(expressions: Seq<SymbolicExpression>) -> Seq<Value> {
    expressions.map_values(|expression: SymbolicExpression| expression->AtomValue_0)
}

/// The name by which a function stands on the call stack.
#[derive(Debug, PartialEq, Eq, Hash)]
pub struct FunctionIdentifier {
    pub identifier: String,
}

impl View for FunctionIdentifier {
    type V = Seq<char>;

    open spec fn view(&self) -> Seq<char> {
        self.identifier@
    }
}

impl Clone for FunctionIdentifier {
    fn clone(&self) -> (r: Self)
        ensures
            r == *self,
    {
        FunctionIdentifier { identifier: self.identifier.clone() }
    }
}

/// A function that a contract defines.
#[derive(Debug, PartialEq, Eq)]
pub struct DefinedFunction {
    pub identifier: FunctionIdentifier,
    /// Whether it may be called from outside its contract.
    pub public: bool,
    /// Whether it promises to change nothing.
    pub read_only: bool,
}

impl Clone for DefinedFunction {
    fn clone(&self) -> (r: Self)
        ensures
            r == *self,
    {
        DefinedFunction {
            identifier: self.identifier.clone(),
            public: self.public,
            read_only: self.read_only,
        }
    }
}

impl DefinedFunction {
    pub fn is_public(&self) -> (r: bool)
        ensures
            r == self.public,
    {
        self.public
    }

    pub fn is_read_only(&self) -> (r: bool)
        ensures
            r == self.read_only,
    {
        self.read_only
    }
}

/// Principals are told apart by what kind they are of and by their name, and by
/// nothing else.
pub proof fn law_principals_are_told_apart(p: PrincipalData, q: PrincipalData)
    ensures
        match (p, q) {
            (PrincipalData::StandardPrincipal(a), PrincipalData::StandardPrincipal(b)) => (p@ == q@)
                == (a@ == b@),
            (PrincipalData::ContractPrincipal(a), PrincipalData::ContractPrincipal(b)) => (p@ == q@)
                == (a@ == b@),
            _ => p@ != q@,
        },
{
}

/// Assets are told apart by the contract that defines them and by their name there,
/// and by nothing else.
pub proof fn law_assets_are_told_apart(a: AssetIdentifier, b: AssetIdentifier)
    ensures
        a@ == b@ <==> a.contract_name@ == b.contract_name@ && a.asset_name@ == b.asset_name@,
        a@.contract_name == a.contract_name@,
        a@.asset_name == a.asset_name@,
{
}

/// Functions are told apart by their names.
pub proof fn law_functions_are_told_apart(f: FunctionIdentifier, g: FunctionIdentifier)
    ensures
        f@ == g@ <==> f.identifier@ == g.identifier@,
        f@ == f.identifier@,
{
}

/// A list of expressions is one of values only where no expression in it is anything
/// else.
pub proof fn law_one_expression_spoils_the_values(expressions: Seq<SymbolicExpression>)
    ensures
        !all_values(expressions) <==> exists|i: int|
            0 <= i < expressions.len() && !(#[trigger] expressions[i] is AtomValue),
{
}

/// No value is lost, added or moved: there are as many as there are expressions, and
/// each expression is the value in its place.
pub proof fn law_values_stand_in_their_places(expressions: Seq<SymbolicExpression>)
    requires
        all_values(expressions),
    ensures
        atom_values(expressions).len() == expressions.len(),
        forall|i: int|
            0 <= i < expressions.len() ==> #[trigger] expressions[i]
                == SymbolicExpression::AtomValue(atom_values(expressions)[i]),
{
}

} // verus!
