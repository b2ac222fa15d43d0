//! The names that a contract defines.

use crate::types::{DefinedFunction, Value};
use vstd::hash_map::StringHashMap;
use vstd::prelude::*;

verus! {

/// What a contract defines under its name: constants and functions.
pub struct ContractContext {
    pub name: String,
    pub variables: StringHashMap<Value>,
    pub functions: StringHashMap<DefinedFunction>,
}

/// A contract as the database keeps it.
pub struct Contract {
    pub contract_context: ContractContext,
}

impl ContractContext {
    /// A contract that defines nothing yet.
    pub fn new(name: String) -> (r: ContractContext)
        ensures
            r.name == name,
            r.variables@ == Map::<Seq<char>, Value>::empty(),
            r.functions@ == Map::<Seq<char>, DefinedFunction>::empty(),
    {
        ContractContext {
            name: name,
            variables: StringHashMap::new(),
            functions: StringHashMap::new(),
        }
    }

    pub fn lookup_variable(&self, name: &str) -> (r: Option<Value>)
        ensures
            r == self.variables@.get(name@),
    {
        match self.variables.get(name) {
            Some(value) => Some(value.clone()),
            None => None,
        }
    }

    pub fn lookup_function(&self, name: &str) -> (r: Option<DefinedFunction>)
        ensures
            r == self.functions@.get(name@),
    {
        match self.functions.get(name) {
            Some(value) => Some(value.clone()),
            None => None,
        }
    }
}

} // verus!
