//! What a whole transaction is run in.

use crate::asset_map::{arithmetic_overflow, AssetMap, AssetMapView};
use crate::call_stack::CallStack;
use crate::contract_context::{Contract, ContractContext};
use crate::environment::{
    initialization, initialized_record, principal_or_none, Environment, Initialization,
};
use crate::errors::{Error, InterpreterError, InterpreterResult, RuntimeErrorType};
use crate::global_context::{call_outcome, call_record, GlobalContext, SavePointAction};
use crate::types::{all_values, atom_values, DefinedFunction, SymbolicExpression, Value};
use vstd::prelude::*;

verus! {

/// How a transaction that recorded `record` ends: an outermost context hands its
/// asset map out. One that is nested after all hands its record to the context
/// around it, whose record is `around`, and has no map of its own.
pub open spec fn closes(
    around: Option<AssetMapView>,
    record: AssetMapView,
    r: (InterpreterResult<AssetMap>, SavePointAction),
) -> bool {
    match around {
        None => {
            &&& r.0 matches Ok(map) && map@ == record
            &&& r.1 == SavePointAction::Commit
        },
        Some(before) => if before.fits(record) {
            &&& r.0 == Err::<AssetMap, Error>(
                Error::Interpreter(InterpreterError::FailedToConstructAssetTable),
            )
            &&& r.1 == SavePointAction::Commit
        } else {
            &&& r.0 matches Err(e) && arithmetic_overflow(e)
            &&& r.1 == SavePointAction::Abandon
        },
    }
}

/// The outermost context of a transaction, the contract of expressions that belong
/// to none, and a call stack of its own.
pub struct OwnedEnvironment<'a> {
    context: GlobalContext<'a>,
    default_contract: ContractContext,
    call_stack: CallStack,
}

impl<'a> OwnedEnvironment<'a> {
    pub closed spec fn context(self) -> GlobalContext<'a> {
        self.context
    }

    pub closed spec fn default_contract(self) -> ContractContext {
        self.default_contract
    }

    pub closed spec fn call_stack(self) -> CallStack {
        self.call_stack
    }

    /// The record of the context that this one's is nested in.
    pub open spec fn around(self) -> Option<AssetMapView> {
        match self.context().parent() {
            Some(p) => Some(p@),
            None => None,
        }
    }

    pub fn new() -> (r: OwnedEnvironment<'a>)
        ensures
            r.context().parent() is None,
            !r.context().read_only(),
            r.context().record() == AssetMapView::empty(),
            r.default_contract().name@ == ":transient:"@,
            r.default_contract().variables@ == Map::<Seq<char>, Value>::empty(),
            r.default_contract().functions@ == Map::<Seq<char>, DefinedFunction>::empty(),
            r.call_stack()@.stack.len() == 0,
            r.call_stack()@.watched == Set::<Seq<char>>::empty(),
    {
        OwnedEnvironment {
            context: GlobalContext::new(),
            default_contract: ContractContext::new(":transient:".to_string()),
            call_stack: CallStack::new(),
        }
    }

    /// The environment of expressions that belong to no contract, on behalf of the
    /// given principal.
    pub fn get_exec_environment<'b>(&'b mut self, sender: Option<Value>) -> (r: Environment<'b, 'a>)
        requires
            principal_or_none(sender),
        ensures
            r.wf(),
            r.runs_for(sender, sender, old(self).default_contract()),
            *r.global_context == old(self).context(),
            *final(r.global_context) == final(self).context(),
            *r.call_stack == old(self).call_stack(),
            *final(r.call_stack) == final(self).call_stack(),
            final(self).default_contract() == old(self).default_contract(),
    {
        Environment::new(
            &mut self.context,
            &self.default_contract,
            &mut self.call_stack,
            sender.clone(),
            sender,
        )
    }

    /// Ends the transaction and hands out what was transferred in it.
    pub fn commit(self) -> (r: (InterpreterResult<AssetMap>, SavePointAction))
        ensures
            self.context().record().valid(),
            closes(self.around(), self.context().record(), r),
            self.context().parent() matches Some(p) ==> (*final(p))@ == if p@.fits(
                self.context().record(),
            ) {
                p@.merged(self.context().record())
            } else {
                p@
            },
    {
        match self.context.commit() {
            (Ok(Some(map)), action) => (Ok(map), action),
            (Ok(None), action) => (
                Err(Error::Interpreter(InterpreterError::FailedToConstructAssetTable)),
                action,
            ),
            (Err(e), action) => (Err(e), action),
        }
    }

    /// Sets a contract up and ends the transaction. The outcome says first how to
    /// close the save point that `initialize` opened, and then how to close that of
    /// the transaction.
    pub fn initialize_contract<I>(
        self,
        contract_name: &str,
        contract_content: &str,
        initialize: I,
    ) -> (r: (Initialization, SavePointAction)) where
        I: for<'x, 'y> FnOnce(&str, &str, &'x mut GlobalContext<'y>) -> InterpreterResult<Contract>,

        requires
            forall|g: &mut GlobalContext|
                self.context().nests(*g, self.context().read_only()) ==> #[trigger] call_requires(
                    initialize,
                    (contract_name, contract_content, g),
                ),
        ensures
            exists|g: &mut GlobalContext, result: InterpreterResult<Contract>, inner: Initialization|
                {
                    let before = self.context().record();
                    let after = (*final((*g).parent()->0))@;
                    &&& #[trigger] call_ensures(
                        initialize,
                        (contract_name, contract_content, g),
                        result,
                    )
                    &&& self.context().nests(*g, self.context().read_only())
                    &&& before.valid() && (*final(g)).record().valid()
                    &&& #[trigger] initialization(result, (*final(g)).can_commit(), inner)
                    &&& (*final(g)).parent() matches Some(p) ==> (*final(p))@
                        == initialized_record(result, p@, (*final(g)).record())
                    &&& (*final(g)).parent() == (*g).parent() ==> after == initialized_record(
                        result,
                        before,
                        (*final(g)).record(),
                    )
                    &&& self.context().parent() matches Some(p) ==> (*final(p))@ == if inner.result is Ok
                        && p@.fits(after) {
                        p@.merged(after)
                    } else {
                        p@
                    }
                    &&& r.0.insert == inner.insert
                    &&& r.0.action == inner.action
                    &&& match inner.result {
                        Err(e) => r.0.result == Err::<(), Error>(e) && r.1
                            == SavePointAction::Abandon,
                        Ok(_) => exists|closing: InterpreterResult<AssetMap>|
                            {
                                &&& #[trigger] closes(self.around(), after, (closing, r.1))
                                &&& r.0.result == match closing {
                                    Ok(_) => Ok::<(), Error>(()),
                                    Err(e) => Err::<(), Error>(e),
                                }
                            },
                    }
                },
    {
        let mut owned = self;
        let inner = {
            let mut exec_env = owned.get_exec_environment(None);
            exec_env.initialize_contract(contract_name, contract_content, initialize)
        };
        let Initialization { result, insert, action } = inner;
        match result {
            Err(e) => (
                Initialization { result: Err(e), insert, action },
                owned.context.abandon(),
            ),
            Ok(_) => {
                let (closing, root) = owned.commit();
                let result = match closing {
                    Ok(_) => Ok(()),
                    Err(e) => Err(e),
                };
                (Initialization { result, insert, action }, root)
            },
        }
    }

    /// Runs a public function of a contract on behalf of the sender and ends the
    /// transaction. The outcome says first how to close the save point that `apply`
    /// opened, where it did, and then how to close that of the transaction.
    pub fn execute_transaction<G, F>(
        self,
        sender: Value,
        contract_name: &str,
        tx_name: &str,
        args: &[SymbolicExpression],
        get_contract: G,
        apply: F,
    ) -> (r: (
        InterpreterResult<(Value, AssetMap)>,
        Option<SavePointAction>,
        SavePointAction,
    )) where
        G: FnOnce(&str) -> InterpreterResult<Contract>,
        F: for<'x, 'y, 'z> FnOnce(
            &DefinedFunction,
            &[Value],
            &'x mut Environment<'y, 'z>,
        ) -> InterpreterResult<Value>,

        requires
            sender is Principal,
            call_requires(get_contract, (contract_name,)),
            forall|contract: Contract, f: &DefinedFunction, a: &[Value], e: &mut Environment|
                #![trigger call_ensures(get_contract, (contract_name,), Ok(contract)), call_requires(apply, (f, a, e))]
                {
                    &&& call_ensures(get_contract, (contract_name,), Ok(contract))
                    &&& contract.contract_context.functions@.get(tx_name@) == Some(*f)
                    &&& f.public
                    &&& all_values(args@)
                    &&& a@ == atom_values(args@)
                    &&& (*e).runs_for(Some(sender), Some(sender), contract.contract_context)
                    &&& (*e).call_stack@ == self.call_stack()@
                    &&& self.context().nests(
                        *(*e).global_context,
                        f.read_only || self.context().read_only(),
                    )
                } ==> call_requires(apply, (f, a, e)),
        ensures
            r.0 matches Ok((_, map)) ==> map@.valid(),
            exists|contract: InterpreterResult<Contract>|
                {
                    &&& #[trigger] call_ensures(get_contract, (contract_name,), contract)
                    &&& match contract {
                        Err(e) => {
                            &&& r.0 == Err::<(Value, AssetMap), Error>(e)
                            &&& r.1 is None
                            &&& r.2 == SavePointAction::Abandon
                            &&& self.context().parent() matches Some(p) ==> *final(p) == *p
                        },
                        Ok(contract) => match contract.contract_context.functions@.get(tx_name@) {
                            None => {
                                &&& r.0 matches Err(e) && e.undefined_function(tx_name@)
                                &&& r.1 is None
                                &&& r.2 == SavePointAction::Abandon
                                &&& self.context().parent() matches Some(p) ==> *final(p) == *p
                            },
                            Some(function) => if !function.public {
                                &&& r.0 matches Err(e) && e.non_public_function(tx_name@)
                                &&& r.1 is None
                                &&& r.2 == SavePointAction::Abandon
                                &&& self.context().parent() matches Some(p) ==> *final(p) == *p
                            } else if !all_values(args@) {
                                &&& r.0 matches Err(e) && e.says(
                                    "Passed non-value expression to exec_tx on "@ + tx_name@ + "!"@,
                                )
                                &&& r.1 is None
                                &&& r.2 == SavePointAction::Abandon
                                &&& self.context().parent() matches Some(p) ==> *final(p) == *p
                            } else {
                                exists|
                                    f: &DefinedFunction,
                                    a: &[Value],
                                    e: &mut Environment,
                                    result: InterpreterResult<Value>,
                                    inner: (InterpreterResult<Value>, SavePointAction),
                                |
                                    {
                                        let before = self.context().record();
                                        let nested = *final((*e).global_context);
                                        let after = (*final((*e).global_context.parent()->0))@;
                                        &&& #[trigger] call_ensures(apply, (f, a, e), result)
                                        &&& *f == function
                                        &&& a@ == atom_values(args@)
                                        &&& a@.len() == args@.len()
                                        &&& forall|i: int|
                                            0 <= i < args@.len() ==> #[trigger] args@[i]
                                                == SymbolicExpression::AtomValue(a@[i])
                                        &&& (*e).runs_for(
                                            Some(sender),
                                            Some(sender),
                                            contract.contract_context,
                                        )
                                        &&& (*e).call_stack@ == self.call_stack()@
                                        &&& self.context().nests(
                                            *(*e).global_context,
                                            f.read_only || self.context().read_only(),
                                        )
                                        &&& *final((*final(e)).global_context)
                                            == *(*final(e)).global_context
                                        &&& before.valid() && nested.record().valid()
                                        &&& #[trigger] call_outcome(
                                            f.read_only,
                                            result,
                                            (*final((*e).global_context)).can_commit(),
                                            inner,
                                        )
                                        &&& nested.parent() matches Some(p) ==> (*final(p))@ == call_record(
                                            f.read_only,
                                            result,
                                            p@,
                                            nested.record(),
                                        )
                                        &&& nested.parent() == (*e).global_context.parent()
                                            ==> after == call_record(
                                            f.read_only,
                                            result,
                                            before,
                                            nested.record(),
                                        )
                                        &&& ended(self.around(), after, inner, r)
                                        &&& self.context().parent() matches Some(p) ==> (*final(p))@
                                            == if inner.0 is Ok && p@.fits(after) {
                                            p@.merged(after)
                                        } else {
                                            p@
                                        }
                                    }
                            },
                        },
                    }
                },
    {
        let mut owned = self;
        let (result, action) = {
            let mut exec_env = owned.get_exec_environment(Some(sender));
            exec_env.execute_contract(contract_name, tx_name, args, get_contract, apply)
        };
        match result {
            Err(e) => (Err(e), action, owned.context.abandon()),
            Ok(return_value) => {
                let (closing, root) = owned.commit();
                match closing {
                    Ok(asset_map) => (Ok((return_value, asset_map)), action, root),
                    Err(e) => (Err(e), action, root),
                }
            },
        }
    }
}

/// How a transaction ends whose function ended in `inner`, where `record` is the
/// record of the transaction and `around` that of the context around it.
pub open spec fn ended(
    around: Option<AssetMapView>,
    record: AssetMapView,
    inner: (InterpreterResult<Value>, SavePointAction),
    r: (InterpreterResult<(Value, AssetMap)>, Option<SavePointAction>, SavePointAction),
) -> bool {
    &&& r.1 == Some(inner.1)
    &&& match inner.0 {
        Err(e) => {
            &&& r.0 == Err::<(Value, AssetMap), Error>(e)
            &&& r.2 == SavePointAction::Abandon
        },
        Ok(value) => match r.0 {
            Ok((returned, map)) => {
                &&& returned == value
                &&& closes(around, record, (Ok::<AssetMap, Error>(map), r.2))
            },
            Err(e) => closes(around, record, (Err::<AssetMap, Error>(e), r.2)),
        },
    }
}

/// A transaction that is not nested in another always ends in handing out what was
/// transferred in it.
pub proof fn law_transaction_hands_out_its_record(
    owned: OwnedEnvironment,
    r: (InterpreterResult<AssetMap>, SavePointAction),
)
    requires
        owned.context().parent() is None,
        closes(owned.around(), owned.context().record(), r),
    ensures
        r.0 matches Ok(map) && map@ == owned.context().record(),
        r.1 == SavePointAction::Commit,
{
}

/// A transaction on its own either succeeds, commits its save point and hands out
/// its whole record, or fails and commits nothing.
pub proof fn law_transaction_is_all_or_nothing(
    record: AssetMapView,
    inner: (InterpreterResult<Value>, SavePointAction),
    r: (InterpreterResult<(Value, AssetMap)>, Option<SavePointAction>, SavePointAction),
)
    requires
        ended(None, record, inner, r),
    ensures
        r.0 is Ok <==> inner.0 is Ok,
        r.0 is Ok <==> r.2 == SavePointAction::Commit,
        r.0 matches Ok((value, map)) ==> inner.0 == Ok::<Value, Error>(value) && map@ == record,
{
}

/// The save point of a transaction's function is committed exactly where the function
/// is not read-only, its response commits, whatever value that carries, and no sum is
/// too large. A function that is read-only, that failed or whose response does not
/// commit is rolled back, and one refused for its result or for a sum is abandoned.
pub proof fn law_call_of_a_transaction_is_closed_as_it_ended(
    around: Option<AssetMapView>,
    record: AssetMapView,
    read_only: bool,
    result: InterpreterResult<Value>,
    fits: bool,
    inner: (InterpreterResult<Value>, SavePointAction),
    r: (InterpreterResult<(Value, AssetMap)>, Option<SavePointAction>, SavePointAction),
)
    requires
        call_outcome(read_only, result, fits, inner),
        ended(around, record, inner, r),
    ensures
        r.1 is Some,
        r.1 == Some(SavePointAction::Commit) <==> {
            &&& !read_only
            &&& result matches Ok(Value::Response(data)) && data.committed
            &&& fits
        },
        r.1 == Some(SavePointAction::RollBack) <==> {
            ||| read_only
            ||| result is Err
            ||| result matches Ok(Value::Response(data)) && !data.committed
        },
{
}

/// A transaction whose function ended in an error ends in that error and is abandoned.
pub proof fn law_failed_call_fails_the_transaction(
    around: Option<AssetMapView>,
    record: AssetMapView,
    e: Error,
    action: SavePointAction,
    r: (InterpreterResult<(Value, AssetMap)>, Option<SavePointAction>, SavePointAction),
)
    requires
        ended(around, record, (Err(e), action), r),
    ensures
        r.0 == Err::<(Value, AssetMap), Error>(e),
        r.1 == Some(action),
        r.2 == SavePointAction::Abandon,
{
}

/// A transaction on its own whose function ended well hands out the function's value,
/// whatever it is, with the transaction's record, and is committed.
pub proof fn law_call_that_ends_well_is_handed_out(
    record: AssetMapView,
    value: Value,
    action: SavePointAction,
    r: (InterpreterResult<(Value, AssetMap)>, Option<SavePointAction>, SavePointAction),
)
    requires
        ended(None, record, (Ok(value), action), r),
    ensures
        r.0 is Ok,
        r.0->Ok_0.0 == value,
        r.0->Ok_0.1@.tokens == record.tokens,
        r.0->Ok_0.1@.assets == record.assets,
        r.1 == Some(action),
        r.2 == SavePointAction::Commit,
{
}

/// A transaction that is nested in another never hands a map out. It is committed where
/// no sum with the record around it is too large, and abandoned where one is.
pub proof fn law_nested_transaction_has_no_map(
    before: AssetMapView,
    record: AssetMapView,
    r: (InterpreterResult<AssetMap>, SavePointAction),
)
    requires
        closes(Some(before), record, r),
    ensures
        before.fits(record) ==> r == (
            Err::<AssetMap, Error>(
                Error::Interpreter(InterpreterError::FailedToConstructAssetTable),
            ),
            SavePointAction::Commit,
        ),
        !before.fits(record) ==> r == (
            Err::<AssetMap, Error>(Error::Runtime(RuntimeErrorType::ArithmeticOverflow)),
            SavePointAction::Abandon,
        ),
{
}

/// A transaction whose function ended well in a context that is nested in another fails
/// as the end of that context does.
pub proof fn law_nested_transaction_fails(
    before: AssetMapView,
    record: AssetMapView,
    value: Value,
    action: SavePointAction,
    r: (InterpreterResult<(Value, AssetMap)>, Option<SavePointAction>, SavePointAction),
)
    requires
        ended(Some(before), record, (Ok(value), action), r),
    ensures
        r.1 == Some(action),
        before.fits(record) ==> r.0 == Err::<(Value, AssetMap), Error>(
            Error::Interpreter(InterpreterError::FailedToConstructAssetTable),
        ) && r.2 == SavePointAction::Commit,
        !before.fits(record) ==> r.0 == Err::<(Value, AssetMap), Error>(
            Error::Runtime(RuntimeErrorType::ArithmeticOverflow),
        ) && r.2 == SavePointAction::Abandon,
{
}

/// What is around a transaction is the record of the context that its own is nested in.
pub proof fn law_what_is_around_a_transaction(owned: OwnedEnvironment)
    ensures
        owned.context().parent() is None <==> owned.around() is None,
        owned.context().parent() matches Some(p) ==> owned.around() == Some(p@),
{
}

} // verus!
