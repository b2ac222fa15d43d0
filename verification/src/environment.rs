//! What a function is run in: the contexts, the call stack, and on whose behalf.

use crate::asset_map::{arithmetic_overflow, AssetMapView};
use crate::call_stack::CallStack;
use crate::contract_context::{Contract, ContractContext};
use crate::errors::{Error, InterpreterError, InterpreterResult, RuntimeErrorType, UncheckedError};
use crate::global_context::{call_outcome, call_record, GlobalContext, SavePointAction};
use crate::local_context::LocalContext;
use crate::types::{all_values, atom_values, DefinedFunction, SymbolicExpression, Value};
use vstd::prelude::*;

verus! {

/// The value is a principal, where there is one.
pub open spec fn principal_or_none(value: Option<Value>) -> bool {
    value matches Some(v) ==> v is Principal
}

/// The context is an outermost one without bindings.
pub open spec fn outermost(local: LocalContext) -> bool {
    &&& local.parent is None
    &&& local.variables@ == Map::<Seq<char>, Value>::empty()
    &&& local.depth@ == 0
}

/// The error of a program without expressions.
pub open spec fn no_program(e: Error) -> bool {
    e.parse_error("Expected a program of at least length 1"@)
}

fn expected_program() -> (e: Error)
    ensures
        no_program(e),
{
    Error::Runtime(
        RuntimeErrorType::ParseError("Expected a program of at least length 1".to_string()),
    )
}

/// How the setup of a contract ends.
pub struct Initialization {
    pub result: InterpreterResult<()>,
    /// The contract to write to the database, before the save point is closed.
    pub insert: Option<Contract>,
    pub action: SavePointAction,
}

/// How the setup of a contract ends, where the setup itself returned `result` and
/// `fits` says whether what it transferred can be taken over.
pub open spec fn initialization(
    result: InterpreterResult<Contract>,
    fits: bool,
    r: Initialization,
) -> bool {
    match result {
        Ok(contract) => {
            &&& r.insert == Some(contract)
            &&& if fits {
                r.result is Ok && r.action == SavePointAction::Commit
            } else {
                &&& r.result matches Err(e) && arithmetic_overflow(e)
                &&& r.action == SavePointAction::Abandon
            }
        },
        Err(e) => {
            &&& r.insert is None
            &&& r.result == Err::<(), Error>(e)
            &&& r.action == SavePointAction::RollBack
        },
    }
}

/// The record around a nested context after a contract was set up in it, where the
/// record was `before` and the setup recorded `inner`.
pub open spec fn initialized_record(
    result: InterpreterResult<Contract>,
    before: AssetMapView,
    inner: AssetMapView,
) -> AssetMapView {
    if result is Ok && before.fits(inner) {
        before.merged(inner)
    } else {
        before
    }
}

/// Environments pack a reference to the global context, the current contract
/// context, a call stack, and the current sender and caller.
///
/// Because these different contexts can be mixed and matched (in a contract call,
/// you change contract context, and initiating a transaction necessitates a new
/// global context), a single invocation will end up creating multiple environment
/// objects as context changes occur.
pub struct Environment<'a, 'b> {
    pub global_context: &'a mut GlobalContext<'b>,
    pub contract_context: &'a ContractContext,
    pub call_stack: &'a mut CallStack,
    pub sender: Option<Value>,
    pub caller: Option<Value>,
}

impl<'a, 'b> Environment<'a, 'b> {
    /// Sender and caller are principals, where they are known.
    pub open spec fn wf(self) -> bool {
        principal_or_none(self.sender) && principal_or_none(self.caller)
    }

    /// The environment is one for a call that this one makes: on behalf of the same
    /// principals, on the same call stack, in the given contract, and in a fresh
    /// context nested in this one's.
    pub open spec fn calls_in(
        self,
        callee: Environment,
        contract_context: ContractContext,
        read_only: bool,
    ) -> bool {
        &&& callee.runs_for(self.sender, self.caller, contract_context)
        &&& callee.call_stack@ == self.call_stack@
        &&& self.global_context.nests(*callee.global_context, read_only)
    }

    /// The environment is that of a contract, on behalf of the given principals.
    pub open spec fn runs_for(
        self,
        sender: Option<Value>,
        caller: Option<Value>,
        contract_context: ContractContext,
    ) -> bool {
        &&& self.sender == sender
        &&& self.caller == caller
        &&& *self.contract_context == contract_context
    }

    /// The given contract, or else the current one.
    pub open spec fn contract_or(self, next: Option<&ContractContext>) -> ContractContext {
        match next {
            Some(contract_context) => *contract_context,
            None => *self.contract_context,
        }
    }

    pub fn new(
        global_context: &'a mut GlobalContext<'b>,
        contract_context: &'a ContractContext,
        call_stack: &'a mut CallStack,
        sender: Option<Value>,
        caller: Option<Value>,
    ) -> (r: Environment<'a, 'b>)
        requires
            principal_or_none(sender),
            principal_or_none(caller),
        ensures
            r.wf(),
            *r.global_context == *old(global_context),
            *final(r.global_context) == *final(global_context),
            *r.contract_context == *contract_context,
            *r.call_stack == *old(call_stack),
            *final(r.call_stack) == *final(call_stack),
            r.sender == sender,
            r.caller == caller,
    {
        Environment { global_context, contract_context, call_stack, sender, caller }
    }

    /// The same environment, on behalf of another principal.
    pub fn nest_as_principal<'c>(&'c mut self, sender: Value) -> (r: Environment<'c, 'b>)
        requires
            sender is Principal,
        ensures
            r.wf(),
            *r.global_context == *old(self).global_context,
            *final(r.global_context) == *final(self).global_context,
            *final(final(self).global_context) == *final(old(self).global_context),
            *r.contract_context == *old(self).contract_context,
            *r.call_stack == *old(self).call_stack,
            *final(r.call_stack) == *final(self).call_stack,
            *final(final(self).call_stack) == *final(old(self).call_stack),
            r.sender == Some(sender),
            r.caller == Some(sender),
            final(self).contract_context == old(self).contract_context,
            final(self).sender == old(self).sender,
            final(self).caller == old(self).caller,
    {
        Environment::new(
            self.global_context,
            self.contract_context,
            self.call_stack,
            Some(sender.clone()),
            Some(sender),
        )
    }

    /// The same environment, called by another principal on behalf of the same.
    pub fn nest_with_caller<'c>(&'c mut self, caller: Value) -> (r: Environment<'c, 'b>)
        requires
            caller is Principal,
            principal_or_none(old(self).sender),
        ensures
            r.wf(),
            *r.global_context == *old(self).global_context,
            *final(r.global_context) == *final(self).global_context,
            *final(final(self).global_context) == *final(old(self).global_context),
            *r.contract_context == *old(self).contract_context,
            *r.call_stack == *old(self).call_stack,
            *final(r.call_stack) == *final(self).call_stack,
            *final(final(self).call_stack) == *final(old(self).call_stack),
            r.sender == old(self).sender,
            r.caller == Some(caller),
            final(self).contract_context == old(self).contract_context,
            final(self).sender == old(self).sender,
            final(self).caller == old(self).caller,
    {
        Environment::new(
            self.global_context,
            self.contract_context,
            self.call_stack,
            self.sender.clone(),
            Some(caller),
        )
    }

    /// Evaluates the first expression of a program in this environment, in an
    /// outermost local context.
    ///
    /// `parse` and `eval` do the work. In the contract `e` is the environment that
    /// `eval` gets: `*e` when it is called and `*final(e)` when it is done.
    pub fn eval_raw<P, E>(&mut self, program: &str, parse: P, eval: E) -> (r: InterpreterResult<
        Value,
    >) where
        P: FnOnce(&str) -> InterpreterResult<Vec<SymbolicExpression>>,
        E: for<'x, 'y, 'z, 'w> FnOnce(
            &SymbolicExpression,
            &'x mut Environment<'y, 'z>,
            &LocalContext<'w>,
        ) -> InterpreterResult<Value>,

        requires
            call_requires(parse, (program,)),
            forall|parsed: Vec<SymbolicExpression>, e: &mut Environment, local: &LocalContext|
                #![trigger call_ensures(parse, (program,), Ok(parsed)), call_requires(eval, (&parsed@[0], e, local))]
                call_ensures(parse, (program,), Ok(parsed)) && parsed@.len() > 0 && *e == *old(self)
                    && outermost(*local) ==> call_requires(eval, (&parsed@[0], e, local)),
        ensures
            exists|parsed: InterpreterResult<Vec<SymbolicExpression>>|
                {
                    &&& #[trigger] call_ensures(parse, (program,), parsed)
                    &&& match parsed {
                        Err(e) => r == Err::<Value, Error>(e) && *final(self) == *old(self),
                        Ok(expressions) => if expressions@.len() == 0 {
                            r matches Err(e) && no_program(e) && *final(self) == *old(self)
                        } else {
                            exists|e: &mut Environment, local: &LocalContext|
                                {
                                    &&& #[trigger] call_ensures(
                                        eval,
                                        (&expressions@[0], e, local),
                                        r,
                                    )
                                    &&& outermost(*local)
                                    &&& *e == *old(self)
                                    &&& *final(e) == *final(self)
                                }
                        },
                    }
                },
    {
        let parsed = match parse(program) {
            Ok(parsed) => parsed,
            Err(e) => {
                return Err(e);
            },
        };
        if parsed.len() < 1 {
            return Err(expected_program());
        }
        let local_context = LocalContext::new();
        eval(&parsed[0], self, &local_context)
    }

    /// Runs the function in a context nested in this environment's, and keeps or
    /// drops what it did: nothing is kept of a function that is read-only, and of
    /// another what its result says.
    ///
    /// `apply` opens a save point of the database and runs the function. The save
    /// point is then to be closed as the outcome says.
    ///
    /// In the contract `e` is the environment that `apply` gets: `*e` when it is
    /// called and `*final(e)` when it is done. Where the function put another context
    /// in the place of its own, that one is kept or dropped.
    pub fn execute_function_as_transaction<F>(
        &mut self,
        function: &DefinedFunction,
        args: &[Value],
        next_contract_context: Option<&ContractContext>,
        apply: F,
    ) -> (r: (InterpreterResult<Value>, SavePointAction)) where
        F: for<'x, 'y, 'z> FnOnce(
            &DefinedFunction,
            &[Value],
            &'x mut Environment<'y, 'z>,
        ) -> InterpreterResult<Value>,

        requires
            old(self).wf(),
            forall|e: &mut Environment|
                old(self).calls_in(
                    *e,
                    old(self).contract_or(next_contract_context),
                    function.read_only || old(self).global_context.read_only(),
                ) ==> #[trigger] call_requires(apply, (function, args, e)),
        ensures
            exists|e: &mut Environment, result: InterpreterResult<Value>|
                {
                    let before = old(self).global_context.record();
                    let nested = *final((*e).global_context);
                    &&& #[trigger] call_ensures(apply, (function, args, e), result)
                    &&& old(self).calls_in(
                        *e,
                        old(self).contract_or(next_contract_context),
                        function.read_only || old(self).global_context.read_only(),
                    )
                    &&& *final((*final(e)).global_context) == *(*final(e)).global_context
                    &&& *final((*final(e)).call_stack) == *(*final(e)).call_stack
                    &&& *final((*e).call_stack) == *final(self).call_stack
                    &&& before.valid() && nested.record().valid()
                    &&& call_outcome(function.read_only, result, nested.can_commit(), r)
                    &&& nested.parent() matches Some(p) ==> (*final(p))@ == call_record(
                        function.read_only,
                        result,
                        p@,
                        nested.record(),
                    )
                    &&& (*final((*e).global_context.parent()->0))@
                        == final(self).global_context.record()
                    &&& nested.parent() == (*e).global_context.parent()
                        ==> final(self).global_context.record() == call_record(
                        function.read_only,
                        result,
                        before,
                        nested.record(),
                    )
                },
            final(self).global_context.parent() == old(self).global_context.parent(),
            final(self).global_context.read_only() == old(self).global_context.read_only(),
            *final(final(self).global_context) == *final(old(self).global_context),
            *final(final(self).call_stack) == *final(old(self).call_stack),
            final(self).contract_context == old(self).contract_context,
            final(self).sender == old(self).sender,
            final(self).caller == old(self).caller,
    {
        let make_read_only = function.is_read_only();
        let mut nested_context = if make_read_only {
            self.global_context.nest_read_only()
        } else {
            self.global_context.nest()
        };
        let next_contract_context = match next_contract_context {
            Some(next) => next,
            None => self.contract_context,
        };
        let result = {
            let mut nested_env = Environment::new(
                &mut nested_context,
                next_contract_context,
                self.call_stack,
                self.sender.clone(),
                self.caller.clone(),
            );
            apply(function, args, &mut nested_env)
        };
        if make_read_only {
            let action = nested_context.roll_back();
            (result, action)
        } else {
            nested_context.handle_tx_result(result)
        }
    }

    /// Evaluates the first expression of a program in a contract, and keeps nothing
    /// of what it does.
    ///
    /// `eval` opens a save point of the database and evaluates. The save point is
    /// then to be closed as the outcome says, where it was opened at all. Where the
    /// evaluation put another context in the place of its own, that one is dropped.
    pub fn eval_read_only<P, G, E>(
        &mut self,
        contract_name: &str,
        program: &str,
        parse: P,
        get_contract: G,
        eval: E,
    ) -> (r: (InterpreterResult<Value>, Option<SavePointAction>)) where
        P: FnOnce(&str) -> InterpreterResult<Vec<SymbolicExpression>>,
        G: FnOnce(&str) -> InterpreterResult<Contract>,
        E: for<'x, 'y, 'z, 'w> FnOnce(
            &SymbolicExpression,
            &'x mut Environment<'y, 'z>,
            &LocalContext<'w>,
        ) -> InterpreterResult<Value>,

        requires
            forall|parsed: Vec<SymbolicExpression>, contract: Contract|
                #![trigger call_ensures(parse, (program,), Ok(parsed)), call_ensures(get_contract, (contract_name,), Ok(contract))]
                {
                    &&& call_ensures(parse, (program,), Ok(parsed))
                    &&& parsed@.len() > 0
                    &&& call_ensures(get_contract, (contract_name,), Ok(contract))
                } ==> old(self).wf(),
            call_requires(parse, (program,)),
            forall|parsed: Vec<SymbolicExpression>| #[trigger]
                call_ensures(parse, (program,), Ok(parsed)) && parsed@.len() > 0 ==> call_requires(
                    get_contract,
                    (contract_name,),
                ),
            forall|
                parsed: Vec<SymbolicExpression>,
                contract: Contract,
                e: &mut Environment,
                local: &LocalContext,
            |
                #![trigger call_ensures(parse, (program,), Ok(parsed)), call_ensures(get_contract, (contract_name,), Ok(contract)), call_requires(eval, (&parsed@[0], e, local))]
                {
                    &&& call_ensures(parse, (program,), Ok(parsed))
                    &&& parsed@.len() > 0
                    &&& call_ensures(get_contract, (contract_name,), Ok(contract))
                    &&& old(self).calls_in(
                        *e,
                        contract.contract_context,
                        old(self).global_context.read_only(),
                    )
                    &&& outermost(*local)
                } ==> call_requires(eval, (&parsed@[0], e, local)),
        ensures
            exists|parsed: InterpreterResult<Vec<SymbolicExpression>>|
                {
                    &&& #[trigger] call_ensures(parse, (program,), parsed)
                    &&& match parsed {
                        Err(e) => r == (Err::<Value, Error>(e), None::<SavePointAction>)
                            && *final(self) == *old(self),
                        Ok(expressions) => if expressions@.len() == 0 {
                            &&& r.0 matches Err(e) && no_program(e)
                            &&& r.1 is None
                            &&& *final(self) == *old(self)
                        } else {
                            exists|contract: InterpreterResult<Contract>|
                                {
                                    &&& #[trigger] call_ensures(
                                        get_contract,
                                        (contract_name,),
                                        contract,
                                    )
                                    &&& match contract {
                                        Err(e) => r == (
                                            Err::<Value, Error>(e),
                                            None::<SavePointAction>,
                                        ) && *final(self) == *old(self),
                                        Ok(contract) => exists|
                                            e: &mut Environment,
                                            local: &LocalContext,
                                        |
                                            {
                                                &&& #[trigger] call_ensures(
                                                    eval,
                                                    (&expressions@[0], e, local),
                                                    r.0,
                                                )
                                                &&& r.1 == Some(SavePointAction::RollBack)
                                                &&& old(self).global_context.record().valid()
                                                &&& outermost(*local)
                                                &&& old(self).calls_in(
                                                    *e,
                                                    contract.contract_context,
                                                    old(self).global_context.read_only(),
                                                )
                                                &&& *final((*final(e)).global_context)
                                                    == *(*final(e)).global_context
                                                &&& *final((*final(e)).call_stack)
                                                    == *(*final(e)).call_stack
                                                &&& *final((*e).call_stack)
                                                    == *final(self).call_stack
                                                &&& (*final((*e).global_context)).parent() matches Some(
                                                    p,
                                                ) ==> *final(p) == *p
                                                &&& (*final((*e).global_context.parent()->0))@
                                                    == final(self).global_context.record()
                                                &&& (*final((*e).global_context)).parent()
                                                    == (*e).global_context.parent()
                                                    ==> final(self).global_context.record()
                                                    == old(self).global_context.record()
                                            },
                                    }
                                }
                        },
                    }
                },
            final(self).global_context.parent() == old(self).global_context.parent(),
            final(self).global_context.read_only() == old(self).global_context.read_only(),
            *final(final(self).global_context) == *final(old(self).global_context),
            *final(final(self).call_stack) == *final(old(self).call_stack),
            final(self).contract_context == old(self).contract_context,
            final(self).sender == old(self).sender,
            final(self).caller == old(self).caller,
    {
        let parsed = match parse(program) {
            Ok(parsed) => parsed,
            Err(e) => {
                return (Err(e), None);
            },
        };
        if parsed.len() < 1 {
            return (Err(expected_program()), None);
        }
        let contract = match get_contract(contract_name) {
            Ok(contract) => contract,
            Err(e) => {
                return (Err(e), None);
            },
        };
        let mut nested_context = self.global_context.nest();
        let result = {
            let mut nested_env = Environment::new(
                &mut nested_context,
                &contract.contract_context,
                self.call_stack,
                self.sender.clone(),
                self.caller.clone(),
            );
            let local_context = LocalContext::new();
            eval(&parsed[0], &mut nested_env, &local_context)
        };
        let action = nested_context.roll_back();
        (result, Some(action))
    }

    /// Sets a contract up in a context nested in this environment's, and keeps what
    /// that did where it succeeded.
    ///
    /// `initialize` opens a save point of the database and sets the contract up. The
    /// save point is then to be closed as the outcome says. Where the setup put
    /// another context in the place of its own, that one is kept or dropped.
    pub fn initialize_contract<I>(
        &mut self,
        contract_name: &str,
        contract_content: &str,
        initialize: I,
    ) -> (r: Initialization) where
        I: for<'x, 'y> FnOnce(&str, &str, &'x mut GlobalContext<'y>) -> InterpreterResult<Contract>,

        requires
            forall|g: &mut GlobalContext|
                old(self).global_context.nests(*g, old(self).global_context.read_only())
                    ==> #[trigger] call_requires(
                    initialize,
                    (contract_name, contract_content, g),
                ),
        ensures
            exists|g: &mut GlobalContext, result: InterpreterResult<Contract>|
                {
                    let before = old(self).global_context.record();
                    &&& #[trigger] call_ensures(
                        initialize,
                        (contract_name, contract_content, g),
                        result,
                    )
                    &&& old(self).global_context.nests(*g, old(self).global_context.read_only())
                    &&& before.valid() && (*final(g)).record().valid()
                    &&& initialization(result, (*final(g)).can_commit(), r)
                    &&& (*final(g)).parent() matches Some(p) ==> (*final(p))@
                        == initialized_record(result, p@, (*final(g)).record())
                    &&& (*final((*g).parent()->0))@ == final(self).global_context.record()
                    &&& (*final(g)).parent() == (*g).parent()
                        ==> final(self).global_context.record() == initialized_record(
                        result,
                        before,
                        (*final(g)).record(),
                    )
                },
            *final(self).call_stack == *old(self).call_stack,
            final(self).global_context.parent() == old(self).global_context.parent(),
            final(self).global_context.read_only() == old(self).global_context.read_only(),
            *final(final(self).global_context) == *final(old(self).global_context),
            *final(final(self).call_stack) == *final(old(self).call_stack),
            final(self).contract_context == old(self).contract_context,
            final(self).sender == old(self).sender,
            final(self).caller == old(self).caller,
    {
        let mut nested_context = self.global_context.nest();
        match initialize(contract_name, contract_content, &mut nested_context) {
            Ok(contract) => {
                let (committed, action) = nested_context.commit();
                let result = match committed {
                    Ok(_) => Ok(()),
                    Err(e) => Err(e),
                };
                Initialization { result, insert: Some(contract), action }
            },
            Err(e) => {
                let action = nested_context.roll_back();
                Initialization { result: Err(e), insert: None, action }
            },
        }
    }

    /// Runs a public function of a contract on arguments that are values already.
    ///
    /// `apply` opens a save point of the database and runs the function. The save
    /// point is then to be closed as the outcome says, where it was opened at all.
    /// Where the function put another context in the place of its own, that one is
    /// kept or dropped.
    pub fn execute_contract<G, F>(
        &mut self,
        contract_name: &str,
        tx_name: &str,
        args: &[SymbolicExpression],
        get_contract: G,
        apply: F,
    ) -> (r: (InterpreterResult<Value>, Option<SavePointAction>)) where
        G: FnOnce(&str) -> InterpreterResult<Contract>,
        F: for<'x, 'y, 'z> FnOnce(
            &DefinedFunction,
            &[Value],
            &'x mut Environment<'y, 'z>,
        ) -> InterpreterResult<Value>,

        requires
            forall|contract: Contract|
                {
                    &&& #[trigger] call_ensures(get_contract, (contract_name,), Ok(contract))
                    &&& contract.contract_context.functions@.get(tx_name@) matches Some(f)
                    &&& f.public
                    &&& all_values(args@)
                } ==> old(self).wf(),
            call_requires(get_contract, (contract_name,)),
            forall|contract: Contract, f: &DefinedFunction, a: &[Value], e: &mut Environment|
                #![trigger call_ensures(get_contract, (contract_name,), Ok(contract)), call_requires(apply, (f, a, e))]
                {
                    &&& call_ensures(get_contract, (contract_name,), Ok(contract))
                    &&& contract.contract_context.functions@.get(tx_name@) == Some(*f)
                    &&& f.public
                    &&& all_values(args@)
                    &&& a@ == atom_values(args@)
                    &&& old(self).calls_in(
                        *e,
                        contract.contract_context,
                        f.read_only || old(self).global_context.read_only(),
                    )
                } ==> call_requires(apply, (f, a, e)),
        ensures
            exists|contract: InterpreterResult<Contract>|
                {
                    &&& #[trigger] call_ensures(get_contract, (contract_name,), contract)
                    &&& match contract {
                        Err(e) => r == (Err::<Value, Error>(e), None::<SavePointAction>)
                            && *final(self) == *old(self),
                        Ok(contract) => match contract.contract_context.functions@.get(tx_name@) {
                            None => {
                                &&& r.0 matches Err(e) && e.undefined_function(tx_name@)
                                &&& r.1 is None
                                &&& *final(self) == *old(self)
                            },
                            Some(function) => if !function.public {
                                &&& r.0 matches Err(e) && e.non_public_function(tx_name@)
                                &&& r.1 is None
                                &&& *final(self) == *old(self)
                            } else if !all_values(args@) {
                                &&& r.0 matches Err(e) && e.says(
                                    "Passed non-value expression to exec_tx on "@ + tx_name@ + "!"@,
                                )
                                &&& r.1 is None
                                &&& *final(self) == *old(self)
                            } else {
                                exists|
                                    f: &DefinedFunction,
                                    a: &[Value],
                                    e: &mut Environment,
                                    result: InterpreterResult<Value>,
                                |
                                    {
                                        let before = old(self).global_context.record();
                                        let nested = *final((*e).global_context);
                                        &&& #[trigger] call_ensures(apply, (f, a, e), result)
                                        &&& *f == function
                                        &&& a@ == atom_values(args@)
                                        &&& a@.len() == args@.len()
                                        &&& forall|i: int|
                                            0 <= i < args@.len() ==> #[trigger] args@[i]
                                                == SymbolicExpression::AtomValue(a@[i])
                                        &&& old(self).calls_in(
                                            *e,
                                            contract.contract_context,
                                            f.read_only || old(self).global_context.read_only(),
                                        )
                                        &&& *final((*final(e)).global_context)
                                            == *(*final(e)).global_context
                                        &&& *final((*final(e)).call_stack)
                                            == *(*final(e)).call_stack
                                        &&& *final((*e).call_stack) == *final(self).call_stack
                                        &&& before.valid() && nested.record().valid()
                                        &&& r.1 matches Some(action) && call_outcome(
                                            f.read_only,
                                            result,
                                            nested.can_commit(),
                                            (r.0, action),
                                        )
                                        &&& nested.parent() matches Some(p) ==> (*final(p))@ == call_record(
                                            f.read_only,
                                            result,
                                            p@,
                                            nested.record(),
                                        )
                                        &&& (*final((*e).global_context.parent()->0))@
                                            == final(self).global_context.record()
                                        &&& nested.parent() == (*e).global_context.parent()
                                            ==> final(self).global_context.record()
                                            == call_record(
                                            f.read_only,
                                            result,
                                            before,
                                            nested.record(),
                                        )
                                    }
                            },
                        },
                    }
                },
            final(self).global_context.parent() == old(self).global_context.parent(),
            final(self).global_context.read_only() == old(self).global_context.read_only(),
            *final(final(self).global_context) == *final(old(self).global_context),
            *final(final(self).call_stack) == *final(old(self).call_stack),
            final(self).contract_context == old(self).contract_context,
            final(self).sender == old(self).sender,
            final(self).caller == old(self).caller,
    {
        let contract = match get_contract(contract_name) {
            Ok(contract) => contract,
            Err(e) => {
                return (Err(e), None);
            },
        };
        let (func, values) = match select_call(&contract, tx_name, args) {
            Ok(call) => call,
            Err(e) => {
                return (Err(e), None);
            },
        };
        let (result, action) = self.execute_function_as_transaction(
            &func,
            values.as_slice(),
            Some(&contract.contract_context),
            apply,
        );
        (result, Some(action))
    }
}

/// The public function of that name, and the values that it is to be run on.
pub fn select_call(
    contract: &Contract,
    tx_name: &str,
    args: &[SymbolicExpression],
) -> (r: InterpreterResult<(DefinedFunction, Vec<Value>)>)
    ensures
        match contract.contract_context.functions@.get(tx_name@) {
            None => r matches Err(e) && e.undefined_function(tx_name@),
            Some(function) => if !function.public {
                r matches Err(e) && e.non_public_function(tx_name@)
            } else if !all_values(args@) {
                r matches Err(e) && e.says(
                    "Passed non-value expression to exec_tx on "@ + tx_name@ + "!"@,
                )
            } else {
                &&& r matches Ok((f, values))
                &&& f == function
                &&& values@ == atom_values(args@)
                &&& values@.len() == args@.len()
                &&& forall|i: int|
                    0 <= i < args@.len() ==> #[trigger] args@[i] == SymbolicExpression::AtomValue(
                        values@[i],
                    )
            },
        },
{
    let func = match contract.contract_context.lookup_function(tx_name) {
        Some(func) => func,
        None => {
            return Err(Error::Unchecked(UncheckedError::UndefinedFunction(tx_name.to_string())));
        },
    };
    if !func.is_public() {
        return Err(Error::Unchecked(UncheckedError::NonPublicFunction(tx_name.to_string())));
    }
    match argument_values(args, tx_name) {
        Ok(values) => Ok((func, values)),
        Err(e) => Err(e),
    }
}

/// The values that the arguments of a transaction are.
fn argument_values(args: &[SymbolicExpression], tx_name: &str) -> (r: InterpreterResult<Vec<Value>>)
    ensures
        match r {
            Ok(values) => all_values(args@) && values@ == atom_values(args@),
            Err(e) => !all_values(args@) && e.says(
                "Passed non-value expression to exec_tx on "@ + tx_name@ + "!"@,
            ),
        },
{
    let mut values: Vec<Value> = Vec::new();
    let mut i: usize = 0;
    while i < args.len()
        invariant
            i <= args@.len(),
            values@.len() == i,
            forall|j: int| 0 <= j < i ==> #[trigger] args@[j] is AtomValue,
            forall|j: int| 0 <= j < i ==> #[trigger] values@[j] == args@[j]->AtomValue_0,
        decreases args@.len() - i,
    {
        match args[i].match_atom_value() {
            Some(value) => {
                values.push(value.clone());
            },
            None => {
                let mut words = "Passed non-value expression to exec_tx on ".to_string();
                words.append(tx_name);
                words.append("!");
                return Err(Error::Interpreter(InterpreterError::InterpreterError(words)));
            },
        }
        i += 1;
    }
    assert(values@ =~= atom_values(args@));
    Ok(values)
}

/// A contract whose setup succeeded is always the one to be written, whatever it
/// defines. It is kept where no sum is too large, and the setup fails where one is.
pub proof fn law_set_up_contract_is_written(
    contract: Contract,
    before: AssetMapView,
    inner: AssetMapView,
    fits: bool,
    r: Initialization,
)
    requires
        initialization(Ok(contract), fits, r),
    ensures
        r.insert == Some(contract),
        fits ==> r.result is Ok && r.action == SavePointAction::Commit,
        !fits ==> {
            &&& r.result == Err::<(), Error>(Error::Runtime(RuntimeErrorType::ArithmeticOverflow))
            &&& r.action == SavePointAction::Abandon
        },
        before.fits(inner) ==> initialized_record(Ok(contract), before, inner) == before.merged(
            inner,
        ),
        !before.fits(inner) ==> initialized_record(Ok(contract), before, inner) == before,
{
}

/// Of a setup that failed nothing is written or kept, and its error is handed on.
pub proof fn law_failed_setup_keeps_nothing(
    e: Error,
    before: AssetMapView,
    inner: AssetMapView,
    fits: bool,
    r: Initialization,
)
    requires
        initialization(Err(e), fits, r),
    ensures
        r.insert is None,
        r.result == Err::<(), Error>(e),
        r.action == SavePointAction::RollBack,
        initialized_record(Err(e), before, inner) == before,
{
}

/// A setup that ends well is committed and has its own contract written, and none is
/// committed that does not end well.
pub proof fn law_setup_is_all_or_nothing(
    result: InterpreterResult<Contract>,
    fits: bool,
    r: Initialization,
)
    requires
        initialization(result, fits, r),
    ensures
        r.result is Ok <==> r.action == SavePointAction::Commit,
        r.result is Ok ==> result is Ok && r.insert == Some(result->Ok_0),
        r.insert is Some <==> result is Ok,
{
}

/// Sender and caller are in order exactly where each is a principal or unknown.
pub proof fn law_only_principals_send_and_call(env: Environment)
    ensures
        env.wf() <==> {
            &&& env.sender is None || env.sender->0 is Principal
            &&& env.caller is None || env.caller->0 is Principal
        },
{
}

/// A value can be that of a sender or caller exactly where it is a principal or unknown.
pub proof fn law_principal_or_unknown(value: Option<Value>)
    ensures
        principal_or_none(value) <==> (value is None || value->0 is Principal),
{
}

/// A call runs for the very sender and caller of the environment that makes it, in the
/// given contract, on the same call stack, and in a fresh context inside the
/// environment's own.
pub proof fn law_call_is_made_on_behalf_of_the_same(
    env: Environment,
    callee: Environment,
    contract_context: ContractContext,
    read_only: bool,
)
    ensures
        env.calls_in(callee, contract_context, read_only) <==> {
            &&& callee.sender == env.sender
            &&& callee.caller == env.caller
            &&& *callee.contract_context == contract_context
            &&& old(callee.call_stack)@.stack == old(env.call_stack)@.stack
            &&& old(callee.call_stack)@.watched == old(env.call_stack)@.watched
            &&& old(callee.global_context).record() == AssetMapView::empty()
            &&& old(callee.global_context).read_only() == read_only
            &&& old(callee.global_context).parent() is Some
            &&& old(callee.global_context).parent()->0@ == old(env.global_context).record()
        },
{
}

/// An environment is one of a contract for two principals exactly where it has these
/// three.
pub proof fn law_runs_for_sender_and_caller(
    env: Environment,
    sender: Option<Value>,
    caller: Option<Value>,
    contract_context: ContractContext,
)
    ensures
        env.runs_for(sender, caller, contract_context) <==> env.sender == sender && env.caller
            == caller && *env.contract_context == contract_context,
{
}

/// A function runs in the contract that is given, and in the current one where none is.
pub proof fn law_given_contract_comes_first(env: Environment, next: ContractContext)
    ensures
        env.contract_or(Some(&next)) == next,
        env.contract_or(None) == *env.contract_context,
{
}

/// Programs start in a context that binds no name and has none around it.
pub proof fn law_programs_start_without_bindings(local: LocalContext, name: Seq<char>)
    requires
        outermost(local),
    ensures
        local.parent is None,
        local.depth@ == 0,
        local.wf(),
        !local.variables@.contains_key(name),
        local.lookup(name) is None,
{
}

/// A context without bindings and without one around it is one to start in.
pub proof fn law_what_programs_start_in(local: LocalContext)
    requires
        local.parent is None,
        local.depth@ == 0,
        forall|name: Seq<char>| !#[trigger] local.variables@.contains_key(name),
    ensures
        outermost(local),
{
    assert(local.variables@ =~= Map::<Seq<char>, Value>::empty());
}

/// A program without expressions is answered with a parse error that says so.
pub proof fn law_empty_program_is_a_parse_error(e: Error)
    ensures
        no_program(e) <==> (e matches Error::Runtime(RuntimeErrorType::ParseError(s)) && s@
            == "Expected a program of at least length 1"@),
{
}

} // verus!
