//! The outermost context of a transaction, and the contexts of the calls nested
//! in it.

use crate::asset_map::{arithmetic_overflow, AssetMap, AssetMapView};
use crate::errors::{Error, InterpreterResult, RuntimeErrorType, UncheckedError};
use crate::transfer_table::TransferKey;
use crate::types::{AssetIdentifier, AssetView, PrincipalData, ResponseData, Value};
use vstd::prelude::*;

verus! {

/// What is to be done with the database's innermost save point.
#[derive(Debug, Clone, Copy, PartialEq, Eq, Structural)]
pub enum SavePointAction {
    /// Keep what was written since.
    Commit,
    /// Undo what was written since.
    RollBack,
    /// Let it go without either.
    Abandon,
}

/// Whether a call's result says that what the call did is to be kept: it is a
/// response that commits.
pub open spec fn commits(result: InterpreterResult<Value>) -> bool {
    result matches Ok(Value::Response(data)) && data.committed
}

/// What a call of a public function ends in, where the call itself returned
/// `result` and `fits` says whether what it transferred can be taken over.
pub open spec fn tx_outcome(
    result: InterpreterResult<Value>,
    fits: bool,
    r: (InterpreterResult<Value>, SavePointAction),
) -> bool {
    match result {
        Ok(Value::Response(data)) => if !data.committed {
            r == (result, SavePointAction::RollBack)
        } else if fits {
            r == (result, SavePointAction::Commit)
        } else {
            &&& r.0 matches Err(e) && arithmetic_overflow(e)
            &&& r.1 == SavePointAction::Abandon
        },
        Ok(_) => {
            &&& r.0 == Err::<Value, Error>(
                Error::Unchecked(UncheckedError::ContractMustReturnBoolean),
            )
            &&& r.1 == SavePointAction::Abandon
        },
        Err(_) => r == (result, SavePointAction::RollBack),
    }
}

/// The record around a nested context after the call in it returned `result`,
/// where the record was `before` and the call recorded `inner`.
pub open spec fn tx_record(
    result: InterpreterResult<Value>,
    before: AssetMapView,
    inner: AssetMapView,
) -> AssetMapView {
    if commits(result) && before.fits(inner) {
        before.merged(inner)
    } else {
        before
    }
}

/// What a call of any function ends in: nothing is kept of one that is read-only.
pub open spec fn call_outcome(
    read_only: bool,
    result: InterpreterResult<Value>,
    fits: bool,
    r: (InterpreterResult<Value>, SavePointAction),
) -> bool {
    if read_only {
        r == (result, SavePointAction::RollBack)
    } else {
        tx_outcome(result, fits, r)
    }
}

/// The record around a nested context after the call of any function in it.
pub open spec fn call_record(
    read_only: bool,
    result: InterpreterResult<Value>,
    before: AssetMapView,
    inner: AssetMapView,
) -> AssetMapView {
    if read_only {
        before
    } else {
        tx_record(result, before, inner)
    }
}

/// GlobalContext represents the outermost context for a transaction's execution.
/// Due to the use of save points for executing cross-contract calls, the
/// GlobalContext can nest, such that the innermost GlobalContext may commit or
/// abort its changes independent of the outermost GlobalContext.
///
/// The save points themselves are the database's. Whoever makes a context opens
/// one, and closes it as the context says at its end.
pub struct GlobalContext<'a> {
    parent_map: Option<&'a mut AssetMap>,
    read_only: bool,
    asset_map: AssetMap,
}

impl<'a> GlobalContext<'a> {
    /// The asset map of the context that this one is nested in.
    pub closed spec fn parent(self) -> Option<&'a mut AssetMap> {
        self.parent_map
    }

    /// Whether nothing may be changed.
    pub closed spec fn read_only(self) -> bool {
        self.read_only
    }

    /// What was transferred in this context so far.
    pub closed spec fn record(self) -> AssetMapView {
        self.asset_map@
    }

    /// The other context is a fresh one nested in this one.
    pub open spec fn nests(self, other: GlobalContext, read_only: bool) -> bool {
        &&& other.record() == AssetMapView::empty()
        &&& other.read_only() == read_only
        &&& other.parent() matches Some(p) && p@ == self.record()
    }

    /// Whether the context around this one can take over what was transferred.
    pub open spec fn can_commit(self) -> bool {
        self.parent() matches Some(p) ==> p@.fits(self.record())
    }

    /// An outermost context.
    pub fn new() -> (r: GlobalContext<'a>)
        ensures
            r.parent() is None,
            !r.read_only(),
            r.record() == AssetMapView::empty(),
    {
        GlobalContext { parent_map: None, read_only: false, asset_map: AssetMap::new() }
    }

    /// Records that the sender sent a piece of the asset of that name.
    pub fn log_asset_transfer(
        &mut self,
        sender: &PrincipalData,
        contract_name: &str,
        asset_name: &str,
        transfered: Value,
    )
        ensures
            final(self).record().valid(),
            final(self).record() == old(self).record().with_asset(
                (sender@, (AssetView { contract_name: contract_name@, asset_name: asset_name@ })),
                transfered,
            ),
            final(self).parent() == old(self).parent(),
            final(self).read_only() == old(self).read_only(),
    {
        let asset_identifier = AssetIdentifier {
            contract_name: contract_name.to_string(),
            asset_name: asset_name.to_string(),
        };
        self.asset_map.add_asset_transfer(sender, asset_identifier, transfered)
    }

    /// Records that the sender sent an amount of the asset of that name.
    pub fn log_token_transfer(
        &mut self,
        sender: &PrincipalData,
        contract_name: &str,
        asset_name: &str,
        transfered: i128,
    ) -> (r: InterpreterResult<()>)
        requires
            transfered >= 0,
        ensures
            final(self).record().valid(),
            ({
                let k = (
                    sender@,
                    AssetView { contract_name: contract_name@, asset_name: asset_name@ },
                );
                match r {
                    Ok(_) => {
                        &&& old(self).record().amount(k) + transfered <= i128::MAX
                        &&& final(self).record() == old(self).record().with_tokens(
                            k,
                            transfered as int,
                        )
                    },
                    Err(e) => {
                        &&& arithmetic_overflow(e)
                        &&& old(self).record().amount(k) + transfered > i128::MAX
                        &&& final(self).record() == old(self).record()
                    },
                }
            }),
            final(self).parent() == old(self).parent(),
            final(self).read_only() == old(self).read_only(),
    {
        let asset_identifier = AssetIdentifier {
            contract_name: contract_name.to_string(),
            asset_name: asset_name.to_string(),
        };
        self.asset_map.add_token_transfer(sender, asset_identifier, transfered)
    }

    /// A context nested in this one, which may change things if this one may.
    pub fn nest<'b>(&'b mut self) -> (r: GlobalContext<'b>)
        ensures
            old(self).record().valid(),
            old(self).nests(r, old(self).read_only()),
            (*final(r.parent()->0))@ == final(self).record(),
            final(self).parent() == old(self).parent(),
            final(self).read_only() == old(self).read_only(),
    {
        proof {
            use_type_invariant(&self.asset_map);
            self.asset_map.lemma_valid();
        }
        GlobalContext {
            parent_map: Some(&mut self.asset_map),
            read_only: self.read_only,
            asset_map: AssetMap::new(),
        }
    }

    /// A context nested in this one, which may not change anything.
    pub fn nest_read_only<'b>(&'b mut self) -> (r: GlobalContext<'b>)
        ensures
            old(self).record().valid(),
            old(self).nests(r, true),
            (*final(r.parent()->0))@ == final(self).record(),
            final(self).parent() == old(self).parent(),
            final(self).read_only() == old(self).read_only(),
    {
        proof {
            use_type_invariant(&self.asset_map);
            self.asset_map.lemma_valid();
        }
        GlobalContext {
            parent_map: Some(&mut self.asset_map),
            read_only: true,
            asset_map: AssetMap::new(),
        }
    }

    pub fn is_read_only(&self) -> (b: bool)
        ensures
            b == self.read_only(),
    {
        self.read_only
    }

    /// Ends the context and keeps what was transferred in it: the context around
    /// it takes it over, and an outermost one hands it out. Where a sum is too
    /// large, nothing is kept.
    pub fn commit(self) -> (r: (InterpreterResult<Option<AssetMap>>, SavePointAction))
        ensures
            self.record().valid(),
            self.parent() matches Some(p) ==> p@.valid() && (*final(p))@.valid(),
            match self.parent() {
                Some(p) => if p@.fits(self.record()) {
                    &&& r.0 matches Ok(None)
                    &&& r.1 == SavePointAction::Commit
                    &&& (*final(p))@ == p@.merged(self.record())
                } else {
                    &&& r.0 matches Err(e) && arithmetic_overflow(e)
                    &&& r.1 == SavePointAction::Abandon
                    &&& *final(p) == *p
                },
                None => {
                    &&& r.0 matches Ok(Some(map)) && map@ == self.record()
                    &&& r.1 == SavePointAction::Commit
                },
            },
    {
        let GlobalContext { parent_map, asset_map, .. } = self;
        proof {
            use_type_invariant(&asset_map);
            asset_map.lemma_valid();
        }
        match parent_map {
            Some(parent) => {
                proof {
                    use_type_invariant(&*parent);
                    parent.lemma_valid();
                }
                match parent.commit_other(asset_map) {
                    Ok(_) => (Ok(None), SavePointAction::Commit),
                    Err(e) => (Err(e), SavePointAction::Abandon),
                }
            },
            None => (Ok(Some(asset_map)), SavePointAction::Commit),
        }
    }

    /// Ends the context and keeps nothing of what was transferred in it.
    pub fn roll_back(self) -> (r: SavePointAction)
        ensures
            r == SavePointAction::RollBack,
            self.record().valid(),
            self.parent() matches Some(p) ==> *final(p) == *p,
    {
        proof {
            use_type_invariant(&self.asset_map);
            self.asset_map.lemma_valid();
        }
        SavePointAction::RollBack
    }

    /// Ends the context as an error does: nothing of what was transferred in it is
    /// kept.
    pub fn abandon(self) -> (r: SavePointAction)
        ensures
            r == SavePointAction::Abandon,
            self.record().valid(),
            self.parent() matches Some(p) ==> *final(p) == *p,
    {
        proof {
            use_type_invariant(&self.asset_map);
            self.asset_map.lemma_valid();
        }
        SavePointAction::Abandon
    }

    /// Ends the context of a public function's call as the call's result says:
    /// what the call did is kept where it returned a response that commits.
    pub fn handle_tx_result(self, result: InterpreterResult<Value>) -> (r: (
        InterpreterResult<Value>,
        SavePointAction,
    ))
        ensures
            self.record().valid(),
            tx_outcome(result, self.can_commit(), r),
            self.parent() matches Some(p) ==> (*final(p))@ == tx_record(
                result,
                p@,
                self.record(),
            ),
    {
        match result {
            Ok(Value::Response(data)) => {
                if data.committed {
                    match self.commit() {
                        (Ok(_), action) => (Ok(Value::Response(data)), action),
                        (Err(e), action) => (Err(e), action),
                    }
                } else {
                    (Ok(Value::Response(data)), self.roll_back())
                }
            },
            Ok(_) => (
                Err(Error::Unchecked(UncheckedError::ContractMustReturnBoolean)),
                self.abandon(),
            ),
            Err(e) => (Err(e), self.roll_back()),
        }
    }
}

/// A context that is dropped, without being committed, leaves the record around it
/// as it was.
pub proof fn law_dropped_context_keeps_record(g: GlobalContext)
    requires
        has_resolved(g),
    ensures
        g.parent() matches Some(p) ==> *final(p) == *p,
{
}

/// Where a context was made in another and is dropped while still nested in it,
/// whatever was recorded in it since, the other's record ends as it was when the
/// context was made.
pub proof fn law_dropped_context_restores_outer_record(
    outer: GlobalContext,
    made: GlobalContext,
    dropped: GlobalContext,
    read_only: bool,
)
    requires
        outer.nests(made, read_only),
        dropped.parent() == made.parent(),
        has_resolved(dropped),
    ensures
        (*final(made.parent()->0))@ == outer.record(),
{
    law_dropped_context_keeps_record(dropped);
}

/// Every context nested in a read-only one, however deep, is read-only.
pub proof fn law_read_only_is_inherited(chain: Seq<GlobalContext>)
    requires
        chain.len() > 0,
        chain[0].read_only(),
        forall|i: int|
            #![trigger chain[i]]
            0 < i < chain.len() ==> chain[i - 1].nests(chain[i], chain[i - 1].read_only())
                || chain[i - 1].nests(chain[i], true),
    ensures
        forall|i: int| 0 <= i < chain.len() ==> (#[trigger] chain[i]).read_only(),
    decreases chain.len(),
{
    if chain.len() > 1 {
        let shorter = chain.drop_last();
        assert(forall|i: int| 0 <= i < shorter.len() ==> #[trigger] shorter[i] == chain[i]);
        law_read_only_is_inherited(shorter);
        assert forall|i: int| 0 <= i < chain.len() implies (#[trigger] chain[i]).read_only() by {
            if i == chain.len() - 1 {
                assert(shorter[i - 1].read_only());
            } else {
                assert(shorter[i].read_only());
            }
        }
    }
}

/// The record around a call stays valid, whatever the call returned.
pub proof fn law_call_keeps_valid(
    read_only: bool,
    result: InterpreterResult<Value>,
    before: AssetMapView,
    inner: AssetMapView,
)
    requires
        before.valid(),
        inner.valid(),
    ensures
        call_record(read_only, result, before, inner).valid(),
{
}

/// The database and the record of transfers agree on a call: the save point is
/// committed exactly where the record takes over what the call transferred, and
/// that is where a function that is not read-only returned a response that commits
/// and no sum is too large.
pub proof fn law_save_point_agrees_with_record(
    read_only: bool,
    result: InterpreterResult<Value>,
    before: AssetMapView,
    inner: AssetMapView,
    r: (InterpreterResult<Value>, SavePointAction),
)
    requires
        call_outcome(read_only, result, before.fits(inner), r),
    ensures
        r.1 == SavePointAction::Commit <==> !read_only && commits(result) && before.fits(inner),
        call_record(read_only, result, before, inner) == if r.1 == SavePointAction::Commit {
            before.merged(inner)
        } else {
            before
        },
{
}

/// A call that ends in an error has no effect: neither the database nor the record
/// keeps anything of it.
pub proof fn law_failed_call_has_no_effect(
    read_only: bool,
    result: InterpreterResult<Value>,
    before: AssetMapView,
    inner: AssetMapView,
    r: (InterpreterResult<Value>, SavePointAction),
)
    requires
        call_outcome(read_only, result, before.fits(inner), r),
        r.0 is Err,
    ensures
        r.1 != SavePointAction::Commit,
        call_record(read_only, result, before, inner) == before,
{
}

/// A read-only function has no effect, whatever it returns, and what it returns is
/// handed on as it is.
pub proof fn law_read_only_call_has_no_effect(
    result: InterpreterResult<Value>,
    before: AssetMapView,
    inner: AssetMapView,
    r: (InterpreterResult<Value>, SavePointAction),
)
    requires
        call_outcome(true, result, before.fits(inner), r),
    ensures
        r == (result, SavePointAction::RollBack),
        call_record(true, result, before, inner) == before,
{
}

/// A call's response decides alone by whether it commits, whatever value it carries:
/// one that commits is handed on and kept where no sum is too large, and is refused
/// where one is; one that does not commit is handed on and rolled back.
pub proof fn law_response_decides_by_its_verdict(
    data: ResponseData,
    before: AssetMapView,
    inner: AssetMapView,
    fits: bool,
    r: (InterpreterResult<Value>, SavePointAction),
)
    requires
        tx_outcome(Ok(Value::Response(data)), fits, r),
    ensures
        data.committed && fits ==> r == (
            Ok::<Value, Error>(Value::Response(data)),
            SavePointAction::Commit,
        ),
        data.committed && !fits ==> r == (
            Err::<Value, Error>(Error::Runtime(RuntimeErrorType::ArithmeticOverflow)),
            SavePointAction::Abandon,
        ),
        !data.committed ==> r == (
            Ok::<Value, Error>(Value::Response(data)),
            SavePointAction::RollBack,
        ),
        data.committed && before.fits(inner) ==> tx_record(
            Ok(Value::Response(data)),
            before,
            inner,
        ) == before.merged(inner),
        data.committed && !before.fits(inner) ==> tx_record(
            Ok(Value::Response(data)),
            before,
            inner,
        ) == before,
        !data.committed ==> tx_record(Ok(Value::Response(data)), before, inner) == before,
{
}

/// Two responses with the same verdict have the same effect, whatever values they
/// carry.
pub proof fn law_same_verdict_same_effect(
    one: ResponseData,
    other: ResponseData,
    before: AssetMapView,
    inner: AssetMapView,
    fits: bool,
    r: (InterpreterResult<Value>, SavePointAction),
    s: (InterpreterResult<Value>, SavePointAction),
)
    requires
        one.committed == other.committed,
        tx_outcome(Ok(Value::Response(one)), fits, r),
        tx_outcome(Ok(Value::Response(other)), fits, s),
    ensures
        r.1 == s.1,
        r.0 is Ok <==> s.0 is Ok,
        tx_record(Ok(Value::Response(one)), before, inner) == tx_record(
            Ok(Value::Response(other)),
            before,
            inner,
        ),
        commits(Ok(Value::Response(one))) == one.committed,
{
}

/// A public function that returns something other than a response is refused, and one
/// that fails has its error handed on and is rolled back. Nothing is kept of either.
pub proof fn law_without_a_response_nothing_is_kept(
    result: InterpreterResult<Value>,
    before: AssetMapView,
    inner: AssetMapView,
    fits: bool,
    r: (InterpreterResult<Value>, SavePointAction),
)
    requires
        tx_outcome(result, fits, r),
        result matches Ok(value) ==> !(value is Response),
    ensures
        result is Ok ==> r == (
            Err::<Value, Error>(Error::Unchecked(UncheckedError::ContractMustReturnBoolean)),
            SavePointAction::Abandon,
        ),
        result is Err ==> r == (result, SavePointAction::RollBack),
        tx_record(result, before, inner) == before,
        !commits(result),
{
}

/// A function that is read-only is always rolled back and its result handed on. Any
/// other ends as its result says.
pub proof fn law_only_read_only_functions_differ(
    result: InterpreterResult<Value>,
    before: AssetMapView,
    inner: AssetMapView,
    fits: bool,
    r: (InterpreterResult<Value>, SavePointAction),
)
    ensures
        call_outcome(true, result, fits, r) <==> r == (result, SavePointAction::RollBack),
        call_outcome(false, result, fits, r) <==> tx_outcome(result, fits, r),
        call_record(true, result, before, inner) == before,
        call_record(false, result, before, inner) == tx_record(result, before, inner),
{
}

/// A context can be committed exactly where it is an outermost one or no sum with the
/// record around it is too large.
pub proof fn law_what_can_be_committed(g: GlobalContext)
    ensures
        g.parent() is None ==> g.can_commit(),
        g.parent() matches Some(p) ==> (g.can_commit() <==> p@.fits(g.record())),
{
}

/// A context is a fresh one in another exactly where nothing is recorded in it, it may
/// change things as it was asked to, and it stands in the other's record.
pub proof fn law_fresh_contexts_are_empty(
    outer: GlobalContext,
    inner: GlobalContext,
    read_only: bool,
)
    ensures
        outer.nests(inner, read_only) <==> {
            &&& inner.record().tokens == Map::<TransferKey, int>::empty()
            &&& inner.record().assets == Map::<TransferKey, Seq<Value>>::empty()
            &&& inner.read_only() == read_only
            &&& inner.parent() is Some
            &&& inner.parent()->0@ == outer.record()
        },
{
    if inner.record().tokens == Map::<TransferKey, int>::empty() && inner.record().assets
        == Map::<TransferKey, Seq<Value>>::empty() {
        assert(inner.record() =~= AssetMapView::empty());
    }
}

} // verus!
