//! The functions that are being run.

use crate::errors::{Error, InterpreterError, InterpreterResult};
use crate::types::FunctionIdentifier;
use vstd::hash_set::StringHashSet;
use vstd::prelude::*;

verus! {

/// A call stack, outermost call first.
pub type StackTrace = Vec<FunctionIdentifier>;

/// What a call stack records.
#[verifier::ext_equal]
pub struct CallStackView {
    /// The functions that are being run, outermost call first.
    pub stack: Seq<FunctionIdentifier>,
    /// The names of the functions that are watched for being entered again.
    pub watched: Set<Seq<char>>,
}

impl CallStackView {
    /// The record after entering the function.
    pub open spec fn inserted(self, function: FunctionIdentifier, track: bool) -> CallStackView {
        CallStackView {
            stack: self.stack.push(function),
            watched: if track {
                self.watched.insert(function@)
            } else {
                self.watched
            },
        }
    }

    /// Whether the function is the one that was entered last.
    pub open spec fn on_top(self, function: FunctionIdentifier) -> bool {
        self.stack.len() > 0 && self.stack.last()@ == function@
    }

    /// The record after leaving the function: whatever was entered last is taken
    /// off, and the function is no longer watched if it was that and was watched.
    pub open spec fn removed(self, function: FunctionIdentifier, was_tracked: bool) -> CallStackView {
        CallStackView {
            stack: if self.stack.len() > 0 {
                self.stack.drop_last()
            } else {
                self.stack
            },
            watched: if was_tracked && self.on_top(function) {
                self.watched.remove(function@)
            } else {
                self.watched
            },
        }
    }
}

/// The functions that are being run, and those that are watched for being
/// entered again.
pub struct CallStack {
    stack: Vec<FunctionIdentifier>,
    set: StringHashSet,
}

impl View for CallStack {
    type V = CallStackView;

    closed spec fn view(&self) -> CallStackView {
        CallStackView { stack: self.stack@, watched: self.set@ }
    }
}

impl CallStack {
    pub fn new() -> (r: CallStack)
        ensures
            r@.stack == Seq::<FunctionIdentifier>::empty(),
            r@.watched == Set::<Seq<char>>::empty(),
    {
        CallStack { stack: Vec::new(), set: StringHashSet::new() }
    }

    /// How many functions are being run.
    pub fn depth(&self) -> (n: usize)
        ensures
            n == self@.stack.len(),
    {
        self.stack.len()
    }

    /// Whether the function is watched.
    pub fn contains(&self, function: &FunctionIdentifier) -> (b: bool)
        ensures
            b == self@.watched.contains(function@),
    {
        self.set.contains(function.identifier.as_str())
    }

    /// Enters the function, and watches it where `track` says so.
    pub fn insert(&mut self, function: &FunctionIdentifier, track: bool)
        ensures
            final(self)@ == old(self)@.inserted(*function, track),
    {
        self.stack.push(function.clone());
        if track {
            self.set.insert(function.identifier.clone());
        }
    }

    /// Leaves the function, which must be the one that was entered last, and no
    /// longer watches it where `was_tracked` says that it was.
    pub fn remove(&mut self, function: &FunctionIdentifier, was_tracked: bool) -> (r: InterpreterResult<
        (),
    >)
        requires
            was_tracked && old(self)@.on_top(*function) ==> old(self)@.watched.contains(function@),
        ensures
            final(self)@ == old(self)@.removed(*function, was_tracked),
            match r {
                Ok(_) => old(self)@.on_top(*function),
                Err(e) => {
                    &&& !old(self)@.on_top(*function)
                    &&& e.says("Tried to remove item from empty call stack."@)
                },
            },
    {
        match self.stack.pop() {
            Some(removed) => {
                if removed.identifier != function.identifier {
                    return Err(
                        Error::Interpreter(
                            InterpreterError::InterpreterError(
                                "Tried to remove item from empty call stack.".to_string(),
                            ),
                        ),
                    );
                }
                if was_tracked {
                    self.set.remove(function.identifier.as_str());
                }
                Ok(())
            },
            None => Err(
                Error::Interpreter(
                    InterpreterError::InterpreterError(
                        "Tried to remove item from empty call stack.".to_string(),
                    ),
                ),
            ),
        }
    }

    /// The functions that are being run, where the machine is in developer mode,
    /// and nothing elsewhere.
    pub fn make_stack_trace(&self, developer_mode: bool) -> (r: StackTrace)
        ensures
            r@ == if developer_mode {
                self@.stack
            } else {
                Seq::empty()
            },
    {
        if developer_mode {
            let r = self.stack.clone();
            assert(r@ =~= self.stack@);
            r
        } else {
            Vec::new()
        }
    }
}

/// Leaving the function that was just entered restores the call stack, where it
/// was not watched before.
pub proof fn law_remove_undoes_insert(s: CallStackView, function: FunctionIdentifier, track: bool)
    requires
        track ==> !s.watched.contains(function@),
    ensures
        s.inserted(function, track).on_top(function),
        track ==> s.inserted(function, track).watched.contains(function@),
        s.inserted(function, track).removed(function, track) == s,
{
    assert(s.inserted(function, track).removed(function, track) =~= s);
}

/// Whatever is on the stack, leaving a function takes exactly one call off it,
/// also where the call was another's.
pub proof fn law_remove_takes_one_call(
    s: CallStackView,
    function: FunctionIdentifier,
    was_tracked: bool,
)
    requires
        s.stack.len() > 0,
    ensures
        s.removed(function, was_tracked).stack.len() == s.stack.len() - 1,
        !s.on_top(function) ==> s.removed(function, was_tracked).watched == s.watched,
{
}

/// Entering a function puts it on top of the calls there are, and watches it exactly
/// where that is asked for; no other function becomes or ceases to be watched.
pub proof fn law_entering_puts_on_top(
    s: CallStackView,
    function: FunctionIdentifier,
    track: bool,
    name: Seq<char>,
)
    ensures
        s.inserted(function, track).stack.len() == s.stack.len() + 1,
        s.inserted(function, track).stack.last() == function,
        forall|i: int|
            0 <= i < s.stack.len() ==> #[trigger] s.inserted(function, track).stack[i]
                == s.stack[i],
        s.inserted(function, track).watched.contains(name) <==> s.watched.contains(name) || (track
            && name == function.identifier@),
{
}

/// Leaving a function takes the call on top off and no other. The function ceases to
/// be watched exactly where it was on top and it is said that it was watched; no other
/// function becomes or ceases to be watched.
pub proof fn law_leaving_takes_off_the_top(
    s: CallStackView,
    function: FunctionIdentifier,
    was_tracked: bool,
    name: Seq<char>,
)
    ensures
        s.on_top(function) <==> s.stack.len() > 0 && s.stack[s.stack.len() - 1].identifier@
            == function.identifier@,
        s.stack.len() == 0 ==> s.removed(function, was_tracked).stack.len() == 0,
        s.stack.len() > 0 ==> s.removed(function, was_tracked).stack.len() == s.stack.len() - 1,
        forall|i: int|
            0 <= i < s.stack.len() - 1 ==> #[trigger] s.removed(function, was_tracked).stack[i]
                == s.stack[i],
        s.removed(function, was_tracked).watched.contains(name) <==> s.watched.contains(name) && !(
        was_tracked && name == function.identifier@ && s.stack.len() > 0 && s.stack[s.stack.len()
            - 1].identifier@ == function.identifier@),
{
}

} // verus!
