//! The names that an expression binds for the expressions inside it.

use crate::errors::{Error, InterpreterResult, RuntimeErrorType};
use crate::types::Value;
use vstd::hash_map::StringHashMap;
use vstd::prelude::*;

verus! {

/// How deeply local contexts may be nested.
pub const MAX_CONTEXT_DEPTH: u16 = 256;

/// How many contexts there are around one. Only `LocalContext` makes such counts.
pub struct Depth {
    count: u16,
}

impl View for Depth {
    type V = int;

    closed spec fn view(&self) -> int {
        self.count as int
    }
}

/// Bindings, and the context around them.
pub struct LocalContext<'a> {
    pub parent: Option<&'a LocalContext<'a>>,
    pub variables: StringHashMap<Value>,
    /// How many contexts there are around this one.
    pub depth: Depth,
}

impl<'a> LocalContext<'a> {
    /// The contexts around this one, counted.
    pub open spec fn ancestors(&self) -> nat
        decreases self,
    {
        match self.parent {
            Some(parent) => 1 + parent.ancestors(),
            None => 0,
        }
    }

    /// Each depth is one more than that of the context around it, and none is too
    /// large.
    pub open spec fn wf(&self) -> bool
        decreases self,
    {
        &&& self.depth@ <= MAX_CONTEXT_DEPTH
        &&& match self.parent {
            Some(parent) => self.depth@ == parent.depth@ + 1 && parent.wf(),
            None => self.depth@ == 0,
        }
    }

    /// What the innermost binding of the name binds it to.
    pub open spec fn lookup(&self, name: Seq<char>) -> Option<Value>
        decreases self,
    {
        if self.variables@.contains_key(name) {
            Some(self.variables@[name])
        } else {
            match self.parent {
                Some(parent) => parent.lookup(name),
                None => None,
            }
        }
    }

    /// An outermost context without bindings.
    pub fn new() -> (r: LocalContext<'a>)
        ensures
            r.wf(),
            r.depth@ == 0,
            r.parent is None,
            r.variables@ == Map::<Seq<char>, Value>::empty(),
    {
        LocalContext { depth: Depth { count: 0 }, parent: None, variables: StringHashMap::new() }
    }

    /// A context without bindings inside this one.
    pub fn extend(&'a self) -> (r: InterpreterResult<LocalContext<'a>>)
        ensures
            match r {
                Ok(inner) => {
                    &&& self.depth@ < MAX_CONTEXT_DEPTH
                    &&& inner.depth@ == self.depth@ + 1
                    &&& inner.parent == Some(self)
                    &&& inner.variables@ == Map::<Seq<char>, Value>::empty()
                    &&& self.wf() ==> inner.wf()
                },
                Err(e) => {
                    &&& self.depth@ >= MAX_CONTEXT_DEPTH
                    &&& e == Error::Runtime(RuntimeErrorType::MaxContextDepthReached)
                },
            },
    {
        if self.depth.count >= MAX_CONTEXT_DEPTH {
            Err(Error::Runtime(RuntimeErrorType::MaxContextDepthReached))
        } else {
            Ok(
                LocalContext {
                    parent: Some(self),
                    variables: StringHashMap::new(),
                    depth: Depth { count: self.depth.count + 1 },
                },
            )
        }
    }

    pub fn lookup_variable(&self, name: &str) -> (r: Option<Value>)
        ensures
            r == self.lookup(name@),
        decreases self,
    {
        match self.variables.get(name) {
            Some(value) => Some(value.clone()),
            None => {
                match self.parent {
                    Some(parent) => parent.lookup_variable(name),
                    None => None,
                }
            },
        }
    }
}

/// The depth of a context is the number of contexts around it, and so there are
/// never more than `MAX_CONTEXT_DEPTH`.
pub proof fn law_depth_counts_ancestors(context: LocalContext)
    requires
        context.wf(),
    ensures
        context.ancestors() == context.depth@,
        context.ancestors() <= MAX_CONTEXT_DEPTH,
    decreases context,
{
    match context.parent {
        Some(parent) => {
            law_depth_counts_ancestors(*parent);
        },
        None => {},
    }
}

/// A binding hides those of the same name around it, and no others.
pub proof fn law_inner_binding_hides_outer(
    outer: LocalContext,
    inner: LocalContext,
    name: Seq<char>,
)
    requires
        inner.parent == Some(&outer),
    ensures
        inner.variables@.contains_key(name) ==> inner.lookup(name) == Some(inner.variables@[name]),
        !inner.variables@.contains_key(name) ==> inner.lookup(name) == outer.lookup(name),
{
}

/// A name is bound to what the nearest context that binds it binds it to, and to
/// nothing where none does.
pub proof fn law_nearest_binding_is_found(context: LocalContext, name: Seq<char>)
    ensures
        context.variables@.contains_key(name) ==> context.lookup(name) == Some(
            context.variables@[name],
        ),
        !context.variables@.contains_key(name) ==> match context.parent {
            Some(around) => context.lookup(name) == around.lookup(name),
            None => context.lookup(name) is None,
        },
{
}

/// Contexts are counted right exactly where an outermost one counts none, each other
/// one counts one more than the context around it, and none counts too many.
pub proof fn law_counts_go_up_by_one(context: LocalContext)
    ensures
        context.parent is None ==> (context.wf() <==> context.depth@ == 0),
        context.parent matches Some(around) ==> (context.wf() <==> around.wf() && context.depth@
            == around.depth@ + 1 && context.depth@ <= MAX_CONTEXT_DEPTH),
        context.parent is None ==> context.ancestors() == 0,
        context.parent matches Some(around) ==> context.ancestors() == around.ancestors() + 1,
{
}

} // verus!
