//! The stack of hidden-from-documentation states, one entry per open scope.

use vstd::prelude::*;
use crate::tree::{any_hidden_directive, is_hidden_from_docs, Attribute};

verus! {

/// Hidden states of the scopes that are open, outermost first.
///
/// The bottom entry stands for the state outside every scope, where nothing is
/// hidden. Each scope that is entered adds one entry and removes it when it is
/// left. Two ghost counters record how often each has happened.
pub struct SuppressionStack {
    entries: Vec<bool>,
    entered: Ghost<nat>,
    left: Ghost<nat>,
}

impl View for SuppressionStack {
    type V = Seq<bool>;

    closed spec fn view(&self) -> Seq<bool> {
        self.entries@
    }
}

impl SuppressionStack {
    /// How many scopes have been entered since the stack was made.
    pub closed spec fn enters(&self) -> nat {
        self.entered@
    }

    /// How many scopes have been left since the stack was made.
    pub closed spec fn exits(&self) -> nat {
        self.left@
    }

    /// The stack is never empty, its bottom entry is `false`, and it holds one
    /// entry for each scope that was entered and not yet left.
    pub open spec fn wf(&self) -> bool {
        &&& self@.len() >= 1
        &&& !self@[0]
        &&& self@.len() == 1 + self.enters() - self.exits()
    }

    /// The state in effect: that of the innermost open scope.
    pub open spec fn top(&self) -> bool {
        self@.last()
    }

    /// A stack with no scope open.
    pub fn new() -> (s: Self)
        ensures
            s.wf(),
            s@ == seq![false],
            s.enters() == 0,
            s.exits() == 0,
    {
        let mut entries: Vec<bool> = Vec::new();
        entries.push(false);
        SuppressionStack { entries, entered: Ghost(0), left: Ghost(0) }
    }

    /// Number of entries, the bottom one included.
    pub fn depth(&self) -> (n: usize)
        ensures
            n == self@.len(),
    {
        self.entries.len()
    }

    /// The state in effect.
    pub fn current(&self) -> (hidden: bool)
        requires
            self.wf(),
        ensures
            hidden == self.top(),
    {
        self.entries[self.entries.len() - 1]
    }

    /// Opens a scope that carries `attrs`: it is hidden if the enclosing one is
    /// or if `attrs` says so.
    pub fn enter(&mut self, attrs: &[Attribute])
        requires
            old(self).wf(),
        ensures
            final(self).wf(),
            final(self)@ == old(self)@.push(old(self).top() || is_hidden_from_docs(attrs@)),
            final(self).enters() == old(self).enters() + 1,
            final(self).exits() == old(self).exits(),
    {
        let hidden = self.current() || any_hidden_directive(attrs);
        self.entries.push(hidden);
        proof {
            self.entered@ = self.entered@ + 1;
        }
    }

    /// Closes the innermost scope. A scope must be open.
    pub fn exit(&mut self)
        requires
            old(self).wf(),
            old(self)@.len() > 1,
        ensures
            final(self).wf(),
            final(self)@ == old(self)@.drop_last(),
            final(self).enters() == old(self).enters(),
            final(self).exits() == old(self).exits() + 1,
    {
        self.entries.pop();
        proof {
            self.left@ = self.left@ + 1;
        }
    }
}

} // verus!
