//! Chained binding tables.
use vstd::prelude::*;
use crate::ast::Ident;
use crate::execution::{Env, Value, ValueV};

verus! {

/// The newest binding of `k` in a frame, if any.
pub open spec fn frame_lookup(vars: Seq<(Ident, Value)>, k: Seq<char>) -> Option<ValueV>
    decreases vars.len(),
{
    if vars.len() == 0 {
        None
    } else if vars.last().0@ == k {
        Some(vars.last().1@)
    } else {
        frame_lookup(vars.drop_last(), k)
    }
}

/// A frame of bindings, with a borrowed parent frame. Lookups go from the
/// frame outward; a binding set here shadows the parents' and never changes them.
pub struct Scope<'a> {
    parent: Option<&'a Scope<'a>>,
    vars: Vec<(Ident, Value)>,
}

impl<'a> Scope<'a> {
    /// What `k` is bound to, seen from this frame.
    pub closed spec fn lookup(&self, k: Seq<char>) -> Option<ValueV>
        decreases self,
    {
        match frame_lookup(self.vars@, k) {
            Some(v) => Some(v),
            None => match self.parent {
                Some(p) => p.lookup(k),
                None => None,
            },
        }
    }

    /// Every binding visible from this frame.
    pub open spec fn env(&self) -> Env {
        Map::new(|k: Seq<char>| self.lookup(k) is Some, |k: Seq<char>| self.lookup(k)->Some_0)
    }

    /// An empty root scope.
    pub fn new() -> (r: Scope<'a>)
        ensures
            r.env() == Map::<Seq<char>, ValueV>::empty(),
    {
        let r = Scope { parent: None, vars: Vec::new() };
        assert(r.env() =~= Map::<Seq<char>, ValueV>::empty());
        r
    }

    /// A new frame for a block, nested in `parent`.
    pub fn derive(parent: &'a Scope<'a>) -> (r: Scope<'a>)
        ensures
            r.env() == parent.env(),
    {
        let r = Scope { parent: Some(parent), vars: Vec::new() };
        assert(r.env() =~= parent.env());
        r
    }

    /// A new frame for a function call, nested in `self`.
    pub fn child(&'a self) -> (r: Scope<'a>)
        ensures
            r.env() == self.env(),
    {
        Scope::derive(self)
    }

    /// The value that `name` is bound to, seen from this frame.
    pub fn get(&self, name: &Ident) -> (r: Option<&Value>)
        ensures
            r is Some <==> self.env().contains_key(name@),
            r is Some ==> r->Some_0@ == self.env()[name@],
        decreases self,
    {
        let mut i: usize = self.vars.len();
        assert(self.vars@.take(i as int) =~= self.vars@);
        while i > 0
            invariant
                i <= self.vars@.len(),
                frame_lookup(self.vars@, name@) == frame_lookup(self.vars@.take(i as int), name@),
            decreases i,
        {
            assert(self.vars@.take(i as int).drop_last() =~= self.vars@.take(i - 1));
            if self.vars[i - 1].0 == *name {
                return Some(&self.vars[i - 1].1);
            }
            i = i - 1;
        }
        assert(self.vars@.take(0) =~= Seq::<(Ident, Value)>::empty());
        match self.parent {
            Some(p) => p.get(name),
            None => None,
        }
    }

    /// Binds `name` to `value` in this frame.
    pub fn set(&mut self, name: Ident, value: Value)
        ensures
            final(self).env() == old(self).env().insert(name@, value@),
    {
        let ghost k = name@;
        let ghost v = value@;
        self.vars.push((name, value));
        assert(self.vars@.drop_last() =~= old(self).vars@);
        assert(self.env() =~= old(self).env().insert(k, v));
    }
}

} // verus!
