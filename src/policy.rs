//! The policy tree that evaluation produces.
use vstd::prelude::*;
use crate::ast::Ident;

verus! {

broadcast use {vstd::seq::group_seq_axioms, vstd::std_specs::vec::group_vec_axioms};

/// A finished policy node: a call of a named function on policies, or a leaf.
#[derive(Debug, PartialEq)]
pub enum Policy {
    FnCall(Ident, Vec<Policy>),
    Value(Ident),
}

/// Model of a policy node.
pub enum PolicyV {
    Call(Seq<char>, Seq<PolicyV>),
    Leaf(Seq<char>),
}

/// Model of a policy.
pub open spec fn policy_view(p: Policy) -> PolicyV
    decreases p,
{
    match p {
        Policy::FnCall(n, args) => PolicyV::Call(n@, policies_view(args@)),
        Policy::Value(n) => PolicyV::Leaf(n@),
    }
}

/// Model of a sequence of policies.
pub open spec fn policies_view(s: Seq<Policy>) -> Seq<PolicyV>
    decreases s,
{
    if s.len() == 0 {
        Seq::empty()
    } else {
        policies_view(s.drop_last()).push(policy_view(s.last()))
    }
}

impl View for Policy {
    type V = PolicyV;

    open spec fn view(&self) -> PolicyV {
        policy_view(*self)
    }
}


fn copy_policies(v: &Vec<Policy>) -> (r: Vec<Policy>)
    ensures
        policies_view(r@) == policies_view(v@),
    decreases v, 0nat,
{
    let mut r: Vec<Policy> = Vec::new();
    let mut i: usize = 0;
    while i < v.len()
        invariant
            i <= v@.len(),
            policies_view(r@) == policies_view(v@.take(i as int)),
        decreases v@.len() - i,
    {
        let ghost before = r@;
        r.push(copy_policy(&v[i]));
        assert(r@.drop_last() =~= before);
        assert(v@.take(i + 1).drop_last() =~= v@.take(i as int));
        i = i + 1;
    }
    assert(v@.take(i as int) =~= v@);
    r
}

/// A copy of a policy, equal to it in the model.
pub fn copy_policy(p: &Policy) -> (r: Policy)
    ensures
        r@ == p@,
    decreases p, 1nat,
{
    match p {
        Policy::FnCall(n, args) => Policy::FnCall(n.clone(), copy_policies(args)),
        Policy::Value(n) => Policy::Value(n.clone()),
    }
}


impl Clone for Policy {
    fn clone(&self) -> (r: Self)
        ensures
            r@ == self@,
    {
        copy_policy(self)
    }
}

} // verus!
