//! Which states a cluster claims, and which it releases before it leaves.

use vstd::prelude::*;

use crate::v0::{ClusterName, State, StateName};

verus! {

/// The names of the states without an owner, in order.
pub open spec fn spec_unowned(states: Seq<State>) -> Seq<Seq<char>>
    decreases states.len(),
{
    if states.len() == 0 {
        Seq::empty()
    } else if states.last().owner is None {
        spec_unowned(states.drop_last()).push(states.last().name.0@)
    } else {
        spec_unowned(states.drop_last())
    }
}

/// The state's owner is the cluster of that name.
pub open spec fn owned_by(state: State, cluster: Seq<char>) -> bool {
    match state.owner {
        Some(o) => o.0@ == cluster,
        None => false,
    }
}

/// The names of the states that `cluster` owns, in order.
pub open spec fn spec_owned_by(states: Seq<State>, cluster: Seq<char>) -> Seq<Seq<char>>
    decreases states.len(),
{
    if states.len() == 0 {
        Seq::empty()
    } else if owned_by(states.last(), cluster) {
        spec_owned_by(states.drop_last(), cluster).push(states.last().name.0@)
    } else {
        spec_owned_by(states.drop_last(), cluster)
    }
}

/// The names of a list of states.
pub open spec fn names(states: Seq<StateName>) -> Seq<Seq<char>> {
    states.map_values(|n: StateName| n.0@)
}

/// The states to set this cluster as owner of: the unowned ones, in order.
/// A state that has an owner is left to it.
pub fn claim_unowned_states(states: &Vec<State>) -> (r: Vec<StateName>)
    ensures
        names(r@) == spec_unowned(states@),
{
    let mut r: Vec<StateName> = Vec::new();
    let mut i: usize = 0;
    while i < states.len()
        invariant
            i <= states@.len(),
            names(r@) == spec_unowned(states@.take(i as int)),
        decreases states@.len() - i,
    {
        let ghost prefix = states@.take(i as int);
        assert(states@.take(i + 1).drop_last() =~= prefix);
        assert(states@.take(i + 1).last() == states@[i as int]);
        let ghost before = r@;
        if states[i].owner.is_none() {
            r.push(states[i].name.clone());
            assert(names(r@) =~= names(before).push(states@[i as int].name.0@));
        }
        i = i + 1;
    }
    assert(states@.take(states@.len() as int) =~= states@);
    r
}

/// The states to release before `cluster` is deleted: those it owns, in
/// order. States owned by another cluster, or by none, are skipped.
pub fn relinquish_states(cluster: &ClusterName, states: &Vec<State>) -> (r: Vec<StateName>)
    ensures
        names(r@) == spec_owned_by(states@, cluster.0@),
{
    let mut r: Vec<StateName> = Vec::new();
    let mut i: usize = 0;
    while i < states.len()
        invariant
            i <= states@.len(),
            names(r@) == spec_owned_by(states@.take(i as int), cluster.0@),
        decreases states@.len() - i,
    {
        let ghost prefix = states@.take(i as int);
        assert(states@.take(i + 1).drop_last() =~= prefix);
        assert(states@.take(i + 1).last() == states@[i as int]);
        let ghost before = r@;
        let owned = match &states[i].owner {
            Some(owner) => owner.eq(cluster),
            None => false,
        };
        if owned {
            r.push(states[i].name.clone());
            assert(names(r@) =~= names(before).push(states@[i as int].name.0@));
        }
        i = i + 1;
    }
    assert(states@.take(states@.len() as int) =~= states@);
    r
}

/// A call that unregistering a cluster makes.
pub enum UnregisterCall {
    UnsetOwner(StateName),
    DeleteCluster(ClusterName),
}

/// The calls' view: `(true, state)` to release a state, `(false, cluster)`
/// to delete the cluster.
pub open spec fn call_view(c: UnregisterCall) -> (bool, Seq<char>) {
    match c {
        UnregisterCall::UnsetOwner(s) => (true, s.0@),
        UnregisterCall::DeleteCluster(c) => (false, c.0@),
    }
}

/// Unregistering `cluster`: release each state it owns, then delete it,
/// whether it owned any state or none.
pub fn plan_unregister(cluster: &ClusterName, states: &Vec<State>) -> (r: Vec<UnregisterCall>)
    ensures
        r@.len() == spec_owned_by(states@, cluster.0@).len() + 1,
        forall|i: int|
            0 <= i < r@.len() - 1 ==> call_view(#[trigger] r@[i]) == (
                true,
                spec_owned_by(states@, cluster.0@)[i],
            ),
        call_view(r@.last()) == (false, cluster.0@),
{
    let owned = relinquish_states(cluster, states);
    let mut r: Vec<UnregisterCall> = Vec::new();
    let mut i: usize = 0;
    while i < owned.len()
        invariant
            i <= owned@.len(),
            r@.len() == i,
            forall|k: int| 0 <= k < i ==> call_view(#[trigger] r@[k]) == (true, owned@[k].0@),
        decreases owned@.len() - i,
    {
        r.push(UnregisterCall::UnsetOwner(owned[i].clone()));
        i = i + 1;
    }
    r.push(UnregisterCall::DeleteCluster(cluster.clone()));
    assert forall|k: int| 0 <= k < r@.len() - 1 implies call_view(#[trigger] r@[k]) == (
        true,
        spec_owned_by(states@, cluster.0@)[k],
    ) by {
        assert(names(owned@)[k] == owned@[k].0@);
    }
    r
}

proof fn lemma_unowned_members(states: Seq<State>, name: Seq<char>)
    ensures
        spec_unowned(states).contains(name) <==> exists|i: int|
            0 <= i < states.len() && (#[trigger] states[i]).owner is None && states[i].name.0@ == name,
    decreases states.len(),
{
    if states.len() > 0 {
        let init = states.drop_last();
        let u = spec_unowned(states);
        let ui = spec_unowned(init);
        lemma_unowned_members(init, name);
        if ui.contains(name) {
            let i = choose|i: int|
                0 <= i < init.len() && (#[trigger] init[i]).owner is None && init[i].name.0@ == name;
            assert(states[i] == init[i]);
        }
        if exists|i: int|
            0 <= i < states.len() && (#[trigger] states[i]).owner is None && states[i].name.0@ == name {
            let i = choose|i: int|
                0 <= i < states.len() && (#[trigger] states[i]).owner is None && states[i].name.0@ == name;
            if i < states.len() - 1 {
                assert(init[i] == states[i]);
            }
        }
        if states.last().owner is None {
            assert(u == ui.push(states.last().name.0@));
            assert(u[ui.len() as int] == states.last().name.0@);
            if ui.contains(name) {
                let k = choose|k: int| 0 <= k < ui.len() && ui[k] == name;
                assert(u[k] == name);
            }
            if u.contains(name) && name != states.last().name.0@ {
                let k = choose|k: int| 0 <= k < u.len() && u[k] == name;
                assert(ui[k] == name);
            }
        }
    }
}

/// Claiming is non-destructive: every state it touches has no owner, and
/// every unowned state is touched. A state with an owner gets no call
/// unless another, unowned state of the list bears the same name.
pub proof fn lemma_claim_spares_owned(states: Seq<State>)
    ensures
        forall|name: Seq<char>| #[trigger] spec_unowned(states).contains(name) <==> exists|i: int|
            0 <= i < states.len() && (#[trigger] states[i]).owner is None && states[i].name.0@ == name,
{
    assert forall|name: Seq<char>| #[trigger] spec_unowned(states).contains(name) <==> exists|i: int|
        0 <= i < states.len() && (#[trigger] states[i]).owner is None && states[i].name.0@ == name by {
        lemma_unowned_members(states, name);
    }
}

proof fn lemma_owned_members(states: Seq<State>, cluster: Seq<char>, name: Seq<char>)
    ensures
        spec_owned_by(states, cluster).contains(name) <==> exists|i: int|
            0 <= i < states.len() && owned_by(#[trigger] states[i], cluster)
                && states[i].name.0@ == name,
    decreases states.len(),
{
    if states.len() > 0 {
        let init = states.drop_last();
        let u = spec_owned_by(states, cluster);
        let ui = spec_owned_by(init, cluster);
        lemma_owned_members(init, cluster, name);
        if ui.contains(name) {
            let i = choose|i: int|
                0 <= i < init.len() && owned_by(#[trigger] init[i], cluster)
                    && init[i].name.0@ == name;
            assert(states[i] == init[i]);
        }
        if exists|i: int|
            0 <= i < states.len() && owned_by(#[trigger] states[i], cluster)
                && states[i].name.0@ == name {
            let i = choose|i: int|
                0 <= i < states.len() && owned_by(#[trigger] states[i], cluster) && states[i].name.0@ == name;
            if i < states.len() - 1 {
                assert(init[i] == states[i]);
            }
        }
        if owned_by(states.last(), cluster) {
            assert(u == ui.push(states.last().name.0@));
            assert(u[ui.len() as int] == states.last().name.0@);
            if ui.contains(name) {
                let k = choose|k: int| 0 <= k < ui.len() && ui[k] == name;
                assert(u[k] == name);
            }
            if u.contains(name) && name != states.last().name.0@ {
                let k = choose|k: int| 0 <= k < u.len() && u[k] == name;
                assert(ui[k] == name);
            }
        }
    }
}

/// Relinquishing is selective: the states released are exactly those that
/// the cluster owns (by name); the last call deletes the cluster.
pub proof fn lemma_relinquish_selective(states: Seq<State>, cluster: Seq<char>)
    ensures
        forall|name: Seq<char>| #[trigger] spec_owned_by(states, cluster).contains(name) <==> exists|i: int|
            0 <= i < states.len() && owned_by(#[trigger] states[i], cluster)
                && states[i].name.0@ == name,
{
    assert forall|name: Seq<char>| #[trigger] spec_owned_by(states, cluster).contains(name) <==> exists|i: int|
        0 <= i < states.len() && owned_by(#[trigger] states[i], cluster)
            && states[i].name.0@ == name by {
        lemma_owned_members(states, cluster, name);
    }
}

} // verus!
