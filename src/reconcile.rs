//! Making states available in a target set of locations.
//!
//! The decisions are made here on fetched snapshots; the caller performs the
//! remote calls that they ask for and feeds the answers back.

use vstd::prelude::*;

use crate::location::Location;
use crate::text::{join, joined, views};
use crate::v0::{State, StateLocationAws, StateLocationAzure, StateLocationStatus, StateName};

verus! {

/// The targets that the state is not available in, in target order.
pub open spec fn spec_missing(state: State, targets: Seq<Location>) -> Seq<Location>
    decreases targets.len(),
{
    if targets.len() == 0 {
        Seq::empty()
    } else if state.spec_available_in(targets.last()) {
        spec_missing(state, targets.drop_last())
    } else {
        spec_missing(state, targets.drop_last()).push(targets.last())
    }
}

/// The subsequence of `targets` that `state` is not available in.
pub fn missing_locations(state: &State, targets: &Vec<Location>) -> (r: Vec<Location>)
    ensures
        r@ == spec_missing(*state, targets@),
{
    let mut r: Vec<Location> = Vec::new();
    let mut i: usize = 0;
    while i < targets.len()
        invariant
            i <= targets@.len(),
            r@ == spec_missing(*state, targets@.take(i as int)),
        decreases targets@.len() - i,
    {
        let ghost prefix = targets@.take(i as int);
        assert(targets@.take(i + 1).drop_last() =~= prefix);
        assert(targets@.take(i + 1).last() == targets@[i as int]);
        if !state.is_available_in(&targets[i]) {
            r.push(targets[i]);
        }
        i = i + 1;
    }
    assert(targets@.take(targets@.len() as int) =~= targets@);
    r
}

proof fn lemma_missing_members(state: State, targets: Seq<Location>, l: Location)
    ensures
        spec_missing(state, targets).contains(l) <==> (targets.contains(l)
            && !state.spec_available_in(l)),
    decreases targets.len(),
{
    if targets.len() > 0 {
        let init = targets.drop_last();
        let x = targets.last();
        let m = spec_missing(state, targets);
        let mi = spec_missing(state, init);
        lemma_missing_members(state, init, l);
        if init.contains(l) {
            let k = choose|k: int| 0 <= k < init.len() && init[k] == l;
            assert(targets[k] == l);
        }
        if targets.contains(l) && l != x {
            let k = choose|k: int| 0 <= k < targets.len() && targets[k] == l;
            assert(init[k] == l);
        }
        if !state.spec_available_in(x) {
            assert(m == mi.push(x));
            if mi.contains(l) {
                let k = choose|k: int| 0 <= k < mi.len() && mi[k] == l;
                assert(m[k] == l);
            }
            if m.contains(l) && l != x {
                let k = choose|k: int| 0 <= k < m.len() && m[k] == l;
                assert(mi[k] == l);
            }
            assert(m[mi.len() as int] == x);
            assert(targets[targets.len() - 1] == x);
        }
    }
}

/// What `missing_locations` returns is drawn from the targets, and a state
/// that has since been extended to all of it (keeping what it had) misses
/// nothing of the same targets.
pub proof fn lemma_missing_idempotent(state: State, targets: Seq<Location>, extended: State)
    requires
        forall|l: Location| state.spec_available_in(l) ==> extended.spec_available_in(l),
        forall|l: Location| #[trigger]
            spec_missing(state, targets).contains(l) ==> extended.spec_available_in(l),
    ensures
        forall|l: Location| #[trigger]
            spec_missing(state, targets).contains(l) ==> targets.contains(l),
        spec_missing(extended, targets) == Seq::<Location>::empty(),
{
    assert forall|l: Location| #[trigger]
        spec_missing(state, targets).contains(l) implies targets.contains(l) by {
        lemma_missing_members(state, targets, l);
    }
    assert forall|l: Location| targets.contains(l) implies extended.spec_available_in(l) by {
        lemma_missing_members(state, targets, l);
    }
    if spec_missing(extended, targets).len() > 0 {
        let l = spec_missing(extended, targets)[0];
        assert(spec_missing(extended, targets).contains(l));
        lemma_missing_members(extended, targets, l);
    }
    assert(spec_missing(extended, targets) =~= Seq::<Location>::empty());
}

/// `sub` is `whole` read at the strictly increasing positions `pos`.
pub open spec fn taken_in_order(sub: Seq<Location>, whole: Seq<Location>, pos: spec_fn(int) -> int) -> bool {
    &&& forall|k: int|
        0 <= k < sub.len() ==> 0 <= #[trigger] pos(k) < whole.len() && sub[k] == whole[pos(k)]
    &&& forall|k1: int, k2: int| 0 <= k1 < k2 < sub.len() ==> #[trigger] pos(k1) < #[trigger] pos(k2)
}

/// The index in `targets` of the `k`-th missing location.
pub open spec fn missing_origin(state: State, targets: Seq<Location>, k: int) -> int
    decreases targets.len(),
{
    if targets.len() == 0 {
        0
    } else if !state.spec_available_in(targets.last()) && k == spec_missing(
        state,
        targets.drop_last(),
    ).len() {
        targets.len() - 1
    } else {
        missing_origin(state, targets.drop_last(), k)
    }
}

proof fn lemma_missing_origin(state: State, targets: Seq<Location>)
    ensures
        taken_in_order(spec_missing(state, targets), targets, |k: int| missing_origin(state, targets, k)),
    decreases targets.len(),
{
    if targets.len() > 0 {
        let init = targets.drop_last();
        let x = targets.last();
        let m = spec_missing(state, targets);
        let mi = spec_missing(state, init);
        let pos = |k: int| missing_origin(state, targets, k);
        let posi = |k: int| missing_origin(state, init, k);
        lemma_missing_origin(state, init);
        assert forall|k: int| 0 <= k < mi.len() implies #[trigger] pos(k) == posi(k) && 0 <= pos(k) < init.len() by {
            assert(0 <= posi(k) < init.len());
        }
        assert forall|k: int| 0 <= k < m.len() implies 0 <= #[trigger] pos(k) < targets.len() && m[k] == targets[pos(k)] by {
            if k < mi.len() {
                assert(0 <= posi(k) < init.len() && mi[k] == init[posi(k)]);
            }
        }
        assert forall|k1: int, k2: int| 0 <= k1 < k2 < m.len() implies #[trigger] pos(k1) < #[trigger] pos(k2) by {
            if k2 < mi.len() {
                assert(posi(k1) < posi(k2));
            } else {
                assert(0 <= posi(k1) < init.len());
            }
        }
    }
}

/// `missing_locations` keeps the targets' relative order: its result is the
/// targets read at strictly increasing positions.
pub proof fn lemma_missing_keeps_order(state: State, targets: Seq<Location>)
    ensures
        exists|pos: spec_fn(int) -> int| #[trigger]
            taken_in_order(spec_missing(state, targets), targets, pos),
{
    lemma_missing_origin(state, targets);
}

/// One location to extend one state to.
pub struct Extension {
    pub state: StateName,
    pub location: Location,
}

/// The name and location of an extension.
pub open spec fn extension_view(e: Extension) -> (Seq<char>, Location) {
    (e.state.0@, e.location)
}

/// Each state's missing locations paired with its name: states in the
/// caller's order, locations in target order.
pub open spec fn spec_pending(states: Seq<State>, targets: Seq<Location>) -> Seq<(Seq<char>, Location)>
    decreases states.len(),
{
    if states.len() == 0 {
        Seq::empty()
    } else {
        let last = states.last();
        spec_pending(states.drop_last(), targets) + spec_missing(last, targets).map_values(
            |l: Location| (last.name.0@, l),
        )
    }
}

/// Some state misses more than one target at once.
pub open spec fn spec_needs_wait(states: Seq<State>, targets: Seq<Location>) -> bool {
    exists|i: int| 0 <= i < states.len() && spec_missing(#[trigger] states[i], targets).len() > 1
}

/// The command line that adds one location to one state: `<state> <region>`.
pub open spec fn remediation_line(p: (Seq<char>, Location)) -> Seq<char> {
    p.0 + " "@ + p.1.spec_as_str()
}

/// A batch that was refused before anything was changed.
pub struct BatchRejected {
    /// One line per missing (state, location) pair, in state-then-location
    /// order; each one a single addition that can run on its own.
    pub remediation: Vec<String>,
}

impl BatchRejected {
    pub open spec fn spec_message(&self) -> Seq<char> {
        "A state can take only one new location at a time without waiting; use --wait, or add the locations one by one:\n"@
            + joined(views(self.remediation@), "\n"@)
    }

    pub fn message(&self) -> (r: String)
        ensures
            r@ == self.spec_message(),
    {
        let mut r = String::from_str(
            "A state can take only one new location at a time without waiting; use --wait, or add the locations one by one:\n",
        );
        r.append(join(&self.remediation, "\n").as_str());
        r
    }
}

/// `<state> <region>`.
pub fn remediation(state: &StateName, location: &Location) -> (r: String)
    ensures
        r@ == remediation_line((state.0@, *location)),
{
    let mut r = state.0.clone();
    r.append(" ");
    r.append(location.as_str());
    r
}

/// Decides a batch: every state's missing locations, in order. Without
/// `wait`, a state missing more than one location refuses the whole batch
/// before anything is changed, naming every missing pair.
pub fn plan_reconcile(states: &Vec<State>, targets: &Vec<Location>, wait: bool) -> (r: Result<
    Vec<Extension>,
    BatchRejected,
>)
    ensures
        match r {
            Ok(plan) => (wait || !spec_needs_wait(states@, targets@)) && plan@.map_values(
                |e: Extension| extension_view(e),
            ) == spec_pending(states@, targets@),
            Err(e) => !wait && spec_needs_wait(states@, targets@) && views(e.remediation@)
                == spec_pending(states@, targets@).map_values(
                |p: (Seq<char>, Location)| remediation_line(p),
            ),
        },
{
    let mut plan: Vec<Extension> = Vec::new();
    let mut lines: Vec<String> = Vec::new();
    let mut crowded = false;
    let mut i: usize = 0;
    while i < states.len()
        invariant
            i <= states@.len(),
            plan@.map_values(|e: Extension| extension_view(e)) == spec_pending(
                states@.take(i as int),
                targets@,
            ),
            views(lines@) == spec_pending(states@.take(i as int), targets@).map_values(
                |p: (Seq<char>, Location)| remediation_line(p),
            ),
            crowded == spec_needs_wait(states@.take(i as int), targets@),
        decreases states@.len() - i,
    {
        let state = &states[i];
        let missing = missing_locations(state, targets);
        let ghost before = states@.take(i as int);
        let ghost after = states@.take(i + 1);
        assert(after.drop_last() =~= before);
        assert(after.last() == *state);
        let ghost plan_before = plan@;
        let ghost lines_before = lines@;
        let mut j: usize = 0;
        while j < missing.len()
            invariant
                j <= missing@.len(),
                missing@ == spec_missing(*state, targets@),
                plan@.map_values(|e: Extension| extension_view(e)) == spec_pending(before, targets@)
                    + missing@.take(j as int).map_values(|l: Location| (state.name.0@, l)),
                views(lines@) == spec_pending(before, targets@).map_values(
                    |p: (Seq<char>, Location)| remediation_line(p),
                ) + missing@.take(j as int).map_values(|l: Location| (state.name.0@, l)).map_values(
                    |p: (Seq<char>, Location)| remediation_line(p),
                ),
            decreases missing@.len() - j,
        {
            let ghost p0 = plan@;
            let ghost l0 = lines@;
            plan.push(Extension { state: state.name.clone(), location: missing[j] });
            lines.push(remediation(&state.name, &missing[j]));
            assert(plan@ =~= p0.push(plan@.last()));
            assert(lines@ =~= l0.push(lines@.last()));
            assert(missing@.take(j + 1) =~= missing@.take(j as int).push(missing@[j as int]));
            assert(plan@.map_values(|e: Extension| extension_view(e)) =~= p0.map_values(
                |e: Extension| extension_view(e),
            ).push((state.name.0@, missing@[j as int])));
            assert(views(lines@) =~= views(l0).push(lines@.last()@));
            assert(missing@.take(j + 1).map_values(|l: Location| (state.name.0@, l)) =~= missing@.take(
                j as int,
            ).map_values(|l: Location| (state.name.0@, l)).push((state.name.0@, missing@[j as int])));
            j = j + 1;
            assert(plan@.map_values(|e: Extension| extension_view(e)) =~= spec_pending(before, targets@)
                + missing@.take(j as int).map_values(|l: Location| (state.name.0@, l)));
            assert(views(lines@) =~= spec_pending(before, targets@).map_values(
                |p: (Seq<char>, Location)| remediation_line(p),
            ) + missing@.take(j as int).map_values(|l: Location| (state.name.0@, l)).map_values(
                |p: (Seq<char>, Location)| remediation_line(p),
            ));
        }
        assert(missing@.take(missing@.len() as int) =~= missing@);
        assert(spec_pending(after, targets@).map_values(
            |p: (Seq<char>, Location)| remediation_line(p),
        ) =~= spec_pending(before, targets@).map_values(
            |p: (Seq<char>, Location)| remediation_line(p),
        ) + missing@.map_values(|l: Location| (state.name.0@, l)).map_values(
            |p: (Seq<char>, Location)| remediation_line(p),
        ));
        if missing.len() > 1 {
            crowded = true;
            assert(spec_missing(after[i as int], targets@).len() > 1);
        }
        proof {
            if missing@.len() <= 1 && spec_needs_wait(after, targets@) {
                let k = choose|k: int|
                    0 <= k < after.len() && spec_missing(#[trigger] after[k], targets@).len() > 1;
                assert(before[k] == after[k]);
            }
            if spec_needs_wait(before, targets@) {
                let k = choose|k: int|
                    0 <= k < before.len() && spec_missing(#[trigger] before[k], targets@).len() > 1;
                assert(after[k] == before[k]);
            }
        }
        i = i + 1;
    }
    assert(states@.take(states@.len() as int) =~= states@);
    if crowded && !wait {
        Err(BatchRejected { remediation: lines })
    } else {
        Ok(plan)
    }
}

/// A location record as the management API returns it, per vendor.
pub enum LocationRecord {
    Aws(StateLocationAws),
    Azure(StateLocationAzure),
}

impl LocationRecord {
    pub open spec fn spec_status(&self) -> StateLocationStatus {
        match self {
            LocationRecord::Aws(r) => r.status,
            LocationRecord::Azure(r) => r.status,
        }
    }

    pub fn status(&self) -> (r: StateLocationStatus)
        ensures
            r == self.spec_status(),
    {
        match self {
            LocationRecord::Aws(r) => r.status,
            LocationRecord::Azure(r) => r.status,
        }
    }
}

/// Seconds between two status queries while waiting for a location.
pub const POLL_INTERVAL_SECS: u64 = 5;

/// Where the extension of one state to one location stands. The caller
/// first sends the vendor's "add location" request and feeds its answer to
/// `Adding`; every later answer is a status query's.
#[derive(Clone, Copy, Debug, PartialEq, Eq, Structural)]
pub enum ExtendStep {
    Adding { wait: bool },
    Waiting,
    Done,
}

/// What the caller does next.
pub enum ExtendAction {
    /// Query the location's status after sleeping this many seconds.
    QueryStatus { delay_secs: u64 },
    /// Stop, handing this record back.
    Finish(LocationRecord),
}

impl ExtendStep {
    pub open spec fn spec_next(self, record: LocationRecord) -> (ExtendStep, ExtendAction) {
        match self {
            ExtendStep::Adding { wait } => if wait {
                (ExtendStep::Waiting, ExtendAction::QueryStatus { delay_secs: 0 })
            } else {
                (ExtendStep::Done, ExtendAction::Finish(record))
            },
            ExtendStep::Waiting => if record.spec_status().spec_is_final() {
                (ExtendStep::Done, ExtendAction::Finish(record))
            } else {
                (ExtendStep::Waiting, ExtendAction::QueryStatus { delay_secs: POLL_INTERVAL_SECS })
            },
            ExtendStep::Done => (ExtendStep::Done, ExtendAction::Finish(record)),
        }
    }

    /// Takes the answer to the last request. Without `wait` the addition's
    /// own answer finishes; with it, the status is queried until it is
    /// final (`Ok` or `Error`), sleeping between queries, and the last
    /// record observed is handed back.
    pub fn next(self, record: LocationRecord) -> (r: (ExtendStep, ExtendAction))
        ensures
            r == self.spec_next(record),
    {
        match self {
            ExtendStep::Adding { wait } => if wait {
                (ExtendStep::Waiting, ExtendAction::QueryStatus { delay_secs: 0 })
            } else {
                (ExtendStep::Done, ExtendAction::Finish(record))
            },
            ExtendStep::Waiting => if record.status().is_final() {
                (ExtendStep::Done, ExtendAction::Finish(record))
            } else {
                (ExtendStep::Waiting, ExtendAction::QueryStatus { delay_secs: POLL_INTERVAL_SECS })
            },
            ExtendStep::Done => (ExtendStep::Done, ExtendAction::Finish(record)),
        }
    }
}

/// Feeds the answers in order, collecting the actions asked for.
pub open spec fn spec_feed(step: ExtendStep, records: Seq<LocationRecord>) -> (ExtendStep, Seq<ExtendAction>)
    decreases records.len(),
{
    if records.len() == 0 {
        (step, Seq::empty())
    } else {
        let (next, action) = step.spec_next(records[0]);
        let (last, actions) = spec_feed(next, records.skip(1));
        (last, seq![action] + actions)
    }
}

proof fn lemma_waiting_feed(statuses: Seq<LocationRecord>)
    requires
        statuses.len() > 0,
        forall|i: int| 0 <= i < statuses.len() - 1 ==> !(#[trigger] statuses[i]).spec_status().spec_is_final(),
        statuses.last().spec_status().spec_is_final(),
    ensures
        spec_feed(ExtendStep::Waiting, statuses).0 == ExtendStep::Done,
        spec_feed(ExtendStep::Waiting, statuses).1.len() == statuses.len(),
        forall|i: int| 0 <= i < statuses.len() - 1 ==> #[trigger] spec_feed(ExtendStep::Waiting, statuses).1[i]
            == (ExtendAction::QueryStatus { delay_secs: POLL_INTERVAL_SECS }),
        spec_feed(ExtendStep::Waiting, statuses).1.last() == ExtendAction::Finish(statuses.last()),
    decreases statuses.len(),
{
    let rest = statuses.skip(1);
    if statuses.len() == 1 {
        assert(rest.len() == 0);
        assert(statuses[0] == statuses.last());
        assert(spec_feed(ExtendStep::Done, rest) == (ExtendStep::Done, Seq::<ExtendAction>::empty()));
    } else {
        assert(!statuses[0].spec_status().spec_is_final());
        assert forall|i: int| 0 <= i < rest.len() - 1 implies !(#[trigger] rest[i]).spec_status().spec_is_final() by {
            assert(rest[i] == statuses[i + 1]);
        }
        assert(rest.last() == statuses.last());
        lemma_waiting_feed(rest);
        let acts = spec_feed(ExtendStep::Waiting, statuses).1;
        let rest_acts = spec_feed(ExtendStep::Waiting, rest).1;
        assert(acts == seq![ExtendAction::QueryStatus { delay_secs: POLL_INTERVAL_SECS }] + rest_acts);
        assert forall|i: int| 0 <= i < statuses.len() - 1 implies #[trigger] acts[i]
            == ExtendAction::QueryStatus { delay_secs: POLL_INTERVAL_SECS } by {
            if i > 0 {
                assert(acts[i] == rest_acts[i - 1]);
            }
        }
    }
}

/// Waiting for a new location: when the status queries answer `N` times
/// with a status that is not final and then with a final one (`Ok` or
/// `Error`), exactly `N + 1` queries are made, the first at once and the
/// others after the poll interval, and the extension finishes with that
/// last record.
pub proof fn lemma_poll_terminates(added: LocationRecord, statuses: Seq<LocationRecord>)
    requires
        statuses.len() > 0,
        forall|i: int| 0 <= i < statuses.len() - 1 ==> !(#[trigger] statuses[i]).spec_status().spec_is_final(),
        statuses.last().spec_status().spec_is_final(),
    ensures
        ({
            let (last, actions) = spec_feed(ExtendStep::Adding { wait: true }, seq![added] + statuses);
            &&& last == ExtendStep::Done
            &&& actions.len() == statuses.len() + 1
            &&& actions[0] == (ExtendAction::QueryStatus { delay_secs: 0 })
            &&& forall|i: int| 1 <= i < statuses.len() ==> #[trigger] actions[i]
                == (ExtendAction::QueryStatus { delay_secs: POLL_INTERVAL_SECS })
            &&& actions.last() == ExtendAction::Finish(statuses.last())
        }),
{
    let all = seq![added] + statuses;
    assert(all[0] == added);
    assert(all.skip(1) =~= statuses);
    lemma_waiting_feed(statuses);
    let acts = spec_feed(ExtendStep::Adding { wait: true }, all).1;
    let rest_acts = spec_feed(ExtendStep::Waiting, statuses).1;
    assert(acts == seq![ExtendAction::QueryStatus { delay_secs: 0 }] + rest_acts);
    assert forall|i: int| 1 <= i < statuses.len() implies #[trigger] acts[i]
        == ExtendAction::QueryStatus { delay_secs: POLL_INTERVAL_SECS } by {
        assert(acts[i] == rest_acts[i - 1]);
    }
}

} // verus!
