//! Engine-wide laws, each proved once and for all over the spec model that
//! the executable contracts are stated against.

use vstd::prelude::*;

use crate::errors::{SpecTransitionError, SpecValidationError};
use crate::machine::{
    dup_state_scan, event_scan, final_reachable, from_scan, spec_after_build, spec_build_err,
    spec_current, spec_finished, spec_fire_err, state_declared, Event, State, FSM,
};

verus! {

/// No two distinct states share a name.
pub open spec fn no_duplicate_state_names<H>(ss: Seq<State<H>>) -> bool {
    forall|p: int, q: int|
        #![trigger ss[p].name@, ss[q].name@]
        0 <= p < ss.len() && 0 <= q < ss.len() && p != q ==> ss[p].name@ != ss[q].name@
}

/// No two distinct events share a name.
pub open spec fn no_duplicate_event_names<H>(evs: Seq<Event<H>>) -> bool {
    forall|p: int, q: int|
        #![trigger evs[p].name@, evs[q].name@]
        0 <= p < evs.len() && 0 <= q < evs.len() && p != q ==> evs[p].name@ != evs[q].name@
}

/// Two distinct states both carry the name `n`.
pub open spec fn duplicated_state_name<H>(ss: Seq<State<H>>, n: Seq<char>) -> bool {
    exists|p: int, q: int|
        #![trigger ss[p].name@, ss[q].name@]
        0 <= p < ss.len() && 0 <= q < ss.len() && p != q && ss[p].name@ == n && ss[q].name@ == n
}

/// The event references a name no state declares, among its sources or as
/// its destination.
pub open spec fn event_refs_undeclared<H>(e: Event<H>, ss: Seq<State<H>>) -> bool {
    ||| exists|k: int|
        0 <= k < e.from_state@.len() && !state_declared(ss, #[trigger] e.from_state@[k]@)
    ||| !state_declared(ss, e.to_state@)
}

/// Every event's source list is nonempty.
pub open spec fn all_from_nonempty<H>(evs: Seq<Event<H>>) -> bool {
    forall|i: int| 0 <= i < evs.len() ==> (#[trigger] evs[i].from_state@).len() > 0
}

/// Every name any event references is declared as a state.
pub open spec fn all_event_refs_declared<H>(evs: Seq<Event<H>>, ss: Seq<State<H>>) -> bool {
    forall|i: int| 0 <= i < evs.len() ==> !event_refs_undeclared(#[trigger] evs[i], ss)
}

/// A definition with no declared initial state always fails validation with
/// `MissingInitialState`.
pub proof fn lemma_missing_initial_state<H>(m: FSM<H>)
    requires
        m.initial_state is None,
    ensures
        spec_build_err(m) == Some(SpecValidationError::MissingInitialState),
{
}

proof fn lemma_dup_scan_finds<H>(ss: Seq<State<H>>, i: int, a: int, b: int)
    requires
        0 <= i <= a < b < ss.len(),
        ss[a].name@ == ss[b].name@,
    ensures
        dup_state_scan(ss, i) matches Some(SpecValidationError::DuplicateState(n))
            && duplicated_state_name(ss, n),
    decreases a - i,
{
    if exists|j: int| 0 <= j < ss.len() && j != i && ss[j].name@ == ss[i].name@ {
        let j = choose|j: int| 0 <= j < ss.len() && j != i && ss[j].name@ == ss[i].name@;
        assert(duplicated_state_name(ss, ss[i].name@));
    } else {
        assert(i != a) by {
            if i == a {
                assert(ss[b].name@ == ss[i].name@);
            }
        }
        lemma_dup_scan_finds(ss, i + 1, a, b);
    }
}

proof fn lemma_dup_scan_none<H>(ss: Seq<State<H>>, i: int)
    requires
        no_duplicate_state_names(ss),
    ensures
        dup_state_scan(ss, i) is None,
    decreases ss.len() - i,
{
    if 0 <= i < ss.len() {
        lemma_dup_scan_none(ss, i + 1);
    }
}

/// A definition that declares an initial state but two states with one name
/// always fails validation with `DuplicateState`, naming a name that two
/// states indeed share.
pub proof fn lemma_duplicate_state<H>(m: FSM<H>)
    requires
        m.initial_state is Some,
        exists|p: int, q: int|
            #![trigger m.states@[p].name@, m.states@[q].name@]
            0 <= p < m.states@.len() && 0 <= q < m.states@.len() && p != q && m.states@[p].name@
                == m.states@[q].name@,
    ensures
        spec_build_err(m) matches Some(SpecValidationError::DuplicateState(n))
            && duplicated_state_name(m.states@, n),
{
    let (p, q): (int, int) = choose|p: int, q: int|
        #![trigger m.states@[p].name@, m.states@[q].name@]
        0 <= p < m.states@.len() && 0 <= q < m.states@.len() && p != q && m.states@[p].name@
            == m.states@[q].name@;
    if p < q {
        lemma_dup_scan_finds(m.states@, 0, p, q);
    } else {
        lemma_dup_scan_finds(m.states@, 0, q, p);
    }
}

proof fn lemma_from_scan_some_shape<H>(fs: Seq<String>, ss: Seq<State<H>>, k: int)
    requires
        from_scan(fs, ss, k) is Some,
    ensures
        from_scan(fs, ss, k) matches Some(SpecValidationError::UndefinedState(n))
            && !state_declared(ss, n),
    decreases fs.len() - k,
{
    if 0 <= k < fs.len() && state_declared(ss, fs[k]@) {
        lemma_from_scan_some_shape(fs, ss, k + 1);
    }
}

proof fn lemma_from_scan_undefined<H>(fs: Seq<String>, ss: Seq<State<H>>, k: int, w: int)
    requires
        0 <= k <= w < fs.len(),
        !state_declared(ss, fs[w]@),
    ensures
        from_scan(fs, ss, k) is Some,
    decreases w - k,
{
    if state_declared(ss, fs[k]@) {
        lemma_from_scan_undefined(fs, ss, k + 1, w);
    }
}

proof fn lemma_from_scan_none<H>(fs: Seq<String>, ss: Seq<State<H>>, k: int)
    requires
        forall|k2: int| 0 <= k2 < fs.len() ==> state_declared(ss, #[trigger] fs[k2]@),
    ensures
        from_scan(fs, ss, k) is None,
    decreases fs.len() - k,
{
    if 0 <= k < fs.len() {
        lemma_from_scan_none(fs, ss, k + 1);
    }
}

proof fn lemma_event_scan_undefined<H>(evs: Seq<Event<H>>, ss: Seq<State<H>>, i: int, w: int)
    requires
        0 <= i <= w < evs.len(),
        no_duplicate_event_names(evs),
        all_from_nonempty(evs),
        event_refs_undeclared(evs[w], ss),
    ensures
        event_scan(evs, ss, i) matches Some(SpecValidationError::UndefinedState(n))
            && !state_declared(ss, n),
    decreases w - i,
{
    assert(!(exists|j: int| 0 <= j < evs.len() && j != i && evs[j].name@ == evs[i].name@));
    if from_scan(evs[i].from_state@, ss, 0) is Some {
        lemma_from_scan_some_shape(evs[i].from_state@, ss, 0);
    } else if !state_declared(ss, evs[i].to_state@) {
    } else {
        assert(i != w) by {
            if i == w {
                if exists|k: int|
                    0 <= k < evs[w].from_state@.len() && !state_declared(
                        ss,
                        #[trigger] evs[w].from_state@[k]@,
                    ) {
                    let k = choose|k: int|
                        0 <= k < evs[w].from_state@.len() && !state_declared(
                            ss,
                            #[trigger] evs[w].from_state@[k]@,
                        );
                    lemma_from_scan_undefined(evs[w].from_state@, ss, 0, k);
                }
            }
        }
        lemma_event_scan_undefined(evs, ss, i + 1, w);
    }
}

proof fn lemma_event_scan_none<H>(evs: Seq<Event<H>>, ss: Seq<State<H>>, i: int)
    requires
        no_duplicate_event_names(evs),
        all_from_nonempty(evs),
        all_event_refs_declared(evs, ss),
    ensures
        event_scan(evs, ss, i) is None,
    decreases evs.len() - i,
{
    if 0 <= i < evs.len() {
        assert(!event_refs_undeclared(evs[i], ss));
        assert(forall|k2: int|
            0 <= k2 < evs[i].from_state@.len() ==> state_declared(
                ss,
                #[trigger] evs[i].from_state@[k2]@,
            ));
        lemma_from_scan_none(evs[i].from_state@, ss, 0);
        lemma_event_scan_none(evs, ss, i + 1);
    }
}

/// A definition whose earlier checks all pass but where some event
/// references an undeclared state — among its sources or as its destination
/// — always fails validation with `UndefinedState`, naming a name that no
/// state declares.
pub proof fn lemma_undefined_state<H>(m: FSM<H>)
    requires
        m.initial_state is Some,
        m.states@.len() > 0,
        no_duplicate_state_names(m.states@),
        m.events@.len() > 0,
        no_duplicate_event_names(m.events@),
        all_from_nonempty(m.events@),
        exists|i: int| 0 <= i < m.events@.len() && event_refs_undeclared(#[trigger] m.events@[i], m.states@),
    ensures
        spec_build_err(m) matches Some(SpecValidationError::UndefinedState(n)) && !state_declared(
            m.states@,
            n,
        ),
{
    lemma_dup_scan_none(m.states@, 0);
    let w = choose|i: int|
        0 <= i < m.events@.len() && event_refs_undeclared(#[trigger] m.events@[i], m.states@);
    lemma_event_scan_undefined(m.events@, m.states@, 0, w);
}

/// A definition whose structural checks all pass but whose declared final
/// state is no event's destination always fails validation with
/// `UnreachableFinalState`.
pub proof fn lemma_unreachable_final_state<H>(m: FSM<H>)
    requires
        m.initial_state is Some,
        m.states@.len() > 0,
        no_duplicate_state_names(m.states@),
        m.events@.len() > 0,
        no_duplicate_event_names(m.events@),
        all_from_nonempty(m.events@),
        all_event_refs_declared(m.events@, m.states@),
        m.final_state is Some,
        forall|i: int|
            0 <= i < m.events@.len() ==> (#[trigger] m.events@[i].to_state@)
                != m.final_state.unwrap()@,
    ensures
        spec_build_err(m) == Some(SpecValidationError::UnreachableFinalState),
{
    lemma_dup_scan_none(m.states@, 0);
    lemma_event_scan_none(m.events@, m.states@, 0);
    assert(!final_reachable(m.events@, m.final_state.unwrap()@));
}

/// Right after a successful build, the current state is the declared
/// initial state, and the machine is finished exactly when a final state is
/// declared and the (nonempty) initial state already equals it.
pub proof fn lemma_fresh_build<H>(m: FSM<H>)
    requires
        spec_build_err(m) is None,
    ensures
        spec_after_build(m).ready,
        spec_current(spec_after_build(m)) == m.initial_state.unwrap()@,
        spec_finished(spec_after_build(m)) <==> (m.final_state is Some && m.initial_state.unwrap()@
            == m.final_state.unwrap()@ && m.initial_state.unwrap()@.len() > 0),
{
}

/// The refusal `fire` reports is determined by the machine's status alone:
/// `NotReady` on a machine never successfully built, `AlreadyFinished` on a
/// finished machine, and otherwise `InvalidTransition` carrying the event's
/// name and the current state's name.
pub proof fn lemma_fire_refusals<H>(m: FSM<H>, e: Seq<char>)
    ensures
        !m.ready ==> spec_fire_err(m, e) == SpecTransitionError::NotReady,
        m.ready && spec_finished(m) ==> spec_fire_err(m, e) == SpecTransitionError::AlreadyFinished,
        m.ready && !spec_finished(m) ==> spec_fire_err(m, e)
            == SpecTransitionError::InvalidTransition(e, spec_current(m)),
{
}

/// A machine with no declared final state is never finished, whatever its
/// current state.
pub proof fn lemma_no_final_never_finished<H>(m: FSM<H>)
    requires
        m.final_state is None,
    ensures
        !spec_finished(m),
{
}

} // verus!
