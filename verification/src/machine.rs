//! The machine itself: the declaration data model (`State`, `Event`, `FSM`),
//! the one-shot validator `build`, and the transition engine
//! (`can_fire` / `fire` / `current_state` / `is_finished`).

use vstd::prelude::*;
use vstd::string::StringExecFns;

use crate::errors::{SpecTransitionError, SpecValidationError, TransitionError, ValidationError};
use crate::hook::Hook;

verus! {

/// A named mode the machine can occupy, with optional enter/leave hooks.
pub struct State<H> {
    /// The state's identity; states are compared by this name.
    pub name: String,
    /// Runs when a transition arrives at this state.
    pub enter: Option<H>,
    /// Runs when a transition departs from this state.
    pub leave: Option<H>,
}

/// A named transition from one or more source states to one destination.
pub struct Event<H> {
    /// The event's identity; events are compared by this name.
    pub name: String,
    /// The names of the states this event may fire from; must be nonempty.
    pub from_state: Vec<String>,
    /// The name of the single state this event moves the machine to.
    pub to_state: String,
    /// Runs before the transition, ahead of any state hook.
    pub before: Option<H>,
    /// Runs after the transition, following every state hook.
    pub after: Option<H>,
}

/// A declared machine: the caller-assembled definition plus the runtime
/// status owned by the engine (`current_state`, `ready`).
pub struct FSM<H> {
    /// A label for the machine; not interpreted by the engine.
    pub name: String,
    /// The declared starting state's name; `build` requires it.
    pub initial_state: Option<String>,
    /// An optional terminal state's name; once reached, firing stops.
    pub final_state: Option<String>,
    /// The state the machine occupies; absent until `build` succeeds.
    pub current_state: Option<String>,
    /// The declared states, in declaration order.
    pub states: Vec<State<H>>,
    /// The declared events, in declaration order.
    pub events: Vec<Event<H>>,
    /// True exactly once a `build` call has succeeded.
    pub ready: bool,
}

/// Whether some declared state carries the name `n`.
pub open spec fn state_declared<H>(ss: Seq<State<H>>, n: Seq<char>) -> bool {
    exists|j: int| 0 <= j < ss.len() && ss[j].name@ == n
}

/// Whether the name `n` occurs in the source-state list `fs`.
pub open spec fn from_contains(fs: Seq<String>, n: Seq<char>) -> bool {
    exists|k: int| 0 <= k < fs.len() && fs[k]@ == n
}

/// Whether some event's `to_state` equals `f`: the declared final state is
/// reachable in principle.
pub open spec fn final_reachable<H>(evs: Seq<Event<H>>, f: Seq<char>) -> bool {
    exists|i: int| 0 <= i < evs.len() && evs[i].to_state@ == f
}

/// The duplicate-state scan, from position `i` on: the error for the first
/// state (in declaration order) whose name occurs elsewhere in the list.
pub open spec fn dup_state_scan<H>(ss: Seq<State<H>>, i: int) -> Option<SpecValidationError>
    decreases ss.len() - i,
{
    if i < 0 || i >= ss.len() {
        None
    } else if exists|j: int| 0 <= j < ss.len() && j != i && ss[j].name@ == ss[i].name@ {
        Some(SpecValidationError::DuplicateState(ss[i].name@))
    } else {
        dup_state_scan(ss, i + 1)
    }
}

/// The scan of one event's source-state list, from position `k` on: the
/// error for the first name not declared as a state.
pub open spec fn from_scan<H>(fs: Seq<String>, ss: Seq<State<H>>, k: int) -> Option<
    SpecValidationError,
>
    decreases fs.len() - k,
{
    if k < 0 || k >= fs.len() {
        None
    } else if !state_declared(ss, fs[k]@) {
        Some(SpecValidationError::UndefinedState(fs[k]@))
    } else {
        from_scan(fs, ss, k + 1)
    }
}

/// The per-event scan, from position `i` on: for each event in declaration
/// order, a duplicate name, an empty source list, an undeclared source, and
/// an undeclared destination are reported in that order.
pub open spec fn event_scan<H>(evs: Seq<Event<H>>, ss: Seq<State<H>>, i: int) -> Option<
    SpecValidationError,
>
    decreases evs.len() - i,
{
    if i < 0 || i >= evs.len() {
        None
    } else if exists|j: int| 0 <= j < evs.len() && j != i && evs[j].name@ == evs[i].name@ {
        Some(SpecValidationError::DuplicateEvent(evs[i].name@))
    } else if evs[i].from_state@.len() == 0 {
        Some(SpecValidationError::EmptyFromStates(evs[i].name@))
    } else if from_scan(evs[i].from_state@, ss, 0) is Some {
        from_scan(evs[i].from_state@, ss, 0)
    } else if !state_declared(ss, evs[i].to_state@) {
        Some(SpecValidationError::UndefinedState(evs[i].to_state@))
    } else {
        event_scan(evs, ss, i + 1)
    }
}

/// The outcome of validating `m`: `None` when the definition is sound,
/// otherwise the first error in the validator's fixed check order.
pub open spec fn spec_build_err<H>(m: FSM<H>) -> Option<SpecValidationError> {
    if m.initial_state is None {
        Some(SpecValidationError::MissingInitialState)
    } else if m.states@.len() == 0 {
        Some(SpecValidationError::NoStates)
    } else if dup_state_scan(m.states@, 0) is Some {
        dup_state_scan(m.states@, 0)
    } else if m.events@.len() == 0 {
        Some(SpecValidationError::NoEvents)
    } else if event_scan(m.events@, m.states@, 0) is Some {
        event_scan(m.events@, m.states@, 0)
    } else if m.final_state matches Some(f) && !final_reachable(m.events@, f@) {
        Some(SpecValidationError::UnreachableFinalState)
    } else {
        None
    }
}

/// The machine after a successful build: current state set to the declared
/// initial state, ready flag raised, every declaration field untouched.
pub open spec fn spec_after_build<H>(m: FSM<H>) -> FSM<H> {
    FSM { current_state: m.initial_state, ready: true, ..m }
}

/// The name of the machine's current state, as a sequence of characters;
/// the empty sequence stands for "never built".
pub open spec fn spec_current<H>(m: FSM<H>) -> Seq<char> {
    if m.current_state is Some {
        m.current_state.unwrap()@
    } else {
        Seq::<char>::empty()
    }
}

/// Whether the machine is finished: a final state is declared, the current
/// state is present and nonempty, and the two names coincide.
pub open spec fn spec_finished<H>(m: FSM<H>) -> bool {
    &&& m.current_state is Some
    &&& m.final_state is Some
    &&& m.current_state.unwrap()@.len() > 0
    &&& m.current_state.unwrap()@ == m.final_state.unwrap()@
}

/// Whether firing the event named `e` is permitted on `m`: the machine is
/// ready, it is not finished, and some declared event carries that name with
/// the machine's current state among its sources.
pub open spec fn spec_can_fire<H>(m: FSM<H>, e: Seq<char>) -> bool {
    &&& m.ready
    &&& !spec_finished(m)
    &&& exists|i: int|
        0 <= i < m.events@.len() && m.events@[i].name@ == e && from_contains(
            m.events@[i].from_state@,
            spec_current(m),
        )
}

/// The position of the first event (in declaration order, from `i` on)
/// carrying the name `e`; `fire` transitions along this event.
pub open spec fn spec_first_event<H>(evs: Seq<Event<H>>, e: Seq<char>, i: int) -> Option<int>
    decreases evs.len() - i,
{
    if i < 0 || i >= evs.len() {
        None
    } else if evs[i].name@ == e {
        Some(i)
    } else {
        spec_first_event(evs, e, i + 1)
    }
}

/// The machine after firing along the event at position `j`: the current
/// state becomes that event's destination; nothing else changes.
pub open spec fn spec_after_fire<H>(m: FSM<H>, j: int) -> FSM<H> {
    FSM { current_state: Some(m.events@[j].to_state), ..m }
}

/// The error `fire` reports when firing the event named `e` is not
/// permitted: never built, already finished, or no applicable transition
/// from the current state, tested in that order.
pub open spec fn spec_fire_err<H>(m: FSM<H>, e: Seq<char>) -> SpecTransitionError {
    if !m.ready {
        SpecTransitionError::NotReady
    } else if spec_finished(m) {
        SpecTransitionError::AlreadyFinished
    } else {
        SpecTransitionError::InvalidTransition(e, spec_current(m))
    }
}

/// A scan that found `e` first at position `j` pins the value of
/// `spec_first_event` from any earlier position.
proof fn lemma_first_event_found<H>(evs: Seq<Event<H>>, e: Seq<char>, i: int, j: int)
    requires
        0 <= i <= j < evs.len(),
        evs[j].name@ == e,
        forall|k: int| i <= k < j ==> evs[k].name@ != e,
    ensures
        spec_first_event(evs, e, i) == Some(j),
    decreases j - i,
{
    if i < j {
        lemma_first_event_found(evs, e, i + 1, j);
    }
}

impl<H> Default for State<H> {
    /// An unnamed state with no hooks; a definition using it as-is fails
    /// validation, which lets callers assemble fields incrementally.
    fn default() -> (r: State<H>)
        ensures
            r.name@ == Seq::<char>::empty(),
            r.enter is None,
            r.leave is None,
    {
        State { name: String::new(), enter: None, leave: None }
    }
}

impl<H> Default for Event<H> {
    /// An unnamed event with no sources, destination, or hooks; a definition
    /// using it as-is fails validation.
    fn default() -> (r: Event<H>)
        ensures
            r.name@ == Seq::<char>::empty(),
            r.from_state@ == Seq::<String>::empty(),
            r.to_state@ == Seq::<char>::empty(),
            r.before is None,
            r.after is None,
    {
        Event {
            name: String::new(),
            from_state: Vec::new(),
            to_state: String::new(),
            before: None,
            after: None,
        }
    }
}

impl<H> Default for FSM<H> {
    /// An empty, unbuilt machine: no declarations, no current state, not
    /// ready. It deterministically fails `build` until states, events and an
    /// initial state are supplied.
    fn default() -> (r: FSM<H>)
        ensures
            r.name@ == Seq::<char>::empty(),
            r.initial_state is None,
            r.final_state is None,
            r.current_state is None,
            r.states@ == Seq::<State<H>>::empty(),
            r.events@ == Seq::<Event<H>>::empty(),
            !r.ready,
    {
        FSM {
            name: String::new(),
            initial_state: None,
            final_state: None,
            current_state: None,
            states: Vec::new(),
            events: Vec::new(),
            ready: false,
        }
    }
}

/// Whether some state other than the one at `i` carries the same name:
/// exactly the condition under which the validator reports a duplicate.
fn state_dup_at<H>(states: &Vec<State<H>>, i: usize) -> (b: bool)
    requires
        i < states@.len(),
    ensures
        b == exists|j: int|
            0 <= j < states@.len() && j != i && states@[j].name@ == states@[i as int].name@,
{
    let n = states.len();
    let mut j: usize = 0;
    while j < n
        invariant
            n == states@.len(),
            i < n,
            j <= n,
            forall|j2: int|
                0 <= j2 < j && j2 != i ==> states@[j2].name@ != states@[i as int].name@,
        decreases n - j,
    {
        if j != i && states[j].name == states[i].name {
            return true;
        }
        j += 1;
    }
    false
}

/// Whether some event other than the one at `i` carries the same name.
fn event_dup_at<H>(events: &Vec<Event<H>>, i: usize) -> (b: bool)
    requires
        i < events@.len(),
    ensures
        b == exists|j: int|
            0 <= j < events@.len() && j != i && events@[j].name@ == events@[i as int].name@,
{
    let n = events.len();
    let mut j: usize = 0;
    while j < n
        invariant
            n == events@.len(),
            i < n,
            j <= n,
            forall|j2: int|
                0 <= j2 < j && j2 != i ==> events@[j2].name@ != events@[i as int].name@,
        decreases n - j,
    {
        if j != i && events[j].name == events[i].name {
            return true;
        }
        j += 1;
    }
    false
}

/// The position of the first declared state carrying `name`, if any.
fn find_state<H>(states: &Vec<State<H>>, name: &String) -> (r: Option<usize>)
    ensures
        match r {
            Some(j) => j < states@.len() && states@[j as int].name@ == name@ && forall|j2: int|
                0 <= j2 < j ==> states@[j2].name@ != name@,
            None => !state_declared(states@, name@),
        },
{
    let n = states.len();
    let mut j: usize = 0;
    while j < n
        invariant
            n == states@.len(),
            j <= n,
            forall|j2: int| 0 <= j2 < j ==> states@[j2].name@ != name@,
        decreases n - j,
    {
        if states[j].name == *name {
            return Some(j);
        }
        j += 1;
    }
    None
}

/// Whether some event's `to_state` equals `name`: the reachability probe
/// behind the final-state check.
fn any_event_targets<H>(events: &Vec<Event<H>>, name: &String) -> (b: bool)
    ensures
        b == final_reachable(events@, name@),
{
    let n = events.len();
    let mut i: usize = 0;
    while i < n
        invariant
            n == events@.len(),
            i <= n,
            forall|i2: int| 0 <= i2 < i ==> events@[i2].to_state@ != name@,
        decreases n - i,
    {
        if events[i].to_state == *name {
            return true;
        }
        i += 1;
    }
    false
}

impl<H: Hook> FSM<H> {
    /// Validates the assembled definition, in a fixed order and stopping at
    /// the first violated rule. On success the machine becomes ready and its
    /// current state is the declared initial state; on failure the machine,
    /// including its runtime status, is left exactly as it was.
    pub fn build(&mut self) -> (r: Result<(), ValidationError>)
        ensures
            match r {
                Ok(()) => spec_build_err(*old(self)) is None && *final(self) == spec_after_build(
                    *old(self),
                ),
                Err(e) => spec_build_err(*old(self)) == Some(e@) && *final(self) == *old(self),
            },
    {
        let init: String = match &self.initial_state {
            Some(s) => s.clone(),
            None => {
                return Err(ValidationError::MissingInitialState);
            },
        };
        if self.states.len() == 0 {
            return Err(ValidationError::NoStates);
        }
        let n_states = self.states.len();
        let mut i: usize = 0;
        while i < n_states
            invariant
                *self == *old(self),
                n_states == self.states@.len(),
                i <= n_states,
                dup_state_scan(self.states@, 0) == dup_state_scan(self.states@, i as int),
                self.initial_state is Some,
            decreases n_states - i,
        {
            if state_dup_at(&self.states, i) {
                return Err(ValidationError::DuplicateState(self.states[i].name.clone()));
            }
            i += 1;
        }
        if self.events.len() == 0 {
            return Err(ValidationError::NoEvents);
        }
        let n_events = self.events.len();
        let mut i: usize = 0;
        while i < n_events
            invariant
                *self == *old(self),
                n_events == self.events@.len(),
                i <= n_events,
                self.initial_state is Some,
                self.states@.len() > 0,
                dup_state_scan(self.states@, 0) is None,
                event_scan(self.events@, self.states@, 0) == event_scan(
                    self.events@,
                    self.states@,
                    i as int,
                ),
            decreases n_events - i,
        {
            if event_dup_at(&self.events, i) {
                return Err(ValidationError::DuplicateEvent(self.events[i].name.clone()));
            }
            if self.events[i].from_state.len() == 0 {
                return Err(ValidationError::EmptyFromStates(self.events[i].name.clone()));
            }
            let n_from = self.events[i].from_state.len();
            let mut k: usize = 0;
            while k < n_from
                invariant
                    *self == *old(self),
                    n_events == self.events@.len(),
                    i < n_events,
                    n_from == self.events@[i as int].from_state@.len(),
                    n_from > 0,
                    k <= n_from,
                    self.initial_state is Some,
                    self.states@.len() > 0,
                    dup_state_scan(self.states@, 0) is None,
                    event_scan(self.events@, self.states@, 0) == event_scan(
                        self.events@,
                        self.states@,
                        i as int,
                    ),
                    !(exists|j: int|
                        0 <= j < self.events@.len() && j != i && self.events@[j].name@
                            == self.events@[i as int].name@),
                    from_scan(self.events@[i as int].from_state@, self.states@, 0) == from_scan(
                        self.events@[i as int].from_state@,
                        self.states@,
                        k as int,
                    ),
                decreases n_from - k,
            {
                let fsk = &self.events[i].from_state[k];
                if find_state(&self.states, fsk).is_none() {
                    return Err(ValidationError::UndefinedState(fsk.clone()));
                }
                k += 1;
            }
            if find_state(&self.states, &self.events[i].to_state).is_none() {
                return Err(ValidationError::UndefinedState(self.events[i].to_state.clone()));
            }
            i += 1;
        }
        match &self.final_state {
            Some(f) => {
                if !any_event_targets(&self.events, f) {
                    return Err(ValidationError::UnreachableFinalState);
                }
            },
            None => {},
        }
        self.current_state = Some(init);
        self.ready = true;
        Ok(())
    }

    /// Whether firing the event named `event` is currently permitted. Pure
    /// query: it mutates nothing and invokes no hook.
    pub fn can_fire(&self, event: &str) -> (b: bool)
        ensures
            b == spec_can_fire(*self, event@),
    {
        if !self.ready {
            return false;
        }
        if self.is_finished() {
            return false;
        }
        let current = self.current_state();
        let ev = String::from_str(event);
        let n = self.events.len();
        let mut i: usize = 0;
        while i < n
            invariant
                n == self.events@.len(),
                i <= n,
                ev@ == event@,
                current@ == spec_current(*self),
                self.ready,
                !spec_finished(*self),
                forall|i2: int|
                    0 <= i2 < i ==> !(self.events@[i2].name@ == event@ && from_contains(
                        self.events@[i2].from_state@,
                        spec_current(*self),
                    )),
            decreases n - i,
        {
            if self.events[i].name == ev {
                let n_from = self.events[i].from_state.len();
                let mut k: usize = 0;
                while k < n_from
                    invariant
                        n == self.events@.len(),
                        i < n,
                        n_from == self.events@[i as int].from_state@.len(),
                        k <= n_from,
                        ev@ == event@,
                        current@ == spec_current(*self),
                        self.ready,
                        !spec_finished(*self),
                        self.events@[i as int].name@ == event@,
                        forall|k2: int|
                            0 <= k2 < k ==> self.events@[i as int].from_state@[k2]@
                                != spec_current(*self),
                    decreases n_from - k,
                {
                    if self.events[i].from_state[k] == current {
                        return true;
                    }
                    k += 1;
                }
            }
            i += 1;
        }
        false
    }

    /// Fires the event named `event`. When `can_fire` permits it, the hooks
    /// run synchronously in the fixed order — the event's `before`, the
    /// departed state's `leave`, the destination state's `enter`, the
    /// event's `after` (each a no-op where absent) — and the current state
    /// advances to the destination of the first declared event carrying that
    /// name. Otherwise nothing changes and the specific refusal is returned.
    pub fn fire(&mut self, event: &str) -> (r: Result<(), TransitionError>)
        ensures
            ({
                let m = *old(self);
                match r {
                    Ok(()) => spec_can_fire(m, event@) && (spec_first_event(
                        m.events@,
                        event@,
                        0,
                    ) matches Some(j) && *final(self) == spec_after_fire(m, j)),
                    Err(e) => !spec_can_fire(m, event@) && *final(self) == m && e@ == spec_fire_err(
                        m,
                        event@,
                    ),
                }
            }),
    {
        let ok = self.can_fire(event);
        if ok {
            let ev = String::from_str(event);
            let current = self.current_state();
            let n = self.events.len();
            let mut i: usize = 0;
            while i < n
                invariant
                    *self == *old(self),
                    n == self.events@.len(),
                    i <= n,
                    ev@ == event@,
                    current@ == spec_current(*self),
                    spec_can_fire(*old(self), event@),
                    forall|i2: int| 0 <= i2 < i ==> self.events@[i2].name@ != event@,
                decreases n - i,
            {
                if self.events[i].name == ev {
                    match &self.events[i].before {
                        Some(h) => h.run(),
                        None => {},
                    }
                    match find_state(&self.states, &current) {
                        Some(si) => match &self.states[si].leave {
                            Some(h) => h.run(),
                            None => {},
                        },
                        None => {},
                    }
                    match find_state(&self.states, &self.events[i].to_state) {
                        Some(ti) => match &self.states[ti].enter {
                            Some(h) => h.run(),
                            None => {},
                        },
                        None => {},
                    }
                    match &self.events[i].after {
                        Some(h) => h.run(),
                        None => {},
                    }
                    proof {
                        lemma_first_event_found(self.events@, event@, 0, i as int);
                    }
                    let next = self.events[i].to_state.clone();
                    self.current_state = Some(next);
                    return Ok(());
                }
                i += 1;
            }
            proof {
                assert(false);
            }
            Ok(())
        } else {
            if !self.ready {
                return Err(TransitionError::NotReady);
            }
            if self.is_finished() {
                return Err(TransitionError::AlreadyFinished);
            }
            Err(TransitionError::InvalidTransition(String::from_str(event), self.current_state()))
        }
    }

    /// Returns the current state's name, or an empty string if the machine
    /// has never been successfully built. Pure query: no mutation.
    pub fn current_state(&self) -> (r: String)
        ensures
            r@ == spec_current(*self),
    {
        match &self.current_state {
            Some(s) => s.clone(),
            None => String::new(),
        }
    }

    /// Whether the machine has reached its declared final state. A machine
    /// without a declared final state is never finished.
    pub fn is_finished(&self) -> (b: bool)
        ensures
            b == spec_finished(*self),
    {
        match &self.current_state {
            Some(cs) => match &self.final_state {
                Some(fs) => {
                    let empty = String::new();
                    if *cs == empty {
                        proof {
                            assert(cs@ =~= Seq::<char>::empty());
                        }
                        false
                    } else {
                        proof {
                            if cs@.len() == 0 {
                                assert(cs@ =~= Seq::<char>::empty());
                            }
                        }
                        *cs == *fs
                    }
                },
                None => false,
            },
            None => false,
        }
    }
}

} // verus!
