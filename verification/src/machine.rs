//! The transition table, the builder that fills it, and the dispatch
//! engine that drives a machine from state to state.

use vstd::prelude::*;

use crate::ids::Event;
use crate::ids::State;

verus! {

/// Why a dispatch failed.
#[derive(Debug)]
pub enum DispatchError {
    /// No transition is registered for the current state and the
    /// dispatched event. The state is left unchanged; the error names
    /// the state and the event that were rejected.
    NoTransition { state: State, event: Event },
    /// The action paired with the transition reported failure. The
    /// state has already advanced to the transition's target when this
    /// is returned: a failing action does not roll the transition back.
    ActionFailed { reason: String },
}

/// A side-effecting, fallible operation invoked synchronously when a
/// transition fires. Implementations are supplied by the machine's
/// users; the engine makes no promise about what an invocation does,
/// only that its verdict is propagated out of `event` unchanged.
pub trait Action {
    /// Perform the action once; `Err` carries the failure reason.
    fn invoke(&self) -> Result<(), String>;
}

/// One row of the transition table.
struct TransitionEntry<A> {
    from: State,
    trigger: Event,
    target: State,
    action: Option<A>,
}

/// The key a table row is looked up by: the names of the source state
/// and of the triggering event.
spec fn entry_key<A>(entry: TransitionEntry<A>) -> (Seq<char>, Seq<char>) {
    (entry.from@, entry.trigger@)
}

/// What a table row maps its key to: the target state's name, and
/// whether an action is attached.
spec fn entry_val<A>(entry: TransitionEntry<A>) -> (Seq<char>, bool) {
    (entry.target@, entry.action is Some)
}

/// The mapping a sequence of table rows denotes: later rows overwrite
/// earlier ones with the same key, so registering a pair twice keeps
/// only the last registration.
spec fn table_view<A>(entries: Seq<TransitionEntry<A>>) -> Map<(Seq<char>, Seq<char>), (Seq<char>, bool)>
    decreases entries.len(),
{
    if entries.len() == 0 {
        Map::empty()
    } else {
        table_view(entries.drop_last()).insert(
            entry_key(entries.last()),
            entry_val(entries.last()),
        )
    }
}

proof fn lemma_table_view_push<A>(entries: Seq<TransitionEntry<A>>, entry: TransitionEntry<A>)
    ensures
        table_view(entries.push(entry)) == table_view(entries).insert(
            entry_key(entry),
            entry_val(entry),
        ),
{
    let pushed = entries.push(entry);
    assert(pushed.drop_last() =~= entries);
    assert(pushed.last() == entry);
}

/// The abstract value of a machine: the names of its current and
/// initial states and the mapping its transition table denotes.
pub ghost struct MachineView {
    pub name: Seq<char>,
    pub current: Seq<char>,
    pub initial: Seq<char>,
    pub transitions: Map<(Seq<char>, Seq<char>), (Seq<char>, bool)>,
}

/// The abstract value of a builder: the name and initial state chosen
/// at creation and the transitions registered so far.
pub ghost struct BuilderView {
    pub name: Seq<char>,
    pub initial: Seq<char>,
    pub transitions: Map<(Seq<char>, Seq<char>), (Seq<char>, bool)>,
}

/// The dispatch engine: an immutable transition table, an immutable
/// initial state, and the one mutable piece, the current state.
///
/// `A` is the action type invoked when a transition that carries an
/// action fires. The machine itself holds no interior mutability:
/// `event` and `reset` take the machine exclusively, so concurrent
/// callers must share it behind a lock of their own choosing.
pub struct StateMachine<A> {
    name: String,
    current: State,
    initial: State,
    entries: Vec<TransitionEntry<A>>,
}

impl<A> View for StateMachine<A> {
    type V = MachineView;

    closed spec fn view(&self) -> MachineView {
        MachineView {
            name: self.name@,
            current: self.current@,
            initial: self.initial@,
            transitions: table_view(self.entries@),
        }
    }
}

proof fn lemma_table_view_take_succ<A>(entries: Seq<TransitionEntry<A>>, i: int)
    requires
        0 <= i < entries.len(),
    ensures
        table_view(entries.take(i + 1)) == table_view(entries.take(i)).insert(
            entry_key(entries[i]),
            entry_val(entries[i]),
        ),
{
    assert(entries.take(i + 1) =~= entries.take(i).push(entries[i]));
    lemma_table_view_push(entries.take(i), entries[i]);
}

/// Translate an action's verdict into the result of a dispatch: the
/// verdict is propagated unchanged, a failure reason becoming an
/// `ActionFailed` error.
fn outcome_of(verdict: Result<(), String>) -> (outcome: Result<(), DispatchError>)
    ensures
        verdict is Ok ==> outcome is Ok,
        verdict matches Err(reason) ==> (outcome matches Err(DispatchError::ActionFailed {
            reason: why,
        }) && why == reason),
{
    match verdict {
        Ok(()) => Ok(()),
        Err(reason) => Err(DispatchError::ActionFailed { reason }),
    }
}

impl<A: Action> StateMachine<A> {
    /// Find the table row for (current state, `event`): the row whose
    /// key matches and that no later row with the same key overrides.
    fn find_transition(&self, event: &Event) -> (found: Option<usize>)
        ensures
            match found {
                Some(i) => {
                    &&& i < self.entries@.len()
                    &&& self.entries@[i as int].from@ == self.current@
                    &&& self.entries@[i as int].trigger@ == event@
                    &&& table_view(self.entries@).contains_key((self.current@, event@))
                    &&& table_view(self.entries@)[(self.current@, event@)] == entry_val(
                        self.entries@[i as int],
                    )
                },
                None => !table_view(self.entries@).contains_key((self.current@, event@)),
            },
    {
        let ghost key = (self.current@, event@);
        let mut found: Option<usize> = None;
        let mut i: usize = 0;
        let n: usize = self.entries.len();
        while i < n
            invariant
                i <= n,
                n == self.entries@.len(),
                key == (self.current@, event@),
                match found {
                    Some(j) => {
                        &&& j < i
                        &&& self.entries@[j as int].from@ == self.current@
                        &&& self.entries@[j as int].trigger@ == event@
                        &&& table_view(self.entries@.take(i as int)).contains_key(key)
                        &&& table_view(self.entries@.take(i as int))[key] == entry_val(
                            self.entries@[j as int],
                        )
                    },
                    None => !table_view(self.entries@.take(i as int)).contains_key(key),
                },
            decreases n - i,
        {
            proof {
                lemma_table_view_take_succ(self.entries@, i as int);
            }
            let entry = &self.entries[i];
            if entry.from == self.current && entry.trigger == *event {
                found = Some(i);
            }
            i = i + 1;
        }
        proof {
            assert(self.entries@.take(n as int) =~= self.entries@);
        }
        found
    }

    /// Dispatch one event.
    ///
    /// If the table has a transition for (current state, `event`), the
    /// current state advances to the transition's target first, and
    /// the paired action, if any, is invoked only after that commit:
    /// an action that fails leaves the machine in the target state,
    /// and its failure reason is returned as `ActionFailed`. If the
    /// table has no such transition, the state is left unchanged and
    /// `NoTransition` names the rejected pair. The table and the
    /// initial state never change.
    pub fn event(&mut self, event: &Event) -> (outcome: Result<(), DispatchError>)
        ensures
            final(self)@.name == old(self)@.name,
            final(self)@.initial == old(self)@.initial,
            final(self)@.transitions == old(self)@.transitions,
            !old(self)@.transitions.contains_key((old(self)@.current, event@)) ==> ({
                &&& final(self)@.current == old(self)@.current
                &&& (outcome matches Err(DispatchError::NoTransition { state, event: trigger })
                    && state@ == old(self)@.current && trigger@ == event@)
            }),
            old(self)@.transitions.contains_key((old(self)@.current, event@)) ==> ({
                let entry = old(self)@.transitions[(old(self)@.current, event@)];
                &&& final(self)@.current == entry.0
                &&& (!entry.1 ==> outcome is Ok)
                &&& (outcome is Ok || outcome matches Err(DispatchError::ActionFailed { .. }))
            }),
    {
        let found = self.find_transition(event);
        match found {
            None => Err(DispatchError::NoTransition {
                state: self.current.clone(),
                event: event.clone(),
            }),
            Some(i) => {
                let target = self.entries[i].target.clone();
                self.current = target;
                match &self.entries[i].action {
                    None => Ok(()),
                    Some(action) => outcome_of(action.invoke()),
                }
            },
        }
    }

    /// Set the current state back to the initial state, whatever the
    /// current state is. The table and the initial state never change.
    pub fn reset(&mut self)
        ensures
            final(self)@.name == old(self)@.name,
            final(self)@.current == old(self)@.initial,
            final(self)@.initial == old(self)@.initial,
            final(self)@.transitions == old(self)@.transitions,
    {
        self.current = self.initial.clone();
    }

    /// A copy of the current state.
    pub fn current_state(&self) -> (state: State)
        ensures
            state@ == self@.current,
    {
        self.current.clone()
    }
}

/// Accumulates transitions and produces an immutable machine.
pub struct StateMachineBuilder<A> {
    name: String,
    initial: State,
    entries: Vec<TransitionEntry<A>>,
}

impl<A> View for StateMachineBuilder<A> {
    type V = BuilderView;

    closed spec fn view(&self) -> BuilderView {
        BuilderView {
            name: self.name@,
            initial: self.initial@,
            transitions: table_view(self.entries@),
        }
    }
}

impl<A: Action> StateMachineBuilder<A> {
    /// Start a builder for a machine with the given name, whose
    /// initial state is `initial_state`. The table starts empty.
    pub fn new(name: &str, initial_state: &State) -> (builder: Self)
        ensures
            builder@.name == name@,
            builder@.initial == initial_state@,
            builder@.transitions == Map::<(Seq<char>, Seq<char>), (Seq<char>, bool)>::empty(),
    {
        StateMachineBuilder {
            name: name.to_owned(),
            initial: initial_state.clone(),
            entries: Vec::new(),
        }
    }

    /// Register the transition (`old_state`, `event`) -> `new_state`,
    /// with an optional action to invoke when it fires. Registering
    /// the same (state, event) pair again silently replaces the
    /// earlier registration: last write wins.
    pub fn add_event(
        self,
        old_state: State,
        event: Event,
        new_state: State,
        action: Option<A>,
    ) -> (builder: Self)
        ensures
            builder@.name == self@.name,
            builder@.initial == self@.initial,
            builder@.transitions == self@.transitions.insert(
                (old_state@, event@),
                (new_state@, action is Some),
            ),
    {
        let StateMachineBuilder { name, initial, mut entries } = self;
        let ghost previous = entries@;
        let entry = TransitionEntry { from: old_state, trigger: event, target: new_state, action };
        let ghost pushed = entry;
        entries.push(entry);
        proof {
            lemma_table_view_push(previous, pushed);
        }
        StateMachineBuilder { name, initial, entries }
    }

    /// Turn the accumulated transitions into a machine. The machine
    /// starts in the initial state chosen when the builder was
    /// created; its table admits no further change.
    pub fn build(self) -> (machine: StateMachine<A>)
        ensures
            machine@.name == self@.name,
            machine@.current == self@.initial,
            machine@.initial == self@.initial,
            machine@.transitions == self@.transitions,
    {
        let current = self.initial.clone();
        StateMachine {
            name: self.name,
            current,
            initial: self.initial,
            entries: self.entries,
        }
    }
}

} // verus!
