//! The states of the game, the signals that move it from one to the next, and
//! the ownership tags by which entities are torn down when a state is left.

use vstd::prelude::*;

verus! {

/// The five states of the game. There is no terminal state: play cycles
/// through `CoinLaunch`, `Ingame` and `End` for as long as the player likes.
#[derive(Debug, Hash, Eq, PartialEq, Clone, Copy, Structural)]
pub enum AppState {
    Loading,
    MainMenu,
    CoinLaunch,
    Ingame,
    End,
}

/// What can move the game to another state.
#[derive(Debug, Hash, Eq, PartialEq, Clone, Copy, Structural)]
pub enum Signal {
    /// Every asset has been loaded.
    AssetsReady,
    /// The player pressed the confirm key: start, launch or restart,
    /// depending on the state.
    Confirm,
    /// The coin fell faster than the loss threshold.
    CoinLost,
}

/// Marks an entity as valid only during the given state. The tag is used for
/// bulk teardown alone.
#[derive(Debug, Hash, Eq, PartialEq, Clone, Copy, Structural)]
pub struct StateOwner(pub AppState);

/// An entity identifier together with its ownership tag.
#[derive(Debug, Hash, Eq, PartialEq, Clone, Copy, Structural)]
pub struct Tagged {
    pub entity: u64,
    pub owner: StateOwner,
}

impl Default for AppState {
    fn default() -> (state: AppState)
        ensures
            state == AppState::Loading,
    {
        AppState::Loading
    }
}

impl AppState {
    /// The state that follows `self` when `signal` arrives. A signal that
    /// means nothing in a state leaves it unchanged.
    pub open spec fn after(self, signal: Signal) -> AppState {
        match (self, signal) {
            (AppState::Loading, Signal::AssetsReady) => AppState::MainMenu,
            (AppState::MainMenu, Signal::Confirm) => AppState::CoinLaunch,
            (AppState::CoinLaunch, Signal::Confirm) => AppState::Ingame,
            (AppState::Ingame, Signal::CoinLost) => AppState::End,
            (AppState::End, Signal::Confirm) => AppState::CoinLaunch,
            _ => self,
        }
    }

    /// Computes the state that follows `self` when `signal` arrives.
    pub fn next(self, signal: Signal) -> (state: AppState)
        ensures
            state == self.after(signal),
    {
        match self {
            AppState::Loading => match signal {
                Signal::AssetsReady => AppState::MainMenu,
                _ => self,
            },
            AppState::MainMenu => match signal {
                Signal::Confirm => AppState::CoinLaunch,
                _ => self,
            },
            AppState::CoinLaunch => match signal {
                Signal::Confirm => AppState::Ingame,
                _ => self,
            },
            AppState::Ingame => match signal {
                Signal::CoinLost => AppState::End,
                _ => self,
            },
            AppState::End => match signal {
                Signal::Confirm => AppState::CoinLaunch,
                _ => self,
            },
        }
    }
}

/// The predicate "is tagged with `state`".
pub open spec fn owned_by(state: AppState) -> spec_fn(Tagged) -> bool {
    |t: Tagged| t.owner.0 == state
}

/// The predicate "is tagged with another state than `state`".
pub open spec fn not_owned_by(state: AppState) -> spec_fn(Tagged) -> bool {
    |t: Tagged| t.owner.0 != state
}

/// The identifiers of a list of tagged entities, in order.
pub open spec fn entities_of(tagged: Seq<Tagged>) -> Seq<u64> {
    tagged.map_values(|t: Tagged| t.entity)
}

/// Sweeps the entities of a state that is being left: every entry tagged with
/// `exit_state` leaves the list, exactly once and in order, and its identifier
/// is handed back for destruction; every other entry stays where it was.
pub fn remove_entities(entities: &mut Vec<Tagged>, exit_state: AppState) -> (removed: Vec<u64>)
    ensures
        final(entities)@ == old(entities)@.filter(not_owned_by(exit_state)),
        removed@ == entities_of(old(entities)@.filter(owned_by(exit_state))),
{
    let mut kept: Vec<Tagged> = Vec::new();
    let mut removed: Vec<u64> = Vec::new();
    let mut i: usize = 0;
    proof {
        assert(entities@.take(0) =~= Seq::<Tagged>::empty());
        Seq::<Tagged>::empty().lemma_filter_len(not_owned_by(exit_state));
        Seq::<Tagged>::empty().lemma_filter_len(owned_by(exit_state));
        assert(kept@ =~= entities@.take(0).filter(not_owned_by(exit_state)));
        assert(removed@ =~= entities_of(entities@.take(0).filter(owned_by(exit_state))));
    }
    while i < entities.len()
        invariant
            i <= entities.len(),
            kept@ == entities@.take(i as int).filter(not_owned_by(exit_state)),
            removed@ == entities_of(entities@.take(i as int).filter(owned_by(exit_state))),
        decreases entities.len() - i,
    {
        let t = entities[i];
        proof {
            let before = entities@.take(i as int);
            assert(entities@.take(i + 1) =~= before.push(t));
            before.lemma_filter_push(t, not_owned_by(exit_state));
            before.lemma_filter_push(t, owned_by(exit_state));
            before.filter(owned_by(exit_state)).lemma_push_map_commute(|t: Tagged| t.entity, t);
        }
        if t.owner.0 == exit_state {
            removed.push(t.entity);
        } else {
            kept.push(t);
        }
        i += 1;
    }
    proof {
        assert(entities@.take(i as int) =~= entities@);
    }
    *entities = kept;
    removed
}

/// The state of the game together with the tagged entities that are alive.
///
/// Entities are tagged with the state in which they are spawned, and leaving
/// a state sweeps its entities. This is the only way in which entities are
/// torn down.
#[derive(Debug)]
pub struct Lifecycle {
    pub state: AppState,
    pub entities: Vec<Tagged>,
}

/// A [`Lifecycle`] as a mathematical value.
pub struct LifecycleModel {
    pub state: AppState,
    pub entities: Seq<Tagged>,
}

/// One thing that happens to a [`Lifecycle`].
pub enum Step {
    /// An entity with this identifier is spawned in the present state.
    Spawn(u64),
    /// A signal arrives.
    Signal(Signal),
}

impl View for Lifecycle {
    type V = LifecycleModel;

    open spec fn view(&self) -> LifecycleModel {
        LifecycleModel { state: self.state, entities: self.entities@ }
    }
}

impl LifecycleModel {
    /// The game before anything has happened: loading, with no entity alive.
    pub open spec fn initial() -> LifecycleModel {
        LifecycleModel { state: AppState::Loading, entities: Seq::empty() }
    }

    /// Every entity alive is tagged with the present state: nothing has
    /// leaked in from a state that was left.
    pub open spec fn clean(self) -> bool {
        forall|i: int| 0 <= i < self.entities.len() ==> (#[trigger] self.entities[i]).owner.0 == self.state
    }

    /// After an entity has been spawned: it is alive and tagged with the
    /// present state.
    pub open spec fn spawned(self, entity: u64) -> LifecycleModel {
        LifecycleModel {
            entities: self.entities.push(Tagged { entity, owner: StateOwner(self.state) }),
            ..self
        }
    }

    /// After a signal: where it changes the state, the entities of the state
    /// that is left are swept; where it does not, nothing happens.
    pub open spec fn signalled(self, signal: Signal) -> LifecycleModel {
        let next = self.state.after(signal);
        if next == self.state {
            self
        } else {
            LifecycleModel { state: next, entities: self.entities.filter(not_owned_by(self.state)) }
        }
    }

    /// After one step.
    pub open spec fn stepped(self, step: Step) -> LifecycleModel {
        match step {
            Step::Spawn(entity) => self.spawned(entity),
            Step::Signal(signal) => self.signalled(signal),
        }
    }

    /// After a sequence of steps, in order.
    pub open spec fn run(self, steps: Seq<Step>) -> LifecycleModel
        decreases steps.len(),
    {
        if steps.len() == 0 {
            self
        } else {
            self.run(steps.drop_last()).stepped(steps.last())
        }
    }
}

impl Lifecycle {
    /// The game before anything has happened.
    pub fn new() -> (lifecycle: Lifecycle)
        ensures
            lifecycle@ == LifecycleModel::initial(),
            lifecycle@.clean(),
    {
        Lifecycle { state: AppState::Loading, entities: Vec::new() }
    }

    /// Registers an entity that was spawned in the present state.
    pub fn spawn(&mut self, entity: u64)
        ensures
            final(self)@ == old(self)@.spawned(entity),
            old(self)@.clean() ==> final(self)@.clean(),
    {
        self.entities.push(Tagged { entity, owner: StateOwner(self.state) });
    }

    /// Handles a signal. Where it changes the state, the entities of the state
    /// that is left are swept first, and their identifiers are handed back so
    /// that they can be destroyed before the new state is set up.
    pub fn handle(&mut self, signal: Signal) -> (removed: Vec<u64>)
        ensures
            final(self)@ == old(self)@.signalled(signal),
            final(self).state == old(self).state.after(signal),
            final(self).state == old(self).state ==> removed@.len() == 0,
            final(self).state != old(self).state ==> removed@ == entities_of(
                old(self).entities@.filter(owned_by(old(self).state)),
            ),
            old(self)@.clean() ==> final(self)@.clean(),
    {
        let next = self.state.next(signal);
        if next == self.state {
            return Vec::new();
        }
        proof {
            if self@.clean() {
                lemma_signal_keeps_clean(self@, signal);
            }
        }
        let removed = remove_entities(&mut self.entities, self.state);
        self.state = next;
        removed
    }
}

/// Leaving a state with nothing but its own entities alive leaves no entity
/// alive at all.
pub proof fn lemma_teardown_leaves_nothing(lifecycle: LifecycleModel, signal: Signal)
    requires
        lifecycle.clean(),
        lifecycle.state.after(signal) != lifecycle.state,
    ensures
        lifecycle.signalled(signal).entities.len() == 0,
{
    let kept = lifecycle.entities.filter(not_owned_by(lifecycle.state));
    if kept.len() > 0 {
        lifecycle.entities.lemma_filter_pred(not_owned_by(lifecycle.state), 0);
        lifecycle.entities.lemma_filter_contains_rev(not_owned_by(lifecycle.state), kept[0]);
        let i = choose|i: int| 0 <= i < lifecycle.entities.len() && lifecycle.entities[i] == kept[0];
        assert(lifecycle.entities[i].owner.0 == lifecycle.state);
    }
}

/// A signal keeps the lifecycle clean.
pub proof fn lemma_signal_keeps_clean(lifecycle: LifecycleModel, signal: Signal)
    requires
        lifecycle.clean(),
    ensures
        lifecycle.signalled(signal).clean(),
{
    if lifecycle.state.after(signal) != lifecycle.state {
        lemma_teardown_leaves_nothing(lifecycle, signal);
    }
}

/// No leakage: through any sequence of spawns and signals, and so through
/// any number of rounds of launching, flying and ending, every entity alive
/// is tagged with the present state. Nothing outlives the state it was
/// spawned in.
pub proof fn lemma_no_leakage(lifecycle: LifecycleModel, steps: Seq<Step>)
    requires
        lifecycle.clean(),
    ensures
        lifecycle.run(steps).clean(),
    decreases steps.len(),
{
    if steps.len() > 0 {
        lemma_no_leakage(lifecycle, steps.drop_last());
        let before = lifecycle.run(steps.drop_last());
        match steps.last() {
            Step::Spawn(entity) => {
                assert forall|i: int| 0 <= i < before.spawned(entity).entities.len() implies (
                #[trigger] before.spawned(entity).entities[i]).owner.0 == before.state by {
                    if i < before.entities.len() {
                        assert(before.spawned(entity).entities[i] == before.entities[i]);
                    }
                }
            },
            Step::Signal(signal) => {
                lemma_signal_keeps_clean(before, signal);
            },
        }
    }
}

/// After a sweep nothing tagged with the state that was left remains, and
/// everything tagged otherwise is still there.
pub proof fn lemma_sweep_removes_all_and_only(entities: Seq<Tagged>, exit_state: AppState)
    ensures
        forall|t: Tagged| #[trigger]
            entities.filter(not_owned_by(exit_state)).contains(t) <==> (entities.contains(t)
                && t.owner.0 != exit_state),
        forall|t: Tagged| #[trigger]
            entities.filter(owned_by(exit_state)).contains(t) <==> (entities.contains(t)
                && t.owner.0 == exit_state),
{
    assert forall|t: Tagged| #[trigger]
        entities.filter(not_owned_by(exit_state)).contains(t) <==> (entities.contains(t)
            && t.owner.0 != exit_state) by {
        let f = entities.filter(not_owned_by(exit_state));
        if f.contains(t) {
            let i = choose|i: int| 0 <= i < f.len() && f[i] == t;
            entities.lemma_filter_pred(not_owned_by(exit_state), i);
            entities.lemma_filter_contains_rev(not_owned_by(exit_state), t);
        }
        if entities.contains(t) && t.owner.0 != exit_state {
            let i = choose|i: int| 0 <= i < entities.len() && entities[i] == t;
            entities.lemma_filter_contains(not_owned_by(exit_state), i);
        }
    }
    assert forall|t: Tagged| #[trigger]
        entities.filter(owned_by(exit_state)).contains(t) <==> (entities.contains(t)
            && t.owner.0 == exit_state) by {
        let f = entities.filter(owned_by(exit_state));
        if f.contains(t) {
            let i = choose|i: int| 0 <= i < f.len() && f[i] == t;
            entities.lemma_filter_pred(owned_by(exit_state), i);
            entities.lemma_filter_contains_rev(owned_by(exit_state), t);
        }
        if entities.contains(t) && t.owner.0 == exit_state {
            let i = choose|i: int| 0 <= i < entities.len() && entities[i] == t;
            entities.lemma_filter_contains(owned_by(exit_state), i);
        }
    }
}

/// No identifier occurs twice in the list.
pub open spec fn distinct_entities(entities: Seq<Tagged>) -> bool {
    forall|i: int, j: int|
        0 <= i < j < entities.len() ==> (#[trigger] entities[i]).entity != (
        #[trigger] entities[j]).entity
}

/// Whatever part of a list of distinct entities a predicate picks is a list
/// of distinct entities again.
pub proof fn lemma_filter_keeps_distinct(entities: Seq<Tagged>, pred: spec_fn(Tagged) -> bool)
    requires
        distinct_entities(entities),
    ensures
        distinct_entities(entities.filter(pred)),
    decreases entities.len(),
{
    if entities.len() == 0 {
        entities.lemma_filter_len(pred);
    } else {
        let earlier = entities.drop_last();
        let last = entities.last();
        assert(entities =~= earlier.push(last));
        assert(distinct_entities(earlier)) by {
            assert forall|i: int, j: int| 0 <= i < j < earlier.len() implies (
            #[trigger] earlier[i]).entity != (#[trigger] earlier[j]).entity by {
                assert(earlier[i] == entities[i] && earlier[j] == entities[j]);
            }
        }
        lemma_filter_keeps_distinct(earlier, pred);
        earlier.lemma_filter_push(last, pred);
        let kept = earlier.filter(pred);
        if pred(last) {
            assert forall|i: int, j: int| 0 <= i < j < kept.push(last).len() implies (
            #[trigger] kept.push(last)[i]).entity != (#[trigger] kept.push(last)[j]).entity by {
                if j == kept.len() {
                    assert(kept.contains(kept[i]));
                    earlier.lemma_filter_contains_rev(pred, kept[i]);
                    let k = choose|k: int| 0 <= k < earlier.len() && earlier[k] == kept[i];
                    assert(entities[k] == kept[i]);
                    assert(entities[entities.len() - 1] == last);
                } else {
                    assert(kept.push(last)[i] == kept[i] && kept.push(last)[j] == kept[j]);
                }
            }
        }
    }
}

/// A sweep destroys nothing twice: where no identifier occurs twice among
/// the entities alive, none occurs twice among those handed back for
/// destruction, and none among those that stay.
pub proof fn lemma_sweep_removes_once(entities: Seq<Tagged>, exit_state: AppState)
    requires
        distinct_entities(entities),
    ensures
        entities_of(entities.filter(owned_by(exit_state))).no_duplicates(),
        distinct_entities(entities.filter(not_owned_by(exit_state))),
{
    lemma_filter_keeps_distinct(entities, owned_by(exit_state));
    lemma_filter_keeps_distinct(entities, not_owned_by(exit_state));
    let swept = entities.filter(owned_by(exit_state));
    let removed = entities_of(swept);
    assert forall|i: int, j: int| 0 <= i < removed.len() && 0 <= j < removed.len() && i != j implies removed[i]
        != removed[j] by {
        if i < j {
            assert(swept[i].entity != swept[j].entity);
        } else {
            assert(swept[j].entity != swept[i].entity);
        }
    }
}

/// From every state some signal leads to a different state.
pub proof fn lemma_no_terminal_state(state: AppState)
    ensures
        exists|signal: Signal| #[trigger] state.after(signal) != state,
{
    match state {
        AppState::Loading => assert(state.after(Signal::AssetsReady) != state),
        AppState::MainMenu => assert(state.after(Signal::Confirm) != state),
        AppState::CoinLaunch => assert(state.after(Signal::Confirm) != state),
        AppState::Ingame => assert(state.after(Signal::CoinLost) != state),
        AppState::End => assert(state.after(Signal::Confirm) != state),
    }
}

} // verus!
