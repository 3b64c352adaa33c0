//! Which installations the user has stopped.

use vstd::prelude::*;
use std::collections::HashMap;

verus! {

broadcast use vstd::std_specs::hash::group_hash_axioms;

/// The installations that were begun, and which of them the user has stopped.
/// Each has a number, its ticket, in the order in which they were begun.
pub struct AppState {
    /// For each ticket, whether that installation was stopped.
    cancel_flags: Vec<bool>,
    /// The latest ticket of each environment.
    latest: HashMap<u32, usize>,
}

/// The mathematical reading of [`AppState`].
#[verifier::ext_equal]
pub struct AppView {
    pub stopped: Seq<bool>,
    pub latest: Map<u32, usize>,
}

impl View for AppState {
    type V = AppView;

    closed spec fn view(&self) -> AppView {
        AppView { stopped: self.cancel_flags@, latest: self.latest@ }
    }
}

impl AppView {
    /// The state once an installation of `env_id` has begun: it gets a ticket of
    /// its own, not stopped, and is the one that the environment is known by.
    pub open spec fn begun(self, env_id: u32) -> AppView {
        AppView {
            stopped: self.stopped.push(false),
            latest: self.latest.insert(env_id, self.stopped.len() as usize),
        }
    }

    /// The state once the user has stopped `env_id`: its latest installation is
    /// stopped, if there is one.
    pub open spec fn after_stop(self, env_id: u32) -> AppView {
        if self.latest.contains_key(env_id) {
            AppView {
                stopped: self.stopped.update(self.latest[env_id] as int, true),
                latest: self.latest,
            }
        } else {
            self
        }
    }

    /// Whether every ticket that an environment is known by was handed out, and
    /// to no other environment.
    pub open spec fn well_formed(self) -> bool {
        &&& forall|e: u32| #[trigger]
            self.latest.contains_key(e) ==> self.latest[e] < self.stopped.len()
        &&& forall|e: u32, f: u32| #[trigger]
            self.latest.contains_key(e) && #[trigger] self.latest.contains_key(f) && e != f
                ==> self.latest[e] != self.latest[f]
    }
}

impl Default for AppState {
    /// No installation was begun.
    fn default() -> (r: AppState)
        ensures
            r@ == (AppView { stopped: Seq::empty(), latest: Map::empty() }),
            r@.well_formed(),
    {
        AppState { cancel_flags: Vec::new(), latest: HashMap::new() }
    }
}

impl AppState {
    /// Every ticket that an environment is known by was handed out, and to no
    /// other environment.
    #[verifier::type_invariant]
    closed spec fn tickets_fit(&self) -> bool {
        self@.well_formed()
    }

    /// Notes that an installation of `env_id` begins, and hands out its ticket.
    pub fn begin_install(&mut self, env_id: u32) -> (ticket: usize)
        ensures
            ticket == old(self)@.stopped.len(),
            final(self)@ == old(self)@.begun(env_id),
            final(self)@.well_formed(),
    {
        proof {
            use_type_invariant(&*self);
        }
        let mut latest: HashMap<u32, usize> = HashMap::new();
        std::mem::swap(&mut latest, &mut self.latest);
        let mut flags: Vec<bool> = Vec::new();
        std::mem::swap(&mut flags, &mut self.cancel_flags);
        let ticket: usize = flags.len();
        flags.push(false);
        latest.insert(env_id, ticket);
        proof {
            begin_keeps_the_form(old(self)@, env_id);
        }
        *self = AppState { cancel_flags: flags, latest };
        ticket
    }

    /// Stops the latest installation of `env_id`, if there is one.
    pub fn stop_install(&mut self, env_id: u32)
        ensures
            final(self)@ == old(self)@.after_stop(env_id),
            final(self)@.well_formed(),
    {
        proof {
            use_type_invariant(&*self);
        }
        let ticket: Option<usize> = match self.latest.get(&env_id) {
            Some(ticket) => Some(*ticket),
            None => None,
        };
        match ticket {
            Some(t) => {
                let mut latest: HashMap<u32, usize> = HashMap::new();
                std::mem::swap(&mut latest, &mut self.latest);
                let mut flags: Vec<bool> = Vec::new();
                std::mem::swap(&mut flags, &mut self.cancel_flags);
                assert(old(self)@.latest.contains_key(env_id));
                flags.set(t, true);
                *self = AppState { cancel_flags: flags, latest };
            },
            None => {},
        }
    }

    /// Whether the installation with this ticket was stopped.
    pub fn is_cancelled(&self, ticket: usize) -> (r: bool)
        ensures
            r == (ticket < self@.stopped.len() && self@.stopped[ticket as int]),
    {
        ticket < self.cancel_flags.len() && self.cancel_flags[ticket]
    }
}

/// A state stays well-formed when an installation begins.
proof fn begin_keeps_the_form(state: AppView, env_id: u32)
    requires
        state.well_formed(),
        state.stopped.len() <= usize::MAX,
    ensures
        state.begun(env_id).well_formed(),
{
    let begun = state.begun(env_id);
    assert forall|e: u32| #[trigger] begun.latest.contains_key(e) implies begun.latest[e]
        < begun.stopped.len() by {
        assert(e != env_id ==> state.latest.contains_key(e));
    }
    assert forall|e: u32, f: u32| #[trigger]
        begun.latest.contains_key(e) && #[trigger] begun.latest.contains_key(f) && e
            != f implies begun.latest[e] != begun.latest[f] by {
        assert(e != env_id ==> state.latest.contains_key(e));
        assert(f != env_id ==> state.latest.contains_key(f));
    }
}

/// An installation that begins is not stopped, and that it begins stops no other.
pub proof fn begun_installation_runs(state: AppView, env_id: u32, ticket: int)
    requires
        state.well_formed(),
        state.stopped.len() < usize::MAX,
        0 <= ticket <= state.stopped.len(),
    ensures
        state.begun(env_id).stopped[ticket] == (ticket < state.stopped.len()
            && state.stopped[ticket]),
{
}

/// Stopping an environment stops its latest installation and no other one: not an
/// earlier one of the same environment, and none of another environment. An
/// environment without installation can be stopped without effect.
pub proof fn stop_reaches_the_latest(state: AppView, env_id: u32, ticket: int)
    requires
        state.well_formed(),
        0 <= ticket < state.stopped.len(),
    ensures
        state.after_stop(env_id).stopped[ticket] == (state.stopped[ticket] || (
        state.latest.contains_key(env_id) && state.latest[env_id] == ticket)),
        state.after_stop(env_id).stopped.len() == state.stopped.len(),
        forall|other: u32|
            other != env_id && #[trigger] state.latest.contains_key(other)
                ==> state.after_stop(env_id).stopped[state.latest[other] as int]
                == state.stopped[state.latest[other] as int],
{
}

/// What can be done to the state.
pub enum AppStep {
    /// An installation of this environment begins.
    Begin(u32),
    /// The user stops this environment.
    Stop(u32),
}

impl AppView {
    /// The state after `steps`, in turn.
    pub open spec fn after(self, steps: Seq<AppStep>) -> AppView
        decreases steps.len(),
    {
        if steps.len() == 0 {
            self
        } else {
            let before = self.after(steps.drop_last());
            match steps.last() {
                AppStep::Begin(env_id) => before.begun(env_id),
                AppStep::Stop(env_id) => before.after_stop(env_id),
            }
        }
    }
}

/// Whether none of the steps is about this environment.
pub open spec fn leave_alone(steps: Seq<AppStep>, env_id: u32) -> bool {
    forall|i: int|
        0 <= i < steps.len() ==> #[trigger] steps[i] != AppStep::Begin(env_id) && steps[i]
            != AppStep::Stop(env_id)
}

/// Whatever is begun and stopped, the state stays well-formed, every ticket stays
/// handed out, and an installation that was stopped stays so.
pub proof fn stopped_stays_stopped(state: AppView, steps: Seq<AppStep>, ticket: int)
    requires
        state.well_formed(),
        state.stopped.len() + steps.len() <= usize::MAX,
        0 <= ticket < state.stopped.len(),
    ensures
        state.after(steps).well_formed(),
        state.stopped.len() <= state.after(steps).stopped.len() <= state.stopped.len()
            + steps.len(),
        state.stopped[ticket] ==> state.after(steps).stopped[ticket],
    decreases steps.len(),
{
    if steps.len() > 0 {
        stopped_stays_stopped(state, steps.drop_last(), ticket);
        let before = state.after(steps.drop_last());
        match steps.last() {
            AppStep::Begin(env_id) => {
                begin_keeps_the_form(before, env_id);
            },
            AppStep::Stop(_) => {},
        }
    }
}

/// While an environment is left alone, its latest installation stays the latest,
/// and is stopped after the steps just where it was before them.
proof fn left_alone(state: AppView, steps: Seq<AppStep>, env_id: u32)
    requires
        state.well_formed(),
        state.stopped.len() + steps.len() <= usize::MAX,
        state.latest.contains_key(env_id),
        leave_alone(steps, env_id),
    ensures
        state.after(steps).latest.contains_key(env_id),
        state.after(steps).latest[env_id] == state.latest[env_id],
        state.after(steps).stopped[state.latest[env_id] as int]
            == state.stopped[state.latest[env_id] as int],
    decreases steps.len(),
{
    let ticket = state.latest[env_id] as int;
    stopped_stays_stopped(state, steps, ticket);
    if steps.len() > 0 {
        let rest = steps.drop_last();
        assert(leave_alone(rest, env_id)) by {
            assert forall|i: int| 0 <= i < rest.len() implies #[trigger] rest[i] != AppStep::Begin(
                env_id,
            ) && rest[i] != AppStep::Stop(env_id) by {
                assert(rest[i] == steps[i]);
            }
        }
        left_alone(state, rest, env_id);
        stopped_stays_stopped(state, rest, ticket);
        assert(steps[steps.len() - 1] == steps.last());
        match steps.last() {
            AppStep::Begin(_) => {},
            AppStep::Stop(other) => {
                if state.after(rest).latest.contains_key(other) {
                    assert(state.after(rest).latest[other] != ticket);
                }
            },
        }
    }
}

/// An installation that is begun runs until its environment is stopped, whatever
/// is begun and stopped of other environments meanwhile. Once it is stopped it
/// stays so, whatever is begun and stopped then.
pub proof fn stop_is_seen(
    state: AppView,
    env_id: u32,
    meanwhile: Seq<AppStep>,
    afterwards: Seq<AppStep>,
)
    requires
        state.well_formed(),
        state.stopped.len() + 1 + meanwhile.len() + afterwards.len() <= usize::MAX,
        leave_alone(meanwhile, env_id),
    ensures
        ({
            let ticket = state.stopped.len() as int;
            let running = state.begun(env_id).after(meanwhile);
            &&& !running.stopped[ticket]
            &&& running.after_stop(env_id).after(afterwards).stopped[ticket]
        }),
{
    let ticket = state.stopped.len() as int;
    let begun = state.begun(env_id);
    let running = begun.after(meanwhile);
    begin_keeps_the_form(state, env_id);
    stopped_stays_stopped(begun, meanwhile, ticket);
    left_alone(begun, meanwhile, env_id);
    let ended = running.after_stop(env_id);
    assert(ended.latest == running.latest);
    assert(ended.stopped.len() == running.stopped.len());
    stopped_stays_stopped(ended, afterwards, ticket);
}

/// An installation that begins gets the next ticket, under which its environment
/// is known from then on; what other environments are known by stays, and so it
/// does when one is stopped.
pub proof fn environment_is_known_by_its_latest(state: AppView, env_id: u32, other: u32)
    requires
        state.stopped.len() <= usize::MAX,
    ensures
        state.begun(env_id).stopped.len() == state.stopped.len() + 1,
        state.begun(env_id).latest.contains_key(env_id),
        state.begun(env_id).latest[env_id] == state.stopped.len(),
        other != env_id ==> state.begun(env_id).latest.contains_key(other)
            == state.latest.contains_key(other),
        other != env_id && state.latest.contains_key(other) ==> state.begun(env_id).latest[other]
            == state.latest[other],
        state.after_stop(env_id).latest == state.latest,
{
}

} // verus!
