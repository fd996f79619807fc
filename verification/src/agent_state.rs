//! What agents are doing: taking over their states, and telling whoever is to be notified.
use vstd::prelude::*;

use crate::keys::identity_key;
use crate::keys::WorktreeSessionKey;
use crate::keys::WorktreeView;
use crate::model::AgentState;
use crate::model::NotificationSettings;
use crate::model::Session;
use crate::navigation::NavView;
use crate::navigation::Navigation;
use crate::tracker::JobTracker;

verus! {

/// How an observed state is passed on.
#[derive(Clone, Copy, Debug, PartialEq, Eq, Structural)]
pub enum AgentObservationMode {
    /// The state is the one to compare later states with.
    Baseline,
    /// The state has changed.
    Transition,
    /// The agent is only seen to be alive again.
    AttachedLiveness,
}

/// The sessions with another state of an agent.
pub open spec fn with_state(
    sessions: Seq<Session>,
    index: int,
    state: AgentState,
) -> Seq<Session> {
    sessions.update(index, Session { agent_state: state, ..sessions[index] })
}

fn set_state(navigation: &mut Navigation, index: usize, state: AgentState)
    requires
        index < old(navigation)@.sessions.len(),
    ensures
        final(navigation)@ == (NavView {
            sessions: with_state(old(navigation)@.sessions, index as int, state),
            ..old(navigation)@
        }),
{
    let mut session: Session = navigation.sessions.remove(index);
    session.agent_state = state;
    navigation.sessions.insert(index, session);
    assert(navigation@.sessions =~= with_state(
        old(navigation)@.sessions,
        index as int,
        state,
    ));
}

/// How the change of an agent's state is told, where it is one.
pub open spec fn told_change(
    previous: AgentState,
    current: AgentState,
    notify: bool,
) -> Option<AgentObservationMode> {
    if previous == current {
        None
    } else if notify {
        Some(AgentObservationMode::Transition)
    } else {
        Some(AgentObservationMode::Baseline)
    }
}

/// Takes over the state of a session's agent and asks for it to be stored; says how to
/// pass it on, where it is another state than before.
pub fn apply_agent_state(
    navigation: &mut Navigation,
    tracker: &mut JobTracker,
    index: usize,
    state: AgentState,
    notify: bool,
) -> (r: Option<AgentObservationMode>)
    ensures
        index < old(navigation)@.sessions.len() ==> r == told_change(
            old(navigation)@.sessions[index as int].agent_state,
            state,
            notify,
        ),
        ({
            let before = old(navigation)@;
            let changes = index < before.sessions.len() && before.sessions[index as int].agent_state
                != state;
            let after = NavView {
                sessions: with_state(before.sessions, index as int, state),
                ..before
            };
            &&& r == (if !changes {
                None
            } else if notify {
                Some(AgentObservationMode::Transition)
            } else {
                Some(AgentObservationMode::Baseline)
            })
            &&& final(navigation)@ == (if changes {
                after
            } else {
                before
            })
            &&& final(tracker)@ == (if changes && crate::tracker::is_known(after, index) {
                old(tracker)@.with_request(after, index as int, Some(state))
            } else {
                old(tracker)@
            })
        }),
{
    if index >= navigation.sessions.len() {
        return None;
    }
    if navigation.sessions[index].agent_state == state {
        return None;
    }
    set_state(navigation, index, state);
    tracker.queue_agent_state_persistence(navigation, index);
    if notify {
        Some(AgentObservationMode::Transition)
    } else {
        Some(AgentObservationMode::Baseline)
    }
}

/// Whether a state is one in which the agent had stopped and waited.
pub open spec fn had_stopped(state: AgentState) -> bool {
    state is NeedsInput || state is ExitedOk || state is ExitedError || state is NeedsRestart
}

/// How a change of an agent's state that came from elsewhere is told, where it is one.
pub open spec fn told_external_change(
    previous: AgentState,
    current: AgentState,
    suppress: bool,
) -> Option<AgentObservationMode> {
    if previous == current {
        None
    } else if suppress && current is Attached && had_stopped(previous) {
        Some(AgentObservationMode::AttachedLiveness)
    } else {
        Some(AgentObservationMode::Transition)
    }
}

/// Takes notice that a session's agent has another state than before, asks for it to be
/// stored, and says how to pass it on. An agent that had stopped and is attached again is
/// only seen to be alive, where such news are to be kept back.
pub fn accept_external_agent_state_change(
    navigation: &Navigation,
    tracker: &mut JobTracker,
    index: usize,
    previous: AgentState,
    suppress_attached_liveness: bool,
) -> (r: Option<AgentObservationMode>)
    ensures
        index < navigation@.sessions.len() ==> r == told_external_change(
            previous,
            navigation@.sessions[index as int].agent_state,
            suppress_attached_liveness,
        ),
        ({
            let nav = navigation@;
            let current = nav.sessions[index as int].agent_state;
            let changes = index < nav.sessions.len() && current != previous;
            &&& r == (if !changes {
                None
            } else if suppress_attached_liveness && current is Attached && had_stopped(previous) {
                Some(AgentObservationMode::AttachedLiveness)
            } else {
                Some(AgentObservationMode::Transition)
            })
            &&& final(tracker)@ == (if changes && crate::tracker::is_known(nav, index) {
                old(tracker)@.with_request(nav, index as int, Some(current))
            } else {
                old(tracker)@
            })
        }),
{
    if index >= navigation.sessions.len() {
        return None;
    }
    let current: AgentState = navigation.sessions[index].agent_state;
    if current == previous {
        return None;
    }
    tracker.queue_agent_state_persistence(navigation, index);
    let stopped: bool = matches!(
        previous,
        AgentState::NeedsInput
            | AgentState::ExitedOk
            | AgentState::ExitedError
            | AgentState::NeedsRestart
    );
    if suppress_attached_liveness && current == AgentState::Attached && stopped {
        Some(AgentObservationMode::AttachedLiveness)
    } else {
        Some(AgentObservationMode::Transition)
    }
}

/// What is passed on of a session's agent.
#[derive(Debug)]
pub struct AgentObservation {
    pub session: WorktreeSessionKey,
    pub repo_label: String,
    pub branch: String,
    pub state: AgentState,
    /// The settings of the repository that the agent works in.
    pub config: NotificationSettings,
}

/// What is passed on, as contracts speak of it.
#[verifier::ext_equal]
pub struct ObservationView {
    pub session: WorktreeView,
    pub repo_label: Seq<char>,
    pub branch: Seq<char>,
    pub state: AgentState,
    pub config: NotificationSettings,
}

impl AgentObservation {
    /// The observation as contracts speak of it.
    pub open spec fn view(&self) -> ObservationView {
        ObservationView {
            session: self.session@,
            repo_label: self.repo_label@,
            branch: self.branch@,
            state: self.state,
            config: self.config,
        }
    }
}

/// What is passed on of the agent of a session of a known repository.
pub open spec fn observed(nav: NavView, index: int) -> ObservationView {
    let session = nav.sessions[index];
    ObservationView {
        session: crate::keys::identity_view(
            nav.repos[session.repo_index as int].repo.root@,
            session,
        ),
        repo_label: session.repo_label@,
        branch: session.branch@,
        state: session.agent_state,
        config: nav.repos[session.repo_index as int].config.notifications,
    }
}

/// What is passed on of a session's agent, where its repository is known.
pub fn agent_observation(navigation: &Navigation, index: usize) -> (r: Option<AgentObservation>)
    ensures
        match r {
            Some(observation) => crate::tracker::is_known(navigation@, index) && observation@
                == observed(navigation@, index as int),
            None => !crate::tracker::is_known(navigation@, index),
        },
{
    if index >= navigation.sessions.len() {
        return None;
    }
    let session: &Session = &navigation.sessions[index];
    if session.repo_index >= navigation.repos.len() {
        return None;
    }
    let root: &str = navigation.repos[session.repo_index].repo.root.as_str();
    Some(
        AgentObservation {
            session: identity_key(root, session),
            repo_label: session.repo_label.clone(),
            branch: session.branch.clone(),
            state: session.agent_state,
            config: navigation.repos[session.repo_index].config.notifications,
        },
    )
}

/// What is passed on of the agents of the first `n` sessions.
pub open spec fn observations_upto(nav: NavView, n: nat) -> Seq<ObservationView>
    decreases n,
{
    if n == 0 {
        Seq::empty()
    } else {
        let before = observations_upto(nav, (n - 1) as nat);
        if crate::tracker::is_known(nav, (n - 1) as usize) {
            before.push(observed(nav, n - 1))
        } else {
            before
        }
    }
}

/// What the observations stand for.
pub open spec fn observation_views(list: Seq<AgentObservation>) -> Seq<ObservationView> {
    Seq::new(list.len(), |i: int| list[i]@)
}

/// What is passed on of all agents, to start comparing from.
pub fn reseed_desktop_notifications(navigation: &Navigation) -> (r: Vec<AgentObservation>)
    ensures
        observation_views(r@) == observations_upto(navigation@, navigation@.sessions.len()),
{
    let mut out: Vec<AgentObservation> = Vec::new();
    let mut i: usize = 0;
    assert(observation_views(out@) =~= Seq::<ObservationView>::empty());
    while i < navigation.sessions.len()
        invariant
            i <= navigation.sessions.len(),
            observation_views(out@) == observations_upto(navigation@, i as nat),
        decreases navigation.sessions.len() - i,
    {
        let ghost before = observation_views(out@);
        match agent_observation(navigation, i) {
            Some(observation) => {
                out.push(observation);
                assert(observation_views(out@) =~= before.push(observed(navigation@, i as int)));
            },
            None => {},
        }
        i += 1;
    }
    out
}

} // verus!
