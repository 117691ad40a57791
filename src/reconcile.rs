//! Reconciliation of recorded branch states with what the container runtime shows.

use vstd::prelude::*;
use crate::model::{Branch, BranchState};

verus! {

/// What was observed of one branch's container during a reconciliation pass.
#[derive(Debug, Clone, Copy, PartialEq, Eq, Structural)]
pub enum ContainerObservation {
    /// The container is running.
    Running,
    /// The container was paused and unpausing it succeeded.
    Unpaused,
    /// The container was paused and unpausing it failed.
    UnpauseFailed,
    /// The container has exited, is missing, or is in another state; records
    /// whether the branch's data directory is on disk.
    Down { data_dir_exists: bool },
    /// Inspecting the container failed.
    InspectFailed,
}

/// What a reconciliation pass saw of the runtime.
#[derive(Debug, Clone)]
pub enum RuntimeObservation {
    /// The runtime could not be reached.
    Unavailable,
    /// The runtime answered; one observation per branch, in the branches' order.
    Available(Vec<ContainerObservation>),
}

/// The state a branch should have after an observation; `None` leaves it unchanged.
pub open spec fn observed_state(obs: ContainerObservation) -> Option<BranchState> {
    match obs {
        ContainerObservation::Running => Some(BranchState::Running),
        ContainerObservation::Unpaused => Some(BranchState::Running),
        ContainerObservation::UnpauseFailed => Some(BranchState::Failed),
        ContainerObservation::Down { data_dir_exists } => if data_dir_exists {
            Some(BranchState::Stopped)
        } else {
            Some(BranchState::Failed)
        },
        ContainerObservation::InspectFailed => None,
    }
}

/// The state that branch `i` should move to, if any (equal states included).
pub open spec fn target_state(cur: BranchState, obs: RuntimeObservation, view: Seq<ContainerObservation>, i: int) -> Option<BranchState> {
    match obs {
        RuntimeObservation::Unavailable => if cur == BranchState::Provisioning {
            Some(BranchState::Stopped)
        } else {
            None
        },
        RuntimeObservation::Available(_) => if 0 <= i < view.len() {
            observed_state(view[i])
        } else {
            None
        },
    }
}

pub open spec fn obs_view(obs: RuntimeObservation) -> Seq<ContainerObservation> {
    match obs {
        RuntimeObservation::Unavailable => Seq::empty(),
        RuntimeObservation::Available(v) => v@,
    }
}

/// The transition of branch `i`, when its target state differs from its recorded one.
pub open spec fn change_at(branches: Seq<Branch>, obs: RuntimeObservation, i: int) -> Option<(Seq<char>, BranchState)> {
    match target_state(branches[i].state, obs, obs_view(obs), i) {
        Some(s) => if s != branches[i].state {
            Some((branches[i].id@, s))
        } else {
            None
        },
        None => None,
    }
}

/// The transitions of the first `n` branches, in order.
pub open spec fn changes_upto(branches: Seq<Branch>, obs: RuntimeObservation, n: int) -> Seq<(Seq<char>, BranchState)>
    decreases n,
{
    if n <= 0 {
        Seq::empty()
    } else {
        let prev = changes_upto(branches, obs, n - 1);
        match change_at(branches, obs, n - 1) {
            Some(c) => prev.push(c),
            None => prev,
        }
    }
}

/// The transitions a reconciliation pass applies, in the branches' order.
pub open spec fn state_changes(branches: Seq<Branch>, obs: RuntimeObservation) -> Seq<(Seq<char>, BranchState)> {
    changes_upto(branches, obs, branches.len() as int)
}

pub open spec fn changes_view(v: Seq<(String, BranchState)>) -> Seq<(Seq<char>, BranchState)> {
    v.map_values(|c: (String, BranchState)| (c.0@, c.1))
}

/// The branch state that one observation leads to.
pub fn next_state(obs: ContainerObservation) -> (r: Option<BranchState>)
    ensures
        r == observed_state(obs),
{
    match obs {
        ContainerObservation::Running => Some(BranchState::Running),
        ContainerObservation::Unpaused => Some(BranchState::Running),
        ContainerObservation::UnpauseFailed => Some(BranchState::Failed),
        ContainerObservation::Down { data_dir_exists } => if data_dir_exists {
            Some(BranchState::Stopped)
        } else {
            Some(BranchState::Failed)
        },
        ContainerObservation::InspectFailed => None,
    }
}

/// Computes the (branch id, new state) pairs that bring the recorded states in
/// line with what was observed. With the runtime unreachable only provisioning
/// branches move, to stopped; a branch without an observation stays as it is.
pub fn compute_state_changes(branches: &Vec<Branch>, observed: &RuntimeObservation) -> (r: Vec<(String, BranchState)>)
    ensures
        changes_view(r@) == state_changes(branches@, *observed),
{
    let mut out: Vec<(String, BranchState)> = Vec::new();
    let mut i: usize = 0;
    while i < branches.len()
        invariant
            i <= branches@.len(),
            changes_view(out@) == changes_upto(branches@, *observed, i as int),
        decreases branches@.len() - i,
    {
        let b = &branches[i];
        let target = match observed {
            RuntimeObservation::Unavailable => if b.state == BranchState::Provisioning {
                Some(BranchState::Stopped)
            } else {
                None
            },
            RuntimeObservation::Available(v) => if i < v.len() {
                next_state(v[i])
            } else {
                None
            },
        };
        let ghost prev = out@;
        match target {
            Some(s) => {
                if s != b.state {
                    out.push((b.id.clone(), s));
                }
            },
            None => {},
        }
        proof {
            assert(changes_view(out@) =~= changes_upto(branches@, *observed, i + 1));
        }
        i += 1;
    }
    out
}

/// The observation a second pass makes of a container after the first pass:
/// a container that was unpaused is now running.
pub open spec fn settled(o: ContainerObservation) -> ContainerObservation {
    if o == ContainerObservation::Unpaused {
        ContainerObservation::Running
    } else {
        o
    }
}

/// The state of branch `i` once a pass's transitions are applied.
pub open spec fn reconciled_state(branches: Seq<Branch>, obs: RuntimeObservation, i: int) -> BranchState {
    match target_state(branches[i].state, obs, obs_view(obs), i) {
        Some(s) => s,
        None => branches[i].state,
    }
}

proof fn lemma_second_pass_empty(
    branches: Seq<Branch>,
    obs: RuntimeObservation,
    after: Seq<Branch>,
    obs2: RuntimeObservation,
    n: int,
)
    requires
        0 <= n <= after.len(),
        after.len() == branches.len(),
        (obs is Unavailable) == (obs2 is Unavailable),
        obs_view(obs2).len() == obs_view(obs).len(),
        forall|i: int| 0 <= i < obs_view(obs).len() ==> #[trigger] obs_view(obs2)[i] == settled(obs_view(obs)[i]),
        forall|i: int| 0 <= i < after.len() ==> #[trigger] after[i].state == reconciled_state(branches, obs, i),
    ensures
        changes_upto(after, obs2, n).len() == 0,
    decreases n,
{
    if n > 0 {
        lemma_second_pass_empty(branches, obs, after, obs2, n - 1);
        let i = n - 1;
        assert(after[i].state == reconciled_state(branches, obs, i));
        if 0 <= i < obs_view(obs).len() {
            assert(obs_view(obs2)[i] == settled(obs_view(obs)[i]));
        }
        assert(change_at(after, obs2, i).is_none());
    }
}

/// Reconciling twice in succession changes nothing the second time: once the
/// first pass's transitions are recorded, a second pass over the same runtime
/// (where a container the first pass unpaused now shows as running) yields no
/// transition.
pub proof fn lemma_reconcile_idempotent(
    branches: Seq<Branch>,
    obs: RuntimeObservation,
    after: Seq<Branch>,
    obs2: RuntimeObservation,
)
    requires
        after.len() == branches.len(),
        (obs is Unavailable) == (obs2 is Unavailable),
        obs_view(obs2).len() == obs_view(obs).len(),
        forall|i: int| 0 <= i < obs_view(obs).len() ==> #[trigger] obs_view(obs2)[i] == settled(obs_view(obs)[i]),
        forall|i: int| 0 <= i < after.len() ==> #[trigger] after[i].state == reconciled_state(branches, obs, i),
    ensures
        state_changes(after, obs2).len() == 0,
{
    lemma_second_pass_empty(branches, obs, after, obs2, after.len() as int);
}

/// Crash recovery: a branch whose container vanished while its data
/// directory stayed moves to stopped, and a running branch whose container
/// runs is left as it is.
pub proof fn lemma_missing_container_stops(branches: Seq<Branch>, obs: RuntimeObservation, i: int)
    requires
        0 <= i < branches.len(),
        obs is Available,
        i < obs_view(obs).len(),
    ensures
        obs_view(obs)[i] == (ContainerObservation::Down { data_dir_exists: true }) ==> change_at(branches, obs, i)
            == (if branches[i].state == BranchState::Stopped {
            None
        } else {
            Some((branches[i].id@, BranchState::Stopped))
        }),
        obs_view(obs)[i] == ContainerObservation::Running && branches[i].state == BranchState::Running
            ==> change_at(branches, obs, i) is None,
{
}

} // verus!
