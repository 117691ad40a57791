//! Decisions of the branching engine. The engine alternates runtime and
//! storage work with decisions; the decisions live here as a step function
//! from a flow's stage and the outcome of the last piece of work to the next
//! stage and the next piece of work.

use vstd::prelude::*;
use crate::backends::BranchInfo;
use crate::model::{state_text, Branch, BranchState};
use crate::runtime::ContainerStatus;
use crate::text::str_eq;

verus! {

/// The kinds of error an engine operation reports.
#[derive(Debug, Clone, Copy, PartialEq, Eq, Structural)]
pub enum ErrorKind {
    NotFound,
    AlreadyExists,
    PreconditionFailed,
    RuntimeUnavailable,
    StorageUnavailable,
    Timeout,
    SeedFailed,
    Internal,
}

/// An engine error: its kind and a message with context.
#[derive(Debug, Clone)]
pub struct EngineError {
    pub kind: ErrorKind,
    pub message: String,
}

/// What a create must do first, given the branch of that name, if any.
#[derive(Debug, Clone)]
pub enum CreateStart {
    /// The branch is running already: return it unchanged.
    Existing(Branch),
    /// No branch has the name: provision a new one.
    Provision,
}

/// Decides how a create of a branch begins. A running branch of that name is
/// returned as it is; another branch of that name is a collision.
pub fn create_start(existing: Option<Branch>) -> (r: Result<CreateStart, ErrorKind>)
    ensures
        (match existing {
            None => r matches Ok(CreateStart::Provision),
            Some(b) => if b.state == BranchState::Running {
                r == Ok::<CreateStart, ErrorKind>(CreateStart::Existing(b))
            } else {
                r == Err::<CreateStart, ErrorKind>(ErrorKind::AlreadyExists)
            },
        }),
{
    match existing {
        None => Ok(CreateStart::Provision),
        Some(b) => if b.state == BranchState::Running {
            Ok(CreateStart::Existing(b))
        } else {
            Err(ErrorKind::AlreadyExists)
        },
    }
}

/// A branch may serve as an implicit parent.
pub open spec fn can_be_parent(b: Branch) -> bool {
    b.state == BranchState::Running || b.state == BranchState::Stopped
}

/// The parent a new branch is cloned from: the branch named `from` when given,
/// else the first (most recent) running or stopped branch.
pub open spec fn is_parent_choice(branches: Seq<Branch>, from: Option<Seq<char>>, i: int) -> bool {
    match from {
        Some(n) => branches[i].name@ == n,
        None => can_be_parent(branches[i]),
    }
}

pub open spec fn opt_view(o: Option<&str>) -> Option<Seq<char>> {
    match o {
        Some(s) => Some(s@),
        None => None,
    }
}

/// Chooses the parent of a new branch among the project's branches, listed
/// newest first. Returns its index; `None` means the branch starts empty.
pub fn choose_parent(branches: &Vec<Branch>, from: Option<&str>) -> (r: Option<usize>)
    ensures
        r matches Some(i) ==> i < branches@.len() && is_parent_choice(
            branches@,
            opt_view(from),
            i as int,
        ) && forall|j: int| 0 <= j < i ==> !is_parent_choice(branches@, opt_view(from), j),
        r is None ==> forall|j: int|
            0 <= j < branches@.len() ==> !is_parent_choice(branches@, opt_view(from), j),
{
    let mut i: usize = 0;
    while i < branches.len()
        invariant
            i <= branches@.len(),
            forall|j: int| 0 <= j < i ==> !is_parent_choice(branches@, opt_view(from), j),
        decreases branches@.len() - i,
    {
        let b = &branches[i];
        let hit = match from {
            Some(n) => str_eq(b.name.as_str(), n),
            None => b.state == BranchState::Running || b.state == BranchState::Stopped,
        };
        if hit {
            return Some(i);
        }
        i += 1;
    }
    None
}

/// Which engine operation a flow carries out.
#[derive(Debug, Clone, Copy, PartialEq, Eq, Structural)]
pub enum FlowKind {
    /// Provisioning a new branch.
    Create,
    /// Re-cloning an existing branch; records whether it was running before.
    Reset { was_running: bool },
}

/// Where a flow stands: the piece of work whose outcome it waits for.
#[derive(Debug, Clone)]
pub enum Stage {
    /// The branch's own container is being stopped (reset only).
    StopBranch { has_parent: bool },
    /// The parent container's status is being inspected.
    InspectParent,
    /// The parent container is being paused.
    PauseParent,
    /// The data directory is being cloned from the parent, or prepared empty;
    /// records whether the parent is paused.
    Clone { paused: bool },
    /// The parent is being unpaused; holds the clone's outcome.
    UnpauseParent { outcome: CloneOutcome },
    /// The branch row is being written (create) or its storage metadata updated (reset).
    Record,
    /// The branch container is being started.
    StartContainer,
    /// The database in the container is awaited.
    WaitReady,
    /// The branch is being recorded as running.
    MarkRunning,
    /// The branch is being recorded as stopped (reset of a stopped branch).
    MarkStopped,
    /// The flow has ended.
    Finished,
}

/// How the clone under a paused parent ended.
#[derive(Debug, Clone)]
pub enum CloneOutcome {
    Cloned(Option<String>),
    Failed(EngineError),
    /// The flow was handed an event that does not answer a clone.
    Unexpected,
}

/// The outcome of the last piece of work.
#[derive(Debug, Clone)]
pub enum Event {
    /// The parent container's status.
    Status(ContainerStatus),
    /// The clone or empty preparation succeeded, with the storage metadata it produced.
    Cloned(Option<String>),
    /// The work succeeded.
    Done,
    /// The work failed.
    Failed(EngineError),
}

/// The next piece of work.
#[derive(Debug)]
pub enum Action {
    StopBranch,
    InspectParent,
    PauseParent,
    CloneFromParent,
    CreateEmpty,
    UnpauseParent,
    /// Create: insert the branch row as provisioning. Reset: store the metadata, if any.
    Record(Option<String>),
    StartContainer,
    WaitReady,
    MarkRunning,
    MarkStopped,
    /// The operation is over, with this result.
    Finish(Result<(), EngineError>),
    /// The flow was handed an event that does not answer its last action.
    Abort,
}

/// A create or reset in progress.
#[derive(Debug, Clone)]
pub struct Flow {
    pub kind: FlowKind,
    pub stage: Stage,
}

/// Starts a create: inspect the parent when there is one, else prepare an empty directory.
pub fn begin_create(has_parent: bool) -> (r: (Flow, Action))
    ensures
        r.0.kind == FlowKind::Create,
        has_parent ==> r.0.stage is InspectParent && r.1 is InspectParent,
        !has_parent ==> r.0.stage == (Stage::Clone { paused: false }) && r.1 is CreateEmpty,
{
    if has_parent {
        (Flow { kind: FlowKind::Create, stage: Stage::InspectParent }, Action::InspectParent)
    } else {
        (Flow { kind: FlowKind::Create, stage: Stage::Clone { paused: false } }, Action::CreateEmpty)
    }
}

/// Starts a reset: the branch's container is stopped first.
pub fn begin_reset(was_running: bool, has_parent: bool) -> (r: (Flow, Action))
    ensures
        r.0.kind == (FlowKind::Reset { was_running }),
        r.0.stage == (Stage::StopBranch { has_parent }),
        r.1 is StopBranch,
{
    (Flow { kind: FlowKind::Reset { was_running }, stage: Stage::StopBranch { has_parent } }, Action::StopBranch)
}

/// What follows once the data directory is in place (and the parent unpaused).
pub open spec fn after_clone(kind: FlowKind, metadata: Option<String>) -> (Stage, Action) {
    match kind {
        FlowKind::Create => (Stage::Record, Action::Record(metadata)),
        FlowKind::Reset { was_running } => if metadata is Some {
            (Stage::Record, Action::Record(metadata))
        } else if was_running {
            (Stage::StartContainer, Action::StartContainer)
        } else {
            (Stage::MarkStopped, Action::MarkStopped)
        },
    }
}

fn after_clone_exec(kind: FlowKind, metadata: Option<String>) -> (r: (Stage, Action))
    ensures
        r == after_clone(kind, metadata),
{
    match kind {
        FlowKind::Create => (Stage::Record, Action::Record(metadata)),
        FlowKind::Reset { was_running } => if metadata.is_some() {
            (Stage::Record, Action::Record(metadata))
        } else if was_running {
            (Stage::StartContainer, Action::StartContainer)
        } else {
            (Stage::MarkStopped, Action::MarkStopped)
        },
    }
}

/// The next stage and action of a flow, given the outcome of the last action.
pub open spec fn step_spec(kind: FlowKind, stage: Stage, event: Event) -> (Stage, Action) {
    match stage {
        Stage::StopBranch { has_parent } => match event {
            Event::Done => if has_parent {
                (Stage::InspectParent, Action::InspectParent)
            } else {
                after_clone(kind, None)
            },
            Event::Failed(e) => (Stage::Finished, Action::Finish(Err(e))),
            _ => (Stage::Finished, Action::Abort),
        },
        Stage::InspectParent => match event {
            Event::Status(s) => if s == ContainerStatus::Running {
                (Stage::PauseParent, Action::PauseParent)
            } else {
                (Stage::Clone { paused: false }, Action::CloneFromParent)
            },
            Event::Failed(e) => (Stage::Finished, Action::Finish(Err(e))),
            _ => (Stage::Finished, Action::Abort),
        },
        Stage::PauseParent => match event {
            Event::Done => (Stage::Clone { paused: true }, Action::CloneFromParent),
            Event::Failed(e) => (Stage::Finished, Action::Finish(Err(e))),
            _ => (Stage::Finished, Action::Abort),
        },
        Stage::Clone { paused } => if paused {
            match event {
                Event::Cloned(m) => (Stage::UnpauseParent { outcome: CloneOutcome::Cloned(m) }, Action::UnpauseParent),
                Event::Failed(e) => (Stage::UnpauseParent { outcome: CloneOutcome::Failed(e) }, Action::UnpauseParent),
                _ => (Stage::UnpauseParent { outcome: CloneOutcome::Unexpected }, Action::UnpauseParent),
            }
        } else {
            match event {
                Event::Cloned(m) => after_clone(kind, m),
                Event::Failed(e) => (Stage::Finished, Action::Finish(Err(e))),
                _ => (Stage::Finished, Action::Abort),
            }
        },
        Stage::UnpauseParent { outcome } => match event {
            Event::Done => match outcome {
                CloneOutcome::Cloned(m) => after_clone(kind, m),
                CloneOutcome::Failed(e) => (Stage::Finished, Action::Finish(Err(e))),
                CloneOutcome::Unexpected => (Stage::Finished, Action::Abort),
            },
            Event::Failed(e) => (Stage::Finished, Action::Finish(Err(e))),
            _ => (Stage::Finished, Action::Abort),
        },
        Stage::Record => match event {
            Event::Done => match kind {
                FlowKind::Create => (Stage::StartContainer, Action::StartContainer),
                FlowKind::Reset { was_running } => if was_running {
                    (Stage::StartContainer, Action::StartContainer)
                } else {
                    (Stage::MarkStopped, Action::MarkStopped)
                },
            },
            Event::Failed(e) => (Stage::Finished, Action::Finish(Err(e))),
            _ => (Stage::Finished, Action::Abort),
        },
        Stage::StartContainer => match event {
            Event::Done => (Stage::WaitReady, Action::WaitReady),
            Event::Failed(e) => (Stage::Finished, Action::Finish(Err(e))),
            _ => (Stage::Finished, Action::Abort),
        },
        Stage::WaitReady => match event {
            Event::Done => (Stage::MarkRunning, Action::MarkRunning),
            Event::Failed(e) => (Stage::Finished, Action::Finish(Err(e))),
            _ => (Stage::Finished, Action::Abort),
        },
        Stage::MarkRunning | Stage::MarkStopped => match event {
            Event::Done => (Stage::Finished, Action::Finish(Ok(()))),
            Event::Failed(e) => (Stage::Finished, Action::Finish(Err(e))),
            _ => (Stage::Finished, Action::Abort),
        },
        Stage::Finished => (Stage::Finished, Action::Abort),
    }
}

/// Advances a flow by one step: records the outcome of the last action and
/// returns the next action. A paused parent is always unpaused after the
/// clone, whatever the clone's outcome.
pub fn step(flow: Flow, event: Event) -> (r: (Flow, Action))
    ensures
        r.0.kind == flow.kind,
        (r.0.stage, r.1) == step_spec(flow.kind, flow.stage, event),
{
    let kind = flow.kind;
    let (stage, action) = match flow.stage {
        Stage::StopBranch { has_parent } => match event {
            Event::Done => if has_parent {
                (Stage::InspectParent, Action::InspectParent)
            } else {
                after_clone_exec(kind, None)
            },
            Event::Failed(e) => (Stage::Finished, Action::Finish(Err(e))),
            _ => (Stage::Finished, Action::Abort),
        },
        Stage::InspectParent => match event {
            Event::Status(s) => if s.is_running() {
                (Stage::PauseParent, Action::PauseParent)
            } else {
                (Stage::Clone { paused: false }, Action::CloneFromParent)
            },
            Event::Failed(e) => (Stage::Finished, Action::Finish(Err(e))),
            _ => (Stage::Finished, Action::Abort),
        },
        Stage::PauseParent => match event {
            Event::Done => (Stage::Clone { paused: true }, Action::CloneFromParent),
            Event::Failed(e) => (Stage::Finished, Action::Finish(Err(e))),
            _ => (Stage::Finished, Action::Abort),
        },
        Stage::Clone { paused } => if paused {
            match event {
                Event::Cloned(m) => (Stage::UnpauseParent { outcome: CloneOutcome::Cloned(m) }, Action::UnpauseParent),
                Event::Failed(e) => (Stage::UnpauseParent { outcome: CloneOutcome::Failed(e) }, Action::UnpauseParent),
                _ => (Stage::UnpauseParent { outcome: CloneOutcome::Unexpected }, Action::UnpauseParent),
            }
        } else {
            match event {
                Event::Cloned(m) => after_clone_exec(kind, m),
                Event::Failed(e) => (Stage::Finished, Action::Finish(Err(e))),
                _ => (Stage::Finished, Action::Abort),
            }
        },
        Stage::UnpauseParent { outcome } => match event {
            Event::Done => match outcome {
                CloneOutcome::Cloned(m) => after_clone_exec(kind, m),
                CloneOutcome::Failed(e) => (Stage::Finished, Action::Finish(Err(e))),
                CloneOutcome::Unexpected => (Stage::Finished, Action::Abort),
            },
            Event::Failed(e) => (Stage::Finished, Action::Finish(Err(e))),
            _ => (Stage::Finished, Action::Abort),
        },
        Stage::Record => match event {
            Event::Done => match kind {
                FlowKind::Create => (Stage::StartContainer, Action::StartContainer),
                FlowKind::Reset { was_running } => if was_running {
                    (Stage::StartContainer, Action::StartContainer)
                } else {
                    (Stage::MarkStopped, Action::MarkStopped)
                },
            },
            Event::Failed(e) => (Stage::Finished, Action::Finish(Err(e))),
            _ => (Stage::Finished, Action::Abort),
        },
        Stage::StartContainer => match event {
            Event::Done => (Stage::WaitReady, Action::WaitReady),
            Event::Failed(e) => (Stage::Finished, Action::Finish(Err(e))),
            _ => (Stage::Finished, Action::Abort),
        },
        Stage::WaitReady => match event {
            Event::Done => (Stage::MarkRunning, Action::MarkRunning),
            Event::Failed(e) => (Stage::Finished, Action::Finish(Err(e))),
            _ => (Stage::Finished, Action::Abort),
        },
        Stage::MarkRunning | Stage::MarkStopped => match event {
            Event::Done => (Stage::Finished, Action::Finish(Ok(()))),
            Event::Failed(e) => (Stage::Finished, Action::Finish(Err(e))),
            _ => (Stage::Finished, Action::Abort),
        },
        Stage::Finished => (Stage::Finished, Action::Abort),
    };
    (Flow { kind, stage }, action)
}

/// Parent quiesce: a flow pauses the parent only after seeing it running, and
/// once the pause succeeded, the clone is followed by the unpause whatever the
/// clone's outcome; no stage after that pauses or unpauses again.
pub proof fn lemma_parent_quiesce(kind: FlowKind, stage: Stage, event: Event)
    ensures
        step_spec(kind, stage, event).1 is PauseParent ==> stage is InspectParent && event
            == Event::Status(ContainerStatus::Running),
        step_spec(kind, Stage::PauseParent, Event::Done) == (
        Stage::Clone { paused: true },
        Action::CloneFromParent,
        ),
        step_spec(kind, Stage::Clone { paused: true }, event).1 is UnpauseParent,
        step_spec(kind, stage, event).1 is UnpauseParent ==> stage == (Stage::Clone { paused: true }),
        step_spec(kind, stage, event).0 is InspectParent ==> stage is StopBranch,
{
}

/// The actions a flow takes from `stage` when handed `events` one by one.
pub open spec fn trace(kind: FlowKind, stage: Stage, events: Seq<Event>) -> Seq<Action>
    decreases events.len(),
{
    if events.len() == 0 {
        Seq::empty()
    } else {
        let (next, action) = step_spec(kind, stage, events[0]);
        seq![action] + trace(kind, next, events.drop_first())
    }
}

/// The action neither pauses nor unpauses the parent.
pub open spec fn leaves_parent(a: Action) -> bool {
    !(a is PauseParent) && !(a is UnpauseParent)
}

/// Stages from which the flow never touches the parent again.
pub open spec fn parent_settled(stage: Stage) -> bool {
    !(stage is StopBranch || stage is InspectParent || stage is PauseParent || stage == (Stage::Clone {
        paused: true,
    }))
}

proof fn lemma_settled_trace(kind: FlowKind, stage: Stage, events: Seq<Event>)
    requires
        parent_settled(stage),
    ensures
        trace(kind, stage, events).len() == events.len(),
        forall|i: int| 0 <= i < events.len() ==> leaves_parent(#[trigger] trace(kind, stage, events)[i]),
    decreases events.len(),
{
    if events.len() > 0 {
        let (next, action) = step_spec(kind, stage, events[0]);
        lemma_settled_trace(kind, next, events.drop_first());
        let t = trace(kind, stage, events);
        assert forall|i: int| 0 <= i < events.len() implies leaves_parent(#[trigger] t[i]) by {
            if i > 0 {
                assert(t[i] == trace(kind, next, events.drop_first())[i - 1]);
            }
        }
    }
}

/// Once the parent is paused for the clone, whatever the clone and the later
/// steps report, the very next action unpauses it, and no later action
/// pauses or unpauses it again: the parent is unpaused exactly once.
pub proof fn lemma_paused_parent_unpaused_once(kind: FlowKind, events: Seq<Event>)
    ensures
        trace(kind, Stage::Clone { paused: true }, events).len() == events.len(),
        events.len() > 0 ==> trace(kind, Stage::Clone { paused: true }, events)[0] is UnpauseParent,
        forall|i: int|
            1 <= i < events.len() ==> leaves_parent(#[trigger] trace(kind, Stage::Clone { paused: true }, events)[i]),
{
    if events.len() > 0 {
        let (next, action) = step_spec(kind, Stage::Clone { paused: true }, events[0]);
        lemma_settled_trace(kind, next, events.drop_first());
        let t = trace(kind, Stage::Clone { paused: true }, events);
        assert forall|i: int| 1 <= i < events.len() implies leaves_parent(#[trigger] t[i]) by {
            assert(t[i] == trace(kind, next, events.drop_first())[i - 1]);
        }
    }
}

/// A flow reports success only when its last step, marking the branch running
/// (or, for a reset of a stopped branch, stopped), succeeded; the branch is
/// marked running only after the readiness wait succeeded. A create never
/// marks its branch stopped.
pub proof fn lemma_success_requires_ready(kind: FlowKind, stage: Stage, event: Event)
    ensures
        step_spec(kind, stage, event).1 matches Action::Finish(Ok(_)) ==> (stage is MarkRunning
            || stage is MarkStopped) && event is Done,
        step_spec(kind, stage, event).0 is MarkRunning ==> stage is WaitReady && event is Done,
        step_spec(kind, stage, event).0 is WaitReady ==> stage is StartContainer && event is Done,
        kind == FlowKind::Create ==> !(step_spec(kind, stage, event).0 is MarkStopped),
{
}

/// A reset of a branch that was running ends by starting it and waiting for it
/// to be ready; never by marking it stopped.
pub proof fn lemma_reset_restores_running(stage: Stage, event: Event)
    ensures
        !(step_spec(FlowKind::Reset { was_running: true }, stage, event).0 is MarkStopped),
{
}

/// The name of the branch whose id is `id`: the first such in the list.
pub open spec fn name_of_id(branches: Seq<Branch>, id: Seq<char>) -> Option<Seq<char>>
    decreases branches.len(),
{
    if branches.len() == 0 {
        None
    } else if branches[0].id@ == id {
        Some(branches[0].name@)
    } else {
        name_of_id(branches.drop_first(), id)
    }
}

fn find_name(branches: &Vec<Branch>, id: &str) -> (r: Option<String>)
    ensures
        (match r {
            Some(n) => name_of_id(branches@, id@) == Some(n@),
            None => name_of_id(branches@, id@) is None,
        }),
{
    let mut i: usize = 0;
    proof {
        assert(branches@.subrange(0, branches@.len() as int) =~= branches@);
    }
    while i < branches.len()
        invariant
            i <= branches@.len(),
            name_of_id(branches@, id@) == name_of_id(branches@.subrange(i as int, branches@.len() as int), id@),
        decreases branches@.len() - i,
    {
        proof {
            assert(branches@.subrange(i as int, branches@.len() as int).drop_first() =~= branches@.subrange(
                i + 1,
                branches@.len() as int,
            ));
        }
        if str_eq(branches[i].id.as_str(), id) {
            return Some(branches[i].name.clone());
        }
        i += 1;
    }
    None
}

/// What a listing shows of each branch: its name, state and parent's name.
pub open spec fn listed_as(branches: Seq<Branch>, b: Branch, info: BranchInfo, db: Seq<char>) -> bool {
    &&& info.name == b.name
    &&& info.created_at is None
    &&& info.database_name@ == db
    &&& (info.state matches Some(s) && s@ == state_text(b.state))
    &&& (match b.parent_branch_id {
        Some(pid) => match name_of_id(branches, pid@) {
            Some(n) => info.parent_branch matches Some(p) && p@ == n,
            None => info.parent_branch is None,
        },
        None => info.parent_branch is None,
    })
}

/// Projects recorded branches to what a listing shows, resolving each
/// parent id to that branch's name.
pub fn branch_infos(branches: &Vec<Branch>, database_name: &str) -> (r: Vec<BranchInfo>)
    ensures
        r@.len() == branches@.len(),
        forall|i: int| 0 <= i < r@.len() ==> listed_as(branches@, branches@[i], #[trigger] r@[i], database_name@),
{
    let mut out: Vec<BranchInfo> = Vec::new();
    let mut i: usize = 0;
    while i < branches.len()
        invariant
            i <= branches@.len(),
            out@.len() == i,
            forall|j: int| 0 <= j < i ==> listed_as(branches@, branches@[j], #[trigger] out@[j], database_name@),
        decreases branches@.len() - i,
    {
        let b = &branches[i];
        let parent = match &b.parent_branch_id {
            Some(pid) => find_name(branches, pid.as_str()),
            None => None,
        };
        out.push(BranchInfo {
            name: b.name.clone(),
            created_at: None,
            parent_branch: parent,
            database_name: String::from_str(database_name),
            state: Some(String::from_str(b.state.as_str())),
        });
        i += 1;
    }
    out
}

/// The names of a project's branches, oldest first, from the store's listing
/// (newest first): what a destroy reports.
pub fn branch_names(branches: &Vec<Branch>) -> (r: Vec<String>)
    ensures
        r@.len() == branches@.len(),
        forall|i: int| 0 <= i < r@.len() ==> #[trigger] r@[i] == branches@[branches@.len() - 1 - i].name,
{
    let mut out: Vec<String> = Vec::new();
    let mut k: usize = branches.len();
    while k > 0
        invariant
            k <= branches@.len(),
            out@.len() == branches@.len() - k,
            forall|j: int| 0 <= j < out@.len() ==> #[trigger] out@[j] == branches@[branches@.len() - 1 - j].name,
        decreases k,
    {
        k -= 1;
        out.push(branches[k].name.clone());
    }
    out
}

fn named_error(kind: ErrorKind, what: &str, name: &str, tail: &str) -> (r: EngineError)
    ensures
        r.kind == kind,
{
    let mut v: Vec<char> = Vec::new();
    crate::text::append_chars(&mut v, what);
    crate::text::append_chars(&mut v, " '");
    crate::text::append_chars(&mut v, name);
    crate::text::append_chars(&mut v, "' ");
    crate::text::append_chars(&mut v, tail);
    EngineError { kind, message: crate::text::string_from_chars(&v) }
}

/// An operation on a named branch needs the branch: its absence is `NotFound`.
/// Deleting, starting, stopping, switching to or resetting a missing branch fails this way.
pub fn require_branch(found: Option<Branch>, name: &str) -> (r: Result<Branch, EngineError>)
    ensures
        (match found {
            Some(b) => r == Ok::<Branch, EngineError>(b),
            None => r matches Err(e) && e.kind == ErrorKind::NotFound,
        }),
{
    match found {
        Some(b) => Ok(b),
        None => Err(named_error(ErrorKind::NotFound, "Branch", name, "not found")),
    }
}

/// A ZFS-backed project needs its configuration and its root dataset: a
/// missing configuration is an internal error, a root dataset that is gone
/// makes the storage unavailable.
pub fn require_zfs_root(project_id: &str, config: Option<crate::storage::ZfsProjectConfig>, root_exists: bool) -> (r: Result<crate::storage::ZfsProjectConfig, EngineError>)
    ensures
        (match config {
            None => r matches Err(e) && e.kind == ErrorKind::Internal,
            Some(c) => if root_exists {
                r matches Ok(x) && x.root_dataset == c.root_dataset
            } else {
                r matches Err(e) && e.kind == ErrorKind::StorageUnavailable
            },
        }),
{
    match config {
        None => Err(named_error(ErrorKind::Internal, "project", project_id, "is missing its ZFS storage config")),
        Some(c) => if root_exists {
            Ok(c)
        } else {
            Err(named_error(ErrorKind::StorageUnavailable, "ZFS root dataset", c.root_dataset.as_str(), "is missing"))
        },
    }
}

} // verus!
