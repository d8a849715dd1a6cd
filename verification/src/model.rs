//! The mathematical model of a pod session.
//!
//! A session walks a fixed sequence of phases: create the pod, await it
//! running, fetch it, patch it, list it, delete it.  At every phase the
//! caller reports the outcome of the requested operation as an event;
//! [`next`] says which phase follows and which action the caller must
//! perform next.  One tolerated irregularity exists: a create that is
//! rejected because the pod already exists.  Every other unexpected
//! outcome fails the session at once, and a failed session stays failed.

use vstd::prelude::*;

verus! {

/// HTTP status code an API server answers with when a resource of the
/// requested name already exists.
pub const HTTP_CONFLICT: u16 = 409;

/// How many operations a session performs when every outcome is the
/// expected one: create, await running, fetch, patch, list, delete.
pub const SESSION_STEPS: usize = 6;

/// The fixed parameters of one pod session, as mathematical values.
pub struct PlanView {
    pub pod_name: Seq<char>,
    pub container_name: Seq<char>,
    pub image: Seq<char>,
    pub active_deadline_seconds: int,
    pub wait_timeout_seconds: int,
}

/// The parameters of the default session: a pod named `blog`, one
/// container of the same name running `clux/blog:0.1.0`, a deadline of
/// five seconds written by the patch, and fifteen seconds to wait for
/// the pod to run.
pub open spec fn blog_plan_view() -> PlanView {
    PlanView {
        pod_name: "blog"@,
        container_name: "blog"@,
        image: "clux/blog:0.1.0"@,
        active_deadline_seconds: 5,
        wait_timeout_seconds: 15,
    }
}

/// Where a session stands.  `Patching` remembers the resource version
/// that the fetch reported, so that the patch can name it.
pub enum PhaseView {
    Creating,
    AwaitingRunning,
    Fetching,
    Patching { resource_version: Option<Seq<char>> },
    Listing,
    Deleting,
    Done,
    Failed,
}

/// The outcome of one operation, as the caller reports it.
pub enum EventView {
    /// The create returned the new pod; `name` is the name it carries.
    Created { name: Seq<char> },
    /// The create was rejected by the API server with this status code.
    CreateRejected { code: int },
    /// The create failed in any other way.
    CreateFailed,
    /// The pod was observed running within the allowed time.
    BecameRunning,
    /// The allowed time passed without the pod running.
    WaitTimedOut,
    /// The fetch returned the pod: its resource version, whether it has
    /// a spec, and if so the names of its containers.
    Fetched { resource_version: Option<Seq<char>>, has_spec: bool, containers: Seq<Seq<char>> },
    /// The fetch failed.
    FetchFailed,
    /// The patch returned the patched pod: whether it has a spec, and
    /// if so the active deadline it carries.
    Patched { has_spec: bool, active_deadline_seconds: Option<int> },
    /// The patch failed.
    PatchFailed,
    /// The list returned these pod names.
    Listed { names: Seq<Seq<char>> },
    /// The list failed.
    ListFailed,
    /// The delete began; `name` is the name of the pod being deleted.
    DeleteStarted { name: Seq<char> },
    /// The delete was accepted with a plain status, the pod already gone.
    DeleteAccepted,
    /// The delete failed.
    DeleteFailed,
}

/// What the session asks the caller to do next.
pub enum ActionView {
    /// Create a pod of this name, with one container of this name and image.
    Create { pod_name: Seq<char>, container_name: Seq<char>, image: Seq<char> },
    /// Wait up to `timeout_seconds` for the pod to be running.
    AwaitRunning { pod_name: Seq<char>, timeout_seconds: int },
    /// Fetch the pod.
    Fetch { pod_name: Seq<char> },
    /// Merge-patch the pod's active deadline, naming this resource version.
    ApplyPatch { pod_name: Seq<char>, resource_version: Option<Seq<char>>, active_deadline_seconds: int },
    /// List pods under this field selector.
    List { field_selector: Seq<char> },
    /// Delete the pod.
    Delete { pod_name: Seq<char> },
    /// Stop: the session is over, successfully or not.
    Halt { succeeded: bool },
}

/// The field selector that restricts a list to the one pod of interest.
pub open spec fn selector_for(pod_name: Seq<char>) -> Seq<char> {
    "metadata.name="@ + pod_name
}

/// Whether `e` is an outcome the session tolerates at phase `s`.  At a
/// terminal phase no event is expected.  The tolerated outcomes are:
/// a create that returns a pod of the planned name, or is rejected with
/// the conflict code (the pod already existed); a pod observed running;
/// a fetch whose pod either has no spec or names the planned container
/// first; a patch whose pod carries the planned deadline; any list; and
/// a delete that begins on the planned pod or is accepted outright.
pub open spec fn accepted(p: PlanView, s: PhaseView, e: EventView) -> bool {
    match s {
        PhaseView::Creating => match e {
            EventView::Created { name } => name == p.pod_name,
            EventView::CreateRejected { code } => code == HTTP_CONFLICT as int,
            _ => false,
        },
        PhaseView::AwaitingRunning => e is BecameRunning,
        PhaseView::Fetching => {
            &&& e is Fetched
            &&& e->Fetched_has_spec ==> {
                &&& e->Fetched_containers.len() > 0
                &&& e->Fetched_containers[0] == p.container_name
            }
        },
        PhaseView::Patching { .. } => {
            &&& e is Patched
            &&& e->Patched_has_spec
            &&& e->Patched_active_deadline_seconds == Some(p.active_deadline_seconds)
        },
        PhaseView::Listing => e is Listed,
        PhaseView::Deleting => match e {
            EventView::DeleteStarted { name } => name == p.pod_name,
            EventView::DeleteAccepted => true,
            _ => false,
        },
        PhaseView::Done => false,
        PhaseView::Failed => false,
    }
}

/// The terminal answer of a session that has failed.
pub open spec fn failure() -> (PhaseView, ActionView) {
    (PhaseView::Failed, ActionView::Halt { succeeded: false })
}

/// The terminal answer of a session that has finished its sequence.
pub open spec fn success() -> (PhaseView, ActionView) {
    (PhaseView::Done, ActionView::Halt { succeeded: true })
}

/// Where a session under plan `p` begins, and what it first asks for.
pub open spec fn init(p: PlanView) -> (PhaseView, ActionView) {
    (
        PhaseView::Creating,
        ActionView::Create {
            pod_name: p.pod_name,
            container_name: p.container_name,
            image: p.image,
        },
    )
}

/// The transition of a session under plan `p`: given the phase `s` and
/// the reported outcome `e`, the phase that follows and the action the
/// caller must perform next.  An outcome that [`accepted`] tolerates
/// advances the sequence; any other fails the session at once; the two
/// terminal phases absorb every event.
pub open spec fn next(p: PlanView, s: PhaseView, e: EventView) -> (PhaseView, ActionView) {
    match s {
        PhaseView::Creating => if accepted(p, s, e) {
            (
                PhaseView::AwaitingRunning,
                ActionView::AwaitRunning {
                    pod_name: p.pod_name,
                    timeout_seconds: p.wait_timeout_seconds,
                },
            )
        } else {
            failure()
        },
        PhaseView::AwaitingRunning => if accepted(p, s, e) {
            (PhaseView::Fetching, ActionView::Fetch { pod_name: p.pod_name })
        } else {
            failure()
        },
        PhaseView::Fetching => if accepted(p, s, e) {
            (
                PhaseView::Patching { resource_version: e->Fetched_resource_version },
                ActionView::ApplyPatch {
                    pod_name: p.pod_name,
                    resource_version: e->Fetched_resource_version,
                    active_deadline_seconds: p.active_deadline_seconds,
                },
            )
        } else {
            failure()
        },
        PhaseView::Patching { .. } => if accepted(p, s, e) {
            (PhaseView::Listing, ActionView::List { field_selector: selector_for(p.pod_name) })
        } else {
            failure()
        },
        PhaseView::Listing => if accepted(p, s, e) {
            (PhaseView::Deleting, ActionView::Delete { pod_name: p.pod_name })
        } else {
            failure()
        },
        PhaseView::Deleting => if accepted(p, s, e) {
            success()
        } else {
            failure()
        },
        PhaseView::Done => success(),
        PhaseView::Failed => failure(),
    }
}

/// How far along its sequence a session at phase `s` has come; the two
/// terminal phases come after every working one.
pub open spec fn phase_index(s: PhaseView) -> int {
    match s {
        PhaseView::Creating => 0,
        PhaseView::AwaitingRunning => 1,
        PhaseView::Fetching => 2,
        PhaseView::Patching { .. } => 3,
        PhaseView::Listing => 4,
        PhaseView::Deleting => 5,
        PhaseView::Done => 6,
        PhaseView::Failed => 7,
    }
}

/// Whether a session at phase `s` still has work before it.
pub open spec fn live(s: PhaseView) -> bool {
    phase_index(s) < SESSION_STEPS as int
}

/// The phase a session under plan `p` reaches after the outcomes in
/// `events`, reported in order, starting from the beginning.
pub open spec fn run(p: PlanView, events: Seq<EventView>) -> PhaseView
    decreases events.len(),
{
    if events.len() == 0 {
        PhaseView::Creating
    } else {
        next(p, run(p, events.drop_last()), events.last()).0
    }
}

/// A tolerated outcome at a working phase advances the session exactly
/// one phase along its sequence, and never fails it.
pub proof fn lemma_accepted_event_advances(p: PlanView, s: PhaseView, e: EventView)
    requires
        live(s),
        accepted(p, s, e),
    ensures
        phase_index(next(p, s, e).0) == phase_index(s) + 1,
        next(p, s, e).0 !is Failed,
{
}

/// An outcome that is not tolerated at a working phase fails the
/// session at once: the session reports failure and halts.
pub proof fn lemma_unexpected_event_fails(p: PlanView, s: PhaseView, e: EventView)
    requires
        live(s),
        !accepted(p, s, e),
    ensures
        next(p, s, e) == failure(),
{
}

/// A finished session does not move again: whatever is reported at a
/// terminal phase, the phase stays what it was.
pub proof fn lemma_terminal_phase_stays(p: PlanView, s: PhaseView, e: EventView)
    requires
        !live(s),
    ensures
        next(p, s, e).0 == s,
{
}

/// Running one more event extends a run by one transition.
proof fn lemma_run_take_step(p: PlanView, events: Seq<EventView>, i: int)
    requires
        0 <= i < events.len(),
    ensures
        run(p, events.take(i + 1)) == next(p, run(p, events.take(i)), events[i]).0,
{
    assert(events.take(i + 1).drop_last() =~= events.take(i));
    assert(events.take(i + 1).last() == events[i]);
}

/// After `n` tolerated outcomes in a row, the session stands exactly
/// `n` phases along its sequence.
proof fn lemma_accepted_prefix_reaches(p: PlanView, events: Seq<EventView>, n: int)
    requires
        0 <= n <= events.len(),
        n <= SESSION_STEPS as int,
        forall|i: int|
            0 <= i < n ==> #[trigger] accepted(p, run(p, events.take(i)), events[i]),
    ensures
        phase_index(run(p, events.take(n))) == n,
    decreases n,
{
    if n == 0 {
        assert(events.take(0) =~= Seq::<EventView>::empty());
    } else {
        lemma_accepted_prefix_reaches(p, events, n - 1);
        lemma_run_take_step(p, events, n - 1);
        lemma_accepted_event_advances(p, run(p, events.take(n - 1)), events[n - 1]);
    }
}

/// A session whose every reported outcome is the tolerated one finishes
/// its whole sequence: after the six outcomes it stands at `Done`.
pub proof fn lemma_all_accepted_completes(p: PlanView, events: Seq<EventView>)
    requires
        events.len() == SESSION_STEPS as int,
        forall|i: int|
            0 <= i < events.len() ==> #[trigger] accepted(p, run(p, events.take(i)), events[i]),
    ensures
        run(p, events) == PhaseView::Done,
{
    lemma_accepted_prefix_reaches(p, events, SESSION_STEPS as int);
    assert(events.take(SESSION_STEPS as int) =~= events);
}

/// A session that has failed stays failed to the end of its events.
proof fn lemma_failed_stays_failed(p: PlanView, events: Seq<EventView>, j: int)
    requires
        0 <= j <= events.len(),
        run(p, events.take(j)) is Failed,
    ensures
        run(p, events) is Failed,
    decreases events.len() - j,
{
    if j == events.len() {
        assert(events.take(j) =~= events);
    } else {
        lemma_run_take_step(p, events, j);
        lemma_failed_stays_failed(p, events, j + 1);
    }
}

/// A session fails loudly at the first outcome it does not tolerate:
/// if at any working phase the reported outcome is unexpected, the
/// session ends failed, whatever is reported afterwards.
pub proof fn lemma_first_rejection_fails(p: PlanView, events: Seq<EventView>, i: int)
    requires
        0 <= i < events.len(),
        live(run(p, events.take(i))),
        !accepted(p, run(p, events.take(i)), events[i]),
    ensures
        run(p, events) is Failed,
{
    lemma_run_take_step(p, events, i);
    lemma_unexpected_event_fails(p, run(p, events.take(i)), events[i]);
    lemma_failed_stays_failed(p, events, i + 1);
}

} // verus!
