//! The executable side of a pod session.
//!
//! [`init`] says where a session begins and what to do first; [`step`]
//! takes the reported outcome of each operation and answers with the
//! next phase and the next action.  Both are proved to follow the
//! transition function of [`crate::model`] exactly.

use crate::model;
use crate::Plan;
use vstd::prelude::*;

verus! {

/// Where a session stands.  `Patching` remembers the resource version
/// that the fetch reported, so that the patch can name it.
pub enum Phase {
    Creating,
    AwaitingRunning,
    Fetching,
    Patching { resource_version: Option<String> },
    Listing,
    Deleting,
    Done,
    Failed,
}

impl View for Phase {
    type V = model::PhaseView;

    open spec fn view(&self) -> model::PhaseView {
        match self {
            Phase::Creating => model::PhaseView::Creating,
            Phase::AwaitingRunning => model::PhaseView::AwaitingRunning,
            Phase::Fetching => model::PhaseView::Fetching,
            Phase::Patching { resource_version } => model::PhaseView::Patching {
                resource_version: resource_version.deep_view(),
            },
            Phase::Listing => model::PhaseView::Listing,
            Phase::Deleting => model::PhaseView::Deleting,
            Phase::Done => model::PhaseView::Done,
            Phase::Failed => model::PhaseView::Failed,
        }
    }
}

/// The outcome of one operation, as the caller reports it.
pub enum Event {
    /// The create returned the new pod carrying this name.
    Created { name: String },
    /// The create was rejected by the API server with this status code.
    CreateRejected { code: u16 },
    /// The create failed in any other way.
    CreateFailed,
    /// The pod was observed running within the allowed time.
    BecameRunning,
    /// The allowed time passed without the pod running.
    WaitTimedOut,
    /// The fetch returned the pod: its resource version, whether it has
    /// a spec, and if so the names of its containers.
    Fetched { resource_version: Option<String>, has_spec: bool, containers: Vec<String> },
    /// The fetch failed.
    FetchFailed,
    /// The patch returned the patched pod: whether it has a spec, and
    /// if so the active deadline it carries.
    Patched { has_spec: bool, active_deadline_seconds: Option<i64> },
    /// The patch failed.
    PatchFailed,
    /// The list returned these pod names.
    Listed { names: Vec<String> },
    /// The list failed.
    ListFailed,
    /// The delete began on the pod carrying this name.
    DeleteStarted { name: String },
    /// The delete was accepted with a plain status, the pod already gone.
    DeleteAccepted,
    /// The delete failed.
    DeleteFailed,
}

impl View for Event {
    type V = model::EventView;

    open spec fn view(&self) -> model::EventView {
        match self {
            Event::Created { name } => model::EventView::Created { name: name@ },
            Event::CreateRejected { code } => model::EventView::CreateRejected {
                code: *code as int,
            },
            Event::CreateFailed => model::EventView::CreateFailed,
            Event::BecameRunning => model::EventView::BecameRunning,
            Event::WaitTimedOut => model::EventView::WaitTimedOut,
            Event::Fetched { resource_version, has_spec, containers } => model::EventView::Fetched {
                resource_version: resource_version.deep_view(),
                has_spec: *has_spec,
                containers: containers.deep_view(),
            },
            Event::FetchFailed => model::EventView::FetchFailed,
            Event::Patched { has_spec, active_deadline_seconds } => model::EventView::Patched {
                has_spec: *has_spec,
                active_deadline_seconds: match active_deadline_seconds {
                    Some(d) => Some(*d as int),
                    None => None,
                },
            },
            Event::PatchFailed => model::EventView::PatchFailed,
            Event::Listed { names } => model::EventView::Listed { names: names.deep_view() },
            Event::ListFailed => model::EventView::ListFailed,
            Event::DeleteStarted { name } => model::EventView::DeleteStarted { name: name@ },
            Event::DeleteAccepted => model::EventView::DeleteAccepted,
            Event::DeleteFailed => model::EventView::DeleteFailed,
        }
    }
}

/// What the session asks the caller to do next.
pub enum Action {
    /// Create a pod of this name, with one container of this name and image.
    Create { pod_name: String, container_name: String, image: String },
    /// Wait up to `timeout_seconds` for the pod to be running.
    AwaitRunning { pod_name: String, timeout_seconds: u64 },
    /// Fetch the pod.
    Fetch { pod_name: String },
    /// Merge-patch the pod's active deadline, naming this resource version.
    ApplyPatch { pod_name: String, resource_version: Option<String>, active_deadline_seconds: i64 },
    /// List pods under this field selector.
    List { field_selector: String },
    /// Delete the pod.
    Delete { pod_name: String },
    /// Stop: the session is over, successfully or not.
    Halt { succeeded: bool },
}

impl View for Action {
    type V = model::ActionView;

    open spec fn view(&self) -> model::ActionView {
        match self {
            Action::Create { pod_name, container_name, image } => model::ActionView::Create {
                pod_name: pod_name@,
                container_name: container_name@,
                image: image@,
            },
            Action::AwaitRunning { pod_name, timeout_seconds } => model::ActionView::AwaitRunning {
                pod_name: pod_name@,
                timeout_seconds: *timeout_seconds as int,
            },
            Action::Fetch { pod_name } => model::ActionView::Fetch { pod_name: pod_name@ },
            Action::ApplyPatch { pod_name, resource_version, active_deadline_seconds } => model::ActionView::ApplyPatch {
                pod_name: pod_name@,
                resource_version: resource_version.deep_view(),
                active_deadline_seconds: *active_deadline_seconds as int,
            },
            Action::List { field_selector } => model::ActionView::List {
                field_selector: field_selector@,
            },
            Action::Delete { pod_name } => model::ActionView::Delete { pod_name: pod_name@ },
            Action::Halt { succeeded } => model::ActionView::Halt { succeeded: *succeeded },
        }
    }
}

/// The field selector that restricts a list to the one pod of interest.
pub fn field_selector(pod_name: &str) -> (r: String)
    ensures
        r@ == model::selector_for(pod_name@),
{
    let prefix = String::from_str("metadata.name=");
    prefix.concat(pod_name)
}

/// The terminal answer of a session that has failed.
fn fail() -> (r: (Phase, Action))
    ensures
        (r.0@, r.1@) == model::failure(),
{
    (Phase::Failed, Action::Halt { succeeded: false })
}

/// The terminal answer of a session that has finished its sequence.
fn succeed() -> (r: (Phase, Action))
    ensures
        (r.0@, r.1@) == model::success(),
{
    (Phase::Done, Action::Halt { succeeded: true })
}

/// Where a session under `plan` begins, and what it first asks for.
pub fn init(plan: &Plan) -> (r: (Phase, Action))
    ensures
        (r.0@, r.1@) == model::init(plan@),
{
    (
        Phase::Creating,
        Action::Create {
            pod_name: plan.pod_name.clone(),
            container_name: plan.container_name.clone(),
            image: plan.image.clone(),
        },
    )
}

/// One transition of the session: given the phase it stands at and the
/// reported outcome of the last action, the phase that follows and the
/// action to perform next, exactly as [`model::next`] says.
pub fn step(plan: &Plan, phase: Phase, event: Event) -> (r: (Phase, Action))
    ensures
        (r.0@, r.1@) == model::next(plan@, phase@, event@),
{
    match phase {
        Phase::Creating => match event {
            Event::Created { name } => {
                if name == plan.pod_name {
                    await_running(plan)
                } else {
                    fail()
                }
            },
            Event::CreateRejected { code } => {
                if code == model::HTTP_CONFLICT {
                    await_running(plan)
                } else {
                    fail()
                }
            },
            _ => fail(),
        },
        Phase::AwaitingRunning => match event {
            Event::BecameRunning => (
                Phase::Fetching,
                Action::Fetch { pod_name: plan.pod_name.clone() },
            ),
            _ => fail(),
        },
        Phase::Fetching => match event {
            Event::Fetched { resource_version, has_spec, containers } => {
                let spec_ok = if has_spec {
                    containers.len() > 0 && containers[0] == plan.container_name
                } else {
                    true
                };
                if spec_ok {
                    let named_version = clone_version(&resource_version);
                    (
                        Phase::Patching { resource_version },
                        Action::ApplyPatch {
                            pod_name: plan.pod_name.clone(),
                            resource_version: named_version,
                            active_deadline_seconds: plan.active_deadline_seconds,
                        },
                    )
                } else {
                    fail()
                }
            },
            _ => fail(),
        },
        Phase::Patching { .. } => match event {
            Event::Patched { has_spec, active_deadline_seconds } => {
                let deadline_ok = has_spec && match active_deadline_seconds {
                    Some(d) => d == plan.active_deadline_seconds,
                    None => false,
                };
                if deadline_ok {
                    (
                        Phase::Listing,
                        Action::List { field_selector: field_selector(plan.pod_name.as_str()) },
                    )
                } else {
                    fail()
                }
            },
            _ => fail(),
        },
        Phase::Listing => match event {
            Event::Listed { .. } => (
                Phase::Deleting,
                Action::Delete { pod_name: plan.pod_name.clone() },
            ),
            _ => fail(),
        },
        Phase::Deleting => match event {
            Event::DeleteStarted { name } => {
                if name == plan.pod_name {
                    succeed()
                } else {
                    fail()
                }
            },
            Event::DeleteAccepted => succeed(),
            _ => fail(),
        },
        Phase::Done => succeed(),
        Phase::Failed => fail(),
    }
}

/// The answer that moves a session past a successful create.
fn await_running(plan: &Plan) -> (r: (Phase, Action))
    ensures
        r.0@ == model::PhaseView::AwaitingRunning,
        r.1@ == (model::ActionView::AwaitRunning {
            pod_name: plan@.pod_name,
            timeout_seconds: plan@.wait_timeout_seconds,
        }),
{
    (
        Phase::AwaitingRunning,
        Action::AwaitRunning {
            pod_name: plan.pod_name.clone(),
            timeout_seconds: plan.wait_timeout_seconds,
        },
    )
}

/// A copy of an optional resource version.
fn clone_version(v: &Option<String>) -> (r: Option<String>)
    ensures
        r.deep_view() == v.deep_view(),
{
    match v {
        Some(s) => Some(s.clone()),
        None => None,
    }
}

/// Whether the session has finished its whole sequence.
pub fn is_done(phase: &Phase) -> (r: bool)
    ensures
        r == (phase@ is Done),
{
    match phase {
        Phase::Done => true,
        _ => false,
    }
}

/// Whether the session has failed.
pub fn is_failed(phase: &Phase) -> (r: bool)
    ensures
        r == (phase@ is Failed),
{
    match phase {
        Phase::Failed => true,
        _ => false,
    }
}

} // verus!
