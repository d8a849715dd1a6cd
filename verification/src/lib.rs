//! A verified driver for a small Kubernetes pod session.
//!
//! The library decides a fixed sequence of operations on a single pod:
//! create it, wait until it is running, fetch it, patch its active
//! deadline, list it by name, and delete it.  Every decision is made here,
//! on plain values, and is verified; the caller performs each requested
//! operation against a cluster and hands the outcome back as an event.

use vstd::prelude::*;

pub mod model;
pub mod session;

verus! {

/// The fixed parameters of one pod session.
pub struct Plan {
    /// Name of the pod to manage.
    pub pod_name: String,
    /// Name its single container must carry.
    pub container_name: String,
    /// Image of that container.
    pub image: String,
    /// Value the patch writes into `activeDeadlineSeconds`.
    pub active_deadline_seconds: i64,
    /// How many seconds to wait for the pod to reach the running state.
    pub wait_timeout_seconds: u64,
}

impl View for Plan {
    type V = model::PlanView;

    open spec fn view(&self) -> model::PlanView {
        model::PlanView {
            pod_name: self.pod_name@,
            container_name: self.container_name@,
            image: self.image@,
            active_deadline_seconds: self.active_deadline_seconds as int,
            wait_timeout_seconds: self.wait_timeout_seconds as int,
        }
    }
}

/// The plan the session runs by default: a pod named `blog` with one
/// container of the same name, a five second deadline written by the
/// patch, and fifteen seconds of patience for it to start running.
pub fn blog_plan() -> (p: Plan)
    ensures
        p@ == model::blog_plan_view(),
{
    Plan {
        pod_name: String::from_str("blog"),
        container_name: String::from_str("blog"),
        image: String::from_str("clux/blog:0.1.0"),
        active_deadline_seconds: 5,
        wait_timeout_seconds: 15,
    }
}

} // verus!
