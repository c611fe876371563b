//! The cold-start benchmark of a medium-sized echo component: its name and
//! the warm-up it performs before being measured.

use vstd::prelude::*;
use vstd::string::*;
use crate::grpc::ComponentId;

verus! {

/// A worker: a component and the worker's name.
#[derive(Debug)]
pub struct WorkerId {
    pub component_id: ComponentId,
    pub worker_name: String,
}

/// The warm-up to run: start `worker_count` workers of `component_id`, whose
/// names start with `name_prefix`.
#[derive(Debug)]
pub struct WarmupPlan {
    pub component_id: ComponentId,
    pub worker_count: usize,
    pub name_prefix: String,
}

/// The cold-start benchmark of a medium echo component, with its run
/// configuration `C`.
pub struct ColdStartEchoMedium<C> {
    pub config: C,
}

impl<C> ColdStartEchoMedium<C> {
    /// The benchmark's name.
    pub fn name() -> (r: &'static str)
        ensures
            r@ == "cold-start-medium"@,
    {
        "cold-start-medium"
    }

    /// A benchmark run with `config`.
    pub fn create(config: C) -> (r: Self)
        ensures
            r.config == config,
    {
        ColdStartEchoMedium { config }
    }

    /// The warm-up before a measured iteration over `worker_ids`: as many
    /// other workers, named `warmup-worker..`, of the component of the first
    /// worker; none when there are no workers.
    pub fn warmup_plan(worker_ids: &Vec<WorkerId>) -> (r: Option<WarmupPlan>)
        ensures
            r is None <==> worker_ids@.len() == 0,
            r matches Some(p) ==> {
                &&& p.component_id == worker_ids@[0].component_id
                &&& p.worker_count == worker_ids@.len()
                &&& p.name_prefix@ == "warmup-worker"@
            },
    {
        if worker_ids.len() == 0 {
            None
        } else {
            Some(
                WarmupPlan {
                    component_id: worker_ids[0].component_id,
                    worker_count: worker_ids.len(),
                    name_prefix: String::from_str("warmup-worker"),
                },
            )
        }
    }
}

} // verus!
