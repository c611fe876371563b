use golem::benchmark::{ColdStartEchoMedium, WorkerId};
use golem::grpc::{ComponentId, Uuid};

#[test]
fn benchmark_name() {
    assert_eq!(ColdStartEchoMedium::<()>::name(), "cold-start-medium");
}

#[test]
fn no_workers_no_warmup() {
    assert!(ColdStartEchoMedium::<()>::warmup_plan(&vec![]).is_none());
}

#[test]
fn warmup_uses_first_component_and_worker_count() {
    let c1 = ComponentId(Uuid { high_bits: 1, low_bits: 2 });
    let c2 = ComponentId(Uuid { high_bits: 3, low_bits: 4 });
    let ids = vec![
        WorkerId { component_id: c1, worker_name: "w-1".to_string() },
        WorkerId { component_id: c2, worker_name: "w-2".to_string() },
        WorkerId { component_id: c1, worker_name: "w-3".to_string() },
    ];
    let plan = ColdStartEchoMedium::<()>::warmup_plan(&ids).unwrap();
    assert_eq!(plan.component_id, c1);
    assert_eq!(plan.worker_count, 3);
    assert_eq!(plan.name_prefix, "warmup-worker");
    let run = ColdStartEchoMedium::create(17u8);
    assert_eq!(run.config, 17);
}
