use golem::cluster::{DockerWorkerExecutorCluster, WorkerExecutorPorts};

#[test]
fn new_cluster_assigns_consecutive_ports() {
    let c = DockerWorkerExecutorCluster::new(3, 9000, 9100);
    assert_eq!(c.size(), 3);
    assert_eq!(
        c.executor_ports().clone(),
        vec![
            WorkerExecutorPorts { http_port: 9000, grpc_port: 9100 },
            WorkerExecutorPorts { http_port: 9001, grpc_port: 9101 },
            WorkerExecutorPorts { http_port: 9002, grpc_port: 9102 },
        ]
    );
    assert!(c.stopped_indices().is_empty());
    assert_eq!(c.started_indices(), vec![0, 1, 2]);
}

#[test]
fn new_cluster_up_to_the_last_port() {
    let c = DockerWorkerExecutorCluster::new(2, 65534, 0);
    assert_eq!(c.executor_ports()[1], WorkerExecutorPorts { http_port: 65535, grpc_port: 1 });
    let empty = DockerWorkerExecutorCluster::new(0, 65535, 65535);
    assert_eq!(empty.size(), 0);
    assert!(empty.started_indices().is_empty());
}

#[test]
fn ports_of_a_cluster_larger_than_the_port_range_wrap() {
    let c = DockerWorkerExecutorCluster::new(65538, 0, 0);
    assert_eq!(c.size(), 65538);
    assert_eq!(c.executor_ports()[65535], WorkerExecutorPorts { http_port: 65535, grpc_port: 65535 });
    assert_eq!(c.executor_ports()[65536], WorkerExecutorPorts { http_port: 0, grpc_port: 0 });
    assert_eq!(c.executor_ports()[65537], WorkerExecutorPorts { http_port: 1, grpc_port: 1 });
}

#[test]
fn stop_kills_once() {
    let mut c = DockerWorkerExecutorCluster::new(4, 1, 2);
    assert!(c.stop(2));
    assert!(!c.stop(2));
    assert_eq!(c.stopped_indices(), vec![2]);
    assert_eq!(c.started_indices(), vec![0, 1, 3]);
}

#[test]
fn start_restarts_only_stopped() {
    let mut c = DockerWorkerExecutorCluster::new(4, 1, 2);
    assert!(!c.start(1));
    assert!(!c.start(100));
    c.stop(1);
    c.stop(3);
    assert_eq!(c.stopped_indices(), vec![1, 3]);
    assert!(c.start(1));
    assert!(!c.start(1));
    assert_eq!(c.stopped_indices(), vec![3]);
    assert_eq!(c.started_indices(), vec![0, 1, 2]);
}

#[test]
fn stop_then_start_restores_state() {
    let mut c = DockerWorkerExecutorCluster::new(3, 10, 20);
    c.stop(0);
    let before = c.stopped_indices();
    assert!(c.stop(2));
    assert!(c.start(2));
    assert_eq!(c.stopped_indices(), before);
}

#[test]
fn kill_and_restart_all_cover_every_executor() {
    let mut c = DockerWorkerExecutorCluster::new(3, 10, 20);
    c.stop(1);
    assert_eq!(c.kill_all(), vec![0, 1, 2]);
    assert_eq!(c.restart_all(), vec![0, 1, 2]);
    assert_eq!(c.stopped_indices(), vec![1]);
}

#[test]
fn stopped_and_started_partition_the_cluster() {
    let mut c = DockerWorkerExecutorCluster::new(6, 10, 20);
    c.stop(5);
    c.stop(0);
    c.stop(3);
    let mut all = c.stopped_indices();
    all.extend(c.started_indices());
    all.sort();
    assert_eq!(all, vec![0, 1, 2, 3, 4, 5]);
}

#[test]
fn stopped_set_follows_the_last_stop_or_start() {
    let mut c = DockerWorkerExecutorCluster::new(5, 100, 200);
    c.stop(1);
    c.stop(3);
    c.kill_all();
    c.start(1);
    c.restart_all();
    c.stop(4);
    c.start(3);
    c.stop(3);
    c.start(0);
    assert_eq!(c.stopped_indices(), vec![3, 4]);
    assert_eq!(c.size(), 5);
    assert_eq!(c.executor_ports().len(), 5);
}
