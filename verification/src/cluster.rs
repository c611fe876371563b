//! Bookkeeping of a cluster of worker executors: which ports each executor
//! listens on, and which executors have been stopped.
//!
//! Each operation returns the executors it acts on; the caller kills or
//! restarts those executors.

use vstd::prelude::*;
use std::collections::HashSet;

verus! {

broadcast use vstd::std_specs::hash::group_hash_axioms;

/// The ports of one worker executor of the cluster.
#[derive(Debug, Clone, Copy, PartialEq, Eq, Structural)]
pub struct WorkerExecutorPorts {
    pub http_port: u16,
    pub grpc_port: u16,
}

/// A cluster of worker executors, numbered from 0, some of which are stopped.
pub struct DockerWorkerExecutorCluster {
    worker_executors: Vec<WorkerExecutorPorts>,
    stopped_indices: HashSet<usize>,
}

/// The offset of executor `i` from the base ports: `i` taken as a 16-bit number.
pub open spec fn port_offset(i: int) -> int {
    i % 0x10000
}

/// Whether `p` are the ports of executor `i` of a cluster started from the
/// given base ports: each base port plus the executor's offset.
pub open spec fn ports_of_executor(p: WorkerExecutorPorts, base_http_port: u16, base_grpc_port: u16, i: int) -> bool {
    p.http_port == base_http_port + port_offset(i) && p.grpc_port == base_grpc_port + port_offset(i)
}

/// Whether each of `size` executors' ports, counted from `base`, is a port.
pub open spec fn ports_fit(base: u16, size: usize) -> bool {
    forall|i: int| 0 <= i < size ==> base + #[trigger] port_offset(i) <= u16::MAX
}

/// The stopped set after stopping executor `index`.
pub open spec fn after_stop(stopped: Set<usize>, index: usize) -> Set<usize> {
    stopped.insert(index)
}

/// The stopped set after starting executor `index`.
pub open spec fn after_start(stopped: Set<usize>, index: usize) -> Set<usize> {
    stopped.remove(index)
}

/// The indices `0..n`.
pub open spec fn index_range(n: nat) -> Set<usize> {
    Set::new(|i: usize| i < n)
}

/// A cluster as its ports and its stopped executors.
pub struct ClusterState {
    pub ports: Seq<WorkerExecutorPorts>,
    pub stopped: Set<usize>,
}

/// A call on a cluster: stopping or starting one executor, or killing or
/// restarting them all.
pub enum ClusterOp {
    Stop(usize),
    Start(usize),
    KillAll,
    RestartAll,
}

/// The cluster after one call. Only stopping and starting change it, and
/// only its stopped set.
pub open spec fn step(s: ClusterState, op: ClusterOp) -> ClusterState {
    match op {
        ClusterOp::Stop(i) => ClusterState { ports: s.ports, stopped: after_stop(s.stopped, i) },
        ClusterOp::Start(i) => ClusterState { ports: s.ports, stopped: after_start(s.stopped, i) },
        ClusterOp::KillAll => s,
        ClusterOp::RestartAll => s,
    }
}

/// The cluster after the calls `ops`, in order.
pub open spec fn run(s: ClusterState, ops: Seq<ClusterOp>) -> ClusterState
    decreases ops.len(),
{
    if ops.len() == 0 {
        s
    } else {
        step(run(s, ops.drop_last()), ops.last())
    }
}

/// Whether `ops` stop executor `i` and do not start it again afterwards.
pub open spec fn stopped_by(ops: Seq<ClusterOp>, i: usize) -> bool {
    exists|k: int|
        0 <= k < ops.len() && #[trigger] ops[k] == ClusterOp::Stop(i) && forall|j: int|
            k < j < ops.len() ==> #[trigger] ops[j] != ClusterOp::Start(i)
}

/// Whether every executor that `ops` stop is one of the first `n`.
pub open spec fn stops_within(ops: Seq<ClusterOp>, n: nat) -> bool {
    forall|k: int| 0 <= k < ops.len() ==> (#[trigger] ops[k] matches ClusterOp::Stop(i) ==> i < n)
}

impl View for DockerWorkerExecutorCluster {
    type V = ClusterState;

    open spec fn view(&self) -> ClusterState {
        ClusterState { ports: self.ports(), stopped: self.stopped() }
    }
}

impl DockerWorkerExecutorCluster {
    /// The ports of the executors, in order.
    pub closed spec fn ports(&self) -> Seq<WorkerExecutorPorts> {
        self.worker_executors@
    }

    /// The indices of the stopped executors.
    pub closed spec fn stopped(&self) -> Set<usize> {
        self.stopped_indices@
    }

    /// The number of executors.
    pub open spec fn spec_size(&self) -> nat {
        self.ports().len()
    }

    /// The indices of the executors that are not stopped.
    pub open spec fn started(&self) -> Set<usize> {
        index_range(self.spec_size()).difference(self.stopped())
    }

    /// Every stopped index names an executor of the cluster.
    pub open spec fn wf(&self) -> bool {
        &&& self.stopped().finite()
        &&& forall|i: usize| #[trigger] self.stopped().contains(i) ==> i < self.spec_size()
    }

    /// A cluster of `size` executors, executor `i` on ports
    /// `base_http_port + i` and `base_grpc_port + i` (with `i` taken as a
    /// 16-bit number), none of them stopped.
    pub fn new(size: usize, base_http_port: u16, base_grpc_port: u16) -> (r: Self)
        requires
            ports_fit(base_http_port, size),
            ports_fit(base_grpc_port, size),
        ensures
            r.wf(),
            r.spec_size() == size,
            forall|i: int|
                0 <= i < size ==> ports_of_executor(#[trigger] r.ports()[i], base_http_port, base_grpc_port, i),
            forall|i: int|
                0 <= i < size ==> #[trigger] r.ports()[i].http_port == base_http_port + i % 0x10000
                    && r.ports()[i].grpc_port == base_grpc_port + i % 0x10000,
            r.stopped() == Set::<usize>::empty(),
    {
        let mut worker_executors: Vec<WorkerExecutorPorts> = Vec::new();
        let mut i: usize = 0;
        while i < size
            invariant
                i <= size,
                ports_fit(base_http_port, size),
                ports_fit(base_grpc_port, size),
                worker_executors@.len() == i,
                forall|j: int|
                    0 <= j < i ==> ports_of_executor(#[trigger] worker_executors@[j], base_http_port, base_grpc_port, j),
            decreases size - i,
        {
            assert(base_http_port + port_offset(i as int) <= u16::MAX);
            assert(base_grpc_port + port_offset(i as int) <= u16::MAX);
            let offset: u16 = (i % 0x10000) as u16;
            let http_port: u16 = base_http_port + offset;
            let grpc_port: u16 = base_grpc_port + offset;
            worker_executors.push(WorkerExecutorPorts { http_port, grpc_port });
            i = i + 1;
        }
        let stopped_indices: HashSet<usize> = HashSet::new();
        DockerWorkerExecutorCluster { worker_executors, stopped_indices }
    }

    /// The number of executors.
    pub fn size(&self) -> (r: usize)
        ensures
            r == self.spec_size(),
    {
        self.worker_executors.len()
    }

    /// The ports of the executors, in order.
    pub fn executor_ports(&self) -> (r: &Vec<WorkerExecutorPorts>)
        ensures
            r@ == self.ports(),
    {
        &self.worker_executors
    }

    /// All indices `0..size` in order.
    fn all_indices(&self) -> (r: Vec<usize>)
        ensures
            r@.len() == self.spec_size(),
            forall|i: int| 0 <= i < r@.len() ==> #[trigger] r@[i] == i,
    {
        let n = self.worker_executors.len();
        let mut r: Vec<usize> = Vec::new();
        let mut i: usize = 0;
        while i < n
            invariant
                i <= n,
                n == self.spec_size(),
                r@.len() == i,
                forall|j: int| 0 <= j < i ==> #[trigger] r@[j] == j,
            decreases n - i,
        {
            r.push(i);
            i = i + 1;
        }
        r
    }

    /// The executors to kill when killing the whole cluster: every one, in
    /// order. The stopped set is left as it is.
    pub fn kill_all(&self) -> (r: Vec<usize>)
        ensures
            r@.len() == self.spec_size(),
            forall|i: int| 0 <= i < r@.len() ==> #[trigger] r@[i] == i,
    {
        self.all_indices()
    }

    /// The executors to restart when restarting the whole cluster: every one,
    /// in order. The stopped set is left as it is.
    pub fn restart_all(&self) -> (r: Vec<usize>)
        ensures
            r@.len() == self.spec_size(),
            forall|i: int| 0 <= i < r@.len() ==> #[trigger] r@[i] == i,
    {
        self.all_indices()
    }

    /// Stops executor `index`. Returns whether it must be killed now, which is
    /// when it was not stopped already.
    pub fn stop(&mut self, index: usize) -> (kill: bool)
        requires
            old(self).wf(),
            index < old(self).spec_size(),
        ensures
            final(self).wf(),
            final(self).ports() == old(self).ports(),
            final(self).stopped() == after_stop(old(self).stopped(), index),
            final(self)@ == step(old(self)@, ClusterOp::Stop(index)),
            kill == !old(self).stopped().contains(index),
    {
        if !self.stopped_indices.contains(&index) {
            self.stopped_indices.insert(index);
            true
        } else {
            false
        }
    }

    /// Starts executor `index`. Returns whether it must be restarted now, which
    /// is when it was stopped. An index outside the cluster is never stopped.
    pub fn start(&mut self, index: usize) -> (restart: bool)
        requires
            old(self).wf(),
        ensures
            final(self).wf(),
            final(self).ports() == old(self).ports(),
            final(self).stopped() == after_start(old(self).stopped(), index),
            final(self)@ == step(old(self)@, ClusterOp::Start(index)),
            restart == old(self).stopped().contains(index),
    {
        if self.stopped_indices.contains(&index) {
            self.stopped_indices.remove(&index);
            true
        } else {
            false
        }
    }

    /// The indices of the stopped executors, each once, in increasing order.
    pub fn stopped_indices(&self) -> (r: Vec<usize>)
        requires
            self.wf(),
        ensures
            r@.to_set() == self.stopped(),
            r@.no_duplicates(),
            forall|i: int, j: int| 0 <= i < j < r@.len() ==> r@[i] < r@[j],
    {
        self.collect_indices(true)
    }

    /// The indices of the executors that are not stopped, each once, in
    /// increasing order.
    pub fn started_indices(&self) -> (r: Vec<usize>)
        requires
            self.wf(),
        ensures
            r@.to_set() == self.started(),
            r@.no_duplicates(),
            forall|i: int, j: int| 0 <= i < j < r@.len() ==> r@[i] < r@[j],
    {
        self.collect_indices(false)
    }

    /// The indices `i < size` whose stopped state is `stopped`, in increasing order.
    fn collect_indices(&self, stopped: bool) -> (r: Vec<usize>)
        requires
            self.wf(),
        ensures
            forall|k: usize|
                #[trigger] r@.contains(k) <==> (k < self.spec_size() && self.stopped().contains(k)
                    == stopped),
            forall|i: int, j: int| 0 <= i < j < r@.len() ==> r@[i] < r@[j],
            r@.to_set() == (if stopped {
                self.stopped()
            } else {
                self.started()
            }),
            r@.no_duplicates(),
    {
        let n = self.worker_executors.len();
        let mut r: Vec<usize> = Vec::new();
        let mut i: usize = 0;
        while i < n
            invariant
                i <= n,
                n == self.spec_size(),
                forall|k: usize|
                    #[trigger] r@.contains(k) <==> (k < i && self.stopped().contains(k) == stopped),
                forall|a: int, b: int| 0 <= a < b < r@.len() ==> r@[a] < r@[b],
                forall|a: int| 0 <= a < r@.len() ==> r@[a] < i,
            decreases n - i,
        {
            let ghost before = r@;
            let is_stopped = self.stopped_indices.contains(&i);
            if is_stopped == stopped {
                r.push(i);
                assert(r@[r@.len() - 1] == i);
            }
            assert forall|k: usize| #[trigger] r@.contains(k) <==> (k < i + 1 && self.stopped().contains(k) == stopped) by {
                if r@.contains(k) && !before.contains(k) {
                    let w = choose|w: int| 0 <= w < r@.len() && r@[w] == k;
                    assert(w == before.len());
                }
                if before.contains(k) {
                    let w = choose|w: int| 0 <= w < before.len() && before[w] == k;
                    assert(r@[w] == k);
                }
                if k == i && is_stopped == stopped {
                    assert(r@[r@.len() - 1] == k);
                }
            }
            i = i + 1;
        }
        assert(r@.to_set() =~= (if stopped {
            self.stopped()
        } else {
            self.started()
        }));
        assert(r@.no_duplicates());
        r
    }
}

/// Every executor of a well-formed cluster is either stopped or started, and
/// none is both.
pub proof fn lemma_stopped_started_partition(c: &DockerWorkerExecutorCluster)
    requires
        c.wf(),
    ensures
        c.stopped().union(c.started()) == index_range(c.spec_size()),
        c.stopped().intersect(c.started()) == Set::<usize>::empty(),
{
    assert(c.stopped().union(c.started()) =~= index_range(c.spec_size()));
    assert(c.stopped().intersect(c.started()) =~= Set::<usize>::empty());
}

/// Starting an executor that was just stopped, when it had been running,
/// brings the stopped set back to what it was; and stopping an executor that
/// was just started, when it had been stopped, does the same.
pub proof fn lemma_start_undoes_stop(stopped: Set<usize>, index: usize)
    ensures
        !stopped.contains(index) ==> after_start(after_stop(stopped, index), index) == stopped,
        stopped.contains(index) ==> after_stop(after_start(stopped, index), index) == stopped,
{
    assert(!stopped.contains(index) ==> after_start(after_stop(stopped, index), index) =~= stopped);
    assert(stopped.contains(index) ==> after_stop(after_start(stopped, index), index) =~= stopped);
}

/// Stopping twice is stopping once, and starting twice is starting once; the
/// second call finds nothing to kill or restart.
pub proof fn lemma_stop_start_idempotent(stopped: Set<usize>, index: usize)
    ensures
        after_stop(after_stop(stopped, index), index) == after_stop(stopped, index),
        after_stop(stopped, index).contains(index),
        after_start(after_start(stopped, index), index) == after_start(stopped, index),
        !after_start(stopped, index).contains(index),
{
    assert(after_stop(after_stop(stopped, index), index) =~= after_stop(stopped, index));
    assert(after_start(after_start(stopped, index), index) =~= after_start(stopped, index));
}

/// Stopping or starting one executor and stopping or starting another can be
/// done in either order.
pub proof fn lemma_distinct_indices_commute(stopped: Set<usize>, i: usize, j: usize)
    requires
        i != j,
    ensures
        after_stop(after_start(stopped, i), j) == after_start(after_stop(stopped, j), i),
        after_stop(after_stop(stopped, i), j) == after_stop(after_stop(stopped, j), i),
        after_start(after_start(stopped, i), j) == after_start(after_start(stopped, j), i),
{
    assert(after_stop(after_start(stopped, i), j) =~= after_start(after_stop(stopped, j), i));
    assert(after_stop(after_stop(stopped, i), j) =~= after_stop(after_stop(stopped, j), i));
    assert(after_start(after_start(stopped, i), j) =~= after_start(after_start(stopped, j), i));
}

/// Stopping executor `index` of a cluster of `size` executors takes it out of
/// the started ones and leaves the others as they were; starting it puts it
/// back.
pub proof fn lemma_started_after_stop_start(stopped: Set<usize>, size: nat, index: usize)
    requires
        index < size,
    ensures
        index_range(size).difference(after_stop(stopped, index))
            == index_range(size).difference(stopped).remove(index),
        index_range(size).difference(after_start(stopped, index))
            == index_range(size).difference(stopped).insert(index),
{
    assert(index_range(size).difference(after_stop(stopped, index))
        =~= index_range(size).difference(stopped).remove(index));
    assert(index_range(size).difference(after_start(stopped, index))
        =~= index_range(size).difference(stopped).insert(index));
}

/// Whatever calls follow, the cluster keeps its executors and their ports,
/// so its size stays the size it was made with.
pub proof fn lemma_run_keeps_ports(s: ClusterState, ops: Seq<ClusterOp>)
    ensures
        run(s, ops).ports == s.ports,
        run(s, ops).ports.len() == s.ports.len(),
    decreases ops.len(),
{
    if ops.len() > 0 {
        lemma_run_keeps_ports(s, ops.drop_last());
    }
}

/// After any calls on a cluster with nothing stopped, executor `i` is stopped
/// exactly when some call stopped it and no later call started it; and when
/// the calls stop only executors of the cluster, every stopped index is one.
pub proof fn lemma_run_stopped(s: ClusterState, ops: Seq<ClusterOp>, i: usize)
    requires
        s.stopped == Set::<usize>::empty(),
    ensures
        run(s, ops).stopped.contains(i) <==> stopped_by(ops, i),
        stops_within(ops, s.ports.len()) && run(s, ops).stopped.contains(i) ==> i < s.ports.len(),
    decreases ops.len(),
{
    if ops.len() > 0 {
        let init = ops.drop_last();
        let last = ops.last();
        lemma_run_stopped(s, init, i);
        let n = ops.len() - 1;
        assert(ops[n] == last);
        if stopped_by(init, i) {
            let k = choose|k: int|
                0 <= k < init.len() && #[trigger] init[k] == ClusterOp::Stop(i) && forall|j: int|
                    k < j < init.len() ==> #[trigger] init[j] != ClusterOp::Start(i);
            assert(ops[k] == init[k]);
            if last != ClusterOp::Start(i) {
                assert forall|j: int| k < j < ops.len() implies #[trigger] ops[j] != ClusterOp::Start(i) by {
                    if j < n {
                        assert(ops[j] == init[j]);
                    }
                }
            }
        }
        if stopped_by(ops, i) {
            let k = choose|k: int|
                0 <= k < ops.len() && #[trigger] ops[k] == ClusterOp::Stop(i) && forall|j: int|
                    k < j < ops.len() ==> #[trigger] ops[j] != ClusterOp::Start(i);
            if k < n {
                assert(init[k] == ops[k]);
                assert forall|j: int| k < j < init.len() implies #[trigger] init[j] != ClusterOp::Start(i) by {
                    assert(init[j] == ops[j]);
                }
            }
        }
        if last == ClusterOp::Stop(i) {
            assert(ops[n] == ClusterOp::Stop(i));
        }
        if stops_within(ops, s.ports.len()) {
            assert forall|k: int| 0 <= k < init.len() implies (#[trigger] init[k] matches ClusterOp::Stop(j) ==> j < s.ports.len()) by {
                assert(init[k] == ops[k]);
            }
            lemma_run_keeps_ports(s, init);
        }
    }
}

} // verus!
