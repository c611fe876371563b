//! Decision logic of several Golem components: the CLI's server version
//! check, the compilation service's gRPC request handling, the bookkeeping of
//! a cluster of worker executors, and the warm-up plan of a benchmark.

pub mod benchmark;
pub mod cluster;
pub mod grpc;
pub mod version;
