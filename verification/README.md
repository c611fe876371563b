# golem

Decision logic of several Golem components, verified with Verus.

- `src/version.rs`: the CLI's check that it is not older than the template
  and worker servers; versions are compared with the `version-compare` crate.
- `src/grpc.rs`: validating a compilation request, classifying the
  compilation service's errors, and building the gRPC response.
- `src/cluster.rs`: the ports and the stopped set of a cluster of worker
  executors, with laws over any sequence of stops and starts.
- `src/benchmark.rs`: the name and warm-up plan of the cold-start benchmark.

`app/` holds the asynchronous side: awaiting servers and services, killing
and restarting executors, and converting URIs between `http` versions.
`tests/` runs the library on concrete values.
