# uxum

Core of a backend service framework, verified with Verus, and its runtime.

`src/` is the verified library. It takes decisions and computes values, and never waits, listens
or prints by itself:

* `handle` decides which stage of startup or shutdown comes next; `handle::laws` states what holds
  of whole runs.
* `lifecycle` has the context that lifecycle participants are called with.
* `probes` aggregates health sources, the runtime watchdog and maintenance mode, which all clones
  of a shared state switch together.
* `logging` queues and batches log messages on their way to a remote collector, and limits the rate of alerts
  about its own errors.
* `http_client` and `config` find configuration of HTTP clients, and decide about retries.
* `tls` and `spiffe_tls` turn configuration and certificates into what TLS sessions are set up
  from.
* `auth`, `behavior`, `layers`, `time` and `util` hold smaller types and functions.

`app/` is ordinary Rust around the library: asynchronous drivers, sockets, threads, signals, and
types that are read from configuration files.

`tests/` runs the library together with the crates that it depends on.
