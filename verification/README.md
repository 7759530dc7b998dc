# service_network

The pSN service network lets local workers (each serving a pRuntime) find
a broker over mDNS, route the pRuntime's outbound traffic through it, and
be reached through the broker's inbound HTTP server.

`src/` is the library, verified with Verus: configuration, what each peer
announces, the choice of the best broker, the broker's bookkeeping of local
workers (keepalives, lost and dead workers) and query routing, and the
local worker's runtime as a state machine. Calls into `rand`, `atoi`,
`urlparse` and `semver` stand behind the trusted items of
`src/thirdparty.rs`.

`app/` holds the two programs (`broker`, `worker`): mDNS, HTTP servers and
clients, the SOCKS server, the environment and the pRuntime RPC client. It
performs what the library decides.
