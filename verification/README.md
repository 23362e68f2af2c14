# cloudflare-tunnel-operator

A Kubernetes operator that exposes Gateway API traffic through Cloudflare
tunnels. For each `CloudflareTunnel` object it creates (or finds) a Cloudflare
tunnel, points a CNAME at it for every listener hostname, removes the managed
DNS records no listener asks for any more, and applies the credentials Secret,
the cloudflared ConfigMap, the cloudflared Deployment and the Gateway that
serve the tunnel. On deletion it removes the DNS records and the tunnel.

## Layout

- `src/` is the library, written in Verus and verified:
  - `text` — operations on character windows (trim, split, lines, find,
    join) specified over `Seq<char>`;
  - `go_parser` — reads Go struct definitions (cloudflared's configuration
    structs) into descriptions of the Rust structs that mirror them;
  - `crd`, `cloudflared_config` — the data the operator reads and writes;
  - `resources` — builders of the owned Kubernetes objects, each with a
    predicate that states exactly what it builds;
  - `cloudflare` — the requests to the Cloudflare API and how their
    replies are read (URLs, queries, request bodies, CNAME planning,
    tunnel secrets and credentials);
  - `controller` — reconciliation and cleanup as state machines: each step
    takes the answer to the previous request and yields the next request,
    with proofs that every step keeps the machine's invariant and moves it
    forward. Cloudflare requests carry the API token of the tunnel's
    `credentialsRef` Secret when it names one, and a failed reconciliation
    records `Ready=False` with the error before it ends;
  - `laws` — properties relating several parts of the library.
- `app/` is the binary around it: command line, logging, the HTTP and
  Kubernetes clients, the serde/kube/schemars forms of the types, and the
  loop that performs the requests the state machines ask for.
- `tests/` exercises the library on concrete values.
