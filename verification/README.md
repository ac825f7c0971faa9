# nervix-k8s-operator

A Kubernetes operator for Nervix clusters, whose decision logic is a Verus-verified
library.

- `src/` — the verified library:
  - `api` — the `NervixCluster` resource: spec, status, defaults, and the
    resource-level helpers (`name_any`, `namespace`, `controller_owner_ref`).
  - `objects` — the Kubernetes objects the operator writes and reads, as plain data
    with a mathematical view of each.
  - `manifests` — the Services, the StatefulSet (per mode), the pod startup script and
    the reported status, each proved equal to its specification.
  - `controller` — the initialization phase, the rollout check, pruning of
    local-access Services, and a reconcile pass as a state machine that issues one
    API call at a time and is handed back its result.
  - `laws` — proved properties that relate these: selectors match pod labels, the
    initial password reaches only the initializing pod, advertised addresses match
    the per-node Services, a pass scales up only after credentials are removed, and
    more.
  - `text` — decimal rendering of integers.
- `app/` — the program: the CRD with its serde/schema/kube derives, conversions to
  `k8s-openapi` objects, and the controller runtime that carries out the commands of
  each reconcile pass against the API server.
- `tests/` — tests of the library.
