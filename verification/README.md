# nico

The decision logic of a data-centre infrastructure controller, as a verified library.

- `src/` holds the library. What a function promises is its `ensures`; `laws.rs` in
  `machine_creator/` and the `pub proof fn`s elsewhere state what holds across functions.
  - `addresses`, `text`, `ordered`: values that everything else is made of.
  - `forge`, `expected_machine`, `expected_machine_data`: expected machines, and the messages
    that carry them.
  - `exploration`, `exploration_metrics`, `machine_creator`: turning explored hosts into
    machines, under locks.
  - `rms_node_type`, `fabric_manager`: rack nodes, and the primary switch of a fabric.
  - `configuring`, `credentials`, `secure_boot`: switches, vault entries, secure boot.
  - `instrument`, `dhcp_metrics`, `scout_metrics`, `scout_mlx_metrics`: events with their
    metrics and log records.
  - `resource_store`: namespaced resources in memory.
  - `outside`: what is relied on of other crates, together with the map in `resource_store`.
- `app/` runs the library against databases, vaults and rack managers.
- `tests/` runs it against prepared answers.

Work that waits for a database or a service is a value: it names its next request, and
`resume` takes the answer.
