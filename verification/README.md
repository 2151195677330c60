# effigy_runner

The logic of the `effigy` task runner's commands, verified with Verus.

Each command's decisions, reports and texts live in `src/` with contracts
that state what they answer; what only the operating system or another
service can do (reading and writing files, running processes, encoding
JSON of report values) is handed in as closures or done by `app/`.

- `src/text.rs`, `src/paths.rs`: string and path operations the rest is
  stated over.
- `src/mounts.rs`, `src/compose.rs`, `src/runtime_prep.rs`: compose files
  (read from their YAML), bind mounts, and the ordered stages that prepare a
  container runtime for a task.
- `src/deferral.rs`: handing a request the runner cannot run to a deferred
  command, on the host or in the workspace container.
- `src/deploy/`: the deployment model, provider exports, plans, applies,
  reports and history.
- `src/deps.rs`: the reports of linking local libraries into Cargo and Bun
  dependencies, and their exit behaviour.
- `src/demo.rs`: the demo reports, block by block, and the demo commands'
  decisions.
- `src/db_seed.rs`: database seed prompts, staging and the seed task.
- `src/distribution.rs`, `src/cargo_manifest.rs`, `src/docs.rs`,
  `src/docs_check.rs`, `src/doctor.rs`: release checks (with the package
  tables read from `Cargo.toml`), documentation context reports and checks,
  and the doctor's exit behaviour.
- `app/`: file-system work, interactive prompts, process probes and JSON
  copies of report values.
