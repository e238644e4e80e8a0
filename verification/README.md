# duckhub

The decision logic of the DuckHub data platform as a library verified with
Verus, and a web API server around it.

- `src/` is the library. Every function in it is verified against its
  `requires`/`ensures` contract: SQL sanitising and analysis, number and size
  formatting, request validation, configuration defaults and checks, the
  authentication middleware's decisions, accounts and token claims, role
  permissions, the ingestion service's life cycle, sources and scheduler, data
  cleaning and validation pipelines, health and alert evaluation, query
  optimisation, the SQL of window-function, time-series and complex analyses,
  the table catalog, DuckLake metrics sampling, the command-line client's
  history, export rules and DuckLake commands, the database connectors'
  addresses, and more.
  Calls into other crates (chrono, uuid, md5, regex, rand, validator,
  num_cpus) and a few parts of std go through small trusted wrappers whose
  contracts state only what those crates document.
- `tests/` runs the library on concrete values.
- `app/` is the server: configuration loading (and the ingestion settings
  files), JWT signing, Prometheus metrics, system readings through
  `sysinfo`, the scheduler's timer and the HTTP routes, each of which hands
  plain values to the library.

Percentages, sizes and other fractional figures are held as integers in
hundredths (or tenths) inside the library; the server turns them into numbers
when it answers.
