# apllodb-shared-components

Data structures shared by the crates of the apllodb workspace, written in Verus with their
contracts proved.

- `src/`: the verified library: names, sessions, SQL values and their comparison, expressions and
  their evaluation, record schemas and field lookup, table constraints, errors and the SQLSTATE
  catalogue. Calls into `bincode`, `fastrand` and `rand` stand behind small trusted wrappers whose
  doc comments say what is assumed of them.
- `tests/`: tests of the library.
- `app/`: what stays outside the verified library: the test logger (`env_logger`), fixtures built
  once per process (`once_cell`), and serde forms of values that cross process boundaries.
