# unity_test_runner

Runs the tests of a Unity project through an editor bridge, verified with Verus.

- `src/` is the verified library: the request and result model (`types`),
  character-level text operations (`text`), how bridge replies are read
  (`bridge`), what a request asks for (`scope`), the snapshot of a finished run
  (`snapshot`), the slot that admits one run at a time (`active`), the errors of
  storage and lookup steps (`storage`), the test run as a state machine (`run`),
  and the laws that hold across steps and calls (`laws`).
- `app/` carries out what the state machine asks for: it talks to the editor
  bridge, reads the clock and the cancellation channel, reports progress, and
  reads and writes the snapshot file as JSON.
- `tests/` exercises the library on concrete values.
