# definition_provider

A service that hands out versioned definitions (categories and their
attributes) kept in a Git repository, over an AMQP API, and keeps publishing
the latest definition.

- `src/` is the verified library (Verus): deciding what a request asks for
  and how it is answered, fetching a definition at a version, reading and
  checking a definition from a local copy of the repository, naming each
  storage dispatcher's copy, and the state machine that publishes the latest
  definition and retries or shuts down on failures.
- `app/` is the program around it: configuration, AMQP registration, the
  asynchronous loops, channels, timers and logging.
- `tests/` runs the library on concrete values.
