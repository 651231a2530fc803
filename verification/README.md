# Scoped effects, verified

A Verus library of scoped effect handlers. Scoped layers (Bracket,
RefBracket, Catch, Local, RefLocal, Span) and the one-shot `Shift`
delimiter are elaborated into a small first-order effect language
(Reader, Except, Writer), whose meaning is the spec function
`program::run`. Every dispatcher and handler states, for every
environment and input, the outcome of the program it builds.

- `src/program.rs`: values, first-order functions, programs, `run`, the
  first-order handlers (`FoHandlers`, `handled_run`), and verified
  interpreters whose outputs equal `run` and `handled_run`.
- `src/scoped.rs`: the layer shapes, boundaries and carriers, and what
  each layer means when run.
- `src/scoped_dispatchers/`, `src/standard_scoped_handlers/`: the
  dispatchers and standard handlers.
- `src/span.rs`, `src/shift.rs`: the Span effect and its brands; the
  `Shift` effect and `run_shift`.
- `src/laws.rs`: the laws the library keeps, as proof functions.
- `tests/`: executable scenarios through the interpreter.
