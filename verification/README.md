# spica_engine

An execution engine for state machines in the Amazon States Language, written in Verus.

Commands are dispatched to handlers, which emit events and further commands. What a command emits is
appended to a log as one batch, and the store is the fold of the events in the log. The library proves
that every handler does what its contract says, that the store stays in order, and that reading the log
again gives the rows of the store back.

The counter that generated names are drawn from is given back as far as the log stores what it named: it
stands past the number of every stored name, so that no stored name is drawn again. A number that was
drawn for a task whose activation is still a command is the exception: the log does not yet hold the task,
and a store that is read back may draw that number once more.

- `src/` is the verified library. It is a set of functions on values: the time, fresh ids and evaluated
  expressions come in as arguments.
- `app/` runs the library: the loops over a log, the clock, the seams for the evaluator of expressions and
  for the definitions, which whoever runs it supplies, and the trace.
- `tests/` tries the library on concrete values.
