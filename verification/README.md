# cudatrace

A tracer for CUDA programs, loaded with `LD_PRELOAD`: it intercepts CUDA runtime and
driver calls and writes one indented line per call, in the style
`name(args) = ret  /* time */`, with braces around calls that make nested calls.

- `src/` is the verified core: text and JSON formatting, the per-thread call stack that
  decides which trace lines are written, the bypass and function-graph window counters,
  the UVM ioctl decoder (parameter blocks to JSON), the symbol tables that pick a hook for
  a looked-up symbol, the tracefs control plans, and the settings read from the
  `LIB_CUDATRACE_*` variables.
- `app/` holds what needs the operating system: the exported `extern "C"` hooks, the
  thread-local state, clocks, file output and the tracefs control files.
- `tests/` exercises the library on concrete values.
