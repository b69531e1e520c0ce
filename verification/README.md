# spv

spv is a terminal-based tool to monitor running processes: it shows the CPU usage and the disk
I/O of each process, over time.

## Layout

- `src/` is the library, verified with Verus: every function states its behaviour in
  `requires` / `ensures` clauses, and the properties that relate several functions are proof
  functions named `law_*`.
  - `procfs/`: parsing of the `/proc` files (`parsers/`), the CPU usage bookkeeping (`cpu`), the
    rates of accumulative counters (`rates`), the discovery of processes (`scanner`), and the
    limit of files kept open.
  - `process`, `collection`, `iteration`, `time`: the processes seen running, the metrics
    collected for them, and the spans of time they are displayed over.
  - `ctrl/`, `ordering`, `input`: how the user inputs change what is displayed, and how the
    processes are sorted.
  - `probe`, `triggers`: the decisions of the threads that probe processes and emit the events
    of the application, such as the pulse that drives it without drifting.
  - `labels`, `layout`, `values`, `metrics`, `decimal`, `text`: text and screen helpers.
- `app/` is the program around the library: the reading of files, the threads, the terminal and
  the floating-point computations of percentages and rates.
- `tests/` runs the library on concrete values.
