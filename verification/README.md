# ironbird-core

The core of the ironbird simulation framework, verified with Verus.

Signals travel between simulation components as type-erased messages over
named bus channels. Each channel is made for one signal type and keeps its
latest and previous message; the bus finds channels by id. Components
declare typed input and output ports and record which ports are wired
together.

Layout:

- `src/` — the verified library: messages and message specs (`message`),
  channels (`channel`), the bus (`bus`), ports (`port`), components and
  their connection tables (`component`), step and simulation contexts
  (`sim_context`), state vectors (`types`), project records (`project`),
  errors (`error`), and the trusted boundary to `std::any` (`erased`) and
  `chrono` (`time`).
- `tests/` — tests run against the compiled library.
- `app/` — plain Rust around the library: the process-wide component
  counter, clock arithmetic, floating-point signals and the example
  pendulum and PD controller, the serde schema of `.ibd` project files, and
  `anyhow` error reporting.
