# brshtop

The core of a terminal system monitor in the style of bashtop, written in
Verus: every function of the library carries a contract that Verus proves.

- `src/` is the verified library: the layout of the CPU, memory, network
  and process boxes; the process list's selection; decoding of keyboard and
  mouse input; the named draw buffers; the configuration, its attributes
  and the reader of its file; the state the collectors keep (the
  collection queue and the decisions of the collector thread, the processor's usage and temperature histories and
  the reading of its sensors, the memory and swap figures with their
  shares and histories, the network statistics); the start-up screen; cursor moves, text
  effects and the other small formatters; and `laws.rs`, the properties
  that hold across functions.
- `tests/` runs the library on concrete inputs.
- `app/` is the program: it reads the configuration file and the keyboard,
  and prints what the library draws.
