# mondealy_splitter

An auto splitter for Mondealy that reads the variables of the game's
GameMaker runtime straight out of its memory.

- `src/` is the verified library (Verus): MurmurHash3 as the runtime uses it
  for variable names, the runtime's `CHashMap` lookup as a slot-by-slot
  probe, the fixed-size C strings names are stored in, the signatures and
  the scan-and-read steps that locate the runtime's globals, the layout of
  instances and the kinds of value a variable holds.
- `app/` is the auto splitter itself: it talks to the game through `asr`,
  performs the scans and memory reads the library asks for, and publishes
  the variables of the core object's instance as timer variables.
- `tests/` runs the library on concrete values.
