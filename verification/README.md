# scrysynth

The core of a graph-native audiovisual instrument, verified with Verus: the
session graph and its edits, the ownership gate between user and agent, the
agent's request parser and approval flow, macros, scenes and variations,
hardware learn and live routing, the audio topology compiler and the
SuperCollider resource planner with the staged application of a plan
(and its rollback on failure), the decoding of OSC datagrams and the
encoding of plain OSC messages, the visual scene compiler and the visual
runtime protocol, and the runtime managers that keep the session in step
with both engines.

Layout:

- `src/` — the verified library. Real values are carried as IEEE-754 bit
  patterns; the arithmetic on them is supplied by the caller as closures.
- `tests/` — tests run against the compiled library.
- `app/` — the command-line program around it: session files (JSON),
  the SuperCollider engine over OSC/UDP, the visual runtime process and its
  JSON-lines protocol, the OSC input socket, MIDI port enumeration, the
  sequencer transport thread.
