# Modular rack: verified control library

A browser modular synthesizer splits into a realtime audio engine and a UI
that talk through compact binary messages. This crate is the part of it that
decides things on integers, written in Verus with its behaviour stated in
contracts and proved:

- `wire`, `messages`, `plan`, `meters`: the little-endian wire formats
  (control records, execution plans, meter snapshots), with round-trip and
  rejection laws.
- `modules`: the module catalogue (kinds, ids, serial and display names,
  ports).
- `executor`, `engine`, `buffer`: plan validation and slot bookkeeping
  across live plan swaps, message dispatch, block splitting, scope
  decimation, and the polyphonic channel rules.
- `units`: the integer state machines of the modules — clock division,
  Euclidean and Turing patterns, sequencers, switches, voice allocation,
  the arpeggiator, the quantizer's scale search, envelope stages, bursts.
- `keyboard`, `midi`, `link`, `history`, `selection`, `theme`, `readout`:
  the UI-side control path (computer keyboard and MIDI input, the message
  queue, undo/redo, selection, themes, readouts).

`app/` holds part of the floating-point signal processing around it (the
oscillator, filter, amplifier, envelope, LFO, mixer, output and clock, and
the sample side of the sequencing and utility modules: 31 of the 92 module
kinds; the other kinds' slots stay silent there) and the engine loop; it
calls the library for every decision and is not verified. The browser UI,
audio start-up, Web MIDI start-up and patch storage are not part of it.

`tests/` runs the library on concrete values.
