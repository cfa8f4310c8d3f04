# vm2_testkit

Building blocks for single-instruction differential tests of the EraVM, verified with
Verus.

- `src/numeric.rs`: 256-bit words, addresses, and the numbers that bytes stand for.
- `src/mock_array.rs`, `src/heap.rs`, `src/world.rs`: memory and storage that answer every
  read with one value.
- `src/source.rs`: drawing those values from fuzzer input.
- `src/opcode.rs`: instruction words, how they are put together and how they are read.
- `src/machine.rs`, `src/testkit.rs`: an explicit initial machine state, and the encoders
  for the instruction under test.
- `src/step.rs`: the schedule of a differential step, as a state machine that is told
  what the two machines answered.
- `app/`: the kit in terms of `primitive_types`, `zkevm_opcode_defs` and `arbitrary`, and
  the loop that drives a step over two interpreters.

What the outside crates do is stated in the contracts of the functions marked
`external_body`; everything else in `src/` is proved.
