//! Building blocks for single-instruction tests of the EraVM: mocked memory and
//! storage that hold one value each, an explicit initial machine state, the
//! encoding of the instruction under test, and the schedule of a differential
//! step.

pub mod heap;
pub mod machine;
pub mod mock_array;
pub mod numeric;
pub mod opcode;
pub mod source;
pub mod step;
pub mod testkit;
pub mod world;
