//! The names that most users of the interpreter need.

pub use crate::console::Console;
pub use crate::flags::Flags;
pub use crate::image::{Image, LoadError};
pub use crate::machine::{Status, VmError};
pub use crate::opcode::Opcode;
pub use crate::register::{MemMapReg, Register};
pub use crate::trap::Trap;
pub use crate::vm::VM;
