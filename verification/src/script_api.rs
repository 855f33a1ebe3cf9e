//! Compiles a script API description into annotated Lua stubs.

pub mod emit;
pub mod laws;
pub mod model;
pub mod texts;
pub mod wrap;

pub use emit::{compile, compile_field, compile_function, compile_parameter, compile_return,
    compile_table};
pub use model::{CompileError, Failure, Type, Value};
pub use wrap::{is_well_wrapped, remainder_after, split_lines};
