//! Standard-library support for the Clean Language WebAssembly backend:
//! list behaviours, a byte-addressed memory manager with reference counting,
//! and the instruction bodies of the runtime helper functions that the
//! compiler registers with its code generator.

pub mod list_behavior;
pub mod wasm;
pub mod body;
pub mod error;
pub mod codegen;
pub mod memory;
pub mod list_ops;
pub mod list_class;
pub mod json_class;
pub mod matrix_ops;
pub mod math_class;
pub mod list_advanced;
pub mod math_advanced;
pub mod matrix_literals;
pub mod method_style;
pub mod semantics;
pub mod machine;
pub mod list_runs;
