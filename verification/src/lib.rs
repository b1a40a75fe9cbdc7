//! A safety layer over a foreign, C-ABI code-generation toolkit.
//!
//! The crate models the toolkit's object graph with explicit ownership:
//! raw addresses enter through a single checked chokepoint ([`wrap_inner`]),
//! modules carry a two-state ownership flag, a builder lowers structured
//! control flow into basic blocks with branch/phi wiring, and a codegen
//! pipeline serializes a module, restricts its export surface and produces
//! an artifact together with the module's full symbol list.

pub mod codegen;
pub mod context;
pub mod error;
pub mod eval;
pub mod execution_engine;
pub mod handle;
pub mod instr;
pub mod ir;
pub mod jit;
pub mod link;
pub mod memory_buffer;
pub mod module;

pub use module::BasicBlock;
pub use module::Builder;
pub use module::InstrPhi;
pub use link::Build;
pub use codegen::Binary;
pub use codegen::Codegen;
pub use context::Context;
pub use error::Error;
pub use error::Message;
pub use memory_buffer::MemoryBuffer;
pub use execution_engine::ExecutionEngine;
pub use eval::EvalStatus;
pub use handle::wrap_inner;
pub use handle::Handle;
pub use jit::Jit;
pub use ir::AttributeIndex;
pub use ir::Const;
pub use ir::Fcmp;
pub use ir::Icmp;
pub use ir::Type;
pub use ir::TypeKind;
pub use ir::Value;
pub use ir::ValueKind;
pub use module::Func;
pub use module::FuncType;
pub use module::Module;
pub use module::OwnState;
