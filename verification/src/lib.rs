//! Lowers the linear instruction streams of a symbolic-expression
//! evaluator into calls against a native code generator, and wraps the
//! compiled result in a family of typed evaluation runners.
//!
//! The verified core models the stream with its own slot and instruction
//! types, translates it one instruction to one builder operation with the
//! order kept, checks the single-pass discipline the stream must obey,
//! and accounts for the buffer layouts the runners use. The code
//! generator itself is called through a narrow trusted boundary; scalar
//! values cross it as bit patterns that the generator reads as its own
//! floating-point numbers.

pub mod codegen;
pub mod config;
pub mod instructions;
pub mod layout;
pub mod runners;
pub mod slots;
pub mod validity;
pub mod values;

pub use codegen::{Artifact, CompileError, PersistError};
pub use config::Config;
pub use instructions::{GenOp, Instruction};
pub use runners::{
    compile, CompiledComplexRunner, CompiledRealRunner, CompiledSimdComplexRunner,
    CompiledSimdRealRunner, InterpretedComplexRunner, InterpretedRealRunner,
};
pub use slots::{BuiltinSymbol, EvalSlot, GenBuiltin, GenSlot, SlotClass};
pub use values::{ComplexBits, Number, RealBits};
