//! Kernel-agnostic internals of the message runtime that generated code relies
//! on: the sealed capability boundary, views over repeated and map fields,
//! field-default synthesis, and the gencode/runtime version gate.

pub mod integrated;
pub mod internal;
pub mod map;
pub mod proxied;
pub mod repeated;
pub mod version;
