//! A minimal backend that renders a typed SSA-like intermediate
//! representation (instructions grouped into functions grouped into a
//! program) as low-level imperative source text.

pub mod decimal;
pub mod decls;
pub mod instr;
pub mod ir;
pub mod mangle;
pub mod program;
pub mod text;
