//! Compiles arithmetic constraint programs, traced symbolically over a base field and its
//! degree-4 extension, into straight-line register bytecode for a bounded register file.

pub mod bank;
pub mod instruction;
pub mod liveness;
pub mod optimizer;
pub mod pool;
pub mod symbolic_expr_ef;
pub mod symbolic_expr_f;
pub mod symbolic_var_ef;
pub mod symbolic_var_f;
pub mod tracer;
