pub mod dtype;
pub mod shape;
pub mod storage;
pub mod tensor;
pub mod saved;
pub mod region;
pub mod arena;
pub mod adjoint_table;
pub mod text;
pub mod error;
pub mod device;
pub mod launch;
pub mod launcher;
pub mod attention;
pub mod elementwise;
pub mod matmul;
pub mod mlp;
pub mod norm;
pub mod runtime;
pub mod modules;
pub mod blas;
pub mod device_arena;
pub mod copy;
pub mod ptx;
pub mod syntax;
pub mod signature;
pub mod validate;
pub mod ops;
pub mod resolve;
pub mod codegen;
pub mod expand;
pub mod residual;
