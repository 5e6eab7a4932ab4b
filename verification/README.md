# beacon

beacon runs differentiable tensor programs on a fixed memory plan. A program is
written as an ordinary Rust function over `Tensor<T, S>` handles and marked
`#[differentiable]`; the attribute generates its forward pass, its backward pass,
the struct of values the forward pass saves for the backward pass, and the size of
the gradient buffer those values take.

The library (`src/`) is verified with Verus. It holds:

- the element types and their bit-level conversions (`dtype`), shapes (`shape`),
  typed tensor and saved-value handles (`tensor`, `saved`);
- the arena that lays out the weight, activation and gradient regions and bumps
  aligned allocations within them (`region`, `arena`, `device_arena`);
- the table of differentiable ops and their forward and backward launchers
  (`adjoint_table`);
- launch configuration and validation, the launch families of the kernels, the
  host launcher, devices, streams and copies (`launch`, `launcher`, `attention`,
  `elementwise`, `matmul`, `mlp`, `norm`, `runtime`, `device`, `modules`, `blas`,
  `copy`, `residual`, `ptx`, `error`);
- the attribute's decisions, over a plain model of the function's syntax
  (`syntax`): the signature check (`validate`), the tensor signature
  (`signature`), the op calls in the body (`ops`), their adjoint entries
  (`resolve`), the plan of the generated code (`codegen`) and the whole pipeline
  (`expand`).

`app/` is the unverified rim: it reads a parsed `syn` function into the syntax
model, asks the library what to do with it, and writes the plan out as Rust code
with `quote`; it also holds the `f32` conversions of the 8-bit float type and the
memory bytes of typed host data.

The runtime here is the host configuration: launches are checked and then
reported as unimplemented, since no GPU driver is linked.
