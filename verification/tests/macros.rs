use beacon::codegen::{ArgPlan, Extent, Family, Method, Operand, OutName, SavedShape};
use beacon::expand::{expand, Expanded};
use beacon::launcher::KernelArg;
use beacon::matmul::MatmulLaunch;
use beacon::norm::RmsNormLaunch;
use beacon::ops::{collect_ops, OpDest, OpSite};
use beacon::resolve::resolve_ops;
use beacon::runtime::Launcher;
use beacon::error::LaunchError;
use beacon::signature::{extract, Dim};
use beacon::syntax::{
    ArgsSyntax, ConstExprSyntax, ExprKind, ExprSyntax, FnInput, FnSyntax, GenericArgSyntax,
    PatSyntax, PathSyntax, SegmentSyntax, StmtSyntax, TypeSyntax, BlockSyntax, CALL_SITE,
};
use beacon::validate::check_signature;

/// Builds syntax trees, numbering their nodes from 1 in the order they are made.
struct Src {
    next: usize,
}

impl Src {
    fn new() -> Src {
        Src { next: 1 }
    }

    fn node(&mut self) -> usize {
        let n = self.next;
        self.next += 1;
        n
    }

    fn seg(&mut self, ident: &str, args: ArgsSyntax) -> SegmentSyntax {
        SegmentSyntax { ident: ident.to_string(), span: self.node(), args }
    }

    fn path(&mut self, ident: &str) -> PathSyntax {
        PathSyntax { leading_colon: false, segments: vec![self.seg(ident, ArgsSyntax::Empty)] }
    }

    fn named_ty(&mut self, ident: &str) -> TypeSyntax {
        let path = self.path(ident);
        TypeSyntax::Path { path, span: self.node() }
    }

    fn dim(&mut self, d: &str) -> GenericArgSyntax {
        if d.chars().all(|c| c.is_ascii_digit()) {
            GenericArgSyntax::Const(ConstExprSyntax::Int { digits: d.to_string(), span: self.node() })
        } else {
            GenericArgSyntax::Type(self.named_ty(d))
        }
    }

    fn tensor(&mut self, dtype: &str, shape: &str, dims: &[&str]) -> TypeSyntax {
        let dim_args: Vec<GenericArgSyntax> = dims.iter().map(|d| self.dim(d)).collect();
        let shape_seg = self.seg(shape, ArgsSyntax::Angle(dim_args));
        let shape_ty = TypeSyntax::Path {
            path: PathSyntax { leading_colon: false, segments: vec![shape_seg] },
            span: self.node(),
        };
        let dtype_ty = self.named_ty(dtype);
        let seg = self.seg(
            "Tensor",
            ArgsSyntax::Angle(vec![GenericArgSyntax::Type(dtype_ty), GenericArgSyntax::Type(shape_ty)]),
        );
        TypeSyntax::Path { path: PathSyntax { leading_colon: false, segments: vec![seg] }, span: self.node() }
    }

    fn f32_2d(&mut self, a: &str, b: &str) -> TypeSyntax {
        self.tensor("F32", "S2", &[a, b])
    }

    fn ident(&mut self, name: &str) -> ExprSyntax {
        let path = self.path(name);
        ExprSyntax { kind: ExprKind::Path { path }, span: self.node() }
    }

    fn call(&mut self, f: &str, args: Vec<ExprSyntax>) -> ExprSyntax {
        let func = self.ident(f);
        ExprSyntax { kind: ExprKind::Call { func: Box::new(func), args }, span: self.node() }
    }

    fn call_idents(&mut self, f: &str, args: &[&str]) -> ExprSyntax {
        let args: Vec<ExprSyntax> = args.iter().map(|a| self.ident(a)).collect();
        self.call(f, args)
    }

    fn typed_let(&mut self, name: &str, ty: TypeSyntax, init: ExprSyntax) -> StmtSyntax {
        let inner = PatSyntax::Ident { name: name.to_string(), span: self.node() };
        let pat = PatSyntax::Typed { pat: Box::new(inner), ty, span: self.node() };
        StmtSyntax::Local { pat, init: Some(init), span: self.node() }
    }

    fn untyped_let(&mut self, name: &str, init: ExprSyntax) -> StmtSyntax {
        let pat = PatSyntax::Ident { name: name.to_string(), span: self.node() };
        StmtSyntax::Local { pat, init: Some(init), span: self.node() }
    }

    fn input(&mut self, name: &str, ty: TypeSyntax) -> FnInput {
        FnInput::Typed { pat: PatSyntax::Ident { name: name.to_string(), span: self.node() }, ty }
    }

    fn func(
        &mut self,
        name: &str,
        inputs: Vec<FnInput>,
        output: Option<TypeSyntax>,
        stmts: Vec<StmtSyntax>,
    ) -> FnSyntax {
        FnSyntax {
            ident: name.to_string(),
            ident_span: self.node(),
            asyncness: None,
            constness: None,
            variadic: None,
            inputs,
            output,
            block: BlockSyntax { stmts },
            span: self.node(),
        }
    }
}

fn tail(expr: ExprSyntax) -> StmtSyntax {
    StmtSyntax::Expr { expr }
}

/// `fn <name>(x: u32) -> u32 { x }` with the given qualifiers changed by `edit`.
fn u32_fn(src: &mut Src) -> FnSyntax {
    let ty = src.named_ty("u32");
    let x = src.input("x", ty);
    let out = src.named_ty("u32");
    let body = src.ident("x");
    src.func("block", vec![x], Some(out), vec![tail(body)])
}

/// The `gate` function of the generated-code examples: a linear layer, then rmsnorm.
fn gate_fn(src: &mut Src, n: &str) -> FnSyntax {
    let tx = src.f32_2d(n, n);
    let tw = src.f32_2d(n, n);
    let tw2 = src.f32_2d(n, n);
    let inputs = vec![src.input("x", tx), src.input("w", tw), src.input("w2", tw2)];
    let out = src.f32_2d(n, n);
    let th = src.f32_2d(n, n);
    let lin = src.call_idents("linear", &["x", "w"]);
    let l = src.typed_let("h", th, lin);
    let rms = src.call_idents("rmsnorm", &["h", "w2"]);
    src.func("gate", inputs, Some(out), vec![l, tail(rms)])
}

#[test]
fn accepts_typed_fn_with_return() {
    let mut src = Src::new();
    let tx = src.f32_2d("8", "8");
    let tw = src.f32_2d("8", "8");
    let inputs = vec![src.input("x", tx), src.input("w", tw)];
    let out = src.f32_2d("8", "8");
    let body = src.ident("x");
    let f = src.func("block", inputs, Some(out), vec![tail(body)]);
    assert!(check_signature(&f).is_ok());
}

#[test]
fn rejects_async() {
    let mut src = Src::new();
    let mut f = u32_fn(&mut src);
    f.asyncness = Some(src.node());
    assert!(check_signature(&f).is_err());
}

#[test]
fn rejects_const() {
    let mut src = Src::new();
    let mut f = u32_fn(&mut src);
    f.constness = Some(src.node());
    assert!(check_signature(&f).is_err());
}

#[test]
fn rejects_no_inputs() {
    let mut src = Src::new();
    let mut f = u32_fn(&mut src);
    f.inputs.clear();
    assert!(check_signature(&f).is_err());
}

#[test]
fn rejects_unit_return() {
    let mut src = Src::new();
    let mut f = u32_fn(&mut src);
    f.output = None;
    assert!(check_signature(&f).is_err());
}

#[test]
fn rejects_explicit_unit_return() {
    let mut src = Src::new();
    let mut f = u32_fn(&mut src);
    f.output = Some(TypeSyntax::Tuple { len: 0, span: src.node() });
    assert!(check_signature(&f).is_err());
}

#[test]
fn rejects_receiver() {
    let mut src = Src::new();
    let mut f = u32_fn(&mut src);
    f.inputs.insert(0, FnInput::Receiver { span: src.node() });
    assert!(check_signature(&f).is_err());
}

#[test]
fn signature_checks_come_in_order_with_their_texts() {
    let mut src = Src::new();
    let mut f = u32_fn(&mut src);
    f.asyncness = Some(90);
    f.constness = Some(91);
    let e = check_signature(&f).unwrap_err();
    assert_eq!((e.span, e.message.as_str()), (90, "#[differentiable] functions cannot be async"));
    f.asyncness = None;
    let e = check_signature(&f).unwrap_err();
    assert_eq!((e.span, e.message.as_str()), (91, "#[differentiable] functions cannot be const"));
    f.constness = None;
    f.variadic = Some(92);
    let e = check_signature(&f).unwrap_err();
    assert_eq!(e.message, "#[differentiable] functions cannot be variadic");
    f.variadic = None;
    f.inputs.push(FnInput::Receiver { span: 93 });
    let e = check_signature(&f).unwrap_err();
    assert_eq!(
        (e.span, e.message.as_str()),
        (93, "#[differentiable] functions must be free functions (no `self`)")
    );
    f.inputs.pop();
    f.output = Some(TypeSyntax::Tuple { len: 0, span: 94 });
    let e = check_signature(&f).unwrap_err();
    assert_eq!((e.span, e.message.as_str()), (94, "#[differentiable] functions must return a tensor, not ()"));
    f.output = Some(TypeSyntax::Tuple { len: 2, span: 95 });
    assert!(check_signature(&f).is_ok());
}

#[test]
fn extracts_literal_shapes() {
    let mut src = Src::new();
    let tx = src.tensor("F32", "S2", &["512", "768"]);
    let tw = src.tensor("Fp8E4M3", "S2", &["768", "768"]);
    let inputs = vec![src.input("x", tx), src.input("w", tw)];
    let out = src.tensor("F32", "S2", &["512", "768"]);
    let body = src.ident("x");
    let f = src.func("gate", inputs, Some(out), vec![tail(body)]);
    let sig = extract(&f).unwrap();
    assert_eq!(sig.name, "gate");
    assert_eq!(sig.params.len(), 2);
    assert_eq!(sig.params[0].name, "x");
    assert_eq!(sig.params[0].tensor.dtype, "F32");
    assert_eq!(sig.params[0].tensor.shape.dims, vec![Dim::Lit(512), Dim::Lit(768)]);
    assert_eq!(sig.params[0].tensor.numel_if_const(), Some(512 * 768));
    assert_eq!(sig.params[1].tensor.dtype, "Fp8E4M3");
    assert_eq!(sig.output.numel_if_const(), Some(512 * 768));
}

#[test]
fn extracts_const_generic_dims() {
    let mut src = Src::new();
    let tx = src.tensor("Bf16", "S3", &["B", "S", "D"]);
    let x = src.input("x", tx);
    let out = src.tensor("Bf16", "S3", &["B", "S", "D"]);
    let body = src.ident("x");
    let f = src.func("block", vec![x], Some(out), vec![tail(body)]);
    let sig = extract(&f).unwrap();
    let names: Vec<String> = sig.params[0]
        .tensor
        .shape
        .dims
        .iter()
        .map(|d| match d {
            Dim::Const(i) => i.to_string(),
            Dim::Lit(n) => n.to_string(),
        })
        .collect();
    assert_eq!(names, vec!["B", "S", "D"]);
    assert_eq!(sig.params[0].tensor.numel_if_const(), None);
}

#[test]
fn extracts_s4() {
    let mut src = Src::new();
    let tq = src.tensor("F32", "S4", &["4", "12", "512", "64"]);
    let q = src.input("q", tq);
    let out = src.tensor("F32", "S4", &["4", "12", "512", "64"]);
    let body = src.ident("q");
    let f = src.func("attn", vec![q], Some(out), vec![tail(body)]);
    let sig = extract(&f).unwrap();
    assert_eq!(sig.params[0].tensor.shape.rank, 4);
    assert_eq!(sig.params[0].tensor.numel_if_const(), Some(4 * 12 * 512 * 64));
}

#[test]
fn rejects_non_tensor_param() {
    let mut src = Src::new();
    let tx = src.named_ty("u32");
    let x = src.input("x", tx);
    let out = src.tensor("F32", "S1", &["8"]);
    let body = src.ident("x");
    let f = src.func("bad", vec![x], Some(out), vec![tail(body)]);
    assert!(extract(&f).is_err());
}

#[test]
fn rejects_wrong_shape_rank() {
    let mut src = Src::new();
    let tx = src.tensor("F32", "S2", &["512"]);
    let x = src.input("x", tx);
    let out = src.tensor("F32", "S2", &["512", "768"]);
    let body = src.ident("x");
    let f = src.func("bad", vec![x], Some(out), vec![tail(body)]);
    let e = extract(&f).unwrap_err();
    assert_eq!(e.message, "2-rank shape requires 2 dimension parameters");
}

#[test]
fn dimension_literal_too_large_is_reported() {
    let mut src = Src::new();
    let tx = src.tensor("F32", "S1", &["99999999999999999999999"]);
    let x = src.input("x", tx);
    let out = src.tensor("F32", "S1", &["8"]);
    let body = src.ident("x");
    let f = src.func("bad", vec![x], Some(out), vec![tail(body)]);
    let e = extract(&f).unwrap_err();
    assert_eq!(e.message, "number too large to fit in target type");
}

#[test]
fn sequential_let_bindings() {
    let mut src = Src::new();
    let tx = src.f32_2d("8", "8");
    let tw = src.f32_2d("8", "8");
    let inputs = vec![src.input("x", tx), src.input("w", tw)];
    let out = src.f32_2d("8", "8");
    let ta = src.f32_2d("8", "8");
    let c1 = src.call_idents("rmsnorm", &["x", "w"]);
    let s1 = src.typed_let("a", ta, c1);
    let tb = src.f32_2d("8", "8");
    let c2 = src.call_idents("linear", &["a", "w"]);
    let s2 = src.typed_let("b", tb, c2);
    let body = src.ident("b");
    let f = src.func("block", inputs, Some(out), vec![s1, s2, tail(body)]);
    let ops = collect_ops(&f).unwrap();
    assert_eq!(ops.iter().map(|o| o.name.as_str()).collect::<Vec<_>>(), vec!["rmsnorm", "linear"]);
}

#[test]
fn rejects_nested_op_calls() {
    let mut src = Src::new();
    let tx = src.f32_2d("8", "8");
    let tw = src.f32_2d("8", "8");
    let inputs = vec![src.input("x", tx), src.input("w", tw)];
    let out = src.f32_2d("8", "8");
    let inner = src.call_idents("rmsnorm", &["x", "w"]);
    let w = src.ident("w");
    let outer = src.call("linear", vec![inner, w]);
    let f = src.func("block", inputs, Some(out), vec![tail(outer)]);
    let e = collect_ops(&f).err().unwrap();
    assert_eq!(e.message, "nested op calls are not supported; bind each op to a typed let first");
}

#[test]
fn tail_op_without_let() {
    let mut src = Src::new();
    let tx = src.f32_2d("8", "8");
    let tw = src.f32_2d("8", "8");
    let inputs = vec![src.input("x", tx), src.input("w", tw)];
    let out = src.f32_2d("8", "8");
    let c = src.call_idents("rmsnorm", &["x", "w"]);
    let f = src.func("block", inputs, Some(out), vec![tail(c)]);
    let ops = collect_ops(&f).unwrap();
    assert_eq!(ops.len(), 1);
    assert!(matches!(ops[0].dest, OpDest::Tail));
}

#[test]
fn grad_gate_chain() {
    let mut src = Src::new();
    let tx = src.f32_2d("512", "768");
    let tw = src.f32_2d("768", "768");
    let tw2 = src.f32_2d("768", "768");
    let inputs = vec![src.input("x", tx), src.input("w", tw), src.input("w2", tw2)];
    let out = src.f32_2d("512", "768");
    let th = src.f32_2d("512", "768");
    let lin = src.call_idents("linear", &["x", "w"]);
    let l = src.typed_let("h", th, lin);
    let rms = src.call_idents("rmsnorm", &["h", "w2"]);
    let f = src.func("gate", inputs, Some(out), vec![l, tail(rms)]);
    let ops = collect_ops(&f).unwrap();
    assert_eq!(ops.iter().map(|o| o.name.as_str()).collect::<Vec<_>>(), vec!["linear", "rmsnorm"]);
}

#[test]
fn untyped_let_of_an_op_is_rejected() {
    let mut src = Src::new();
    let tx = src.f32_2d("4", "4");
    let x = src.input("x", tx);
    let out = src.f32_2d("4", "4");
    let c = src.call_idents("rmsnorm", &["x", "x"]);
    let s = src.untyped_let("a", c);
    let body = src.ident("a");
    let f = src.func("bad", vec![x], Some(out), vec![s, tail(body)]);
    let e = collect_ops(&f).err().unwrap();
    assert_eq!(
        e.message,
        "intermediate op results require a type annotation: let x: Tensor<T, S> = op(...)"
    );
}

#[test]
fn ops_inside_blocks_and_methods_are_found() {
    let mut src = Src::new();
    let tx = src.f32_2d("4", "4");
    let x = src.input("x", tx);
    let out = src.f32_2d("4", "4");
    // `x.method(Wrapper(x))` holds no op; the tail op of a block goes out of the block.
    let recv = src.ident("x");
    let arg = src.call_idents("Wrapper", &["x"]);
    let m = ExprSyntax {
        kind: ExprKind::MethodCall { receiver: Box::new(recv), args: vec![arg] },
        span: src.node(),
    };
    let inner = src.call_idents("rmsnorm", &["x", "x"]);
    let block = ExprSyntax {
        kind: ExprKind::Block { block: BlockSyntax { stmts: vec![StmtSyntax::Expr { expr: m }, tail(inner)] } },
        span: src.node(),
    };
    let f = src.func("blocky", vec![x], Some(out), vec![tail(block)]);
    let ops = collect_ops(&f).unwrap();
    assert_eq!(ops.len(), 1);
    assert_eq!(ops[0].name, "rmsnorm");
    assert!(matches!(ops[0].dest, OpDest::Tail));
}

#[test]
fn type_paths_are_not_op_callees() {
    let mut src = Src::new();
    let tx = src.f32_2d("4", "4");
    let x = src.input("x", tx);
    let out = src.f32_2d("4", "4");
    let seg1 = src.seg("Tensor", ArgsSyntax::Empty);
    let seg2 = src.seg("from_offset", ArgsSyntax::Empty);
    let callee = ExprSyntax {
        kind: ExprKind::Path { path: PathSyntax { leading_colon: false, segments: vec![seg1, seg2] } },
        span: src.node(),
    };
    let c = ExprSyntax { kind: ExprKind::Call { func: Box::new(callee), args: vec![] }, span: src.node() };
    let f = src.func("ctor", vec![x], Some(out), vec![tail(c)]);
    assert_eq!(collect_ops(&f).unwrap().len(), 0);
}

#[test]
fn resolves_known_ops() {
    let ops = vec![
        OpSite { name: "rmsnorm".into(), args: vec![], dest: OpDest::Tail, span: CALL_SITE },
        OpSite { name: "linear".into(), args: vec![], dest: OpDest::Tail, span: CALL_SITE },
    ];
    let resolved = resolve_ops(&ops).ok().unwrap();
    assert_eq!(resolved.len(), 2);
    assert_eq!(resolved[0].forward_launcher, "rmsnorm_adjoint_fwd");
    assert_eq!(resolved[1].backward_launcher, "linear_bwd");
    assert_eq!(resolved[0].entry.op, "rmsnorm");
}

#[test]
fn unknown_op_collects_error() {
    let ops = vec![OpSite { name: "conv2d".into(), args: vec![], dest: OpDest::Tail, span: 7 }];
    match resolve_ops(&ops) {
        Err(errs) => {
            assert_eq!(errs.len(), 1);
            assert!(errs[0].message.contains("conv2d"));
            assert_eq!(errs[0].span, 7);
        }
        Ok(_) => panic!("expected error"),
    }
}

#[test]
fn every_unknown_op_is_reported() {
    let ops = vec![
        OpSite { name: "conv2d".into(), args: vec![], dest: OpDest::Tail, span: 1 },
        OpSite { name: "rmsnorm".into(), args: vec![], dest: OpDest::Tail, span: 2 },
        OpSite { name: "pool".into(), args: vec![], dest: OpDest::Tail, span: 3 },
    ];
    let errs = resolve_ops(&ops).err().unwrap();
    assert_eq!(errs.len(), 2);
    assert_eq!(
        errs[0].message,
        "no registered adjoint for op `conv2d`; add it to beacon-adjoint-table"
    );
    assert_eq!((errs[1].span, errs[1].message.contains("pool")), (3, true));
}

#[test]
fn generated_forward_backward_exist() {
    let mut src = Src::new();
    let f = gate_fn(&mut src, "4");
    let plan = match expand(&f) {
        Ok(Expanded::Plan(p)) => p,
        other => panic!("expected a plan, got {other:?}"),
    };
    // The gradient buffer holds the saved fields: the linear layer's input and weight,
    // then the norm's input and row statistics.
    assert!(!plan.saved.is_empty());
    assert_eq!(
        plan.saved.iter().map(|s| (s.step, s.spec)).collect::<Vec<_>>(),
        vec![(0, "x"), (0, "weight"), (1, "x"), (1, "rms")]
    );
    assert!(matches!(plan.saved[3].shape, SavedShape::Stats(Dim::Lit(4))));
    assert_eq!(plan.steps.len(), 2);
    // Only the `let`-bound result of the linear layer is kept for the backward pass.
    assert_eq!(plan.checkpoints, vec![0]);
    assert_eq!(plan.backward.len(), 2);
    assert_eq!(plan.traits, vec![Family::Matmul, Family::RmsNorm]);
    // The forward pass starts with the linear launch, which a launcher without CUDA
    // refuses as unimplemented.
    assert_eq!(plan.steps[0].forward.method, Method::LinearFwd);
    let launcher = Launcher::on_device(0).unwrap();
    let r = launcher.linear_fwd(
        KernelArg::write(0, 64),
        KernelArg::read(256, 64),
        KernelArg::read(512, 64),
        KernelArg::read(0, 0),
        4,
        4,
        4,
    );
    assert!(matches!(r, Err(LaunchError::Unimplemented(_))));
}

#[test]
fn passthrough_preserves_behavior() {
    fn ident(x: u32) -> u32 {
        x
    }
    fn add(x: u32, y: u32) -> u32 {
        x + y
    }
    let mut src = Src::new();
    let f = u32_fn(&mut src);
    assert!(matches!(expand(&f), Ok(Expanded::Unchanged)));
    let tx = src.named_ty("u32");
    let ty = src.named_ty("u32");
    let inputs = vec![src.input("x", tx), src.input("y", ty)];
    let out = src.named_ty("u32");
    let l = src.ident("x");
    let r = src.ident("y");
    let sum = ExprSyntax { kind: ExprKind::Binary { left: Box::new(l), right: Box::new(r) }, span: src.node() };
    let g = src.func("add", inputs, Some(out), vec![tail(sum)]);
    assert!(matches!(expand(&g), Ok(Expanded::Unchanged)));
    assert_eq!(ident(5), 5);
    assert_eq!(add(2, 3), 5);
}

#[test]
fn registered_op_expands() {
    let mut src = Src::new();
    let tx = src.f32_2d("4", "4");
    let tw = src.f32_2d("4", "4");
    let inputs = vec![src.input("x", tx), src.input("w", tw)];
    let out = src.f32_2d("4", "4");
    let c = src.call_idents("rmsnorm", &["x", "w"]);
    let f = src.func("gate", inputs, Some(out), vec![tail(c)]);
    let plan = match expand(&f) {
        Ok(Expanded::Plan(p)) => p,
        other => panic!("expected a plan, got {other:?}"),
    };
    assert_eq!(plan.name, "gate");
    assert_eq!(plan.steps.len(), 1);
    assert!(matches!(plan.final_out, OutName::Tail(0)));
    assert!(plan.checkpoints.is_empty());
    let step = &plan.steps[0];
    assert_eq!(step.forward.method, Method::RmsNormFwd);
    assert_eq!(step.forward.args.len(), 4);
    assert!(matches!(step.forward.args[3], ArgPlan::WriteSaved { field: 1 }));
    assert!(matches!(step.forward.extents[0], Extent::Dim(Dim::Lit(4))));
    let bwd = &plan.backward[0];
    assert_eq!(bwd.call.method, Method::RmsNormBwd);
    assert!(matches!(bwd.call.args[2], ArgPlan::Read { value: Operand::Dy, .. }));
    assert_eq!(bwd.consumes.iter().map(|c| (c.field, c.binding)).collect::<Vec<_>>(), vec![(0, "_x_off"), (1, "rms_off")]);
    let launcher = Launcher::on_device(0).unwrap();
    let r = launcher.rmsnorm_fwd(
        KernelArg::write(0, 64),
        KernelArg::read(0, 64),
        KernelArg::read(256, 64),
        KernelArg::write(512, 16),
        4,
        4,
    );
    assert!(matches!(r, Err(LaunchError::Unimplemented(_))));
}

#[test]
fn unknown_op_in_body_is_reported() {
    let mut src = Src::new();
    let tx = src.f32_2d("4", "4");
    let tw = src.f32_2d("4", "4");
    let inputs = vec![src.input("x", tx), src.input("w", tw)];
    let out = src.f32_2d("4", "4");
    let c = src.call_idents("conv2d", &["x", "w"]);
    let f = src.func("bad", inputs, Some(out), vec![tail(c)]);
    let errs = expand(&f).err().unwrap();
    assert_eq!(errs.len(), 1);
    assert!(errs[0].message.contains("conv2d"));
}

#[test]
fn op_on_unknown_tensor_is_reported() {
    let mut src = Src::new();
    let tx = src.f32_2d("4", "4");
    let inputs = vec![src.input("x", tx)];
    let out = src.f32_2d("4", "4");
    let c = src.call_idents("rmsnorm", &["x", "nope"]);
    let f = src.func("bad", inputs, Some(out), vec![tail(c)]);
    let errs = expand(&f).err().unwrap();
    assert_eq!(errs[0].message, "unknown tensor `nope`");
}

#[test]
fn residual_add_has_no_backward_codegen() {
    let mut src = Src::new();
    let tx = src.f32_2d("4", "4");
    let ty = src.f32_2d("4", "4");
    let inputs = vec![src.input("x", tx), src.input("y", ty)];
    let out = src.f32_2d("4", "4");
    let c = src.call_idents("residual_add", &["x", "y"]);
    let f = src.func("res", inputs, Some(out), vec![tail(c)]);
    let errs = expand(&f).err().unwrap();
    assert_eq!(errs[0].message, "backward codegen not implemented for op `residual_add`");
}

#[test]
fn ops_without_forward_codegen_are_reported() {
    let mut src = Src::new();
    let tx = src.f32_2d("4", "4");
    let tw = src.f32_2d("4", "4");
    let inputs = vec![src.input("x", tx), src.input("w", tw)];
    let out = src.f32_2d("4", "4");
    let c = src.call_idents("matmul", &["x", "w"]);
    let f = src.func("mm", inputs, Some(out), vec![tail(c)]);
    let errs = expand(&f).err().unwrap();
    assert_eq!(errs[0].message, "forward codegen not implemented for op `matmul`");
}

#[test]
fn launches_need_rank_two_results() {
    let mut src = Src::new();
    let tx = src.tensor("F32", "S3", &["2", "4", "4"]);
    let tw = src.f32_2d("4", "4");
    let inputs = vec![src.input("x", tx), src.input("w", tw)];
    let out = src.tensor("F32", "S3", &["2", "4", "4"]);
    let c = src.call_idents("rmsnorm", &["x", "w"]);
    let f = src.func("norm3", inputs, Some(out), vec![tail(c)]);
    let errs = expand(&f).err().unwrap();
    assert_eq!(errs[0].message, "launcher dims require rank-2 tensors");
}

#[test]
fn tensor_function_without_ops_must_return_an_identifier() {
    let mut src = Src::new();
    let tx = src.f32_2d("4", "4");
    let inputs = vec![src.input("x", tx)];
    let out = src.f32_2d("4", "4");
    let body = src.ident("x");
    let f = src.func("id", inputs, Some(out), vec![tail(body)]);
    match expand(&f) {
        Ok(Expanded::Plan(p)) => {
            assert!(p.steps.is_empty());
            assert!(matches!(&p.final_out, OutName::Named(n) if n == "x"));
        }
        other => panic!("expected a plan, got {other:?}"),
    }
    let mut src = Src::new();
    let tx = src.f32_2d("4", "4");
    let inputs = vec![src.input("x", tx)];
    let out = src.f32_2d("4", "4");
    let f = src.func("empty", inputs, Some(out), vec![]);
    let errs = expand(&f).err().unwrap();
    assert_eq!(
        errs[0].message,
        "differentiable functions need at least one op or a passthrough identifier tail expression"
    );
}
