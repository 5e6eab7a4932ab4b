use vstd::prelude::*;
use crate::adjoint_table::{EntryView, SaveMode, spec_lookup};
use crate::launcher::Access;
use crate::ops::{DestView, OpDest, SiteView};
use crate::resolve::{ResolvedOpCall, ResolvedView, resolved_view};
use crate::signature::{
    Dim, DimView, FnSig, FnSigView, TensorView, parse_tensor, spec_extract, spec_parse_tensor,
    view_result,
};
use crate::syntax::{
    ArgsSyntax, CALL_SITE, Diag, ExprKind, ExprSyntax, FnInput, FnSyntax, GenericArgSyntax,
    MacroError, PatSyntax, StmtSyntax, TypeSyntax, diag, macro_error, path_ident, type_span,
};
use crate::text::{concat, concat3, decimal, usize_to_decimal};

verus! {

/// The name a step's result is bound to in the generated code.
#[derive(Debug)]
pub enum OutName {
    /// A name written in the function: a `let` binding, or the identifier a function
    /// without ops returns.
    Named(String),
    /// A fresh name for the result of the op at this step index, which is the result of
    /// the function.
    Tail(usize),
}

pub ghost enum OutView {
    Named(Seq<char>),
    Tail(usize),
}

impl View for OutName {
    type V = OutView;

    open spec fn view(&self) -> OutView {
        match self {
            OutName::Named(s) => OutView::Named(s@),
            OutName::Tail(k) => OutView::Tail(*k),
        }
    }
}

/// The value a kernel argument points at.
#[derive(Debug)]
pub enum Operand {
    /// An argument of an op call, by its expression's node.
    Arg(usize),
    /// The result of a step.
    Out(OutName),
    /// The gradient that flows into the backward pass.
    Dy,
}

pub ghost enum OperandView {
    Arg(usize),
    Out(OutView),
    Dy,
}

impl View for Operand {
    type V = OperandView;

    open spec fn view(&self) -> OperandView {
        match self {
            Operand::Arg(n) => OperandView::Arg(*n),
            Operand::Out(o) => OperandView::Out(o@),
            Operand::Dy => OperandView::Dy,
        }
    }
}

/// One buffer handed to a kernel in the generated code.
#[derive(Debug)]
pub enum ArgPlan {
    /// A tensor the kernel reads, with the node of its type (which gives its size).
    Read { value: Operand, ty: usize },
    /// A tensor the kernel writes.
    Write { value: Operand, ty: usize },
    /// A tensor the kernel reads and writes.
    ReadWrite { value: Operand, ty: usize },
    /// A saved value the kernel writes, by its index among the saved fields.
    WriteSaved { field: usize },
    /// A saved value the kernel reads, through the offset bound to `binding`.
    ReadSaved { binding: &'static str, field: usize },
    /// An empty buffer at offset zero.
    Unused { access: Access },
}

pub ghost enum ArgView {
    Read { value: OperandView, ty: usize },
    Write { value: OperandView, ty: usize },
    ReadWrite { value: OperandView, ty: usize },
    WriteSaved { field: usize },
    ReadSaved { binding: Seq<char>, field: usize },
    Unused { access: Access },
}

impl View for ArgPlan {
    type V = ArgView;

    open spec fn view(&self) -> ArgView {
        match self {
            ArgPlan::Read { value, ty } => ArgView::Read { value: value@, ty: *ty },
            ArgPlan::Write { value, ty } => ArgView::Write { value: value@, ty: *ty },
            ArgPlan::ReadWrite { value, ty } => ArgView::ReadWrite { value: value@, ty: *ty },
            ArgPlan::WriteSaved { field } => ArgView::WriteSaved { field: *field },
            ArgPlan::ReadSaved { binding, field } => ArgView::ReadSaved {
                binding: binding@,
                field: *field,
            },
            ArgPlan::Unused { access } => ArgView::Unused { access: *access },
        }
    }
}

/// A size handed to a kernel: a dimension of a shape, or the element count of a type.
#[derive(Debug)]
pub enum Extent {
    Dim(Dim),
    Numel(usize),
}

pub ghost enum ExtentView {
    Dim(DimView),
    Numel(usize),
}

impl View for Extent {
    type V = ExtentView;

    open spec fn view(&self) -> ExtentView {
        match self {
            Extent::Dim(d) => ExtentView::Dim(d@),
            Extent::Numel(t) => ExtentView::Numel(*t),
        }
    }
}

/// The launch method a generated call goes through.
#[derive(Debug, Clone, Copy, PartialEq, Eq, Structural)]
pub enum Method {
    RmsNormFwd,
    LinearFwd,
    ResidualAdd,
    RmsNormBwd,
    LinearBwd,
}

/// One kernel launch in the generated code: the method, its buffers and its sizes.
#[derive(Debug)]
pub struct KernelCall {
    pub method: Method,
    pub args: Vec<ArgPlan>,
    pub extents: Vec<Extent>,
}

pub ghost struct CallView {
    pub method: Method,
    pub args: Seq<ArgView>,
    pub extents: Seq<ExtentView>,
}

impl View for KernelCall {
    type V = CallView;

    open spec fn view(&self) -> CallView {
        CallView {
            method: self.method,
            args: self.args@.map_values(|a: ArgPlan| a@),
            extents: self.extents@.map_values(|e: Extent| e@),
        }
    }
}

/// A saved value that the backward pass takes back, binding its offset to `binding`.
#[derive(Debug)]
pub struct Consume {
    pub field: usize,
    pub binding: &'static str,
}

pub ghost struct ConsumeView {
    pub field: usize,
    pub binding: Seq<char>,
}

impl View for Consume {
    type V = ConsumeView;

    open spec fn view(&self) -> ConsumeView {
        ConsumeView { field: self.field, binding: self.binding@ }
    }
}

/// One step of the backward pass: the saved values it takes back, then its launch.
#[derive(Debug)]
pub struct BackwardCall {
    pub consumes: Vec<Consume>,
    pub call: KernelCall,
}

pub ghost struct BwdView {
    pub consumes: Seq<ConsumeView>,
    pub call: CallView,
}

impl View for BackwardCall {
    type V = BwdView;

    open spec fn view(&self) -> BwdView {
        BwdView { consumes: self.consumes@.map_values(|c: Consume| c@), call: self.call@ }
    }
}

/// The shape of a saved value: the shape written in a type, by its node, or the
/// one-dimensional shape of per-row statistics.
#[derive(Debug)]
pub enum SavedShape {
    Node(usize),
    Stats(Dim),
}

pub ghost enum SavedShapeView {
    Node(usize),
    Stats(DimView),
}

impl View for SavedShape {
    type V = SavedShapeView;

    open spec fn view(&self) -> SavedShapeView {
        match self {
            SavedShape::Node(n) => SavedShapeView::Node(*n),
            SavedShape::Stats(d) => SavedShapeView::Stats(d@),
        }
    }
}

/// A field of the generated saved-state struct: the value `spec` that the op of step
/// `step` keeps for its backward pass, with its element type's name and its shape.
#[derive(Debug)]
pub struct SavedField {
    pub step: usize,
    pub spec: &'static str,
    pub dtype: String,
    pub shape: SavedShape,
}

pub ghost struct SavedView {
    pub step: usize,
    pub spec: Seq<char>,
    pub dtype: Seq<char>,
    pub shape: SavedShapeView,
}

impl View for SavedField {
    type V = SavedView;

    open spec fn view(&self) -> SavedView {
        SavedView { step: self.step, spec: self.spec@, dtype: self.dtype@, shape: self.shape@ }
    }
}

/// The saved fields as plain values.
pub open spec fn saved_fields_view(v: Seq<SavedField>) -> Seq<SavedView> {
    v.map_values(|s: SavedField| s@)
}

/// The launch family a generated function needs of its launcher.
#[derive(Debug, Clone, Copy, PartialEq, Eq, Structural)]
pub enum Family {
    RmsNorm,
    LayerNorm,
    Matmul,
    Elementwise,
    Swiglu,
    Attention,
}

/// One op call of the forward pass: the op, the name and type its result is bound to
/// (the node of the type, the name of its element type, the node of its shape), its
/// argument expressions and their types (by node), the range of its saved fields, the
/// two dimensions its launch is sized by, and its launch.
#[derive(Debug)]
pub struct Step {
    pub op: String,
    pub out: OutName,
    pub out_ty: usize,
    pub out_dtype: String,
    pub out_shape: usize,
    pub args: Vec<usize>,
    pub arg_tys: Vec<usize>,
    pub saved_start: usize,
    pub saved_end: usize,
    pub tokens: Dim,
    pub dim: Dim,
    pub forward: KernelCall,
}

pub ghost struct StepView {
    pub op: Seq<char>,
    pub out: OutView,
    pub out_ty: usize,
    pub out_dtype: Seq<char>,
    pub out_shape: usize,
    pub args: Seq<usize>,
    pub arg_tys: Seq<usize>,
    pub saved_start: usize,
    pub saved_end: usize,
    pub tokens: DimView,
    pub dim: DimView,
    pub forward: CallView,
}

impl View for Step {
    type V = StepView;

    open spec fn view(&self) -> StepView {
        StepView {
            op: self.op@,
            out: self.out@,
            out_ty: self.out_ty,
            out_dtype: self.out_dtype@,
            out_shape: self.out_shape,
            args: self.args@,
            arg_tys: self.arg_tys@,
            saved_start: self.saved_start,
            saved_end: self.saved_end,
            tokens: self.tokens@,
            dim: self.dim@,
            forward: self.forward@,
        }
    }
}

/// The steps as plain values.
pub open spec fn steps_view(v: Seq<Step>) -> Seq<StepView> {
    v.map_values(|s: Step| s@)
}

/// What the attribute expands a differentiable function into: the saved-state struct's
/// fields, the forward pass's steps, the backward pass's launches (in the order they
/// run, last op first), the launch families its launcher needs, and the name and type
/// (by node) of the forward pass's result. The steps listed in `checkpoints` (those
/// whose result is bound by `let`) also keep that result's offset in the saved-state
/// struct, so that the backward pass can find it again. The generated size of the
/// gradient buffer is the sum of the sizes of the saved fields.
#[derive(Debug)]
pub struct Expansion {
    pub name: String,
    pub saved: Vec<SavedField>,
    pub steps: Vec<Step>,
    pub checkpoints: Vec<usize>,
    pub backward: Vec<BackwardCall>,
    pub traits: Vec<Family>,
    pub final_out: OutName,
    pub final_ty: usize,
}

pub ghost struct ExpansionView {
    pub name: Seq<char>,
    pub saved: Seq<SavedView>,
    pub steps: Seq<StepView>,
    pub checkpoints: Seq<usize>,
    pub backward: Seq<BwdView>,
    pub traits: Seq<Family>,
    pub final_out: OutView,
    pub final_ty: usize,
}

impl View for Expansion {
    type V = ExpansionView;

    open spec fn view(&self) -> ExpansionView {
        ExpansionView {
            name: self.name@,
            saved: saved_fields_view(self.saved@),
            steps: steps_view(self.steps@),
            checkpoints: self.checkpoints@,
            backward: self.backward@.map_values(|b: BackwardCall| b@),
            traits: self.traits@,
            final_out: self.final_out@,
            final_ty: self.final_ty,
        }
    }
}

/// The names in scope of the generated code and their types, in the order they were
/// bound; a later binding of a name hides an earlier one.
pub type EnvView = Seq<(Seq<char>, TypeSyntax)>;

/// The type of the first input of `inputs`, from the `i`-th on, that binds `name`.
pub open spec fn first_input_ty(inputs: Seq<FnInput>, name: Seq<char>, i: int) -> Option<TypeSyntax>
    decreases inputs.len() - i,
{
    if i < 0 || i >= inputs.len() {
        None
    } else {
        match inputs[i] {
            FnInput::Typed { pat: PatSyntax::Ident { name: n, .. }, ty } => if n@ == name {
                Some(ty)
            } else {
                first_input_ty(inputs, name, i + 1)
            },
            _ => first_input_ty(inputs, name, i + 1),
        }
    }
}

/// The first `k` parameters of the signature with their types in `func`.
pub open spec fn spec_param_env(func: &FnSyntax, params: Seq<crate::signature::ParamView>, k: int) -> Result<EnvView, Diag>
    decreases k,
{
    if k <= 0 {
        Ok(Seq::empty())
    } else {
        match spec_param_env(func, params, k - 1) {
            Err(e) => Err(e),
            Ok(env) => match first_input_ty(func.inputs@, params[k - 1].name, 0) {
                None => Err(diag(CALL_SITE, "missing parameter type"@)),
                Some(ty) => Ok(env.push((params[k - 1].name, ty))),
            },
        }
    }
}

/// The index of the latest of the first `k` bindings of `name`.
pub open spec fn env_find(env: EnvView, name: Seq<char>, k: int) -> Option<int>
    decreases k,
{
    if k <= 0 {
        None
    } else if env[k - 1].0 == name {
        Some(k - 1)
    } else {
        env_find(env, name, k - 1)
    }
}

/// The binding an op argument refers to: it must be a single name in scope.
pub open spec fn spec_ty_of_arg(e: ExprSyntax, env: EnvView) -> Result<int, Diag> {
    match e.kind {
        ExprKind::Path { path } => match path_ident(&path) {
            Some(name) => match env_find(env, name, env.len() as int) {
                Some(i) => Ok(i),
                None => Err(diag(e.span, "unknown tensor `"@ + name + "`"@)),
            },
            None => Err(diag(e.span, "op arguments must be simple identifiers"@)),
        },
        _ => Err(diag(e.span, "op arguments must be identifier paths"@)),
    }
}

/// The bindings the first `k` arguments refer to, or the first diagnostic.
pub open spec fn spec_arg_tys(args: Seq<ExprSyntax>, env: EnvView, k: int) -> Result<Seq<int>, Diag>
    decreases k,
{
    if k <= 0 {
        Ok(Seq::empty())
    } else {
        match spec_arg_tys(args, env, k - 1) {
            Err(e) => Err(e),
            Ok(tys) => match spec_ty_of_arg(args[k - 1], env) {
                Err(e) => Err(e),
                Ok(i) => Ok(tys.push(i)),
            },
        }
    }
}

/// Every type bound in `env` is a tensor type.
pub open spec fn env_tensors(env: EnvView) -> bool {
    forall|i: int| 0 <= i < env.len() ==> (#[trigger] spec_parse_tensor(&env[i].1)) is Ok
}

/// The tensor a tensor type reads as.
pub open spec fn tensor_of(ty: TypeSyntax) -> TensorView {
    spec_parse_tensor(&ty)->Ok_0
}

/// The node of the shape argument of a tensor type `Tensor<T, S>`.
pub open spec fn shape_node(ty: TypeSyntax) -> usize {
    match ty {
        TypeSyntax::Path { path, .. } => match path.segments@.last().args {
            ArgsSyntax::Angle(args) => match args@[1] {
                GenericArgSyntax::Type(t) => type_span(&t),
                _ => CALL_SITE,
            },
            _ => CALL_SITE,
        },
        _ => CALL_SITE,
    }
}

/// The saved values that are statistics of their input's rows.
pub open spec fn is_stats(spec: Seq<char>) -> bool {
    spec == "rms"@ || spec == "mean"@ || spec == "invstd"@ || spec == "lse"@
}

/// The argument a saved value is taken from, by the saved value's name.
pub open spec fn saved_arg_index(spec: Seq<char>) -> Option<int> {
    if spec == "x"@ || spec == "lhs"@ || spec == "q"@ || is_stats(spec) {
        Some(0)
    } else if spec == "weight"@ || spec == "rhs"@ || spec == "k"@ {
        Some(1)
    } else if spec == "v"@ || spec == "bias"@ {
        Some(2)
    } else {
        None
    }
}

/// The one-dimensional shape of per-row statistics of a tensor: its first dimension at
/// rank 2, its second at rank 3.
pub open spec fn spec_stats_shape(ty: TypeSyntax) -> Result<DimView, Diag> {
    let t = tensor_of(ty);
    if t.shape.rank == 2 {
        Ok(t.shape.dims[0])
    } else if t.shape.rank == 3 {
        Ok(t.shape.dims[1])
    } else {
        Err(diag(type_span(&ty), "stats saved type needs rank 2 or 3 input"@))
    }
}

/// The element type's name and the shape of the saved value `spec` of an op whose
/// arguments are bound at `arg_tys`.
pub open spec fn spec_saved_type(spec: Seq<char>, arg_tys: Seq<int>, env: EnvView) -> Result<(Seq<char>, SavedShapeView), Diag> {
    if is_stats(spec) {
        if arg_tys.len() == 0 {
            Err(diag(CALL_SITE, "saved spec `"@ + spec + "` needs argument index 0"@))
        } else {
            let ty = env[arg_tys[0]].1;
            match spec_stats_shape(ty) {
                Err(e) => Err(e),
                Ok(d) => Ok((tensor_of(ty).dtype, SavedShapeView::Stats(d))),
            }
        }
    } else {
        match saved_arg_index(spec) {
            None => Err(diag(CALL_SITE, "unknown saved spec `"@ + spec + "`"@)),
            Some(i) => if i >= arg_tys.len() {
                Err(
                    diag(
                        CALL_SITE,
                        "saved spec `"@ + spec + "` needs argument index "@ + decimal(i as nat),
                    ),
                )
            } else {
                let ty = env[arg_tys[i]].1;
                Ok((tensor_of(ty).dtype, SavedShapeView::Node(shape_node(ty))))
            },
        }
    }
}

/// The saved fields of step `idx` for the first `k` saved values of its entry: one for
/// each value that is stored, in order.
pub open spec fn spec_step_saved(specs: Seq<(Seq<char>, SaveMode)>, idx: usize, arg_tys: Seq<int>, env: EnvView, k: int) -> Result<Seq<SavedView>, Diag>
    decreases k,
{
    if k <= 0 {
        Ok(Seq::empty())
    } else {
        match spec_step_saved(specs, idx, arg_tys, env, k - 1) {
            Err(e) => Err(e),
            Ok(fields) => if specs[k - 1].1 != SaveMode::Store {
                Ok(fields)
            } else {
                match spec_saved_type(specs[k - 1].0, arg_tys, env) {
                    Err(e) => Err(e),
                    Ok((dtype, shape)) => Ok(
                        fields.push(SavedView { step: idx, spec: specs[k - 1].0, dtype, shape }),
                    ),
                }
            },
        }
    }
}

/// The two dimensions a launch over a tensor of type `ty` is sized by.
pub open spec fn spec_launch_dims(ty: TypeSyntax) -> Result<(DimView, DimView), Diag> {
    let t = tensor_of(ty);
    if t.shape.rank != 2 {
        Err(diag(type_span(&ty), "launcher dims require rank-2 tensors"@))
    } else {
        Ok((t.shape.dims[0], t.shape.dims[1]))
    }
}

/// The index of the first of `fields`, from the `i`-th on, that saves `spec`.
pub open spec fn first_spec(fields: Seq<SavedView>, spec: Seq<char>, i: int) -> Option<int>
    decreases fields.len() - i,
{
    if i < 0 || i >= fields.len() {
        None
    } else if fields[i].spec == spec {
        Some(i)
    } else {
        first_spec(fields, spec, i + 1)
    }
}

/// The index among all saved fields of the field of a step (whose fields start at
/// `base`) that saves `spec`.
pub open spec fn field_of(fields: Seq<SavedView>, base: int, spec: Seq<char>) -> int {
    base + first_spec(fields, spec, 0)->0
}

/// The forward launch of op `op`, whose result goes to `out` of type `out_ty`, whose
/// arguments are the expressions `args` of types `arg_tys`, whose saved fields are
/// `fields` from index `base` on, sized by `tokens` and `dim`.
pub open spec fn spec_fwd_call(
    op: Seq<char>,
    out: OutView,
    out_ty: usize,
    args: Seq<usize>,
    arg_tys: Seq<usize>,
    base: int,
    fields: Seq<SavedView>,
    tokens: DimView,
    dim: DimView,
) -> Result<CallView, Diag> {
    if op == "rmsnorm"@ {
        Ok(
            CallView {
                method: Method::RmsNormFwd,
                args: seq![
                    ArgView::Write { value: OperandView::Out(out), ty: out_ty },
                    ArgView::Read { value: OperandView::Arg(args[0]), ty: arg_tys[0] },
                    ArgView::Read { value: OperandView::Arg(args[1]), ty: arg_tys[1] },
                    ArgView::WriteSaved { field: field_of(fields, base, "rms"@) as usize },
                ],
                extents: seq![ExtentView::Dim(tokens), ExtentView::Dim(dim)],
            },
        )
    } else if op == "linear"@ {
        Ok(
            CallView {
                method: Method::LinearFwd,
                args: seq![
                    ArgView::Write { value: OperandView::Out(out), ty: out_ty },
                    ArgView::Read { value: OperandView::Arg(args[0]), ty: arg_tys[0] },
                    ArgView::Read { value: OperandView::Arg(args[1]), ty: arg_tys[1] },
                    ArgView::Unused { access: Access::Read },
                ],
                extents: seq![ExtentView::Dim(tokens), ExtentView::Dim(dim), ExtentView::Dim(dim)],
            },
        )
    } else if op == "residual_add"@ {
        Ok(
            CallView {
                method: Method::ResidualAdd,
                args: seq![
                    ArgView::Write { value: OperandView::Out(out), ty: out_ty },
                    ArgView::Read { value: OperandView::Arg(args[0]), ty: arg_tys[0] },
                    ArgView::Read { value: OperandView::Arg(args[1]), ty: arg_tys[1] },
                ],
                extents: seq![ExtentView::Numel(out_ty)],
            },
        )
    } else {
        Err(diag(CALL_SITE, "forward codegen not implemented for op `"@ + op + "`"@))
    }
}

/// The backward launch of a step, with the gradient of its result in `upstream`.
pub open spec fn spec_bwd_call(step: StepView, upstream: OperandView, saved: Seq<SavedView>) -> Result<BwdView, Diag> {
    let fields = saved.subrange(step.saved_start as int, step.saved_end as int);
    let x = field_of(fields, step.saved_start as int, "x"@) as usize;
    if step.op == "rmsnorm"@ {
        let rms = field_of(fields, step.saved_start as int, "rms"@) as usize;
        Ok(
            BwdView {
                consumes: seq![
                    ConsumeView { field: x, binding: "_x_off"@ },
                    ConsumeView { field: rms, binding: "rms_off"@ },
                ],
                call: CallView {
                    method: Method::RmsNormBwd,
                    args: seq![
                        ArgView::ReadWrite { value: OperandView::Arg(step.args[0]), ty: step.arg_tys[0] },
                        ArgView::Unused { access: Access::ReadWrite },
                        ArgView::Read { value: upstream, ty: step.out_ty },
                        ArgView::Read { value: OperandView::Arg(step.args[0]), ty: step.arg_tys[0] },
                        ArgView::ReadSaved { binding: "rms_off"@, field: rms },
                        ArgView::Read { value: OperandView::Arg(step.args[1]), ty: step.arg_tys[1] },
                    ],
                    extents: seq![ExtentView::Dim(step.tokens), ExtentView::Dim(step.dim)],
                },
            },
        )
    } else if step.op == "linear"@ {
        Ok(
            BwdView {
                consumes: seq![ConsumeView { field: x, binding: "_x_off"@ }],
                call: CallView {
                    method: Method::LinearBwd,
                    args: seq![
                        ArgView::ReadWrite { value: OperandView::Arg(step.args[0]), ty: step.arg_tys[0] },
                        ArgView::Unused { access: Access::ReadWrite },
                        ArgView::Unused { access: Access::ReadWrite },
                        ArgView::Read { value: upstream, ty: step.out_ty },
                        ArgView::Read { value: OperandView::Arg(step.args[0]), ty: step.arg_tys[0] },
                        ArgView::Read { value: OperandView::Arg(step.args[1]), ty: step.arg_tys[1] },
                    ],
                    extents: seq![
                        ExtentView::Dim(step.tokens),
                        ExtentView::Dim(step.dim),
                        ExtentView::Dim(step.dim),
                    ],
                },
            },
        )
    } else {
        Err(diag(CALL_SITE, "backward codegen not implemented for op `"@ + step.op + "`"@))
    }
}

/// The gradient that flows into step `i` of `n`: the backward pass's input for the
/// last step, and the step's own result's binding for the others.
pub open spec fn upstream_of(steps: Seq<StepView>, i: int) -> OperandView {
    if i == steps.len() - 1 {
        OperandView::Dy
    } else {
        OperandView::Out(steps[i].out)
    }
}

/// The backward launches of the last `j` steps, last step first.
pub open spec fn spec_bwd_calls(steps: Seq<StepView>, saved: Seq<SavedView>, j: int) -> Result<Seq<BwdView>, Diag>
    decreases j,
{
    if j <= 0 {
        Ok(Seq::empty())
    } else {
        match spec_bwd_calls(steps, saved, j - 1) {
            Err(e) => Err(e),
            Ok(calls) => {
                let i = steps.len() - j;
                match spec_bwd_call(steps[i], upstream_of(steps, i), saved) {
                    Err(e) => Err(e),
                    Ok(c) => Ok(calls.push(c)),
                }
            },
        }
    }
}

/// The launch family an op's launches go through, if the generated code knows it.
pub open spec fn family_of(op: Seq<char>) -> Option<Family> {
    if op == "rmsnorm"@ {
        Some(Family::RmsNorm)
    } else if op == "layernorm"@ {
        Some(Family::LayerNorm)
    } else if op == "linear"@ || op == "matmul"@ {
        Some(Family::Matmul)
    } else if op == "residual_add"@ {
        Some(Family::Elementwise)
    } else if op == "swiglu_mlp"@ {
        Some(Family::Swiglu)
    } else if op == "flash_attention"@ {
        Some(Family::Attention)
    } else {
        None
    }
}

/// The families the first `k` calls need, each once, in the order first needed.
pub open spec fn spec_required_traits(calls: Seq<ResolvedView>, k: int) -> Seq<Family>
    decreases k,
{
    if k <= 0 {
        Seq::empty()
    } else {
        let prev = spec_required_traits(calls, k - 1);
        match family_of(calls[k - 1].site.name) {
            None => prev,
            Some(f) => if prev.contains(f) {
                prev
            } else {
                prev.push(f)
            },
        }
    }
}

/// Where generation stands after some op calls: the names in scope, the saved fields and
/// steps so far, and the name and type of the latest result.
pub ghost struct GenState {
    pub env: EnvView,
    pub saved: Seq<SavedView>,
    pub steps: Seq<StepView>,
    pub final_out: Option<OutView>,
    pub final_ty: usize,
}

/// The name a step's result is bound to in scope.
pub open spec fn out_name(o: OutView) -> Seq<char> {
    match o {
        OutView::Named(s) => s,
        OutView::Tail(k) => "__out"@ + decimal(k as nat),
    }
}

/// Generation after call `r`, the `idx`-th, from `st`; `output` is the function's result
/// type.
#[verifier::opaque]
pub open spec fn spec_gen_step(st: GenState, idx: usize, r: ResolvedView, output: TypeSyntax) -> Result<GenState, Diag> {
    let out_ty = match r.site.dest {
        DestView::Let { ty, .. } => ty,
        DestView::Tail => output,
    };
    let out = match r.site.dest {
        DestView::Let { ident, .. } => OutView::Named(ident),
        DestView::Tail => OutView::Tail(idx),
    };
    match spec_parse_tensor(&out_ty) {
        Err(e) => Err(e),
        Ok(t) => match spec_arg_tys(r.site.args, st.env, r.site.args.len() as int) {
            Err(e) => Err(e),
            Ok(tys) => match spec_step_saved(r.entry.saved, idx, tys, st.env, r.entry.saved.len() as int) {
                Err(e) => Err(e),
                Ok(fields) => match spec_launch_dims(out_ty) {
                    Err(e) => Err(e),
                    Ok((tokens, dim)) => {
                        let args = r.site.args.map_values(|e: ExprSyntax| e.span);
                        let arg_tys = tys.map_values(|i: int| type_span(&st.env[i].1));
                        let base = st.saved.len() as int;
                        match spec_fwd_call(r.site.name, out, type_span(&out_ty), args, arg_tys, base, fields, tokens, dim) {
                            Err(e) => Err(e),
                            Ok(call) => Ok(
                                GenState {
                                    env: st.env.push((out_name(out), out_ty)),
                                    saved: st.saved + fields,
                                    steps: st.steps.push(
                                        StepView {
                                            op: r.site.name,
                                            out,
                                            out_ty: type_span(&out_ty),
                                            out_dtype: t.dtype,
                                            out_shape: shape_node(out_ty),
                                            args,
                                            arg_tys,
                                            saved_start: base as usize,
                                            saved_end: (base + fields.len()) as usize,
                                            tokens,
                                            dim,
                                            forward: call,
                                        },
                                    ),
                                    final_out: Some(out),
                                    final_ty: type_span(&out_ty),
                                },
                            ),
                        }
                    },
                },
            },
        },
    }
}

/// Generation after the first `k` calls, from `init`.
pub open spec fn spec_gen_steps(calls: Seq<ResolvedView>, k: int, init: GenState, output: TypeSyntax) -> Result<GenState, Diag>
    decreases k,
{
    if k <= 0 {
        Ok(init)
    } else {
        match spec_gen_steps(calls, k - 1, init, output) {
            Err(e) => Err(e),
            Ok(st) => spec_gen_step(st, (k - 1) as usize, calls[k - 1], output),
        }
    }
}

/// The identifier a function returns by its tail expression, if it is one.
pub open spec fn tail_ident(func: &FnSyntax) -> Option<Seq<char>> {
    let stmts = func.block.stmts@;
    if stmts.len() == 0 {
        None
    } else {
        match stmts.last() {
            StmtSyntax::Expr { expr } => match expr.kind {
                ExprKind::Path { path } => path_ident(&path),
                _ => None,
            },
            _ => None,
        }
    }
}

/// The diagnostic text for a function with no op that does not return an identifier.
pub open spec fn empty_body_msg() -> Seq<char> {
    "differentiable functions need at least one op or a passthrough identifier tail expression"@
}

/// Where generation starts: the parameters in scope, nothing saved, no steps, and, for a
/// function without op calls, the identifier it returns.
pub open spec fn spec_init_state(func: &FnSyntax, sig: FnSigView, calls: Seq<ResolvedView>) -> GenState {
    GenState {
        env: spec_param_env(func, sig.params, sig.params.len() as int)->Ok_0,
        saved: Seq::empty(),
        steps: Seq::empty(),
        final_out: if calls.len() == 0 {
            match tail_ident(func) {
                Some(n) => Some(OutView::Named(n)),
                None => None,
            }
        } else {
            None
        },
        final_ty: type_span(&func.output->Some_0),
    }
}

/// The expansion once the forward pass is generated as `st`: the backward pass over
/// its steps, and the launch families of the calls.
pub open spec fn spec_finish(func: &FnSyntax, sig: FnSigView, calls: Seq<ResolvedView>, st: GenState) -> Result<ExpansionView, Diag> {
    match st.final_out {
        None => Err(diag(func.span, empty_body_msg())),
        Some(out) => match spec_bwd_calls(st.steps, st.saved, st.steps.len() as int) {
            Err(e) => Err(e),
            Ok(backward) => Ok(
                ExpansionView {
                    name: sig.name,
                    saved: st.saved,
                    steps: st.steps,
                    backward,
                    traits: spec_required_traits(calls, calls.len() as int),
                    checkpoints: spec_checkpoints(st.steps, st.steps.len() as int),
                    final_out: out,
                    final_ty: st.final_ty,
                },
            ),
        },
    }
}

/// What the attribute expands `func` into, given its signature `sig` and its resolved op
/// calls, or the first diagnostic; forward diagnostics come before backward ones.
pub open spec fn spec_generate(func: &FnSyntax, sig: FnSigView, calls: Seq<ResolvedView>) -> Result<ExpansionView, Diag> {
    match spec_param_env(func, sig.params, sig.params.len() as int) {
        Err(e) => Err(e),
        Ok(_) => match spec_gen_steps(calls, calls.len() as int, spec_init_state(func, sig, calls), func.output->Some_0) {
            Err(e) => Err(e),
            Ok(st) => spec_finish(func, sig, calls, st),
        },
    }
}

/// The op names whose launches index their first two arguments.
pub open spec fn takes_two_args(op: Seq<char>) -> bool {
    op == "rmsnorm"@ || op == "linear"@ || op == "residual_add"@
}

/// Each call carries the entry registered for its op, and each call of an op whose
/// launches take two arguments has at least two.
pub open spec fn calls_well_formed(calls: Seq<ResolvedView>) -> bool {
    forall|i: int|
        0 <= i < calls.len() ==> {
            &&& spec_lookup((#[trigger] calls[i]).site.name) == Some(calls[i].entry)
            &&& calls[i].forward_launcher == calls[i].entry.forward_launcher
            &&& calls[i].backward_launcher == calls[i].entry.backward_launcher
            &&& takes_two_args(calls[i].site.name) ==> calls[i].site.args.len() >= 2
        }
}

/// The names in scope as plain values.
pub open spec fn env_view<'a>(v: Seq<(String, &'a TypeSyntax)>) -> EnvView {
    v.map_values(|p: (String, &'a TypeSyntax)| (p.0@, *p.1))
}

fn first_input<'a>(func: &'a FnSyntax, name: &str) -> (r: Option<&'a TypeSyntax>)
    ensures
        match r {
            Some(t) => first_input_ty(func.inputs@, name@, 0) == Some(*t),
            None => first_input_ty(func.inputs@, name@, 0) is None,
        },
{
    let mut i: usize = 0;
    while i < func.inputs.len()
        invariant
            i <= func.inputs@.len(),
            first_input_ty(func.inputs@, name@, 0) == first_input_ty(func.inputs@, name@, i as int),
        decreases func.inputs@.len() - i,
    {
        if let FnInput::Typed { pat: PatSyntax::Ident { name: n, .. }, ty } = &func.inputs[i] {
            if crate::adjoint_table::str_eq(n.as_str(), name) {
                return Some(ty);
            }
        }
        i = i + 1;
    }
    None
}

fn param_env<'a>(func: &'a FnSyntax, sig: &FnSig) -> (r: Result<Vec<(String, &'a TypeSyntax)>, MacroError>)
    ensures
        match r {
            Ok(env) => spec_param_env(func, sig@.params, sig@.params.len() as int) == Ok::<EnvView, Diag>(env_view(env@)),
            Err(e) => spec_param_env(func, sig@.params, sig@.params.len() as int) == Err::<EnvView, Diag>(e@),
        },
{
    let mut env: Vec<(String, &'a TypeSyntax)> = Vec::new();
    assert(env_view(env@) =~= Seq::<(Seq<char>, TypeSyntax)>::empty());
    let mut i: usize = 0;
    while i < sig.params.len()
        invariant
            i <= sig.params@.len(),
            sig@.params.len() == sig.params@.len(),
            spec_param_env(func, sig@.params, i as int) == Ok::<EnvView, Diag>(env_view(env@)),
        decreases sig.params@.len() - i,
    {
        let p = &sig.params[i];
        assert(sig@.params[i as int] == p@);
        match first_input(func, p.name.as_str()) {
            None => {
                proof {
                    lemma_param_env_err_sticks(func, sig@.params, i + 1, sig@.params.len() as int);
                }
                return Err(macro_error(CALL_SITE, "missing parameter type"));
            },
            Some(ty) => {
                let ghost before = env@;
                env.push((p.name.clone(), ty));
                assert(env_view(env@) =~= env_view(before).push((p@.name, *ty)));
            },
        }
        i = i + 1;
    }
    Ok(env)
}

/// Once finding the parameters' types fails, finding more of them fails the same way.
proof fn lemma_param_env_err_sticks(func: &FnSyntax, params: Seq<crate::signature::ParamView>, k: int, m: int)
    requires
        0 <= k <= m,
        spec_param_env(func, params, k) is Err,
    ensures
        spec_param_env(func, params, m) == spec_param_env(func, params, k),
    decreases m - k,
{
    if k < m {
        lemma_param_env_err_sticks(func, params, k, m - 1);
    }
}

fn find_binding<'a>(env: &Vec<(String, &'a TypeSyntax)>, name: &str) -> (r: Option<usize>)
    ensures
        match r {
            Some(i) => env_find(env_view(env@), name@, env@.len() as int) == Some(i as int),
            None => env_find(env_view(env@), name@, env@.len() as int) is None,
        },
{
    let mut k: usize = env.len();
    while k > 0
        invariant
            k <= env@.len(),
            env_find(env_view(env@), name@, env@.len() as int) == env_find(
                env_view(env@),
                name@,
                k as int,
            ),
        decreases k,
    {
        if crate::adjoint_table::str_eq(env[k - 1].0.as_str(), name) {
            return Some(k - 1);
        }
        k = k - 1;
    }
    None
}

fn ty_of_arg<'a>(e: &ExprSyntax, env: &Vec<(String, &'a TypeSyntax)>) -> (r: Result<usize, MacroError>)
    ensures
        match r {
            Ok(i) => spec_ty_of_arg(*e, env_view(env@)) == Ok::<int, Diag>(i as int),
            Err(err) => spec_ty_of_arg(*e, env_view(env@)) == Err::<int, Diag>(err@),
        },
{
    match &e.kind {
        ExprKind::Path { path } => match path.get_ident() {
            Some(name) => match find_binding(env, name.as_str()) {
                Some(i) => Ok(i),
                None => Err(
                    MacroError {
                        span: e.span,
                        message: concat3("unknown tensor `", name.as_str(), "`"),
                    },
                ),
            },
            None => Err(macro_error(e.span, "op arguments must be simple identifiers")),
        },
        _ => Err(macro_error(e.span, "op arguments must be identifier paths")),
    }
}

/// The argument expressions of a call as plain values.
pub open spec fn args_view<'b>(args: Seq<&'b ExprSyntax>) -> Seq<ExprSyntax> {
    args.map_values(|a: &'b ExprSyntax| *a)
}

/// Indices as integers.
pub open spec fn ints(v: Seq<usize>) -> Seq<int> {
    v.map_values(|i: usize| i as int)
}

fn arg_types<'a, 'b>(args: &Vec<&'b ExprSyntax>, env: &Vec<(String, &'a TypeSyntax)>) -> (r: Result<Vec<usize>, MacroError>)
    ensures
        match r {
            Ok(tys) => spec_arg_tys(args_view(args@), env_view(env@), args@.len() as int) == Ok::<Seq<int>, Diag>(ints(tys@)),
            Err(e) => spec_arg_tys(args_view(args@), env_view(env@), args@.len() as int) == Err::<Seq<int>, Diag>(e@),
            },
{
    let ghost av = args_view(args@);
    let mut tys: Vec<usize> = Vec::new();
    assert(ints(tys@) =~= Seq::<int>::empty());
    let mut i: usize = 0;
    while i < args.len()
        invariant
            av == args_view(args@),
            av.len() == args@.len(),
            i <= args@.len(),
            spec_arg_tys(av, env_view(env@), i as int) == Ok::<Seq<int>, Diag>(ints(tys@)),
        decreases args@.len() - i,
    {
        assert(av[i as int] == *args@[i as int]);
        match ty_of_arg(args[i], env) {
            Err(e) => {
                proof {
                    lemma_arg_tys_err_sticks(av, env_view(env@), i + 1, av.len() as int);
                }
                return Err(e);
            },
            Ok(k) => {
                let ghost before = tys@;
                tys.push(k);
                assert(ints(tys@) =~= ints(before).push(k as int));
            },
        }
        i = i + 1;
    }
    Ok(tys)
}

/// Once finding the arguments' bindings fails, finding more of them fails the same way.
proof fn lemma_arg_tys_err_sticks(args: Seq<ExprSyntax>, env: EnvView, k: int, m: int)
    requires
        0 <= k <= m,
        spec_arg_tys(args, env, k) is Err,
    ensures
        spec_arg_tys(args, env, m) == spec_arg_tys(args, env, k),
    decreases m - k,
{
    if k < m {
        lemma_arg_tys_err_sticks(args, env, k, m - 1);
    }
}

fn tensor_of_ty(ty: &TypeSyntax) -> (t: crate::signature::TensorSig)
    requires
        spec_parse_tensor(ty) is Ok,
    ensures
        t@ == tensor_of(*ty),
{
    match parse_tensor(ty) {
        Ok(t) => t,
        Err(_) => {
            proof {
                assert(false);
            }
            crate::signature::TensorSig {
                dtype: String::new(),
                shape: crate::signature::ShapeSig { rank: 0, dims: Vec::new() },
            }
        },
    }
}

fn shape_node_of(ty: &TypeSyntax) -> (n: usize)
    requires
        spec_parse_tensor(ty) is Ok,
    ensures
        n == shape_node(*ty),
{
    match ty {
        TypeSyntax::Path { path, .. } => {
            let last = &path.segments[path.segments.len() - 1];
            match &last.args {
                ArgsSyntax::Angle(args) => match &args[1] {
                    GenericArgSyntax::Type(t) => t.span(),
                    _ => CALL_SITE,
                },
                _ => CALL_SITE,
            }
        },
        _ => CALL_SITE,
    }
}

fn copy_dim(d: &Dim) -> (r: Dim)
    ensures
        r@ == d@,
{
    match d {
        Dim::Lit(n) => Dim::Lit(*n),
        Dim::Const(c) => Dim::Const(c.clone()),
    }
}

fn copy_out(o: &OutName) -> (r: OutName)
    ensures
        r@ == o@,
{
    match o {
        OutName::Named(s) => OutName::Named(s.clone()),
        OutName::Tail(k) => OutName::Tail(*k),
    }
}

fn is_stats_exec(spec: &str) -> (b: bool)
    ensures
        b == is_stats(spec@),
{
    crate::adjoint_table::str_eq(spec, "rms") || crate::adjoint_table::str_eq(spec, "mean")
        || crate::adjoint_table::str_eq(spec, "invstd") || crate::adjoint_table::str_eq(spec, "lse")
}

fn saved_arg_index_exec(spec: &str) -> (r: Option<usize>)
    ensures
        match r {
            Some(i) => saved_arg_index(spec@) == Some(i as int),
            None => saved_arg_index(spec@) is None,
        },
{
    if crate::adjoint_table::str_eq(spec, "x") || crate::adjoint_table::str_eq(spec, "lhs")
        || crate::adjoint_table::str_eq(spec, "q") || is_stats_exec(spec) {
        Some(0)
    } else if crate::adjoint_table::str_eq(spec, "weight") || crate::adjoint_table::str_eq(spec, "rhs")
        || crate::adjoint_table::str_eq(spec, "k") {
        Some(1)
    } else if crate::adjoint_table::str_eq(spec, "v") || crate::adjoint_table::str_eq(spec, "bias") {
        Some(2)
    } else {
        None
    }
}

fn saved_type<'a>(spec: &str, arg_tys: &Vec<usize>, env: &Vec<(String, &'a TypeSyntax)>) -> (r: Result<(String, SavedShape), MacroError>)
    requires
        env_tensors(env_view(env@)),
        forall|i: int| 0 <= i < arg_tys@.len() ==> (#[trigger] arg_tys@[i]) < env@.len(),
    ensures
        match r {
            Ok((d, sh)) => spec_saved_type(spec@, ints(arg_tys@), env_view(env@)) == Ok::<(Seq<char>, SavedShapeView), Diag>((d@, sh@)),
            Err(e) => spec_saved_type(spec@, ints(arg_tys@), env_view(env@)) == Err::<(Seq<char>, SavedShapeView), Diag>(e@),
        },
{
    let ghost ev = env_view(env@);
    if is_stats_exec(spec) {
        if arg_tys.len() == 0 {
            return Err(
                MacroError {
                    span: CALL_SITE,
                    message: concat3("saved spec `", spec, "` needs argument index 0"),
                },
            );
        }
        let ty: &TypeSyntax = env[arg_tys[0]].1;
        assert(ev[arg_tys@[0] as int].1 == *ty);
        assert(spec_parse_tensor(&ev[arg_tys@[0] as int].1) is Ok);
        let t = tensor_of_ty(ty);
        proof {
            crate::signature::lemma_tensor_rank(ty);
        }
        assert(ints(arg_tys@)[0] == arg_tys@[0] as int);
        let d = if t.shape.rank == 2 {
            assert(t@.shape.dims[0] == t.shape.dims@[0]@);
            copy_dim(&t.shape.dims[0])
        } else if t.shape.rank == 3 {
            assert(t@.shape.dims[1] == t.shape.dims@[1]@);
            copy_dim(&t.shape.dims[1])
        } else {
            return Err(macro_error(ty.span(), "stats saved type needs rank 2 or 3 input"));
        };
        Ok((t.dtype, SavedShape::Stats(d)))
    } else {
        match saved_arg_index_exec(spec) {
            None => Err(
                MacroError { span: CALL_SITE, message: concat3("unknown saved spec `", spec, "`") },
            ),
            Some(i) => if i >= arg_tys.len() {
                let n = usize_to_decimal(i);
                Err(
                    MacroError {
                        span: CALL_SITE,
                        message: concat(
                            concat3("saved spec `", spec, "` needs argument index ").as_str(),
                            n.as_str(),
                        ),
                    },
                )
            } else {
                let ty: &TypeSyntax = env[arg_tys[i]].1;
                assert(ints(arg_tys@)[i as int] == arg_tys@[i as int] as int);
                assert(ev[arg_tys@[i as int] as int].1 == *ty);
                assert(spec_parse_tensor(&ev[arg_tys@[i as int] as int].1) is Ok);
                let t = tensor_of_ty(ty);
                let n = shape_node_of(ty);
                Ok((t.dtype, SavedShape::Node(n)))
            },
        }
    }
}

fn step_saved<'a>(entry: &crate::adjoint_table::AdjointEntry, idx: usize, arg_tys: &Vec<usize>, env: &Vec<(String, &'a TypeSyntax)>) -> (r: Result<Vec<SavedField>, MacroError>)
    requires
        env_tensors(env_view(env@)),
        forall|i: int| 0 <= i < arg_tys@.len() ==> (#[trigger] arg_tys@[i]) < env@.len(),
    ensures
        match r {
            Ok(v) => spec_step_saved(entry@.saved, idx, ints(arg_tys@), env_view(env@), entry@.saved.len() as int) == Ok::<Seq<SavedView>, Diag>(saved_fields_view(v@)),
            Err(e) => spec_step_saved(entry@.saved, idx, ints(arg_tys@), env_view(env@), entry@.saved.len() as int) == Err::<Seq<SavedView>, Diag>(e@),
        },
{
    let ghost specs = entry@.saved;
    let mut fields: Vec<SavedField> = Vec::new();
    assert(saved_fields_view(fields@) =~= Seq::<SavedView>::empty());
    let mut k: usize = 0;
    while k < entry.saved.len()
        invariant
            specs == entry@.saved,
            specs.len() == entry.saved@.len(),
            k <= specs.len(),
            env_tensors(env_view(env@)),
            forall|i: int| 0 <= i < arg_tys@.len() ==> (#[trigger] arg_tys@[i]) < env@.len(),
            spec_step_saved(specs, idx, ints(arg_tys@), env_view(env@), k as int) == Ok::<Seq<SavedView>, Diag>(saved_fields_view(fields@)),
        decreases specs.len() - k,
    {
        let sp = entry.saved[k];
        assert(specs[k as int] == (sp.name@, sp.mode));
        if sp.mode == SaveMode::Store {
            match saved_type(sp.name, arg_tys, env) {
                Err(e) => {
                    proof {
                        lemma_step_saved_err_sticks(specs, idx, ints(arg_tys@), env_view(env@), k + 1, specs.len() as int);
                    }
                    return Err(e);
                },
                Ok((dtype, shape)) => {
                    let f = SavedField { step: idx, spec: sp.name, dtype, shape };
                    let ghost before = fields@;
                    fields.push(f);
                    assert(saved_fields_view(fields@) =~= saved_fields_view(before).push(f@));
                },
            }
        }
        k = k + 1;
    }
    Ok(fields)
}

/// Once building a step's saved fields fails, building more of them fails the same way.
proof fn lemma_step_saved_err_sticks(specs: Seq<(Seq<char>, SaveMode)>, idx: usize, arg_tys: Seq<int>, env: EnvView, k: int, m: int)
    requires
        0 <= k <= m,
        spec_step_saved(specs, idx, arg_tys, env, k) is Err,
    ensures
        spec_step_saved(specs, idx, arg_tys, env, m) == spec_step_saved(specs, idx, arg_tys, env, k),
    decreases m - k,
{
    if k < m {
        lemma_step_saved_err_sticks(specs, idx, arg_tys, env, k, m - 1);
    }
}

fn launch_dims(ty: &TypeSyntax) -> (r: Result<(Dim, Dim), MacroError>)
    requires
        spec_parse_tensor(ty) is Ok,
    ensures
        match r {
            Ok((a, b)) => spec_launch_dims(*ty) == Ok::<(DimView, DimView), Diag>((a@, b@)),
            Err(e) => spec_launch_dims(*ty) == Err::<(DimView, DimView), Diag>(e@),
        },
{
    let t = tensor_of_ty(ty);
    proof {
        crate::signature::lemma_tensor_rank(ty);
    }
    if t.shape.rank != 2 {
        return Err(macro_error(ty.span(), "launcher dims require rank-2 tensors"));
    }
    Ok((copy_dim(&t.shape.dims[0]), copy_dim(&t.shape.dims[1])))
}

fn find_field(fields: &Vec<SavedField>, from: usize, to: usize, spec: &str) -> (r: usize)
    requires
        from <= to <= fields@.len(),
        first_spec(saved_fields_view(fields@).subrange(from as int, to as int), spec@, 0) is Some,
    ensures
        r == from + first_spec(saved_fields_view(fields@).subrange(from as int, to as int), spec@, 0)->0,
        from <= r < to,
{
    let ghost sub = saved_fields_view(fields@).subrange(from as int, to as int);
    let mut i: usize = from;
    while i < to
        invariant
            from <= i <= to <= fields@.len(),
            sub == saved_fields_view(fields@).subrange(from as int, to as int),
            first_spec(sub, spec@, 0) == first_spec(sub, spec@, i - from),
        decreases to - i,
    {
        assert(sub[i - from] == fields@[i as int]@);
        if crate::adjoint_table::str_eq(fields[i].spec, spec) {
            return i;
        }
        i = i + 1;
    }
    i
}

/// The launch arguments as plain values.
pub open spec fn arg_plans_view(v: Seq<ArgPlan>) -> Seq<ArgView> {
    v.map_values(|a: ArgPlan| a@)
}

/// The launch sizes as plain values.
pub open spec fn extents_view(v: Seq<Extent>) -> Seq<ExtentView> {
    v.map_values(|e: Extent| e@)
}

fn fwd_call(
    op: &str,
    out: &OutName,
    out_ty: usize,
    args: &Vec<usize>,
    arg_tys: &Vec<usize>,
    saved: &Vec<SavedField>,
    base: usize,
    tokens: &Dim,
    dim: &Dim,
) -> (r: Result<KernelCall, MacroError>)
    requires
        takes_two_args(op@) ==> args@.len() >= 2 && arg_tys@.len() >= 2,
        base <= saved@.len(),
        op@ == "rmsnorm"@ ==> first_spec(saved_fields_view(saved@).subrange(base as int, saved@.len() as int), "rms"@, 0) is Some,
    ensures
        match r {
            Ok(c) => spec_fwd_call(op@, out@, out_ty, args@, arg_tys@, base as int, saved_fields_view(saved@).subrange(base as int, saved@.len() as int), tokens@, dim@) == Ok::<CallView, Diag>(c@),
            Err(e) => spec_fwd_call(op@, out@, out_ty, args@, arg_tys@, base as int, saved_fields_view(saved@).subrange(base as int, saved@.len() as int), tokens@, dim@) == Err::<CallView, Diag>(e@),
        },
{
    let ghost fv = saved_fields_view(saved@).subrange(base as int, saved@.len() as int);
    if crate::adjoint_table::str_eq(op, "rmsnorm") {
        let rms = find_field(saved, base, saved.len(), "rms");
        let a = vec![
            ArgPlan::Write { value: Operand::Out(copy_out(out)), ty: out_ty },
            ArgPlan::Read { value: Operand::Arg(args[0]), ty: arg_tys[0] },
            ArgPlan::Read { value: Operand::Arg(args[1]), ty: arg_tys[1] },
            ArgPlan::WriteSaved { field: rms },
        ];
        let x = vec![Extent::Dim(copy_dim(tokens)), Extent::Dim(copy_dim(dim))];
        let c = KernelCall { method: Method::RmsNormFwd, args: a, extents: x };
        assert(c@.args =~= spec_fwd_call(op@, out@, out_ty, args@, arg_tys@, base as int, fv, tokens@, dim@)->Ok_0.args);
        assert(c@.extents =~= spec_fwd_call(op@, out@, out_ty, args@, arg_tys@, base as int, fv, tokens@, dim@)->Ok_0.extents);
        Ok(c)
    } else if crate::adjoint_table::str_eq(op, "linear") {
        let a = vec![
            ArgPlan::Write { value: Operand::Out(copy_out(out)), ty: out_ty },
            ArgPlan::Read { value: Operand::Arg(args[0]), ty: arg_tys[0] },
            ArgPlan::Read { value: Operand::Arg(args[1]), ty: arg_tys[1] },
            ArgPlan::Unused { access: Access::Read },
        ];
        let x = vec![
            Extent::Dim(copy_dim(tokens)),
            Extent::Dim(copy_dim(dim)),
            Extent::Dim(copy_dim(dim)),
        ];
        let c = KernelCall { method: Method::LinearFwd, args: a, extents: x };
        assert(c@.args =~= spec_fwd_call(op@, out@, out_ty, args@, arg_tys@, base as int, fv, tokens@, dim@)->Ok_0.args);
        assert(c@.extents =~= spec_fwd_call(op@, out@, out_ty, args@, arg_tys@, base as int, fv, tokens@, dim@)->Ok_0.extents);
        Ok(c)
    } else if crate::adjoint_table::str_eq(op, "residual_add") {
        let a = vec![
            ArgPlan::Write { value: Operand::Out(copy_out(out)), ty: out_ty },
            ArgPlan::Read { value: Operand::Arg(args[0]), ty: arg_tys[0] },
            ArgPlan::Read { value: Operand::Arg(args[1]), ty: arg_tys[1] },
        ];
        let x = vec![Extent::Numel(out_ty)];
        let c = KernelCall { method: Method::ResidualAdd, args: a, extents: x };
        assert(c@.args =~= spec_fwd_call(op@, out@, out_ty, args@, arg_tys@, base as int, fv, tokens@, dim@)->Ok_0.args);
        assert(c@.extents =~= spec_fwd_call(op@, out@, out_ty, args@, arg_tys@, base as int, fv, tokens@, dim@)->Ok_0.extents);
        Ok(c)
    } else {
        Err(
            MacroError {
                span: CALL_SITE,
                message: concat3("forward codegen not implemented for op `", op, "`"),
            },
        )
    }
}

fn bwd_call(step: &Step, upstream: Operand, saved: &Vec<SavedField>) -> (r: Result<BackwardCall, MacroError>)
    requires
        step.saved_start <= step.saved_end <= saved@.len(),
        step.op@ == "rmsnorm"@ ==> first_spec(saved_fields_view(saved@).subrange(step.saved_start as int, step.saved_end as int), "x"@, 0) is Some
            && first_spec(saved_fields_view(saved@).subrange(step.saved_start as int, step.saved_end as int), "rms"@, 0) is Some,
        step.op@ == "linear"@ ==> first_spec(saved_fields_view(saved@).subrange(step.saved_start as int, step.saved_end as int), "x"@, 0) is Some,
        takes_two_args(step.op@) ==> step.args@.len() >= 2 && step.arg_tys@.len() >= 2,
    ensures
        match r {
            Ok(c) => spec_bwd_call(step@, upstream@, saved_fields_view(saved@)) == Ok::<BwdView, Diag>(c@),
            Err(e) => spec_bwd_call(step@, upstream@, saved_fields_view(saved@)) == Err::<BwdView, Diag>(e@),
        },
{
    let ghost sv = saved_fields_view(saved@);
    let ghost uv = upstream@;
    if crate::adjoint_table::str_eq(step.op.as_str(), "rmsnorm") {
        let x = find_field(saved, step.saved_start, step.saved_end, "x");
        let rms = find_field(saved, step.saved_start, step.saved_end, "rms");
        let consumes = vec![Consume { field: x, binding: "_x_off" }, Consume { field: rms, binding: "rms_off" }];
        let a = vec![
            ArgPlan::ReadWrite { value: Operand::Arg(step.args[0]), ty: step.arg_tys[0] },
            ArgPlan::Unused { access: Access::ReadWrite },
            ArgPlan::Read { value: upstream, ty: step.out_ty },
            ArgPlan::Read { value: Operand::Arg(step.args[0]), ty: step.arg_tys[0] },
            ArgPlan::ReadSaved { binding: "rms_off", field: rms },
            ArgPlan::Read { value: Operand::Arg(step.args[1]), ty: step.arg_tys[1] },
        ];
        let e = vec![Extent::Dim(copy_dim(&step.tokens)), Extent::Dim(copy_dim(&step.dim))];
        let c = BackwardCall { consumes, call: KernelCall { method: Method::RmsNormBwd, args: a, extents: e } };
        let ghost expected = spec_bwd_call(step@, uv, sv)->Ok_0;
        assert(c@.consumes =~= expected.consumes);
        assert(c@.call.args =~= expected.call.args);
        assert(c@.call.extents =~= expected.call.extents);
        Ok(c)
    } else if crate::adjoint_table::str_eq(step.op.as_str(), "linear") {
        let x = find_field(saved, step.saved_start, step.saved_end, "x");
        let consumes = vec![Consume { field: x, binding: "_x_off" }];
        let a = vec![
            ArgPlan::ReadWrite { value: Operand::Arg(step.args[0]), ty: step.arg_tys[0] },
            ArgPlan::Unused { access: Access::ReadWrite },
            ArgPlan::Unused { access: Access::ReadWrite },
            ArgPlan::Read { value: upstream, ty: step.out_ty },
            ArgPlan::Read { value: Operand::Arg(step.args[0]), ty: step.arg_tys[0] },
            ArgPlan::Read { value: Operand::Arg(step.args[1]), ty: step.arg_tys[1] },
        ];
        let e = vec![
            Extent::Dim(copy_dim(&step.tokens)),
            Extent::Dim(copy_dim(&step.dim)),
            Extent::Dim(copy_dim(&step.dim)),
        ];
        let c = BackwardCall { consumes, call: KernelCall { method: Method::LinearBwd, args: a, extents: e } };
        let ghost expected = spec_bwd_call(step@, uv, sv)->Ok_0;
        assert(c@.consumes =~= expected.consumes);
        assert(c@.call.args =~= expected.call.args);
        assert(c@.call.extents =~= expected.call.extents);
        Ok(c)
    } else {
        Err(
            MacroError {
                span: CALL_SITE,
                message: concat3("backward codegen not implemented for op `", step.op.as_str(), "`"),
            },
        )
    }
}

/// A step's saved fields lie within the saved fields, hold what its backward launch
/// takes back, and its launches' arguments are there.
pub open spec fn step_ok(step: StepView, saved: Seq<SavedView>) -> bool {
    let fields = saved.subrange(step.saved_start as int, step.saved_end as int);
    &&& step.saved_start <= step.saved_end <= saved.len()
    &&& step.op == "rmsnorm"@ ==> first_spec(fields, "x"@, 0) is Some && first_spec(fields, "rms"@, 0) is Some
    &&& step.op == "linear"@ ==> first_spec(fields, "x"@, 0) is Some
    &&& takes_two_args(step.op) ==> step.args.len() >= 2 && step.arg_tys.len() >= 2
}

/// An op's result name, written as in the generated code.
fn out_binding(o: &OutName) -> (s: String)
    ensures
        s@ == out_name(o@),
{
    match o {
        OutName::Named(n) => n.clone(),
        OutName::Tail(k) => {
            let d = usize_to_decimal(*k);
            concat("__out", d.as_str())
        },
    }
}

fn family_of_exec(op: &str) -> (r: Option<Family>)
    ensures
        r == family_of(op@),
{
    if crate::adjoint_table::str_eq(op, "rmsnorm") {
        Some(Family::RmsNorm)
    } else if crate::adjoint_table::str_eq(op, "layernorm") {
        Some(Family::LayerNorm)
    } else if crate::adjoint_table::str_eq(op, "linear") || crate::adjoint_table::str_eq(op, "matmul") {
        Some(Family::Matmul)
    } else if crate::adjoint_table::str_eq(op, "residual_add") {
        Some(Family::Elementwise)
    } else if crate::adjoint_table::str_eq(op, "swiglu_mlp") {
        Some(Family::Swiglu)
    } else if crate::adjoint_table::str_eq(op, "flash_attention") {
        Some(Family::Attention)
    } else {
        None
    }
}

fn has_family(v: &Vec<Family>, f: Family) -> (b: bool)
    ensures
        b == v@.contains(f),
{
    let mut i: usize = 0;
    while i < v.len()
        invariant
            i <= v@.len(),
            forall|j: int| 0 <= j < i ==> v@[j] != f,
        decreases v@.len() - i,
    {
        if v[i] == f {
            assert(v@[i as int] == f);
            return true;
        }
        i = i + 1;
    }
    false
}

/// The launch families that the generated functions ask of their launcher.
pub fn required_traits<'a>(calls: &[ResolvedOpCall<'a>]) -> (r: Vec<Family>)
    ensures
        r@ == spec_required_traits(resolved_view(calls@), calls@.len() as int),
{
    let ghost cv = resolved_view(calls@);
    let mut out: Vec<Family> = Vec::new();
    let mut i: usize = 0;
    while i < calls.len()
        invariant
            cv == resolved_view(calls@),
            cv.len() == calls@.len(),
            i <= calls@.len(),
            out@ == spec_required_traits(cv, i as int),
        decreases calls@.len() - i,
    {
        assert(cv[i as int].site.name == calls@[i as int].site.name@);
        if let Some(f) = family_of_exec(calls[i].site.name.as_str()) {
            if !has_family(&out, f) {
                out.push(f);
            }
        }
        i = i + 1;
    }
    out
}

fn tail_ident_of(func: &FnSyntax) -> (r: Option<String>)
    ensures
        match r {
            Some(s) => tail_ident(func) == Some(s@),
            None => tail_ident(func) is None,
        },
{
    let n = func.block.stmts.len();
    if n == 0 {
        return None;
    }
    match &func.block.stmts[n - 1] {
        StmtSyntax::Expr { expr } => match &expr.kind {
            ExprKind::Path { path } => path.get_ident(),
            _ => None,
        },
        _ => None,
    }
}

/// Reading the first `k` parameters succeeded: each typed input among them is a tensor.
proof fn lemma_params_are_tensors(inputs: Seq<FnInput>, k: int)
    requires
        0 <= k <= inputs.len(),
        crate::signature::spec_extract_params(inputs, k) is Ok,
    ensures
        forall|m: int|
            0 <= m < k && (#[trigger] inputs[m]) is Typed ==> spec_parse_tensor(&inputs[m]->Typed_ty) is Ok,
    decreases k,
{
    if k > 0 {
        lemma_params_are_tensors(inputs, k - 1);
    }
}

/// The type `first_input_ty` finds is the type of one of the inputs.
proof fn lemma_first_input_is_input(inputs: Seq<FnInput>, name: Seq<char>, i: int)
    requires
        0 <= i,
        first_input_ty(inputs, name, i) is Some,
    ensures
        exists|m: int|
            i <= m < inputs.len() && (#[trigger] inputs[m]) is Typed && inputs[m]->Typed_ty
                == first_input_ty(inputs, name, i)->0,
    decreases inputs.len() - i,
{
    if i < inputs.len() {
        match inputs[i] {
            FnInput::Typed { pat: PatSyntax::Ident { name: n, .. }, ty } => {
                if n@ != name {
                    lemma_first_input_is_input(inputs, name, i + 1);
                }
            },
            _ => {
                lemma_first_input_is_input(inputs, name, i + 1);
            },
        }
    }
}

/// The parameters' types found in a function whose signature reads all are tensors.
proof fn lemma_param_env_tensors(func: &FnSyntax, params: Seq<crate::signature::ParamView>, k: int)
    requires
        0 <= k,
        spec_param_env(func, params, k) is Ok,
        forall|m: int|
            0 <= m < func.inputs@.len() && (#[trigger] func.inputs@[m]) is Typed
                ==> spec_parse_tensor(&func.inputs@[m]->Typed_ty) is Ok,
    ensures
        env_tensors(spec_param_env(func, params, k)->Ok_0),
    decreases k,
{
    if k > 0 {
        lemma_param_env_tensors(func, params, k - 1);
        lemma_first_input_is_input(func.inputs@, params[k - 1].name, 0);
        let env = spec_param_env(func, params, k)->Ok_0;
        let prev = spec_param_env(func, params, k - 1)->Ok_0;
        assert forall|i: int| 0 <= i < env.len() implies (#[trigger] spec_parse_tensor(&env[i].1)) is Ok by {
            if i < prev.len() {
                assert(env[i] == prev[i]);
            }
        }
    }
}

/// The latest binding of a name is one of the bindings.
proof fn lemma_env_find_bounds(env: EnvView, name: Seq<char>, k: int)
    requires
        0 <= k <= env.len(),
    ensures
        env_find(env, name, k) matches Some(i) ==> 0 <= i < k,
    decreases k,
{
    if k > 0 {
        lemma_env_find_bounds(env, name, k - 1);
    }
}

/// Finding the bindings of `k` arguments gives `k` bindings in scope.
proof fn lemma_arg_tys_bounds(args: Seq<ExprSyntax>, env: EnvView, k: int)
    requires
        0 <= k,
        spec_arg_tys(args, env, k) is Ok,
    ensures
        spec_arg_tys(args, env, k)->Ok_0.len() == k,
        forall|i: int|
            0 <= i < k ==> 0 <= #[trigger] spec_arg_tys(args, env, k)->Ok_0[i] < env.len(),
    decreases k,
{
    if k > 0 {
        lemma_arg_tys_bounds(args, env, k - 1);
        match args[k - 1].kind {
            ExprKind::Path { path } => match path_ident(&path) {
                Some(name) => lemma_env_find_bounds(env, name, env.len() as int),
                None => {},
            },
            _ => {},
        }
        let tys = spec_arg_tys(args, env, k)->Ok_0;
        let prev = spec_arg_tys(args, env, k - 1)->Ok_0;
        assert forall|i: int| 0 <= i < k implies 0 <= #[trigger] tys[i] < env.len() by {
            if i < k - 1 {
                assert(tys[i] == prev[i]);
            }
        }
    }
}

/// The saved fields of a call of `rmsnorm` or `linear` with its registered entry hold
/// what their backward launches take back.
proof fn lemma_table_saved(r: ResolvedView, idx: usize, tys: Seq<int>, env: EnvView, fields: Seq<SavedView>)
    requires
        spec_lookup(r.site.name) == Some(r.entry),
        spec_step_saved(r.entry.saved, idx, tys, env, r.entry.saved.len() as int) == Ok::<Seq<SavedView>, Diag>(fields),
    ensures
        r.site.name == "rmsnorm"@ ==> first_spec(fields, "x"@, 0) is Some && first_spec(fields, "rms"@, 0) is Some,
        r.site.name == "linear"@ ==> first_spec(fields, "x"@, 0) is Some,
{
    crate::adjoint_table::lemma_lookup_finds_named_entry(r.site.name);
    reveal_strlit("x");
    reveal_strlit("rms");
    reveal_with_fuel(spec_step_saved, 3);
    if r.site.name == "rmsnorm"@ {
        assert(crate::adjoint_table::table_spec()[2].op == "rmsnorm"@);
        assert(r.entry == crate::adjoint_table::table_spec()[2]);
        assert(fields[0].spec == "x"@);
        assert(fields[1].spec == "rms"@);
        assert(first_spec(fields, "rms"@, 1) == Some(1int));
    }
    if r.site.name == "linear"@ {
        assert(crate::adjoint_table::table_spec()[1].op == "linear"@);
        assert(r.entry == crate::adjoint_table::table_spec()[1]);
        assert(fields[0].spec == "x"@);
    }
}

/// Where generation stands, as it runs.
struct Builder<'a> {
    env: Vec<(String, &'a TypeSyntax)>,
    saved: Vec<SavedField>,
    steps: Vec<Step>,
    final_out: Option<OutName>,
    final_ty: usize,
}

/// An optional result name as plain values.
pub open spec fn opt_out_view(o: Option<OutName>) -> Option<OutView> {
    match o {
        Some(x) => Some(x@),
        None => None,
    }
}

impl<'a> Builder<'a> {
    spec fn state(&self) -> GenState {
        GenState {
            env: env_view(self.env@),
            saved: saved_fields_view(self.saved@),
            steps: steps_view(self.steps@),
            final_out: opt_out_view(self.final_out),
            final_ty: self.final_ty,
        }
    }

    spec fn ok(&self) -> bool {
        &&& env_tensors(env_view(self.env@))
        &&& forall|j: int|
            0 <= j < self.steps@.len() ==> step_ok(
                #[trigger] steps_view(self.steps@)[j],
                saved_fields_view(self.saved@),
            )
    }
}

fn gen_step<'a>(b: &mut Builder<'a>, idx: usize, r: &ResolvedOpCall<'a>, output: &'a TypeSyntax) -> (res: Result<(), MacroError>)
    requires
        old(b).ok(),
        spec_lookup(r@.site.name) == Some(r@.entry),
        takes_two_args(r@.site.name) ==> r@.site.args.len() >= 2,
    ensures
        match res {
            Ok(_) => spec_gen_step(old(b).state(), idx, r@, *output) == Ok::<GenState, Diag>(final(b).state()) && final(b).ok(),
            Err(e) => spec_gen_step(old(b).state(), idx, r@, *output) == Err::<GenState, Diag>(e@),
        },
{
    reveal(spec_gen_step);
    let ghost st = b.state();
    let site = r.site;
    let out_ty: &'a TypeSyntax = match &site.dest {
        OpDest::Let { ty, .. } => *ty,
        OpDest::Tail => output,
    };
    let out: OutName = match &site.dest {
        OpDest::Let { ident, .. } => OutName::Named(ident.clone()),
        OpDest::Tail => OutName::Tail(idx),
    };
    let t = parse_tensor(out_ty)?;
    let tys = arg_types(&site.args, &b.env)?;
    proof {
        lemma_arg_tys_bounds(args_view(site.args@), env_view(b.env@), site.args@.len() as int);
        assert forall|i: int| 0 <= i < tys@.len() implies (#[trigger] tys@[i]) < b.env@.len() by {
            assert(ints(tys@)[i] == tys@[i] as int);
        }
    }
    let mut fields = step_saved(&r.entry, idx, &tys, &b.env)?;
    proof {
        lemma_table_saved(r@, idx, ints(tys@), env_view(b.env@), saved_fields_view(fields@));
    }
    let (tokens, dim) = launch_dims(out_ty)?;
    let out_shape = shape_node_of(out_ty);
    let mut args: Vec<usize> = Vec::new();
    let mut j: usize = 0;
    while j < site.args.len()
        invariant
            j <= site.args@.len(),
            args@ =~= args_view(site.args@).subrange(0, j as int).map_values(|e: ExprSyntax| e.span),
        decreases site.args@.len() - j,
    {
        args.push(site.args[j].span);
        j = j + 1;
    }
    assert(args_view(site.args@).subrange(0, site.args@.len() as int) =~= args_view(site.args@));
    let mut arg_tys: Vec<usize> = Vec::new();
    let mut j: usize = 0;
    while j < tys.len()
        invariant
            j <= tys@.len(),
            forall|i: int| 0 <= i < tys@.len() ==> (#[trigger] tys@[i]) < b.env@.len(),
            arg_tys@ =~= ints(tys@).subrange(0, j as int).map_values(
                |i: int| type_span(&env_view(b.env@)[i].1),
            ),
        decreases tys@.len() - j,
    {
        let k = tys[j];
        assert(env_view(b.env@)[k as int].1 == *b.env@[k as int].1);
        arg_tys.push(b.env[k].1.span());
        j = j + 1;
    }
    assert(ints(tys@).subrange(0, tys@.len() as int) =~= ints(tys@));
    let base = b.saved.len();
    let ghost fv = saved_fields_view(fields@);
    b.saved.append(&mut fields);
    assert(saved_fields_view(b.saved@) =~= st.saved + fv);
    assert(saved_fields_view(b.saved@).subrange(base as int, b.saved@.len() as int) =~= fv);
    let call = fwd_call(
        site.name.as_str(),
        &out,
        out_ty.span(),
        &args,
        &arg_tys,
        &b.saved,
        base,
        &tokens,
        &dim,
    )?;
    let name = out_binding(&out);
    b.env.push((name, out_ty));
    b.final_out = Some(copy_out(&out));
    b.final_ty = out_ty.span();
    let step = Step {
        op: site.name.clone(),
        out,
        out_ty: out_ty.span(),
        out_dtype: t.dtype,
        out_shape,
        args,
        arg_tys,
        saved_start: base,
        saved_end: b.saved.len(),
        tokens,
        dim,
        forward: call,
    };
    let ghost sv = step@;
    let ghost old_steps = b.steps@;
    b.steps.push(step);
    assert(steps_view(b.steps@) =~= steps_view(old_steps).push(sv));
    assert(env_view(b.env@) =~= st.env.push((out_name(sv.out), *out_ty)));
    assert forall|j: int| 0 <= j < b.steps@.len() implies step_ok(
        #[trigger] steps_view(b.steps@)[j],
        saved_fields_view(b.saved@),
    ) by {
        if j < old_steps.len() {
            let s = steps_view(old_steps)[j];
            assert(step_ok(s, st.saved));
            assert(saved_fields_view(b.saved@).subrange(s.saved_start as int, s.saved_end as int)
                =~= st.saved.subrange(s.saved_start as int, s.saved_end as int));
        }
    }
    Ok(())
}

/// Once generation fails at some call, generation over more calls fails the same way.
proof fn lemma_gen_steps_err_sticks(calls: Seq<ResolvedView>, k: int, m: int, init: GenState, output: TypeSyntax)
    requires
        0 <= k <= m,
        spec_gen_steps(calls, k, init, output) is Err,
    ensures
        spec_gen_steps(calls, m, init, output) == spec_gen_steps(calls, k, init, output),
    decreases m - k,
{
    if k < m {
        lemma_gen_steps_err_sticks(calls, k, m - 1, init, output);
    }
}

/// Once a backward launch fails, more of them fail the same way.
proof fn lemma_bwd_err_sticks(steps: Seq<StepView>, saved: Seq<SavedView>, k: int, m: int)
    requires
        0 <= k <= m,
        spec_bwd_calls(steps, saved, k) is Err,
    ensures
        spec_bwd_calls(steps, saved, m) == spec_bwd_calls(steps, saved, k),
    decreases m - k,
{
    if k < m {
        lemma_bwd_err_sticks(steps, saved, k, m - 1);
    }
}

/// Plans what the attribute expands a differentiable function into: the forward pass
/// over its op calls, the backward pass over them in reverse, and the saved state
/// between the two.
pub fn generate<'a>(func: &'a FnSyntax, sig: &FnSig, calls: &[ResolvedOpCall<'a>]) -> (r: Result<Expansion, MacroError>)
    requires
        spec_extract(func) == Ok::<FnSigView, Diag>(sig@),
        calls_well_formed(resolved_view(calls@)),
    ensures
        match r {
            Ok(x) => spec_generate(func, sig@, resolved_view(calls@)) == Ok::<ExpansionView, Diag>(x@),
            Err(e) => spec_generate(func, sig@, resolved_view(calls@)) == Err::<ExpansionView, Diag>(e@),
        },
{
    let ghost cv = resolved_view(calls@);
    let env = param_env(func, sig)?;
    proof {
        lemma_params_are_tensors(func.inputs@, func.inputs@.len() as int);
        lemma_param_env_tensors(func, sig@.params, sig@.params.len() as int);
    }
    let output: &'a TypeSyntax = match &func.output {
        Some(t) => t,
        None => {
            return Err(macro_error(func.ident_span, "missing return type"));
        },
    };
    let final_out = if calls.len() == 0 {
        match tail_ident_of(func) {
            Some(n) => Some(OutName::Named(n)),
            None => None,
        }
    } else {
        None
    };
    let mut b = Builder { env, saved: Vec::new(), steps: Vec::new(), final_out, final_ty: output.span() };
    let ghost init = b.state();
    assert(init.saved =~= Seq::<SavedView>::empty());
    assert(init.steps =~= Seq::<StepView>::empty());
    assert(*output == func.output->Some_0);
    assert(init == spec_init_state(func, sig@, cv));
    assert(spec_param_env(func, sig@.params, sig@.params.len() as int) is Ok);
    let mut i: usize = 0;
    while i < calls.len()
        invariant
            cv == resolved_view(calls@),
            cv.len() == calls@.len(),
            calls_well_formed(cv),
            i <= calls@.len(),
            b.ok(),
            init == spec_init_state(func, sig@, cv),
            *output == func.output->Some_0,
            spec_param_env(func, sig@.params, sig@.params.len() as int) is Ok,
            spec_gen_steps(cv, i as int, init, *output) == Ok::<GenState, Diag>(b.state()),
        decreases calls@.len() - i,
    {
        assert(cv[i as int] == calls@[i as int]@);
        if let Err(e) = gen_step(&mut b, i, &calls[i], output) {
            proof {
                lemma_gen_steps_err_sticks(cv, i + 1, cv.len() as int, init, *output);
            }
            return Err(e);
        }
        i = i + 1;
    }
    let final_out = match b.final_out {
        None => {
            return Err(
                macro_error(
                    func.span,
                    "differentiable functions need at least one op or a passthrough identifier tail expression",
                ),
            );
        },
        Some(o) => o,
    };
    let ghost stepsv = steps_view(b.steps@);
    let ghost savedv = saved_fields_view(b.saved@);
    let ghost fin = b.state();
    assert(spec_generate(func, sig@, cv) == spec_finish(func, sig@, cv, fin));
    let n = b.steps.len();
    let mut backward: Vec<BackwardCall> = Vec::new();
    assert(backward@.map_values(|c: BackwardCall| c@) =~= Seq::<BwdView>::empty());
    let mut j: usize = 0;
    while j < n
        invariant
            n == b.steps@.len(),
            stepsv == steps_view(b.steps@),
            savedv == saved_fields_view(b.saved@),
            b.ok(),
            j <= n,
            cv == resolved_view(calls@),
            fin.steps == stepsv,
            fin.saved == savedv,
            fin.final_out == Some(final_out@),
            fin.final_ty == b.final_ty,
            spec_generate(func, sig@, cv) == spec_finish(func, sig@, cv, fin),
            spec_bwd_calls(stepsv, savedv, j as int) == Ok::<Seq<BwdView>, Diag>(
                backward@.map_values(|c: BackwardCall| c@),
            ),
        decreases n - j,
    {
        let k = n - 1 - j;
        let upstream = if k == n - 1 {
            Operand::Dy
        } else {
            Operand::Out(copy_out(&b.steps[k].out))
        };
        assert(stepsv[k as int] == b.steps@[k as int]@);
        assert(upstream@ == upstream_of(stepsv, k as int));
        assert(step_ok(stepsv[k as int], savedv));
        match bwd_call(&b.steps[k], upstream, &b.saved) {
            Err(e) => {
                proof {
                    lemma_bwd_err_sticks(stepsv, savedv, j + 1, n as int);
                }
                assert(stepsv.len() == n);
                assert(spec_bwd_calls(fin.steps, fin.saved, fin.steps.len() as int) == Err::<Seq<BwdView>, Diag>(e@));
                return Err(e);
            },
            Ok(c) => {
                let ghost before = backward@;
                backward.push(c);
                assert(backward@.map_values(|c: BackwardCall| c@) =~= before.map_values(
                    |c: BackwardCall| c@,
                ).push(c@));
            },
        }
        j = j + 1;
    }
    let traits = required_traits(calls);
    let checkpoints = checkpoints_of(&b.steps);
    Ok(
        Expansion {
            name: sig.name.clone(),
            saved: b.saved,
            steps: b.steps,
            checkpoints,
            backward,
            traits,
            final_out,
            final_ty: b.final_ty,
        },
    )
}

/// The saved fields built for step `idx` all belong to step `idx`.
proof fn lemma_step_saved_step(specs: Seq<(Seq<char>, SaveMode)>, idx: usize, tys: Seq<int>, env: EnvView, k: int)
    requires
        0 <= k,
        spec_step_saved(specs, idx, tys, env, k) is Ok,
    ensures
        forall|j: int|
            0 <= j < spec_step_saved(specs, idx, tys, env, k)->Ok_0.len() ==> (#[trigger] spec_step_saved(
                specs,
                idx,
                tys,
                env,
                k,
            )->Ok_0[j]).step == idx,
    decreases k,
{
    if k > 0 {
        lemma_step_saved_step(specs, idx, tys, env, k - 1);
        let prev = spec_step_saved(specs, idx, tys, env, k - 1)->Ok_0;
        let cur = spec_step_saved(specs, idx, tys, env, k)->Ok_0;
        assert forall|j: int| 0 <= j < cur.len() implies (#[trigger] cur[j]).step == idx by {
            if j < prev.len() {
                assert(cur[j] == prev[j]);
            }
        }
    }
}

/// How the steps generated for the first `k` calls line up with the calls and with the
/// saved fields.
pub open spec fn steps_follow_calls(calls: Seq<ResolvedView>, k: int, st: GenState) -> bool {
    &&& st.steps.len() == k
    &&& forall|i: int| 0 <= i < k ==> (#[trigger] st.steps[i]).op == calls[i].site.name
    &&& forall|i: int|
        0 <= i < k ==> (#[trigger] st.steps[i]).saved_start <= st.steps[i].saved_end <= st.saved.len()
    &&& forall|i: int, j: int|
        #![trigger st.steps[i], st.steps[j]]
        0 <= i && j == i + 1 && j < k ==> st.steps[i].saved_end == st.steps[j].saved_start
    &&& k == 0 ==> st.saved.len() == 0
    &&& k > 0 ==> st.steps[0].saved_start == 0 && st.steps[k - 1].saved_end == st.saved.len()
    &&& forall|i: int, j: int|
        0 <= i < k && (#[trigger] st.steps[i]).saved_start <= j < st.steps[i].saved_end
            ==> (#[trigger] st.saved[j]).step == i
}

/// One generation step adds one step for the call, after the saved fields so far, and
/// saved fields that all belong to it.
proof fn lemma_gen_step_shape(st: GenState, idx: usize, r: ResolvedView, output: TypeSyntax)
    requires
        spec_gen_step(st, idx, r, output) is Ok,
    ensures
        ({
            let st2 = spec_gen_step(st, idx, r, output)->Ok_0;
            &&& st2.steps.len() == st.steps.len() + 1
            &&& forall|i: int| 0 <= i < st.steps.len() ==> #[trigger] st2.steps[i] == st.steps[i]
            &&& st2.steps[st.steps.len() as int].op == r.site.name
            &&& st2.steps[st.steps.len() as int].saved_start == st.saved.len() as usize
            &&& st2.steps[st.steps.len() as int].saved_end == st2.saved.len() as usize
            &&& st2.saved.len() >= st.saved.len()
            &&& forall|j: int| 0 <= j < st.saved.len() ==> #[trigger] st2.saved[j] == st.saved[j]
            &&& forall|j: int| st.saved.len() <= j < st2.saved.len() ==> (#[trigger] st2.saved[j]).step == idx
        }),
{
    reveal(spec_gen_step);
    let out_ty = match r.site.dest {
        DestView::Let { ty, .. } => ty,
        DestView::Tail => output,
    };
    let tys = spec_arg_tys(r.site.args, st.env, r.site.args.len() as int)->Ok_0;
    let fields = spec_step_saved(r.entry.saved, idx, tys, st.env, r.entry.saved.len() as int)->Ok_0;
    lemma_step_saved_step(r.entry.saved, idx, tys, st.env, r.entry.saved.len() as int);
    let st2 = spec_gen_step(st, idx, r, output)->Ok_0;
    assert(st2.saved == st.saved + fields);
    assert forall|j: int| st.saved.len() <= j < st2.saved.len() implies (#[trigger] st2.saved[j]).step == idx by {
        assert(st2.saved[j] == fields[j - st.saved.len()]);
    }
}

proof fn lemma_gen_steps_follow(calls: Seq<ResolvedView>, k: int, init: GenState, output: TypeSyntax)
    requires
        0 <= k <= calls.len() <= usize::MAX,
        init.steps.len() == 0,
        init.saved.len() == 0,
        spec_gen_steps(calls, k, init, output) is Ok,
        spec_gen_steps(calls, k, init, output)->Ok_0.saved.len() <= usize::MAX,
    ensures
        steps_follow_calls(calls, k, spec_gen_steps(calls, k, init, output)->Ok_0),
    decreases k,
{
    if k > 0 {
        let prev = spec_gen_steps(calls, k - 1, init, output)->Ok_0;
        let st = spec_gen_steps(calls, k, init, output)->Ok_0;
        lemma_gen_step_shape(prev, (k - 1) as usize, calls[k - 1], output);
        lemma_gen_steps_follow(calls, k - 1, init, output);
        assert forall|i: int, j: int|
            0 <= i < k && (#[trigger] st.steps[i]).saved_start <= j < st.steps[i].saved_end
                implies (#[trigger] st.saved[j]).step == i by {
            if i < k - 1 {
                assert(st.steps[i] == prev.steps[i]);
                assert(st.saved[j] == prev.saved[j]);
            } else {
                assert(prev.saved.len() <= st.saved.len() <= usize::MAX);
                assert(st.steps[i].saved_start == prev.saved.len());
                assert(st.steps[i].saved_end == st.saved.len());
            }
        }
        assert forall|i: int, j: int|
            #![trigger st.steps[i], st.steps[j]]
            0 <= i && j == i + 1 && j < k implies st.steps[i].saved_end == st.steps[j].saved_start by {
            assert(st.steps[i] == prev.steps[i]);
            if j < k - 1 {
                assert(st.steps[j] == prev.steps[j]);
            }
        }
        assert forall|i: int| 0 <= i < k implies (#[trigger] st.steps[i]).op == calls[i].site.name
            && st.steps[i].saved_start <= st.steps[i].saved_end <= st.saved.len() by {
            if i < k - 1 {
                assert(st.steps[i] == prev.steps[i]);
            }
        }
        if k > 1 {
            assert(st.steps[0] == prev.steps[0]);
        }
    }
}

/// Generating the backward launches of the last `j` steps gives `j` of them.
proof fn lemma_bwd_len(steps: Seq<StepView>, saved: Seq<SavedView>, j: int)
    requires
        0 <= j,
        spec_bwd_calls(steps, saved, j) is Ok,
    ensures
        spec_bwd_calls(steps, saved, j)->Ok_0.len() == j,
    decreases j,
{
    if j > 0 {
        lemma_bwd_len(steps, saved, j - 1);
    }
}

/// The families needed by some calls are each listed once.
proof fn lemma_traits_distinct(calls: Seq<ResolvedView>, k: int)
    requires
        0 <= k,
    ensures
        spec_required_traits(calls, k).no_duplicates(),
    decreases k,
{
    if k > 0 {
        lemma_traits_distinct(calls, k - 1);
    }
}

/// A successful expansion has one forward step for each op call, in call order, each
/// with the op it calls; one backward launch for each step; saved fields laid out step
/// after step, each within the range of the step that saves it; and each launch family
/// listed once.
pub proof fn lemma_expansion_follows_calls(func: &FnSyntax, sig: FnSigView, calls: Seq<ResolvedView>)
    requires
        calls.len() <= usize::MAX,
        spec_generate(func, sig, calls) is Ok,
        spec_generate(func, sig, calls)->Ok_0.saved.len() <= usize::MAX,
    ensures
        ({
            let x = spec_generate(func, sig, calls)->Ok_0;
            &&& x.steps.len() == calls.len()
            &&& x.backward.len() == calls.len()
            &&& forall|i: int| 0 <= i < calls.len() ==> (#[trigger] x.steps[i]).op == calls[i].site.name
            &&& forall|i: int|
                0 <= i < calls.len() ==> (#[trigger] x.steps[i]).saved_start <= x.steps[i].saved_end
                    <= x.saved.len()
            &&& forall|i: int, j: int|
                #![trigger x.steps[i], x.steps[j]]
                0 <= i && j == i + 1 && j < calls.len() ==> x.steps[i].saved_end == x.steps[j].saved_start
            &&& calls.len() == 0 ==> x.saved.len() == 0
            &&& calls.len() > 0 ==> x.steps[0].saved_start == 0 && x.steps[calls.len() - 1].saved_end
                == x.saved.len()
            &&& forall|i: int, j: int|
                0 <= i < calls.len() && (#[trigger] x.steps[i]).saved_start <= j < x.steps[i].saved_end
                    ==> (#[trigger] x.saved[j]).step == i
            &&& x.traits.no_duplicates()
        }),
{
    let init = spec_init_state(func, sig, calls);
    let output = func.output->Some_0;
    let st = spec_gen_steps(calls, calls.len() as int, init, output)->Ok_0;
    lemma_gen_steps_follow(calls, calls.len() as int, init, output);
    lemma_bwd_len(st.steps, st.saved, st.steps.len() as int);
    lemma_traits_distinct(calls, calls.len() as int);
}

/// The indices, in order, of the first `k` steps whose result is bound by `let`: the
/// results the forward pass keeps for the backward pass.
pub open spec fn spec_checkpoints(steps: Seq<StepView>, k: int) -> Seq<usize>
    decreases k,
{
    if k <= 0 {
        Seq::empty()
    } else if steps[k - 1].out is Named {
        spec_checkpoints(steps, k - 1).push((k - 1) as usize)
    } else {
        spec_checkpoints(steps, k - 1)
    }
}

fn checkpoints_of(steps: &Vec<Step>) -> (r: Vec<usize>)
    ensures
        r@ == spec_checkpoints(steps_view(steps@), steps@.len() as int),
{
    let ghost sv = steps_view(steps@);
    let mut r: Vec<usize> = Vec::new();
    let mut i: usize = 0;
    while i < steps.len()
        invariant
            sv == steps_view(steps@),
            i <= steps@.len(),
            r@ == spec_checkpoints(sv, i as int),
        decreases steps@.len() - i,
    {
        assert(sv[i as int] == steps@[i as int]@);
        if let OutName::Named(_) = &steps[i].out {
            r.push(i);
        }
        i = i + 1;
    }
    r
}


/// The `k`-th backward launch of the last `j` steps goes back over step `n - 1 - k`.
proof fn lemma_bwd_calls_index(steps: Seq<StepView>, saved: Seq<SavedView>, j: int)
    requires
        0 <= j <= steps.len(),
        spec_bwd_calls(steps, saved, j) is Ok,
    ensures
        spec_bwd_calls(steps, saved, j)->Ok_0.len() == j,
        forall|k: int|
            0 <= k < j ==> spec_bwd_call(
                steps[steps.len() - 1 - k],
                upstream_of(steps, steps.len() - 1 - k),
                saved,
            ) == Ok::<BwdView, Diag>(#[trigger] spec_bwd_calls(steps, saved, j)->Ok_0[k]),
    decreases j,
{
    if j > 0 {
        lemma_bwd_calls_index(steps, saved, j - 1);
        let prev = spec_bwd_calls(steps, saved, j - 1)->Ok_0;
        let cur = spec_bwd_calls(steps, saved, j)->Ok_0;
        assert forall|k: int| 0 <= k < j implies spec_bwd_call(
            steps[steps.len() - 1 - k],
            upstream_of(steps, steps.len() - 1 - k),
            saved,
        ) == Ok::<BwdView, Diag>(#[trigger] cur[k]) by {
            if k < j - 1 {
                assert(cur[k] == prev[k]);
            }
        }
    }
}

/// The forward pass and the backward pass of a successful expansion, as generation
/// builds them from the calls.
proof fn lemma_generate_parts(func: &FnSyntax, sig: FnSigView, calls: Seq<ResolvedView>)
    requires
        spec_generate(func, sig, calls) is Ok,
    ensures
        ({
            let init = spec_init_state(func, sig, calls);
            let output = func.output->Some_0;
            let x = spec_generate(func, sig, calls)->Ok_0;
            &&& spec_gen_steps(calls, calls.len() as int, init, output) is Ok
            &&& x.steps == spec_gen_steps(calls, calls.len() as int, init, output)->Ok_0.steps
            &&& x.saved == spec_gen_steps(calls, calls.len() as int, init, output)->Ok_0.saved
            &&& spec_bwd_calls(x.steps, x.saved, x.steps.len() as int) == Ok::<Seq<BwdView>, Diag>(
                x.backward,
            )
        }),
{
}

/// Each launch of a generated backward pass reads the gradient of the result of the step
/// it goes back over. The launches run last step first, so the `j`-th goes back over step
/// `n - 1 - j`; the first of them reads `dy`, the gradient handed to the backward pass,
/// and every later one reads the buffer its step's result is bound to, into which the
/// launch before it wrote that result's gradient. Each is sized as its step's forward
/// launch is.
pub proof fn lemma_backward_reads_upstream(func: &FnSyntax, sig: FnSigView, calls: Seq<ResolvedView>)
    requires
        spec_generate(func, sig, calls) is Ok,
    ensures
        ({
            let x = spec_generate(func, sig, calls)->Ok_0;
            let n = x.steps.len() as int;
            &&& x.backward.len() == n
            &&& forall|j: int|
                0 <= j < n ==> {
                    let s = x.steps[n - 1 - j];
                    let up = if j == 0 {
                        OperandView::Dy
                    } else {
                        OperandView::Out(s.out)
                    };
                    &&& s.op == "rmsnorm"@ || s.op == "linear"@
                    &&& s.op == "rmsnorm"@ ==> (#[trigger] x.backward[j]).call.method
                        == Method::RmsNormBwd && x.backward[j].call.args[2] == (ArgView::Read {
                        value: up,
                        ty: s.out_ty,
                    })
                        && x.backward[j].call.extents == seq![
                        ExtentView::Dim(s.tokens),
                        ExtentView::Dim(s.dim),
                    ]
                    &&& s.op == "linear"@ ==> x.backward[j].call.method == Method::LinearBwd
                        && x.backward[j].call.args[3] == (ArgView::Read { value: up, ty: s.out_ty })
                        && x.backward[j].call.extents == seq![
                        ExtentView::Dim(s.tokens),
                        ExtentView::Dim(s.dim),
                        ExtentView::Dim(s.dim),
                    ]
                }
        }),
{
    lemma_generate_parts(func, sig, calls);
    let x = spec_generate(func, sig, calls)->Ok_0;
    let n = x.steps.len() as int;
    lemma_bwd_calls_index(x.steps, x.saved, n);
    reveal_strlit("rmsnorm");
    reveal_strlit("linear");
    assert("rmsnorm"@ != "linear"@) by {
        assert("rmsnorm"@.len() != "linear"@.len());
    }
    assert forall|j: int| 0 <= j < n implies {
        let s = x.steps[n - 1 - j];
        let up = if j == 0 {
            OperandView::Dy
        } else {
            OperandView::Out(s.out)
        };
        &&& s.op == "rmsnorm"@ || s.op == "linear"@
        &&& s.op == "rmsnorm"@ ==> (#[trigger] x.backward[j]).call.method == Method::RmsNormBwd
            && x.backward[j].call.args[2] == (ArgView::Read { value: up, ty: s.out_ty })
            && x.backward[j].call.extents == seq![ExtentView::Dim(s.tokens), ExtentView::Dim(s.dim)]
        &&& s.op == "linear"@ ==> x.backward[j].call.method == Method::LinearBwd
            && x.backward[j].call.args[3] == (ArgView::Read { value: up, ty: s.out_ty })
            && x.backward[j].call.extents == seq![
            ExtentView::Dim(s.tokens),
            ExtentView::Dim(s.dim),
            ExtentView::Dim(s.dim),
        ]
    } by {
        let s = x.steps[n - 1 - j];
        assert(spec_bwd_call(s, upstream_of(x.steps, n - 1 - j), x.saved) == Ok::<BwdView, Diag>(
            x.backward[j],
        ));
    }
}

/// The type the result of op call `r` is bound to: the type written on its `let`, or the
/// function's result type `output` for the tail call.
pub open spec fn result_type(r: ResolvedView, output: TypeSyntax) -> TypeSyntax {
    match r.site.dest {
        DestView::Let { ty, .. } => ty,
        DestView::Tail => output,
    }
}

/// The launch of a step is sized by the type its result is bound to: that type is a
/// rank-2 tensor `Tensor<T, S2<A, B>>`, the step runs over `A` rows (`tokens`) of `B`
/// values (`dim`), and an `rmsnorm` or `linear` step's forward launch is given the two in
/// that order (`linear` the second once more, for a square weight).
pub open spec fn sized_by_result(step: StepView, ty: TypeSyntax) -> bool {
    let t = spec_parse_tensor(&ty);
    &&& t is Ok
    &&& t->Ok_0.shape.rank == 2
    &&& step.tokens == t->Ok_0.shape.dims[0]
    &&& step.dim == t->Ok_0.shape.dims[1]
    &&& step.op == "rmsnorm"@ ==> step.forward.extents == seq![
        ExtentView::Dim(t->Ok_0.shape.dims[0]),
        ExtentView::Dim(t->Ok_0.shape.dims[1]),
    ]
    &&& step.op == "linear"@ ==> step.forward.extents == seq![
        ExtentView::Dim(t->Ok_0.shape.dims[0]),
        ExtentView::Dim(t->Ok_0.shape.dims[1]),
        ExtentView::Dim(t->Ok_0.shape.dims[1]),
    ]
}

/// One generation step adds a step sized by the result type of its call.
proof fn lemma_gen_step_sized(st: GenState, idx: usize, r: ResolvedView, output: TypeSyntax)
    requires
        spec_gen_step(st, idx, r, output) is Ok,
    ensures
        ({
            let st2 = spec_gen_step(st, idx, r, output)->Ok_0;
            &&& st2.steps.len() == st.steps.len() + 1
            &&& forall|i: int| 0 <= i < st.steps.len() ==> #[trigger] st2.steps[i] == st.steps[i]
            &&& sized_by_result(st2.steps[st.steps.len() as int], result_type(r, output))
        }),
{
    reveal(spec_gen_step);
    reveal_strlit("rmsnorm");
    reveal_strlit("linear");
    assert("rmsnorm"@ != "linear"@) by {
        assert("rmsnorm"@.len() != "linear"@.len());
    }
}

/// Every step generated for the first `k` calls is sized by the result type of its call.
proof fn lemma_gen_steps_sized(calls: Seq<ResolvedView>, k: int, init: GenState, output: TypeSyntax)
    requires
        0 <= k <= calls.len(),
        spec_gen_steps(calls, k, init, output) is Ok,
    ensures
        ({
            let st = spec_gen_steps(calls, k, init, output)->Ok_0;
            &&& st.steps.len() == init.steps.len() + k
            &&& forall|i: int| 0 <= i < init.steps.len() ==> #[trigger] st.steps[i] == init.steps[i]
            &&& forall|i: int|
                0 <= i < k ==> sized_by_result(
                    #[trigger] st.steps[init.steps.len() + i],
                    result_type(calls[i], output),
                )
        }),
    decreases k,
{
    if k > 0 {
        lemma_gen_steps_sized(calls, k - 1, init, output);
        let prev = spec_gen_steps(calls, k - 1, init, output)->Ok_0;
        let st = spec_gen_steps(calls, k, init, output)->Ok_0;
        lemma_gen_step_sized(prev, (k - 1) as usize, calls[k - 1], output);
        assert forall|i: int| 0 <= i < k implies sized_by_result(
            #[trigger] st.steps[init.steps.len() + i],
            result_type(calls[i], output),
        ) by {
            if i < k - 1 {
                assert(st.steps[init.steps.len() + i] == prev.steps[init.steps.len() + i]);
            }
        }
        assert forall|i: int| 0 <= i < init.steps.len() implies #[trigger] st.steps[i] == init.steps[i] by {
            assert(st.steps[i] == prev.steps[i]);
        }
    }
}

/// Each forward step of a successful expansion is sized by the type its call's result is
/// bound to: for a result of type `Tensor<T, S2<A, B>>` the launch runs over `tokens == A`
/// rows of `dim == B` values, the first dimension then the second, and an `rmsnorm` launch
/// is given `A` and `B` in that order.
pub proof fn lemma_launch_sized_by_result(func: &FnSyntax, sig: FnSigView, calls: Seq<ResolvedView>)
    requires
        spec_generate(func, sig, calls) is Ok,
    ensures
        ({
            let x = spec_generate(func, sig, calls)->Ok_0;
            &&& x.steps.len() == calls.len()
            &&& forall|i: int|
                0 <= i < calls.len() ==> sized_by_result(
                    #[trigger] x.steps[i],
                    result_type(calls[i], func.output->Some_0),
                )
        }),
{
    lemma_generate_parts(func, sig, calls);
    let init = spec_init_state(func, sig, calls);
    lemma_gen_steps_sized(calls, calls.len() as int, init, func.output->Some_0);
    let x = spec_generate(func, sig, calls)->Ok_0;
    assert(init.steps.len() == 0);
    assert forall|i: int| 0 <= i < calls.len() implies sized_by_result(
        #[trigger] x.steps[i],
        result_type(calls[i], func.output->Some_0),
    ) by {
        assert(x.steps[i] == x.steps[init.steps.len() + i]);
    }
}

/// The number of rows of a tensor type whose statistics are kept one per row: the first
/// dimension of a rank-2 tensor `S2<R, C>`, and the middle one of a rank-3 tensor
/// `S3<B, R, C>`.
pub open spec fn row_count(t: TensorView) -> Option<DimView> {
    if t.shape.rank == 2 {
        Some(t.shape.dims[0])
    } else if t.shape.rank == 3 {
        Some(t.shape.dims[1])
    } else {
        None
    }
}

/// A saved row statistic (`rms`, `mean`, `invstd` or `lse`) of an op is one value per row
/// of the op's first argument: when that argument's type is `Tensor<T, S2<R, C>>` (or
/// `Tensor<T, S3<B, R, C>>`), the statistic has element type `T` and the one-dimensional
/// shape `R`; for a first argument of any other rank there is no such saved value.
pub proof fn lemma_stats_one_per_row(spec: Seq<char>, arg_tys: Seq<int>, env: EnvView)
    requires
        is_stats(spec),
        arg_tys.len() > 0,
        spec_parse_tensor(&env[arg_tys[0]].1) is Ok,
    ensures
        ({
            let t = spec_parse_tensor(&env[arg_tys[0]].1)->Ok_0;
            match row_count(t) {
                Some(rows) => spec_saved_type(spec, arg_tys, env) == Ok::<(Seq<char>, SavedShapeView), Diag>(
                    (t.dtype, SavedShapeView::Stats(rows)),
                ),
                None => spec_saved_type(spec, arg_tys, env) is Err,
            }
        }),
{
}

/// Every row statistic an op's saved fields keep has one value per row of the op's first
/// argument.
pub proof fn lemma_saved_stats_per_row(
    specs: Seq<(Seq<char>, SaveMode)>,
    idx: usize,
    arg_tys: Seq<int>,
    env: EnvView,
    k: int,
)
    requires
        0 <= k <= specs.len(),
        spec_step_saved(specs, idx, arg_tys, env, k) is Ok,
        arg_tys.len() > 0,
        spec_parse_tensor(&env[arg_tys[0]].1) is Ok,
    ensures
        forall|j: int|
            0 <= j < spec_step_saved(specs, idx, arg_tys, env, k)->Ok_0.len() && is_stats(
                (#[trigger] spec_step_saved(specs, idx, arg_tys, env, k)->Ok_0[j]).spec,
            ) ==> spec_step_saved(specs, idx, arg_tys, env, k)->Ok_0[j].shape == SavedShapeView::Stats(
                row_count(spec_parse_tensor(&env[arg_tys[0]].1)->Ok_0)->Some_0,
            ),
    decreases k,
{
    if k > 0 {
        lemma_saved_stats_per_row(specs, idx, arg_tys, env, k - 1);
        let prev = spec_step_saved(specs, idx, arg_tys, env, k - 1)->Ok_0;
        let cur = spec_step_saved(specs, idx, arg_tys, env, k)->Ok_0;
        if specs[k - 1].1 == SaveMode::Store && is_stats(specs[k - 1].0) {
            lemma_stats_one_per_row(specs[k - 1].0, arg_tys, env);
        }
        assert forall|j: int| 0 <= j < cur.len() && is_stats((#[trigger] cur[j]).spec) implies cur[j].shape
            == SavedShapeView::Stats(row_count(spec_parse_tensor(&env[arg_tys[0]].1)->Ok_0)->Some_0) by {
            if j < prev.len() {
                assert(cur[j] == prev[j]);
            }
        }
    }
}

/// A registered op keeps in memory exactly those saved values that are one of its
/// arguments or statistics of its first argument's rows, the values the generated code
/// can lay out from the call's argument types; every value its forward pass computes on
/// the way (the SwiGLU projections `gate` and `up`, the attention `scores`) is computed
/// again by its backward pass.
pub proof fn lemma_stores_exactly_arguments_and_stats(op: Seq<char>)
    ensures
        spec_lookup(op) matches Some(e) ==> forall|k: int|
            0 <= k < e.saved.len() ==> ((#[trigger] e.saved[k]).1 == SaveMode::Store
                <==> saved_arg_index(e.saved[k].0) is Some),
{
    crate::adjoint_table::lemma_lookup_finds_named_entry(op);
    reveal_strlit("x");
    reveal_strlit("lhs");
    reveal_strlit("rhs");
    reveal_strlit("q");
    reveal_strlit("k");
    reveal_strlit("v");
    reveal_strlit("bias");
    reveal_strlit("weight");
    reveal_strlit("rms");
    reveal_strlit("mean");
    reveal_strlit("invstd");
    reveal_strlit("lse");
    reveal_strlit("scores");
    reveal_strlit("gate");
    reveal_strlit("up");
    let t = crate::adjoint_table::table_spec();
    assert forall|i: int, k: int|
        0 <= i < t.len() && 0 <= k < t[i].saved.len() implies ((#[trigger] t[i].saved[k]).1
        == SaveMode::Store <==> saved_arg_index(t[i].saved[k].0) is Some) by {
        let name = t[i].saved[k].0;
        if name == "gate"@ || name == "up"@ || name == "scores"@ {
            assert(name[0] == 'g' || name[0] == 'u' || name[0] == 's');
        }
    }
}

} // verus!
