use vstd::prelude::*;
use vstd::string::StrSliceExecFns;
use crate::syntax::{
    ArgsSyntax, ConstExprSyntax, Diag, FnInput, FnSyntax, GenericArgSyntax, MacroError, PatSyntax,
    TypeSyntax, diag, diag_result, macro_error, path_ident, pat_span, type_span, generic_arg_span,
    const_span,
};
use crate::text::{concat, concat3, decimal, usize_to_decimal};

verus! {

/// One dimension of a shape in a signature: a literal or the name of a constant.
#[derive(Debug, Clone, PartialEq, Eq)]
pub enum Dim {
    Lit(usize),
    Const(String),
}

/// A dimension as plain values.
pub ghost enum DimView {
    Lit(usize),
    Const(Seq<char>),
}

impl View for Dim {
    type V = DimView;

    open spec fn view(&self) -> DimView {
        match self {
            Dim::Lit(n) => DimView::Lit(*n),
            Dim::Const(c) => DimView::Const(c@),
        }
    }
}

/// A shape in a signature: `S1` to `S4` with its dimensions.
#[derive(Debug, Clone, PartialEq, Eq)]
pub struct ShapeSig {
    pub rank: usize,
    pub dims: Vec<Dim>,
}

pub ghost struct ShapeView {
    pub rank: usize,
    pub dims: Seq<DimView>,
}

impl View for ShapeSig {
    type V = ShapeView;

    open spec fn view(&self) -> ShapeView {
        ShapeView { rank: self.rank, dims: self.dims@.map_values(|d: Dim| d@) }
    }
}

/// A tensor type in a signature: `Tensor<T, S>` by its element type's name and shape.
#[derive(Debug, Clone, PartialEq, Eq)]
pub struct TensorSig {
    pub dtype: String,
    pub shape: ShapeSig,
}

pub ghost struct TensorView {
    pub dtype: Seq<char>,
    pub shape: ShapeView,
}

impl View for TensorSig {
    type V = TensorView;

    open spec fn view(&self) -> TensorView {
        TensorView { dtype: self.dtype@, shape: self.shape@ }
    }
}

/// A tensor parameter: its name and type.
#[derive(Debug, Clone, PartialEq, Eq)]
pub struct ParamSig {
    pub name: String,
    pub tensor: TensorSig,
}

pub ghost struct ParamView {
    pub name: Seq<char>,
    pub tensor: TensorView,
}

impl View for ParamSig {
    type V = ParamView;

    open spec fn view(&self) -> ParamView {
        ParamView { name: self.name@, tensor: self.tensor@ }
    }
}

/// The signature of a differentiable function: its name, tensor parameters and tensor
/// result.
#[derive(Debug, Clone, PartialEq, Eq)]
pub struct FnSig {
    pub name: String,
    pub params: Vec<ParamSig>,
    pub output: TensorSig,
}

pub ghost struct FnSigView {
    pub name: Seq<char>,
    pub params: Seq<ParamView>,
    pub output: TensorView,
}

impl View for FnSig {
    type V = FnSigView;

    open spec fn view(&self) -> FnSigView {
        FnSigView {
            name: self.name@,
            params: self.params@.map_values(|p: ParamSig| p@),
            output: self.output@,
        }
    }
}

/// Some dimension is a named constant.
pub open spec fn has_const_dim(dims: Seq<DimView>) -> bool {
    exists|i: int| 0 <= i < dims.len() && #[trigger] dims[i] is Const
}

/// The product of the first `k` literal dimensions.
pub open spec fn lit_prefix_product(dims: Seq<DimView>, k: int) -> nat
    decreases k,
{
    if k <= 0 {
        1
    } else {
        lit_prefix_product(dims, k - 1) * match dims[k - 1] {
            DimView::Lit(n) => n as nat,
            DimView::Const(_) => 1nat,
        }
    }
}

/// The element count of a shape whose dimensions are all literals and whose running
/// product never leaves `usize`; nothing otherwise.
pub open spec fn spec_numel_if_const(dims: Seq<DimView>) -> Option<usize> {
    if has_const_dim(dims) {
        None
    } else if forall|k: int| 0 <= k <= dims.len() ==> #[trigger] lit_prefix_product(dims, k) <= usize::MAX {
        Some(lit_prefix_product(dims, dims.len() as int) as usize)
    } else {
        None
    }
}

impl ShapeSig {
    pub fn numel_if_const(&self) -> (r: Option<usize>)
        ensures
            r == spec_numel_if_const(self@.dims),
    {
        let ghost dims = self@.dims;
        let mut n: usize = 1;
        let mut i: usize = 0;
        while i < self.dims.len()
            invariant
                dims == self@.dims,
                dims.len() == self.dims@.len(),
                i <= dims.len(),
                n == lit_prefix_product(dims, i as int),
                forall|j: int| 0 <= j < i ==> !(#[trigger] dims[j] is Const),
                forall|k: int| 0 <= k <= i ==> #[trigger] lit_prefix_product(dims, k) <= usize::MAX,
            decreases dims.len() - i,
        {
            assert(dims[i as int] == self.dims@[i as int]@);
            let v = match &self.dims[i] {
                Dim::Lit(v) => *v,
                Dim::Const(_) => {
                    return None;
                },
            };
            match n.checked_mul(v) {
                Some(m) => {
                    n = m;
                },
                None => {
                    assert(lit_prefix_product(dims, i + 1) > usize::MAX);
                    return None;
                },
            }
            i = i + 1;
        }
        Some(n)
    }
}

impl TensorSig {
    pub fn numel_if_const(&self) -> (r: Option<usize>)
        ensures
            r == spec_numel_if_const(self@.shape.dims),
    {
        self.shape.numel_if_const()
    }
}

/// Whether `c` is a decimal digit.
pub open spec fn is_digit(c: char) -> bool {
    '0' <= c <= '9'
}

/// The value of a decimal digit.
pub open spec fn digit_value(c: char) -> nat {
    (c as u32 - '0' as u32) as nat
}

/// Reads the decimal digits `s` after the value `acc` read so far, as `usize::from_str`
/// does: the first character that is not a digit, or the first digit that takes the
/// value past `usize::MAX`, is an error.
pub open spec fn scan_digits(s: Seq<char>, acc: nat) -> Result<usize, Seq<char>>
    decreases s.len(),
{
    if s.len() == 0 {
        Ok(acc as usize)
    } else if !is_digit(s[0]) {
        Err("invalid digit found in string"@)
    } else if acc * 10 + digit_value(s[0]) > usize::MAX {
        Err("number too large to fit in target type"@)
    } else {
        scan_digits(s.drop_first(), acc * 10 + digit_value(s[0]))
    }
}

/// Parses `s` as a `usize` the way `str::parse::<usize>` does, with its error texts.
pub open spec fn spec_parse_usize(s: Seq<char>) -> Result<usize, Seq<char>> {
    if s.len() == 0 {
        Err("cannot parse integer from empty string"@)
    } else if (s[0] == '+' || s[0] == '-') && s.len() == 1 {
        Err("invalid digit found in string"@)
    } else if s[0] == '+' {
        scan_digits(s.drop_first(), 0)
    } else {
        scan_digits(s, 0)
    }
}

proof fn lemma_scan_step(s: Seq<char>, i: int, acc: nat)
    requires
        0 <= i < s.len(),
        is_digit(s[i]),
        acc * 10 + digit_value(s[i]) <= usize::MAX,
    ensures
        scan_digits(s.subrange(i, s.len() as int), acc) == scan_digits(
            s.subrange(i + 1, s.len() as int),
            acc * 10 + digit_value(s[i]),
        ),
{
    assert(s.subrange(i, s.len() as int).drop_first() =~= s.subrange(i + 1, s.len() as int));
}

/// Parses the digits of an integer literal as `usize`, as `str::parse` does.
pub fn parse_usize(s: &str) -> (r: Result<usize, String>)
    ensures
        match r {
            Ok(v) => spec_parse_usize(s@) == Ok::<usize, Seq<char>>(v),
            Err(m) => spec_parse_usize(s@) == Err::<usize, Seq<char>>(m@),
        },
{
    let len = s.unicode_len();
    if len == 0 {
        return Err(String::from_str("cannot parse integer from empty string"));
    }
    let first = s.get_char(0);
    if (first == '+' || first == '-') && len == 1 {
        return Err(String::from_str("invalid digit found in string"));
    }
    let start: usize = if first == '+' { 1 } else { 0 };
    let ghost body = s@.subrange(start as int, len as int);
    assert(body == if first == '+' { s@.drop_first() } else { s@ });
    let mut acc: usize = 0;
    let mut i: usize = start;
    while i < len
        invariant
            len == s@.len(),
            start <= i <= len,
            body == s@.subrange(start as int, len as int),
            spec_parse_usize(s@) == scan_digits(body, 0),
            scan_digits(body, 0) == scan_digits(s@.subrange(i as int, len as int), acc as nat),
        decreases len - i,
    {
        let c = s.get_char(i);
        assert(s@.subrange(i as int, len as int)[0] == c);
        if !('0' <= c && c <= '9') {
            return Err(String::from_str("invalid digit found in string"));
        }
        let d = (c as u32 - '0' as u32) as usize;
        if acc > (usize::MAX - d) / 10 {
            assert(acc * 10 + d > usize::MAX) by (nonlinear_arith)
                requires
                    acc > (usize::MAX - d) / 10,
                    d <= 9,
            ;
            return Err(String::from_str("number too large to fit in target type"));
        }
        assert(acc * 10 + d <= usize::MAX) by (nonlinear_arith)
            requires
                acc <= (usize::MAX - d) / 10,
                d <= 9,
        ;
        proof {
            lemma_scan_step(s@, i as int, acc as nat);
        }
        acc = acc * 10 + d;
        i = i + 1;
    }
    assert(s@.subrange(len as int, len as int) =~= Seq::<char>::empty());
    Ok(acc)
}


/// The diagnostic text for a dimension that is neither a literal nor a name.
pub open spec fn dim_msg() -> Seq<char> {
    "dimension must be a usize literal or const ident"@
}

/// The diagnostic text for a type that is not a shape.
pub open spec fn shape_msg() -> Seq<char> {
    "shape must be S1/S2/S3/S4<...>"@
}

/// The diagnostic text for a type that is not a tensor.
pub open spec fn tensor_msg() -> Seq<char> {
    "expected Tensor<T, S> type"@
}

/// A dimension written as a constant expression.
pub open spec fn spec_parse_dim_expr(e: &ConstExprSyntax) -> Result<DimView, Diag> {
    match e {
        ConstExprSyntax::Int { digits, span } => match spec_parse_usize(digits@) {
            Ok(n) => Ok(DimView::Lit(n)),
            Err(m) => Err(diag(*span, m)),
        },
        ConstExprSyntax::Path { path, span } => match path_ident(path) {
            Some(id) => Ok(DimView::Const(id)),
            None => Err(diag(*span, dim_msg())),
        },
        ConstExprSyntax::Other { span } => Err(diag(*span, dim_msg())),
    }
}

/// A dimension written as a generic argument: a constant expression, or a type that is
/// a single name (how the parser reads a bare constant name).
pub open spec fn spec_parse_dim(a: &GenericArgSyntax) -> Result<DimView, Diag> {
    match a {
        GenericArgSyntax::Const(e) => spec_parse_dim_expr(e),
        GenericArgSyntax::Type(TypeSyntax::Path { path, .. }) => match path_ident(path) {
            Some(id) => Ok(DimView::Const(id)),
            None => Err(diag(generic_arg_span(a), dim_msg())),
        },
        _ => Err(diag(generic_arg_span(a), dim_msg())),
    }
}

/// The first `k` dimensions, or the first of them that is not a dimension.
pub open spec fn spec_parse_dims(args: Seq<GenericArgSyntax>, k: int) -> Result<Seq<DimView>, Diag>
    decreases k,
{
    if k <= 0 {
        Ok(Seq::empty())
    } else {
        match spec_parse_dims(args, k - 1) {
            Err(e) => Err(e),
            Ok(ds) => match spec_parse_dim(&args[k - 1]) {
                Err(e) => Err(e),
                Ok(d) => Ok(ds.push(d)),
            },
        }
    }
}

/// The rank named by a shape type's name.
pub open spec fn shape_rank(name: Seq<char>) -> Option<usize> {
    if name == "S1"@ {
        Some(1usize)
    } else if name == "S2"@ {
        Some(2usize)
    } else if name == "S3"@ {
        Some(3usize)
    } else if name == "S4"@ {
        Some(4usize)
    } else {
        None
    }
}

/// A shape type `Sk<d1, ..., dk>`, read by its last path segment.
pub open spec fn spec_parse_shape(ty: &TypeSyntax) -> Result<ShapeView, Diag> {
    match ty {
        TypeSyntax::Path { path, span } => if path.segments@.len() == 0 {
            Err(diag(*span, shape_msg()))
        } else {
            let seg = path.segments@.last();
            match shape_rank(seg.ident@) {
                None => Err(
                    diag(
                        seg.span,
                        "unknown shape "@ + seg.ident@ + "; expected S1, S2, S3, or S4"@,
                    ),
                ),
                Some(rank) => match &seg.args {
                    ArgsSyntax::Angle(args) => if args@.len() != rank {
                        Err(
                            diag(
                                *span,
                                decimal(rank as nat) + "-rank shape requires "@ + decimal(
                                    rank as nat,
                                ) + " dimension parameters"@,
                            ),
                        )
                    } else {
                        match spec_parse_dims(args@, rank as int) {
                            Ok(dims) => Ok(ShapeView { rank, dims }),
                            Err(e) => Err(e),
                        }
                    },
                    _ => Err(diag(*span, "shape must include const dimension parameters"@)),
                },
            }
        },
        _ => Err(diag(type_span(ty), shape_msg())),
    }
}

/// A tensor type `Tensor<T, S>`, read by its last path segment.
pub open spec fn spec_parse_tensor(ty: &TypeSyntax) -> Result<TensorView, Diag> {
    match ty {
        TypeSyntax::Path { path, span } => if path.segments@.len() == 0 {
            Err(diag(*span, tensor_msg()))
        } else {
            let seg = path.segments@.last();
            if seg.ident@ != "Tensor"@ {
                Err(diag(seg.span, tensor_msg()))
            } else {
                match &seg.args {
                    ArgsSyntax::Angle(args) => if args@.len() != 2 {
                        Err(
                            diag(
                                *span,
                                "Tensor requires exactly two generic arguments: Tensor<T, S>"@,
                            ),
                        )
                    } else {
                        match (&args@[0], &args@[1]) {
                            (
                                GenericArgSyntax::Type(TypeSyntax::Path { path: dpath, .. }),
                                GenericArgSyntax::Type(shape_ty),
                            ) => match path_ident(dpath) {
                                None => Err(
                                    diag(generic_arg_span(&args@[0]), "dtype must be a marker type"@),
                                ),
                                Some(dtype) => match spec_parse_shape(shape_ty) {
                                    Ok(shape) => Ok(TensorView { dtype, shape }),
                                    Err(e) => Err(e),
                                },
                            },
                            _ => Err(
                                diag(*span, "Tensor generic arguments must be types: Tensor<T, S>"@),
                            ),
                        }
                    },
                    _ => Err(diag(*span, "Tensor requires two generic arguments: Tensor<T, S>"@)),
                }
            }
        },
        _ => Err(diag(type_span(ty), tensor_msg())),
    }
}

/// The name a parameter pattern binds, when it is a single name.
pub open spec fn spec_pat_to_ident(p: &PatSyntax) -> Result<Seq<char>, Diag> {
    match p {
        PatSyntax::Ident { name, .. } => Ok(name@),
        _ => Err(diag(pat_span(p), "#[differentiable] parameters must be simple identifiers"@)),
    }
}

/// The tensor parameters among the first `k` inputs (receivers are skipped), or the
/// first diagnostic.
pub open spec fn spec_extract_params(inputs: Seq<FnInput>, k: int) -> Result<Seq<ParamView>, Diag>
    decreases k,
{
    if k <= 0 {
        Ok(Seq::empty())
    } else {
        match spec_extract_params(inputs, k - 1) {
            Err(e) => Err(e),
            Ok(ps) => match &inputs[k - 1] {
                FnInput::Receiver { .. } => Ok(ps),
                FnInput::Typed { pat, ty } => match spec_pat_to_ident(pat) {
                    Err(e) => Err(e),
                    Ok(name) => match spec_parse_tensor(ty) {
                        Err(e) => Err(e),
                        Ok(tensor) => Ok(ps.push(ParamView { name, tensor })),
                    },
                },
            },
        }
    }
}

/// The signature of `func`: its parameters, then its result, each a tensor.
pub open spec fn spec_extract(func: &FnSyntax) -> Result<FnSigView, Diag> {
    match spec_extract_params(func.inputs@, func.inputs@.len() as int) {
        Err(e) => Err(e),
        Ok(params) => match &func.output {
            None => Err(
                diag(func.ident_span, "#[differentiable] functions must return Tensor<T, S>"@),
            ),
            Some(ty) => match spec_parse_tensor(ty) {
                Err(e) => Err(e),
                Ok(output) => Ok(FnSigView { name: func.ident@, params, output }),
            },
        },
    }
}

/// A result as plain values.
pub open spec fn view_result<T: View>(r: Result<T, MacroError>) -> Result<T::V, Diag> {
    match r {
        Ok(v) => Ok(v@),
        Err(e) => Err(e@),
    }
}

fn parse_dim_expr(e: &ConstExprSyntax) -> (r: Result<Dim, MacroError>)
    ensures
        view_result(r) == spec_parse_dim_expr(e),
{
    match e {
        ConstExprSyntax::Int { digits, span } => match parse_usize(digits.as_str()) {
            Ok(n) => Ok(Dim::Lit(n)),
            Err(m) => Err(MacroError { span: *span, message: m }),
        },
        ConstExprSyntax::Path { path, span } => match path.get_ident() {
            Some(id) => Ok(Dim::Const(id)),
            None => Err(macro_error(*span, "dimension must be a usize literal or const ident")),
        },
        ConstExprSyntax::Other { span } => Err(
            macro_error(*span, "dimension must be a usize literal or const ident"),
        ),
    }
}

fn parse_dim(a: &GenericArgSyntax) -> (r: Result<Dim, MacroError>)
    ensures
        view_result(r) == spec_parse_dim(a),
{
    match a {
        GenericArgSyntax::Const(e) => parse_dim_expr(e),
        GenericArgSyntax::Type(TypeSyntax::Path { path, .. }) => match path.get_ident() {
            Some(id) => Ok(Dim::Const(id)),
            None => Err(macro_error(a.span(), "dimension must be a usize literal or const ident")),
        },
        _ => Err(macro_error(a.span(), "dimension must be a usize literal or const ident")),
    }
}

fn shape_rank_of(name: &str) -> (r: Option<usize>)
    ensures
        r == shape_rank(name@),
{
    if crate::adjoint_table::str_eq(name, "S1") {
        Some(1)
    } else if crate::adjoint_table::str_eq(name, "S2") {
        Some(2)
    } else if crate::adjoint_table::str_eq(name, "S3") {
        Some(3)
    } else if crate::adjoint_table::str_eq(name, "S4") {
        Some(4)
    } else {
        None
    }
}

/// Reads a shape type.
pub fn parse_shape(ty: &TypeSyntax) -> (r: Result<ShapeSig, MacroError>)
    ensures
        view_result(r) == spec_parse_shape(ty),
{
    let (path, span) = match ty {
        TypeSyntax::Path { path, span } => (path, *span),
        _ => {
            return Err(macro_error(ty.span(), "shape must be S1/S2/S3/S4<...>"));
        },
    };
    let n = path.segments.len();
    if n == 0 {
        return Err(macro_error(span, "shape must be S1/S2/S3/S4<...>"));
    }
    let seg = &path.segments[n - 1];
    let rank = match shape_rank_of(seg.ident.as_str()) {
        Some(r) => r,
        None => {
            return Err(
                MacroError {
                    span: seg.span,
                    message: concat3(
                        "unknown shape ",
                        seg.ident.as_str(),
                        "; expected S1, S2, S3, or S4",
                    ),
                },
            );
        },
    };
    let args = match &seg.args {
        ArgsSyntax::Angle(args) => args,
        _ => {
            return Err(macro_error(span, "shape must include const dimension parameters"));
        },
    };
    if args.len() != rank {
        let r = usize_to_decimal(rank);
        let a = concat(r.as_str(), "-rank shape requires ");
        let b = concat3(a.as_str(), r.as_str(), " dimension parameters");
        return Err(MacroError { span, message: b });
    }
    let mut dims: Vec<Dim> = Vec::with_capacity(rank);
    assert(dims@.map_values(|d: Dim| d@) =~= Seq::<DimView>::empty());
    let ghost outcome = match spec_parse_dims(args@, rank as int) {
        Ok(dims) => Ok::<ShapeView, Diag>(ShapeView { rank, dims }),
        Err(e) => Err::<ShapeView, Diag>(e),
    };
    assert(spec_parse_shape(ty) == outcome);
    let mut i: usize = 0;
    while i < args.len()
        invariant
            spec_parse_shape(ty) == outcome,
            outcome == match spec_parse_dims(args@, rank as int) {
                Ok(dims) => Ok::<ShapeView, Diag>(ShapeView { rank, dims }),
                Err(e) => Err::<ShapeView, Diag>(e),
            },
            i <= args@.len(),
            args@.len() == rank,
            spec_parse_dims(args@, i as int) == Ok::<Seq<DimView>, Diag>(
                dims@.map_values(|d: Dim| d@),
            ),
        decreases args@.len() - i,
    {
        match parse_dim(&args[i]) {
            Ok(d) => {
                let ghost before = dims@;
                let ghost dv = d@;
                dims.push(d);
                assert(dims@.map_values(|d: Dim| d@) =~= before.map_values(|d: Dim| d@).push(dv));
            },
            Err(e) => {
                assert(spec_parse_dims(args@, i + 1) == Err::<Seq<DimView>, Diag>(e@));
                proof {
                    lemma_parse_dims_err_sticks(args@, i + 1, rank as int);
                }
                return Err(e);
            },
        }
        i = i + 1;
    }
    Ok(ShapeSig { rank, dims })
}

/// Once reading the dimensions fails, reading more of them fails the same way.
proof fn lemma_parse_dims_err_sticks(args: Seq<GenericArgSyntax>, k: int, m: int)
    requires
        0 <= k <= m,
        spec_parse_dims(args, k) is Err,
    ensures
        spec_parse_dims(args, m) == spec_parse_dims(args, k),
    decreases m - k,
{
    if k < m {
        lemma_parse_dims_err_sticks(args, k, m - 1);
    }
}

/// Reads a tensor type `Tensor<T, S>`.
pub fn parse_tensor(ty: &TypeSyntax) -> (r: Result<TensorSig, MacroError>)
    ensures
        view_result(r) == spec_parse_tensor(ty),
{
    let (path, span) = match ty {
        TypeSyntax::Path { path, span } => (path, *span),
        _ => {
            return Err(macro_error(ty.span(), "expected Tensor<T, S> type"));
        },
    };
    let n = path.segments.len();
    if n == 0 {
        return Err(macro_error(span, "expected Tensor<T, S> type"));
    }
    let seg = &path.segments[n - 1];
    if !crate::adjoint_table::str_eq(seg.ident.as_str(), "Tensor") {
        return Err(macro_error(seg.span, "expected Tensor<T, S> type"));
    }
    let args = match &seg.args {
        ArgsSyntax::Angle(args) => args,
        _ => {
            return Err(macro_error(span, "Tensor requires two generic arguments: Tensor<T, S>"));
        },
    };
    if args.len() != 2 {
        return Err(
            macro_error(span, "Tensor requires exactly two generic arguments: Tensor<T, S>"),
        );
    }
    let (dtype, shape_ty) = match (&args[0], &args[1]) {
        (
            GenericArgSyntax::Type(TypeSyntax::Path { path: dpath, .. }),
            GenericArgSyntax::Type(shape_ty),
        ) => match dpath.get_ident() {
            Some(d) => (d, shape_ty),
            None => {
                return Err(macro_error(args[0].span(), "dtype must be a marker type"));
            },
        },
        _ => {
            return Err(
                macro_error(span, "Tensor generic arguments must be types: Tensor<T, S>"),
            );
        },
    };
    let shape = parse_shape(shape_ty)?;
    Ok(TensorSig { dtype, shape })
}

fn pat_to_ident(p: &PatSyntax) -> (r: Result<String, MacroError>)
    ensures
        match r {
            Ok(s) => spec_pat_to_ident(p) == Ok::<Seq<char>, Diag>(s@),
            Err(e) => spec_pat_to_ident(p) == Err::<Seq<char>, Diag>(e@),
        },
{
    match p {
        PatSyntax::Ident { name, .. } => Ok(name.clone()),
        _ => Err(macro_error(p.span(), "#[differentiable] parameters must be simple identifiers")),
    }
}

/// Once extracting the parameters fails, extracting more of them fails the same way.
proof fn lemma_extract_err_sticks(inputs: Seq<FnInput>, k: int, m: int)
    requires
        0 <= k <= m,
        spec_extract_params(inputs, k) is Err,
    ensures
        spec_extract_params(inputs, m) == spec_extract_params(inputs, k),
    decreases m - k,
{
    if k < m {
        lemma_extract_err_sticks(inputs, k, m - 1);
    }
}

/// Reads the signature of a differentiable function.
pub fn extract(func: &FnSyntax) -> (r: Result<FnSig, MacroError>)
    ensures
        view_result(r) == spec_extract(func),
{
    let name = func.ident.clone();
    let mut params: Vec<ParamSig> = Vec::new();
    assert(params@.map_values(|p: ParamSig| p@) =~= Seq::<ParamView>::empty());
    let mut i: usize = 0;
    while i < func.inputs.len()
        invariant
            i <= func.inputs@.len(),
            spec_extract_params(func.inputs@, i as int) == Ok::<Seq<ParamView>, Diag>(
                params@.map_values(|p: ParamSig| p@),
            ),
        decreases func.inputs@.len() - i,
    {
        match &func.inputs[i] {
            FnInput::Receiver { .. } => {},
            FnInput::Typed { pat, ty } => {
                let pname = match pat_to_ident(pat) {
                    Ok(n) => n,
                    Err(e) => {
                        proof {
                            lemma_extract_err_sticks(
                                func.inputs@,
                                i + 1,
                                func.inputs@.len() as int,
                            );
                        }
                        return Err(e);
                    },
                };
                let tensor = match parse_tensor(ty) {
                    Ok(t) => t,
                    Err(e) => {
                        proof {
                            lemma_extract_err_sticks(
                                func.inputs@,
                                i + 1,
                                func.inputs@.len() as int,
                            );
                        }
                        return Err(e);
                    },
                };
                let p = ParamSig { name: pname, tensor };
                let ghost before = params@;
                let ghost pv = p@;
                params.push(p);
                assert(params@.map_values(|p: ParamSig| p@) =~= before.map_values(|p: ParamSig| p@).push(
                    pv,
                ));
            },
        }
        i = i + 1;
    }
    let output = match &func.output {
        None => {
            return Err(
                macro_error(func.ident_span, "#[differentiable] functions must return Tensor<T, S>"),
            );
        },
        Some(ty) => parse_tensor(ty)?,
    };
    Ok(FnSig { name, params, output })
}

/// Reading `k` dimensions gives `k` of them.
proof fn lemma_parse_dims_len(args: Seq<GenericArgSyntax>, k: int)
    requires
        k >= 0,
        spec_parse_dims(args, k) is Ok,
    ensures
        spec_parse_dims(args, k)->Ok_0.len() == k,
    decreases k,
{
    if k > 0 {
        lemma_parse_dims_len(args, k - 1);
    }
}

/// A shape read from a type has as many dimensions as its rank, which is 1 to 4.
pub proof fn lemma_shape_rank(ty: &TypeSyntax)
    requires
        spec_parse_shape(ty) is Ok,
    ensures
        spec_parse_shape(ty)->Ok_0.dims.len() == spec_parse_shape(ty)->Ok_0.rank,
        1 <= spec_parse_shape(ty)->Ok_0.rank <= 4,
{
    match ty {
        TypeSyntax::Path { path, span } => {
            let seg = path.segments@.last();
            let rank = shape_rank(seg.ident@)->0;
            match &seg.args {
                ArgsSyntax::Angle(args) => {
                    lemma_parse_dims_len(args@, rank as int);
                },
                _ => {},
            }
        },
        _ => {},
    }
}

/// A tensor type read from a type has a shape with as many dimensions as its rank.
pub proof fn lemma_tensor_rank(ty: &TypeSyntax)
    requires
        spec_parse_tensor(ty) is Ok,
    ensures
        spec_parse_tensor(ty)->Ok_0.shape.dims.len() == spec_parse_tensor(ty)->Ok_0.shape.rank,
        1 <= spec_parse_tensor(ty)->Ok_0.shape.rank <= 4,
{
    match ty {
        TypeSyntax::Path { path, span } => {
            let seg = path.segments@.last();
            match &seg.args {
                ArgsSyntax::Angle(args) => {
                    match (&args@[0], &args@[1]) {
                        (GenericArgSyntax::Type(TypeSyntax::Path { .. }), GenericArgSyntax::Type(shape_ty)) => {
                            lemma_shape_rank(shape_ty);
                        },
                        _ => {},
                    }
                },
                _ => {},
            }
        },
        _ => {},
    }
}

} // verus!
