use vstd::prelude::*;

verus! {

/// The node that stands for the attribute's own call site, where diagnostics that
/// belong to no particular piece of the function point.
pub const CALL_SITE: usize = 0;

/// A diagnostic for the code an attribute was put on: the place it points at, as the
/// number of a syntax node, and its text.
#[derive(Debug, Clone, PartialEq, Eq)]
pub struct MacroError {
    pub span: usize,
    pub message: String,
}

/// A diagnostic as plain values.
pub ghost struct Diag {
    pub span: usize,
    pub message: Seq<char>,
}

impl View for MacroError {
    type V = Diag;

    open spec fn view(&self) -> Diag {
        Diag { span: self.span, message: self.message@ }
    }
}

/// A result with its diagnostic, if any, as plain values.
pub open spec fn diag_result<T>(r: Result<T, MacroError>) -> Result<T, Diag> {
    match r {
        Ok(v) => Ok(v),
        Err(e) => Err(e@),
    }
}

/// The diagnostic at `span` with text `message`.
pub open spec fn diag(span: usize, message: Seq<char>) -> Diag {
    Diag { span, message }
}

pub fn macro_error(span: usize, message: &str) -> (e: MacroError)
    ensures
        e@ == diag(span, message@),
{
    MacroError { span, message: String::from_str(message) }
}

/// A path such as `a::b<C>::D`: an optional leading `::` and its segments.
#[derive(Debug)]
pub struct PathSyntax {
    pub leading_colon: bool,
    pub segments: Vec<SegmentSyntax>,
}

/// One segment of a path: an identifier and its generic arguments.
#[derive(Debug)]
pub struct SegmentSyntax {
    pub ident: String,
    pub span: usize,
    pub args: ArgsSyntax,
}

/// The generic arguments of a path segment.
#[derive(Debug)]
pub enum ArgsSyntax {
    Empty,
    Angle(Vec<GenericArgSyntax>),
    Paren,
}

/// One generic argument: a type, a constant expression, or something else (a
/// lifetime, a binding).
#[derive(Debug)]
pub enum GenericArgSyntax {
    Type(TypeSyntax),
    Const(ConstExprSyntax),
    Other { span: usize },
}

/// A constant expression in a generic argument.
#[derive(Debug)]
pub enum ConstExprSyntax {
    /// An integer literal, by its decimal digits.
    Int { digits: String, span: usize },
    Path { path: PathSyntax, span: usize },
    Other { span: usize },
}

/// A type.
#[derive(Debug)]
pub enum TypeSyntax {
    Path { path: PathSyntax, span: usize },
    Tuple { len: usize, span: usize },
    Other { span: usize },
}

/// A pattern.
#[derive(Debug)]
pub enum PatSyntax {
    Ident { name: String, span: usize },
    Typed { pat: Box<PatSyntax>, ty: TypeSyntax, span: usize },
    Other { span: usize },
}

/// An input of a function: `self` in some form, or a pattern with a type.
#[derive(Debug)]
pub enum FnInput {
    Receiver { span: usize },
    Typed { pat: PatSyntax, ty: TypeSyntax },
}

/// An expression and the number of its syntax node.
#[derive(Debug)]
pub struct ExprSyntax {
    pub kind: ExprKind,
    pub span: usize,
}

/// The kinds of expression the op walker looks into.
#[derive(Debug)]
pub enum ExprKind {
    Call { func: Box<ExprSyntax>, args: Vec<ExprSyntax> },
    MethodCall { receiver: Box<ExprSyntax>, args: Vec<ExprSyntax> },
    Binary { left: Box<ExprSyntax>, right: Box<ExprSyntax> },
    Unary { expr: Box<ExprSyntax> },
    Cast { expr: Box<ExprSyntax> },
    Reference { expr: Box<ExprSyntax> },
    If { cond: Box<ExprSyntax>, then_branch: BlockSyntax, else_branch: Option<Box<ExprSyntax>> },
    Block { block: BlockSyntax },
    Assign { left: Box<ExprSyntax>, right: Box<ExprSyntax> },
    Field { base: Box<ExprSyntax> },
    Index { expr: Box<ExprSyntax>, index: Box<ExprSyntax> },
    Array { elems: Vec<ExprSyntax> },
    Tuple { elems: Vec<ExprSyntax> },
    Group { expr: Box<ExprSyntax> },
    Paren { expr: Box<ExprSyntax> },
    Match { expr: Box<ExprSyntax>, arms: Vec<ArmSyntax> },
    Return { expr: Option<Box<ExprSyntax>> },
    Path { path: PathSyntax },
    Other,
}

/// One arm of a `match`: its guard, if any, and its body.
#[derive(Debug)]
pub struct ArmSyntax {
    pub guard: Option<ExprSyntax>,
    pub body: ExprSyntax,
}

/// A block of statements.
#[derive(Debug)]
pub struct BlockSyntax {
    pub stmts: Vec<StmtSyntax>,
}

/// A statement.
#[derive(Debug)]
pub enum StmtSyntax {
    Local { pat: PatSyntax, init: Option<ExprSyntax>, span: usize },
    Expr { expr: ExprSyntax },
    Item,
    Macro,
}

/// A function item: its name, qualifiers, inputs, return type and body.
#[derive(Debug)]
pub struct FnSyntax {
    pub ident: String,
    pub ident_span: usize,
    pub asyncness: Option<usize>,
    pub constness: Option<usize>,
    pub variadic: Option<usize>,
    pub inputs: Vec<FnInput>,
    pub output: Option<TypeSyntax>,
    pub block: BlockSyntax,
    pub span: usize,
}

/// The node a type's diagnostics point at.
pub open spec fn type_span(ty: &TypeSyntax) -> usize {
    match ty {
        TypeSyntax::Path { span, .. } => *span,
        TypeSyntax::Tuple { span, .. } => *span,
        TypeSyntax::Other { span } => *span,
    }
}

/// The node a pattern's diagnostics point at.
pub open spec fn pat_span(p: &PatSyntax) -> usize {
    match p {
        PatSyntax::Ident { span, .. } => *span,
        PatSyntax::Typed { span, .. } => *span,
        PatSyntax::Other { span } => *span,
    }
}

/// The node a generic argument's diagnostics point at.
pub open spec fn generic_arg_span(a: &GenericArgSyntax) -> usize {
    match a {
        GenericArgSyntax::Type(t) => type_span(t),
        GenericArgSyntax::Const(c) => const_span(c),
        GenericArgSyntax::Other { span } => *span,
    }
}

/// The node a constant expression's diagnostics point at.
pub open spec fn const_span(c: &ConstExprSyntax) -> usize {
    match c {
        ConstExprSyntax::Int { span, .. } => *span,
        ConstExprSyntax::Path { span, .. } => *span,
        ConstExprSyntax::Other { span } => *span,
    }
}

impl TypeSyntax {
    pub fn span(&self) -> (s: usize)
        ensures
            s == type_span(self),
    {
        match self {
            TypeSyntax::Path { span, .. } => *span,
            TypeSyntax::Tuple { span, .. } => *span,
            TypeSyntax::Other { span } => *span,
        }
    }
}

impl PatSyntax {
    pub fn span(&self) -> (s: usize)
        ensures
            s == pat_span(self),
    {
        match self {
            PatSyntax::Ident { span, .. } => *span,
            PatSyntax::Typed { span, .. } => *span,
            PatSyntax::Other { span } => *span,
        }
    }
}

impl GenericArgSyntax {
    pub fn span(&self) -> (s: usize)
        ensures
            s == generic_arg_span(self),
    {
        match self {
            GenericArgSyntax::Type(t) => t.span(),
            GenericArgSyntax::Const(c) => c.span(),
            GenericArgSyntax::Other { span } => *span,
        }
    }
}

impl ConstExprSyntax {
    pub fn span(&self) -> (s: usize)
        ensures
            s == const_span(self),
    {
        match self {
            ConstExprSyntax::Int { span, .. } => *span,
            ConstExprSyntax::Path { span, .. } => *span,
            ConstExprSyntax::Other { span } => *span,
        }
    }
}

/// The single identifier a path consists of, if it is one: no leading `::`, one segment
/// and no generic arguments.
pub open spec fn path_ident(p: &PathSyntax) -> Option<Seq<char>> {
    if !p.leading_colon && p.segments@.len() == 1 && p.segments@[0].args is Empty {
        Some(p.segments@[0].ident@)
    } else {
        None
    }
}

impl PathSyntax {
    pub fn get_ident(&self) -> (r: Option<String>)
        ensures
            match r {
                Some(s) => path_ident(self) == Some(s@),
                None => path_ident(self) is None,
            },
    {
        if !self.leading_colon && self.segments.len() == 1 {
            match &self.segments[0].args {
                ArgsSyntax::Empty => Some(self.segments[0].ident.clone()),
                _ => None,
            }
        } else {
            None
        }
    }
}

} // verus!
