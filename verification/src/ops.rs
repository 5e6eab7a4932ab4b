use vstd::prelude::*;
use vstd::string::StrSliceExecFns;
use crate::syntax::{
    ArmSyntax, BlockSyntax, Diag, ExprKind, ExprSyntax, FnSyntax, MacroError, PatSyntax,
    PathSyntax, StmtSyntax, TypeSyntax, diag, macro_error, pat_span,
};

verus! {

/// Where the result of an op call goes: into a typed `let` binding, or out as the
/// function's result.
pub enum OpDest<'a> {
    Let { ident: String, ty: &'a TypeSyntax },
    Tail,
}

/// Where an op result goes, as plain values.
pub ghost enum DestView {
    Let { ident: Seq<char>, ty: TypeSyntax },
    Tail,
}

impl<'a> View for OpDest<'a> {
    type V = DestView;

    open spec fn view(&self) -> DestView {
        match self {
            OpDest::Let { ident, ty } => DestView::Let { ident: ident@, ty: **ty },
            OpDest::Tail => DestView::Tail,
        }
    }
}

/// A call of a registered-looking op in the body of a differentiable function.
pub struct OpSite<'a> {
    pub name: String,
    pub args: Vec<&'a ExprSyntax>,
    pub dest: OpDest<'a>,
    pub span: usize,
}

/// An op call as plain values.
pub ghost struct SiteView {
    pub name: Seq<char>,
    pub args: Seq<ExprSyntax>,
    pub dest: DestView,
    pub span: usize,
}

impl<'a> View for OpSite<'a> {
    type V = SiteView;

    open spec fn view(&self) -> SiteView {
        SiteView {
            name: self.name@,
            args: self.args@.map_values(|a: &ExprSyntax| *a),
            dest: self.dest@,
            span: self.span,
        }
    }
}

/// The op calls found so far, as plain values.
pub open spec fn sites_view<'a>(v: Seq<OpSite<'a>>) -> Seq<SiteView> {
    v.map_values(|o: OpSite<'a>| o@)
}

/// An optional destination as plain values.
pub open spec fn opt_dest_view<'a>(d: Option<OpDest<'a>>) -> Option<DestView> {
    match d {
        Some(x) => Some(x@),
        None => None,
    }
}

/// The diagnostic text for an op call that is an argument of another op call.
pub open spec fn nested_msg() -> Seq<char> {
    "nested op calls are not supported; bind each op to a typed let first"@
}

/// The diagnostic text for an untyped `let` binding.
pub open spec fn untyped_let_msg() -> Seq<char> {
    "intermediate op results require a type annotation: let x: Tensor<T, S> = op(...)"@
}

/// The diagnostic text for a typed `let` binding whose pattern is not a name.
pub open spec fn binding_msg() -> Seq<char> {
    "intermediate bindings must be simple identifiers"@
}

/// A name that an op may have: it starts with an ASCII lower-case letter.
pub open spec fn spec_is_op_callee(name: Seq<char>) -> bool {
    name.len() > 0 && 'a' <= name[0] <= 'z'
}

/// A name that starts with an ASCII upper-case letter.
pub open spec fn starts_upper(name: Seq<char>) -> bool {
    name.len() > 0 && 'A' <= name[0] <= 'Z'
}

/// The op a called path names: its last segment, when that looks like an op and the
/// path does not start with a type's name (`Type::method`).
pub open spec fn spec_path_op_name(p: PathSyntax) -> Option<Seq<char>> {
    if p.segments@.len() == 0 {
        None
    } else if !spec_is_op_callee(p.segments@.last().ident@) {
        None
    } else if p.segments@.len() >= 2 && starts_upper(p.segments@[0].ident@) {
        None
    } else {
        Some(p.segments@.last().ident@)
    }
}

/// The op a callee expression names, if it is a path that names one.
pub open spec fn spec_callee_op_name(e: ExprSyntax) -> Option<Seq<char>> {
    match e.kind {
        ExprKind::Path { path } => spec_path_op_name(path),
        _ => None,
    }
}

/// Where the value of a `let` statement goes, from its pattern.
pub open spec fn spec_let_dest(pat: PatSyntax) -> Result<DestView, Diag> {
    match pat {
        PatSyntax::Typed { pat: inner, ty, .. } => match *inner {
            PatSyntax::Ident { name, .. } => Ok(DestView::Let { ident: name@, ty }),
            _ => Err(diag(pat_span(&*inner), binding_msg())),
        },
        _ => Err(diag(pat_span(&pat), untyped_let_msg())),
    }
}

/// Walks an expression whose value goes to `dest`, after the op calls `acc`: an op call
/// is recorded once its arguments are walked, and needs a destination.
pub open spec fn spec_walk_expr(e: ExprSyntax, dest: Option<DestView>, acc: Seq<SiteView>) -> Result<Seq<SiteView>, Diag>
    decreases e, 2int,
{
    match e.kind {
        ExprKind::Call { func, args } => match spec_walk_list(args@, 0, acc) {
            Err(err) => Err(err),
            Ok(acc2) => match spec_callee_op_name(*func) {
                Some(name) => match dest {
                    None => Err(diag(func.span, nested_msg())),
                    Some(d) => Ok(acc2.push(SiteView { name, args: args@, dest: d, span: func.span })),
                },
                None => Ok(acc2),
            },
        },
        _ => spec_walk_inner(e, acc),
    }
}

/// Walks the parts of an expression that is not a call, none of them with a
/// destination.
pub open spec fn spec_walk_inner(e: ExprSyntax, acc: Seq<SiteView>) -> Result<Seq<SiteView>, Diag>
    decreases e, 1int,
{
    match e.kind {
        ExprKind::MethodCall { receiver, args } => match spec_walk_expr(*receiver, None, acc) {
            Err(err) => Err(err),
            Ok(acc2) => spec_walk_list(args@, 0, acc2),
        },
        ExprKind::Binary { left, right } => match spec_walk_expr(*left, None, acc) {
            Err(err) => Err(err),
            Ok(acc2) => spec_walk_expr(*right, None, acc2),
        },
        ExprKind::Unary { expr } => spec_walk_expr(*expr, None, acc),
        ExprKind::Cast { expr } => spec_walk_expr(*expr, None, acc),
        ExprKind::Reference { expr } => spec_walk_expr(*expr, None, acc),
        ExprKind::If { cond, then_branch, else_branch } => match spec_walk_expr(*cond, None, acc) {
            Err(err) => Err(err),
            Ok(acc2) => match spec_walk_stmts(then_branch.stmts@, 0, acc2) {
                Err(err) => Err(err),
                Ok(acc3) => match else_branch {
                    None => Ok(acc3),
                    Some(el) => spec_walk_expr(*el, None, acc3),
                },
            },
        },
        ExprKind::Block { block } => spec_walk_stmts(block.stmts@, 0, acc),
        ExprKind::Assign { left, right } => match spec_walk_expr(*right, None, acc) {
            Err(err) => Err(err),
            Ok(acc2) => spec_walk_expr(*left, None, acc2),
        },
        ExprKind::Field { base } => spec_walk_expr(*base, None, acc),
        ExprKind::Index { expr, index } => match spec_walk_expr(*expr, None, acc) {
            Err(err) => Err(err),
            Ok(acc2) => spec_walk_expr(*index, None, acc2),
        },
        ExprKind::Array { elems } => spec_walk_list(elems@, 0, acc),
        ExprKind::Tuple { elems } => spec_walk_list(elems@, 0, acc),
        ExprKind::Group { expr } => spec_walk_expr(*expr, None, acc),
        ExprKind::Paren { expr } => spec_walk_expr(*expr, None, acc),
        ExprKind::Match { expr, arms } => match spec_walk_expr(*expr, None, acc) {
            Err(err) => Err(err),
            Ok(acc2) => spec_walk_arms(arms@, 0, acc2),
        },
        ExprKind::Return { expr } => match expr {
            None => Ok(acc),
            Some(v) => spec_walk_expr(*v, None, acc),
        },
        _ => Ok(acc),
    }
}

/// Walks the expressions of `es` from the `i`-th on, none with a destination.
pub open spec fn spec_walk_list(es: Seq<ExprSyntax>, i: int, acc: Seq<SiteView>) -> Result<Seq<SiteView>, Diag>
    decreases es, es.len() - i,
{
    if i < 0 || i >= es.len() {
        Ok(acc)
    } else {
        match spec_walk_expr(es[i], None, acc) {
            Err(err) => Err(err),
            Ok(acc2) => spec_walk_list(es, i + 1, acc2),
        }
    }
}

/// Walks the arms of a `match` from the `i`-th on: each guard, then each body.
pub open spec fn spec_walk_arms(arms: Seq<ArmSyntax>, i: int, acc: Seq<SiteView>) -> Result<Seq<SiteView>, Diag>
    decreases arms, arms.len() - i,
{
    if i < 0 || i >= arms.len() {
        Ok(acc)
    } else {
        let guarded = match arms[i].guard {
            None => Ok(acc),
            Some(g) => spec_walk_expr(g, None, acc),
        };
        match guarded {
            Err(err) => Err(err),
            Ok(acc2) => match spec_walk_expr(arms[i].body, None, acc2) {
                Err(err) => Err(err),
                Ok(acc3) => spec_walk_arms(arms, i + 1, acc3),
            },
        }
    }
}

/// Walks the statements of a block from the `i`-th on; the last one is the block's
/// tail, whose value is the block's result.
pub open spec fn spec_walk_stmts(ss: Seq<StmtSyntax>, i: int, acc: Seq<SiteView>) -> Result<Seq<SiteView>, Diag>
    decreases ss, ss.len() - i,
{
    if i < 0 || i >= ss.len() {
        Ok(acc)
    } else {
        match spec_walk_stmt(ss[i], i + 1 == ss.len(), acc) {
            Err(err) => Err(err),
            Ok(acc2) => spec_walk_stmts(ss, i + 1, acc2),
        }
    }
}

/// Walks one statement: the value of a `let` goes to its binding, and the value of the
/// tail statement out of the function.
pub open spec fn spec_walk_stmt(s: StmtSyntax, tail: bool, acc: Seq<SiteView>) -> Result<Seq<SiteView>, Diag>
    decreases s, 0int,
{
    match s {
        StmtSyntax::Local { pat, init, .. } => match init {
            None => Ok(acc),
            Some(init) => match spec_let_dest(pat) {
                Err(err) => Err(err),
                Ok(d) => spec_walk_expr(init, Some(d), acc),
            },
        },
        StmtSyntax::Expr { expr } => spec_walk_expr(
            expr,
            if tail { Some(DestView::Tail) } else { None },
            acc,
        ),
        _ => Ok(acc),
    }
}

/// The op calls in the body of `func`, in the order they run, or the first diagnostic.
pub open spec fn spec_collect_ops(func: &FnSyntax) -> Result<Seq<SiteView>, Diag> {
    spec_walk_stmts(func.block.stmts@, 0, Seq::empty())
}

/// What a walk that changed the op list from its old value to `ops` says, against
/// what the walk should give.
pub open spec fn walked<'a>(r: Result<(), MacroError>, expected: Result<Seq<SiteView>, Diag>, ops: Seq<OpSite<'a>>) -> bool {
    match r {
        Ok(_) => expected == Ok::<Seq<SiteView>, Diag>(sites_view(ops)),
        Err(e) => expected == Err::<Seq<SiteView>, Diag>(e@),
    }
}

fn is_op_callee(name: &str) -> (r: bool)
    ensures
        r == spec_is_op_callee(name@),
{
    if name.unicode_len() == 0 {
        return false;
    }
    let c = name.get_char(0);
    'a' <= c && c <= 'z'
}

fn starts_upper_exec(name: &str) -> (r: bool)
    ensures
        r == starts_upper(name@),
{
    if name.unicode_len() == 0 {
        return false;
    }
    let c = name.get_char(0);
    'A' <= c && c <= 'Z'
}

fn path_op_name(path: &PathSyntax) -> (r: Option<String>)
    ensures
        match r {
            Some(s) => spec_path_op_name(*path) == Some(s@),
            None => spec_path_op_name(*path) is None,
        },
{
    let n = path.segments.len();
    if n == 0 {
        return None;
    }
    let last = &path.segments[n - 1];
    if !is_op_callee(last.ident.as_str()) {
        return None;
    }
    if n >= 2 && starts_upper_exec(path.segments[0].ident.as_str()) {
        return None;
    }
    Some(last.ident.clone())
}

fn callee_op_name(func: &ExprSyntax) -> (r: Option<String>)
    ensures
        match r {
            Some(s) => spec_callee_op_name(*func) == Some(s@),
            None => spec_callee_op_name(*func) is None,
        },
{
    match &func.kind {
        ExprKind::Path { path } => path_op_name(path),
        _ => None,
    }
}

fn let_dest<'a>(pat: &'a PatSyntax) -> (r: Result<OpDest<'a>, MacroError>)
    ensures
        match r {
            Ok(d) => spec_let_dest(*pat) == Ok::<DestView, Diag>(d@),
            Err(e) => spec_let_dest(*pat) == Err::<DestView, Diag>(e@),
        },
{
    match pat {
        PatSyntax::Typed { pat: inner, ty, .. } => match &**inner {
            PatSyntax::Ident { name, .. } => Ok(OpDest::Let { ident: name.clone(), ty }),
            _ => Err(macro_error(inner.span(), "intermediate bindings must be simple identifiers")),
        },
        _ => Err(
            macro_error(
                pat.span(),
                "intermediate op results require a type annotation: let x: Tensor<T, S> = op(...)",
            ),
        ),
    }
}

fn walk_list<'a>(es: &'a Vec<ExprSyntax>, ops: &mut Vec<OpSite<'a>>) -> (r: Result<(), MacroError>)
    ensures
        walked(r, spec_walk_list(es@, 0, sites_view(old(ops)@)), final(ops)@),
    decreases es, 3int,
{
    let ghost acc0 = sites_view(ops@);
    let mut i: usize = 0;
    while i < es.len()
        invariant
            i <= es@.len(),
            acc0 == sites_view(old(ops)@),
            spec_walk_list(es@, 0, acc0) == spec_walk_list(es@, i as int, sites_view(ops@)),
        decreases es@.len() - i,
    {
        let ghost cur = sites_view(ops@);
        match walk_expr(&es[i], ops, None) {
            Err(e) => {
                assert(spec_walk_list(es@, i as int, cur) == Err::<Seq<SiteView>, Diag>(e@));
                return Err(e);
            },
            Ok(()) => {},
        }
        assert(spec_walk_list(es@, i as int, cur) == spec_walk_list(es@, i + 1, sites_view(ops@)));
        i = i + 1;
    }
    Ok(())
}

fn walk_expr<'a>(e: &'a ExprSyntax, ops: &mut Vec<OpSite<'a>>, dest: Option<OpDest<'a>>) -> (r: Result<(), MacroError>)
    ensures
        walked(r, spec_walk_expr(*e, opt_dest_view(dest), sites_view(old(ops)@)), final(ops)@),
    decreases e, 2int,
{
    match &e.kind {
        ExprKind::Call { func, args } => {
            walk_list(args, ops)?;
            match callee_op_name(func) {
                Some(name) => match dest {
                    None => Err(
                        macro_error(
                            func.span,
                            "nested op calls are not supported; bind each op to a typed let first",
                        ),
                    ),
                    Some(d) => {
                        let mut refs: Vec<&'a ExprSyntax> = Vec::new();
                        let mut j: usize = 0;
                        while j < args.len()
                            invariant
                                j <= args@.len(),
                                refs@.map_values(|a: &ExprSyntax| *a) == args@.subrange(0, j as int),
                            decreases args@.len() - j,
                        {
                            let ghost before = refs@;
                            refs.push(&args[j]);
                            assert(refs@ == before.push(&args@[j as int]));
                            assert(refs@.map_values(|a: &ExprSyntax| *a) =~= before.map_values(
                                |a: &ExprSyntax| *a,
                            ).push(args@[j as int]));
                            assert(args@.subrange(0, j + 1) =~= args@.subrange(0, j as int).push(
                                args@[j as int],
                            ));
                            j = j + 1;
                        }
                        assert(args@.subrange(0, args@.len() as int) =~= args@);
                        let site = OpSite { name, args: refs, dest: d, span: func.span };
                        let ghost before = ops@;
                        ops.push(site);
                        assert(sites_view(ops@) =~= sites_view(before).push(site@));
                        Ok(())
                    },
                },
                None => Ok(()),
            }
        },
        _ => walk_inner(e, ops),
    }
}

fn walk_inner<'a>(e: &'a ExprSyntax, ops: &mut Vec<OpSite<'a>>) -> (r: Result<(), MacroError>)
    ensures
        walked(r, spec_walk_inner(*e, sites_view(old(ops)@)), final(ops)@),
    decreases e, 1int,
{
    match &e.kind {
        ExprKind::MethodCall { receiver, args } => {
            walk_expr(&**receiver, ops, None)?;
            walk_list(args, ops)
        },
        ExprKind::Binary { left, right } => {
            walk_expr(&**left, ops, None)?;
            walk_expr(&**right, ops, None)
        },
        ExprKind::Unary { expr } => walk_expr(&**expr, ops, None),
        ExprKind::Cast { expr } => walk_expr(&**expr, ops, None),
        ExprKind::Reference { expr } => walk_expr(&**expr, ops, None),
        ExprKind::If { cond, then_branch, else_branch } => {
            walk_expr(&**cond, ops, None)?;
            walk_block(then_branch, ops)?;
            match else_branch {
                None => Ok(()),
                Some(el) => walk_expr(&**el, ops, None),
            }
        },
        ExprKind::Block { block } => walk_block(block, ops),
        ExprKind::Assign { left, right } => {
            walk_expr(&**right, ops, None)?;
            walk_expr(&**left, ops, None)
        },
        ExprKind::Field { base } => walk_expr(&**base, ops, None),
        ExprKind::Index { expr, index } => {
            walk_expr(&**expr, ops, None)?;
            walk_expr(&**index, ops, None)
        },
        ExprKind::Array { elems } => walk_list(elems, ops),
        ExprKind::Tuple { elems } => walk_list(elems, ops),
        ExprKind::Group { expr } => walk_expr(&**expr, ops, None),
        ExprKind::Paren { expr } => walk_expr(&**expr, ops, None),
        ExprKind::Match { expr, arms } => {
            walk_expr(&**expr, ops, None)?;
            walk_arms(arms, ops)
        },
        ExprKind::Return { expr } => match expr {
            None => Ok(()),
            Some(v) => walk_expr(&**v, ops, None),
        },
        _ => Ok(()),
    }
}

fn walk_arms<'a>(arms: &'a Vec<ArmSyntax>, ops: &mut Vec<OpSite<'a>>) -> (r: Result<(), MacroError>)
    ensures
        walked(r, spec_walk_arms(arms@, 0, sites_view(old(ops)@)), final(ops)@),
    decreases arms, 3int,
{
    let ghost acc0 = sites_view(ops@);
    let mut i: usize = 0;
    while i < arms.len()
        invariant
            i <= arms@.len(),
            acc0 == sites_view(old(ops)@),
            spec_walk_arms(arms@, 0, acc0) == spec_walk_arms(arms@, i as int, sites_view(ops@)),
        decreases arms@.len() - i,
    {
        let ghost cur = sites_view(ops@);
        let arm = &arms[i];
        let ghost guarded = match arms@[i as int].guard {
            None => Ok::<Seq<SiteView>, Diag>(cur),
            Some(g) => spec_walk_expr(g, None, cur),
        };
        match &arm.guard {
            None => {},
            Some(g) => {
                if let Err(e) = walk_expr(g, ops, None) {
                    assert(spec_walk_arms(arms@, i as int, cur) == Err::<Seq<SiteView>, Diag>(e@));
                    return Err(e);
                }
            },
        }
        assert(guarded == Ok::<Seq<SiteView>, Diag>(sites_view(ops@)));
        let ghost mid = sites_view(ops@);
        if let Err(e) = walk_expr(&arm.body, ops, None) {
            assert(spec_walk_expr(arms@[i as int].body, None, mid) == Err::<Seq<SiteView>, Diag>(e@));
            assert(spec_walk_arms(arms@, i as int, cur) == Err::<Seq<SiteView>, Diag>(e@));
            return Err(e);
        }
        assert(spec_walk_arms(arms@, i as int, cur) == spec_walk_arms(arms@, i + 1, sites_view(ops@)));
        i = i + 1;
    }
    Ok(())
}

fn walk_block<'a>(block: &'a BlockSyntax, ops: &mut Vec<OpSite<'a>>) -> (r: Result<(), MacroError>)
    ensures
        walked(r, spec_walk_stmts(block.stmts@, 0, sites_view(old(ops)@)), final(ops)@),
    decreases block, 3int,
{
    let ghost acc0 = sites_view(ops@);
    let n = block.stmts.len();
    let mut i: usize = 0;
    while i < n
        invariant
            n == block.stmts@.len(),
            i <= n,
            acc0 == sites_view(old(ops)@),
            spec_walk_stmts(block.stmts@, 0, acc0) == spec_walk_stmts(
                block.stmts@,
                i as int,
                sites_view(ops@),
            ),
        decreases n - i,
    {
        let ghost cur = sites_view(ops@);
        if let Err(e) = walk_stmt(&block.stmts[i], ops, i + 1 == n) {
            assert(spec_walk_stmts(block.stmts@, i as int, cur) == Err::<Seq<SiteView>, Diag>(e@));
            return Err(e);
        }
        assert(spec_walk_stmts(block.stmts@, i as int, cur) == spec_walk_stmts(
            block.stmts@,
            i + 1,
            sites_view(ops@),
        ));
        i = i + 1;
    }
    Ok(())
}

fn walk_stmt<'a>(s: &'a StmtSyntax, ops: &mut Vec<OpSite<'a>>, tail: bool) -> (r: Result<(), MacroError>)
    ensures
        walked(r, spec_walk_stmt(*s, tail, sites_view(old(ops)@)), final(ops)@),
    decreases s, 3int,
{
    match s {
        StmtSyntax::Local { pat, init, .. } => match init {
            None => Ok(()),
            Some(init) => {
                let d = let_dest(pat)?;
                walk_expr(init, ops, Some(d))
            },
        },
        StmtSyntax::Expr { expr } => {
            let d = if tail {
                Some(OpDest::Tail)
            } else {
                None
            };
            walk_expr(expr, ops, d)
        },
        _ => Ok(()),
    }
}

/// Finds the op calls in the body of a differentiable function, in the order they run.
pub fn collect_ops<'a>(func: &'a FnSyntax) -> (r: Result<Vec<OpSite<'a>>, MacroError>)
    ensures
        match r {
            Ok(v) => spec_collect_ops(func) == Ok::<Seq<SiteView>, Diag>(sites_view(v@)),
            Err(e) => spec_collect_ops(func) == Err::<Seq<SiteView>, Diag>(e@),
        },
{
    let mut ops: Vec<OpSite<'a>> = Vec::new();
    assert(sites_view(ops@) =~= Seq::<SiteView>::empty());
    walk_block(&func.block, &mut ops)?;
    Ok(ops)
}

/// A called path that names an op names it by its last segment: `ops::rmsnorm` and
/// `rmsnorm` both name `rmsnorm`, and the segments before the last only say where the
/// op lives.
pub proof fn lemma_op_named_by_last_segment(p: PathSyntax)
    ensures
        spec_path_op_name(p) matches Some(name) ==> p.segments@.len() > 0 && name
            == p.segments@.last().ident@,
        spec_path_op_name(p) is Some <==> p.segments@.len() > 0 && spec_is_op_callee(
            p.segments@.last().ident@,
        ) && !(p.segments@.len() >= 2 && starts_upper(p.segments@[0].ident@)),
{
}

/// When walking a call records an op call for it, the op recorded is the one the callee
/// path names by its last segment, with the call's own arguments and destination.
pub proof fn lemma_recorded_call_names_last_segment(
    e: ExprSyntax,
    dest: Option<DestView>,
    acc: Seq<SiteView>,
)
    requires
        e.kind matches ExprKind::Call { func, args } && (func.kind matches ExprKind::Path { .. }),
        spec_walk_expr(e, dest, acc) is Ok,
    ensures
        ({
            let (func, args) = match e.kind {
                ExprKind::Call { func, args } => (*func, args@),
                _ => (e, Seq::empty()),
            };
            let path = match func.kind {
                ExprKind::Path { path } => path,
                _ => arbitrary(),
            };
            let before = spec_walk_list(args, 0, acc)->Ok_0;
            let after = spec_walk_expr(e, dest, acc)->Ok_0;
            &&& spec_walk_list(args, 0, acc) is Ok
            &&& after.len() > before.len() ==> {
                &&& path.segments@.len() > 0
                &&& after.len() == before.len() + 1
                &&& after.last().name == path.segments@.last().ident@
                &&& after.last().args == args
                &&& Some(after.last().dest) == dest
            }
        }),
{
}

} // verus!
