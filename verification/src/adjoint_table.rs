use vstd::prelude::*;
use vstd::string::StringSliceAdditionalSpecFns;

verus! {

/// Whether a value a forward pass needs again in its backward pass is kept in memory or
/// computed again.
#[derive(Clone, Copy, Debug, PartialEq, Eq, Structural)]
pub enum SaveMode {
    Store,
    Recompute,
}

/// One value an op's backward pass needs.
#[derive(Clone, Copy, Debug)]
pub struct SavedSpec {
    pub name: &'static str,
    pub mode: SaveMode,
}

/// How one differentiable op is run forwards and backwards.
#[derive(Clone, Debug)]
pub struct AdjointEntry {
    pub op: &'static str,
    pub forward_launcher: &'static str,
    pub backward_launcher: &'static str,
    pub saved: Vec<SavedSpec>,
    pub input_grads: Vec<&'static str>,
    pub param_grads: Vec<&'static str>,
}

/// An adjoint entry as plain values.
pub ghost struct EntryView {
    pub op: Seq<char>,
    pub forward_launcher: Seq<char>,
    pub backward_launcher: Seq<char>,
    pub saved: Seq<(Seq<char>, SaveMode)>,
    pub input_grads: Seq<Seq<char>>,
    pub param_grads: Seq<Seq<char>>,
}

pub open spec fn saved_view(s: SavedSpec) -> (Seq<char>, SaveMode) {
    (s.name@, s.mode)
}

pub open spec fn names_view(names: Seq<&'static str>) -> Seq<Seq<char>> {
    names.map_values(|n: &'static str| n@)
}

impl View for AdjointEntry {
    type V = EntryView;

    open spec fn view(&self) -> EntryView {
        EntryView {
            op: self.op@,
            forward_launcher: self.forward_launcher@,
            backward_launcher: self.backward_launcher@,
            saved: self.saved@.map_values(|s: SavedSpec| saved_view(s)),
            input_grads: names_view(self.input_grads@),
            param_grads: names_view(self.param_grads@),
        }
    }
}

impl AdjointEntry {
    pub fn num_saved(&self) -> (n: usize)
        ensures
            n == self@.saved.len(),
    {
        self.saved.len()
    }

    pub fn num_input_grads(&self) -> (n: usize)
        ensures
            n == self@.input_grads.len(),
    {
        self.input_grads.len()
    }

    pub fn num_param_grads(&self) -> (n: usize)
        ensures
            n == self@.param_grads.len(),
    {
        self.param_grads.len()
    }
}

fn stored(name: &'static str) -> (s: SavedSpec)
    ensures
        s.name == name,
        s.mode == SaveMode::Store,
{
    SavedSpec { name, mode: SaveMode::Store }
}

fn recomputed(name: &'static str) -> (s: SavedSpec)
    ensures
        s.name == name,
        s.mode == SaveMode::Recompute,
{
    SavedSpec { name, mode: SaveMode::Recompute }
}

pub open spec fn st(name: Seq<char>) -> (Seq<char>, SaveMode) {
    (name, SaveMode::Store)
}

pub open spec fn rc(name: Seq<char>) -> (Seq<char>, SaveMode) {
    (name, SaveMode::Recompute)
}

/// The registered differentiable ops, in table order.
pub open spec fn table_spec() -> Seq<EntryView> {
    seq![
        EntryView {
            op: "matmul"@,
            forward_launcher: "matmul_fwd"@,
            backward_launcher: "matmul_bwd"@,
            saved: seq![st("lhs"@), st("rhs"@)],
            input_grads: seq!["dlhs"@, "drhs"@],
            param_grads: seq![],
        },
        EntryView {
            op: "linear"@,
            forward_launcher: "linear_fwd"@,
            backward_launcher: "linear_bwd"@,
            saved: seq![st("x"@), st("weight"@)],
            input_grads: seq!["dx"@],
            param_grads: seq!["dweight"@, "dbias"@],
        },
        EntryView {
            op: "rmsnorm"@,
            forward_launcher: "rmsnorm_adjoint_fwd"@,
            backward_launcher: "rmsnorm_adjoint_bwd"@,
            saved: seq![st("x"@), st("rms"@)],
            input_grads: seq!["dx"@],
            param_grads: seq!["dweight"@],
        },
        EntryView {
            op: "layernorm"@,
            forward_launcher: "layernorm_adjoint_fwd"@,
            backward_launcher: "layernorm_adjoint_bwd"@,
            saved: seq![st("x"@), st("mean"@), st("invstd"@)],
            input_grads: seq!["dx"@],
            param_grads: seq!["dweight"@, "dbias"@],
        },
        EntryView {
            op: "flash_attention"@,
            forward_launcher: "attention_adjoint_fwd"@,
            backward_launcher: "attention_adjoint_bwd"@,
            saved: seq![st("q"@), st("k"@), st("v"@), st("lse"@), rc("scores"@)],
            input_grads: seq!["dq"@, "dk"@, "dv"@],
            param_grads: seq![],
        },
        EntryView {
            op: "swiglu_mlp"@,
            forward_launcher: "swiglu_adjoint_fwd"@,
            backward_launcher: "swiglu_adjoint_bwd"@,
            saved: seq![st("x"@), rc("gate"@), rc("up"@)],
            input_grads: seq!["dx"@],
            param_grads: seq!["dgate_proj"@, "dup_proj"@, "ddown_proj"@],
        },
        EntryView {
            op: "residual_add"@,
            forward_launcher: "residual_add_fwd"@,
            backward_launcher: "residual_add_bwd"@,
            saved: seq![],
            input_grads: seq!["dx"@, "dy"@],
            param_grads: seq![],
        },
    ]
}

/// The registered differentiable ops, in table order.
pub fn adjoint_table() -> (t: Vec<AdjointEntry>)
    ensures
        t@.len() == table_spec().len(),
        forall|i: int| 0 <= i < t@.len() ==> #[trigger] t@[i]@ == table_spec()[i],
{
    let mut t: Vec<AdjointEntry> = Vec::new();
    let e = AdjointEntry {
        op: "matmul",
        forward_launcher: "matmul_fwd",
        backward_launcher: "matmul_bwd",
        saved: vec![stored("lhs"), stored("rhs")],
        input_grads: vec!["dlhs", "drhs"],
        param_grads: Vec::new(),
    };
    assert(e@.saved =~= table_spec()[0].saved);
    assert(e@.input_grads =~= table_spec()[0].input_grads);
    assert(e@.param_grads =~= table_spec()[0].param_grads);
    t.push(e);
    let e = AdjointEntry {
        op: "linear",
        forward_launcher: "linear_fwd",
        backward_launcher: "linear_bwd",
        saved: vec![stored("x"), stored("weight")],
        input_grads: vec!["dx"],
        param_grads: vec!["dweight", "dbias"],
    };
    assert(e@.saved =~= table_spec()[1].saved);
    assert(e@.input_grads =~= table_spec()[1].input_grads);
    assert(e@.param_grads =~= table_spec()[1].param_grads);
    t.push(e);
    let e = AdjointEntry {
        op: "rmsnorm",
        forward_launcher: "rmsnorm_adjoint_fwd",
        backward_launcher: "rmsnorm_adjoint_bwd",
        saved: vec![stored("x"), stored("rms")],
        input_grads: vec!["dx"],
        param_grads: vec!["dweight"],
    };
    assert(e@.saved =~= table_spec()[2].saved);
    assert(e@.input_grads =~= table_spec()[2].input_grads);
    assert(e@.param_grads =~= table_spec()[2].param_grads);
    t.push(e);
    let e = AdjointEntry {
        op: "layernorm",
        forward_launcher: "layernorm_adjoint_fwd",
        backward_launcher: "layernorm_adjoint_bwd",
        saved: vec![stored("x"), stored("mean"), stored("invstd")],
        input_grads: vec!["dx"],
        param_grads: vec!["dweight", "dbias"],
    };
    assert(e@.saved =~= table_spec()[3].saved);
    assert(e@.input_grads =~= table_spec()[3].input_grads);
    assert(e@.param_grads =~= table_spec()[3].param_grads);
    t.push(e);
    let e = AdjointEntry {
        op: "flash_attention",
        forward_launcher: "attention_adjoint_fwd",
        backward_launcher: "attention_adjoint_bwd",
        saved: vec![stored("q"), stored("k"), stored("v"), stored("lse"), recomputed("scores")],
        input_grads: vec!["dq", "dk", "dv"],
        param_grads: Vec::new(),
    };
    assert(e@.saved =~= table_spec()[4].saved);
    assert(e@.input_grads =~= table_spec()[4].input_grads);
    assert(e@.param_grads =~= table_spec()[4].param_grads);
    t.push(e);
    let e = AdjointEntry {
        op: "swiglu_mlp",
        forward_launcher: "swiglu_adjoint_fwd",
        backward_launcher: "swiglu_adjoint_bwd",
        saved: vec![stored("x"), recomputed("gate"), recomputed("up")],
        input_grads: vec!["dx"],
        param_grads: vec!["dgate_proj", "dup_proj", "ddown_proj"],
    };
    assert(e@.saved =~= table_spec()[5].saved);
    assert(e@.input_grads =~= table_spec()[5].input_grads);
    assert(e@.param_grads =~= table_spec()[5].param_grads);
    t.push(e);
    let e = AdjointEntry {
        op: "residual_add",
        forward_launcher: "residual_add_fwd",
        backward_launcher: "residual_add_bwd",
        saved: Vec::new(),
        input_grads: vec!["dx", "dy"],
        param_grads: Vec::new(),
    };
    assert(e@.saved =~= table_spec()[6].saved);
    assert(e@.input_grads =~= table_spec()[6].input_grads);
    assert(e@.param_grads =~= table_spec()[6].param_grads);
    t.push(e);
    t
}


/// `a` and `b` hold the same text.
pub(crate) fn str_eq(a: &str, b: &str) -> (r: bool)
    ensures
        r == (a@ == b@),
{
    let ab = a.as_bytes();
    let bb = b.as_bytes();
    proof {
        vstd::utf8::encode_utf8_decode_utf8(a@);
        vstd::utf8::encode_utf8_decode_utf8(b@);
    }
    if ab.len() != bb.len() {
        return false;
    }
    let mut i: usize = 0;
    while i < ab.len()
        invariant
            ab@ == a.spec_bytes(),
            bb@ == b.spec_bytes(),
            ab@.len() == bb@.len(),
            i <= ab@.len(),
            forall|j: int| 0 <= j < i ==> ab@[j] == bb@[j],
        decreases ab@.len() - i,
    {
        if ab[i] != bb[i] {
            return false;
        }
        i = i + 1;
    }
    assert(ab@ =~= bb@);
    true
}

/// Some registered op is named `op`.
pub open spec fn is_registered(op: Seq<char>) -> bool {
    exists|i: int| 0 <= i < table_spec().len() && #[trigger] table_spec()[i].op == op
}

/// The entry registered for `op`, if there is one.
pub open spec fn spec_lookup(op: Seq<char>) -> Option<EntryView> {
    if is_registered(op) {
        Some(
            table_spec()[choose|i: int|
                0 <= i < table_spec().len() && #[trigger] table_spec()[i].op == op],
        )
    } else {
        None
    }
}

/// No two registered ops share a name.
pub proof fn lemma_op_names_unique()
    ensures
        forall|i: int, j: int|
            0 <= i < j < table_spec().len() ==> #[trigger] table_spec()[i].op
                != #[trigger] table_spec()[j].op,
{
    reveal_strlit("matmul");
    reveal_strlit("linear");
    reveal_strlit("rmsnorm");
    reveal_strlit("layernorm");
    reveal_strlit("flash_attention");
    reveal_strlit("swiglu_mlp");
    reveal_strlit("residual_add");
    assert forall|i: int, j: int| 0 <= i < j < table_spec().len() implies #[trigger] table_spec()[i].op
        != #[trigger] table_spec()[j].op by {
        let a = table_spec()[i].op;
        let b = table_spec()[j].op;
        if a.len() == b.len() {
            assert(a[0] != b[0] || a[1] != b[1]);
        }
    }
}

/// Every op is run forwards and backwards by different launchers.
pub proof fn lemma_launchers_distinct()
    ensures
        forall|i: int|
            0 <= i < table_spec().len() ==> #[trigger] table_spec()[i].forward_launcher
                != table_spec()[i].backward_launcher,
{
    reveal_strlit("matmul_fwd");
    reveal_strlit("matmul_bwd");
    reveal_strlit("linear_fwd");
    reveal_strlit("linear_bwd");
    reveal_strlit("rmsnorm_adjoint_fwd");
    reveal_strlit("rmsnorm_adjoint_bwd");
    reveal_strlit("layernorm_adjoint_fwd");
    reveal_strlit("layernorm_adjoint_bwd");
    reveal_strlit("attention_adjoint_fwd");
    reveal_strlit("attention_adjoint_bwd");
    reveal_strlit("swiglu_adjoint_fwd");
    reveal_strlit("swiglu_adjoint_bwd");
    reveal_strlit("residual_add_fwd");
    reveal_strlit("residual_add_bwd");
    assert forall|i: int| 0 <= i < table_spec().len() implies #[trigger] table_spec()[i].forward_launcher
        != table_spec()[i].backward_launcher by {
        let f = table_spec()[i].forward_launcher;
        let b = table_spec()[i].backward_launcher;
        assert(f[f.len() - 3] != b[b.len() - 3]);
    }
}

/// A lookup finds exactly the entry whose op has the name asked for, and finds nothing
/// when no entry has that name.
pub proof fn lemma_lookup_finds_named_entry(op: Seq<char>)
    ensures
        spec_lookup(op) is Some <==> is_registered(op),
        forall|i: int|
            0 <= i < table_spec().len() && #[trigger] table_spec()[i].op == op ==> spec_lookup(op)
                == Some(table_spec()[i]),
        spec_lookup(op) matches Some(e) ==> e.op == op,
{
    lemma_op_names_unique();
    if is_registered(op) {
        let k = choose|i: int| 0 <= i < table_spec().len() && #[trigger] table_spec()[i].op == op;
        assert forall|i: int|
            0 <= i < table_spec().len() && #[trigger] table_spec()[i].op == op implies i == k by {
            if i < k {
                assert(table_spec()[i].op != table_spec()[k].op);
            } else if k < i {
                assert(table_spec()[k].op != table_spec()[i].op);
            }
        }
    }
}

/// The entry registered for `op`, if there is one.
pub fn lookup(op: &str) -> (r: Option<AdjointEntry>)
    ensures
        match r {
            Some(e) => spec_lookup(op@) == Some(e@),
            None => spec_lookup(op@) is None,
        },
{
    proof {
        lemma_lookup_finds_named_entry(op@);
    }
    let mut table = adjoint_table();
    let n = table.len();
    let mut i: usize = 0;
    while i < n
        invariant
            n == table@.len() == table_spec().len(),
            forall|j: int| 0 <= j < table@.len() ==> #[trigger] table@[j]@ == table_spec()[j],
            i <= n,
            forall|j: int| 0 <= j < i ==> #[trigger] table_spec()[j].op != op@,
        decreases n - i,
    {
        assert(table@[i as int]@ == table_spec()[i as int]);
        if str_eq(table[i].op, op) {
            assert(table_spec()[i as int].op == op@);
            proof {
                lemma_lookup_finds_named_entry(op@);
            }
            let e = table.remove(i);
            return Some(e);
        }
        i = i + 1;
    }
    None
}

/// Some op named `op` is registered.
pub fn is_differentiable(op: &str) -> (b: bool)
    ensures
        b == is_registered(op@),
{
    proof {
        lemma_lookup_finds_named_entry(op@);
    }
    lookup(op).is_some()
}

/// The number of registered ops.
pub fn len() -> (n: usize)
    ensures
        n == table_spec().len(),
{
    let t = adjoint_table();
    t.len()
}

/// The names of the registered ops, in table order.
pub fn op_names() -> (names: Vec<&'static str>)
    ensures
        names@.len() == table_spec().len(),
        forall|i: int| 0 <= i < names@.len() ==> #[trigger] names@[i]@ == table_spec()[i].op,
{
    let t = adjoint_table();
    let mut names: Vec<&'static str> = Vec::new();
    let mut i: usize = 0;
    while i < t.len()
        invariant
            t@.len() == table_spec().len(),
            forall|j: int| 0 <= j < t@.len() ==> #[trigger] t@[j]@ == table_spec()[j],
            i <= t@.len(),
            names@.len() == i,
            forall|j: int| 0 <= j < i ==> #[trigger] names@[j]@ == table_spec()[j].op,
        decreases t@.len() - i,
    {
        assert(t@[i as int]@ == table_spec()[i as int]);
        names.push(t[i].op);
        i = i + 1;
    }
    names
}

/// The SwiGLU MLP keeps its input `x` for its backward pass and computes its two
/// projections `gate` and `up` again there rather than keeping them.
pub proof fn lemma_swiglu_recomputes_projections()
    ensures
        spec_lookup("swiglu_mlp"@) matches Some(e) && e.saved == seq![
            ("x"@, SaveMode::Store),
            ("gate"@, SaveMode::Recompute),
            ("up"@, SaveMode::Recompute),
        ],
{
    lemma_lookup_finds_named_entry("swiglu_mlp"@);
    assert(table_spec()[5].op == "swiglu_mlp"@);
}

} // verus!
