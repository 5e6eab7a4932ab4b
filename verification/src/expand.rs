use vstd::prelude::*;
use crate::adjoint_table::spec_lookup;
use crate::codegen::{Expansion, ExpansionView, calls_well_formed, generate, spec_generate, takes_two_args};
use crate::ops::{OpSite, SiteView, collect_ops, sites_view, spec_collect_ops};
use crate::resolve::{ResolvedView, resolve_ops, resolved_view, spec_resolve_ops, spec_resolved, diags_view};
use crate::signature::{extract, spec_extract};
use crate::syntax::{Diag, FnSyntax, MacroError};
use crate::validate::{check_signature, spec_check_signature};

verus! {

/// What the attribute does with a function.
#[derive(Debug)]
pub enum Expanded {
    /// It generates the forward and backward passes planned here, beside the function.
    Plan(Expansion),
    /// It leaves the function as written: its signature is not one of tensors alone
    /// and its body calls no op, so there is nothing to differentiate.
    Unchanged,
}

/// Every call of an op whose launches take two arguments has at least two.
pub open spec fn two_arg_calls_complete(sites: Seq<SiteView>) -> bool {
    forall|i: int|
        0 <= i < sites.len() && takes_two_args((#[trigger] sites[i]).name) ==> sites[i].args.len()
            >= 2
}

/// What the attribute makes of `func`: the plan, `None` when it leaves the function
/// unchanged, or the diagnostics it reports.
pub open spec fn spec_expand(func: &FnSyntax) -> Result<Option<ExpansionView>, Seq<Diag>> {
    match spec_check_signature(func) {
        Err(e) => Err(seq![e]),
        Ok(_) => match spec_extract(func) {
            Err(e) => match spec_collect_ops(func) {
                Ok(sites) => if sites.len() == 0 {
                    Ok(None)
                } else {
                    Err(seq![e])
                },
                Err(_) => Err(seq![e]),
            },
            Ok(sig) => match spec_collect_ops(func) {
                Err(e) => Err(seq![e]),
                Ok(sites) => match spec_resolve_ops(sites) {
                    Err(es) => Err(es),
                    Ok(calls) => match spec_generate(func, sig, calls) {
                        Err(e) => Err(seq![e]),
                        Ok(x) => Ok(Some(x)),
                    },
                },
            },
        },
    }
}

/// The calls resolution gives carry their registered entries, and each is one of the
/// calls it was given.
proof fn lemma_resolved_from_table(sites: Seq<SiteView>, k: int)
    requires
        0 <= k <= sites.len(),
    ensures
        forall|i: int|
            0 <= i < spec_resolved(sites, k).len() ==> {
                let r = #[trigger] spec_resolved(sites, k)[i];
                &&& spec_lookup(r.site.name) == Some(r.entry)
                &&& r.forward_launcher == r.entry.forward_launcher
                &&& r.backward_launcher == r.entry.backward_launcher
                &&& exists|m: int| 0 <= m < k && sites[m] == r.site
            },
    decreases k,
{
    if k > 0 {
        lemma_resolved_from_table(sites, k - 1);
        let prev = spec_resolved(sites, k - 1);
        let cur = spec_resolved(sites, k);
        assert forall|i: int| 0 <= i < cur.len() implies {
            let r = #[trigger] cur[i];
            &&& spec_lookup(r.site.name) == Some(r.entry)
            &&& r.forward_launcher == r.entry.forward_launcher
            &&& r.backward_launcher == r.entry.backward_launcher
            &&& exists|m: int| 0 <= m < k && sites[m] == r.site
        } by {
            if i < prev.len() {
                assert(cur[i] == prev[i]);
                let m = choose|m: int| 0 <= m < k - 1 && sites[m] == prev[i].site;
                assert(0 <= m < k && sites[m] == cur[i].site);
            } else {
                assert(cur[i].site == sites[k - 1]);
            }
        }
    }
}

/// Decides what the attribute makes of a function: checks its signature, reads its
/// tensor signature, finds its op calls, looks up their adjoints and plans the
/// generated code, stopping at the first step that reports diagnostics.
pub fn expand(func: &FnSyntax) -> (r: Result<Expanded, Vec<MacroError>>)
    requires
        spec_collect_ops(func) matches Ok(sites) ==> two_arg_calls_complete(sites),
    ensures
        match r {
            Ok(Expanded::Plan(x)) => spec_expand(func) == Ok::<Option<ExpansionView>, Seq<Diag>>(Some(x@)),
            Ok(Expanded::Unchanged) => spec_expand(func) == Ok::<Option<ExpansionView>, Seq<Diag>>(None),
            Err(es) => spec_expand(func) == Err::<Option<ExpansionView>, Seq<Diag>>(diags_view(es@)),
        },
{
    if let Err(e) = check_signature(func) {
        let es = vec![e];
        assert(diags_view(es@) =~= seq![e@]);
        return Err(es);
    }
    let sig = match extract(func) {
        Ok(s) => s,
        Err(e) => {
            let none = match collect_ops(func) {
                Ok(ops) => ops.len() == 0,
                Err(_) => false,
            };
            if none {
                return Ok(Expanded::Unchanged);
            }
            let es = vec![e];
            assert(diags_view(es@) =~= seq![e@]);
            return Err(es);
        },
    };
    let ops = match collect_ops(func) {
        Ok(ops) => ops,
        Err(e) => {
            let es = vec![e];
            assert(diags_view(es@) =~= seq![e@]);
            return Err(es);
        },
    };
    let calls = resolve_ops(ops.as_slice())?;
    proof {
        let sites = sites_view(ops@);
        lemma_resolved_from_table(sites, sites.len() as int);
        let cv = resolved_view(calls@);
        assert(cv == spec_resolved(sites, sites.len() as int));
        assert forall|i: int| 0 <= i < cv.len() implies {
            &&& spec_lookup((#[trigger] cv[i]).site.name) == Some(cv[i].entry)
            &&& cv[i].forward_launcher == cv[i].entry.forward_launcher
            &&& cv[i].backward_launcher == cv[i].entry.backward_launcher
            &&& takes_two_args(cv[i].site.name) ==> cv[i].site.args.len() >= 2
        } by {
            let m = choose|m: int| 0 <= m < sites.len() && sites[m] == cv[i].site;
            assert(sites[m] == cv[i].site);
        }
    }
    match generate(func, &sig, calls.as_slice()) {
        Ok(x) => Ok(Expanded::Plan(x)),
        Err(e) => {
            let es = vec![e];
            assert(diags_view(es@) =~= seq![e@]);
            Err(es)
        },
    }
}

/// The first call of an op whose launches take two arguments that has fewer than two,
/// if any.
pub fn short_two_arg_call<'a>(sites: &[OpSite<'a>]) -> (r: Option<usize>)
    ensures
        match r {
            None => two_arg_calls_complete(sites_view(sites@)),
            Some(i) => i < sites@.len() && takes_two_args(sites@[i as int].name@)
                && sites@[i as int].args@.len() < 2,
        },
{
    let ghost sv = sites_view(sites@);
    let mut i: usize = 0;
    while i < sites.len()
        invariant
            sv == sites_view(sites@),
            i <= sites@.len(),
            forall|j: int|
                0 <= j < i && takes_two_args((#[trigger] sv[j]).name) ==> sv[j].args.len() >= 2,
        decreases sites@.len() - i,
    {
        let name = sites[i].name.as_str();
        assert(sv[i as int].args.len() == sites@[i as int].args@.len());
        if (crate::adjoint_table::str_eq(name, "rmsnorm") || crate::adjoint_table::str_eq(name, "linear")
            || crate::adjoint_table::str_eq(name, "residual_add")) && sites[i].args.len() < 2 {
            return Some(i);
        }
        i = i + 1;
    }
    None
}

} // verus!
