use vstd::prelude::*;
use crate::adjoint_table::{AdjointEntry, EntryView, lookup, spec_lookup};
use crate::ops::{OpSite, SiteView, sites_view};
use crate::syntax::{Diag, MacroError, diag};
use crate::text::concat3;

verus! {

/// An op call together with the adjoint entry registered for it.
pub struct ResolvedOpCall<'a> {
    pub site: &'a OpSite<'a>,
    pub forward_launcher: &'static str,
    pub backward_launcher: &'static str,
    pub entry: AdjointEntry,
}

/// A resolved op call as plain values.
pub ghost struct ResolvedView {
    pub site: SiteView,
    pub forward_launcher: Seq<char>,
    pub backward_launcher: Seq<char>,
    pub entry: EntryView,
}

impl<'a> View for ResolvedOpCall<'a> {
    type V = ResolvedView;

    open spec fn view(&self) -> ResolvedView {
        ResolvedView {
            site: self.site@,
            forward_launcher: self.forward_launcher@,
            backward_launcher: self.backward_launcher@,
            entry: self.entry@,
        }
    }
}

/// The resolved calls as plain values.
pub open spec fn resolved_view<'a>(v: Seq<ResolvedOpCall<'a>>) -> Seq<ResolvedView> {
    v.map_values(|r: ResolvedOpCall<'a>| r@)
}

/// The diagnostic for a call of an op that has no adjoint entry.
pub open spec fn unknown_op_diag(site: SiteView) -> Diag {
    diag(
        site.span,
        "no registered adjoint for op `"@ + site.name + "`; add it to beacon-adjoint-table"@,
    )
}

/// The first `k` calls, each with its entry, skipping those of unknown ops.
pub open spec fn spec_resolved(sites: Seq<SiteView>, k: int) -> Seq<ResolvedView>
    decreases k,
{
    if k <= 0 {
        Seq::empty()
    } else {
        let prev = spec_resolved(sites, k - 1);
        match spec_lookup(sites[k - 1].name) {
            Some(e) => prev.push(
                ResolvedView {
                    site: sites[k - 1],
                    forward_launcher: e.forward_launcher,
                    backward_launcher: e.backward_launcher,
                    entry: e,
                },
            ),
            None => prev,
        }
    }
}

/// The diagnostics for the calls of unknown ops among the first `k`, in order.
pub open spec fn spec_unknown(sites: Seq<SiteView>, k: int) -> Seq<Diag>
    decreases k,
{
    if k <= 0 {
        Seq::empty()
    } else {
        let prev = spec_unknown(sites, k - 1);
        match spec_lookup(sites[k - 1].name) {
            Some(_) => prev,
            None => prev.push(unknown_op_diag(sites[k - 1])),
        }
    }
}

/// Resolving the calls: every call with its entry when all ops are registered, else one
/// diagnostic for each call of an unknown op.
pub open spec fn spec_resolve_ops(sites: Seq<SiteView>) -> Result<Seq<ResolvedView>, Seq<Diag>> {
    if spec_unknown(sites, sites.len() as int).len() == 0 {
        Ok(spec_resolved(sites, sites.len() as int))
    } else {
        Err(spec_unknown(sites, sites.len() as int))
    }
}

/// The diagnostics as plain values.
pub open spec fn diags_view(v: Seq<MacroError>) -> Seq<Diag> {
    v.map_values(|e: MacroError| e@)
}

/// Looks up the adjoint entry of every op call, reporting every call of an op that has
/// none.
pub fn resolve_ops<'a>(ops: &'a [OpSite<'a>]) -> (r: Result<Vec<ResolvedOpCall<'a>>, Vec<MacroError>>)
    ensures
        match r {
            Ok(v) => spec_resolve_ops(sites_view(ops@)) == Ok::<Seq<ResolvedView>, Seq<Diag>>(
                resolved_view(v@),
            ),
            Err(es) => spec_resolve_ops(sites_view(ops@)) == Err::<Seq<ResolvedView>, Seq<Diag>>(
                diags_view(es@),
            ),
        },
{
    let ghost sites = sites_view(ops@);
    let mut resolved: Vec<ResolvedOpCall<'a>> = Vec::with_capacity(ops.len());
    let mut errors: Vec<MacroError> = Vec::new();
    let mut i: usize = 0;
    assert(resolved_view(resolved@) =~= Seq::<ResolvedView>::empty());
    assert(diags_view(errors@) =~= Seq::<Diag>::empty());
    while i < ops.len()
        invariant
            sites == sites_view(ops@),
            sites.len() == ops@.len(),
            i <= ops@.len(),
            resolved_view(resolved@) == spec_resolved(sites, i as int),
            diags_view(errors@) == spec_unknown(sites, i as int),
        decreases ops@.len() - i,
    {
        let op = &ops[i];
        assert(sites[i as int] == op@);
        match lookup(op.name.as_str()) {
            Some(entry) => {
                let call = ResolvedOpCall {
                    site: op,
                    forward_launcher: entry.forward_launcher,
                    backward_launcher: entry.backward_launcher,
                    entry,
                };
                let ghost before = resolved@;
                resolved.push(call);
                assert(resolved_view(resolved@) =~= resolved_view(before).push(call@));
            },
            None => {
                let e = MacroError {
                    span: op.span,
                    message: concat3(
                        "no registered adjoint for op `",
                        op.name.as_str(),
                        "`; add it to beacon-adjoint-table",
                    ),
                };
                let ghost before = errors@;
                errors.push(e);
                assert(diags_view(errors@) =~= diags_view(before).push(e@));
            },
        }
        i = i + 1;
    }
    if errors.len() == 0 {
        Ok(resolved)
    } else {
        Err(errors)
    }
}

/// Resolution that succeeds keeps every call, in order, each with the entry registered
/// for its op; it fails exactly when some call names an op with no entry, with one
/// diagnostic for each such call.
pub proof fn lemma_resolution_keeps_calls(sites: Seq<SiteView>)
    ensures
        spec_resolve_ops(sites) is Ok <==> forall|i: int|
            0 <= i < sites.len() ==> spec_lookup((#[trigger] sites[i]).name) is Some,
        spec_resolve_ops(sites) matches Ok(calls) ==> {
            &&& calls.len() == sites.len()
            &&& forall|i: int|
                0 <= i < sites.len() ==> {
                    &&& (#[trigger] calls[i]).site == sites[i]
                    &&& spec_lookup(sites[i].name) == Some(calls[i].entry)
                    &&& calls[i].forward_launcher == calls[i].entry.forward_launcher
                    &&& calls[i].backward_launcher == calls[i].entry.backward_launcher
                }
        },
        spec_resolve_ops(sites) matches Err(es) ==> es.len() > 0 && forall|j: int|
            0 <= j < es.len() ==> exists|i: int|
                0 <= i < sites.len() && spec_lookup(sites[i].name) is None && (#[trigger] es[j])
                    == unknown_op_diag(sites[i]),
{
    lemma_resolve_prefix(sites, sites.len() as int);
}

proof fn lemma_resolve_prefix(sites: Seq<SiteView>, k: int)
    requires
        0 <= k <= sites.len(),
    ensures
        spec_unknown(sites, k).len() == 0 <==> forall|i: int|
            0 <= i < k ==> spec_lookup((#[trigger] sites[i]).name) is Some,
        spec_unknown(sites, k).len() == 0 ==> {
            &&& spec_resolved(sites, k).len() == k
            &&& forall|i: int|
                0 <= i < k ==> {
                    &&& (#[trigger] spec_resolved(sites, k)[i]).site == sites[i]
                    &&& spec_lookup(sites[i].name) == Some(spec_resolved(sites, k)[i].entry)
                    &&& spec_resolved(sites, k)[i].forward_launcher
                        == spec_resolved(sites, k)[i].entry.forward_launcher
                    &&& spec_resolved(sites, k)[i].backward_launcher
                        == spec_resolved(sites, k)[i].entry.backward_launcher
                }
        },
        forall|j: int|
            0 <= j < spec_unknown(sites, k).len() ==> exists|i: int|
                0 <= i < k && spec_lookup(sites[i].name) is None && (#[trigger] spec_unknown(
                    sites,
                    k,
                )[j]) == unknown_op_diag(sites[i]),
    decreases k,
{
    if k > 0 {
        lemma_resolve_prefix(sites, k - 1);
        let prev_u = spec_unknown(sites, k - 1);
        let cur_u = spec_unknown(sites, k);
        assert forall|j: int| 0 <= j < cur_u.len() implies exists|i: int|
            0 <= i < k && spec_lookup(sites[i].name) is None && (#[trigger] cur_u[j])
                == unknown_op_diag(sites[i]) by {
            if j < prev_u.len() {
                assert(cur_u[j] == prev_u[j]);
                let i = choose|i: int|
                    0 <= i < k - 1 && spec_lookup(sites[i].name) is None && prev_u[j]
                        == unknown_op_diag(sites[i]);
                assert(0 <= i < k && spec_lookup(sites[i].name) is None && cur_u[j]
                    == unknown_op_diag(sites[i]));
            } else {
                assert(cur_u[j] == unknown_op_diag(sites[k - 1]));
            }
        }
        if cur_u.len() == 0 {
            let prev_r = spec_resolved(sites, k - 1);
            let cur_r = spec_resolved(sites, k);
            assert forall|i: int| 0 <= i < k implies {
                &&& (#[trigger] cur_r[i]).site == sites[i]
                &&& spec_lookup(sites[i].name) == Some(cur_r[i].entry)
                &&& cur_r[i].forward_launcher == cur_r[i].entry.forward_launcher
                &&& cur_r[i].backward_launcher == cur_r[i].entry.backward_launcher
            } by {
                if i < k - 1 {
                    assert(cur_r[i] == prev_r[i]);
                }
            }
        }
    }
}

} // verus!
