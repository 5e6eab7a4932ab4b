use vstd::prelude::*;

verus! {

/// A compiled kernel module: its name and where its PTX text lies.
#[derive(Debug, Clone, Copy)]
pub struct PtxArtifact {
    pub name: &'static str,
    pub path: &'static str,
}

/// The kernel modules compiled into this build; a host build compiles none.
pub open spec fn artifacts_spec() -> Seq<(Seq<char>, Seq<char>)> {
    Seq::empty()
}

/// The kernel modules compiled into this build; a host build compiles none.
pub fn ptx_artifacts() -> (a: Vec<PtxArtifact>)
    ensures
        a@.len() == artifacts_spec().len(),
        forall|i: int|
            0 <= i < a@.len() ==> (#[trigger] a@[i].name@, a@[i].path@) == artifacts_spec()[i],
{
    Vec::new()
}

/// Where the module named `name` lies, if this build has one of that name.
pub fn ptx_path(name: &str) -> (p: Option<&'static str>)
    ensures
        p is None <==> forall|i: int|
            0 <= i < artifacts_spec().len() ==> #[trigger] artifacts_spec()[i].0 != name@,
        p matches Some(path) ==> exists|i: int|
            0 <= i < artifacts_spec().len() && #[trigger] artifacts_spec()[i] == (name@, path@),
{
    let artifacts = ptx_artifacts();
    let mut i: usize = 0;
    while i < artifacts.len()
        invariant
            artifacts@.len() == artifacts_spec().len(),
            forall|j: int|
                0 <= j < artifacts@.len() ==> (#[trigger] artifacts@[j].name@, artifacts@[j].path@)
                    == artifacts_spec()[j],
            i <= artifacts@.len(),
            forall|j: int| 0 <= j < i ==> #[trigger] artifacts_spec()[j].0 != name@,
        decreases artifacts@.len() - i,
    {
        let a = artifacts[i];
        assert((artifacts@[i as int].name@, artifacts@[i as int].path@) == artifacts_spec()[i as int]);
        if crate::adjoint_table::str_eq(a.name, name) {
            return Some(a.path);
        }
        i = i + 1;
    }
    None
}

} // verus!
