use beacon::adjoint_table::{adjoint_table, is_differentiable, len, lookup, op_names, SaveMode};

#[test]
fn lookup_known_ops() {
    for op in [
        "matmul",
        "linear",
        "rmsnorm",
        "layernorm",
        "flash_attention",
        "swiglu_mlp",
        "residual_add",
    ] {
        let e = lookup(op).unwrap_or_else(|| panic!("missing op {op}"));
        assert_eq!(e.op, op);
        assert!(!e.forward_launcher.is_empty());
        assert!(!e.backward_launcher.is_empty());
    }
}

#[test]
fn lookup_unknown_is_none() {
    assert!(lookup("not_an_op").is_none());
    assert!(!is_differentiable("conv2d"));
}

#[test]
fn const_lookup_in_const_context() {
    let rms: bool = is_differentiable("rmsnorm");
    let fake: bool = is_differentiable("fake");
    assert!(rms);
    assert!(!fake);
}

#[test]
fn op_names_are_unique() {
    let names: Vec<&str> = op_names();
    for i in 0..names.len() {
        for j in (i + 1)..names.len() {
            assert_ne!(names[i], names[j], "duplicate op name {}", names[i]);
        }
    }
    assert_eq!(names.len(), len());
}

#[test]
fn launchers_are_distinct_per_op() {
    for e in adjoint_table().iter() {
        assert_ne!(e.forward_launcher, e.backward_launcher, "op {}", e.op);
    }
}

#[test]
fn flash_attention_recomputes_scores() {
    let e = lookup("flash_attention").unwrap();
    let scores = e.saved.iter().find(|s| s.name == "scores").unwrap();
    assert_eq!(scores.mode, SaveMode::Recompute);
    let q = e.saved.iter().find(|s| s.name == "q").unwrap();
    assert_eq!(q.mode, SaveMode::Store);
}

#[test]
fn lookup_gives_the_whole_entry() {
    let e = lookup("layernorm").unwrap();
    assert_eq!(e.forward_launcher, "layernorm_adjoint_fwd");
    assert_eq!(e.backward_launcher, "layernorm_adjoint_bwd");
    assert_eq!(e.num_saved(), 3);
    assert_eq!(e.num_input_grads(), 1);
    assert_eq!(e.num_param_grads(), 2);
    let names: Vec<&str> = e.saved.iter().map(|s| s.name).collect();
    assert_eq!(names, vec!["x", "mean", "invstd"]);
    let r = lookup("residual_add").unwrap();
    assert_eq!(r.num_saved(), 0);
    assert_eq!(r.input_grads, vec!["dx", "dy"]);
}

#[test]
fn table_lists_seven_ops_in_order() {
    assert_eq!(len(), 7);
    assert_eq!(
        op_names(),
        vec!["matmul", "linear", "rmsnorm", "layernorm", "flash_attention", "swiglu_mlp", "residual_add"]
    );
}

#[test]
fn lookup_is_exact_match() {
    assert!(lookup("matmu").is_none());
    assert!(lookup("matmul_").is_none());
    assert!(lookup("").is_none());
    assert!(lookup("Linear").is_none());
    assert!(is_differentiable("swiglu_mlp"));
}
