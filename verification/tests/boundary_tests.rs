use runtime_boundary::boundary::{
    begin_create, begin_load, construct_decision, descriptor_gate, finish_invoke,
    finish_lifecycle, format_diagnostic, handle_for_outcome, lifecycle_gate, prepare_invoke,
    ConstructStep, HandleRegistry, NULL_HANDLE,
};
use runtime_boundary::context::{Assembly, ConstructionError};

#[test]
fn registry_hands_out_distinct_nonnull_handles() {
    let mut reg = HandleRegistry::new();
    let h1 = reg.issue();
    let h2 = reg.issue();
    assert_ne!(h1, NULL_HANDLE);
    assert_ne!(h2, NULL_HANDLE);
    assert_ne!(h1, h2);
}

#[test]
fn null_descriptor_fails_the_precondition_check() {
    // A null descriptor is refused before anything touches it; the host
    // fails loudly on the refusal instead of going on.
    assert!(!descriptor_gate(false));
    assert!(descriptor_gate(true));
}

#[test]
fn handles_are_allocated_in_order() {
    let mut reg = HandleRegistry::new();
    assert_eq!(handle_for_outcome(&mut reg, true), 1);
    assert_eq!(handle_for_outcome(&mut reg, false), NULL_HANDLE);
    assert_eq!(handle_for_outcome(&mut reg, true), 2);
}

#[test]
fn create_walks_to_a_fresh_handle() {
    // The base path does not exist yet: both creations succeed, the context
    // is assembled, and the caller receives a non-null handle.
    let path: Vec<u8> = b"/tmp/x".to_vec();
    let mut a = begin_create(&path);
    assert_eq!(a.pending_dir(), Some(String::from("/tmp/x/cas")));
    a = a.advance(Ok(()));
    assert_eq!(a.pending_dir(), Some(String::from("/tmp/x/eav")));
    a = a.advance(Ok(()));
    let step = construct_decision(a.into_result());
    let context = match step {
        ConstructStep::Construct { context } => context,
        ConstructStep::Abort => panic!("assembly succeeded"),
    };
    assert_eq!(context.cas_path, "/tmp/x/cas");
    let mut reg = HandleRegistry::new();
    let h = handle_for_outcome(&mut reg, true);
    assert_ne!(h, NULL_HANDLE);
}

#[test]
fn unwritable_path_degrades_to_the_null_sentinel() {
    let path: Vec<u8> = b"/root/forbidden".to_vec();
    let mut a = begin_create(&path);
    a = a.advance(Err(String::from("permission denied")));
    assert!(a.pending_dir().is_none());
    let step = construct_decision(a.into_result());
    assert!(matches!(step, ConstructStep::Abort));
    let mut reg = HandleRegistry::new();
    let h = handle_for_outcome(&mut reg, false);
    assert_eq!(h, NULL_HANDLE);
    assert_eq!(reg.issued, 0);
}

#[test]
fn construction_error_aborts_without_detail() {
    let failed: Result<_, _> = Err(ConstructionError {
        path: String::from("/tmp/x/cas"),
        message: String::from("read-only file system"),
    });
    assert!(matches!(construct_decision(failed), ConstructStep::Abort));
}

#[test]
fn load_decodes_the_storage_path() {
    let path: Vec<u8> = b"/tmp/persisted".to_vec();
    let (base, assembly) = begin_load(&path);
    assert_eq!(base, "/tmp/persisted");
    assert_eq!(assembly.pending_dir(), Some(String::from("/tmp/persisted/cas")));
}

#[test]
fn null_handle_returns_false_without_delegation() {
    assert!(!lifecycle_gate(NULL_HANDLE));
    assert!(!finish_lifecycle(None));
}

#[test]
fn lifecycle_relays_the_runtime_outcome() {
    assert!(lifecycle_gate(3));
    assert!(finish_lifecycle(Some(true)));
    assert!(!finish_lifecycle(Some(false)));
}

#[test]
fn invoke_rejects_every_null_position() {
    let z: Vec<u8> = b"zomeA".to_vec();
    let c: Vec<u8> = b"cap1".to_vec();
    let f: Vec<u8> = b"fn1".to_vec();
    let p: Vec<u8> = b"{}".to_vec();
    assert!(prepare_invoke(NULL_HANDLE, Some(&z), Some(&c), Some(&f), Some(&p)).is_none());
    assert!(prepare_invoke(1, None, Some(&c), Some(&f), Some(&p)).is_none());
    assert!(prepare_invoke(1, Some(&z), None, Some(&f), Some(&p)).is_none());
    assert!(prepare_invoke(1, Some(&z), Some(&c), None, Some(&p)).is_none());
    assert!(prepare_invoke(1, Some(&z), Some(&c), Some(&f), None).is_none());
}

#[test]
fn invoke_decodes_all_four_arguments() {
    let z: Vec<u8> = b"zomeA".to_vec();
    let c: Vec<u8> = b"cap1".to_vec();
    let f: Vec<u8> = b"missingFn".to_vec();
    let p: Vec<u8> = b"{}".to_vec();
    let q = prepare_invoke(7, Some(&z), Some(&c), Some(&f), Some(&p)).expect("all present");
    assert_eq!(q.zome, "zomeA");
    assert_eq!(q.capability, "cap1");
    assert_eq!(q.function, "missingFn");
    assert_eq!(q.params, "{}");
}

#[test]
fn successful_invoke_echoes_text_terminated() {
    let r = finish_invoke(Ok(String::from("{\"ok\":true}")));
    assert_eq!(r, Some(b"{\"ok\":true}\0".to_vec()));
}

#[test]
fn successful_invoke_strips_trailing_zero_padding() {
    let r = finish_invoke(Ok(String::from("result\u{0}\u{0}")));
    assert_eq!(r, Some(b"result\0".to_vec()));
}

#[test]
fn result_with_interior_zero_degrades_to_null() {
    let r = finish_invoke(Ok(String::from("a\u{0}b")));
    assert_eq!(r, None);
}

#[test]
fn failed_invoke_returns_diagnostic_text() {
    // A missing function is reported as text on the ordinary result
    // channel, recognisable only by its content.
    let r = finish_invoke(Err(String::from("ZomeFunctionNotFound(\"missingFn\")")))
        .expect("the diagnostic is returned, not the null sentinel");
    let text = String::from_utf8(r[..r.len() - 1].to_vec()).unwrap();
    assert!(text.contains("Error calling zome function"));
    assert_eq!(text, "Error calling zome function: ZomeFunctionNotFound(\"missingFn\")");
}

#[test]
fn diagnostic_wraps_the_error_detail() {
    let d = format_diagnostic(&String::from("timeout"));
    assert_eq!(d, "Error calling zome function: timeout");
}

#[test]
fn identical_outcomes_give_identical_replies() {
    let a = finish_invoke(Ok(String::from("same")));
    let b = finish_invoke(Ok(String::from("same")));
    assert_eq!(a, b);
}

#[test]
fn sequential_identical_invokes_match_end_to_end() {
    let z: Vec<u8> = b"zomeA".to_vec();
    let c: Vec<u8> = b"cap1".to_vec();
    let f: Vec<u8> = b"echo".to_vec();
    let p: Vec<u8> = b"{\"n\": 1}".to_vec();
    let q1 = prepare_invoke(2, Some(&z), Some(&c), Some(&f), Some(&p)).expect("all present");
    let q2 = prepare_invoke(2, Some(&z), Some(&c), Some(&f), Some(&p)).expect("all present");
    assert_eq!(q1.zome, q2.zome);
    assert_eq!(q1.capability, q2.capability);
    assert_eq!(q1.function, q2.function);
    assert_eq!(q1.params, q2.params);
    // A pure capability returns the same text for the same request; the
    // boundary then returns the same buffer.
    let r1 = finish_invoke(Ok(q1.params));
    let r2 = finish_invoke(Ok(q2.params));
    assert_eq!(r1, r2);
}

#[test]
fn params_round_trip_through_the_boundary() {
    // Text fed in as params and echoed by a trivial capability comes back
    // byte for byte, with the terminator appended.
    let p: Vec<u8> = "café {\"k\": [1, 2]}".as_bytes().to_vec();
    let q = prepare_invoke(
        1,
        Some(&b"z".to_vec()),
        Some(&b"c".to_vec()),
        Some(&b"f".to_vec()),
        Some(&p),
    )
    .expect("all present");
    let echoed = q.params;
    let reply = finish_invoke(Ok(echoed)).expect("no interior zero");
    let mut expected = p.clone();
    expected.push(0);
    assert_eq!(reply, expected);
}
