use coop_futures::xform::{
    run, ConstVal, Export, ExportItem, FuncKind, Function, Global, Instr, Module, ValTy,
    XformError,
};

fn local_function(name: Option<&str>, body: Vec<Instr>) -> Function {
    Function {
        name: name.map(|n| n.to_string()),
        params: vec![],
        results: vec![],
        kind: FuncKind::Local { locals: vec![], body },
    }
}

fn body_of(f: &Function) -> &[Instr] {
    match &f.kind {
        FuncKind::Local { body, .. } => body,
        FuncKind::Imported { .. } => &[],
    }
}

fn count_waits(m: &Module, upto: usize) -> usize {
    m.functions[..upto]
        .iter()
        .flat_map(|f| body_of(f).iter())
        .filter(|i| matches!(i, Instr::AtomicWait { .. }))
        .count()
}

#[test]
fn single_wait_is_replaced_and_globals_exported() {
    let wait = Instr::AtomicWait { memory: 0, align: 4, offset: 0, sixty_four: false };
    let mut m = Module {
        memories: 1,
        functions: vec![local_function(
            Some("worker_main"),
            vec![Instr::Other { code: 10 }, wait, Instr::Other { code: 20 }],
        )],
        globals: vec![],
        exports: vec![],
    };
    let orig_len = m.functions.len();
    run(&mut m, "env").unwrap();

    // Zero native wait instructions remain in the pre-existing functions.
    assert_eq!(count_waits(&m, orig_len), 0);
    // The wait became a call to the injected dispatcher, everything else is
    // identical.
    assert_eq!(
        body_of(&m.functions[0]),
        &[
            Instr::Other { code: 10 },
            Instr::Call { func: 4 },
            Instr::Other { code: 20 },
        ]
    );
    // Two new global exports under the documented names.
    assert_eq!(m.globals.len(), 2);
    assert_eq!(
        m.exports,
        vec![
            Export { name: "max_spin_ns".to_string(), item: ExportItem::Global(0) },
            Export { name: "wait_prohibited".to_string(), item: ExportItem::Global(1) },
        ]
    );
    // The discoverable defaults: blocking allowed, large but finite ceiling.
    assert_eq!(
        m.globals[0],
        Global {
            name: Some("max_spin_ns".to_string()),
            ty: ValTy::I64,
            mutable: true,
            shared: false,
            init: ConstVal::I64(10_000_000_000),
        }
    );
    assert_eq!(
        m.globals[1],
        Global {
            name: Some("wait_prohibited".to_string()),
            ty: ValTy::I32,
            mutable: true,
            shared: false,
            init: ConstVal::I32(0),
        }
    );
    // Four injected functions: two imports and two generated ones.
    assert_eq!(m.functions.len(), orig_len + 4);
    assert_eq!(m.functions[1].name.as_deref(), Some("__wbindgen_clock_ns"));
    assert_eq!(m.functions[2].name.as_deref(), Some("__wbindgen_spin_timeout"));
    assert_eq!(m.functions[3].name.as_deref(), Some("__atomic_spin32"));
    assert_eq!(m.functions[4].name.as_deref(), Some("__atomic_wait32"));
    match &m.functions[1].kind {
        FuncKind::Imported { module, name } => {
            assert_eq!(module, "env");
            assert_eq!(name, "__wbindgen_clock_ns");
        },
        FuncKind::Local { .. } => panic!("clock must be an import"),
    }
    // The dispatcher holds the one real wait left, excluded from its own
    // rewrite, and calls the spin loop.
    let dispatcher = body_of(&m.functions[4]);
    assert!(dispatcher.contains(&Instr::AtomicWait {
        memory: 0,
        align: 4,
        offset: 0,
        sixty_four: false
    }));
    assert!(dispatcher.contains(&Instr::Call { func: 3 }));
    // The spin loop calls the clock and the spin-timeout imports.
    let spin = body_of(&m.functions[3]);
    assert!(spin.contains(&Instr::Call { func: 1 }));
    assert!(spin.contains(&Instr::Call { func: 2 }));
    assert!(!spin.iter().any(|i| matches!(i, Instr::AtomicWait { .. })));
}

#[test]
fn waits_inside_nested_arms_are_replaced() {
    let wait = Instr::AtomicWait { memory: 0, align: 4, offset: 0, sixty_four: false };
    let mut m = Module {
        memories: 1,
        functions: vec![local_function(
            None,
            vec![
                Instr::Block { ty: None },
                Instr::If { ty: None },
                wait,
                Instr::Else,
                wait,
                Instr::End,
                Instr::End,
            ],
        )],
        globals: vec![],
        exports: vec![],
    };
    run(&mut m, "env").unwrap();
    assert_eq!(
        body_of(&m.functions[0]),
        &[
            Instr::Block { ty: None },
            Instr::If { ty: None },
            Instr::Call { func: 4 },
            Instr::Else,
            Instr::Call { func: 4 },
            Instr::End,
            Instr::End,
        ]
    );
}

#[test]
fn module_without_memory_is_rejected() {
    let mut m = Module { memories: 0, functions: vec![], globals: vec![], exports: vec![] };
    assert_eq!(run(&mut m, "env"), Err(XformError::NoMemory));
    // No partial output.
    assert!(m.functions.is_empty());
    assert!(m.globals.is_empty());
    assert!(m.exports.is_empty());
}

#[test]
fn second_memory_is_rejected_by_index() {
    let wait0 = Instr::AtomicWait { memory: 0, align: 4, offset: 0, sixty_four: false };
    let wait1 = Instr::AtomicWait { memory: 1, align: 4, offset: 0, sixty_four: false };
    let mut m = Module {
        memories: 2,
        functions: vec![local_function(None, vec![wait0, wait1])],
        globals: vec![],
        exports: vec![],
    };
    let before = m.clone();
    let err = run(&mut m, "env").unwrap_err();
    // The error names the unsupported memory index and the instruction.
    assert_eq!(err, XformError::UnsupportedMemory { func: 0, instr: 1, memory: 1 });
    // The failing module is handed back untouched: no partial output.
    assert_eq!(m, before);
}

#[test]
fn wide_wait_is_rejected() {
    let wait64 = Instr::AtomicWait { memory: 0, align: 4, offset: 0, sixty_four: true };
    let mut m = Module {
        memories: 1,
        functions: vec![
            local_function(None, vec![Instr::Other { code: 1 }]),
            local_function(None, vec![wait64]),
        ],
        globals: vec![],
        exports: vec![],
    };
    let err = run(&mut m, "env").unwrap_err();
    assert_eq!(err, XformError::UnsupportedWait64 { func: 1, instr: 0 });
}

#[test]
fn unsupported_addressing_is_rejected() {
    let misaligned = Instr::AtomicWait { memory: 0, align: 8, offset: 4, sixty_four: false };
    let mut m = Module {
        memories: 1,
        functions: vec![local_function(None, vec![misaligned])],
        globals: vec![],
        exports: vec![],
    };
    let err = run(&mut m, "env").unwrap_err();
    assert_eq!(
        err,
        XformError::UnsupportedArg { func: 0, instr: 0, align: 8, offset: 4 }
    );
}

#[test]
fn module_without_waits_only_gains_the_injected_items() {
    let body = vec![Instr::Other { code: 1 }, Instr::Call { func: 0 }];
    let mut m = Module {
        memories: 1,
        functions: vec![local_function(Some("plain"), body.clone())],
        globals: vec![
            Global {
                name: None,
                ty: ValTy::I32,
                mutable: false,
                shared: false,
                init: ConstVal::I32(7),
            },
        ],
        exports: vec![Export { name: "plain".to_string(), item: ExportItem::Func(0) }],
    };
    run(&mut m, "env").unwrap();
    // A call instruction is not a wait: it is never re-visited or changed.
    assert_eq!(body_of(&m.functions[0]), body.as_slice());
    // Pre-existing globals and exports are preserved in place.
    assert_eq!(m.globals[0].init, ConstVal::I32(7));
    assert_eq!(m.exports[0].name, "plain");
    assert_eq!(m.globals.len(), 3);
    assert_eq!(m.exports.len(), 3);
}

#[test]
fn imported_functions_are_untouched() {
    let wait = Instr::AtomicWait { memory: 0, align: 4, offset: 0, sixty_four: false };
    let imported = Function {
        name: None,
        params: vec![ValTy::I32],
        results: vec![],
        kind: FuncKind::Imported { module: "host".to_string(), name: "callback".to_string() },
    };
    let mut m = Module {
        memories: 1,
        functions: vec![imported.clone(), local_function(None, vec![wait])],
        globals: vec![],
        exports: vec![],
    };
    run(&mut m, "env").unwrap();
    assert_eq!(m.functions[0], imported);
    assert_eq!(body_of(&m.functions[1]), &[Instr::Call { func: 5 }]);
}
