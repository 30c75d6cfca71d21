use forge_runner::details::{
    build_test_details, builtins, function_args, SierraFunction, SierraProgram, TypeDeclaration,
    TypeId,
};

fn typ(id: u64, name: &str) -> TypeId {
    TypeId {
        id,
        debug_name: Some(String::from(name)),
    }
}

fn decl(id: u64, name: &str, size: i16) -> TypeDeclaration {
    TypeDeclaration {
        id: typ(id, name),
        generic_id: String::from(name),
        size,
    }
}

fn program() -> SierraProgram {
    SierraProgram {
        funcs: vec![SierraFunction {
            debug_name: String::from("pkg::tests::my_test"),
            entry_point: 11,
            param_types: vec![typ(0, "RangeCheck"), typ(1, "GasBuiltin"), typ(2, "u32")],
            ret_types: vec![typ(3, "PanicResult")],
        }],
        type_declarations: vec![
            decl(0, "RangeCheck", 1),
            decl(1, "GasBuiltin", 1),
            decl(2, "u32", 1),
            decl(3, "PanicResult", 3),
        ],
    }
}

#[test]
fn builtin_slots_are_stripped_from_the_signature() {
    let p = program();
    let args = function_args(&p.funcs[0]);
    assert_eq!(args.len(), 1);
    assert_eq!(args[0].id, 2);
    assert_eq!(args[0].debug_name.as_deref(), Some("u32"));
}

#[test]
fn unnamed_parameters_are_kept_in_the_signature() {
    let f = SierraFunction {
        debug_name: String::from("t"),
        entry_point: 0,
        param_types: vec![TypeId {
            id: 9,
            debug_name: None,
        }],
        ret_types: Vec::new(),
    };
    let args = function_args(&f);
    assert_eq!(args.len(), 1);
    assert_eq!(args[0].id, 9);
}

#[test]
fn details_resolve_every_type() {
    let p = program();
    let details = build_test_details("my_test", &p).unwrap();
    assert_eq!(details.entry_point_offset, 11);
    assert_eq!(
        details.parameter_types,
        vec![
            (String::from("RangeCheck"), 1),
            (String::from("GasBuiltin"), 1),
            (String::from("u32"), 1)
        ]
    );
    assert_eq!(details.return_types, vec![(String::from("PanicResult"), 3)]);
}

#[test]
fn details_match_by_name_suffix() {
    let p = program();
    assert!(build_test_details("tests::my_test", &p).is_some());
    assert!(build_test_details("other_test", &p).is_none());
}

#[test]
fn details_fail_on_an_undeclared_type() {
    let mut p = program();
    p.type_declarations.truncate(2);
    assert!(build_test_details("my_test", &p).is_none());
}

#[test]
fn builtin_names_are_the_fixed_eight() {
    let names = builtins();
    assert_eq!(
        names,
        vec![
            "Pedersen",
            "RangeCheck",
            "Bitwise",
            "EcOp",
            "Poseidon",
            "SegmentArena",
            "GasBuiltin",
            "System"
        ]
    );
}
