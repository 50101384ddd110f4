use arm9_rt::stub::FnDecl;
use arm9_rt::stub::FnSig;
use arm9_rt::stub::ReturnSig;
use arm9_rt::stub::entry;
use arm9_rt::stub::exception;
use arm9_rt::stub::internal_name;
use arm9_rt::validate::Attr;
use arm9_rt::validate::BodyStmt;
use arm9_rt::validate::GenError;
use arm9_rt::validate::Role;
use arm9_rt::validate::StaticDecl;
use arm9_rt::validate::check_attr_whitelist;
use arm9_rt::validate::extract_cfgs;
use arm9_rt::validate::extract_static_muts;
use arm9_rt::validate::get_attr_name;
use arm9_rt::validate::is_cfg_attr;

fn plain_attr(name: &str) -> Attr {
    Attr { outer: true, path: Some(name.to_owned()), unsafe_inner: None }
}

fn sig(name: &str, ret: ReturnSig) -> FnSig {
    FnSig {
        name: name.to_owned(),
        is_const: false,
        vis_inherited: true,
        has_abi: false,
        has_inputs: false,
        has_generic_params: false,
        has_where_clause: false,
        has_variadic: false,
        ret,
    }
}

fn mut_static(name: &str) -> BodyStmt {
    BodyStmt::Static(StaticDecl {
        name: name.to_owned(),
        mutable: true,
        ty: "u32".to_owned(),
        init: "0".to_owned(),
        attrs: Vec::new(),
    })
}

fn immut_static(name: &str) -> BodyStmt {
    BodyStmt::Static(StaticDecl {
        name: name.to_owned(),
        mutable: false,
        ty: "u32".to_owned(),
        init: "0".to_owned(),
        attrs: Vec::new(),
    })
}

#[test]
fn entry_with_counter_exports_main() {
    let decl = FnDecl {
        attrs: Vec::new(),
        sig: sig("main", ReturnSig::Never),
        stmts: vec![mut_static("COUNTER"), BodyStmt::Other("loop {}".to_owned())],
    };
    let plan = entry(decl, false).unwrap();
    assert_eq!(plan.role, Role::Entry);
    assert_eq!(plan.export_symbol, "main");
    assert_eq!(plan.internal_name, "__cortex_m_rt_main");
    assert_eq!(plan.statics.len(), 1);
    assert_eq!(plan.statics[0].name, "COUNTER");
    assert!(plan.statics[0].mutable);
    assert_eq!(plan.body.len(), 1);
    match &plan.body[0] {
        BodyStmt::Other(text) => assert_eq!(text, "loop {}"),
        BodyStmt::Static(_) => panic!("the remaining statement is not a static"),
    }
}

#[test]
fn extraction_keeps_order_and_skips_immutables() {
    let stmts = vec![
        mut_static("A"),
        immut_static("TABLE"),
        mut_static("B"),
        BodyStmt::Other("work();".to_owned()),
        mut_static("LATE"),
    ];
    let (statics, kept) = extract_static_muts(stmts).unwrap();
    assert_eq!(statics.len(), 2);
    assert_eq!(statics[0].name, "A");
    assert_eq!(statics[1].name, "B");
    assert_eq!(kept.len(), 3);
    match &kept[0] {
        BodyStmt::Static(d) => {
            assert_eq!(d.name, "TABLE");
            assert!(!d.mutable);
        }
        BodyStmt::Other(_) => panic!("the immutable static comes first"),
    }
    match &kept[1] {
        BodyStmt::Other(text) => assert_eq!(text, "work();"),
        BodyStmt::Static(_) => panic!("the halting statement follows"),
    }
    match &kept[2] {
        BodyStmt::Static(d) => {
            assert_eq!(d.name, "LATE");
            assert!(d.mutable);
        }
        BodyStmt::Other(_) => panic!("a static after the halt is kept verbatim"),
    }
}

#[test]
fn extraction_of_empty_body() {
    let (statics, kept) = extract_static_muts(Vec::new()).unwrap();
    assert_eq!(statics.len(), 0);
    assert_eq!(kept.len(), 0);
}

#[test]
fn duplicate_static_name_fails_identifying_second() {
    let stmts = vec![mut_static("COUNT"), immut_static("K"), mut_static("COUNT")];
    let err = extract_static_muts(stmts).unwrap_err();
    assert_eq!(err, GenError::DuplicateStaticName { index: 2, name: "COUNT".to_owned() });
}

#[test]
fn duplicate_after_halt_is_not_extracted() {
    let stmts = vec![
        mut_static("COUNT"),
        BodyStmt::Other("work();".to_owned()),
        mut_static("COUNT"),
    ];
    let (statics, kept) = extract_static_muts(stmts).unwrap();
    assert_eq!(statics.len(), 1);
    assert_eq!(kept.len(), 2);
}

#[test]
fn entry_requires_divergence() {
    let decl = FnDecl {
        attrs: Vec::new(),
        sig: sig("main", ReturnSig::Unit),
        stmts: Vec::new(),
    };
    assert_eq!(entry(decl, false).unwrap_err(), GenError::InvalidSignature);

    let decl = FnDecl {
        attrs: Vec::new(),
        sig: sig("main", ReturnSig::Default),
        stmts: Vec::new(),
    };
    assert_eq!(entry(decl, false).unwrap_err(), GenError::InvalidSignature);
}

#[test]
fn same_declaration_accepted_as_exception_handler() {
    for ret in [ReturnSig::Unit, ReturnSig::Never, ReturnSig::Default] {
        let decl = FnDecl { attrs: Vec::new(), sig: sig("IRQ", ret), stmts: Vec::new() };
        assert!(exception(decl, false).is_ok());
    }
    let decl = FnDecl { attrs: Vec::new(), sig: sig("IRQ", ReturnSig::Other), stmts: Vec::new() };
    assert_eq!(exception(decl, false).unwrap_err(), GenError::InvalidSignature);
}

#[test]
fn entry_rejects_structural_violations() {
    let mut s = sig("main", ReturnSig::Never);
    s.has_inputs = true;
    let decl = FnDecl { attrs: Vec::new(), sig: s, stmts: Vec::new() };
    assert_eq!(entry(decl, false).unwrap_err(), GenError::InvalidSignature);

    let mut s = sig("main", ReturnSig::Never);
    s.is_const = true;
    let decl = FnDecl { attrs: Vec::new(), sig: s, stmts: Vec::new() };
    assert_eq!(entry(decl, false).unwrap_err(), GenError::InvalidSignature);

    let mut s = sig("main", ReturnSig::Never);
    s.vis_inherited = false;
    let decl = FnDecl { attrs: Vec::new(), sig: s, stmts: Vec::new() };
    assert_eq!(entry(decl, false).unwrap_err(), GenError::InvalidSignature);
}

#[test]
fn annotation_arguments_are_rejected() {
    let decl = FnDecl {
        attrs: Vec::new(),
        sig: sig("main", ReturnSig::Never),
        stmts: Vec::new(),
    };
    assert_eq!(entry(decl, true).unwrap_err(), GenError::UnexpectedArguments);

    let decl = FnDecl { attrs: Vec::new(), sig: sig("FIQ", ReturnSig::Unit), stmts: Vec::new() };
    assert_eq!(exception(decl, true).unwrap_err(), GenError::UnexpectedArguments);
}

#[test]
fn disallowed_attribute_is_rejected_for_both_roles() {
    let decl = FnDecl {
        attrs: vec![plain_attr("doc"), plain_attr("inline")],
        sig: sig("main", ReturnSig::Never),
        stmts: Vec::new(),
    };
    assert_eq!(
        entry(decl, false).unwrap_err(),
        GenError::DisallowedAttribute { role: Role::Entry, index: 1 }
    );

    let decl = FnDecl {
        attrs: vec![plain_attr("inline")],
        sig: sig("IRQ", ReturnSig::Unit),
        stmts: Vec::new(),
    };
    assert_eq!(
        exception(decl, false).unwrap_err(),
        GenError::DisallowedAttribute { role: Role::Exception, index: 0 }
    );
}

#[test]
fn whitelisted_attributes_pass() {
    let attrs = vec![
        plain_attr("doc"),
        plain_attr("link_section"),
        plain_attr("cfg"),
        plain_attr("allow"),
        plain_attr("warn"),
        plain_attr("deny"),
        plain_attr("forbid"),
        plain_attr("cold"),
        plain_attr("naked"),
        plain_attr("expect"),
    ];
    assert!(check_attr_whitelist(&attrs, Role::Entry).is_ok());
}

#[test]
fn inner_attribute_is_rejected() {
    let attrs = vec![Attr { outer: false, path: Some("doc".to_owned()), unsafe_inner: None }];
    assert_eq!(
        check_attr_whitelist(&attrs, Role::Exception).unwrap_err(),
        GenError::DisallowedAttribute { role: Role::Exception, index: 0 }
    );
}

#[test]
fn unsafe_wrapped_attribute_name_is_unwrapped() {
    let a = Attr {
        outer: true,
        path: Some("unsafe".to_owned()),
        unsafe_inner: Some("naked".to_owned()),
    };
    assert_eq!(get_attr_name(&a), Some("naked".to_owned()));
    let attrs = vec![a];
    assert!(check_attr_whitelist(&attrs, Role::Entry).is_ok());
}

#[test]
fn undefined_handler_with_no_statics() {
    let decl = FnDecl {
        attrs: Vec::new(),
        sig: sig("Undefined", ReturnSig::Unit),
        stmts: Vec::new(),
    };
    let plan = exception(decl, false).unwrap();
    assert_eq!(plan.role, Role::Exception);
    assert_eq!(plan.export_symbol, "Undefined");
    assert_eq!(plan.internal_name, "__cortex_m_rt_Undefined");
    assert_eq!(plan.statics.len(), 0);
    assert_eq!(plan.body.len(), 0);
}

#[test]
fn unrecognized_exception_name_fails() {
    let decl = FnDecl {
        attrs: Vec::new(),
        sig: sig("Reset", ReturnSig::Unit),
        stmts: Vec::new(),
    };
    assert_eq!(exception(decl, false).unwrap_err(), GenError::InvalidExceptionName);
}

#[test]
fn exception_attr_check_precedes_name_check() {
    let decl = FnDecl {
        attrs: vec![plain_attr("inline")],
        sig: sig("NotAKind", ReturnSig::Unit),
        stmts: Vec::new(),
    };
    assert_eq!(
        exception(decl, false).unwrap_err(),
        GenError::DisallowedAttribute { role: Role::Exception, index: 0 }
    );
}

#[test]
fn entry_sig_check_precedes_attr_check() {
    let decl = FnDecl {
        attrs: vec![plain_attr("inline")],
        sig: sig("main", ReturnSig::Unit),
        stmts: Vec::new(),
    };
    assert_eq!(entry(decl, false).unwrap_err(), GenError::InvalidSignature);
}

#[test]
fn cfg_attributes_are_split_out() {
    let cfg = Attr { outer: true, path: Some("cfg".to_owned()), unsafe_inner: None };
    let doc = Attr { outer: true, path: Some("doc".to_owned()), unsafe_inner: None };
    assert!(is_cfg_attr(&cfg));
    assert!(!is_cfg_attr(&doc));
    let (cfgs, rest) = extract_cfgs(&vec![doc, cfg]);
    assert_eq!(cfgs.len(), 1);
    assert_eq!(rest.len(), 1);
    assert_eq!(cfgs[0].path, Some("cfg".to_owned()));
    assert_eq!(rest[0].path, Some("doc".to_owned()));
}

#[test]
fn internal_name_prefixes() {
    assert_eq!(internal_name(&"IRQ".to_owned()), "__cortex_m_rt_IRQ");
}

#[test]
fn plan_carries_attr_partitions() {
    let cfg = Attr { outer: true, path: Some("cfg".to_owned()), unsafe_inner: None };
    let doc = Attr { outer: true, path: Some("doc".to_owned()), unsafe_inner: None };
    let decl = FnDecl {
        attrs: vec![cfg, doc],
        sig: sig("main", ReturnSig::Never),
        stmts: Vec::new(),
    };
    let plan = entry(decl, false).unwrap();
    assert_eq!(plan.cfgs.len(), 1);
    assert_eq!(plan.cfgs[0].path, Some("cfg".to_owned()));
    assert_eq!(plan.attrs.len(), 1);
    assert_eq!(plan.attrs[0].path, Some("doc".to_owned()));
}
