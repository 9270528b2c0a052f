use auto_impl_trait::classify::classify_members;
use auto_impl_trait::delegate::DelegationEntry;
use auto_impl_trait::model::{
    AssocConstDecl, AssocTypeDecl, EntityDecl, GenError, InterfaceDecl, Member, MemberDecl,
    MethodSig, NamespaceContext, NamespaceDecl, Param, SourceFile, SourceItem, TypeRef,
};
use auto_impl_trait::pipeline::generate;
use auto_impl_trait::scaffold::{ScaffoldContent, ScaffoldStore};

fn ty(segments: &[&str]) -> TypeRef {
    TypeRef { segments: segments.iter().map(|s| s.to_string()).collect(), args: vec![] }
}

fn method_member(name: &str, params: Vec<Param>, ret: Option<TypeRef>) -> MemberDecl {
    MemberDecl::Supported(Member::Method(MethodSig {
        name: name.to_string(),
        takes_receiver: true,
        mutates_receiver: false,
        may_suspend: false,
        params,
        ret,
    }))
}

fn const_member(name: &str, t: TypeRef) -> MemberDecl {
    MemberDecl::Supported(Member::AssociatedConstant(AssocConstDecl {
        name: name.to_string(),
        ty: t,
    }))
}

fn type_member(name: &str) -> MemberDecl {
    MemberDecl::Supported(Member::AssociatedType(AssocTypeDecl {
        name: name.to_string(),
        bounds: vec![],
    }))
}

fn interface_item(name: &str, members: Vec<MemberDecl>) -> SourceItem {
    SourceItem::Interface(InterfaceDecl { name: name.to_string(), is_public: true, members })
}

fn square_entity() -> EntityDecl {
    EntityDecl { name: "Square".to_string() }
}

fn top_level_ctx() -> NamespaceContext {
    NamespaceContext { chain: vec![] }
}

fn strings(v: &[&str]) -> Vec<String> {
    v.iter().map(|s| s.to_string()).collect()
}

#[test]
fn area_method_scaffolds_and_delegates() {
    // One method `area` returning a numeric type, on an entity with one
    // field `side`, at the top-level namespace.
    let file = SourceFile {
        items: vec![interface_item("Rect", vec![method_member("area", vec![], Some(ty(&["i32"])))])],
    };
    let mut store = ScaffoldStore::new();
    let out = generate(
        &file,
        &strings(&[]),
        &"Rect".to_string(),
        &square_entity(),
        &top_level_ctx(),
        &mut store,
    )
    .expect("generation should succeed");

    // Exactly one scaffold unit, for the area capability, holding a method
    // stub for the entity.
    assert_eq!(store.len(), 1);
    assert_eq!(store.files[0].path, "method_area.rs");
    assert_eq!(store.files[0].entity, "Square");
    match &store.files[0].content {
        ScaffoldContent::MethodStub(sig) => {
            assert_eq!(sig.name, "area");
            assert!(sig.takes_receiver);
            assert!(!sig.may_suspend);
            assert_eq!(sig.ret.as_ref().unwrap().segments, vec!["i32"]);
        },
        _ => panic!("expected a method stub"),
    }

    // The delegation block's one entry is exactly a forwarding call to the
    // area capability.
    assert_eq!(out.capability_names, vec!["method_area".to_string()]);
    assert_eq!(out.delegation.interface_name, "Rect");
    assert_eq!(out.delegation.entity, "Square");
    assert_eq!(out.delegation.entries.len(), 1);
    match &out.delegation.entries[0] {
        DelegationEntry::ForwardCall { method, capability, args, suspends } => {
            assert_eq!(method, "area");
            assert_eq!(capability, "method_area");
            assert!(args.is_empty());
            assert!(!suspends);
        },
        _ => panic!("expected a forwarding call"),
    }

    // One capability interface, for the one method.
    assert_eq!(out.capabilities.len(), 1);
    assert_eq!(out.capabilities[0].name, "method_area");
    assert_eq!(out.capabilities[0].method.name, "area");
}

#[test]
fn second_run_writes_no_new_scaffolds_and_regenerates_delegation() {
    let file = SourceFile {
        items: vec![interface_item("Rect", vec![method_member("area", vec![], Some(ty(&["i32"])))])],
    };
    let mut store = ScaffoldStore::new();
    let first = generate(
        &file,
        &strings(&[]),
        &"Rect".to_string(),
        &square_entity(),
        &top_level_ctx(),
        &mut store,
    )
    .unwrap();
    let len_after_first = store.len();

    let second = generate(
        &file,
        &strings(&[]),
        &"Rect".to_string(),
        &square_entity(),
        &top_level_ctx(),
        &mut store,
    )
    .unwrap();

    // Zero new scaffold units.
    assert_eq!(store.len(), len_after_first);
    // The delegation block is regenerated identically.
    assert_eq!(first.delegation.interface_name, second.delegation.interface_name);
    assert_eq!(first.delegation.entity, second.delegation.entity);
    assert_eq!(first.delegation.entries.len(), second.delegation.entries.len());
    match (&first.delegation.entries[0], &second.delegation.entries[0]) {
        (
            DelegationEntry::ForwardCall { method: m1, capability: c1, .. },
            DelegationEntry::ForwardCall { method: m2, capability: c2, .. },
        ) => {
            assert_eq!(m1, m2);
            assert_eq!(c1, c2);
        },
        _ => panic!("expected forwarding calls"),
    }
}

#[test]
fn nested_constant_type_is_parent_qualified() {
    // An interface nested two namespace levels deep, with an associated
    // constant whose declared type references the self-marker.  Generated
    // code lives inside an enclosing namespace, so the scaffold's constant
    // type must come out parent-qualified, not as the bare self-marker.
    let file = SourceFile {
        items: vec![SourceItem::Namespace(NamespaceDecl {
            name: "outer".to_string(),
            is_public: true,
            body: Some(vec![SourceItem::Namespace(NamespaceDecl {
                name: "inner".to_string(),
                is_public: true,
                body: Some(vec![interface_item(
                    "Rect",
                    vec![const_member("UNIT", ty(&["Self", "Item"]))],
                )]),
            })]),
        })],
    };
    let mut store = ScaffoldStore::new();
    let ctx = NamespaceContext { chain: strings(&["generated"]) };
    generate(
        &file,
        &strings(&["outer", "inner"]),
        &"Rect".to_string(),
        &square_entity(),
        &ctx,
        &mut store,
    )
    .expect("generation should succeed");

    assert_eq!(store.len(), 1);
    assert_eq!(store.files[0].path, "generated/const_unit.rs");
    match &store.files[0].content {
        ScaffoldContent::ConstStub(c) => {
            assert_eq!(c.name, "UNIT");
            assert_eq!(c.ty.segments, vec!["super", "Self", "Item"]);
        },
        _ => panic!("expected a constant stub"),
    }
}

#[test]
fn every_member_gets_name_scaffold_and_entry() {
    let file = SourceFile {
        items: vec![interface_item(
            "Rect",
            vec![
                method_member(
                    "scale",
                    vec![Param { name: "factor".to_string(), ty: ty(&["Self", "Item"]) }],
                    None,
                ),
                type_member("Item"),
                const_member("SIDES", ty(&["u32"])),
            ],
        )],
    };
    let mut store = ScaffoldStore::new();
    let out = generate(
        &file,
        &strings(&[]),
        &"Rect".to_string(),
        &square_entity(),
        &top_level_ctx(),
        &mut store,
    )
    .unwrap();

    assert_eq!(
        out.capability_names,
        vec!["method_scale".to_string(), "type_item".to_string(), "const_sides".to_string()]
    );
    assert_eq!(store.len(), 3);
    assert_eq!(store.files[0].path, "method_scale.rs");
    assert_eq!(store.files[1].path, "type_item.rs");
    assert_eq!(store.files[2].path, "const_sides.rs");
    assert_eq!(out.delegation.entries.len(), 3);
    match &out.delegation.entries[0] {
        DelegationEntry::ForwardCall { args, .. } => {
            assert_eq!(args, &vec!["factor".to_string()])
        },
        _ => panic!("expected a forwarding call"),
    }
    match &out.delegation.entries[1] {
        DelegationEntry::TypeAlias { name, capability } => {
            assert_eq!(name, "Item");
            assert_eq!(capability, "type_item");
        },
        _ => panic!("expected a type alias"),
    }
    match &out.delegation.entries[2] {
        DelegationEntry::ConstAlias { name, capability } => {
            assert_eq!(name, "SIDES");
            assert_eq!(capability, "const_sides");
        },
        _ => panic!("expected a constant alias"),
    }
    // Only the method yields a capability interface.
    assert_eq!(out.capabilities.len(), 1);
    assert_eq!(out.capabilities[0].name, "method_scale");
    // Its parameter type is rewritten for the capability's own module.
    assert_eq!(
        out.capabilities[0].method.params[0].ty.segments,
        vec!["super", "Self", "Item"]
    );
}

#[test]
fn unsupported_member_is_a_fatal_classification_error() {
    let file = SourceFile {
        items: vec![interface_item(
            "Rect",
            vec![
                method_member("area", vec![], Some(ty(&["i32"]))),
                MemberDecl::Unsupported("macro invocation".to_string()),
            ],
        )],
    };
    let mut store = ScaffoldStore::new();
    let got = generate(
        &file,
        &strings(&[]),
        &"Rect".to_string(),
        &square_entity(),
        &top_level_ctx(),
        &mut store,
    );
    match got {
        Err(GenError::UnsupportedMember(d)) => assert_eq!(d, "macro invocation"),
        _ => panic!("expected an unsupported-member error"),
    }
    // Nothing was materialized on the failed run.
    assert_eq!(store.len(), 0);
}

#[test]
fn colliding_capability_names_are_a_fatal_error() {
    let file = SourceFile {
        items: vec![interface_item(
            "Rect",
            vec![
                method_member("listImages", vec![], None),
                method_member("ListImages", vec![], None),
            ],
        )],
    };
    let mut store = ScaffoldStore::new();
    let got = generate(
        &file,
        &strings(&[]),
        &"Rect".to_string(),
        &square_entity(),
        &top_level_ctx(),
        &mut store,
    );
    match got {
        Err(GenError::NameCollision(n)) => assert_eq!(n, "method_list_images"),
        _ => panic!("expected a name-collision error"),
    }
    assert_eq!(store.len(), 0);
}

#[test]
fn classifier_keeps_member_order() {
    let members = vec![
        type_member("Item"),
        method_member("area", vec![], Some(ty(&["i32"]))),
        const_member("SIDES", ty(&["u32"])),
    ];
    let classified = classify_members(&members).unwrap();
    assert_eq!(classified.len(), 3);
    assert!(matches!(classified[0], Member::AssociatedType(_)));
    assert!(matches!(classified[1], Member::Method(_)));
    assert!(matches!(classified[2], Member::AssociatedConstant(_)));
}

#[test]
fn suspension_qualifier_is_preserved_through_delegation() {
    let file = SourceFile {
        items: vec![interface_item(
            "Service",
            vec![MemberDecl::Supported(Member::Method(MethodSig {
                name: "fetch".to_string(),
                takes_receiver: true,
                mutates_receiver: false,
                may_suspend: true,
                params: vec![],
                ret: None,
            }))],
        )],
    };
    let mut store = ScaffoldStore::new();
    let out = generate(
        &file,
        &strings(&[]),
        &"Service".to_string(),
        &square_entity(),
        &top_level_ctx(),
        &mut store,
    )
    .unwrap();
    match &out.delegation.entries[0] {
        DelegationEntry::ForwardCall { suspends, .. } => assert!(*suspends),
        _ => panic!("expected a forwarding call"),
    }
    match &store.files[0].content {
        ScaffoldContent::MethodStub(sig) => assert!(sig.may_suspend),
        _ => panic!("expected a method stub"),
    }
}

#[test]
fn empty_interface_generates_an_empty_delegation_block() {
    let file = SourceFile { items: vec![interface_item("Rect", vec![])] };
    let mut store = ScaffoldStore::new();
    let out = generate(
        &file,
        &strings(&[]),
        &"Rect".to_string(),
        &square_entity(),
        &top_level_ctx(),
        &mut store,
    )
    .unwrap();
    assert_eq!(store.len(), 0);
    assert!(out.capability_names.is_empty());
    assert!(out.capabilities.is_empty());
    assert!(out.delegation.entries.is_empty());
    assert_eq!(out.delegation.interface_name, "Rect");
}

#[test]
fn mutating_receiver_is_preserved_in_the_stub() {
    let file = SourceFile {
        items: vec![interface_item(
            "Rect",
            vec![MemberDecl::Supported(Member::Method(MethodSig {
                name: "scale".to_string(),
                takes_receiver: true,
                mutates_receiver: true,
                may_suspend: false,
                params: vec![Param { name: "factor".to_string(), ty: ty(&["i32"]) }],
                ret: None,
            }))],
        )],
    };
    let mut store = ScaffoldStore::new();
    generate(
        &file,
        &strings(&[]),
        &"Rect".to_string(),
        &square_entity(),
        &top_level_ctx(),
        &mut store,
    )
    .unwrap();
    match &store.files[0].content {
        ScaffoldContent::MethodStub(sig) => {
            assert!(sig.takes_receiver);
            assert!(sig.mutates_receiver);
        },
        _ => panic!("expected a method stub"),
    }
}
