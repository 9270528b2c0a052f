use auto_impl_trait::model::{
    AssocTypeDecl, EntityDecl, Member, MethodSig, NamespaceContext, TypeRef,
};
use auto_impl_trait::scaffold::{build_scaffold_path, ScaffoldContent, ScaffoldStore};

fn area_method() -> Member {
    Member::Method(MethodSig {
        name: "area".to_string(),
        takes_receiver: true,
        mutates_receiver: false,
        may_suspend: false,
        params: vec![],
        ret: Some(TypeRef { segments: vec!["i32".to_string()], args: vec![] }),
    })
}

fn square() -> EntityDecl {
    EntityDecl { name: "Square".to_string() }
}

#[test]
fn scaffold_path_joins_context_and_capability_name() {
    let ctx = NamespaceContext { chain: vec!["gen".to_string(), "v1".to_string()] };
    let path = build_scaffold_path(&ctx, &"method_area".to_string());
    assert_eq!(path, "gen/v1/method_area.rs");
    let top = NamespaceContext { chain: vec![] };
    assert_eq!(build_scaffold_path(&top, &"type_item".to_string()), "type_item.rs");
}

#[test]
fn materialize_creates_only_when_absent() {
    let ctx = NamespaceContext { chain: vec![] };
    let mut store = ScaffoldStore::new();
    let name = "method_area".to_string();

    let created = store.materialize(&name, &square(), &area_method(), &ctx);
    assert!(created);
    assert_eq!(store.len(), 1);
    assert!(store.exists_at(&"method_area.rs".to_string()));

    let created_again = store.materialize(&name, &square(), &area_method(), &ctx);
    assert!(!created_again);
    assert_eq!(store.len(), 1);
}

#[test]
fn materialize_never_touches_an_existing_unit() {
    let ctx = NamespaceContext { chain: vec![] };
    let mut store = ScaffoldStore::new();
    let name = "type_item".to_string();
    let first = Member::AssociatedType(AssocTypeDecl { name: "Item".to_string(), bounds: vec![] });
    store.materialize(&name, &square(), &first, &ctx);

    // A later run offers different content for the same path; the existing
    // unit must stay byte-for-byte as it was.
    let other = Member::AssociatedType(AssocTypeDecl { name: "Other".to_string(), bounds: vec![] });
    let created = store.materialize(&name, &square(), &other, &ctx);
    assert!(!created);
    assert_eq!(store.len(), 1);
    match &store.files[0].content {
        ScaffoldContent::TypeAlias(n) => assert_eq!(n, "Item"),
        _ => panic!("expected a type alias"),
    }
}

#[test]
fn method_stub_keeps_the_signature() {
    let ctx = NamespaceContext { chain: vec![] };
    let mut store = ScaffoldStore::new();
    store.materialize(&"method_area".to_string(), &square(), &area_method(), &ctx);
    match &store.files[0].content {
        ScaffoldContent::MethodStub(sig) => {
            assert_eq!(sig.name, "area");
            assert!(sig.takes_receiver);
            assert!(!sig.mutates_receiver);
            assert_eq!(sig.ret.as_ref().unwrap().segments, vec!["i32"]);
        },
        _ => panic!("expected a method stub"),
    }
    assert_eq!(store.files[0].entity, "Square");
}
