use auto_impl_trait::model::{AssocConstDecl, AssocTypeDecl, Member, MethodSig, TypeRef};
use auto_impl_trait::naming::{capability_name, first_collision};

fn simple_ty(name: &str) -> TypeRef {
    TypeRef { segments: vec![name.to_string()], args: vec![] }
}

fn method(name: &str) -> Member {
    Member::Method(MethodSig {
        name: name.to_string(),
        takes_receiver: true,
        mutates_receiver: false,
        may_suspend: false,
        params: vec![],
        ret: Some(simple_ty("i32")),
    })
}

#[test]
fn naming_method_prefix_and_snake_case() {
    assert_eq!(capability_name(&method("area")), "method_area");
    assert_eq!(capability_name(&method("ListImages")), "method_list_images");
    assert_eq!(capability_name(&method("listImages")), "method_list_images");
    assert_eq!(capability_name(&method("HTTP")), "method_http");
    assert_eq!(capability_name(&method("HTTPServer")), "method_http_server");
    assert_eq!(capability_name(&method("MAX_SIZE")), "method_max_size");
    assert_eq!(capability_name(&method("scale2D")), "method_scale2_d");
}

#[test]
fn naming_kind_prefixes_differ() {
    let t = Member::AssociatedType(AssocTypeDecl { name: "Item".to_string(), bounds: vec![] });
    let c = Member::AssociatedConstant(AssocConstDecl {
        name: "Item".to_string(),
        ty: simple_ty("u32"),
    });
    assert_eq!(capability_name(&t), "type_item");
    assert_eq!(capability_name(&c), "const_item");
    assert_eq!(capability_name(&method("Item")), "method_item");
}

#[test]
fn naming_is_deterministic_across_calls() {
    let a = capability_name(&method("ScaleBy"));
    let b = capability_name(&method("ScaleBy"));
    assert_eq!(a, b);
    assert_eq!(a, "method_scale_by");
}

#[test]
fn naming_non_ascii_maps_to_separator() {
    assert_eq!(capability_name(&method("más")), "method_m_s");
}

#[test]
fn collision_on_same_canonical_name() {
    let members = vec![method("listImages"), method("Other"), method("ListImages")];
    let hit = first_collision(&members);
    assert_eq!(hit, Some("method_list_images".to_string()));
}

#[test]
fn no_collision_across_kinds() {
    let members = vec![
        method("Item"),
        Member::AssociatedType(AssocTypeDecl { name: "Item".to_string(), bounds: vec![] }),
        Member::AssociatedConstant(AssocConstDecl {
            name: "Item".to_string(),
            ty: simple_ty("u32"),
        }),
    ];
    assert_eq!(first_collision(&members), None);
}
