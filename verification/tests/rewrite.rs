use auto_impl_trait::model::TypeRef;
use auto_impl_trait::rewrite::{qualify_type_ref, strip_type_ref, Placement};

fn ty(segments: &[&str]) -> TypeRef {
    TypeRef { segments: segments.iter().map(|s| s.to_string()).collect(), args: vec![] }
}

fn ty_with_args(segments: &[&str], args: Vec<TypeRef>) -> TypeRef {
    TypeRef { segments: segments.iter().map(|s| s.to_string()).collect(), args }
}

fn segments(t: &TypeRef) -> Vec<String> {
    t.segments.clone()
}

#[test]
fn rewrite_self_for_nesting_gets_parent_qualifier() {
    let out = qualify_type_ref(&ty(&["Self", "Assoc"]), Placement::Nested);
    assert_eq!(segments(&out), vec!["super", "Self", "Assoc"]);
}

#[test]
fn rewrite_self_for_root_gets_root_qualifier() {
    let out = qualify_type_ref(&ty(&["Self", "Assoc"]), Placement::Root);
    assert_eq!(segments(&out), vec!["crate", "Self", "Assoc"]);
}

#[test]
fn rewrite_leaves_other_paths_alone() {
    let out = qualify_type_ref(&ty(&["std", "string", "String"]), Placement::Nested);
    assert_eq!(segments(&out), vec!["std", "string", "String"]);
}

#[test]
fn rewrite_touches_only_the_first_segment() {
    let out = qualify_type_ref(&ty(&["Outer", "Self", "Inner"]), Placement::Nested);
    assert_eq!(segments(&out), vec!["Outer", "Self", "Inner"]);
}

#[test]
fn rewrite_is_idempotent() {
    let once = qualify_type_ref(&ty(&["Self", "Assoc"]), Placement::Nested);
    let twice = qualify_type_ref(&once, Placement::Nested);
    assert_eq!(segments(&once), segments(&twice));
}

#[test]
fn rewrite_descends_into_generic_arguments() {
    let t = ty_with_args(&["Vec"], vec![ty(&["Self", "Item"])]);
    let out = qualify_type_ref(&t, Placement::Nested);
    assert_eq!(segments(&out), vec!["Vec"]);
    assert_eq!(out.args.len(), 1);
    assert_eq!(segments(&out.args[0]), vec!["super", "Self", "Item"]);
}

#[test]
fn strip_removes_leading_parent_qualifier() {
    let out = strip_type_ref(&ty(&["super", "ListImagesRequest"]));
    assert_eq!(segments(&out), vec!["ListImagesRequest"]);
}

#[test]
fn strip_keeps_single_segment_path() {
    let out = strip_type_ref(&ty(&["super"]));
    assert_eq!(segments(&out), vec!["super"]);
}

#[test]
fn strip_after_nesting_rewrite_restores_the_self_marker() {
    let original = ty_with_args(&["Self", "Assoc"], vec![ty(&["Self", "Item"])]);
    let nested = qualify_type_ref(&original, Placement::Nested);
    let back = strip_type_ref(&nested);
    assert_eq!(segments(&back), vec!["Self", "Assoc"]);
    assert_eq!(back.args.len(), 1);
    assert_eq!(segments(&back.args[0]), vec!["Self", "Item"]);
}
