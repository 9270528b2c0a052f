use auto_impl_trait::model::{
    GenError, InterfaceDecl, MemberDecl, NamespaceDecl, SourceFile, SourceItem,
};
use auto_impl_trait::resolve::resolve_interface;

fn interface(name: &str, public: bool) -> SourceItem {
    SourceItem::Interface(InterfaceDecl {
        name: name.to_string(),
        is_public: public,
        members: Vec::<MemberDecl>::new(),
    })
}

fn namespace(name: &str, body: Option<Vec<SourceItem>>) -> SourceItem {
    SourceItem::Namespace(NamespaceDecl { name: name.to_string(), is_public: true, body })
}

fn path(segments: &[&str]) -> Vec<String> {
    segments.iter().map(|s| s.to_string()).collect()
}

fn nested_file() -> SourceFile {
    SourceFile {
        items: vec![
            SourceItem::Foreign("struct Request;".to_string()),
            namespace(
                "runtime",
                Some(vec![namespace("v1", Some(vec![interface("Rect", true)]))]),
            ),
            namespace("empty_ns", None),
        ],
    }
}

#[test]
fn resolve_finds_interface_two_levels_deep() {
    let file = nested_file();
    let got = resolve_interface(&file, &path(&["runtime", "v1"]), &"Rect".to_string());
    let decl = got.expect("resolution should succeed");
    assert_eq!(decl.name, "Rect");
    assert!(decl.is_public);
    assert_eq!(decl.members.len(), 0);
}

#[test]
fn resolve_finds_interface_at_top_level() {
    let file = SourceFile { items: vec![interface("Shape", false)] };
    let decl = resolve_interface(&file, &path(&[]), &"Shape".to_string()).unwrap();
    assert_eq!(decl.name, "Shape");
    assert!(!decl.is_public);
}

#[test]
fn resolve_reports_missing_path_segment() {
    let file = nested_file();
    let got = resolve_interface(&file, &path(&["image"]), &"Rect".to_string());
    match got {
        Err(GenError::PathSegmentNotFound(seg)) => assert_eq!(seg, "image"),
        _ => panic!("expected a missing-segment error"),
    }
}

#[test]
fn resolve_reports_namespace_without_body() {
    let file = nested_file();
    let got = resolve_interface(&file, &path(&["empty_ns"]), &"Rect".to_string());
    match got {
        Err(GenError::NamespaceEmpty(seg)) => assert_eq!(seg, "empty_ns"),
        _ => panic!("expected an empty-namespace error"),
    }
}

#[test]
fn resolve_reports_missing_interface() {
    let file = nested_file();
    let got = resolve_interface(&file, &path(&["runtime", "v1"]), &"Circle".to_string());
    match got {
        Err(GenError::InterfaceNotFound(name)) => assert_eq!(name, "Circle"),
        _ => panic!("expected a missing-interface error"),
    }
}

#[test]
fn resolve_takes_the_first_matching_declaration() {
    let first = SourceItem::Interface(InterfaceDecl {
        name: "Shape".to_string(),
        is_public: true,
        members: Vec::<MemberDecl>::new(),
    });
    let second = SourceItem::Interface(InterfaceDecl {
        name: "Shape".to_string(),
        is_public: false,
        members: Vec::<MemberDecl>::new(),
    });
    let file = SourceFile { items: vec![first, second] };
    let decl = resolve_interface(&file, &path(&[]), &"Shape".to_string()).unwrap();
    assert!(decl.is_public);
}
