use auto_impl_trait::model::{
    EntityDecl, InterfaceDecl, Member, MemberDecl, MethodSig, NamespaceContext, NamespaceDecl,
    SourceFile, SourceItem, TypeRef,
};
use auto_impl_trait::scaffold::ScaffoldStore;
use auto_impl_trait::versioned::{exposes_name, generate_versioned, prune_file, VersionRequest};

fn method_member(name: &str) -> MemberDecl {
    MemberDecl::Supported(Member::Method(MethodSig {
        name: name.to_string(),
        takes_receiver: true,
        mutates_receiver: false,
        may_suspend: false,
        params: vec![],
        ret: Some(TypeRef { segments: vec!["i32".to_string()], args: vec![] }),
    }))
}

fn strings(v: &[&str]) -> Vec<String> {
    v.iter().map(|s| s.to_string()).collect()
}

/// A source document holding the runtime family (with the `Service`
/// interface) and an unrelated image family (with the `ImageService`
/// sibling interface), as one shared file.
fn shared_source(method: &str) -> SourceFile {
    SourceFile {
        items: vec![
            SourceItem::Namespace(NamespaceDecl {
                name: "runtime_api".to_string(),
                is_public: true,
                body: Some(vec![SourceItem::Interface(InterfaceDecl {
                    name: "Service".to_string(),
                    is_public: true,
                    members: vec![method_member(method)],
                })]),
            }),
            SourceItem::Namespace(NamespaceDecl {
                name: "image_api".to_string(),
                is_public: true,
                body: Some(vec![SourceItem::Interface(InterfaceDecl {
                    name: "ImageService".to_string(),
                    is_public: true,
                    members: vec![method_member("ListImages")],
                })]),
            }),
        ],
    }
}

#[test]
fn pruning_demotes_only_the_listed_namespaces() {
    let pruned = prune_file(&shared_source("Run"), &strings(&["image_api"]));
    match &pruned.items[0] {
        SourceItem::Namespace(n) => {
            assert_eq!(n.name, "runtime_api");
            assert!(n.is_public);
        },
        _ => panic!("expected a namespace"),
    }
    match &pruned.items[1] {
        SourceItem::Namespace(n) => {
            assert_eq!(n.name, "image_api");
            assert!(!n.is_public);
        },
        _ => panic!("expected a namespace"),
    }
}

#[test]
fn pruning_demotes_nested_namespaces_too() {
    let file = SourceFile {
        items: vec![SourceItem::Namespace(NamespaceDecl {
            name: "outer".to_string(),
            is_public: true,
            body: Some(vec![SourceItem::Namespace(NamespaceDecl {
                name: "image_api".to_string(),
                is_public: true,
                body: Some(vec![]),
            })]),
        })],
    };
    let pruned = prune_file(&file, &strings(&["image_api"]));
    match &pruned.items[0] {
        SourceItem::Namespace(n) => match n.body.as_ref().unwrap().first().unwrap() {
            SourceItem::Namespace(inner) => assert!(!inner.is_public),
            _ => panic!("expected the nested namespace"),
        },
        _ => panic!("expected a namespace"),
    }
}

#[test]
fn exposure_follows_public_namespaces() {
    let file = shared_source("Run");
    assert!(exposes_name(&file.items, &"Service".to_string()));
    assert!(exposes_name(&file.items, &"ImageService".to_string()));
    assert!(exposes_name(&file.items, &"image_api".to_string()));
    assert!(!exposes_name(&file.items, &"Missing".to_string()));
}

#[test]
fn merged_versions_hide_the_unrelated_sibling() {
    // Two versions of the Service interface share one source document
    // layout, each with the unrelated image-family sibling next to it.
    let versions = vec![
        VersionRequest { version_name: "v1".to_string(), source: shared_source("Run") },
        VersionRequest { version_name: "v2".to_string(), source: shared_source("RunFast") },
    ];
    let mut store = ScaffoldStore::new();
    let outs = generate_versioned(
        &versions,
        &strings(&["runtime_api"]),
        &"Service".to_string(),
        &EntityDecl { name: "Square".to_string() },
        &NamespaceContext { chain: vec![] },
        &strings(&["image_api"]),
        &mut store,
    )
    .expect("the versioned run should succeed");

    assert_eq!(outs.len(), 2);

    // Each version's namespace is pruned: the unrelated sibling interface
    // is no longer exposed, while the version's own interface still is.
    for out in &outs {
        assert!(!exposes_name(&out.pruned.items, &"ImageService".to_string()));
        assert!(exposes_name(&out.pruned.items, &"Service".to_string()));
    }

    // Each version is exposed under its version-qualified alias.
    assert_eq!(outs[0].alias, "Service_v1");
    assert_eq!(outs[1].alias, "Service_v2");
    assert_eq!(outs[0].version_name, "v1");
    assert_eq!(outs[1].version_name, "v2");

    // Each version's scaffold units land in the version's own namespace,
    // so the two versions never collide on a path.
    assert_eq!(store.len(), 2);
    assert_eq!(store.files[0].path, "v1/method_run.rs");
    assert_eq!(store.files[1].path, "v2/method_run_fast.rs");

    // The delegation blocks forward to each version's own capability.
    assert_eq!(outs[0].output.capability_names, vec!["method_run".to_string()]);
    assert_eq!(outs[1].output.capability_names, vec!["method_run_fast".to_string()]);
}

#[test]
fn versioned_run_stops_at_the_first_failing_version() {
    let good = VersionRequest { version_name: "v1".to_string(), source: shared_source("Run") };
    let bad = VersionRequest {
        version_name: "v2".to_string(),
        source: SourceFile { items: vec![] },
    };
    let mut store = ScaffoldStore::new();
    let got = generate_versioned(
        &vec![good, bad],
        &strings(&["runtime_api"]),
        &"Service".to_string(),
        &EntityDecl { name: "Square".to_string() },
        &NamespaceContext { chain: vec![] },
        &strings(&["image_api"]),
        &mut store,
    );
    assert!(got.is_err());
    // The first version's scaffold unit is deliberately left in place.
    assert_eq!(store.len(), 1);
    assert_eq!(store.files[0].path, "v1/method_run.rs");
}
