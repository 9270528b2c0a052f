//! The namespace resolver.
//!
//! Given a parsed source file and a namespace path (possibly empty, meaning
//! the top level), the resolver descends into a matching namespace
//! declaration for each path segment and then searches the resolved level
//! for an interface declaration of the requested name.  Resolution takes
//! the first declaration of the requested name at each level.  Every
//! failure — a missing segment, a namespace without a body, a missing
//! interface — is a fatal generation error; there is no fallback.
//!
//! The declaration is returned by value, detached from the source file, so
//! later passes can rework it freely.

use vstd::prelude::*;

use crate::model::{
    items_model, lemma_items_model, GenError, GenErrorModel, InterfaceDecl, InterfaceModel,
    NamespaceDecl, NamespaceModel, SourceFile, SourceItem, SourceItemModel,
};
use crate::text::string_eq;

verus! {

broadcast use vstd::std_specs::vec::group_vec_axioms;

/// The first namespace declaration of the given name among the items.
pub open spec fn find_namespace(items: Seq<SourceItemModel>, name: Seq<char>) -> Option<
    NamespaceModel,
>
    decreases items,
{
    if items.len() == 0 {
        Option::None
    } else {
        match items[0] {
            SourceItemModel::Namespace(n) => if n.name == name {
                Option::Some(n)
            } else {
                find_namespace(items.drop_first(), name)
            },
            _ => find_namespace(items.drop_first(), name),
        }
    }
}

/// The first interface declaration of the given name among the items.
pub open spec fn find_interface(items: Seq<SourceItemModel>, name: Seq<char>) -> Option<
    InterfaceModel,
>
    decreases items,
{
    if items.len() == 0 {
        Option::None
    } else {
        match items[0] {
            SourceItemModel::Interface(d) => if d.name == name {
                Option::Some(d)
            } else {
                find_interface(items.drop_first(), name)
            },
            _ => find_interface(items.drop_first(), name),
        }
    }
}

/// Resolution of an interface name at a namespace path, starting from the
/// given item level: each path segment must name a namespace with a body at
/// its level, and the final level must hold the interface.
pub open spec fn resolve_in(
    items: Seq<SourceItemModel>,
    path: Seq<Seq<char>>,
    name: Seq<char>,
) -> Result<InterfaceModel, GenErrorModel>
    decreases path.len(),
{
    if path.len() == 0 {
        match find_interface(items, name) {
            Option::Some(d) => Result::Ok(d),
            Option::None => Result::Err(GenErrorModel::InterfaceNotFound(name)),
        }
    } else {
        match find_namespace(items, path[0]) {
            Option::Some(n) => match n.body {
                Option::Some(b) => resolve_in(b, path.drop_first(), name),
                Option::None => Result::Err(GenErrorModel::NamespaceEmpty(path[0])),
            },
            Option::None => Result::Err(GenErrorModel::PathSegmentNotFound(path[0])),
        }
    }
}

/// A found interface bears the searched name.
pub proof fn lemma_find_interface_name(items: Seq<SourceItemModel>, name: Seq<char>)
    ensures
        find_interface(items, name) matches Option::Some(d) ==> d.name == name,
    decreases items,
{
    if items.len() > 0 {
        lemma_find_interface_name(items.drop_first(), name);
    }
}

/// The resolved declaration bears the requested name, so everything
/// generated from it — the relocated copy, the delegation block — speaks of
/// the interface that was asked for.
pub proof fn lemma_resolve_name(items: Seq<SourceItemModel>, path: Seq<Seq<char>>, name: Seq<char>)
    ensures
        resolve_in(items, path, name) matches Result::Ok(d) ==> d.name == name,
    decreases path.len(),
{
    if path.len() == 0 {
        lemma_find_interface_name(items, name);
    } else {
        match find_namespace(items, path[0]) {
            Option::Some(n) => match n.body {
                Option::Some(b) => {
                    lemma_resolve_name(b, path.drop_first(), name);
                },
                Option::None => {},
            },
            Option::None => {},
        }
    }
}

/// The first namespace declaration of the given name, as a reference.
fn find_namespace_ref<'a>(items: &'a Vec<SourceItem>, name: &String) -> (r: Option<
    &'a NamespaceDecl,
>)
    ensures
        match r {
            Option::Some(n) => find_namespace(items_model(items@), name@) == Option::Some(n@),
            Option::None => find_namespace(items_model(items@), name@) is None,
        },
{
    proof {
        lemma_items_model(items@);
    }
    let ghost m = items_model(items@);
    proof {
        assert(m.skip(0) =~= m);
    }
    let mut i: usize = 0;
    while i < items.len()
        invariant
            i <= items@.len(),
            m == items_model(items@),
            m.len() == items@.len(),
            forall|j: int| 0 <= j < items@.len() ==> m[j] == #[trigger] items@[j].model(),
            find_namespace(m, name@) == find_namespace(m.skip(i as int), name@),
        decreases items@.len() - i,
    {
        proof {
            assert(m[i as int] == items@[i as int].model());
            assert(m.skip(i as int)[0] == m[i as int]);
            assert(m.skip(i as int).drop_first() =~= m.skip(i as int + 1));
        }
        match &items[i] {
            SourceItem::Namespace(n) => {
                if string_eq(&n.name, name) {
                    return Option::Some(n);
                }
            },
            _ => {},
        }
        i = i + 1;
    }
    proof {
        assert(m.skip(items@.len() as int) =~= Seq::empty());
    }
    Option::None
}

/// The first interface declaration of the given name, as a reference.
fn find_interface_ref<'a>(items: &'a Vec<SourceItem>, name: &String) -> (r: Option<
    &'a InterfaceDecl,
>)
    ensures
        match r {
            Option::Some(d) => find_interface(items_model(items@), name@) == Option::Some(d@),
            Option::None => find_interface(items_model(items@), name@) is None,
        },
{
    proof {
        lemma_items_model(items@);
    }
    let ghost m = items_model(items@);
    proof {
        assert(m.skip(0) =~= m);
    }
    let mut i: usize = 0;
    while i < items.len()
        invariant
            i <= items@.len(),
            m == items_model(items@),
            m.len() == items@.len(),
            forall|j: int| 0 <= j < items@.len() ==> m[j] == #[trigger] items@[j].model(),
            find_interface(m, name@) == find_interface(m.skip(i as int), name@),
        decreases items@.len() - i,
    {
        proof {
            assert(m[i as int] == items@[i as int].model());
            assert(m.skip(i as int)[0] == m[i as int]);
            assert(m.skip(i as int).drop_first() =~= m.skip(i as int + 1));
        }
        match &items[i] {
            SourceItem::Interface(d) => {
                if string_eq(&d.name, name) {
                    return Option::Some(d);
                }
            },
            _ => {},
        }
        i = i + 1;
    }
    proof {
        assert(m.skip(items@.len() as int) =~= Seq::empty());
    }
    Option::None
}

/// Resolves the interface declaration of the given name at the given
/// namespace path of the source file and returns it by value, detached
/// from the file.
///
/// Fails exactly as the resolution model does: with
/// `PathSegmentNotFound` on the first path segment that names no namespace
/// at its level, with `NamespaceEmpty` on the first traversed namespace
/// that has no body, and with `InterfaceNotFound` when the final level has
/// no interface of the requested name.
pub fn resolve_interface(file: &SourceFile, path: &Vec<String>, name: &String) -> (r: Result<
    InterfaceDecl,
    GenError,
>)
    ensures
        match r {
            Result::Ok(d) => resolve_in(file@.items, path.deep_view(), name@) == Result::Ok::<
                InterfaceModel,
                GenErrorModel,
            >(d@),
            Result::Err(e) => resolve_in(file@.items, path.deep_view(), name@) == Result::Err::<
                InterfaceModel,
                GenErrorModel,
            >(e@),
        },
{
    let mut items: &Vec<SourceItem> = &file.items;
    proof {
        assert(path.deep_view().skip(0) =~= path.deep_view());
    }
    let mut k: usize = 0;
    while k < path.len()
        invariant
            k <= path@.len(),
            resolve_in(file@.items, path.deep_view(), name@) == resolve_in(
                items_model(items@),
                path.deep_view().skip(k as int),
                name@,
            ),
        decreases path@.len() - k,
    {
        proof {
            assert(path.deep_view().skip(k as int)[0] == path@[k as int]@);
            assert(path.deep_view().skip(k as int).drop_first() =~= path.deep_view().skip(
                k as int + 1,
            ));
        }
        match find_namespace_ref(items, &path[k]) {
            Option::Some(n) => {
                match &n.body {
                    Option::Some(b) => {
                        items = b;
                    },
                    Option::None => {
                        return Result::Err(GenError::NamespaceEmpty(path[k].clone()));
                    },
                }
            },
            Option::None => {
                return Result::Err(GenError::PathSegmentNotFound(path[k].clone()));
            },
        }
        k = k + 1;
    }
    proof {
        assert(path.deep_view().skip(path@.len() as int) =~= Seq::<Seq<char>>::empty());
    }
    match find_interface_ref(items, name) {
        Option::Some(d) => Result::Ok(d.clone()),
        Option::None => Result::Err(GenError::InterfaceNotFound(name.clone())),
    }
}

} // verus!
