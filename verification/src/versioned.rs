//! The versioned merge extension.
//!
//! An interface may exist in several incompatible versions, each declared in
//! its own source document at the same namespace path.  The extension runs
//! the full pipeline once per version inside a version-named sub-namespace,
//! after pruning from each document the sibling namespaces that belong to a
//! different, unrelated protocol family sharing the file.  Pruning demotes
//! visibility rather than deleting, so cross-references inside the copied
//! source stay valid, but nothing that lives only inside a pruned namespace
//! is exposed any more.  Each version's umbrella implementation is exposed
//! under a version-qualified alias, so one target entity can satisfy all
//! versions side by side without name collisions.

use vstd::prelude::*;
use vstd::string::*;

use crate::model::{
    items_model, lemma_items_model, EntityDecl, GenError, GenErrorModel, MemberModel,
    NamespaceContext, NamespaceDecl, SourceFile, SourceFileModel, SourceItem, SourceItemModel,
};
use crate::pipeline::{
    generate, generate_decision, generation_model, materialize_seq, scaffold_plan, GenerationModel,
    GenerationOutput,
};
use crate::resolve::resolve_in;
use crate::scaffold::{ScaffoldFileModel, ScaffoldStore};
use crate::text::{clone_strings, string_eq};

verus! {

broadcast use vstd::std_specs::vec::group_vec_axioms;

// ---------------------------------------------------------------------------
// Pruning
// ---------------------------------------------------------------------------

/// Pruning of one item: a namespace whose name is on the list loses its
/// visibility, at every level; everything else is kept as it is.
pub open spec fn prune_item(it: SourceItemModel, names: Seq<Seq<char>>) -> SourceItemModel
    decreases it,
{
    match it {
        SourceItemModel::Namespace(n) => SourceItemModel::Namespace(
            crate::model::NamespaceModel {
                name: n.name,
                is_public: n.is_public && !names.contains(n.name),
                body: match n.body {
                    Option::Some(b) => Option::Some(prune_items(b, names)),
                    Option::None => Option::None,
                },
            },
        ),
        SourceItemModel::Interface(d) => SourceItemModel::Interface(d),
        SourceItemModel::Foreign(t) => SourceItemModel::Foreign(t),
    }
}

/// Pruning of an item list, elementwise.
pub open spec fn prune_items(
    items: Seq<SourceItemModel>,
    names: Seq<Seq<char>>,
) -> Seq<SourceItemModel>
    decreases items,
{
    if items.len() == 0 {
        Seq::empty()
    } else {
        seq![prune_item(items[0], names)] + prune_items(items.drop_first(), names)
    }
}

/// `prune_items` maps the list elementwise.
pub proof fn lemma_prune_items(items: Seq<SourceItemModel>, names: Seq<Seq<char>>)
    ensures
        prune_items(items, names).len() == items.len(),
        forall|i: int|
            0 <= i < items.len() ==> prune_items(items, names)[i] == prune_item(
                #[trigger] items[i],
                names,
            ),
    decreases items,
{
    if items.len() > 0 {
        lemma_prune_items(items.drop_first(), names);
        assert forall|i: int| 0 <= i < items.len() implies prune_items(items, names)[i]
            == prune_item(#[trigger] items[i], names) by {
            if i > 0 {
                assert(prune_items(items, names)[i] == prune_items(items.drop_first(), names)[i
                    - 1]);
                assert(items.drop_first()[i - 1] == items[i]);
            }
        }
    }
}

/// Whether a name is on the list.
fn name_on_list(names: &Vec<String>, x: &String) -> (r: bool)
    ensures
        r == names.deep_view().contains(x@),
{
    let mut i: usize = 0;
    while i < names.len()
        invariant
            i <= names@.len(),
            forall|j: int| 0 <= j < i ==> names.deep_view()[j] != x@,
        decreases names@.len() - i,
    {
        if string_eq(&names[i], x) {
            proof {
                assert(names.deep_view()[i as int] == x@);
            }
            return true;
        }
        i = i + 1;
    }
    false
}

/// Pruning of one item.
fn prune_source_item(it: &SourceItem, names: &Vec<String>) -> (r: SourceItem)
    ensures
        r@ == prune_item(it@, names.deep_view()),
    decreases *it,
{
    match it {
        SourceItem::Namespace(n) => {
            let is_public = n.is_public && !name_on_list(names, &n.name);
            let body = match &n.body {
                Option::Some(b) => Option::Some(prune_source_items(b, names)),
                Option::None => Option::None,
            };
            SourceItem::Namespace(NamespaceDecl { name: n.name.clone(), is_public, body })
        },
        SourceItem::Interface(d) => SourceItem::Interface(d.clone()),
        SourceItem::Foreign(t) => SourceItem::Foreign(t.clone()),
    }
}

/// Pruning of an item list.
fn prune_source_items(b: &Vec<SourceItem>, names: &Vec<String>) -> (r: Vec<SourceItem>)
    ensures
        items_model(r@) == prune_items(items_model(b@), names.deep_view()),
    decreases *b,
{
    let mut items: Vec<SourceItem> = Vec::new();
    for i in 0..b.len()
        invariant
            items@.len() == i,
            forall|j: int|
                0 <= j < i ==> items@[j].model() == prune_item(b@[j].model(), names.deep_view()),
    {
        let p = prune_source_item(&b[i], names);
        items.push(p);
    }
    proof {
        lemma_items_model(b@);
        lemma_items_model(items@);
        lemma_prune_items(items_model(b@), names.deep_view());
        assert forall|j: int| 0 <= j < b@.len() implies items_model(items@)[j] == prune_items(
            items_model(b@),
            names.deep_view(),
        )[j] by {
            assert(items_model(b@)[j] == b@[j].model());
            assert(items_model(items@)[j] == items@[j].model());
        }
        assert(items_model(items@) =~= prune_items(items_model(b@), names.deep_view()));
    }
    items
}

/// Pruning of a whole source document: every namespace named on the list is
/// demoted, at the top level and inside every nested namespace.
pub fn prune_file(file: &SourceFile, names: &Vec<String>) -> (r: SourceFile)
    ensures
        r@.items == prune_items(file@.items, names.deep_view()),
{
    let items = prune_source_items(&file.items, names);
    SourceFile { items }
}

// ---------------------------------------------------------------------------
// Exposure
// ---------------------------------------------------------------------------

/// Whether one item exposes a declaration of the given name: a public
/// namespace exposes its own name and everything its body exposes; a public
/// interface exposes its name; foreign items expose nothing.
pub open spec fn item_exposes(it: SourceItemModel, name: Seq<char>) -> bool
    decreases it,
{
    match it {
        SourceItemModel::Namespace(n) => n.is_public && (n.name == name || (match n.body {
            Option::Some(b) => exposes(b, name),
            Option::None => false,
        })),
        SourceItemModel::Interface(d) => d.is_public && d.name == name,
        SourceItemModel::Foreign(_) => false,
    }
}

/// Whether an item list exposes a declaration of the given name.
pub open spec fn exposes(items: Seq<SourceItemModel>, name: Seq<char>) -> bool
    decreases items,
{
    if items.len() == 0 {
        false
    } else {
        item_exposes(items[0], name) || exposes(items.drop_first(), name)
    }
}

/// Exposure of one item along routes that avoid every namespace named on
/// the list.
pub open spec fn item_exposes_avoiding(
    it: SourceItemModel,
    name: Seq<char>,
    names: Seq<Seq<char>>,
) -> bool
    decreases it,
{
    match it {
        SourceItemModel::Namespace(n) => n.is_public && !names.contains(n.name) && (n.name == name
            || (match n.body {
            Option::Some(b) => exposes_avoiding(b, name, names),
            Option::None => false,
        })),
        SourceItemModel::Interface(d) => d.is_public && d.name == name,
        SourceItemModel::Foreign(_) => false,
    }
}

/// Exposure of an item list along routes that avoid every namespace named
/// on the list.
pub open spec fn exposes_avoiding(
    items: Seq<SourceItemModel>,
    name: Seq<char>,
    names: Seq<Seq<char>>,
) -> bool
    decreases items,
{
    if items.len() == 0 {
        false
    } else {
        item_exposes_avoiding(items[0], name, names) || exposes_avoiding(
            items.drop_first(),
            name,
            names,
        )
    }
}

/// What pruning hides, exactly: the pruned document exposes a name if and
/// only if the original document exposes it along a route that never passes
/// through (or ends at) a namespace named on the prune list.  In
/// particular, a sibling interface that lives only inside an unrelated,
/// pruned namespace is no longer exposed.
pub proof fn lemma_prune_exposes(
    items: Seq<SourceItemModel>,
    name: Seq<char>,
    names: Seq<Seq<char>>,
)
    ensures
        exposes(prune_items(items, names), name) == exposes_avoiding(items, name, names),
    decreases items,
{
    if items.len() > 0 {
        lemma_prune_item_exposes(items[0], name, names);
        lemma_prune_exposes(items.drop_first(), name, names);
        assert(prune_items(items, names)[0] == prune_item(items[0], names));
        assert(prune_items(items, names).drop_first() =~= prune_items(items.drop_first(), names));
    }
}

/// `lemma_prune_exposes`, for one item.
pub proof fn lemma_prune_item_exposes(
    it: SourceItemModel,
    name: Seq<char>,
    names: Seq<Seq<char>>,
)
    ensures
        item_exposes(prune_item(it, names), name) == item_exposes_avoiding(it, name, names),
    decreases it,
{
    match it {
        SourceItemModel::Namespace(n) => {
            match n.body {
                Option::Some(b) => {
                    lemma_prune_exposes(b, name, names);
                },
                Option::None => {},
            }
        },
        _ => {},
    }
}

/// Whether the items of a source document expose a declaration of the
/// given name.
pub fn exposes_name(items: &Vec<SourceItem>, name: &String) -> (r: bool)
    ensures
        r == exposes(items_model(items@), name@),
    decreases items@,
{
    proof {
        lemma_items_model(items@);
    }
    let ghost m = items_model(items@);
    proof {
        assert(m.skip(0) =~= m);
    }
    let mut i: usize = 0;
    while i < items.len()
        invariant
            i <= items@.len(),
            m == items_model(items@),
            m.len() == items@.len(),
            forall|j: int| 0 <= j < items@.len() ==> m[j] == #[trigger] items@[j].model(),
            exposes(m, name@) == exposes(m.skip(i as int), name@),
        decreases items@.len() - i,
    {
        proof {
            assert(m[i as int] == items@[i as int].model());
            assert(m.skip(i as int)[0] == m[i as int]);
            assert(m.skip(i as int).drop_first() =~= m.skip(i as int + 1));
        }
        let found = match &items[i] {
            SourceItem::Namespace(n) => {
                if !n.is_public {
                    false
                } else if string_eq(&n.name, name) {
                    true
                } else {
                    match &n.body {
                        Option::Some(b) => exposes_name(b, name),
                        Option::None => false,
                    }
                }
            },
            SourceItem::Interface(d) => d.is_public && string_eq(&d.name, name),
            SourceItem::Foreign(_) => false,
        };
        proof {
            assert(found == item_exposes(m[i as int], name@));
        }
        if found {
            return true;
        }
        i = i + 1;
    }
    proof {
        assert(m.skip(items@.len() as int) =~= Seq::<SourceItemModel>::empty());
    }
    false
}

// ---------------------------------------------------------------------------
// The versioned run
// ---------------------------------------------------------------------------

/// Mathematical model of a [`VersionRequest`].
#[verifier::ext_equal]
pub struct VersionRequestModel {
    pub version_name: Seq<char>,
    pub source: SourceFileModel,
}

/// One version of the interface: the namespace name the version's generated
/// code will live under, and the source document that declares the
/// version's shape of the interface.
pub struct VersionRequest {
    pub version_name: String,
    pub source: SourceFile,
}

impl VersionRequest {
    pub open spec fn model(self) -> VersionRequestModel {
        VersionRequestModel { version_name: self.version_name@, source: self.source.model() }
    }
}

impl View for VersionRequest {
    type V = VersionRequestModel;

    open spec fn view(&self) -> VersionRequestModel {
        self.model()
    }
}

/// The version-qualified alias under which a version's umbrella interface
/// is exposed.
pub open spec fn version_alias(name: Seq<char>, version: Seq<char>) -> Seq<char> {
    name + "_"@ + version
}

/// Two distinct version names give distinct version-qualified aliases, so
/// the versions' umbrella implementations can stand side by side.
pub proof fn lemma_version_alias_injective(name: Seq<char>, v1: Seq<char>, v2: Seq<char>)
    requires
        version_alias(name, v1) == version_alias(name, v2),
    ensures
        v1 == v2,
{
    let base = name + "_"@;
    assert(version_alias(name, v1).len() == base.len() + v1.len());
    assert(version_alias(name, v2).len() == base.len() + v2.len());
    assert forall|i: int| 0 <= i < v1.len() implies v1[i] == v2[i] by {
        assert(version_alias(name, v1)[base.len() + i] == v1[i]);
        assert(version_alias(name, v2)[base.len() + i] == v2[i]);
    }
    assert(v1 =~= v2);
}

/// Mathematical model of a [`VersionedOutput`].
#[verifier::ext_equal]
pub struct VersionedOutputModel {
    pub version_name: Seq<char>,
    pub alias: Seq<char>,
    pub pruned: Seq<SourceItemModel>,
    pub output: GenerationModel,
}

/// The result of one version's run: the version's namespace name, the
/// version-qualified alias, the pruned copy of the version's source
/// document, and the generated output.
pub struct VersionedOutput {
    pub version_name: String,
    pub alias: String,
    pub pruned: SourceFile,
    pub output: GenerationOutput,
}

impl VersionedOutput {
    pub open spec fn model(self) -> VersionedOutputModel {
        VersionedOutputModel {
            version_name: self.version_name@,
            alias: self.alias@,
            pruned: self.pruned.model().items,
            output: self.output.model(),
        }
    }
}

impl View for VersionedOutput {
    type V = VersionedOutputModel;

    open spec fn view(&self) -> VersionedOutputModel {
        self.model()
    }
}

/// What one version's run must produce, given the request, the shared
/// parameters, and the prune list.
pub open spec fn version_ok(
    req: VersionRequestModel,
    path: Seq<Seq<char>>,
    name: Seq<char>,
    entity: Seq<char>,
    chain: Seq<Seq<char>>,
    unrelated: Seq<Seq<char>>,
    out: VersionedOutputModel,
) -> bool {
    let pruned = prune_items(req.source.items, unrelated);
    let vchain = chain.push(req.version_name);
    &&& out.version_name == req.version_name
    &&& out.alias == version_alias(name, req.version_name)
    &&& out.pruned == pruned
    &&& match generate_decision(pruned, path, name) {
        Result::Ok(ms) => out.output == generation_model(
            resolve_in(pruned, path, name)->Ok_0,
            ms,
            entity,
            vchain,
        ),
        Result::Err(_) => false,
    }
}

/// The store contents after the runs of a sequence of versions, first to
/// last: each successful version's scaffold plan is materialized in order.
pub open spec fn versioned_store_model(
    s: Seq<ScaffoldFileModel>,
    versions: Seq<VersionRequestModel>,
    path: Seq<Seq<char>>,
    name: Seq<char>,
    entity: Seq<char>,
    chain: Seq<Seq<char>>,
    unrelated: Seq<Seq<char>>,
) -> Seq<ScaffoldFileModel>
    decreases versions.len(),
{
    if versions.len() == 0 {
        s
    } else {
        let prev = versioned_store_model(
            s,
            versions.drop_last(),
            path,
            name,
            entity,
            chain,
            unrelated,
        );
        let req = versions.last();
        let pruned = prune_items(req.source.items, unrelated);
        match generate_decision(pruned, path, name) {
            Result::Ok(ms) => materialize_seq(
                prev,
                scaffold_plan(ms, entity, chain.push(req.version_name)),
            ),
            Result::Err(_) => prev,
        }
    }
}

/// One version's run: prune the unrelated siblings out of the version's
/// source document, step into the version-named namespace, derive the
/// version-qualified alias, and run the full pipeline.
fn generate_one_version(
    req: &VersionRequest,
    path: &Vec<String>,
    interface_name: &String,
    entity: &EntityDecl,
    ctx: &NamespaceContext,
    unrelated: &Vec<String>,
    store: &mut ScaffoldStore,
) -> (r: Result<VersionedOutput, GenError>)
    ensures
        match r {
            Result::Ok(out) => {
                &&& version_ok(
                    req@,
                    path.deep_view(),
                    interface_name@,
                    entity@,
                    ctx@,
                    unrelated.deep_view(),
                    out@,
                )
                &&& final(store)@ == (match generate_decision(
                    prune_items(req@.source.items, unrelated.deep_view()),
                    path.deep_view(),
                    interface_name@,
                ) {
                    Result::Ok(ms) => materialize_seq(
                        old(store)@,
                        scaffold_plan(ms, entity@, ctx@.push(req@.version_name)),
                    ),
                    Result::Err(_) => old(store)@,
                })
            },
            Result::Err(e) => {
                &&& generate_decision(
                    prune_items(req@.source.items, unrelated.deep_view()),
                    path.deep_view(),
                    interface_name@,
                ) == Result::Err::<Seq<MemberModel>, GenErrorModel>(e@)
                &&& final(store)@ == old(store)@
            },
        },
{
    let pruned = prune_file(&req.source, unrelated);

    // The version's own namespace context: one level below the invocation
    // site, inside the version-named namespace.
    let mut chain = clone_strings(&ctx.chain);
    chain.push(req.version_name.clone());
    let vctx = NamespaceContext { chain };
    proof {
        assert(vctx@ =~= ctx@.push(req.version_name@));
    }

    // The version-qualified alias of the umbrella interface.
    let mut alias = interface_name.clone();
    alias.append("_");
    alias.append(req.version_name.as_str());

    let output = match generate(&pruned, path, interface_name, entity, &vctx, store) {
        Result::Ok(o) => o,
        Result::Err(e) => {
            return Result::Err(e);
        },
    };
    Result::Ok(
        VersionedOutput { version_name: req.version_name.clone(), alias, pruned, output },
    )
}

/// Runs the full pipeline once per version inside a version-named
/// sub-namespace of the invocation context, pruning the unrelated sibling
/// namespaces from each version's source document first.
///
/// Succeeds when every version's run succeeds, with one output per version
/// in order.  Fails with the first version's fatal error otherwise; the
/// scaffold units of the versions that had already succeeded stay in the
/// store, as harmless placeholders.
pub fn generate_versioned(
    versions: &Vec<VersionRequest>,
    path: &Vec<String>,
    interface_name: &String,
    entity: &EntityDecl,
    ctx: &NamespaceContext,
    unrelated: &Vec<String>,
    store: &mut ScaffoldStore,
) -> (r: Result<Vec<VersionedOutput>, GenError>)
    ensures
        match r {
            Result::Ok(outs) => {
                &&& outs@.len() == versions@.len()
                &&& forall|i: int|
                    0 <= i < versions@.len() ==> version_ok(
                        #[trigger] versions@[i].model(),
                        path.deep_view(),
                        interface_name@,
                        entity@,
                        ctx@,
                        unrelated.deep_view(),
                        outs@[i].model(),
                    )
                &&& final(store)@ == versioned_store_model(
                    old(store)@,
                    versions@.map_values(|v: VersionRequest| v.model()),
                    path.deep_view(),
                    interface_name@,
                    entity@,
                    ctx@,
                    unrelated.deep_view(),
                )
            },
            Result::Err(e) => exists|k: int|
                {
                    &&& 0 <= k < versions@.len()
                    &&& generate_decision(
                        prune_items(
                            #[trigger] versions@[k].model().source.items,
                            unrelated.deep_view(),
                        ),
                        path.deep_view(),
                        interface_name@,
                    ) == Result::Err::<Seq<MemberModel>, GenErrorModel>(e@)
                    &&& forall|i: int|
                        0 <= i < k ==> generate_decision(
                            prune_items(
                                #[trigger] versions@[i].model().source.items,
                                unrelated.deep_view(),
                            ),
                            path.deep_view(),
                            interface_name@,
                        ) is Ok
                    &&& final(store)@ == versioned_store_model(
                        old(store)@,
                        versions@.map_values(|v: VersionRequest| v.model()).take(k),
                        path.deep_view(),
                        interface_name@,
                        entity@,
                        ctx@,
                        unrelated.deep_view(),
                    )
                },
        },
{
    let ghost reqs = versions@.map_values(|v: VersionRequest| v.model());
    let ghost store0 = store@;
    let mut outs: Vec<VersionedOutput> = Vec::new();
    proof {
        assert(reqs.take(0) =~= Seq::<VersionRequestModel>::empty());
    }
    for k in 0..versions.len()
        invariant
            reqs == versions@.map_values(|v: VersionRequest| v.model()),
            reqs.len() == versions@.len(),
            store0 == old(store)@,
            outs@.len() == k,
            forall|i: int|
                0 <= i < k ==> version_ok(
                    #[trigger] versions@[i].model(),
                    path.deep_view(),
                    interface_name@,
                    entity@,
                    ctx@,
                    unrelated.deep_view(),
                    outs@[i].model(),
                ),
            forall|i: int|
                0 <= i < k ==> generate_decision(
                    prune_items(
                        #[trigger] versions@[i].model().source.items,
                        unrelated.deep_view(),
                    ),
                    path.deep_view(),
                    interface_name@,
                ) is Ok,
            store@ == versioned_store_model(
                store0,
                reqs.take(k as int),
                path.deep_view(),
                interface_name@,
                entity@,
                ctx@,
                unrelated.deep_view(),
            ),
    {
        proof {
            assert(reqs[k as int] == versions@[k as int].model());
            assert(reqs.take(k as int + 1).drop_last() =~= reqs.take(k as int));
            assert(reqs.take(k as int + 1).last() == reqs[k as int]);
        }
        let out = match generate_one_version(
            &versions[k],
            path,
            interface_name,
            entity,
            ctx,
            unrelated,
            store,
        ) {
            Result::Ok(o) => o,
            Result::Err(e) => {
                proof {
                    assert(generate_decision(
                        prune_items(
                            versions@[k as int].model().source.items,
                            unrelated.deep_view(),
                        ),
                        path.deep_view(),
                        interface_name@,
                    ) == Result::Err::<Seq<MemberModel>, GenErrorModel>(e@));
                }
                return Result::Err(e);
            },
        };
        let ghost outs0 = outs@;
        outs.push(out);
        proof {
            assert forall|i: int| 0 <= i < k + 1 implies version_ok(
                #[trigger] versions@[i].model(),
                path.deep_view(),
                interface_name@,
                entity@,
                ctx@,
                unrelated.deep_view(),
                outs@[i].model(),
            ) by {
                if i < k {
                    assert(outs@[i] == outs0[i]);
                }
            }
        }
    }
    proof {
        assert(reqs.take(versions@.len() as int) =~= reqs);
    }
    Result::Ok(outs)
}

} // verus!
