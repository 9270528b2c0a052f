//! The self-type rewriter.
//!
//! A member signature written inside an interface declaration may refer to
//! the implementing entity through the self-marker.  When generated code is
//! relocated into a different namespace context, such a reference must be
//! re-qualified or it no longer resolves.  The rewriter walks every type
//! position of a signature and
//!
//! * qualifies a leading self-marker with the parent-namespace qualifier
//!   (code that will live one namespace level below the declaration site) or
//!   with the root qualifier (code that will live at the root), and
//! * in its second mode strips a leading parent-namespace qualifier when a
//!   previously-nested path is flattened into its new home.
//!
//! Only the first segment of a path is ever touched; interior segments are
//! never rewritten.  Qualifying is idempotent, and stripping undoes
//! qualifying (see [`lemma_qualify_strip_roundtrip`]).

use vstd::prelude::*;
use vstd::string::*;

use crate::model::{
    lemma_models_of, models_of, params_model, AssocConstDecl, AssocConstModel, AssocTypeDecl,
    AssocTypeModel, Member, MemberModel, MethodModel, MethodSig, Param, ParamModel, TyModel,
    TypeRef,
};
use crate::text::str_eq;

verus! {

broadcast use vstd::std_specs::vec::group_vec_axioms;

/// The canonical self-marker: the first path segment that denotes the
/// implementing entity's own type or associated items.
pub open spec fn self_marker() -> Seq<char> {
    "Self"@
}

/// The qualifier that names the parent namespace.
pub open spec fn parent_qualifier() -> Seq<char> {
    "super"@
}

/// The qualifier that names the root namespace.
pub open spec fn root_qualifier() -> Seq<char> {
    "crate"@
}

/// Where relocated code will live, relative to the declaration site of the
/// interface it was copied from.
#[derive(Clone, Copy)]
pub enum Placement {
    /// The generated code is inlined at the root namespace.
    Root,
    /// The generated code is inlined one namespace level below the
    /// declaration site.
    Nested,
}

/// The placement that a namespace context dictates: generated code inlined
/// inside at least one enclosing namespace lives one level below the
/// declarations it refers to; otherwise it lives at the root.
pub open spec fn placement_of(chain: Seq<Seq<char>>) -> Placement {
    if chain.len() == 0 {
        Placement::Root
    } else {
        Placement::Nested
    }
}

/// The placement dictated by a namespace context.
pub fn context_placement(ctx: &crate::model::NamespaceContext) -> (p: Placement)
    ensures
        p == placement_of(ctx@),
{
    if ctx.chain.len() == 0 {
        Placement::Root
    } else {
        Placement::Nested
    }
}

/// The qualifier a leading self-marker receives for a placement.
pub open spec fn qualifier_for(p: Placement) -> Seq<char> {
    match p {
        Placement::Root => root_qualifier(),
        Placement::Nested => parent_qualifier(),
    }
}

// ---------------------------------------------------------------------------
// Specification
// ---------------------------------------------------------------------------

/// Qualifying a path: when the first segment is the self-marker, the
/// qualifier for the placement is put in front of it; any other path is
/// left alone.  Interior segments are never touched.
pub open spec fn qualify_segments(segs: Seq<Seq<char>>, p: Placement) -> Seq<Seq<char>> {
    if segs.len() > 0 && segs[0] == self_marker() {
        seq![qualifier_for(p)] + segs
    } else {
        segs
    }
}

/// Stripping a path: a leading parent-namespace qualifier of a multi-segment
/// path is removed; any other path is left alone.
pub open spec fn strip_segments(segs: Seq<Seq<char>>) -> Seq<Seq<char>> {
    if segs.len() > 1 && segs[0] == parent_qualifier() {
        segs.drop_first()
    } else {
        segs
    }
}

/// Qualifying rewrite of a whole type reference, including every nested
/// generic argument.
pub open spec fn qualify_ty(t: TyModel, p: Placement) -> TyModel
    decreases t,
{
    TyModel { segments: qualify_segments(t.segments, p), args: qualify_ty_list(t.args, p) }
}

/// Qualifying rewrite of a list of type references, elementwise.
pub open spec fn qualify_ty_list(l: Seq<TyModel>, p: Placement) -> Seq<TyModel>
    decreases l,
{
    if l.len() == 0 {
        Seq::empty()
    } else {
        seq![qualify_ty(l[0], p)] + qualify_ty_list(l.drop_first(), p)
    }
}

/// Stripping rewrite of a whole type reference, including every nested
/// generic argument.
pub open spec fn strip_ty(t: TyModel) -> TyModel
    decreases t,
{
    TyModel { segments: strip_segments(t.segments), args: strip_ty_list(t.args) }
}

/// Stripping rewrite of a list of type references, elementwise.
pub open spec fn strip_ty_list(l: Seq<TyModel>) -> Seq<TyModel>
    decreases l,
{
    if l.len() == 0 {
        Seq::empty()
    } else {
        seq![strip_ty(l[0])] + strip_ty_list(l.drop_first())
    }
}

/// `qualify_ty_list` maps the list elementwise.
pub proof fn lemma_qualify_ty_list(l: Seq<TyModel>, p: Placement)
    ensures
        qualify_ty_list(l, p).len() == l.len(),
        forall|i: int| 0 <= i < l.len() ==> qualify_ty_list(l, p)[i] == qualify_ty(#[trigger] l[i], p),
    decreases l,
{
    if l.len() > 0 {
        lemma_qualify_ty_list(l.drop_first(), p);
        assert forall|i: int| 0 <= i < l.len() implies qualify_ty_list(l, p)[i] == qualify_ty(
            #[trigger] l[i],
            p,
        ) by {
            if i > 0 {
                assert(qualify_ty_list(l, p)[i] == qualify_ty_list(l.drop_first(), p)[i - 1]);
                assert(l.drop_first()[i - 1] == l[i]);
            }
        }
    }
}

/// `strip_ty_list` maps the list elementwise.
pub proof fn lemma_strip_ty_list(l: Seq<TyModel>)
    ensures
        strip_ty_list(l).len() == l.len(),
        forall|i: int| 0 <= i < l.len() ==> strip_ty_list(l)[i] == strip_ty(#[trigger] l[i]),
    decreases l,
{
    if l.len() > 0 {
        lemma_strip_ty_list(l.drop_first());
        assert forall|i: int| 0 <= i < l.len() implies strip_ty_list(l)[i] == strip_ty(
            #[trigger] l[i],
        ) by {
            if i > 0 {
                assert(strip_ty_list(l)[i] == strip_ty_list(l.drop_first())[i - 1]);
                assert(l.drop_first()[i - 1] == l[i]);
            }
        }
    }
}

/// The three distinguished spellings differ from one another.
pub proof fn lemma_markers_distinct()
    ensures
        self_marker() != parent_qualifier(),
        self_marker() != root_qualifier(),
        parent_qualifier() != root_qualifier(),
{
    reveal_strlit("Self");
    reveal_strlit("super");
    reveal_strlit("crate");
    assert(self_marker().len() == 4);
    assert(parent_qualifier().len() == 5);
    assert(root_qualifier().len() == 5);
    assert(parent_qualifier()[0] == 's');
    assert(root_qualifier()[0] == 'c');
}

/// Qualifying is idempotent: a second run never double-qualifies.
pub proof fn lemma_qualify_idempotent(t: TyModel, p: Placement)
    ensures
        qualify_ty(qualify_ty(t, p), p) == qualify_ty(t, p),
    decreases t,
{
    lemma_markers_distinct();
    let q = qualify_ty(t, p);
    assert(q.segments.len() > 0 ==> q.segments[0] != self_marker()) by {
        if t.segments.len() > 0 && t.segments[0] == self_marker() {
            assert(q.segments[0] == qualifier_for(p));
        }
    }
    lemma_qualify_list_idempotent(t.args, p);
    assert(qualify_ty(q, p) =~= q);
}

/// Elementwise idempotence over a list of type references.
pub proof fn lemma_qualify_list_idempotent(l: Seq<TyModel>, p: Placement)
    ensures
        qualify_ty_list(qualify_ty_list(l, p), p) == qualify_ty_list(l, p),
    decreases l,
{
    if l.len() > 0 {
        lemma_qualify_idempotent(l[0], p);
        lemma_qualify_list_idempotent(l.drop_first(), p);
        assert(qualify_ty_list(l, p).drop_first() =~= qualify_ty_list(l.drop_first(), p));
        assert(qualify_ty_list(qualify_ty_list(l, p), p) =~= qualify_ty_list(l, p));
    }
}

/// No path of the type reference starts with the parent-namespace qualifier
/// while having further segments.  Signatures as written at a declaration
/// site satisfy this; the rewriter's strip mode only acts on paths that the
/// qualifying mode (or the source itself) put a parent qualifier onto.
pub open spec fn parent_free(t: TyModel) -> bool
    decreases t,
{
    &&& (t.segments.len() > 1 ==> t.segments[0] != parent_qualifier())
    &&& parent_free_list(t.args)
}

/// `parent_free`, over a list of type references.
pub open spec fn parent_free_list(l: Seq<TyModel>) -> bool
    decreases l,
{
    l.len() == 0 || (parent_free(l[0]) && parent_free_list(l.drop_first()))
}

/// Rewriting a self-referential type for one level of nesting and then
/// stripping the parent qualifier back out yields the original type,
/// self-marker included.
pub proof fn lemma_qualify_strip_roundtrip(t: TyModel)
    requires
        parent_free(t),
    ensures
        strip_ty(qualify_ty(t, Placement::Nested)) == t,
    decreases t,
{
    lemma_markers_distinct();
    let q = qualify_ty(t, Placement::Nested);
    if t.segments.len() > 0 && t.segments[0] == self_marker() {
        assert(q.segments == seq![parent_qualifier()] + t.segments);
        assert(q.segments.drop_first() =~= t.segments);
    }
    lemma_qualify_strip_roundtrip_list(t.args);
    assert(strip_ty(q) =~= t);
}

/// Elementwise round trip over a list of type references.
pub proof fn lemma_qualify_strip_roundtrip_list(l: Seq<TyModel>)
    requires
        parent_free_list(l),
    ensures
        strip_ty_list(qualify_ty_list(l, Placement::Nested)) == l,
    decreases l,
{
    if l.len() > 0 {
        lemma_qualify_strip_roundtrip(l[0]);
        lemma_qualify_strip_roundtrip_list(l.drop_first());
        assert(qualify_ty_list(l, Placement::Nested).drop_first() =~= qualify_ty_list(
            l.drop_first(),
            Placement::Nested,
        ));
        assert(strip_ty_list(qualify_ty_list(l, Placement::Nested)) =~= l);
    }
}

// ---------------------------------------------------------------------------
// Executable rewriter
// ---------------------------------------------------------------------------

/// The spelling of the qualifier for a placement.
fn qualifier_str(p: Placement) -> (r: &'static str)
    ensures
        r@ == qualifier_for(p),
{
    match p {
        Placement::Root => "crate",
        Placement::Nested => "super",
    }
}

/// Qualifying rewrite of one type reference.
pub fn qualify_type_ref(t: &TypeRef, p: Placement) -> (r: TypeRef)
    ensures
        r@ == qualify_ty(t@, p),
    decreases *t,
{
    let mut segments: Vec<String> = Vec::new();
    if t.segments.len() > 0 && str_eq(t.segments[0].as_str(), "Self") {
        segments.push(String::from_str(qualifier_str(p)));
    }
    let base = segments.len();
    for i in 0..t.segments.len()
        invariant
            segments@.len() == base + i,
            base <= 1,
            forall|j: int| 0 <= j < base ==> segments@[j]@ == qualifier_for(p),
            forall|j: int| 0 <= j < i ==> segments@[base + j] == t.segments@[j],
    {
        segments.push(t.segments[i].clone());
    }
    let mut args: Vec<TypeRef> = Vec::new();
    for i in 0..t.args.len()
        invariant
            args@.len() == i,
            forall|j: int| 0 <= j < i ==> args@[j].model() == qualify_ty(t.args@[j].model(), p),
    {
        let a = qualify_type_ref(&t.args[i], p);
        args.push(a);
    }
    let r = TypeRef { segments, args };
    proof {
        lemma_models_of(t.args@);
        lemma_models_of(r.args@);
        lemma_qualify_ty_list(t@.args, p);
        assert forall|j: int| 0 <= j < t.args@.len() implies models_of(r.args@)[j]
            == qualify_ty_list(t@.args, p)[j] by {
            assert(models_of(t.args@)[j] == t.args@[j].model());
            assert(models_of(r.args@)[j] == r.args@[j].model());
            assert(r.args@[j].model() == qualify_ty(t.args@[j].model(), p));
        }
        assert(r@.args =~= qualify_ty_list(t@.args, p));
        assert(r@.segments =~= qualify_segments(t@.segments, p));
        assert(r@ =~= qualify_ty(t@, p));
    }
    r
}

/// Stripping rewrite of one type reference.
pub fn strip_type_ref(t: &TypeRef) -> (r: TypeRef)
    ensures
        r@ == strip_ty(t@),
    decreases *t,
{
    let drop_head = t.segments.len() > 1 && str_eq(t.segments[0].as_str(), "super");
    let start: usize = if drop_head {
        1
    } else {
        0
    };
    let mut segments: Vec<String> = Vec::new();
    for i in start..t.segments.len()
        invariant
            start <= t.segments@.len(),
            segments@.len() == i - start,
            forall|j: int| start <= j < i ==> segments@[j - start] == t.segments@[j],
    {
        segments.push(t.segments[i].clone());
    }
    let mut args: Vec<TypeRef> = Vec::new();
    for i in 0..t.args.len()
        invariant
            args@.len() == i,
            forall|j: int| 0 <= j < i ==> args@[j].model() == strip_ty(t.args@[j].model()),
    {
        let a = strip_type_ref(&t.args[i]);
        args.push(a);
    }
    let r = TypeRef { segments, args };
    proof {
        lemma_models_of(t.args@);
        lemma_models_of(r.args@);
        lemma_strip_ty_list(t@.args);
        assert forall|j: int| 0 <= j < t.args@.len() implies models_of(r.args@)[j]
            == strip_ty_list(t@.args)[j] by {
            assert(models_of(t.args@)[j] == t.args@[j].model());
            assert(models_of(r.args@)[j] == r.args@[j].model());
            assert(r.args@[j].model() == strip_ty(t.args@[j].model()));
        }
        assert(r@.args =~= strip_ty_list(t@.args));
        assert(r@.segments =~= strip_segments(t@.segments));
        assert(r@ =~= strip_ty(t@));
    }
    r
}


// ---------------------------------------------------------------------------
// Member-level rewriting
// ---------------------------------------------------------------------------

/// Qualifying rewrite of a parameter list, elementwise on the types.
pub open spec fn qualify_params(l: Seq<ParamModel>, p: Placement) -> Seq<ParamModel> {
    l.map_values(|pm: ParamModel| ParamModel { name: pm.name, ty: qualify_ty(pm.ty, p) })
}

/// Qualifying rewrite of a method signature: every type position is
/// rewritten; the name, the receiver and the qualifiers are preserved
/// verbatim.
pub open spec fn qualify_method(m: MethodModel, p: Placement) -> MethodModel {
    MethodModel {
        name: m.name,
        takes_receiver: m.takes_receiver,
        mutates_receiver: m.mutates_receiver,
        may_suspend: m.may_suspend,
        params: qualify_params(m.params, p),
        ret: match m.ret {
            Option::Some(t) => Option::Some(qualify_ty(t, p)),
            Option::None => Option::None,
        },
    }
}

/// Qualifying rewrite of an associated type declaration: the bound list is
/// rewritten, the name is preserved.
pub open spec fn qualify_assoc_type(t: AssocTypeModel, p: Placement) -> AssocTypeModel {
    AssocTypeModel { name: t.name, bounds: qualify_ty_list(t.bounds, p) }
}

/// Qualifying rewrite of an associated constant declaration: the declared
/// type is rewritten, the name is preserved.
pub open spec fn qualify_assoc_const(c: AssocConstModel, p: Placement) -> AssocConstModel {
    AssocConstModel { name: c.name, ty: qualify_ty(c.ty, p) }
}

/// Qualifying rewrite of a member of any supported kind.
pub open spec fn qualify_member(m: MemberModel, p: Placement) -> MemberModel {
    match m {
        MemberModel::Method(s) => MemberModel::Method(qualify_method(s, p)),
        MemberModel::AssociatedType(t) => MemberModel::AssociatedType(qualify_assoc_type(t, p)),
        MemberModel::AssociatedConstant(c) => MemberModel::AssociatedConstant(
            qualify_assoc_const(c, p),
        ),
    }
}

/// Qualifying rewrite of one parameter.
pub fn qualify_param(pm: &Param, p: Placement) -> (r: Param)
    ensures
        r@ == (ParamModel { name: pm@.name, ty: qualify_ty(pm@.ty, p) }),
{
    Param { name: pm.name.clone(), ty: qualify_type_ref(&pm.ty, p) }
}

/// Qualifying rewrite of one method signature.
pub fn qualify_method_sig(m: &MethodSig, p: Placement) -> (r: MethodSig)
    ensures
        r@ == qualify_method(m@, p),
{
    let mut params: Vec<Param> = Vec::new();
    for i in 0..m.params.len()
        invariant
            params@.len() == i,
            forall|j: int|
                0 <= j < i ==> params@[j].model() == (ParamModel {
                    name: m.params@[j].model().name,
                    ty: qualify_ty(m.params@[j].model().ty, p),
                }),
    {
        params.push(qualify_param(&m.params[i], p));
    }
    let ret = match &m.ret {
        Option::Some(t) => Option::Some(qualify_type_ref(t, p)),
        Option::None => Option::None,
    };
    let r = MethodSig {
        name: m.name.clone(),
        takes_receiver: m.takes_receiver,
        mutates_receiver: m.mutates_receiver,
        may_suspend: m.may_suspend,
        params,
        ret,
    };
    proof {
        assert(params_model(r.params@) =~= qualify_params(m@.params, p));
        assert(r@ =~= qualify_method(m@, p));
    }
    r
}

/// Qualifying rewrite of one associated type declaration.
pub fn qualify_assoc_type_decl(t: &AssocTypeDecl, p: Placement) -> (r: AssocTypeDecl)
    ensures
        r@ == qualify_assoc_type(t@, p),
{
    let mut bounds: Vec<TypeRef> = Vec::new();
    for i in 0..t.bounds.len()
        invariant
            bounds@.len() == i,
            forall|j: int|
                0 <= j < i ==> bounds@[j].model() == qualify_ty(t.bounds@[j].model(), p),
    {
        bounds.push(qualify_type_ref(&t.bounds[i], p));
    }
    let r = AssocTypeDecl { name: t.name.clone(), bounds };
    proof {
        lemma_models_of(t.bounds@);
        lemma_models_of(r.bounds@);
        lemma_qualify_ty_list(t@.bounds, p);
        assert forall|j: int| 0 <= j < t.bounds@.len() implies models_of(r.bounds@)[j]
            == qualify_ty_list(t@.bounds, p)[j] by {
            assert(models_of(t.bounds@)[j] == t.bounds@[j].model());
            assert(models_of(r.bounds@)[j] == r.bounds@[j].model());
        }
        assert(r@.bounds =~= qualify_ty_list(t@.bounds, p));
        assert(r@ =~= qualify_assoc_type(t@, p));
    }
    r
}

/// Qualifying rewrite of one associated constant declaration.
pub fn qualify_assoc_const_decl(c: &AssocConstDecl, p: Placement) -> (r: AssocConstDecl)
    ensures
        r@ == qualify_assoc_const(c@, p),
{
    AssocConstDecl { name: c.name.clone(), ty: qualify_type_ref(&c.ty, p) }
}

/// Qualifying rewrite of one member of any supported kind.
pub fn qualify_member_decl(m: &Member, p: Placement) -> (r: Member)
    ensures
        r@ == qualify_member(m@, p),
{
    match m {
        Member::Method(s) => Member::Method(qualify_method_sig(s, p)),
        Member::AssociatedType(t) => Member::AssociatedType(qualify_assoc_type_decl(t, p)),
        Member::AssociatedConstant(c) => Member::AssociatedConstant(qualify_assoc_const_decl(c, p)),
    }
}

} // verus!
