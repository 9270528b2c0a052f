//! The declaration-tree data model.
//!
//! The generator works on a small, language-independent declaration tree: a
//! source file is a sequence of items, an item is a namespace (with an
//! optional body of items), an interface declaration, or an opaque foreign
//! item carried along unmodified.  An interface has an ordered sequence of
//! member declarations; a member is a method signature, an associated type,
//! an associated constant, or an unsupported kind that the classifier
//! rejects.  Type references are qualified names with nested generic
//! arguments; the self-marker and the namespace qualifiers are ordinary
//! segments with distinguished spellings.
//!
//! Every executable type has a mathematical model (`…Model`) over `Seq`,
//! `Option` and `Seq<char>`, reached through the `View` trait, and all
//! contracts of the library speak of those models.

use vstd::prelude::*;

verus! {

broadcast use vstd::std_specs::vec::group_vec_axioms;

// ---------------------------------------------------------------------------
// Type references
// ---------------------------------------------------------------------------

/// Mathematical model of a [`TypeRef`]: a qualified name with nested
/// generic arguments.
#[verifier::ext_equal]
pub struct TyModel {
    pub segments: Seq<Seq<char>>,
    pub args: Seq<TyModel>,
}

/// A type reference in a member signature: a qualified path (one or more
/// identifier segments) followed by an optional list of generic arguments.
pub struct TypeRef {
    pub segments: Vec<String>,
    pub args: Vec<TypeRef>,
}

/// The mathematical values of a sequence of type references, in order.
pub open spec fn models_of(l: Seq<TypeRef>) -> Seq<TyModel>
    decreases l,
{
    if l.len() == 0 {
        Seq::empty()
    } else {
        seq![l[0].model()] + models_of(l.drop_first())
    }
}

impl TypeRef {
    /// The mathematical value of this type reference.
    pub open spec fn model(self) -> TyModel
        decreases self,
    {
        TyModel {
            segments: self.segments.deep_view(),
            args: models_of(self.args@),
        }
    }
}

impl View for TypeRef {
    type V = TyModel;

    open spec fn view(&self) -> TyModel {
        self.model()
    }
}

/// `models_of` maps the sequence elementwise.
pub proof fn lemma_models_of(l: Seq<TypeRef>)
    ensures
        models_of(l).len() == l.len(),
        forall|i: int| 0 <= i < l.len() ==> models_of(l)[i] == #[trigger] l[i].model(),
    decreases l,
{
    if l.len() > 0 {
        lemma_models_of(l.drop_first());
        assert forall|i: int| 0 <= i < l.len() implies models_of(l)[i] == #[trigger] l[i].model() by {
            if i > 0 {
                assert(models_of(l)[i] == models_of(l.drop_first())[i - 1]);
                assert(l.drop_first()[i - 1] == l[i]);
            }
        }
    }
}

// ---------------------------------------------------------------------------
// Members
// ---------------------------------------------------------------------------

/// Mathematical model of a [`Param`].
#[verifier::ext_equal]
pub struct ParamModel {
    pub name: Seq<char>,
    pub ty: TyModel,
}

/// A named method parameter.
pub struct Param {
    pub name: String,
    pub ty: TypeRef,
}

impl Param {
    pub open spec fn model(self) -> ParamModel {
        ParamModel { name: self.name@, ty: self.ty.model() }
    }
}

impl View for Param {
    type V = ParamModel;

    open spec fn view(&self) -> ParamModel {
        self.model()
    }
}

/// The mathematical values of a parameter list, in order.
pub open spec fn params_model(l: Seq<Param>) -> Seq<ParamModel> {
    l.map_values(|p: Param| p.model())
}

/// Mathematical model of a [`MethodSig`].
#[verifier::ext_equal]
pub struct MethodModel {
    pub name: Seq<char>,
    pub takes_receiver: bool,
    pub mutates_receiver: bool,
    pub may_suspend: bool,
    pub params: Seq<ParamModel>,
    pub ret: Option<TyModel>,
}

/// A method signature: name, receiver presence and mutability, the
/// suspension qualifier, the ordered parameter list, and an optional
/// return type.
pub struct MethodSig {
    pub name: String,
    pub takes_receiver: bool,
    pub mutates_receiver: bool,
    pub may_suspend: bool,
    pub params: Vec<Param>,
    pub ret: Option<TypeRef>,
}

impl MethodSig {
    pub open spec fn model(self) -> MethodModel {
        MethodModel {
            name: self.name@,
            takes_receiver: self.takes_receiver,
            mutates_receiver: self.mutates_receiver,
            may_suspend: self.may_suspend,
            params: params_model(self.params@),
            ret: match self.ret {
                Option::Some(t) => Option::Some(t.model()),
                Option::None => Option::None,
            },
        }
    }
}

impl View for MethodSig {
    type V = MethodModel;

    open spec fn view(&self) -> MethodModel {
        self.model()
    }
}

/// Mathematical model of an [`AssocTypeDecl`].
#[verifier::ext_equal]
pub struct AssocTypeModel {
    pub name: Seq<char>,
    pub bounds: Seq<TyModel>,
}

/// An associated type alias declaration with an optional trait-bound list.
pub struct AssocTypeDecl {
    pub name: String,
    pub bounds: Vec<TypeRef>,
}

impl AssocTypeDecl {
    pub open spec fn model(self) -> AssocTypeModel {
        AssocTypeModel { name: self.name@, bounds: models_of(self.bounds@) }
    }
}

impl View for AssocTypeDecl {
    type V = AssocTypeModel;

    open spec fn view(&self) -> AssocTypeModel {
        self.model()
    }
}

/// Mathematical model of an [`AssocConstDecl`].
#[verifier::ext_equal]
pub struct AssocConstModel {
    pub name: Seq<char>,
    pub ty: TyModel,
}

/// An associated constant declaration with its declared type.
pub struct AssocConstDecl {
    pub name: String,
    pub ty: TypeRef,
}

impl AssocConstDecl {
    pub open spec fn model(self) -> AssocConstModel {
        AssocConstModel { name: self.name@, ty: self.ty.model() }
    }
}

impl View for AssocConstDecl {
    type V = AssocConstModel;

    open spec fn view(&self) -> AssocConstModel {
        self.model()
    }
}

/// Mathematical model of a [`Member`].
#[verifier::ext_equal]
pub enum MemberModel {
    Method(MethodModel),
    AssociatedType(AssocTypeModel),
    AssociatedConstant(AssocConstModel),
}

/// A member of one of the three supported kinds.
pub enum Member {
    Method(MethodSig),
    AssociatedType(AssocTypeDecl),
    AssociatedConstant(AssocConstDecl),
}

impl Member {
    pub open spec fn model(self) -> MemberModel {
        match self {
            Member::Method(m) => MemberModel::Method(m.model()),
            Member::AssociatedType(t) => MemberModel::AssociatedType(t.model()),
            Member::AssociatedConstant(c) => MemberModel::AssociatedConstant(c.model()),
        }
    }

    /// The identifier of the member.
    pub open spec fn ident(self) -> Seq<char> {
        match self {
            Member::Method(m) => m.name@,
            Member::AssociatedType(t) => t.name@,
            Member::AssociatedConstant(c) => c.name@,
        }
    }
}

impl View for Member {
    type V = MemberModel;

    open spec fn view(&self) -> MemberModel {
        self.model()
    }
}

impl MemberModel {
    /// The identifier of the modelled member.
    pub open spec fn ident(self) -> Seq<char> {
        match self {
            MemberModel::Method(m) => m.name,
            MemberModel::AssociatedType(t) => t.name,
            MemberModel::AssociatedConstant(c) => c.name,
        }
    }
}

/// The mathematical values of a member list, in order.
pub open spec fn members_model(l: Seq<Member>) -> Seq<MemberModel> {
    l.map_values(|m: Member| m.model())
}

/// Mathematical model of a [`MemberDecl`].
#[verifier::ext_equal]
pub enum MemberDeclModel {
    Supported(MemberModel),
    Unsupported(Seq<char>),
}

/// A member declaration as read out of a source file: either one of the
/// three supported kinds, or an unsupported kind carrying a description
/// used in the rejection message.
pub enum MemberDecl {
    Supported(Member),
    Unsupported(String),
}

impl MemberDecl {
    pub open spec fn model(self) -> MemberDeclModel {
        match self {
            MemberDecl::Supported(m) => MemberDeclModel::Supported(m.model()),
            MemberDecl::Unsupported(d) => MemberDeclModel::Unsupported(d@),
        }
    }
}

impl View for MemberDecl {
    type V = MemberDeclModel;

    open spec fn view(&self) -> MemberDeclModel {
        self.model()
    }
}

/// The mathematical values of a member declaration list, in order.
pub open spec fn member_decls_model(l: Seq<MemberDecl>) -> Seq<MemberDeclModel> {
    l.map_values(|m: MemberDecl| m.model())
}

// ---------------------------------------------------------------------------
// Interfaces, namespaces, source files
// ---------------------------------------------------------------------------

/// Mathematical model of an [`InterfaceDecl`].
#[verifier::ext_equal]
pub struct InterfaceModel {
    pub name: Seq<char>,
    pub is_public: bool,
    pub members: Seq<MemberDeclModel>,
}

/// An interface declaration: a named, ordered collection of member
/// declarations.
pub struct InterfaceDecl {
    pub name: String,
    pub is_public: bool,
    pub members: Vec<MemberDecl>,
}

impl InterfaceDecl {
    pub open spec fn model(self) -> InterfaceModel {
        InterfaceModel {
            name: self.name@,
            is_public: self.is_public,
            members: member_decls_model(self.members@),
        }
    }
}

impl View for InterfaceDecl {
    type V = InterfaceModel;

    open spec fn view(&self) -> InterfaceModel {
        self.model()
    }
}

/// Mathematical model of a [`NamespaceDecl`].
#[verifier::ext_equal]
pub struct NamespaceModel {
    pub name: Seq<char>,
    pub is_public: bool,
    pub body: Option<Seq<SourceItemModel>>,
}

/// A namespace declaration.  A namespace may be declared without a body;
/// the resolver fails when asked to descend into one.
pub struct NamespaceDecl {
    pub name: String,
    pub is_public: bool,
    pub body: Option<Vec<SourceItem>>,
}

/// Mathematical model of a [`SourceItem`].
#[verifier::ext_equal]
pub enum SourceItemModel {
    Namespace(NamespaceModel),
    Interface(InterfaceModel),
    Foreign(Seq<char>),
}

/// One top-level or namespace-level item of a source file.  Items that the
/// generator does not interpret are carried as opaque foreign text.
pub enum SourceItem {
    Namespace(NamespaceDecl),
    Interface(InterfaceDecl),
    Foreign(String),
}

/// The mathematical values of an item list, in order.
pub open spec fn items_model(l: Seq<SourceItem>) -> Seq<SourceItemModel>
    decreases l,
{
    if l.len() == 0 {
        Seq::empty()
    } else {
        seq![l[0].model()] + items_model(l.drop_first())
    }
}

impl SourceItem {
    /// The mathematical value of this item.
    pub open spec fn model(self) -> SourceItemModel
        decreases self,
    {
        match self {
            SourceItem::Namespace(n) => SourceItemModel::Namespace(
                NamespaceModel {
                    name: n.name@,
                    is_public: n.is_public,
                    body: match n.body {
                        Option::Some(b) => Option::Some(items_model(b@)),
                        Option::None => Option::None,
                    },
                },
            ),
            SourceItem::Interface(d) => SourceItemModel::Interface(d.model()),
            SourceItem::Foreign(t) => SourceItemModel::Foreign(t@),
        }
    }
}

impl View for SourceItem {
    type V = SourceItemModel;

    open spec fn view(&self) -> SourceItemModel {
        self.model()
    }
}

impl NamespaceDecl {
    pub open spec fn model(self) -> NamespaceModel {
        NamespaceModel {
            name: self.name@,
            is_public: self.is_public,
            body: match self.body {
                Option::Some(b) => Option::Some(items_model(b@)),
                Option::None => Option::None,
            },
        }
    }
}

impl View for NamespaceDecl {
    type V = NamespaceModel;

    open spec fn view(&self) -> NamespaceModel {
        self.model()
    }
}

/// `items_model` maps the sequence elementwise.
pub proof fn lemma_items_model(l: Seq<SourceItem>)
    ensures
        items_model(l).len() == l.len(),
        forall|i: int| 0 <= i < l.len() ==> items_model(l)[i] == #[trigger] l[i].model(),
    decreases l,
{
    if l.len() > 0 {
        lemma_items_model(l.drop_first());
        assert forall|i: int| 0 <= i < l.len() implies items_model(l)[i] == #[trigger] l[i].model() by {
            if i > 0 {
                assert(items_model(l)[i] == items_model(l.drop_first())[i - 1]);
                assert(l.drop_first()[i - 1] == l[i]);
            }
        }
    }
}

/// Mathematical model of a [`SourceFile`].
#[verifier::ext_equal]
pub struct SourceFileModel {
    pub items: Seq<SourceItemModel>,
}

/// A parsed source file: the ordered items at its top level.
pub struct SourceFile {
    pub items: Vec<SourceItem>,
}

impl SourceFile {
    pub open spec fn model(self) -> SourceFileModel {
        SourceFileModel { items: items_model(self.items@) }
    }
}

impl View for SourceFile {
    type V = SourceFileModel;

    open spec fn view(&self) -> SourceFileModel {
        self.model()
    }
}

// ---------------------------------------------------------------------------
// Errors
// ---------------------------------------------------------------------------

/// Mathematical model of a [`GenError`].
#[verifier::ext_equal]
pub enum GenErrorModel {
    PathSegmentNotFound(Seq<char>),
    NamespaceEmpty(Seq<char>),
    InterfaceNotFound(Seq<char>),
    UnsupportedMember(Seq<char>),
    NameCollision(Seq<char>),
}

/// The generation-time error taxonomy.  Every error is fatal: the run
/// aborts, nothing is retried and nothing is downgraded to a warning.
#[derive(Debug)]
pub enum GenError {
    /// A namespace-path segment did not name a namespace at its level.
    PathSegmentNotFound(String),
    /// A traversed namespace was declared without a body.
    NamespaceEmpty(String),
    /// No interface of the requested name exists at the resolved location.
    InterfaceNotFound(String),
    /// A member declaration is of a kind outside the three supported ones.
    UnsupportedMember(String),
    /// Two members canonicalize to the same capability name.
    NameCollision(String),
}

impl GenError {
    pub open spec fn model(self) -> GenErrorModel {
        match self {
            GenError::PathSegmentNotFound(s) => GenErrorModel::PathSegmentNotFound(s@),
            GenError::NamespaceEmpty(s) => GenErrorModel::NamespaceEmpty(s@),
            GenError::InterfaceNotFound(s) => GenErrorModel::InterfaceNotFound(s@),
            GenError::UnsupportedMember(s) => GenErrorModel::UnsupportedMember(s@),
            GenError::NameCollision(s) => GenErrorModel::NameCollision(s@),
        }
    }

    /// The detail string carried by the error, for error reporting.
    pub fn detail(&self) -> (r: &String)
        ensures
            r@ == self.detail_chars(),
    {
        match self {
            GenError::PathSegmentNotFound(s) => s,
            GenError::NamespaceEmpty(s) => s,
            GenError::InterfaceNotFound(s) => s,
            GenError::UnsupportedMember(s) => s,
            GenError::NameCollision(s) => s,
        }
    }

    /// The detail string of the modelled error.
    pub open spec fn detail_chars(self) -> Seq<char> {
        match self {
            GenError::PathSegmentNotFound(s) => s@,
            GenError::NamespaceEmpty(s) => s@,
            GenError::InterfaceNotFound(s) => s@,
            GenError::UnsupportedMember(s) => s@,
            GenError::NameCollision(s) => s@,
        }
    }
}

impl View for GenError {
    type V = GenErrorModel;

    open spec fn view(&self) -> GenErrorModel {
        self.model()
    }
}

// ---------------------------------------------------------------------------
// Copying
// ---------------------------------------------------------------------------

/// A deep copy of a type reference with the same mathematical value.
fn copy_type_ref(t: &TypeRef) -> (r: TypeRef)
    ensures
        r@ == t@,
    decreases *t,
{
    let mut segments: Vec<String> = Vec::new();
    for i in 0..t.segments.len()
        invariant
            segments@.len() == i,
            forall|j: int| 0 <= j < i ==> segments@[j] == t.segments@[j],
    {
        segments.push(t.segments[i].clone());
    }
    let mut args: Vec<TypeRef> = Vec::new();
    for i in 0..t.args.len()
        invariant
            args@.len() == i,
            forall|j: int| 0 <= j < i ==> args@[j].model() == t.args@[j].model(),
    {
        let a = copy_type_ref(&t.args[i]);
        args.push(a);
    }
    let r = TypeRef { segments, args };
    proof {
        lemma_models_of(t.args@);
        lemma_models_of(r.args@);
        assert(r@.segments =~= t@.segments);
        assert forall|j: int| 0 <= j < t.args@.len() implies models_of(r.args@)[j]
            == models_of(t.args@)[j] by {
            assert(models_of(t.args@)[j] == t.args@[j].model());
            assert(models_of(r.args@)[j] == r.args@[j].model());
        }
        assert(r@.args =~= t@.args);
        assert(r@ =~= t@);
    }
    r
}

impl Clone for TypeRef {
    /// A deep copy with the same mathematical value.
    fn clone(&self) -> (r: Self)
        ensures
            r@ == self@,
    {
        copy_type_ref(self)
    }
}

impl Clone for Param {
    /// A copy with the same mathematical value.
    fn clone(&self) -> (r: Self)
        ensures
            r@ == self@,
    {
        Param { name: self.name.clone(), ty: self.ty.clone() }
    }
}

impl Clone for MethodSig {
    /// A copy with the same mathematical value.
    fn clone(&self) -> (r: Self)
        ensures
            r@ == self@,
    {
        let mut params: Vec<Param> = Vec::new();
        for i in 0..self.params.len()
            invariant
                params@.len() == i,
                forall|j: int| 0 <= j < i ==> params@[j].model() == self.params@[j].model(),
        {
            params.push(self.params[i].clone());
        }
        let ret = match &self.ret {
            Option::Some(t) => Option::Some(t.clone()),
            Option::None => Option::None,
        };
        let r = MethodSig {
            name: self.name.clone(),
            takes_receiver: self.takes_receiver,
            mutates_receiver: self.mutates_receiver,
            may_suspend: self.may_suspend,
            params,
            ret,
        };
        proof {
            assert(params_model(r.params@) =~= params_model(self.params@));
            assert(r@ =~= self@);
        }
        r
    }
}

impl Clone for AssocTypeDecl {
    /// A copy with the same mathematical value.
    fn clone(&self) -> (r: Self)
        ensures
            r@ == self@,
    {
        let mut bounds: Vec<TypeRef> = Vec::new();
        for i in 0..self.bounds.len()
            invariant
                bounds@.len() == i,
                forall|j: int| 0 <= j < i ==> bounds@[j].model() == self.bounds@[j].model(),
        {
            bounds.push(self.bounds[i].clone());
        }
        let r = AssocTypeDecl { name: self.name.clone(), bounds };
        proof {
            lemma_models_of(self.bounds@);
            lemma_models_of(r.bounds@);
            assert forall|j: int| 0 <= j < self.bounds@.len() implies models_of(r.bounds@)[j]
                == models_of(self.bounds@)[j] by {
                assert(models_of(self.bounds@)[j] == self.bounds@[j].model());
                assert(models_of(r.bounds@)[j] == r.bounds@[j].model());
            }
            assert(r@.bounds =~= self@.bounds);
            assert(r@ =~= self@);
        }
        r
    }
}

impl Clone for AssocConstDecl {
    /// A copy with the same mathematical value.
    fn clone(&self) -> (r: Self)
        ensures
            r@ == self@,
    {
        AssocConstDecl { name: self.name.clone(), ty: self.ty.clone() }
    }
}

impl Clone for Member {
    /// A copy with the same mathematical value.
    fn clone(&self) -> (r: Self)
        ensures
            r@ == self@,
    {
        match self {
            Member::Method(m) => Member::Method(m.clone()),
            Member::AssociatedType(t) => Member::AssociatedType(t.clone()),
            Member::AssociatedConstant(c) => Member::AssociatedConstant(c.clone()),
        }
    }
}

impl Clone for MemberDecl {
    /// A copy with the same mathematical value.
    fn clone(&self) -> (r: Self)
        ensures
            r@ == self@,
    {
        match self {
            MemberDecl::Supported(m) => MemberDecl::Supported(m.clone()),
            MemberDecl::Unsupported(d) => MemberDecl::Unsupported(d.clone()),
        }
    }
}

impl Clone for InterfaceDecl {
    /// A copy with the same mathematical value.
    fn clone(&self) -> (r: Self)
        ensures
            r@ == self@,
    {
        let mut members: Vec<MemberDecl> = Vec::new();
        for i in 0..self.members.len()
            invariant
                members@.len() == i,
                forall|j: int| 0 <= j < i ==> members@[j].model() == self.members@[j].model(),
        {
            members.push(self.members[i].clone());
        }
        let r = InterfaceDecl { name: self.name.clone(), is_public: self.is_public, members };
        proof {
            assert(member_decls_model(r.members@) =~= member_decls_model(self.members@));
            assert(r@ =~= self@);
        }
        r
    }
}


// ---------------------------------------------------------------------------
// Entity and namespace context
// ---------------------------------------------------------------------------

/// The target entity declaration: the name of the type that the generated
/// capability implementations and the delegation block are for.  The
/// entity's own body is not interpreted by the generator; it stays with the
/// host program and is re-emitted verbatim.
pub struct EntityDecl {
    pub name: String,
}

impl View for EntityDecl {
    type V = Seq<char>;

    open spec fn view(&self) -> Seq<char> {
        self.name@
    }
}

/// The chain of enclosing namespace names from the root to the point where
/// generated code will be inlined.  It determines how self-references are
/// qualified and where scaffold units are placed.  Derived fresh per
/// generation run from the invocation site; never persisted.
pub struct NamespaceContext {
    pub chain: Vec<String>,
}

impl View for NamespaceContext {
    type V = Seq<Seq<char>>;

    open spec fn view(&self) -> Seq<Seq<char>> {
        self.chain.deep_view()
    }
}

} // verus!
