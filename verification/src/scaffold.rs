//! The scaffold generator.
//!
//! Every capability gets one scaffold unit: a placeholder implementation
//! meant to be completed by hand.  A method member scaffolds to an
//! implementation of the target entity whose body is solely the
//! unimplemented marker with a fixed placeholder message, with the
//! signature's qualifiers preserved verbatim and its self-references
//! rewritten for the namespace context; an associated type scaffolds to a
//! type alias bound to the placeholder marker; an associated constant
//! scaffolds to a constant of the (rewritten) declared type bound to the
//! placeholder marker.
//!
//! Materialization is create-if-absent: the existence check on the derived
//! path is the sole idempotence guard.  An already-present unit is never
//! overwritten, diffed or merged, so hand-written completions survive every
//! later run.

use vstd::prelude::*;
use vstd::string::*;

use crate::model::{
    AssocConstDecl, AssocConstModel, EntityDecl, Member, MemberModel, MethodModel, MethodSig,
    NamespaceContext,
};
use crate::rewrite::{
    placement_of, context_placement, qualify_assoc_const, qualify_method, qualify_method_sig,
    qualify_assoc_const_decl, Placement,
};
use crate::text::string_eq;

verus! {

broadcast use vstd::std_specs::vec::group_vec_axioms;

/// The fixed message carried by every unimplemented marker in a scaffold
/// unit.
pub open spec fn placeholder_message() -> Seq<char> {
    "replace this generated placeholder with a hand-written implementation"@
}

/// The fixed message carried by every unimplemented marker, as a string
/// slice.
pub fn placeholder_message_str() -> (r: &'static str)
    ensures
        r@ == placeholder_message(),
{
    "replace this generated placeholder with a hand-written implementation"
}

/// Mathematical model of a [`ScaffoldContent`].
#[verifier::ext_equal]
pub enum ScaffoldContentModel {
    /// An implementation of the capability for the target entity whose body
    /// is solely the unimplemented marker.
    MethodStub(MethodModel),
    /// A type alias bound to the placeholder marker.
    TypeAlias(Seq<char>),
    /// A constant of the declared type bound to the placeholder marker.
    ConstStub(AssocConstModel),
}

/// The content of one scaffold unit.  The placeholder message inside every
/// stub body is always [`placeholder_message`]; it is not repeated here.
pub enum ScaffoldContent {
    MethodStub(MethodSig),
    TypeAlias(String),
    ConstStub(AssocConstDecl),
}

impl ScaffoldContent {
    pub open spec fn model(self) -> ScaffoldContentModel {
        match self {
            ScaffoldContent::MethodStub(m) => ScaffoldContentModel::MethodStub(m.model()),
            ScaffoldContent::TypeAlias(n) => ScaffoldContentModel::TypeAlias(n@),
            ScaffoldContent::ConstStub(c) => ScaffoldContentModel::ConstStub(c.model()),
        }
    }
}

impl View for ScaffoldContent {
    type V = ScaffoldContentModel;

    open spec fn view(&self) -> ScaffoldContentModel {
        self.model()
    }
}

/// The scaffold content of a member: the signature rewritten for the
/// placement, the qualifiers preserved verbatim.
pub open spec fn scaffold_content_model(m: MemberModel, p: Placement) -> ScaffoldContentModel {
    match m {
        MemberModel::Method(s) => ScaffoldContentModel::MethodStub(qualify_method(s, p)),
        MemberModel::AssociatedType(t) => ScaffoldContentModel::TypeAlias(t.name),
        MemberModel::AssociatedConstant(c) => ScaffoldContentModel::ConstStub(
            qualify_assoc_const(c, p),
        ),
    }
}

/// Builds the scaffold content of a member for a placement.
pub fn scaffold_content(m: &Member, p: Placement) -> (r: ScaffoldContent)
    ensures
        r@ == scaffold_content_model(m@, p),
{
    match m {
        Member::Method(s) => ScaffoldContent::MethodStub(qualify_method_sig(s, p)),
        Member::AssociatedType(t) => ScaffoldContent::TypeAlias(t.name.clone()),
        Member::AssociatedConstant(c) => ScaffoldContent::ConstStub(qualify_assoc_const_decl(c, p)),
    }
}

// ---------------------------------------------------------------------------
// Paths
// ---------------------------------------------------------------------------

/// The namespace chain joined into a directory prefix, one separator after
/// each segment.
pub open spec fn joined_dirs(chain: Seq<Seq<char>>) -> Seq<char>
    decreases chain.len(),
{
    if chain.len() == 0 {
        Seq::empty()
    } else {
        chain[0] + "/"@ + joined_dirs(chain.drop_first())
    }
}

/// The deterministic scaffold path of a capability: the namespace chain as
/// directories, then the capability name as the file stem.
pub open spec fn scaffold_path(chain: Seq<Seq<char>>, cap: Seq<char>) -> Seq<char> {
    joined_dirs(chain) + cap + ".rs"@
}

/// Appending a segment to the chain appends it to the joined prefix.
proof fn lemma_joined_dirs_push(chain: Seq<Seq<char>>, x: Seq<char>)
    ensures
        joined_dirs(chain.push(x)) == joined_dirs(chain) + x + "/"@,
    decreases chain.len(),
{
    if chain.len() == 0 {
        reveal_with_fuel(joined_dirs, 2);
        assert(chain.push(x)[0] == x);
        assert(chain.push(x).drop_first() =~= Seq::<Seq<char>>::empty());
        assert(joined_dirs(chain.push(x)) =~= joined_dirs(chain) + x + "/"@);
    } else {
        lemma_joined_dirs_push(chain.drop_first(), x);
        assert(chain.push(x)[0] == chain[0]);
        assert(chain.push(x).drop_first() =~= chain.drop_first().push(x));
        assert(joined_dirs(chain.push(x)) =~= joined_dirs(chain) + x + "/"@);
    }
}

/// Builds the deterministic scaffold path of a capability name under a
/// namespace context.
pub fn build_scaffold_path(ctx: &NamespaceContext, cap: &String) -> (r: String)
    ensures
        r@ == scaffold_path(ctx@, cap@),
{
    let mut path = String::new();
    proof {
        assert(ctx@.take(0) =~= Seq::<Seq<char>>::empty());
        assert(path@ =~= joined_dirs(ctx@.take(0)));
    }
    for i in 0..ctx.chain.len()
        invariant
            ctx@.len() == ctx.chain@.len(),
            path@ == joined_dirs(ctx@.take(i as int)),
    {
        path.append(ctx.chain[i].as_str());
        path.append("/");
        proof {
            lemma_joined_dirs_push(ctx@.take(i as int), ctx@[i as int]);
            assert(ctx@.take(i as int).push(ctx@[i as int]) =~= ctx@.take(i as int + 1));
        }
    }
    proof {
        assert(ctx@.take(ctx.chain@.len() as int) =~= ctx@);
    }
    path.append(cap.as_str());
    path.append(".rs");
    path
}

// ---------------------------------------------------------------------------
// The store
// ---------------------------------------------------------------------------

/// Mathematical model of a [`ScaffoldFile`].
#[verifier::ext_equal]
pub struct ScaffoldFileModel {
    pub path: Seq<char>,
    pub entity: Seq<char>,
    pub content: ScaffoldContentModel,
}

/// One materialized scaffold unit: its deterministic path, the target
/// entity it implements for, and its generated content.
pub struct ScaffoldFile {
    pub path: String,
    pub entity: String,
    pub content: ScaffoldContent,
}

impl ScaffoldFile {
    pub open spec fn model(self) -> ScaffoldFileModel {
        ScaffoldFileModel { path: self.path@, entity: self.entity@, content: self.content.model() }
    }
}

impl View for ScaffoldFile {
    type V = ScaffoldFileModel;

    open spec fn view(&self) -> ScaffoldFileModel {
        self.model()
    }
}

/// A unit exists at the path.
pub open spec fn contains_path(s: Seq<ScaffoldFileModel>, path: Seq<char>) -> bool {
    exists|i: int| 0 <= i < s.len() && #[trigger] s[i].path == path
}

/// All units sit at pairwise distinct paths.
pub open spec fn distinct_paths(s: Seq<ScaffoldFileModel>) -> bool {
    forall|i: int, j: int| 0 <= i < j < s.len() ==> #[trigger] s[i].path != #[trigger] s[j].path
}

/// Create-if-absent materialization: when a unit already exists at the
/// file's path the store is left exactly as it is — the existing unit's
/// content is never touched — and only otherwise is the file appended.
pub open spec fn materialize_model(
    s: Seq<ScaffoldFileModel>,
    f: ScaffoldFileModel,
) -> Seq<ScaffoldFileModel> {
    if contains_path(s, f.path) {
        s
    } else {
        s.push(f)
    }
}

/// Materializing a capability twice is the same as materializing it once:
/// the second run finds the path present and changes nothing, so an
/// existing unit's content stays stable across runs.
pub proof fn lemma_materialize_idempotent(s: Seq<ScaffoldFileModel>, f: ScaffoldFileModel)
    ensures
        materialize_model(materialize_model(s, f), f) == materialize_model(s, f),
{
    if !contains_path(s, f.path) {
        assert(s.push(f)[s.len() as int].path == f.path);
        assert(contains_path(s.push(f), f.path));
    }
}

/// Materialization never modifies a unit that is already in the store.
pub proof fn lemma_materialize_preserves(s: Seq<ScaffoldFileModel>, f: ScaffoldFileModel)
    ensures
        materialize_model(s, f).len() >= s.len(),
        forall|i: int| 0 <= i < s.len() ==> materialize_model(s, f)[i] == s[i],
{
}

/// The set of materialized scaffold units of one generation run, in
/// creation order.  The host program persists each unit to the file system;
/// the create-if-absent discipline lives here.
pub struct ScaffoldStore {
    pub files: Vec<ScaffoldFile>,
}

impl View for ScaffoldStore {
    type V = Seq<ScaffoldFileModel>;

    open spec fn view(&self) -> Seq<ScaffoldFileModel> {
        self.model()
    }
}

impl ScaffoldStore {
    pub open spec fn model(self) -> Seq<ScaffoldFileModel> {
        self.files@.map_values(|f: ScaffoldFile| f.model())
    }

    /// An empty store.
    pub fn new() -> (r: ScaffoldStore)
        ensures
            r@ == Seq::<ScaffoldFileModel>::empty(),
    {
        let r = ScaffoldStore { files: Vec::new() };
        proof {
            assert(r@ =~= Seq::<ScaffoldFileModel>::empty());
        }
        r
    }

    /// The number of units in the store.
    pub fn len(&self) -> (r: usize)
        ensures
            r == self@.len(),
    {
        self.files.len()
    }

    /// Whether a unit exists at the path.
    pub fn exists_at(&self, path: &String) -> (r: bool)
        ensures
            r == contains_path(self@, path@),
    {
        let mut i: usize = 0;
        while i < self.files.len()
            invariant
                i <= self.files@.len(),
                self@.len() == self.files@.len(),
                forall|j: int| 0 <= j < i ==> #[trigger] self@[j].path != path@,
            decreases self.files@.len() - i,
        {
            proof {
                assert(self@[i as int] == self.files@[i as int].model());
            }
            if string_eq(&self.files[i].path, path) {
                proof {
                    assert(self@[i as int].path == path@);
                }
                return true;
            }
            i = i + 1;
        }
        false
    }

    /// Materializes the scaffold unit of one member: derives the
    /// deterministic path from the capability name and the namespace
    /// context, and creates the unit only if no unit exists at that path.
    /// Returns whether a unit was created.  An existing unit is never
    /// modified.
    pub fn materialize(
        &mut self,
        cap_name: &String,
        entity: &EntityDecl,
        member: &Member,
        ctx: &NamespaceContext,
    ) -> (created: bool)
        ensures
            final(self)@ == materialize_model(
                old(self)@,
                ScaffoldFileModel {
                    path: scaffold_path(ctx@, cap_name@),
                    entity: entity@,
                    content: scaffold_content_model(member@, placement_of(ctx@)),
                },
            ),
            created == !contains_path(old(self)@, scaffold_path(ctx@, cap_name@)),
            distinct_paths(old(self)@) ==> distinct_paths(final(self)@),
    {
        let path = build_scaffold_path(ctx, cap_name);
        if self.exists_at(&path) {
            return false;
        }
        let placement = context_placement(ctx);
        let content = scaffold_content(member, placement);
        let file = ScaffoldFile { path, entity: entity.name.clone(), content };
        let ghost before = self@;
        let ghost fm = file@;
        self.files.push(file);
        proof {
            assert(self@ =~= before.push(fm));
            assert forall|i: int, j: int|
                0 <= i < j < self@.len() && distinct_paths(before) implies self@[i].path
                != self@[j].path by {
                if j < before.len() {
                } else {
                    assert(self@[j] == fm);
                    assert(!contains_path(before, fm.path));
                    assert(self@[i] == before[i]);
                }
            }
        }
        true
    }
}

} // verus!
