//! The generation pipeline: resolve, classify, name, scaffold, synthesize.
//!
//! One generation run locates the interface declaration at the requested
//! namespace path, classifies its members, derives every capability name
//! (failing on a collision), idempotently materializes one scaffold unit
//! per member, and synthesizes the per-method capability interfaces, the
//! relocated copy of the interface, and the delegation block.  Every
//! failure is fatal; nothing is materialized on a failed run.

use vstd::prelude::*;

use crate::capability::{
    capability_interface_model, synthesize_capability, CapabilityInterface,
    CapabilityInterfaceModel,
};
use crate::classify::{classify_members, classify_model};
use crate::delegate::{delegation_model, synthesize_delegation, DelegationBlock};
use crate::model::{
    member_decls_model, members_model, EntityDecl, GenError, GenErrorModel, InterfaceDecl,
    InterfaceModel, Member, MemberDecl, MemberDeclModel, MemberModel, NamespaceContext, SourceFile,
    SourceItemModel,
};
use crate::naming::{canonical_name, capability_name, first_collision, first_dup_name};
use crate::resolve::{resolve_in, resolve_interface};
use crate::rewrite::{context_placement, placement_of, qualify_member, qualify_member_decl, Placement};
use crate::scaffold::{
    materialize_model, scaffold_content_model, scaffold_path, ScaffoldFileModel, ScaffoldStore,
};

verus! {

broadcast use vstd::std_specs::vec::group_vec_axioms;

/// The decision of one generation run: the classified members when
/// resolution and classification succeed and no two members canonicalize to
/// the same capability name, and the first fatal error otherwise.
pub open spec fn generate_decision(
    items: Seq<SourceItemModel>,
    path: Seq<Seq<char>>,
    name: Seq<char>,
) -> Result<Seq<MemberModel>, GenErrorModel> {
    match resolve_in(items, path, name) {
        Result::Ok(ifm) => match classify_model(ifm.members) {
            Result::Ok(ms) => match first_dup_name(ms) {
                Option::Some(n) => Result::Err(GenErrorModel::NameCollision(n)),
                Option::None => Result::Ok(ms),
            },
            Result::Err(e) => Result::Err(e),
        },
        Result::Err(e) => Result::Err(e),
    }
}

/// The capability names of the members, in member order.
pub open spec fn capability_names_plan(ms: Seq<MemberModel>) -> Seq<Seq<char>> {
    ms.map_values(|m: MemberModel| canonical_name(m))
}

/// The scaffold units of the members, in member order: one unit per member
/// at its deterministic path.
pub open spec fn scaffold_plan(
    ms: Seq<MemberModel>,
    entity: Seq<char>,
    chain: Seq<Seq<char>>,
) -> Seq<ScaffoldFileModel> {
    ms.map_values(
        |m: MemberModel|
            ScaffoldFileModel {
                path: scaffold_path(chain, canonical_name(m)),
                entity: entity,
                content: scaffold_content_model(m, placement_of(chain)),
            },
    )
}

/// Create-if-absent materialization of a sequence of units, first to last.
pub open spec fn materialize_seq(
    s: Seq<ScaffoldFileModel>,
    files: Seq<ScaffoldFileModel>,
) -> Seq<ScaffoldFileModel>
    decreases files.len(),
{
    if files.len() == 0 {
        s
    } else {
        materialize_model(materialize_seq(s, files.drop_last()), files.last())
    }
}

/// The capability interfaces of the members: one per method member, in
/// member order.
pub open spec fn capability_plan(ms: Seq<MemberModel>) -> Seq<CapabilityInterfaceModel>
    decreases ms.len(),
{
    if ms.len() == 0 {
        Seq::empty()
    } else {
        capability_plan(ms.drop_last()) + (match ms.last() {
            MemberModel::Method(s) => seq![capability_interface_model(canonical_name(ms.last()), s)],
            _ => Seq::empty(),
        })
    }
}

/// The relocated copy of the interface declaration: the same name and
/// visibility, every member's self-references rewritten for the placement.
pub open spec fn relocated_interface_model(
    ifm: InterfaceModel,
    ms: Seq<MemberModel>,
    p: Placement,
) -> InterfaceModel {
    InterfaceModel {
        name: ifm.name,
        is_public: ifm.is_public,
        members: ms.map_values(
            |m: MemberModel| MemberDeclModel::Supported(qualify_member(m, p)),
        ),
    }
}

/// Mathematical model of a [`GenerationOutput`].
#[verifier::ext_equal]
pub struct GenerationModel {
    pub interface: InterfaceModel,
    pub capability_names: Seq<Seq<char>>,
    pub capabilities: Seq<CapabilityInterfaceModel>,
    pub delegation: crate::delegate::DelegationBlockModel,
}

/// Everything one successful generation run produces from the classified
/// members of the resolved interface.
pub open spec fn generation_model(
    ifm: InterfaceModel,
    ms: Seq<MemberModel>,
    entity: Seq<char>,
    chain: Seq<Seq<char>>,
) -> GenerationModel {
    GenerationModel {
        interface: relocated_interface_model(ifm, ms, placement_of(chain)),
        capability_names: capability_names_plan(ms),
        capabilities: capability_plan(ms),
        delegation: delegation_model(ifm.name, entity, ms, capability_names_plan(ms)),
    }
}

/// The generated output of one run: the relocated interface copy, the
/// capability name of each member, the per-method capability interfaces,
/// and the delegation block.  The scaffold units land in the store the run
/// was given.
pub struct GenerationOutput {
    pub interface: InterfaceDecl,
    pub capability_names: Vec<String>,
    pub capabilities: Vec<CapabilityInterface>,
    pub delegation: DelegationBlock,
}

impl GenerationOutput {
    pub open spec fn model(self) -> GenerationModel {
        GenerationModel {
            interface: self.interface.model(),
            capability_names: self.capability_names.deep_view(),
            capabilities: self.capabilities@.map_values(|c: CapabilityInterface| c.model()),
            delegation: self.delegation.model(),
        }
    }
}

impl View for GenerationOutput {
    type V = GenerationModel;

    open spec fn view(&self) -> GenerationModel {
        self.model()
    }
}

/// One full generation run.
///
/// Succeeds exactly when the interface resolves at the path, every member
/// classifies into a supported kind, and all capability names are distinct;
/// the output and the store's new units are then determined by the
/// classified members, the entity and the namespace context.  Fails with
/// the first fatal error otherwise, leaving the store untouched.
pub fn generate(
    file: &SourceFile,
    path: &Vec<String>,
    interface_name: &String,
    entity: &EntityDecl,
    ctx: &NamespaceContext,
    store: &mut ScaffoldStore,
) -> (r: Result<GenerationOutput, GenError>)
    ensures
        match r {
            Result::Ok(out) => {
                &&& generate_decision(file@.items, path.deep_view(), interface_name@) matches
                    Result::Ok(ms) && {
                    &&& out@ == generation_model(
                        resolve_in(file@.items, path.deep_view(), interface_name@)->Ok_0,
                        ms,
                        entity@,
                        ctx@,
                    )
                    &&& final(store)@ == materialize_seq(
                        old(store)@,
                        scaffold_plan(ms, entity@, ctx@),
                    )
                }
            },
            Result::Err(e) => {
                &&& generate_decision(file@.items, path.deep_view(), interface_name@)
                    == Result::Err::<Seq<MemberModel>, GenErrorModel>(e@)
                &&& final(store)@ == old(store)@
            },
        },
{
    let decl = match resolve_interface(file, path, interface_name) {
        Result::Ok(d) => d,
        Result::Err(e) => {
            return Result::Err(e);
        },
    };
    let ghost ifm = decl@;
    let mems = match classify_members(&decl.members) {
        Result::Ok(v) => v,
        Result::Err(e) => {
            return Result::Err(e);
        },
    };
    let ghost ms = members_model(mems@);
    match first_collision(&mems) {
        Option::Some(n) => {
            return Result::Err(GenError::NameCollision(n));
        },
        Option::None => {},
    }

    // Capability names, one per member, in member order.
    let mut names: Vec<String> = Vec::new();
    for i in 0..mems.len()
        invariant
            ms == members_model(mems@),
            ms.len() == mems@.len(),
            names@.len() == i,
            forall|j: int| 0 <= j < i ==> names@[j]@ == canonical_name(ms[j]),
    {
        proof {
            assert(ms[i as int] == mems@[i as int].model());
        }
        names.push(capability_name(&mems[i]));
    }

    // Scaffold units, created only where absent.
    let ghost plan = scaffold_plan(ms, entity@, ctx@);
    let ghost store0 = store@;
    proof {
        assert(plan.take(0) =~= Seq::<ScaffoldFileModel>::empty());
    }
    for i in 0..mems.len()
        invariant
            ms == members_model(mems@),
            ms.len() == mems@.len(),
            names@.len() == mems@.len(),
            forall|j: int| 0 <= j < mems@.len() ==> names@[j]@ == canonical_name(ms[j]),
            plan == scaffold_plan(ms, entity@, ctx@),
            plan.len() == ms.len(),
            store@ == materialize_seq(store0, plan.take(i as int)),
    {
        proof {
            assert(ms[i as int] == mems@[i as int].model());
            assert(plan[i as int] == ScaffoldFileModel {
                path: scaffold_path(ctx@, canonical_name(ms[i as int])),
                entity: entity@,
                content: scaffold_content_model(ms[i as int], placement_of(ctx@)),
            });
        }
        let _ = store.materialize(&names[i], entity, &mems[i], ctx);
        proof {
            assert(plan.take(i as int + 1).drop_last() =~= plan.take(i as int));
            assert(plan.take(i as int + 1).last() == plan[i as int]);
        }
    }
    proof {
        assert(plan.take(ms.len() as int) =~= plan);
    }

    // Capability interfaces, one per method member.
    let mut caps: Vec<CapabilityInterface> = Vec::new();
    for i in 0..mems.len()
        invariant
            ms == members_model(mems@),
            ms.len() == mems@.len(),
            names@.len() == mems@.len(),
            forall|j: int| 0 <= j < mems@.len() ==> names@[j]@ == canonical_name(ms[j]),
            caps@.map_values(|c: CapabilityInterface| c.model()) == capability_plan(
                ms.take(i as int),
            ),
    {
        proof {
            assert(ms[i as int] == mems@[i as int].model());
            assert(ms.take(i as int + 1).drop_last() =~= ms.take(i as int));
            assert(ms.take(i as int + 1).last() == ms[i as int]);
        }
        let ghost caps0 = caps@;
        match &mems[i] {
            Member::Method(s) => {
                caps.push(synthesize_capability(&names[i], s));
                proof {
                    assert(caps@.map_values(|c: CapabilityInterface| c.model()) =~= capability_plan(
                        ms.take(i as int + 1),
                    ));
                }
            },
            _ => {
                proof {
                    assert(caps@.map_values(|c: CapabilityInterface| c.model()) =~= capability_plan(
                        ms.take(i as int + 1),
                    ));
                }
            },
        }
    }
    proof {
        assert(ms.take(ms.len() as int) =~= ms);
    }

    // The delegation block.
    let delegation = synthesize_delegation(&decl.name, entity, &mems, &names);

    // The relocated copy of the interface declaration.
    let placement = context_placement(ctx);
    let mut relocated: Vec<MemberDecl> = Vec::new();
    for i in 0..mems.len()
        invariant
            ms == members_model(mems@),
            ms.len() == mems@.len(),
            relocated@.len() == i,
            forall|j: int|
                0 <= j < i ==> member_decls_model(relocated@)[j] == MemberDeclModel::Supported(
                    qualify_member(ms[j], placement_of(ctx@)),
                ),
            placement == placement_of(ctx@),
    {
        proof {
            assert(ms[i as int] == mems@[i as int].model());
        }
        let ghost rel0 = relocated@;
        relocated.push(MemberDecl::Supported(qualify_member_decl(&mems[i], placement)));
        proof {
            assert forall|j: int| 0 <= j < i + 1 implies member_decls_model(relocated@)[j]
                == MemberDeclModel::Supported(qualify_member(ms[j], placement_of(ctx@))) by {
                assert(member_decls_model(relocated@)[j] == relocated@[j].model());
                if j < i {
                    assert(relocated@[j] == rel0[j]);
                    assert(member_decls_model(rel0)[j] == rel0[j].model());
                }
            }
        }
    }
    let interface = InterfaceDecl {
        name: decl.name.clone(),
        is_public: decl.is_public,
        members: relocated,
    };

    let out = GenerationOutput { interface, capability_names: names, capabilities: caps, delegation };
    proof {
        let gm = generation_model(ifm, ms, entity@, ctx@);
        assert(out@.interface.members =~= gm.interface.members);
        assert(out@.interface =~= gm.interface);
        assert(out@.capability_names =~= gm.capability_names);
        assert(out@ =~= gm);
    }
    Result::Ok(out)
}


/// Two capability names that give the same scaffold path under one context
/// are the same name.
pub proof fn lemma_scaffold_path_injective(chain: Seq<Seq<char>>, c1: Seq<char>, c2: Seq<char>)
    requires
        scaffold_path(chain, c1) == scaffold_path(chain, c2),
    ensures
        c1 == c2,
{
    let d = crate::scaffold::joined_dirs(chain);
    assert(scaffold_path(chain, c1).len() == scaffold_path(chain, c2).len());
    assert(scaffold_path(chain, c1).len() == d.len() + c1.len() + ".rs"@.len());
    assert(scaffold_path(chain, c2).len() == d.len() + c2.len() + ".rs"@.len());
    assert(c1.len() == c2.len());
    assert forall|i: int| 0 <= i < c1.len() implies c1[i] == c2[i] by {
        assert(scaffold_path(chain, c1)[d.len() + i] == c1[i]);
        assert(scaffold_path(chain, c2)[d.len() + i] == c2[i]);
    }
    assert(c1 =~= c2);
}

/// Completeness of one generation run: for every classified member there is
/// exactly one capability name, exactly one scaffold unit — at a path no
/// other member's unit shares — and exactly one entry of the delegation
/// block, each at the member's own position; no member is silently dropped.
pub proof fn lemma_generation_complete(
    ifm: InterfaceModel,
    ms: Seq<MemberModel>,
    entity: Seq<char>,
    chain: Seq<Seq<char>>,
)
    requires
        first_dup_name(ms) is None,
    ensures
        capability_names_plan(ms).len() == ms.len(),
        scaffold_plan(ms, entity, chain).len() == ms.len(),
        generation_model(ifm, ms, entity, chain).delegation.entries.len() == ms.len(),
        forall|i: int|
            0 <= i < ms.len() ==> {
                &&& capability_names_plan(ms)[i] == canonical_name(#[trigger] ms[i])
                &&& scaffold_plan(ms, entity, chain)[i].path == scaffold_path(
                    chain,
                    canonical_name(ms[i]),
                )
                &&& generation_model(ifm, ms, entity, chain).delegation.entries[i]
                    == crate::delegate::delegation_entry_model(ms[i], canonical_name(ms[i]))
            },
        forall|i: int, j: int|
            0 <= i < j < ms.len() ==> #[trigger] scaffold_plan(ms, entity, chain)[i].path
                != #[trigger] scaffold_plan(ms, entity, chain)[j].path,
{
    crate::naming::lemma_no_collision_distinct(ms);
    assert forall|i: int, j: int| 0 <= i < j < ms.len() implies #[trigger] scaffold_plan(
        ms,
        entity,
        chain,
    )[i].path != #[trigger] scaffold_plan(ms, entity, chain)[j].path by {
        assert(canonical_name(ms[i]) != canonical_name(ms[j]));
        if scaffold_plan(ms, entity, chain)[i].path == scaffold_plan(ms, entity, chain)[j].path {
            lemma_scaffold_path_injective(chain, canonical_name(ms[i]), canonical_name(ms[j]));
        }
    }
}

} // verus!
