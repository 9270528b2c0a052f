//! The delegation synthesizer.
//!
//! The delegation block is the one implementation of the umbrella interface
//! for the target entity.  It is pure glue: every method body is exactly a
//! forwarding call to the same-named method reached through the member's
//! capability, with the argument order preserved and a suspend-capable
//! method forwarded with its suspension qualifier intact; every associated
//! type and every associated constant aliases the capability's generated
//! declaration.  All behavior lives in the scaffold units; the block only
//! reassembles them into something satisfying the original interface.

use vstd::prelude::*;

use crate::model::{EntityDecl, Member, MemberModel};

verus! {

broadcast use vstd::std_specs::vec::group_vec_axioms;

/// Mathematical model of a [`DelegationEntry`].
#[verifier::ext_equal]
pub enum DelegationEntryModel {
    /// `method` forwards to the same-named method of `capability`, passing
    /// `args` in order; `suspends` carries the suspension qualifier.
    ForwardCall { method: Seq<char>, capability: Seq<char>, args: Seq<Seq<char>>, suspends: bool },
    /// The associated type `name` aliases the declaration of `capability`.
    TypeAlias { name: Seq<char>, capability: Seq<char> },
    /// The associated constant `name` aliases the declaration of
    /// `capability`.
    ConstAlias { name: Seq<char>, capability: Seq<char> },
}

/// One entry of the delegation block.
pub enum DelegationEntry {
    ForwardCall { method: String, capability: String, args: Vec<String>, suspends: bool },
    TypeAlias { name: String, capability: String },
    ConstAlias { name: String, capability: String },
}

impl DelegationEntry {
    pub open spec fn model(self) -> DelegationEntryModel {
        match self {
            DelegationEntry::ForwardCall { method, capability, args, suspends } =>
                DelegationEntryModel::ForwardCall {
                method: method@,
                capability: capability@,
                args: args.deep_view(),
                suspends,
            },
            DelegationEntry::TypeAlias { name, capability } => DelegationEntryModel::TypeAlias {
                name: name@,
                capability: capability@,
            },
            DelegationEntry::ConstAlias { name, capability } => DelegationEntryModel::ConstAlias {
                name: name@,
                capability: capability@,
            },
        }
    }
}

impl View for DelegationEntry {
    type V = DelegationEntryModel;

    open spec fn view(&self) -> DelegationEntryModel {
        self.model()
    }
}

/// The delegation entry of one member: a forwarding call for a method (the
/// arguments are the parameter names in declaration order), an alias for an
/// associated type or constant.
pub open spec fn delegation_entry_model(m: MemberModel, cap: Seq<char>) -> DelegationEntryModel {
    match m {
        MemberModel::Method(s) => DelegationEntryModel::ForwardCall {
            method: s.name,
            capability: cap,
            args: s.params.map_values(|p: crate::model::ParamModel| p.name),
            suspends: s.may_suspend,
        },
        MemberModel::AssociatedType(t) => DelegationEntryModel::TypeAlias {
            name: t.name,
            capability: cap,
        },
        MemberModel::AssociatedConstant(c) => DelegationEntryModel::ConstAlias {
            name: c.name,
            capability: cap,
        },
    }
}

/// Mathematical model of a [`DelegationBlock`].
#[verifier::ext_equal]
pub struct DelegationBlockModel {
    pub interface_name: Seq<char>,
    pub entity: Seq<char>,
    pub entries: Seq<DelegationEntryModel>,
}

/// The synthesized implementation of the umbrella interface for the target
/// entity: one entry per member, in member order.
pub struct DelegationBlock {
    pub interface_name: String,
    pub entity: String,
    pub entries: Vec<DelegationEntry>,
}

impl DelegationBlock {
    pub open spec fn model(self) -> DelegationBlockModel {
        DelegationBlockModel {
            interface_name: self.interface_name@,
            entity: self.entity@,
            entries: self.entries@.map_values(|e: DelegationEntry| e.model()),
        }
    }
}

impl View for DelegationBlock {
    type V = DelegationBlockModel;

    open spec fn view(&self) -> DelegationBlockModel {
        self.model()
    }
}

/// The delegation block of a member list: one entry per member, in order,
/// each forwarding to the member's capability.
pub open spec fn delegation_model(
    interface_name: Seq<char>,
    entity: Seq<char>,
    members: Seq<MemberModel>,
    caps: Seq<Seq<char>>,
) -> DelegationBlockModel {
    DelegationBlockModel {
        interface_name,
        entity,
        entries: Seq::new(members.len(), |i: int| delegation_entry_model(members[i], caps[i])),
    }
}

/// The delegation entry of one member.
pub fn delegation_entry(m: &Member, cap: &String) -> (r: DelegationEntry)
    ensures
        r@ == delegation_entry_model(m@, cap@),
{
    match m {
        Member::Method(s) => {
            let mut args: Vec<String> = Vec::new();
            for i in 0..s.params.len()
                invariant
                    args@.len() == i,
                    forall|j: int| 0 <= j < i ==> args@[j]@ == s.params@[j].name@,
            {
                args.push(s.params[i].name.clone());
            }
            let r = DelegationEntry::ForwardCall {
                method: s.name.clone(),
                capability: cap.clone(),
                args,
                suspends: s.may_suspend,
            };
            proof {
                match r.model() {
                    DelegationEntryModel::ForwardCall { args: a, .. } => {
                        assert(a =~= s@.params.map_values(|p: crate::model::ParamModel| p.name));
                    },
                    _ => {},
                }
                assert(r@ =~= delegation_entry_model(m@, cap@));
            }
            r
        },
        Member::AssociatedType(t) => DelegationEntry::TypeAlias {
            name: t.name.clone(),
            capability: cap.clone(),
        },
        Member::AssociatedConstant(c) => DelegationEntry::ConstAlias {
            name: c.name.clone(),
            capability: cap.clone(),
        },
    }
}

/// Synthesizes the delegation block: exactly one entry per member, in
/// member order, each wired to the member's capability name.
pub fn synthesize_delegation(
    interface_name: &String,
    entity: &EntityDecl,
    members: &Vec<Member>,
    caps: &Vec<String>,
) -> (r: DelegationBlock)
    requires
        caps@.len() == members@.len(),
    ensures
        r@ == delegation_model(
            interface_name@,
            entity@,
            crate::model::members_model(members@),
            caps.deep_view(),
        ),
{
    let mut entries: Vec<DelegationEntry> = Vec::new();
    for i in 0..members.len()
        invariant
            caps@.len() == members@.len(),
            entries@.len() == i,
            forall|j: int|
                0 <= j < i ==> entries@[j].model() == delegation_entry_model(
                    members@[j].model(),
                    caps@[j]@,
                ),
    {
        entries.push(delegation_entry(&members[i], &caps[i]));
    }
    let r = DelegationBlock {
        interface_name: interface_name.clone(),
        entity: entity.name.clone(),
        entries,
    };
    proof {
        assert(r@.entries =~= delegation_model(
            interface_name@,
            entity@,
            crate::model::members_model(members@),
            caps.deep_view(),
        ).entries);
        assert(r@ =~= delegation_model(
            interface_name@,
            entity@,
            crate::model::members_model(members@),
            caps.deep_view(),
        ));
    }
    r
}

} // verus!
