//! The capability interface synthesizer.
//!
//! For every method member, a minimal single-member interface — the
//! capability — is synthesized.  The capability is named after the member's
//! canonical capability name, and its sole member is the method with
//! self-references rewritten to resolve relative to the capability's own
//! generated module, which lives one namespace level below the declarations
//! it refers to.  The capability is what a scaffold unit's implementation is
//! checked against, so each method can be developed and checked in
//! isolation from the rest of the interface.

use vstd::prelude::*;

use crate::model::{MethodModel, MethodSig};
use crate::rewrite::{qualify_method, qualify_method_sig, Placement};

verus! {

/// Mathematical model of a [`CapabilityInterface`].
#[verifier::ext_equal]
pub struct CapabilityInterfaceModel {
    pub name: Seq<char>,
    pub method: MethodModel,
}

/// A synthesized single-member interface: the capability of one method.
/// Holding exactly one method is part of the type.
pub struct CapabilityInterface {
    pub name: String,
    pub method: MethodSig,
}

impl CapabilityInterface {
    pub open spec fn model(self) -> CapabilityInterfaceModel {
        CapabilityInterfaceModel { name: self.name@, method: self.method.model() }
    }
}

impl View for CapabilityInterface {
    type V = CapabilityInterfaceModel;

    open spec fn view(&self) -> CapabilityInterfaceModel {
        self.model()
    }
}

/// The capability interface of a method: named by the capability name, with
/// the method's self-references rewritten for the capability's own module.
pub open spec fn capability_interface_model(
    cap_name: Seq<char>,
    m: MethodModel,
) -> CapabilityInterfaceModel {
    CapabilityInterfaceModel { name: cap_name, method: qualify_method(m, Placement::Nested) }
}

/// Synthesizes the capability interface of one method member.
pub fn synthesize_capability(cap_name: &String, m: &MethodSig) -> (r: CapabilityInterface)
    ensures
        r@ == capability_interface_model(cap_name@, m@),
{
    CapabilityInterface {
        name: cap_name.clone(),
        method: qualify_method_sig(m, Placement::Nested),
    }
}

} // verus!
