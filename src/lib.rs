//! Verified core of an immediate-mode inspection protocol: scalar edit
//! policies, hierarchical widget identities, per-frame user input keyed by
//! identity, and the `Inspectable` contract with its leaf and composite kinds.

pub mod scalar;
pub mod context;
pub mod input;
pub mod attributes;
pub mod inspect;
pub mod math;
pub mod transform;
pub mod color;
pub mod material;
pub mod light;
