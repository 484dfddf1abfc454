//! The types of the windowing and UI libraries that the library hands to
//! the host as they are, and what is taken for granted of them.

use vstd::prelude::*;
use imgui::Condition;
use winit::dpi::PhysicalSize;

verus! {

/// winit's `PhysicalSize`, a size in physical pixels. It is a record of two
/// public fields, `width` and `height`, and is read as such.
#[verifier::external_type_specification]
#[verifier::reject_recursive_types(P)]
pub struct ExPhysicalSize<P>(PhysicalSize<P>);

/// imgui's `Condition`, which says when a window setting is applied. It is
/// a plain enum of five variants: `Never`, `Always`, `Once`, `FirstUseEver`
/// and `Appearing`.
#[verifier::external_type_specification]
pub struct ExCondition(Condition);

/// winit's `PhysicalSize::new` builds the record from its two arguments: the
/// first becomes the width, the second the height. This is taken from
/// winit's source and not proved here.
pub assume_specification<P>[ PhysicalSize::<P>::new ](width: P, height: P) -> (size:
    PhysicalSize<P>)
    ensures
        size.width == width,
        size.height == height,
;

} // verus!
