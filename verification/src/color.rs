//! The colour of an object.

use vstd::prelude::*;

verus! {

/// `termion::color::Rgb`, a colour of three eight-bit channels. The library
/// only carries such a value from an object to the cells that show it;
/// nothing is claimed of what it holds.
#[verifier::external_type_specification]
#[verifier::external_body]
pub struct ExRgb(termion::color::Rgb);

} // verus!
