//! Game-loop logic of a side-scrolling arcade game: a bird falls under
//! gravity, flaps on a press, and must stay clear of a ring of scrolling
//! pipe pairs and of the screen's vertical bounds.
//!
//! All quantities are integers in fixed steps (see `units`), so that every
//! rule of the loop can be stated and proved exactly.
use vstd::prelude::*;

pub mod units;
pub mod collision;
pub mod animation;
pub mod player;
pub mod scenery;
pub mod world;

verus! {

} // verus!
