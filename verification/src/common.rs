//! Reading what the user types.
use vstd::prelude::*;
use crate::text::{trim, spec_trim};

verus! {

/// A choice the user made.
pub enum Select {
    Input(i32),
}

/// The address the user typed on `line`: the line without its surrounding
/// white space.
pub fn input_url(line: &str) -> (r: String)
    ensures
        r@ == spec_trim(line@),
{
    trim(line)
}

} // verus!
