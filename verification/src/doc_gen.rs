//! What every page needs to know of a type: its name, and whether it has a
//! page of its own.

use crate::type_generator::TypeGenerator;
use vstd::prelude::*;

verus! {

/// The name `type_def` is shown under.
pub fn get_type_name(type_def: &TypeGenerator) -> (name: &String)
    ensures
        name@ == type_def@.shown_name(),
{
    match type_def {
        TypeGenerator::Record(record) => &record.name,
        TypeGenerator::Enum(e) => &e.name,
    }
}

/// Whether the members of `type_def` are shown on the index page.
pub fn type_should_be_inlined(type_def: &TypeGenerator) -> (r: bool)
    ensures
        r == type_def@.is_inlined(),
{
    match type_def {
        TypeGenerator::Record(record) => record.should_be_inlined,
        TypeGenerator::Enum(_) => false,
    }
}

} // verus!
