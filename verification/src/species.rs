use vstd::prelude::*;
use crate::gender::Gender;

verus! {

/// The name used wherever a species or a whole catalog has nothing better
/// to offer: for a species without names, and as the whole result when the
/// catalog is empty.
pub const MISSINGNO: &'static str = "Missingno.";

/// One catalog entry: its display names (the first is canonical), its
/// declared gender distribution, and the tags marking eligibility for
/// special forms. An entry should have at least one name; one without any
/// falls back to the sentinel name.
#[derive(Debug, PartialEq)]
pub struct Species {
    pub names: Vec<String>,
    pub gender: Gender,
    pub tags: Vec<SpeciesTag>,
}

/// Tags indicating a species is eligible for certain specific modifiers.
#[derive(Copy, Clone, Debug, PartialEq, Eq, Structural)]
pub enum SpeciesTag {
    Mega,
    MegaXY,
    AlolaForm,
}

/// The name a species is displayed under: its first name, or the sentinel
/// name when it has none.
pub open spec fn display_name(s: Species) -> Seq<char> {
    if s.names@.len() > 0 {
        s.names@[0]@
    } else {
        "Missingno."@
    }
}

} // verus!
