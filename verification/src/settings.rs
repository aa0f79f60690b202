use vstd::prelude::*;
use crate::gender::Gender;

verus! {

/// Per-call configuration of the generator.
///
/// `canon` is accepted for interface compatibility but read nowhere by the
/// generation algorithm. `whitespace` decides whether spaces survive in the
/// label (when false, the default, they become underscores). `allow_genders`
/// lists the genders the caller accepts; empty means no restriction beyond
/// the default allowed set.
#[derive(Debug, Clone)]
pub struct WildmonSettings {
    pub canon: bool,
    pub whitespace: bool,
    pub allow_genders: Vec<Gender>,
}

impl Default for WildmonSettings {
    /// The defaults: canonical species allowed, spaces replaced by
    /// underscores, no gender restriction.
    fn default() -> (r: WildmonSettings)
        ensures
            r.canon == true,
            r.whitespace == false,
            r.allow_genders@ == Seq::<Gender>::empty(),
    {
        WildmonSettings { canon: true, whitespace: false, allow_genders: Vec::new() }
    }
}

impl WildmonSettings {
    /// Append one more gender to the accepted list.
    pub fn allow_gender(&mut self, gender: Gender)
        ensures
            final(self).allow_genders@ == old(self).allow_genders@.push(gender),
            final(self).canon == old(self).canon,
            final(self).whitespace == old(self).whitespace,
    {
        self.allow_genders.push(gender);
    }
}

} // verus!
