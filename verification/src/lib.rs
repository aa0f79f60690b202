pub mod encounter;
pub mod gender;
pub mod label;
pub mod random;
pub mod settings;
pub mod species;

pub use crate::encounter::wildmon;
pub use crate::gender::Gender;
pub use crate::gender::RATIO_UNIT;
pub use crate::label::format_label;
pub use crate::random::FixedSource;
pub use crate::random::RandomSource;
pub use crate::random::StdSource;
pub use crate::settings::WildmonSettings;
pub use crate::species::Species;
pub use crate::species::SpeciesTag;
pub use crate::species::MISSINGNO;
