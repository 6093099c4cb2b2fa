use vstd::prelude::*;

verus! {

/// Forgemagie item category.
#[derive(Debug, Clone, Copy, PartialEq, Eq, Structural)]
pub enum ItemCategory {
    Weapon,
    Hat,
    Cloak,
    Belt,
    Boots,
    Ring,
    Amulet,
    Shield,
    Dofus,
    Trophy,
    Pet,
    PetMount,
    Mount,
}

/// Rune tier (Ba, Pa, Ra).
#[derive(Debug, Clone, Copy, PartialEq, Eq, Structural)]
pub enum RuneTier {
    Ba,
    Pa,
    Ra,
}

/// Outcome of applying a rune.
#[derive(Debug, Clone, Copy, PartialEq, Eq, Structural)]
pub enum RuneOutcome {
    CriticalSuccess,
    Success,
    NeutralFailure,
    Failure,
    CriticalFailure,
}

/// Localized string returned by the DofusDB API.
#[derive(Debug, Clone)]
pub struct LocalizedString {
    pub fr: String,
    pub en: String,
    pub es: String,
    pub pt: String,
    pub de: String,
    pub it: String,
}

/// Generic paginated response from DofusDB.
#[derive(Debug, Clone)]
pub struct DofusDbPaginatedResponse<T> {
    pub data: Vec<T>,
    pub total: u64,
    pub skip: u64,
    pub limit: u64,
}

/// API error from DofusDB.
#[derive(Debug, Clone)]
pub struct DofusDbApiError {
    pub code: u32,
    pub message: String,
    pub details: Option<String>,
}

} // verus!
