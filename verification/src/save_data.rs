use vstd::prelude::*;

verus! {

/// The persisted economy snapshot: currency, best score and the two
/// upgrade levels. Mirrors the live game after every change; the store
/// itself (a file) is an external collaborator that loads this snapshot at
/// startup and writes it back on demand.
#[derive(Clone, Copy, Debug, PartialEq, Eq, Structural)]
pub struct SaveData {
    pub satoshis: u32,
    pub high_score: u32,
    pub damage_level: u32,
    pub fire_rate_level: u32,
}

/// The snapshot a fresh or unreadable store yields: every counter zero.
pub open spec fn zeroed_save() -> SaveData {
    SaveData { satoshis: 0, high_score: 0, damage_level: 0, fire_rate_level: 0 }
}

impl SaveData {
    pub fn new() -> (s: SaveData)
        ensures
            s == zeroed_save(),
    {
        SaveData { satoshis: 0, high_score: 0, damage_level: 0, fire_rate_level: 0 }
    }

    /// What a load attempt yields: the snapshot that was read, or the
    /// zeroed defaults when the store was absent or could not be parsed.
    pub fn recover(loaded: Option<SaveData>) -> (s: SaveData)
        ensures
            loaded is Some ==> s == loaded->Some_0,
            loaded is None ==> s == zeroed_save(),
    {
        match loaded {
            Some(d) => d,
            None => SaveData::new(),
        }
    }
}

impl Default for SaveData {
    fn default() -> (s: Self)
        ensures
            s == zeroed_save(),
    {
        SaveData::new()
    }
}

} // verus!
