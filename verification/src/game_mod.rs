//! The unified mod record that every service hands to its callers.

use vstd::prelude::*;

verus! {

/// The mathematical content of a `GameMod`: its five fields as
/// character sequences.
pub ghost struct GameModModel {
    pub id: Seq<char>,
    pub name: Seq<char>,
    pub service: Seq<char>,
    pub author: Seq<char>,
    pub version: Seq<char>,
}

/// One mod, normalised across providers. `version` holds the literal
/// `"N/A"` when the provider reported none.
#[derive(Debug, Clone)]
pub struct GameMod {
    pub id: String,
    pub name: String,
    pub service: String,
    pub author: String,
    pub version: String,
}

impl View for GameMod {
    type V = GameModModel;

    open spec fn view(&self) -> GameModModel {
        GameModModel {
            id: self.id@,
            name: self.name@,
            service: self.service@,
            author: self.author@,
            version: self.version@,
        }
    }
}

/// The models of a sequence of mods.
pub open spec fn mods_view(v: Seq<GameMod>) -> Seq<GameModModel> {
    v.map_values(|m: GameMod| m@)
}

} // verus!
