//! The capability a mod provider offers. The surrounding shell performs
//! the HTTP requests; it asks a service which endpoint to fetch, hands the
//! fetched document back, and gets normalised records.

use vstd::prelude::*;
use crate::error::ServiceError;
use crate::game_mod::GameMod;
use crate::game_mod::GameModModel;
use crate::game_mod::mods_view;
use crate::json::JsonValue;

verus! {

/// A provider of mod listings. Each implementation states in its spec
/// functions exactly what it answers for every document; the exec methods
/// are bound to those answers.
pub trait Service {
    /// The provider's declared name.
    spec fn spec_name(&self) -> Seq<char>;

    /// The collection endpoint whose document `get_mods` decodes.
    spec fn spec_mods_url(&self) -> Seq<char>;

    /// The per-item endpoint, for the item under `id`, whose document
    /// `get_mod` decodes.
    spec fn spec_mod_url(&self, id: Seq<char>) -> Seq<char>;

    /// What `get_mods` answers for the document `body`.
    spec fn spec_mods(&self, body: JsonValue) -> Result<Seq<GameModModel>, ServiceError>;

    /// What `get_mod` answers for the document `body`.
    spec fn spec_mod(&self, body: JsonValue) -> Result<GameModModel, ServiceError>;

    /// A stable human-readable identifier for the backing provider.
    fn get_name(&self) -> (r: String)
        ensures
            r@ == self.spec_name(),
    ;

    /// The URL of the provider's collection endpoint.
    fn mods_url(&self) -> (r: String)
        ensures
            r@ == self.spec_mods_url(),
    ;

    /// The URL of the provider's per-item endpoint for the item under `id`.
    fn mod_url(&self, id: &str) -> (r: String)
        ensures
            r@ == self.spec_mod_url(id@),
    ;

    /// Decodes a fetched collection document and maps each of its records
    /// to a `GameMod`.
    fn get_mods(&self, body: &JsonValue) -> (r: Result<Vec<GameMod>, ServiceError>)
        ensures
            match (r, self.spec_mods(*body)) {
                (Ok(mods), Ok(models)) => mods_view(mods@) == models,
                (Err(e), Err(model_e)) => e == model_e,
                _ => false,
            },
    ;

    /// Decodes a fetched per-item document and maps its record to a
    /// `GameMod`.
    fn get_mod(&self, body: &JsonValue) -> (r: Result<GameMod, ServiceError>)
        ensures
            match (r, self.spec_mod(*body)) {
                (Ok(m), Ok(model)) => m@ == model,
                (Err(e), Err(model_e)) => e == model_e,
                _ => false,
            },
    ;
}

} // verus!
