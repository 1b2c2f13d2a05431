//! The GameBanana provider: its endpoints, and the mapping from its wire
//! records to the unified `GameMod` representation.

use vstd::prelude::*;
use crate::decimal::decimal_of;
use crate::decimal::i32_to_string;
use crate::error::ServiceError;
use crate::game_mod::GameMod;
use crate::game_mod::GameModModel;
use crate::game_mod::mods_view;
use crate::json::JsonValue;
use crate::service::Service;
use crate::wire::RecordModel;
use crate::wire::SubfeedRecord;
use crate::wire::decode_record;
use crate::wire::decode_subfeed;
use crate::wire::record_of;
use crate::wire::subfeed_of;

verus! {

/// The GameBanana provider.
pub struct GameBanana {}

/// The `GameMod` that a service named `service` derives from the wire
/// record `r`: the id rendered in decimal, name and author copied, and
/// the version kept verbatim, or the `"N/A"` sentinel when the record
/// carries none.
pub open spec fn mod_of(service: Seq<char>, r: RecordModel) -> GameModModel {
    GameModModel {
        id: decimal_of(r.id_row),
        name: r.name,
        service: service,
        author: r.submitter.name,
        version: match r.version {
            Some(v) => v,
            None => "N/A"@,
        },
    }
}

/// The mods that a service named `service` derives from a record
/// sequence, in order.
pub open spec fn mods_of(service: Seq<char>, rs: Seq<RecordModel>) -> Seq<GameModModel> {
    rs.map_values(|r: RecordModel| mod_of(service, r))
}

/// Maps one wire record to the unified representation, on behalf of the
/// service called `name`. Never fails: every well-formed record converts.
pub fn convert_record_to_mod(name: &str, record: &SubfeedRecord) -> (r: Result<
    GameMod,
    ServiceError,
>)
    ensures
        r matches Ok(m) && m@ == mod_of(name@, record@),
{
    let version = match &record.version {
        Some(v) => v.clone(),
        None => "N/A".to_owned(),
    };
    Ok(
        GameMod {
            id: i32_to_string(record.id_row),
            name: record.name.clone(),
            service: name.to_owned(),
            author: record.submitter.name.clone(),
            version,
        },
    )
}

impl Service for GameBanana {
    open spec fn spec_name(&self) -> Seq<char> {
        "GameBanana"@
    }

    open spec fn spec_mods_url(&self) -> Seq<char> {
        "https://gamebanana.com/apiv11/Game/8552/Subfeed?_csvModelInclusions=Mod"@
    }

    open spec fn spec_mod_url(&self, id: Seq<char>) -> Seq<char> {
        "https://gamebanana.com/apiv11/Mod/"@ + id + "/ProfilePage"@
    }

    open spec fn spec_mods(&self, body: JsonValue) -> Result<Seq<GameModModel>, ServiceError> {
        match subfeed_of(body) {
            Some(page) => Ok(mods_of(self.spec_name(), page.records)),
            None => Err(ServiceError::Decode),
        }
    }

    open spec fn spec_mod(&self, body: JsonValue) -> Result<GameModModel, ServiceError> {
        match record_of(body) {
            Some(rec) => Ok(mod_of(self.spec_name(), rec)),
            None => Err(ServiceError::Decode),
        }
    }

    fn get_name(&self) -> (r: String) {
        "GameBanana".to_owned()
    }

    fn mods_url(&self) -> (r: String) {
        "https://gamebanana.com/apiv11/Game/8552/Subfeed?_csvModelInclusions=Mod".to_owned()
    }

    fn mod_url(&self, id: &str) -> (r: String) {
        let url = "https://gamebanana.com/apiv11/Mod/".to_owned().concat(id).concat("/ProfilePage");
        proof {
            assert(url@ =~= self.spec_mod_url(id@));
        }
        url
    }

    fn get_mods(&self, body: &JsonValue) -> (r: Result<Vec<GameMod>, ServiceError>) {
        let page = match decode_subfeed(body) {
            Ok(page) => page,
            Err(e) => {
                return Err(e);
            },
        };
        let name = self.get_name();
        let mut mods: Vec<GameMod> = Vec::new();
        let mut i: usize = 0;
        while i < page.records.len()
            invariant
                i <= page.records@.len(),
                mods@.len() == i as int,
                name@ == self.spec_name(),
                subfeed_of(*body) == Some(page@),
                forall|j: int| 0 <= j < i ==> #[trigger] mods@[j]@ == mod_of(
                    name@,
                    page.records@[j]@,
                ),
            decreases page.records@.len() - i,
        {
            let m = match convert_record_to_mod(name.as_str(), &page.records[i]) {
                Ok(m) => m,
                Err(e) => {
                    return Err(e);
                },
            };
            mods.push(m);
            i = i + 1;
        }
        proof {
            assert(mods_view(mods@) =~= mods_of(self.spec_name(), page@.records));
        }
        Ok(mods)
    }

    fn get_mod(&self, body: &JsonValue) -> (r: Result<GameMod, ServiceError>) {
        let rec = match decode_record(body) {
            Ok(rec) => rec,
            Err(e) => {
                return Err(e);
            },
        };
        let name = self.get_name();
        match convert_record_to_mod(name.as_str(), &rec) {
            Ok(m) => Ok(m),
            Err(e) => Err(e),
        }
    }
}

/// A wire record that carries a version string keeps it verbatim in the
/// mod derived from it.
pub proof fn lemma_version_present(service: Seq<char>, r: RecordModel)
    requires
        r.version is Some,
    ensures
        mod_of(service, r).version == r.version.unwrap(),
{
}

/// A wire record without a version yields the `"N/A"` sentinel.
pub proof fn lemma_version_absent(service: Seq<char>, r: RecordModel)
    requires
        r.version is None,
    ensures
        mod_of(service, r).version == "N/A"@,
{
}

/// Whatever a record holds, the mod derived from it carries the name of
/// the service that mapped it.
pub proof fn lemma_mod_carries_service_name(service: Seq<char>, r: RecordModel)
    ensures
        mod_of(service, r).service == service,
{
}

/// Every mod in a decoded listing carries the provider's declared name.
pub proof fn lemma_mods_carry_service_name(body: JsonValue)
    ensures
        (GameBanana {}).spec_mods(body) matches Ok(models) ==> forall|i: int|
            0 <= i < models.len() ==> #[trigger] models[i].service == (GameBanana {}).spec_name(),
{
}

} // verus!
