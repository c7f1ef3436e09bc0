//! The credentials that the application is built with.

use vstd::prelude::*;
use crate::error::AppError;
use crate::snapshot::{first_with_key, lookup};
use crate::text::{concat2, concat3, same_text};

verus! {

/// The credentials of the services the application talks to.
#[derive(Debug, PartialEq, Eq)]
pub struct CompiledSecrets {
    pub igdb_client_id: String,
    pub igdb_client_secret: String,
    pub steam_api_key: String,
    pub epic_client_id: String,
    pub epic_client_id_secret: String,
    pub battlenet_client_id: String,
    pub battlenet_client_secret: String,
}

/// The value configured under a name; empty where the name is not
/// configured.
pub open spec fn configured(pairs: Seq<(Seq<char>, Seq<char>)>, name: Seq<char>) -> Seq<char> {
    match first_with_key(pairs, name) {
        Some(v) => v,
        None => Seq::empty(),
    }
}

fn value_of(pairs: &Vec<(String, String)>, name: &str) -> (r: String)
    ensures
        r@ == configured(pairs.deep_view(), name@),
{
    match lookup(pairs, name) {
        Some(v) => v.clone(),
        None => String::new(),
    }
}

impl CompiledSecrets {
    /// Reads the credentials from configured name-value pairs. A
    /// credential that is not configured is empty.
    pub fn from_pairs(pairs: &Vec<(String, String)>) -> (s: CompiledSecrets)
        ensures
            s.igdb_client_id@ == configured(pairs.deep_view(), "IGDB_CLIENT_ID"@),
            s.igdb_client_secret@ == configured(pairs.deep_view(), "IGDB_CLIENT_SECRET"@),
            s.steam_api_key@ == configured(pairs.deep_view(), "STEAM_API_KEY"@),
            s.epic_client_id@ == configured(pairs.deep_view(), "EPIC_CLIENT_ID"@),
            s.epic_client_id_secret@ == configured(pairs.deep_view(), "EPIC_CLIENT_ID_SECRET"@),
            s.battlenet_client_id@ == configured(pairs.deep_view(), "BATTLENET_CLIENT_ID"@),
            s.battlenet_client_secret@ == configured(pairs.deep_view(), "BATTLENET_CLIENT_SECRET"@),
    {
        CompiledSecrets {
            igdb_client_id: value_of(pairs, "IGDB_CLIENT_ID"),
            igdb_client_secret: value_of(pairs, "IGDB_CLIENT_SECRET"),
            steam_api_key: value_of(pairs, "STEAM_API_KEY"),
            epic_client_id: value_of(pairs, "EPIC_CLIENT_ID"),
            epic_client_id_secret: value_of(pairs, "EPIC_CLIENT_ID_SECRET"),
            battlenet_client_id: value_of(pairs, "BATTLENET_CLIENT_ID"),
            battlenet_client_secret: value_of(pairs, "BATTLENET_CLIENT_SECRET"),
        }
    }

    /// The names under which the credentials are configured.
    pub fn names() -> (r: Vec<&'static str>)
        ensures
            r.len() == 7,
            r[0]@ == "IGDB_CLIENT_ID"@,
            r[1]@ == "IGDB_CLIENT_SECRET"@,
            r[2]@ == "STEAM_API_KEY"@,
            r[3]@ == "EPIC_CLIENT_ID"@,
            r[4]@ == "EPIC_CLIENT_ID_SECRET"@,
            r[5]@ == "BATTLENET_CLIENT_ID"@,
            r[6]@ == "BATTLENET_CLIENT_SECRET"@,
    {
        let mut r: Vec<&'static str> = Vec::new();
        r.push("IGDB_CLIENT_ID");
        r.push("IGDB_CLIENT_SECRET");
        r.push("STEAM_API_KEY");
        r.push("EPIC_CLIENT_ID");
        r.push("EPIC_CLIENT_ID_SECRET");
        r.push("BATTLENET_CLIENT_ID");
        r.push("BATTLENET_CLIENT_SECRET");
        r
    }
}

/// Hands out the application's credentials by name.
pub struct SecretsManager {
    app_name: String,
    secrets: CompiledSecrets,
}

/// The credential that a name denotes, if the name is known.
pub open spec fn secret_named(s: CompiledSecrets, key: Seq<char>) -> Option<Seq<char>> {
    if key == "IGDB_CLIENT_ID"@ {
        Some(s.igdb_client_id@)
    } else if key == "IGDB_CLIENT_SECRET"@ {
        Some(s.igdb_client_secret@)
    } else if key == "STEAM_API_KEY"@ {
        Some(s.steam_api_key@)
    } else if key == "EPIC_CLIENT_ID"@ {
        Some(s.epic_client_id@)
    } else if key == "EPIC_CLIENT_ID_SECRET"@ {
        Some(s.epic_client_id_secret@)
    } else if key == "BATTLENET_CLIENT_ID"@ {
        Some(s.battlenet_client_id@)
    } else if key == "BATTLENET_CLIENT_SECRET"@ {
        Some(s.battlenet_client_secret@)
    } else {
        None
    }
}

impl SecretsManager {
    /// The credentials this manager holds.
    pub closed spec fn compiled(&self) -> CompiledSecrets {
        self.secrets
    }

    /// The application's name, under which tokens are kept.
    pub closed spec fn name(&self) -> Seq<char> {
        self.app_name@
    }

    /// A manager of the given credentials for the named application.
    pub fn new(app_name: &str, secrets: CompiledSecrets) -> (m: SecretsManager)
        ensures
            m.name() == app_name@,
            m.compiled() == secrets,
    {
        SecretsManager { app_name: String::from_str(app_name), secrets }
    }

    /// The application's name, under which tokens are kept.
    pub fn app_name(&self) -> (r: &str)
        ensures
            r@ == self.name(),
    {
        self.app_name.as_str()
    }

    /// The credential that a name denotes. Fails exactly when the name
    /// is not one of the known names.
    pub fn get_compiled_secret(&self, key: &str) -> (r: Result<String, AppError>)
        ensures
            match r {
                Ok(v) => secret_named(self.compiled(), key@) == Some(v@),
                Err(e) => secret_named(self.compiled(), key@) is None && e@
                    == "Unknown compiled secret: "@ + key@,
            },
    {
        if same_text(key, "IGDB_CLIENT_ID") {
            Ok(self.secrets.igdb_client_id.clone())
        } else if same_text(key, "IGDB_CLIENT_SECRET") {
            Ok(self.secrets.igdb_client_secret.clone())
        } else if same_text(key, "STEAM_API_KEY") {
            Ok(self.secrets.steam_api_key.clone())
        } else if same_text(key, "EPIC_CLIENT_ID") {
            Ok(self.secrets.epic_client_id.clone())
        } else if same_text(key, "EPIC_CLIENT_ID_SECRET") {
            Ok(self.secrets.epic_client_id_secret.clone())
        } else if same_text(key, "BATTLENET_CLIENT_ID") {
            Ok(self.secrets.battlenet_client_id.clone())
        } else if same_text(key, "BATTLENET_CLIENT_SECRET") {
            Ok(self.secrets.battlenet_client_secret.clone())
        } else {
            Err(AppError::new(concat2("Unknown compiled secret: ", key)))
        }
    }

    /// Checks that the credentials the application cannot do without are
    /// there: the metadata service's client id and secret, looked at in
    /// that order. Fails exactly when one of them is empty.
    pub fn validate_required_secrets(&self) -> (r: Result<(), AppError>)
        ensures
            match r {
                Ok(_) => self.compiled().igdb_client_id@.len() > 0
                    && self.compiled().igdb_client_secret@.len() > 0,
                Err(e) => if self.compiled().igdb_client_id@.len() == 0 {
                    e@ == "Required secret "@ + "IGDB_CLIENT_ID"@ + " is missing"@
                } else {
                    self.compiled().igdb_client_secret@.len() == 0 && e@ == "Required secret "@
                        + "IGDB_CLIENT_SECRET"@ + " is missing"@
                },
            },
    {
        if self.secrets.igdb_client_id.as_str().is_empty() {
            return Err(AppError::new(concat3("Required secret ", "IGDB_CLIENT_ID", " is missing")));
        }
        if self.secrets.igdb_client_secret.as_str().is_empty() {
            return Err(
                AppError::new(concat3("Required secret ", "IGDB_CLIENT_SECRET", " is missing")),
            );
        }
        Ok(())
    }
}

} // verus!
