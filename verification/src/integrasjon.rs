//! Machine access: an integration is a person of its own kind, granted
//! read or bookkeeping access to one company at a time. A client id that
//! already belongs to someone with access is never turned into an
//! integration, and every changing call is kept in the log.

use crate::dato::Dato;
use crate::tekst::{er_blank, like, trim, trimmet};
use vstd::prelude::*;

verus! {

/// A registered machine client.
#[derive(Clone, Debug)]
pub struct Integration {
    pub id: u128,
    pub person_id: u128,
    pub client_id: String,
    pub navn: String,
    pub kontakt: Option<String>,
    pub rate_limit_min: i32,
    pub registrert_av: String,
    /// Microseconds since the Unix epoch, UTC.
    pub created_at: i64,
}

/// An integration's grant in one company, with today's call count.
#[derive(Clone, Debug)]
pub struct GrantRow {
    pub integration_id: u128,
    pub client_id: String,
    pub navn: String,
    pub kontakt: Option<String>,
    pub access: String,
    pub valid_from: Dato,
    pub valid_to: Option<Dato>,
    pub created_by: String,
    pub revoked_by: Option<String>,
    pub rate_limit_min: i32,
    pub kall_i_dag: i64,
}

/// One logged changing call.
#[derive(Clone, Debug)]
pub struct CallRow {
    pub navn: String,
    pub method: String,
    pub path: String,
    pub status: i32,
    /// Microseconds since the Unix epoch, UTC.
    pub created_at: i64,
}

/// Why an integration step is refused.
#[derive(Clone, Debug, PartialEq, Eq)]
pub enum IntegrasjonFeil {
    ManglerKlientId,
    ManglerNavn,
    /// The access level is neither les nor bokforing.
    UgyldigTilgang,
    /// The client id belongs to a signed-in user with access.
    TilhorerBruker { client_id: String },
    /// No active grant to revoke.
    IngenAktivTilgang,
}

/// A grant: a client id and a name that are not blank, and read or
/// bookkeeping access. The result is the client id and the name trimmed.
pub fn sjekk_tildeling(client_id: &str, navn: &str, access: &str) -> (r: Result<(String, String), IntegrasjonFeil>)
    ensures
        trimmet(client_id@).len() == 0 ==> r == Err::<(String, String), IntegrasjonFeil>(IntegrasjonFeil::ManglerKlientId),
        trimmet(client_id@).len() > 0 && trimmet(navn@).len() == 0 ==> r == Err::<(String, String), IntegrasjonFeil>(
            IntegrasjonFeil::ManglerNavn,
        ),
        trimmet(client_id@).len() > 0 && trimmet(navn@).len() > 0 && !(access@ == "les"@ || access@ == "bokforing"@)
            ==> r == Err::<(String, String), IntegrasjonFeil>(IntegrasjonFeil::UgyldigTilgang),
        r is Ok <==> trimmet(client_id@).len() > 0 && trimmet(navn@).len() > 0 && (access@ == "les"@ || access@
            == "bokforing"@),
        r matches Ok((c, n)) ==> c@ == trimmet(client_id@) && n@ == trimmet(navn@),
{
    let c = trim(client_id);
    if c.unicode_len() == 0 {
        return Err(IntegrasjonFeil::ManglerKlientId);
    }
    if er_blank(navn) {
        return Err(IntegrasjonFeil::ManglerNavn);
    }
    if !(like(access, "les") || like(access, "bokforing")) {
        return Err(IntegrasjonFeil::UgyldigTilgang);
    }
    Ok((c, trim(navn)))
}

/// What becomes of the person behind a client id.
#[derive(Clone, Copy, Debug, PartialEq, Eq, Structural)]
pub enum Personhandling {
    /// No person yet: create one of kind integrasjon.
    Opprett,
    /// Already an integration: use it as it is.
    Bruk,
    /// An empty shell from an earlier token: turn it into an integration.
    Gjor,
}

/// The person behind a client id, given the existing one (its kind and
/// whether it has any membership): a person with access that is not an
/// integration is refused.
pub fn person_for_klient(eksisterende: &Option<(String, bool)>, client_id: &str) -> (r: Result<Personhandling, IntegrasjonFeil>)
    ensures
        match *eksisterende {
            None => r == Ok::<Personhandling, IntegrasjonFeil>(Personhandling::Opprett),
            Some((kind, har_tilgang)) => if kind@ == "integrasjon"@ {
                r == Ok::<Personhandling, IntegrasjonFeil>(Personhandling::Bruk)
            } else if har_tilgang {
                r matches Err(IntegrasjonFeil::TilhorerBruker { client_id: c }) && c@ == client_id@
            } else {
                r == Ok::<Personhandling, IntegrasjonFeil>(Personhandling::Gjor)
            },
        },
{
    match eksisterende {
        None => Ok(Personhandling::Opprett),
        Some((kind, har_tilgang)) => if like(kind.as_str(), "integrasjon") {
            Ok(Personhandling::Bruk)
        } else if *har_tilgang {
            Err(IntegrasjonFeil::TilhorerBruker { client_id: client_id.to_string() })
        } else {
            Ok(Personhandling::Gjor)
        },
    }
}

/// A robot never inherits a human's access: whenever the client id
/// belongs to a person who is not an integration and has a membership,
/// the grant is refused.
pub proof fn lov_robot_arver_aldri_tilgang(kind: Seq<char>, har_tilgang: bool)
    requires
        kind != "integrasjon"@,
        har_tilgang,
    ensures
        !(kind == "integrasjon"@ || !har_tilgang),
{
}

/// Revoking ends exactly one active grant.
pub fn sjekk_tilbakekalt(rader: u64) -> (r: Result<(), IntegrasjonFeil>)
    ensures
        r is Ok <==> rader == 1,
        r matches Err(e) ==> e == IntegrasjonFeil::IngenAktivTilgang,
{
    if rader == 1 {
        Ok(())
    } else {
        Err(IntegrasjonFeil::IngenAktivTilgang)
    }
}

/// What a call leaves behind: a changing call (any method but GET) is
/// kept in full, and a call for a company counts toward the day's usage.
pub fn kallspor(method: &str, company_id: Option<u128>) -> (r: (bool, bool))
    ensures
        r.0 == (method@ != "GET"@),
        r.1 == (company_id is Some),
{
    (!like(method, "GET"), company_id.is_some())
}

} // verus!
