//! Custom roles a company composes from existing rights. A custom role
//! cannot take the name of a built-in one, its name is never blank, and
//! every change is logged with the rights it set.

use crate::tekst::{er_blank, foy_sammen, like, sammenfoyd, smaa_bokstaver, tekster_av, til_smaa, trim, trimmet};
use vstd::prelude::*;
use vstd::string::*;

verus! {

/// The SQLSTATE of a unique violation.
pub const UNIK_KRENKELSE: &'static str = "23505";

/// A custom role with its rights and how many members hold it.
#[derive(Clone, Debug)]
pub struct Rolle {
    pub id: u128,
    pub navn: String,
    pub aktiv: bool,
    pub rettigheter: Vec<String>,
    pub i_bruk: i64,
}

/// One logged change of a role.
#[derive(Clone, Debug)]
pub struct Rolleendring {
    pub navn: String,
    pub endring: String,
    pub rettigheter: Option<String>,
    pub utfort_av: Option<String>,
    /// Microseconds since the Unix epoch, UTC.
    pub created_at: i64,
}

/// Why a role change is refused.
#[derive(Clone, Copy, Debug, PartialEq, Eq, Structural)]
pub enum RolleFeil {
    /// A role needs a name.
    ManglerNavn,
    /// The name belongs to a built-in role.
    Reservert,
    /// The company already has a role with this name.
    NavnOpptatt,
    UkjentRolle,
}

/// The names of the built-in roles, which a custom role cannot take.
pub open spec fn reservert(n: Seq<char>) -> bool {
    ||| n == "admin"@
    ||| n == "bokforing"@
    ||| n == "les"@
    ||| n == "ansatt"@
    ||| n == "revisor"@
    ||| n == "ukjent"@
}

/// Whether a (lowercased) name is one of the built-in roles.
pub fn er_reservert(n: &str) -> (r: bool)
    ensures
        r == reservert(n@),
{
    like(n, "admin") || like(n, "bokforing") || like(n, "les") || like(n, "ansatt") || like(n, "revisor")
        || like(n, "ukjent")
}

/// A new role's name: trimmed, not blank, and not a built-in role's name
/// in any letter case. The result is the trimmed name.
pub fn sjekk_rollenavn(navn: &str) -> (r: Result<String, RolleFeil>)
    ensures
        trimmet(navn@).len() == 0 ==> r == Err::<String, RolleFeil>(RolleFeil::ManglerNavn),
        trimmet(navn@).len() > 0 && reservert(smaa_bokstaver(trimmet(navn@))) ==> r == Err::<String, RolleFeil>(
            RolleFeil::Reservert,
        ),
        r is Ok <==> trimmet(navn@).len() > 0 && !reservert(smaa_bokstaver(trimmet(navn@))),
        r matches Ok(n) ==> n@ == trimmet(navn@),
{
    if er_blank(navn) {
        return Err(RolleFeil::ManglerNavn);
    }
    let t = trim(navn);
    let liten = til_smaa(t.as_str());
    if er_reservert(liten.as_str()) {
        return Err(RolleFeil::Reservert);
    }
    Ok(t)
}

/// Whether a database error code is a unique violation: a role with the
/// name exists already.
pub fn er_unik_krenkelse(kode: Option<&str>) -> (r: bool)
    ensures
        r == (kode matches Some(k) && k@ == "23505"@),
{
    match kode {
        Some(k) => like(k, UNIK_KRENKELSE),
        None => false,
    }
}

/// The rights as logged: the names joined by single spaces.
pub fn rettighetslogg(rettigheter: &Vec<String>) -> (r: String)
    ensures
        r@ == sammenfoyd(tekster_av(rettigheter@), " "@),
{
    foy_sammen(rettigheter, " ")
}

/// The log entry of an activation change.
pub fn aktivendring(aktiv: bool) -> (r: String)
    ensures
        r@ == (if aktiv { "reaktivert"@ } else { "deaktivert"@ }),
{
    if aktiv {
        String::from_str("reaktivert")
    } else {
        String::from_str("deaktivert")
    }
}

/// A change applies to an existing role of the company: exactly one row
/// (or a role found), else the role is unknown.
pub fn sjekk_rolle_funnet(funnet: bool) -> (r: Result<(), RolleFeil>)
    ensures
        r is Ok <==> funnet,
        r matches Err(e) ==> e == RolleFeil::UkjentRolle,
{
    if funnet {
        Ok(())
    } else {
        Err(RolleFeil::UkjentRolle)
    }
}

} // verus!
