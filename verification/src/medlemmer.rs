//! Company membership rules: which roles can be granted here, how an
//! e-mail address is normalised before it is compared, and the checks an
//! invitation or a role change must pass.

use crate::tekst::{har_tegn, inneholder, like, smaa_bokstaver, til_smaa, trim, trimmet};
use vstd::prelude::*;

verus! {

/// Why a membership change is refused.
#[derive(Clone, Debug, PartialEq, Eq)]
pub enum MedlemFeil {
    /// `revisor` follows from an audit engagement; it is not granted here.
    RevisorTildelesIkke,
    /// Not one of the firm roles (`admin`, `ansatt`).
    IkkeEnByrarolle,
    /// The normalised address does not look like an e-mail address.
    UgyldigEpost { epost: String },
    /// The change would leave no active admin.
    UtenAdministrator,
    /// The person is not a direct member.
    IkkeDirekteMedlem,
}

/// Roles other than `revisor` can be granted directly.
pub fn krev_tildelbar(rolle: &str) -> (r: Result<(), MedlemFeil>)
    ensures
        r is Ok <==> rolle@ != "revisor"@,
        r matches Err(e) ==> e == MedlemFeil::RevisorTildelesIkke,
{
    if like(rolle, "revisor") {
        Err(MedlemFeil::RevisorTildelesIkke)
    } else {
        Ok(())
    }
}

/// The normalised form of an address: trimmed, then lower case.
pub open spec fn normalisert(raw: Seq<char>) -> Seq<char> {
    smaa_bokstaver(trimmet(raw))
}

/// E-mail normalised the way it is compared and stored: trimmed, lower
/// case.
pub fn normaliser_epost(raw: &str) -> (r: String)
    ensures
        r@ == normalisert(raw@),
{
    let t = trim(raw);
    til_smaa(t.as_str())
}

/// Looks like an e-mail address: has an '@', neither first nor last.
pub open spec fn ser_ut_som_epost(e: Seq<char>) -> bool {
    &&& har_tegn(e, '@')
    &&& e[0] != '@'
    &&& e.last() != '@'
}

/// The address an invitation is stored under: the normalised form, when
/// it looks like an e-mail address.
pub fn invitasjonsadresse(raw: &str) -> (r: Result<String, MedlemFeil>)
    ensures
        match r {
            Ok(e) => e@ == normalisert(raw@) && ser_ut_som_epost(e@),
            Err(MedlemFeil::UgyldigEpost { epost }) => epost@ == normalisert(raw@) && !ser_ut_som_epost(
                epost@,
            ),
            Err(_) => false,
        },
{
    let e = normaliser_epost(raw);
    let s = e.as_str();
    let n = s.unicode_len();
    if inneholder(s, '@') && s.get_char(0) != '@' && s.get_char(n - 1) != '@' {
        Ok(e)
    } else {
        Err(MedlemFeil::UgyldigEpost { epost: e })
    }
}

/// The address invitations are redeemed on at login: the person's e-mail,
/// normalised, when there is one and it is not empty.
pub fn innloggingsadresse(email: Option<String>) -> (r: Option<String>)
    ensures
        match email {
            Some(e) => if normalisert(e@).len() > 0 {
                r matches Some(x) && x@ == normalisert(e@)
            } else {
                r is None
            },
            None => r is None,
        },
{
    match email {
        Some(e) => {
            let n = normaliser_epost(e.as_str());
            if n.unicode_len() > 0 {
                Some(n)
            } else {
                None
            }
        },
        None => None,
    }
}

/// After a change, at least one active admin must remain.
pub fn krev_gjenvaerende_admin(aktive_admin: i64) -> (r: Result<(), MedlemFeil>)
    ensures
        r is Ok <==> aktive_admin > 0,
        r matches Err(e) ==> e == MedlemFeil::UtenAdministrator,
{
    if aktive_admin > 0 {
        Ok(())
    } else {
        Err(MedlemFeil::UtenAdministrator)
    }
}

/// What a role change does, given the member's current role (`None`
/// when not an active direct member): `Ok(true)` when the role is
/// written, `Ok(false)` when it already is the new one.
pub fn rolleendring(fra: Option<&str>, ny_rolle: &str) -> (r: Result<bool, MedlemFeil>)
    ensures
        ny_rolle@ == "revisor"@ ==> r == Err::<bool, MedlemFeil>(MedlemFeil::RevisorTildelesIkke),
        ny_rolle@ != "revisor"@ ==> match fra {
            None => r == Err::<bool, MedlemFeil>(MedlemFeil::IkkeDirekteMedlem),
            Some(f) => r == Ok::<bool, MedlemFeil>(f@ != ny_rolle@),
        },
{
    match krev_tildelbar(ny_rolle) {
        Err(e) => {
            return Err(e);
        },
        Ok(()) => {},
    }
    match fra {
        None => Err(MedlemFeil::IkkeDirekteMedlem),
        Some(f) => Ok(!like(f, ny_rolle)),
    }
}

/// What turning access on or off does, given the member's current state
/// (`None` when not a direct member): `Ok(true)` when it changes.
pub fn aktivendring(naa: Option<bool>, aktiv: bool) -> (r: Result<bool, MedlemFeil>)
    ensures
        match naa {
            None => r == Err::<bool, MedlemFeil>(MedlemFeil::IkkeDirekteMedlem),
            Some(a) => r == Ok::<bool, MedlemFeil>(a != aktiv),
        },
{
    match naa {
        None => Err(MedlemFeil::IkkeDirekteMedlem),
        Some(a) => Ok(a != aktiv),
    }
}

/// The change recorded when access is turned on or off.
pub fn aktivhendelse(aktiv: bool) -> (r: &'static str)
    ensures
        r@ == (if aktiv {
            "reaktivert"@
        } else {
            "deaktivert"@
        }),
{
    if aktiv {
        "reaktivert"
    } else {
        "deaktivert"
    }
}

} // verus!
