//! Company and party contact details, and the company's registrations
//! as they stood on a day. An e-mail address is empty or holds an '@',
//! an empty field clears it, and a bank account is stored only in its
//! normalised, checked form.

use crate::tekst::{er_blank, har_tegn, inneholder, like, trim, trimmet};
use vstd::prelude::*;

verus! {

/// The company's registrations on a day: in the VAT register and in the
/// Register of Business Enterprises.
#[derive(Clone, Copy, Debug, PartialEq, Eq, Structural)]
pub struct Registrering {
    pub mva_registrert: bool,
    pub foretaksregistrert: bool,
}

impl Default for Registrering {
    /// No registration is claimed without evidence of it.
    fn default() -> (r: Self)
        ensures
            !r.mva_registrert && !r.foretaksregistrert,
    {
        Registrering { mva_registrert: false, foretaksregistrert: false }
    }
}

/// The company's master data used on sales documents.
#[derive(Clone, Debug)]
pub struct CompanySettings {
    pub name: String,
    pub orgnr: String,
    pub address: Option<String>,
    pub bank_account: Option<String>,
    pub orgform: Option<String>,
    /// Reply-to for documents sent out.
    pub email: Option<String>,
}

/// Why a change is refused.
#[derive(Clone, Debug, PartialEq, Eq)]
pub enum InnstillingFeil {
    /// The source of a registration is not brreg, manuell or migrert.
    UkjentKilde { kilde: String },
    UgyldigEpost,
    /// Not 11 digits with a valid MOD11 check digit.
    UgyldigKontonummer,
    UkjentSelskap,
    UkjentPart,
}

/// The registration in force: the newest recorded one on or before the
/// day, or none at all when nothing is recorded.
pub fn registrering_eller_ingen(funnet: Option<Registrering>) -> (r: Registrering)
    ensures
        match funnet {
            Some(f) => r == f,
            None => !r.mva_registrert && !r.foretaksregistrert,
        },
{
    match funnet {
        Some(f) => f,
        None => Registrering::default(),
    }
}

/// A registration comes from the register, by hand or from a migration.
pub open spec fn kjent_kilde(k: Seq<char>) -> bool {
    k == "brreg"@ || k == "manuell"@ || k == "migrert"@
}

pub fn sjekk_kilde(kilde: &str) -> (r: Result<(), InnstillingFeil>)
    ensures
        r is Ok <==> kjent_kilde(kilde@),
        r matches Err(e) ==> e matches InnstillingFeil::UkjentKilde { kilde: k } && k@ == kilde@,
{
    if like(kilde, "brreg") || like(kilde, "manuell") || like(kilde, "migrert") {
        Ok(())
    } else {
        Err(InnstillingFeil::UkjentKilde { kilde: kilde.to_string() })
    }
}

/// An e-mail address, when given, is empty after trimming or holds an
/// '@'.
pub open spec fn epost_ok(email: Option<Seq<char>>) -> bool {
    match email {
        None => true,
        Some(e) => trimmet(e).len() == 0 || har_tegn(trimmet(e), '@'),
    }
}

pub fn sjekk_epost(email: Option<&str>) -> (r: Result<(), InnstillingFeil>)
    ensures
        r is Ok <==> epost_ok(match email { Some(e) => Some(e@), None => None }),
        r matches Err(e) ==> e == InnstillingFeil::UgyldigEpost,
{
    match email {
        None => Ok(()),
        Some(e) => {
            let t = trim(e);
            if t.unicode_len() == 0 || inneholder(t.as_str(), '@') {
                Ok(())
            } else {
                Err(InnstillingFeil::UgyldigEpost)
            }
        },
    }
}

/// The value a given field is set to: trimmed, and cleared when blank.
pub open spec fn renset(v: Seq<char>) -> Option<Seq<char>> {
    if trimmet(v).len() == 0 { None } else { Some(trimmet(v)) }
}

/// What an update does with one field: whether it is touched at all (it
/// is when a value is given) and the value it gets.
pub fn feltendring(v: Option<&str>) -> (r: (bool, Option<String>))
    ensures
        r.0 == (v is Some),
        match v {
            None => r.1 is None,
            Some(s) => match renset(s@) {
                None => r.1 is None,
                Some(t) => r.1 matches Some(u) && u@ == t,
            },
        },
{
    match v {
        None => (false, None),
        Some(s) => if er_blank(s) {
            (true, None)
        } else {
            (true, Some(trim(s)))
        },
    }
}

/// A bank account given for a party, after normalisation (`normalisert`,
/// the account as normalised with its MOD11 verdict, `None` when no
/// account was given or it was blank), is stored only when valid.
pub fn sjekk_kontonummer(normalisert: Option<(String, bool)>) -> (r: Result<Option<String>, InnstillingFeil>)
    ensures
        match normalisert {
            None => r == Ok::<Option<String>, InnstillingFeil>(None),
            Some((k, gyldig)) => if gyldig {
                r == Ok::<Option<String>, InnstillingFeil>(Some(k))
            } else {
                r == Err::<Option<String>, InnstillingFeil>(InnstillingFeil::UgyldigKontonummer)
            },
        },
{
    match normalisert {
        None => Ok(None),
        Some((k, gyldig)) => if gyldig {
            Ok(Some(k))
        } else {
            Err(InnstillingFeil::UgyldigKontonummer)
        },
    }
}

/// An update changes exactly one row, else the company (or party) is
/// unknown.
pub fn sjekk_oppdatert(rader: u64, selskap: bool) -> (r: Result<(), InnstillingFeil>)
    ensures
        rader == 1 ==> r == Ok::<(), InnstillingFeil>(()),
        rader != 1 ==> r == Err::<(), InnstillingFeil>(if selskap { InnstillingFeil::UkjentSelskap } else { InnstillingFeil::UkjentPart }),
{
    if rader == 1 {
        Ok(())
    } else if selskap {
        Err(InnstillingFeil::UkjentSelskap)
    } else {
        Err(InnstillingFeil::UkjentPart)
    }
}

} // verus!
