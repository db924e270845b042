//! The dimension register (departments and projects): which codes are
//! accepted and what a change may do.

use crate::tekst::{er_alfanumerisk, like};
use vstd::prelude::*;

verus! {

/// A department or project.
#[derive(Clone, Debug)]
pub struct DimensionRow {
    pub kind: String,
    pub code: String,
    pub name: String,
    pub active: bool,
    /// The customer a project is for (number and name).
    pub kunde: Option<String>,
    pub kunde_navn: Option<String>,
    pub fakturerbar_default: bool,
    pub min_timesats_ore: Option<i64>,
}

/// Why a dimension change is refused.
#[derive(Clone, Debug, PartialEq, Eq)]
pub enum DimensjonFeil {
    UkjentType,
    ManglerKodeEllerNavn,
    UgyldigKode,
    /// Only projects can have a customer.
    KundeBareForProsjekt,
    /// Only projects can be billable by default.
    FakturerbarBareForProsjekt,
    NegativSats,
    IkkeMedlem,
    UkjentDimensjon,
}

/// A dimension kind.
pub open spec fn dimensjonstype(k: Seq<char>) -> bool {
    k == "avdeling"@ || k == "prosjekt"@
}

/// A code of ASCII letters, digits and '-'.
pub open spec fn gyldig_kode(c: Seq<char>) -> bool {
    forall|i: int| 0 <= i < c.len() ==> er_alfanumerisk(#[trigger] c[i]) || c[i] == '-'
}

pub fn er_gyldig_kode(c: &str) -> (r: bool)
    ensures
        r == gyldig_kode(c@),
{
    let n = c.unicode_len();
    let mut i: usize = 0;
    while i < n
        invariant
            n == c@.len(),
            i <= n,
            forall|k: int| 0 <= k < i ==> er_alfanumerisk(#[trigger] c@[k]) || c@[k] == '-',
        decreases n - i,
    {
        let t = c.get_char(i);
        if !(('0' <= t && t <= '9') || ('a' <= t && t <= 'z') || ('A' <= t && t <= 'Z') || t == '-') {
            assert(!(er_alfanumerisk(c@[i as int]) || c@[i as int] == '-'));
            return false;
        }
        i = i + 1;
    }
    true
}

/// A new dimension: a known kind, a code and a name, a code of letters,
/// digits and '-', and a customer only on a project.
pub fn sjekk_ny_dimensjon(kind: &str, code: &str, name: &str, kunde: &Option<String>) -> (r: Result<(), DimensjonFeil>)
    ensures
        r == (if !dimensjonstype(kind@) {
            Err(DimensjonFeil::UkjentType)
        } else if code@.len() == 0 || name@.len() == 0 {
            Err(DimensjonFeil::ManglerKodeEllerNavn)
        } else if !gyldig_kode(code@) {
            Err(DimensjonFeil::UgyldigKode)
        } else if (kunde matches Some(k) && k@.len() > 0) && kind@ != "prosjekt"@ {
            Err(DimensjonFeil::KundeBareForProsjekt)
        } else {
            Ok(())
        }),
{
    if !(like(kind, "avdeling") || like(kind, "prosjekt")) {
        return Err(DimensjonFeil::UkjentType);
    }
    if code.unicode_len() == 0 || name.unicode_len() == 0 {
        return Err(DimensjonFeil::ManglerKodeEllerNavn);
    }
    if !er_gyldig_kode(code) {
        return Err(DimensjonFeil::UgyldigKode);
    }
    let har_kunde = match kunde {
        Some(k) => k.unicode_len() > 0,
        None => false,
    };
    if har_kunde && !like(kind, "prosjekt") {
        return Err(DimensjonFeil::KundeBareForProsjekt);
    }
    Ok(())
}

/// What a change does with the customer link.
#[derive(Clone, Copy, Debug, PartialEq, Eq, Structural)]
pub enum Kundelenke {
    /// Leave it as it is.
    Uendret,
    /// Clear it.
    Fjern,
    /// Point it at the named customer.
    Sett,
}

/// A change: only a project may become billable by default or get a
/// customer; an empty customer clears the link.
pub fn sjekk_endring(kind: &str, kunde: &Option<String>, fakturerbar_default: Option<bool>) -> (r: Result<Kundelenke, DimensjonFeil>)
    ensures
        fakturerbar_default == Some(true) && kind@ != "prosjekt"@ ==> r == Err::<Kundelenke, DimensjonFeil>(
            DimensjonFeil::FakturerbarBareForProsjekt,
        ),
        !(fakturerbar_default == Some(true) && kind@ != "prosjekt"@) ==> r == (match kunde {
            None => Ok(Kundelenke::Uendret),
            Some(k) => if k@.len() == 0 {
                Ok(Kundelenke::Fjern)
            } else if kind@ != "prosjekt"@ {
                Err(DimensjonFeil::KundeBareForProsjekt)
            } else {
                Ok(Kundelenke::Sett)
            },
        }),
{
    let prosjekt = like(kind, "prosjekt");
    if fakturerbar_default == Some(true) && !prosjekt {
        return Err(DimensjonFeil::FakturerbarBareForProsjekt);
    }
    match kunde {
        None => Ok(Kundelenke::Uendret),
        Some(k) => if k.unicode_len() == 0 {
            Ok(Kundelenke::Fjern)
        } else if !prosjekt {
            Err(DimensjonFeil::KundeBareForProsjekt)
        } else {
            Ok(Kundelenke::Sett)
        },
    }
}

/// An hourly rate is not negative, and a person-specific rate needs the
/// person to be a member of the company.
pub fn sjekk_sats(timesats_ore: i64, person: Option<bool>) -> (r: Result<(), DimensjonFeil>)
    ensures
        timesats_ore < 0 ==> r == Err::<(), DimensjonFeil>(DimensjonFeil::NegativSats),
        timesats_ore >= 0 ==> r == (match person {
            Some(false) => Err(DimensjonFeil::IkkeMedlem),
            _ => Ok(()),
        }),
{
    if timesats_ore < 0 {
        return Err(DimensjonFeil::NegativSats);
    }
    match person {
        Some(false) => Err(DimensjonFeil::IkkeMedlem),
        _ => Ok(()),
    }
}

} // verus!
