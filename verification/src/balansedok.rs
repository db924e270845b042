//! Balance documentation: what each balance account consists of at a
//! period end. An account reconciliation stores the booked balance it
//! documented, so a later posting shows up as a difference; a stored
//! attachment is handed out only when its hash still matches.

use crate::dato::Dato;
use crate::ledger::like_bytes;
use crate::tekst::{er_blank, starter_med, trim, trimmet};
use vstd::prelude::*;
use vstd::string::*;

verus! {

/// The newest reconciliation of an account for a period.
#[derive(Clone, Debug)]
pub struct Avstemming {
    pub id: u128,
    /// The booked balance when it was reconciled.
    pub saldo_ore: i64,
    pub forklaring: String,
    pub avstemt_dato: Dato,
    pub avstemt_av: String,
    pub har_vedlegg: bool,
    pub vedlegg_navn: Option<String>,
}

/// One balance account's standing for a period.
#[derive(Clone, Debug)]
pub struct BalanseLinje {
    pub konto: String,
    pub kontonavn: String,
    /// The booked balance at period end, computed now.
    pub saldo_ore: i64,
    pub avstemt: Option<Avstemming>,
}

/// The difference between the balance now and the reconciled one, when
/// the account was reconciled and has moved since.
pub open spec fn avvik(l: BalanseLinje) -> Option<int> {
    match l.avstemt {
        Some(a) => if l.saldo_ore - a.saldo_ore != 0 { Some(l.saldo_ore - a.saldo_ore) } else { None },
        None => None,
    }
}

impl BalanseLinje {
    /// The amount the account has moved since it was reconciled; `None`
    /// when it was not reconciled or has not moved.
    pub fn avvik_ore(&self) -> (r: Option<i64>)
        requires
            self.avstemt matches Some(a) ==> i64::MIN <= self.saldo_ore - a.saldo_ore <= i64::MAX,
        ensures
            match avvik(*self) {
                Some(d) => r == Some(d as i64),
                None => r is None,
            },
    {
        match &self.avstemt {
            Some(a) => {
                let d = self.saldo_ore - a.saldo_ore;
                if d != 0 {
                    Some(d)
                } else {
                    None
                }
            },
            None => None,
        }
    }
}

/// Why a reconciliation is refused or its attachment not handed out.
#[derive(Clone, Copy, Debug, PartialEq, Eq, Structural)]
pub enum AvstemmingFeil {
    /// The reconciliation must explain what the balance consists of.
    ManglerForklaring,
    UkjentKonto,
    /// Only balance accounts (class 1 and 2) are documented.
    IkkeBalansekonto,
    TomtVedlegg,
    UkjentAvstemming,
    UtenVedlegg,
    /// The attachment changed after it was stored.
    HashAvvik,
}

/// A balance account: its number starts with 1 or 2.
pub open spec fn balansekonto(k: Seq<char>) -> bool {
    k.len() > 0 && (k[0] == '1' || k[0] == '2')
}

/// A reconciliation: an explanation that is not blank, an account that
/// exists and is a balance account, and an attachment, when given, that
/// is not empty (`vedlegg_lengde`). The result is the explanation
/// trimmed.
pub fn sjekk_avstemming(forklaring: &str, konto: &str, finnes: bool, vedlegg_lengde: Option<usize>) -> (r: Result<String, AvstemmingFeil>)
    ensures
        r is Err ==> r == (if trimmet(forklaring@).len() == 0 {
            Err::<String, AvstemmingFeil>(AvstemmingFeil::ManglerForklaring)
        } else if !finnes {
            Err(AvstemmingFeil::UkjentKonto)
        } else if !balansekonto(konto@) {
            Err(AvstemmingFeil::IkkeBalansekonto)
        } else {
            Err(AvstemmingFeil::TomtVedlegg)
        }),
        r is Ok <==> trimmet(forklaring@).len() > 0 && finnes && balansekonto(konto@) && vedlegg_lengde != Some(0usize),
        r matches Ok(f) ==> f@ == trimmet(forklaring@),
{
    if er_blank(forklaring) {
        return Err(AvstemmingFeil::ManglerForklaring);
    }
    if !finnes {
        return Err(AvstemmingFeil::UkjentKonto);
    }
    if !(starter_med(konto, '1') || starter_med(konto, '2')) {
        return Err(AvstemmingFeil::IkkeBalansekonto);
    }
    if vedlegg_lengde == Some(0usize) {
        return Err(AvstemmingFeil::TomtVedlegg);
    }
    Ok(trim(forklaring))
}

/// An attachment handed out: the reconciliation must exist (`funnet`)
/// and have an attachment, whose hash now (`beregnet`) equals the stored
/// one; the name defaults to empty and the type to
/// "application/octet-stream".
pub fn vedlegg_ut(
    funnet: bool,
    har_vedlegg: bool,
    beregnet: &[u8],
    lagret: &[u8],
    navn: Option<String>,
    content_type: Option<String>,
) -> (r: Result<(String, String), AvstemmingFeil>)
    ensures
        !funnet ==> r == Err::<(String, String), AvstemmingFeil>(AvstemmingFeil::UkjentAvstemming),
        funnet && !har_vedlegg ==> r == Err::<(String, String), AvstemmingFeil>(AvstemmingFeil::UtenVedlegg),
        funnet && har_vedlegg && beregnet@ != lagret@ ==> r == Err::<(String, String), AvstemmingFeil>(
            AvstemmingFeil::HashAvvik,
        ),
        r is Ok <==> funnet && har_vedlegg && beregnet@ == lagret@,
        r matches Ok(ut) ==> {
            &&& ut.0@ == (match navn { Some(n) => n@, None => Seq::<char>::empty() })
            &&& ut.1@ == (match content_type { Some(t) => t@, None => "application/octet-stream"@ })
        },
{
    if !funnet {
        return Err(AvstemmingFeil::UkjentAvstemming);
    }
    if !har_vedlegg {
        return Err(AvstemmingFeil::UtenVedlegg);
    }
    if !like_bytes(beregnet, lagret) {
        return Err(AvstemmingFeil::HashAvvik);
    }
    let n = match navn {
        Some(n) => n,
        None => String::from_str(""),
    };
    let t = match content_type {
        Some(t) => t,
        None => String::from_str("application/octet-stream"),
    };
    proof {
        reveal_strlit("");
    }
    Ok((n, t))
}

} // verus!
