//! Payment lists: which supplier posts are open to pay, the checks a
//! list's items pass, and the payout voucher that settles a list.

use crate::bilag::{EntryDraft, VoucherDraft, balansert, lemma_sum_push, sum_linjer};
use crate::dato::Dato;
use crate::tekst::{like, opt_syn};
use vstd::prelude::*;
use vstd::string::*;

verus! {

/// The payout voucher of a settled list.
#[derive(Clone, Copy, Debug)]
pub struct SettledRun {
    pub voucher_number: i64,
    pub fiscal_year: i32,
}

/// Why a payment list action is refused.
#[derive(Clone, Debug, PartialEq, Eq)]
pub enum BetalingFeil {
    TomListe,
    UgyldigDebitorkonto,
    /// Item `linje` (0-based) is not an open supplier post.
    IkkeApen { linje: usize },
    /// Item `linje`'s amount is outside 1..=open.
    UgyldigBelop { linje: usize, apent: i64 },
    /// Item `linje`'s supplier has no valid account number.
    UtenKontonummer { linje: usize },
    UgyldigKid { linje: usize },
    /// The list is in another status than the action needs.
    FeilStatus,
    UkjentKjoring,
}

/// An open supplier post: what is owed is the negated remainder, when the
/// remainder is a credit.
pub fn skyldig(remaining_ore: i64) -> (r: Option<i64>)
    requires
        remaining_ore != i64::MIN,
    ensures
        remaining_ore < 0 ==> (r matches Some(x) && x == -remaining_ore),
        remaining_ore >= 0 ==> r is None,
{
    if remaining_ore < 0 {
        Some(-remaining_ore)
    } else {
        None
    }
}

/// A list item as looked up: the post's open amount, whether the
/// supplier's account number is valid, and whether the item's KID is.
#[derive(Clone, Debug)]
pub struct Listepost {
    pub apent: Option<i64>,
    pub belop_ore: Option<i64>,
    pub konto_gyldig: bool,
    pub kid: Option<String>,
    pub kid_gyldig: bool,
}

/// The outcome of item `i` alone: the amount paid.
pub open spec fn postutfall(p: Listepost, i: int) -> Result<i64, BetalingFeil> {
    match p.apent {
        None => Err(BetalingFeil::IkkeApen { linje: i as usize }),
        Some(apent) => {
            let belop = match p.belop_ore { Some(b) => b, None => apent };
            if !(0 < belop <= apent) {
                Err(BetalingFeil::UgyldigBelop { linje: i as usize, apent })
            } else if !p.konto_gyldig {
                Err(BetalingFeil::UtenKontonummer { linje: i as usize })
            } else if p.kid is Some && !p.kid_gyldig {
                Err(BetalingFeil::UgyldigKid { linje: i as usize })
            } else {
                Ok(belop)
            }
        },
    }
}

pub open spec fn forste_postfeil(ps: Seq<Listepost>, n: int) -> Option<BetalingFeil>
    decreases n,
{
    if n <= 0 {
        None
    } else {
        match forste_postfeil(ps, n - 1) {
            Some(e) => Some(e),
            None => match postutfall(ps[n - 1], n - 1) {
                Err(e) => Some(e),
                Ok(_) => None,
            },
        }
    }
}

proof fn lemma_postfeil_stabil(ps: Seq<Listepost>, m: int, n: int)
    requires
        0 <= m <= n,
        forste_postfeil(ps, m) is Some,
    ensures
        forste_postfeil(ps, n) == forste_postfeil(ps, m),
    decreases n - m,
{
    if n > m {
        lemma_postfeil_stabil(ps, m, n - 1);
    }
}

/// A new payment list: it must have items and a valid debtor account;
/// each item must be an open supplier post, for 1 up to the open amount
/// (the whole of it when no amount is given), to a supplier with a valid
/// account number, and with a valid KID when it has one. On success the
/// amount of each item.
pub fn sjekk_liste(poster: &Vec<Listepost>, debitor_gyldig: bool) -> (r: Result<Vec<i64>, BetalingFeil>)
    ensures
        poster@.len() == 0 ==> r == Err::<Vec<i64>, BetalingFeil>(BetalingFeil::TomListe),
        poster@.len() > 0 && !debitor_gyldig ==> r == Err::<Vec<i64>, BetalingFeil>(BetalingFeil::UgyldigDebitorkonto),
        poster@.len() > 0 && debitor_gyldig ==> match r {
            Err(e) => forste_postfeil(poster@, poster@.len() as int) == Some(e),
            Ok(v) => forste_postfeil(poster@, poster@.len() as int) is None && v@.len() == poster@.len() && forall|i: int|
                0 <= i < v@.len() ==> postutfall(poster@[i], i) == Ok::<i64, BetalingFeil>(#[trigger] v@[i]),
        },
{
    if poster.len() == 0 {
        return Err(BetalingFeil::TomListe);
    }
    if !debitor_gyldig {
        return Err(BetalingFeil::UgyldigDebitorkonto);
    }
    let mut v: Vec<i64> = Vec::new();
    let mut i: usize = 0;
    while i < poster.len()
        invariant
            i <= poster@.len(),
            poster@.len() > 0,
            debitor_gyldig,
            forste_postfeil(poster@, i as int) is None,
            v@.len() == i,
            forall|k: int| 0 <= k < i ==> postutfall(poster@[k], k) == Ok::<i64, BetalingFeil>(#[trigger] v@[k]),
        decreases poster@.len() - i,
    {
        let p = &poster[i];
        let utfall: Result<i64, BetalingFeil> = match p.apent {
            None => Err(BetalingFeil::IkkeApen { linje: i }),
            Some(apent) => {
                let belop = match p.belop_ore {
                    Some(b) => b,
                    None => apent,
                };
                if !(0 < belop && belop <= apent) {
                    Err(BetalingFeil::UgyldigBelop { linje: i, apent })
                } else if !p.konto_gyldig {
                    Err(BetalingFeil::UtenKontonummer { linje: i })
                } else if p.kid.is_some() && !p.kid_gyldig {
                    Err(BetalingFeil::UgyldigKid { linje: i })
                } else {
                    Ok(belop)
                }
            },
        };
        assert(utfall == postutfall(poster@[i as int], i as int));
        match utfall {
            Err(e) => {
                proof {
                    lemma_postfeil_stabil(poster@, i + 1, poster@.len() as int);
                }
                return Err(e);
            },
            Ok(b) => {
                v.push(b);
            },
        }
        i = i + 1;
    }
    Ok(v)
}

/// The payment message of an item: its own message, else the post's
/// text; none when the item pays with a KID.
pub fn melding(item_melding: &Option<String>, post_tekst: &Option<String>, kid: &Option<String>) -> (r: Option<String>)
    ensures
        opt_syn(r) == (if kid is Some {
            None
        } else {
            match item_melding {
                Some(m) => Some(m@),
                None => opt_syn(*post_tekst),
            }
        }),
{
    if kid.is_some() {
        None
    } else {
        match item_melding {
            Some(m) => Some(m.clone()),
            None => crate::tekst::kopi_valg(post_tekst),
        }
    }
}

/// A list is approved from draft (`utkast`), and only with items.
pub fn sjekk_godkjenning(status: &str, antall: usize) -> (r: Result<(), BetalingFeil>)
    ensures
        status@ != "utkast"@ ==> r == Err::<(), BetalingFeil>(BetalingFeil::FeilStatus),
        status@ == "utkast"@ && antall == 0 ==> r == Err::<(), BetalingFeil>(BetalingFeil::TomListe),
        r is Ok <==> status@ == "utkast"@ && antall > 0,
{
    if !like(status, "utkast") {
        Err(BetalingFeil::FeilStatus)
    } else if antall == 0 {
        Err(BetalingFeil::TomListe)
    } else {
        Ok(())
    }
}

/// An item of an approved list, as settled: the post's account, its
/// supplier, and the amount.
#[derive(Clone, Debug)]
pub struct Utbetaling {
    pub account_number: String,
    pub party_no: String,
    pub belop_ore: i64,
}

/// Sum of the first `n` amounts.
pub open spec fn total_til(u: Seq<Utbetaling>, n: int) -> int
    decreases n,
{
    if n <= 0 {
        0
    } else {
        total_til(u, n - 1) + u[n - 1].belop_ore
    }
}

/// The payout voucher of an approved list: each item debits its post's
/// account with its supplier ("Remittering"), and the bank account is
/// credited the total. Refused unless the list is approved and has items.
pub fn utbetalingsbilag(
    status: &str,
    items: &Vec<Utbetaling>,
    dato: Dato,
    bank_konto: &str,
    kjoring: &str,
) -> (r: Result<VoucherDraft, BetalingFeil>)
    requires
        forall|n: int| 0 <= n <= items@.len() ==> i64::MIN < #[trigger] total_til(items@, n) <= i64::MAX,
    ensures
        status@ != "godkjent"@ ==> r == Err::<VoucherDraft, BetalingFeil>(BetalingFeil::FeilStatus),
        status@ == "godkjent"@ && items@.len() == 0 ==> r == Err::<VoucherDraft, BetalingFeil>(BetalingFeil::TomListe),
        status@ == "godkjent"@ && items@.len() > 0 ==> (r matches Ok(v) && {
            let n = items@.len() as int;
            &&& v.journal_code@ == "GL"@
            &&& v.voucher_date == dato
            &&& v.description@ == "Utbetaling betalingsliste "@ + kjoring@
            &&& v.reverses is None
            &&& v.entries@.len() == n + 1
            &&& forall|i: int| 0 <= i < n ==> {
                let e = #[trigger] v.entries@[i];
                &&& e.account_number@ == items@[i].account_number@
                &&& e.amount_ore == items@[i].belop_ore
                &&& opt_syn(e.description) == Some("Remittering"@)
                &&& opt_syn(e.party_no) == Some(items@[i].party_no@)
                &&& e.vat_code is None && e.avdeling is None && e.prosjekt is None && e.valuta is None
            }
            &&& crate::bilag::enkel_linje(bank_konto@, -total_til(items@, n), Some("Betalingskjøring "@ + kjoring@), v.entries@[n])
            &&& balansert(v)
        }),
{
    if !like(status, "godkjent") {
        return Err(BetalingFeil::FeilStatus);
    }
    if items.len() == 0 {
        return Err(BetalingFeil::TomListe);
    }
    let mut e: Vec<EntryDraft> = Vec::new();
    let mut total: i64 = 0;
    let mut i: usize = 0;
    while i < items.len()
        invariant
            i <= items@.len(),
            forall|n: int| 0 <= n <= items@.len() ==> i64::MIN < #[trigger] total_til(items@, n) <= i64::MAX,
            total == total_til(items@, i as int),
            sum_linjer(e@) == total,
            e@.len() == i,
            forall|k: int| 0 <= k < i ==> {
                let x = #[trigger] e@[k];
                &&& x.account_number@ == items@[k].account_number@
                &&& x.amount_ore == items@[k].belop_ore
                &&& opt_syn(x.description) == Some("Remittering"@)
                &&& opt_syn(x.party_no) == Some(items@[k].party_no@)
                &&& x.vat_code is None && x.avdeling is None && x.prosjekt is None && x.valuta is None
            },
        decreases items@.len() - i,
    {
        let it = &items[i];
        assert(i64::MIN < total_til(items@, i + 1) <= i64::MAX);
        total = total + it.belop_ore;
        let x = EntryDraft {
            account_number: it.account_number.clone(),
            amount_ore: it.belop_ore,
            vat_code: None,
            description: Some(String::from_str("Remittering")),
            party_no: Some(it.party_no.clone()),
            avdeling: None,
            prosjekt: None,
            valuta: None,
        };
        proof {
            lemma_sum_push(e@, x);
        }
        e.push(x);
        i = i + 1;
    }
    let mut bank_tekst = String::from_str("Betalingskjøring ");
    bank_tekst.append(kjoring);
    let b = crate::bilag::linje(bank_konto, -total, Some(bank_tekst));
    proof {
        lemma_sum_push(e@, b);
    }
    e.push(b);
    let mut tekst = String::from_str("Utbetaling betalingsliste ");
    tekst.append(kjoring);
    Ok(VoucherDraft {
        journal_code: String::from_str("GL"),
        voucher_date: dato,
        description: tekst,
        reverses: None,
        entries: e,
    })
}

/// Cancelling must hit a draft of the company.
pub fn sjekk_annullering(rader_endret: u64) -> (r: Result<(), BetalingFeil>)
    ensures
        r is Ok <==> rader_endret == 1,
        r matches Err(e) ==> e == BetalingFeil::UkjentKjoring,
{
    if rader_endret == 1 {
        Ok(())
    } else {
        Err(BetalingFeil::UkjentKjoring)
    }
}

} // verus!
