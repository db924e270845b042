//! Closing a year: the tax cost and the transfer of the year's result to
//! equity, as one voucher dated the last day of the year.

use crate::bilag::{EntryDraft, VoucherDraft, balansert, enkel_linje, lemma_sum_push, sum_linjer};
use crate::dato::{Dato, for_, gyldig};
use crate::tekst::{desimal, heltall_tekst};
use vstd::prelude::*;
use vstd::string::*;

verus! {

/// A closed year.
#[derive(Debug)]
pub struct Arsavslutning {
    pub ar: i32,
    /// (fiscal year, voucher number) of the closing voucher.
    pub voucher: (i32, i64),
    pub resultat_for_skatt_ore: i64,
    pub skattekostnad_ore: i64,
    pub disponert_ore: i64,
    pub created_by: String,
}

/// Why a year is not closed.
#[derive(Clone, Debug, PartialEq, Eq)]
pub enum ArsFeil {
    /// A tax benefit is deferred tax, which is not built.
    NegativSkatt,
    UgyldigAr,
    AlleredeAvsluttet,
    /// The period is locked through this date, on or after the year's end.
    Last { las: Dato },
    /// Neither a result nor a tax cost to dispose of.
    IngentingADisponere,
}

/// The last day of a (calendar) fiscal year.
pub open spec fn arsslutt(ar: int) -> Dato {
    Dato { ar: ar as i32, maned: 12, dag: 31 }
}

/// The closing voucher's lines: tax cost (8300) against tax payable
/// (2500) when there is a tax cost, and the disposition (8800) against
/// other equity (2050) when the result after tax is not zero.
pub open spec fn avslutningslinjer(skatt: int, disponert: int) -> Seq<(Seq<char>, int, Seq<char>)> {
    let a: Seq<(Seq<char>, int, Seq<char>)> = if skatt != 0 {
        seq![("8300"@, skatt, "Skattekostnad"@), ("2500"@, -skatt, "Betalbar skatt"@)]
    } else {
        Seq::empty()
    };
    if disponert != 0 {
        a.push(("8800"@, disponert, "Disponering av årets resultat"@)).push(
            ("2050"@, -disponert, "Overført til annen egenkapital"@),
        )
    } else {
        a
    }
}

fn legg_til(entries: &mut Vec<EntryDraft>, konto: &str, belop: i64, tekst: &str)
    ensures
        final(entries)@.len() == old(entries)@.len() + 1,
        forall|i: int| 0 <= i < old(entries)@.len() ==> final(entries)@[i] == old(entries)@[i],
        enkel_linje(konto@, belop as int, Some(tekst@), final(entries)@[old(entries)@.len() as int]),
        sum_linjer(final(entries)@) == sum_linjer(old(entries)@) + belop,
{
    let e = crate::bilag::linje(konto, belop, Some(String::from_str(tekst)));
    proof {
        lemma_sum_push(entries@, e);
    }
    entries.push(e);
}

/// The closing of year `ar` with the caller's tax cost and the ledger's
/// result before tax. Refused, in order: a negative tax cost; a year
/// outside the calendar; a year already closed; a lock on or after the
/// year's last day (the closing sets the lock itself); nothing to
/// dispose of. On success the amount disposed of (result less tax) and
/// the voucher.
pub fn arsavslutning(
    ar: i32,
    skattekostnad_ore: i64,
    resultat_for_skatt_ore: i64,
    alt_avsluttet: bool,
    las: Option<Dato>,
) -> (r: Result<(i64, VoucherDraft), ArsFeil>)
    requires
        i64::MIN < resultat_for_skatt_ore - skattekostnad_ore <= i64::MAX,
    ensures
        skattekostnad_ore < 0 ==> r == Err::<(i64, VoucherDraft), ArsFeil>(ArsFeil::NegativSkatt),
        skattekostnad_ore >= 0 && !gyldig(arsslutt(ar as int)) ==> r == Err::<(i64, VoucherDraft), ArsFeil>(ArsFeil::UgyldigAr),
        skattekostnad_ore >= 0 && gyldig(arsslutt(ar as int)) && alt_avsluttet ==> r == Err::<(i64, VoucherDraft), ArsFeil>(
            ArsFeil::AlleredeAvsluttet,
        ),
        skattekostnad_ore >= 0 && gyldig(arsslutt(ar as int)) && !alt_avsluttet && (las matches Some(l) && !for_(l, arsslutt(ar as int)))
            ==> r == Err::<(i64, VoucherDraft), ArsFeil>(ArsFeil::Last { las: las.unwrap() }),
        skattekostnad_ore >= 0 && gyldig(arsslutt(ar as int)) && !alt_avsluttet && !(las matches Some(l) && !for_(l, arsslutt(ar as int)))
            ==> match r {
            Err(e) => e == ArsFeil::IngentingADisponere && skattekostnad_ore == 0 && resultat_for_skatt_ore == 0,
            Ok((disponert, v)) => {
                let ls = avslutningslinjer(skattekostnad_ore as int, disponert as int);
                &&& disponert == resultat_for_skatt_ore - skattekostnad_ore
                &&& !(skattekostnad_ore == 0 && resultat_for_skatt_ore == 0)
                &&& v.journal_code@ == "GL"@
                &&& v.voucher_date == arsslutt(ar as int)
                &&& v.description@ == "Årsavslutning "@ + desimal(ar as int)
                &&& v.reverses is None
                &&& v.entries@.len() == ls.len()
                &&& forall|i: int| 0 <= i < ls.len() ==> #[trigger] enkel_linje(ls[i].0, ls[i].1, Some(ls[i].2), v.entries@[i])
                &&& balansert(v)
            },
        },
{
    if skattekostnad_ore < 0 {
        return Err(ArsFeil::NegativSkatt);
    }
    if ar < -262143 || ar > 262142 {
        return Err(ArsFeil::UgyldigAr);
    }
    if alt_avsluttet {
        return Err(ArsFeil::AlleredeAvsluttet);
    }
    let slutt = Dato { ar, maned: 12, dag: 31 };
    match las {
        Some(l) => {
            if !crate::dato::er_for(l, slutt) {
                return Err(ArsFeil::Last { las: l });
            }
        },
        None => {},
    }
    let disponert = resultat_for_skatt_ore - skattekostnad_ore;
    let ghost ls = avslutningslinjer(skattekostnad_ore as int, disponert as int);
    let mut e: Vec<EntryDraft> = Vec::new();
    if skattekostnad_ore != 0 {
        legg_til(&mut e, "8300", skattekostnad_ore, "Skattekostnad");
        legg_til(&mut e, "2500", -skattekostnad_ore, "Betalbar skatt");
    }
    if disponert != 0 {
        legg_til(&mut e, "8800", disponert, "Disponering av årets resultat");
        legg_til(&mut e, "2050", -disponert, "Overført til annen egenkapital");
    }
    assert(e@.len() == ls.len());
    assert(forall|i: int| 0 <= i < ls.len() ==> #[trigger] enkel_linje(ls[i].0, ls[i].1, Some(ls[i].2), e@[i]));
    if e.len() == 0 {
        return Err(ArsFeil::IngentingADisponere);
    }
    let mut tekst = String::from_str("Årsavslutning ");
    tekst.append(heltall_tekst(ar as i64).as_str());
    Ok((disponert, VoucherDraft {
        journal_code: String::from_str("GL"),
        voucher_date: slutt,
        description: tekst,
        reverses: None,
        entries: e,
    }))
}

/// What a closing disposes of is exactly the year's result: the tax cost
/// and the amount transferred to equity together make up the result
/// before tax, and the voucher balances.
pub proof fn lov_avslutning_disponerer_resultatet(skatt: i64, resultat: i64, disponert: i64, v: VoucherDraft)
    requires
        disponert == resultat - skatt,
        v.entries@.len() == avslutningslinjer(skatt as int, disponert as int).len(),
        forall|i: int| 0 <= i < v.entries@.len() ==> #[trigger] enkel_linje(
            avslutningslinjer(skatt as int, disponert as int)[i].0,
            avslutningslinjer(skatt as int, disponert as int)[i].1,
            Some(avslutningslinjer(skatt as int, disponert as int)[i].2),
            v.entries@[i],
        ),
    ensures
        skatt + disponert == resultat,
        balansert(v),
{
    let ls = avslutningslinjer(skatt as int, disponert as int);
    let e = v.entries@;
    assert forall|i: int| 0 <= i < e.len() implies (#[trigger] e[i]).amount_ore == ls[i].1 by {
        assert(enkel_linje(ls[i].0, ls[i].1, Some(ls[i].2), e[i]));
    }
    assert(ls.len() % 2 == 0);
    assert forall|i: int| 0 <= i < ls.len() && i % 2 == 0 implies #[trigger] ls[i].1 + ls[i + 1].1 == 0 by {
        if skatt != 0 && disponert != 0 {
            assert(i == 0 || i == 2);
        }
    }
    lemma_sum_prefiks(e, ls);
}

proof fn lemma_sum_prefiks(e: Seq<EntryDraft>, ls: Seq<(Seq<char>, int, Seq<char>)>)
    requires
        e.len() == ls.len(),
        forall|i: int| 0 <= i < e.len() ==> (#[trigger] e[i]).amount_ore == ls[i].1,
        ls.len() % 2 == 0,
        forall|i: int| 0 <= i < ls.len() && i % 2 == 0 ==> #[trigger] ls[i].1 + ls[i + 1].1 == 0,
    ensures
        sum_linjer(e) == 0,
    decreases e.len(),
{
    if e.len() > 0 {
        let n = e.len() as int;
        let k = e.drop_last().drop_last();
        assert(e.drop_last() =~= k.push(e[n - 2]));
        assert(e =~= k.push(e[n - 2]).push(e[n - 1]));
        assert(ls.drop_last().drop_last().len() % 2 == 0);
        assert forall|i: int| 0 <= i < k.len() && i % 2 == 0 implies #[trigger] ls.drop_last().drop_last()[i].1 + ls.drop_last().drop_last()[i + 1].1 == 0 by {
            assert(ls[i].1 + ls[i + 1].1 == 0);
        }
        lemma_sum_prefiks(k, ls.drop_last().drop_last());
        lemma_sum_push(k, e[n - 2]);
        lemma_sum_push(k.push(e[n - 2]), e[n - 1]);
        assert(ls[n - 2].1 + ls[n - 1].1 == 0);
    }
}

} // verus!
