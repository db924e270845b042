//! Reskontro: parties, their open items, and matching settlements
//! against invoices. "Open" is always computed — an item is open while
//! the sum matched against it is below its own amount.

use crate::dato::Dato;
use crate::tekst::{alle_siffer, bare_siffer, bilagsetikett, etikett, like};
use vstd::prelude::*;

verus! {

/// Auto-numbering start per kind (SAF-T-friendly ranges).
pub open spec fn forste_nummer(kind: Seq<char>) -> int {
    if kind == "kunde"@ {
        10_000
    } else {
        50_000
    }
}

/// The first party number given to a kind when none exists yet.
pub fn first_party_no(kind: &str) -> (r: i64)
    ensures
        r == forste_nummer(kind@),
{
    if like(kind, "kunde") {
        10_000
    } else {
        50_000
    }
}

/// Why a party cannot be created.
#[derive(Clone, Debug, PartialEq, Eq)]
pub enum NyPartFeil {
    /// The kind is neither "kunde" nor "leverandor".
    UgyldigKind,
    /// A given party number is empty or holds a non-digit.
    UgyldigNummer,
    /// The next free number does not fit.
    Overflyt,
}

pub open spec fn gyldig_partkind(kind: Seq<char>) -> bool {
    kind == "kunde"@ || kind == "leverandor"@
}

/// The checks `create_party` makes before it numbers and inserts.
pub fn sjekk_ny_part(kind: &str, party_no: Option<&str>) -> (r: Result<(), NyPartFeil>)
    ensures
        r == (if !gyldig_partkind(kind@) {
            Err(NyPartFeil::UgyldigKind)
        } else {
            match party_no {
                Some(no) => if no@.len() > 0 && alle_siffer(no@) {
                    Ok(())
                } else {
                    Err(NyPartFeil::UgyldigNummer)
                },
                None => Ok(()),
            }
        }),
{
    if !(like(kind, "kunde") || like(kind, "leverandor")) {
        return Err(NyPartFeil::UgyldigKind);
    }
    match party_no {
        Some(no) => {
            if no.unicode_len() > 0 && bare_siffer(no) {
                Ok(())
            } else {
                Err(NyPartFeil::UgyldigNummer)
            }
        },
        None => Ok(()),
    }
}

/// The next automatic party number: one past the highest existing
/// number of the kind, or the kind's first number when there is none.
pub fn neste_party_no(hoyeste: Option<i64>, kind: &str) -> (r: Result<i64, NyPartFeil>)
    ensures
        r == (match hoyeste {
            Some(h) => if h < i64::MAX {
                Ok((h + 1) as i64)
            } else {
                Err(NyPartFeil::Overflyt)
            },
            None => Ok(forste_nummer(kind@) as i64),
        }),
{
    match hoyeste {
        Some(h) => {
            if h < i64::MAX {
                Ok(h + 1)
            } else {
                Err(NyPartFeil::Overflyt)
            }
        },
        None => Ok(first_party_no(kind)),
    }
}

/// One posting on a party, as read: its amount and the sum matched
/// against it (signed like the entry).
#[derive(Clone, Debug)]
pub struct PartyItemRad {
    pub entry_id: u128,
    pub fiscal_year: i32,
    pub voucher_number: i64,
    pub date: Dato,
    pub description: Option<String>,
    pub amount_ore: i64,
    pub matched_ore: i64,
}

/// One item in a party's reskontro, with its open remainder.
#[derive(Clone, Debug)]
pub struct PartyItem {
    pub entry_id: u128,
    pub voucher_label: String,
    pub date: Dato,
    pub description: Option<String>,
    pub amount_ore: i64,
    /// Sum already matched against this entry (signed like the entry).
    pub matched_ore: i64,
    /// `amount - matched`; the item is open while this is non-zero.
    pub remaining_ore: i64,
}

pub open spec fn rest(r: PartyItemRad) -> int {
    r.amount_ore - r.matched_ore
}

pub open spec fn passer_i_i64(x: int) -> bool {
    i64::MIN <= x <= i64::MAX
}

/// The item built from a row.
pub open spec fn post_av(r: PartyItemRad, p: PartyItem) -> bool {
    &&& p.entry_id == r.entry_id
    &&& p.voucher_label@ == bilagsetikett(r.fiscal_year as int, r.voucher_number as int)
    &&& p.date == r.date
    &&& p.description == r.description
    &&& p.amount_ore == r.amount_ore
    &&& p.matched_ore == r.matched_ore
    &&& p.remaining_ore == rest(r)
}

/// The rows that are listed: all, or only those with a remainder.
pub open spec fn tas_med(r: PartyItemRad, open_only: bool) -> bool {
    !open_only || rest(r) != 0
}

/// The rows kept, in order.
pub open spec fn valgte(rader: Seq<PartyItemRad>, open_only: bool) -> Seq<PartyItemRad> {
    rader.filter(|r: PartyItemRad| tas_med(r, open_only))
}

/// A party's items, oldest first as read, with their open remainder;
/// with `open_only`, settled items (remainder zero) are left out.
pub fn party_items(rader: &Vec<PartyItemRad>, open_only: bool) -> (r: Vec<PartyItem>)
    requires
        forall|i: int| 0 <= i < rader@.len() ==> passer_i_i64(#[trigger] rest(rader@[i])),
    ensures
        r@.len() == valgte(rader@, open_only).len(),
        forall|i: int| 0 <= i < r@.len() ==> post_av(valgte(rader@, open_only)[i], #[trigger] r@[i]),
        forall|i: int| 0 <= i < r@.len() ==> (#[trigger] r@[i]).remaining_ore == r@[i].amount_ore - r@[i].matched_ore,
        open_only ==> forall|i: int| 0 <= i < r@.len() ==> (#[trigger] r@[i]).remaining_ore != 0,
        !open_only ==> r@.len() == rader@.len(),
{
    let mut ut: Vec<PartyItem> = Vec::new();
    let mut i: usize = 0;
    while i < rader.len()
        invariant
            i <= rader@.len(),
            forall|k: int| 0 <= k < rader@.len() ==> passer_i_i64(#[trigger] rest(rader@[k])),
            ut@.len() == valgte(rader@.subrange(0, i as int), open_only).len(),
            forall|k: int| 0 <= k < ut@.len() ==> post_av(valgte(rader@.subrange(0, i as int), open_only)[k], #[trigger] ut@[k]),
        decreases rader@.len() - i,
    {
        let rad = &rader[i];
        assert(passer_i_i64(rest(rader@[i as int])));
        let remaining = rad.amount_ore - rad.matched_ore;
        let ghost foer = rader@.subrange(0, i as int);
        assert(rader@.subrange(0, i + 1) =~= foer.push(rader@[i as int]));
        proof {
            foer.lemma_filter_push(rader@[i as int], |r: PartyItemRad| tas_med(r, open_only));
        }
        if !open_only || remaining != 0 {
            let p = PartyItem {
                entry_id: rad.entry_id,
                voucher_label: etikett(rad.fiscal_year, rad.voucher_number),
                date: rad.date,
                description: rad.description.clone(),
                amount_ore: rad.amount_ore,
                matched_ore: rad.matched_ore,
                remaining_ore: remaining,
            };
            ut.push(p);
        }
        i = i + 1;
    }
    assert(rader@.subrange(0, rader@.len() as int) =~= rader@);
    proof {
        lov_poster_fra_rader(rader@, open_only);
        assert forall|k: int| 0 <= k < ut@.len() implies (#[trigger] ut@[k]).remaining_ore == ut@[k].amount_ore
            - ut@[k].matched_ore && (open_only ==> ut@[k].remaining_ore != 0) by {
            assert(post_av(valgte(rader@, open_only)[k], ut@[k]));
            if open_only {
                assert(valgte(rader@, open_only)[k].amount_ore - valgte(rader@, open_only)[k].matched_ore != 0);
            }
        }
    }
    ut
}

proof fn lemma_alle_valgt(rader: Seq<PartyItemRad>)
    ensures
        valgte(rader, false) == rader,
    decreases rader.len(),
{
    if rader.len() > 0 {
        let f = |r: PartyItemRad| tas_med(r, false);
        let c = rader.drop_last();
        lemma_alle_valgt(c);
        assert(rader =~= c.push(rader.last()));
        c.lemma_filter_push(rader.last(), f);
    }
}

/// Law: each listed item keeps its row's amount and matched sum, the
/// amount still open being the one less the other; with `open_only` only
/// rows with something open are listed, and without it every row is.
pub proof fn lov_poster_fra_rader(rader: Seq<PartyItemRad>, open_only: bool)
    ensures
        open_only ==> forall|i: int| 0 <= i < valgte(rader, open_only).len() ==> (#[trigger] valgte(
            rader,
            open_only,
        )[i]).amount_ore - valgte(rader, open_only)[i].matched_ore != 0,
        !open_only ==> valgte(rader, open_only) == rader,
        forall|r: PartyItemRad, p: PartyItem| #[trigger] post_av(r, p) ==> p.remaining_ore == p.amount_ore
            - p.matched_ore && p.amount_ore == r.amount_ore && p.matched_ore == r.matched_ore,
{
    let f = |r: PartyItemRad| tas_med(r, open_only);
    rader.filter_lemma(f);
    assert forall|i: int| 0 <= i < valgte(rader, open_only).len() implies tas_med(
        #[trigger] valgte(rader, open_only)[i],
        open_only,
    ) by {
        assert(f(rader.filter(f)[i]));
    }
    if !open_only {
        lemma_alle_valgt(rader);
    }
}

/// Law: a positive match between two items of the same party and
/// account that is within both open remainders is accepted.
pub proof fn lov_match_innenfor_godtas(amount: i64, a: i64, b: i64)
    requires
        amount > 0,
        a >= amount,
        -b >= amount,
    ensures
        match_utfall(amount, true, Some(a), Some(b)) is Ok,
{
}

/// Why a match is refused.
#[derive(Clone, Debug, PartialEq, Eq)]
pub enum MatchFeil {
    /// The amount is not positive.
    IkkePositiv,
    /// The entries are not of the same company, party and reskontro account.
    UlikPart,
    /// `entry_a` is not among the party's items.
    UkjentA,
    /// `entry_b` is not among the party's items.
    UkjentB,
    /// `entry_a` has less open than the amount.
    ForLiteApentA { apent: i64 },
    /// `entry_b` has less open than the amount.
    ForLiteApentB { apent: i128 },
}

/// The rule for matching an invoice-side entry (`a`, positive
/// remainder) against a settlement-side entry (`b`, negative
/// remainder) for `amount`: positive, same party and account, and no
/// more than either remainder.
pub open spec fn match_utfall(
    amount: i64,
    samme_part_og_konto: bool,
    rest_a: Option<i64>,
    rest_b: Option<i64>,
) -> Result<(), MatchFeil> {
    if amount <= 0 {
        Err(MatchFeil::IkkePositiv)
    } else if !samme_part_og_konto {
        Err(MatchFeil::UlikPart)
    } else {
        match (rest_a, rest_b) {
            (None, _) => Err(MatchFeil::UkjentA),
            (Some(_), None) => Err(MatchFeil::UkjentB),
            (Some(a), Some(b)) => if a < amount {
                Err(MatchFeil::ForLiteApentA { apent: a })
            } else if -b < amount {
                Err(MatchFeil::ForLiteApentB { apent: (-b) as i128 })
            } else {
                Ok(())
            },
        }
    }
}

/// The checks of `match_items`, given what was looked up: whether both
/// entries share company, party and account, and each entry's open
/// remainder (`None` when it is not among the party's items).
pub fn sjekk_match(
    amount_ore: i64,
    samme_part_og_konto: bool,
    rest_a: Option<i64>,
    rest_b: Option<i64>,
) -> (r: Result<(), MatchFeil>)
    ensures
        r == match_utfall(amount_ore, samme_part_og_konto, rest_a, rest_b),
{
    if amount_ore <= 0 {
        return Err(MatchFeil::IkkePositiv);
    }
    if !samme_part_og_konto {
        return Err(MatchFeil::UlikPart);
    }
    match (rest_a, rest_b) {
        (None, _) => Err(MatchFeil::UkjentA),
        (Some(_), None) => Err(MatchFeil::UkjentB),
        (Some(a), Some(b)) => {
            let minus_b: i128 = -(b as i128);
            if a < amount_ore {
                Err(MatchFeil::ForLiteApentA { apent: a })
            } else if minus_b < amount_ore as i128 {
                Err(MatchFeil::ForLiteApentB { apent: minus_b })
            } else {
                Ok(())
            }
        },
    }
}

/// Law: an accepted match never over-settles. Both remainders move
/// towards zero by the matched amount and neither crosses it.
pub proof fn lov_match_overavregner_aldri(amount: i64, a: i64, b: i64)
    requires
        match_utfall(amount, true, Some(a), Some(b)) is Ok,
    ensures
        0 <= a - amount < a,
        b < b + amount <= 0,
{
}

/// The remainder of an entry among a party's items, if it is there.
pub fn rest_for(items: &Vec<PartyItem>, entry_id: u128) -> (r: Option<i64>)
    ensures
        r == rest_av(items@, entry_id),
        forall|k: int|
            0 <= k < items@.len() && #[trigger] items@[k].entry_id == entry_id && (forall|j: int|
                0 <= j < k ==> items@[j].entry_id != entry_id) ==> r == Some(items@[k].remaining_ore),
        (forall|j: int| 0 <= j < items@.len() ==> items@[j].entry_id != entry_id) ==> r is None,
{
    proof {
        assert forall|k: int|
            0 <= k < items@.len() && #[trigger] items@[k].entry_id == entry_id && (forall|j: int|
                0 <= j < k ==> items@[j].entry_id != entry_id) implies rest_av(items@, entry_id) == Some(
            items@[k].remaining_ore,
        ) by {
            lov_rest_er_forste_posts_rest(items@, entry_id, k);
        }
        if forall|j: int| 0 <= j < items@.len() ==> items@[j].entry_id != entry_id {
            lov_rest_uten_post(items@, entry_id);
        }
    }
    let mut i: usize = 0;
    while i < items.len()
        invariant
            i <= items@.len(),
            rest_av(items@, entry_id) == rest_av_fra(items@, entry_id, i as int),
            forall|k: int|
                0 <= k < items@.len() && #[trigger] items@[k].entry_id == entry_id && (forall|j: int|
                    0 <= j < k ==> items@[j].entry_id != entry_id) ==> rest_av(items@, entry_id) == Some(
                items@[k].remaining_ore,
            ),
            (forall|j: int| 0 <= j < items@.len() ==> items@[j].entry_id != entry_id) ==> rest_av(items@, entry_id) is None,
        decreases items@.len() - i,
    {
        if items[i].entry_id == entry_id {
            return Some(items[i].remaining_ore);
        }
        i = i + 1;
    }
    None
}

/// The remainder of the first item at or after `i` for the entry.
pub open spec fn rest_av_fra(items: Seq<PartyItem>, entry_id: u128, i: int) -> Option<i64>
    decreases items.len() - i,
{
    if i < 0 || i >= items.len() {
        None
    } else if items[i].entry_id == entry_id {
        Some(items[i].remaining_ore)
    } else {
        rest_av_fra(items, entry_id, i + 1)
    }
}

/// The remainder of an entry among a party's items (the first item for
/// it), if it is there.
pub open spec fn rest_av(items: Seq<PartyItem>, entry_id: u128) -> Option<i64> {
    rest_av_fra(items, entry_id, 0)
}


proof fn lemma_rest_fra(items: Seq<PartyItem>, entry_id: u128, i: int, k: int)
    requires
        0 <= i <= k < items.len(),
        items[k].entry_id == entry_id,
        forall|j: int| i <= j < k ==> items[j].entry_id != entry_id,
    ensures
        rest_av_fra(items, entry_id, i) == Some(items[k].remaining_ore),
    decreases k - i,
{
    if i < k {
        lemma_rest_fra(items, entry_id, i + 1, k);
    }
}

proof fn lemma_ingen_rest_fra(items: Seq<PartyItem>, entry_id: u128, i: int)
    requires
        0 <= i <= items.len(),
        forall|j: int| i <= j < items.len() ==> items[j].entry_id != entry_id,
    ensures
        rest_av_fra(items, entry_id, i) is None,
    decreases items.len() - i,
{
    if i < items.len() {
        lemma_ingen_rest_fra(items, entry_id, i + 1);
    }
}

/// Law: the open amount reported for an entry is the open remainder
/// (amount less what is already matched) of the first item for that
/// entry, not its amount.
pub proof fn lov_rest_er_forste_posts_rest(items: Seq<PartyItem>, entry_id: u128, k: int)
    requires
        0 <= k < items.len(),
        items[k].entry_id == entry_id,
        forall|j: int| 0 <= j < k ==> items[j].entry_id != entry_id,
    ensures
        rest_av(items, entry_id) == Some(items[k].remaining_ore),
        items[k].remaining_ore == items[k].amount_ore - items[k].matched_ore ==> rest_av(items, entry_id) == Some(
            (items[k].amount_ore - items[k].matched_ore) as i64,
        ),
{
    lemma_rest_fra(items, entry_id, 0, k);
}

/// Law: an entry that is not among the party's items has no open amount.
pub proof fn lov_rest_uten_post(items: Seq<PartyItem>, entry_id: u128)
    requires
        forall|j: int| 0 <= j < items.len() ==> items[j].entry_id != entry_id,
    ensures
        rest_av(items, entry_id) is None,
{
    lemma_ingen_rest_fra(items, entry_id, 0);
}

} // verus!
