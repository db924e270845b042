//! Attachments: the documentation a voucher carries, stored with the
//! SHA-256 of its content and re-checked against it on every read.

use crate::ledger::like_bytes;
use crate::tekst::{siffer_av, siffertegn, streng_av};
use vstd::prelude::*;

verus! {

/// The lowercase hex digit for 0–15.
pub open spec fn hexsiffer(n: int) -> char {
    if n < 10 {
        siffertegn(n)
    } else if n == 10 {
        'a'
    } else if n == 11 {
        'b'
    } else if n == 12 {
        'c'
    } else if n == 13 {
        'd'
    } else if n == 14 {
        'e'
    } else {
        'f'
    }
}

/// Bytes as lowercase hex, two digits each.
pub open spec fn hex_av(b: Seq<u8>) -> Seq<char>
    decreases b.len(),
{
    if b.len() == 0 {
        Seq::empty()
    } else {
        hex_av(b.drop_last()) + seq![hexsiffer((b.last() / 16) as int), hexsiffer((b.last() % 16) as int)]
    }
}

fn hexsiffer_av(n: u8) -> (r: char)
    requires
        n < 16,
    ensures
        r == hexsiffer(n as int),
{
    if n < 10 {
        siffer_av(n as u64)
    } else if n == 10 {
        'a'
    } else if n == 11 {
        'b'
    } else if n == 12 {
        'c'
    } else if n == 13 {
        'd'
    } else if n == 14 {
        'e'
    } else {
        'f'
    }
}

/// Bytes as lowercase hex, two digits per byte.
pub fn hex(bytes: &[u8]) -> (r: String)
    ensures
        r@ == hex_av(bytes@),
{
    let mut v: Vec<char> = Vec::new();
    let mut i: usize = 0;
    while i < bytes.len()
        invariant
            i <= bytes@.len(),
            v@ == hex_av(bytes@.take(i as int)),
        decreases bytes@.len() - i,
    {
        let b = bytes[i];
        v.push(hexsiffer_av(b / 16));
        v.push(hexsiffer_av(b % 16));
        let ghost t = bytes@.take(i + 1);
        assert(t.drop_last() =~= bytes@.take(i as int));
        assert(t.last() == b);
        i = i + 1;
        assert(v@ =~= hex_av(bytes@.take(i as int)));
    }
    assert(bytes@.take(bytes@.len() as int) =~= bytes@);
    streng_av(&v)
}

/// Why an attachment is refused or fails its check.
#[derive(Clone, Debug, PartialEq, Eq)]
pub enum VedleggFeil {
    /// The content is empty.
    Tomt,
    /// The voucher is not in this company.
    UkjentBilag,
    /// The stored content no longer matches its stored hash.
    Endret { id: u128 },
}

/// An attachment can be added when it has content and its voucher is in
/// the company.
pub fn sjekk_nytt_vedlegg(lengde: usize, bilag_finnes: bool) -> (r: Result<(), VedleggFeil>)
    ensures
        lengde == 0 ==> r == Err::<(), VedleggFeil>(VedleggFeil::Tomt),
        lengde > 0 && !bilag_finnes ==> r == Err::<(), VedleggFeil>(VedleggFeil::UkjentBilag),
        lengde > 0 && bilag_finnes ==> r is Ok,
{
    if lengde == 0 {
        Err(VedleggFeil::Tomt)
    } else if !bilag_finnes {
        Err(VedleggFeil::UkjentBilag)
    } else {
        Ok(())
    }
}

/// A stored attachment: its id, the hash stored with it and the hash of
/// its content as read back.
#[derive(Clone, Debug)]
pub struct VedleggHash {
    pub id: u128,
    pub lagret: Vec<u8>,
    pub beregnet: Vec<u8>,
}

/// Every attachment's content still hashes to its stored hash: the count
/// checked, or the first that does not.
pub fn kontroller_vedlegg(rader: &Vec<VedleggHash>) -> (r: Result<usize, VedleggFeil>)
    ensures
        match r {
            Ok(n) => n == rader@.len() && forall|i: int| 0 <= i < rader@.len() ==> #[trigger] rader@[i].lagret@
                == rader@[i].beregnet@,
            Err(VedleggFeil::Endret { id }) => exists|i: int|
                0 <= i < rader@.len() && rader@[i].id == id && rader@[i].lagret@ != rader@[i].beregnet@
                    && forall|k: int| 0 <= k < i ==> #[trigger] rader@[k].lagret@ == rader@[k].beregnet@,
            Err(_) => false,
        },
{
    let mut i: usize = 0;
    while i < rader.len()
        invariant
            i <= rader@.len(),
            forall|k: int| 0 <= k < i ==> #[trigger] rader@[k].lagret@ == rader@[k].beregnet@,
        decreases rader@.len() - i,
    {
        let r = &rader[i];
        if !like_bytes(r.lagret.as_slice(), r.beregnet.as_slice()) {
            return Err(VedleggFeil::Endret { id: r.id });
        }
        i = i + 1;
    }
    Ok(rader.len())
}

} // verus!
