//! The hovedbok's hash chain and the checks of the posting path.
//!
//! Every voucher stores `hash = chain_hash(prev_hash, content)`; the
//! chain is re-walked from the genesis hash by [`kontroller_kjede`],
//! which receives, per voucher, the hash recomputed from its stored
//! content, and decides whether links, contents and the chain head all
//! agree.

use crate::bilag::{EntryDraft, VoucherDraft};
use crate::dato::{Dato, for_, senest};
use crate::tekst::like;
use vstd::prelude::*;

verus! {

/// A posted voucher, as the posting path reports it.
#[derive(Clone, Debug)]
pub struct PostedVoucher {
    pub id: u128,
    pub fiscal_year: i32,
    pub voucher_number: i64,
    pub chain_seq: i64,
    pub hash: [u8; 32],
}

/// Outcome of a successful chain walk.
#[derive(Clone, Copy, Debug)]
pub struct ChainReport {
    pub vouchers_checked: i64,
}

/// A company's chain head: the sequence number and hash of its last
/// voucher (genesis hash and 0 before the first).
#[derive(Clone, Debug)]
pub struct KjedeHode {
    pub last_seq: i64,
    pub last_hash: Vec<u8>,
}

/// One stored voucher as the chain walk sees it, in chain order:
/// its stored links and the hash recomputed from its stored content.
#[derive(Clone, Debug)]
pub struct KjedeRad {
    pub id: u128,
    pub chain_seq: i64,
    pub prev_hash: Vec<u8>,
    pub hash: Vec<u8>,
    /// `chain_hash(prev_hash, content)` recomputed from what is stored.
    pub beregnet: Vec<u8>,
}

/// Why a chain walk failed.
#[derive(Clone, Debug, PartialEq, Eq)]
pub enum KjedeFeil {
    /// A stored hash (or prev_hash) of the voucher at `indeks` is not 32 bytes.
    UgyldigHash { indeks: usize, chain_seq: i64 },
    /// The stored prev_hash does not match the previous voucher's hash.
    Brutt { indeks: usize, chain_seq: i64, id: u128 },
    /// The recomputed hash does not match the stored hash.
    Endret { indeks: usize, chain_seq: i64, id: u128 },
    /// The chain head's hash is not 32 bytes.
    UgyldigHodeHash,
    /// The chain head's sequence does not match the number of vouchers.
    HodeSeq { last_seq: i64, antall: usize },
    /// The chain head's hash is not the last voucher's hash.
    HodeHash,
}

/// The hash the voucher at `i` must link to.
pub open spec fn forventet_prev(rader: Seq<KjedeRad>, genesis: Seq<u8>, i: int) -> Seq<u8> {
    if i == 0 {
        genesis
    } else {
        rader[i - 1].hash@
    }
}

pub open spec fn hasher_32(r: KjedeRad) -> bool {
    r.prev_hash@.len() == 32 && r.hash@.len() == 32
}

/// The voucher at `i` is well-formed, linked and unaltered.
pub open spec fn rad_ok(rader: Seq<KjedeRad>, genesis: Seq<u8>, i: int) -> bool {
    &&& hasher_32(rader[i])
    &&& rader[i].prev_hash@ == forventet_prev(rader, genesis, i)
    &&& rader[i].beregnet@ == rader[i].hash@
}

/// All vouchers before `n` pass.
pub open spec fn ok_til(rader: Seq<KjedeRad>, genesis: Seq<u8>, n: int) -> bool {
    forall|i: int| 0 <= i < n ==> #[trigger] rad_ok(rader, genesis, i)
}

/// The whole chain verifies: every voucher, and the head.
pub open spec fn kjede_gyldig(rader: Seq<KjedeRad>, genesis: Seq<u8>, hode: KjedeHode) -> bool {
    &&& ok_til(rader, genesis, rader.len() as int)
    &&& hode.last_hash@.len() == 32
    &&& hode.last_seq == rader.len()
    &&& hode.last_hash@ == forventet_prev(rader, genesis, rader.len() as int)
}

/// The error the walk reports for a voucher that fails, in the order
/// the checks are made: format, link, content.
pub open spec fn feil_ved(rader: Seq<KjedeRad>, genesis: Seq<u8>, i: int) -> KjedeFeil {
    let r = rader[i];
    if !hasher_32(r) {
        KjedeFeil::UgyldigHash { indeks: i as usize, chain_seq: r.chain_seq }
    } else if r.prev_hash@ != forventet_prev(rader, genesis, i) {
        KjedeFeil::Brutt { indeks: i as usize, chain_seq: r.chain_seq, id: r.id }
    } else {
        KjedeFeil::Endret { indeks: i as usize, chain_seq: r.chain_seq, id: r.id }
    }
}

/// Byte-wise equality.
pub fn like_bytes(a: &[u8], b: &[u8]) -> (r: bool)
    ensures
        r == (a@ == b@),
{
    if a.len() != b.len() {
        return false;
    }
    let mut i: usize = 0;
    while i < a.len()
        invariant
            a@.len() == b@.len(),
            i <= a@.len(),
            forall|k: int| 0 <= k < i ==> a@[k] == b@[k],
        decreases a@.len() - i,
    {
        if a[i] != b[i] {
            return false;
        }
        i = i + 1;
    }
    assert(a@ =~= b@);
    true
}

/// Re-walks a company's chain from the genesis hash: every voucher's
/// stored prev_hash must be the previous voucher's hash, every stored
/// hash must equal the one recomputed from the voucher's content, and
/// the head must name the last voucher. Stops at the first failure.
pub fn kontroller_kjede(rader: &Vec<KjedeRad>, genesis: &Vec<u8>, hode: &KjedeHode) -> (r: Result<
    ChainReport,
    KjedeFeil,
>)
    requires
        genesis@.len() == 32,
    ensures
        r is Ok <==> kjede_gyldig(rader@, genesis@, *hode),
        r matches Ok(rep) ==> rep.vouchers_checked == rader@.len(),
        r matches Err(e) ==> ({
            ||| exists|i: int|
                0 <= i < rader@.len() && ok_til(rader@, genesis@, i) && !rad_ok(rader@, genesis@, i)
                    && e == feil_ved(rader@, genesis@, i)
            ||| (ok_til(rader@, genesis@, rader@.len() as int) && e == (if hode.last_hash@.len()
                != 32 {
                KjedeFeil::UgyldigHodeHash
            } else if hode.last_seq != rader@.len() {
                KjedeFeil::HodeSeq { last_seq: hode.last_seq, antall: rader@.len() as usize }
            } else {
                KjedeFeil::HodeHash
            }))
        }),
{
    let n = rader.len();
    let mut i: usize = 0;
    while i < n
        invariant
            n == rader@.len(),
            i <= n,
            genesis@.len() == 32,
            ok_til(rader@, genesis@, i as int),
        decreases n - i,
    {
        let r = &rader[i];
        let forventet: &Vec<u8> = if i == 0 {
            genesis
        } else {
            &rader[i - 1].hash
        };
        assert(forventet@ == forventet_prev(rader@, genesis@, i as int));
        if r.prev_hash.len() != 32 || r.hash.len() != 32 {
            assert(!rad_ok(rader@, genesis@, i as int));
            return Err(KjedeFeil::UgyldigHash { indeks: i, chain_seq: r.chain_seq });
        }
        if !like_bytes(r.prev_hash.as_slice(), forventet.as_slice()) {
            assert(!rad_ok(rader@, genesis@, i as int));
            return Err(KjedeFeil::Brutt { indeks: i, chain_seq: r.chain_seq, id: r.id });
        }
        if !like_bytes(r.beregnet.as_slice(), r.hash.as_slice()) {
            assert(!rad_ok(rader@, genesis@, i as int));
            return Err(KjedeFeil::Endret { indeks: i, chain_seq: r.chain_seq, id: r.id });
        }
        assert(rad_ok(rader@, genesis@, i as int));
        i = i + 1;
    }
    if hode.last_hash.len() != 32 {
        return Err(KjedeFeil::UgyldigHodeHash);
    }
    if hode.last_seq < 0 || hode.last_seq as u64 != n as u64 {
        return Err(KjedeFeil::HodeSeq { last_seq: hode.last_seq, antall: n });
    }
    let siste: &Vec<u8> = if n == 0 {
        genesis
    } else {
        &rader[n - 1].hash
    };
    if !like_bytes(hode.last_hash.as_slice(), siste.as_slice()) {
        return Err(KjedeFeil::HodeHash);
    }
    Ok(ChainReport { vouchers_checked: n as i64 })
}

/// Law: posting keeps a verified chain verified. Appending a voucher
/// whose prev_hash is the head's hash, and moving the head to that
/// voucher's sequence and hash, yields a chain that verifies again —
/// provided the voucher's content still recomputes to its hash.
pub proof fn lov_postering_bevarer_kjeden(
    rader: Seq<KjedeRad>,
    genesis: Seq<u8>,
    hode: KjedeHode,
    ny: KjedeRad,
    nytt_hode: KjedeHode,
)
    requires
        kjede_gyldig(rader, genesis, hode),
        ny.prev_hash@ == hode.last_hash@,
        ny.hash@.len() == 32,
        ny.beregnet@ == ny.hash@,
        nytt_hode.last_seq == hode.last_seq + 1,
        nytt_hode.last_hash@ == ny.hash@,
    ensures
        kjede_gyldig(rader.push(ny), genesis, nytt_hode),
{
    let r2 = rader.push(ny);
    assert forall|i: int| 0 <= i < r2.len() implies #[trigger] rad_ok(r2, genesis, i) by {
        if i < rader.len() {
            assert(rad_ok(rader, genesis, i));
            assert(r2[i] == rader[i]);
            if i > 0 {
                assert(r2[i - 1] == rader[i - 1]);
            }
        }
    }
}

/// Law: the empty chain of a freshly created company verifies — its
/// head is at sequence 0 with the genesis hash.
pub proof fn lov_ny_kjede_er_gyldig(genesis: Seq<u8>, hode: KjedeHode)
    requires
        genesis.len() == 32,
        hode.last_seq == 0,
        hode.last_hash@ == genesis,
    ensures
        kjede_gyldig(Seq::<KjedeRad>::empty(), genesis, hode),
{
}

/// Law: a voucher that does not link to the hash before it (the genesis
/// hash for the first voucher, else the previous voucher's hash) makes
/// the chain fail verification.
pub proof fn lov_brutt_lenke_oppdages(rader: Seq<KjedeRad>, genesis: Seq<u8>, hode: KjedeHode, i: int)
    requires
        0 <= i < rader.len(),
        i == 0 ==> rader[0].prev_hash@ != genesis,
        i > 0 ==> rader[i].prev_hash@ != rader[i - 1].hash@,
    ensures
        !kjede_gyldig(rader, genesis, hode),
{
    assert(!rad_ok(rader, genesis, i));
}

/// Law: a chain head that does not count the vouchers, or does not hold
/// the last voucher's hash (the genesis hash when there is none), makes
/// the chain fail verification.
pub proof fn lov_hodet_ma_stemme(rader: Seq<KjedeRad>, genesis: Seq<u8>, hode: KjedeHode)
    requires
        hode.last_seq != rader.len() || (rader.len() == 0 && hode.last_hash@ != genesis) || (rader.len() > 0
            && hode.last_hash@ != rader.last().hash@),
    ensures
        !kjede_gyldig(rader, genesis, hode),
{
}

/// Law: in a chain that verifies, every voucher links to the hash before
/// it and its content recomputes to its stored hash.
pub proof fn lov_gyldig_kjede_henger_sammen(rader: Seq<KjedeRad>, genesis: Seq<u8>, hode: KjedeHode)
    requires
        kjede_gyldig(rader, genesis, hode),
    ensures
        rader.len() > 0 ==> rader[0].prev_hash@ == genesis,
        forall|i: int| 0 < i < rader.len() ==> (#[trigger] rader[i]).prev_hash@ == rader[i - 1].hash@,
        forall|i: int| 0 <= i < rader.len() ==> (#[trigger] rader[i]).beregnet@ == rader[i].hash@,
        hode.last_seq == rader.len(),
{
    if rader.len() > 0 {
        assert(rad_ok(rader, genesis, 0));
    }
    assert forall|i: int| 0 < i < rader.len() implies (#[trigger] rader[i]).prev_hash@ == rader[i - 1].hash@ by {
        assert(rad_ok(rader, genesis, i));
    }
    assert forall|i: int| 0 <= i < rader.len() implies (#[trigger] rader[i]).beregnet@ == rader[i].hash@ by {
        assert(rad_ok(rader, genesis, i));
    }
}

/// Law: the error a failing voucher reports names what is wrong with it:
/// a hash of the wrong length first, then a broken link, then content
/// that no longer recomputes to its hash.
pub proof fn lov_feilen_som_meldes(rader: Seq<KjedeRad>, genesis: Seq<u8>, i: int)
    requires
        0 <= i < rader.len(),
    ensures
        (rader[i].prev_hash@.len() != 32 || rader[i].hash@.len() != 32) ==> (feil_ved(rader, genesis, i) is UgyldigHash),
        (rader[i].prev_hash@.len() == 32 && rader[i].hash@.len() == 32 && (i == 0 ==> rader[0].prev_hash@ != genesis)
            && (i > 0 ==> rader[i].prev_hash@ != rader[i - 1].hash@)) ==> (feil_ved(rader, genesis, i) == (
        KjedeFeil::Brutt { indeks: i as usize, chain_seq: rader[i].chain_seq, id: rader[i].id })),
        (rader[i].prev_hash@.len() == 32 && rader[i].hash@.len() == 32 && (i == 0 ==> rader[0].prev_hash@ == genesis)
            && (i > 0 ==> rader[i].prev_hash@ == rader[i - 1].hash@) && rader[i].beregnet@ != rader[i].hash@) ==> (
        feil_ved(rader, genesis, i) == (KjedeFeil::Endret {
            indeks: i as usize,
            chain_seq: rader[i].chain_seq,
            id: rader[i].id,
        })),
{
}

/// Law: altering the content of any voucher of a verified chain (so its
/// recomputed hash no longer matches the stored one) makes the chain
/// fail verification.
pub proof fn lov_endring_oppdages(rader: Seq<KjedeRad>, genesis: Seq<u8>, hode: KjedeHode, i: int, beregnet: Vec<u8>)
    requires
        0 <= i < rader.len(),
        beregnet@ != rader[i].hash@,
    ensures
        !kjede_gyldig(rader.update(i, KjedeRad { beregnet, ..rader[i] }), genesis, hode),
{
    let r2 = rader.update(i, KjedeRad { beregnet, ..rader[i] });
    assert(!rad_ok(r2, genesis, i));
}

/// The link a posting adds: the voucher takes the next sequence number,
/// links to the head's hash and stores the hash recomputed from its
/// content; the head moves to it.
pub open spec fn neste_ledd(hode: KjedeHode, rad: KjedeRad, ny: KjedeHode) -> bool {
    &&& rad.chain_seq == hode.last_seq + 1
    &&& rad.prev_hash@ == hode.last_hash@
    &&& rad.beregnet@ == rad.hash@
    &&& ny.last_seq == hode.last_seq + 1
    &&& ny.last_hash@ == rad.hash@
}

/// Law: a company's chain after any number of postings verifies, and
/// the walk counts every voucher. `hoder[0]` is the head of the freshly
/// created company (sequence 0, the genesis hash); posting `rader[i]`
/// moves the head from `hoder[i]` to `hoder[i + 1]`, each posting's hash
/// being 32 bytes.
pub proof fn lov_posteringer_gir_gyldig_kjede(rader: Seq<KjedeRad>, genesis: Seq<u8>, hoder: Seq<KjedeHode>)
    requires
        genesis.len() == 32,
        hoder.len() == rader.len() + 1,
        hoder[0].last_seq == 0,
        hoder[0].last_hash@ == genesis,
        forall|i: int| 0 <= i < rader.len() ==> #[trigger] neste_ledd(hoder[i], rader[i], hoder[i + 1]),
        forall|i: int| 0 <= i < rader.len() ==> (#[trigger] rader[i]).hash@.len() == 32,
    ensures
        kjede_gyldig(rader, genesis, hoder.last()),
        hoder.last().last_seq == rader.len(),
    decreases rader.len(),
{
    if rader.len() == 0 {
        lov_ny_kjede_er_gyldig(genesis, hoder[0]);
    } else {
        let n = rader.len() - 1;
        let foran = rader.take(n);
        let hoder_foran = hoder.take(n + 1);
        assert forall|i: int| 0 <= i < foran.len() implies #[trigger] neste_ledd(hoder_foran[i], foran[i], hoder_foran[i + 1]) by {
            assert(neste_ledd(hoder[i], rader[i], hoder[i + 1]));
        }
        assert forall|i: int| 0 <= i < foran.len() implies (#[trigger] foran[i]).hash@.len() == 32 by {
            assert(rader[i].hash@.len() == 32);
        }
        lov_posteringer_gir_gyldig_kjede(foran, genesis, hoder_foran);
        assert(neste_ledd(hoder[n], rader[n], hoder[n + 1]));
        assert(rader[n].hash@.len() == 32);
        lov_postering_bevarer_kjeden(foran, genesis, hoder[n], rader[n], hoder[n + 1]);
        assert(foran.push(rader[n]) == rader);
    }
}

/// The next chain link when posting: the new voucher links to the head's
/// hash and takes the next sequence number; the head moves to it.
/// `beregnet` is `chain_hash(head hash, content)` for the new voucher.
pub fn neste_kjedeledd(hode: &KjedeHode, id: u128, beregnet: &Vec<u8>) -> (r: Result<
    (KjedeRad, KjedeHode),
    KjedeFeil,
>)
    ensures
        r is Err <==> (hode.last_hash@.len() != 32 || hode.last_seq == i64::MAX),
        r matches Ok((rad, ny)) ==> rad.id == id && rad.hash@ == beregnet@ && neste_ledd(*hode, rad, ny),
        r matches Ok((rad, ny)) ==> {
            &&& rad.chain_seq == hode.last_seq + 1
            &&& rad.prev_hash@ == hode.last_hash@
            &&& rad.beregnet@ == beregnet@
            &&& ny.last_seq == hode.last_seq + 1
            &&& ny.last_hash@ == beregnet@
        },
        r matches Err(e) ==> e == KjedeFeil::UgyldigHodeHash,
{
    if hode.last_hash.len() != 32 || hode.last_seq == i64::MAX {
        return Err(KjedeFeil::UgyldigHodeHash);
    }
    let seq = hode.last_seq + 1;
    let rad = KjedeRad {
        id,
        chain_seq: seq,
        prev_hash: hode.last_hash.clone(),
        hash: beregnet.clone(),
        beregnet: beregnet.clone(),
    };
    let ny = KjedeHode { last_seq: seq, last_hash: beregnet.clone() };
    Ok((rad, ny))
}

/// A stored hash as 32 bytes, or `None` when it has another length.
pub fn to_hash32(bytes: Vec<u8>) -> (r: Option<[u8; 32]>)
    ensures
        r is Some <==> bytes@.len() == 32,
        r matches Some(a) ==> a@ == bytes@,
{
    if bytes.len() != 32 {
        return None;
    }
    let mut a: [u8; 32] = [0u8; 32];
    let mut i: usize = 0;
    while i < 32
        invariant
            bytes@.len() == 32,
            i <= 32,
            a@.len() == 32,
            forall|k: int| 0 <= k < i ==> a@[k] == bytes@[k],
        decreases 32 - i,
    {
        a[i] = bytes[i];
        i = i + 1;
    }
    assert(a@ =~= bytes@);
    Some(a)
}

/// An empty optional text is stored as no text.
pub fn none_if_empty(value: &Option<String>) -> (r: Option<String>)
    ensures
        r == (match *value {
            Some(s) => if s@.len() > 0 {
                Some(s)
            } else {
                None
            },
            None => None,
        }),
        r matches Some(s) ==> s@.len() > 0,
{
    match value {
        Some(s) => {
            if s.as_str().is_empty() {
                None
            } else {
                Some(s.clone())
            }
        },
        None => None,
    }
}

/// One line of what a posted voucher's hash covers.
#[derive(Clone, Debug)]
pub struct Hashlinje {
    pub line_no: i32,
    pub account_number: String,
    pub amount: i64,
    pub vat_code: Option<String>,
    pub description: Option<String>,
    pub party_no: Option<String>,
}

/// Everything a posted voucher's hash covers: the voucher's place in the
/// company's chain and numbering, its stored content, who posted it and
/// when (microseconds since the epoch), and its lines.
#[derive(Clone, Debug)]
pub struct Hashgrunnlag {
    pub hash_version: i32,
    pub company_id: u128,
    pub chain_seq: i64,
    pub journal_code: String,
    pub fiscal_year: i32,
    pub voucher_number: i64,
    pub voucher_date: Dato,
    pub description: String,
    pub reverses: Option<u128>,
    pub created_by: String,
    pub created_at: i64,
    pub entries: Vec<Hashlinje>,
}

/// An optional text as stored: empty text is no text.
pub open spec fn tom_som_ingen(o: Option<String>) -> Option<String> {
    match o {
        Some(s) => if s@.len() > 0 {
            Some(s)
        } else {
            None
        },
        None => None,
    }
}

/// The hashed form of the draft line at index `i`: numbered from 1, with
/// empty texts stored as none.
pub open spec fn hashlinje_av(h: Hashlinje, e: EntryDraft, i: int) -> bool {
    &&& h.line_no == i + 1
    &&& h.account_number@ == e.account_number@
    &&& h.amount == e.amount_ore
    &&& h.vat_code == tom_som_ingen(e.vat_code)
    &&& h.description == tom_som_ingen(e.description)
    &&& h.party_no == tom_som_ingen(e.party_no)
}

/// `g` is what the hash of a voucher posted from `draft` covers: the next
/// sequence number after the chain head, the fiscal year of its date and
/// the number the journal's counter gave it, the draft's content, and its
/// lines numbered from 1 with empty texts as none.
pub open spec fn er_hashgrunnlag(
    g: Hashgrunnlag,
    draft: VoucherDraft,
    company_id: u128,
    hode: KjedeHode,
    voucher_number: i64,
    created_by: Seq<char>,
    created_at: i64,
    hash_version: i32,
) -> bool {
    &&& g.hash_version == hash_version
    &&& g.company_id == company_id
    &&& g.chain_seq == hode.last_seq + 1
    &&& g.journal_code@ == draft.journal_code@
    &&& g.fiscal_year == draft.voucher_date.ar
    &&& g.voucher_number == voucher_number
    &&& g.voucher_date == draft.voucher_date
    &&& g.description@ == draft.description@
    &&& g.reverses == draft.reverses
    &&& g.created_by@ == created_by
    &&& g.created_at == created_at
    &&& g.entries@.len() == draft.entries@.len()
    &&& forall|i: int| 0 <= i < g.entries@.len() ==> hashlinje_av(#[trigger] g.entries@[i], draft.entries@[i], i)
}

/// Empty texts are left out of what a line's hash covers, and every
/// other text is kept as it was.
pub open spec fn tomme_tekster_utelatt(h: Hashlinje, e: EntryDraft) -> bool {
    &&& (h.vat_code matches Some(t) ==> t@.len() > 0 && e.vat_code == Some(t))
    &&& (e.vat_code matches Some(t) ==> (t@.len() > 0 ==> h.vat_code == Some(t)))
    &&& (e.vat_code is None ==> h.vat_code is None)
    &&& (h.description matches Some(t) ==> t@.len() > 0 && e.description == Some(t))
    &&& (e.description matches Some(t) ==> (t@.len() > 0 ==> h.description == Some(t)))
    &&& (e.description is None ==> h.description is None)
    &&& (h.party_no matches Some(t) ==> t@.len() > 0 && e.party_no == Some(t))
    &&& (e.party_no matches Some(t) ==> (t@.len() > 0 ==> h.party_no == Some(t)))
    &&& (e.party_no is None ==> h.party_no is None)
}

/// Law: the hashed form of a line keeps every non-empty text of the line
/// and stores an empty or missing text as none.
pub proof fn lov_tom_tekst_lagres_som_ingen(h: Hashlinje, e: EntryDraft, i: int)
    requires
        hashlinje_av(h, e, i),
    ensures
        tomme_tekster_utelatt(h, e),
{
}

/// Builds the record the hash of a voucher posted from `draft` covers.
pub fn hashgrunnlag(
    draft: &VoucherDraft,
    company_id: u128,
    hode: &KjedeHode,
    voucher_number: i64,
    created_by: &str,
    created_at: i64,
    hash_version: i32,
) -> (r: Hashgrunnlag)
    requires
        hode.last_seq < i64::MAX,
        draft.entries@.len() < i32::MAX,
    ensures
        er_hashgrunnlag(r, *draft, company_id, *hode, voucher_number, created_by@, created_at, hash_version),
        r.chain_seq == hode.last_seq + 1,
        r.fiscal_year == draft.voucher_date.ar,
        r.voucher_number == voucher_number,
        r.entries@.len() == draft.entries@.len(),
        forall|i: int| 0 <= i < r.entries@.len() ==> {
            &&& (#[trigger] r.entries@[i]).line_no == i + 1
            &&& r.entries@[i].amount == draft.entries@[i].amount_ore
            &&& r.entries@[i].account_number@ == draft.entries@[i].account_number@
        },
        forall|i: int| 0 <= i < r.entries@.len() ==> tomme_tekster_utelatt(#[trigger] r.entries@[i], draft.entries@[i]),
{
    let mut linjer: Vec<Hashlinje> = Vec::new();
    let mut i: usize = 0;
    while i < draft.entries.len()
        invariant
            i <= draft.entries@.len(),
            draft.entries@.len() < i32::MAX,
            linjer@.len() == i,
            forall|k: int| 0 <= k < i ==> hashlinje_av(#[trigger] linjer@[k], draft.entries@[k], k),
        decreases draft.entries@.len() - i,
    {
        let e = &draft.entries[i];
        let nr: i32 = (i + 1) as i32;
        linjer.push(Hashlinje {
            line_no: nr,
            account_number: e.account_number.clone(),
            amount: e.amount_ore,
            vat_code: none_if_empty(&e.vat_code),
            description: none_if_empty(&e.description),
            party_no: none_if_empty(&e.party_no),
        });
        i = i + 1;
    }
    proof {
        assert forall|i: int| 0 <= i < linjer@.len() implies tomme_tekster_utelatt(#[trigger] linjer@[i], draft.entries@[i]) by {
            lov_tom_tekst_lagres_som_ingen(linjer@[i], draft.entries@[i], i);
        }
    }
    Hashgrunnlag {
        hash_version,
        company_id,
        chain_seq: hode.last_seq + 1,
        journal_code: draft.journal_code.clone(),
        fiscal_year: draft.voucher_date.ar,
        voucher_number,
        voucher_date: draft.voucher_date,
        description: draft.description.clone(),
        reverses: draft.reverses,
        created_by: String::from_str(created_by),
        created_at,
        entries: linjer,
    }
}

/// The decisions of posting a voucher, in the order the posting path
/// makes them: the double-entry rule, the period lock, every line's
/// account and reskontro party (`oppslag`, one per line), and then the
/// record the voucher's hash covers. `voucher_number` is what the
/// journal's counter gave for the voucher's fiscal year.
pub fn planlegg_postering(
    draft: &VoucherDraft,
    las: Option<Dato>,
    oppslag: &Vec<Linjeoppslag>,
    company_id: u128,
    hode: &KjedeHode,
    voucher_number: i64,
    created_by: &str,
    created_at: i64,
    hash_version: i32,
) -> (r: Result<Hashgrunnlag, PosteringFeil>)
    requires
        hode.last_seq < i64::MAX,
        draft.entries@.len() < i32::MAX,
        oppslag@.len() < usize::MAX,
    ensures
        draft.entries@.len() < 2 ==> r == Err::<Hashgrunnlag, PosteringFeil>(PosteringFeil::ForFaLinjer),
        draft.entries@.len() >= 2 && !crate::bilag::balansert(*draft) ==> r == Err::<Hashgrunnlag, PosteringFeil>(
            PosteringFeil::Ubalansert,
        ),
        draft.entries@.len() >= 2 && crate::bilag::balansert(*draft) && las_avviser(las, draft.voucher_date)
            ==> r == Err::<Hashgrunnlag, PosteringFeil>(PosteringFeil::Last { las: las->0 }),
        draft.entries@.len() >= 2 && crate::bilag::balansert(*draft) && !las_avviser(las, draft.voucher_date)
            ==> match forste_linjefeil(oppslag@, oppslag@.len() as int) {
            Some(e) => r == Err::<Hashgrunnlag, PosteringFeil>(e),
            None => r matches Ok(g) && er_hashgrunnlag(
                g,
                *draft,
                company_id,
                *hode,
                voucher_number,
                created_by@,
                created_at,
                hash_version,
            ),
        },
{
    sjekk_bilag(draft)?;
    match sjekk_periodelas(las, draft.voucher_date) {
        Err(l) => {
            return Err(PosteringFeil::Last { las: l });
        },
        Ok(()) => {},
    }
    match kontroller_linjer(oppslag) {
        Err(e) => {
            return Err(e);
        },
        Ok(_) => {},
    }
    Ok(hashgrunnlag(draft, company_id, hode, voucher_number, created_by, created_at, hash_version))
}

/// Law: the voucher a posting stores and the record its hash covers
/// agree. When `g` is the hashed record built against the chain head and
/// the posting links the voucher to that head, the stored voucher has the
/// hashed sequence number, links to the head's hash, and the head moves
/// to that sequence number; the hashed fiscal year is the voucher date's
/// year.
pub proof fn lov_postering_stemmer_med_hashen(
    g: Hashgrunnlag,
    draft: VoucherDraft,
    company_id: u128,
    hode: KjedeHode,
    voucher_number: i64,
    created_by: Seq<char>,
    created_at: i64,
    hash_version: i32,
    rad: KjedeRad,
    ny: KjedeHode,
)
    requires
        er_hashgrunnlag(g, draft, company_id, hode, voucher_number, created_by, created_at, hash_version),
        neste_ledd(hode, rad, ny),
    ensures
        rad.chain_seq == g.chain_seq,
        ny.last_seq == g.chain_seq,
        rad.prev_hash@ == hode.last_hash@,
        ny.last_hash@ == rad.hash@,
        g.fiscal_year == draft.voucher_date.ar,
        g.voucher_number == voucher_number,
{
}

/// The locked-through date refuses postings dated on or before it.
pub open spec fn las_avviser(las: Option<Dato>, dato: Dato) -> bool {
    las matches Some(l) && senest(dato, l)
}

/// The period lock check of the posting path: `Err(lock)` when the
/// voucher date is on or before the locked-through date.
pub fn sjekk_periodelas(las: Option<Dato>, voucher_date: Dato) -> (r: Result<(), Dato>)
    ensures
        r is Err <==> las_avviser(las, voucher_date),
        r matches Err(l) ==> las == Some(l),
        las is None ==> r is Ok,
        (las matches Some(l) && senest(voucher_date, l)) ==> r == Err::<(), Dato>(las->0),
        (las matches Some(l) && for_(l, voucher_date)) ==> r is Ok,
{
    match las {
        Some(l) => {
            if crate::dato::er_senest(voucher_date, l) {
                Err(l)
            } else {
                Ok(())
            }
        },
        None => Ok(()),
    }
}

/// Why a line's party does not fit its account.
#[derive(Clone, Debug, PartialEq, Eq)]
pub enum PartFeil {
    /// The account is a reskontro account and no such party exists.
    UkjentPart { linje: usize },
    /// The party is of another kind than the account's reskontro.
    FeilKind { linje: usize },
    /// The account is a reskontro account; the line needs a party.
    ManglerPart { linje: usize },
    /// The account is not a reskontro account; the line may not carry a party.
    IkkeReskontro { linje: usize },
}

/// The reskontro rule of the posting path, for line `linje` (1-based):
/// accounts flagged with a reskontro kind require a party of that kind;
/// other accounts refuse parties. `part_kind` is the kind of the party
/// the line names, as looked up (`None` when there is no such party).
/// `Ok(true)` when the line is to be linked to its party.
pub fn reskontro_regel(
    linje: usize,
    konto_kind: &Option<String>,
    party_no: &Option<String>,
    part_kind: &Option<String>,
) -> (r: Result<bool, PartFeil>)
    ensures
        r == (match (konto_kind, party_no) {
            (Some(k), Some(_)) => match part_kind {
                None => Err(PartFeil::UkjentPart { linje }),
                Some(pk) => if pk@ == k@ {
                    Ok(true)
                } else {
                    Err(PartFeil::FeilKind { linje })
                },
            },
            (Some(_), None) => Err(PartFeil::ManglerPart { linje }),
            (None, Some(_)) => Err(PartFeil::IkkeReskontro { linje }),
            (None, None) => Ok(false),
        }),
{
    match (konto_kind, party_no) {
        (Some(k), Some(_)) => match part_kind {
            None => Err(PartFeil::UkjentPart { linje }),
            Some(pk) => {
                if like(pk.as_str(), k.as_str()) {
                    Ok(true)
                } else {
                    Err(PartFeil::FeilKind { linje })
                }
            },
        },
        (Some(_), None) => Err(PartFeil::ManglerPart { linje }),
        (None, Some(_)) => Err(PartFeil::IkkeReskontro { linje }),
        (None, None) => Ok(false),
    }
}

} // verus!

verus! {

/// Why a voucher is not posted.
#[derive(Clone, Debug, PartialEq, Eq)]
pub enum PosteringFeil {
    /// Fewer than two lines.
    ForFaLinjer,
    /// The lines do not sum to zero.
    Ubalansert,
    /// The period is locked through this date.
    Last { las: Dato },
    /// Line `linje` (1-based) names no active account.
    UkjentKonto { linje: usize },
    /// Line `linje` breaks the reskontro rule.
    Part(PartFeil),
}

/// The double-entry rule for a voucher: at least two lines, summing to
/// zero.
pub fn sjekk_bilag(v: &crate::bilag::VoucherDraft) -> (r: Result<(), PosteringFeil>)
    ensures
        v.entries@.len() < 2 ==> r == Err::<(), PosteringFeil>(PosteringFeil::ForFaLinjer),
        v.entries@.len() >= 2 && !crate::bilag::balansert(*v) ==> r == Err::<(), PosteringFeil>(PosteringFeil::Ubalansert),
        r is Ok <==> v.entries@.len() >= 2 && crate::bilag::balansert(*v),
{
    if v.entries.len() < 2 {
        Err(PosteringFeil::ForFaLinjer)
    } else if !crate::bilag::er_balansert(v) {
        Err(PosteringFeil::Ubalansert)
    } else {
        Ok(())
    }
}

/// A voucher line as looked up: the line's party, its account's
/// reskontro kind (`None` when there is no active account with the
/// number; `Some(None)` for an account without reskontro), and the kind
/// of the party it names (`None` when there is no such party).
#[derive(Clone, Debug)]
pub struct Linjeoppslag {
    pub konto: Option<Option<String>>,
    pub party_no: Option<String>,
    pub part_kind: Option<String>,
}

/// The outcome for line `i` (0-based) alone.
pub open spec fn linjeutfall(l: Linjeoppslag, i: int) -> Result<bool, PosteringFeil> {
    match l.konto {
        None => Err(PosteringFeil::UkjentKonto { linje: (i + 1) as usize }),
        Some(kind) => match (kind, l.party_no) {
            (Some(k), Some(_)) => match l.part_kind {
                None => Err(PosteringFeil::Part(PartFeil::UkjentPart { linje: (i + 1) as usize })),
                Some(pk) => if pk@ == k@ {
                    Ok(true)
                } else {
                    Err(PosteringFeil::Part(PartFeil::FeilKind { linje: (i + 1) as usize }))
                },
            },
            (Some(_), None) => Err(PosteringFeil::Part(PartFeil::ManglerPart { linje: (i + 1) as usize })),
            (None, Some(_)) => Err(PosteringFeil::Part(PartFeil::IkkeReskontro { linje: (i + 1) as usize })),
            (None, None) => Ok(false),
        },
    }
}

/// The first failing line among the first `n`.
pub open spec fn forste_linjefeil(ls: Seq<Linjeoppslag>, n: int) -> Option<PosteringFeil>
    decreases n,
{
    if n <= 0 {
        None
    } else {
        match forste_linjefeil(ls, n - 1) {
            Some(e) => Some(e),
            None => match linjeutfall(ls[n - 1], n - 1) {
                Err(e) => Some(e),
                Ok(_) => None,
            },
        }
    }
}

proof fn lemma_linjefeil_stabil(ls: Seq<Linjeoppslag>, m: int, n: int)
    requires
        0 <= m <= n,
        forste_linjefeil(ls, m) is Some,
    ensures
        forste_linjefeil(ls, n) == forste_linjefeil(ls, m),
    decreases n - m,
{
    if n > m {
        lemma_linjefeil_stabil(ls, m, n - 1);
    }
}

/// Every line of a voucher is checked before anything is written: its
/// account must be active, and the reskontro rule must hold. On success,
/// for each line whether it is linked to its party.
pub fn kontroller_linjer(ls: &Vec<Linjeoppslag>) -> (r: Result<Vec<bool>, PosteringFeil>)
    requires
        ls@.len() < usize::MAX,
    ensures
        match r {
            Err(e) => forste_linjefeil(ls@, ls@.len() as int) == Some(e),
            Ok(v) => forste_linjefeil(ls@, ls@.len() as int) is None && v@.len() == ls@.len() && forall|i: int|
                0 <= i < v@.len() ==> linjeutfall(ls@[i], i) == Ok::<bool, PosteringFeil>(#[trigger] v@[i]),
        },
        forall|i: int|
            0 <= i < ls@.len() && (ls@[i].konto matches Some(Some(_))) && #[trigger] ls@[i].party_no is None
                ==> r is Err,
        forall|i: int|
            0 <= i < ls@.len() && (ls@[i].konto matches Some(Some(_))) && #[trigger] ls@[i].party_no is None
                && (forall|j: int| 0 <= j < i ==> linje_godtas(#[trigger] ls@[j])) ==> r == Err::<Vec<bool>, PosteringFeil>(
                PosteringFeil::Part(PartFeil::ManglerPart { linje: (i + 1) as usize }),
            ),
        r matches Ok(v) ==> forall|i: int|
            0 <= i < ls@.len() ==> linje_godtas(#[trigger] ls@[i]) && v@[i] == ls@[i].party_no is Some,
{
    let mut v: Vec<bool> = Vec::new();
    let mut i: usize = 0;
    while i < ls.len()
        invariant
            i <= ls@.len() < usize::MAX,
            forste_linjefeil(ls@, i as int) is None,
            v@.len() == i,
            forall|k: int| 0 <= k < i ==> linjeutfall(ls@[k], k) == Ok::<bool, PosteringFeil>(#[trigger] v@[k]),
        decreases ls@.len() - i,
    {
        let l = &ls[i];
        let utfall: Result<bool, PosteringFeil> = match &l.konto {
            None => Err(PosteringFeil::UkjentKonto { linje: i + 1 }),
            Some(kind) => match reskontro_regel(i + 1, kind, &l.party_no, &l.part_kind) {
                Ok(b) => Ok(b),
                Err(e) => Err(PosteringFeil::Part(e)),
            },
        };
        assert(utfall == linjeutfall(ls@[i as int], i as int));
        match utfall {
            Err(e) => {
                proof {
                    lemma_linjefeil_stabil(ls@, i + 1, ls@.len() as int);
                    assert forall|j: int|
                        0 <= j < ls@.len() && (ls@[j].konto matches Some(Some(_))) && #[trigger] ls@[j].party_no is None
                            && (forall|m: int| 0 <= m < j ==> linje_godtas(#[trigger] ls@[m])) implies e
                        == PosteringFeil::Part(PartFeil::ManglerPart { linje: (j + 1) as usize }) by {
                        lov_forste_manglende_part(ls@, j);
                    }
                }
                return Err(e);
            },
            Ok(b) => {
                v.push(b);
            },
        }
        i = i + 1;
    }
    proof {
        lov_godtatte_linjer(ls@);
        assert forall|j: int|
            0 <= j < ls@.len() && (ls@[j].konto matches Some(Some(_))) && #[trigger] ls@[j].party_no is None
            implies false by {
            lov_manglende_part_avvises(ls@, j);
        }
        assert forall|j: int| 0 <= j < ls@.len() implies linje_godtas(#[trigger] ls@[j]) && v@[j]
            == ls@[j].party_no is Some by {
            assert(linjeutfall(ls@[j], j) == Ok::<bool, PosteringFeil>(v@[j]));
        }
    }
    Ok(v)
}

/// A line that passes the posting checks: an active account, and either
/// no reskontro and no party, or a reskontro account and a party of that
/// account's kind.
pub open spec fn linje_godtas(l: Linjeoppslag) -> bool {
    match (l.konto, l.party_no, l.part_kind) {
        (Some(None), None, _) => true,
        (Some(Some(k)), Some(_), Some(pk)) => pk@ == k@,
        _ => false,
    }
}

proof fn lemma_ingen_linjefeil(ls: Seq<Linjeoppslag>, n: int)
    requires
        0 <= n <= ls.len(),
    ensures
        forste_linjefeil(ls, n) is None <==> forall|j: int| 0 <= j < n ==> (#[trigger] linjeutfall(ls[j], j)) is Ok,
    decreases n,
{
    if n > 0 {
        lemma_ingen_linjefeil(ls, n - 1);
        if forste_linjefeil(ls, n) is None {
            assert forall|j: int| 0 <= j < n implies (#[trigger] linjeutfall(ls[j], j)) is Ok by {
                if j < n - 1 {
                    assert(forste_linjefeil(ls, n - 1) is None);
                }
            }
        }
    }
}

/// Law: a voucher whose lines all pass the checks has, line by line, an
/// active account, a party exactly where the account is a reskontro
/// account, and that party of the account's kind.
pub proof fn lov_godtatte_linjer(ls: Seq<Linjeoppslag>)
    requires
        forste_linjefeil(ls, ls.len() as int) is None,
    ensures
        forall|i: int| 0 <= i < ls.len() ==> linje_godtas(#[trigger] ls[i]),
{
    lemma_ingen_linjefeil(ls, ls.len() as int);
    assert forall|i: int| 0 <= i < ls.len() implies linje_godtas(#[trigger] ls[i]) by {
        assert(linjeutfall(ls[i], i) is Ok);
    }
}

/// Law: a line on a reskontro account that names no party stops the
/// posting, whatever the other lines are.
pub proof fn lov_manglende_part_avvises(ls: Seq<Linjeoppslag>, i: int)
    requires
        0 <= i < ls.len(),
        ls[i].konto matches Some(Some(_)),
        ls[i].party_no is None,
    ensures
        forste_linjefeil(ls, ls.len() as int) is Some,
{
    if forste_linjefeil(ls, i) is None {
        assert(forste_linjefeil(ls, i + 1) is Some);
        lemma_linjefeil_stabil(ls, i + 1, ls.len() as int);
    } else {
        lemma_linjefeil_stabil(ls, i, ls.len() as int);
    }
}

/// Law: when every line before `i` passes, a line `i` on a reskontro
/// account without a party is the error reported, as a missing party on
/// line `i + 1`.
pub proof fn lov_forste_manglende_part(ls: Seq<Linjeoppslag>, i: int)
    requires
        0 <= i < ls.len(),
        ls.len() < usize::MAX,
        forall|j: int| 0 <= j < i ==> linje_godtas(#[trigger] ls[j]),
        ls[i].konto matches Some(Some(_)),
        ls[i].party_no is None,
    ensures
        forste_linjefeil(ls, ls.len() as int) == Some(
            PosteringFeil::Part(PartFeil::ManglerPart { linje: (i + 1) as usize }),
        ),
{
    lemma_ingen_linjefeil(ls, i);
    assert forall|j: int| 0 <= j < i implies (#[trigger] linjeutfall(ls[j], j)) is Ok by {
        assert(linje_godtas(ls[j]));
    }
    assert(forste_linjefeil(ls, i) is None);
    assert(forste_linjefeil(ls, i + 1) == Some(PosteringFeil::Part(PartFeil::ManglerPart { linje: (i + 1) as usize })));
    lemma_linjefeil_stabil(ls, i + 1, ls.len() as int);
}

} // verus!
