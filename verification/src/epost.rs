//! Mail into the document inbox: which company a mail is for, whether
//! its sender may deliver, and what becomes of it.

use crate::tekst::{er_blank, har_tegn, inneholder, like, smaa_bokstaver, til_smaa, trimmet};
use vstd::prelude::*;
use vstd::string::*;

verus! {

/// One attachment, already decoded.
#[derive(Clone, Debug)]
pub struct MottattVedlegg {
    pub filename: String,
    pub content_type: String,
    pub content: Vec<u8>,
}

/// An inbound message as delivered.
#[derive(Clone, Debug)]
pub struct MottattEpost {
    /// The recipient address the mail was delivered to.
    pub to: String,
    pub from: String,
    pub subject: Option<String>,
    pub text: Option<String>,
    pub message_id: String,
    /// The message as received, stored verbatim.
    pub raw: Vec<u8>,
    pub attachments: Vec<MottattVedlegg>,
}

/// What became of a mail.
#[derive(Clone, Debug, PartialEq, Eq)]
pub enum Mottak {
    /// Documents were created (count).
    Mottatt(usize),
    /// Held for an admin to decide.
    Karantene,
    /// The same message delivered again.
    Duplikat,
    /// Nothing usable; recorded with why.
    Avvist(String),
}

/// The text after the last `<` (all of it when there is none).
pub open spec fn etter_siste(s: Seq<char>, c: char, n: int) -> Seq<char>
    decreases n,
{
    if n <= 0 {
        s
    } else if s[n - 1] == c {
        s.subrange(n, s.len() as int)
    } else {
        etter_siste(s, c, n - 1)
    }
}

/// Trailing `c` removed, all of them.
pub open spec fn uten_hale(s: Seq<char>, c: char) -> Seq<char>
    decreases s.len(),
{
    if s.len() > 0 && s.last() == c {
        uten_hale(s.drop_last(), c)
    } else {
        s
    }
}

/// The text before the first `c` (all of it when there is none).
pub open spec fn for_forste(s: Seq<char>, c: char, i: int) -> Seq<char>
    decreases s.len() - i,
{
    if i < 0 || i >= s.len() {
        s
    } else if s[i] == c {
        s.take(i)
    } else {
        for_forste(s, c, i + 1)
    }
}

/// The local part a mail was delivered to: from "Navn <x@y>" or "x@y",
/// the part before the '@', trimmed and in lower case.
pub open spec fn lokal_del_av(to: Seq<char>) -> Seq<char> {
    smaa_bokstaver(trimmet(for_forste(uten_hale(etter_siste(to, '<', to.len() as int), '>'), '@', 0)))
}

/// The recipient's local part, by which the company is found.
pub fn lokal_del(to: &str) -> (r: String)
    ensures
        r@ == lokal_del_av(to@),
{
    let v = crate::tekst::tegn_i(to);
    // After the last '<'.
    let mut i: usize = v.len();
    while i > 0 && v[i - 1] != '<'
        invariant
            i <= v@.len(),
            v@ == to@,
            etter_siste(to@, '<', to@.len() as int) == etter_siste(to@, '<', i as int),
        decreases i,
    {
        i = i - 1;
    }
    let a = if i > 0 {
        crate::tekst::del_av(&v, i, v.len())
    } else {
        crate::tekst::del_av(&v, 0, v.len())
    };
    assert(a@ == etter_siste(to@, '<', to@.len() as int)) by {
        if i == 0 {
            assert(v@.subrange(0, v@.len() as int) =~= v@);
        }
    }
    // Without trailing '>'.
    let mut j: usize = a.len();
    assert(a@.take(a@.len() as int) =~= a@);
    while j > 0 && a[j - 1] == '>'
        invariant
            j <= a@.len(),
            uten_hale(a@, '>') == uten_hale(a@.take(j as int), '>'),
        decreases j,
    {
        assert(a@.take(j as int).drop_last() =~= a@.take(j - 1));
        j = j - 1;
    }
    assert(a@.take(a@.len() as int) =~= a@);
    let b = crate::tekst::del_av(&a, 0, j);
    assert(b@ =~= a@.take(j as int));
    assert(uten_hale(b@, '>') == b@);
    // Before the first '@'.
    let mut k: usize = 0;
    while k < b.len() && b[k] != '@'
        invariant
            k <= b@.len(),
            for_forste(b@, '@', 0) == for_forste(b@, '@', k as int),
        decreases b@.len() - k,
    {
        k = k + 1;
    }
    let c = crate::tekst::del_av(&b, 0, k);
    assert(c@ == for_forste(b@, '@', 0)) by {
        if k == b.len() {
            assert(b@.subrange(0, k as int) =~= b@);
        } else {
            assert(b@.subrange(0, k as int) =~= b@.take(k as int));
        }
    }
    let t = crate::tekst::trim_v(&c);
    let ts = crate::tekst::streng_av(&t);
    til_smaa(ts.as_str())
}

/// Where a mail goes: rejected without attachments with content;
/// received from an allowed sender; else held in quarantine.
#[derive(Clone, Copy, Debug, PartialEq, Eq, Structural)]
pub enum Mottaksstatus {
    Avvist,
    Mottatt,
    Karantene,
}

pub fn mottaksstatus(vedlegg_med_innhold: usize, tillatt: bool) -> (r: Mottaksstatus)
    ensures
        r == (if vedlegg_med_innhold == 0 {
            Mottaksstatus::Avvist
        } else if tillatt {
            Mottaksstatus::Mottatt
        } else {
            Mottaksstatus::Karantene
        }),
{
    if vedlegg_med_innhold == 0 {
        Mottaksstatus::Avvist
    } else if tillatt {
        Mottaksstatus::Mottatt
    } else {
        Mottaksstatus::Karantene
    }
}

/// The attachments of the first `n` that have content.
pub open spec fn med_innhold(a: Seq<MottattVedlegg>, n: int) -> int
    decreases n,
{
    if n <= 0 {
        0
    } else {
        med_innhold(a, n - 1) + if a[n - 1].content@.len() > 0 { 1int } else { 0int }
    }
}

/// How many attachments have content.
pub fn antall_med_innhold(a: &Vec<MottattVedlegg>) -> (r: usize)
    ensures
        r == med_innhold(a@, a@.len() as int),
{
    let mut n: usize = 0;
    let mut i: usize = 0;
    while i < a.len()
        invariant
            i <= a@.len(),
            n == med_innhold(a@, i as int),
            n <= i,
        decreases a@.len() - i,
    {
        if a[i].content.len() > 0 {
            n = n + 1;
        }
        i = i + 1;
    }
    n
}

/// The note stored with a mail.
pub fn mottaksnotat(status: Mottaksstatus, from: &str) -> (r: Option<String>)
    ensures
        match status {
            Mottaksstatus::Avvist => r matches Some(n) && n@ == "e-posten hadde ingen vedlegg å bokføre"@,
            Mottaksstatus::Karantene => r matches Some(n) && n@ == from@
                + " står ikke på selskapets avsenderliste — venter på godkjenning"@,
            Mottaksstatus::Mottatt => r is None,
        },
{
    match status {
        Mottaksstatus::Avvist => Some(String::from_str("e-posten hadde ingen vedlegg å bokføre")),
        Mottaksstatus::Karantene => {
            let mut s = String::from_str(from);
            s.append(" står ikke på selskapets avsenderliste — venter på godkjenning");
            Some(s)
        },
        Mottaksstatus::Mottatt => None,
    }
}

/// The answer for a mail: a duplicate when its message id was seen; else
/// the count of documents, quarantine, or the rejection with its note.
pub fn mottak(ny: bool, status: Mottaksstatus, antall: usize, notat: Option<String>) -> (r: Mottak)
    ensures
        !ny ==> r == Mottak::Duplikat,
        ny ==> match status {
            Mottaksstatus::Mottatt => r == Mottak::Mottatt(antall),
            Mottaksstatus::Karantene => r == Mottak::Karantene,
            Mottaksstatus::Avvist => r matches Mottak::Avvist(s) && s@ == (match notat {
                Some(n) => n@,
                None => Seq::<char>::empty(),
            }),
        },
{
    if !ny {
        return Mottak::Duplikat;
    }
    match status {
        Mottaksstatus::Mottatt => Mottak::Mottatt(antall),
        Mottaksstatus::Karantene => Mottak::Karantene,
        Mottaksstatus::Avvist => Mottak::Avvist(
            match notat {
                Some(n) => n,
                None => String::new(),
            },
        ),
    }
}

/// Why a sender or quarantine action is refused.
#[derive(Clone, Debug, PartialEq, Eq)]
pub enum EpostFeil {
    /// Not an address (post@firma.no) or a domain (@firma.no).
    UgyldigAvsender,
    IkkeKarantene,
    IngenVedlegg,
    HashFeil,
    UtenBegrunnelse,
    UkjentOppforing,
}

/// An allowed sender is an address or a domain: it has an '@' and does
/// not start with "@@".
pub open spec fn avsender_ok(s: Seq<char>) -> bool {
    har_tegn(s, '@') && !(s.len() >= 2 && s[0] == '@' && s[1] == '@')
}

pub fn sjekk_avsender(normalisert: &str) -> (r: Result<(), EpostFeil>)
    ensures
        r is Ok <==> avsender_ok(normalisert@),
        r matches Err(e) ==> e == EpostFeil::UgyldigAvsender,
{
    let dobbel_at = normalisert.unicode_len() >= 2 && normalisert.get_char(0) == '@' && normalisert.get_char(1) == '@';
    if inneholder(normalisert, '@') && !dobbel_at {
        Ok(())
    } else {
        Err(EpostFeil::UgyldigAvsender)
    }
}

/// Releasing needs a mail in quarantine with attachments, each still
/// matching its stored hash (`hash_ok`); the count released.
pub fn sjekk_frigivelse(status: &str, hash_ok: &Vec<bool>) -> (r: Result<usize, EpostFeil>)
    ensures
        status@ != "karantene"@ ==> r == Err::<usize, EpostFeil>(EpostFeil::IkkeKarantene),
        status@ == "karantene"@ && hash_ok@.len() == 0 ==> r == Err::<usize, EpostFeil>(EpostFeil::IngenVedlegg),
        status@ == "karantene"@ && hash_ok@.len() > 0 ==> r == (if forall|i: int| 0 <= i < hash_ok@.len() ==> #[trigger] hash_ok@[i] {
            Ok::<usize, EpostFeil>(hash_ok@.len() as usize)
        } else {
            Err::<usize, EpostFeil>(EpostFeil::HashFeil)
        }),
{
    if !like(status, "karantene") {
        return Err(EpostFeil::IkkeKarantene);
    }
    if hash_ok.len() == 0 {
        return Err(EpostFeil::IngenVedlegg);
    }
    let mut i: usize = 0;
    while i < hash_ok.len()
        invariant
            status@ == "karantene"@,
            hash_ok@.len() > 0,
            i <= hash_ok@.len(),
            forall|k: int| 0 <= k < i ==> #[trigger] hash_ok@[k],
        decreases hash_ok@.len() - i,
    {
        if !hash_ok[i] {
            return Err(EpostFeil::HashFeil);
        }
        i = i + 1;
    }
    Ok(hash_ok.len())
}

/// Rejecting needs a reason and must hit a mail in quarantine.
pub fn sjekk_avvisning(note: &str, rader_endret: u64) -> (r: Result<(), EpostFeil>)
    ensures
        trimmet(note@).len() == 0 ==> r == Err::<(), EpostFeil>(EpostFeil::UtenBegrunnelse),
        trimmet(note@).len() > 0 && rader_endret != 1 ==> r == Err::<(), EpostFeil>(EpostFeil::IkkeKarantene),
        r is Ok <==> trimmet(note@).len() > 0 && rader_endret == 1,
{
    if er_blank(note) {
        Err(EpostFeil::UtenBegrunnelse)
    } else if rader_endret != 1 {
        Err(EpostFeil::IkkeKarantene)
    } else {
        Ok(())
    }
}

} // verus!
