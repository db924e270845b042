//! Migration of what SAF-T does not carry: contacts and open ledger
//! items. Contacts are register data; open items become one voucher
//! whose party lines replace the control account's opening line, so the
//! account must stand at zero first, and afterwards its balance is the
//! sum of the open items because they are the same lines.

use crate::bilag::{EntryDraft, VoucherDraft, balansert, sum_linjer, sum_til, lemma_sum_push};
use crate::dato::{Dato, datotekst, dato_tekst};
use crate::ledger::PostedVoucher;
use crate::tekst::{alle_siffer, antall_tekst, bare_siffer, desimal, heltall_tekst, like};
use vstd::prelude::*;
use vstd::string::*;

verus! {

/// Whether a file's parties are customers or suppliers.
#[derive(Clone, Copy, Debug, PartialEq, Eq, Structural)]
pub enum PartKind {
    Kunde,
    Leverandor,
}

/// The party kind as stored.
pub open spec fn partkind_tekst(k: PartKind) -> Seq<char> {
    match k {
        PartKind::Kunde => "kunde"@,
        PartKind::Leverandor => "leverandor"@,
    }
}

impl PartKind {
    pub fn as_str(&self) -> (r: &'static str)
        ensures
            r@ == partkind_tekst(*self),
    {
        match self {
            PartKind::Kunde => "kunde",
            PartKind::Leverandor => "leverandor",
        }
    }
}

/// One row of an imported contact list.
#[derive(Clone, Debug)]
pub struct KontaktRad {
    pub kind: PartKind,
    /// The old system's number.
    pub nummer: Option<String>,
    pub navn: String,
    pub orgnr: Option<String>,
    pub adresse: Option<String>,
    pub epost: Option<String>,
    pub kontonummer: Option<String>,
}

/// One open item of an imported list.
#[derive(Clone, Debug)]
pub struct ApenPostRad {
    /// The party's number in the old system.
    pub part: String,
    pub part_navn: Option<String>,
    /// Signed øre; a credit note is negative.
    pub belop_ore: i64,
    pub dokument: Option<String>,
    pub kid: Option<String>,
    pub forfall: Option<Dato>,
}

/// What a contact import did.
#[derive(Clone, Debug)]
pub struct ContactsReport {
    pub opprettet: usize,
    pub oppdatert: usize,
    pub advarsler: Vec<String>,
}

/// What an open-items import would do.
#[derive(Clone, Debug)]
pub struct OpenItemsPlan {
    pub antall: usize,
    /// Signed as it will hit the control account.
    pub sum_ore: i64,
    /// Parties the file names that do not exist yet.
    pub nye_parter: Vec<String>,
    /// The account's balance now; it must be zero to import.
    pub konto_saldo_ore: i64,
    pub advarsler: Vec<String>,
}

/// What an open-items import did.
#[derive(Clone, Debug)]
pub struct OpenItemsReport {
    pub posted: PostedVoucher,
    pub antall: usize,
    pub sum_ore: i64,
    pub opprettede_parter: usize,
    pub advarsler: Vec<String>,
}

/// Why an open-items import is refused.
#[derive(Clone, Copy, Debug, PartialEq, Eq, Structural)]
pub enum MigreringFeil {
    IngenPoster,
    /// The account and the counter account are the same.
    SammeKonto,
    UkjentKonto,
    /// The control account already has a balance (in øre).
    KontoHarSaldo { saldo_ore: i64 },
}

/// A number that can be kept as a party number: not empty, all digits.
pub open spec fn numerisk(n: Seq<char>) -> bool {
    n.len() > 0 && alle_siffer(n)
}

/// The old system's number, when it can be kept as a party number.
pub fn numerisk_nummer(nummer: Option<&str>) -> (r: Option<String>)
    ensures
        match nummer {
            Some(n) => if numerisk(n@) { r matches Some(t) && t@ == n@ } else { r is None },
            None => r is None,
        },
{
    match nummer {
        Some(n) => if n.unicode_len() > 0 && bare_siffer(n) {
            Some(n.to_string())
        } else {
            None
        },
        None => None,
    }
}

/// The first party number of a kind when no party of it is numbered.
pub open spec fn forste_partsnr(kind: Seq<char>) -> int {
    if kind == "kunde"@ { 10_000 } else { 20_000 }
}

/// The number a party created from an open item gets: the old system's
/// number when it is numeric, else one past the highest number of its
/// kind (`hoyeste`), or the kind's first number when there is none.
pub fn partsnummer(kind: &str, vendor_ref: &str, hoyeste: Option<i64>) -> (r: String)
    requires
        hoyeste matches Some(h) ==> h < i64::MAX,
    ensures
        numerisk(vendor_ref@) ==> r@ == vendor_ref@,
        !numerisk(vendor_ref@) ==> r@ == desimal(match hoyeste {
            Some(h) => h + 1,
            None => forste_partsnr(kind@),
        }),
{
    if vendor_ref.unicode_len() > 0 && bare_siffer(vendor_ref) {
        return vendor_ref.to_string();
    }
    let neste: i64 = match hoyeste {
        Some(h) => h + 1,
        None => if like(kind, "kunde") {
            10_000
        } else {
            20_000
        },
    };
    heltall_tekst(neste)
}

/// A contact row carries details only when it has an address, an e-mail
/// address or a bank account.
pub fn har_kontaktinfo(rad: &KontaktRad) -> (r: bool)
    ensures
        r == (rad.adresse is Some || rad.epost is Some || rad.kontonummer is Some),
{
    rad.adresse.is_some() || rad.epost.is_some() || rad.kontonummer.is_some()
}

/// What happened to one contact row.
#[derive(Clone, Debug)]
pub enum Kontaktutfall {
    /// An existing party matched.
    Funnet,
    /// A new party was created.
    Opprettet,
    /// Creating the party failed, for the reason given.
    Feilet(String),
    /// The details were only partly stored, for the reason given.
    DelvisKontakt(String),
}

/// Counts one contact row into the report; a failure becomes a warning
/// naming the row.
pub fn registrer_kontakt(report: &mut ContactsReport, navn: &str, utfall: &Kontaktutfall)
    requires
        old(report).opprettet < usize::MAX,
        old(report).oppdatert < usize::MAX,
    ensures
        match *utfall {
            Kontaktutfall::Funnet => {
                &&& final(report).oppdatert == old(report).oppdatert + 1
                &&& final(report).opprettet == old(report).opprettet
                &&& final(report).advarsler@ == old(report).advarsler@
            },
            Kontaktutfall::Opprettet => {
                &&& final(report).opprettet == old(report).opprettet + 1
                &&& final(report).oppdatert == old(report).oppdatert
                &&& final(report).advarsler@ == old(report).advarsler@
            },
            Kontaktutfall::Feilet(e) => {
                &&& final(report).opprettet == old(report).opprettet
                &&& final(report).oppdatert == old(report).oppdatert
                &&& final(report).advarsler@.len() == old(report).advarsler@.len() + 1
                &&& final(report).advarsler@.drop_last() == old(report).advarsler@
                &&& final(report).advarsler@.last()@ == navn@ + ": kunne ikke opprettes ("@ + e@ + ")"@
            },
            Kontaktutfall::DelvisKontakt(e) => {
                &&& final(report).opprettet == old(report).opprettet
                &&& final(report).oppdatert == old(report).oppdatert
                &&& final(report).advarsler@.len() == old(report).advarsler@.len() + 1
                &&& final(report).advarsler@.drop_last() == old(report).advarsler@
                &&& final(report).advarsler@.last()@ == navn@ + ": kontaktinfo delvis hoppet over ("@ + e@ + ")"@
            },
        },
{
    match utfall {
        Kontaktutfall::Funnet => {
            report.oppdatert = report.oppdatert + 1;
        },
        Kontaktutfall::Opprettet => {
            report.opprettet = report.opprettet + 1;
        },
        Kontaktutfall::Feilet(e) => {
            let mut s = navn.to_string();
            s.append(": kunne ikke opprettes (");
            s.append(e.as_str());
            s.append(")");
            report.advarsler.push(s);
        },
        Kontaktutfall::DelvisKontakt(e) => {
            let mut s = navn.to_string();
            s.append(": kontaktinfo delvis hoppet over (");
            s.append(e.as_str());
            s.append(")");
            report.advarsler.push(s);
        },
    }
}

/// The signed amount an open item puts on the control account: a
/// customer owing us is a debit, a supplier we owe a credit (a credit
/// note keeps its own sign through the negation).
pub open spec fn linjebelop(kind: PartKind, belop: int) -> int {
    match kind {
        PartKind::Kunde => belop,
        PartKind::Leverandor => -belop,
    }
}

pub fn line_amount(kind: PartKind, belop_ore: i64) -> (r: i64)
    requires
        kind == PartKind::Leverandor ==> belop_ore > i64::MIN,
    ensures
        r == linjebelop(kind, belop_ore as int),
{
    match kind {
        PartKind::Kunde => belop_ore,
        PartKind::Leverandor => -belop_ore,
    }
}

/// The amounts of the first `n` open items, signed for the account.
pub open spec fn apen_sum_til(kind: PartKind, rader: Seq<ApenPostRad>, n: int) -> int
    decreases n,
{
    if n <= 0 {
        0
    } else {
        apen_sum_til(kind, rader, n - 1) + linjebelop(kind, rader[n - 1].belop_ore as int)
    }
}

/// The amounts of all open items, signed for the account.
pub open spec fn apen_sum(kind: PartKind, rader: Seq<ApenPostRad>) -> int {
    apen_sum_til(kind, rader, rader.len() as int)
}

/// Every amount can be negated where the kind negates it.
pub open spec fn belop_i_omfang(kind: PartKind, rader: Seq<ApenPostRad>) -> bool {
    kind == PartKind::Leverandor ==> forall|i: int| 0 <= i < rader.len() ==> #[trigger] rader[i].belop_ore > i64::MIN
}

proof fn lemma_apen_grense(kind: PartKind, rader: Seq<ApenPostRad>, n: int)
    requires
        0 <= n <= rader.len(),
    ensures
        -n * 0x8000_0000_0000_0000 <= apen_sum_til(kind, rader, n) <= n * 0x8000_0000_0000_0000,
    decreases n,
{
    if n > 0 {
        lemma_apen_grense(kind, rader, n - 1);
    }
}

/// The signed sum of the open items.
pub fn sum_apne(kind: PartKind, rader: &Vec<ApenPostRad>) -> (r: i64)
    requires
        belop_i_omfang(kind, rader@),
        i64::MIN <= apen_sum(kind, rader@) <= i64::MAX,
    ensures
        r == apen_sum(kind, rader@),
{
    let mut sum: i128 = 0;
    let mut i: usize = 0;
    while i < rader.len()
        invariant
            i <= rader@.len(),
            belop_i_omfang(kind, rader@),
            sum == apen_sum_til(kind, rader@, i as int),
        decreases rader@.len() - i,
    {
        proof {
            lemma_apen_grense(kind, rader@, i as int);
            assert(-(i as int) * 0x8000_0000_0000_0000 >= -0x1_0000_0000_0000_0000 * 0x8000_0000_0000_0000)
                by (nonlinear_arith)
                requires
                    0 <= i < 0x1_0000_0000_0000_0000,
            ;
            assert((i as int) * 0x8000_0000_0000_0000 <= 0x1_0000_0000_0000_0000 * 0x8000_0000_0000_0000)
                by (nonlinear_arith)
                requires
                    0 <= i < 0x1_0000_0000_0000_0000,
            ;
        }
        let a = line_amount(kind, rader[i].belop_ore);
        sum = sum + a as i128;
        i = i + 1;
    }
    sum as i64
}

/// The name a party is known by in an open-items file.
pub open spec fn postnavn(r: ApenPostRad) -> Seq<char> {
    match r.part_navn {
        Some(n) => n@,
        None => r.part@,
    }
}

pub fn navn_for(rad: &ApenPostRad) -> (r: String)
    ensures
        r@ == postnavn(*rad),
{
    match &rad.part_navn {
        Some(n) => n.clone(),
        None => rad.part.clone(),
    }
}

/// The names of the items whose party was not found (`funnet[i]` false),
/// each once, in the order they first occur.
pub open spec fn nye_til(rader: Seq<ApenPostRad>, funnet: Seq<bool>, n: int) -> Seq<Seq<char>>
    decreases n,
{
    if n <= 0 {
        Seq::empty()
    } else {
        let tidligere = nye_til(rader, funnet, n - 1);
        if !funnet[n - 1] && !tidligere.contains(postnavn(rader[n - 1])) {
            tidligere.push(postnavn(rader[n - 1]))
        } else {
            tidligere
        }
    }
}

fn inneholder_navn(v: &Vec<String>, navn: &str) -> (r: bool)
    ensures
        r == v@.map_values(|s: String| s@).contains(navn@),
{
    let mut i: usize = 0;
    while i < v.len()
        invariant
            i <= v@.len(),
            forall|k: int| 0 <= k < i ==> v@[k]@ != navn@,
        decreases v@.len() - i,
    {
        if like(v[i].as_str(), navn) {
            assert(v@.map_values(|s: String| s@)[i as int] == navn@);
            return true;
        }
        i = i + 1;
    }
    let ghost m = v@.map_values(|s: String| s@);
    assert forall|k: int| 0 <= k < m.len() implies #[trigger] m[k] != navn@ by {}
    false
}

/// The warning a plan carries when parties will be created.
pub open spec fn nye_parter_advarsel(n: int) -> Seq<char> {
    desimal(n) + " part(er) finnes ikke og opprettes ved import — importer kontaktlisten først hvis du vil ha adresser og kontonumre med"@
}

/// The preview of an open-items import: the count, the signed sum, the
/// parties that will be created (`funnet[i]` says whether item `i`'s
/// party exists), the account's balance now, and a warning when parties
/// will be created.
pub fn planlegg_apne_poster(kind: PartKind, rader: &Vec<ApenPostRad>, funnet: &Vec<bool>, konto_saldo_ore: i64) -> (r: OpenItemsPlan)
    requires
        funnet@.len() == rader@.len(),
        belop_i_omfang(kind, rader@),
        i64::MIN <= apen_sum(kind, rader@) <= i64::MAX,
    ensures
        r.antall == rader@.len(),
        r.sum_ore == apen_sum(kind, rader@),
        r.nye_parter@.map_values(|s: String| s@) == nye_til(rader@, funnet@, rader@.len() as int),
        r.konto_saldo_ore == konto_saldo_ore,
        r.nye_parter@.len() == 0 ==> r.advarsler@.len() == 0,
        r.nye_parter@.len() > 0 ==> r.advarsler@.len() == 1 && r.advarsler@[0]@ == nye_parter_advarsel(
            r.nye_parter@.len() as int,
        ),
{
    let mut nye: Vec<String> = Vec::new();
    let mut i: usize = 0;
    while i < rader.len()
        invariant
            funnet@.len() == rader@.len(),
            i <= rader@.len(),
            nye@.map_values(|s: String| s@) == nye_til(rader@, funnet@, i as int),
            nye@.len() <= i,
        decreases rader@.len() - i,
    {
        if !funnet[i] {
            let navn = navn_for(&rader[i]);
            if !inneholder_navn(&nye, navn.as_str()) {
                nye.push(navn);
            }
        }
        i = i + 1;
        assert(nye@.map_values(|s: String| s@) =~= nye_til(rader@, funnet@, i as int));
    }
    let mut advarsler: Vec<String> = Vec::new();
    if nye.len() > 0 {
        let mut s = antall_tekst(nye.len());
        s.append(" part(er) finnes ikke og opprettes ved import — importer kontaktlisten først hvis du vil ha adresser og kontonumre med");
        advarsler.push(s);
    }
    OpenItemsPlan {
        antall: rader.len(),
        sum_ore: sum_apne(kind, rader),
        nye_parter: nye,
        konto_saldo_ore,
        advarsler,
    }
}

/// An import needs items, two different accounts, an existing control
/// account (`saldo`, `None` when there is no such account) and a zero
/// balance on it.
pub fn sjekk_apne_poster(antall: usize, konto: &str, motkonto: &str, saldo: Option<i64>) -> (r: Result<(), MigreringFeil>)
    ensures
        r == (if antall == 0 {
            Err(MigreringFeil::IngenPoster)
        } else if konto@ == motkonto@ {
            Err(MigreringFeil::SammeKonto)
        } else {
            match saldo {
                None => Err(MigreringFeil::UkjentKonto),
                Some(s) => if s != 0 { Err(MigreringFeil::KontoHarSaldo { saldo_ore: s }) } else { Ok(()) },
            }
        }),
{
    if antall == 0 {
        return Err(MigreringFeil::IngenPoster);
    }
    if like(konto, motkonto) {
        return Err(MigreringFeil::SammeKonto);
    }
    match saldo {
        None => Err(MigreringFeil::UkjentKonto),
        Some(s) => if s != 0 {
            Err(MigreringFeil::KontoHarSaldo { saldo_ore: s })
        } else {
            Ok(())
        },
    }
}

/// The text of an open item's line: its document reference (or "Åpen
/// post"), then " (KID …)" when it has a KID, then " forfall …" with the
/// due date when it has one.
pub open spec fn postekst(r: ApenPostRad) -> Seq<char> {
    let grunn = match r.dokument {
        Some(d) => d@,
        None => "Åpen post"@,
    };
    let med_kid = match r.kid {
        Some(k) => grunn + " (KID "@ + k@ + ")"@,
        None => grunn,
    };
    match r.forfall {
        Some(f) => med_kid + " forfall "@ + datotekst(f),
        None => med_kid,
    }
}

pub fn lag_postekst(rad: &ApenPostRad) -> (r: String)
    ensures
        r@ == postekst(*rad),
{
    let mut t = match &rad.dokument {
        Some(d) => d.clone(),
        None => String::from_str("Åpen post"),
    };
    match &rad.kid {
        Some(k) => {
            t.append(" (KID ");
            t.append(k.as_str());
            t.append(")");
        },
        None => {},
    }
    match rad.forfall {
        Some(f) => {
            t.append(" forfall ");
            let d = dato_tekst(f);
            t.append(d.as_str());
        },
        None => {},
    }
    t
}

/// Line `i` of the open-items voucher: the control account, the item's
/// signed amount, its text and its party.
pub open spec fn postlinje(kind: PartKind, konto: Seq<char>, r: ApenPostRad, partsnr: Seq<char>, e: EntryDraft) -> bool {
    &&& e.account_number@ == konto
    &&& e.amount_ore == linjebelop(kind, r.belop_ore as int)
    &&& e.vat_code is None
    &&& e.description matches Some(d) && d@ == postekst(r)
    &&& e.party_no matches Some(p) && p@ == partsnr
    &&& e.avdeling is None
    &&& e.prosjekt is None
    &&& e.valuta is None
}

/// The voucher text of an open-items import.
pub open spec fn apne_poster_tekst(kind: PartKind) -> Seq<char> {
    match kind {
        PartKind::Kunde => "Åpne poster kunder ved migrering"@,
        PartKind::Leverandor => "Åpne poster leverandører ved migrering"@,
    }
}

/// The open-items voucher as built: one party line per item on the
/// control account, then the counter line on `motkonto` with the
/// negated sum.
pub open spec fn apne_poster_bilag(
    kind: PartKind,
    konto: Seq<char>,
    motkonto: Seq<char>,
    dato: Dato,
    rader: Seq<ApenPostRad>,
    partsnr: Seq<String>,
    v: VoucherDraft,
) -> bool {
    let n = rader.len() as int;
    &&& v.journal_code@ == "GL"@
    &&& v.voucher_date == dato
    &&& v.description@ == apne_poster_tekst(kind)
    &&& v.reverses is None
    &&& v.entries@.len() == n + 1
    &&& forall|i: int| 0 <= i < n ==> postlinje(kind, konto, rader[i], partsnr[i]@, #[trigger] v.entries@[i])
    &&& {
        let m = v.entries@[n];
        &&& m.account_number@ == motkonto
        &&& m.amount_ore == -apen_sum(kind, rader)
        &&& m.vat_code is None
        &&& m.description matches Some(d) && d@ == "Motpost åpne poster ved migrering"@
        &&& m.party_no is None
        &&& m.avdeling is None
        &&& m.prosjekt is None
        &&& m.valuta is None
    }
}

/// Builds the open-items voucher; `partsnr[i]` is the party number item
/// `i` resolved or was created with. The voucher balances.
pub fn bygg_apne_poster(
    kind: PartKind,
    konto: &str,
    motkonto: &str,
    dato: Dato,
    rader: &Vec<ApenPostRad>,
    partsnr: &Vec<String>,
) -> (r: VoucherDraft)
    requires
        partsnr@.len() == rader@.len(),
        belop_i_omfang(kind, rader@),
        i64::MIN < apen_sum(kind, rader@) <= i64::MAX,
    ensures
        apne_poster_bilag(kind, konto@, motkonto@, dato, rader@, partsnr@, r),
        balansert(r),
{
    let mut entries: Vec<EntryDraft> = Vec::new();
    let mut i: usize = 0;
    while i < rader.len()
        invariant
            partsnr@.len() == rader@.len(),
            belop_i_omfang(kind, rader@),
            i <= rader@.len(),
            entries@.len() == i,
            forall|k: int| 0 <= k < i ==> postlinje(kind, konto@, rader@[k], partsnr@[k]@, #[trigger] entries@[k]),
            sum_til(entries@, i as int) == apen_sum_til(kind, rader@, i as int),
        decreases rader@.len() - i,
    {
        let rad = &rader[i];
        let e = EntryDraft {
            account_number: konto.to_string(),
            amount_ore: line_amount(kind, rad.belop_ore),
            vat_code: None,
            description: Some(lag_postekst(rad)),
            party_no: Some(partsnr[i].clone()),
            avdeling: None,
            prosjekt: None,
            valuta: None,
        };
        proof {
            lemma_sum_push(entries@, e);
        }
        entries.push(e);
        i = i + 1;
    }
    let sum = sum_apne(kind, rader);
    let m = EntryDraft {
        account_number: motkonto.to_string(),
        amount_ore: -sum,
        vat_code: None,
        description: Some(String::from_str("Motpost åpne poster ved migrering")),
        party_no: None,
        avdeling: None,
        prosjekt: None,
        valuta: None,
    };
    proof {
        lemma_sum_push(entries@, m);
    }
    entries.push(m);
    let description = match kind {
        PartKind::Kunde => String::from_str("Åpne poster kunder ved migrering"),
        PartKind::Leverandor => String::from_str("Åpne poster leverandører ved migrering"),
    };
    VoucherDraft {
        journal_code: String::from_str("GL"),
        voucher_date: dato,
        description,
        reverses: None,
        entries,
    }
}

/// After the import the control account holds exactly the open items:
/// the voucher's lines on it sum to the items' signed sum, and the whole
/// voucher balances.
pub proof fn lov_reskontrosaldo_er_sum_av_postene(
    kind: PartKind,
    konto: Seq<char>,
    motkonto: Seq<char>,
    dato: Dato,
    rader: Seq<ApenPostRad>,
    partsnr: Seq<String>,
    v: VoucherDraft,
)
    requires
        apne_poster_bilag(kind, konto, motkonto, dato, rader, partsnr, v),
    ensures
        sum_til(v.entries@, rader.len() as int) == apen_sum(kind, rader),
        sum_linjer(v.entries@) == 0,
{
    lemma_postsum(kind, konto, rader, partsnr, v.entries@, rader.len() as int);
}

proof fn lemma_postsum(kind: PartKind, konto: Seq<char>, rader: Seq<ApenPostRad>, partsnr: Seq<String>, e: Seq<EntryDraft>, n: int)
    requires
        0 <= n <= rader.len(),
        n <= e.len(),
        forall|i: int| 0 <= i < rader.len() && i < e.len() ==> postlinje(kind, konto, rader[i], partsnr[i]@, #[trigger] e[i]),
    ensures
        sum_til(e, n) == apen_sum_til(kind, rader, n),
    decreases n,
{
    if n > 0 {
        lemma_postsum(kind, konto, rader, partsnr, e, n - 1);
        assert(postlinje(kind, konto, rader[n - 1], partsnr[n - 1]@, e[n - 1]));
    }
}

} // verus!
