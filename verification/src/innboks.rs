//! The document inbox: uploaded documentation waiting to become
//! vouchers. A document is decided once — posted or rejected — and a
//! stored document is handed out only when its hash still matches.

use crate::attachment::{hex, hex_av};
use crate::ledger::like_bytes;
use crate::tekst::{er_blank, like, trim, trimmet};
use vstd::prelude::*;

verus! {

/// An inbox document as listed.
#[derive(Clone, Debug)]
pub struct InboxRow {
    pub id: u128,
    pub filename: String,
    pub content_type: String,
    pub byte_size: i64,
    pub sha256_hex: String,
    pub uploaded_by: String,
    /// Microseconds since the Unix epoch, UTC.
    pub created_at: i64,
    pub status: String,
    pub voucher_id: Option<u128>,
    pub decided_by: Option<String>,
    pub note: Option<String>,
}

/// Why an inbox operation is refused.
#[derive(Clone, Copy, Debug, PartialEq, Eq, Structural)]
pub enum InnboksFeil {
    TomtDokument,
    UkjentDokument,
    /// The stored content no longer matches its hash.
    HashAvvik,
    /// The document is already posted or rejected.
    AlleredeAvgjort,
    /// A rejection needs a note.
    AvvisningUtenNotat,
}

/// An upload needs content.
pub fn sjekk_opplasting(lengde: usize) -> (r: Result<(), InnboksFeil>)
    ensures
        r is Ok <==> lengde > 0,
        r matches Err(e) ==> e == InnboksFeil::TomtDokument,
{
    if lengde == 0 {
        Err(InnboksFeil::TomtDokument)
    } else {
        Ok(())
    }
}

/// A download is handed out only when the hash of the content
/// (`beregnet`) equals the stored hash.
pub fn sjekk_nedlasting(beregnet: &[u8], lagret: &[u8]) -> (r: Result<(), InnboksFeil>)
    ensures
        r is Ok <==> beregnet@ == lagret@,
        r matches Err(e) ==> e == InnboksFeil::HashAvvik,
{
    if like_bytes(beregnet, lagret) {
        Ok(())
    } else {
        Err(InnboksFeil::HashAvvik)
    }
}

/// A document is posted only while undecided (`status`, `None` when
/// there is no such document).
pub fn sjekk_bokforing(status: Option<&str>) -> (r: Result<(), InnboksFeil>)
    ensures
        status is None ==> r == Err::<(), InnboksFeil>(InnboksFeil::UkjentDokument),
        status matches Some(s) ==> r == (if s@ == "ny"@ { Ok(()) } else { Err(InnboksFeil::AlleredeAvgjort) }),
{
    match status {
        None => Err(InnboksFeil::UkjentDokument),
        Some(s) => if like(s, "ny") {
            Ok(())
        } else {
            Err(InnboksFeil::AlleredeAvgjort)
        },
    }
}

/// A rejection needs a note that is not blank; the result is the note
/// trimmed.
pub fn sjekk_avvisning(note: &str) -> (r: Result<String, InnboksFeil>)
    ensures
        r is Ok <==> trimmet(note@).len() > 0,
        r matches Ok(n) ==> n@ == trimmet(note@),
        r matches Err(e) ==> e == InnboksFeil::AvvisningUtenNotat,
{
    if er_blank(note) {
        Err(InnboksFeil::AvvisningUtenNotat)
    } else {
        Ok(trim(note))
    }
}

/// A rejection changes exactly one undecided document, else there was
/// none with that id.
pub fn avvist(rader: u64) -> (r: Result<(), InnboksFeil>)
    ensures
        r is Ok <==> rader == 1,
        r matches Err(e) ==> e == InnboksFeil::AlleredeAvgjort,
{
    if rader == 1 {
        Ok(())
    } else {
        Err(InnboksFeil::AlleredeAvgjort)
    }
}

/// The hash of a listed document in lowercase hex.
pub fn sha256_hex(sha256: &Vec<u8>) -> (r: String)
    ensures
        r@ == hex_av(sha256@),
{
    hex(sha256.as_slice())
}

} // verus!
