//! Engagements between firms and companies: a company may ask only a
//! verified firm, never for a kind it already has open, and a request
//! is decided once.

use crate::dato::Dato;
use vstd::prelude::*;
use vstd::string::*;

verus! {

/// A firm in the public directory.
#[derive(Clone, Debug)]
pub struct DirectoryFirm {
    pub firm_id: u128,
    pub orgnr: String,
    pub name: String,
    pub kind: String,
    pub client_count: i64,
}

/// A firm the person is a member of.
#[derive(Clone, Debug)]
pub struct MyFirm {
    pub firm_id: u128,
    pub name: String,
    pub kind: String,
    pub verified: bool,
    pub pending_requests: i64,
}

/// A request as the firm sees it.
#[derive(Clone, Debug)]
pub struct RequestRow {
    pub request_id: u128,
    pub company_name: String,
    pub company_orgnr: String,
    pub kind: String,
    pub message: Option<String>,
    pub status: String,
    /// Microseconds since the Unix epoch, UTC.
    pub created_at: i64,
}

/// An engagement, open or ended.
#[derive(Clone, Debug)]
pub struct EngagementRow {
    pub engagement_id: u128,
    pub firm_id: u128,
    pub firm_name: String,
    pub company_id: u128,
    pub company_name: String,
    pub kind: String,
    pub valid_from: Dato,
    pub valid_to: Option<Dato>,
}

/// The firm as looked up for a request.
#[derive(Clone, Debug)]
pub struct FirmaOppslag {
    pub kind: String,
    pub verified: bool,
}

/// Why an engagement step is refused.
#[derive(Clone, Copy, Debug, PartialEq, Eq, Structural)]
pub enum OppdragFeil {
    UkjentFirma,
    /// The firm's authorisation is not verified.
    IkkeVerifisert,
    /// An engagement of this kind is already open.
    AlleredeAktivt,
    /// No pending request with that id for this firm.
    IngenForesporsel,
    /// No active engagement to end.
    IngenAktivtOppdrag,
}

/// A request may go to a firm that exists and is verified, when no
/// engagement of the firm's kind is open with it; the request is for the
/// firm's kind.
pub fn sjekk_foresporsel(firma: &Option<FirmaOppslag>, aapent: bool) -> (r: Result<String, OppdragFeil>)
    ensures
        match *firma {
            None => r == Err::<String, OppdragFeil>(OppdragFeil::UkjentFirma),
            Some(f) => if !f.verified {
                r == Err::<String, OppdragFeil>(OppdragFeil::IkkeVerifisert)
            } else if aapent {
                r == Err::<String, OppdragFeil>(OppdragFeil::AlleredeAktivt)
            } else {
                r matches Ok(k) && k@ == f.kind@
            },
        },
{
    match firma {
        None => Err(OppdragFeil::UkjentFirma),
        Some(f) => if !f.verified {
            Err(OppdragFeil::IkkeVerifisert)
        } else if aapent {
            Err(OppdragFeil::AlleredeAktivt)
        } else {
            Ok(f.kind.clone())
        },
    }
}

/// The status a decided request gets.
pub fn beslutningsstatus(accept: bool) -> (r: String)
    ensures
        r@ == (if accept { "accepted"@ } else { "declined"@ }),
{
    if accept {
        String::from_str("accepted")
    } else {
        String::from_str("declined")
    }
}

/// A decision applies only to a pending request of the firm (`funnet`).
pub fn sjekk_beslutning(funnet: bool) -> (r: Result<(), OppdragFeil>)
    ensures
        r is Ok <==> funnet,
        r matches Err(e) ==> e == OppdragFeil::IngenForesporsel,
{
    if funnet {
        Ok(())
    } else {
        Err(OppdragFeil::IngenForesporsel)
    }
}

/// Ending an engagement ends exactly one active engagement.
pub fn sjekk_avslutning(rader: u64) -> (r: Result<(), OppdragFeil>)
    ensures
        r is Ok <==> rader == 1,
        r matches Err(e) ==> e == OppdragFeil::IngenAktivtOppdrag,
{
    if rader == 1 {
        Ok(())
    } else {
        Err(OppdragFeil::IngenAktivtOppdrag)
    }
}

} // verus!
