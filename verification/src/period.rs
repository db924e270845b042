//! Period locks: an append-only history of "locked through" dates. A
//! lock only moves forward unless a reopening is allowed, and never to
//! the date it already has.

use crate::dato::{Dato, for_, er_for};
use vstd::prelude::*;

verus! {

/// One recorded lock.
#[derive(Clone, Debug)]
pub struct PeriodLockRow {
    pub locked_through: Dato,
    pub set_by: String,
    /// Microseconds since the Unix epoch, UTC.
    pub created_at: i64,
}

/// Why a new lock is refused.
#[derive(Clone, Copy, Debug, PartialEq, Eq, Structural)]
pub enum LaasFeil {
    /// Moving the lock back from this date needs the right to reopen.
    GjenapningKreverAdmin { gjeldende: Dato },
    /// The period is already locked through this date.
    AlleredeLast { gjeldende: Dato },
}

/// A new lock date against the current one (`None` when nothing is
/// locked): moving it back needs `allow_reopen`, and it must differ from
/// the current date.
pub fn sjekk_ny_laas(gjeldende: Option<Dato>, locked_through: Dato, allow_reopen: bool) -> (r: Result<(), LaasFeil>)
    ensures
        match gjeldende {
            None => r is Ok,
            Some(g) => r == (if for_(locked_through, g) && !allow_reopen {
                Err(LaasFeil::GjenapningKreverAdmin { gjeldende: g })
            } else if locked_through == g {
                Err(LaasFeil::AlleredeLast { gjeldende: g })
            } else {
                Ok(())
            }),
        },
{
    match gjeldende {
        None => Ok(()),
        Some(g) => if er_for(locked_through, g) && !allow_reopen {
            Err(LaasFeil::GjenapningKreverAdmin { gjeldende: g })
        } else if locked_through == g {
            Err(LaasFeil::AlleredeLast { gjeldende: g })
        } else {
            Ok(())
        },
    }
}

/// Without the right to reopen, an accepted lock lies strictly after the
/// current one: locks only move forward.
pub proof fn lov_laas_gaar_bare_fremover(g: Dato, ny: Dato)
    requires
        !(for_(ny, g)),
        ny != g,
    ensures
        for_(g, ny),
{
}

} // verus!
