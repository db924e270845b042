//! The VAT specification: one line per code and rate over a period, and
//! the checks each aggregated row must pass before it becomes a line.

use crate::dato::Dato;
use vstd::prelude::*;

verus! {

/// One line of the VAT specification: the base and the computed VAT for
/// a code at one rate.
#[derive(Clone, Debug)]
pub struct SpesLine {
    pub code: String,
    pub description: String,
    pub rate_bp: i64,
    pub grunnlag_ore: i64,
    pub avgift_ore: i64,
}

/// A recorded VAT term arrangement.
#[derive(Clone, Debug)]
pub struct TerminordningRow {
    pub valid_from: Dato,
    pub ordning: String,
    pub note: Option<String>,
    pub created_by: String,
}

/// Why an aggregated row does not become a line.
#[derive(Clone, Copy, Debug, PartialEq, Eq, Structural)]
pub enum MvaFeil {
    /// The code has no rate on record for the period.
    IngenSats,
    /// An entry carries an empty VAT code.
    TomKode,
}

/// An aggregated row becomes a specification line when its code had a
/// rate (`rate_bp`) and the code is not empty. `avgift_ore` is the VAT
/// computed on the base at that rate.
pub fn spesifikasjonslinje(
    code: String,
    description: String,
    rate_bp: Option<i64>,
    grunnlag_ore: i64,
    avgift_ore: i64,
) -> (r: Result<SpesLine, MvaFeil>)
    ensures
        rate_bp is None ==> r == Err::<SpesLine, MvaFeil>(MvaFeil::IngenSats),
        rate_bp is Some && code@.len() == 0 ==> r == Err::<SpesLine, MvaFeil>(MvaFeil::TomKode),
        r is Ok <==> rate_bp is Some && code@.len() > 0,
        r matches Ok(l) ==> {
            &&& l.code@ == code@
            &&& l.description@ == description@
            &&& Some(l.rate_bp) == rate_bp
            &&& l.grunnlag_ore == grunnlag_ore
            &&& l.avgift_ore == avgift_ore
        },
{
    let rate = match rate_bp {
        None => {
            return Err(MvaFeil::IngenSats);
        },
        Some(r) => r,
    };
    if code.unicode_len() == 0 {
        return Err(MvaFeil::TomKode);
    }
    Ok(SpesLine { code, description, rate_bp: rate, grunnlag_ore, avgift_ore })
}

} // verus!
