//! Checking anchored history against the live chain: each anchored head
//! must still be on the chain with the anchored hash, and each snapshot's
//! stored root must still recompute from its leaves.

use crate::tekst::{desimal, heltall_tekst};
use crate::ledger::like_bytes;
use vstd::prelude::*;
use vstd::string::*;

verus! {

/// What the anchor check found.
#[derive(Clone, Debug)]
pub struct AnchorCheck {
    pub snapshots_checked: i64,
    pub problems: Vec<String>,
}

/// One snapshot covering the company, with what the live data says now.
/// `etikett` names the snapshot in findings ("{id} ({created_at})").
#[derive(Clone, Debug)]
pub struct AnkerRad {
    pub etikett: String,
    pub anchored_seq: i64,
    pub anchored_hash: Vec<u8>,
    pub stored_root: Vec<u8>,
    /// The hash of the live voucher at the anchored sequence, if any.
    pub live_hash: Option<Vec<u8>>,
    /// The root recomputed from the snapshot's leaves, if any.
    pub recomputed_root: Option<Vec<u8>>,
}

/// A stored hash that is not 32 bytes long.
#[derive(Clone, Debug, PartialEq, Eq)]
pub enum AnkerFeil {
    UgyldigHash,
}

/// The stored hashes of the row are 32 bytes.
pub open spec fn hasher_ok(r: AnkerRad) -> bool {
    &&& r.anchored_hash@.len() == 32
    &&& r.stored_root@.len() == 32
    &&& (r.live_hash matches Some(h) ==> h@.len() == 32)
}

pub open spec fn avkortet_tekst(r: AnkerRad) -> Seq<char> {
    "snapshot "@ + r.etikett@ + ": anchored voucher at seq "@ + desimal(r.anchored_seq as int)
        + " no longer exists — history has been truncated"@
}

pub open spec fn omskrevet_tekst(r: AnkerRad) -> Seq<char> {
    "snapshot "@ + r.etikett@ + ": voucher at seq "@ + desimal(r.anchored_seq as int)
        + " no longer matches the anchored hash — history has been rewritten"@
}

pub open spec fn manipulert_tekst(r: AnkerRad) -> Seq<char> {
    "snapshot "@ + r.etikett@ + ": stored root does not recompute from its leaves — the anchor rows themselves have been tampered with"@
}

/// The findings for one snapshot: the anchored voucher is gone or
/// changed; the stored root does not recompute.
pub open spec fn funn(r: AnkerRad) -> Seq<Seq<char>> {
    let a: Seq<Seq<char>> = match r.live_hash {
        None => seq![avkortet_tekst(r)],
        Some(h) => if h@ != r.anchored_hash@ {
            seq![omskrevet_tekst(r)]
        } else {
            Seq::empty()
        },
    };
    let rot_ok = match r.recomputed_root {
        Some(x) => x@ == r.stored_root@,
        None => false,
    };
    if rot_ok {
        a
    } else {
        a.push(manipulert_tekst(r))
    }
}

/// The findings for the first `n` snapshots, in order.
pub open spec fn funn_til(rader: Seq<AnkerRad>, n: int) -> Seq<Seq<char>>
    decreases n,
{
    if n <= 0 {
        Seq::empty()
    } else {
        funn_til(rader, n - 1) + funn(rader[n - 1])
    }
}

/// Every anchored head for the company, checked against the live chain,
/// oldest snapshot first; a stored hash that is not 32 bytes stops the
/// check.
pub fn verify_company_anchors(rader: &Vec<AnkerRad>) -> (r: Result<AnchorCheck, AnkerFeil>)
    requires
        rader@.len() <= i64::MAX,
    ensures
        r is Ok <==> forall|i: int| 0 <= i < rader@.len() ==> #[trigger] hasher_ok(rader@[i]),
        r matches Ok(c) ==> c.snapshots_checked == rader@.len() && c.problems@.map_values(|s: String| s@)
            == funn_til(rader@, rader@.len() as int),
{
    let mut problems: Vec<String> = Vec::new();
    let mut i: usize = 0;
    while i < rader.len()
        invariant
            i <= rader@.len(),
            forall|k: int| 0 <= k < i ==> #[trigger] hasher_ok(rader@[k]),
            problems@.map_values(|s: String| s@) == funn_til(rader@, i as int),
        decreases rader@.len() - i,
    {
        let r = &rader[i];
        let live_ok = match &r.live_hash {
            Some(h) => h.len() == 32,
            None => true,
        };
        if r.anchored_hash.len() != 32 || r.stored_root.len() != 32 || !live_ok {
            assert(!hasher_ok(rader@[i as int]));
            return Err(AnkerFeil::UgyldigHash);
        }
        let ghost p0 = problems@;
        let seq = heltall_tekst(r.anchored_seq);
        match &r.live_hash {
            None => {
                let mut s = String::from_str("snapshot ");
                s.append(r.etikett.as_str());
                s.append(": anchored voucher at seq ");
                s.append(seq.as_str());
                s.append(" no longer exists — history has been truncated");
                problems.push(s);
            },
            Some(h) => {
                if !like_bytes(h.as_slice(), r.anchored_hash.as_slice()) {
                    let mut s = String::from_str("snapshot ");
                    s.append(r.etikett.as_str());
                    s.append(": voucher at seq ");
                    s.append(seq.as_str());
                    s.append(" no longer matches the anchored hash — history has been rewritten");
                    problems.push(s);
                }
            },
        }
        let ghost p1 = problems@;
        let rot_ok = match &r.recomputed_root {
            Some(x) => like_bytes(x.as_slice(), r.stored_root.as_slice()),
            None => false,
        };
        if !rot_ok {
            let mut s = String::from_str("snapshot ");
            s.append(r.etikett.as_str());
            s.append(": stored root does not recompute from its leaves — the anchor rows themselves have been tampered with");
            problems.push(s);
        }
        assert(problems@.map_values(|s: String| s@) =~= p0.map_values(|s: String| s@) + funn(rader@[i as int]));
        i = i + 1;
    }
    Ok(AnchorCheck { snapshots_checked: rader.len() as i64, problems })
}

} // verus!
