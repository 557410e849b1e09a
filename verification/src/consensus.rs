//! The consensus-address resolver: maps a raw consensus-layer address to the
//! chain-native validator address by scanning a liveness snapshot, and
//! re-validates the hit against the authoritative active set.

use vstd::prelude::*;
use crate::error::ApiError;
use crate::pos::{ValidatorLiveness, ValidatorResponse};

verus! {

/// A hexadecimal digit, either case.
pub open spec fn spec_is_hex_digit(c: char) -> bool {
    ||| ('0' as u32) <= (c as u32) <= ('9' as u32)
    ||| ('A' as u32) <= (c as u32) <= ('F' as u32)
    ||| ('a' as u32) <= (c as u32) <= ('f' as u32)
}

/// A well-formed consensus-layer address: exactly 40 case-insensitive
/// hexadecimal characters.
pub open spec fn spec_valid_consensus_addr(s: Seq<char>) -> bool {
    s.len() == 40 && (forall|i: int| 0 <= i < s.len() ==> spec_is_hex_digit(#[trigger] s[i]))
}

/// Checks the consensus-layer address shape without touching chain state.
pub fn is_valid_consensus_addr(s: &str) -> (r: bool)
    ensures
        r == spec_valid_consensus_addr(s@),
{
    let n = s.unicode_len();
    if n != 40 {
        return false;
    }
    let mut i: usize = 0;
    while i < n
        invariant
            n == s@.len(),
            i <= n,
            forall|j: int| 0 <= j < i ==> spec_is_hex_digit(#[trigger] s@[j]),
        decreases n - i,
    {
        let c = s.get_char(i);
        let v = c as u32;
        if !((48 <= v && v <= 57) || (65 <= v && v <= 70) || (97 <= v && v <= 102)) {
            return false;
        }
        i += 1;
    }
    true
}

/// The native address of the first liveness record whose consensus-layer
/// address is exactly `raw`, if any.
pub open spec fn spec_resolve_comet(records: Seq<ValidatorLiveness>, raw: Seq<char>) -> Option<
    Seq<char>,
>
    decreases records.len(),
{
    if records.len() == 0 {
        None
    } else if records[0].comet_address@ == raw {
        Some(records[0].native_address@)
    } else {
        spec_resolve_comet(records.drop_first(), raw)
    }
}

/// Records before `i` hold no match, so resolution starts at `i`.
proof fn lemma_resolve_comet_skip(records: Seq<ValidatorLiveness>, raw: Seq<char>, i: int)
    requires
        0 <= i <= records.len(),
        forall|j: int| 0 <= j < i ==> (#[trigger] records[j]).comet_address@ != raw,
    ensures
        spec_resolve_comet(records, raw) == spec_resolve_comet(records.skip(i), raw),
    decreases i,
{
    if i > 0 {
        lemma_resolve_comet_skip(records, raw, i - 1);
        assert(records.skip(i - 1).drop_first() =~= records.skip(i));
        assert(records.skip(i - 1)[0] == records[i - 1]);
    } else {
        assert(records.skip(0) =~= records);
    }
}

/// Scans the liveness snapshot for an exact consensus-address match and hands
/// back the matching record's native address.
pub fn find_by_comet_address(records: &Vec<ValidatorLiveness>, raw: &String) -> (r: Option<String>)
    ensures
        match r {
            Some(addr) => spec_resolve_comet(records@, raw@) == Some(addr@),
            None => spec_resolve_comet(records@, raw@) is None,
        },
{
    let n = records.len();
    let mut i: usize = 0;
    while i < n
        invariant
            i <= n,
            n == records@.len(),
            forall|j: int| 0 <= j < i ==> (#[trigger] records@[j]).comet_address@ != raw@,
        decreases n - i,
    {
        if records[i].comet_address == *raw {
            proof {
                lemma_resolve_comet_skip(records@, raw@, i as int);
                assert(records@.skip(i as int)[0] == records@[i as int]);
            }
            return Some(records[i].native_address.clone());
        }
        i += 1;
    }
    proof {
        lemma_resolve_comet_skip(records@, raw@, n as int);
        assert(records@.skip(n as int) =~= Seq::<ValidatorLiveness>::empty());
    }
    None
}

/// Membership of `addr` in an address collection, by exact equality.
pub open spec fn spec_contains_address(set: Seq<String>, addr: Seq<char>) -> bool {
    exists|i: int| 0 <= i < set.len() && (#[trigger] set[i])@ == addr
}

pub fn contains_address(set: &Vec<String>, addr: &String) -> (r: bool)
    ensures
        r == spec_contains_address(set@, addr@),
{
    let n = set.len();
    let mut i: usize = 0;
    while i < n
        invariant
            i <= n,
            n == set@.len(),
            forall|j: int| 0 <= j < i ==> (#[trigger] set@[j])@ != addr@,
        decreases n - i,
    {
        if set[i] == *addr {
            return true;
        }
        i += 1;
    }
    false
}

/// The rejection text for a malformed consensus-layer address.
pub open spec fn spec_invalid_tm_msg(raw: Seq<char>) -> Seq<char> {
    "Invalid Tendermint address format: "@ + raw + ". Expected 40 hex characters."@
}

/// The not-found text for a consensus-layer address without a live validator.
pub open spec fn spec_no_validator_msg(raw: Seq<char>) -> Seq<char> {
    "No validator found with Tendermint address: "@ + raw
}

/// First step of a consensus-address lookup.
pub enum ConsensusLookup {
    /// The input was rejected; no chain query is to be issued.
    Rejected(ApiError),
    /// The input is well-formed; the liveness snapshot and the active set
    /// are needed next.
    NeedSnapshot { raw: String },
}

/// Starts a consensus-address lookup. A malformed address is rejected here,
/// before any chain query is issued.
pub fn begin_consensus_lookup(raw: String) -> (step: ConsensusLookup)
    ensures
        spec_valid_consensus_addr(raw@) ==> (step matches ConsensusLookup::NeedSnapshot {
            raw: r,
        } && r@ == raw@),
        !spec_valid_consensus_addr(raw@) ==> (step matches ConsensusLookup::Rejected(e)
            && e matches ApiError::InvalidTendermintAddress(m) && m@ == spec_invalid_tm_msg(raw@)),
{
    if is_valid_consensus_addr(raw.as_str()) {
        ConsensusLookup::NeedSnapshot { raw }
    } else {
        let msg = String::from_str("Invalid Tendermint address format: ").concat(raw.as_str())
            .concat(". Expected 40 hex characters.");
        ConsensusLookup::Rejected(ApiError::InvalidTendermintAddress(msg))
    }
}

/// Resolves a well-formed consensus-layer address against a liveness snapshot
/// and the authoritative active validator set.
///
/// The snapshot is advisory: a liveness record whose validator has left the
/// active set answers `NotFound`, never the stale address. A malformed
/// address is rejected whatever the chain data holds.
pub fn resolve_consensus_address(
    raw: &String,
    records: &Vec<ValidatorLiveness>,
    active_set: &Vec<String>,
) -> (r: Result<ValidatorResponse, ApiError>)
    ensures
        !spec_valid_consensus_addr(raw@) ==> (r matches Err(e)
            && e matches ApiError::InvalidTendermintAddress(m) && m@ == spec_invalid_tm_msg(raw@)),
        spec_valid_consensus_addr(raw@) ==> match spec_resolve_comet(records@, raw@) {
            Some(native) => {
                if spec_contains_address(active_set@, native) {
                    r matches Ok(v) && v.address@ == native
                } else {
                    r matches Err(e) && e matches ApiError::NotFound(m) && m@
                        == spec_no_validator_msg(raw@)
                }
            },
            None => r matches Err(e) && e matches ApiError::NotFound(m) && m@
                == spec_no_validator_msg(raw@),
        },
{
    if !is_valid_consensus_addr(raw.as_str()) {
        let msg = String::from_str("Invalid Tendermint address format: ").concat(raw.as_str())
            .concat(". Expected 40 hex characters.");
        return Err(ApiError::InvalidTendermintAddress(msg));
    }
    match find_by_comet_address(records, raw) {
        Some(native) => {
            if contains_address(active_set, &native) {
                Ok(ValidatorResponse { address: native })
            } else {
                let msg = String::from_str("No validator found with Tendermint address: ").concat(
                    raw.as_str(),
                );
                Err(ApiError::NotFound(msg))
            }
        },
        None => {
            let msg = String::from_str("No validator found with Tendermint address: ").concat(
                raw.as_str(),
            );
            Err(ApiError::NotFound(msg))
        },
    }
}

} // verus!
