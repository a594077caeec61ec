//! Decoding chain-emitted events back into domain values.
//!
//! After a submission the chain hands back an ordered list of events.  The
//! decoder scans it linearly — first match wins — for the two event kinds
//! this client cares about, and turns their fixed-width fields into domain
//! values.  A missing event is an absent value, not an error: the caller
//! decides what that means.

use vstd::prelude::*;

use crate::bytesutil::le_val;
use crate::extrinsic::{ss58_encode, ss58_of};
use crate::hexcode::{hex_bytes, hex_decode, hex_valid};

verus! {

/// One event emitted by the chain: the pallet (module) name, the event
/// variant name, and the event's byte blob as a hex string, where the
/// event carried one.
#[derive(Debug, Clone)]
pub struct ChainEvent {
    pub pallet: String,
    pub variant: String,
    pub bytes_hex: Option<String>,
}

/// Whether an event is from the Agents pallet with the given variant name.
pub open spec fn is_target(e: ChainEvent, variant: Seq<char>) -> bool {
    e.pallet@ == "Agents"@ && e.variant@ == variant
}

/// The account id announced by the first `Agents::AgentRegistered` event:
/// the first 32 bytes of its blob.  A matching event whose blob is not
/// well-formed hex ends the scan with nothing; one whose blob is shorter
/// than 32 bytes, or absent, is passed over.
pub open spec fn registered_account_of(events: Seq<ChainEvent>) -> Option<Seq<u8>>
    decreases events.len(),
{
    if events.len() == 0 {
        None
    } else {
        let e = events[0];
        if is_target(e, "AgentRegistered"@) {
            match e.bytes_hex {
                Some(h) => if !hex_valid(h@) {
                    None
                } else if hex_bytes(h@).len() >= 32 {
                    Some(hex_bytes(h@).take(32))
                } else {
                    registered_account_of(events.drop_first())
                },
                None => registered_account_of(events.drop_first()),
            }
        } else {
            registered_account_of(events.drop_first())
        }
    }
}

/// The run identifier announced by the first `Agents::AgentCallQueued`
/// event: the first 8 bytes of its blob, read little-endian.
pub open spec fn queued_run_id_of(events: Seq<ChainEvent>) -> Option<u64>
    decreases events.len(),
{
    if events.len() == 0 {
        None
    } else {
        let e = events[0];
        if is_target(e, "AgentCallQueued"@) {
            match e.bytes_hex {
                Some(h) => if !hex_valid(h@) {
                    None
                } else if hex_bytes(h@).len() >= 8 {
                    Some(le_val(hex_bytes(h@).take(8)) as u64)
                } else {
                    queued_run_id_of(events.drop_first())
                },
                None => queued_run_id_of(events.drop_first()),
            }
        } else {
            queued_run_id_of(events.drop_first())
        }
    }
}

/// Find the first `Agents::AgentRegistered` event and return the new
/// on-chain address: the blob's first 32 bytes re-encoded as checksummed
/// SS58 text.
pub fn parse_agent_registered_event(events: &Vec<ChainEvent>) -> (r: Option<String>)
    ensures
        match (r, registered_account_of(events@)) {
            (Some(s), Some(account)) => s@ == ss58_of(account),
            (None, None) => true,
            _ => false,
        },
{
    let target_pallet = String::from_str("Agents");
    let target_variant = String::from_str("AgentRegistered");
    let n = events.len();
    let mut i: usize = 0;
    proof {
        assert(events@.subrange(0, n as int) =~= events@);
    }
    while i < n
        invariant
            i <= n,
            n == events@.len(),
            target_pallet@ == "Agents"@,
            target_variant@ == "AgentRegistered"@,
            registered_account_of(events@) == registered_account_of(
                events@.subrange(i as int, n as int),
            ),
        decreases n - i,
    {
        let e = &events[i];
        let ghost rest = events@.subrange(i as int, n as int);
        proof {
            assert(rest[0] == events@[i as int]);
            assert(rest.drop_first() =~= events@.subrange(i + 1, n as int));
        }
        if e.pallet == target_pallet && e.variant == target_variant {
            match &e.bytes_hex {
                Some(h) => {
                    match hex_decode(h.as_str()) {
                        Some(bytes) => {
                            if bytes.len() >= 32 {
                                let account = vstd::slice::slice_subrange(bytes.as_slice(), 0, 32);
                                proof {
                                    assert(account@ =~= hex_bytes(h@).take(32));
                                }
                                return Some(ss58_encode(account));
                            }
                        },
                        None => {
                            return None;
                        },
                    }
                },
                None => {},
            }
        }
        i = i + 1;
    }
    proof {
        assert(events@.subrange(n as int, n as int) =~= Seq::<ChainEvent>::empty());
    }
    None
}

/// Find the first `Agents::AgentCallQueued` event and return the run
/// identifier: the blob's first 8 bytes, read little-endian.
pub fn parse_agent_call_queued_event(events: &Vec<ChainEvent>) -> (r: Option<u64>)
    ensures
        r == queued_run_id_of(events@),
{
    let target_pallet = String::from_str("Agents");
    let target_variant = String::from_str("AgentCallQueued");
    let n = events.len();
    let mut i: usize = 0;
    proof {
        assert(events@.subrange(0, n as int) =~= events@);
    }
    while i < n
        invariant
            i <= n,
            n == events@.len(),
            target_pallet@ == "Agents"@,
            target_variant@ == "AgentCallQueued"@,
            queued_run_id_of(events@) == queued_run_id_of(events@.subrange(i as int, n as int)),
        decreases n - i,
    {
        let e = &events[i];
        let ghost rest = events@.subrange(i as int, n as int);
        proof {
            assert(rest[0] == events@[i as int]);
            assert(rest.drop_first() =~= events@.subrange(i + 1, n as int));
        }
        if e.pallet == target_pallet && e.variant == target_variant {
            match &e.bytes_hex {
                Some(h) => {
                    match hex_decode(h.as_str()) {
                        Some(bytes) => {
                            if bytes.len() >= 8 {
                                let run_id = le_u64(vstd::slice::slice_subrange(
                                    bytes.as_slice(),
                                    0,
                                    8,
                                ));
                                proof {
                                    assert(bytes@.subrange(0, 8) =~= hex_bytes(h@).take(8));
                                }
                                return Some(run_id);
                            }
                        },
                        None => {
                            return None;
                        },
                    }
                },
                None => {},
            }
        }
        i = i + 1;
    }
    proof {
        assert(events@.subrange(n as int, n as int) =~= Seq::<ChainEvent>::empty());
    }
    None
}

/// Eight little-endian bytes as a 64-bit integer.
pub fn le_u64(bytes: &[u8]) -> (r: u64)
    requires
        bytes@.len() == 8,
    ensures
        r == le_val(bytes@),
{
    let r: u64 = (bytes[0] as u64) + 256 * ((bytes[1] as u64) + 256 * ((bytes[2] as u64) + 256 * ((
    bytes[3] as u64) + 256 * ((bytes[4] as u64) + 256 * ((bytes[5] as u64) + 256 * ((bytes[6] as u64)
        + 256 * (bytes[7] as u64)))))));
    proof {
        reveal_with_fuel(le_val, 10);
        let s = bytes@;
        assert(s.drop_first() =~= s.subrange(1, 8));
        assert(s.subrange(1, 8).drop_first() =~= s.subrange(2, 8));
        assert(s.subrange(2, 8).drop_first() =~= s.subrange(3, 8));
        assert(s.subrange(3, 8).drop_first() =~= s.subrange(4, 8));
        assert(s.subrange(4, 8).drop_first() =~= s.subrange(5, 8));
        assert(s.subrange(5, 8).drop_first() =~= s.subrange(6, 8));
        assert(s.subrange(6, 8).drop_first() =~= s.subrange(7, 8));
        assert(s.subrange(7, 8).drop_first() =~= Seq::<u8>::empty());
        assert(s.subrange(1, 8)[0] == s[1]);
        assert(s.subrange(2, 8)[0] == s[2]);
        assert(s.subrange(3, 8)[0] == s[3]);
        assert(s.subrange(4, 8)[0] == s[4]);
        assert(s.subrange(5, 8)[0] == s[5]);
        assert(s.subrange(6, 8)[0] == s[6]);
        assert(s.subrange(7, 8)[0] == s[7]);
    }
    r
}

/// Law: the decoders pass over any event whose pallet or variant matches
/// neither target pair; putting such an event in front of a list changes
/// neither decoding.
pub proof fn lemma_decoder_ignores_nonmatching(e: ChainEvent, events: Seq<ChainEvent>)
    requires
        !is_target(e, "AgentRegistered"@),
        !is_target(e, "AgentCallQueued"@),
    ensures
        registered_account_of(seq![e] + events) == registered_account_of(events),
        queued_run_id_of(seq![e] + events) == queued_run_id_of(events),
{
    let s = seq![e] + events;
    assert(s[0] == e);
    assert(s.drop_first() =~= events);
}

} // verus!
