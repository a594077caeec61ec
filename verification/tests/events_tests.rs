//! The chain event decoder: the two target event kinds, first-match-wins,
//! absent results, and indifference to other events.

use lobster::events::{parse_agent_call_queued_event, parse_agent_registered_event, ChainEvent};
use sp_core::crypto::Ss58Codec as _;

fn event(pallet: &str, variant: &str, bytes_hex: Option<&str>) -> ChainEvent {
    ChainEvent {
        pallet: pallet.to_string(),
        variant: variant.to_string(),
        bytes_hex: bytes_hex.map(|s| s.to_string()),
    }
}

fn ss58_of_raw(account: [u8; 32]) -> String {
    sp_core::sr25519::Public::from_raw(account).to_ss58check()
}

#[test]
fn registered_event_yields_ss58_of_account() {
    let events = vec![event("Agents", "AgentRegistered", Some(&"00".repeat(32)))];
    let got = parse_agent_registered_event(&events);
    assert_eq!(got, Some(ss58_of_raw([0u8; 32])));
}

#[test]
fn empty_event_list_yields_absent() {
    assert_eq!(parse_agent_registered_event(&vec![]), None);
    assert_eq!(parse_agent_call_queued_event(&vec![]), None);
}

#[test]
fn first_of_two_matching_events_wins() {
    let first = [1u8; 32];
    let second = [2u8; 32];
    let events = vec![
        event("Agents", "AgentRegistered", Some(&hex::encode(first))),
        event("Agents", "AgentRegistered", Some(&hex::encode(second))),
    ];
    assert_eq!(parse_agent_registered_event(&events), Some(ss58_of_raw(first)));
}

#[test]
fn nonmatching_events_are_ignored() {
    let account = [3u8; 32];
    let events = vec![
        event("Balances", "Transfer", Some(&"aa".repeat(40))),
        event("Agents", "SomethingElse", Some(&"bb".repeat(40))),
        event("Agents", "AgentRegistered", Some(&hex::encode(account))),
    ];
    assert_eq!(parse_agent_registered_event(&events), Some(ss58_of_raw(account)));

    let only_noise = vec![
        event("Balances", "Transfer", Some(&"aa".repeat(40))),
        event("System", "ExtrinsicSuccess", None),
    ];
    assert_eq!(parse_agent_registered_event(&only_noise), None);
    assert_eq!(parse_agent_call_queued_event(&only_noise), None);
}

#[test]
fn registered_event_blob_longer_than_account_is_fine() {
    let mut blob = vec![5u8; 32];
    blob.extend_from_slice(&[0xde, 0xad]);
    let events = vec![event("Agents", "AgentRegistered", Some(&hex::encode(&blob)))];
    assert_eq!(parse_agent_registered_event(&events), Some(ss58_of_raw([5u8; 32])));
}

#[test]
fn short_matching_blob_is_passed_over() {
    let account = [6u8; 32];
    let events = vec![
        event("Agents", "AgentRegistered", Some("0011")),
        event("Agents", "AgentRegistered", Some(&hex::encode(account))),
    ];
    assert_eq!(parse_agent_registered_event(&events), Some(ss58_of_raw(account)));
}

#[test]
fn malformed_hex_in_matching_event_ends_the_scan() {
    let account = [7u8; 32];
    let events = vec![
        event("Agents", "AgentRegistered", Some("not-hex!")),
        event("Agents", "AgentRegistered", Some(&hex::encode(account))),
    ];
    assert_eq!(parse_agent_registered_event(&events), None);
}

#[test]
fn queued_event_yields_little_endian_run_id() {
    let events = vec![event("Agents", "AgentCallQueued", Some("2a00000000000000"))];
    assert_eq!(parse_agent_call_queued_event(&events), Some(42));

    let events = vec![event(
        "Agents",
        "AgentCallQueued",
        Some(&hex::encode(0x0102030405060708u64.to_le_bytes())),
    )];
    assert_eq!(parse_agent_call_queued_event(&events), Some(0x0102030405060708));
}

#[test]
fn queued_event_reads_only_first_eight_bytes() {
    let mut blob = 99u64.to_le_bytes().to_vec();
    blob.extend_from_slice(&[0xff; 4]);
    let events = vec![event("Agents", "AgentCallQueued", Some(&hex::encode(&blob)))];
    assert_eq!(parse_agent_call_queued_event(&events), Some(99));
}

#[test]
fn registered_and_queued_do_not_answer_for_each_other() {
    let events = vec![event("Agents", "AgentCallQueued", Some("2a00000000000000"))];
    assert_eq!(parse_agent_registered_event(&events), None);
    let events = vec![event("Agents", "AgentRegistered", Some(&"00".repeat(32)))];
    // The 32-byte blob satisfies the 8-byte rule only for its own kind.
    assert_eq!(parse_agent_call_queued_event(&events), None);
}
