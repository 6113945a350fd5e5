use publish_dispatch::state::{DispatchReadiness, NetworkState, NodeIdentity, OutcomeTable};
use publish_dispatch::types::{ContentAddress, ErrorDetail, Outcome};

fn address(text: &str) -> ContentAddress {
    ContentAddress { text: text.to_string() }
}

#[test]
fn readiness_needs_all_three() {
    for session in [false, true] {
        for group in [false, true] {
            for agent in [false, true] {
                let readiness = DispatchReadiness {
                    has_transport_session: session,
                    has_group_identity: group,
                    has_agent_identity: agent,
                };
                assert_eq!(readiness.is_ready(), session && group && agent);
            }
        }
    }
}

#[test]
fn a_new_node_is_not_ready() {
    let state: NetworkState<u8> = NetworkState::new();
    assert_eq!(
        state.readiness(),
        DispatchReadiness {
            has_transport_session: false,
            has_group_identity: false,
            has_agent_identity: false,
        }
    );
    assert_eq!(state.dispatch_gate(), None);
    assert_eq!(state.outcomes.len(), 0);
}

#[test]
fn readiness_reports_each_part() {
    let mut state: NetworkState<u8> = NetworkState::new();
    state.network = Some(5);
    assert!(state.readiness().has_transport_session);
    assert!(!state.readiness().has_group_identity);
    assert!(!state.readiness().has_agent_identity);
    assert_eq!(state.dispatch_gate(), None);

    state.group_identity = Some("abcd".to_string());
    assert!(state.readiness().has_group_identity);
    assert_eq!(state.dispatch_gate(), None);

    state.agent_identity = Some("alice".to_string());
    assert!(state.readiness().is_ready());
}

#[test]
fn a_ready_node_hands_on_its_identities() {
    let mut state: NetworkState<u8> = NetworkState::new();
    state.network = Some(5);
    state.group_identity = Some("abcd".to_string());
    state.agent_identity = Some("alice".to_string());
    assert_eq!(
        state.dispatch_gate(),
        Some(NodeIdentity { group: "abcd".to_string(), agent: "alice".to_string() })
    );
    assert_eq!(state.network, Some(5));
    assert_eq!(state.outcomes.len(), 0);
}

#[test]
fn a_node_without_session_is_held_back() {
    let mut state: NetworkState<u8> = NetworkState::new();
    state.group_identity = Some("abcd".to_string());
    state.agent_identity = Some("alice".to_string());
    assert_eq!(state.dispatch_gate(), None);
}

#[test]
fn the_table_holds_what_was_filed() {
    let mut table = OutcomeTable::new();
    assert_eq!(table.len(), 0);
    assert_eq!(table.get(1), None);

    let success: Outcome = Ok(address("QmA"));
    let failure: Outcome = Err(ErrorDetail::Generic("disconnected".to_string()));
    table.insert(1, success.clone());
    table.insert(2, failure.clone());

    assert_eq!(table.len(), 2);
    assert_eq!(table.get(1), Some(&success));
    assert_eq!(table.get(2), Some(&failure));
    assert_eq!(table.get(3), None);
}

#[test]
fn filing_twice_under_one_identity_keeps_the_later_outcome() {
    let mut table = OutcomeTable::new();
    let early: Outcome = Err(ErrorDetail::Generic("disconnected".to_string()));
    let late: Outcome = Ok(address("QmA"));
    table.insert(9, early);
    table.insert(9, late.clone());
    assert_eq!(table.len(), 1);
    assert_eq!(table.get(9), Some(&late));
}

#[test]
fn an_address_is_stringified_as_written() {
    let written = ContentAddress::new("QmbXSE38SN3SuJDmHKSSw5qWWegvU7oTxrLDRavWjyxMrT".to_string());
    assert_eq!(written.stringified(), "QmbXSE38SN3SuJDmHKSSw5qWWegvU7oTxrLDRavWjyxMrT");
    assert_eq!(written, address("QmbXSE38SN3SuJDmHKSSw5qWWegvU7oTxrLDRavWjyxMrT"));
    assert_eq!(ContentAddress::new(String::new()).stringified(), "");
}
