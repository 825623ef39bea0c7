use walkup_scan::objects::{Event, EventTable, Payload};
use walkup_scan::poller::{triggered_destinations, EventCursor};
use walkup_scan::registry::DestinationRegistry;
use walkup_scan::strutil::{contains_str, last_segment, str_eq};

const ID_A: &str = "550e8400-e29b-41d4-a716-446655440000";
const ID_B: &str = "123e4567-e89b-12d3-a456-426614174000";

fn destination_payload(id: &str) -> Payload {
    Payload {
        resource_uri: format!("/WalkupScanToComp/WalkupScanToCompDestinations/{}", id),
        resource_type: "wus:WalkupScanToCompDestination".to_string(),
    }
}

fn scan_event(stamp: &str, payloads: Vec<Payload>) -> Event {
    Event {
        aging_stamp: stamp.to_string(),
        unqualified_event_category: "ScanEvent".to_string(),
        payloads,
    }
}

fn registry_with(ids: &[&str]) -> DestinationRegistry {
    let mut registry = DestinationRegistry::new();
    for id in ids {
        registry
            .record_registration(&format!("/WalkupScanToComp/WalkupScanToCompDestinations/{}", id))
            .unwrap();
    }
    registry
}

#[test]
fn a_scan_event_naming_an_owned_destination_triggers_it() {
    let table = EventTable { events: vec![scan_event("1-1", vec![destination_payload(ID_A)])] };
    let registry = registry_with(&[ID_A]);
    let triggered = triggered_destinations(&table, &registry);
    assert_eq!(triggered, vec![ID_A.to_string()]);
}

#[test]
fn an_event_of_another_category_triggers_nothing() {
    let mut event = scan_event("1-1", vec![destination_payload(ID_A)]);
    event.unqualified_event_category = "PoweredOn".to_string();
    let table = EventTable { events: vec![event] };
    let registry = registry_with(&[ID_A]);
    assert!(triggered_destinations(&table, &registry).is_empty());
}

#[test]
fn a_payload_of_another_resource_type_is_ignored() {
    let mut payload = destination_payload(ID_A);
    payload.resource_type = "wus:WalkupScanToCompEvent".to_string();
    let table = EventTable { events: vec![scan_event("1-1", vec![payload])] };
    let registry = registry_with(&[ID_A]);
    assert!(triggered_destinations(&table, &registry).is_empty());
}

#[test]
fn an_unowned_destination_triggers_nothing() {
    let table = EventTable { events: vec![scan_event("1-1", vec![destination_payload(ID_B)])] };
    let registry = registry_with(&[ID_A]);
    assert!(triggered_destinations(&table, &registry).is_empty());
}

#[test]
fn the_first_owned_match_in_registry_order_wins() {
    let table = EventTable {
        events: vec![scan_event(
            "1-1",
            vec![destination_payload(ID_B), destination_payload(ID_A)],
        )],
    };
    let registry = registry_with(&[ID_A, ID_B]);
    let triggered = triggered_destinations(&table, &registry);
    assert_eq!(triggered, vec![ID_A.to_string()]);
}

#[test]
fn each_scan_event_of_a_batch_triggers_in_order() {
    let table = EventTable {
        events: vec![
            scan_event("1-1", vec![destination_payload(ID_B)]),
            scan_event("1-2", vec![destination_payload(ID_A)]),
        ],
    };
    let registry = registry_with(&[ID_A, ID_B]);
    let triggered = triggered_destinations(&table, &registry);
    assert_eq!(triggered, vec![ID_B.to_string(), ID_A.to_string()]);
}

#[test]
fn a_scan_event_without_payloads_triggers_nothing() {
    let table = EventTable { events: vec![scan_event("1-1", vec![])] };
    let registry = registry_with(&[ID_A]);
    assert!(triggered_destinations(&table, &registry).is_empty());
}

#[test]
fn the_cursor_takes_the_newest_events_aging_stamp() {
    let mut cursor = EventCursor::new();
    assert!(cursor.current().is_none());
    let table = EventTable {
        events: vec![
            scan_event("4-160", vec![]),
            scan_event("4-161", vec![]),
        ],
    };
    cursor.observe(&table);
    assert_eq!(cursor.current().as_deref(), Some("4-161"));
}

#[test]
fn an_empty_batch_leaves_the_cursor_unchanged() {
    let mut cursor = EventCursor::new();
    cursor.observe(&EventTable { events: vec![scan_event("4-7", vec![])] });
    cursor.observe(&EventTable { events: vec![] });
    assert_eq!(cursor.current().as_deref(), Some("4-7"));
}

#[test]
fn character_comparison_and_search() {
    assert!(str_eq("ScanEvent", "ScanEvent"));
    assert!(!str_eq("ScanEvent", "ScanEvents"));
    assert!(!str_eq("ScanEvent", "PoweredOn"));
    assert!(contains_str("/Destinations/abc-def", "abc"));
    assert!(contains_str("abc", ""));
    assert!(!contains_str("abc", "abcd"));
    assert!(!contains_str("/Destinations/abc-def", "xyz"));
}

#[test]
fn the_last_segment_of_a_location() {
    assert_eq!(last_segment("/a/b/c"), "c");
    assert_eq!(last_segment("plain"), "plain");
    assert_eq!(last_segment("/trailing/"), "");
}

#[test]
fn searching_counts_characters_not_bytes() {
    assert!(contains_str("Pr\u{fc}fung/Scan", "\u{fc}fung"));
    assert!(!str_eq("Pr\u{fc}fung", "Prufung"));
    assert_eq!(last_segment("/Verzeichnis/Pr\u{fc}fung"), "Pr\u{fc}fung");
}
