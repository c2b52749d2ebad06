use std::collections::HashMap;

use hive_discovery::names::{label_of, trim_dots};
use hive_discovery::{
    create_discovery_state, DiscoveryEvent, DiscoveryImplementation, DiscoveryServiceStatus,
    DiscoveryState, HiveDiscoError, IpAddress, LocalServiceConfig, MdnsEvent, ResolvedService,
    SocketAddress, StartAction,
};

const TYPE: &str = "_hive-test._tcp.local.";

fn config_with(instance: &str, properties: Option<HashMap<String, String>>) -> LocalServiceConfig {
    LocalServiceConfig {
        service_type: TYPE.to_string(),
        port: 8080,
        instance_name: instance.to_string(),
        properties,
        service_ttl: 60,
        mdns_response_delay_ms: (20, 120),
        refresh_interval: 30,
    }
}

fn state() -> DiscoveryState {
    DiscoveryState::new(config_with("Local", None)).unwrap()
}

fn resolved(name: &str, port: u16) -> ResolvedService {
    ResolvedService {
        ty_domain: TYPE.to_string(),
        fullname: format!("{}.{}", name, TYPE),
        host: "peer.local.".to_string(),
        port,
        addresses: vec![IpAddress::V4(0xC0A8_0001), IpAddress::V4(0xC0A8_0001), IpAddress::V6(1)],
        properties: vec![
            ("device_id".to_string(), "a".to_string()),
            ("version".to_string(), "1.0.0".to_string()),
            ("device_id".to_string(), "b".to_string()),
        ],
    }
}

fn found_details(ev: Option<DiscoveryEvent>) -> hive_discovery::DiscoveryServiceDetails {
    match ev {
        Some(DiscoveryEvent::ServiceFound(d)) => d,
        other => panic!("expected ServiceFound, got {:?}", other),
    }
}

#[test]
fn trim_dots_removes_only_trailing_dots() {
    assert_eq!(trim_dots("Name..."), "Name");
    assert_eq!(trim_dots("a.b"), "a.b");
    assert_eq!(trim_dots("..."), "");
    assert_eq!(trim_dots(""), "");
    assert_eq!(trim_dots("x._t._tcp.local."), "x._t._tcp.local");
}

#[test]
fn new_rejects_empty_service_type() {
    let mut c = config_with("Local", None);
    c.service_type = String::new();
    match DiscoveryState::new(c) {
        Err(HiveDiscoError::ConfigError(m)) => assert_eq!(m, "Service type cannot be empty"),
        other => panic!("unexpected {:?}", other.err()),
    }
}

#[test]
fn new_rejects_empty_instance_name() {
    match DiscoveryState::new(config_with("", None)) {
        Err(HiveDiscoError::ConfigError(m)) => assert_eq!(m, "Instance name cannot be empty"),
        other => panic!("unexpected {:?}", other.err()),
    }
}

#[test]
fn new_state_is_stopped_and_empty() {
    let s = state();
    assert_eq!(s.status(), DiscoveryServiceStatus::Stopped);
    assert_eq!(s.service_count(), 0);
    assert!(s.own_instance_name().is_none());
    assert_eq!(s.config().port, 8080);
}

#[test]
fn multicast_is_not_available() {
    match create_discovery_state(DiscoveryImplementation::Multicast, config_with("Local", None)) {
        Err(HiveDiscoError::ConfigError(m)) => {
            assert_eq!(m, "Multicast implementation is not yet complete")
        }
        other => panic!("unexpected {:?}", other.err()),
    }
    assert!(create_discovery_state(DiscoveryImplementation::Mdns, config_with("Local", None)).is_ok());
}

#[test]
fn register_filters_own_names() {
    let mut props = HashMap::new();
    props.insert("device_id".to_string(), "my-device-123".to_string());
    let mut s = DiscoveryState::new(config_with("Local..", Some(props))).unwrap();
    assert!(s.register_service().is_ok());
    assert_eq!(s.own_instance_name(), Some("Local".to_string()));
    assert!(s.is_filtered(&"Local".to_string()));
    assert!(s.is_filtered(&format!("Local.{}", TYPE)));
    assert!(!s.is_filtered(&"Local..".to_string()));
}

#[test]
fn register_rejects_key_with_equals_sign() {
    let mut props = HashMap::new();
    props.insert("a=b".to_string(), "v".to_string());
    let mut s = DiscoveryState::new(config_with("Local", Some(props))).unwrap();
    assert!(matches!(s.register_service(), Err(HiveDiscoError::MdnsError(_))));
    // The name is registered and filtered even though the record failed.
    assert_eq!(s.own_instance_name(), Some("Local".to_string()));
    assert!(s.is_filtered(&"Local".to_string()));
}

#[test]
fn register_rejects_non_ascii_key() {
    let mut props = HashMap::new();
    props.insert("gerät".to_string(), "v".to_string());
    let mut s = DiscoveryState::new(config_with("Local", Some(props))).unwrap();
    assert!(matches!(s.register_service(), Err(HiveDiscoError::MdnsError(_))));
}

#[test]
fn register_property_length_limit() {
    let mut ok = HashMap::new();
    ok.insert("k".to_string(), "v".repeat(253));
    let mut s = DiscoveryState::new(config_with("Local", Some(ok))).unwrap();
    assert!(s.register_service().is_ok());

    let mut too_long = HashMap::new();
    too_long.insert("k".to_string(), "v".repeat(254));
    let mut s = DiscoveryState::new(config_with("Local", Some(too_long))).unwrap();
    assert!(matches!(s.register_service(), Err(HiveDiscoError::MdnsError(_))));
}

#[test]
fn filters_are_trimmed_and_own_name_protected() {
    let mut s = state();
    s.add_filter("Other.");
    assert!(s.is_filtered(&"Other".to_string()));
    s.remove_filter("Other..");
    assert!(!s.is_filtered(&"Other".to_string()));

    s.register_service().unwrap();
    s.remove_filter("Local.");
    assert!(s.is_filtered(&"Local".to_string()));
    // A full name ends with a dot and is never the target of a removal.
    s.remove_filter(&format!("Local.{}", TYPE));
    assert!(s.is_filtered(&format!("Local.{}", TYPE)));

    s.shutdown();
    s.remove_filter("Local");
    assert!(!s.is_filtered(&"Local".to_string()));
}

#[test]
fn start_stop_transitions() {
    let mut s = state();
    assert_eq!(s.start_discovery().unwrap(), StartAction::Launch);
    assert_eq!(s.status(), DiscoveryServiceStatus::Running);
    assert_eq!(s.start_discovery().unwrap(), StartAction::AlreadyRunning);
    assert!(s.stop_discovery());
    assert_eq!(s.status(), DiscoveryServiceStatus::Stopping);
    match s.start_discovery() {
        Err(HiveDiscoError::StateError(m)) => {
            assert_eq!(m, "Service is currently stopping, cannot start discovery.")
        }
        other => panic!("unexpected {:?}", other.err()),
    }
    assert!(!s.stop_discovery());
    s.discovery_loop_ended();
    assert_eq!(s.status(), DiscoveryServiceStatus::Stopped);
    assert!(!s.stop_discovery());
    s.discovery_loop_ended();
    assert_eq!(s.status(), DiscoveryServiceStatus::Stopped);
}

#[test]
fn loop_end_does_not_stop_running_discovery() {
    let mut s = state();
    s.start_discovery().unwrap();
    s.discovery_loop_ended();
    assert_eq!(s.status(), DiscoveryServiceStatus::Running);
}

#[test]
fn shutdown_stops_and_unregisters() {
    let mut s = state();
    s.register_service().unwrap();
    s.start_discovery().unwrap();
    s.shutdown();
    assert_eq!(s.status(), DiscoveryServiceStatus::Stopped);
    assert!(s.own_instance_name().is_none());
    assert!(s.is_filtered(&"Local".to_string()));
}

#[test]
fn start_is_announced_once() {
    let mut s = state();
    assert!(!s.should_announce_to_subscriber(1));
    assert!(!s.should_announce(1));
    s.start_discovery().unwrap();
    assert!(!s.should_announce(0));
    assert!(s.should_announce(2));
    s.mark_start_announced();
    assert!(!s.should_announce(2));
    assert!(!s.should_announce_to_subscriber(2));
    assert!(s.should_announce_to_subscriber(1));
    s.stop_discovery();
    s.discovery_loop_ended();
    s.start_discovery().unwrap();
    assert!(s.should_announce(1));
    assert!(s.should_announce_to_subscriber(3));
}

#[test]
fn resolved_service_is_recorded_and_reported() {
    let mut s = state();
    let d = found_details(s.handle_service_event(MdnsEvent::ServiceResolved(resolved("Peer", 9000)), 100));
    assert_eq!(d.service_type, TYPE);
    assert_eq!(d.instance_name, format!("Peer.{}", TYPE));
    assert_eq!(d.domain_name, ".local.");
    assert_eq!(d.host_name, Some("peer.local.".to_string()));
    assert_eq!(d.addresses, vec![IpAddress::V4(0xC0A8_0001), IpAddress::V6(1)]);
    assert_eq!(
        d.socket_addresses,
        vec![
            SocketAddress { ip: IpAddress::V4(0xC0A8_0001), port: 9000 },
            SocketAddress { ip: IpAddress::V6(1), port: 9000 }
        ]
    );
    assert_eq!(d.port, 9000);
    assert_eq!(
        d.properties,
        vec![
            ("device_id".to_string(), "b".to_string()),
            ("version".to_string(), "1.0.0".to_string())
        ]
    );
    assert_eq!(d.last_seen, Some(100));
    assert_eq!(s.service_count(), 1);
    let stored = s.service(&format!("Peer.{}", TYPE)).unwrap();
    assert!(stored.same_content(&d));
    assert_eq!(stored.last_seen, Some(100));
}

#[test]
fn unchanged_service_is_reported_once() {
    let mut s = state();
    assert!(s.handle_service_event(MdnsEvent::ServiceResolved(resolved("Peer", 9000)), 100).is_some());
    assert!(s.handle_service_event(MdnsEvent::ServiceResolved(resolved("Peer", 9000)), 150).is_none());
    let stored = s.service(&format!("Peer.{}", TYPE)).unwrap();
    assert_eq!(stored.last_seen, Some(150));
    // A changed port is news.
    let d = found_details(s.handle_service_event(MdnsEvent::ServiceResolved(resolved("Peer", 9001)), 160));
    assert_eq!(d.port, 9001);
    assert_eq!(s.service_count(), 1);
}

#[test]
fn reordered_addresses_are_not_a_change() {
    let mut s = state();
    s.handle_service_event(MdnsEvent::ServiceResolved(resolved("Peer", 9000)), 100);
    let mut r = resolved("Peer", 9000);
    r.addresses.reverse();
    r.properties = vec![
        ("version".to_string(), "1.0.0".to_string()),
        ("device_id".to_string(), "b".to_string()),
    ];
    assert!(s.handle_service_event(MdnsEvent::ServiceResolved(r), 110).is_none());
}

#[test]
fn other_types_and_filtered_services_are_ignored() {
    let mut s = state();
    let mut r = resolved("Peer", 9000);
    r.ty_domain = "_other._tcp.local.".to_string();
    assert!(s.handle_service_event(MdnsEvent::ServiceResolved(r), 100).is_none());
    assert_eq!(s.service_count(), 0);

    s.add_filter(&format!("Peer.{}", TYPE));
    assert!(s.handle_service_event(MdnsEvent::ServiceResolved(resolved("Peer", 9000)), 100).is_none());
    assert_eq!(s.service_count(), 0);
    s.remove_filter(&format!("Peer.{}", TYPE));
    assert!(s.handle_service_event(MdnsEvent::ServiceResolved(resolved("Peer", 9000)), 100).is_some());

    s.add_filter("Ignored");
    let mut r = resolved("Ignored", 9000);
    r.fullname = "Ignored".to_string();
    assert!(s.handle_service_event(MdnsEvent::ServiceResolved(r), 100).is_none());
    assert!(s.service(&"Ignored".to_string()).is_none());
}

#[test]
fn own_service_is_not_discovered() {
    let mut s = state();
    s.register_service().unwrap();
    assert!(s.handle_service_event(MdnsEvent::ServiceResolved(resolved("Local", 8080)), 100).is_none());
    assert_eq!(s.service_count(), 0);
}

#[test]
fn found_and_other_events_change_nothing() {
    let mut s = state();
    assert!(s
        .handle_service_event(MdnsEvent::ServiceFound(TYPE.to_string(), format!("Peer.{}", TYPE)), 1)
        .is_none());
    assert!(s.handle_service_event(MdnsEvent::Other, 1).is_none());
    assert_eq!(s.service_count(), 0);
}

#[test]
fn removed_service_is_lost() {
    let mut s = state();
    s.handle_service_event(MdnsEvent::ServiceResolved(resolved("Peer", 9000)), 100);
    let name = format!("Peer.{}", TYPE);
    match s.handle_service_event(MdnsEvent::ServiceRemoved(TYPE.to_string(), name.clone()), 101) {
        Some(DiscoveryEvent::ServiceLost(n)) => assert_eq!(n, name),
        other => panic!("unexpected {:?}", other),
    }
    assert!(s.service(&name).is_none());
    // Removal of an unknown service is still reported.
    assert!(matches!(
        s.handle_service_event(MdnsEvent::ServiceRemoved(TYPE.to_string(), "x".to_string()), 101),
        Some(DiscoveryEvent::ServiceLost(_))
    ));
    // Removal for another type is ignored.
    assert!(s
        .handle_service_event(MdnsEvent::ServiceRemoved("_o._tcp.local.".to_string(), "x".to_string()), 101)
        .is_none());
}

#[test]
fn refresh_reports_all_and_resets_change_detection() {
    let mut s = state();
    s.handle_service_event(MdnsEvent::ServiceResolved(resolved("A", 1)), 100);
    s.handle_service_event(MdnsEvent::ServiceResolved(resolved("B", 2)), 100);
    let all = s.refresh_services();
    assert_eq!(all.len(), 2);
    let mut names: Vec<String> = all.iter().map(|d| d.instance_name.clone()).collect();
    names.sort();
    assert_eq!(names, vec![format!("A.{}", TYPE), format!("B.{}", TYPE)]);
    assert!(s.handle_service_event(MdnsEvent::ServiceResolved(resolved("A", 1)), 120).is_some());
    assert!(s.handle_service_event(MdnsEvent::ServiceResolved(resolved("A", 1)), 121).is_none());
    assert_eq!(s.service_count(), 2);
}

#[test]
fn expired_services_are_dropped() {
    let mut s = state();
    s.handle_service_event(MdnsEvent::ServiceResolved(resolved("Old", 1)), 100);
    s.handle_service_event(MdnsEvent::ServiceResolved(resolved("New", 2)), 130);
    assert!(s.all_seen_by(160));
    assert!(s.remove_expired_services(160).is_empty());
    let lost = s.remove_expired_services(161);
    assert_eq!(lost, vec![format!("Old.{}", TYPE)]);
    assert_eq!(s.service_count(), 1);
    assert!(s.service(&format!("New.{}", TYPE)).is_some());
    assert!(!s.all_seen_by(129));
}

#[test]
fn duplicate_copies_details() {
    let mut s = state();
    let d = found_details(s.handle_service_event(MdnsEvent::ServiceResolved(resolved("Peer", 9000)), 100));
    let c = d.duplicate();
    assert!(c.same_content(&d));
    assert_eq!(c.last_seen, d.last_seen);
    assert_eq!(c.properties, d.properties);
}

#[test]
fn add_filter_twice_then_remove() {
    let mut s = state();
    s.add_filter("Twice");
    s.add_filter("Twice.");
    assert!(s.is_filtered(&"Twice".to_string()));
    s.remove_filter("Twice");
    assert!(!s.is_filtered(&"Twice".to_string()));
}

#[test]
fn config_clone_keeps_values() {
    let mut props = HashMap::new();
    props.insert("device_id".to_string(), "x".to_string());
    let c = config_with("Local", Some(props));
    let d = c.clone();
    assert_eq!(d.service_type, c.service_type);
    assert_eq!(d.instance_name, c.instance_name);
    assert_eq!(d.port, c.port);
    assert_eq!(d.properties, c.properties);
    assert_eq!(d.mdns_response_delay_ms, (20, 120));
    assert_eq!(d.refresh_interval, 30);
    assert_eq!(d.service_ttl, 60);
}

#[test]
fn add_filter_by_instance_label_hides_service() {
    let mut s = state();
    s.add_filter("Peer");
    assert!(s.hides(&format!("Peer.{}", TYPE), &TYPE.to_string()));
    assert!(s.handle_service_event(MdnsEvent::ServiceResolved(resolved("Peer", 9000)), 100).is_none());
    assert_eq!(s.service_count(), 0);
    assert!(s.handle_service_event(MdnsEvent::ServiceResolved(resolved("Other", 9000)), 100).is_some());
    assert!(s.hides(&"Peer".to_string(), &TYPE.to_string()));
    assert!(!s.hides(&format!("Other.{}", TYPE), &TYPE.to_string()));
}

#[test]
fn instance_label_strips_type_suffix() {
    assert_eq!(label_of("Peer._hive-test._tcp.local.", TYPE), Some("Peer".to_string()));
    assert_eq!(label_of("Peer._other._tcp.local.", TYPE), None);
    assert_eq!(label_of(TYPE, TYPE), None);
    assert_eq!(label_of(&format!(".{}", TYPE), TYPE), Some(String::new()));
}

#[test]
fn announcement_describes_local_service() {
    let mut props = HashMap::new();
    props.insert("device_id".to_string(), "my-device-123".to_string());
    let s = DiscoveryState::new(config_with("Local..", Some(props.clone()))).unwrap();
    let a = s.announcement();
    assert_eq!(a.ty_domain, TYPE);
    assert_eq!(a.instance_name, "Local");
    assert_eq!(a.host_name, "localhost.local.");
    assert_eq!(a.port, 8080);
    assert_eq!(a.properties, props);
    assert!(a.addr_auto);
    assert!(hive_discovery::build_service_info(a).is_ok());

    let s = state();
    assert!(s.announcement().properties.is_empty());
}

#[test]
fn registered_record_carries_announcement() {
    let mut props = HashMap::new();
    props.insert("device_id".to_string(), "my-device-123".to_string());
    props.insert("version".to_string(), "1.0.0".to_string());
    let mut s = DiscoveryState::new(config_with("Local..", Some(props))).unwrap();
    let info = s.register_service().unwrap().into_info();
    assert_eq!(info.get_type(), TYPE);
    assert_eq!(info.get_fullname(), format!("Local.{}", TYPE));
    assert_eq!(info.get_hostname(), "localhost.local.");
    assert_eq!(info.get_port(), 8080);
    assert_eq!(info.get_property_val_str("device_id"), Some("my-device-123"));
    assert_eq!(info.get_property_val_str("version"), Some("1.0.0"));
    assert_eq!(info.get_properties().len(), 2);
    assert!(info.is_addr_auto());
}

#[test]
fn record_without_addr_auto() {
    let s = state();
    let mut a = s.announcement();
    a.addr_auto = false;
    a.port = 7;
    let info = hive_discovery::build_service_info(a).unwrap().into_info();
    assert!(!info.is_addr_auto());
    assert_eq!(info.get_port(), 7);
    assert!(info.get_properties().is_empty());
}
