use dialumi::capabilities::{CommonCapabilities, ControlParams};
use dialumi::devices::{Device, DeviceAddress};
use dialumi::discovery::{broadcast_target, discovery_request, DiscoveryCycle, DiscoverySession};
use dialumi::messages;
use dialumi::models::DeviceResponse;
use dialumi::protocol::encrypt;
use dialumi::state::{self, AppError, AppState};

fn reply(model: &str, alias: &str) -> String {
    format!(
        "{{\"system\":{{\"get_sysinfo\":{{\"sw_ver\":\"1\",\"hw_ver\":\"1\",\"type\":\"T\",\"model\":\"{}\",\"mac\":\"M\",\"deviceId\":\"D-{}\",\"hwId\":\"H\",\"alias\":\"{}\",\"rssi\":-40,\"err_code\":0,\"relay_state\":1}}}}}}",
        model, alias, alias
    )
}

fn datagram(text: &str) -> Vec<u8> {
    encrypt(text)[4..].to_vec()
}

fn at(last: u8) -> DeviceAddress {
    DeviceAddress::new(192, 168, 1, last, 9999)
}

#[test]
fn broadcast_goes_to_subnet_port() {
    let t = broadcast_target();
    assert_eq!(t.to_text(), "192.168.1.255:9999");
}

#[test]
fn discovery_request_is_query_without_header() {
    assert_eq!(discovery_request(), datagram("{\"system\":{\"get_sysinfo\":null}}"));
}

#[test]
fn repeated_address_gives_one_entry_first_wins() {
    let mut cycle = DiscoveryCycle::new();
    assert!(cycle.on_datagram(at(5), &mut datagram(&reply("EP10(US)", "first"))));
    assert!(!cycle.on_datagram(at(5), &mut datagram(&reply("EP10(US)", "second"))));
    assert_eq!(cycle.len(), 1);
    let found = cycle.into_devices();
    assert_eq!(found[0].0, at(5));
    assert_eq!(found[0].1.sysinfo().alias, "first");
}

#[test]
fn undecodable_reply_is_skipped() {
    let mut cycle = DiscoveryCycle::new();
    assert!(!cycle.on_datagram(at(5), &mut datagram("garbage")));
    assert!(!cycle.contains(&at(5)));
    assert!(cycle.on_datagram(at(5), &mut datagram(&reply("EP10(US)", "late"))));
    assert!(cycle.on_datagram(at(6), &mut datagram(&reply("KL135(US)", "bulb"))));
    let found = cycle.into_devices();
    assert_eq!(found.len(), 2);
    assert_eq!(found[1].0, at(6));
}

#[test]
fn session_lists_each_address_once() {
    let mut session = DiscoverySession::new();
    let first = vec![
        (at(5), DeviceResponse::parse(&reply("EP10(US)", "plug")).unwrap()),
        (at(6), DeviceResponse::parse(&reply("XYZ999", "odd")).unwrap()),
        (at(7), DeviceResponse::parse(&reply("HS220(US)", "dimmer")).unwrap()),
    ];
    let devices = session.take_cycle(first);
    assert_eq!(devices.len(), 2);
    assert!(matches!(devices[0], Device::EP10(_)));
    assert_eq!(devices[0].address(), at(5));
    assert_eq!(devices[0].params(), ControlParams { brightness: 100, is_on: true });
    assert!(matches!(devices[1], Device::HS220(_)));
    assert!(session.has_seen(&at(6)));

    let again = vec![
        (at(5), DeviceResponse::parse(&reply("EP10(US)", "plug")).unwrap()),
        (at(8), DeviceResponse::parse(&reply("KL135(US)", "bulb")).unwrap()),
    ];
    let devices = session.take_cycle(again);
    assert_eq!(devices.len(), 1);
    assert_eq!(devices[0].address(), at(8));
}

#[test]
fn directory_finds_recorded_model() {
    let mut dir = AppState::new();
    dir.set_model(at(5), "EP10(US)".to_string());
    assert_eq!(dir.get_model(at(5)).unwrap(), "EP10(US)");
    match dir.get_model(at(9)) {
        Err(AppError::NotFound(a)) => assert_eq!(a, "192.168.1.9:9999"),
        other => panic!("unexpected {:?}", other),
    }
    let empty = AppState::default();
    assert!(empty.models.is_empty());
}

#[test]
fn shown_records_take_derived_state() {
    let resp = DeviceResponse::parse(&reply("EP10(US)", "plug")).unwrap();
    let d = state::Device::from((at(5), resp));
    assert_eq!(d.addr, at(5));
    assert_eq!(d.brightness, 100);
    assert!(d.is_on);
    assert_eq!(d.name, "plug");
    assert_eq!(d.id, "D-plug");
    assert_eq!(d.model, "EP10(US)");
    assert_eq!(d.hw_type, "T");

    let resp = DeviceResponse::parse(&reply("EP10(US)", "plug")).unwrap();
    let m = messages::Device::from((at(5), resp));
    assert_eq!(m.brightness, None);
    assert!(m.is_on);
    assert_eq!(m.name, "plug");
}
