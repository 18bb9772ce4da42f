use dialumi::capabilities::{Link, Transport};
use dialumi::commands::{discover, set_brightness, toggle};
use dialumi::devices::DeviceAddress;
use dialumi::error::{SectionError, TpError};
use dialumi::models::DeviceResponse;
use dialumi::netif::{get_local_ip_addr, IfAddr, NetInterface};
use dialumi::state::{AppError, AppState};

struct Scripted {
    replies: Vec<Result<String, TpError>>,
    sent: Vec<String>,
}

impl Transport for Scripted {
    fn send(&mut self, _addr: &DeviceAddress, msg: &str) -> Result<String, TpError> {
        self.sent.push(msg.to_string());
        self.replies.remove(0)
    }
}

fn link(replies: Vec<Result<String, TpError>>) -> Link<Scripted> {
    Link::new(Scripted { replies, sent: Vec::new() })
}

fn sent(link: &Link<Scripted>) -> &Vec<String> {
    &link.transport().sent
}

fn reply(model: &str, relay: u8) -> String {
    format!(
        "{{\"system\":{{\"get_sysinfo\":{{\"sw_ver\":\"1\",\"hw_ver\":\"1\",\"type\":\"T\",\"model\":\"{}\",\"mac\":\"M\",\"deviceId\":\"D\",\"hwId\":\"H\",\"alias\":\"A\",\"rssi\":-40,\"err_code\":0,\"relay_state\":{}}}}}}}",
        model, relay
    )
}

fn at(last: u8) -> DeviceAddress {
    DeviceAddress::new(10, 0, 0, last, 9999)
}

#[test]
fn discover_records_models_and_shows_devices() {
    let mut state = AppState::new();
    let found = vec![
        (at(1), DeviceResponse::parse(&reply("EP10(US)", 1)).unwrap()),
        (at(2), DeviceResponse::parse(&reply("HS220(US)", 0)).unwrap()),
    ];
    let shown = discover(&mut state, found);
    assert_eq!(shown.len(), 2);
    assert!(shown[0].is_on);
    assert!(!shown[1].is_on);
    assert_eq!(state.get_model(at(2)).unwrap(), "HS220(US)");
}

#[test]
fn commands_for_unknown_address_are_not_found() {
    let state = AppState::new();
    let mut l = link(vec![]);
    assert!(matches!(toggle(&state, &mut l, at(3)), Err(AppError::NotFound(a)) if a == "10.0.0.3:9999"));
    assert!(matches!(set_brightness(&state, &mut l, at(3), 10), Err(AppError::NotFound(_))));
    assert!(sent(&l).is_empty());
}

#[test]
fn set_brightness_on_plug_is_unsupported() {
    let mut state = AppState::new();
    state.set_model(at(1), "EP10(US)".to_string());
    let mut l = link(vec![]);
    match set_brightness(&state, &mut l, at(1), 50) {
        Err(AppError::Tp(TpError::Unsupported(what))) => assert_eq!(what, "dimmable"),
        other => panic!("unexpected {:?}", other),
    }
    assert!(sent(&l).is_empty());
}

#[test]
fn commands_for_unknown_model_fail() {
    let mut state = AppState::new();
    state.set_model(at(1), "XYZ999".to_string());
    let mut l = link(vec![]);
    assert!(matches!(
        toggle(&state, &mut l, at(1)),
        Err(AppError::Tp(TpError::UnknownModel(m))) if m == "XYZ999"
    ));
}

#[test]
fn toggle_command_switches_on() {
    let mut state = AppState::new();
    state.set_model(at(2), "HS220(US)".to_string());
    let mut l = link(vec![
        Ok(reply("HS220(US)", 0)),
        Ok("{\"system\":{\"set_relay_state\":{\"err_code\":0}}}".to_string()),
    ]);
    assert_eq!(toggle(&state, &mut l, at(2)).unwrap(), true);
    assert_eq!(sent(&l)[1], "{\"system\":{\"set_relay_state\":{\"state\":1}}}");
}

#[test]
fn set_brightness_command_sends_clamped_value() {
    let mut state = AppState::new();
    state.set_model(at(2), "KL135(US)".to_string());
    let mut l = link(vec![Ok(
        "{\"smartlife.iot.dimmer\":{\"set_brightness\":{\"err_code\":0}}}".to_string(),
    )]);
    set_brightness(&state, &mut l, at(2), 0).unwrap();
    assert_eq!(
        sent(&l)[0],
        "{\"smartlife.iot.dimmer\":{\"set_brightness\":{\"brightness\":1}}}"
    );
}

#[test]
fn error_messages() {
    assert_eq!(TpError::IO("x".to_string()).message(), "Error connecting to the device");
    assert_eq!(TpError::IO("x".to_string()).description(), "Error connecting to the device");
    assert_eq!(
        TpError::UnknownModel("XYZ999".to_string()).message(),
        "Unknown device model: \"XYZ999\""
    );
    assert_eq!(TpError::Unsupported("dimmable".to_string()).message(), "Unsupported feature: \"dimmable\"");
    assert_eq!(TpError::Unsupported("dimmable".to_string()).description(), "Unsupported feature");
    let e = TpError::from(SectionError { err_code: Some(-3), err_msg: Some("busy".to_string()) });
    assert_eq!(e.message(), "Response data error: (Some(-3)) Some(\"busy\")");
    let e = TpError::from(SectionError { err_code: None, err_msg: None });
    assert_eq!(e.message(), "Response data error: (None) None");
    let se = SectionError { err_code: Some(7), err_msg: Some("a\"b".to_string()) };
    assert_eq!(se.message(), "Some(7): Some(\"a\\\"b\")");
    assert_eq!(TpError::from("plain".to_string()).message(), "plain");
    assert!(matches!(AppError::from(TpError::Unknown(String::new())), AppError::Tp(_)));
}

#[test]
fn local_ip_is_first_broadcast_ipv4_of_named_interface() {
    let ifs = vec![
        NetInterface {
            name: "lo".to_string(),
            addrs: vec![IfAddr { ipv4: Some(0x7F000001), has_broadcast: false }],
        },
        NetInterface {
            name: "eth0".to_string(),
            addrs: vec![
                IfAddr { ipv4: None, has_broadcast: true },
                IfAddr { ipv4: Some(0x0A000001), has_broadcast: false },
                IfAddr { ipv4: Some(0xC0A80105), has_broadcast: true },
            ],
        },
        NetInterface {
            name: "eth0".to_string(),
            addrs: vec![IfAddr { ipv4: Some(0x0B000001), has_broadcast: true }],
        },
    ];
    assert_eq!(get_local_ip_addr(&ifs, "eth0"), Some(0xC0A80105));
    assert_eq!(get_local_ip_addr(&ifs, "lo"), None);
    assert_eq!(get_local_ip_addr(&ifs, "wlan0"), None);
}
