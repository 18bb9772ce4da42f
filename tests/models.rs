use dialumi::error::TpError;
use dialumi::models::{sysinfo_from_reply, DeviceResponse, LightState};
use dialumi::protocol::validate_response_code;

fn plug_reply(relay: &str) -> String {
    format!(
        "{{\"system\":{{\"get_sysinfo\":{{\"sw_ver\":\"1.0.2\",\"hw_ver\":\"1.0\",\"type\":\"IOT.SMARTPLUGSWITCH\",\"model\":\"EP10(US)\",\"mac\":\"AA:BB:CC:DD:EE:FF\",\"deviceId\":\"DEV1\",\"hwId\":\"HW1\",\"alias\":\"Desk\",\"rssi\":-60,\"err_code\":0,\"on_time\":120,\"updating\":0{}}}}}}}",
        relay
    )
}

fn bulb_reply(light: &str, relay: &str) -> String {
    format!(
        "{{\"system\":{{\"get_sysinfo\":{{\"sw_ver\":\"1.0.15\",\"hw_ver\":\"1.0\",\"model\":\"KL135(US)\",\"deviceId\":\"DEV2\",\"hwId\":\"HW2\",\"rssi\":-54,\"alias\":\"Dining\",\"mic_type\":\"IOT.SMARTBULB\",\"mic_mac\":\"74FECEB8449B\",\"err_code\":0,\"light_state\":{}{}}}}}}}",
        light, relay
    )
}

#[test]
fn parse_reads_plug_fields() {
    let resp = DeviceResponse::parse(&plug_reply(",\"relay_state\":1")).unwrap();
    let s = resp.sysinfo();
    assert_eq!(s.alias, "Desk");
    assert_eq!(s.model, "EP10(US)");
    assert_eq!(s.device_id, "DEV1");
    assert_eq!(s.hw_id, "HW1");
    assert_eq!(s.hw_type, "IOT.SMARTPLUGSWITCH");
    assert_eq!(s.mac, "AA:BB:CC:DD:EE:FF");
    assert_eq!(s.sw_ver, "1.0.2");
    assert_eq!(s.hw_ver, "1.0");
    assert_eq!(s.rssi, -60);
    assert_eq!(s.err_code, 0);
    assert_eq!(s.on_time, Some(120));
    assert_eq!(s.updating, Some(0));
    assert_eq!(s.relay_state, Some(1));
    assert_eq!(s.brightness, None);
    assert!(s.light_state.is_none());
    assert_eq!(s.latitude_i, None);
}

#[test]
fn relay_on_without_light_state_is_on() {
    let resp = DeviceResponse::parse(&plug_reply(",\"relay_state\":1")).unwrap();
    assert!(resp.sysinfo().is_on());
    assert_eq!(resp.sysinfo().brightness(), 100);
}

#[test]
fn relay_off_is_off() {
    let resp = DeviceResponse::parse(&plug_reply(",\"relay_state\":0")).unwrap();
    assert!(!resp.sysinfo().is_on());
    assert_eq!(resp.sysinfo().brightness(), 0);
}

#[test]
fn no_relay_and_no_light_state_is_off() {
    let resp = DeviceResponse::parse(&plug_reply("")).unwrap();
    assert_eq!(resp.sysinfo().relay_state, None);
    assert!(!resp.sysinfo().is_on());
    assert_eq!(resp.sysinfo().brightness(), 0);
}

#[test]
fn light_state_on_wins_over_relay() {
    let light = "{\"on_off\":1,\"mode\":\"normal\",\"hue\":329,\"saturation\":99,\"color_temp\":0,\"brightness\":79}";
    let resp = DeviceResponse::parse(&bulb_reply(light, ",\"relay_state\":0")).unwrap();
    let s = resp.sysinfo();
    assert_eq!(s.hw_type, "IOT.SMARTBULB");
    assert_eq!(s.mac, "74FECEB8449B");
    match &s.light_state {
        Some(LightState::On { dft_on_state, on_off }) => {
            assert_eq!(*on_off, 1);
            assert_eq!(dft_on_state.hue, 329);
            assert_eq!(dft_on_state.saturation, 99);
            assert_eq!(dft_on_state.brightness, 79);
            assert_eq!(dft_on_state.color_temp, 0);
            assert_eq!(dft_on_state.mode, "normal");
        }
        other => panic!("unexpected light state {:?}", other),
    }
    assert!(s.is_on());
}

#[test]
fn light_state_off_wins_over_relay() {
    let light = "{\"on_off\":0,\"dft_on_state\":{\"mode\":\"normal\",\"hue\":0,\"saturation\":0,\"color_temp\":2700,\"brightness\":50}}";
    let resp = DeviceResponse::parse(&bulb_reply(light, ",\"relay_state\":1")).unwrap();
    let s = resp.sysinfo();
    match &s.light_state {
        Some(LightState::Off { dft_on_state, on_off }) => {
            assert_eq!(*on_off, 0);
            assert_eq!(dft_on_state.color_temp, 2700);
            assert_eq!(dft_on_state.brightness, 50);
        }
        other => panic!("unexpected light state {:?}", other),
    }
    assert!(!s.is_on());
    assert_eq!(s.brightness(), 0);
}

#[test]
fn reported_brightness_is_used() {
    let reply = plug_reply(",\"relay_state\":0,\"brightness\":35");
    let resp = DeviceResponse::parse(&reply).unwrap();
    assert_eq!(resp.sysinfo().brightness, Some(35));
    assert_eq!(resp.sysinfo().brightness(), 35);
}

#[test]
fn optional_field_out_of_range_is_a_decode_error() {
    let reply = plug_reply(",\"relay_state\":300");
    assert!(matches!(DeviceResponse::parse(&reply), Err(TpError::Serde(_))));
    let reply = plug_reply(",\"relay_state\":1,\"brightness\":-1");
    assert!(matches!(DeviceResponse::parse(&reply), Err(TpError::Serde(_))));
    let reply = plug_reply(",\"relay_state\":\"on\"");
    assert!(matches!(DeviceResponse::parse(&reply), Err(TpError::Serde(_))));
}

#[test]
fn null_optional_field_is_absent() {
    let reply = plug_reply(",\"relay_state\":null,\"brightness\":null,\"light_state\":null");
    let resp = DeviceResponse::parse(&reply).unwrap();
    assert_eq!(resp.sysinfo().relay_state, None);
    assert_eq!(resp.sysinfo().brightness, None);
    assert!(resp.sysinfo().light_state.is_none());
}

#[test]
fn malformed_light_state_is_a_decode_error() {
    let reply = bulb_reply("{\"on_off\":1}", "");
    assert!(matches!(DeviceResponse::parse(&reply), Err(TpError::Serde(_))));
    let reply = bulb_reply("{\"mode\":\"normal\",\"hue\":1,\"saturation\":1,\"color_temp\":0,\"brightness\":5}", "");
    assert!(matches!(DeviceResponse::parse(&reply), Err(TpError::Serde(_))));
}

#[test]
fn missing_required_field_is_a_decode_error() {
    let reply = plug_reply("").replace("\"alias\":\"Desk\",", "");
    assert!(matches!(DeviceResponse::parse(&reply), Err(TpError::Serde(_))));
    assert!(matches!(DeviceResponse::parse("not json"), Err(TpError::Serde(_))));
}

#[test]
fn sysinfo_from_reply_passes_errors_on() {
    let r = sysinfo_from_reply(Err(TpError::IO("refused".to_string())));
    assert!(matches!(r, Err(TpError::IO(m)) if m == "refused"));
    let r = sysinfo_from_reply(Ok(plug_reply(",\"relay_state\":1")));
    assert_eq!(r.unwrap().alias, "Desk");
}

#[test]
fn validate_accepts_zero_code() {
    let doc = "{\"system\":{\"set_relay_state\":{\"err_code\":0}}}";
    assert!(validate_response_code(doc, "/system/set_relay_state").is_ok());
}

#[test]
fn validate_reports_nonzero_code_with_message() {
    let doc = "{\"system\":{\"set_relay_state\":{\"err_code\":-3,\"err_msg\":\"invalid argument\"}}}";
    match validate_response_code(doc, "/system/set_relay_state") {
        Err(TpError::TPLink(e)) => {
            assert_eq!(e.err_code, Some(-3));
            assert_eq!(e.err_msg.as_deref(), Some("invalid argument"));
        }
        other => panic!("unexpected {:?}", other),
    }
}

#[test]
fn validate_reports_missing_code() {
    let doc = "{\"system\":{\"other\":{\"err_code\":0}}}";
    match validate_response_code(doc, "/system/set_relay_state") {
        Err(TpError::TPLink(e)) => {
            assert_eq!(e.err_code, None);
            assert_eq!(e.err_msg, None);
        }
        other => panic!("unexpected {:?}", other),
    }
}
