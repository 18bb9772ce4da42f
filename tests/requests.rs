use dialumi::requests::{clamp_brightness_value, decimal, Request};

#[test]
fn decimal_writes_digits() {
    assert_eq!(decimal(0), "0");
    assert_eq!(decimal(7), "7");
    assert_eq!(decimal(1234), "1234");
    assert_eq!(decimal(u64::MAX), "18446744073709551615");
}

#[test]
fn fixed_requests_have_their_text() {
    assert_eq!(Request::GetSysinfo.to_string(), "{\"system\":{\"get_sysinfo\":null}}");
    assert_eq!(
        Request::SetRelayState(true).to_string(),
        "{\"system\":{\"set_relay_state\":{\"state\":1}}}"
    );
    assert_eq!(
        Request::SetRelayState(false).to_string(),
        "{\"system\":{\"set_relay_state\":{\"state\":0}}}"
    );
    assert_eq!(Request::Reboot.to_string(), "{\"system\":{\"reboot\":{\"delay\":0}}}");
    assert_eq!(
        Request::GetDimmerParameters.to_string(),
        "{\"smartlife.iot.dimmer\":{\"get_dimmer_parameters\":{}}}"
    );
    assert_eq!(
        Request::GetDefaultBehavior.to_string(),
        "{\"smartlife.iot.dimmer\":{\"get_default_behavior\":{}}}"
    );
}

#[test]
fn reboot_with_delay_writes_seconds() {
    assert_eq!(
        Request::RebootWithDelay(15).to_string(),
        "{\"system\":{\"reboot\":{\"delay\":15}}}"
    );
}

#[test]
fn set_alias_quotes_and_escapes() {
    assert_eq!(
        Request::SetAlias("Lamp".to_string()).to_string(),
        "{\"system\":{\"set_dev_alias\":{\"alias\":\"Lamp\"}}}"
    );
    assert_eq!(
        Request::SetAlias("a\"b\\c".to_string()).to_string(),
        "{\"system\":{\"set_dev_alias\":{\"alias\":\"a\\\"b\\\\c\"}}}"
    );
}

#[test]
fn brightness_zero_is_sent_as_one() {
    assert_eq!(clamp_brightness_value(0), 1);
    assert_eq!(Request::SetBrightness(0).to_string(), Request::SetBrightness(1).to_string());
    assert_eq!(
        Request::SetBrightness(0).to_string(),
        "{\"smartlife.iot.dimmer\":{\"set_brightness\":{\"brightness\":1}}}"
    );
}

#[test]
fn brightness_above_hundred_is_sent_as_hundred() {
    assert_eq!(clamp_brightness_value(150), 100);
    assert_eq!(clamp_brightness_value(255), 100);
    assert_eq!(Request::SetBrightness(150).to_string(), Request::SetBrightness(100).to_string());
    assert_eq!(
        Request::SetBrightness(150).to_string(),
        "{\"smartlife.iot.dimmer\":{\"set_brightness\":{\"brightness\":100}}}"
    );
}

#[test]
fn brightness_in_range_is_kept() {
    assert_eq!(clamp_brightness_value(42), 42);
    assert_eq!(
        Request::SetBrightness(42).to_string(),
        "{\"smartlife.iot.dimmer\":{\"set_brightness\":{\"brightness\":42}}}"
    );
}

#[test]
fn transition_is_gentle_and_clamped() {
    assert_eq!(
        Request::SetTransition(0).to_string(),
        "{\"smartlife.iot.dimmer\":{\"set_dimmer_transition\":{\"brightness\":1,\"duration\":1,\"mode\":\"gentle_on_off\"}}}"
    );
    assert_eq!(Request::SetTransition(200).to_string(), Request::SetTransition(100).to_string());
}

#[test]
fn sections_name_the_command() {
    assert_eq!(Request::SetRelayState(true).section(), "/system/set_relay_state");
    assert_eq!(Request::SetBrightness(5).section(), "/smartlife.iot.dimmer/set_brightness");
    assert_eq!(Request::SetAlias(String::new()).section(), "/system/set_dev_alias");
}
