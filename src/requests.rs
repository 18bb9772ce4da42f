//! The commands that devices understand, and their JSON text.
use crate::json::{json_quoted, quoted};
use vstd::prelude::*;
use vstd::string::StringExecFns;

verus! {

/// A command for a device.
#[derive(Debug, Clone)]
pub enum Request {
    GetSysinfo,
    SetAlias(String),
    /// Brightness in percent; sent clamped to 1..=100.
    SetBrightness(u8),
    /// Switch the relay on (`true`) or off.
    SetRelayState(bool),
    /// Reboot at once.
    Reboot,
    /// Reboot after this many seconds.
    RebootWithDelay(u64),
    /// Fade to a brightness (clamped to 1..=100) with the gentle on/off
    /// easing over one second.
    SetTransition(u8),
    GetDimmerParameters,
    GetDefaultBehavior,
}

/// The brightness that a device is sent for a requested one: the firmware
/// refuses zero, so 0 becomes 1, and anything above 100 becomes 100.
pub open spec fn clamp_brightness(b: u8) -> u8 {
    if b < 1 {
        1
    } else if b > 100 {
        100
    } else {
        b
    }
}

pub fn clamp_brightness_value(b: u8) -> (r: u8)
    ensures
        r == clamp_brightness(b),
{
    if b < 1 {
        1
    } else if b > 100 {
        100
    } else {
        b
    }
}

pub open spec fn digit_char(d: nat) -> char {
    if d == 0 {
        '0'
    } else if d == 1 {
        '1'
    } else if d == 2 {
        '2'
    } else if d == 3 {
        '3'
    } else if d == 4 {
        '4'
    } else if d == 5 {
        '5'
    } else if d == 6 {
        '6'
    } else if d == 7 {
        '7'
    } else if d == 8 {
        '8'
    } else {
        '9'
    }
}

/// The decimal digits of `n`, without leading zeros.
pub open spec fn decimal_text(n: nat) -> Seq<char>
    decreases n,
{
    if n < 10 {
        seq![digit_char(n)]
    } else {
        decimal_text(n / 10).push(digit_char(n % 10))
    }
}

fn digit_str(d: u64) -> (r: &'static str)
    requires
        d < 10,
    ensures
        r@ == seq![digit_char(d as nat)],
{
    proof {
        reveal_strlit("0");
        reveal_strlit("1");
        reveal_strlit("2");
        reveal_strlit("3");
        reveal_strlit("4");
        reveal_strlit("5");
        reveal_strlit("6");
        reveal_strlit("7");
        reveal_strlit("8");
        reveal_strlit("9");
    }
    if d == 0 {
        "0"
    } else if d == 1 {
        "1"
    } else if d == 2 {
        "2"
    } else if d == 3 {
        "3"
    } else if d == 4 {
        "4"
    } else if d == 5 {
        "5"
    } else if d == 6 {
        "6"
    } else if d == 7 {
        "7"
    } else if d == 8 {
        "8"
    } else {
        "9"
    }
}

/// Writes `n` in decimal.
pub fn decimal(n: u64) -> (r: String)
    ensures
        r@ == decimal_text(n as nat),
    decreases n,
{
    if n < 10 {
        String::from_str(digit_str(n))
    } else {
        let mut s = decimal(n / 10);
        s.append(digit_str(n % 10));
        s
    }
}

/// The text of the renaming command.
pub open spec fn alias_request_text(alias: Seq<char>) -> Seq<char> {
    "{\"system\":{\"set_dev_alias\":{\"alias\":"@ + json_quoted(alias) + "}}}"@
}

/// The JSON text of a request: compact, keys in sorted order.
pub open spec fn request_text(r: Request) -> Seq<char> {
    match r {
        Request::GetSysinfo => "{\"system\":{\"get_sysinfo\":null}}"@,
        Request::SetAlias(alias) => alias_request_text(alias@),
        Request::SetBrightness(b) => "{\"smartlife.iot.dimmer\":{\"set_brightness\":{\"brightness\":"@
            + decimal_text(clamp_brightness(b) as nat) + "}}}"@,
        Request::SetRelayState(on) => if on {
            "{\"system\":{\"set_relay_state\":{\"state\":1}}}"@
        } else {
            "{\"system\":{\"set_relay_state\":{\"state\":0}}}"@
        },
        Request::Reboot => "{\"system\":{\"reboot\":{\"delay\":0}}}"@,
        Request::RebootWithDelay(secs) => "{\"system\":{\"reboot\":{\"delay\":"@ + decimal_text(
            secs as nat,
        ) + "}}}"@,
        Request::SetTransition(b) =>
            "{\"smartlife.iot.dimmer\":{\"set_dimmer_transition\":{\"brightness\":"@
            + decimal_text(clamp_brightness(b) as nat)
            + ",\"duration\":1,\"mode\":\"gentle_on_off\"}}}"@,
        Request::GetDimmerParameters => "{\"smartlife.iot.dimmer\":{\"get_dimmer_parameters\":{}}}"@,
        Request::GetDefaultBehavior => "{\"smartlife.iot.dimmer\":{\"get_default_behavior\":{}}}"@,
    }
}

/// The section of the reply that holds the outcome of a request.
pub open spec fn request_section(r: Request) -> Seq<char> {
    match r {
        Request::GetSysinfo => "/system/get_sysinfo"@,
        Request::SetAlias(_) => "/system/set_dev_alias"@,
        Request::SetBrightness(_) => "/smartlife.iot.dimmer/set_brightness"@,
        Request::SetRelayState(_) => "/system/set_relay_state"@,
        Request::Reboot => "/system/reboot"@,
        Request::RebootWithDelay(_) => "/system/reboot"@,
        Request::SetTransition(_) => "/smartlife.iot.dimmer/set_dimmer_transition"@,
        Request::GetDimmerParameters => "/smartlife.iot.dimmer/get_dimmer_parameters"@,
        Request::GetDefaultBehavior => "/smartlife.iot.dimmer/get_default_behavior"@,
    }
}

fn brightness_command(head: &str, b: u8, tail: &str) -> (r: String)
    ensures
        r@ == head@ + decimal_text(clamp_brightness(b) as nat) + tail@,
{
    let mut s = String::from_str(head);
    let digits = decimal(clamp_brightness_value(b) as u64);
    s.append(digits.as_str());
    s.append(tail);
    s
}

impl Request {
    /// The JSON text of the request.
    pub fn to_string(&self) -> (r: String)
        ensures
            r@ == request_text(*self),
    {
        match self {
            Request::GetSysinfo => String::from_str("{\"system\":{\"get_sysinfo\":null}}"),
            Request::SetAlias(alias) => {
                let mut s = String::from_str("{\"system\":{\"set_dev_alias\":{\"alias\":");
                let q = quoted(alias.as_str());
                s.append(q.as_str());
                s.append("}}}");
                s
            },
            Request::SetBrightness(b) => brightness_command(
                "{\"smartlife.iot.dimmer\":{\"set_brightness\":{\"brightness\":",
                *b,
                "}}}",
            ),
            Request::SetRelayState(on) => {
                if *on {
                    String::from_str("{\"system\":{\"set_relay_state\":{\"state\":1}}}")
                } else {
                    String::from_str("{\"system\":{\"set_relay_state\":{\"state\":0}}}")
                }
            },
            Request::Reboot => String::from_str("{\"system\":{\"reboot\":{\"delay\":0}}}"),
            Request::RebootWithDelay(secs) => {
                let mut s = String::from_str("{\"system\":{\"reboot\":{\"delay\":");
                let d = decimal(*secs);
                s.append(d.as_str());
                s.append("}}}");
                s
            },
            Request::SetTransition(b) => brightness_command(
                "{\"smartlife.iot.dimmer\":{\"set_dimmer_transition\":{\"brightness\":",
                *b,
                ",\"duration\":1,\"mode\":\"gentle_on_off\"}}}",
            ),
            Request::GetDimmerParameters => String::from_str(
                "{\"smartlife.iot.dimmer\":{\"get_dimmer_parameters\":{}}}",
            ),
            Request::GetDefaultBehavior => String::from_str(
                "{\"smartlife.iot.dimmer\":{\"get_default_behavior\":{}}}",
            ),
        }
    }

    /// The section of the reply that holds the request's error code.
    pub fn section(&self) -> (r: &'static str)
        ensures
            r@ == request_section(*self),
    {
        match self {
            Request::GetSysinfo => "/system/get_sysinfo",
            Request::SetAlias(_) => "/system/set_dev_alias",
            Request::SetBrightness(_) => "/smartlife.iot.dimmer/set_brightness",
            Request::SetRelayState(_) => "/system/set_relay_state",
            Request::Reboot => "/system/reboot",
            Request::RebootWithDelay(_) => "/system/reboot",
            Request::SetTransition(_) => "/smartlife.iot.dimmer/set_dimmer_transition",
            Request::GetDimmerParameters => "/smartlife.iot.dimmer/get_dimmer_parameters",
            Request::GetDefaultBehavior => "/smartlife.iot.dimmer/get_default_behavior",
        }
    }
}

/// A requested brightness of 0 is sent and cached as 1, and one above 100 as
/// 100: the brightness and transition commands, and the value that a
/// confirmed command caches, depend on the request only through its clamp.
pub proof fn lemma_brightness_clamped(b: u8)
    ensures
        b <= 1 ==> clamp_brightness(b) == clamp_brightness(1),
        b >= 100 ==> clamp_brightness(b) == clamp_brightness(100),
        b <= 1 ==> request_text(Request::SetBrightness(b)) == request_text(Request::SetBrightness(1)),
        b >= 100 ==> request_text(Request::SetBrightness(b)) == request_text(
            Request::SetBrightness(100),
        ),
        b <= 1 ==> request_text(Request::SetTransition(b)) == request_text(Request::SetTransition(1)),
        b >= 100 ==> request_text(Request::SetTransition(b)) == request_text(
            Request::SetTransition(100),
        ),
        1 <= clamp_brightness(b) <= 100,
{
}

} // verus!
