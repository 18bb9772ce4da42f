//! The system-information record that devices report, and how it is read
//! out of a reply's JSON text.
use crate::error::TpError;
use crate::json::{int_at, json_int_at, json_present_at, json_text_at, present_at, text_at};
use crate::protocol::reply_view;
use vstd::prelude::*;
use vstd::string::StringExecFns;

verus! {

/// A device's reply to the system-information query.
#[derive(Debug)]
pub struct DeviceResponse {
    pub system: System,
}

/// The `system` section of a reply.
#[derive(Debug)]
pub struct System {
    pub sysinfo: SysInfo,
}

/// What a device reports about itself.
#[derive(Debug)]
pub struct SysInfo {
    pub alias: String,
    /// Present on dimmable devices only.
    pub brightness: Option<u8>,
    pub device_id: String,
    pub err_code: i16,
    pub hw_id: String,
    pub hw_type: String,
    pub hw_ver: String,
    pub latitude_i: Option<i32>,
    /// Present on bulbs; then it, and not the relay, tells whether the
    /// device is on.
    pub light_state: Option<LightState>,
    pub longitude_i: Option<i32>,
    pub mac: String,
    pub model: String,
    pub on_time: Option<i64>,
    pub relay_state: Option<u8>,
    pub rssi: i32,
    pub sw_ver: String,
    pub updating: Option<u8>,
}

/// The light block of a bulb. A bulb that is on reports its settings beside
/// the on/off flag; one that is off nests them under `dft_on_state`.
#[derive(Debug)]
pub enum LightState {
    On { dft_on_state: DftOnState, on_off: u8 },
    Off { dft_on_state: DftOnState, on_off: u8 },
}

/// The colour settings of a bulb. Hue runs to 360 and colour temperature
/// into the thousands of kelvin, so both take 16 bits.
#[derive(Debug)]
pub struct DftOnState {
    pub brightness: u8,
    pub color_temp: u16,
    pub hue: u16,
    pub mode: String,
    pub saturation: u8,
}

impl LightState {
    pub open spec fn on_off_flag(&self) -> u8 {
        match self {
            LightState::On { on_off, .. } => *on_off,
            LightState::Off { on_off, .. } => *on_off,
        }
    }
}

/// Whether a device with this record is on: the light block decides where
/// there is one, then the relay; with neither it is off.
pub open spec fn on_state(s: &SysInfo) -> bool {
    match s.light_state {
        Some(ls) => ls.on_off_flag() > 0,
        None => match s.relay_state {
            Some(r) => r > 0,
            None => false,
        },
    }
}

/// The brightness to show for a device: its own where it reports one, else
/// 100 when on and 0 when off.
pub open spec fn effective_brightness(s: &SysInfo) -> u8 {
    match s.brightness {
        Some(b) => b,
        None => if on_state(s) {
            100
        } else {
            0
        },
    }
}

impl SysInfo {
    /// If the device isn't dimmable, returns 0 or 100 based solely on whether
    /// it is on.
    pub fn brightness(&self) -> (r: u8)
        ensures
            r == effective_brightness(self),
    {
        match self.brightness {
            Some(b) => b,
            None => if self.is_on() {
                100
            } else {
                0
            },
        }
    }

    pub fn is_on(&self) -> (r: bool)
        ensures
            r == on_state(self),
    {
        match &self.light_state {
            Some(LightState::On { on_off, .. }) => *on_off > 0,
            Some(LightState::Off { on_off, .. }) => *on_off > 0,
            None => match self.relay_state {
                Some(relay_state) => relay_state > 0,
                None => false,
            },
        }
    }
}

impl DeviceResponse {
    pub fn sysinfo(&self) -> (r: &SysInfo)
        ensures
            r == &self.system.sysinfo,
    {
        &self.system.sysinfo
    }
}

impl From<SysInfo> for DeviceResponse {
    fn from(sysinfo: SysInfo) -> (r: Self)
        ensures
            r.system.sysinfo == sysinfo,
    {
        DeviceResponse { system: System { sysinfo } }
    }
}

impl vstd::std_specs::convert::FromSpecImpl<SysInfo> for DeviceResponse {
    open spec fn obeys_from_spec() -> bool {
        true
    }

    open spec fn from_spec(sysinfo: SysInfo) -> DeviceResponse {
        DeviceResponse { system: System { sysinfo } }
    }
}

/// A light block that says on makes the device on whatever its relay says;
/// without a light block the relay decides; with neither the device is off.
pub proof fn lemma_on_state(s: SysInfo)
    ensures
        (s.light_state matches Some(ls) && ls.on_off_flag() > 0) ==> on_state(&s),
        (s.light_state matches Some(ls) && ls.on_off_flag() == 0) ==> !on_state(&s),
        (s.light_state is None && (s.relay_state matches Some(r) && r > 0)) ==> on_state(&s),
        (s.light_state is None && s.relay_state is None) ==> !on_state(&s),
        s.brightness is None ==> (effective_brightness(&s) == 100 <==> on_state(&s)),
        s.brightness is None ==> (effective_brightness(&s) == 0 <==> !on_state(&s)),
{
}

/// An integer narrowed to a byte, when it fits.
pub open spec fn fit_u8(v: Option<i64>) -> Option<u8> {
    match v {
        Some(n) => if 0 <= n <= u8::MAX {
            Some(n as u8)
        } else {
            None
        },
        None => None,
    }
}

pub open spec fn fit_u16(v: Option<i64>) -> Option<u16> {
    match v {
        Some(n) => if 0 <= n <= u16::MAX {
            Some(n as u16)
        } else {
            None
        },
        None => None,
    }
}

pub open spec fn fit_i16(v: Option<i64>) -> Option<i16> {
    match v {
        Some(n) => if i16::MIN <= n <= i16::MAX {
            Some(n as i16)
        } else {
            None
        },
        None => None,
    }
}

pub open spec fn fit_i32(v: Option<i64>) -> Option<i32> {
    match v {
        Some(n) => if i32::MIN <= n <= i32::MAX {
            Some(n as i32)
        } else {
            None
        },
        None => None,
    }
}

/// The first of two pointers that leads to a string, for a field that goes
/// by two names.
pub open spec fn text_either(doc: Seq<char>, a: Seq<char>, b: Seq<char>) -> Option<Seq<char>> {
    if json_text_at(doc, a) is Some {
        json_text_at(doc, a)
    } else {
        json_text_at(doc, b)
    }
}

/// The hardware type goes by three names.
pub open spec fn hw_type_text(doc: Seq<char>) -> Option<Seq<char>> {
    if json_text_at(doc, "/system/get_sysinfo/hw_type"@) is Some {
        json_text_at(doc, "/system/get_sysinfo/hw_type"@)
    } else {
        text_either(doc, "/system/get_sysinfo/type"@, "/system/get_sysinfo/mic_type"@)
    }
}

pub open spec fn mac_text(doc: Seq<char>) -> Option<Seq<char>> {
    text_either(doc, "/system/get_sysinfo/mac"@, "/system/get_sysinfo/mic_mac"@)
}

/// Colour settings read under the light block at `base` (ending in `/`).
pub open spec fn dft_matches(doc: Seq<char>, base: Seq<char>, d: DftOnState) -> bool {
    &&& fit_u8(json_int_at(doc, base + "brightness"@)) == Some(d.brightness)
    &&& fit_u16(json_int_at(doc, base + "color_temp"@)) == Some(d.color_temp)
    &&& fit_u16(json_int_at(doc, base + "hue"@)) == Some(d.hue)
    &&& json_text_at(doc, base + "mode"@) == Some(d.mode@)
    &&& fit_u8(json_int_at(doc, base + "saturation"@)) == Some(d.saturation)
}

pub open spec fn dft_readable(doc: Seq<char>, base: Seq<char>) -> bool {
    &&& fit_u8(json_int_at(doc, base + "brightness"@)) is Some
    &&& fit_u16(json_int_at(doc, base + "color_temp"@)) is Some
    &&& fit_u16(json_int_at(doc, base + "hue"@)) is Some
    &&& json_text_at(doc, base + "mode"@) is Some
    &&& fit_u8(json_int_at(doc, base + "saturation"@)) is Some
}

pub open spec fn light_base() -> Seq<char> {
    "/system/get_sysinfo/light_state/"@
}

pub open spec fn nested_base() -> Seq<char> {
    "/system/get_sysinfo/light_state/dft_on_state/"@
}

/// Where the light block stands.
pub open spec fn light_ptr() -> Seq<char> {
    "/system/get_sysinfo/light_state"@
}

/// The light block's on/off flag, when it is a byte.
pub open spec fn light_flag(doc: Seq<char>) -> Option<u8> {
    fit_u8(json_int_at(doc, "/system/get_sysinfo/light_state/on_off"@))
}

/// An optional field: absent when missing or null, else what it reads as.
pub open spec fn opt_field<T>(present: bool, v: Option<T>) -> Option<T> {
    if present {
        v
    } else {
        None
    }
}

/// An optional field that is there must read as its type.
pub open spec fn opt_field_ok<T>(present: bool, v: Option<T>) -> bool {
    !present || v is Some
}

pub open spec fn opt_u8_at(doc: Seq<char>, p: Seq<char>) -> Option<u8> {
    opt_field(json_present_at(doc, p), fit_u8(json_int_at(doc, p)))
}

pub open spec fn opt_u8_ok(doc: Seq<char>, p: Seq<char>) -> bool {
    opt_field_ok(json_present_at(doc, p), fit_u8(json_int_at(doc, p)))
}

pub open spec fn opt_i32_at(doc: Seq<char>, p: Seq<char>) -> Option<i32> {
    opt_field(json_present_at(doc, p), fit_i32(json_int_at(doc, p)))
}

pub open spec fn opt_i32_ok(doc: Seq<char>, p: Seq<char>) -> bool {
    opt_field_ok(json_present_at(doc, p), fit_i32(json_int_at(doc, p)))
}

pub open spec fn opt_i64_at(doc: Seq<char>, p: Seq<char>) -> Option<i64> {
    opt_field(json_present_at(doc, p), json_int_at(doc, p))
}

pub open spec fn opt_i64_ok(doc: Seq<char>, p: Seq<char>) -> bool {
    opt_field_ok(json_present_at(doc, p), json_int_at(doc, p))
}

/// Whether the light block reads: it is missing or null, or it holds a
/// byte-sized on/off flag and one of the two shapes of colour settings.
pub open spec fn light_readable(doc: Seq<char>) -> bool {
    !json_present_at(doc, light_ptr()) || (light_flag(doc) is Some && (dft_readable(
        doc,
        light_base(),
    ) || dft_readable(doc, nested_base())))
}

/// What the light block of a reply reads as: absent when missing or null;
/// otherwise the flat shape if its settings read, else the nested one.
pub open spec fn light_state_matches(doc: Seq<char>, l: Option<LightState>) -> bool {
    if !json_present_at(doc, light_ptr()) {
        l is None
    } else {
        match l {
            None => false,
            Some(LightState::On { dft_on_state, on_off }) => {
                &&& light_flag(doc) == Some(on_off)
                &&& dft_matches(doc, light_base(), dft_on_state)
            },
            Some(LightState::Off { dft_on_state, on_off }) => {
                &&& light_flag(doc) == Some(on_off)
                &&& !dft_readable(doc, light_base())
                &&& dft_matches(doc, nested_base(), dft_on_state)
            },
        }
    }
}

/// Whether the reply holds every required field of the record, each of a
/// fitting type, and every optional field that is there reads as its type.
pub open spec fn sysinfo_readable(doc: Seq<char>) -> bool {
    &&& json_text_at(doc, "/system/get_sysinfo/alias"@) is Some
    &&& opt_u8_ok(doc, "/system/get_sysinfo/brightness"@)
    &&& json_text_at(doc, "/system/get_sysinfo/deviceId"@) is Some
    &&& fit_i16(json_int_at(doc, "/system/get_sysinfo/err_code"@)) is Some
    &&& json_text_at(doc, "/system/get_sysinfo/hwId"@) is Some
    &&& hw_type_text(doc) is Some
    &&& json_text_at(doc, "/system/get_sysinfo/hw_ver"@) is Some
    &&& opt_i32_ok(doc, "/system/get_sysinfo/latitude_i"@)
    &&& light_readable(doc)
    &&& opt_i32_ok(doc, "/system/get_sysinfo/longitude_i"@)
    &&& mac_text(doc) is Some
    &&& json_text_at(doc, "/system/get_sysinfo/model"@) is Some
    &&& opt_i64_ok(doc, "/system/get_sysinfo/on_time"@)
    &&& opt_u8_ok(doc, "/system/get_sysinfo/relay_state"@)
    &&& fit_i32(json_int_at(doc, "/system/get_sysinfo/rssi"@)) is Some
    &&& json_text_at(doc, "/system/get_sysinfo/sw_ver"@) is Some
    &&& opt_u8_ok(doc, "/system/get_sysinfo/updating"@)
}

/// The record read out of a reply: each field from its place under
/// `/system/get_sysinfo`; an optional field that is missing or null is
/// absent.
pub open spec fn sysinfo_matches(doc: Seq<char>, s: SysInfo) -> bool {
    &&& json_text_at(doc, "/system/get_sysinfo/alias"@) == Some(s.alias@)
    &&& s.brightness == opt_u8_at(doc, "/system/get_sysinfo/brightness"@)
    &&& json_text_at(doc, "/system/get_sysinfo/deviceId"@) == Some(s.device_id@)
    &&& fit_i16(json_int_at(doc, "/system/get_sysinfo/err_code"@)) == Some(s.err_code)
    &&& json_text_at(doc, "/system/get_sysinfo/hwId"@) == Some(s.hw_id@)
    &&& hw_type_text(doc) == Some(s.hw_type@)
    &&& json_text_at(doc, "/system/get_sysinfo/hw_ver"@) == Some(s.hw_ver@)
    &&& s.latitude_i == opt_i32_at(doc, "/system/get_sysinfo/latitude_i"@)
    &&& light_state_matches(doc, s.light_state)
    &&& s.longitude_i == opt_i32_at(doc, "/system/get_sysinfo/longitude_i"@)
    &&& mac_text(doc) == Some(s.mac@)
    &&& json_text_at(doc, "/system/get_sysinfo/model"@) == Some(s.model@)
    &&& s.on_time == opt_i64_at(doc, "/system/get_sysinfo/on_time"@)
    &&& s.relay_state == opt_u8_at(doc, "/system/get_sysinfo/relay_state"@)
    &&& fit_i32(json_int_at(doc, "/system/get_sysinfo/rssi"@)) == Some(s.rssi)
    &&& json_text_at(doc, "/system/get_sysinfo/sw_ver"@) == Some(s.sw_ver@)
    &&& s.updating == opt_u8_at(doc, "/system/get_sysinfo/updating"@)
}

/// Whether a reply says the device is on: by the light block's flag where
/// there is a light block, else by the relay; with neither, off.
pub open spec fn reported_on(doc: Seq<char>) -> bool {
    if json_present_at(doc, light_ptr()) {
        light_flag(doc) matches Some(f) && f > 0
    } else {
        opt_u8_at(doc, "/system/get_sysinfo/relay_state"@) matches Some(r) && r > 0
    }
}

/// A record read out of a reply is on exactly when the reply says so.
pub proof fn lemma_reported_on(doc: Seq<char>, s: SysInfo)
    requires
        sysinfo_matches(doc, s),
    ensures
        on_state(&s) == reported_on(doc),
{
}

fn opt_u8(doc: &str, pointer: &str) -> (r: Option<u8>)
    ensures
        r == fit_u8(json_int_at(doc@, pointer@)),
{
    match int_at(doc, pointer) {
        Some(n) => if 0 <= n && n <= 255 {
            Some(n as u8)
        } else {
            None
        },
        None => None,
    }
}

fn opt_u16(doc: &str, pointer: &str) -> (r: Option<u16>)
    ensures
        r == fit_u16(json_int_at(doc@, pointer@)),
{
    match int_at(doc, pointer) {
        Some(n) => if 0 <= n && n <= 65535 {
            Some(n as u16)
        } else {
            None
        },
        None => None,
    }
}

fn opt_i16(doc: &str, pointer: &str) -> (r: Option<i16>)
    ensures
        r == fit_i16(json_int_at(doc@, pointer@)),
{
    match int_at(doc, pointer) {
        Some(n) => if -32768 <= n && n <= 32767 {
            Some(n as i16)
        } else {
            None
        },
        None => None,
    }
}

fn opt_i32(doc: &str, pointer: &str) -> (r: Option<i32>)
    ensures
        r == fit_i32(json_int_at(doc@, pointer@)),
{
    match int_at(doc, pointer) {
        Some(n) => if -2147483648 <= n && n <= 2147483647 {
            Some(n as i32)
        } else {
            None
        },
        None => None,
    }
}

fn text_or(doc: &str, a: &str, b: &str) -> (r: Option<String>)
    ensures
        r matches Some(t) ==> text_either(doc@, a@, b@) == Some(t@),
        r is None ==> text_either(doc@, a@, b@) is None,
{
    match text_at(doc, a) {
        Some(t) => Some(t),
        None => text_at(doc, b),
    }
}

fn read_dft(doc: &str, nested: bool) -> (r: Option<DftOnState>)
    ensures
        ({
            let base = if nested { nested_base() } else { light_base() };
            &&& r is Some <==> dft_readable(doc@, base)
            &&& r matches Some(d) ==> dft_matches(doc@, base, d)
        }),
{
    proof {
        reveal_strlit("/system/get_sysinfo/light_state/");
        reveal_strlit("/system/get_sysinfo/light_state/dft_on_state/");
        reveal_strlit("brightness");
        reveal_strlit("color_temp");
        reveal_strlit("hue");
        reveal_strlit("mode");
        reveal_strlit("saturation");
        reveal_strlit("/system/get_sysinfo/light_state/brightness");
        reveal_strlit("/system/get_sysinfo/light_state/color_temp");
        reveal_strlit("/system/get_sysinfo/light_state/hue");
        reveal_strlit("/system/get_sysinfo/light_state/mode");
        reveal_strlit("/system/get_sysinfo/light_state/saturation");
        reveal_strlit("/system/get_sysinfo/light_state/dft_on_state/brightness");
        reveal_strlit("/system/get_sysinfo/light_state/dft_on_state/color_temp");
        reveal_strlit("/system/get_sysinfo/light_state/dft_on_state/hue");
        reveal_strlit("/system/get_sysinfo/light_state/dft_on_state/mode");
        reveal_strlit("/system/get_sysinfo/light_state/dft_on_state/saturation");
    }
    let (b, c, h, m, s) = if nested {
        assert("/system/get_sysinfo/light_state/dft_on_state/brightness"@ =~= nested_base() + "brightness"@);
        assert("/system/get_sysinfo/light_state/dft_on_state/color_temp"@ =~= nested_base() + "color_temp"@);
        assert("/system/get_sysinfo/light_state/dft_on_state/hue"@ =~= nested_base() + "hue"@);
        assert("/system/get_sysinfo/light_state/dft_on_state/mode"@ =~= nested_base() + "mode"@);
        assert("/system/get_sysinfo/light_state/dft_on_state/saturation"@ =~= nested_base() + "saturation"@);
        (
            opt_u8(doc, "/system/get_sysinfo/light_state/dft_on_state/brightness"),
            opt_u16(doc, "/system/get_sysinfo/light_state/dft_on_state/color_temp"),
            opt_u16(doc, "/system/get_sysinfo/light_state/dft_on_state/hue"),
            text_at(doc, "/system/get_sysinfo/light_state/dft_on_state/mode"),
            opt_u8(doc, "/system/get_sysinfo/light_state/dft_on_state/saturation"),
        )
    } else {
        assert("/system/get_sysinfo/light_state/brightness"@ =~= light_base() + "brightness"@);
        assert("/system/get_sysinfo/light_state/color_temp"@ =~= light_base() + "color_temp"@);
        assert("/system/get_sysinfo/light_state/hue"@ =~= light_base() + "hue"@);
        assert("/system/get_sysinfo/light_state/mode"@ =~= light_base() + "mode"@);
        assert("/system/get_sysinfo/light_state/saturation"@ =~= light_base() + "saturation"@);
        (
            opt_u8(doc, "/system/get_sysinfo/light_state/brightness"),
            opt_u16(doc, "/system/get_sysinfo/light_state/color_temp"),
            opt_u16(doc, "/system/get_sysinfo/light_state/hue"),
            text_at(doc, "/system/get_sysinfo/light_state/mode"),
            opt_u8(doc, "/system/get_sysinfo/light_state/saturation"),
        )
    };
    match (b, c, h, m, s) {
        (Some(brightness), Some(color_temp), Some(hue), Some(mode), Some(saturation)) => Some(
            DftOnState { brightness, color_temp, hue, mode, saturation },
        ),
        _ => None,
    }
}

fn read_light_state(doc: &str) -> (r: Result<Option<LightState>, TpError>)
    ensures
        r is Ok <==> light_readable(doc@),
        r matches Ok(l) ==> light_state_matches(doc@, l),
        r matches Err(e) ==> e is Serde,
{
    if !present_at(doc, "/system/get_sysinfo/light_state") {
        return Ok(None);
    }
    let on_off = match opt_u8(doc, "/system/get_sysinfo/light_state/on_off") {
        Some(f) => f,
        None => return Err(missing("light_state")),
    };
    match read_dft(doc, false) {
        Some(dft_on_state) => Ok(Some(LightState::On { dft_on_state, on_off })),
        None => match read_dft(doc, true) {
            Some(dft_on_state) => Ok(Some(LightState::Off { dft_on_state, on_off })),
            None => Err(missing("light_state")),
        },
    }
}

fn optional_u8(doc: &str, pointer: &str) -> (r: Result<Option<u8>, TpError>)
    ensures
        r is Ok <==> opt_u8_ok(doc@, pointer@),
        r matches Ok(v) ==> v == opt_u8_at(doc@, pointer@),
        r matches Err(e) ==> e is Serde,
{
    if !present_at(doc, pointer) {
        return Ok(None);
    }
    match opt_u8(doc, pointer) {
        Some(b) => Ok(Some(b)),
        None => Err(missing(pointer)),
    }
}

fn optional_i32(doc: &str, pointer: &str) -> (r: Result<Option<i32>, TpError>)
    ensures
        r is Ok <==> opt_i32_ok(doc@, pointer@),
        r matches Ok(v) ==> v == opt_i32_at(doc@, pointer@),
        r matches Err(e) ==> e is Serde,
{
    if !present_at(doc, pointer) {
        return Ok(None);
    }
    match opt_i32(doc, pointer) {
        Some(b) => Ok(Some(b)),
        None => Err(missing(pointer)),
    }
}

fn optional_i64(doc: &str, pointer: &str) -> (r: Result<Option<i64>, TpError>)
    ensures
        r is Ok <==> opt_i64_ok(doc@, pointer@),
        r matches Ok(v) ==> v == opt_i64_at(doc@, pointer@),
        r matches Err(e) ==> e is Serde,
{
    if !present_at(doc, pointer) {
        return Ok(None);
    }
    match int_at(doc, pointer) {
        Some(b) => Ok(Some(b)),
        None => Err(missing(pointer)),
    }
}

/// The error for a reply with a required field missing, or a field that does
/// not read as its type.
fn missing(field: &str) -> (r: TpError)
    ensures
        r is Serde,
{
    let mut msg = String::from_str("missing or malformed field: ");
    msg.append(field);
    TpError::Serde(msg)
}

impl DeviceResponse {
    /// Reads a reply to the system-information query. Fails with a decode
    /// error when a required field is missing or does not fit its type, or an
    /// optional field is there but does not; optional fields that are missing
    /// or null are absent.
    pub fn parse(doc: &str) -> (r: Result<DeviceResponse, TpError>)
        ensures
            r is Ok <==> sysinfo_readable(doc@),
            r matches Ok(d) ==> sysinfo_matches(doc@, d.system.sysinfo),
            r matches Err(e) ==> e is Serde,
    {
        let alias = match text_at(doc, "/system/get_sysinfo/alias") {
            Some(t) => t,
            None => return Err(missing("alias")),
        };
        let brightness = match optional_u8(doc, "/system/get_sysinfo/brightness") {
            Ok(v) => v,
            Err(e) => return Err(e),
        };
        let device_id = match text_at(doc, "/system/get_sysinfo/deviceId") {
            Some(t) => t,
            None => return Err(missing("deviceId")),
        };
        let err_code = match opt_i16(doc, "/system/get_sysinfo/err_code") {
            Some(n) => n,
            None => return Err(missing("err_code")),
        };
        let hw_id = match text_at(doc, "/system/get_sysinfo/hwId") {
            Some(t) => t,
            None => return Err(missing("hwId")),
        };
        let hw_type = match text_at(doc, "/system/get_sysinfo/hw_type") {
            Some(t) => t,
            None => match text_or(doc, "/system/get_sysinfo/type", "/system/get_sysinfo/mic_type") {
                Some(t) => t,
                None => return Err(missing("hw_type")),
            },
        };
        let hw_ver = match text_at(doc, "/system/get_sysinfo/hw_ver") {
            Some(t) => t,
            None => return Err(missing("hw_ver")),
        };
        let latitude_i = match optional_i32(doc, "/system/get_sysinfo/latitude_i") {
            Ok(v) => v,
            Err(e) => return Err(e),
        };
        let light_state = match read_light_state(doc) {
            Ok(v) => v,
            Err(e) => return Err(e),
        };
        let longitude_i = match optional_i32(doc, "/system/get_sysinfo/longitude_i") {
            Ok(v) => v,
            Err(e) => return Err(e),
        };
        let mac = match text_or(doc, "/system/get_sysinfo/mac", "/system/get_sysinfo/mic_mac") {
            Some(t) => t,
            None => return Err(missing("mac")),
        };
        let model = match text_at(doc, "/system/get_sysinfo/model") {
            Some(t) => t,
            None => return Err(missing("model")),
        };
        let on_time = match optional_i64(doc, "/system/get_sysinfo/on_time") {
            Ok(v) => v,
            Err(e) => return Err(e),
        };
        let relay_state = match optional_u8(doc, "/system/get_sysinfo/relay_state") {
            Ok(v) => v,
            Err(e) => return Err(e),
        };
        let rssi = match opt_i32(doc, "/system/get_sysinfo/rssi") {
            Some(n) => n,
            None => return Err(missing("rssi")),
        };
        let sw_ver = match text_at(doc, "/system/get_sysinfo/sw_ver") {
            Some(t) => t,
            None => return Err(missing("sw_ver")),
        };
        let updating = match optional_u8(doc, "/system/get_sysinfo/updating") {
            Ok(v) => v,
            Err(e) => return Err(e),
        };
        let sysinfo = SysInfo {
            alias,
            brightness,
            device_id,
            err_code,
            hw_id,
            hw_type,
            hw_ver,
            latitude_i,
            light_state,
            longitude_i,
            mac,
            model,
            on_time,
            relay_state,
            rssi,
            sw_ver,
            updating,
        };
        Ok(DeviceResponse { system: System { sysinfo } })
    }
}

/// The outcome of reading a record out of a reply that may not have come:
/// a failed exchange passes its error on; a reply reads exactly when it holds
/// a readable record, and otherwise gives a decode error.
pub open spec fn sysinfo_outcome(reply: Result<Seq<char>, TpError>, r: Result<SysInfo, TpError>) -> bool {
    match reply {
        Err(e0) => r == Err::<SysInfo, TpError>(e0),
        Ok(doc) => {
            &&& (r is Ok <==> sysinfo_readable(doc))
            &&& (r matches Ok(s) ==> sysinfo_matches(doc, s))
            &&& (r matches Err(e) ==> e is Serde)
        },
    }
}

/// Reads the record out of a reply that may not have come: a failed exchange
/// passes its error on.
pub fn sysinfo_from_reply(reply: Result<String, TpError>) -> (r: Result<SysInfo, TpError>)
    ensures
        sysinfo_outcome(reply_view(reply), r),
{
    match reply {
        Ok(doc) => match DeviceResponse::parse(doc.as_str()) {
            Ok(d) => Ok(d.system.sysinfo),
            Err(e) => Err(e),
        },
        Err(e) => Err(e),
    }
}

} // verus!
