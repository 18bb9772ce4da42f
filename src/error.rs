//! Error types
use crate::requests::{decimal, decimal_text};
use vstd::prelude::*;
use vstd::string::StringExecFns;

verus! {

/// Error response for a section of a device's JSON reply.
#[derive(Debug, Clone)]
pub struct SectionError {
    /// The error code. Zero if no error.
    pub err_code: Option<i16>,
    /// The error message.
    pub err_msg: Option<String>,
}

/// Every error that talking to a device can end in.
#[derive(Debug, Clone)]
pub enum TpError {
    /// Connecting, reading, writing or a timeout failed
    IO(String),
    /// The reply could not be decoded
    Serde(String),
    /// The device reported a nonzero error code for a section of the request
    TPLink(SectionError),
    /// The device model is not one of the supported families
    UnknownModel(String),
    /// The device does not have the capability that was asked for
    Unsupported(String),
    /// Anything else, such as a reply too short to hold its header
    Unknown(String),
}

impl TpError {
    /// A short fixed description of the kind of error.
    pub fn description(&self) -> (r: &'static str)
        ensures
            r@ == description_of(*self),
    {
        match self {
            TpError::IO(_) => "Error connecting to the device",
            TpError::Serde(_) => "Could not parse the response received from the device",
            TpError::TPLink(_) => "Response data error",
            TpError::Unknown(_) => "Unknown error",
            TpError::UnknownModel(_) => "Unknown device model",
            TpError::Unsupported(_) => "Unsupported feature",
        }
    }
}

pub open spec fn description_of(e: TpError) -> Seq<char> {
    match e {
        TpError::IO(_) => "Error connecting to the device"@,
        TpError::Serde(_) => "Could not parse the response received from the device"@,
        TpError::TPLink(_) => "Response data error"@,
        TpError::Unknown(_) => "Unknown error"@,
        TpError::UnknownModel(_) => "Unknown device model"@,
        TpError::Unsupported(_) => "Unsupported feature"@,
    }
}

/// A signed number in decimal, with a minus sign when negative.
pub open spec fn signed_text(n: i16) -> Seq<char> {
    if n < 0 {
        "-"@ + decimal_text((-n) as nat)
    } else {
        decimal_text(n as nat)
    }
}

/// The text that `{:?}` gives for a string: quoted, with escapes.
pub uninterp spec fn debug_text(s: Seq<char>) -> Seq<char>;

/// Relies on `<str as Debug>::fmt` by way of `format!("{:?}")`: the quoted,
/// escaped text, which depends on the string alone.
#[verifier::external_body]
fn debug_str(s: &str) -> (r: String)
    ensures
        r@ == debug_text(s@),
{
    format!("{:?}", s)
}

/// An optional code as `{:?}` writes it: `Some(-3)` or `None`.
pub open spec fn opt_code_text(c: Option<i16>) -> Seq<char> {
    match c {
        Some(c) => "Some("@ + signed_text(c) + ")"@,
        None => "None"@,
    }
}

/// An optional message as `{:?}` writes it: `Some("busy")` or `None`.
pub open spec fn opt_msg_text(m: Option<String>) -> Seq<char> {
    match m {
        Some(m) => "Some("@ + debug_text(m@) + ")"@,
        None => "None"@,
    }
}

/// The text of a section error: its code, then its message.
pub open spec fn section_text(e: SectionError) -> Seq<char> {
    opt_code_text(e.err_code) + ": "@ + opt_msg_text(e.err_msg)
}

/// The text shown for an error.
pub open spec fn message_of(e: TpError) -> Seq<char> {
    match e {
        TpError::IO(_) => "Error connecting to the device"@,
        TpError::Serde(_) => "Could not parse the response received from the device"@,
        TpError::TPLink(se) => "Response data error: ("@ + opt_code_text(se.err_code) + ") "@
            + opt_msg_text(se.err_msg),
        TpError::Unknown(m) => m@,
        TpError::UnknownModel(m) => "Unknown device model: "@ + debug_text(m@),
        TpError::Unsupported(f) => "Unsupported feature: "@ + debug_text(f@),
    }
}

fn code_text(c: Option<i16>) -> (r: String)
    ensures
        r@ == opt_code_text(c),
{
    match c {
        Some(c) => {
            let mut t = String::from_str("Some(");
            if c < 0 {
                t.append("-");
                let magnitude: i32 = -(c as i32);
                t.append(decimal(magnitude as u64).as_str());
            } else {
                t.append(decimal(c as u64).as_str());
            }
            t.append(")");
            t
        },
        None => String::from_str("None"),
    }
}

fn msg_text(m: &Option<String>) -> (r: String)
    ensures
        r@ == opt_msg_text(*m),
{
    match m {
        Some(m) => {
            let mut t = String::from_str("Some(");
            t.append(debug_str(m.as_str()).as_str());
            t.append(")");
            t
        },
        None => String::from_str("None"),
    }
}

impl SectionError {
    /// The code, then the message, as in `Some(-3): Some("busy")`.
    pub fn message(&self) -> (r: String)
        ensures
            r@ == section_text(*self),
    {
        let mut s = code_text(self.err_code);
        s.append(": ");
        s.append(msg_text(&self.err_msg).as_str());
        s
    }
}

impl TpError {
    /// The text shown for the error.
    pub fn message(&self) -> (r: String)
        ensures
            r@ == message_of(*self),
    {
        match self {
            TpError::IO(_) => String::from_str("Error connecting to the device"),
            TpError::Serde(_) => String::from_str(
                "Could not parse the response received from the device",
            ),
            TpError::TPLink(se) => {
                let mut s = String::from_str("Response data error: (");
                s.append(code_text(se.err_code).as_str());
                s.append(") ");
                s.append(msg_text(&se.err_msg).as_str());
                s
            },
            TpError::Unknown(m) => m.clone(),
            TpError::UnknownModel(m) => {
                let mut s = String::from_str("Unknown device model: ");
                s.append(debug_str(m.as_str()).as_str());
                s
            },
            TpError::Unsupported(f) => {
                let mut s = String::from_str("Unsupported feature: ");
                s.append(debug_str(f.as_str()).as_str());
                s
            },
        }
    }
}

impl From<String> for TpError {
    fn from(error: String) -> (r: Self)
        ensures
            r == TpError::Unknown(error),
    {
        TpError::Unknown(error)
    }
}

impl vstd::std_specs::convert::FromSpecImpl<String> for TpError {
    open spec fn obeys_from_spec() -> bool {
        true
    }

    open spec fn from_spec(error: String) -> TpError {
        TpError::Unknown(error)
    }
}

impl From<SectionError> for TpError {
    fn from(error: SectionError) -> (r: Self)
        ensures
            r == TpError::TPLink(error),
    {
        TpError::TPLink(error)
    }
}

impl vstd::std_specs::convert::FromSpecImpl<SectionError> for TpError {
    open spec fn obeys_from_spec() -> bool {
        true
    }

    open spec fn from_spec(error: SectionError) -> TpError {
        TpError::TPLink(error)
    }
}

} // verus!
