//! Decoding of the status codes that the device management service answers with.

use vstd::prelude::*;

use crate::text::string_from_chars;

verus! {

/// Status code of the management service for a file or resource that could not be found.
pub const NOT_FOUND_CODE: u32 = 0xe8000008;

/// Status code for a missing provisioning profile.
pub const NO_PROFILE_CODE: u32 = 0xe8008015;

/// Status code for a failed connection through the device multiplexer.
pub const MUX_CONNECT_CODE: u32 = 0xe8000065;

/// Status code for a call made while not connected to the device.
pub const NOT_CONNECTED_CODE: u32 = 0xe800000b;

/// Status code for a free development profile that reached its limit of apps.
pub const APP_LIMIT_CODE: u32 = 0xe8008021;

/// Why a call into the device management service failed.
#[derive(Clone, Copy, Debug, PartialEq, Eq, Structural)]
pub enum NativeReason {
    FileNotFound,
    MissingProvisioningProfile,
    MuxConnect,
    NotConnected,
    AppLimitReached,
    Unknown,
}

/// A non-zero status of the device management service, with its decoded reason.
#[derive(Clone, Copy, Debug, PartialEq, Eq, Structural)]
pub struct NativeError {
    pub code: i32,
    pub reason: NativeReason,
}

/// The reason that the fixed table gives to a non-zero status code.
pub open spec fn reason_of(code: i32) -> NativeReason {
    let c = code as u32;
    if c == NOT_FOUND_CODE {
        NativeReason::FileNotFound
    } else if c == NO_PROFILE_CODE {
        NativeReason::MissingProvisioningProfile
    } else if c == MUX_CONNECT_CODE {
        NativeReason::MuxConnect
    } else if c == NOT_CONNECTED_CODE {
        NativeReason::NotConnected
    } else if c == APP_LIMIT_CODE {
        NativeReason::AppLimitReached
    } else {
        NativeReason::Unknown
    }
}

/// The outcome that a status code stands for: `0` is success, any other code an error.
pub open spec fn translated(code: i32) -> Result<(), NativeError> {
    if code == 0 {
        Ok(())
    } else {
        Err(NativeError { code, reason: reason_of(code) })
    }
}

/// Maps a status code of the device management service to success or a typed error.
pub fn translate(code: i32) -> (r: Result<(), NativeError>)
    ensures
        r == translated(code),
{
    if code == 0 {
        return Ok(());
    }
    let c = code as u32;
    let reason = if c == NOT_FOUND_CODE {
        NativeReason::FileNotFound
    } else if c == NO_PROFILE_CODE {
        NativeReason::MissingProvisioningProfile
    } else if c == MUX_CONNECT_CODE {
        NativeReason::MuxConnect
    } else if c == NOT_CONNECTED_CODE {
        NativeReason::NotConnected
    } else if c == APP_LIMIT_CODE {
        NativeReason::AppLimitReached
    } else {
        NativeReason::Unknown
    };
    Err(NativeError { code, reason })
}

/// The lower-case hexadecimal digit for `d < 16`.
pub open spec fn hex_digit(d: nat) -> char {
    seq!['0', '1', '2', '3', '4', '5', '6', '7', '8', '9', 'a', 'b', 'c', 'd', 'e', 'f'][d as int]
}

/// `n` written in lower-case hexadecimal, without leading zeros.
pub open spec fn hex_of(n: nat) -> Seq<char>
    decreases n,
{
    if n < 16 {
        seq![hex_digit(n)]
    } else {
        hex_of(n / 16).push(hex_digit(n % 16))
    }
}

fn hex_digit_char(d: u32) -> (r: char)
    requires
        d < 16,
    ensures
        r == hex_digit(d as nat),
{
    let digits = vec!['0', '1', '2', '3', '4', '5', '6', '7', '8', '9', 'a', 'b', 'c', 'd', 'e', 'f'];
    assert(digits@ =~= seq!['0', '1', '2', '3', '4', '5', '6', '7', '8', '9', 'a', 'b', 'c', 'd', 'e', 'f']);
    digits[d as usize]
}

/// The hexadecimal digits of `n`.
pub fn hex_chars(n: u32) -> (r: Vec<char>)
    ensures
        r@ == hex_of(n as nat),
    decreases n,
{
    if n < 16 {
        vec![hex_digit_char(n)]
    } else {
        let mut v = hex_chars(n / 16);
        v.push(hex_digit_char(n % 16));
        v
    }
}

/// The text that a status of unknown meaning is reported with: its code in hexadecimal.
pub open spec fn unknown_message(code: i32) -> Seq<char> {
    "Unknown error code: 0x"@ + hex_of(code as u32 as nat)
}

/// The text that describes each reason of the fixed table.
pub open spec fn reason_message(reason: NativeReason) -> Seq<char> {
    match reason {
        NativeReason::FileNotFound => "The file could not be found. kAMDNotFoundError"@,
        NativeReason::MissingProvisioningProfile => "A valid provisioning profile for this executable was not found."@,
        NativeReason::MuxConnect => "Could not connect to the device. kAMDMuxConnectError"@,
        NativeReason::NotConnected => "Not connected to the device. kAMDNotConnectedError"@,
        NativeReason::AppLimitReached => "The maximum number of apps for free development profiles has been reached."@,
        NativeReason::Unknown => Seq::empty(),
    }
}

impl NativeError {
    /// What the error is reported with.
    pub open spec fn message_view(&self) -> Seq<char> {
        if self.reason == NativeReason::Unknown {
            unknown_message(self.code)
        } else {
            reason_message(self.reason)
        }
    }

    /// The text of the error: its decoded reason, or its raw code in hexadecimal.
    pub fn message(&self) -> (r: String)
        ensures
            r@ == self.message_view(),
    {
        match self.reason {
            NativeReason::FileNotFound => String::from_str("The file could not be found. kAMDNotFoundError"),
            NativeReason::MissingProvisioningProfile => String::from_str("A valid provisioning profile for this executable was not found."),
            NativeReason::MuxConnect => String::from_str("Could not connect to the device. kAMDMuxConnectError"),
            NativeReason::NotConnected => String::from_str("Not connected to the device. kAMDNotConnectedError"),
            NativeReason::AppLimitReached => String::from_str("The maximum number of apps for free development profiles has been reached."),
            NativeReason::Unknown => {
                let digits = string_from_chars(&hex_chars(self.code as u32));
                String::from_str("Unknown error code: 0x").concat(digits.as_str())
            },
        }
    }
}

} // verus!
