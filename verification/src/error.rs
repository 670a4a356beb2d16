//! The error type of the bridge.

use vstd::prelude::*;
use vstd::string::StringExecFns;

verus! {

/// The error that a failed buffer mapping is reported with. Nothing is known
/// of a value of it but that it is one.
#[verifier::external_type_specification]
#[verifier::external_body]
pub struct ExBufferAsyncError(wgpu::BufferAsyncError);

/// What a denoise operation can fail with.
#[derive(Debug)]
#[non_exhaustive]
pub enum Error {
    /// The engine reported an error. Code and message are the engine's own.
    OidnError { code: u32, message: String },
    /// The engine could not create a device.
    DeviceCreationFailed,
    /// The engine could not create a filter.
    FilterCreationFailed,
    /// The engine could not allocate a buffer.
    OutOfMemory,
    /// Surfaces disagree in size or layer count, or a buffer does not have
    /// the length that the image dimensions ask for.
    InvalidDimensions,
    /// The pixel encoding is not one that can be denoised.
    UnsupportedFormat,
    /// Mapping a GPU buffer for reading did not complete.
    BufferMapFailed(wgpu::BufferAsyncError),
}

/// The character for a decimal digit.
pub open spec fn digit_char(digit: int) -> char
    recommends
        0 <= digit < 10,
{
    if digit == 0 {
        '0'
    } else if digit == 1 {
        '1'
    } else if digit == 2 {
        '2'
    } else if digit == 3 {
        '3'
    } else if digit == 4 {
        '4'
    } else if digit == 5 {
        '5'
    } else if digit == 6 {
        '6'
    } else if digit == 7 {
        '7'
    } else if digit == 8 {
        '8'
    } else {
        '9'
    }
}

/// A number written in decimal digits, without leading zeros.
pub open spec fn decimal_text(n: nat) -> Seq<char>
    decreases n,
{
    if n < 10 {
        seq![digit_char(n as int)]
    } else {
        decimal_text(n / 10).push(digit_char((n % 10) as int))
    }
}

/// Writes a number in decimal digits with `u32::to_string`, which writes no
/// sign and no leading zeros.
#[verifier::external_body]
fn decimal(n: u32) -> (r: String)
    ensures
        r@ == decimal_text(n as nat),
{
    n.to_string()
}

/// Writes a mapping error as its `Debug` implementation does, which
/// `wgpu::BufferAsyncError` has by `derive`: for a struct without fields that
/// is the name of the struct.
#[verifier::external_body]
fn map_error_text(e: &wgpu::BufferAsyncError) -> (r: String)
    ensures
        r@ == "BufferAsyncError"@,
{
    format!("{:?}", e)
}

impl Error {
    /// The message of this error.
    pub open spec fn spec_message(self) -> Seq<char> {
        match self {
            Error::OidnError { code, message } => "OIDN error ("@ + decimal_text(code as nat)
                + "): "@ + message@,
            Error::DeviceCreationFailed => "OIDN device creation failed"@,
            Error::FilterCreationFailed => "OIDN filter creation failed"@,
            Error::OutOfMemory => "OIDN out of memory"@,
            Error::InvalidDimensions => "invalid image dimensions"@,
            Error::UnsupportedFormat => "unsupported texture format for denoising"@,
            Error::BufferMapFailed(_) => "wgpu buffer map failed: "@ + "BufferAsyncError"@,
        }
    }

    /// The message of this error, for a reader.
    pub fn message(&self) -> (r: String)
        ensures
            r@ == self.spec_message(),
    {
        match self {
            Error::OidnError { code, message } => {
                let mut text = String::from_str("OIDN error (");
                text.append(decimal(*code).as_str());
                text.append("): ");
                text.append(message.as_str());
                text
            },
            Error::DeviceCreationFailed => String::from_str("OIDN device creation failed"),
            Error::FilterCreationFailed => String::from_str("OIDN filter creation failed"),
            Error::OutOfMemory => String::from_str("OIDN out of memory"),
            Error::InvalidDimensions => String::from_str("invalid image dimensions"),
            Error::UnsupportedFormat => String::from_str(
                "unsupported texture format for denoising",
            ),
            Error::BufferMapFailed(e) => {
                let mut text = String::from_str("wgpu buffer map failed: ");
                text.append(map_error_text(e).as_str());
                text
            },
        }
    }

    /// The error that the engine has pending, from its code and message as
    /// the engine gives them: none for the code zero, which stands for no
    /// error; else the error with that code and message, with an empty
    /// message where the engine gave none.
    pub fn pending(code: u32, message: Option<String>) -> (r: Option<Error>)
        ensures
            code == 0 ==> r.is_none(),
            code != 0 ==> (r matches Some(Error::OidnError { code: c, message: m }) && c == code
                && m@ == (match message {
                Some(text) => text@,
                None => Seq::empty(),
            })),
    {
        if code == 0 {
            return None;
        }
        let message: String = match message {
            Some(text) => text,
            None => String::new(),
        };
        Some(Error::OidnError { code, message })
    }
}

} // verus!
