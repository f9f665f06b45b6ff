//! The failures that the tool reports.

use vstd::prelude::*;
use vstd::string::*;
use crate::text::{decimal, decimal_spec, hex4, hex4_spec};

verus! {

/// Everything that can end an invocation without success.
#[derive(Debug, PartialEq, Eq)]
pub enum QmkError {
    /// The host's HID subsystem could not be initialised.
    HidApiInitError(String),
    /// No attached device has the vendor id, product id, usage page and usage asked for.
    DeviceNotFound(u16, u16, u16, u16),
    /// Devices matched, but none of them could be opened.
    DeviceOpenError(String),
    /// An argument with the prefix `0x` or `0X` is no hexadecimal 16-bit number.
    InvalidHexValue(String),
    /// An argument without that prefix is no decimal 16-bit number.
    InvalidDecimalValue(String),
    /// No device took the message.
    SendReportError(String),
    /// Reading from a device failed.
    HidReadError(String),
    /// A device did not answer.
    NoResponseReceived(String),
    /// Neither a message nor a request to list the devices was given.
    MissingRequiredParameter(String),
    /// A feature that the tool no longer has was asked for.
    RemovedFeature(String),
    /// Some devices took the message and some did not.
    PartialSendError { succeeded: usize, failed: usize },
    /// The place of the configuration file could not be determined or prepared.
    ConfigError(String),
    /// The configuration file at the given path could not be read.
    ConfigReadError(String, String),
    /// The configuration file at the given path is not a valid configuration.
    ConfigParseError(String, String),
    /// The configuration file at the given path could not be written.
    ConfigWriteError(String, String),
}

/// A [`QmkError`] with its texts as sequences of characters.
pub enum ErrorView {
    HidApiInitError(Seq<char>),
    DeviceNotFound(u16, u16, u16, u16),
    DeviceOpenError(Seq<char>),
    InvalidHexValue(Seq<char>),
    InvalidDecimalValue(Seq<char>),
    SendReportError(Seq<char>),
    HidReadError(Seq<char>),
    NoResponseReceived(Seq<char>),
    MissingRequiredParameter(Seq<char>),
    RemovedFeature(Seq<char>),
    PartialSendError { succeeded: usize, failed: usize },
    ConfigError(Seq<char>),
    ConfigReadError(Seq<char>, Seq<char>),
    ConfigParseError(Seq<char>, Seq<char>),
    ConfigWriteError(Seq<char>, Seq<char>),
}

impl View for QmkError {
    type V = ErrorView;

    open spec fn view(&self) -> ErrorView {
        match *self {
            QmkError::HidApiInitError(e) => ErrorView::HidApiInitError(e@),
            QmkError::DeviceNotFound(vid, pid, usage_page, usage) => ErrorView::DeviceNotFound(
                vid,
                pid,
                usage_page,
                usage,
            ),
            QmkError::DeviceOpenError(e) => ErrorView::DeviceOpenError(e@),
            QmkError::InvalidHexValue(e) => ErrorView::InvalidHexValue(e@),
            QmkError::InvalidDecimalValue(e) => ErrorView::InvalidDecimalValue(e@),
            QmkError::SendReportError(e) => ErrorView::SendReportError(e@),
            QmkError::HidReadError(e) => ErrorView::HidReadError(e@),
            QmkError::NoResponseReceived(e) => ErrorView::NoResponseReceived(e@),
            QmkError::MissingRequiredParameter(p) => ErrorView::MissingRequiredParameter(p@),
            QmkError::RemovedFeature(f) => ErrorView::RemovedFeature(f@),
            QmkError::PartialSendError { succeeded, failed } => ErrorView::PartialSendError {
                succeeded,
                failed,
            },
            QmkError::ConfigError(e) => ErrorView::ConfigError(e@),
            QmkError::ConfigReadError(path, e) => ErrorView::ConfigReadError(path@, e@),
            QmkError::ConfigParseError(path, e) => ErrorView::ConfigParseError(path@, e@),
            QmkError::ConfigWriteError(path, e) => ErrorView::ConfigWriteError(path@, e@),
        }
    }
}

/// Whether an executable result is the one that its model gives: the same
/// value, or an error whose view is the model's error.
pub open spec fn agrees<T>(r: Result<T, QmkError>, model: Result<T, ErrorView>) -> bool {
    match r {
        Ok(v) => model == Ok::<T, ErrorView>(v),
        Err(e) => model == Err::<T, ErrorView>(e@),
    }
}

/// The four values of a device search as they are shown to the user.
pub open spec fn descriptor_text(vid: u16, pid: u16, usage_page: u16, usage: u16) -> Seq<char> {
    "VID: 0x"@ + hex4_spec(vid) + ", PID: 0x"@ + hex4_spec(pid) + ", Usage Page: 0x"@ + hex4_spec(
        usage_page,
    ) + ", Usage: 0x"@ + hex4_spec(usage)
}

impl ErrorView {
    /// The line that is shown to the user for this failure.
    pub open spec fn message(self) -> Seq<char> {
        match self {
            ErrorView::HidApiInitError(e) => "Error initializing HID API: "@ + e,
            ErrorView::DeviceNotFound(vid, pid, usage_page, usage) => "No device found with "@
                + descriptor_text(vid, pid, usage_page, usage),
            ErrorView::DeviceOpenError(e) => "Error opening device: "@ + e,
            ErrorView::InvalidHexValue(e) => "Invalid hex value: "@ + e,
            ErrorView::InvalidDecimalValue(e) => "Invalid decimal value: "@ + e,
            ErrorView::SendReportError(e) => "Error sending report: "@ + e,
            ErrorView::HidReadError(e) => "Error reading report: "@ + e,
            ErrorView::NoResponseReceived(e) => "No response received: "@ + e,
            ErrorView::MissingRequiredParameter(p) => "Missing required parameter: "@ + p,
            ErrorView::RemovedFeature(f) => "Feature removed: "@ + f,
            ErrorView::PartialSendError { succeeded, failed } => "Message sent to "@
                + decimal_spec(succeeded as nat) + " devices, but failed for "@ + decimal_spec(
                failed as nat,
            ) + " devices."@,
            ErrorView::ConfigError(e) => "Configuration error: "@ + e,
            ErrorView::ConfigReadError(path, e) => "Error reading config file "@ + path + ": "@
                + e,
            ErrorView::ConfigParseError(path, e) => "Error parsing config file "@ + path + ": "@
                + e,
            ErrorView::ConfigWriteError(path, e) => "Error writing config file "@ + path + ": "@
                + e,
        }
    }
}

/// Renders the four values of a device search as [`descriptor_text`] gives them.
pub fn describe_descriptor(vid: u16, pid: u16, usage_page: u16, usage: u16) -> (s: String)
    ensures
        s@ == descriptor_text(vid, pid, usage_page, usage),
{
    let mut s = String::from_str("VID: 0x");
    s.append(hex4(vid).as_str());
    s.append(", PID: 0x");
    s.append(hex4(pid).as_str());
    s.append(", Usage Page: 0x");
    s.append(hex4(usage_page).as_str());
    s.append(", Usage: 0x");
    s.append(hex4(usage).as_str());
    s
}

/// `prefix` followed by `tail`.
fn prefixed(prefix: &str, tail: &String) -> (s: String)
    ensures
        s@ == prefix@ + tail@,
{
    let mut s = String::from_str(prefix);
    s.append(tail.as_str());
    s
}

/// `prefix`, then `path`, a colon and a space, then `tail`.
fn about_file(prefix: &str, path: &String, tail: &String) -> (s: String)
    ensures
        s@ == prefix@ + path@ + ": "@ + tail@,
{
    let mut s = String::from_str(prefix);
    s.append(path.as_str());
    s.append(": ");
    s.append(tail.as_str());
    s
}

impl QmkError {
    /// The line that is shown to the user for this failure.
    pub fn message(&self) -> (s: String)
        ensures
            s@ == self@.message(),
    {
        match self {
            QmkError::HidApiInitError(e) => prefixed("Error initializing HID API: ", e),
            QmkError::DeviceNotFound(vid, pid, usage_page, usage) => {
                let d = describe_descriptor(*vid, *pid, *usage_page, *usage);
                prefixed("No device found with ", &d)
            },
            QmkError::DeviceOpenError(e) => prefixed("Error opening device: ", e),
            QmkError::InvalidHexValue(e) => prefixed("Invalid hex value: ", e),
            QmkError::InvalidDecimalValue(e) => prefixed("Invalid decimal value: ", e),
            QmkError::SendReportError(e) => prefixed("Error sending report: ", e),
            QmkError::HidReadError(e) => prefixed("Error reading report: ", e),
            QmkError::NoResponseReceived(e) => prefixed("No response received: ", e),
            QmkError::MissingRequiredParameter(p) => prefixed("Missing required parameter: ", p),
            QmkError::RemovedFeature(f) => prefixed("Feature removed: ", f),
            QmkError::PartialSendError { succeeded, failed } => {
                let mut s = String::from_str("Message sent to ");
                s.append(decimal(*succeeded).as_str());
                s.append(" devices, but failed for ");
                s.append(decimal(*failed).as_str());
                s.append(" devices.");
                s
            },
            QmkError::ConfigError(e) => prefixed("Configuration error: ", e),
            QmkError::ConfigReadError(path, e) => about_file("Error reading config file ", path, e),
            QmkError::ConfigParseError(path, e) => about_file(
                "Error parsing config file ",
                path,
                e,
            ),
            QmkError::ConfigWriteError(path, e) => about_file(
                "Error writing config file ",
                path,
                e,
            ),
        }
    }
}

/// The line that an invocation that has failed writes to standard error.
pub open spec fn error_line_spec(e: ErrorView) -> Seq<char> {
    "Error: "@ + e.message()
}

/// The line that an invocation that has failed with `e` writes to standard error.
pub fn error_line(e: &QmkError) -> (s: String)
    ensures
        s@ == error_line_spec(e@),
{
    prefixed("Error: ", &e.message())
}

/// The exit code of an invocation: 0 where it has succeeded, 1 where it has failed.
pub fn exit_code<T>(outcome: &Result<T, QmkError>) -> (code: i32)
    ensures
        outcome is Ok ==> code == 0,
        outcome is Err ==> code == 1,
{
    match outcome {
        Ok(_) => 0,
        Err(_) => 1,
    }
}

} // verus!
