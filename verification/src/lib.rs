//! Sending short text messages to the raw HID endpoint of a QMK keyboard.
//!
//! The crate holds the rules of the tool: how a number is read from a
//! command-line argument, which attached devices are addressed, how a payload
//! is cut into fixed-size reports, how the outcome over several keyboards is
//! summed up, and how the effective parameters are merged from the command
//! line and the configuration file.  Talking to the devices themselves is left
//! to the caller.

pub mod config;
pub mod device;
pub mod error;
pub mod number;
pub mod params;
pub mod report;
pub mod send;
pub mod text;

pub use config::{
    default_product_id, default_usage, default_usage_page, default_vendor_id, example_config_text,
    Config, TomlEntry, TomlValue, CONFIG_DIR_NAME, CONFIG_FILE_NAME, DEFAULT_PRODUCT_ID,
    DEFAULT_USAGE, DEFAULT_USAGE_PAGE, DEFAULT_VENDOR_ID,
};
pub use device::{find_matching, select_opened, DeviceDescriptor};
pub use error::{describe_descriptor, error_line, exit_code, ErrorView, QmkError};
pub use number::{parse_hex_or_decimal, ParseFailure};
pub use params::{resolve_parameters, CliArguments, RunCommand, RunParameters};
pub use report::{
    build_frame, build_frames, frame_count, terminated_payload, FRAME_LENGTH, FRAME_PAYLOAD,
    MARKER_FIRST, MARKER_SECOND, READ_TIMEOUT_MS, REPORT_ID, REPORT_LENGTH, TERMINATOR,
};
pub use send::{aggregate, SendEvent, SendSession, SendStep, SessionView};
pub use text::{decimal, hex4};
