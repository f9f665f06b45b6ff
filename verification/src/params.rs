//! The parameters of one invocation, and how they are settled.
//!
//! Each of the four numbers that address the devices comes from the command
//! line where it is given there, else from the configuration file, whose
//! values are the built-in defaults where the file does not give them.
//! Verbose output is on where the command line or the configuration asks for
//! it.

use vstd::prelude::*;
use vstd::string::*;
use crate::config::Config;
use crate::device::DeviceDescriptor;
use crate::error::{agrees, ErrorView, QmkError};
use crate::number::{parse_hex_or_decimal, parse_hex_or_decimal_spec};
use crate::report::{terminated_payload, terminated_spec};

verus! {

/// What an invocation is to do.
#[derive(Debug, Clone, PartialEq, Eq)]
pub enum RunCommand {
    /// Send the text to every matching device.
    SendMessage(String),
    /// Show the attached devices.
    ListDevices,
}

/// Everything that one invocation needs.
#[derive(Debug, Clone, PartialEq, Eq)]
pub struct RunParameters {
    pub command: RunCommand,
    pub vendor_id: u16,
    pub product_id: u16,
    pub usage_page: u16,
    pub usage: u16,
    pub verbose: bool,
}

impl RunParameters {
    /// Parameters of the values given.
    pub fn new(
        command: RunCommand,
        vendor_id: u16,
        product_id: u16,
        usage_page: u16,
        usage: u16,
        verbose: bool,
    ) -> (p: Self)
        ensures
            p == (RunParameters { command, vendor_id, product_id, usage_page, usage, verbose }),
    {
        RunParameters { command, vendor_id, product_id, usage_page, usage, verbose }
    }

    /// The descriptor of the devices that the invocation addresses.
    pub fn descriptor(&self) -> (d: DeviceDescriptor)
        ensures
            d == (DeviceDescriptor {
                vendor_id: self.vendor_id,
                product_id: self.product_id,
                usage_page: self.usage_page,
                usage: self.usage,
            }),
    {
        DeviceDescriptor::new(self.vendor_id, self.product_id, self.usage_page, self.usage)
    }

    /// The payload that the invocation sends: the UTF-8 bytes of the message
    /// and one terminator byte.  There is none where the devices are listed.
    pub fn payload(&self) -> (r: Option<Vec<u8>>)
        ensures
            match self.command {
                RunCommand::SendMessage(message) => r matches Some(bytes) && bytes@
                    == terminated_spec(vstd::utf8::encode_utf8(message@)),
                RunCommand::ListDevices => r is None,
            },
    {
        match &self.command {
            RunCommand::SendMessage(message) => Some(terminated_payload(message.as_str())),
            RunCommand::ListDevices => None,
        }
    }
}

/// The arguments of the command line as they were given, before any of them is read.
#[derive(Debug, PartialEq, Eq)]
pub struct CliArguments {
    /// The positional argument: the message to send.
    pub message: Option<String>,
    /// The value of `--vendor-id`.
    pub vendor_id: Option<String>,
    /// The value of `--product-id`.
    pub product_id: Option<String>,
    /// The value of `--usage-page`.
    pub usage_page: Option<String>,
    /// The value of `--usage`.
    pub usage: Option<String>,
    /// Whether `--verbose` was given.
    pub verbose: bool,
    /// Whether `--list` was given.
    pub list: bool,
    /// Whether `--create-config` was given.
    pub create_config: bool,
}

/// What is said when the removed creation of a configuration file is asked for.
pub open spec fn removed_feature_text() -> Seq<char> {
    "Config file creation has been removed. \
All parameters must be provided explicitly."@
}

/// What is said when there is neither a message nor a request to list the devices.
pub open spec fn missing_parameter_text() -> Seq<char> {
    "message or --list flag"@
}

/// One of the four numbers: the argument's value where it is given, the fallback otherwise.
pub open spec fn chosen(argument: Option<String>, fallback: u16) -> Result<u16, ErrorView> {
    match argument {
        Some(text) => parse_hex_or_decimal_spec(text@),
        None => Ok(fallback),
    }
}

/// The parameters that the arguments and the configuration give.
///
/// A request for the removed feature is refused first.  Then the four
/// numbers are settled in the order vendor id, product id, usage page, usage,
/// and the first argument that is no number is reported.  Then the command is
/// settled: listing where it is asked for, else sending the message, and a
/// refusal where there is no message either.
pub open spec fn resolve_spec(args: CliArguments, config: Config) -> Result<
    RunParameters,
    ErrorView,
> {
    if args.create_config {
        Err(ErrorView::RemovedFeature(removed_feature_text()))
    } else {
        match chosen(args.vendor_id, config.vendor_id) {
            Err(e) => Err(e),
            Ok(vendor_id) => match chosen(args.product_id, config.product_id) {
                Err(e) => Err(e),
                Ok(product_id) => match chosen(args.usage_page, config.usage_page) {
                    Err(e) => Err(e),
                    Ok(usage_page) => match chosen(args.usage, config.usage) {
                        Err(e) => Err(e),
                        Ok(usage) => {
                            let verbose = args.verbose || config.verbose;
                            if args.list {
                                Ok(
                                    RunParameters {
                                        command: RunCommand::ListDevices,
                                        vendor_id,
                                        product_id,
                                        usage_page,
                                        usage,
                                        verbose,
                                    },
                                )
                            } else {
                                match args.message {
                                    Some(message) => Ok(
                                        RunParameters {
                                            command: RunCommand::SendMessage(message),
                                            vendor_id,
                                            product_id,
                                            usage_page,
                                            usage,
                                            verbose,
                                        },
                                    ),
                                    None => Err(
                                        ErrorView::MissingRequiredParameter(
                                            missing_parameter_text(),
                                        ),
                                    ),
                                }
                            }
                        },
                    },
                },
            },
        }
    }
}

/// Settles one of the four numbers.
fn choose_value(argument: &Option<String>, fallback: u16) -> (r: Result<u16, QmkError>)
    ensures
        agrees(r, chosen(*argument, fallback)),
{
    match argument {
        Some(text) => parse_hex_or_decimal(text.as_str()),
        None => Ok(fallback),
    }
}

/// Settles the parameters of an invocation from the arguments of the command
/// line and the configuration, as [`resolve_spec`] says.
pub fn resolve_parameters(args: CliArguments, config: &Config) -> (r: Result<
    RunParameters,
    QmkError,
>)
    ensures
        agrees(r, resolve_spec(args, *config)),
{
    if args.create_config {
        return Err(
            QmkError::RemovedFeature(
                String::from_str(
                    "Config file creation has been removed. \
All parameters must be provided explicitly.",
                ),
            ),
        );
    }
    let vendor_id = match choose_value(&args.vendor_id, config.vendor_id) {
        Ok(v) => v,
        Err(e) => { return Err(e); },
    };
    let product_id = match choose_value(&args.product_id, config.product_id) {
        Ok(v) => v,
        Err(e) => { return Err(e); },
    };
    let usage_page = match choose_value(&args.usage_page, config.usage_page) {
        Ok(v) => v,
        Err(e) => { return Err(e); },
    };
    let usage = match choose_value(&args.usage, config.usage) {
        Ok(v) => v,
        Err(e) => { return Err(e); },
    };
    let verbose = args.verbose || config.verbose;
    if args.list {
        Ok(
            RunParameters::new(
                RunCommand::ListDevices,
                vendor_id,
                product_id,
                usage_page,
                usage,
                verbose,
            ),
        )
    } else {
        match args.message {
            Some(message) => Ok(
                RunParameters::new(
                    RunCommand::SendMessage(message),
                    vendor_id,
                    product_id,
                    usage_page,
                    usage,
                    verbose,
                ),
            ),
            None => Err(
                QmkError::MissingRequiredParameter(String::from_str("message or --list flag")),
            ),
        }
    }
}

} // verus!
