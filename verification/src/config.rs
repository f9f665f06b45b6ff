//! The configuration file: a TOML document with up to five optional keys.
//!
//! `vendor_id`, `product_id`, `usage_page` and `usage` are integers from 0 to
//! 65535, and `verbose` is a boolean.  A key that is missing has its built-in
//! default; other keys are ignored.

use vstd::prelude::*;
use vstd::string::*;
use crate::error::{agrees, ErrorView, QmkError};
use crate::text::{hex4, hex4_spec};

verus! {

/// The vendor id that is used where none is given.
pub const DEFAULT_VENDOR_ID: u16 = 0xFEED;

/// The product id that is used where none is given.
pub const DEFAULT_PRODUCT_ID: u16 = 0x0000;

/// The usage page that is used where none is given.
pub const DEFAULT_USAGE_PAGE: u16 = 0xFF60;

/// The usage that is used where none is given.
pub const DEFAULT_USAGE: u16 = 0x61;

/// Name of the directory, below the platform's configuration directory, that holds the file.
pub const CONFIG_DIR_NAME: &'static str = "qmk-notifier";

/// Name of the configuration file.
pub const CONFIG_FILE_NAME: &'static str = "config.toml";

/// The values that the configuration file gives.
#[derive(Clone, Copy, Debug, PartialEq, Eq, Structural)]
pub struct Config {
    pub vendor_id: u16,
    pub product_id: u16,
    pub usage_page: u16,
    pub usage: u16,
    pub verbose: bool,
}

/// The configuration of a file without keys.
pub open spec fn default_config() -> Config {
    Config {
        vendor_id: 0xFEED,
        product_id: 0x0000,
        usage_page: 0xFF60,
        usage: 0x61,
        verbose: false,
    }
}

/// The vendor id of a file without that key.
pub fn default_vendor_id() -> (v: u16)
    ensures
        v == 0xFEED,
{
    DEFAULT_VENDOR_ID
}

/// The product id of a file without that key.
pub fn default_product_id() -> (v: u16)
    ensures
        v == 0x0000,
{
    DEFAULT_PRODUCT_ID
}

/// The usage page of a file without that key.
pub fn default_usage_page() -> (v: u16)
    ensures
        v == 0xFF60,
{
    DEFAULT_USAGE_PAGE
}

/// The usage of a file without that key.
pub fn default_usage() -> (v: u16)
    ensures
        v == 0x61,
{
    DEFAULT_USAGE
}

impl Default for Config {
    fn default() -> (c: Self)
        ensures
            c == default_config(),
    {
        Config {
            vendor_id: default_vendor_id(),
            product_id: default_product_id(),
            usage_page: default_usage_page(),
            usage: default_usage(),
            verbose: false,
        }
    }
}

/// What a key of a TOML document holds: its kind, and its value where the
/// value is an integer or a boolean.
#[derive(Clone, Copy, Debug, PartialEq, Eq, Structural)]
pub enum TomlValue {
    /// A string.
    Text,
    /// An integer, with its value.
    Integer(i64),
    /// A floating-point number.
    Float,
    /// A boolean, with its value.
    Boolean(bool),
    /// A date, a time, or both.
    Datetime,
    /// An array.
    Array,
    /// A table.
    Table,
}

/// One key of a TOML document's top level, with what it holds.
#[derive(Debug, PartialEq, Eq)]
pub struct TomlEntry {
    pub key: String,
    pub value: TomlValue,
}

/// The entries as pairs of a key's characters and what it holds.
pub open spec fn entries_view(entries: Seq<TomlEntry>) -> Seq<(Seq<char>, TomlValue)> {
    entries.map_values(|e: TomlEntry| (e.key@, e.value))
}

/// A parser's result with its texts as sequences of characters.
pub open spec fn parsed_view(parsed: Result<Vec<TomlEntry>, String>) -> Result<
    Seq<(Seq<char>, TomlValue)>,
    Seq<char>,
> {
    match parsed {
        Ok(entries) => Ok(entries_view(entries@)),
        Err(fault) => Err(fault@),
    }
}

/// What the TOML parser makes of a text: the top-level keys of the document
/// with what they hold, or, for a text that is no TOML document, the parser's
/// description of the fault.
pub uninterp spec fn toml_document(content: Seq<char>) -> Result<
    Seq<(Seq<char>, TomlValue)>,
    Seq<char>,
>;

/// Parses a text as a TOML document.
///
/// The call is `str::parse::<toml::Table>`, which is `toml`'s `FromStr` for
/// `toml::Table`.  A table that comes back is handed out entry by entry, in
/// the order in which the table iterates, each value by its variant; an error
/// is handed out as the text that its `Display` gives.
///
/// This contract is believed, not proved.  It claims one thing: the result is
/// [`toml_document`] of the text, so that the same text always gives the same
/// entries or the same fault.  Which texts are documents, and what their keys
/// hold, is left to the parser.
#[verifier::external_body]
fn parse_toml(content: &str) -> (r: Result<Vec<TomlEntry>, String>)
    ensures
        parsed_view(r) == toml_document(content@),
{
    let table = content.parse::<toml::Table>().map_err(|e| e.to_string())?;
    Ok(table.into_iter().map(|(key, value)| TomlEntry { key, value: match value {
        toml::Value::String(_) => TomlValue::Text,
        toml::Value::Integer(i) => TomlValue::Integer(i),
        toml::Value::Float(_) => TomlValue::Float,
        toml::Value::Boolean(b) => TomlValue::Boolean(b),
        toml::Value::Datetime(_) => TomlValue::Datetime,
        toml::Value::Array(_) => TomlValue::Array,
        toml::Value::Table(_) => TomlValue::Table,
    } }).collect())
}

/// What the first entry with the key `key` holds, if there is one.
pub open spec fn lookup(entries: Seq<(Seq<char>, TomlValue)>, key: Seq<char>) -> Option<TomlValue>
    decreases entries.len(),
{
    if entries.len() == 0 {
        None
    } else if entries[0].0 == key {
        Some(entries[0].1)
    } else {
        lookup(entries.drop_first(), key)
    }
}

/// What is said of a key that should hold a 16-bit number and does not.
pub open spec fn number_fault(key: Seq<char>) -> Seq<char> {
    "invalid value for `"@ + key + "`: expected an integer from 0 to 65535"@
}

/// What is said of a key that should hold a boolean and does not.
pub open spec fn boolean_fault(key: Seq<char>) -> Seq<char> {
    "invalid value for `"@ + key + "`: expected a boolean"@
}

/// The 16-bit number under `key`: the default where the key is missing, the
/// integer where it holds one from 0 to 65535, and a fault otherwise.
pub open spec fn number_field(
    entries: Seq<(Seq<char>, TomlValue)>,
    key: Seq<char>,
    default: u16,
) -> Result<u16, Seq<char>> {
    match lookup(entries, key) {
        None => Ok(default),
        Some(TomlValue::Integer(i)) => if 0 <= i <= 65535 {
            Ok(i as u16)
        } else {
            Err(number_fault(key))
        },
        Some(_) => Err(number_fault(key)),
    }
}

/// The boolean under `key`: the default where the key is missing, the boolean
/// where it holds one, and a fault otherwise.
pub open spec fn boolean_field(
    entries: Seq<(Seq<char>, TomlValue)>,
    key: Seq<char>,
    default: bool,
) -> Result<bool, Seq<char>> {
    match lookup(entries, key) {
        None => Ok(default),
        Some(TomlValue::Boolean(b)) => Ok(b),
        Some(_) => Err(boolean_fault(key)),
    }
}

/// The configuration that the keys of a document give, or the fault of the
/// first of `vendor_id`, `product_id`, `usage_page`, `usage` and `verbose`, in
/// this order, that does not hold what it should.
pub open spec fn config_of_entries(entries: Seq<(Seq<char>, TomlValue)>) -> Result<
    Config,
    Seq<char>,
> {
    match number_field(entries, "vendor_id"@, 0xFEED) {
        Err(fault) => Err(fault),
        Ok(vendor_id) => match number_field(entries, "product_id"@, 0x0000) {
            Err(fault) => Err(fault),
            Ok(product_id) => match number_field(entries, "usage_page"@, 0xFF60) {
                Err(fault) => Err(fault),
                Ok(usage_page) => match number_field(entries, "usage"@, 0x61) {
                    Err(fault) => Err(fault),
                    Ok(usage) => match boolean_field(entries, "verbose"@, false) {
                        Err(fault) => Err(fault),
                        Ok(verbose) => Ok(
                            Config { vendor_id, product_id, usage_page, usage, verbose },
                        ),
                    },
                },
            },
        },
    }
}

/// The configuration that a parsed text gives for the file at `path`: a text
/// that is no TOML document, and a document with a key that does not hold
/// what it should, are refused with `ConfigParseError`, the path and the
/// fault.
pub open spec fn config_of_document(
    path: Seq<char>,
    document: Result<Seq<(Seq<char>, TomlValue)>, Seq<char>>,
) -> Result<Config, ErrorView> {
    match document {
        Err(fault) => Err(ErrorView::ConfigParseError(path, fault)),
        Ok(entries) => match config_of_entries(entries) {
            Err(fault) => Err(ErrorView::ConfigParseError(path, fault)),
            Ok(config) => Ok(config),
        },
    }
}

/// Looks up what the first entry with the key `key` holds.
fn find_entry(entries: &Vec<TomlEntry>, key: &str) -> (r: Option<TomlValue>)
    ensures
        r == lookup(entries_view(entries@), key@),
{
    let wanted = String::from_str(key);
    let ghost all = entries_view(entries@);
    assert(all.skip(0) =~= all);
    let mut i: usize = 0;
    while i < entries.len()
        invariant
            i <= entries@.len(),
            all == entries_view(entries@),
            wanted@ == key@,
            lookup(all, key@) == lookup(all.skip(i as int), key@),
        decreases entries.len() - i,
    {
        assert(all.skip(i as int)[0] == (entries@[i as int].key@, entries@[i as int].value));
        if entries[i].key == wanted {
            return Some(entries[i].value);
        }
        assert(all.skip(i as int).drop_first() =~= all.skip(i + 1));
        i = i + 1;
    }
    None
}

/// The fault of a key from the two parts of its text around the key.
fn fault_text(key: &str, expectation: &str) -> (s: String)
    ensures
        s@ == "invalid value for `"@ + key@ + expectation@,
{
    let mut s = String::from_str("invalid value for `");
    s.append(key);
    s.append(expectation);
    s
}

/// Reads the 16-bit number under `key`.
fn read_number(entries: &Vec<TomlEntry>, key: &str, default: u16) -> (r: Result<u16, String>)
    ensures
        match r {
            Ok(v) => number_field(entries_view(entries@), key@, default) == Ok::<u16, Seq<char>>(v),
            Err(fault) => number_field(entries_view(entries@), key@, default) == Err::<
                u16,
                Seq<char>,
            >(fault@),
        },
{
    match find_entry(entries, key) {
        None => Ok(default),
        Some(TomlValue::Integer(i)) => if 0 <= i && i <= 65535 {
            Ok(i as u16)
        } else {
            Err(fault_text(key, "`: expected an integer from 0 to 65535"))
        },
        Some(_) => Err(fault_text(key, "`: expected an integer from 0 to 65535")),
    }
}

/// Reads the boolean under `key`.
fn read_boolean(entries: &Vec<TomlEntry>, key: &str, default: bool) -> (r: Result<bool, String>)
    ensures
        match r {
            Ok(b) => boolean_field(entries_view(entries@), key@, default) == Ok::<bool, Seq<char>>(
                b,
            ),
            Err(fault) => boolean_field(entries_view(entries@), key@, default) == Err::<
                bool,
                Seq<char>,
            >(fault@),
        },
{
    match find_entry(entries, key) {
        None => Ok(default),
        Some(TomlValue::Boolean(b)) => Ok(b),
        Some(_) => Err(fault_text(key, "`: expected a boolean")),
    }
}

impl Config {
    /// Reads the configuration from the top-level keys of a document.
    ///
    /// A key that is missing has its default, a key that is none of the five
    /// is ignored, and the first of the five keys, in the order `vendor_id`,
    /// `product_id`, `usage_page`, `usage`, `verbose`, that does not hold what
    /// it should is reported with its fault.
    pub fn from_entries(entries: &Vec<TomlEntry>) -> (r: Result<Config, String>)
        ensures
            match r {
                Ok(config) => config_of_entries(entries_view(entries@)) == Ok::<Config, Seq<char>>(
                    config,
                ),
                Err(fault) => config_of_entries(entries_view(entries@)) == Err::<
                    Config,
                    Seq<char>,
                >(fault@),
            },
    {
        let vendor_id = match read_number(entries, "vendor_id", DEFAULT_VENDOR_ID) {
            Ok(v) => v,
            Err(fault) => { return Err(fault); },
        };
        let product_id = match read_number(entries, "product_id", DEFAULT_PRODUCT_ID) {
            Ok(v) => v,
            Err(fault) => { return Err(fault); },
        };
        let usage_page = match read_number(entries, "usage_page", DEFAULT_USAGE_PAGE) {
            Ok(v) => v,
            Err(fault) => { return Err(fault); },
        };
        let usage = match read_number(entries, "usage", DEFAULT_USAGE) {
            Ok(v) => v,
            Err(fault) => { return Err(fault); },
        };
        let verbose = match read_boolean(entries, "verbose", false) {
            Ok(b) => b,
            Err(fault) => { return Err(fault); },
        };
        Ok(Config { vendor_id, product_id, usage_page, usage, verbose })
    }

    /// Reads the configuration of the file at `path` from what the parser
    /// made of its text.
    ///
    /// The parser's fault, and the fault of a key that does not hold what it
    /// should, come back as `ConfigParseError` with the path.
    pub fn from_parsed(path: &str, parsed: Result<Vec<TomlEntry>, String>) -> (r: Result<
        Config,
        QmkError,
    >)
        ensures
            agrees(r, config_of_document(path@, parsed_view(parsed))),
    {
        let fault = match parsed {
            Err(fault) => fault,
            Ok(entries) => match Config::from_entries(&entries) {
                Ok(config) => { return Ok(config); },
                Err(fault) => fault,
            },
        };
        Err(QmkError::ConfigParseError(String::from_str(path), fault))
    }

    /// Reads the configuration of the file at `path` from its text.
    ///
    /// The text is parsed as a TOML document, and the configuration is read
    /// from the document as [`Config::from_parsed`] does.
    pub fn from_toml(path: &str, content: &str) -> (r: Result<Config, QmkError>)
        ensures
            agrees(r, config_of_document(path@, toml_document(content@))),
    {
        Config::from_parsed(path, parse_toml(content))
    }
}

/// The configuration that is used after an attempt to load the file, and the
/// warning that goes with it: the file's configuration where it was read, the
/// defaults where there is no file, and the defaults with a warning where the
/// file could not be read.
pub open spec fn settled_spec(loaded: Option<Result<Config, QmkError>>) -> (
    Config,
    Option<Seq<char>>,
) {
    match loaded {
        None => (default_config(), None),
        Some(Ok(config)) => (config, None),
        Some(Err(e)) => (
            default_config(),
            Some("Warning: Failed to load config file: "@ + e@.message()),
        ),
    }
}

/// The example configuration: every key with its default, each under a line of comment.
pub open spec fn example_config_spec() -> Seq<char> {
    "# QMK Notifier Configuration\n\n# USB Vendor ID (default: 0x"@ + hex4_spec(0xFEED)
        + ")\nvendor_id = 0x"@ + hex4_spec(0xFEED) + "\n\n# USB Product ID (default: 0x"@
        + hex4_spec(0x0000) + ")\nproduct_id = 0x"@ + hex4_spec(0x0000)
        + "\n\n# HID Usage Page (default: 0x"@ + hex4_spec(0xFF60) + ")\nusage_page = 0x"@
        + hex4_spec(0xFF60) + "\n\n# HID Usage (default: 0x"@ + hex4_spec(0x61) + ")\nusage = 0x"@
        + hex4_spec(0x61) + "\n\n# Enable verbose output (default: false)\nverbose = false\n"@
}

impl Config {
    /// Settles the configuration after an attempt to load the file.
    ///
    /// `loaded` is `None` where there is no file, and else what reading it
    /// gave.  A file that could not be read never ends the program: the
    /// defaults are used, and the second component is the warning to show.
    pub fn settle(loaded: Option<Result<Config, QmkError>>) -> (out: (Config, Option<String>))
        ensures
            out.0 == settled_spec(loaded).0,
            match out.1 {
                None => settled_spec(loaded).1 is None,
                Some(warning) => settled_spec(loaded).1 == Some(warning@),
            },
    {
        match loaded {
            None => (Config::default(), None),
            Some(Ok(config)) => (config, None),
            Some(Err(e)) => {
                let mut warning = String::from_str("Warning: Failed to load config file: ");
                warning.append(e.message().as_str());
                (Config::default(), Some(warning))
            },
        }
    }
}

/// The text of an example configuration file.
pub fn example_config_text() -> (s: String)
    ensures
        s@ == example_config_spec(),
{
    let vendor_id = hex4(DEFAULT_VENDOR_ID);
    let product_id = hex4(DEFAULT_PRODUCT_ID);
    let usage_page = hex4(DEFAULT_USAGE_PAGE);
    let usage = hex4(DEFAULT_USAGE);
    let mut s = String::from_str("# QMK Notifier Configuration\n\n# USB Vendor ID (default: 0x");
    s.append(vendor_id.as_str());
    s.append(")\nvendor_id = 0x");
    s.append(vendor_id.as_str());
    s.append("\n\n# USB Product ID (default: 0x");
    s.append(product_id.as_str());
    s.append(")\nproduct_id = 0x");
    s.append(product_id.as_str());
    s.append("\n\n# HID Usage Page (default: 0x");
    s.append(usage_page.as_str());
    s.append(")\nusage_page = 0x");
    s.append(usage_page.as_str());
    s.append("\n\n# HID Usage (default: 0x");
    s.append(usage.as_str());
    s.append(")\nusage = 0x");
    s.append(usage.as_str());
    s.append("\n\n# Enable verbose output (default: false)\nverbose = false\n");
    s
}

} // verus!
