//! The values the API speaks of: credentials, devices and heating modes.

use crate::error::{outcome, Failure, HeatzyError};
use crate::json::{debug_text, json_debug, json_integer, json_string, json_text, quote};
use crate::text::{
    ascii_lower, decimal, decimal_text, folded, is_lower_ascii, lemma_lower_ascii_is_folded,
    same_text, to_lowercase,
};
use vstd::prelude::*;
use vstd::utf8::is_ascii_chars;

verus! {

/// The credentials of an account, as the login endpoint takes them.
#[derive(Debug)]
pub struct LoginCredentials {
    pub username: String,
    pub password: String,
}

impl LoginCredentials {
    /// The JSON object whose `username` and `password` members are the given
    /// JSON string literals.
    pub open spec fn framed(username: Seq<char>, password: Seq<char>) -> Seq<char> {
        "{\"username\":"@ + username + ",\"password\":"@ + password + "}"@
    }

    /// The JSON object that carries the credentials `username` and
    /// `password`.
    pub open spec fn json(username: Seq<char>, password: Seq<char>) -> Seq<char> {
        Self::framed(json_string(username), json_string(password))
    }

    /// Frames two JSON string literals, quotes and escapes included, as the
    /// object that a login request carries.
    pub fn frame(username: &str, password: &str) -> (r: String)
        ensures
            r@ == Self::framed(username@, password@),
    {
        String::from_str("{\"username\":").concat(username).concat(",\"password\":").concat(
            password,
        ).concat("}")
    }

    /// Writes the credentials as the body of a login request.
    pub fn to_json(&self) -> (r: String)
        ensures
            r@ == Self::json(self.username@, self.password@),
    {
        let username = quote(self.username.as_str());
        let password = quote(self.password.as_str());
        Self::frame(username.as_str(), password.as_str())
    }
}

/// What a successful login answers.
#[derive(Debug)]
pub struct AuthResponse {
    pub token: String,
    pub uid: String,
    pub expire_at: i64,
}

/// A heater registered to the account.
#[derive(Debug)]
pub struct Device {
    pub did: String,
    /// The name the user gave the device. A look-up by identifier does not
    /// return it.
    pub dev_alias: Option<String>,
    pub product_name: String,
    pub mac: String,
    pub is_online: bool,
}

impl Clone for Device {
    fn clone(&self) -> (r: Device)
        ensures
            r == *self,
    {
        Device {
            did: self.did.clone(),
            dev_alias: match &self.dev_alias {
                Some(alias) => Some(alias.clone()),
                None => None,
            },
            product_name: self.product_name.clone(),
            mac: self.mac.clone(),
            is_online: self.is_online,
        }
    }
}

impl Device {
    /// Whether the user named this device `name`, character for character.
    pub open spec fn is_named(self, name: Seq<char>) -> bool {
        self.dev_alias matches Some(alias) && alias@ == name
    }

    /// Whether the user named this device `name`, character for character.
    pub fn has_name(&self, name: &str) -> (r: bool)
        ensures
            r == self.is_named(name@),
    {
        match &self.dev_alias {
            Some(alias) => same_text(alias.as_str(), name),
            None => false,
        }
    }
}

/// The command that sets the mode of a device.
#[derive(Debug)]
pub struct ControlRequest {
    pub attrs: ControlAttributes,
}

/// The attributes a [`ControlRequest`] sets.
#[derive(Debug)]
pub struct ControlAttributes {
    pub mode: i32,
}

impl ControlRequest {
    /// The JSON object that sets the mode attribute to `mode`.
    pub open spec fn json(mode: int) -> Seq<char> {
        "{\"attrs\":{\"mode\":"@ + decimal(mode) + "}}"@
    }

    /// The command that switches a device to `mode`.
    pub fn new(mode: DeviceMode) -> (r: ControlRequest)
        ensures
            r.attrs.mode == mode.code(),
    {
        ControlRequest { attrs: ControlAttributes { mode: mode.to_int() } }
    }

    /// Writes the command as the body of a control request.
    pub fn to_json(&self) -> (r: String)
        ensures
            r@ == Self::json(self.attrs.mode as int),
    {
        let mode = decimal_text(self.attrs.mode as i64);
        String::from_str("{\"attrs\":{\"mode\":").concat(mode.as_str()).concat("}}")
    }
}

/// The mode attribute as a device reports it: the API sends either the number
/// or the short name of the mode.
#[derive(Debug)]
pub enum ModeValue {
    /// A JSON integer.
    Integer(i64),
    /// A JSON string.
    Text(String),
    /// Any other JSON value; the text describes it for an error message.
    Other(String),
}

impl ModeValue {
    /// Sorts a JSON value by its kind: an integer that fits 64 bits, a string,
    /// or anything else.
    pub fn of(value: &serde_json::Value) -> (r: ModeValue)
        ensures
            match json_integer(*value) {
                Some(number) => r == ModeValue::Integer(number),
                None => match json_text(*value) {
                    Some(text) => r matches ModeValue::Text(kept) && kept@ == text,
                    None => r matches ModeValue::Other(description) && description@
                        == json_debug(*value),
                },
            },
    {
        Self::from_parts(value.as_i64(), value.as_str(), debug_text(value))
    }

    /// Sorts a JSON value by what it says of itself: `number` is the integer
    /// it holds, if it holds one that fits 64 bits; `text` is the string it
    /// holds, if it holds one; `description` describes it. An integer comes
    /// before a string, and a value that is neither keeps its description.
    pub fn from_parts(number: Option<i64>, text: Option<&str>, description: String) -> (r:
        ModeValue)
        ensures
            match number {
                Some(integer) => r == ModeValue::Integer(integer),
                None => match text {
                    Some(string) => r matches ModeValue::Text(kept) && kept@ == string@,
                    None => r == ModeValue::Other(description),
                },
            },
    {
        match number {
            Some(integer) => ModeValue::Integer(integer),
            None => match text {
                Some(string) => ModeValue::Text(String::from_str(string)),
                None => ModeValue::Other(description),
            },
        }
    }
}

/// A heating mode of a device.
#[derive(Debug, Clone, Copy, PartialEq, Eq, Structural)]
pub enum DeviceMode {
    Comfort,
    Eco,
    FrostProtection,
    Stop,
    ComfortMinus1,
    ComfortMinus2,
}

impl DeviceMode {
    /// The number the API uses for this mode.
    pub open spec fn code(self) -> int {
        match self {
            DeviceMode::Comfort => 0,
            DeviceMode::Eco => 1,
            DeviceMode::FrostProtection => 2,
            DeviceMode::Stop => 3,
            DeviceMode::ComfortMinus1 => 4,
            DeviceMode::ComfortMinus2 => 5,
        }
    }

    /// The short name the API uses for this mode.
    pub open spec fn api_name(self) -> Seq<char> {
        match self {
            DeviceMode::Comfort => "cft"@,
            DeviceMode::Eco => "eco"@,
            DeviceMode::FrostProtection => "fro"@,
            DeviceMode::Stop => "stop"@,
            DeviceMode::ComfortMinus1 => "cft1"@,
            DeviceMode::ComfortMinus2 => "cft2"@,
        }
    }

    /// The name this mode goes by on a command line.
    pub open spec fn cli_name(self) -> Seq<char> {
        match self {
            DeviceMode::Comfort => "comfort"@,
            DeviceMode::Eco => "eco"@,
            DeviceMode::FrostProtection => "frost-protection"@,
            DeviceMode::Stop => "stop"@,
            DeviceMode::ComfortMinus1 => "comfort-1"@,
            DeviceMode::ComfortMinus2 => "comfort-2"@,
        }
    }

    /// The second command-line name of the modes that have one.
    pub open spec fn cli_alias(self) -> Option<Seq<char>> {
        match self {
            DeviceMode::FrostProtection => Some("frost"@),
            DeviceMode::ComfortMinus1 => Some("comfort-minus-1"@),
            DeviceMode::ComfortMinus2 => Some("comfort-minus-2"@),
            _ => None,
        }
    }

    /// The API names of the modes, each at the place of its number.
    pub open spec fn api_names() -> Seq<Seq<char>> {
        seq!["cft"@, "eco"@, "fro"@, "stop"@, "cft1"@, "cft2"@]
    }

    /// The command-line names of the modes, each at the place of its number.
    pub open spec fn cli_names() -> Seq<Seq<char>> {
        seq!["comfort"@, "eco"@, "frost-protection"@, "stop"@, "comfort-1"@, "comfort-2"@]
    }

    /// The second command-line names, which three of the modes have.
    pub open spec fn cli_aliases() -> Seq<Seq<char>> {
        seq!["frost"@, "comfort-minus-1"@, "comfort-minus-2"@]
    }

    /// The mode with the given number, if there is one.
    pub open spec fn with_code(code: int) -> Option<DeviceMode> {
        if code == 0 {
            Some(DeviceMode::Comfort)
        } else if code == 1 {
            Some(DeviceMode::Eco)
        } else if code == 2 {
            Some(DeviceMode::FrostProtection)
        } else if code == 3 {
            Some(DeviceMode::Stop)
        } else if code == 4 {
            Some(DeviceMode::ComfortMinus1)
        } else if code == 5 {
            Some(DeviceMode::ComfortMinus2)
        } else {
            None
        }
    }

    /// The mode with the given API name, if there is one.
    pub open spec fn with_api_name(name: Seq<char>) -> Option<DeviceMode> {
        if name == "cft"@ {
            Some(DeviceMode::Comfort)
        } else if name == "eco"@ {
            Some(DeviceMode::Eco)
        } else if name == "fro"@ {
            Some(DeviceMode::FrostProtection)
        } else if name == "stop"@ {
            Some(DeviceMode::Stop)
        } else if name == "cft1"@ {
            Some(DeviceMode::ComfortMinus1)
        } else if name == "cft2"@ {
            Some(DeviceMode::ComfortMinus2)
        } else {
            None
        }
    }

    /// The mode that a lower-case command-line name stands for, if any.
    pub open spec fn with_cli_name(name: Seq<char>) -> Option<DeviceMode> {
        if name == "comfort"@ {
            Some(DeviceMode::Comfort)
        } else if name == "eco"@ {
            Some(DeviceMode::Eco)
        } else if name == "frost-protection"@ || name == "frost"@ {
            Some(DeviceMode::FrostProtection)
        } else if name == "stop"@ {
            Some(DeviceMode::Stop)
        } else if name == "comfort-1"@ || name == "comfort-minus-1"@ {
            Some(DeviceMode::ComfortMinus1)
        } else if name == "comfort-2"@ || name == "comfort-minus-2"@ {
            Some(DeviceMode::ComfortMinus2)
        } else {
            None
        }
    }

    /// What decoding the number `value` gives.
    pub open spec fn decode_int(value: int) -> Result<DeviceMode, Failure> {
        match Self::with_code(value) {
            Some(mode) => Ok(mode),
            None => Err(Failure::InvalidMode("Invalid mode number: "@ + decimal(value))),
        }
    }

    /// What decoding the API name `value` gives.
    pub open spec fn decode_api(value: Seq<char>) -> Result<DeviceMode, Failure> {
        match Self::with_api_name(value) {
            Some(mode) => Ok(mode),
            None => Err(Failure::InvalidMode("Invalid mode string: "@ + value)),
        }
    }

    /// What decoding the command-line name `value` gives: the case of its
    /// letters does not matter.
    pub open spec fn decode_cli(value: Seq<char>) -> Result<DeviceMode, Failure> {
        match Self::with_cli_name(folded(value)) {
            Some(mode) => Ok(mode),
            None => Err(
                Failure::InvalidMode(
                    "Invalid mode: "@ + value
                        + ". Valid modes are: comfort, eco, frost-protection, stop, comfort-1, comfort-2"@,
                ),
            ),
        }
    }

    /// What decoding a reported mode attribute gives: a number is decoded as
    /// a mode number, a text as an API name, and anything else is no mode.
    pub open spec fn decode_value(value: ModeValue) -> Result<DeviceMode, Failure> {
        match value {
            ModeValue::Integer(number) => Self::decode_int(number as int),
            ModeValue::Text(name) => Self::decode_api(name@),
            ModeValue::Other(description) => Err(
                Failure::InvalidMode("Invalid mode value: "@ + description@),
            ),
        }
    }

    /// What decoding the JSON value that carries a mode attribute gives: an
    /// integer is decoded as a mode number, a string as an API name, and any
    /// other value is no mode.
    pub open spec fn decode_json(value: serde_json::Value) -> Result<DeviceMode, Failure> {
        match json_integer(value) {
            Some(number) => Self::decode_int(number as int),
            None => match json_text(value) {
                Some(name) => Self::decode_api(name),
                None => Err(Failure::InvalidMode("Invalid mode value: "@ + json_debug(value))),
            },
        }
    }

    /// Decodes the number the API uses for a mode.
    pub fn from_int(value: i32) -> (r: Result<DeviceMode, HeatzyError>)
        ensures
            outcome(r) == Self::decode_int(value as int),
    {
        match value {
            0 => Ok(DeviceMode::Comfort),
            1 => Ok(DeviceMode::Eco),
            2 => Ok(DeviceMode::FrostProtection),
            3 => Ok(DeviceMode::Stop),
            4 => Ok(DeviceMode::ComfortMinus1),
            5 => Ok(DeviceMode::ComfortMinus2),
            _ => {
                let number = decimal_text(value as i64);
                Err(
                    HeatzyError::InvalidMode(
                        String::from_str("Invalid mode number: ").concat(number.as_str()),
                    ),
                )
            },
        }
    }

    /// Decodes the short name the API uses for a mode.
    pub fn from_str_api(value: &str) -> (r: Result<DeviceMode, HeatzyError>)
        ensures
            outcome(r) == Self::decode_api(value@),
    {
        if same_text(value, "cft") {
            Ok(DeviceMode::Comfort)
        } else if same_text(value, "eco") {
            Ok(DeviceMode::Eco)
        } else if same_text(value, "fro") {
            Ok(DeviceMode::FrostProtection)
        } else if same_text(value, "stop") {
            Ok(DeviceMode::Stop)
        } else if same_text(value, "cft1") {
            Ok(DeviceMode::ComfortMinus1)
        } else if same_text(value, "cft2") {
            Ok(DeviceMode::ComfortMinus2)
        } else {
            Err(
                HeatzyError::InvalidMode(
                    String::from_str("Invalid mode string: ").concat(value),
                ),
            )
        }
    }

    /// The mode that a command-line name or alias stands for, if any. The
    /// name is taken as it is: capital letters match nothing.
    pub fn lookup_cli_name(name: &str) -> (r: Option<DeviceMode>)
        ensures
            r == Self::with_cli_name(name@),
    {
        if same_text(name, "comfort") {
            Some(DeviceMode::Comfort)
        } else if same_text(name, "eco") {
            Some(DeviceMode::Eco)
        } else if same_text(name, "frost-protection") || same_text(name, "frost") {
            Some(DeviceMode::FrostProtection)
        } else if same_text(name, "stop") {
            Some(DeviceMode::Stop)
        } else if same_text(name, "comfort-1") || same_text(name, "comfort-minus-1") {
            Some(DeviceMode::ComfortMinus1)
        } else if same_text(name, "comfort-2") || same_text(name, "comfort-minus-2") {
            Some(DeviceMode::ComfortMinus2)
        } else {
            None
        }
    }

    /// Decodes a mode name typed on a command line, whatever the case of its
    /// letters.
    pub fn from_cli_str(value: &str) -> (r: Result<DeviceMode, HeatzyError>)
        ensures
            outcome(r) == Self::decode_cli(value@),
    {
        let lowered = to_lowercase(value);
        match Self::lookup_cli_name(lowered.as_str()) {
            Some(mode) => Ok(mode),
            None => {
                let detail = String::from_str("Invalid mode: ").concat(value).concat(
                    ". Valid modes are: comfort, eco, frost-protection, stop, comfort-1, comfort-2",
                );
                Err(HeatzyError::InvalidMode(detail))
            },
        }
    }

    /// Decodes the mode attribute of a device.
    pub fn from_value(value: &ModeValue) -> (r: Result<DeviceMode, HeatzyError>)
        ensures
            outcome(r) == Self::decode_value(*value),
    {
        match value {
            ModeValue::Integer(number) => {
                if 0 <= *number && *number <= 5 {
                    Self::from_int(*number as i32)
                } else {
                    let text = decimal_text(*number);
                    Err(
                        HeatzyError::InvalidMode(
                            String::from_str("Invalid mode number: ").concat(text.as_str()),
                        ),
                    )
                }
            },
            ModeValue::Text(name) => Self::from_str_api(name.as_str()),
            ModeValue::Other(description) => Err(
                HeatzyError::InvalidMode(
                    String::from_str("Invalid mode value: ").concat(description.as_str()),
                ),
            ),
        }
    }

    /// Decodes the mode attribute of a device from the JSON value that carries
    /// it: an integer as a mode number, a string as an API name; any other
    /// value is no mode.
    pub fn from_json(value: &serde_json::Value) -> (r: Result<DeviceMode, HeatzyError>)
        ensures
            outcome(r) == Self::decode_json(*value),
    {
        let sorted = ModeValue::of(value);
        Self::from_value(&sorted)
    }

    /// The number the API uses for this mode.
    pub fn to_int(&self) -> (r: i32)
        ensures
            r == self.code(),
    {
        match self {
            DeviceMode::Comfort => 0,
            DeviceMode::Eco => 1,
            DeviceMode::FrostProtection => 2,
            DeviceMode::Stop => 3,
            DeviceMode::ComfortMinus1 => 4,
            DeviceMode::ComfortMinus2 => 5,
        }
    }

    /// The short name the API uses for this mode.
    pub fn to_str_api(&self) -> (r: &'static str)
        ensures
            r@ == self.api_name(),
    {
        match self {
            DeviceMode::Comfort => "cft",
            DeviceMode::Eco => "eco",
            DeviceMode::FrostProtection => "fro",
            DeviceMode::Stop => "stop",
            DeviceMode::ComfortMinus1 => "cft1",
            DeviceMode::ComfortMinus2 => "cft2",
        }
    }

    /// The name this mode goes by on a command line.
    pub fn to_cli_str(&self) -> (r: &'static str)
        ensures
            r@ == self.cli_name(),
    {
        match self {
            DeviceMode::Comfort => "comfort",
            DeviceMode::Eco => "eco",
            DeviceMode::FrostProtection => "frost-protection",
            DeviceMode::Stop => "stop",
            DeviceMode::ComfortMinus1 => "comfort-1",
            DeviceMode::ComfortMinus2 => "comfort-2",
        }
    }

    /// The mode as shown to a user: its command-line name.
    pub fn to_string(&self) -> (r: String)
        ensures
            r@ == self.cli_name(),
    {
        String::from_str(self.to_cli_str())
    }
}

/// The lengths and the characters that tell the mode names apart; and that
/// every command-line name is ASCII text in lower case.
proof fn reveal_mode_names()
    ensures
        "cft"@.len() == 3 && "cft"@[0] == 'c',
        "eco"@.len() == 3 && "eco"@[0] == 'e',
        "fro"@.len() == 3 && "fro"@[0] == 'f' && "fro"@[1] == 'r',
        "stop"@.len() == 4 && "stop"@[0] == 's',
        "cft1"@.len() == 4 && "cft1"@[0] == 'c' && "cft1"@[3] == '1',
        "cft2"@.len() == 4 && "cft2"@[0] == 'c' && "cft2"@[3] == '2',
        "comfort"@.len() == 7,
        "frost"@.len() == 5,
        "frost-protection"@.len() == 16,
        "comfort-1"@.len() == 9 && "comfort-1"@[8] == '1',
        "comfort-2"@.len() == 9 && "comfort-2"@[8] == '2',
        "comfort-minus-1"@.len() == 15 && "comfort-minus-1"@[14] == '1',
        "comfort-minus-2"@.len() == 15 && "comfort-minus-2"@[14] == '2',
        is_lower_ascii("comfort"@),
        is_lower_ascii("eco"@),
        is_lower_ascii("stop"@),
        is_lower_ascii("frost"@),
        is_lower_ascii("frost-protection"@),
        is_lower_ascii("comfort-1"@),
        is_lower_ascii("comfort-2"@),
        is_lower_ascii("comfort-minus-1"@),
        is_lower_ascii("comfort-minus-2"@),
{
    reveal_strlit("cft");
    reveal_strlit("eco");
    reveal_strlit("fro");
    reveal_strlit("stop");
    reveal_strlit("cft1");
    reveal_strlit("cft2");
    reveal_strlit("comfort");
    reveal_strlit("frost");
    reveal_strlit("frost-protection");
    reveal_strlit("comfort-1");
    reveal_strlit("comfort-2");
    reveal_strlit("comfort-minus-1");
    reveal_strlit("comfort-minus-2");
}

/// A number decodes to a mode exactly when it lies between 0 and 5, and the
/// mode it decodes to is encoded by that same number.
pub proof fn lemma_code_decodes_to_its_mode(code: int)
    ensures
        DeviceMode::with_code(code) is Some <==> 0 <= code <= 5,
        DeviceMode::with_code(code) matches Some(mode) ==> mode.code() == code,
{
}

/// The three encodings run in step: the names of a mode are the ones listed
/// at the place of its number.
pub proof fn lemma_names_follow_codes(mode: DeviceMode)
    ensures
        0 <= mode.code() <= 5,
        DeviceMode::api_names().len() == 6,
        DeviceMode::cli_names().len() == 6,
        DeviceMode::api_names()[mode.code()] == mode.api_name(),
        DeviceMode::cli_names()[mode.code()] == mode.cli_name(),
{
}

/// No two modes share a number, an API name or a command-line name.
pub proof fn lemma_encodings_are_distinct(a: DeviceMode, b: DeviceMode)
    requires
        a != b,
    ensures
        a.code() != b.code(),
        a.api_name() != b.api_name(),
        a.cli_name() != b.cli_name(),
{
    lemma_int_round_trip(a);
    lemma_int_round_trip(b);
    lemma_api_round_trip(a);
    lemma_api_round_trip(b);
    lemma_cli_round_trip(a);
    lemma_cli_round_trip(b);
}

/// The decoders accept the listed names and nothing else: an API name
/// decodes exactly when it is one of the six API names, a lower-case
/// command-line name exactly when it is one of the six names or three aliases.
pub proof fn lemma_only_listed_names_decode(name: Seq<char>)
    ensures
        DeviceMode::with_api_name(name) is Some <==> DeviceMode::api_names().contains(name),
        DeviceMode::with_cli_name(name) is Some <==> DeviceMode::cli_names().contains(name)
            || DeviceMode::cli_aliases().contains(name),
{
    let api = DeviceMode::api_names();
    let cli = DeviceMode::cli_names();
    let aliases = DeviceMode::cli_aliases();
    assert(api[0] == "cft"@ && api[1] == "eco"@ && api[2] == "fro"@ && api[3] == "stop"@ && api[4]
        == "cft1"@ && api[5] == "cft2"@);
    assert(cli[0] == "comfort"@ && cli[1] == "eco"@ && cli[2] == "frost-protection"@ && cli[3]
        == "stop"@ && cli[4] == "comfort-1"@ && cli[5] == "comfort-2"@);
    assert(aliases[0] == "frost"@ && aliases[1] == "comfort-minus-1"@ && aliases[2]
        == "comfort-minus-2"@);
}

/// Encoding a mode as a number and decoding the number gives the mode back.
pub proof fn lemma_int_round_trip(mode: DeviceMode)
    ensures
        DeviceMode::decode_int(mode.code()) == Ok::<DeviceMode, Failure>(mode),
{
}

/// An API name decodes to a mode only if it is the name that mode is encoded
/// by.
pub proof fn lemma_api_name_decodes_to_its_mode(name: Seq<char>)
    ensures
        DeviceMode::with_api_name(name) matches Some(mode) ==> mode.api_name() == name,
{
}

/// Encoding a mode as an API name and decoding the name gives the mode back.
pub proof fn lemma_api_round_trip(mode: DeviceMode)
    ensures
        DeviceMode::decode_api(mode.api_name()) == Ok::<DeviceMode, Failure>(mode),
{
    reveal_mode_names();
}

/// A lower-case command-line name decodes to a mode only if it is that mode's
/// name or its alias.
pub proof fn lemma_cli_name_decodes_to_its_mode(name: Seq<char>)
    ensures
        DeviceMode::with_cli_name(name) matches Some(mode) ==> mode.cli_name() == name
            || mode.cli_alias() == Some(name),
{
}

/// Every command-line name and alias is ASCII text in lower case already.
pub proof fn lemma_cli_names_are_folded(mode: DeviceMode)
    ensures
        folded(mode.cli_name()) == mode.cli_name(),
        mode.cli_alias() matches Some(alias) ==> folded(alias) == alias,
{
    reveal_mode_names();
    lemma_lower_ascii_is_folded(mode.cli_name());
    if let Some(alias) = mode.cli_alias() {
        lemma_lower_ascii_is_folded(alias);
    }
}

/// Encoding a mode as a command-line name and decoding the name gives the
/// mode back; so does decoding its alias.
pub proof fn lemma_cli_round_trip(mode: DeviceMode)
    ensures
        DeviceMode::decode_cli(mode.cli_name()) == Ok::<DeviceMode, Failure>(mode),
        mode.cli_alias() matches Some(alias) ==> DeviceMode::decode_cli(alias) == Ok::<
            DeviceMode,
            Failure,
        >(mode),
{
    lemma_cli_names_are_folded(mode);
    reveal_mode_names();
}

/// The case of ASCII letters does not matter to the command-line decoder: two
/// ASCII texts that differ only in case decode to the same mode, or both to
/// none.
pub proof fn lemma_cli_ignores_ascii_case(a: Seq<char>, b: Seq<char>)
    requires
        is_ascii_chars(a),
        is_ascii_chars(b),
        a.len() == b.len(),
        forall|i: int| 0 <= i < a.len() ==> ascii_lower(a[i]) == ascii_lower(b[i]),
    ensures
        DeviceMode::decode_cli(a) is Ok <==> DeviceMode::decode_cli(b) is Ok,
        DeviceMode::decode_cli(a) is Ok ==> DeviceMode::decode_cli(a) == DeviceMode::decode_cli(b),
{
    assert(a.map_values(|c: char| ascii_lower(c)) =~= b.map_values(|c: char| ascii_lower(c)));
}

} // verus!
