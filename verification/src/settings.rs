//! Data model for the viewer: accounts with their shared secrets, the display
//! theme, the configuration that groups them, and the command-line surface.

use vstd::prelude::*;

verus! {

/// A terminal color. Mirrors the palette a terminal offers: the terminal's
/// own default, the sixteen named colors, a 24-bit color, and an indexed
/// palette entry.
#[derive(Clone, Copy, Debug, PartialEq, Eq, Structural)]
pub enum TermColor {
    Reset,
    Black,
    Red,
    Green,
    Yellow,
    Blue,
    Magenta,
    Cyan,
    Gray,
    DarkGray,
    LightRed,
    LightGreen,
    LightYellow,
    LightBlue,
    LightMagenta,
    LightCyan,
    White,
    Rgb(u8, u8, u8),
    Indexed(u8),
}

/// Display colors for the two text roles of the account panel.
pub struct Theme {
    /// Color of the account name.
    pub name: TermColor,
    /// Color of the code while no urgency tier overrides it.
    pub code: TermColor,
}

impl Default for Theme {
    /// The colors used when the configuration names none.
    fn default() -> (r: Self)
        ensures
            r.name == TermColor::Blue,
            r.code == TermColor::White,
    {
        Theme { name: TermColor::Blue, code: TermColor::White }
    }
}

/// The hash algorithm an account's codes are derived with. A tagged choice so
/// that further variants can be added without changing call sites.
#[derive(Clone, Copy, Debug, PartialEq, Eq, Structural)]
pub enum Algorithm {
    Sha1,
}

impl Default for Algorithm {
    /// The algorithm used when the configuration names none.
    fn default() -> (r: Self)
        ensures
            r == Algorithm::Sha1,
    {
        Algorithm::Sha1
    }
}

/// One account: the shared secret in its text form and as decoded bytes, the
/// hash algorithm, the number of code digits, and the last-computed code.
pub struct Account {
    /// The secret, as the base-32 text the configuration held and as the bytes
    /// it decodes to.
    pub secret: (String, Vec<u8>),
    /// Hash algorithm for this account's codes.
    pub algorithm: Algorithm,
    /// Number of decimal digits in a code.
    pub length: u32,
    /// The code computed for the current thirty-second epoch, once the
    /// scheduler has run at least once.
    pub code: String,
}

impl Account {
    /// A usable account: at least one code digit, and few enough that ten to
    /// the power of `length` fits in sixty-four bits.
    pub open spec fn wf(&self) -> bool {
        1 <= self.length <= 19
    }
}

/// Default number of decimal digits in a generated one-time code.
pub fn default_password_length() -> (r: u32)
    ensures
        r == 6,
{
    6
}

/// The display theme plus every configured account, keyed by name.
/// Account names are unique; the order is the one the configuration gave.
pub struct Config {
    pub theme: Theme,
    pub accounts: Vec<(String, Account)>,
}

/// Why a secret from the configuration was rejected.
#[derive(Clone, Copy, Debug, PartialEq, Eq, Structural)]
pub enum SecretError {
    /// The secret text was empty.
    Empty,
    /// The secret text held characters outside the base-32 alphabet.
    InvalidBase32,
}

impl SecretError {
    /// A human-readable account of the rejection.
    pub fn describe(&self) -> (r: &'static str)
        ensures
            self is Empty ==> r@ == "non-empty base-32 encoded secret for your account"@,
            self is InvalidBase32 ==> r@ == "base-32 encoded secret for your account"@,
    {
        match self {
            SecretError::Empty => "non-empty base-32 encoded secret for your account",
            SecretError::InvalidBase32 => "base-32 encoded secret for your account",
        }
    }
}

/// What `base32::decode` yields on a given text with the unpadded RFC 4648
/// alphabet: the decoded bytes, or nothing when a character cannot be decoded.
pub uninterp spec fn base32_decoded(s: Seq<char>) -> Option<Seq<u8>>;

/// Relies on `base32::decode` with the unpadded RFC 4648 alphabet: the result
/// is a function of the input characters alone, and is `None` exactly when the
/// input cannot be decoded.
#[verifier::external_body]
fn decode_base32(s: &str) -> (r: Option<Vec<u8>>)
    ensures
        r is Some <==> base32_decoded(s@) is Some,
        r matches Some(v) ==> v@ == base32_decoded(s@)->Some_0,
{
    base32::decode(base32::Alphabet::RFC4648 { padding: false }, s)
}

/// Validates and decodes a base-32 secret: an empty text is rejected, an
/// undecodable one is rejected, and otherwise the original text is returned
/// beside the decoded bytes.
pub fn decode_secret(s: &str) -> (r: Result<(String, Vec<u8>), SecretError>)
    ensures
        s@.len() == 0 ==> (r matches Err(e) && e == SecretError::Empty),
        s@.len() > 0 && base32_decoded(s@) is None ==> (r matches Err(e) && e
            == SecretError::InvalidBase32),
        s@.len() > 0 && base32_decoded(s@) is Some ==> (r matches Ok(p) && p.0@ == s@ && p.1@
            == base32_decoded(s@)->Some_0),
{
    if s.is_empty() {
        Err(SecretError::Empty)
    } else {
        match decode_base32(s) {
            Some(bytes) => Ok((s.to_owned(), bytes)),
            None => Err(SecretError::InvalidBase32),
        }
    }
}

/// A file-system path, kept as plain text.
#[derive(Clone)]
pub struct PathBuf(pub String);

/// Top-level command-line choices: global logging flags and an optional
/// subcommand.
pub struct CliArg {
    /// Enables tracing.
    pub trace: bool,
    /// Enables debug info.
    pub debug: bool,
    /// No logging at all.
    pub quiet: bool,
    pub maybe_subcommand: Option<CliSubCommand>,
}

/// The subcommands the viewer offers.
pub enum CliSubCommand {
    /// Runs the terminal interface against a configuration file.
    Tui { config_file: PathBuf },
    /// Detects account info from various input types.
    From(CliFrom),
}

/// Sources an account can be provisioned from.
pub enum CliFrom {
    /// A camera device, by index.
    Webcam { device_index: i8 },
}

} // verus!
