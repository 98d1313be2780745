//! The service's configuration, made from what the environment holds.

use vstd::prelude::*;
use vstd::string::StringExecFns;
use crate::models::opt_chars;
use crate::text::{decimal, decimal_text};

verus! {

/// The value of a decimal digit; the characters that are no digit have
/// none.
pub open spec fn digit_value(c: char) -> Option<nat> {
    if '0' <= c <= '9' {
        Some((c as nat - '0' as nat) as nat)
    } else {
        None
    }
}

/// The number that a run of decimal digits spells; `None` where the run is
/// empty or holds anything but digits.
pub open spec fn digits_value(digits: Seq<char>) -> Option<nat>
    decreases digits.len(),
{
    if digits.len() == 0 {
        None
    } else {
        match digit_value(digits.last()) {
            None => None,
            Some(d) => if digits.len() == 1 {
                Some(d)
            } else {
                match digits_value(digits.drop_last()) {
                    Some(n) => Some(10 * n + d),
                    None => None,
                }
            },
        }
    }
}

/// The port that a text spells: decimal digits, after a `+` or after
/// nothing, that come to 65535 at most.
pub open spec fn port_in(text: Seq<char>) -> Option<u16> {
    let digits = if text.len() > 0 && text[0] == '+' {
        text.drop_first()
    } else {
        text
    };
    match digits_value(digits) {
        Some(n) => if n <= u16::MAX {
            Some(n as u16)
        } else {
            None
        },
        None => None,
    }
}

/// A text without the whitespace at its ends, as `str::trim` leaves it.
pub uninterp spec fn trimmed(text: Seq<char>) -> Seq<char>;

/// Trusted: `str::parse` at type `u16`. It accepts decimal digits after an
/// optional `+`, and nothing else: no sign alone, no space, no number beyond
/// 65535.
#[verifier::external_body]
fn parse_port(text: &str) -> (port: Option<u16>)
    ensures
        port == port_in(text@),
{
    match text.parse::<u16>() {
        Ok(port) => Some(port),
        Err(_) => None,
    }
}

/// Trusted: `str::trim`, which takes the whitespace off both ends of a
/// text. The result is named, not spelled out.
#[verifier::external_body]
fn trim(text: &str) -> (middle: &str)
    ensures
        middle@ == trimmed(text@),
{
    text.trim()
}

/// What the service is run with.
#[derive(Debug, Clone)]
pub struct Config {
    pub port: u16,
    pub base_url: String,
    pub mock_voice: bool,
    pub openai_api_key: Option<String>,
    pub openai_model: String,
}

/// A configuration by the characters of its texts.
pub struct ConfigView {
    pub port: u16,
    pub base_url: Seq<char>,
    pub mock_voice: bool,
    pub openai_api_key: Option<Seq<char>>,
    pub openai_model: Seq<char>,
}

impl View for Config {
    type V = ConfigView;

    open spec fn view(&self) -> ConfigView {
        ConfigView {
            port: self.port,
            base_url: self.base_url@,
            mock_voice: self.mock_voice,
            openai_api_key: opt_chars(self.openai_api_key),
            openai_model: self.openai_model@,
        }
    }
}

/// The port to listen on: the one that the environment spells, else 3000.
pub open spec fn configured_port(port: Option<Seq<char>>) -> u16 {
    match port {
        Some(text) => match port_in(text) {
            Some(n) => n,
            None => 3000,
        },
        None => 3000,
    }
}

/// The configuration that the environment asks for. A port that is missing
/// or unreadable is 3000; a missing base address is this machine under that
/// port; the voice is mocked unless the flag is set to something other than
/// `true` or `1`; a key that is blank counts as missing; a missing model is
/// `gpt-4o-mini`.
pub open spec fn configured(
    port: Option<Seq<char>>,
    base_url: Option<Seq<char>>,
    mock_voice: Option<Seq<char>>,
    openai_api_key: Option<Seq<char>>,
    openai_model: Option<Seq<char>>,
) -> ConfigView {
    ConfigView {
        port: configured_port(port),
        base_url: match base_url {
            Some(url) => url,
            None => "http://localhost:"@ + decimal(configured_port(port) as nat),
        },
        mock_voice: match mock_voice {
            Some(flag) => flag == "true"@ || flag == "1"@,
            None => true,
        },
        openai_api_key: match openai_api_key {
            Some(key) => if trimmed(key).len() == 0 {
                None
            } else {
                Some(key)
            },
            None => None,
        },
        openai_model: match openai_model {
            Some(model) => model,
            None => "gpt-4o-mini"@,
        },
    }
}

impl Config {
    /// The configuration that the environment asks for. The arguments are
    /// what it holds under `PORT`, `BASE_URL`, `MOCK_VOICE`,
    /// `OPENAI_API_KEY` and `OPENAI_MODEL`.
    pub fn from_env(
        port: Option<String>,
        base_url: Option<String>,
        mock_voice: Option<String>,
        openai_api_key: Option<String>,
        openai_model: Option<String>,
    ) -> (config: Config)
        ensures
            config@ == configured(
                opt_chars(port),
                opt_chars(base_url),
                opt_chars(mock_voice),
                opt_chars(openai_api_key),
                opt_chars(openai_model),
            ),
    {
        let port: u16 = match port {
            Some(text) => match parse_port(text.as_str()) {
                Some(n) => n,
                None => 3000,
            },
            None => 3000,
        };
        let base_url = match base_url {
            Some(url) => url,
            None => {
                let mut url = "http://localhost:".to_owned();
                let digits = decimal_text(port);
                url.append(digits.as_str());
                url
            },
        };
        let mock_voice = match mock_voice {
            Some(flag) => flag == "true".to_owned() || flag == "1".to_owned(),
            None => true,
        };
        let openai_api_key = match openai_api_key {
            Some(key) => if trim(key.as_str()).is_empty() {
                None
            } else {
                Some(key)
            },
            None => None,
        };
        let openai_model = match openai_model {
            Some(model) => model,
            None => "gpt-4o-mini".to_owned(),
        };
        Config { port, base_url, mock_voice, openai_api_key, openai_model }
    }

    /// The address to listen on: every interface, under the port.
    pub fn listen_addr(&self) -> (addr: String)
        ensures
            addr@ == "0.0.0.0:"@ + decimal(self.port as nat),
    {
        let mut addr = "0.0.0.0:".to_owned();
        let digits = decimal_text(self.port);
        addr.append(digits.as_str());
        addr
    }
}

} // verus!
