use vstd::prelude::*;

verus! {

/// Settings of the service, read from its environment.
pub struct Config {
    pub database_url: String,
    pub api_base_url: String,
    pub web_base_url: String,
    pub port: u16,
}

/// Why the settings could not be put together.
pub enum ConfigError {
    MissingDatabaseUrl,
    MissingApiBaseUrl,
    MissingWebBaseUrl,
    InvalidPort,
}

/// The port used when `PORT` is not set.
pub open spec fn default_port_text() -> Seq<char> {
    "3333"@
}

pub open spec fn is_ascii_digit(c: char) -> bool {
    '0' <= c && c <= '9'
}

/// The number that a string of decimal digits stands for.
pub open spec fn decimal_value(s: Seq<char>) -> nat
    decreases s.len(),
{
    if s.len() == 0 {
        0
    } else {
        decimal_value(s.drop_last()) * 10 + ((s.last() as nat) - ('0' as nat)) as nat
    }
}

/// The digits of a number written with an optional leading `+`.
pub open spec fn unsigned_digits(s: Seq<char>) -> Seq<char> {
    if s.len() > 0 && s[0] == '+' {
        s.drop_first()
    } else {
        s
    }
}

/// What parsing the text as a `u16` gives: an optional `+` followed by at
/// least one ASCII digit, and nothing else, whose value fits in 16 bits.
pub open spec fn spec_parse_u16(s: Seq<char>) -> Option<u16> {
    let d = unsigned_digits(s);
    if d.len() > 0 && (forall|i: int| 0 <= i < d.len() ==> is_ascii_digit(#[trigger] d[i]))
        && decimal_value(d) <= 0xffff {
        Some(decimal_value(d) as u16)
    } else {
        None
    }
}

/// Parses a decimal `u16` with `str::parse::<u16>`, whose documented grammar is an
/// optional `+` sign followed by only ASCII digits, rejecting empty text, any other
/// character and values above `u16::MAX`.
#[verifier::external_body]
fn parse_u16(text: &str) -> (r: Option<u16>)
    ensures
        r == spec_parse_u16(text@),
{
    text.parse::<u16>().ok()
}

/// The settings that the given environment values give, or the first missing or
/// malformed one, checked in the order of the fields.
pub open spec fn spec_config_outcome(
    database_url: Option<Seq<char>>,
    api_base_url: Option<Seq<char>>,
    web_base_url: Option<Seq<char>>,
    port: Option<Seq<char>>,
) -> Result<(Seq<char>, Seq<char>, Seq<char>, u16), ConfigError> {
    let port_text = match port {
        Some(p) => p,
        None => default_port_text(),
    };
    if database_url is None {
        Err(ConfigError::MissingDatabaseUrl)
    } else if api_base_url is None {
        Err(ConfigError::MissingApiBaseUrl)
    } else if web_base_url is None {
        Err(ConfigError::MissingWebBaseUrl)
    } else if spec_parse_u16(port_text) is None {
        Err(ConfigError::InvalidPort)
    } else {
        Ok((database_url->0, api_base_url->0, web_base_url->0, spec_parse_u16(port_text)->0))
    }
}

pub open spec fn opt_view(o: Option<String>) -> Option<Seq<char>> {
    match o {
        Some(s) => Some(s@),
        None => None,
    }
}

impl Config {
    /// Puts the settings together from the values of `DATABASE_URL`,
    /// `API_BASE_URL`, `WEB_BASE_URL` and `PORT` (`None` where a variable is
    /// unset); `PORT` defaults to 3333.
    pub fn new(
        database_url: Option<String>,
        api_base_url: Option<String>,
        web_base_url: Option<String>,
        port: Option<String>,
    ) -> (r: Result<Config, ConfigError>)
        ensures
            match (r, spec_config_outcome(opt_view(database_url), opt_view(api_base_url), opt_view(web_base_url), opt_view(port))) {
                (Ok(c), Ok(v)) => c.database_url@ == v.0 && c.api_base_url@ == v.1
                    && c.web_base_url@ == v.2 && c.port == v.3,
                (Err(e), Err(f)) => e == f,
                _ => false,
            },
    {
        let database_url = match database_url {
            Some(v) => v,
            None => return Err(ConfigError::MissingDatabaseUrl),
        };
        let api_base_url = match api_base_url {
            Some(v) => v,
            None => return Err(ConfigError::MissingApiBaseUrl),
        };
        let web_base_url = match web_base_url {
            Some(v) => v,
            None => return Err(ConfigError::MissingWebBaseUrl),
        };
        let parsed = match &port {
            Some(p) => parse_u16(p.as_str()),
            None => {
                proof {
                    reveal_strlit("3333");
                }
                parse_u16("3333")
            },
        };
        match parsed {
            Some(port) => Ok(Config { database_url, api_base_url, web_base_url, port }),
            None => Err(ConfigError::InvalidPort),
        }
    }
}

impl ConfigError {
    /// The message with which the service refuses to start.
    pub fn message(&self) -> (r: &'static str)
        ensures
            r@ == match self {
                ConfigError::MissingDatabaseUrl => "DATABASE_URL is required"@,
                ConfigError::MissingApiBaseUrl => "API_BASE_URL is required"@,
                ConfigError::MissingWebBaseUrl => "WEB_BASE_URL is required"@,
                ConfigError::InvalidPort => "PORT must be a number"@,
            },
    {
        match self {
            ConfigError::MissingDatabaseUrl => "DATABASE_URL is required",
            ConfigError::MissingApiBaseUrl => "API_BASE_URL is required",
            ConfigError::MissingWebBaseUrl => "WEB_BASE_URL is required",
            ConfigError::InvalidPort => "PORT must be a number",
        }
    }
}

} // verus!
