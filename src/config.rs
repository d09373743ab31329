use vstd::prelude::*;

use crate::text::chars_of;

verus! {

/// The value of a decimal digit character.
pub open spec fn digit_value(c: char) -> int {
    c as int - '0' as int
}

/// A non-empty run of decimal digits.
pub open spec fn is_digits(s: Seq<char>) -> bool {
    s.len() > 0 && forall|i: int| 0 <= i < s.len() ==> '0' <= #[trigger] s[i] && s[i] <= '9'
}

/// The number that a run of decimal digits writes.
pub open spec fn digits_value(s: Seq<char>) -> int
    decreases s.len(),
{
    if s.len() == 0 {
        0
    } else {
        digits_value(s.drop_last()) * 10 + digit_value(s.last())
    }
}

/// The digits of an unsigned number, after an optional leading `+`.
pub open spec fn unsigned_digits(s: Seq<char>) -> Seq<char> {
    if s.len() > 0 && s[0] == '+' {
        s.drop_first()
    } else {
        s
    }
}

/// The `u16` that a string writes in decimal, with an optional leading `+`;
/// `None` for anything else or for a number above `u16::MAX`.
pub open spec fn parse_u16_spec(s: Seq<char>) -> Option<u16> {
    let d = unsigned_digits(s);
    if is_digits(d) && digits_value(d) <= u16::MAX {
        Some(digits_value(d) as u16)
    } else {
        None
    }
}

proof fn lemma_digits_value_nonneg(s: Seq<char>)
    requires
        forall|i: int| 0 <= i < s.len() ==> '0' <= #[trigger] s[i] && s[i] <= '9',
    ensures
        digits_value(s) >= 0,
    decreases s.len(),
{
    if s.len() > 0 {
        lemma_digits_value_nonneg(s.drop_last());
    }
}

proof fn lemma_prefix_value_le(s: Seq<char>, k: int)
    requires
        0 <= k <= s.len(),
        forall|i: int| 0 <= i < s.len() ==> '0' <= #[trigger] s[i] && s[i] <= '9',
    ensures
        digits_value(s.subrange(0, k)) <= digits_value(s),
    decreases s.len() - k,
{
    if k < s.len() {
        let d = s.drop_last();
        lemma_prefix_value_le(d, k);
        assert(d.subrange(0, k) =~= s.subrange(0, k));
        lemma_digits_value_nonneg(d);
    } else {
        assert(s.subrange(0, k) =~= s);
    }
}

/// Reads a `u16` written in decimal, as `str::parse::<u16>` does.
pub fn parse_u16(s: &str) -> (r: Option<u16>)
    ensures
        r == parse_u16_spec(s@),
{
    let cs = chars_of(s);
    let n = cs.len();
    let mut start: usize = 0;
    if n > 0 && cs[0] == '+' {
        start = 1;
    }
    let ghost d = unsigned_digits(s@);
    assert(d =~= cs@.subrange(start as int, n as int));
    if start >= n {
        return None;
    }
    let mut v: u32 = 0;
    let mut i: usize = start;
    while i < n
        invariant
            cs@ == s@,
            n == cs@.len(),
            start <= i <= n,
            d == cs@.subrange(start as int, n as int),
            d == unsigned_digits(s@),
            v as int == digits_value(cs@.subrange(start as int, i as int)),
            v <= u16::MAX,
            forall|j: int| start <= j < i ==> '0' <= #[trigger] cs@[j] && cs@[j] <= '9',
        decreases n - i,
    {
        let c = cs[i];
        assert(cs@.subrange(start as int, i + 1).drop_last() =~= cs@.subrange(
            start as int,
            i as int,
        ));
        if c < '0' || c > '9' {
            assert(d[i - start] == c);
            return None;
        }
        v = v * 10 + (c as u32 - '0' as u32);
        if v > 65535 {
            proof {
                if is_digits(d) {
                    lemma_prefix_value_le(d, i + 1 - start);
                    assert(d.subrange(0, i + 1 - start) =~= cs@.subrange(start as int, i + 1));
                }
            }
            return None;
        }
        i = i + 1;
    }
    assert(cs@.subrange(start as int, i as int) =~= d);
    Some(v as u16)
}

/// The service's settings.
#[derive(Clone, Debug)]
pub struct Config {
    pub web_port: u16,
    pub smtp_port: u16,
    /// How many entries the feed shows.
    pub per_page: u16,
    /// Mail is accepted only for recipients in this domain.
    pub domain: String,
    pub mongo_con_str: String,
    pub mongo_db_name: String,
    pub username: Option<String>,
    pub password: Option<String>,
}

/// The settings as they were found, each one possibly unset.
pub struct ConfigVars {
    pub web_port: Option<String>,
    pub smtp_port: Option<String>,
    pub per_page: Option<String>,
    pub domain: Option<String>,
    pub mongo_con_str: Option<String>,
    pub mongo_db_name: Option<String>,
    pub username: Option<String>,
    pub password: Option<String>,
}

/// Why the settings do not make a configuration.
#[derive(Clone, Copy, Debug, PartialEq, Eq, Structural)]
pub enum ConfigError {
    InvalidWebPort,
    InvalidSmtpPort,
    InvalidPerPage,
    /// Only one of user name and password is set.
    PartialCredentials,
}

/// A numeric setting: its default when unset, else the number it writes.
pub open spec fn number_setting(v: Option<String>, default: u16) -> Option<u16> {
    match v {
        Some(s) => parse_u16_spec(s@),
        None => Some(default),
    }
}

/// A text setting: its default when unset.
pub open spec fn text_setting(v: Option<String>, default: Seq<char>) -> Seq<char> {
    match v {
        Some(s) => s@,
        None => default,
    }
}

/// The configuration that a set of settings gives, if any.
pub open spec fn config_outcome(vars: ConfigVars, r: Result<Config, ConfigError>) -> bool {
    let web = number_setting(vars.web_port, 8080);
    let smtp = number_setting(vars.smtp_port, 10000);
    let per_page = number_setting(vars.per_page, 10);
    if web is None {
        r == Err::<Config, ConfigError>(ConfigError::InvalidWebPort)
    } else if smtp is None {
        r == Err::<Config, ConfigError>(ConfigError::InvalidSmtpPort)
    } else if per_page is None {
        r == Err::<Config, ConfigError>(ConfigError::InvalidPerPage)
    } else if vars.username is Some != vars.password is Some {
        r == Err::<Config, ConfigError>(ConfigError::PartialCredentials)
    } else {
        r matches Ok(c) && {
            &&& c.web_port == web->0
            &&& c.smtp_port == smtp->0
            &&& c.per_page == per_page->0
            &&& c.domain@ == text_setting(vars.domain, "example.com"@)
            &&& c.mongo_con_str@ == text_setting(vars.mongo_con_str, "mongodb://localhost:27017"@)
            &&& c.mongo_db_name@ == text_setting(vars.mongo_db_name, "mail-list-rss"@)
            &&& c.username == vars.username
            &&& c.password == vars.password
        }
    }
}

fn number_or(v: &Option<String>, default: u16) -> (r: Option<u16>)
    ensures
        r == number_setting(*v, default),
{
    match v {
        Some(s) => parse_u16(s.as_str()),
        None => Some(default),
    }
}

fn text_or(v: Option<String>, default: &str) -> (r: String)
    ensures
        r@ == text_setting(v, default@),
{
    match v {
        Some(s) => s,
        None => default.to_owned(),
    }
}

impl Config {
    /// Builds the configuration from the settings found: unset numbers and
    /// texts take their defaults, and user name and password come together.
    pub fn from_vars(vars: ConfigVars) -> (r: Result<Config, ConfigError>)
        ensures
            config_outcome(vars, r),
    {
        proof {
            reveal_strlit("example.com");
            reveal_strlit("mongodb://localhost:27017");
            reveal_strlit("mail-list-rss");
        }
        let web_port = match number_or(&vars.web_port, 8080) {
            Some(p) => p,
            None => {
                return Err(ConfigError::InvalidWebPort);
            },
        };
        let smtp_port = match number_or(&vars.smtp_port, 10000) {
            Some(p) => p,
            None => {
                return Err(ConfigError::InvalidSmtpPort);
            },
        };
        let per_page = match number_or(&vars.per_page, 10) {
            Some(p) => p,
            None => {
                return Err(ConfigError::InvalidPerPage);
            },
        };
        if vars.username.is_some() != vars.password.is_some() {
            return Err(ConfigError::PartialCredentials);
        }
        Ok(
            Config {
                web_port,
                smtp_port,
                per_page,
                domain: text_or(vars.domain, "example.com"),
                mongo_con_str: text_or(vars.mongo_con_str, "mongodb://localhost:27017"),
                mongo_db_name: text_or(vars.mongo_db_name, "mail-list-rss"),
                username: vars.username,
                password: vars.password,
            },
        )
    }

    /// The configuration itself, as the components that share it read it.
    pub fn get(&self) -> (r: &Self)
        ensures
            r == self,
    {
        self
    }

    /// The user name and password of basic authentication, when both are set.
    pub fn credentials(&self) -> (r: Option<(String, String)>)
        ensures
            r matches Some(p) ==> self.username == Some(p.0) && self.password == Some(p.1),
            r is None ==> self.username is None || self.password is None,
    {
        match (&self.username, &self.password) {
            (Some(u), Some(p)) => Some((u.clone(), p.clone())),
            _ => None,
        }
    }
}

} // verus!
