//! The service's configuration, read from named variables with defaults.

use vstd::prelude::*;
use crate::auth_dto::opt_text;
use crate::text::owned;

verus! {

/// How much the service logs.
#[derive(Clone, Copy, Debug, PartialEq, Eq, Structural)]
pub enum LogLevel {
    Trace,
    Debug,
    Info,
    Warn,
    Error,
}

/// The lowercase form of a text, as `str::to_lowercase` of the standard
/// library gives it.
pub uninterp spec fn lowercase_of(text: Seq<char>) -> Seq<char>;

/// Calls `str::to_lowercase`. The result is only given a name,
/// `lowercase_of`.
#[verifier::external_body]
fn to_lowercase(text: &str) -> (lowered: String)
    ensures
        lowered@ == lowercase_of(text@),
{
    text.to_lowercase()
}

/// The level that a lowercase name stands for; an unknown name stands for
/// `Info`.
pub open spec fn level_named(name: Seq<char>) -> LogLevel {
    if name == "trace"@ {
        LogLevel::Trace
    } else if name == "debug"@ {
        LogLevel::Debug
    } else if name == "info"@ {
        LogLevel::Info
    } else if name == "warn"@ {
        LogLevel::Warn
    } else if name == "error"@ {
        LogLevel::Error
    } else {
        LogLevel::Info
    }
}

/// The name of a level, in lowercase.
pub open spec fn level_name(level: LogLevel) -> Seq<char> {
    match level {
        LogLevel::Trace => "trace"@,
        LogLevel::Debug => "debug"@,
        LogLevel::Info => "info"@,
        LogLevel::Warn => "warn"@,
        LogLevel::Error => "error"@,
    }
}

/// The log filter for a level: the service and its HTTP stack log at the
/// level, and the wire-level chatter of the HTTP library is on only at
/// `Trace`.
pub open spec fn filter_for(level: LogLevel) -> Seq<char> {
    let name = level_name(level);
    let wire = if level == LogLevel::Trace {
        "trace"@
    } else {
        "off"@
    };
    "sabi="@ + name + ",axum="@ + name + ",tower="@ + name + ",hyper="@ + name
        + ",hyper::proto::h1::io="@ + wire + ",hyper::proto::h1::conn="@ + wire
}

impl LogLevel {
    /// The level that a lowercase name stands for; an unknown name stands
    /// for `Info`.
    pub fn from_lowercase(name: &str) -> (level: LogLevel)
        ensures
            level == level_named(name@),
    {
        let name = owned(name);
        if name == owned("trace") {
            LogLevel::Trace
        } else if name == owned("debug") {
            LogLevel::Debug
        } else if name == owned("info") {
            LogLevel::Info
        } else if name == owned("warn") {
            LogLevel::Warn
        } else if name == owned("error") {
            LogLevel::Error
        } else {
            LogLevel::Info
        }
    }

    /// The level that a name stands for, whatever its case.
    pub fn parse(name: &str) -> (level: LogLevel)
        ensures
            level == level_named(lowercase_of(name@)),
    {
        let lowered = to_lowercase(name);
        LogLevel::from_lowercase(lowered.as_str())
    }

    /// The name of the level, in lowercase.
    pub fn as_str(&self) -> (name: &'static str)
        ensures
            name@ == level_name(*self),
    {
        match self {
            LogLevel::Trace => "trace",
            LogLevel::Debug => "debug",
            LogLevel::Info => "info",
            LogLevel::Warn => "warn",
            LogLevel::Error => "error",
        }
    }

    /// The log filter for the level.
    pub fn filter(&self) -> (directives: String)
        ensures
            directives@ == filter_for(*self),
    {
        let name = self.as_str();
        let wire = match self {
            LogLevel::Trace => "trace",
            _ => "off",
        };
        let mut out = owned("sabi=");
        out.append(name);
        out.append(",axum=");
        out.append(name);
        out.append(",tower=");
        out.append(name);
        out.append(",hyper=");
        out.append(name);
        out.append(",hyper::proto::h1::io=");
        out.append(wire);
        out.append(",hyper::proto::h1::conn=");
        out.append(wire);
        out
    }
}

/// The decimal digit that a character stands for.
pub open spec fn digit_of(c: char) -> Option<nat> {
    if 48 <= c as u32 <= 57 {
        Some((c as u32 - 48) as nat)
    } else {
        None
    }
}

/// The number that a run of decimal digits stands for; the empty run
/// stands for 0, and a run with anything but digits for nothing.
pub open spec fn digits_value(s: Seq<char>) -> Option<nat>
    decreases s.len(),
{
    if s.len() == 0 {
        Some(0)
    } else {
        match (digits_value(s.drop_last()), digit_of(s.last())) {
            (Some(v), Some(d)) => Some(v * 10 + d),
            _ => None,
        }
    }
}

/// The port that a text stands for: decimal digits, at least one, after an
/// optional `+`, with a value that fits 16 bits.
pub open spec fn port_of(text: Seq<char>) -> Option<u16> {
    let digits = if text.len() > 0 && text[0] == '+' {
        text.drop_first()
    } else {
        text
    };
    if digits.len() == 0 {
        None
    } else {
        port_of_digits(digits)
    }
}

/// The port that a run of digits stands for: its value, if it fits 16 bits.
pub open spec fn port_of_digits(digits: Seq<char>) -> Option<u16> {
    match digits_value(digits) {
        Some(v) => if v <= 65535 {
            Some(v as u16)
        } else {
            None
        },
        None => None,
    }
}

/// A run of digits has a value only if each of its prefixes has one, and
/// no prefix is worth more than the whole.
proof fn lemma_digits_prefix(s: Seq<char>, k: int)
    requires
        0 <= k <= s.len(),
        digits_value(s) is Some,
    ensures
        digits_value(s.subrange(0, k)) is Some,
        digits_value(s.subrange(0, k))->Some_0 <= digits_value(s)->Some_0,
    decreases s.len(),
{
    if k == s.len() {
        assert(s.subrange(0, k) =~= s);
    } else {
        let shorter = s.drop_last();
        assert(shorter.subrange(0, k) =~= s.subrange(0, k));
        lemma_digits_prefix(shorter, k);
    }
}

/// The port that a text stands for, if it stands for one.
pub fn parse_port(text: &str) -> (port: Option<u16>)
    ensures
        port == port_of(text@),
{
    let n = text.unicode_len();
    if n == 0 {
        return None;
    }
    let start: usize = if text.get_char(0) == '+' {
        1
    } else {
        0
    };
    let ghost digits = text@.subrange(start as int, n as int);
    proof {
        if start == 1 {
            assert(digits =~= text@.drop_first());
        } else {
            assert(digits =~= text@);
        }
    }
    if start == n {
        return None;
    }
    let mut value: u32 = 0;
    let mut i: usize = start;
    proof {
        assert(digits.subrange(0, 0) =~= Seq::<char>::empty());
    }
    while i < n
        invariant
            start <= i <= n,
            n == text@.len(),
            digits == text@.subrange(start as int, n as int),
            port_of(text@) == port_of_digits(digits),
            value <= 65535,
            digits_value(digits.subrange(0, i - start)) == Some(value as nat),
        decreases n - i,
    {
        let c = text.get_char(i);
        let code = c as u32;
        let ghost before = digits.subrange(0, i - start);
        let ghost upto = digits.subrange(0, i - start + 1);
        proof {
            assert(upto.drop_last() =~= before);
            assert(upto.last() == c);
        }
        if code < 48 || code > 57 {
            proof {
                if digits_value(digits) is Some {
                    lemma_digits_prefix(digits, i - start + 1);
                }
            }
            return None;
        }
        let next: u32 = value * 10 + (code - 48);
        if next > 65535 {
            proof {
                if digits_value(digits) is Some {
                    lemma_digits_prefix(digits, i - start + 1);
                }
            }
            return None;
        }
        value = next;
        i = i + 1;
    }
    proof {
        assert(digits.subrange(0, n - start) =~= digits);
    }
    Some(value as u16)
}

/// One number of a dotted quad: one to three decimal digits that stand
/// for at most 255, with no zero in front of another digit.
pub open spec fn octet_text(s: Seq<char>) -> bool {
    &&& 1 <= s.len() <= 3
    &&& forall|i: int| 0 <= i < s.len() ==> digit_of(#[trigger] s[i]) is Some
    &&& s.len() > 1 ==> s[0] != '0'
    &&& digits_value(s) matches Some(v) && v <= 255
}

/// Whether the dots at `a`, `b` and `c` part the text into four numbers of
/// a dotted quad.
pub open spec fn quad_split(s: Seq<char>, a: int, b: int, c: int) -> bool {
    &&& 0 <= a < b < c < s.len()
    &&& s[a] == '.'
    &&& s[b] == '.'
    &&& s[c] == '.'
    &&& octet_text(s.subrange(0, a))
    &&& octet_text(s.subrange(a + 1, b))
    &&& octet_text(s.subrange(b + 1, c))
    &&& octet_text(s.subrange(c + 1, s.len() as int))
}

/// An IPv4 address in dotted-quad form: four numbers of at most 255,
/// parted by three dots, and nothing else.
pub open spec fn ipv4_text(s: Seq<char>) -> bool {
    exists|a: int, b: int, c: int| quad_split(s, a, b, c)
}

/// A literal in square brackets, the form in which an IPv6 address names a
/// host.
pub open spec fn bracketed_text(s: Seq<char>) -> bool {
    &&& s.len() >= 2
    &&& s[0] == '['
    &&& s[s.len() - 1] == ']'
}

/// A host text that can name a socket to listen on: an IPv4 address in
/// dotted-quad form, or a bracketed literal. Any other text, a host name
/// included, names none. What stands between the brackets is for the
/// listener's own address parser to judge.
pub open spec fn listener_host(s: Seq<char>) -> bool {
    ipv4_text(s) || bracketed_text(s)
}

/// In a dotted quad, the dot that ends a number is the first dot after the
/// number's start.
proof fn lemma_next_dot(s: Seq<char>, from: int, dot: int, first: int)
    requires
        0 <= from <= dot < s.len(),
        s[dot] == '.',
        octet_text(s.subrange(from, dot)),
        from <= first <= s.len(),
        forall|j: int| from <= j < first ==> s[j] != '.',
        first < s.len() ==> s[first] == '.',
    ensures
        first == dot,
{
    if first < dot {
        assert(s.subrange(from, dot)[first - from] == s[first]);
    }
}

/// The place of the first dot at or after `start`, or the text's length
/// when there is none.
fn dot_from(text: &str, n: usize, start: usize) -> (at: usize)
    requires
        n == text@.len(),
        start <= n,
    ensures
        start <= at <= n,
        forall|j: int| start <= j < at ==> text@[j] != '.',
        at < n ==> text@[at as int] == '.',
{
    let mut i: usize = start;
    while i < n
        invariant
            start <= i <= n,
            n == text@.len(),
            forall|j: int| start <= j < i ==> text@[j] != '.',
        decreases n - i,
    {
        if text.get_char(i) == '.' {
            return i;
        }
        i = i + 1;
    }
    n
}

/// Whether the characters from `from` up to `to` are one number of a
/// dotted quad.
fn is_octet(text: &str, n: usize, from: usize, to: usize) -> (ok: bool)
    requires
        n == text@.len(),
        from <= to <= n,
    ensures
        ok == octet_text(text@.subrange(from as int, to as int)),
{
    let ghost part = text@.subrange(from as int, to as int);
    if to - from == 0 || to - from > 3 {
        return false;
    }
    let mut value: u32 = 0;
    let mut i: usize = from;
    proof {
        assert(part.subrange(0, 0) =~= Seq::<char>::empty());
    }
    while i < to
        invariant
            from <= i <= to <= n,
            to - from <= 3,
            n == text@.len(),
            part == text@.subrange(from as int, to as int),
            value <= 999,
            i - from == 0 ==> value == 0,
            i - from == 1 ==> value <= 9,
            i - from == 2 ==> value <= 99,
            digits_value(part.subrange(0, i - from)) == Some(value as nat),
            forall|j: int| 0 <= j < i - from ==> digit_of(#[trigger] part[j]) is Some,
        decreases to - i,
    {
        let c = text.get_char(i);
        let code = c as u32;
        let ghost upto = part.subrange(0, i - from + 1);
        proof {
            assert(upto.drop_last() =~= part.subrange(0, i - from));
            assert(upto.last() == c);
            assert(part[i - from] == c);
        }
        if code < 48 || code > 57 {
            return false;
        }
        value = value * 10 + (code - 48);
        i = i + 1;
    }
    proof {
        assert(part.subrange(0, to - from) =~= part);
    }
    if to - from > 1 && text.get_char(from) == '0' {
        proof {
            assert(part[0] == text@[from as int]);
        }
        return false;
    }
    proof {
        assert(part[0] == text@[from as int]);
    }
    value <= 255
}

/// Whether the text is an IPv4 address in dotted-quad form.
pub fn is_ipv4(text: &str) -> (ok: bool)
    ensures
        ok == ipv4_text(text@),
{
    let n = text.unicode_len();
    let ghost s = text@;
    let a = dot_from(text, n, 0);
    if a >= n {
        proof {
            assert forall|x: int, y: int, z: int| !quad_split(s, x, y, z) by {}
        }
        return false;
    }
    if !is_octet(text, n, 0, a) {
        proof {
            assert forall|x: int, y: int, z: int| !quad_split(s, x, y, z) by {
                if quad_split(s, x, y, z) {
                    lemma_next_dot(s, 0, x, a as int);
                }
            }
        }
        return false;
    }
    let b = dot_from(text, n, a + 1);
    if b >= n {
        proof {
            assert forall|x: int, y: int, z: int| !quad_split(s, x, y, z) by {
                if quad_split(s, x, y, z) {
                    lemma_next_dot(s, 0, x, a as int);
                }
            }
        }
        return false;
    }
    if !is_octet(text, n, a + 1, b) {
        proof {
            assert forall|x: int, y: int, z: int| !quad_split(s, x, y, z) by {
                if quad_split(s, x, y, z) {
                    lemma_next_dot(s, 0, x, a as int);
                    lemma_next_dot(s, a + 1, y, b as int);
                }
            }
        }
        return false;
    }
    let c = dot_from(text, n, b + 1);
    if c >= n {
        proof {
            assert forall|x: int, y: int, z: int| !quad_split(s, x, y, z) by {
                if quad_split(s, x, y, z) {
                    lemma_next_dot(s, 0, x, a as int);
                    lemma_next_dot(s, a + 1, y, b as int);
                }
            }
        }
        return false;
    }
    if !is_octet(text, n, b + 1, c) || !is_octet(text, n, c + 1, n) {
        proof {
            assert forall|x: int, y: int, z: int| !quad_split(s, x, y, z) by {
                if quad_split(s, x, y, z) {
                    lemma_next_dot(s, 0, x, a as int);
                    lemma_next_dot(s, a + 1, y, b as int);
                    lemma_next_dot(s, b + 1, z, c as int);
                }
            }
        }
        return false;
    }
    proof {
        assert(quad_split(s, a as int, b as int, c as int));
    }
    true
}

/// Whether the text can name a socket to listen on.
pub fn is_listener_host(text: &str) -> (ok: bool)
    ensures
        ok == listener_host(text@),
{
    let n = text.unicode_len();
    if n >= 2 && text.get_char(0) == '[' && text.get_char(n - 1) == ']' {
        return true;
    }
    is_ipv4(text)
}

/// A source of named configuration variables.
pub trait Environment {
    /// The value of the variable `var`, if it is set.
    spec fn lookup(&self, var: Seq<char>) -> Option<Seq<char>>;

    /// Reads the variable `var`.
    fn get_var(&self, var: &str) -> (value: Option<String>)
        ensures
            opt_text(value) == self.lookup(var@),
    ;
}

/// The value that the latest of the settings gives to `var`.
pub open spec fn latest_setting(vars: Seq<(String, String)>, var: Seq<char>) -> Option<Seq<char>>
    decreases vars.len(),
{
    if vars.len() == 0 {
        None
    } else if vars.last().0@ == var {
        Some(vars.last().1@)
    } else {
        latest_setting(vars.drop_last(), var)
    }
}

/// Variables held in memory: what was set last under a name is its value.
#[derive(Debug, PartialEq, Eq)]
pub struct FixedEnvironment {
    pub vars: Vec<(String, String)>,
}

impl FixedEnvironment {
    /// An environment in which no variable is set.
    pub fn new() -> (env: FixedEnvironment)
        ensures
            forall|var: Seq<char>| env.lookup(var).is_none(),
    {
        FixedEnvironment { vars: Vec::new() }
    }

    /// Sets the variable `key` to `value`.
    pub fn set_var(&mut self, key: &str, value: &str)
        ensures
            final(self).lookup(key@) == Some(value@),
            forall|var: Seq<char>| var != key@ ==> final(self).lookup(var) == old(self).lookup(var),
    {
        let ghost before = self.vars@;
        self.vars.push((owned(key), owned(value)));
        proof {
            assert(self.vars@.drop_last() =~= before);
        }
    }
}

impl Environment for FixedEnvironment {
    open spec fn lookup(&self, var: Seq<char>) -> Option<Seq<char>> {
        latest_setting(self.vars@, var)
    }

    fn get_var(&self, var: &str) -> (value: Option<String>) {
        let wanted = owned(var);
        let mut i: usize = self.vars.len();
        proof {
            assert(self.vars@.subrange(0, i as int) =~= self.vars@);
        }
        while i > 0
            invariant
                i <= self.vars.len(),
                wanted@ == var@,
                latest_setting(self.vars@, var@) == latest_setting(
                    self.vars@.subrange(0, i as int),
                    var@,
                ),
            decreases i,
        {
            let ghost upto = self.vars@.subrange(0, i as int);
            proof {
                assert(upto.last() == self.vars@[i - 1]);
                assert(upto.drop_last() =~= self.vars@.subrange(0, i - 1));
            }
            i = i - 1;
            if self.vars[i].0 == wanted {
                return Some(self.vars[i].1.clone());
            }
        }
        None
    }
}

/// The Discord section of the configuration.
#[derive(Debug, PartialEq, Eq)]
pub struct DiscordConfig {
    pub auth_url: String,
    pub client_id: String,
    pub client_secret: String,
    pub redirect_url: String,
    pub token_url: String,
}

/// What a `DiscordConfig` holds, as mathematical values.
pub struct DiscordConfigView {
    pub auth_url: Seq<char>,
    pub client_id: Seq<char>,
    pub client_secret: Seq<char>,
    pub redirect_url: Seq<char>,
    pub token_url: Seq<char>,
}

impl View for DiscordConfig {
    type V = DiscordConfigView;

    open spec fn view(&self) -> DiscordConfigView {
        DiscordConfigView {
            auth_url: self.auth_url@,
            client_id: self.client_id@,
            client_secret: self.client_secret@,
            redirect_url: self.redirect_url@,
            token_url: self.token_url@,
        }
    }
}

/// The service's configuration. The address to listen on is kept as the
/// host's text and the port's number.
#[derive(Debug, PartialEq, Eq)]
pub struct Config {
    pub api_host: String,
    pub api_port: u16,
    pub discord: DiscordConfig,
    pub log_level: LogLevel,
    pub redis_url: String,
    pub version: String,
}

/// What a `Config` holds, as mathematical values.
pub struct ConfigView {
    pub api_host: Seq<char>,
    pub api_port: u16,
    pub discord: DiscordConfigView,
    pub log_level: LogLevel,
    pub redis_url: Seq<char>,
    pub version: Seq<char>,
}

impl View for Config {
    type V = ConfigView;

    open spec fn view(&self) -> ConfigView {
        ConfigView {
            api_host: self.api_host@,
            api_port: self.api_port,
            discord: self.discord@,
            log_level: self.log_level,
            redis_url: self.redis_url@,
            version: self.version@,
        }
    }
}

/// The port the service listens on when none, or none that can be read, is
/// configured.
pub const DEFAULT_PORT: u16 = 3030;

/// A variable's value, or the default when it is not set.
pub open spec fn or_default(value: Option<Seq<char>>, default: Seq<char>) -> Seq<char> {
    match value {
        Some(v) => v,
        None => default,
    }
}

/// A required credential that is not set.
#[derive(Clone, Copy, Debug, PartialEq, Eq, Structural)]
pub enum MissingCredential {
    DiscordClientId,
    DiscordClientSecret,
}

impl MissingCredential {
    /// What to say of the missing credential at startup.
    pub fn message(&self) -> (text: &'static str)
        ensures
            text@ == match *self {
                MissingCredential::DiscordClientId => "Missing Discord client id!"@,
                MissingCredential::DiscordClientSecret => "Missing Discord client secret!"@,
            },
    {
        match self {
            MissingCredential::DiscordClientId => "Missing Discord client id!",
            MissingCredential::DiscordClientSecret => "Missing Discord client secret!",
        }
    }
}

/// The first required credential that `env` does not set, the client id
/// before the secret.
pub open spec fn missing_in<T: Environment>(env: &T) -> Option<MissingCredential> {
    if env.lookup("DISCORD_CLIENT_ID"@).is_none() {
        Some(MissingCredential::DiscordClientId)
    } else if env.lookup("DISCORD_CLIENT_SECRET"@).is_none() {
        Some(MissingCredential::DiscordClientSecret)
    } else {
        None
    }
}

/// Why the service cannot start on its configuration.
#[derive(Clone, Copy, Debug, PartialEq, Eq, Structural)]
pub enum StartupError {
    /// A credential that has no default is not set.
    MissingCredential { credential: MissingCredential },
    /// The configured host names no socket to listen on.
    InvalidAddress,
}

impl StartupError {
    /// What to say of the failure at startup.
    pub fn message(&self) -> (text: &'static str)
        ensures
            text@ == match *self {
                StartupError::MissingCredential {
                    credential: MissingCredential::DiscordClientId,
                } => "Missing Discord client id!"@,
                StartupError::MissingCredential {
                    credential: MissingCredential::DiscordClientSecret,
                } => "Missing Discord client secret!"@,
                StartupError::InvalidAddress => "Failed to parse API_ADDRESS and API_PORT"@,
            },
    {
        match self {
            StartupError::MissingCredential { credential } => credential.message(),
            StartupError::InvalidAddress => "Failed to parse API_ADDRESS and API_PORT",
        }
    }
}

/// The host that `env` configures: the value of `API_ADDRESS`, or the
/// loopback address when it is not set.
pub open spec fn host_in<T: Environment>(env: &T) -> Seq<char> {
    or_default(env.lookup("API_ADDRESS"@), "127.0.0.1"@)
}

/// Why the service cannot start on what `env` sets, if it cannot: a missing
/// credential first, then a host that names no socket to listen on.
pub open spec fn startup_error_in<T: Environment>(env: &T) -> Option<StartupError> {
    match missing_in(env) {
        Some(credential) => Some(StartupError::MissingCredential { credential }),
        None => if listener_host(host_in(env)) {
            None
        } else {
            Some(StartupError::InvalidAddress)
        },
    }
}

/// The configuration that `env` describes: each setting is its variable's
/// value, or its default when the variable is not set. A port that cannot
/// be read is the default port; a log level that is not known is `Info`.
pub open spec fn config_in<T: Environment>(env: &T) -> ConfigView {
    ConfigView {
        api_host: host_in(env),
        api_port: match port_of(or_default(env.lookup("API_PORT"@), "3030"@)) {
            Some(port) => port,
            None => DEFAULT_PORT,
        },
        discord: DiscordConfigView {
            auth_url: or_default(
                env.lookup("DISCORD_AUTH_URL"@),
                "https://discord.com/api/oauth2/authorize?response_type=code"@,
            ),
            client_id: or_default(env.lookup("DISCORD_CLIENT_ID"@), Seq::empty()),
            client_secret: or_default(env.lookup("DISCORD_CLIENT_SECRET"@), Seq::empty()),
            redirect_url: or_default(
                env.lookup("DISCORD_REDIRECT_URL"@),
                "http://127.0.0.1:3000/auth/authorized"@,
            ),
            token_url: or_default(
                env.lookup("DISCORD_TOKEN_URL"@),
                "https://discord.com/api/oauth2/token"@,
            ),
        },
        log_level: level_named(lowercase_of(or_default(env.lookup("LOG_LEVEL"@), "info"@))),
        redis_url: or_default(env.lookup("REDIS_URL"@), "redis://127.0.0.1/"@),
        version: or_default(env.lookup("VERSION"@), "experimental"@),
    }
}

/// The configuration used where only the version matters.
pub open spec fn config_for_version(version: Seq<char>) -> ConfigView {
    ConfigView {
        api_host: "127.0.0.1"@,
        api_port: DEFAULT_PORT,
        discord: DiscordConfigView {
            auth_url: "test"@,
            client_id: "test"@,
            client_secret: "test"@,
            redirect_url: "test"@,
            token_url: "test"@,
        },
        log_level: LogLevel::Info,
        redis_url: "redis://127.0.0.1/"@,
        version,
    }
}

/// Reads `var` from `env`, falling back on `default`.
fn read_or<T: Environment>(env: &T, var: &str, default: &str) -> (value: String)
    ensures
        value@ == or_default(env.lookup(var@), default@),
{
    match env.get_var(var) {
        Some(v) => v,
        None => owned(default),
    }
}

impl Config {
    /// The configuration that `env` describes. The two Discord credentials
    /// have no default and must be set, and the host must name a socket to
    /// listen on.
    pub fn from_env<T: Environment>(env: &T) -> (config: Config)
        requires
            startup_error_in(env).is_none(),
        ensures
            config@ == config_in(env),
            listener_host(config@.api_host),
    {
        let api_host = read_or(env, "API_ADDRESS", "127.0.0.1");
        let port_text = read_or(env, "API_PORT", "3030");
        let api_port = match parse_port(port_text.as_str()) {
            Some(port) => port,
            None => DEFAULT_PORT,
        };
        let auth_url = read_or(
            env,
            "DISCORD_AUTH_URL",
            "https://discord.com/api/oauth2/authorize?response_type=code",
        );
        let client_id = read_or(env, "DISCORD_CLIENT_ID", "");
        let client_secret = read_or(env, "DISCORD_CLIENT_SECRET", "");
        let redirect_url = read_or(
            env,
            "DISCORD_REDIRECT_URL",
            "http://127.0.0.1:3000/auth/authorized",
        );
        let token_url = read_or(env, "DISCORD_TOKEN_URL", "https://discord.com/api/oauth2/token");
        let level_text = read_or(env, "LOG_LEVEL", "info");
        let redis_url = read_or(env, "REDIS_URL", "redis://127.0.0.1/");
        let version = read_or(env, "VERSION", "experimental");
        Config {
            api_host,
            api_port,
            discord: DiscordConfig { auth_url, client_id, client_secret, redirect_url, token_url },
            log_level: LogLevel::parse(level_text.as_str()),
            redis_url,
            version,
        }
    }

    /// The configuration that `env` describes, or why the service cannot
    /// start on it: the first required credential that is not set, or,
    /// with both set, a host that names no socket to listen on.
    pub fn try_from_env<T: Environment>(env: &T) -> (r: Result<Config, StartupError>)
        ensures
            match r {
                Ok(config) => {
                    &&& startup_error_in(env).is_none()
                    &&& config@ == config_in(env)
                    &&& listener_host(config@.api_host)
                },
                Err(error) => startup_error_in(env) == Some(error),
            },
    {
        if env.get_var("DISCORD_CLIENT_ID").is_none() {
            return Err(
                StartupError::MissingCredential { credential: MissingCredential::DiscordClientId },
            );
        }
        if env.get_var("DISCORD_CLIENT_SECRET").is_none() {
            return Err(
                StartupError::MissingCredential {
                    credential: MissingCredential::DiscordClientSecret,
                },
            );
        }
        let host = read_or(env, "API_ADDRESS", "127.0.0.1");
        if !is_listener_host(host.as_str()) {
            return Err(StartupError::InvalidAddress);
        }
        Ok(Config::from_env(env))
    }

    /// The configuration used where only the version matters: local
    /// defaults, placeholder credentials, and the given version.
    pub fn from_params(version: String) -> (config: Config)
        ensures
            config@ == config_for_version(version@),
    {
        Config {
            api_host: owned("127.0.0.1"),
            api_port: DEFAULT_PORT,
            discord: DiscordConfig {
                auth_url: owned("test"),
                client_id: owned("test"),
                client_secret: owned("test"),
                redirect_url: owned("test"),
                token_url: owned("test"),
            },
            log_level: LogLevel::Info,
            redis_url: owned("redis://127.0.0.1/"),
            version,
        }
    }
}

} // verus!
