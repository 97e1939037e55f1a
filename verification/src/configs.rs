//! The application configuration and its validation rules.
//!
//! Loading the configuration from its sources is the surrounding program's
//! business; everything that can be checked about the loaded values is
//! checked here, and every failure is reported.

use vstd::prelude::*;
use vstd::string::StrSliceExecFns;

use crate::cors::{spec_compile, validate_allow_origin_entry, InvalidOriginError, OriginPattern};
use crate::text::{contains_char, find_substr, find_substr_str};

verus! {

/// Whether the text parses as a Sentry DSN
/// (`sentry::types::Dsn::from_str`), a function of the text alone.
pub uninterp spec fn dsn_parses(s: Seq<char>) -> bool;

/// Relies on `sentry::types::Dsn`'s `FromStr`: whether the text is a valid
/// DSN.
#[verifier::external_body]
fn dsn_check(s: &str) -> (r: bool)
    ensures
        r == dsn_parses(s@),
{
    match s.parse::<sentry::types::Dsn>() {
        Ok(_) => true,
        Err(_) => false,
    }
}

/// Why the loaded configuration was rejected.
#[derive(Clone, Copy, Debug, PartialEq, Eq, Structural)]
pub enum ConfigError {
    /// The allow-list of origins is empty.
    EmptyAllowOrigins,
    /// An entry of the allow-list does not compile; the first failure is
    /// carried.
    InvalidAllowOrigin(InvalidOriginError),
    /// The retry count lies outside 1 to 10.
    RetryCountOutOfRange,
    /// The retry timeout lies outside 10 to 100 milliseconds.
    RetryTimeoutOutOfRange,
    /// The Sentry DSN does not parse.
    InvalidSentryDsn,
    /// The concurrency limit lies outside 1 to 1024.
    ConcurrencyLimitOutOfRange,
    /// The SMTP address holds no `:` separating host and port.
    SmtpAddrMissingPort,
    /// The SMTP address's host is empty or its port is not a port number.
    InvalidSmtpAddr,
    /// The SMTP credentials hold no `:` separating user and password.
    SmtpAuthMissingSeparator,
    /// The SMTP user or password is empty.
    EmptySmtpAuthCredential,
    /// The SMTP connection timeout is under 1000 milliseconds.
    SmtpTimeoutTooSmall,
}

/// The operator-facing message of each rejection.
pub open spec fn spec_config_reason(e: ConfigError) -> Seq<char> {
    match e {
        ConfigError::EmptyAllowOrigins => "must be at least one of the allowed origins"@,
        ConfigError::InvalidAllowOrigin(inner) => crate::cors::spec_reason(inner),
        ConfigError::RetryCountOutOfRange => "must be between 1 and 10 times"@,
        ConfigError::RetryTimeoutOutOfRange => "must be between 10 and 100 msec"@,
        ConfigError::InvalidSentryDsn => "must be a valid Sentry DSN"@,
        ConfigError::ConcurrencyLimitOutOfRange => "must be between 1 and 1024 concurrent requests"@,
        ConfigError::SmtpAddrMissingPort => "must be host:port"@,
        ConfigError::InvalidSmtpAddr => "must be host:port, port 1-65535"@,
        ConfigError::SmtpAuthMissingSeparator => "expected username:password"@,
        ConfigError::EmptySmtpAuthCredential => "username/password must be non-empty"@,
        ConfigError::SmtpTimeoutTooSmall => "must be at least 1000 msec"@,
    }
}

impl ConfigError {
    /// The rejection, as an operator-facing message.
    pub fn describe(&self) -> (r: &'static str)
        ensures
            r@ == spec_config_reason(*self),
    {
        match self {
            ConfigError::EmptyAllowOrigins => "must be at least one of the allowed origins",
            ConfigError::InvalidAllowOrigin(inner) => inner.describe(),
            ConfigError::RetryCountOutOfRange => "must be between 1 and 10 times",
            ConfigError::RetryTimeoutOutOfRange => "must be between 10 and 100 msec",
            ConfigError::InvalidSentryDsn => "must be a valid Sentry DSN",
            ConfigError::ConcurrencyLimitOutOfRange => "must be between 1 and 1024 concurrent requests",
            ConfigError::SmtpAddrMissingPort => "must be host:port",
            ConfigError::InvalidSmtpAddr => "must be host:port, port 1-65535",
            ConfigError::SmtpAuthMissingSeparator => "expected username:password",
            ConfigError::EmptySmtpAuthCredential => "username/password must be non-empty",
            ConfigError::SmtpTimeoutTooSmall => "must be at least 1000 msec",
        }
    }
}

/// Whether the character is a decimal digit.
pub open spec fn is_dec_digit(c: char) -> bool {
    48 <= c as u32 <= 57
}

/// The value of a decimal digit.
pub open spec fn digit_val(c: char) -> nat {
    ((c as u32) - 48) as nat
}

/// The value of a run of decimal digits.
pub open spec fn dec_value(s: Seq<char>) -> nat
    decreases s.len(),
{
    if s.len() == 0 {
        0
    } else {
        dec_value(s.drop_last()) * 10 + digit_val(s.last())
    }
}

/// Whether the text is a run of digits denoting a value up to 65535.
pub open spec fn spec_u16_numeral(s: Seq<char>) -> bool {
    &&& s.len() >= 1
    &&& forall|i: int| 0 <= i < s.len() ==> is_dec_digit(#[trigger] s[i])
    &&& dec_value(s) <= 65535
}

/// Whether the text parses as a 16-bit port number, with std's optional
/// leading `+`.
pub open spec fn spec_parse_u16_ok(s: Seq<char>) -> bool {
    if s.len() >= 1 && s[0] == '+' {
        spec_u16_numeral(s.skip(1))
    } else {
        spec_u16_numeral(s)
    }
}

fn u16_numeral_check(s: &str, from: usize) -> (r: bool)
    requires
        from <= s@.len(),
    ensures
        r == spec_u16_numeral(s@.skip(from as int)),
{
    let ghost t = s@.skip(from as int);
    let len = s.unicode_len();
    if from == len {
        return false;
    }
    let mut i: usize = from;
    let mut v: u32 = 0;
    while i < len
        invariant
            from <= i <= len,
            len == s@.len(),
            from < len,
            t == s@.skip(from as int),
            forall|j: int| 0 <= j < i - from ==> is_dec_digit(#[trigger] t[j]),
            v <= 65535 ==> v == dec_value(t.take(i - from)),
            v > 65535 ==> dec_value(t.take(i - from)) > 65535,
            v <= 655359,
        decreases len - i,
    {
        let c = s.get_char(i);
        let u = c as u32;
        if !(48 <= u && u <= 57) {
            proof {
                assert(t[i - from] == s@[i as int]);
            }
            return false;
        }
        proof {
            assert(t.take(i - from + 1).drop_last() =~= t.take(i - from));
            assert(t.take(i - from + 1).last() == t[i - from]);
            assert(t[i - from] == s@[i as int]);
        }
        if v <= 65535 {
            v = v * 10 + (u - 48);
        }
        i += 1;
    }
    proof {
        assert(t.take(len - from) =~= t);
    }
    v <= 65535
}

/// Whether the text parses as a port number, as `str::parse::<u16>` would
/// accept it.
fn parse_u16_check(s: &str) -> (r: bool)
    ensures
        r == spec_parse_u16_ok(s@),
{
    proof {
        assert(s@.skip(0) =~= s@);
    }
    let len = s.unicode_len();
    if len >= 1 && s.get_char(0) == '+' {
        u16_numeral_check(s, 1)
    } else {
        u16_numeral_check(s, 0)
    }
}

/// The rejection of an SMTP `host:port` address, if it is rejected.  The
/// address splits at its last `:`; the host must be non-empty and the port
/// must be a 16-bit number.
pub open spec fn spec_smtp_addr_error(s: Seq<char>) -> Option<ConfigError> {
    if !contains_char(s, ':') {
        Some(ConfigError::SmtpAddrMissingPort)
    } else if exists|i: int|
        {
            &&& 0 < i < s.len()
            &&& s[i] == ':'
            &&& (forall|j: int| i < j < s.len() ==> s[j] != ':')
            &&& spec_parse_u16_ok(s.skip(i + 1))
        } {
        None
    } else {
        Some(ConfigError::InvalidSmtpAddr)
    }
}

fn rfind_colon(s: &str) -> (r: Option<usize>)
    ensures
        match r {
            Some(i) => i < s@.len() && s@[i as int] == ':' && forall|j: int|
                i < j < s@.len() ==> s@[j] != ':',
            None => !contains_char(s@, ':'),
        },
{
    let len = s.unicode_len();
    let mut k: usize = len;
    while k > 0
        invariant
            k <= len,
            len == s@.len(),
            forall|j: int| k <= j < len ==> s@[j] != ':',
        decreases k,
    {
        k -= 1;
        if s.get_char(k) == ':' {
            return Some(k);
        }
    }
    None
}

/// Checks an SMTP address of the form `host:port`, reporting why it is
/// rejected.
pub fn validate_smtp_addr(addr: &str) -> (r: Result<(), ConfigError>)
    ensures
        match r {
            Ok(()) => spec_smtp_addr_error(addr@) is None,
            Err(e) => spec_smtp_addr_error(addr@) == Some(e),
        },
{
    let len = addr.unicode_len();
    let sep = match rfind_colon(addr) {
        None => {
            return Err(ConfigError::SmtpAddrMissingPort);
        },
        Some(i) => i,
    };
    proof {
        assert(contains_char(addr@, ':'));
    }
    if sep == 0 {
        proof {
            lemma_last_colon_unique(addr@, 0);
        }
        return Err(ConfigError::InvalidSmtpAddr);
    }
    let port_part = addr.substring_char(sep + 1, len);
    proof {
        assert(port_part@ =~= addr@.skip(sep + 1));
    }
    if parse_u16_check(port_part) {
        proof {
            assert(0 < sep < addr@.len() && addr@[sep as int] == ':' && (forall|j: int|
                sep < j < addr@.len() ==> addr@[j] != ':') && spec_parse_u16_ok(
                addr@.skip(sep as int + 1),
            ));
        }
        Ok(())
    } else {
        proof {
            lemma_last_colon_unique(addr@, sep as int);
        }
        Err(ConfigError::InvalidSmtpAddr)
    }
}

proof fn lemma_last_colon_unique(s: Seq<char>, i: int)
    requires
        0 <= i < s.len(),
        s[i] == ':',
        forall|j: int| i < j < s.len() ==> s[j] != ':',
    ensures
        forall|k: int|
            {
                &&& 0 <= k < s.len()
                &&& s[k] == ':'
                &&& (forall|j: int| k < j < s.len() ==> s[j] != ':')
            } ==> k == i,
{
}

/// The rejection of SMTP credentials of the form `user:password`, if they
/// are rejected.  The text splits at its first `:`; both sides must be
/// non-empty.
pub open spec fn spec_smtp_auth_error(s: Seq<char>) -> Option<ConfigError> {
    match find_substr(s, ":"@) {
        None => Some(ConfigError::SmtpAuthMissingSeparator),
        Some(i) => if i > 0 && i + 1 < s.len() {
            None
        } else {
            Some(ConfigError::EmptySmtpAuthCredential)
        },
    }
}

/// Checks SMTP credentials of the form `user:password`, reporting why they
/// are rejected.
pub fn validate_smtp_auth_uri(auth: &str) -> (r: Result<(), ConfigError>)
    ensures
        match r {
            Ok(()) => spec_smtp_auth_error(auth@) is None,
            Err(e) => spec_smtp_auth_error(auth@) == Some(e),
        },
{
    let len = auth.unicode_len();
    match find_substr_str(auth, ":") {
        None => Err(ConfigError::SmtpAuthMissingSeparator),
        Some(i) => {
            proof {
                reveal_strlit(":");
            }
            if i > 0 && i + 1 < len {
                Ok(())
            } else {
                Err(ConfigError::EmptySmtpAuthCredential)
            }
        },
    }
}

/// Checks a Sentry DSN, reporting when it does not parse.
pub fn validate_sentry_dsn(dsn: &str) -> (r: Result<(), ConfigError>)
    ensures
        r is Ok <==> dsn_parses(dsn@),
        r matches Err(e) ==> e == ConfigError::InvalidSentryDsn,
{
    if dsn_check(dsn) {
        Ok(())
    } else {
        Err(ConfigError::InvalidSentryDsn)
    }
}

/// The failure of the first configured origin that does not compile, if
/// any.
pub open spec fn spec_first_origin_error(origins: Seq<String>) -> Option<InvalidOriginError>
    decreases origins.len(),
{
    if origins.len() == 0 {
        None
    } else {
        match spec_compile(origins[0]@) {
            Err(e) => Some(e),
            Ok(_) => spec_first_origin_error(origins.drop_first()),
        }
    }
}

proof fn lemma_first_origin_error_at(origins: Seq<String>, i: int, e: InvalidOriginError)
    requires
        0 <= i < origins.len(),
        spec_compile(origins[i]@) == Err::<OriginPattern, _>(e),
        forall|j: int| 0 <= j < i ==> spec_compile(origins[j]@) is Ok,
    ensures
        spec_first_origin_error(origins) == Some(e),
    decreases i,
{
    if i > 0 {
        let t = origins.drop_first();
        assert(spec_compile(origins[0]@) is Ok);
        assert(t[i - 1] == origins[i]);
        assert forall|j: int| 0 <= j < i - 1 implies spec_compile(t[j]@) is Ok by {
            assert(t[j] == origins[j + 1]);
        }
        lemma_first_origin_error_at(t, i - 1, e);
    }
}

proof fn lemma_first_origin_error_none(origins: Seq<String>)
    requires
        forall|j: int| 0 <= j < origins.len() ==> spec_compile(origins[j]@) is Ok,
    ensures
        spec_first_origin_error(origins) is None,
    decreases origins.len(),
{
    if origins.len() > 0 {
        let t = origins.drop_first();
        assert forall|j: int| 0 <= j < t.len() implies spec_compile(t[j]@) is Ok by {
            assert(t[j] == origins[j + 1]);
        }
        lemma_first_origin_error_none(t);
    }
}

/// The rejections of the configured origins, one per entry that does not
/// compile, in order.
pub open spec fn spec_origin_errors(origins: Seq<String>) -> Seq<ConfigError>
    decreases origins.len(),
{
    if origins.len() == 0 {
        Seq::empty()
    } else {
        (match spec_compile(origins[0]@) {
            Err(e) => seq![ConfigError::InvalidAllowOrigin(e)],
            Ok(_) => Seq::empty(),
        }) + spec_origin_errors(origins.drop_first())
    }
}

/// Appends one rejection for every configured origin that does not
/// compile, in order.
fn push_origin_errors(errs: &mut Vec<ConfigError>, origins: &Vec<String>)
    ensures
        final(errs)@ == old(errs)@ + spec_origin_errors(origins@),
{
    let ghost e0 = errs@;
    let ghost os = origins@;
    let n = origins.len();
    let mut idx: usize = 0;
    proof {
        assert(os.skip(0) =~= os);
    }
    while idx < n
        invariant
            idx <= n,
            n == os.len(),
            os == origins@,
            errs@ + spec_origin_errors(os.skip(idx as int)) == e0 + spec_origin_errors(os),
        decreases n - idx,
    {
        proof {
            assert(os.skip(idx as int)[0] == os[idx as int]);
            assert(os.skip(idx as int).drop_first() =~= os.skip(idx as int + 1));
        }
        let ghost e_pre = errs@;
        match validate_allow_origin_entry(origins[idx].as_str()) {
            Ok(()) => {},
            Err(e) => {
                errs.push(ConfigError::InvalidAllowOrigin(e));
            },
        }
        proof {
            assert(errs@ + spec_origin_errors(os.skip(idx as int + 1)) =~= e_pre
                + spec_origin_errors(os.skip(idx as int)));
        }
        idx += 1;
    }
    proof {
        assert(os.skip(n as int) =~= Seq::<String>::empty());
        assert(spec_origin_errors(os.skip(n as int)) =~= Seq::<ConfigError>::empty());
        assert(errs@ =~= e0 + spec_origin_errors(os));
    }
}

/// Checks every configured origin string, reporting the first that does
/// not compile.
pub fn validate_allow_origins_urls(origins: &Vec<String>) -> (r: Result<(), InvalidOriginError>)
    ensures
        match r {
            Ok(()) => spec_first_origin_error(origins@) is None,
            Err(e) => spec_first_origin_error(origins@) == Some(e),
        },
{
    let n = origins.len();
    let mut idx: usize = 0;
    while idx < n
        invariant
            idx <= n,
            n == origins@.len(),
            forall|j: int| 0 <= j < idx ==> spec_compile((#[trigger] origins@[j])@) is Ok,
        decreases n - idx,
    {
        match validate_allow_origin_entry(origins[idx].as_str()) {
            Ok(()) => {},
            Err(e) => {
                proof {
                    lemma_first_origin_error_at(origins@, idx as int, e);
                }
                return Err(e);
            },
        }
        idx += 1;
    }
    proof {
        lemma_first_origin_error_none(origins@);
    }
    Ok(())
}

/// The application's configuration, as loaded by the surrounding program.
#[derive(Clone, Debug)]
#[must_use]
pub struct AppConfigs {
    pub allow_cors_origins: Vec<String>,
    pub from_mailbox: String,
    pub to_mailbox: String,
    pub retry_count: usize,
    pub retry_timeout: u64,
    pub sentry_dsn: String,
    pub sentry_environment: String,
    pub concurrency_limit: usize,
    pub smtp_addr: String,
    pub smtp_auth: String,
    pub smtp_connection_timeout: u64,
}

/// The view of an optional rejection as a run of rejections.
pub open spec fn opt_err_seq(o: Option<ConfigError>) -> Seq<ConfigError> {
    match o {
        None => Seq::empty(),
        Some(e) => seq![e],
    }
}

/// Every rejection of the configuration, one per rule, in field order.
pub open spec fn spec_config_errors(c: AppConfigs) -> Seq<ConfigError> {
    (if c.allow_cors_origins@.len() >= 1 {
        Seq::empty()
    } else {
        seq![ConfigError::EmptyAllowOrigins]
    }) + spec_origin_errors(c.allow_cors_origins@) + (if 1 <= c.retry_count <= 10 {
        Seq::empty()
    } else {
        seq![ConfigError::RetryCountOutOfRange]
    }) + (if 10 <= c.retry_timeout <= 100 {
        Seq::empty()
    } else {
        seq![ConfigError::RetryTimeoutOutOfRange]
    }) + (if dsn_parses(c.sentry_dsn@) {
        Seq::empty()
    } else {
        seq![ConfigError::InvalidSentryDsn]
    }) + (if 1 <= c.concurrency_limit <= 1024 {
        Seq::empty()
    } else {
        seq![ConfigError::ConcurrencyLimitOutOfRange]
    }) + opt_err_seq(spec_smtp_addr_error(c.smtp_addr@)) + opt_err_seq(
        spec_smtp_auth_error(c.smtp_auth@),
    ) + (if c.smtp_connection_timeout >= 1000 {
        Seq::empty()
    } else {
        seq![ConfigError::SmtpTimeoutTooSmall]
    })
}

impl AppConfigs {
    /// Checks every rule of the configuration and reports each failure, in
    /// field order.  The configuration is acceptable exactly when the
    /// report is empty.
    #[verifier::rlimit(100)]
    pub fn validate(&self) -> (errs: Vec<ConfigError>)
        ensures
            errs@ == spec_config_errors(*self),
    {
        let mut errs: Vec<ConfigError> = Vec::new();
        if self.allow_cors_origins.len() < 1 {
            errs.push(ConfigError::EmptyAllowOrigins);
        }
        push_origin_errors(&mut errs, &self.allow_cors_origins);
        if !(1 <= self.retry_count && self.retry_count <= 10) {
            errs.push(ConfigError::RetryCountOutOfRange);
        }
        if !(10 <= self.retry_timeout && self.retry_timeout <= 100) {
            errs.push(ConfigError::RetryTimeoutOutOfRange);
        }
        match validate_sentry_dsn(self.sentry_dsn.as_str()) {
            Ok(()) => {},
            Err(e) => errs.push(e),
        }
        if !(1 <= self.concurrency_limit && self.concurrency_limit <= 1024) {
            errs.push(ConfigError::ConcurrencyLimitOutOfRange);
        }
        match validate_smtp_addr(self.smtp_addr.as_str()) {
            Ok(()) => {},
            Err(e) => errs.push(e),
        }
        match validate_smtp_auth_uri(self.smtp_auth.as_str()) {
            Ok(()) => {},
            Err(e) => errs.push(e),
        }
        if self.smtp_connection_timeout < 1000 {
            errs.push(ConfigError::SmtpTimeoutTooSmall);
        }
        proof {
            assert(errs@ =~= spec_config_errors(*self));
        }
        errs
    }
}

} // verus!
