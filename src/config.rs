use vstd::prelude::*;
use vstd::string::{StrSliceExecFns, StringExecFns};

verus! {

/// Server settings, built once at start-up and passed to what needs them.
#[derive(Clone, Debug)]
pub struct Config {
    pub database_url: String,
    pub host: String,
    pub port: u16,
    pub jwt_secret: String,
    pub jwt_expiration_hours: u64,
    pub cors_allow_origin: String,
    pub cors_allow_methods: String,
    pub cors_allow_headers: String,
    pub cors_max_age: u64,
}

/// The decimal digit `d` (0..=9) as text.
pub open spec fn digit_text(d: nat) -> Seq<char> {
    if d == 0 {
        "0"@
    } else if d == 1 {
        "1"@
    } else if d == 2 {
        "2"@
    } else if d == 3 {
        "3"@
    } else if d == 4 {
        "4"@
    } else if d == 5 {
        "5"@
    } else if d == 6 {
        "6"@
    } else if d == 7 {
        "7"@
    } else if d == 8 {
        "8"@
    } else {
        "9"@
    }
}

/// `n` in decimal, without leading zeros.
pub open spec fn decimal(n: nat) -> Seq<char>
    decreases n,
{
    if n < 10 {
        digit_text(n)
    } else {
        decimal(n / 10) + digit_text(n % 10)
    }
}

/// A text setting, or `default` where it is missing.
pub open spec fn text_or(v: Option<String>, default: Seq<char>) -> Seq<char> {
    match v {
        Some(s) => s@,
        None => default,
    }
}

/// A numeric setting no greater than `max`, or `default` where it is missing
/// or is no such number.
pub open spec fn number_or(v: Option<String>, max: int, default: int) -> int {
    match v {
        Some(s) => match parsed_unsigned(s@, max) {
            Some(n) => n,
            None => default,
        },
        None => default,
    }
}

fn setting_or(v: Option<String>, default: &str) -> (r: String)
    ensures
        r@ == text_or(v, default@),
{
    match v {
        Some(s) => s,
        None => String::from_str(default),
    }
}

fn number_setting_or(v: &Option<String>, max: u64, default: u64) -> (r: u64)
    requires
        default <= max,
    ensures
        r == number_or(*v, max as int, default as int),
        r <= max,
{
    match v {
        Some(s) => match parse_unsigned(s.as_str(), max) {
            Some(n) => n,
            None => default,
        },
        None => default,
    }
}

fn digit_str(d: u64) -> (r: &'static str)
    requires
        d < 10,
    ensures
        r@ == digit_text(d as nat),
{
    if d == 0 {
        "0"
    } else if d == 1 {
        "1"
    } else if d == 2 {
        "2"
    } else if d == 3 {
        "3"
    } else if d == 4 {
        "4"
    } else if d == 5 {
        "5"
    } else if d == 6 {
        "6"
    } else if d == 7 {
        "7"
    } else if d == 8 {
        "8"
    } else {
        "9"
    }
}

/// `n` written in decimal.
pub fn decimal_text(n: u64) -> (r: String)
    ensures
        r@ == decimal(n as nat),
    decreases n,
{
    if n < 10 {
        String::from_str(digit_str(n))
    } else {
        decimal_text(n / 10).concat(digit_str(n % 10))
    }
}

/// The number that the decimal digits `s` spell.
pub open spec fn digits_value(s: Seq<char>) -> int
    decreases s.len(),
{
    if s.len() == 0 {
        0
    } else {
        digits_value(s.drop_last()) * 10 + (s.last() as int - '0' as int)
    }
}

pub open spec fn all_digits(s: Seq<char>) -> bool {
    forall|i: int| 0 <= i < s.len() ==> '0' <= #[trigger] s[i] <= '9'
}

/// `s` without one leading '+'.
pub open spec fn unsigned_digits(s: Seq<char>) -> Seq<char> {
    if s.len() > 0 && s[0] == '+' {
        s.subrange(1, s.len() as int)
    } else {
        s
    }
}

/// The value of an unsigned decimal text at most `max`, as Rust's `parse`
/// reads it: an optional '+', then one digit or more; `None` otherwise.
pub open spec fn parsed_unsigned(s: Seq<char>, max: int) -> Option<int> {
    let d = unsigned_digits(s);
    if d.len() > 0 && all_digits(d) && digits_value(d) <= max {
        Some(digits_value(d))
    } else {
        None
    }
}

proof fn lemma_digits_value_grows(s: Seq<char>, i: int, j: int)
    requires
        0 <= i <= j <= s.len(),
        all_digits(s),
    ensures
        digits_value(s.subrange(0, i)) <= digits_value(s.subrange(0, j)),
        digits_value(s.subrange(0, j)) >= 0,
    decreases j,
{
    if j > 0 {
        assert(s.subrange(0, j).drop_last() =~= s.subrange(0, j - 1));
        assert('0' <= s[j - 1] <= '9');
        let i2 = if i < j { i } else { j - 1 };
        lemma_digits_value_grows(s, i2, j - 1);
    }
}

/// Reads an unsigned decimal number no greater than `max`.
pub fn parse_unsigned(s: &str, max: u64) -> (r: Option<u64>)
    ensures
        r is Some <==> parsed_unsigned(s@, max as int) is Some,
        r is Some ==> r->0 == parsed_unsigned(s@, max as int)->0,
{
    let n = s.unicode_len();
    let mut start: usize = 0;
    if n > 0 && s.get_char(0) == '+' {
        start = 1;
    }
    let ghost d = unsigned_digits(s@);
    assert(d =~= s@.subrange(start as int, n as int));
    if start == n {
        return None;
    }
    let mut value: u64 = 0;
    let mut i: usize = start;
    while i < n
        invariant
            start <= i <= n,
            n == s@.len(),
            d == s@.subrange(start as int, n as int),
            d == unsigned_digits(s@),
            forall|k: int| 0 <= k < i - start ==> '0' <= #[trigger] d[k] <= '9',
            value == digits_value(d.subrange(0, i - start)),
            value <= max,
        decreases n - i,
    {
        let c = s.get_char(i);
        assert(d[i - start] == c);
        if !('0' <= c && c <= '9') {
            assert(!all_digits(d));
            return None;
        }
        let digit = (c as u32 - '0' as u32) as u64;
        assert(d.subrange(0, i + 1 - start).drop_last() =~= d.subrange(0, i - start));
        if digit > max || value > (max - digit) / 10 {
            proof {
                if digit <= max {
                    assert(value * 10 + digit > max) by (nonlinear_arith)
                        requires
                            value > (max - digit) / 10,
                            digit <= max,
                            0 <= digit <= 9,
                    ;
                }
                if all_digits(d) {
                    lemma_digits_value_grows(d, i + 1 - start, d.len() as int);
                    assert(d.subrange(0, d.len() as int) =~= d);
                }
            }
            return None;
        }
        proof {
            assert(value * 10 + digit <= max) by (nonlinear_arith)
                requires
                    value <= (max - digit) / 10,
                    digit <= max,
                    0 <= digit <= 9,
            ;
        }
        value = value * 10 + digit;
        i = i + 1;
    }
    assert(d.subrange(0, n - start) =~= d);
    Some(value)
}

impl Config {
    /// The configuration from settings as named in the environment, where
    /// given: the database URL is required; a missing or unreadable value takes
    /// its default.
    pub fn from_settings(
        database_url: String,
        host: Option<String>,
        port: Option<String>,
        jwt_secret: Option<String>,
        jwt_expiration_hours: Option<String>,
        cors_allow_origin: Option<String>,
        cors_allow_methods: Option<String>,
        cors_allow_headers: Option<String>,
        cors_max_age: Option<String>,
    ) -> (r: Config)
        ensures
            r.database_url == database_url,
            r.host@ == text_or(host, "127.0.0.1"@),
            r.port == number_or(port, 0xffff, 8080),
            r.jwt_secret@ == text_or(jwt_secret, "your-secret-key-change-in-production"@),
            r.jwt_expiration_hours == number_or(jwt_expiration_hours, u64::MAX as int, 24),
            r.cors_allow_origin@ == text_or(cors_allow_origin, "*"@),
            r.cors_allow_methods@ == text_or(cors_allow_methods, "GET,POST,PUT,DELETE,OPTIONS"@),
            r.cors_allow_headers@ == text_or(cors_allow_headers, "*"@),
            r.cors_max_age == number_or(cors_max_age, u64::MAX as int, 3600),
    {
        Config {
            database_url,
            host: setting_or(host, "127.0.0.1"),
            port: number_setting_or(&port, 0xffff, 8080) as u16,
            jwt_secret: setting_or(jwt_secret, "your-secret-key-change-in-production"),
            jwt_expiration_hours: number_setting_or(&jwt_expiration_hours, u64::MAX, 24),
            cors_allow_origin: setting_or(cors_allow_origin, "*"),
            cors_allow_methods: setting_or(cors_allow_methods, "GET,POST,PUT,DELETE,OPTIONS"),
            cors_allow_headers: setting_or(cors_allow_headers, "*"),
            cors_max_age: number_setting_or(&cors_max_age, u64::MAX, 3600),
        }
    }

    /// The address to listen on: `host:port`.
    pub fn server_addr(&self) -> (r: String)
        ensures
            r@ == self.host@ + ":"@ + decimal(self.port as nat),
    {
        self.host.clone().concat(":").concat(decimal_text(self.port as u64).as_str())
    }
}

impl Default for Config {
    fn default() -> (r: Config)
        ensures
            r.database_url@ == "postgresql://localhost/airbnb_db"@,
            r.host@ == "127.0.0.1"@,
            r.port == 8080,
            r.jwt_secret@ == "your-secret-key-change-in-production"@,
            r.jwt_expiration_hours == 24,
            r.cors_allow_origin@ == "*"@,
            r.cors_allow_methods@ == "GET,POST,PUT,DELETE,OPTIONS"@,
            r.cors_allow_headers@ == "*"@,
            r.cors_max_age == 3600,
    {
        Config {
            database_url: String::from_str("postgresql://localhost/airbnb_db"),
            host: String::from_str("127.0.0.1"),
            port: 8080,
            jwt_secret: String::from_str("your-secret-key-change-in-production"),
            jwt_expiration_hours: 24,
            cors_allow_origin: String::from_str("*"),
            cors_allow_methods: String::from_str("GET,POST,PUT,DELETE,OPTIONS"),
            cors_allow_headers: String::from_str("*"),
            cors_max_age: 3600,
        }
    }
}

} // verus!
