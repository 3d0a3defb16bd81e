//! The runtime configuration, built from the environment's variables.
use vstd::prelude::*;

use crate::text::{chars_of, same_text, string_of, strip_trailing, strip_trailing_char};
use crate::validation::opt_view;

verus! {

/// Whether `s` is accepted by `url::Url::parse`.
pub uninterp spec fn url_parses(s: Seq<char>) -> bool;

/// The parent of the path `p` (what `std::path::Path::parent` returns), as text.
pub uninterp spec fn path_parent(p: Seq<char>) -> Option<Seq<char>>;

/// Checks `s` with `url::Url::parse`.
#[verifier::external_body]
fn url_valid(s: &str) -> (r: bool)
    ensures
        r == url_parses(s@),
{
    url::Url::parse(s).is_ok()
}

/// The parent of the path `p`, from `std::path::Path::parent`.
#[verifier::external_body]
fn parent_of(p: &str) -> (r: Option<String>)
    ensures
        opt_view(r) == path_parent(p@),
{
    match std::path::Path::new(p).parent() {
        Some(q) => Some(q.to_string_lossy().into_owned()),
        None => None,
    }
}

/// A decimal digit.
pub open spec fn is_digit(c: char) -> bool {
    '0' <= c <= '9'
}

/// The value of the decimal digits `d`.
pub open spec fn digits_value(d: Seq<char>) -> int
    decreases d.len(),
{
    if d.len() == 0 {
        0
    } else {
        digits_value(d.drop_last()) * 10 + (d.last() as int - '0' as int)
    }
}

/// Whether every character of `d` is a decimal digit.
pub open spec fn all_digits(d: Seq<char>) -> bool {
    forall|i: int| 0 <= i < d.len() ==> is_digit(#[trigger] d[i])
}

/// The integer that `s` writes: an optional `+` or `-` sign, then one or more digits.
pub open spec fn int_text(s: Seq<char>) -> Option<int> {
    if s.len() > 0 && (s[0] == '+' || s[0] == '-') {
        let d = s.drop_first();
        if d.len() > 0 && all_digits(d) {
            Some(
                if s[0] == '-' {
                    -digits_value(d)
                } else {
                    digits_value(d)
                },
            )
        } else {
            None
        }
    } else if s.len() > 0 && all_digits(s) {
        Some(digits_value(s))
    } else {
        None
    }
}

/// What `i64::from_str` gives for `s`: the integer it writes, if that fits.
pub open spec fn i64_text(s: Seq<char>) -> Option<i64> {
    match int_text(s) {
        Some(v) => if i64::MIN <= v <= i64::MAX {
            Some(v as i64)
        } else {
            None
        },
        None => None,
    }
}

/// What `bool::from_str` gives for `s`.
pub open spec fn bool_text(s: Seq<char>) -> Option<bool> {
    if s == "true"@ {
        Some(true)
    } else if s == "false"@ {
        Some(false)
    } else {
        None
    }
}

proof fn lemma_digits_nonneg(d: Seq<char>)
    requires
        all_digits(d),
    ensures
        digits_value(d) >= 0,
    decreases d.len(),
{
    if d.len() > 0 {
        assert(all_digits(d.drop_last()));
        lemma_digits_nonneg(d.drop_last());
        assert(is_digit(d[d.len() - 1]));
    }
}

/// Parses a decimal `i64` as `i64::from_str` does.
pub fn parse_i64(s: &str) -> (r: Option<i64>)
    ensures
        r == i64_text(s@),
{
    let cs = chars_of(s);
    let n = cs.len();
    if n == 0 {
        return None;
    }
    let signed = cs[0] == '+' || cs[0] == '-';
    let negative = cs[0] == '-';
    let start: usize = if signed {
        1
    } else {
        0
    };
    if start == n {
        return None;
    }
    let ghost d = s@.subrange(start as int, n as int);
    proof {
        if signed {
            assert(d =~= s@.drop_first());
        } else {
            assert(d =~= s@);
        }
    }
    let limit: i128 = if negative {
        9223372036854775808
    } else {
        9223372036854775807
    };
    let mut m: i128 = 0;
    let mut i: usize = start;
    let mut overflow = false;
    assert(d.take(0) =~= Seq::<char>::empty());
    while i < n
        invariant
            start <= i <= n == cs@.len(),
            cs@ == s@,
            d == s@.subrange(start as int, n as int),
            n > 0,
            signed == (s@[0] == '+' || s@[0] == '-'),
            negative == (s@[0] == '-'),
            signed ==> d == s@.drop_first() && start == 1,
            !signed ==> d == s@ && start == 0,
            forall|k: int| start <= k < i ==> is_digit(#[trigger] cs@[k]),
            !overflow ==> m == digits_value(d.take(i - start)),
            !overflow ==> 0 <= m <= limit,
            overflow ==> digits_value(d.take(i - start)) > limit,
            limit == if negative { 9223372036854775808i128 } else { 9223372036854775807i128 },
        decreases n - i,
    {
        let c = cs[i];
        if !('0' <= c && c <= '9') {
            proof {
                assert(d[i - start] == c);
                assert(!all_digits(d));
            }
            return None;
        }
        proof {
            let t = d.take(i - start + 1);
            assert(t.drop_last() =~= d.take(i - start));
            assert(t.last() == c);
            assert(forall|k: int| 0 <= k < i - start ==> #[trigger] d.take(i - start)[k] == cs@[start + k]);
            assert(all_digits(d.take(i - start)));
            lemma_digits_nonneg(d.take(i - start));
        }
        if !overflow {
            let digit = (c as u32 - 48) as i128;
            m = m * 10 + digit;
            if m > limit {
                overflow = true;
            }
        }
        i = i + 1;
    }
    assert(d.take(n - start) =~= d);
    assert(all_digits(d)) by {
        assert(forall|k: int| 0 <= k < d.len() ==> #[trigger] d[k] == cs@[start + k]);
    }
    if overflow {
        return None;
    }
    if negative {
        Some((0 - m) as i64)
    } else {
        Some(m as i64)
    }
}

proof fn lemma_false_text()
    ensures
        bool_text("false"@) == Some(false),
{
    reveal_strlit("true");
    reveal_strlit("false");
    assert("false"@.len() != "true"@.len());
}

/// Parses `true` or `false` as `bool::from_str` does.
pub fn parse_bool(s: &str) -> (r: Option<bool>)
    ensures
        r == bool_text(s@),
{
    if same_text(s, "true") {
        Some(true)
    } else if same_text(s, "false") {
        Some(false)
    } else {
        None
    }
}

/// The environment variables the configuration reads; `None` for one that
/// is unset or not valid Unicode.
pub struct EnvVars {
    /// `APP_BASE_URL`
    pub base_url: Option<String>,
    /// `BIND_ADDR`
    pub bind_addr: Option<String>,
    /// `DATABASE_URL`
    pub database_url: Option<String>,
    /// `CORS_ORIGIN`
    pub cors_origin: Option<String>,
    /// `FRONTEND_DIST_DIR`
    pub dist_dir: Option<String>,
    /// `SESSION_COOKIE_NAME`
    pub cookie_name: Option<String>,
    /// `SESSION_SECURE`
    pub session_secure: Option<String>,
    /// `SESSION_MAX_AGE_HOURS`
    pub session_hours: Option<String>,
    /// `MAGIC_LINK_TTL_MINUTES`
    pub link_ttl: Option<String>,
    /// `MAGIC_LINK_REQUESTS_PER_HOUR`
    pub links_per_hour: Option<String>,
    /// `POSTMARK_SERVER_TOKEN`
    pub postmark_token: Option<String>,
    /// `POSTMARK_FROM`
    pub postmark_from: Option<String>,
    /// `POSTMARK_MESSAGE_STREAM`
    pub postmark_stream: Option<String>,
    /// `BOOTSTRAP_ADMIN_EMAIL`
    pub bootstrap_admin: Option<String>,
}

/// Where the first `c` stands in `s`, or the length of `s` when there is none.
pub open spec fn first_index(s: Seq<char>, c: char) -> int {
    choose|k: int| is_first_index(s, c, k)
}

/// Whether `k` is where the first `c` stands in `s` (or the length of `s` when there is none).
pub open spec fn is_first_index(s: Seq<char>, c: char, k: int) -> bool {
    0 <= k <= s.len() && (forall|j: int| 0 <= j < k ==> s[j] != c) && (k == s.len() || s[k] == c)
}

/// The directory of the SQLite file that `url` names: the path after
/// `sqlite://` up to the first `?`, then its parent, unless that is empty.
pub open spec fn database_dir(url: Seq<char>) -> Option<Seq<char>> {
    let prefix = "sqlite://"@;
    if prefix.is_prefix_of(url) {
        let rest = url.skip(prefix.len() as int);
        let file = rest.take(first_index(rest, '?'));
        match path_parent(file) {
            Some(d) => if d.len() > 0 {
                Some(d)
            } else {
                None
            },
            None => None,
        }
    } else {
        None
    }
}

/// The directory to create for the database file, if the URL names one.
pub fn database_directory(url: &str) -> (r: Option<String>)
    ensures
        opt_view(r) == database_dir(url@),
{
    let cs = chars_of(url);
    let prefix = chars_of("sqlite://");
    let m = prefix.len();
    let n = cs.len();
    if n < m {
        return None;
    }
    let mut i: usize = 0;
    while i < m
        invariant
            i <= m <= n,
            cs@ == url@,
            prefix@ == "sqlite://"@,
            m == prefix@.len(),
            n == cs@.len(),
            forall|k: int| 0 <= k < i ==> prefix@[k] == cs@[k],
        decreases m - i,
    {
        if prefix[i] != cs[i] {
            return None;
        }
        i = i + 1;
    }
    assert("sqlite://"@.is_prefix_of(url@));
    let ghost rest = url@.skip(m as int);
    let mut q: usize = m;
    while q < n && cs[q] != '?'
        invariant
            m <= q <= n == cs@.len(),
            cs@ == url@,
            rest == url@.skip(m as int),
            forall|j: int| m <= j < q ==> cs@[j] != '?',
        decreases n - q,
    {
        q = q + 1;
    }
    proof {
        let k = q - m;
        assert(0 <= k <= rest.len());
        assert(forall|j: int| 0 <= j < k ==> rest[j] == cs@[m + j]);
        assert(forall|j: int| 0 <= j < k ==> #[trigger] rest[j] != '?');
        assert(k == rest.len() || rest[k] == '?');
        assert(is_first_index(rest, '?', k));
        let f = first_index(rest, '?');
        assert(is_first_index(rest, '?', f));
        if f < k {
            assert(rest[f] != '?');
        }
        if k < f {
            assert(rest[k] != '?');
        }
        assert(f == k);
        assert(rest.take(k) =~= url@.subrange(m as int, q as int));
    }
    let file = string_of(&cs, m, q);
    existing_dir(parent_of(file.as_str()))
}

/// The directory to create given the parent of the database file: none when
/// there is no parent or it is empty.
pub fn existing_dir(parent: Option<String>) -> (r: Option<String>)
    ensures
        opt_view(r) == match opt_view(parent) {
            Some(d) => if d.len() > 0 {
                Some(d)
            } else {
                None
            },
            None => None,
        },
{
    match parent {
        Some(d) => {
            if d.as_str().is_empty() {
                None
            } else {
                Some(d)
            }
        },
        None => None,
    }
}

/// The runtime configuration.
#[derive(Clone, Debug, PartialEq)]
pub struct Config {
    pub addr: String,
    pub db: String,
    pub base: String,
    pub cors: String,
    pub dist: String,
    pub cookie: String,
    pub secure: bool,
    pub session_hours: i64,
    pub ttl: i64,
    pub per_hour: i64,
    pub token: String,
    pub from: String,
    pub stream: String,
    pub admin: String,
}

/// The variable's value, or `default` when it is unset.
pub open spec fn or_default(v: Option<String>, default: Seq<char>) -> Seq<char> {
    match v {
        Some(s) => s@,
        None => default,
    }
}

/// The number a variable holds, or `default` when it is unset; `None` when it is not a number.
pub open spec fn number_value(v: Option<String>, default: i64) -> Option<i64> {
    match v {
        Some(s) => i64_text(s@),
        None => Some(default),
    }
}

/// The base address: the variable's value without trailing slashes.
pub open spec fn base_value(vars: EnvVars) -> Seq<char> {
    strip_trailing(or_default(vars.base_url, "http://localhost:3000"@), '/')
}

/// The message of the first setting that is wrong, in the order they are read;
/// `None` when all are right. `addr_ok` says whether the bind address parses.
pub open spec fn config_error(vars: EnvVars, addr_ok: bool) -> Option<Seq<char>> {
    checked_error(vars, url_parses(base_value(vars)), addr_ok)
}

/// `config_error`, given whether the base address parses (`url_ok`) and
/// whether the bind address parses (`addr_ok`).
pub open spec fn checked_error(vars: EnvVars, url_ok: bool, addr_ok: bool) -> Option<Seq<char>> {
    if !url_ok {
        Some("Érvénytelen APP_BASE_URL"@)
    } else if !addr_ok {
        Some("Érvénytelen BIND_ADDR"@)
    } else if bool_text(or_default(vars.session_secure, "false"@)) is None {
        Some("Érvénytelen SESSION_SECURE"@)
    } else if number_value(vars.session_hours, 168) is None {
        Some("Érvénytelen SESSION_MAX_AGE_HOURS"@)
    } else if number_value(vars.link_ttl, 15) is None {
        Some("Érvénytelen MAGIC_LINK_TTL_MINUTES"@)
    } else if number_value(vars.links_per_hour, 5) is None {
        Some("Érvénytelen MAGIC_LINK_REQUESTS_PER_HOUR"@)
    } else if vars.postmark_token is None {
        Some("Hiányzó környezeti változó: POSTMARK_SERVER_TOKEN"@)
    } else if vars.postmark_from is None {
        Some("Hiányzó környezeti változó: POSTMARK_FROM"@)
    } else if vars.bootstrap_admin is None {
        Some("Hiányzó környezeti változó: BOOTSTRAP_ADMIN_EMAIL"@)
    } else {
        None
    }
}

/// Whether `c` is the configuration that `vars` describe.
pub open spec fn config_of(vars: EnvVars, c: Config) -> bool {
    &&& c.addr@ == or_default(vars.bind_addr, "127.0.0.1:3000"@)
    &&& c.db@ == or_default(vars.database_url, "sqlite://./data/app.db?mode=rwc"@)
    &&& c.base@ == base_value(vars)
    &&& c.cors@ == or_default(vars.cors_origin, "http://localhost:5173"@)
    &&& c.dist@ == or_default(vars.dist_dir, "./frontend/dist"@)
    &&& c.cookie@ == or_default(vars.cookie_name, "app_session"@)
    &&& Some(c.secure) == bool_text(or_default(vars.session_secure, "false"@))
    &&& Some(c.session_hours) == number_value(vars.session_hours, 168)
    &&& Some(c.ttl) == number_value(vars.link_ttl, 15)
    &&& Some(c.per_hour) == number_value(vars.links_per_hour, 5)
    &&& Some(c.token@) == opt_view(vars.postmark_token)
    &&& Some(c.from@) == opt_view(vars.postmark_from)
    &&& c.stream@ == or_default(vars.postmark_stream, "outbound"@)
    &&& Some(c.admin@) == opt_view(vars.bootstrap_admin)
}

fn value_or(v: Option<String>, default: &str) -> (r: String)
    ensures
        r@ == or_default(v, default@),
{
    match v {
        Some(s) => s,
        None => default.to_owned(),
    }
}

fn number_or(v: &Option<String>, default: i64) -> (r: Option<i64>)
    ensures
        r == number_value(*v, default),
{
    match v {
        Some(s) => parse_i64(s.as_str()),
        None => Some(default),
    }
}

/// The text of the bind address: `BIND_ADDR`, or `127.0.0.1:3000`.
pub fn bind_addr(vars: &EnvVars) -> (r: String)
    ensures
        r@ == or_default(vars.bind_addr, "127.0.0.1:3000"@),
        r@ == match vars.bind_addr {
            Some(s) => s@,
            None => "127.0.0.1:3000"@,
        },
{
    match &vars.bind_addr {
        Some(s) => s.clone(),
        None => "127.0.0.1:3000".to_owned(),
    }
}

impl Config {
    /// Builds the configuration from the environment's variables, with the
    /// defaults for unset ones; the first wrong setting is reported.
    /// `addr_ok` says whether the text of `bind_addr` parses as a socket address.
    pub fn load(vars: EnvVars, addr_ok: bool) -> (r: Result<Config, String>)
        ensures
            match config_error(vars, addr_ok) {
                Some(m) => r matches Err(e) && e@ == m,
                None => r matches Ok(c) && config_of(vars, c),
            },
            r matches Ok(c) ==> {
                &&& c.addr@ == match vars.bind_addr {
                    Some(s) => s@,
                    None => "127.0.0.1:3000"@,
                }
                &&& c.db@ == match vars.database_url {
                    Some(s) => s@,
                    None => "sqlite://./data/app.db?mode=rwc"@,
                }
                &&& c.base@ == strip_trailing(
                    match vars.base_url {
                        Some(s) => s@,
                        None => "http://localhost:3000"@,
                    },
                    '/',
                )
                &&& c.cors@ == match vars.cors_origin {
                    Some(s) => s@,
                    None => "http://localhost:5173"@,
                }
                &&& c.dist@ == match vars.dist_dir {
                    Some(s) => s@,
                    None => "./frontend/dist"@,
                }
                &&& c.cookie@ == match vars.cookie_name {
                    Some(s) => s@,
                    None => "app_session"@,
                }
                &&& match vars.session_secure {
                    Some(s) => bool_text(s@) == Some(c.secure),
                    None => !c.secure,
                }
                &&& match vars.session_hours {
                    Some(s) => i64_text(s@) == Some(c.session_hours),
                    None => c.session_hours == 168,
                }
                &&& match vars.link_ttl {
                    Some(s) => i64_text(s@) == Some(c.ttl),
                    None => c.ttl == 15,
                }
                &&& match vars.links_per_hour {
                    Some(s) => i64_text(s@) == Some(c.per_hour),
                    None => c.per_hour == 5,
                }
                &&& vars.postmark_token matches Some(s) && c.token@ == s@
                &&& vars.postmark_from matches Some(s) && c.from@ == s@
                &&& c.stream@ == match vars.postmark_stream {
                    Some(s) => s@,
                    None => "outbound"@,
                }
                &&& vars.bootstrap_admin matches Some(s) && c.admin@ == s@
            },
    {
        let raw_base = match &vars.base_url {
            Some(s) => s.clone(),
            None => "http://localhost:3000".to_owned(),
        };
        let base = strip_trailing_char(raw_base.as_str(), '/');
        let url_ok = url_valid(base.as_str());
        Config::from_checks(vars, url_ok, addr_ok)
    }

    /// Builds the configuration once it is known whether the base address
    /// parses (`url_ok`) and whether the bind address parses (`addr_ok`).
    pub fn from_checks(vars: EnvVars, url_ok: bool, addr_ok: bool) -> (r: Result<Config, String>)
        ensures
            match checked_error(vars, url_ok, addr_ok) {
                Some(m) => r matches Err(e) && e@ == m,
                None => r matches Ok(c) && config_of(vars, c),
            },
            r matches Ok(c) ==> {
                &&& c.addr@ == match vars.bind_addr {
                    Some(s) => s@,
                    None => "127.0.0.1:3000"@,
                }
                &&& c.db@ == match vars.database_url {
                    Some(s) => s@,
                    None => "sqlite://./data/app.db?mode=rwc"@,
                }
                &&& c.base@ == strip_trailing(
                    match vars.base_url {
                        Some(s) => s@,
                        None => "http://localhost:3000"@,
                    },
                    '/',
                )
                &&& c.cors@ == match vars.cors_origin {
                    Some(s) => s@,
                    None => "http://localhost:5173"@,
                }
                &&& c.dist@ == match vars.dist_dir {
                    Some(s) => s@,
                    None => "./frontend/dist"@,
                }
                &&& c.cookie@ == match vars.cookie_name {
                    Some(s) => s@,
                    None => "app_session"@,
                }
                &&& match vars.session_secure {
                    Some(s) => bool_text(s@) == Some(c.secure),
                    None => !c.secure,
                }
                &&& match vars.session_hours {
                    Some(s) => i64_text(s@) == Some(c.session_hours),
                    None => c.session_hours == 168,
                }
                &&& match vars.link_ttl {
                    Some(s) => i64_text(s@) == Some(c.ttl),
                    None => c.ttl == 15,
                }
                &&& match vars.links_per_hour {
                    Some(s) => i64_text(s@) == Some(c.per_hour),
                    None => c.per_hour == 5,
                }
                &&& vars.postmark_token matches Some(s) && c.token@ == s@
                &&& vars.postmark_from matches Some(s) && c.from@ == s@
                &&& c.stream@ == match vars.postmark_stream {
                    Some(s) => s@,
                    None => "outbound"@,
                }
                &&& vars.bootstrap_admin matches Some(s) && c.admin@ == s@
            },
    {
        proof {
            lemma_false_text();
        }
        let raw_base = value_or(vars.base_url, "http://localhost:3000");
        let base = strip_trailing_char(raw_base.as_str(), '/');
        if !url_ok {
            return Err("Érvénytelen APP_BASE_URL".to_owned());
        }
        if !addr_ok {
            return Err("Érvénytelen BIND_ADDR".to_owned());
        }
        let addr = value_or(vars.bind_addr, "127.0.0.1:3000");
        let secure_text = value_or(vars.session_secure, "false");
        let secure = match parse_bool(secure_text.as_str()) {
            Some(b) => b,
            None => return Err("Érvénytelen SESSION_SECURE".to_owned()),
        };
        let session_hours = match number_or(&vars.session_hours, 168) {
            Some(n) => n,
            None => return Err("Érvénytelen SESSION_MAX_AGE_HOURS".to_owned()),
        };
        let ttl = match number_or(&vars.link_ttl, 15) {
            Some(n) => n,
            None => return Err("Érvénytelen MAGIC_LINK_TTL_MINUTES".to_owned()),
        };
        let per_hour = match number_or(&vars.links_per_hour, 5) {
            Some(n) => n,
            None => return Err("Érvénytelen MAGIC_LINK_REQUESTS_PER_HOUR".to_owned()),
        };
        let token = match vars.postmark_token {
            Some(s) => s,
            None => return Err("Hiányzó környezeti változó: POSTMARK_SERVER_TOKEN".to_owned()),
        };
        let from = match vars.postmark_from {
            Some(s) => s,
            None => return Err("Hiányzó környezeti változó: POSTMARK_FROM".to_owned()),
        };
        let admin = match vars.bootstrap_admin {
            Some(s) => s,
            None => return Err("Hiányzó környezeti változó: BOOTSTRAP_ADMIN_EMAIL".to_owned()),
        };
        let c = Config {
            addr,
            db: value_or(vars.database_url, "sqlite://./data/app.db?mode=rwc"),
            base,
            cors: value_or(vars.cors_origin, "http://localhost:5173"),
            dist: value_or(vars.dist_dir, "./frontend/dist"),
            cookie: value_or(vars.cookie_name, "app_session"),
            secure,
            session_hours,
            ttl,
            per_hour,
            token,
            from,
            stream: value_or(vars.postmark_stream, "outbound"),
            admin,
        };
        Ok(c)
    }
}

} // verus!
