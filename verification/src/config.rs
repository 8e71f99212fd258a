//! Settings: the constants of the service and the configuration read from the environment.
use vstd::prelude::*;
use crate::num::{int_error_message, int_error_text, parse_u16, parse_u16_spec};
use crate::text::{
    chars_of, concat, lemma_split_on_nonempty, slice_of, split, split_on, string_from, trim,
    trimmed_chars,
};
use crate::util::{opt_view, strings_view};

verus! {

/// Admin JWT lifetime: 3 days.
pub const JWT_TTL_SECS: i64 = 259200;

/// Lifetime of a direct-upload token: 5 minutes. The front end uploads right away.
pub const BLOB_TOKEN_TTL_MS: i64 = 300000;

/// Size limit of a direct upload: 25MB.
pub const BLOB_MAX_SIZE_BYTES: i64 = 26214400;

/// Content types a direct upload may have (common image formats).
pub const BLOB_ALLOWED_CONTENT_TYPES: [&'static str; 8] = [
    "image/jpeg",
    "image/png",
    "image/gif",
    "image/webp",
    "image/avif",
    "image/svg+xml",
    "image/bmp",
    "image/x-icon",
];

/// Window in which one IP counts once, for views and likes alike: 1 hour.
pub const VIEW_DEDUPE_SECS: u64 = 3600;

/// How many days view records are kept.
pub const VIEW_RETENTION_DAYS: i64 = 90;

/// Failed logins before a ban.
pub const LOGIN_MAX_FAILURES: i64 = 3;

/// Ban length: 90 days.
pub const BAN_SECS: u64 = 7776000;

/// The search service's keys. The search key only ever serves reads; the write key never
/// appears on a read path.
#[derive(Clone, Debug)]
pub struct AlgoliaEnv {
    pub app_id: String,
    pub search_key: String,
    pub write_key: String,
}

/// Site information from the environment, seeded into an empty site record once.
#[derive(Clone, Debug)]
pub struct SiteEnv {
    pub name: Option<String>,
    pub icon: Option<String>,
    pub banner: Option<String>,
    pub copyright: Option<String>,
}

/// SMTP settings from the environment, used when no enabled mail configuration is stored.
#[derive(Clone, Debug)]
pub struct MailEnv {
    pub host: String,
    pub port: u16,
    pub username: String,
    pub password: String,
    pub from: String,
}

pub struct AppConfig {
    pub jwt_secret: String,
    pub cron_secret: String,
    pub site: SiteEnv,
    pub mail: MailEnv,
    pub algolia: AlgoliaEnv,
    pub blob_token: String,
    pub blob_store_id: String,
    pub cors_origins: Vec<String>,
}

/// The process environment, as (name, value) pairs of the variables that are set.
pub struct EnvVars {
    pub vars: Vec<(String, String)>,
}

impl View for EnvVars {
    type V = Seq<(Seq<char>, Seq<char>)>;

    open spec fn view(&self) -> Seq<(Seq<char>, Seq<char>)> {
        self.vars@.map_values(|p: (String, String)| (p.0@, p.1@))
    }
}

/// The value of the variable `key`, if set.
pub open spec fn env_get(env: Seq<(Seq<char>, Seq<char>)>, key: Seq<char>) -> Option<Seq<char>>
    decreases env.len(),
{
    if env.len() == 0 {
        None
    } else if env[0].0 == key {
        Some(env[0].1)
    } else {
        env_get(env.drop_first(), key)
    }
}

/// A variable, trimmed, when it is set and not blank.
pub open spec fn env_value(env: Seq<(Seq<char>, Seq<char>)>, key: Seq<char>) -> Option<Seq<char>> {
    match env_get(env, key) {
        Some(v) => if trim(v).len() > 0 {
            Some(trim(v))
        } else {
            None
        },
        None => None,
    }
}

pub open spec fn missing_msg(key: Seq<char>) -> Seq<char> {
    "缺少必需的环境变量: "@ + key
}

impl EnvVars {
    /// The raw value of `key`, if set.
    pub fn get(&self, key: &str) -> (r: Option<&str>)
        ensures
            match r {
                Some(v) => env_get(self@, key@) == Some(v@),
                None => env_get(self@, key@) is None,
            },
    {
        let kv = chars_of(key);
        let mut i: usize = 0;
        assert(self@.skip(0) == self@);
        while i < self.vars.len()
            invariant
                i <= self.vars@.len(),
                kv@ == key@,
                env_get(self@, key@) == env_get(self@.skip(i as int), key@),
            decreases self.vars.len() - i,
        {
            let p = &self.vars[i];
            proof {
                assert(self@.skip(i as int)[0] == self@[i as int]);
                assert(self@.skip(i as int).drop_first() == self@.skip(i + 1));
            }
            let pk = chars_of(p.0.as_str());
            if crate::text::same_chars(&pk, &kv) {
                return Some(p.1.as_str());
            }
            i += 1;
        }
        None
    }
}

/// A variable that must be set and not blank; its value is trimmed.
pub fn env_required(env: &EnvVars, key: &str) -> (r: Result<String, String>)
    ensures
        match r {
            Ok(v) => env_value(env@, key@) == Some(v@),
            Err(m) => env_value(env@, key@) is None && m@ == missing_msg(key@),
        },
{
    match env_optional(env, key) {
        Some(v) => Ok(v),
        None => Err(concat("缺少必需的环境变量: ", key)),
    }
}

/// A variable that may be absent; blank counts as absent, the value is trimmed.
pub fn env_optional(env: &EnvVars, key: &str) -> (r: Option<String>)
    ensures
        opt_view(&r) == env_value(env@, key@),
{
    match env.get(key) {
        None => None,
        Some(v) => {
            let t = trimmed_chars(v);
            if t.len() == 0 {
                None
            } else {
                Some(string_from(&t))
            }
        },
    }
}


// ---------------------------------------------------------------------------
// Reading the whole configuration
// ---------------------------------------------------------------------------

/// The store id inside a blob token `vercel_blob_rw_<storeId>_<secret>`: its fourth
/// `_`-separated piece, when that piece exists and is not empty.
pub open spec fn blob_store_id_of(token: Seq<char>) -> Option<Seq<char>> {
    let parts = split_on(token, '_');
    if parts.len() > 3 && parts[3].len() > 0 {
        Some(parts[3])
    } else {
        None
    }
}

/// `s` without any trailing `c` (`str::trim_end_matches` with one char).
pub open spec fn strip_trailing(s: Seq<char>, c: char) -> Seq<char>
    decreases s.len(),
{
    if s.len() > 0 && s.last() == c {
        strip_trailing(s.drop_last(), c)
    } else {
        s
    }
}

/// One allowed origin as configured: trimmed, without trailing slashes.
pub open spec fn cors_entry(piece: Seq<char>) -> Seq<char> {
    strip_trailing(trim(piece), '/')
}

/// The allowed origins: the non-empty entries, in order.
pub open spec fn cors_list(pieces: Seq<Seq<char>>) -> Seq<Seq<char>>
    decreases pieces.len(),
{
    if pieces.len() == 0 {
        Seq::empty()
    } else {
        let prev = cors_list(pieces.drop_last());
        let e = cors_entry(pieces.last());
        if e.len() > 0 {
            prev.push(e)
        } else {
            prev
        }
    }
}

pub open spec fn cors_origins_of(value: Seq<char>) -> Seq<Seq<char>> {
    cors_list(split_on(value, ','))
}

pub open spec fn store_id_msg() -> Seq<char> {
    "无法从 BLOB_READ_WRITE_TOKEN 解析 storeId, 请显式设置 BLOB_STORE_ID"@
}

pub open spec fn port_msg(e: crate::num::IntError) -> Seq<char> {
    "mail_port 不是合法端口: "@ + int_error_text(e)
}

/// The variables that are read after the blob, port and CORS settings, in the order in which
/// the first missing one is reported.
pub open spec fn later_keys() -> Seq<Seq<char>> {
    seq![
        "JWT_SECRET"@,
        "CRON_SECRET"@,
        "mail_host"@,
        "mail_username"@,
        "mail_password"@,
        "mail_from"@,
        "algolia_app_id"@,
        "algolia_search_key"@,
        "algolia_write_key"@,
    ]
}

/// The error of the first key of `keys` that is missing or blank.
pub open spec fn first_missing(env: Seq<(Seq<char>, Seq<char>)>, keys: Seq<Seq<char>>) -> Option<Seq<char>>
    decreases keys.len(),
{
    if keys.len() == 0 {
        None
    } else if env_value(env, keys[0]) is None {
        Some(missing_msg(keys[0]))
    } else {
        first_missing(env, keys.drop_first())
    }
}

/// Why the environment cannot configure the service, if it cannot: the first problem, in the
/// order in which the settings are read.
pub open spec fn config_error(env: Seq<(Seq<char>, Seq<char>)>) -> Option<Seq<char>> {
    let token = env_value(env, "BLOB_READ_WRITE_TOKEN"@);
    let port = env_value(env, "mail_port"@);
    if token is None {
        Some(missing_msg("BLOB_READ_WRITE_TOKEN"@))
    } else if env_value(env, "BLOB_STORE_ID"@) is None && blob_store_id_of(token.unwrap()) is None {
        Some(store_id_msg())
    } else if port is None {
        Some(missing_msg("mail_port"@))
    } else if parse_u16_spec(port.unwrap()) is Err {
        Some(port_msg(parse_u16_spec(port.unwrap())->Err_0))
    } else if env_value(env, "CORS_ORIGINS"@) is None {
        Some(missing_msg("CORS_ORIGINS"@))
    } else {
        first_missing(env, later_keys())
    }
}

/// Everything in `cfg` is what the environment says.
pub open spec fn config_of(cfg: AppConfig, env: Seq<(Seq<char>, Seq<char>)>) -> bool {
    let token = env_value(env, "BLOB_READ_WRITE_TOKEN"@).unwrap();
    &&& cfg.blob_token@ == token
    &&& cfg.blob_store_id@ == (match env_value(env, "BLOB_STORE_ID"@) {
        Some(id) => id,
        None => blob_store_id_of(token).unwrap(),
    })
    &&& cfg.mail.port == parse_u16_spec(env_value(env, "mail_port"@).unwrap())->Ok_0
    &&& strings_view(cfg.cors_origins@) == cors_origins_of(env_value(env, "CORS_ORIGINS"@).unwrap())
    &&& cfg.jwt_secret@ == env_value(env, "JWT_SECRET"@).unwrap()
    &&& cfg.cron_secret@ == env_value(env, "CRON_SECRET"@).unwrap()
    &&& opt_view(&cfg.site.name) == env_value(env, "site_name"@)
    &&& opt_view(&cfg.site.icon) == env_value(env, "site_icon"@)
    &&& opt_view(&cfg.site.banner) == env_value(env, "site_banner"@)
    &&& opt_view(&cfg.site.copyright) == env_value(env, "site_copyright"@)
    &&& cfg.mail.host@ == env_value(env, "mail_host"@).unwrap()
    &&& cfg.mail.username@ == env_value(env, "mail_username"@).unwrap()
    &&& cfg.mail.password@ == env_value(env, "mail_password"@).unwrap()
    &&& cfg.mail.from@ == env_value(env, "mail_from"@).unwrap()
    &&& cfg.algolia.app_id@ == env_value(env, "algolia_app_id"@).unwrap()
    &&& cfg.algolia.search_key@ == env_value(env, "algolia_search_key"@).unwrap()
    &&& cfg.algolia.write_key@ == env_value(env, "algolia_write_key"@).unwrap()
}

/// The store id inside a blob token, if it has one.
pub fn store_id_from_token(token: &str) -> (r: Option<String>)
    ensures
        opt_view(&r) == blob_store_id_of(token@),
{
    let v = chars_of(token);
    let parts = split(&v, '_');
    if parts.len() > 3 && parts[3].len() > 0 {
        Some(string_from(&parts[3]))
    } else {
        None
    }
}

/// The allowed origins of a `CORS_ORIGINS` value.
pub fn parse_cors_origins(value: &str) -> (r: Vec<String>)
    ensures
        strings_view(r@) == cors_origins_of(value@),
{
    let v = chars_of(value);
    let pieces = split(&v, ',');
    let ghost ps = split_on(value@, ',');
    let mut out: Vec<String> = Vec::new();
    let mut i: usize = 0;
    while i < pieces.len()
        invariant
            i <= pieces@.len() == ps.len(),
            forall|k: int| 0 <= k < pieces@.len() ==> #[trigger] pieces@[k]@ == ps[k],
            strings_view(out@) == cors_list(ps.take(i as int)),
        decreases pieces.len() - i,
    {
        let t = string_from(&pieces[i]);
        let tv = trimmed_chars(t.as_str());
        let mut hi = tv.len();
        assert(tv@.take(hi as int) == tv@);
        while hi > 0 && tv[hi - 1] == '/'
            invariant
                hi <= tv@.len(),
                strip_trailing(tv@, '/') == strip_trailing(tv@.take(hi as int), '/'),
            decreases hi,
        {
            proof {
                assert(tv@.take(hi as int).drop_last() == tv@.take(hi - 1));
            }
            hi -= 1;
        }
        proof {
            assert(tv@.take(tv@.len() as int) == tv@);
            assert(ps.take(i + 1).drop_last() == ps.take(i as int));
            assert(ps.take(i + 1).last() == ps[i as int]);
            assert(strip_trailing(tv@.take(hi as int), '/') == tv@.take(hi as int));
        }
        if hi > 0 {
            let e = slice_of(&tv, 0, hi);
            out.push(string_from(&e));
            proof {
                assert(tv@.subrange(0, hi as int) == tv@.take(hi as int));
                assert(strings_view(out@) == cors_list(ps.take(i as int)).push(cors_entry(ps[i as int])));
            }
        }
        i += 1;
    }
    proof {
        assert(ps.take(ps.len() as int) == ps);
    }
    out
}

proof fn lemma_first_missing_step(env: Seq<(Seq<char>, Seq<char>)>, keys: Seq<Seq<char>>)
    requires
        keys.len() > 0,
        env_value(env, keys[0]) is Some,
    ensures
        first_missing(env, keys) == first_missing(env, keys.drop_first()),
{
}

impl AppConfig {
    /// Reads and checks every setting from the environment at start-up.
    ///
    /// Missing mail settings must stop the process here rather than at the first mail: the
    /// review path would lose one notice each time it fails.
    pub fn from_env(env: &EnvVars) -> (r: Result<AppConfig, String>)
        ensures
            match r {
                Ok(cfg) => config_error(env@) is None && config_of(cfg, env@),
                Err(m) => config_error(env@) == Some(m@),
            },
    {
        let blob_token = match env_required(env, "BLOB_READ_WRITE_TOKEN") {
            Ok(v) => v,
            Err(m) => {
                return Err(m);
            },
        };
        let blob_store_id = match env_optional(env, "BLOB_STORE_ID") {
            Some(v) => v,
            None => match store_id_from_token(blob_token.as_str()) {
                Some(id) => id,
                None => {
                    return Err(
                        "无法从 BLOB_READ_WRITE_TOKEN 解析 storeId, 请显式设置 BLOB_STORE_ID".to_owned(),
                    );
                },
            },
        };
        let port_text = match env_required(env, "mail_port") {
            Ok(v) => v,
            Err(m) => {
                return Err(m);
            },
        };
        let mail_port = match parse_u16(&chars_of(port_text.as_str())) {
            Ok(p) => p,
            Err(e) => {
                return Err(concat("mail_port 不是合法端口: ", int_error_message(e)));
            },
        };
        let cors_value = match env_required(env, "CORS_ORIGINS") {
            Ok(v) => v,
            Err(m) => {
                return Err(m);
            },
        };
        let cors_origins = parse_cors_origins(cors_value.as_str());
        let ghost keys = later_keys();
        assert(first_missing(env@, keys) == config_error(env@));
        let jwt_secret = match env_required(env, "JWT_SECRET") {
            Ok(v) => v,
            Err(m) => {
                return Err(m);
            },
        };
        proof {
            lemma_first_missing_step(env@, keys);
        }
        let ghost keys = keys.drop_first();
        let cron_secret = match env_required(env, "CRON_SECRET") {
            Ok(v) => v,
            Err(m) => {
                return Err(m);
            },
        };
        proof {
            lemma_first_missing_step(env@, keys);
        }
        let ghost keys = keys.drop_first();
        let site = SiteEnv {
            name: env_optional(env, "site_name"),
            icon: env_optional(env, "site_icon"),
            banner: env_optional(env, "site_banner"),
            copyright: env_optional(env, "site_copyright"),
        };
        let host = match env_required(env, "mail_host") {
            Ok(v) => v,
            Err(m) => {
                return Err(m);
            },
        };
        proof {
            lemma_first_missing_step(env@, keys);
        }
        let ghost keys = keys.drop_first();
        let username = match env_required(env, "mail_username") {
            Ok(v) => v,
            Err(m) => {
                return Err(m);
            },
        };
        proof {
            lemma_first_missing_step(env@, keys);
        }
        let ghost keys = keys.drop_first();
        let password = match env_required(env, "mail_password") {
            Ok(v) => v,
            Err(m) => {
                return Err(m);
            },
        };
        proof {
            lemma_first_missing_step(env@, keys);
        }
        let ghost keys = keys.drop_first();
        let from = match env_required(env, "mail_from") {
            Ok(v) => v,
            Err(m) => {
                return Err(m);
            },
        };
        proof {
            lemma_first_missing_step(env@, keys);
        }
        let ghost keys = keys.drop_first();
        let app_id = match env_required(env, "algolia_app_id") {
            Ok(v) => v,
            Err(m) => {
                return Err(m);
            },
        };
        proof {
            lemma_first_missing_step(env@, keys);
        }
        let ghost keys = keys.drop_first();
        let search_key = match env_required(env, "algolia_search_key") {
            Ok(v) => v,
            Err(m) => {
                return Err(m);
            },
        };
        proof {
            lemma_first_missing_step(env@, keys);
        }
        let ghost keys = keys.drop_first();
        let write_key = match env_required(env, "algolia_write_key") {
            Ok(v) => v,
            Err(m) => {
                return Err(m);
            },
        };
        proof {
            lemma_first_missing_step(env@, keys);
            assert(keys.drop_first().len() == 0);
        }
        Ok(AppConfig {
            jwt_secret,
            cron_secret,
            site,
            mail: MailEnv { host, port: mail_port, username, password, from },
            algolia: AlgoliaEnv { app_id, search_key, write_key },
            blob_token,
            blob_store_id,
            cors_origins,
        })
    }
}

// ---------------------------------------------------------------------------
// Connection strings
// ---------------------------------------------------------------------------

/// The first of `keys` that is set to a non-empty value (taken as it is, not trimmed).
pub open spec fn first_set(env: Seq<(Seq<char>, Seq<char>)>, keys: Seq<Seq<char>>) -> Option<Seq<char>>
    decreases keys.len(),
{
    if keys.len() == 0 {
        None
    } else {
        match env_get(env, keys[0]) {
            Some(v) => if v.len() > 0 {
                Some(v)
            } else {
                first_set(env, keys.drop_first())
            },
            None => first_set(env, keys.drop_first()),
        }
    }
}

/// `keys` joined by `sep`.
pub open spec fn joined(keys: Seq<Seq<char>>, sep: Seq<char>) -> Seq<char>
    decreases keys.len(),
{
    if keys.len() == 0 {
        Seq::empty()
    } else if keys.len() == 1 {
        keys[0]
    } else {
        joined(keys.drop_last(), sep) + sep + keys.last()
    }
}

pub open spec fn strs_view(keys: Seq<&str>) -> Seq<Seq<char>> {
    keys.map_values(|k: &str| k@)
}

pub open spec fn env_url_spec(env: Seq<(Seq<char>, Seq<char>)>, keys: Seq<Seq<char>>) -> Result<Seq<char>, Seq<char>> {
    match first_set(env, keys) {
        Some(v) => Ok(v),
        None => Err("缺少环境变量: "@ + joined(keys, " / "@)),
    }
}

/// The first of the given variables that is set and not empty.
pub fn env_url(env: &EnvVars, keys: &[&str]) -> (r: Result<String, String>)
    ensures
        match r {
            Ok(v) => env_url_spec(env@, strs_view(keys@)) == Ok::<Seq<char>, Seq<char>>(v@),
            Err(m) => env_url_spec(env@, strs_view(keys@)) == Err::<Seq<char>, Seq<char>>(m@),
        },
{
    let ghost ks = strs_view(keys@);
    let mut i: usize = 0;
    assert(ks.skip(0) == ks);
    while i < keys.len()
        invariant
            i <= keys@.len(),
            ks == strs_view(keys@),
            first_set(env@, ks) == first_set(env@, ks.skip(i as int)),
        decreases keys.len() - i,
    {
        proof {
            assert(ks.skip(i as int)[0] == keys@[i as int]@);
            assert(ks.skip(i as int).drop_first() == ks.skip(i + 1));
        }
        match env.get(keys[i]) {
            Some(v) => {
                if chars_of(v).len() > 0 {
                    return Ok(v.to_owned());
                }
            },
            None => {},
        }
        i += 1;
    }
    let mut list = String::new();
    let mut j: usize = 0;
    while j < keys.len()
        invariant
            j <= keys@.len(),
            ks == strs_view(keys@),
            list@ == joined(ks.take(j as int), " / "@),
        decreases keys.len() - j,
    {
        proof {
            assert(ks.take(j + 1).drop_last() == ks.take(j as int));
            assert(ks.take(j + 1).last() == keys@[j as int]@);
        }
        if j == 0 {
            list = keys[0].to_owned();
            assert(ks.take(1) == seq![ks[0]]);
        } else {
            list = concat(list.as_str(), " / ");
            list = concat(list.as_str(), keys[j]);
        }
        j += 1;
    }
    proof {
        assert(ks.take(ks.len() as int) == ks);
        assert(ks.skip(keys@.len() as int).len() == 0);
    }
    Err(concat("缺少环境变量: ", list.as_str()))
}


pub open spec fn migration_url_spec(env: Seq<(Seq<char>, Seq<char>)>) -> Result<Seq<char>, Seq<char>> {
    match env_url_spec(env, seq!["POSTGRES_URL_NON_POOLING"@]) {
        Ok(v) => Ok(v),
        Err(_) => env_url_spec(env, seq!["POSTGRES_URL"@, "POSTGRES_PRISMA_URL"@]),
    }
}

/// The connection string for migrations: the direct (non-pooling) address first, because
/// migrations serialise on an advisory lock that a transaction pooler does not keep; the
/// pooled addresses only when no direct one is set.
pub fn migration_url(env: &EnvVars) -> (r: Result<String, String>)
    ensures
        match r {
            Ok(v) => migration_url_spec(env@) == Ok::<Seq<char>, Seq<char>>(v@),
            Err(m) => migration_url_spec(env@) == Err::<Seq<char>, Seq<char>>(m@),
        },
{
    let direct = vec!["POSTGRES_URL_NON_POOLING"];
    assert(strs_view(direct@) == seq!["POSTGRES_URL_NON_POOLING"@]);
    match env_url(env, direct.as_slice()) {
        Ok(v) => Ok(v),
        Err(_) => {
            let pooled = vec!["POSTGRES_URL", "POSTGRES_PRISMA_URL"];
            assert(strs_view(pooled@) == seq!["POSTGRES_URL"@, "POSTGRES_PRISMA_URL"@]);
            env_url(env, pooled.as_slice())
        },
    }
}

pub open spec fn postgres_url_spec(env: Seq<(Seq<char>, Seq<char>)>) -> Result<Seq<char>, Seq<char>> {
    env_url_spec(env, seq!["POSTGRES_URL"@, "POSTGRES_PRISMA_URL"@, "POSTGRES_URL_NON_POOLING"@])
}

/// The application's connection string: the pooled address first.
pub fn postgres_url(env: &EnvVars) -> (r: Result<String, String>)
    ensures
        match r {
            Ok(v) => postgres_url_spec(env@) == Ok::<Seq<char>, Seq<char>>(v@),
            Err(m) => postgres_url_spec(env@) == Err::<Seq<char>, Seq<char>>(m@),
        },
{
    let keys = vec!["POSTGRES_URL", "POSTGRES_PRISMA_URL", "POSTGRES_URL_NON_POOLING"];
    assert(strs_view(keys@) == seq!["POSTGRES_URL"@, "POSTGRES_PRISMA_URL"@, "POSTGRES_URL_NON_POOLING"@]);
    env_url(env, keys.as_slice())
}

/// `p` occurs in `s` at `i`.
pub open spec fn occurs_at(s: Seq<char>, p: Seq<char>, i: int) -> bool {
    0 <= i && i + p.len() <= s.len() && s.subrange(i, i + p.len()) == p
}

/// The first place at or after `i` where `p` occurs in `s`, if any.
pub open spec fn first_occurrence(s: Seq<char>, p: Seq<char>, i: int) -> Option<int>
    decreases s.len() + 1 - i,
{
    if i < 0 || i + p.len() > s.len() {
        None
    } else if occurs_at(s, p, i) {
        Some(i)
    } else {
        first_occurrence(s, p, i + 1)
    }
}

/// `s` with the first occurrence of `from` replaced by `to` (`str::replacen(from, to, 1)`).
pub open spec fn replace_first(s: Seq<char>, from: Seq<char>, to: Seq<char>) -> Seq<char> {
    match first_occurrence(s, from, 0) {
        Some(i) => s.take(i) + to + s.skip(i + from.len()),
        None => s,
    }
}

fn occurs_at_exec(s: &Vec<char>, p: &Vec<char>, i: usize) -> (b: bool)
    requires
        i + p@.len() <= s@.len(),
    ensures
        b == occurs_at(s@, p@, i as int),
{
    let n = s.len();
    let mut k: usize = 0;
    while k < p.len()
        invariant
            i + p@.len() <= s@.len(),
            n == s@.len(),
            k <= p@.len(),
            forall|j: int| 0 <= j < k ==> s@[i + j] == p@[j],
        decreases p.len() - k,
    {
        if s[i + k] != p[k] {
            assert(s@.subrange(i as int, i + p@.len())[k as int] != p@[k as int]);
            return false;
        }
        k += 1;
    }
    assert(s@.subrange(i as int, i + p@.len()) =~= p@);
    true
}

/// `str::replacen(from, to, 1)`.
pub fn replace_first_exec(s: &str, from: &str, to: &str) -> (r: String)
    ensures
        r@ == replace_first(s@, from@, to@),
{
    let sv = chars_of(s);
    let fv = chars_of(from);
    let n = sv.len();
    let mut i: usize = 0;
    if fv.len() == 0 {
        // the empty pattern occurs at the very start
        assert(from@ =~= Seq::<char>::empty());
        assert(s@.subrange(0, 0) =~= from@);
        assert(occurs_at(s@, from@, 0));
        let r = concat(to, s);
        assert(r@ =~= replace_first(s@, from@, to@));
        return r;
    }
    if fv.len() > sv.len() {
        return s.to_owned();
    }
    while i <= sv.len() - fv.len()
        invariant
            sv@ == s@,
            fv@ == from@,
            fv@.len() <= sv@.len(),
            n == sv@.len(),
            fv@.len() > 0,
            i <= sv@.len() - fv@.len() + 1,
            first_occurrence(s@, from@, 0) == first_occurrence(s@, from@, i as int),
        decreases sv.len() + 1 - i,
    {
        if occurs_at_exec(&sv, &fv, i) {
            let head = string_of_range(&sv, 0, i);
            let with = concat(head.as_str(), to);
            let tail = string_of_range(&sv, i + fv.len(), sv.len());
            let r = concat(with.as_str(), tail.as_str());
            assert(r@ =~= replace_first(s@, from@, to@));
            return r;
        }
        i += 1;
    }
    s.to_owned()
}

fn string_of_range(v: &Vec<char>, lo: usize, hi: usize) -> (s: String)
    requires
        lo <= hi <= v@.len(),
    ensures
        s@ == v@.subrange(lo as int, hi as int),
{
    crate::text::string_of(v, lo, hi)
}

pub open spec fn valkey_url_spec(env: Seq<(Seq<char>, Seq<char>)>) -> Result<Seq<char>, Seq<char>> {
    match env_url_spec(env, seq!["aiven_valkey_service_uri"@, "AIVEN_VALKEY_SERVICE_URI"@]) {
        Ok(v) => Ok(replace_first(replace_first(v, "valkeys://"@, "rediss://"@), "valkey://"@, "redis://"@)),
        Err(m) => Err(m),
    }
}

/// The cache's connection string, with a `valkey(s)://` scheme rewritten to the
/// `redis(s)://` that the client understands.
pub fn valkey_url(env: &EnvVars) -> (r: Result<String, String>)
    ensures
        match r {
            Ok(v) => valkey_url_spec(env@) == Ok::<Seq<char>, Seq<char>>(v@),
            Err(m) => valkey_url_spec(env@) == Err::<Seq<char>, Seq<char>>(m@),
        },
{
    let keys = vec!["aiven_valkey_service_uri", "AIVEN_VALKEY_SERVICE_URI"];
    assert(strs_view(keys@) == seq!["aiven_valkey_service_uri"@, "AIVEN_VALKEY_SERVICE_URI"@]);
    match env_url(env, keys.as_slice()) {
        Ok(v) => {
            proof {
                reveal_strlit("valkeys://");
                reveal_strlit("valkey://");
            }
            let a = replace_first_exec(v.as_str(), "valkeys://", "rediss://");
            Ok(replace_first_exec(a.as_str(), "valkey://", "redis://"))
        },
        Err(m) => Err(m),
    }
}

} // verus!
