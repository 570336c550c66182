//! Server configuration read from environment variables: the parsing,
//! defaults and limits applied to the raw values.

use vstd::prelude::*;

use crate::crypto::{master_key_spec, MasterKey};
use crate::error::ApiError;
use crate::library::paths::{path_join, path_join_exec};
use crate::text::{
    append_chars, chars_is, chars_of, dec_nat, fmt_u64, parse_u32, parse_u32_spec, parse_u64,
    parse_u64_spec, parse_usize, parse_usize_spec, str_is, string_of, trim_end_char,
    trim_end_char_chars,
};

verus! {

/// Parallel library scan: enumerate and process pools with bounded queues.
#[derive(Debug, Clone)]
pub struct LibraryScanConfig {
    /// `enum_workers + process_workers` must be `<=` this value
    /// (`EUTERPE_LIBRARY_SCAN_WORKER_TOTAL`, default 10, clamped 2..32).
    pub worker_total: usize,
    /// Enumerate-only workers (`EUTERPE_LIBRARY_SCAN_ENUM_WORKERS`, default 5).
    pub enum_workers: usize,
    /// Process (tags/hash) workers (`EUTERPE_LIBRARY_SCAN_PROCESS_WORKERS`, default 5).
    pub process_workers: usize,
    /// Seed the directory queue with subdirectories at this depth from the library root (default 1).
    pub seed_depth: u32,
    /// Bounded index queue capacity for backpressure (default 512).
    pub index_queue_capacity: usize,
    /// Bounded path queue between enumerate and process (default 2048).
    pub path_queue_capacity: usize,
    /// Verbose scan worker logs when `EUTERPE_DEBUG=true`.
    pub debug: bool,
}

impl Default for LibraryScanConfig {
    fn default() -> (r: LibraryScanConfig)
        ensures
            r.worker_total == 10 && r.enum_workers == 5 && r.process_workers == 5 && r.seed_depth
                == 1 && r.index_queue_capacity == 512 && r.path_queue_capacity == 2048 && !r.debug,
    {
        LibraryScanConfig {
            worker_total: 10,
            enum_workers: 5,
            process_workers: 5,
            seed_depth: 1,
            index_queue_capacity: 512,
            path_queue_capacity: 2048,
            debug: false,
        }
    }
}

/// An unsigned setting: its value when set and parseable, else `default`.
pub open spec fn usize_or(v: Option<Seq<char>>, default: usize) -> usize {
    match v {
        Some(s) => match parse_usize_spec(s) {
            Some(n) => n,
            None => default,
        },
        None => default,
    }
}

/// A positive unsigned setting: its value when set, parseable and above
/// zero, else `default`.
pub open spec fn positive_usize_or(v: Option<Seq<char>>, default: usize) -> usize {
    let n = usize_or(v, 0);
    if n > 0 {
        n
    } else {
        default
    }
}

pub open spec fn clamp(n: usize, lo: usize, hi: usize) -> usize {
    if n < lo {
        lo
    } else if n > hi {
        hi
    } else {
        n
    }
}

pub open spec fn view_opt(v: Option<&str>) -> Option<Seq<char>> {
    match v {
        Some(s) => Some(s@),
        None => None,
    }
}

pub fn usize_setting(v: Option<&str>, default: usize) -> (r: usize)
    ensures
        r == usize_or(view_opt(v), default),
{
    match v {
        Some(s) => {
            let c = chars_of(s);
            match parse_usize(c.as_slice()) {
                Some(n) => n,
                None => default,
            }
        },
        None => default,
    }
}

/// The raw values of the library scan variables, as read from the
/// environment.
pub struct LibraryScanEnv<'a> {
    pub worker_total: Option<&'a str>,
    pub enum_workers: Option<&'a str>,
    pub process_workers: Option<&'a str>,
    pub seed_depth: Option<&'a str>,
    pub index_queue: Option<&'a str>,
    pub path_queue: Option<&'a str>,
}

/// The scan settings the variables give, or why they are refused: the
/// worker total clamped to 2..=32, pools of at least one worker each that
/// together fit the total, and positive queue sizes.
pub open spec fn scan_config_spec(e: LibraryScanEnv) -> Result<
    (usize, usize, usize, u32, usize, usize),
    Seq<char>,
> {
    let total = clamp(usize_or(view_opt(e.worker_total), 10), 2, 32);
    let en = usize_or(view_opt(e.enum_workers), 5);
    let pr = usize_or(view_opt(e.process_workers), 5);
    if en < 1 || pr < 1 {
        Err(
            "EUTERPE_LIBRARY_SCAN_ENUM_WORKERS and EUTERPE_LIBRARY_SCAN_PROCESS_WORKERS must be >= 1"@,
        )
    } else if en > total || pr > total {
        Err(
            "enum workers ("@ + dec_nat(en as nat) + ") and process workers ("@ + dec_nat(
                pr as nat,
            ) + ") must each be <= EUTERPE_LIBRARY_SCAN_WORKER_TOTAL ("@ + dec_nat(total as nat)
                + ")"@,
        )
    } else if en + pr > total {
        Err(
            "EUTERPE_LIBRARY_SCAN_ENUM_WORKERS ("@ + dec_nat(en as nat)
                + ") + EUTERPE_LIBRARY_SCAN_PROCESS_WORKERS ("@ + dec_nat(pr as nat)
                + ") must be <= EUTERPE_LIBRARY_SCAN_WORKER_TOTAL ("@ + dec_nat(total as nat)
                + ")"@,
        )
    } else {
        let seed = match view_opt(e.seed_depth) {
            Some(s) => match parse_u32_spec(s) {
                Some(n) => n,
                None => 1u32,
            },
            None => 1u32,
        };
        Ok(
            (
                total,
                en,
                pr,
                seed,
                positive_usize_or(view_opt(e.index_queue), 512),
                positive_usize_or(view_opt(e.path_queue), 2048),
            ),
        )
    }
}

fn push_lit(v: &mut Vec<char>, s: &str)
    ensures
        final(v)@ == old(v)@ + s@,
{
    let w = chars_of(s);
    append_chars(v, w.as_slice());
}

fn push_num(v: &mut Vec<char>, n: usize)
    ensures
        final(v)@ == old(v)@ + dec_nat(n as nat),
{
    let d = fmt_u64(n as u64);
    append_chars(v, d.as_slice());
}

impl LibraryScanConfig {
    /// The scan configuration the environment values give
    /// (`LibraryScanConfig::from_env` once the variables are read).
    pub fn from_values(e: &LibraryScanEnv) -> (r: Result<LibraryScanConfig, ApiError>)
        ensures
            match scan_config_spec(*e) {
                Ok((t, en, pr, sd, iq, pq)) => r matches Ok(c) && c.worker_total == t
                    && c.enum_workers == en && c.process_workers == pr && c.seed_depth == sd
                    && c.index_queue_capacity == iq && c.path_queue_capacity == pq && !c.debug,
                Err(m) => r matches Err(ApiError::Config(x)) && x@ == m,
            },
    {
        let raw_total = usize_setting(e.worker_total, 10);
        let worker_total = if raw_total < 2 {
            2
        } else if raw_total > 32 {
            32
        } else {
            raw_total
        };
        let enum_workers = usize_setting(e.enum_workers, 5);
        let process_workers = usize_setting(e.process_workers, 5);
        if enum_workers < 1 || process_workers < 1 {
            return Err(
                ApiError::Config(
                    crate::text::str_to_string(
                        "EUTERPE_LIBRARY_SCAN_ENUM_WORKERS and EUTERPE_LIBRARY_SCAN_PROCESS_WORKERS must be >= 1",
                    ),
                ),
            );
        }
        if enum_workers > worker_total || process_workers > worker_total {
            let mut m = chars_of("enum workers (");
            push_num(&mut m, enum_workers);
            push_lit(&mut m, ") and process workers (");
            push_num(&mut m, process_workers);
            push_lit(&mut m, ") must each be <= EUTERPE_LIBRARY_SCAN_WORKER_TOTAL (");
            push_num(&mut m, worker_total);
            push_lit(&mut m, ")");
            return Err(ApiError::Config(string_of(m.as_slice())));
        }
        if enum_workers + process_workers > worker_total {
            let mut m = chars_of("EUTERPE_LIBRARY_SCAN_ENUM_WORKERS (");
            push_num(&mut m, enum_workers);
            push_lit(&mut m, ") + EUTERPE_LIBRARY_SCAN_PROCESS_WORKERS (");
            push_num(&mut m, process_workers);
            push_lit(&mut m, ") must be <= EUTERPE_LIBRARY_SCAN_WORKER_TOTAL (");
            push_num(&mut m, worker_total);
            push_lit(&mut m, ")");
            return Err(ApiError::Config(string_of(m.as_slice())));
        }
        let seed_depth = match e.seed_depth {
            Some(s) => {
                let c = chars_of(s);
                match parse_u32(c.as_slice()) {
                    Some(n) => n,
                    None => 1,
                }
            },
            None => 1,
        };
        let iq = usize_setting(e.index_queue, 0);
        let index_queue_capacity = if iq > 0 {
            iq
        } else {
            512
        };
        let pq = usize_setting(e.path_queue, 0);
        let path_queue_capacity = if pq > 0 {
            pq
        } else {
            2048
        };
        Ok(
            LibraryScanConfig {
                worker_total,
                enum_workers,
                process_workers,
                seed_depth,
                index_queue_capacity,
                path_queue_capacity,
                debug: false,
            },
        )
    }
}

/// An on/off variable: `1`, `true` and `yes` turn it on; any other value
/// turns it off; unset leaves `default`.
pub open spec fn flag_spec(v: Option<Seq<char>>, default: bool) -> bool {
    match v {
        Some(s) => s == "1"@ || s == "true"@ || s == "yes"@,
        None => default,
    }
}

pub fn env_flag(v: Option<&str>, default: bool) -> (r: bool)
    ensures
        r == flag_spec(view_opt(v), default),
{
    match v {
        Some(s) => str_is(s, "1") || str_is(s, "true") || str_is(s, "yes"),
        None => default,
    }
}

/// The most torrents active at once: the variable's value, default 2, at
/// least 1.
pub fn torrent_max_active(v: Option<&str>) -> (r: usize)
    ensures
        r == (if usize_or(view_opt(v), 2) >= 1 {
            usize_or(view_opt(v), 2)
        } else {
            1
        }),
{
    let n = usize_setting(v, 2);
    if n >= 1 {
        n
    } else {
        1
    }
}

/// A text variable that counts only when set and not empty.
pub fn non_empty_setting(v: Option<&str>) -> (r: Option<String>)
    ensures
        match view_opt(v) {
            Some(s) => if s.len() > 0 {
                r matches Some(x) && x@ == s
            } else {
                r is None
            },
            None => r is None,
        },
{
    match v {
        Some(s) => {
            if s.is_empty() {
                None
            } else {
                Some(crate::text::str_to_string(s))
            }
        },
        None => None,
    }
}

/// The public origin derived from the bind address: `http://host:port`,
/// an IPv6 host in brackets.
pub open spec fn default_base_spec(host: Seq<char>, port: u16) -> Seq<char> {
    let h = if host.contains(':') {
        seq!['['] + host + seq![']']
    } else {
        host
    };
    "http://"@ + h + seq![':'] + dec_nat(port as nat)
}

/// `default_public_base_url` given the bind address's IP as text.
pub fn default_public_base_url(host: &str, port: u16) -> (r: String)
    ensures
        r@ == default_base_spec(host@, port),
{
    let hv = chars_of(host);
    let mut out = chars_of("http://");
    if crate::text::contains_char(hv.as_slice(), ':') {
        out.push('[');
        append_chars(&mut out, hv.as_slice());
        out.push(']');
    } else {
        append_chars(&mut out, hv.as_slice());
    }
    out.push(':');
    let d = fmt_u64(port as u64);
    append_chars(&mut out, d.as_slice());
    string_of(out.as_slice())
}

/// The public origin used for redirects: the configured one when set and
/// not empty, else the derived one, without trailing `/`.
pub fn public_base_url(configured: Option<&str>, derived: &str) -> (r: String)
    ensures
        r@ == trim_end_char(
            match view_opt(configured) {
                Some(c) => if c.len() > 0 {
                    c
                } else {
                    derived@
                },
                None => derived@,
            },
            '/',
        ),
{
    let base = match configured {
        Some(c) => {
            if c.is_empty() {
                derived
            } else {
                c
            }
        },
        None => derived,
    };
    let v = chars_of(base);
    let t = trim_end_char_chars(v.as_slice(), '/');
    string_of(t.as_slice())
}

/// Where Qobuz sends the OAuth callback.
pub fn oauth_callback_url(public_base_url: &str) -> (r: String)
    ensures
        r@ == public_base_url@ + "/api/v1/qobuz/oauth/callback"@,
{
    let mut v = chars_of(public_base_url);
    push_lit(&mut v, "/api/v1/qobuz/oauth/callback");
    string_of(v.as_slice())
}

/// The raw values of the server's environment variables (`EUTERPE_*` and
/// `HOME`), as read; `None` where a variable is unset.
pub struct AppEnv<'a> {
    pub database_url: Option<&'a str>,
    pub home: Option<&'a str>,
    pub admin_password: Option<&'a str>,
    pub master_key: Option<&'a str>,
    pub public_base_url: Option<&'a str>,
    pub oauth_state_ttl_secs: Option<&'a str>,
    pub library_path: Option<&'a str>,
    pub torrent_incoming_dir: Option<&'a str>,
    pub torrent_max_active: Option<&'a str>,
    pub torrent_upnp: Option<&'a str>,
    pub download_concurrency: Option<&'a str>,
    pub debug: Option<&'a str>,
    pub static_dir: Option<&'a str>,
    pub qobuz_api_base: Option<&'a str>,
    pub qobuz_play_base: Option<&'a str>,
    pub scan: LibraryScanEnv<'a>,
}

/// The server configuration.
#[derive(Debug, Clone)]
pub struct AppConfig {
    /// The address the server listens on: its IP as text and its port.
    pub bind_host: String,
    pub bind_port: u16,
    pub database_url: String,
    pub admin_password: Option<String>,
    pub master_key: Option<MasterKey>,
    /// Public origin for OAuth redirects, without trailing `/`.
    pub public_base_url: String,
    pub oauth_state_ttl_secs: u64,
    /// Override of the Qobuz API base.
    pub qobuz_api_base: Option<String>,
    /// Override of the play.qobuz.com base.
    pub qobuz_play_base: Option<String>,
    pub library_path: String,
    /// Separate directory for torrent downloads.
    pub torrent_incoming_dir: Option<String>,
    pub torrent_max_active: usize,
    /// UPnP port mapping for the BitTorrent listen port.
    pub torrent_enable_upnp: bool,
    pub download_concurrency: usize,
    pub library_scan: LibraryScanConfig,
    /// Verbose logs (`EUTERPE_DEBUG`).
    pub debug: bool,
    /// Static web app root.
    pub static_dir: String,
}

pub open spec fn text_or(v: Option<Seq<char>>, d: Seq<char>) -> Seq<char> {
    match v {
        Some(s) => s,
        None => d,
    }
}

/// A text variable that counts only when set and not empty.
pub open spec fn nonempty_opt(v: Option<Seq<char>>) -> Option<Seq<char>> {
    match v {
        Some(s) => if s.len() > 0 {
            Some(s)
        } else {
            None
        },
        None => None,
    }
}

/// The database used when none is configured: `library.db` under
/// `$HOME/.local/share/euterpe` (`.` without a home).
pub open spec fn default_database_url(home: Option<Seq<char>>) -> Seq<char> {
    "sqlite:"@ + path_join(text_or(home, "."@), ".local/share/euterpe/library.db"@) + "?mode=rwc"@
}

pub open spec fn opt_texts(o: Option<String>) -> Option<Seq<char>> {
    match o {
        Some(s) => Some(s@),
        None => None,
    }
}

/// What each setting is given the variables: the database URL, or the
/// default one; the public origin, as configured or derived from the bind
/// address, without trailing `/`; a state lifetime of 600 s unless a number
/// is given; `/music` and `frontend/dist` by default; UPnP on and debug off
/// unless set; three downloads at once by default.
pub open spec fn app_config_matches(
    c: AppConfig,
    host: Seq<char>,
    port: u16,
    e: AppEnv,
    key: Option<Seq<u8>>,
    scan: (usize, usize, usize, u32, usize, usize),
) -> bool {
    let debug = flag_spec(view_opt(e.debug), false);
    &&& c.bind_host@ == host
    &&& c.bind_port == port
    &&& c.database_url@ == (match view_opt(e.database_url) {
        Some(u) => u,
        None => default_database_url(view_opt(e.home)),
    })
    &&& opt_texts(c.admin_password) == view_opt(e.admin_password)
    &&& (match c.master_key {
        Some(k) => key == Some(k.key()),
        None => key is None,
    })
    &&& c.public_base_url@ == trim_end_char(
        match nonempty_opt(view_opt(e.public_base_url)) {
            Some(u) => u,
            None => default_base_spec(host, port),
        },
        '/',
    )
    &&& c.oauth_state_ttl_secs == (match view_opt(e.oauth_state_ttl_secs) {
        Some(s) => match parse_u64_spec(s) {
            Some(n) => n,
            None => 600,
        },
        None => 600,
    })
    &&& opt_texts(c.qobuz_api_base) == nonempty_opt(view_opt(e.qobuz_api_base))
    &&& opt_texts(c.qobuz_play_base) == nonempty_opt(view_opt(e.qobuz_play_base))
    &&& c.library_path@ == text_or(view_opt(e.library_path), "/music"@)
    &&& opt_texts(c.torrent_incoming_dir) == nonempty_opt(view_opt(e.torrent_incoming_dir))
    &&& c.torrent_max_active == (if usize_or(view_opt(e.torrent_max_active), 2) >= 1 {
        usize_or(view_opt(e.torrent_max_active), 2)
    } else {
        1
    })
    &&& c.torrent_enable_upnp == flag_spec(view_opt(e.torrent_upnp), true)
    &&& c.download_concurrency == usize_or(view_opt(e.download_concurrency), 3)
    &&& c.debug == debug
    &&& c.library_scan.worker_total == scan.0
    &&& c.library_scan.enum_workers == scan.1
    &&& c.library_scan.process_workers == scan.2
    &&& c.library_scan.seed_depth == scan.3
    &&& c.library_scan.index_queue_capacity == scan.4
    &&& c.library_scan.path_queue_capacity == scan.5
    &&& c.library_scan.debug == debug
    &&& c.static_dir@ == text_or(view_opt(e.static_dir), "frontend/dist"@)
}

fn opt_string(v: Option<&str>) -> (r: Option<String>)
    ensures
        opt_texts(r) == view_opt(v),
{
    match v {
        Some(s) => Some(s.to_string()),
        None => None,
    }
}

impl AppConfig {
    /// The configuration the variables give (`AppConfig::from_env` once
    /// they are read). `bind` is `EUTERPE_BIND` (default `127.0.0.1:8080`)
    /// parsed as a socket address: its IP as text and its port, or the
    /// parser's message. Errors come in this order: the bind address, the
    /// master key (when set and not empty), the scan settings.
    pub fn from_values(bind: Result<(String, u16), String>, e: &AppEnv) -> (r: Result<AppConfig, ApiError>)
        ensures
            match bind {
                Err(m) => r matches Err(ApiError::Config(x)) && x@ == "invalid EUTERPE_BIND: "@ + m@,
                Ok((host, port)) => {
                    let key = match nonempty_opt(view_opt(e.master_key)) {
                        Some(k) => Some(master_key_spec(k)),
                        None => None,
                    };
                    match key {
                        Some(Err(m)) => r matches Err(ApiError::Config(x)) && x@ == m,
                        _ => match scan_config_spec(e.scan) {
                            Err(m) => r matches Err(ApiError::Config(x)) && x@ == m,
                            Ok(t) => r matches Ok(c) && app_config_matches(
                                c,
                                host@,
                                port,
                                *e,
                                match key {
                                    Some(Ok(b)) => Some(b),
                                    _ => None,
                                },
                                t,
                            ),
                        },
                    }
                },
            },
    {
        let (host, port) = match bind {
            Ok(b) => b,
            Err(m) => {
                let mut v = chars_of("invalid EUTERPE_BIND: ");
                append_chars(&mut v, chars_of(m.as_str()).as_slice());
                return Err(ApiError::Config(string_of(v.as_slice())));
            },
        };
        let database_url = match e.database_url {
            Some(u) => u.to_string(),
            None => {
                let home = match e.home {
                    Some(h) => h,
                    None => ".",
                };
                proof {
                    reveal_strlit(".");
                }
                let p = path_join_exec(
                    chars_of(home).as_slice(),
                    chars_of(".local/share/euterpe/library.db").as_slice(),
                );
                let mut v = chars_of("sqlite:");
                append_chars(&mut v, p.as_slice());
                append_chars(&mut v, chars_of("?mode=rwc").as_slice());
                string_of(v.as_slice())
            },
        };
        let master_key = match e.master_key {
            Some(k) => {
                if k.is_empty() {
                    None
                } else {
                    Some(MasterKey::parse(k)?)
                }
            },
            None => None,
        };
        let derived = default_public_base_url(host.as_str(), port);
        let configured = match e.public_base_url {
            Some(u) => if u.is_empty() {
                None
            } else {
                Some(u)
            },
            None => None,
        };
        let public_base_url = public_base_url(configured, derived.as_str());
        let oauth_state_ttl_secs = match e.oauth_state_ttl_secs {
            Some(s) => match parse_u64(chars_of(s).as_slice()) {
                Some(n) => n,
                None => 600,
            },
            None => 600,
        };
        let library_path = match e.library_path {
            Some(p) => p.to_string(),
            None => "/music".to_string(),
        };
        let torrent_incoming_dir = non_empty_setting(e.torrent_incoming_dir);
        let torrent_max_active = torrent_max_active(e.torrent_max_active);
        let torrent_enable_upnp = env_flag(e.torrent_upnp, true);
        let download_concurrency = usize_setting(e.download_concurrency, 3);
        let debug = env_flag(e.debug, false);
        let mut library_scan = LibraryScanConfig::from_values(&e.scan)?;
        library_scan.debug = debug;
        let static_dir = match e.static_dir {
            Some(p) => p.to_string(),
            None => "frontend/dist".to_string(),
        };
        Ok(
            AppConfig {
                bind_host: host,
                bind_port: port,
                database_url,
                admin_password: opt_string(e.admin_password),
                master_key,
                public_base_url,
                oauth_state_ttl_secs,
                qobuz_api_base: non_empty_setting(e.qobuz_api_base),
                qobuz_play_base: non_empty_setting(e.qobuz_play_base),
                library_path,
                torrent_incoming_dir,
                torrent_max_active,
                torrent_enable_upnp,
                download_concurrency,
                library_scan,
                debug,
                static_dir,
            },
        )
    }

    /// Where Qobuz sends the OAuth callback.
    pub fn oauth_callback_url(&self) -> (r: String)
        ensures
            r@ == self.public_base_url@ + "/api/v1/qobuz/oauth/callback"@,
    {
        oauth_callback_url(self.public_base_url.as_str())
    }
}

} // verus!
