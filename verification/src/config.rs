//! The frozen runtime configuration and its construction from plain
//! environment values. The caller reads the process environment once at
//! startup and hands the raw optional values here; everything after the
//! read — defaulting, port parsing, flag interpretation — is verified.
//! The snapshot is never mutated after construction.

use vstd::prelude::*;

verus! {

pub const DEFAULT_SOCKS_PORT: u16 = 9150;

pub const DEFAULT_DNS_PORT: u16 = 5353;

/// Immutable snapshot of runtime parameters, shared read-only by every
/// task for the process lifetime.
#[derive(Clone, Debug)]
pub struct Config {
    /// Port of the SOCKS listener.
    pub socks_port: u16,
    /// Port of the optional DNS-over-TCP forwarder.
    pub dns_port: u16,
    /// Strict hardening: protection failures abort startup, and running
    /// as root is refused.
    pub strict_mode: bool,
    /// Whether the cover-traffic task runs.
    pub chaff_enabled: bool,
    /// Whether sessions without credentials are isolated per
    /// destination host.
    pub auto_isolate_domains: bool,
    /// Overlay state directory; operators back it with tmpfs.
    pub tor_state_dir: String,
    /// Overlay cache directory; defaults to the state directory.
    pub tor_cache_dir: String,
    /// TLS certificate for the listener front.
    pub tls_cert_path: String,
    /// TLS private key for the listener front.
    pub tls_key_path: String,
}

/// The raw environment values, exactly as read: ports and flags as
/// bytes, paths as text, each absent when the variable is unset.
pub struct EnvSnapshot {
    pub socks_port: Option<Vec<u8>>,
    pub dns_port: Option<Vec<u8>>,
    pub strict_mode: Option<Vec<u8>>,
    pub chaff_enabled: Option<Vec<u8>>,
    pub auto_isolate_domains: Option<Vec<u8>>,
    pub state_dir: Option<String>,
    pub cache_dir: Option<String>,
    pub tls_cert_path: Option<String>,
    pub tls_key_path: Option<String>,
}

pub open spec fn is_dec_digit(b: u8) -> bool {
    48 <= b <= 57
}

pub open spec fn all_dec_digits(s: Seq<u8>) -> bool {
    forall|i: int| 0 <= i < s.len() ==> is_dec_digit(s[i])
}

/// The number written in decimal, most significant digit first.
pub open spec fn dec_value(s: Seq<u8>) -> int
    decreases s.len(),
{
    if s.len() == 0 {
        0
    } else {
        dec_value(s.drop_last()) * 10 + (s.last() - 48)
    }
}

/// Port text is valid when nonempty, all digits, and at most 65535.
pub open spec fn valid_port_text(s: Seq<u8>) -> bool {
    &&& s.len() > 0
    &&& all_dec_digits(s)
    &&& dec_value(s) <= 65535
}

proof fn lemma_dec_value_nonneg(s: Seq<u8>)
    requires
        all_dec_digits(s),
    ensures
        dec_value(s) >= 0,
    decreases s.len(),
{
    if s.len() > 0 {
        assert(all_dec_digits(s.drop_last()));
        lemma_dec_value_nonneg(s.drop_last());
    }
}

/// A decimal prefix never exceeds the whole number's value.
proof fn lemma_dec_value_prefix(s: Seq<u8>, k: int)
    requires
        all_dec_digits(s),
        0 <= k <= s.len(),
    ensures
        dec_value(s.take(k)) <= dec_value(s),
    decreases s.len() - k,
{
    if k < s.len() {
        assert(s.take(k + 1).drop_last() =~= s.take(k));
        assert(s.take(k + 1).last() == s[k]);
        assert(all_dec_digits(s.take(k)));
        lemma_dec_value_nonneg(s.take(k));
        assert(dec_value(s.take(k + 1)) == dec_value(s.take(k)) * 10 + (s[k] - 48));
        lemma_dec_value_prefix(s, k + 1);
    } else {
        assert(s.take(k) =~= s);
    }
}

/// Parse a decimal port. Returns the value exactly when the text is
/// nonempty, all digits, and at most 65535.
pub fn parse_port(s: &[u8]) -> (r: Option<u16>)
    ensures
        r == (if valid_port_text(s@) {
            Option::Some(dec_value(s@) as u16)
        } else {
            Option::<u16>::None
        }),
{
    let n = s.len();
    if n == 0 {
        return None;
    }
    let mut acc: u32 = 0;
    let mut i: usize = 0;
    while i < n
        invariant
            i <= n,
            n == s@.len(),
            all_dec_digits(s@.take(i as int)),
            acc == dec_value(s@.take(i as int)),
            acc <= 65535,
        decreases n - i,
    {
        let b = s[i];
        proof {
            assert(s@.take(i + 1).drop_last() =~= s@.take(i as int));
            assert(s@.take(i + 1).last() == s@[i as int]);
        }
        if b < 48 || b > 57 {
            return None;
        }
        acc = acc * 10 + (b - 48) as u32;
        if acc > 65535 {
            proof {
                assert(all_dec_digits(s@.take(i + 1)));
                if all_dec_digits(s@) {
                    lemma_dec_value_prefix(s@, i + 1);
                }
            }
            return None;
        }
        i = i + 1;
    }
    proof {
        assert(s@.take(n as int) =~= s@);
    }
    Some(acc as u16)
}

/// A feature flag is on exactly when the variable holds the single
/// byte `1`.
pub open spec fn flag_on(v: Option<Vec<u8>>) -> bool {
    match v {
        Option::Some(b) => b@ == seq![49u8],
        Option::None => false,
    }
}

/// Interpret a feature-flag variable.
pub fn parse_flag(v: &Option<Vec<u8>>) -> (r: bool)
    ensures
        r == flag_on(*v),
{
    match v {
        Some(b) => {
            let hit = b.len() == 1 && b[0] == 49;
            proof {
                if hit {
                    assert(b@ =~= seq![49u8]);
                }
            }
            hit
        },
        None => false,
    }
}

/// A port variable: the default when unset, its parsed value when it
/// parses, nothing when it is malformed.
pub open spec fn spec_port_choice(v: Option<Vec<u8>>, default: u16) -> Option<u16> {
    match v {
        Option::None => Option::Some(default),
        Option::Some(b) => if valid_port_text(b@) {
            Option::Some(dec_value(b@) as u16)
        } else {
            Option::None
        },
    }
}

/// A path variable: its text when set, the default otherwise.
pub open spec fn spec_path_choice(v: Option<String>, default: Seq<char>) -> Seq<char> {
    match v {
        Option::Some(s) => s@,
        Option::None => default,
    }
}

impl Config {
    /// Build the frozen configuration from the environment snapshot.
    /// Fails exactly when a set port variable does not parse; every
    /// unset value falls back to its documented default, and the cache
    /// directory falls back to the state directory.
    pub fn build(env: EnvSnapshot) -> (r: Option<Config>)
        ensures
            r is Some <==> spec_port_choice(env.socks_port, DEFAULT_SOCKS_PORT) is Some
                && spec_port_choice(env.dns_port, DEFAULT_DNS_PORT) is Some,
            r matches Option::Some(c) ==> {
                &&& Option::Some(c.socks_port) == spec_port_choice(
                    env.socks_port,
                    DEFAULT_SOCKS_PORT,
                )
                &&& Option::Some(c.dns_port) == spec_port_choice(env.dns_port, DEFAULT_DNS_PORT)
                &&& c.strict_mode == flag_on(env.strict_mode)
                &&& c.chaff_enabled == flag_on(env.chaff_enabled)
                &&& c.auto_isolate_domains == flag_on(env.auto_isolate_domains)
                &&& c.tor_state_dir@ == spec_path_choice(env.state_dir, "/var/lib/tor/state"@)
                &&& c.tor_cache_dir@ == spec_path_choice(
                    env.cache_dir,
                    spec_path_choice(env.state_dir, "/var/lib/tor/state"@),
                )
                &&& c.tls_cert_path@ == spec_path_choice(env.tls_cert_path, "/etc/tls/cert.pem"@)
                &&& c.tls_key_path@ == spec_path_choice(env.tls_key_path, "/etc/tls/key.pem"@)
            },
    {
        let socks_port = match &env.socks_port {
            Some(b) => {
                match parse_port(b.as_slice()) {
                    Some(p) => p,
                    None => {
                        return None;
                    },
                }
            },
            None => DEFAULT_SOCKS_PORT,
        };
        let dns_port = match &env.dns_port {
            Some(b) => {
                match parse_port(b.as_slice()) {
                    Some(p) => p,
                    None => {
                        return None;
                    },
                }
            },
            None => DEFAULT_DNS_PORT,
        };
        let strict_mode = parse_flag(&env.strict_mode);
        let chaff_enabled = parse_flag(&env.chaff_enabled);
        let auto_isolate_domains = parse_flag(&env.auto_isolate_domains);
        let tor_state_dir = match env.state_dir {
            Some(s) => s,
            None => "/var/lib/tor/state".to_owned(),
        };
        let tor_cache_dir = match env.cache_dir {
            Some(s) => s,
            None => tor_state_dir.clone(),
        };
        let tls_cert_path = match env.tls_cert_path {
            Some(s) => s,
            None => "/etc/tls/cert.pem".to_owned(),
        };
        let tls_key_path = match env.tls_key_path {
            Some(s) => s,
            None => "/etc/tls/key.pem".to_owned(),
        };
        Some(
            Config {
                socks_port,
                dns_port,
                strict_mode,
                chaff_enabled,
                auto_isolate_domains,
                tor_state_dir,
                tor_cache_dir,
                tls_cert_path,
                tls_key_path,
            },
        )
    }
}

} // verus!
