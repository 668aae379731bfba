use vstd::prelude::*;

use crate::chars::{ascii_lowercase, trim_left, trim_right, trimmed};
use crate::dpdk_config::{dotted, DpdkError, DpdkPortConfig, DpdkTransportConfig};
use crate::service::env_model;
use crate::text::{debug_quoted, decimal_text, digit_char};

verus! {

/// Parsed transport selector.
#[derive(Clone, Copy, Debug, Eq, PartialEq)]
pub enum Selector {
    /// `default` (or absent): unchanged socket-based behaviour.
    Default,
    /// `dpdk-ena`: the DPDK ENA kernel-bypass transport.
    DpdkEna,
}

/// The value of the first variable named `name` in an environment list.
pub open spec fn env_lookup(env: Seq<(Seq<char>, Seq<char>)>, name: Seq<char>) -> Option<Seq<char>>
    decreases env.len(),
{
    if env.len() == 0 {
        None
    } else if env[0].0 == name {
        Some(env[0].1)
    } else {
        env_lookup(env.drop_first(), name)
    }
}

/// An ASCII decimal digit.
pub open spec fn is_digit_char(c: char) -> bool {
    '0' <= c <= '9'
}

/// Every character is an ASCII decimal digit.
pub open spec fn all_digits(s: Seq<char>) -> bool {
    forall|k: int| 0 <= k < s.len() ==> is_digit_char(#[trigger] s[k])
}

/// The value of a string of decimal digits.
pub open spec fn digits_value(s: Seq<char>) -> nat
    decreases s.len(),
{
    if s.len() == 0 {
        0
    } else {
        digits_value(s.drop_last()) * 10 + (s.last() as int - 48) as nat
    }
}

/// What unsigned `str::parse` reads from a text: an optional `+`, then one or
/// more decimal digits, and nothing else; `None` when the text has another shape
/// or the value exceeds `max`.
pub open spec fn parse_unsigned(s: Seq<char>, max: nat) -> Option<nat> {
    let d = if s.len() > 0 && s[0] == '+' {
        s.drop_first()
    } else {
        s
    };
    if d.len() > 0 && all_digits(d) && digits_value(d) <= max {
        Some(digits_value(d))
    } else {
        None
    }
}

/// The `.`-separated parts of a text (always at least one).
pub open spec fn split_dots(s: Seq<char>) -> Seq<Seq<char>>
    decreases s.len(),
{
    if s.len() == 0 {
        seq![Seq::empty()]
    } else {
        let prev = split_dots(s.drop_last());
        if s.last() == '.' {
            prev.push(Seq::empty())
        } else {
            prev.update(prev.len() - 1, prev.last().push(s.last()))
        }
    }
}

/// An IPv4 octet as `Ipv4Addr` parsing accepts it: one to three digits, no
/// leading zero, at most 255.
pub open spec fn octet_value(p: Seq<char>) -> Option<nat> {
    if 1 <= p.len() <= 3 && all_digits(p) && (p.len() == 1 || p[0] != '0') && digits_value(p)
        <= 255 {
        Some(digits_value(p))
    } else {
        None
    }
}

/// Dotted-decimal IPv4 parsing: exactly four octets.
pub open spec fn parse_ipv4(s: Seq<char>) -> Option<u32> {
    let parts = split_dots(s);
    if parts.len() == 4 && octet_value(parts[0]) is Some && octet_value(parts[1]) is Some
        && octet_value(parts[2]) is Some && octet_value(parts[3]) is Some {
        Some(
            (octet_value(parts[0])->0 * 0x1000000 + octet_value(parts[1])->0 * 0x10000
                + octet_value(parts[2])->0 * 0x100 + octet_value(parts[3])->0) as u32,
        )
    } else {
        None
    }
}

/// The index of the first `c` in `s`, if any.
pub open spec fn first_index(s: Seq<char>, c: char, from: int) -> Option<int>
    decreases s.len() - from,
{
    if from < 0 || from >= s.len() {
        None
    } else if s[from] == c {
        Some(from)
    } else {
        first_index(s, c, from + 1)
    }
}

/// Why reading the environment failed: a missing variable, or an invalid value
/// with its message.
pub enum EnvFailure {
    Missing(Seq<char>),
    Invalid(Seq<char>),
}

/// `e` reports the failure `f`.
pub open spec fn failure_is(e: DpdkError, f: EnvFailure) -> bool {
    match f {
        EnvFailure::Missing(n) => e matches DpdkError::MissingEnvironment(m) && m@ == n,
        EnvFailure::Invalid(t) => e matches DpdkError::InvalidEnvironment(m) && m@ == t,
    }
}

/// The selector's value: absent or `default`, `dpdk-ena`, or a refusal message.
pub open spec fn selector_outcome(value: Option<Seq<char>>) -> Result<Selector, Seq<char>> {
    match value {
        None => Ok(Selector::Default),
        Some(v) => if v == "default"@ {
            Ok(Selector::Default)
        } else if v == "dpdk-ena"@ {
            Ok(Selector::DpdkEna)
        } else {
            Err("RUSTERON_MEDIA_DRIVER_TRANSPORT="@ + debug_quoted(v)
                + " must be `default` or `dpdk-ena`"@)
        },
    }
}

/// The message for a value that is no IPv4 address.
pub open spec fn ipv4_failure(name: Seq<char>, value: Seq<char>) -> Seq<char> {
    name + "="@ + debug_quoted(value) + " is not a valid IPv4 address"@
}

/// The name of a role's CIDR variable.
pub open spec fn cidr_var(role: Seq<char>) -> Seq<char> {
    "RUSTERON_DPDK_"@ + role + "_IPV4_CIDR"@
}

/// How an `address/prefix` value fails, if it does.
pub open spec fn cidr_failure(role: Seq<char>, value: Seq<char>) -> Option<Seq<char>> {
    let var = cidr_var(role);
    match first_index(value, '/', 0) {
        None => Some(var + "="@ + debug_quoted(value) + " must be address/prefix (e.g. 10.0.0.1/24)"@),
        Some(k) => {
            let ip = value.take(k);
            let prefix = value.skip(k + 1);
            if parse_ipv4(ip) is None {
                Some(ipv4_failure(var, ip))
            } else if parse_unsigned(trimmed(prefix), 255) is None {
                Some(var + " prefix "@ + debug_quoted(prefix) + " is not a number"@)
            } else if !(1 <= parse_unsigned(trimmed(prefix), 255)->0 <= 32) {
                Some(var + " prefix "@ + decimal_text(parse_unsigned(trimmed(prefix), 255)->0)
                    + " must be in 1..=32"@)
            } else {
                None
            }
        },
    }
}

/// The address of a valid `address/prefix` value.
pub open spec fn cidr_address(value: Seq<char>) -> u32 {
    parse_ipv4(value.take(first_index(value, '/', 0)->0))->0
}

/// The prefix length of a valid `address/prefix` value.
pub open spec fn cidr_prefix(value: Seq<char>) -> nat {
    parse_unsigned(trimmed(value.skip(first_index(value, '/', 0)->0 + 1)), 255)->0
}

/// How a numeric variable fails, if it does (an absent one takes its default).
pub open spec fn num_failure(env: Seq<(Seq<char>, Seq<char>)>, name: Seq<char>, max: nat) -> Option<
    Seq<char>,
> {
    match env_lookup(env, name) {
        None => None,
        Some(v) => if parse_unsigned(trimmed(v), max) is None {
            Some(name + "="@ + debug_quoted(v) + " is not a valid number"@)
        } else {
            None
        },
    }
}

/// The value of a numeric variable, or its default when absent.
pub open spec fn num_value(env: Seq<(Seq<char>, Seq<char>)>, name: Seq<char>, default: nat, max: nat) -> nat {
    match env_lookup(env, name) {
        None => default,
        Some(v) => parse_unsigned(trimmed(v), max)->0,
    }
}

/// The test-only vdev lever is set to `1` or (in any case) `true`.
pub open spec fn test_vdev_set(env: Seq<(Seq<char>, Seq<char>)>) -> bool {
    match env_lookup(env, "RUSTERON_DPDK_TEST_VDEV"@) {
        None => false,
        Some(v) => v == "1"@ || ascii_lowercase(v) == "true"@,
    }
}

/// The first failure reading the transport configuration from an environment,
/// in the order the variables are read.
pub open spec fn env_config_failure(env: Seq<(Seq<char>, Seq<char>)>) -> Option<EnvFailure> {
    let sc = env_lookup(env, "RUSTERON_DPDK_SENDER_IPV4_CIDR"@);
    let rc = env_lookup(env, "RUSTERON_DPDK_RECEIVER_IPV4_CIDR"@);
    let sg = env_lookup(env, "RUSTERON_DPDK_SENDER_GATEWAY"@);
    let rg = env_lookup(env, "RUSTERON_DPDK_RECEIVER_GATEWAY"@);
    if sc is None {
        Some(EnvFailure::Missing("RUSTERON_DPDK_SENDER_IPV4_CIDR"@))
    } else if rc is None {
        Some(EnvFailure::Missing("RUSTERON_DPDK_RECEIVER_IPV4_CIDR"@))
    } else if cidr_failure("SENDER"@, sc->0) is Some {
        Some(EnvFailure::Invalid(cidr_failure("SENDER"@, sc->0)->0))
    } else if cidr_failure("RECEIVER"@, rc->0) is Some {
        Some(EnvFailure::Invalid(cidr_failure("RECEIVER"@, rc->0)->0))
    } else if env_lookup(env, "RUSTERON_DPDK_SENDER_PCI"@) is None {
        Some(EnvFailure::Missing("RUSTERON_DPDK_SENDER_PCI"@))
    } else if sg is None {
        Some(EnvFailure::Missing("RUSTERON_DPDK_SENDER_GATEWAY"@))
    } else if parse_ipv4(sg->0) is None {
        Some(EnvFailure::Invalid(ipv4_failure("RUSTERON_DPDK_SENDER_GATEWAY"@, sg->0)))
    } else if env_lookup(env, "RUSTERON_DPDK_RECEIVER_PCI"@) is None {
        Some(EnvFailure::Missing("RUSTERON_DPDK_RECEIVER_PCI"@))
    } else if rg is None {
        Some(EnvFailure::Missing("RUSTERON_DPDK_RECEIVER_GATEWAY"@))
    } else if parse_ipv4(rg->0) is None {
        Some(EnvFailure::Invalid(ipv4_failure("RUSTERON_DPDK_RECEIVER_GATEWAY"@, rg->0)))
    } else if env_lookup(env, "RUSTERON_DPDK_FILE_PREFIX"@) is None {
        Some(EnvFailure::Missing("RUSTERON_DPDK_FILE_PREFIX"@))
    } else if num_failure(env, "RUSTERON_DPDK_RX_DESCRIPTORS"@, 0xFFFF) is Some {
        Some(EnvFailure::Invalid(num_failure(env, "RUSTERON_DPDK_RX_DESCRIPTORS"@, 0xFFFF)->0))
    } else if num_failure(env, "RUSTERON_DPDK_TX_DESCRIPTORS"@, 0xFFFF) is Some {
        Some(EnvFailure::Invalid(num_failure(env, "RUSTERON_DPDK_TX_DESCRIPTORS"@, 0xFFFF)->0))
    } else if num_failure(env, "RUSTERON_DPDK_MBUFS_PER_PORT"@, 0xFFFF_FFFF) is Some {
        Some(
            EnvFailure::Invalid(num_failure(env, "RUSTERON_DPDK_MBUFS_PER_PORT"@, 0xFFFF_FFFF)->0),
        )
    } else if num_failure(env, "RUSTERON_DPDK_MEMPOOL_CACHE"@, 0xFFFF) is Some {
        Some(EnvFailure::Invalid(num_failure(env, "RUSTERON_DPDK_MEMPOOL_CACHE"@, 0xFFFF)->0))
    } else if num_failure(env, "RUSTERON_DPDK_BURST_SIZE"@, 0xFFFF) is Some {
        Some(EnvFailure::Invalid(num_failure(env, "RUSTERON_DPDK_BURST_SIZE"@, 0xFFFF)->0))
    } else if num_failure(env, "RUSTERON_DPDK_MAX_AERON_MTU"@, usize::MAX as nat) is Some {
        Some(
            EnvFailure::Invalid(
                num_failure(env, "RUSTERON_DPDK_MAX_AERON_MTU"@, usize::MAX as nat)->0,
            ),
        )
    } else {
        None
    }
}

/// `c` is the configuration an environment without failures describes: the
/// required values, the parsed addresses and prefixes, and the defaults
/// (`/dev/hugepages`, 1024 descriptors each way, 65536 mbufs, a cache of 256,
/// bursts of 32 and an MTU of 1408) where a variable is absent.
pub open spec fn env_config_is(c: DpdkTransportConfig, env: Seq<(Seq<char>, Seq<char>)>) -> bool {
    let sc = env_lookup(env, "RUSTERON_DPDK_SENDER_IPV4_CIDR"@)->0;
    let rc = env_lookup(env, "RUSTERON_DPDK_RECEIVER_IPV4_CIDR"@)->0;
    &&& c.sender.pci_address@ == env_lookup(env, "RUSTERON_DPDK_SENDER_PCI"@)->0
    &&& c.sender.local_ipv4 == cidr_address(sc)
    &&& c.sender.prefix_len == cidr_prefix(sc)
    &&& c.sender.gateway_ipv4 == parse_ipv4(env_lookup(env, "RUSTERON_DPDK_SENDER_GATEWAY"@)->0)->0
    &&& c.receiver.pci_address@ == env_lookup(env, "RUSTERON_DPDK_RECEIVER_PCI"@)->0
    &&& c.receiver.local_ipv4 == cidr_address(rc)
    &&& c.receiver.prefix_len == cidr_prefix(rc)
    &&& c.receiver.gateway_ipv4 == parse_ipv4(
        env_lookup(env, "RUSTERON_DPDK_RECEIVER_GATEWAY"@)->0,
    )->0
    &&& c.file_prefix@ == env_lookup(env, "RUSTERON_DPDK_FILE_PREFIX"@)->0
    &&& c.test_vdev == test_vdev_set(env)
    &&& c.hugepage_dir@ == match env_lookup(env, "RUSTERON_DPDK_HUGE_DIR"@) {
        Some(d) => d,
        None => "/dev/hugepages"@,
    }
    &&& c.rx_descriptors == num_value(env, "RUSTERON_DPDK_RX_DESCRIPTORS"@, 1024, 0xFFFF)
    &&& c.tx_descriptors == num_value(env, "RUSTERON_DPDK_TX_DESCRIPTORS"@, 1024, 0xFFFF)
    &&& c.mbufs_per_port == num_value(env, "RUSTERON_DPDK_MBUFS_PER_PORT"@, 65536, 0xFFFF_FFFF)
    &&& c.mempool_cache == num_value(env, "RUSTERON_DPDK_MEMPOOL_CACHE"@, 256, 0xFFFF)
    &&& c.burst_size == num_value(env, "RUSTERON_DPDK_BURST_SIZE"@, 32, 0xFFFF)
    &&& c.max_aeron_mtu == num_value(env, "RUSTERON_DPDK_MAX_AERON_MTU"@, 1408, usize::MAX as nat)
}

proof fn lemma_env_lookup_skip(env: Seq<(Seq<char>, Seq<char>)>, name: Seq<char>, i: int)
    requires
        0 <= i <= env.len(),
        forall|j: int| 0 <= j < i ==> (#[trigger] env[j]).0 != name,
    ensures
        env_lookup(env, name) == env_lookup(env.subrange(i, env.len() as int), name),
    decreases i,
{
    if i > 0 {
        assert(env.drop_first().subrange(i - 1, env.drop_first().len() as int) =~= env.subrange(
            i,
            env.len() as int,
        ));
        assert forall|j: int| 0 <= j < i - 1 implies (#[trigger] env.drop_first()[j]).0 != name by {
            assert(env.drop_first()[j] == env[j + 1]);
        }
        lemma_env_lookup_skip(env.drop_first(), name, i - 1);
    } else {
        assert(env.subrange(0, env.len() as int) =~= env);
    }
}

/// The value of the first variable named `name`.
fn env_get<'a>(env: &'a [(String, String)], name: &str) -> (r: Option<&'a String>)
    ensures
        r is None <==> env_lookup(env_model(env@), name@) is None,
        r matches Some(v) ==> env_lookup(env_model(env@), name@) == Some(v@),
{
    let ghost m = env_model(env@);
    let mut i: usize = 0;
    while i < env.len()
        invariant
            i <= env@.len(),
            m == env_model(env@),
            forall|j: int| 0 <= j < i ==> (#[trigger] m[j]).0 != name@,
        decreases env@.len() - i,
    {
        if crate::text::str_eq(env[i].0.as_str(), name) {
            proof {
                lemma_env_lookup_skip(m, name@, i as int);
            }
            return Some(&env[i].1);
        }
        i += 1;
    }
    proof {
        lemma_env_lookup_skip(m, name@, i as int);
    }
    None
}

/// The value of a required variable.
fn required(env: &[(String, String)], name: &str) -> (r: Result<String, DpdkError>)
    ensures
        match env_lookup(env_model(env@), name@) {
            Some(v) => r matches Ok(s) && s@ == v,
            None => r matches Err(e) && e matches DpdkError::MissingEnvironment(m) && m@ == name@,
        },
{
    match env_get(env, name) {
        Some(v) => Ok(v.clone()),
        None => Err(DpdkError::MissingEnvironment(name.to_owned())),
    }
}

/// Reads the transport selector from an environment: absent or `default` keeps
/// the socket transport, `dpdk-ena` selects DPDK, anything else is refused.
pub fn selector(env: &[(String, String)]) -> (r: Result<Selector, DpdkError>)
    ensures
        match selector_outcome(env_lookup(env_model(env@), "RUSTERON_MEDIA_DRIVER_TRANSPORT"@)) {
            Ok(s) => r == Ok::<Selector, DpdkError>(s),
            Err(t) => r matches Err(e) && e matches DpdkError::InvalidEnvironment(m) && m@ == t,
        },
{
    match env_get(env, "RUSTERON_MEDIA_DRIVER_TRANSPORT") {
        None => Ok(Selector::Default),
        Some(v) => {
            if crate::text::str_eq(v.as_str(), "default") {
                Ok(Selector::Default)
            } else if crate::text::str_eq(v.as_str(), "dpdk-ena") {
                Ok(Selector::DpdkEna)
            } else {
                let q = crate::text::debug_quote(v.as_str());
                Err(
                    DpdkError::InvalidEnvironment(
                        crate::text::concat3(
                            "RUSTERON_MEDIA_DRIVER_TRANSPORT=",
                            q.as_str(),
                            " must be `default` or `dpdk-ena`",
                        ),
                    ),
                )
            }
        },
    }
}

proof fn lemma_digits_value_step(s: Seq<char>, i: int)
    requires
        0 <= i < s.len(),
    ensures
        digits_value(s.take(i + 1)) == digits_value(s.take(i)) * 10 + (s[i] as int - 48) as nat,
{
    assert(s.take(i + 1).drop_last() =~= s.take(i));
}

proof fn lemma_digits_value_prefix_le(s: Seq<char>, i: int)
    requires
        0 <= i <= s.len(),
        all_digits(s),
    ensures
        digits_value(s.take(i)) <= digits_value(s),
    decreases s.len() - i,
{
    if i < s.len() {
        lemma_digits_value_step(s, i);
        assert(is_digit_char(s[i]));
        lemma_digits_value_prefix_le(s, i + 1);
    } else {
        assert(s.take(i) =~= s);
    }
}

/// Reads the digits of `d`, failing above `max`.
fn digits_up_to(d: &[char], max: u64) -> (r: Option<u64>)
    requires
        d@.len() > 0,
    ensures
        match r {
            Some(n) => all_digits(d@) && n == digits_value(d@) && n <= max,
            None => !(all_digits(d@) && digits_value(d@) <= max),
        },
{
    let mut acc: u64 = 0;
    let mut i: usize = 0;
    while i < d.len()
        invariant
            i <= d@.len(),
            all_digits(d@.take(i as int)),
            acc == digits_value(d@.take(i as int)),
            acc <= max,
        decreases d@.len() - i,
    {
        let c = d[i];
        if !('0' <= c && c <= '9') {
            assert(!is_digit_char(d@[i as int]));
            return None;
        }
        proof {
            lemma_digits_value_step(d@, i as int);
        }
        let digit: u64 = (c as u32 - 48) as u64;
        let next: u128 = acc as u128 * 10 + digit as u128;
        if next > max as u128 {
            proof {
                assert(all_digits(d@.take(i + 1)));
                if all_digits(d@) {
                    lemma_digits_value_prefix_le(d@, i + 1);
                }
            }
            return None;
        }
        acc = next as u64;
        i += 1;
        assert(all_digits(d@.take(i as int)));
    }
    assert(d@.take(d@.len() as int) =~= d@);
    Some(acc)
}

/// Unsigned `str::parse` of a text, with `max` the largest value of the type.
fn parse_unsigned_chars(s: &[char], max: u64) -> (r: Option<u64>)
    ensures
        match parse_unsigned(s@, max as nat) {
            Some(n) => r == Some(n as u64),
            None => r is None,
        },
{
    let start: usize = if s.len() > 0 && s[0] == '+' {
        1
    } else {
        0
    };
    if s.len() - start == 0 {
        return None;
    }
    let mut d: Vec<char> = Vec::new();
    let mut i = start;
    while i < s.len()
        invariant
            start <= i <= s@.len(),
            d@ == s@.subrange(start as int, i as int),
        decreases s@.len() - i,
    {
        d.push(s[i]);
        i += 1;
        assert(d@ =~= s@.subrange(start as int, i as int));
    }
    if start == 1 {
        assert(d@ =~= s@.drop_first());
    } else {
        assert(d@ =~= s@);
    }
    digits_up_to(d.as_slice(), max)
}

/// The trimmed characters of a string.
fn trimmed_chars(s: &str) -> (r: Vec<char>)
    ensures
        r@ == trimmed(s@),
{
    let v = crate::text::chars_of(s);
    crate::chars::trim_chars(&v)
}

proof fn lemma_split_dots_nonempty(s: Seq<char>)
    ensures
        split_dots(s).len() >= 1,
    decreases s.len(),
{
    if s.len() > 0 {
        lemma_split_dots_nonempty(s.drop_last());
    }
}

/// The parts of a text between dots.
fn split_dot_parts(s: &Vec<char>) -> (r: Vec<Vec<char>>)
    ensures
        r@.map_values(|p: Vec<char>| p@) == split_dots(s@),
{
    let mut parts: Vec<Vec<char>> = Vec::new();
    parts.push(Vec::new());
    assert(parts@.map_values(|p: Vec<char>| p@) =~= split_dots(s@.take(0)));
    let mut i: usize = 0;
    while i < s.len()
        invariant
            i <= s@.len(),
            parts@.len() >= 1,
            parts@.map_values(|p: Vec<char>| p@) == split_dots(s@.take(i as int)),
        decreases s@.len() - i,
    {
        let c = s[i];
        let ghost before = parts@.map_values(|p: Vec<char>| p@);
        proof {
            assert(s@.take(i + 1).drop_last() =~= s@.take(i as int));
            lemma_split_dots_nonempty(s@.take(i as int));
        }
        if c == '.' {
            parts.push(Vec::new());
            assert(parts@.map_values(|p: Vec<char>| p@) =~= before.push(Seq::empty()));
        } else {
            let mut cur = parts.pop().unwrap();
            cur.push(c);
            parts.push(cur);
            assert(parts@.map_values(|p: Vec<char>| p@) =~= before.update(
                before.len() - 1,
                before.last().push(c),
            ));
        }
        i += 1;
    }
    assert(s@.take(s@.len() as int) =~= s@);
    parts
}

/// One IPv4 octet.
fn octet(p: &Vec<char>) -> (r: Option<u32>)
    ensures
        match octet_value(p@) {
            Some(n) => r == Some(n as u32),
            None => r is None,
        },
{
    if p.len() < 1 || p.len() > 3 {
        return None;
    }
    if p.len() > 1 && p[0] == '0' {
        return None;
    }
    match digits_up_to(p.as_slice(), 255) {
        Some(n) => Some(n as u32),
        None => None,
    }
}

/// Dotted-decimal IPv4 parsing of a text.
fn parse_ipv4_chars(s: &Vec<char>) -> (r: Option<u32>)
    ensures
        r == parse_ipv4(s@),
{
    let parts = split_dot_parts(s);
    let ghost m = parts@.map_values(|p: Vec<char>| p@);
    if parts.len() != 4 {
        return None;
    }
    assert(m[0] == parts@[0]@ && m[1] == parts@[1]@ && m[2] == parts@[2]@ && m[3] == parts@[3]@);
    let a = match octet(&parts[0]) {
        Some(v) => v,
        None => {
            return None;
        },
    };
    let b = match octet(&parts[1]) {
        Some(v) => v,
        None => {
            return None;
        },
    };
    let c = match octet(&parts[2]) {
        Some(v) => v,
        None => {
            return None;
        },
    };
    let d = match octet(&parts[3]) {
        Some(v) => v,
        None => {
            return None;
        },
    };
    Some(a * 0x1000000 + b * 0x10000 + c * 0x100 + d)
}

/// Parses an IPv4 value, naming the variable in the error.
fn ipv4(name: &str, value: &str) -> (r: Result<u32, DpdkError>)
    ensures
        match parse_ipv4(value@) {
            Some(a) => r == Ok::<u32, DpdkError>(a),
            None => r matches Err(e) && e matches DpdkError::InvalidEnvironment(m) && m@
                == ipv4_failure(name@, value@),
        },
{
    let v = crate::text::chars_of(value);
    match parse_ipv4_chars(&v) {
        Some(a) => Ok(a),
        None => {
            let mut m = crate::text::concat2(name, "=");
            crate::text::push_str(&mut m, crate::text::debug_quote(value).as_str());
            crate::text::push_str(&mut m, " is not a valid IPv4 address");
            Err(DpdkError::InvalidEnvironment(m))
        },
    }
}

/// Parses `address/prefix` for a role (`SENDER` or `RECEIVER`).
fn parse_cidr(role: &str, value: &str) -> (r: Result<(u32, u8), DpdkError>)
    ensures
        match cidr_failure(role@, value@) {
            Some(t) => r matches Err(e) && e matches DpdkError::InvalidEnvironment(m) && m@ == t,
            None => r matches Ok(p) && p.0 == cidr_address(value@) && p.1 == cidr_prefix(value@),
        },
{
    let var = crate::text::concat3("RUSTERON_DPDK_", role, "_IPV4_CIDR");
    let v = crate::text::chars_of(value);
    let mut k: usize = 0;
    while k < v.len() && v[k] != '/'
        invariant
            k <= v@.len(),
            v@ == value@,
            first_index(v@, '/', 0) == first_index(v@, '/', k as int),
        decreases v@.len() - k,
    {
        k += 1;
    }
    if k == v.len() {
        let mut m = crate::text::concat2(var.as_str(), "=");
        crate::text::push_str(&mut m, crate::text::debug_quote(value).as_str());
        crate::text::push_str(&mut m, " must be address/prefix (e.g. 10.0.0.1/24)");
        return Err(DpdkError::InvalidEnvironment(m));
    }
    assert(first_index(v@, '/', 0) == Some(k as int));
    let ip = crate::text::string_from_range(v.as_slice(), 0, k);
    let prefix = crate::text::string_from_range(v.as_slice(), k + 1, v.len());
    assert(ip@ =~= value@.take(k as int));
    assert(prefix@ =~= value@.skip(k + 1));
    let addr = ipv4(var.as_str(), ip.as_str())?;
    let t = trimmed_chars(prefix.as_str());
    match parse_unsigned_chars(t.as_slice(), 255) {
        None => {
            let mut m = crate::text::concat2(var.as_str(), " prefix ");
            crate::text::push_str(&mut m, crate::text::debug_quote(prefix.as_str()).as_str());
            crate::text::push_str(&mut m, " is not a number");
            Err(DpdkError::InvalidEnvironment(m))
        },
        Some(p) => {
            if !(1 <= p && p <= 32) {
                let mut m = crate::text::concat2(var.as_str(), " prefix ");
                crate::text::push_decimal(&mut m, p);
                crate::text::push_str(&mut m, " must be in 1..=32");
                Err(DpdkError::InvalidEnvironment(m))
            } else {
                Ok((addr, p as u8))
            }
        },
    }
}

/// A numeric variable, or `default` when absent; `max` is the type's largest value.
fn num_or(env: &[(String, String)], name: &str, default: u64, max: u64) -> (r: Result<u64, DpdkError>)
    requires
        default <= max,
    ensures
        match num_failure(env_model(env@), name@, max as nat) {
            Some(t) => r matches Err(e) && e matches DpdkError::InvalidEnvironment(m) && m@ == t,
            None => r matches Ok(n) && n == num_value(env_model(env@), name@, default as nat, max as nat)
                && n <= max,
        },
{
    match env_get(env, name) {
        None => Ok(default),
        Some(v) => {
            let t = trimmed_chars(v.as_str());
            match parse_unsigned_chars(t.as_slice(), max) {
                Some(n) => Ok(n),
                None => {
                    let mut m = crate::text::concat2(name, "=");
                    crate::text::push_str(&mut m, crate::text::debug_quote(v.as_str()).as_str());
                    crate::text::push_str(&mut m, " is not a valid number");
                    Err(DpdkError::InvalidEnvironment(m))
                },
            }
        },
    }
}

/// Whether the test-only vdev lever is set.
fn test_vdev_from(env: &[(String, String)]) -> (r: bool)
    ensures
        r == test_vdev_set(env_model(env@)),
{
    match env_get(env, "RUSTERON_DPDK_TEST_VDEV") {
        None => false,
        Some(v) => {
            if crate::text::str_eq(v.as_str(), "1") {
                true
            } else {
                let c = crate::text::chars_of(v.as_str());
                let l = crate::chars::lowercase_chars(&c);
                let t = crate::text::chars_of("true");
                crate::text::chars_eq(l.as_slice(), t.as_slice())
            }
        },
    }
}

/// Reads a full transport configuration from an environment list: the required
/// file prefix, port addresses, CIDRs and gateways of both roles, and the other
/// values with their defaults. The first variable that is missing or invalid,
/// in reading order, gives the error.
pub fn config_from_env(env: &[(String, String)]) -> (r: Result<DpdkTransportConfig, DpdkError>)
    ensures
        match env_config_failure(env_model(env@)) {
            Some(f) => r matches Err(e) && failure_is(e, f),
            None => r matches Ok(c) && env_config_is(c, env_model(env@)),
        },
{
    let sender_cidr = required(env, "RUSTERON_DPDK_SENDER_IPV4_CIDR")?;
    let receiver_cidr = required(env, "RUSTERON_DPDK_RECEIVER_IPV4_CIDR")?;
    let (sender_addr, sender_prefix) = parse_cidr("SENDER", sender_cidr.as_str())?;
    let (receiver_addr, receiver_prefix) = parse_cidr("RECEIVER", receiver_cidr.as_str())?;
    let test_vdev = test_vdev_from(env);
    let sender_pci = required(env, "RUSTERON_DPDK_SENDER_PCI")?;
    let sender_gw_text = required(env, "RUSTERON_DPDK_SENDER_GATEWAY")?;
    let sender_gw = ipv4("RUSTERON_DPDK_SENDER_GATEWAY", sender_gw_text.as_str())?;
    let receiver_pci = required(env, "RUSTERON_DPDK_RECEIVER_PCI")?;
    let receiver_gw_text = required(env, "RUSTERON_DPDK_RECEIVER_GATEWAY")?;
    let receiver_gw = ipv4("RUSTERON_DPDK_RECEIVER_GATEWAY", receiver_gw_text.as_str())?;
    let file_prefix = required(env, "RUSTERON_DPDK_FILE_PREFIX")?;
    let hugepage_dir = match env_get(env, "RUSTERON_DPDK_HUGE_DIR") {
        Some(d) => d.clone(),
        None => "/dev/hugepages".to_owned(),
    };
    let rx = num_or(env, "RUSTERON_DPDK_RX_DESCRIPTORS", 1024, 0xFFFF)?;
    let tx = num_or(env, "RUSTERON_DPDK_TX_DESCRIPTORS", 1024, 0xFFFF)?;
    let mbufs = num_or(env, "RUSTERON_DPDK_MBUFS_PER_PORT", 65536, 0xFFFF_FFFF)?;
    let cache = num_or(env, "RUSTERON_DPDK_MEMPOOL_CACHE", 256, 0xFFFF)?;
    let burst = num_or(env, "RUSTERON_DPDK_BURST_SIZE", 32, 0xFFFF)?;
    let mtu = num_or(env, "RUSTERON_DPDK_MAX_AERON_MTU", 1408, usize::MAX as u64)?;
    Ok(
        DpdkTransportConfig {
            sender: DpdkPortConfig {
                pci_address: sender_pci,
                local_ipv4: sender_addr,
                prefix_len: sender_prefix,
                gateway_ipv4: sender_gw,
            },
            receiver: DpdkPortConfig {
                pci_address: receiver_pci,
                local_ipv4: receiver_addr,
                prefix_len: receiver_prefix,
                gateway_ipv4: receiver_gw,
            },
            file_prefix,
            test_vdev,
            hugepage_dir,
            rx_descriptors: rx as u16,
            tx_descriptors: tx as u16,
            mbufs_per_port: mbufs as u32,
            mempool_cache: cache as u16,
            burst_size: burst as u16,
            max_aeron_mtu: mtu as usize,
        },
    )
}

/// Decides the media transport from an environment. The selector absent or
/// `default` keeps the socket transport (`None`); `dpdk-ena` needs the native
/// transport (`FeatureDisabled` when it is not built in), then a configuration
/// read from the environment that passes validation, which is returned for
/// installation.
pub fn configure_media_transport_from_env(env: &[(String, String)], native_available: bool) -> (r: Result<
    Option<DpdkTransportConfig>,
    DpdkError,
>)
    ensures
        match selector_outcome(env_lookup(env_model(env@), "RUSTERON_MEDIA_DRIVER_TRANSPORT"@)) {
            Err(t) => r matches Err(e) && e matches DpdkError::InvalidEnvironment(m) && m@ == t,
            Ok(Selector::Default) => r matches Ok(None),
            Ok(Selector::DpdkEna) => if !native_available {
                r == Err::<Option<DpdkTransportConfig>, DpdkError>(DpdkError::FeatureDisabled)
            } else {
                match env_config_failure(env_model(env@)) {
                    Some(f) => r matches Err(e) && failure_is(e, f),
                    None => match r {
                        Ok(Some(c)) => env_config_is(c, env_model(env@))
                            && crate::dpdk_config::config_violation(c) is None,
                        Err(e) => e matches DpdkError::InvalidConfiguration(m)
                            && exists|c: DpdkTransportConfig|
                            env_config_is(c, env_model(env@))
                                && crate::dpdk_config::config_violation(c) == Some(m@),
                        Ok(None) => false,
                    },
                }
            },
        },
{
    match selector(env)? {
        Selector::Default => Ok(None),
        Selector::DpdkEna => {
            if !native_available {
                return Err(DpdkError::FeatureDisabled);
            }
            let config = config_from_env(env)?;
            config.validate()?;
            Ok(Some(config))
        },
    }
}

proof fn lemma_digit_char_value(d: nat)
    requires
        d < 10,
    ensures
        is_digit_char(digit_char(d)),
        digit_char(d) as int - 48 == d,
        d > 0 ==> digit_char(d) != '0',
        digit_char(d) != '+',
        digit_char(d) != '.',
        digit_char(d) != '/',
{
}

proof fn lemma_decimal_text_digits(n: nat)
    ensures
        decimal_text(n).len() >= 1,
        all_digits(decimal_text(n)),
        digits_value(decimal_text(n)) == n,
        n >= 1 ==> decimal_text(n)[0] != '0',
        n < 10 ==> decimal_text(n).len() == 1,
        n < 100 ==> decimal_text(n).len() <= 2,
        n < 1000 ==> decimal_text(n).len() <= 3,
    decreases n,
{
    if n < 10 {
        lemma_digit_char_value(n);
        assert(decimal_text(n).drop_last() =~= Seq::<char>::empty());
        assert(digits_value(decimal_text(n)) == digits_value(Seq::<char>::empty()) * 10 + (
        digit_char(n) as int - 48) as nat);
    } else {
        lemma_decimal_text_digits(n / 10);
        lemma_digit_char_value(n % 10);
        let prev = decimal_text(n / 10);
        assert(decimal_text(n) == prev.push(digit_char(n % 10)));
        assert(decimal_text(n).drop_last() =~= prev);
        assert(decimal_text(n)[0] == prev[0]);
        assert(digits_value(decimal_text(n)) == digits_value(prev) * 10 + (digit_char(n % 10) as int
            - 48) as nat);
    }
}

/// A number written in decimal reads back as the same number: unsigned parsing
/// of `decimal_text(n)` gives `n` whenever `n` fits the type.
pub proof fn lemma_decimal_number_reads_back(n: nat, max: nat)
    requires
        n <= max,
    ensures
        parse_unsigned(decimal_text(n), max) == Some(n),
{
    lemma_decimal_text_digits(n);
    if n < 10 {
        lemma_digit_char_value(n);
    } else {
        lemma_digit_char_value(n % 10);
        lemma_decimal_text_digits(n / 10);
        lemma_digit_first_not_plus(n);
    }
}

proof fn lemma_digit_first_not_plus(n: nat)
    ensures
        decimal_text(n)[0] != '+',
    decreases n,
{
    if n < 10 {
        lemma_digit_char_value(n);
    } else {
        lemma_digit_first_not_plus(n / 10);
        assert(decimal_text(n)[0] == decimal_text(n / 10)[0]);
    }
}

proof fn lemma_split_dots_no_dot(t: Seq<char>)
    requires
        forall|k: int| 0 <= k < t.len() ==> t[k] != '.',
    ensures
        split_dots(t) == seq![t],
    decreases t.len(),
{
    if t.len() > 0 {
        lemma_split_dots_no_dot(t.drop_last());
        assert(t.drop_last().push(t.last()) =~= t);
        assert(t.last() != '.');
        assert(split_dots(t.drop_last()).update(0, t.drop_last().push(t.last())) =~= seq![t]);
    } else {
        assert(t =~= Seq::<char>::empty());
    }
}

proof fn lemma_split_dots_append(s: Seq<char>, t: Seq<char>)
    requires
        forall|k: int| 0 <= k < t.len() ==> t[k] != '.',
    ensures
        split_dots(s + seq!['.'] + t) == split_dots(s).push(t),
    decreases t.len(),
{
    let u = s + seq!['.'] + t;
    if t.len() == 0 {
        assert(u.drop_last() =~= s);
        assert(u =~= s + seq!['.']);
        assert(t =~= Seq::<char>::empty());
    } else {
        lemma_split_dots_append(s, t.drop_last());
        assert(u.drop_last() =~= s + seq!['.'] + t.drop_last());
        lemma_split_dots_nonempty(s);
        let prev = split_dots(s).push(t.drop_last());
        assert(t.drop_last().push(t.last()) =~= t);
        assert(u.last() == t.last());
        assert(t.last() != '.');
        assert(prev.update(prev.len() - 1, prev.last().push(t.last())) =~= split_dots(s).push(t));
    }
}

proof fn lemma_octet_reads_back(k: nat)
    requires
        k <= 255,
    ensures
        octet_value(decimal_text(k)) == Some(k),
        forall|i: int| 0 <= i < decimal_text(k).len() ==> decimal_text(k)[i] != '.',
{
    lemma_decimal_text_digits(k);
    assert forall|i: int| 0 <= i < decimal_text(k).len() implies decimal_text(k)[i] != '.' by {
        assert(is_digit_char(decimal_text(k)[i]));
    }
}

/// An IPv4 address written in dotted-decimal form reads back as the same
/// address.
pub proof fn lemma_dotted_address_reads_back(a: u32)
    ensures
        parse_ipv4(dotted(a)) == Some(a),
{
    let o0 = (a / 0x1000000) as nat;
    let o1 = ((a / 0x10000) % 256) as nat;
    let o2 = ((a / 0x100) % 256) as nat;
    let o3 = (a % 256) as nat;
    assert(a / 0x1000000 <= 255) by (bit_vector);
    lemma_octet_reads_back(o0);
    lemma_octet_reads_back(o1);
    lemma_octet_reads_back(o2);
    lemma_octet_reads_back(o3);
    let d0 = decimal_text(o0);
    let d1 = decimal_text(o1);
    let d2 = decimal_text(o2);
    let d3 = decimal_text(o3);
    reveal_strlit(".");
    assert(dotted(a) =~= d0 + seq!['.'] + d1 + seq!['.'] + d2 + seq!['.'] + d3);
    lemma_split_dots_no_dot(d0);
    lemma_split_dots_append(d0, d1);
    lemma_split_dots_append(d0 + seq!['.'] + d1, d2);
    lemma_split_dots_append(d0 + seq!['.'] + d1 + seq!['.'] + d2, d3);
    let parts = split_dots(dotted(a));
    assert(parts =~= seq![d0, d1, d2, d3]);
    assert((a / 0x1000000) * 0x1000000 + ((a / 0x10000) % 256) * 0x10000 + ((a / 0x100) % 256)
        * 0x100 + a % 256 == a) by (bit_vector);
}

proof fn lemma_first_index_at(s: Seq<char>, c: char, from: int, k: int)
    requires
        0 <= from <= k < s.len(),
        s[k] == c,
        forall|j: int| from <= j < k ==> s[j] != c,
    ensures
        first_index(s, c, from) == Some(k),
    decreases k - from,
{
    if from < k {
        lemma_first_index_at(s, c, from + 1, k);
    }
}

proof fn lemma_dotted_has_no_slash(a: u32)
    ensures
        forall|i: int| 0 <= i < dotted(a).len() ==> dotted(a)[i] != '/',
{
    let d0 = decimal_text((a / 0x1000000) as nat);
    let d1 = decimal_text(((a / 0x10000) % 256) as nat);
    let d2 = decimal_text(((a / 0x100) % 256) as nat);
    let d3 = decimal_text((a % 256) as nat);
    lemma_decimal_text_digits((a / 0x1000000) as nat);
    lemma_decimal_text_digits(((a / 0x10000) % 256) as nat);
    lemma_decimal_text_digits(((a / 0x100) % 256) as nat);
    lemma_decimal_text_digits((a % 256) as nat);
    reveal_strlit(".");
    let d = dotted(a);
    assert(d =~= d0 + seq!['.'] + d1 + seq!['.'] + d2 + seq!['.'] + d3);
    assert forall|i: int| 0 <= i < d.len() implies d[i] != '/' by {
        let n0 = d0.len() as int;
        let n1 = n0 + 1 + d1.len();
        let n2 = n1 + 1 + d2.len();
        if i < n0 {
            assert(is_digit_char(d0[i]));
        } else if i == n0 {
        } else if i < n1 {
            assert(is_digit_char(d1[i - n0 - 1]));
        } else if i == n1 {
        } else if i < n2 {
            assert(is_digit_char(d2[i - n1 - 1]));
        } else if i == n2 {
        } else {
            assert(is_digit_char(d3[i - n2 - 1]));
        }
    }
}

proof fn lemma_decimal_text_untrimmed(n: nat)
    ensures
        trimmed(decimal_text(n)) == decimal_text(n),
{
    lemma_decimal_text_digits(n);
    let d = decimal_text(n);
    assert(is_digit_char(d[0]));
    assert(is_digit_char(d[d.len() - 1]));
    assert(trim_left(d) == d);
    assert(trim_right(d) == d);
}

/// An `address/prefix` entry written from a dotted address and a prefix length
/// in `1..=32` reads back as that address and prefix.
pub proof fn lemma_cidr_reads_back(role: Seq<char>, a: u32, prefix: nat)
    requires
        1 <= prefix <= 32,
    ensures
        cidr_failure(role, dotted(a) + "/"@ + decimal_text(prefix)) is None,
        cidr_address(dotted(a) + "/"@ + decimal_text(prefix)) == a,
        cidr_prefix(dotted(a) + "/"@ + decimal_text(prefix)) == prefix,
{
    reveal_strlit("/");
    let ip = dotted(a);
    let v = ip + "/"@ + decimal_text(prefix);
    lemma_dotted_has_no_slash(a);
    assert forall|j: int| 0 <= j < ip.len() implies v[j] != '/' by {
        assert(v[j] == ip[j]);
    }
    lemma_first_index_at(v, '/', 0, ip.len() as int);
    assert(v.take(ip.len() as int) =~= ip);
    assert(v.skip(ip.len() + 1int) =~= decimal_text(prefix));
    lemma_dotted_address_reads_back(a);
    lemma_decimal_text_untrimmed(prefix);
    lemma_decimal_number_reads_back(prefix, 255);
}

} // verus!
