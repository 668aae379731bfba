use vstd::prelude::*;

use crate::endpoint::{is_alnum, is_digit, is_hex};
use crate::text::{debug_quoted, decimal_text};
use vstd::string::StringSliceAdditionalSpecFns;

verus! {

/// Errors from selecting, configuring and installing the DPDK ENA transport.
/// Every variant names the failed operation or the exact invalid input.
#[derive(Debug, Clone, PartialEq, Eq)]
pub enum DpdkError {
    /// `dpdk-ena` was selected but the native transport is not built in.
    FeatureDisabled,
    /// The transport was requested outside Linux x86_64.
    UnsupportedPlatform,
    /// An EAL/DPDK transport already exists in this process.
    AlreadyInitialized,
    /// A required environment variable is absent.
    MissingEnvironment(String),
    /// A selector or environment value cannot be parsed.
    InvalidEnvironment(String),
    /// A typed configuration violates a cross-field invariant.
    InvalidConfiguration(String),
    /// DPDK or the native transport returned an error code and message.
    Native(String),
    /// Installation through the Aeron context failed.
    Aeron(String),
}

/// The display text of each error.
pub open spec fn dpdk_error_text(e: DpdkError) -> Seq<char> {
    match e {
        DpdkError::FeatureDisabled =>
            "the `dpdk-ena` transport was selected but rusteron-media-driver was not built with the `dpdk` feature"@,
        DpdkError::UnsupportedPlatform =>
            "the `dpdk-ena` transport requires Linux x86_64 (Amazon Linux 2023 / EKS Nitro)"@,
        DpdkError::AlreadyInitialized =>
            "a DPDK EAL/transport is already initialized in this process; DPDK permits only one"@,
        DpdkError::MissingEnvironment(var) => "missing required environment variable "@ + var@,
        DpdkError::InvalidEnvironment(msg) => "invalid environment value: "@ + msg@,
        DpdkError::InvalidConfiguration(msg) => "invalid DPDK configuration: "@ + msg@,
        DpdkError::Native(msg) => "DPDK native error: "@ + msg@,
        DpdkError::Aeron(msg) => "Aeron installation error: "@ + msg@,
    }
}

impl DpdkError {
    /// The display text of the error.
    pub fn to_string(&self) -> (r: String)
        ensures
            r@ == dpdk_error_text(*self),
    {
        match self {
            DpdkError::FeatureDisabled => "the `dpdk-ena` transport was selected but rusteron-media-driver was not built with the `dpdk` feature".to_owned(),
            DpdkError::UnsupportedPlatform => "the `dpdk-ena` transport requires Linux x86_64 (Amazon Linux 2023 / EKS Nitro)".to_owned(),
            DpdkError::AlreadyInitialized => "a DPDK EAL/transport is already initialized in this process; DPDK permits only one".to_owned(),
            DpdkError::MissingEnvironment(var) => crate::text::concat2(
                "missing required environment variable ",
                var.as_str(),
            ),
            DpdkError::InvalidEnvironment(msg) => crate::text::concat2(
                "invalid environment value: ",
                msg.as_str(),
            ),
            DpdkError::InvalidConfiguration(msg) => crate::text::concat2(
                "invalid DPDK configuration: ",
                msg.as_str(),
            ),
            DpdkError::Native(msg) => crate::text::concat2("DPDK native error: ", msg.as_str()),
            DpdkError::Aeron(msg) => crate::text::concat2("Aeron installation error: ", msg.as_str()),
        }
    }
}

/// Per-port DPDK configuration for one ENA device. IPv4 addresses are held as
/// their 32-bit value, first octet in the high byte.
#[derive(Clone, Debug, Eq, PartialEq)]
pub struct DpdkPortConfig {
    /// Canonical `dddd:bb:ss.f` PCI BDF of the ENA device.
    pub pci_address: String,
    /// IPv4 address assigned to this ENA on its subnet.
    pub local_ipv4: u32,
    /// Subnet prefix length (`1..=32`).
    pub prefix_len: u8,
    /// VPC router address for this subnet.
    pub gateway_ipv4: u32,
}

/// Transport configuration covering both ENA roles and the EAL.
#[derive(Clone, Debug, Eq, PartialEq)]
pub struct DpdkTransportConfig {
    pub sender: DpdkPortConfig,
    pub receiver: DpdkPortConfig,
    /// DPDK EAL file prefix, unique per process (`[A-Za-z0-9_-]{1,64}`).
    pub file_prefix: String,
    /// Test-only mode in which the port addresses may be DPDK vdev names.
    pub test_vdev: bool,
    /// Hugepage mount; must be absolute.
    pub hugepage_dir: String,
    pub rx_descriptors: u16,
    pub tx_descriptors: u16,
    pub mbufs_per_port: u32,
    pub mempool_cache: u16,
    pub burst_size: u16,
    pub max_aeron_mtu: usize,
}

/// The bytes of a text, UTF-8 encoded.
pub open spec fn utf8(s: Seq<char>) -> Seq<u8> {
    vstd::utf8::encode_utf8(s)
}

/// Dotted-decimal text of an IPv4 address.
pub open spec fn dotted(a: u32) -> Seq<char> {
    decimal_text((a / 0x1000000) as nat) + "."@ + decimal_text(((a / 0x10000) % 256) as nat) + "."@
        + decimal_text(((a / 0x100) % 256) as nat) + "."@ + decimal_text((a % 256) as nat)
}

/// Not multicast (224.0.0.0/4), not the limited broadcast, not `0.0.0.0`.
pub open spec fn is_unicast(a: u32) -> bool {
    !(0xE000_0000 <= a <= 0xEFFF_FFFF) && a != 0xFFFF_FFFF && a != 0
}

/// The network mask of a prefix length in `1..=32`.
pub open spec fn prefix_mask(len: u8) -> u32 {
    0xFFFF_FFFFu32 << ((32 - len) as u32)
}

/// Canonical PCI BDF syntax `dddd:bb:ss.f` (4-2-2 hex, dot, 1 hex).
pub open spec fn valid_pci_bytes(b: Seq<u8>) -> bool {
    &&& b.len() == 12
    &&& b[4] == 58 && b[7] == 58 && b[10] == 46
    &&& forall|k: int| 0 <= k < 12 && k != 4 && k != 7 && k != 10 ==> is_hex(#[trigger] b[k])
}

/// A DPDK virtual device name as the test mode accepts it: 1 to 15 bytes (it
/// must fit the native 16-byte field), a letter first, then letters, digits or
/// `_`. A `:` or `.` can never occur, so it is never mistaken for a BDF.
pub open spec fn valid_vdev_bytes(b: Seq<u8>) -> bool {
    &&& 1 <= b.len() <= 15
    &&& ((65 <= b[0] <= 90) || (97 <= b[0] <= 122))
    &&& forall|k: int| 0 <= k < b.len() ==> (is_alnum(#[trigger] b[k]) || b[k] == 95)
}

/// An EAL file prefix: `[A-Za-z0-9_-]{1,64}`.
pub open spec fn valid_file_prefix_bytes(b: Seq<u8>) -> bool {
    &&& 1 <= b.len() <= 64
    &&& forall|k: int| 0 <= k < b.len() ==> (is_alnum(#[trigger] b[k]) || b[k] == 95 || b[k] == 45)
}

/// A port address is accepted: a canonical BDF, or in test mode a vdev name.
pub open spec fn address_ok(s: Seq<char>, test_vdev: bool) -> bool {
    valid_pci_bytes(utf8(s)) || (test_vdev && valid_vdev_bytes(utf8(s)))
}

/// The first rule a port breaks, as the message naming `{role}.{field}`.
pub open spec fn port_config_violation(role: Seq<char>, p: DpdkPortConfig, test_vdev: bool) -> Option<
    Seq<char>,
> {
    if !address_ok(p.pci_address@, test_vdev) {
        if test_vdev {
            Some(role + ".pci_address "@ + debug_quoted(p.pci_address@)
                + " is neither canonical dddd:bb:ss.f nor a DPDK vdev name"@)
        } else {
            Some(role + ".pci_address "@ + debug_quoted(p.pci_address@)
                + " is not canonical dddd:bb:ss.f"@)
        }
    } else if !is_unicast(p.local_ipv4) {
        Some(role + ".local_ipv4 "@ + dotted(p.local_ipv4) + " is not a unicast IPv4 address"@)
    } else if !is_unicast(p.gateway_ipv4) {
        Some(role + ".gateway_ipv4 "@ + dotted(p.gateway_ipv4) + " is not a unicast IPv4 address"@)
    } else if !(1 <= p.prefix_len <= 32) {
        Some(role + ".prefix_len "@ + decimal_text(p.prefix_len as nat) + " must be in 1..=32"@)
    } else if p.local_ipv4 & prefix_mask(p.prefix_len) != p.gateway_ipv4 & prefix_mask(
        p.prefix_len,
    ) {
        Some(role + ".gateway_ipv4 "@ + dotted(p.gateway_ipv4) + " is not in the "@ + dotted(
            p.local_ipv4,
        ) + "/"@ + decimal_text(p.prefix_len as nat) + " subnet of "@ + role + ".local_ipv4"@)
    } else {
        None
    }
}

/// The mbuf pool must cover both descriptor rings plus four bursts.
pub open spec fn required_mbufs(c: DpdkTransportConfig) -> nat {
    (c.rx_descriptors + c.tx_descriptors + 4 * c.burst_size) as nat
}

/// The first invariant of the transport configuration that `c` breaks, as the
/// message naming the field, or `None` when it is valid.
pub open spec fn config_violation(c: DpdkTransportConfig) -> Option<Seq<char>> {
    if port_config_violation("sender"@, c.sender, c.test_vdev) is Some {
        port_config_violation("sender"@, c.sender, c.test_vdev)
    } else if port_config_violation("receiver"@, c.receiver, c.test_vdev) is Some {
        port_config_violation("receiver"@, c.receiver, c.test_vdev)
    } else if c.sender.pci_address@ == c.receiver.pci_address@ {
        Some("sender.pci_address and receiver.pci_address must differ (both are "@
            + c.sender.pci_address@ + ")"@)
    } else if !valid_file_prefix_bytes(utf8(c.file_prefix@)) {
        Some("file_prefix "@ + debug_quoted(c.file_prefix@) + " must match [A-Za-z0-9_-]{1,64}"@)
    } else if !(c.hugepage_dir@.len() > 0 && c.hugepage_dir@[0] == '/') {
        Some("hugepage_dir "@ + debug_quoted(c.hugepage_dir@)
            + " must be an absolute path to the hugetlbfs mount"@)
    } else if !(64 <= c.rx_descriptors <= 8192) {
        Some("rx_descriptors "@ + decimal_text(c.rx_descriptors as nat) + " must be in 64..=8192"@)
    } else if !(64 <= c.tx_descriptors <= 8192) {
        Some("tx_descriptors "@ + decimal_text(c.tx_descriptors as nat) + " must be in 64..=8192"@)
    } else if !(1 <= c.burst_size <= 256) {
        Some("burst_size "@ + decimal_text(c.burst_size as nat) + " must be in 1..=256"@)
    } else if c.mbufs_per_port < required_mbufs(c) {
        Some("mbufs_per_port "@ + decimal_text(c.mbufs_per_port as nat) + " is below the required "@
            + decimal_text(required_mbufs(c)) + " (rx + tx descriptors + 4 bursts)"@)
    } else if c.max_aeron_mtu % 32 != 0 || c.max_aeron_mtu > 1472 {
        Some("max_aeron_mtu "@ + decimal_text(c.max_aeron_mtu as nat)
            + " must be 32-aligned and at most 1472"@)
    } else {
        None
    }
}

/// Appends the dotted-decimal text of an IPv4 address.
pub(crate) fn push_dotted(s: &mut String, a: u32)
    ensures
        final(s)@ == old(s)@ + dotted(a),
{
    let b0 = a >> 24u32;
    let b1 = (a >> 16u32) & 0xFF;
    let b2 = (a >> 8u32) & 0xFF;
    let b3 = a & 0xFF;
    assert(b0 == a / 0x1000000) by (bit_vector)
        requires
            b0 == a >> 24u32,
    ;
    assert(b1 == (a / 0x10000) % 256) by (bit_vector)
        requires
            b1 == (a >> 16u32) & 0xFF,
    ;
    assert(b2 == (a / 0x100) % 256) by (bit_vector)
        requires
            b2 == (a >> 8u32) & 0xFF,
    ;
    assert(b3 == a % 256) by (bit_vector)
        requires
            b3 == a & 0xFF,
    ;
    crate::text::push_decimal(s, b0 as u64);
    crate::text::push_str(s, ".");
    crate::text::push_decimal(s, b1 as u64);
    crate::text::push_str(s, ".");
    crate::text::push_decimal(s, b2 as u64);
    crate::text::push_str(s, ".");
    crate::text::push_decimal(s, b3 as u64);
    assert(s@ =~= old(s)@ + dotted(a));
}

fn is_unicast_addr(a: u32) -> (r: bool)
    ensures
        r == is_unicast(a),
{
    !(0xE000_0000 <= a && a <= 0xEFFF_FFFF) && a != 0xFFFF_FFFF && a != 0
}

/// Canonical PCI BDF syntax `dddd:bb:ss.f`.
fn valid_pci(s: &str) -> (r: bool)
    ensures
        r == valid_pci_bytes(utf8(s@)),
{
    let b = s.as_bytes();
    assert(b@ == utf8(s@));
    if b.len() != 12 {
        return false;
    }
    if b[4] != 58 || b[7] != 58 || b[10] != 46 {
        return false;
    }
    let mut k: usize = 0;
    while k < 12
        invariant
            b@ == utf8(s@),
            b@.len() == 12,
            k <= 12,
            forall|j: int| 0 <= j < k && j != 4 && j != 7 && j != 10 ==> is_hex(#[trigger] b@[j]),
        decreases 12 - k,
    {
        if k != 4 && k != 7 && k != 10 && !crate::endpoint::is_hex_byte(b[k]) {
            assert(!is_hex(b@[k as int]));
            assert(!valid_pci_bytes(b@));
            return false;
        }
        k += 1;
    }
    true
}

/// A DPDK virtual device name (test mode only).
fn valid_vdev(s: &str) -> (r: bool)
    ensures
        r == valid_vdev_bytes(utf8(s@)),
{
    let b = s.as_bytes();
    assert(b@ == utf8(s@));
    if b.len() < 1 || b.len() > 15 {
        return false;
    }
    if !((65 <= b[0] && b[0] <= 90) || (97 <= b[0] && b[0] <= 122)) {
        return false;
    }
    let mut k: usize = 0;
    while k < b.len()
        invariant
            b@ == utf8(s@),
            k <= b@.len(),
            forall|j: int| 0 <= j < k ==> (is_alnum(#[trigger] b@[j]) || b@[j] == 95),
        decreases b@.len() - k,
    {
        if !(crate::endpoint::is_alnum_byte(b[k]) || b[k] == 95) {
            assert(!(is_alnum(b@[k as int]) || b@[k as int] == 95));
            return false;
        }
        k += 1;
    }
    true
}

/// An EAL file prefix: `[A-Za-z0-9_-]{1,64}`.
fn valid_file_prefix(s: &str) -> (r: bool)
    ensures
        r == valid_file_prefix_bytes(utf8(s@)),
{
    let b = s.as_bytes();
    assert(b@ == utf8(s@));
    if b.len() < 1 || b.len() > 64 {
        return false;
    }
    let mut k: usize = 0;
    while k < b.len()
        invariant
            b@ == utf8(s@),
            k <= b@.len(),
            forall|j: int| 0 <= j < k ==> (is_alnum(#[trigger] b@[j]) || b@[j] == 95 || b@[j] == 45),
        decreases b@.len() - k,
    {
        if !(crate::endpoint::is_alnum_byte(b[k]) || b[k] == 95 || b[k] == 45) {
            assert(!(is_alnum(b@[k as int]) || b@[k as int] == 95 || b@[k as int] == 45));
            return false;
        }
        k += 1;
    }
    true
}

/// Checks one port; the message names `{role}.{field}`.
fn validate_port(role: &str, port: &DpdkPortConfig, test_vdev: bool) -> (r: Result<(), DpdkError>)
    ensures
        r is Ok <==> port_config_violation(role@, *port, test_vdev) is None,
        r matches Err(e) ==> (e matches DpdkError::InvalidConfiguration(m) && port_config_violation(
            role@,
            *port,
            test_vdev,
        ) == Some(m@)),
{
    let pci = port.pci_address.as_str();
    if !(valid_pci(pci) || (test_vdev && valid_vdev(pci))) {
        let mut m = crate::text::concat2(role, ".pci_address ");
        crate::text::push_str(&mut m, crate::text::debug_quote(pci).as_str());
        if test_vdev {
            crate::text::push_str(&mut m, " is neither canonical dddd:bb:ss.f nor a DPDK vdev name");
        } else {
            crate::text::push_str(&mut m, " is not canonical dddd:bb:ss.f");
        }
        return Err(DpdkError::InvalidConfiguration(m));
    }
    if !is_unicast_addr(port.local_ipv4) {
        let mut m = crate::text::concat2(role, ".local_ipv4 ");
        push_dotted(&mut m, port.local_ipv4);
        crate::text::push_str(&mut m, " is not a unicast IPv4 address");
        return Err(DpdkError::InvalidConfiguration(m));
    }
    if !is_unicast_addr(port.gateway_ipv4) {
        let mut m = crate::text::concat2(role, ".gateway_ipv4 ");
        push_dotted(&mut m, port.gateway_ipv4);
        crate::text::push_str(&mut m, " is not a unicast IPv4 address");
        return Err(DpdkError::InvalidConfiguration(m));
    }
    if !(1 <= port.prefix_len && port.prefix_len <= 32) {
        let mut m = crate::text::concat2(role, ".prefix_len ");
        crate::text::push_decimal(&mut m, port.prefix_len as u64);
        crate::text::push_str(&mut m, " must be in 1..=32");
        return Err(DpdkError::InvalidConfiguration(m));
    }
    let shift: u32 = 32 - port.prefix_len as u32;
    let mask: u32 = 0xFFFF_FFFFu32 << shift;
    assert(mask == prefix_mask(port.prefix_len));
    if port.local_ipv4 & mask != port.gateway_ipv4 & mask {
        let mut m = crate::text::concat2(role, ".gateway_ipv4 ");
        push_dotted(&mut m, port.gateway_ipv4);
        crate::text::push_str(&mut m, " is not in the ");
        push_dotted(&mut m, port.local_ipv4);
        crate::text::push_str(&mut m, "/");
        crate::text::push_decimal(&mut m, port.prefix_len as u64);
        crate::text::push_str(&mut m, " subnet of ");
        crate::text::push_str(&mut m, role);
        crate::text::push_str(&mut m, ".local_ipv4");
        return Err(DpdkError::InvalidConfiguration(m));
    }
    Ok(())
}

impl DpdkTransportConfig {
    /// Validates every cross-field invariant: both ports (address syntax,
    /// unicast addresses, prefix length, gateway inside the subnet), distinct
    /// port addresses, the file prefix, an absolute hugepage directory,
    /// descriptor and burst ranges, the mbuf pool size and the MTU. The error
    /// is `InvalidConfiguration`, naming the first failing field.
    pub fn validate(&self) -> (r: Result<(), DpdkError>)
        ensures
            r is Ok <==> config_violation(*self) is None,
            r matches Err(e) ==> (e matches DpdkError::InvalidConfiguration(m) && config_violation(
                *self,
            ) == Some(m@)),
    {
        validate_port("sender", &self.sender, self.test_vdev)?;
        validate_port("receiver", &self.receiver, self.test_vdev)?;
        if crate::text::str_eq(self.sender.pci_address.as_str(), self.receiver.pci_address.as_str()) {
            let m = crate::text::concat3(
                "sender.pci_address and receiver.pci_address must differ (both are ",
                self.sender.pci_address.as_str(),
                ")",
            );
            return Err(DpdkError::InvalidConfiguration(m));
        }
        if !valid_file_prefix(self.file_prefix.as_str()) {
            let q = crate::text::debug_quote(self.file_prefix.as_str());
            let m = crate::text::concat3("file_prefix ", q.as_str(), " must match [A-Za-z0-9_-]{1,64}");
            return Err(DpdkError::InvalidConfiguration(m));
        }
        let dir = crate::text::chars_of(self.hugepage_dir.as_str());
        if !(dir.len() > 0 && dir[0] == '/') {
            let q = crate::text::debug_quote(self.hugepage_dir.as_str());
            let m = crate::text::concat3(
                "hugepage_dir ",
                q.as_str(),
                " must be an absolute path to the hugetlbfs mount",
            );
            return Err(DpdkError::InvalidConfiguration(m));
        }
        if !(64 <= self.rx_descriptors && self.rx_descriptors <= 8192) {
            let mut m = "rx_descriptors ".to_owned();
            crate::text::push_decimal(&mut m, self.rx_descriptors as u64);
            crate::text::push_str(&mut m, " must be in 64..=8192");
            return Err(DpdkError::InvalidConfiguration(m));
        }
        if !(64 <= self.tx_descriptors && self.tx_descriptors <= 8192) {
            let mut m = "tx_descriptors ".to_owned();
            crate::text::push_decimal(&mut m, self.tx_descriptors as u64);
            crate::text::push_str(&mut m, " must be in 64..=8192");
            return Err(DpdkError::InvalidConfiguration(m));
        }
        if !(1 <= self.burst_size && self.burst_size <= 256) {
            let mut m = "burst_size ".to_owned();
            crate::text::push_decimal(&mut m, self.burst_size as u64);
            crate::text::push_str(&mut m, " must be in 1..=256");
            return Err(DpdkError::InvalidConfiguration(m));
        }
        let required: u64 = self.rx_descriptors as u64 + self.tx_descriptors as u64 + 4
            * self.burst_size as u64;
        if (self.mbufs_per_port as u64) < required {
            let mut m = "mbufs_per_port ".to_owned();
            crate::text::push_decimal(&mut m, self.mbufs_per_port as u64);
            crate::text::push_str(&mut m, " is below the required ");
            crate::text::push_decimal(&mut m, required);
            crate::text::push_str(&mut m, " (rx + tx descriptors + 4 bursts)");
            return Err(DpdkError::InvalidConfiguration(m));
        }
        if self.max_aeron_mtu % 32 != 0 || self.max_aeron_mtu > 1472 {
            let mut m = "max_aeron_mtu ".to_owned();
            crate::text::push_decimal(&mut m, self.max_aeron_mtu as u64);
            crate::text::push_str(&mut m, " must be 32-aligned and at most 1472");
            return Err(DpdkError::InvalidConfiguration(m));
        }
        Ok(())
    }
}

/// The address lies in the IPv4 multicast block 224.0.0.0/4.
pub open spec fn in_multicast_block(a: u32) -> bool {
    0xE000_0000 <= a && a <= 0xEFFF_FFFF
}

/// A configuration that validates has unicast port addresses: neither port's
/// local address nor its gateway is a multicast address (224.0.0.0/4), the
/// limited broadcast address or `0.0.0.0`.
pub proof fn lemma_valid_config_has_unicast_ports(c: DpdkTransportConfig)
    requires
        config_violation(c) is None,
    ensures
        !in_multicast_block(c.sender.local_ipv4) && c.sender.local_ipv4 != 0xFFFF_FFFF && c.sender.local_ipv4 != 0,
        !in_multicast_block(c.sender.gateway_ipv4) && c.sender.gateway_ipv4 != 0xFFFF_FFFF && c.sender.gateway_ipv4 != 0,
        !in_multicast_block(c.receiver.local_ipv4) && c.receiver.local_ipv4 != 0xFFFF_FFFF && c.receiver.local_ipv4 != 0,
        !in_multicast_block(c.receiver.gateway_ipv4) && c.receiver.gateway_ipv4 != 0xFFFF_FFFF && c.receiver.gateway_ipv4 != 0,
{
}

/// A port whose address is accepted but whose local address (or, with a
/// unicast local address, whose gateway) lies in 224.0.0.0/4 is refused with
/// the message naming that field as not unicast.
pub proof fn lemma_multicast_port_address_is_refused(role: Seq<char>, p: DpdkPortConfig, test_vdev: bool)
    requires
        address_ok(p.pci_address@, test_vdev),
        in_multicast_block(p.local_ipv4) || in_multicast_block(p.gateway_ipv4),
    ensures
        in_multicast_block(p.local_ipv4) ==> port_config_violation(role, p, test_vdev) == Some(
            role + ".local_ipv4 "@ + dotted(p.local_ipv4) + " is not a unicast IPv4 address"@,
        ),
        !in_multicast_block(p.local_ipv4) && p.local_ipv4 != 0xFFFF_FFFF && p.local_ipv4 != 0 ==> port_config_violation(
            role,
            p,
            test_vdev,
        ) == Some(role + ".gateway_ipv4 "@ + dotted(p.gateway_ipv4) + " is not a unicast IPv4 address"@),
{
}

/// A port with an accepted address, unicast local and gateway addresses
/// (outside 224.0.0.0/4, not the limited broadcast, not `0.0.0.0`), a prefix
/// length in `1..=32` and its gateway in the local subnet breaks no rule.
pub proof fn lemma_unicast_port_in_subnet_is_accepted(role: Seq<char>, p: DpdkPortConfig, test_vdev: bool)
    requires
        address_ok(p.pci_address@, test_vdev),
        !in_multicast_block(p.local_ipv4) && p.local_ipv4 != 0xFFFF_FFFF && p.local_ipv4 != 0,
        !in_multicast_block(p.gateway_ipv4) && p.gateway_ipv4 != 0xFFFF_FFFF && p.gateway_ipv4 != 0,
        1 <= p.prefix_len <= 32,
        p.local_ipv4 & prefix_mask(p.prefix_len) == p.gateway_ipv4 & prefix_mask(p.prefix_len),
    ensures
        port_config_violation(role, p, test_vdev) is None,
{
}

} // verus!
