use vstd::prelude::*;

use crate::dpdk_config::dotted;
use crate::dpdk_env::{
    cidr_address, cidr_failure, cidr_prefix, env_lookup, lemma_cidr_reads_back, selector_outcome,
    Selector,
};
use crate::inventory::{Inventory, Pair, Port};
use crate::text::decimal_text;

verus! {

/// Kubelet accepts a registration and the plugin then serves the device API;
/// the registration service holds no state.
#[derive(Clone, Default)]
pub struct RegistrationService;

/// Host paths the live health probe inspects: the sysfs root and the VFIO
/// device directory.
#[derive(Clone, Debug)]
pub struct SysfsRoots {
    pub sys_root: String,
    pub vfio_root: String,
}

/// A NUMA node of a device's topology.
#[derive(Clone, Copy, Debug, PartialEq, Eq)]
pub struct NumaNode {
    pub id: i64,
}

/// Where a device sits.
#[derive(Clone, Debug, PartialEq, Eq)]
pub struct TopologyInfo {
    pub nodes: Vec<NumaNode>,
}

/// One advertised device: one VFIO ENA pair.
#[derive(Clone, Debug, PartialEq, Eq)]
pub struct Device {
    pub id: String,
    pub health: String,
    pub topology: Option<TopologyInfo>,
}

/// A device node handed to the container.
#[derive(Clone, Debug, PartialEq, Eq)]
pub struct DeviceSpec {
    pub container_path: String,
    pub host_path: String,
    pub permissions: String,
}

/// What one container receives on allocation: its environment, in the order it
/// was set, and its device nodes.
#[derive(Clone, Debug)]
pub struct ContainerAllocateResponse {
    pub envs: Vec<(String, String)>,
    pub devices: Vec<DeviceSpec>,
}

/// Why an allocation was refused, with the kubelet status it maps to.
#[derive(Clone, Debug, PartialEq, Eq)]
pub enum AllocateError {
    /// No device id was requested.
    InvalidArgument(String),
    /// The requested id names no pair.
    NotFound(String),
    /// The pair failed its live health probe.
    FailedPrecondition(String),
}

/// Device plugin state: the validated inventory, the probe roots and the
/// interval at which health is polled.
pub struct DevicePluginService {
    pub inventory: Inventory,
    pub roots: SysfsRoots,
    pub poll_interval: std::time::Duration,
}

/// Key/value texts of an environment list.
pub open spec fn env_model(e: Seq<(String, String)>) -> Seq<(Seq<char>, Seq<char>)> {
    e.map_values(|kv: (String, String)| (kv.0@, kv.1@))
}

/// `address/prefix`, the form the DPDK environment contract parses.
pub open spec fn cidr_text(port: Port) -> Seq<char> {
    port.ipv4@ + "/"@ + decimal_text(port.prefix_len as nat)
}

/// The environment entries of one role.
pub open spec fn role_env(role: Seq<char>, port: Port) -> Seq<(Seq<char>, Seq<char>)> {
    seq![
        ("RUSTERON_DPDK_"@ + role + "_PCI"@, port.pci@),
        ("RUSTERON_DPDK_"@ + role + "_IPV4_CIDR"@, cidr_text(port)),
        ("RUSTERON_DPDK_"@ + role + "_GATEWAY"@, port.gateway@),
    ]
}

/// The environment injected for a pair: the transport, the file prefix, then
/// the sender's and the receiver's entries.
pub open spec fn allocation_env(pair: Pair) -> Seq<(Seq<char>, Seq<char>)> {
    seq![
        ("RUSTERON_MEDIA_DRIVER_TRANSPORT"@, "dpdk-ena"@),
        ("RUSTERON_DPDK_FILE_PREFIX"@, "rusteron-dpdk-"@ + pair.id@),
    ] + role_env("SENDER"@, pair.sender) + role_env("RECEIVER"@, pair.receiver)
}

/// The device nodes of a pair: the VFIO control node, then each distinct IOMMU
/// group node (the sender's first).
pub open spec fn device_paths(pair: Pair) -> Seq<Seq<char>> {
    let s = "/dev/vfio/"@ + pair.sender.iommu_group@;
    let r = "/dev/vfio/"@ + pair.receiver.iommu_group@;
    if pair.sender.iommu_group@ == pair.receiver.iommu_group@ {
        seq!["/dev/vfio/vfio"@, s]
    } else {
        seq!["/dev/vfio/vfio"@, s, r]
    }
}

/// A device node at the same path in the host and the container, read-write-mknod.
pub open spec fn device_spec_at(d: DeviceSpec, path: Seq<char>) -> bool {
    d.container_path@ == path && d.host_path@ == path && d.permissions@ == "rwm"@
}

/// `resp` is the allocation of `pair`.
pub open spec fn allocation_of(resp: ContainerAllocateResponse, pair: Pair) -> bool {
    &&& env_model(resp.envs@) == allocation_env(pair)
    &&& resp.devices@.len() == device_paths(pair).len()
    &&& forall|k: int|
        0 <= k < resp.devices@.len() ==> device_spec_at(
            #[trigger] resp.devices@[k],
            device_paths(pair)[k],
        )
}

/// Id, health and NUMA nodes of a device.
pub open spec fn device_model(d: Device) -> (Seq<char>, Seq<char>, Option<Seq<i64>>) {
    (
        d.id@,
        d.health@,
        match d.topology {
            Some(t) => Some(t.nodes@.map_values(|n: NumaNode| n.id)),
            None => None,
        },
    )
}

/// The device advertised for a healthy pair: its id, `Healthy`, and the
/// sender's NUMA node when one is known.
pub open spec fn pair_device(p: Pair) -> (Seq<char>, Seq<char>, Option<Seq<i64>>) {
    (
        p.id@,
        "Healthy"@,
        if p.sender.numa_node >= 0 {
            Some(seq![p.sender.numa_node as i64])
        } else {
            None
        },
    )
}

/// A port's device is bound to the vfio-pci driver: the target of its
/// `driver` link names it.
pub open spec fn bound_to_vfio(driver: Option<Seq<char>>) -> bool {
    driver matches Some(t) && crate::text::seq_contains_seq(t, "vfio-pci"@)
}

/// The text of an optional driver link target.
pub open spec fn driver_view(driver: Option<&str>) -> Option<Seq<char>> {
    match driver {
        Some(t) => Some(t@),
        None => None,
    }
}

/// The health rule of a pair: it is healthy only while both of its devices
/// are bound to vfio-pci and both IOMMU group device nodes exist. A driver
/// is the target of the device's `driver` link (`None` when it has none).
pub fn pair_healthy(
    sender_driver: Option<&str>,
    sender_group_exists: bool,
    receiver_driver: Option<&str>,
    receiver_group_exists: bool,
) -> (r: bool)
    ensures
        r == (bound_to_vfio(driver_view(sender_driver)) && sender_group_exists && bound_to_vfio(
            driver_view(receiver_driver),
        ) && receiver_group_exists),
{
    let sender = match sender_driver {
        Some(t) => crate::text::str_contains(t, "vfio-pci"),
        None => false,
    };
    let receiver = match receiver_driver {
        Some(t) => crate::text::str_contains(t, "vfio-pci"),
        None => false,
    };
    sender && sender_group_exists && receiver && receiver_group_exists
}

/// Pair `i` passed its live health probe.
pub open spec fn is_healthy(healthy: Seq<bool>, i: int) -> bool {
    0 <= i < healthy.len() && healthy[i]
}

/// The devices advertised for the first `n` pairs, in pair order.
pub open spec fn advertised(pairs: Seq<Pair>, healthy: Seq<bool>, n: int) -> Seq<
    (Seq<char>, Seq<char>, Option<Seq<i64>>),
>
    decreases n,
{
    if n <= 0 {
        seq![]
    } else if is_healthy(healthy, n - 1) {
        advertised(pairs, healthy, n - 1).push(pair_device(pairs[n - 1]))
    } else {
        advertised(pairs, healthy, n - 1)
    }
}

/// The index of the first pair with the given id at or after `start`.
pub open spec fn find_pair(pairs: Seq<Pair>, id: Seq<char>, start: int) -> Option<int>
    decreases pairs.len() - start,
{
    if start < 0 || start >= pairs.len() {
        None
    } else if pairs[start].id@ == id {
        Some(start)
    } else {
        find_pair(pairs, id, start + 1)
    }
}

/// How an allocation request for `ids` ends: `Ok(i)` allocates pair `i`, or the
/// refusal.
pub open spec fn allocate_outcome(pairs: Seq<Pair>, healthy: Seq<bool>, ids: Seq<Seq<char>>) -> Result<
    int,
    AllocateErrorKind,
> {
    if ids.len() == 0 {
        Err(AllocateErrorKind::NoDevice)
    } else {
        match find_pair(pairs, ids[0], 0) {
            None => Err(AllocateErrorKind::Unknown),
            Some(i) => if is_healthy(healthy, i) {
                Ok(i)
            } else {
                Err(AllocateErrorKind::Unhealthy)
            },
        }
    }
}

/// The kinds of refusal, for contracts.
pub enum AllocateErrorKind {
    NoDevice,
    Unknown,
    Unhealthy,
}

/// The message of each refusal for the requested id.
pub open spec fn refusal_text(kind: AllocateErrorKind, id: Seq<char>) -> Seq<char> {
    match kind {
        AllocateErrorKind::NoDevice => "no device requested"@,
        AllocateErrorKind::Unknown => "unknown device "@ + id,
        AllocateErrorKind::Unhealthy => "device "@ + id + " is not healthy"@,
    }
}

/// `e` is the refusal of the given kind for `id`.
pub open spec fn refusal_is(e: AllocateError, kind: AllocateErrorKind, id: Seq<char>) -> bool {
    match kind {
        AllocateErrorKind::NoDevice => e matches AllocateError::InvalidArgument(m) && m@
            == refusal_text(kind, id),
        AllocateErrorKind::Unknown => e matches AllocateError::NotFound(m) && m@ == refusal_text(
            kind,
            id,
        ),
        AllocateErrorKind::Unhealthy => e matches AllocateError::FailedPrecondition(m) && m@
            == refusal_text(kind, id),
    }
}

fn kv(k: String, v: String) -> (r: (String, String))
    ensures
        r.0@ == k@,
        r.1@ == v@,
{
    (k, v)
}

fn push_env(envs: &mut Vec<(String, String)>, k: String, v: String)
    ensures
        env_model(final(envs)@) == env_model(old(envs)@).push((k@, v@)),
{
    let e = kv(k, v);
    envs.push(e);
    assert(env_model(envs@) =~= env_model(old(envs)@).push((k@, v@)));
}

/// `address/prefix` of a port.
fn cidr(port: &Port) -> (r: String)
    ensures
        r@ == cidr_text(*port),
{
    let mut s = crate::text::concat2(port.ipv4.as_str(), "/");
    crate::text::push_decimal(&mut s, port.prefix_len as u64);
    s
}

/// Adds the `RUSTERON_DPDK_{role}_{PCI|IPV4_CIDR|GATEWAY}` entries of a port.
fn put_role(envs: &mut Vec<(String, String)>, role: &str, port: &Port)
    ensures
        env_model(final(envs)@) == env_model(old(envs)@) + role_env(role@, *port),
{
    let k1 = crate::text::concat3("RUSTERON_DPDK_", role, "_PCI");
    push_env(envs, k1, port.pci.clone());
    let k2 = crate::text::concat3("RUSTERON_DPDK_", role, "_IPV4_CIDR");
    push_env(envs, k2, cidr(port));
    let k3 = crate::text::concat3("RUSTERON_DPDK_", role, "_GATEWAY");
    push_env(envs, k3, port.gateway.clone());
    assert(env_model(envs@) =~= env_model(old(envs)@) + role_env(role@, *port));
}

/// A device node at `path` in both host and container.
fn device_spec(path: &str) -> (r: DeviceSpec)
    ensures
        device_spec_at(r, path@),
{
    DeviceSpec {
        container_path: path.to_owned(),
        host_path: path.to_owned(),
        permissions: "rwm".to_owned(),
    }
}

/// Builds the allocation of one pair: both roles' DPDK environment, the VFIO
/// control node and each distinct IOMMU group node.
pub fn allocation_for(pair: &Pair) -> (r: ContainerAllocateResponse)
    ensures
        allocation_of(r, *pair),
{
    let mut envs: Vec<(String, String)> = Vec::new();
    push_env(&mut envs, "RUSTERON_MEDIA_DRIVER_TRANSPORT".to_owned(), "dpdk-ena".to_owned());
    push_env(
        &mut envs,
        "RUSTERON_DPDK_FILE_PREFIX".to_owned(),
        crate::text::concat2("rusteron-dpdk-", pair.id.as_str()),
    );
    put_role(&mut envs, "SENDER", &pair.sender);
    put_role(&mut envs, "RECEIVER", &pair.receiver);
    assert(env_model(envs@) =~= allocation_env(*pair));
    let mut devices: Vec<DeviceSpec> = Vec::new();
    devices.push(device_spec("/dev/vfio/vfio"));
    let s = crate::text::concat2("/dev/vfio/", pair.sender.iommu_group.as_str());
    devices.push(device_spec(s.as_str()));
    if !crate::text::str_eq(pair.sender.iommu_group.as_str(), pair.receiver.iommu_group.as_str()) {
        let g = crate::text::concat2("/dev/vfio/", pair.receiver.iommu_group.as_str());
        devices.push(device_spec(g.as_str()));
    }
    let r = ContainerAllocateResponse { envs, devices };
    assert forall|k: int| 0 <= k < r.devices@.len() implies device_spec_at(
        #[trigger] r.devices@[k],
        device_paths(*pair)[k],
    ) by {}
    r
}

impl DevicePluginService {
    /// A service over a validated inventory.
    pub fn new(inventory: Inventory, roots: SysfsRoots, poll_interval: std::time::Duration) -> (r: Self)
        ensures
            r.inventory == inventory,
            r.roots == roots,
            r.poll_interval == poll_interval,
    {
        DevicePluginService { inventory, roots, poll_interval }
    }

    /// The devices to advertise: one per pair whose live probe passed
    /// (`healthy[i]` for pair `i`; a missing entry counts as unhealthy), in pair
    /// order.
    pub fn healthy_devices(&self, healthy: &[bool]) -> (r: Vec<Device>)
        ensures
            r@.map_values(|d: Device| device_model(d)) == advertised(
                self.inventory.pairs@,
                healthy@,
                self.inventory.pairs@.len() as int,
            ),
    {
        let pairs = &self.inventory.pairs;
        let mut out: Vec<Device> = Vec::new();
        let mut i: usize = 0;
        while i < pairs.len()
            invariant
                i <= pairs@.len(),
                out@.map_values(|d: Device| device_model(d)) == advertised(
                    pairs@,
                    healthy@,
                    i as int,
                ),
            decreases pairs@.len() - i,
        {
            let p = &pairs[i];
            if i < healthy.len() && healthy[i] {
                let topology = if p.sender.numa_node >= 0 {
                    let mut nodes: Vec<NumaNode> = Vec::new();
                    nodes.push(NumaNode { id: p.sender.numa_node as i64 });
                    assert(nodes@.map_values(|n: NumaNode| n.id) =~= seq![p.sender.numa_node as i64]);
                    Some(TopologyInfo { nodes })
                } else {
                    None
                };
                let d = Device { id: p.id.clone(), health: "Healthy".to_owned(), topology };
                assert(device_model(d) == pair_device(pairs@[i as int]));
                let ghost before = out@;
                out.push(d);
                assert(out@.map_values(|d: Device| device_model(d)) =~= before.map_values(
                    |d: Device| device_model(d),
                ).push(device_model(d)));
            }
            i += 1;
        }
        out
    }

    /// Answers one container's allocation request: the first requested id must
    /// name a pair whose live probe passed (`healthy[i]` for pair `i`).
    pub fn allocate_container(&self, devices_ids: &[String], healthy: &[bool]) -> (r: Result<
        ContainerAllocateResponse,
        AllocateError,
    >)
        ensures
            ({
                let ids = devices_ids@.map_values(|s: String| s@);
                let id = if ids.len() > 0 {
                    ids[0]
                } else {
                    Seq::empty()
                };
                match allocate_outcome(self.inventory.pairs@, healthy@, ids) {
                    Ok(i) => r matches Ok(resp) && allocation_of(resp, self.inventory.pairs@[i]),
                    Err(kind) => r matches Err(e) && refusal_is(e, kind, id),
                }
            }),
    {
        let ghost ids = devices_ids@.map_values(|s: String| s@);
        let pairs = &self.inventory.pairs;
        if devices_ids.len() == 0 {
            return Err(AllocateError::InvalidArgument("no device requested".to_owned()));
        }
        let id = &devices_ids[0];
        assert(ids[0] == id@);
        let mut i: usize = 0;
        while i < pairs.len()
            invariant
                i <= pairs@.len(),
                pairs@ == self.inventory.pairs@,
                ids == devices_ids@.map_values(|s: String| s@),
                ids.len() > 0,
                ids[0] == id@,
                find_pair(pairs@, id@, 0) == find_pair(pairs@, id@, i as int),
            decreases pairs@.len() - i,
        {
            if crate::text::str_eq(pairs[i].id.as_str(), id.as_str()) {
                if i < healthy.len() && healthy[i] {
                    return Ok(allocation_for(&pairs[i]));
                } else {
                    let m = crate::text::concat3("device ", id.as_str(), " is not healthy");
                    return Err(AllocateError::FailedPrecondition(m));
                }
            }
            i += 1;
        }
        Err(AllocateError::NotFound(crate::text::concat2("unknown device ", id.as_str())))
    }
}

/// Every advertised device can be allocated: for a pair whose id no earlier pair
/// shares and whose probe passed, a request naming its id yields that pair's
/// allocation; a pair whose probe failed is refused as unhealthy.
pub proof fn lemma_advertised_pair_is_allocatable(
    pairs: Seq<Pair>,
    healthy: Seq<bool>,
    ids: Seq<Seq<char>>,
    i: int,
)
    requires
        0 <= i < pairs.len(),
        forall|j: int| 0 <= j < i ==> #[trigger] pairs[j].id@ != pairs[i].id@,
        ids.len() > 0,
        ids[0] == pairs[i].id@,
    ensures
        is_healthy(healthy, i) ==> allocate_outcome(pairs, healthy, ids) == Ok::<
            int,
            AllocateErrorKind,
        >(i),
        !is_healthy(healthy, i) ==> allocate_outcome(pairs, healthy, ids) == Err::<
            int,
            AllocateErrorKind,
        >(AllocateErrorKind::Unhealthy),
{
    lemma_find_pair_first(pairs, pairs[i].id@, 0, i);
}

proof fn lemma_find_pair_first(pairs: Seq<Pair>, id: Seq<char>, start: int, i: int)
    requires
        0 <= start <= i < pairs.len(),
        pairs[i].id@ == id,
        forall|j: int| 0 <= j < i ==> #[trigger] pairs[j].id@ != id,
    ensures
        find_pair(pairs, id, start) == Some(i),
    decreases i - start,
{
    if start < i {
        lemma_find_pair_first(pairs, id, start + 1, i);
    }
}

/// A pair is advertised exactly when its probe passed: the advertised list has
/// one entry per healthy pair among the first `n`.
pub proof fn lemma_advertised_counts_healthy(pairs: Seq<Pair>, healthy: Seq<bool>, n: int)
    requires
        0 <= n <= pairs.len(),
    ensures
        advertised(pairs, healthy, n).len() == Set::new(|i: int| 0 <= i < n && is_healthy(healthy, i)).len(),
    decreases n,
{
    let s = Set::new(|i: int| 0 <= i < n && is_healthy(healthy, i));
    if n == 0 {
        assert(s =~= Set::empty());
    } else {
        lemma_advertised_counts_healthy(pairs, healthy, n - 1);
        let t = Set::new(|i: int| 0 <= i < n - 1 && is_healthy(healthy, i));
        vstd::set_lib::lemma_int_range(0, n - 1);
        assert(t.subset_of(vstd::set_lib::set_int_range(0, n - 1)));
        vstd::set_lib::lemma_len_subset(t, vstd::set_lib::set_int_range(0, n - 1));
        if is_healthy(healthy, n - 1) {
            assert(s =~= t.insert(n - 1));
        } else {
            assert(s =~= t);
        }
    }
}

/// The environment a pair's allocation injects is what the DPDK transport's
/// environment contract reads: the selector picks `dpdk-ena`; each role's PCI
/// and gateway variable and the file prefix hold the pair's values; and a port
/// whose IPv4 text is a dotted address, with a prefix length in `1..=32`, has a
/// CIDR entry that reads back as that address and prefix.
pub proof fn lemma_allocation_env_feeds_dpdk_config(pair: Pair, sender_addr: u32, receiver_addr: u32)
    requires
        pair.sender.ipv4@ == dotted(sender_addr),
        pair.receiver.ipv4@ == dotted(receiver_addr),
        1 <= pair.sender.prefix_len <= 32,
        1 <= pair.receiver.prefix_len <= 32,
    ensures
        ({
            let env = allocation_env(pair);
            &&& selector_outcome(env_lookup(env, "RUSTERON_MEDIA_DRIVER_TRANSPORT"@)) == Ok::<
                Selector,
                Seq<char>,
            >(Selector::DpdkEna)
            &&& env_lookup(env, "RUSTERON_DPDK_FILE_PREFIX"@) == Some("rusteron-dpdk-"@ + pair.id@)
            &&& env_lookup(env, "RUSTERON_DPDK_SENDER_PCI"@) == Some(pair.sender.pci@)
            &&& env_lookup(env, "RUSTERON_DPDK_SENDER_GATEWAY"@) == Some(pair.sender.gateway@)
            &&& env_lookup(env, "RUSTERON_DPDK_RECEIVER_PCI"@) == Some(pair.receiver.pci@)
            &&& env_lookup(env, "RUSTERON_DPDK_RECEIVER_GATEWAY"@) == Some(pair.receiver.gateway@)
            &&& env_lookup(env, "RUSTERON_DPDK_SENDER_IPV4_CIDR"@) == Some(cidr_text(pair.sender))
            &&& env_lookup(env, "RUSTERON_DPDK_RECEIVER_IPV4_CIDR"@) == Some(cidr_text(pair.receiver))
            &&& cidr_failure("SENDER"@, cidr_text(pair.sender)) is None
            &&& cidr_address(cidr_text(pair.sender)) == sender_addr
            &&& cidr_prefix(cidr_text(pair.sender)) == pair.sender.prefix_len
            &&& cidr_failure("RECEIVER"@, cidr_text(pair.receiver)) is None
            &&& cidr_address(cidr_text(pair.receiver)) == receiver_addr
            &&& cidr_prefix(cidr_text(pair.receiver)) == pair.receiver.prefix_len
        }),
{
    reveal_strlit("RUSTERON_MEDIA_DRIVER_TRANSPORT");
    reveal_strlit("dpdk-ena");
    reveal_strlit("default");
    reveal_strlit("RUSTERON_DPDK_FILE_PREFIX");
    reveal_strlit("RUSTERON_DPDK_");
    reveal_strlit("SENDER");
    reveal_strlit("RECEIVER");
    reveal_strlit("_PCI");
    reveal_strlit("_IPV4_CIDR");
    reveal_strlit("_GATEWAY");
    reveal_strlit("RUSTERON_DPDK_SENDER_PCI");
    reveal_strlit("RUSTERON_DPDK_SENDER_IPV4_CIDR");
    reveal_strlit("RUSTERON_DPDK_SENDER_GATEWAY");
    reveal_strlit("RUSTERON_DPDK_RECEIVER_PCI");
    reveal_strlit("RUSTERON_DPDK_RECEIVER_IPV4_CIDR");
    reveal_strlit("RUSTERON_DPDK_RECEIVER_GATEWAY");
    let env = allocation_env(pair);
    let k0 = "RUSTERON_MEDIA_DRIVER_TRANSPORT"@;
    let k1 = "RUSTERON_DPDK_FILE_PREFIX"@;
    let k2 = "RUSTERON_DPDK_SENDER_PCI"@;
    let k3 = "RUSTERON_DPDK_SENDER_IPV4_CIDR"@;
    let k4 = "RUSTERON_DPDK_SENDER_GATEWAY"@;
    let k5 = "RUSTERON_DPDK_RECEIVER_PCI"@;
    let k6 = "RUSTERON_DPDK_RECEIVER_IPV4_CIDR"@;
    let k7 = "RUSTERON_DPDK_RECEIVER_GATEWAY"@;
    assert("RUSTERON_DPDK_"@ + "SENDER"@ + "_PCI"@ =~= k2);
    assert("RUSTERON_DPDK_"@ + "SENDER"@ + "_IPV4_CIDR"@ =~= k3);
    assert("RUSTERON_DPDK_"@ + "SENDER"@ + "_GATEWAY"@ =~= k4);
    assert("RUSTERON_DPDK_"@ + "RECEIVER"@ + "_PCI"@ =~= k5);
    assert("RUSTERON_DPDK_"@ + "RECEIVER"@ + "_IPV4_CIDR"@ =~= k6);
    assert("RUSTERON_DPDK_"@ + "RECEIVER"@ + "_GATEWAY"@ =~= k7);
    assert(env =~= seq![
        (k0, "dpdk-ena"@),
        (k1, "rusteron-dpdk-"@ + pair.id@),
        (k2, pair.sender.pci@),
        (k3, cidr_text(pair.sender)),
        (k4, pair.sender.gateway@),
        (k5, pair.receiver.pci@),
        (k6, cidr_text(pair.receiver)),
        (k7, pair.receiver.gateway@),
    ]);
    assert(k3[14] != k7[14]);
    assert(k0.len() == 31);
    assert(k0 != k1 && k0 != k2 && k0 != k3 && k0 != k4 && k0 != k5 && k0 != k6 && k0 != k7);
    assert(k1 != k2 && k1 != k3 && k1 != k4 && k1 != k5 && k1 != k6 && k1 != k7);
    assert(k2 != k3 && k2 != k4 && k2 != k5 && k2 != k6 && k2 != k7);
    assert(k3 != k4 && k3 != k5 && k3 != k6 && k3 != k7);
    assert(k4 != k5 && k4 != k6 && k4 != k7);
    assert(k5 != k6 && k5 != k7);
    assert(k6 != k7);
    reveal_with_fuel(env_lookup, 9);
    assert("dpdk-ena"@.len() == 8);
    assert("default"@.len() == 7);
    assert("dpdk-ena"@ != "default"@);
    lemma_cidr_reads_back("SENDER"@, sender_addr, pair.sender.prefix_len as nat);
    lemma_cidr_reads_back("RECEIVER"@, receiver_addr, pair.receiver.prefix_len as nat);
}

/// The models of a list of devices.
pub open spec fn devices_model(d: Seq<Device>) -> Seq<(Seq<char>, Seq<char>, Option<Seq<i64>>)> {
    d.map_values(|x: Device| device_model(x))
}

fn nodes_same(a: &Vec<NumaNode>, b: &Vec<NumaNode>) -> (r: bool)
    ensures
        r == (a@.map_values(|n: NumaNode| n.id) == b@.map_values(|n: NumaNode| n.id)),
{
    if a.len() != b.len() {
        return false;
    }
    let mut i: usize = 0;
    while i < a.len()
        invariant
            i <= a@.len() == b@.len(),
            forall|k: int| 0 <= k < i ==> a@[k].id == b@[k].id,
        decreases a@.len() - i,
    {
        if a[i].id != b[i].id {
            assert(a@.map_values(|n: NumaNode| n.id)[i as int] != b@.map_values(|n: NumaNode| n.id)[i as int]);
            return false;
        }
        i += 1;
    }
    assert(a@.map_values(|n: NumaNode| n.id) =~= b@.map_values(|n: NumaNode| n.id));
    true
}

fn device_same(a: &Device, b: &Device) -> (r: bool)
    ensures
        r == (device_model(*a) == device_model(*b)),
{
    if !crate::text::str_eq(a.id.as_str(), b.id.as_str()) {
        return false;
    }
    if !crate::text::str_eq(a.health.as_str(), b.health.as_str()) {
        return false;
    }
    match (&a.topology, &b.topology) {
        (Some(x), Some(y)) => nodes_same(&x.nodes, &y.nodes),
        (None, None) => true,
        _ => false,
    }
}

fn devices_same(a: &Vec<Device>, b: &Vec<Device>) -> (r: bool)
    ensures
        r == (devices_model(a@) == devices_model(b@)),
{
    if a.len() != b.len() {
        return false;
    }
    let mut i: usize = 0;
    while i < a.len()
        invariant
            i <= a@.len() == b@.len(),
            forall|k: int| 0 <= k < i ==> device_model(a@[k]) == device_model(b@[k]),
        decreases a@.len() - i,
    {
        if !device_same(&a[i], &b[i]) {
            assert(devices_model(a@)[i as int] != devices_model(b@)[i as int]);
            return false;
        }
        i += 1;
    }
    assert(devices_model(a@) =~= devices_model(b@));
    true
}

fn clone_device(d: &Device) -> (r: Device)
    ensures
        device_model(r) == device_model(*d),
{
    let topology = match &d.topology {
        Some(t) => {
            let mut nodes: Vec<NumaNode> = Vec::new();
            let mut i: usize = 0;
            while i < t.nodes.len()
                invariant
                    i <= t.nodes@.len(),
                    nodes@.map_values(|n: NumaNode| n.id) == t.nodes@.take(i as int).map_values(
                        |n: NumaNode| n.id,
                    ),
                decreases t.nodes@.len() - i,
            {
                let ghost before = nodes@;
                nodes.push(NumaNode { id: t.nodes[i].id });
                assert(t.nodes@.take(i + 1) =~= t.nodes@.take(i as int).push(t.nodes@[i as int]));
                assert(nodes@.map_values(|n: NumaNode| n.id) =~= before.map_values(|n: NumaNode| n.id).push(
                    t.nodes@[i as int].id,
                ));
                assert(t.nodes@.take(i + 1).map_values(|n: NumaNode| n.id) =~= t.nodes@.take(
                    i as int,
                ).map_values(|n: NumaNode| n.id).push(t.nodes@[i as int].id));
                i += 1;
            }
            assert(t.nodes@.take(t.nodes@.len() as int) =~= t.nodes@);
            Some(TopologyInfo { nodes })
        },
        None => None,
    };
    Device { id: d.id.clone(), health: d.health.clone(), topology }
}

fn clone_devices(v: &Vec<Device>) -> (r: Vec<Device>)
    ensures
        devices_model(r@) == devices_model(v@),
{
    let mut out: Vec<Device> = Vec::new();
    let mut i: usize = 0;
    while i < v.len()
        invariant
            i <= v@.len(),
            devices_model(out@) == devices_model(v@.take(i as int)),
        decreases v@.len() - i,
    {
        let d = clone_device(&v[i]);
        let ghost before = out@;
        out.push(d);
        assert(v@.take(i + 1) =~= v@.take(i as int).push(v@[i as int]));
        assert(devices_model(out@) =~= devices_model(before).push(device_model(d)));
        assert(devices_model(v@.take(i + 1)) =~= devices_model(v@.take(i as int)).push(
            device_model(v@[i as int]),
        ));
        i += 1;
    }
    assert(v@.take(v@.len() as int) =~= v@);
    out
}

impl DevicePluginService {
    /// One poll of the device watch: the devices to send when they differ from
    /// the last list sent (or none was sent yet), recording them as sent; nothing
    /// when they are unchanged.
    pub fn watch_step(&self, last: &mut Option<Vec<Device>>, healthy: &[bool]) -> (r: Option<Vec<Device>>)
        ensures
            ({
                let current = advertised(
                    self.inventory.pairs@,
                    healthy@,
                    self.inventory.pairs@.len() as int,
                );
                let unchanged = match *old(last) {
                    Some(l) => devices_model(l@) == current,
                    None => false,
                };
                if unchanged {
                    r is None && *final(last) == *old(last)
                } else {
                    &&& r matches Some(d) && devices_model(d@) == current
                    &&& *final(last) matches Some(l) && devices_model(l@) == current
                }
            }),
    {
        let devices = self.healthy_devices(healthy);
        let unchanged = match last {
            Some(l) => devices_same(l, &devices),
            None => false,
        };
        if unchanged {
            return None;
        }
        *last = Some(clone_devices(&devices));
        Some(devices)
    }
}

} // verus!
