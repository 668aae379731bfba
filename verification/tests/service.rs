use rusteron::inventory::{Inventory, Pair, Port};
use rusteron::service::{allocation_for, pair_healthy, AllocateError, ContainerAllocateResponse, DevicePluginService, SysfsRoots};
use std::time::Duration;

fn port(pci: &str, group: &str, mac: &str) -> Port {
    Port {
        pci: pci.into(),
        iommu_group: group.into(),
        eni_id: "eni-0123456789abcdef0".into(),
        mac: mac.into(),
        ipv4: "10.0.0.1".into(),
        prefix_len: 24,
        subnet_cidr: "10.0.0.0/24".into(),
        gateway: "10.0.0.1".into(),
        numa_node: 0,
        health: "healthy".into(),
    }
}

fn fixture() -> Inventory {
    Inventory {
        generated_at: "2026-08-07T00:00:00Z".into(),
        primary_ena_mac: "0a:00:00:00:00:01".into(),
        pairs: vec![Pair {
            id: "dpdk-pair-0".into(),
            sender: port("0000:00:06.0", "9", "0a:00:00:00:00:02"),
            receiver: port("0000:00:07.0", "10", "0a:00:00:00:00:03"),
        }],
    }
}

fn pair() -> Pair {
    fixture().pairs.remove(0)
}

fn service() -> DevicePluginService {
    DevicePluginService::new(
        fixture(),
        SysfsRoots {
            sys_root: "/sys".into(),
            vfio_root: "/dev/vfio".into(),
        },
        Duration::from_secs(5),
    )
}

const ALWAYS_HEALTHY: &[bool] = &[true];
const NEVER_HEALTHY: &[bool] = &[false];

fn env<'a>(resp: &'a ContainerAllocateResponse, key: &str) -> &'a str {
    resp.envs
        .iter()
        .find(|(k, _)| k == key)
        .map(|(_, v)| v.as_str())
        .unwrap()
}

#[test]
fn allocation_injects_pair_env_and_vfio_nodes() {
    let resp = allocation_for(&pair());
    assert_eq!(env(&resp, "RUSTERON_MEDIA_DRIVER_TRANSPORT"), "dpdk-ena");
    assert_eq!(env(&resp, "RUSTERON_DPDK_SENDER_PCI"), "0000:00:06.0");
    assert_eq!(env(&resp, "RUSTERON_DPDK_SENDER_IPV4_CIDR"), "10.0.0.1/24");
    assert_eq!(env(&resp, "RUSTERON_DPDK_SENDER_GATEWAY"), "10.0.0.1");
    assert_eq!(env(&resp, "RUSTERON_DPDK_RECEIVER_PCI"), "0000:00:07.0");
    assert_eq!(env(&resp, "RUSTERON_DPDK_RECEIVER_IPV4_CIDR"), "10.0.0.1/24");
    let paths: Vec<&str> = resp.devices.iter().map(|d| d.host_path.as_str()).collect();
    assert!(paths.contains(&"/dev/vfio/vfio"));
    assert!(paths.contains(&"/dev/vfio/9"));
    assert!(paths.contains(&"/dev/vfio/10"));
    assert!(resp.devices.iter().all(|d| d.permissions == "rwm"));
}

#[test]
fn allocation_sets_file_prefix_from_pair_id() {
    let resp = allocation_for(&pair());
    assert_eq!(env(&resp, "RUSTERON_DPDK_FILE_PREFIX"), "rusteron-dpdk-dpdk-pair-0");
    assert_eq!(8, resp.envs.len());
    assert_eq!(resp.devices[0].container_path, "/dev/vfio/vfio");
}

#[test]
fn shared_iommu_group_is_deduplicated() {
    let mut p = pair();
    p.receiver.iommu_group = p.sender.iommu_group.clone();
    let resp = allocation_for(&p);
    assert_eq!(resp.devices.len(), 2);
}

#[test]
fn only_healthy_pairs_are_advertised() {
    assert_eq!(service().healthy_devices(ALWAYS_HEALTHY).len(), 1);
    assert!(service().healthy_devices(NEVER_HEALTHY).is_empty());
    let dev = service().healthy_devices(ALWAYS_HEALTHY).remove(0);
    assert_eq!(dev.id, "dpdk-pair-0");
    assert_eq!(dev.health, "Healthy");
    assert_eq!(dev.topology.unwrap().nodes[0].id, 0);
}

#[test]
fn unknown_numa_node_has_no_topology() {
    let mut inv = fixture();
    inv.pairs[0].sender.numa_node = -1;
    let svc = DevicePluginService::new(
        inv,
        SysfsRoots {
            sys_root: "/sys".into(),
            vfio_root: "/dev/vfio".into(),
        },
        Duration::from_secs(5),
    );
    assert!(svc.healthy_devices(ALWAYS_HEALTHY)[0].topology.is_none());
}

#[test]
fn allocate_rejects_unknown_and_unhealthy() {
    let svc = service();
    assert!(svc.allocate_container(&["nope".into()], ALWAYS_HEALTHY).is_err());
    let bad = service();
    assert!(bad.allocate_container(&["dpdk-pair-0".into()], NEVER_HEALTHY).is_err());
    let ok = svc.allocate_container(&["dpdk-pair-0".into()], ALWAYS_HEALTHY).unwrap();
    assert!(!ok.envs.is_empty());
}

#[test]
fn allocate_refusals_carry_their_status_and_message() {
    let svc = service();
    assert_eq!(
        AllocateError::InvalidArgument("no device requested".into()),
        svc.allocate_container(&[], ALWAYS_HEALTHY).unwrap_err()
    );
    assert_eq!(
        AllocateError::NotFound("unknown device nope".into()),
        svc.allocate_container(&["nope".into()], ALWAYS_HEALTHY).unwrap_err()
    );
    assert_eq!(
        AllocateError::FailedPrecondition("device dpdk-pair-0 is not healthy".into()),
        svc.allocate_container(&["dpdk-pair-0".into()], &[]).unwrap_err()
    );
}

#[test]
fn watch_sends_only_when_devices_change() {
    let svc = service();
    let mut last = None;
    let first = svc.watch_step(&mut last, ALWAYS_HEALTHY).unwrap();
    assert_eq!(1, first.len());
    assert!(svc.watch_step(&mut last, ALWAYS_HEALTHY).is_none());
    let gone = svc.watch_step(&mut last, NEVER_HEALTHY).unwrap();
    assert!(gone.is_empty());
    assert!(svc.watch_step(&mut last, NEVER_HEALTHY).is_none());
    assert_eq!(1, svc.watch_step(&mut last, ALWAYS_HEALTHY).unwrap().len());
}

#[test]
fn pair_healthy_needs_both_devices_on_vfio_and_both_group_nodes() {
    let vfio = Some("../../../../bus/pci/drivers/vfio-pci");
    let ena = Some("../../../../bus/pci/drivers/ena");
    assert!(pair_healthy(vfio, true, vfio, true));
    assert!(!pair_healthy(ena, true, vfio, true));
    assert!(!pair_healthy(vfio, true, None, true));
    assert!(!pair_healthy(vfio, false, vfio, true));
    assert!(!pair_healthy(vfio, true, vfio, false));
}
