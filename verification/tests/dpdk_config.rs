use rusteron::dpdk_config::{DpdkError, DpdkPortConfig, DpdkTransportConfig};
use rusteron::dpdk_env::{config_from_env, configure_media_transport_from_env, selector, Selector};
use rusteron::dpdk_native::{fill, validate_context, DriverContextSettings, PortRange};

fn ip(a: u8, b: u8, c: u8, d: u8) -> u32 {
    u32::from_be_bytes([a, b, c, d])
}

/// A valid configuration matching the recommended standalone settings.
fn canonical() -> DpdkTransportConfig {
    DpdkTransportConfig {
        sender: DpdkPortConfig {
            pci_address: "0000:00:01.0".into(),
            local_ipv4: ip(10, 0, 0, 1),
            prefix_len: 24,
            gateway_ipv4: ip(10, 0, 0, 254),
        },
        receiver: DpdkPortConfig {
            pci_address: "0000:00:02.0".into(),
            local_ipv4: ip(10, 0, 1, 1),
            prefix_len: 24,
            gateway_ipv4: ip(10, 0, 1, 254),
        },
        file_prefix: "rusteron-ena".into(),
        test_vdev: false,
        hugepage_dir: "/dev/hugepages".into(),
        rx_descriptors: 1024,
        tx_descriptors: 1024,
        mbufs_per_port: 65536,
        mempool_cache: 256,
        burst_size: 32,
        max_aeron_mtu: 1408,
    }
}

fn canonical_env() -> Vec<(String, String)> {
    [
        ("RUSTERON_DPDK_FILE_PREFIX", "rusteron-ena"),
        ("RUSTERON_DPDK_SENDER_PCI", "0000:00:01.0"),
        ("RUSTERON_DPDK_SENDER_IPV4_CIDR", "10.0.0.1/24"),
        ("RUSTERON_DPDK_SENDER_GATEWAY", "10.0.0.254"),
        ("RUSTERON_DPDK_RECEIVER_PCI", "0000:00:02.0"),
        ("RUSTERON_DPDK_RECEIVER_IPV4_CIDR", "10.0.1.1/24"),
        ("RUSTERON_DPDK_RECEIVER_GATEWAY", "10.0.1.254"),
        ("RUSTERON_DPDK_HUGE_DIR", "/dev/hugepages"),
        ("RUSTERON_DPDK_RX_DESCRIPTORS", "1024"),
        ("RUSTERON_DPDK_TX_DESCRIPTORS", "1024"),
        ("RUSTERON_DPDK_MBUFS_PER_PORT", "65536"),
        ("RUSTERON_DPDK_MEMPOOL_CACHE", "256"),
        ("RUSTERON_DPDK_BURST_SIZE", "32"),
        ("RUSTERON_DPDK_MAX_AERON_MTU", "1408"),
    ]
    .iter()
    .map(|(k, v)| (k.to_string(), v.to_string()))
    .collect()
}

fn set(env: &mut Vec<(String, String)>, key: &str, value: &str) {
    env.retain(|(k, _)| k != key);
    env.push((key.to_string(), value.to_string()));
}

fn remove(env: &mut Vec<(String, String)>, key: &str) {
    env.retain(|(k, _)| k != key);
}

/// Assert a validation error that names `needle` (the offending field).
fn assert_invalid_config(config: &DpdkTransportConfig, needle: &str) {
    let err = config.validate().unwrap_err();
    assert!(
        matches!(err, DpdkError::InvalidConfiguration(_)),
        "expected InvalidConfiguration, got {err:?}"
    );
    let msg = err.to_string();
    assert!(msg.contains(needle), "message {msg:?} must name {needle:?}");
}

#[test]
fn canonical_config_is_valid() {
    canonical().validate().unwrap();
}

#[test]
fn typed_and_env_configs_resolve_identical() {
    assert_eq!(config_from_env(&canonical_env()).unwrap(), canonical());
}

#[test]
fn validation_rejects_bad_sender_pci() {
    let mut c = canonical();
    c.sender.pci_address = "00:01.0".into();
    assert_invalid_config(&c, "sender.pci_address");
}

#[test]
fn validation_rejects_vdev_name_outside_test_mode() {
    let mut c = canonical();
    c.sender.pci_address = "net_tap0".into();
    c.receiver.pci_address = "net_tap1".into();
    assert_invalid_config(&c, "sender.pci_address");
}

#[test]
fn validation_accepts_vdev_names_in_test_mode() {
    let mut c = canonical();
    c.test_vdev = true;
    c.sender.pci_address = "net_tap0".into();
    c.receiver.pci_address = "net_tap1".into();
    c.validate().unwrap();
}

#[test]
fn validation_rejects_bad_vdev_name_in_test_mode() {
    let mut c = canonical();
    c.test_vdev = true;
    c.sender.pci_address = "0000:00:01.0".into();
    c.receiver.pci_address = "net_tap-with:colon".into();
    assert_invalid_config(&c, "receiver.pci_address");
}

#[test]
fn validation_rejects_duplicate_vdev_in_test_mode() {
    let mut c = canonical();
    c.test_vdev = true;
    c.sender.pci_address = "net_tap0".into();
    c.receiver.pci_address = "net_tap0".into();
    assert_invalid_config(&c, "must differ");
}

#[test]
fn validation_rejects_duplicate_pci() {
    let mut c = canonical();
    c.receiver.pci_address = c.sender.pci_address.clone();
    assert_invalid_config(&c, "must differ");
}

#[test]
fn validation_rejects_multicast_local_ip() {
    let mut c = canonical();
    c.sender.local_ipv4 = ip(224, 0, 0, 1);
    assert_invalid_config(&c, "sender.local_ipv4");
}

#[test]
fn validation_rejects_broadcast_gateway() {
    let mut c = canonical();
    c.receiver.gateway_ipv4 = ip(255, 255, 255, 255);
    assert_invalid_config(&c, "receiver.gateway_ipv4");
}

#[test]
fn validation_rejects_zero_prefix_len() {
    let mut c = canonical();
    c.receiver.prefix_len = 0;
    assert_invalid_config(&c, "receiver.prefix_len");
}

#[test]
fn validation_rejects_prefix_len_above_32() {
    let mut c = canonical();
    c.sender.prefix_len = 33;
    assert_invalid_config(&c, "sender.prefix_len");
}

#[test]
fn validation_rejects_gateway_outside_subnet() {
    let mut c = canonical();
    c.sender.gateway_ipv4 = ip(10, 0, 1, 254);
    assert_invalid_config(&c, "sender.gateway_ipv4");
}

#[test]
fn validation_rejects_bad_file_prefix() {
    let mut c = canonical();
    c.file_prefix = "rusteron/ena".into();
    assert_invalid_config(&c, "file_prefix");
}

#[test]
fn validation_rejects_empty_file_prefix() {
    let mut c = canonical();
    c.file_prefix = String::new();
    assert_invalid_config(&c, "file_prefix");
}

#[test]
fn validation_rejects_relative_hugepage_dir() {
    let mut c = canonical();
    c.hugepage_dir = "hugepages".into();
    assert_invalid_config(&c, "hugepage_dir");
}

#[test]
fn validation_rejects_rx_descriptors_out_of_range() {
    let mut c = canonical();
    c.rx_descriptors = 63;
    assert_invalid_config(&c, "rx_descriptors");
}

#[test]
fn validation_rejects_tx_descriptors_out_of_range() {
    let mut c = canonical();
    c.tx_descriptors = 8193;
    assert_invalid_config(&c, "tx_descriptors");
}

#[test]
fn validation_rejects_zero_burst() {
    let mut c = canonical();
    c.burst_size = 0;
    assert_invalid_config(&c, "burst_size");
}

#[test]
fn validation_rejects_burst_above_256() {
    let mut c = canonical();
    c.burst_size = 257;
    assert_invalid_config(&c, "burst_size");
}

#[test]
fn validation_rejects_undersized_mbuf_pool() {
    let mut c = canonical();
    c.mbufs_per_port = 2175;
    assert_invalid_config(&c, "mbufs_per_port");
}

#[test]
fn validation_rejects_unaligned_mtu() {
    let mut c = canonical();
    c.max_aeron_mtu = 1400;
    assert_invalid_config(&c, "max_aeron_mtu");
}

#[test]
fn validation_rejects_mtu_above_1472() {
    let mut c = canonical();
    c.max_aeron_mtu = 1473;
    assert_invalid_config(&c, "max_aeron_mtu");
}

#[test]
fn validation_messages_are_exact() {
    let mut c = canonical();
    c.sender.gateway_ipv4 = ip(10, 0, 1, 254);
    assert_eq!(
        "invalid DPDK configuration: sender.gateway_ipv4 10.0.1.254 is not in the 10.0.0.1/24 subnet of sender.local_ipv4",
        c.validate().unwrap_err().to_string()
    );
    let mut c = canonical();
    c.mbufs_per_port = 2175;
    assert_eq!(
        DpdkError::InvalidConfiguration(
            "mbufs_per_port 2175 is below the required 2176 (rx + tx descriptors + 4 bursts)".into()
        ),
        c.validate().unwrap_err()
    );
    let mut c = canonical();
    c.file_prefix = "rusteron/ena".into();
    assert_eq!(
        DpdkError::InvalidConfiguration(
            "file_prefix \"rusteron/ena\" must match [A-Za-z0-9_-]{1,64}".into()
        ),
        c.validate().unwrap_err()
    );
    let mut c = canonical();
    c.sender.local_ipv4 = ip(224, 0, 0, 1);
    assert_eq!(
        DpdkError::InvalidConfiguration(
            "sender.local_ipv4 224.0.0.1 is not a unicast IPv4 address".into()
        ),
        c.validate().unwrap_err()
    );
}

#[test]
fn prefix_of_32_needs_the_exact_gateway() {
    let mut c = canonical();
    c.sender.prefix_len = 32;
    assert_invalid_config(&c, "sender.gateway_ipv4");
    c.sender.gateway_ipv4 = c.sender.local_ipv4;
    c.validate().unwrap();
}

#[test]
fn absent_selector_preserves_default() {
    let env: Vec<(String, String)> = Vec::new();
    assert_eq!(Selector::Default, selector(&env).unwrap());
    let result = configure_media_transport_from_env(&env, false).unwrap();
    assert!(result.is_none(), "absent selector must preserve default behaviour");
}

#[test]
fn default_selector_preserves_default() {
    let mut env: Vec<(String, String)> = Vec::new();
    set(&mut env, "RUSTERON_MEDIA_DRIVER_TRANSPORT", "default");
    let result = configure_media_transport_from_env(&env, true).unwrap();
    assert!(result.is_none(), "`default` selector must preserve default behaviour");
}

#[test]
fn unknown_selector_is_invalid_environment() {
    let mut env: Vec<(String, String)> = Vec::new();
    set(&mut env, "RUSTERON_MEDIA_DRIVER_TRANSPORT", "vanilla");
    let err = configure_media_transport_from_env(&env, true).unwrap_err();
    assert!(matches!(err, DpdkError::InvalidEnvironment(_)), "got {err:?}");
    assert!(err.to_string().contains("RUSTERON_MEDIA_DRIVER_TRANSPORT"));
}

#[test]
fn empty_selector_is_invalid_environment() {
    let mut env: Vec<(String, String)> = Vec::new();
    set(&mut env, "RUSTERON_MEDIA_DRIVER_TRANSPORT", "");
    let err = configure_media_transport_from_env(&env, true).unwrap_err();
    assert!(matches!(err, DpdkError::InvalidEnvironment(_)), "got {err:?}");
}

#[test]
fn dpdk_ena_without_feature_is_feature_disabled() {
    let mut env = canonical_env();
    set(&mut env, "RUSTERON_MEDIA_DRIVER_TRANSPORT", "dpdk-ena");
    let err = configure_media_transport_from_env(&env, false).unwrap_err();
    assert!(matches!(err, DpdkError::FeatureDisabled), "got {err:?}");
}

#[test]
fn dpdk_ena_with_native_transport_yields_validated_config() {
    let mut env = canonical_env();
    set(&mut env, "RUSTERON_MEDIA_DRIVER_TRANSPORT", "dpdk-ena");
    let config = configure_media_transport_from_env(&env, true).unwrap().unwrap();
    assert_eq!(config, canonical());
    set(&mut env, "RUSTERON_DPDK_BURST_SIZE", "0");
    let err = configure_media_transport_from_env(&env, true).unwrap_err();
    assert!(matches!(err, DpdkError::InvalidConfiguration(_)), "got {err:?}");
}

#[test]
fn config_from_env_reports_missing_variable() {
    let mut env = canonical_env();
    remove(&mut env, "RUSTERON_DPDK_SENDER_PCI");
    let err = config_from_env(&env).unwrap_err();
    assert!(matches!(err, DpdkError::MissingEnvironment(_)), "got {err:?}");
    assert!(err.to_string().contains("RUSTERON_DPDK_SENDER_PCI"));
}

#[test]
fn config_from_env_reports_cidr_without_prefix() {
    let mut env = canonical_env();
    set(&mut env, "RUSTERON_DPDK_SENDER_IPV4_CIDR", "10.0.0.1");
    let err = config_from_env(&env).unwrap_err();
    assert!(matches!(err, DpdkError::InvalidEnvironment(_)), "got {err:?}");
    assert!(err.to_string().contains("SENDER_IPV4_CIDR"));
}

#[test]
fn config_from_env_reports_bad_prefix_number() {
    let mut env = canonical_env();
    set(&mut env, "RUSTERON_DPDK_SENDER_IPV4_CIDR", "10.0.0.1/33");
    let err = config_from_env(&env).unwrap_err();
    assert!(matches!(err, DpdkError::InvalidEnvironment(_)), "got {err:?}");
    assert!(err.to_string().contains("prefix"));
}

#[test]
fn config_from_env_reports_bad_gateway() {
    let mut env = canonical_env();
    set(&mut env, "RUSTERON_DPDK_RECEIVER_GATEWAY", "not-an-ip");
    let err = config_from_env(&env).unwrap_err();
    assert!(matches!(err, DpdkError::InvalidEnvironment(_)), "got {err:?}");
    assert!(err.to_string().contains("RECEIVER_GATEWAY"));
}

#[test]
fn config_from_env_reports_bad_number_default() {
    let mut env = canonical_env();
    set(&mut env, "RUSTERON_DPDK_BURST_SIZE", "lots");
    let err = config_from_env(&env).unwrap_err();
    assert!(matches!(err, DpdkError::InvalidEnvironment(_)), "got {err:?}");
    assert!(err.to_string().contains("RUSTERON_DPDK_BURST_SIZE"));
}

#[test]
fn env_defaults_match_plan() {
    let mut env = canonical_env();
    for var in [
        "RUSTERON_DPDK_HUGE_DIR",
        "RUSTERON_DPDK_RX_DESCRIPTORS",
        "RUSTERON_DPDK_TX_DESCRIPTORS",
        "RUSTERON_DPDK_MBUFS_PER_PORT",
        "RUSTERON_DPDK_MEMPOOL_CACHE",
        "RUSTERON_DPDK_BURST_SIZE",
        "RUSTERON_DPDK_MAX_AERON_MTU",
    ] {
        remove(&mut env, var);
    }
    let c = config_from_env(&env).unwrap();
    assert_eq!(c.hugepage_dir, "/dev/hugepages");
    assert_eq!(c.rx_descriptors, 1024);
    assert_eq!(c.tx_descriptors, 1024);
    assert_eq!(c.mbufs_per_port, 65536);
    assert_eq!(c.mempool_cache, 256);
    assert_eq!(c.burst_size, 32);
    assert_eq!(c.max_aeron_mtu, 1408);
}

#[test]
fn env_numbers_accept_plus_and_surrounding_space() {
    let mut env = canonical_env();
    set(&mut env, "RUSTERON_DPDK_BURST_SIZE", " +64 ");
    set(&mut env, "RUSTERON_DPDK_SENDER_IPV4_CIDR", "10.0.0.1/ 24 ");
    let c = config_from_env(&env).unwrap();
    assert_eq!(c.burst_size, 64);
    assert_eq!(c.sender.prefix_len, 24);
    set(&mut env, "RUSTERON_DPDK_RX_DESCRIPTORS", "65536");
    let err = config_from_env(&env).unwrap_err();
    assert_eq!(
        DpdkError::InvalidEnvironment(
            "RUSTERON_DPDK_RX_DESCRIPTORS=\"65536\" is not a valid number".into()
        ),
        err
    );
}

#[test]
fn env_ipv4_rejects_leading_zeros_and_wrong_shapes() {
    for bad in ["10.0.0.01", "10.0.0", "10.0.0.1.2", "256.0.0.1", "10..0.1", "+10.0.0.1"] {
        let mut env = canonical_env();
        set(&mut env, "RUSTERON_DPDK_SENDER_GATEWAY", bad);
        let err = config_from_env(&env).unwrap_err();
        assert_eq!(
            DpdkError::InvalidEnvironment(format!(
                "RUSTERON_DPDK_SENDER_GATEWAY={bad:?} is not a valid IPv4 address"
            )),
            err
        );
    }
    let mut env = canonical_env();
    set(&mut env, "RUSTERON_DPDK_SENDER_GATEWAY", "0.0.0.0");
    assert_eq!(0, config_from_env(&env).unwrap().sender.gateway_ipv4);
}

#[test]
fn env_cidr_messages_are_exact() {
    let mut env = canonical_env();
    set(&mut env, "RUSTERON_DPDK_RECEIVER_IPV4_CIDR", "10.0.1.1/0");
    assert_eq!(
        DpdkError::InvalidEnvironment("RUSTERON_DPDK_RECEIVER_IPV4_CIDR prefix 0 must be in 1..=32".into()),
        config_from_env(&env).unwrap_err()
    );
    set(&mut env, "RUSTERON_DPDK_RECEIVER_IPV4_CIDR", "10.0.1.1/x");
    assert_eq!(
        DpdkError::InvalidEnvironment("RUSTERON_DPDK_RECEIVER_IPV4_CIDR prefix \"x\" is not a number".into()),
        config_from_env(&env).unwrap_err()
    );
}

#[test]
fn test_vdev_lever_accepts_one_and_true() {
    for (value, expected) in [("1", true), ("TRUE", true), ("true", true), ("yes", false), ("0", false)] {
        let mut env = canonical_env();
        set(&mut env, "RUSTERON_DPDK_TEST_VDEV", value);
        assert_eq!(expected, config_from_env(&env).unwrap().test_vdev, "{value}");
    }
}

#[test]
fn error_display_texts() {
    assert_eq!(
        "missing required environment variable X",
        DpdkError::MissingEnvironment("X".into()).to_string()
    );
    assert_eq!(
        "the `dpdk-ena` transport was selected but rusteron-media-driver was not built with the `dpdk` feature",
        DpdkError::FeatureDisabled.to_string()
    );
    assert_eq!("Aeron installation error: boom", DpdkError::Aeron("boom".into()).to_string());
}

fn settings() -> DriverContextSettings {
    DriverContextSettings {
        threading_mode_dedicated: true,
        sender_cpu_affinity: 2,
        receiver_cpu_affinity: 3,
        sender_idle_strategy: "spin".into(),
        receiver_idle_strategy: "spin".into(),
        sender_wildcard_port_range: PortRange { low: 40000, high: 40100 },
        receiver_wildcard_port_range: PortRange { low: 40200, high: 40300 },
        mtu_length: 1408,
    }
}

#[test]
fn context_validation_accepts_dedicated_spinning_driver() {
    validate_context(&settings(), &canonical()).unwrap();
}

#[test]
fn context_validation_rejects_each_requirement() {
    let c = canonical();
    let mut s = settings();
    s.receiver_cpu_affinity = 2;
    assert_eq!(
        DpdkError::InvalidConfiguration(
            "aeron context sender and receiver cpu affinity must differ (both 2)".into()
        ),
        validate_context(&s, &c).unwrap_err()
    );
    let mut s = settings();
    s.sender_cpu_affinity = -1;
    assert!(validate_context(&s, &c).unwrap_err().to_string().contains("cpu affinity"));
    let mut s = settings();
    s.receiver_wildcard_port_range = PortRange { low: 40050, high: 40300 };
    assert_eq!(
        DpdkError::InvalidConfiguration(
            "aeron context sender wildcard port range (40000-40100) and receiver (40050-40300) must be disjoint".into()
        ),
        validate_context(&s, &c).unwrap_err()
    );
    let mut s = settings();
    s.sender_wildcard_port_range = PortRange { low: 0, high: 10 };
    assert!(validate_context(&s, &c).unwrap_err().to_string().contains("must be nonzero"));
    let mut s = settings();
    s.mtu_length = 1472;
    assert_eq!(
        DpdkError::InvalidConfiguration("aeron context mtu 1472 exceeds max_aeron_mtu 1408".into()),
        validate_context(&s, &c).unwrap_err()
    );
    let mut s = settings();
    s.threading_mode_dedicated = false;
    assert!(validate_context(&s, &c).is_err());
    let mut s = settings();
    s.sender_idle_strategy = "noop".into();
    assert!(validate_context(&s, &c).unwrap_err().to_string().contains("`spin`"));
}

#[test]
fn fill_writes_nul_terminated_value_or_refuses() {
    let mut buf = vec![7u8; 16];
    fill(&mut buf, "0000:00:01.0", "sender.pci_address").unwrap();
    assert_eq!(&buf[..13], b"0000:00:01.0\0");
    assert_eq!(buf[13], 7);
    let mut small = vec![7u8; 4];
    let err = fill(&mut small, "abcd", "file_prefix").unwrap_err();
    assert_eq!(
        DpdkError::InvalidConfiguration(
            "file_prefix value \"abcd\" is too long for the native config buffer".into()
        ),
        err
    );
    assert_eq!(small, vec![7u8; 4]);
}
