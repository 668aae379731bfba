use rusteron::inventory::{Inventory, InventoryError, Pair, Port};

fn port(pci: &str, group: &str, mac: &str) -> Port {
    Port {
        pci: pci.into(),
        iommu_group: group.into(),
        eni_id: "eni-0123456789abcdef0".into(),
        mac: mac.into(),
        ipv4: "10.0.0.1".into(),
        prefix_len: 24,
        subnet_cidr: "10.0.0.0/24".into(),
        gateway: "10.0.0.1".into(),
        numa_node: 0,
        health: "healthy".into(),
    }
}

fn fixture() -> Inventory {
    Inventory {
        generated_at: "2026-08-07T00:00:00Z".into(),
        primary_ena_mac: "0a:00:00:00:00:01".into(),
        pairs: vec![Pair {
            id: "dpdk-pair-0".into(),
            sender: port("0000:00:06.0", "9", "0a:00:00:00:00:02"),
            receiver: port("0000:00:07.0", "10", "0a:00:00:00:00:03"),
        }],
    }
}

fn text(v: &serde_json::Value, key: &str) -> String {
    v.get(key).and_then(|x| x.as_str()).unwrap_or("").to_string()
}

fn port_from_json(v: &serde_json::Value) -> Port {
    Port {
        pci: text(v, "pci"),
        iommu_group: text(v, "iommu_group"),
        eni_id: text(v, "eni_id"),
        mac: text(v, "mac"),
        ipv4: text(v, "ipv4"),
        prefix_len: v.get("prefix_len").and_then(|x| x.as_u64()).unwrap_or(0) as u8,
        subnet_cidr: text(v, "subnet_cidr"),
        gateway: text(v, "gateway"),
        numa_node: v.get("numa_node").and_then(|x| x.as_i64()).unwrap_or(-1) as i32,
        health: v.get("health").and_then(|x| x.as_str()).unwrap_or("healthy").to_string(),
    }
}

#[test]
fn accepts_valid_inventory() {
    fixture().validate().unwrap();
}

#[test]
fn accepts_fixture_json_from_bootstrap_shape() {
    let json = r#"{
      "generated_at": "2026-08-07T00:00:00Z",
      "primary_ena_mac": "0a:00:00:00:00:01",
      "pairs": [{
        "id": "dpdk-pair-0",
        "sender":  {"pci":"0000:00:06.0","iommu_group":"9","eni_id":"eni-a","mac":"0a:00:00:00:00:02","ipv4":"10.0.0.1","prefix_len":24,"subnet_cidr":"10.0.0.0/24","gateway":"10.0.0.1","numa_node":0,"health":"healthy"},
        "receiver":{"pci":"0000:00:07.0","iommu_group":"10","eni_id":"eni-b","mac":"0a:00:00:00:00:03","ipv4":"10.0.0.2","prefix_len":24,"subnet_cidr":"10.0.0.0/24","gateway":"10.0.0.1","numa_node":0,"health":"healthy"}
      }]
    }"#;
    let v: serde_json::Value = serde_json::from_str(json).unwrap();
    let pairs = v["pairs"]
        .as_array()
        .unwrap()
        .iter()
        .map(|p| Pair {
            id: text(p, "id"),
            sender: port_from_json(&p["sender"]),
            receiver: port_from_json(&p["receiver"]),
        })
        .collect();
    let inv = Inventory {
        generated_at: text(&v, "generated_at"),
        primary_ena_mac: text(&v, "primary_ena_mac"),
        pairs,
    };
    Inventory::validate(&inv).unwrap();
}

#[test]
fn rejects_duplicate_bdf() {
    let mut inv = fixture();
    inv.pairs[0].receiver.pci = "0000:00:06.0".into();
    let err = inv.validate().unwrap_err().to_string();
    assert!(err.contains("duplicate BDF"), "{err}");
}

#[test]
fn rejects_duplicate_group() {
    let mut inv = fixture();
    inv.pairs[0].receiver.iommu_group = "9".into();
    let err = inv.validate().unwrap_err().to_string();
    assert!(err.contains("duplicate IOMMU group"), "{err}");
}

#[test]
fn rejects_primary_ena_in_pair() {
    let mut inv = fixture();
    inv.pairs[0].sender.mac = inv.primary_ena_mac.clone();
    let err = inv.validate().unwrap_err().to_string();
    assert!(err.contains("primary ENA"), "{err}");
}

#[test]
fn rejects_incomplete_identity() {
    let mut inv = fixture();
    inv.pairs[0].sender.gateway.clear();
    let err = inv.validate().unwrap_err().to_string();
    assert!(err.contains("empty gateway"), "{err}");
}

#[test]
fn rejects_bad_bdf_and_prefix() {
    let mut inv = fixture();
    inv.pairs[0].sender.pci = "00:06.0".into();
    assert!(inv.validate().is_err());
    inv = fixture();
    inv.pairs[0].receiver.prefix_len = 33;
    assert!(inv.validate().is_err());
}

#[test]
fn rejects_empty_pairs_and_duplicate_ids() {
    let mut inv = fixture();
    inv.pairs.clear();
    assert!(inv.validate().is_err());
    inv = fixture();
    inv.pairs.push(inv.pairs[0].clone());
    let err = inv.validate().unwrap_err().to_string();
    assert!(err.contains("duplicate pair id"), "{err}");
}

#[test]
fn validation_messages_name_the_exact_rule() {
    let mut inv = fixture();
    inv.pairs[0].receiver.pci = "0000:00:06.0".into();
    assert_eq!(
        "unsafe inventory: duplicate BDF 0000:00:06.0 in pair 0 receiver",
        inv.validate().unwrap_err().to_string()
    );

    let mut inv = fixture();
    inv.primary_ena_mac = "  ".into();
    assert_eq!(
        "unsafe inventory: missing primary_ena_mac",
        inv.validate().unwrap_err().to_string()
    );

    let mut inv = fixture();
    inv.pairs.clear();
    assert_eq!("unsafe inventory: no ENA pairs", inv.validate().unwrap_err().to_string());

    let mut inv = fixture();
    inv.pairs[0].sender.pci = "00:06.0".into();
    assert_eq!(
        "unsafe inventory: pair 0 sender: pci \"00:06.0\" is not a BDF (DDDD:BB:DD.F)",
        inv.validate().unwrap_err().to_string()
    );

    let mut inv = fixture();
    inv.pairs[0].receiver.prefix_len = 33;
    assert_eq!(
        "unsafe inventory: pair 0 receiver: prefix_len 33 not in 1..=32",
        inv.validate().unwrap_err().to_string()
    );

    let mut inv = fixture();
    inv.pairs[0].sender.numa_node = -2;
    assert_eq!(
        "unsafe inventory: pair 0 sender: numa_node -2 < -1",
        inv.validate().unwrap_err().to_string()
    );

    let mut inv = fixture();
    inv.pairs[0].receiver.mac = " 0A:00:00:00:00:01 ".into();
    assert_eq!(
        "unsafe inventory: pair 0 receiver 0000:00:07.0 is the primary ENA",
        inv.validate().unwrap_err().to_string()
    );

    let mut inv = fixture();
    inv.pairs.push(inv.pairs[0].clone());
    assert_eq!(
        "unsafe inventory: duplicate pair id \"dpdk-pair-0\"",
        inv.validate().unwrap_err().to_string()
    );
}

#[test]
fn second_pair_conflicts_are_found_across_pairs() {
    let mut inv = fixture();
    inv.pairs.push(Pair {
        id: "dpdk-pair-1".into(),
        sender: port("0000:00:08.0", "11", "0a:00:00:00:00:04"),
        receiver: port("0000:00:09.0", "10", "0a:00:00:00:00:05"),
    });
    assert_eq!(
        "unsafe inventory: duplicate IOMMU group 10 in pair 1 receiver",
        inv.validate().unwrap_err().to_string()
    );
}

#[test]
fn inventory_error_texts() {
    assert_eq!(
        "malformed inventory JSON: eof",
        InventoryError::Parse("eof".into()).to_string()
    );
    let io = InventoryError::Io(
        "/x".into(),
        std::io::Error::new(std::io::ErrorKind::NotFound, "gone"),
    );
    assert!(io.to_string().starts_with("cannot read /x: "));
}
