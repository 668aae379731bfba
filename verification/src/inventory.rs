use vstd::prelude::*;

use crate::chars::{ascii_lowercase, trimmed};
use crate::endpoint::{is_digit, is_hex};
use crate::text::{debug_quoted, decimal_text, seq_starts_with, signed_decimal_text};
use vstd::string::StringSliceAdditionalSpecFns;

verus! {

#[verifier::external_type_specification]
#[verifier::external_body]
pub struct ExIoError(std::io::Error);

/// One node's pair inventory.
#[derive(Clone, Debug)]
pub struct Inventory {
    pub generated_at: String,
    pub primary_ena_mac: String,
    pub pairs: Vec<Pair>,
}

/// One sender/receiver ENA pair.
#[derive(Clone, Debug)]
pub struct Pair {
    pub id: String,
    pub sender: Port,
    pub receiver: Port,
}

/// Network identity of one ENA role.
#[derive(Clone, Debug)]
pub struct Port {
    pub pci: String,
    pub iommu_group: String,
    pub eni_id: String,
    pub mac: String,
    pub ipv4: String,
    pub prefix_len: u8,
    pub subnet_cidr: String,
    pub gateway: String,
    pub numa_node: i32,
    pub health: String,
}

/// Why an inventory was rejected.
#[derive(Debug)]
pub enum InventoryError {
    /// The file could not be read.
    Io(String, std::io::Error),
    /// The JSON did not parse.
    Parse(String),
    /// A validation rule was violated (the message is the reason).
    Validation(String),
}

/// A string holds nothing once white space is trimmed.
pub open spec fn blank(s: Seq<char>) -> bool {
    trimmed(s).len() == 0
}

/// The `DDDD:BB:DD.F` layout of a PCI address, over its bytes.
pub open spec fn bdf_layout(b: Seq<u8>) -> bool {
    &&& b.len() == 12
    &&& b[4] == 58 && b[7] == 58 && b[10] == 46
    &&& forall|k: int| (0 <= k < 4 || 5 <= k < 7 || 8 <= k < 10) ==> is_hex(#[trigger] b[k])
    &&& is_digit(b[11])
}

/// A PCI address text has the BDF layout.
pub open spec fn is_bdf_text(s: Seq<char>) -> bool {
    bdf_layout(vstd::utf8::encode_utf8(s))
}

/// The first reason a port's identity is incomplete or malformed, if any.
pub open spec fn port_violation(p: Port) -> Option<Seq<char>> {
    if blank(p.pci@) {
        Some("empty pci"@)
    } else if !is_bdf_text(p.pci@) {
        Some("pci "@ + debug_quoted(p.pci@) + " is not a BDF (DDDD:BB:DD.F)"@)
    } else if blank(p.iommu_group@) {
        Some("empty iommu_group"@)
    } else if blank(p.eni_id@) {
        Some("empty eni_id"@)
    } else if blank(p.mac@) {
        Some("empty mac"@)
    } else if blank(p.ipv4@) {
        Some("empty ipv4"@)
    } else if blank(p.subnet_cidr@) {
        Some("empty subnet_cidr"@)
    } else if blank(p.gateway@) {
        Some("empty gateway"@)
    } else if !(1 <= p.prefix_len <= 32) {
        Some("prefix_len "@ + decimal_text(p.prefix_len as nat) + " not in 1..=32"@)
    } else if p.numa_node < -1 {
        Some("numa_node "@ + signed_decimal_text(p.numa_node as int) + " < -1"@)
    } else {
        None
    }
}

/// A MAC address as compared: trimmed and in ASCII lower case.
pub open spec fn mac_key(s: Seq<char>) -> Seq<char> {
    ascii_lowercase(trimmed(s))
}

/// The name of a role: 0 is the sender, 1 the receiver.
pub open spec fn role_name(r: int) -> Seq<char> {
    if r == 0 {
        "sender"@
    } else {
        "receiver"@
    }
}

/// The ports of all pairs in order: sender then receiver of each pair.
pub open spec fn port_at(pairs: Seq<Pair>, k: int) -> Port {
    if k % 2 == 0 {
        pairs[k / 2].sender
    } else {
        pairs[k / 2].receiver
    }
}

/// `pair {i} {role}` for the port at index `k`.
pub open spec fn where_text(k: int) -> Seq<char> {
    "pair "@ + decimal_text((k / 2) as nat) + " "@ + role_name(k % 2)
}

/// The PCI address of port `k` occurs among the ports before it.
pub open spec fn pci_seen(pairs: Seq<Pair>, k: int) -> bool {
    exists|m: int| 0 <= m < k && #[trigger] port_at(pairs, m).pci@ == port_at(pairs, k).pci@
}

/// The IOMMU group of port `k` occurs among the ports before it.
pub open spec fn group_seen(pairs: Seq<Pair>, k: int) -> bool {
    exists|m: int|
        0 <= m < k && #[trigger] port_at(pairs, m).iommu_group@ == port_at(pairs, k).iommu_group@
}

/// The id of pair `i` occurs among the pairs before it.
pub open spec fn id_seen(pairs: Seq<Pair>, i: int) -> bool {
    exists|j: int| 0 <= j < i && #[trigger] pairs[j].id@ == pairs[i].id@
}

/// The first rule that port `k` breaks, given that the ports before it passed.
pub open spec fn port_error(pairs: Seq<Pair>, key: Seq<char>, k: int) -> Option<Seq<char>> {
    let p = port_at(pairs, k);
    if port_violation(p) is Some {
        Some(where_text(k) + ": "@ + port_violation(p)->0)
    } else if pci_seen(pairs, k) {
        Some("duplicate BDF "@ + p.pci@ + " in "@ + where_text(k))
    } else if group_seen(pairs, k) {
        Some("duplicate IOMMU group "@ + p.iommu_group@ + " in "@ + where_text(k))
    } else if mac_key(p.mac@) == key {
        Some(where_text(k) + " "@ + p.pci@ + " is the primary ENA"@)
    } else {
        None
    }
}

/// The first rule broken at step `k`: a pair's id is checked before its sender.
pub open spec fn step_error(pairs: Seq<Pair>, key: Seq<char>, k: int) -> Option<Seq<char>> {
    if k % 2 == 0 && id_seen(pairs, k / 2) {
        Some("duplicate pair id "@ + debug_quoted(pairs[k / 2].id@))
    } else {
        port_error(pairs, key, k)
    }
}

/// The first rule broken at step `k` or later.
pub open spec fn scan_from(pairs: Seq<Pair>, key: Seq<char>, k: nat) -> Option<Seq<char>>
    decreases 2 * pairs.len() - k,
{
    if k >= 2 * pairs.len() {
        None
    } else if step_error(pairs, key, k as int) is Some {
        step_error(pairs, key, k as int)
    } else {
        scan_from(pairs, key, k + 1)
    }
}

/// The reason an inventory is unsafe, or `None` when it passes every rule.
pub open spec fn validation_error(inv: Inventory) -> Option<Seq<char>> {
    if blank(inv.primary_ena_mac@) {
        Some("missing primary_ena_mac"@)
    } else if inv.pairs@.len() == 0 {
        Some("no ENA pairs"@)
    } else {
        scan_from(inv.pairs@, mac_key(inv.primary_ena_mac@), 0)
    }
}

/// The safety rules of an inventory, stated directly: a primary MAC is given,
/// there is at least one pair, pair ids, BDFs and IOMMU groups are all distinct,
/// every port's identity is complete and well formed, and no port is the
/// primary ENA.
pub open spec fn inventory_safe(inv: Inventory) -> bool {
    let pairs = inv.pairs@;
    let n = 2 * pairs.len();
    &&& !blank(inv.primary_ena_mac@)
    &&& pairs.len() > 0
    &&& forall|i: int, j: int| 0 <= i < j < pairs.len() ==> #[trigger] pairs[i].id@ != #[trigger] pairs[j].id@
    &&& forall|m: int, k: int|
        0 <= m < k < n ==> #[trigger] port_at(pairs, m).pci@ != #[trigger] port_at(pairs, k).pci@
    &&& forall|m: int, k: int|
        0 <= m < k < n ==> #[trigger] port_at(pairs, m).iommu_group@ != #[trigger] port_at(
            pairs,
            k,
        ).iommu_group@
    &&& forall|k: int| 0 <= k < n ==> #[trigger] port_violation(port_at(pairs, k)) is None
    &&& forall|k: int|
        0 <= k < n ==> mac_key(#[trigger] port_at(pairs, k).mac@) != mac_key(inv.primary_ena_mac@)
}

proof fn lemma_scan_none(pairs: Seq<Pair>, key: Seq<char>, k: nat)
    ensures
        scan_from(pairs, key, k) is None <==> forall|s: int|
            k <= s < 2 * pairs.len() ==> #[trigger] step_error(pairs, key, s) is None,
    decreases 2 * pairs.len() - k,
{
    if k < 2 * pairs.len() {
        lemma_scan_none(pairs, key, k + 1);
    }
}

/// An inventory passes validation exactly when it meets the safety rules: no
/// unsafe pair is ever accepted, and no safe inventory is refused.
pub proof fn lemma_validation_accepts_exactly_safe(inv: Inventory)
    ensures
        validation_error(inv) is None <==> inventory_safe(inv),
{
    let pairs = inv.pairs@;
    let key = mac_key(inv.primary_ena_mac@);
    let n = 2 * pairs.len();
    lemma_scan_none(pairs, key, 0);
    if validation_error(inv) is None {
        assert forall|i: int, j: int| 0 <= i < j < pairs.len() implies #[trigger] pairs[i].id@
            != #[trigger] pairs[j].id@ by {
            assert((2 * j) / 2 == j && (2 * j) % 2 == 0);
            assert(step_error(pairs, key, 2 * j) is None);
        }
        assert forall|m: int, k: int| 0 <= m < k < n implies #[trigger] port_at(pairs, m).pci@
            != #[trigger] port_at(pairs, k).pci@ by {
            assert(step_error(pairs, key, k) is None);
        }
        assert forall|m: int, k: int| 0 <= m < k < n implies #[trigger] port_at(
            pairs,
            m,
        ).iommu_group@ != #[trigger] port_at(pairs, k).iommu_group@ by {
            assert(step_error(pairs, key, k) is None);
        }
        assert forall|k: int| 0 <= k < n implies #[trigger] port_violation(port_at(pairs, k)) is None by {
            assert(step_error(pairs, key, k) is None);
        }
        assert forall|k: int| 0 <= k < n implies mac_key(#[trigger] port_at(pairs, k).mac@) != key by {
            assert(step_error(pairs, key, k) is None);
        }
    }
    if inventory_safe(inv) {
        assert forall|s: int| 0 <= s < n implies #[trigger] step_error(pairs, key, s) is None by {
            if s % 2 == 0 && id_seen(pairs, s / 2) {
                let j = choose|j: int| 0 <= j < s / 2 && #[trigger] pairs[j].id@ == pairs[s / 2].id@;
                assert(pairs[j].id@ != pairs[s / 2].id@);
            }
            if pci_seen(pairs, s) {
                let m = choose|m: int|
                    0 <= m < s && #[trigger] port_at(pairs, m).pci@ == port_at(pairs, s).pci@;
                assert(port_at(pairs, m).pci@ != port_at(pairs, s).pci@);
            }
            if group_seen(pairs, s) {
                let m = choose|m: int|
                    0 <= m < s && #[trigger] port_at(pairs, m).iommu_group@ == port_at(
                        pairs,
                        s,
                    ).iommu_group@;
                assert(port_at(pairs, m).iommu_group@ != port_at(pairs, s).iommu_group@);
            }
            assert(port_violation(port_at(pairs, s)) is None);
            assert(mac_key(port_at(pairs, s).mac@) != key);
        }
    }
}

/// The text of an I/O error (`<std::io::Error as Display>`). It depends on the
/// operating system's messages, so nothing is stated of it.
#[verifier::external_body]
fn io_error_text(e: &std::io::Error) -> String {
    e.to_string()
}

impl InventoryError {
    /// The message of the error, as its display text.
    pub fn to_string(&self) -> (r: String)
        ensures
            self matches InventoryError::Parse(m) ==> r@ == "malformed inventory JSON: "@ + m@,
            self matches InventoryError::Validation(m) ==> r@ == "unsafe inventory: "@ + m@,
            self matches InventoryError::Io(path, _) ==> seq_starts_with(
                r@,
                "cannot read "@ + path@ + ": "@,
            ),
    {
        match self {
            InventoryError::Io(path, e) => {
                let mut s = crate::text::concat3("cannot read ", path.as_str(), ": ");
                let ghost head = s@;
                crate::text::push_str(&mut s, io_error_text(e).as_str());
                assert(s@.subrange(0, head.len() as int) =~= head);
                s
            },
            InventoryError::Parse(m) => crate::text::concat2(
                "malformed inventory JSON: ",
                m.as_str(),
            ),
            InventoryError::Validation(m) => crate::text::concat2("unsafe inventory: ", m.as_str()),
        }
    }
}

/// Loose check for the `DDDD:BB:DD.F` BDF layout.
fn is_bdf(s: &str) -> (r: bool)
    ensures
        r == is_bdf_text(s@),
{
    let b = s.as_bytes();
    assert(b@ == vstd::utf8::encode_utf8(s@));
    if b.len() != 12 {
        return false;
    }
    if b[4] != 58 || b[7] != 58 || b[10] != 46 {
        return false;
    }
    let mut k: usize = 0;
    while k < 10
        invariant
            b@ == vstd::utf8::encode_utf8(s@),
            b@.len() == 12,
            k <= 10,
            forall|j: int|
                0 <= j < k && (j < 4 || 5 <= j < 7 || 8 <= j < 10) ==> is_hex(#[trigger] b@[j]),
        decreases 10 - k,
    {
        if k != 4 && k != 7 && !crate::endpoint::is_hex_byte(b[k]) {
            assert(!is_hex(b@[k as int]));
            assert(0 <= k < 4 || 5 <= k < 7 || 8 <= k < 10);
            assert(!bdf_layout(b@));
            return false;
        }
        k += 1;
    }
    48 <= b[11] && b[11] <= 57
}

/// The first reason a port is unsafe, as a message.
fn validate_port(port: &Port) -> (r: Result<(), String>)
    ensures
        r is Ok <==> port_violation(*port) is None,
        r matches Err(m) ==> port_violation(*port) == Some(m@),
{
    if crate::chars::is_blank(port.pci.as_str()) {
        return Err("empty pci".to_owned());
    }
    if !is_bdf(port.pci.as_str()) {
        let q = crate::text::debug_quote(port.pci.as_str());
        return Err(crate::text::concat3("pci ", q.as_str(), " is not a BDF (DDDD:BB:DD.F)"));
    }
    if crate::chars::is_blank(port.iommu_group.as_str()) {
        return Err("empty iommu_group".to_owned());
    }
    if crate::chars::is_blank(port.eni_id.as_str()) {
        return Err("empty eni_id".to_owned());
    }
    if crate::chars::is_blank(port.mac.as_str()) {
        return Err("empty mac".to_owned());
    }
    if crate::chars::is_blank(port.ipv4.as_str()) {
        return Err("empty ipv4".to_owned());
    }
    if crate::chars::is_blank(port.subnet_cidr.as_str()) {
        return Err("empty subnet_cidr".to_owned());
    }
    if crate::chars::is_blank(port.gateway.as_str()) {
        return Err("empty gateway".to_owned());
    }
    if !(1 <= port.prefix_len && port.prefix_len <= 32) {
        let mut m = "prefix_len ".to_owned();
        crate::text::push_decimal(&mut m, port.prefix_len as u64);
        crate::text::push_str(&mut m, " not in 1..=32");
        return Err(m);
    }
    if port.numa_node < -1 {
        let mut m = "numa_node ".to_owned();
        crate::text::push_signed_decimal(&mut m, port.numa_node as i64);
        crate::text::push_str(&mut m, " < -1");
        return Err(m);
    }
    Ok(())
}

/// The characters of a MAC address as compared.
fn mac_key_of(s: &str) -> (r: Vec<char>)
    ensures
        r@ == mac_key(s@),
{
    let v = crate::text::chars_of(s);
    let t = crate::chars::trim_chars(&v);
    crate::chars::lowercase_chars(&t)
}

/// Whether `s` equals one of the strings in `v`.
fn contains_text(v: &Vec<&str>, s: &str) -> (r: bool)
    ensures
        r == exists|j: int| 0 <= j < v@.len() && (#[trigger] v@[j])@ == s@,
{
    let mut j: usize = 0;
    while j < v.len()
        invariant
            j <= v@.len(),
            forall|m: int| 0 <= m < j ==> (#[trigger] v@[m])@ != s@,
        decreases v@.len() - j,
    {
        if crate::text::str_eq(v[j], s) {
            return true;
        }
        j += 1;
    }
    false
}

/// `pair {i} {role}`.
fn where_message(i: usize, role: usize) -> (r: String)
    requires
        role < 2,
    ensures
        r@ == where_text(2 * i + role),
{
    let mut m = "pair ".to_owned();
    crate::text::push_decimal(&mut m, i as u64);
    crate::text::push_str(&mut m, " ");
    if role == 0 {
        crate::text::push_str(&mut m, "sender");
    } else {
        crate::text::push_str(&mut m, "receiver");
    }
    assert((2 * i + role) / 2 == i);
    assert((2 * i + role) % 2 == role);
    m
}

/// Checks the port at step `k = 2 * i + role`, given the addresses and groups of
/// the ports before it; on success records its address and group.
fn check_port<'a>(
    pairs: &'a Vec<Pair>,
    key: &Vec<char>,
    i: usize,
    role: usize,
    pcis: &mut Vec<&'a str>,
    groups: &mut Vec<&'a str>,
) -> (r: Option<String>)
    requires
        i < pairs@.len(),
        role < 2,
        old(pcis)@.len() == 2 * i + role,
        old(groups)@.len() == 2 * i + role,
        forall|m: int| 0 <= m < 2 * i + role ==> (#[trigger] old(pcis)@[m])@ == port_at(pairs@, m).pci@,
        forall|m: int|
            0 <= m < 2 * i + role ==> (#[trigger] old(groups)@[m])@ == port_at(
                pairs@,
                m,
            ).iommu_group@,
    ensures
        r matches Some(e) ==> port_error(pairs@, key@, 2 * i + role) == Some(e@),
        r is None ==> port_error(pairs@, key@, 2 * i + role) is None,
        r is None ==> final(pcis)@.len() == 2 * i + role + 1,
        r is None ==> final(groups)@.len() == 2 * i + role + 1,
        r is None ==> forall|m: int|
            0 <= m < 2 * i + role + 1 ==> (#[trigger] final(pcis)@[m])@ == port_at(pairs@, m).pci@,
        r is None ==> forall|m: int|
            0 <= m < 2 * i + role + 1 ==> (#[trigger] final(groups)@[m])@ == port_at(
                pairs@,
                m,
            ).iommu_group@,
{
    let ghost k: int = 2 * i + role;
    assert(k / 2 == i);
    assert(k % 2 == role);
    let pair = &pairs[i];
    let port = if role == 0 {
        &pair.sender
    } else {
        &pair.receiver
    };
    assert(*port == port_at(pairs@, k));
    match validate_port(port) {
        Err(reason) => {
            let w = where_message(i, role);
            return Some(crate::text::concat3(w.as_str(), ": ", reason.as_str()));
        },
        Ok(()) => {},
    }
    let dup_pci = contains_text(pcis, port.pci.as_str());
    proof {
        if dup_pci {
            let j = choose|j: int| 0 <= j < pcis@.len() && (#[trigger] pcis@[j])@ == port.pci@;
            assert(port_at(pairs@, j).pci@ == port_at(pairs@, k).pci@);
        }
        if pci_seen(pairs@, k) {
            let m = choose|m: int|
                0 <= m < k && #[trigger] port_at(pairs@, m).pci@ == port_at(pairs@, k).pci@;
            assert(pcis@[m]@ == port.pci@);
        }
    }
    if dup_pci {
        let w = where_message(i, role);
        let mut e = crate::text::concat3("duplicate BDF ", port.pci.as_str(), " in ");
        crate::text::push_str(&mut e, w.as_str());
        return Some(e);
    }
    pcis.push(port.pci.as_str());
    let dup_group = contains_text(groups, port.iommu_group.as_str());
    proof {
        if dup_group {
            let j = choose|j: int|
                0 <= j < groups@.len() && (#[trigger] groups@[j])@ == port.iommu_group@;
            assert(port_at(pairs@, j).iommu_group@ == port_at(pairs@, k).iommu_group@);
        }
        if group_seen(pairs@, k) {
            let m = choose|m: int|
                0 <= m < k && #[trigger] port_at(pairs@, m).iommu_group@ == port_at(
                    pairs@,
                    k,
                ).iommu_group@;
            assert(groups@[m]@ == port.iommu_group@);
        }
    }
    if dup_group {
        let w = where_message(i, role);
        let mut e = crate::text::concat3("duplicate IOMMU group ", port.iommu_group.as_str(), " in ");
        crate::text::push_str(&mut e, w.as_str());
        return Some(e);
    }
    groups.push(port.iommu_group.as_str());
    let mac = mac_key_of(port.mac.as_str());
    if crate::text::chars_eq(mac.as_slice(), key.as_slice()) {
        let w = where_message(i, role);
        let mut e = crate::text::concat3(w.as_str(), " ", port.pci.as_str());
        crate::text::push_str(&mut e, " is the primary ENA");
        return Some(e);
    }
    None
}

impl Inventory {
    /// Rejects duplicate or unsafe inventories: a blank primary MAC, no pairs, a
    /// repeated pair id, BDF or IOMMU group, an incomplete port identity, or a
    /// member MAC equal to the primary ENA. The first rule broken, in pair order,
    /// gives the message.
    pub fn validate(&self) -> (r: Result<(), InventoryError>)
        ensures
            r is Ok <==> validation_error(*self) is None,
            r matches Err(e) ==> (e matches InventoryError::Validation(m) && validation_error(
                *self,
            ) == Some(m@)),
    {
        if crate::chars::is_blank(self.primary_ena_mac.as_str()) {
            return Err(InventoryError::Validation("missing primary_ena_mac".to_owned()));
        }
        if self.pairs.len() == 0 {
            return Err(InventoryError::Validation("no ENA pairs".to_owned()));
        }
        let key = mac_key_of(self.primary_ena_mac.as_str());
        let ghost pairs = self.pairs@;
        let mut ids: Vec<&str> = Vec::new();
        let mut pcis: Vec<&str> = Vec::new();
        let mut groups: Vec<&str> = Vec::new();
        let mut i: usize = 0;
        while i < self.pairs.len()
            invariant
                pairs == self.pairs@,
                key@ == mac_key(self.primary_ena_mac@),
                validation_error(*self) == scan_from(pairs, key@, 0),
                i <= pairs.len(),
                scan_from(pairs, key@, 0) == scan_from(pairs, key@, (2 * i) as nat),
                ids@.len() == i,
                forall|j: int| 0 <= j < i ==> (#[trigger] ids@[j])@ == pairs[j].id@,
                pcis@.len() == 2 * i,
                groups@.len() == 2 * i,
                forall|m: int| 0 <= m < 2 * i ==> (#[trigger] pcis@[m])@ == port_at(pairs, m).pci@,
                forall|m: int|
                    0 <= m < 2 * i ==> (#[trigger] groups@[m])@ == port_at(pairs, m).iommu_group@,
            decreases pairs.len() - i,
        {
            let ghost k: int = 2 * i;
            assert(k / 2 == i && k % 2 == 0);
            let pair = &self.pairs[i];
            let dup_id = contains_text(&ids, pair.id.as_str());
            proof {
                if dup_id {
                    let j = choose|j: int| 0 <= j < ids@.len() && (#[trigger] ids@[j])@ == pair.id@;
                    assert(pairs[j].id@ == pairs[i as int].id@);
                }
                if id_seen(pairs, i as int) {
                    let j = choose|j: int| 0 <= j < i && #[trigger] pairs[j].id@ == pairs[i as int].id@;
                    assert(ids@[j]@ == pair.id@);
                }
            }
            if dup_id {
                let q = crate::text::debug_quote(pair.id.as_str());
                let e = crate::text::concat2("duplicate pair id ", q.as_str());
                return Err(InventoryError::Validation(e));
            }
            ids.push(pair.id.as_str());
            match check_port(&self.pairs, &key, i, 0, &mut pcis, &mut groups) {
                Some(e) => {
                    return Err(InventoryError::Validation(e));
                },
                None => {},
            }
            assert(step_error(pairs, key@, k) is None);
            assert(scan_from(pairs, key@, k as nat) == scan_from(pairs, key@, (k + 1) as nat));
            assert((k + 1) / 2 == i && (k + 1) % 2 == 1);
            match check_port(&self.pairs, &key, i, 1, &mut pcis, &mut groups) {
                Some(e) => {
                    assert(step_error(pairs, key@, k + 1) == port_error(pairs, key@, k + 1));
                    return Err(InventoryError::Validation(e));
                },
                None => {},
            }
            assert(step_error(pairs, key@, k + 1) is None);
            assert(scan_from(pairs, key@, (k + 1) as nat) == scan_from(pairs, key@, (k + 2) as nat));
            i += 1;
        }
        Ok(())
    }
}

/// The NUMA node rule of a port: a node of `-1` (unknown) or more never makes
/// a port unsafe, whatever its other fields; a node below `-1` always does.
pub proof fn lemma_numa_node_rule(p: Port)
    ensures
        p.numa_node >= -1 ==> !(port_violation(p) matches Some(m) && seq_starts_with(m, "numa_node"@)),
        p.numa_node < -1 ==> port_violation(p) is Some,
{
    reveal_strlit("numa_node");
    reveal_strlit("empty pci");
    reveal_strlit("pci ");
    reveal_strlit("empty iommu_group");
    reveal_strlit("empty eni_id");
    reveal_strlit("empty mac");
    reveal_strlit("empty ipv4");
    reveal_strlit("empty subnet_cidr");
    reveal_strlit("empty gateway");
    reveal_strlit("prefix_len ");
    if p.numa_node >= -1 {
        match port_violation(p) {
            Some(m) => {
                if seq_starts_with(m, "numa_node"@) {
                    assert(m.take(9) == "numa_node"@);
                    assert(m[0] == m.take(9)[0]);
                    assert(m[0] == 'n');
                    if !blank(p.pci@) && !is_bdf_text(p.pci@) {
                        assert(m[0] == ("pci "@ + debug_quoted(p.pci@))[0]);
                    } else if !blank(p.pci@) && !blank(p.iommu_group@) && !blank(p.eni_id@) && !blank(p.mac@)
                        && !blank(p.ipv4@) && !blank(p.subnet_cidr@) && !blank(p.gateway@) && !(1 <= p.prefix_len <= 32) {
                        assert(m[0] == ("prefix_len "@ + decimal_text(p.prefix_len as nat))[0]);
                    }
                }
            },
            None => {},
        }
    }
}

} // verus!
