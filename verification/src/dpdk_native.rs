use vstd::prelude::*;

use crate::dpdk_config::{utf8, DpdkError, DpdkTransportConfig};
use crate::text::{debug_quoted, decimal_text, signed_decimal_text};

verus! {

/// A wildcard port range, `low` to `high`.
#[derive(Clone, Copy, Debug, PartialEq, Eq)]
pub struct PortRange {
    pub low: u16,
    pub high: u16,
}

/// The driver-context settings the DPDK transport depends on, as read from the
/// Aeron driver context.
#[derive(Clone, Debug, PartialEq, Eq)]
pub struct DriverContextSettings {
    /// The threading mode is `AERON_THREADING_MODE_DEDICATED`.
    pub threading_mode_dedicated: bool,
    pub sender_cpu_affinity: i32,
    pub receiver_cpu_affinity: i32,
    pub sender_idle_strategy: String,
    pub receiver_idle_strategy: String,
    /// Sender wildcard port range.
    pub sender_wildcard_port_range: PortRange,
    /// Receiver wildcard port range.
    pub receiver_wildcard_port_range: PortRange,
    pub mtu_length: usize,
}

/// `({low}-{high})`.
pub open spec fn range_text(r: PortRange) -> Seq<char> {
    "("@ + decimal_text(r.low as nat) + "-"@ + decimal_text(r.high as nat) + ")"@
}

/// The first way a wildcard port range is malformed, if any.
pub open spec fn range_violation(role: Seq<char>, r: PortRange) -> Option<Seq<char>> {
    if r.low == 0 || r.high == 0 {
        Some("aeron context "@ + role + " wildcard port range "@ + range_text(r) + " must be nonzero"@)
    } else if r.low >= r.high {
        Some("aeron context "@ + role + " wildcard port range "@ + range_text(r)
            + " must satisfy low < high"@)
    } else {
        None
    }
}

/// The first requirement of the DPDK transport that the driver context breaks:
/// dedicated threading, distinct nonnegative sender/receiver CPU affinities,
/// `spin` idle strategies on both, well-formed and disjoint wildcard port
/// ranges, and an MTU within the transport's maximum.
pub open spec fn context_violation(s: DriverContextSettings, c: DpdkTransportConfig) -> Option<Seq<char>> {
    let sr = s.sender_wildcard_port_range;
    let rr = s.receiver_wildcard_port_range;
    if !s.threading_mode_dedicated {
        Some("aeron context threading mode must be AERON_THREADING_MODE_DEDICATED"@)
    } else if s.sender_cpu_affinity < 0 || s.receiver_cpu_affinity < 0 {
        Some("aeron context sender/receiver cpu affinity must be nonnegative (sender="@
            + signed_decimal_text(s.sender_cpu_affinity as int) + ", receiver="@
            + signed_decimal_text(s.receiver_cpu_affinity as int) + ")"@)
    } else if s.sender_cpu_affinity == s.receiver_cpu_affinity {
        Some("aeron context sender and receiver cpu affinity must differ (both "@
            + signed_decimal_text(s.sender_cpu_affinity as int) + ")"@)
    } else if s.sender_idle_strategy@ != "spin"@ || s.receiver_idle_strategy@ != "spin"@ {
        Some("aeron context sender and receiver idle strategies must be `spin`"@)
    } else if range_violation("sender"@, sr) is Some {
        range_violation("sender"@, sr)
    } else if range_violation("receiver"@, rr) is Some {
        range_violation("receiver"@, rr)
    } else if !(sr.high < rr.low || rr.high < sr.low) {
        Some("aeron context sender wildcard port range "@ + range_text(sr) + " and receiver "@
            + range_text(rr) + " must be disjoint"@)
    } else if s.mtu_length > c.max_aeron_mtu {
        Some("aeron context mtu "@ + decimal_text(s.mtu_length as nat) + " exceeds max_aeron_mtu "@
            + decimal_text(c.max_aeron_mtu as nat))
    } else {
        None
    }
}

fn push_range(m: &mut String, r: PortRange)
    ensures
        final(m)@ == old(m)@ + range_text(r),
{
    crate::text::push_str(m, "(");
    crate::text::push_decimal(m, r.low as u64);
    crate::text::push_str(m, "-");
    crate::text::push_decimal(m, r.high as u64);
    crate::text::push_str(m, ")");
    assert(m@ =~= old(m)@ + range_text(r));
}

fn check_range(role: &str, r: PortRange) -> (res: Result<(), DpdkError>)
    ensures
        res is Ok <==> range_violation(role@, r) is None,
        res matches Err(e) ==> (e matches DpdkError::InvalidConfiguration(m) && range_violation(
            role@,
            r,
        ) == Some(m@)),
{
    if r.low == 0 || r.high == 0 || r.low >= r.high {
        let mut m = crate::text::concat3("aeron context ", role, " wildcard port range ");
        push_range(&mut m, r);
        if r.low == 0 || r.high == 0 {
            crate::text::push_str(&mut m, " must be nonzero");
        } else {
            crate::text::push_str(&mut m, " must satisfy low < high");
        }
        return Err(DpdkError::InvalidConfiguration(m));
    }
    Ok(())
}

/// Verifies the driver-context state the DPDK transport requires. The error is
/// `InvalidConfiguration` with the first requirement broken.
pub fn validate_context(settings: &DriverContextSettings, config: &DpdkTransportConfig) -> (r: Result<
    (),
    DpdkError,
>)
    ensures
        r is Ok <==> context_violation(*settings, *config) is None,
        r matches Err(e) ==> (e matches DpdkError::InvalidConfiguration(m) && context_violation(
            *settings,
            *config,
        ) == Some(m@)),
{
    if !settings.threading_mode_dedicated {
        return Err(
            DpdkError::InvalidConfiguration(
                "aeron context threading mode must be AERON_THREADING_MODE_DEDICATED".to_owned(),
            ),
        );
    }
    let sa = settings.sender_cpu_affinity;
    let ra = settings.receiver_cpu_affinity;
    if sa < 0 || ra < 0 {
        let mut m = "aeron context sender/receiver cpu affinity must be nonnegative (sender=".to_owned();
        crate::text::push_signed_decimal(&mut m, sa as i64);
        crate::text::push_str(&mut m, ", receiver=");
        crate::text::push_signed_decimal(&mut m, ra as i64);
        crate::text::push_str(&mut m, ")");
        return Err(DpdkError::InvalidConfiguration(m));
    }
    if sa == ra {
        let mut m = "aeron context sender and receiver cpu affinity must differ (both ".to_owned();
        crate::text::push_signed_decimal(&mut m, sa as i64);
        crate::text::push_str(&mut m, ")");
        return Err(DpdkError::InvalidConfiguration(m));
    }
    if !crate::text::str_eq(settings.sender_idle_strategy.as_str(), "spin") || !crate::text::str_eq(
        settings.receiver_idle_strategy.as_str(),
        "spin",
    ) {
        return Err(
            DpdkError::InvalidConfiguration(
                "aeron context sender and receiver idle strategies must be `spin`".to_owned(),
            ),
        );
    }
    let sr = settings.sender_wildcard_port_range;
    let rr = settings.receiver_wildcard_port_range;
    check_range("sender", sr)?;
    check_range("receiver", rr)?;
    if !(sr.high < rr.low || rr.high < sr.low) {
        let mut m = "aeron context sender wildcard port range ".to_owned();
        push_range(&mut m, sr);
        crate::text::push_str(&mut m, " and receiver ");
        push_range(&mut m, rr);
        crate::text::push_str(&mut m, " must be disjoint");
        return Err(DpdkError::InvalidConfiguration(m));
    }
    if settings.mtu_length > config.max_aeron_mtu {
        let mut m = "aeron context mtu ".to_owned();
        crate::text::push_decimal(&mut m, settings.mtu_length as u64);
        crate::text::push_str(&mut m, " exceeds max_aeron_mtu ");
        crate::text::push_decimal(&mut m, config.max_aeron_mtu as u64);
        return Err(DpdkError::InvalidConfiguration(m));
    }
    Ok(())
}

/// The message for a value too long for its native buffer.
pub open spec fn too_long_text(field: Seq<char>, value: Seq<char>) -> Seq<char> {
    field + " value "@ + debug_quoted(value) + " is too long for the native config buffer"@
}

/// Copies a string into a fixed native buffer as a NUL-terminated C string.
/// The value's bytes and the terminator must fit; otherwise the buffer is left
/// unchanged and the error names the field.
pub fn fill(buf: &mut Vec<u8>, value: &str, field: &str) -> (r: Result<(), DpdkError>)
    ensures
        final(buf)@.len() == old(buf)@.len(),
        r is Ok <==> utf8(value@).len() < old(buf)@.len(),
        r matches Err(e) ==> (e matches DpdkError::InvalidConfiguration(m) && m@ == too_long_text(
            field@,
            value@,
        ) && final(buf)@ == old(buf)@),
        r is Ok ==> final(buf)@ == utf8(value@) + seq![0u8] + old(buf)@.subrange(
            utf8(value@).len() + 1int,
            old(buf)@.len() as int,
        ),
{
    let bytes = value.as_bytes();
    assert(bytes@ == utf8(value@));
    if bytes.len() >= buf.len() {
        let mut m = crate::text::concat2(field, " value ");
        crate::text::push_str(&mut m, crate::text::debug_quote(value).as_str());
        crate::text::push_str(&mut m, " is too long for the native config buffer");
        return Err(DpdkError::InvalidConfiguration(m));
    }
    let mut i: usize = 0;
    while i < bytes.len()
        invariant
            i <= bytes@.len() < buf@.len(),
            buf@.len() == old(buf)@.len(),
            forall|k: int| 0 <= k < i ==> buf@[k] == bytes@[k],
            forall|k: int| i <= k < buf@.len() ==> buf@[k] == old(buf)@[k],
        decreases bytes@.len() - i,
    {
        buf.set(i, bytes[i]);
        i += 1;
    }
    buf.set(bytes.len(), 0);
    assert(buf@ =~= bytes@ + seq![0u8] + old(buf)@.subrange(bytes@.len() + 1int, old(buf)@.len() as int));
    Ok(())
}

} // verus!
