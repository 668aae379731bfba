use vstd::prelude::*;

verus! {

/// Names used in Aeron channel URIs.
pub struct ChannelUri {}

impl ChannelUri {
    pub const AERON_SCHEME: &'static str = "aeron";
    pub const SPY_QUALIFIER: &'static str = "aeron-spy";
    pub const MAX_URI_LENGTH: usize = 4095;
}

pub const DRIVER_TIMEOUT_MS_DEFAULT: u64 = 10_000;

pub const AERON_DIR_PROP_NAME: &'static str = "aeron.dir";

pub const AERON_IPC_MEDIA: &'static str = "aeron:ipc";

pub const AERON_UDP_MEDIA: &'static str = "aeron:udp";

pub const SPY_PREFIX: &'static str = "aeron-spy:";

pub const TAG_PREFIX: &'static str = "tag:";

/// Media types of a channel.
#[derive(Debug, Clone, Copy, PartialEq, Eq, Hash, Structural)]
pub enum Media {
    Ipc,
    Udp,
}

/// The URI value of each media type.
pub open spec fn spec_media_text(m: Media) -> Seq<char> {
    match m {
        Media::Ipc => "ipc"@,
        Media::Udp => "udp"@,
    }
}

impl Media {
    /// The URI value of this media type.
    pub fn as_str(&self) -> (r: &'static str)
        ensures
            r@ == spec_media_text(*self),
    {
        proof {
            reveal_strlit("ipc");
            reveal_strlit("udp");
        }
        match self {
            Media::Ipc => "ipc",
            Media::Udp => "udp",
        }
    }
}

/// Control modes of a channel.
#[derive(Debug, Clone, Copy, PartialEq, Eq, Hash, Structural)]
pub enum ControlMode {
    Manual,
    Dynamic,
    /// A beta feature useful when dealing with docker containers and networking.
    Response,
}

/// The URI value of each control mode.
pub open spec fn spec_control_mode_text(m: ControlMode) -> Seq<char> {
    match m {
        ControlMode::Manual => "manual"@,
        ControlMode::Dynamic => "dynamic"@,
        ControlMode::Response => "response"@,
    }
}

impl ControlMode {
    /// The URI value of this control mode.
    pub fn as_str(&self) -> (r: &'static str)
        ensures
            r@ == spec_control_mode_text(*self),
    {
        proof {
            reveal_strlit("manual");
            reveal_strlit("dynamic");
            reveal_strlit("response");
        }
        match self {
            ControlMode::Manual => "manual",
            ControlMode::Dynamic => "dynamic",
            ControlMode::Response => "response",
        }
    }
}

/// Distinct media types have distinct URI values.
pub proof fn lemma_media_text_injective(a: Media, b: Media)
    ensures
        spec_media_text(a) == spec_media_text(b) ==> a == b,
{
    reveal_strlit("ipc");
    reveal_strlit("udp");
    if a != b {
        assert(spec_media_text(a)[0] != spec_media_text(b)[0]);
    }
}

/// Distinct control modes have distinct URI values.
pub proof fn lemma_control_mode_text_injective(a: ControlMode, b: ControlMode)
    ensures
        spec_control_mode_text(a) == spec_control_mode_text(b) ==> a == b,
{
    reveal_strlit("manual");
    reveal_strlit("dynamic");
    reveal_strlit("response");
    if a != b {
        assert(spec_control_mode_text(a)[0] != spec_control_mode_text(b)[0]);
    }
}

} // verus!
