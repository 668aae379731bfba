use vstd::prelude::*;

verus! {

/// The kinds of error codes returned by the Aeron C API.
#[derive(Debug, PartialEq, Eq, Structural, Clone, PartialOrd)]
pub enum AeronErrorType {
    GenericError,
    ClientErrorDriverTimeout,
    ClientErrorClientTimeout,
    ClientErrorConductorServiceTimeout,
    ClientErrorBufferFull,
    PublicationBackPressured,
    PublicationAdminAction,
    PublicationClosed,
    PublicationMaxPositionExceeded,
    PublicationError,
    TimedOut,
    Unknown(i32),
}

/// The code of a timed-out operation, a value chosen by this library.
pub const TIMED_OUT_CODE: i32 = -234324;

/// The numeric code that stands for each error kind.
pub open spec fn spec_error_code(t: AeronErrorType) -> int {
    match t {
        AeronErrorType::GenericError => -1,
        AeronErrorType::ClientErrorDriverTimeout => -1000,
        AeronErrorType::ClientErrorClientTimeout => -1001,
        AeronErrorType::ClientErrorConductorServiceTimeout => -1002,
        AeronErrorType::ClientErrorBufferFull => -1003,
        AeronErrorType::PublicationBackPressured => -2,
        AeronErrorType::PublicationAdminAction => -3,
        AeronErrorType::PublicationClosed => -4,
        AeronErrorType::PublicationMaxPositionExceeded => -5,
        AeronErrorType::PublicationError => -6,
        AeronErrorType::TimedOut => TIMED_OUT_CODE as int,
        AeronErrorType::Unknown(code) => code as int,
    }
}

/// The error kind that a numeric code denotes; codes with no name are `Unknown`.
pub open spec fn spec_error_kind(code: i32) -> AeronErrorType {
    if code == -1 {
        AeronErrorType::GenericError
    } else if code == -1000 {
        AeronErrorType::ClientErrorDriverTimeout
    } else if code == -1001 {
        AeronErrorType::ClientErrorClientTimeout
    } else if code == -1002 {
        AeronErrorType::ClientErrorConductorServiceTimeout
    } else if code == -1003 {
        AeronErrorType::ClientErrorBufferFull
    } else if code == -2 {
        AeronErrorType::PublicationBackPressured
    } else if code == -3 {
        AeronErrorType::PublicationAdminAction
    } else if code == -4 {
        AeronErrorType::PublicationClosed
    } else if code == -5 {
        AeronErrorType::PublicationMaxPositionExceeded
    } else if code == -6 {
        AeronErrorType::PublicationError
    } else if code == TIMED_OUT_CODE {
        AeronErrorType::TimedOut
    } else {
        AeronErrorType::Unknown(code)
    }
}

/// A code is named when some kind other than `Unknown` stands for it.
pub open spec fn is_named_code(code: i32) -> bool {
    !(spec_error_kind(code) is Unknown)
}

/// The text describing each error kind.
pub open spec fn spec_error_text(t: AeronErrorType) -> Seq<char> {
    match t {
        AeronErrorType::GenericError => "Generic Error"@,
        AeronErrorType::ClientErrorDriverTimeout => "Client Error Driver Timeout"@,
        AeronErrorType::ClientErrorClientTimeout => "Client Error Client Timeout"@,
        AeronErrorType::ClientErrorConductorServiceTimeout => "Client Error Conductor Service Timeout"@,
        AeronErrorType::ClientErrorBufferFull => "Client Error Buffer Full"@,
        AeronErrorType::PublicationBackPressured => "Publication Back Pressured"@,
        AeronErrorType::PublicationAdminAction => "Publication Admin Action"@,
        AeronErrorType::PublicationClosed => "Publication Closed"@,
        AeronErrorType::PublicationMaxPositionExceeded => "Publication Max Position Exceeded"@,
        AeronErrorType::PublicationError => "Publication Error"@,
        AeronErrorType::TimedOut => "Timed Out"@,
        AeronErrorType::Unknown(_) => "Unknown Error"@,
    }
}

impl AeronErrorType {
    /// The numeric Aeron code of this kind.
    pub fn code(&self) -> (r: i32)
        ensures
            r == spec_error_code(*self),
    {
        match self {
            AeronErrorType::GenericError => -1,
            AeronErrorType::ClientErrorDriverTimeout => -1000,
            AeronErrorType::ClientErrorClientTimeout => -1001,
            AeronErrorType::ClientErrorConductorServiceTimeout => -1002,
            AeronErrorType::ClientErrorBufferFull => -1003,
            AeronErrorType::PublicationBackPressured => -2,
            AeronErrorType::PublicationAdminAction => -3,
            AeronErrorType::PublicationClosed => -4,
            AeronErrorType::PublicationMaxPositionExceeded => -5,
            AeronErrorType::PublicationError => -6,
            AeronErrorType::TimedOut => TIMED_OUT_CODE,
            AeronErrorType::Unknown(code) => *code,
        }
    }

    /// Whether this is the back-pressure kind.
    pub fn is_back_pressured(&self) -> (r: bool)
        ensures
            r == (*self is PublicationBackPressured),
    {
        matches!(self, AeronErrorType::PublicationBackPressured)
    }

    /// Whether this is the admin-action kind.
    pub fn is_admin_action(&self) -> (r: bool)
        ensures
            r == (*self is PublicationAdminAction),
    {
        matches!(self, AeronErrorType::PublicationAdminAction)
    }

    /// Whether this is the back-pressure or the admin-action kind.
    pub fn is_back_pressured_or_admin_action(&self) -> (r: bool)
        ensures
            r == (*self is PublicationBackPressured || *self is PublicationAdminAction),
    {
        self.is_back_pressured() || self.is_admin_action()
    }

    /// The kind that an Aeron code denotes.
    pub fn from_code(code: i32) -> (r: AeronErrorType)
        ensures
            r == spec_error_kind(code),
    {
        if code == -1 {
            AeronErrorType::GenericError
        } else if code == -1000 {
            AeronErrorType::ClientErrorDriverTimeout
        } else if code == -1001 {
            AeronErrorType::ClientErrorClientTimeout
        } else if code == -1002 {
            AeronErrorType::ClientErrorConductorServiceTimeout
        } else if code == -1003 {
            AeronErrorType::ClientErrorBufferFull
        } else if code == -2 {
            AeronErrorType::PublicationBackPressured
        } else if code == -3 {
            AeronErrorType::PublicationAdminAction
        } else if code == -4 {
            AeronErrorType::PublicationClosed
        } else if code == -5 {
            AeronErrorType::PublicationMaxPositionExceeded
        } else if code == -6 {
            AeronErrorType::PublicationError
        } else if code == TIMED_OUT_CODE {
            AeronErrorType::TimedOut
        } else {
            AeronErrorType::Unknown(code)
        }
    }

    /// A human-readable description of this kind.
    pub fn to_string(&self) -> (r: &'static str)
        ensures
            r@ == spec_error_text(*self),
    {
        proof {
            reveal_strlit("Generic Error");
            reveal_strlit("Client Error Driver Timeout");
            reveal_strlit("Client Error Client Timeout");
            reveal_strlit("Client Error Conductor Service Timeout");
            reveal_strlit("Client Error Buffer Full");
            reveal_strlit("Publication Back Pressured");
            reveal_strlit("Publication Admin Action");
            reveal_strlit("Publication Closed");
            reveal_strlit("Publication Max Position Exceeded");
            reveal_strlit("Publication Error");
            reveal_strlit("Timed Out");
            reveal_strlit("Unknown Error");
        }
        match self {
            AeronErrorType::GenericError => "Generic Error",
            AeronErrorType::ClientErrorDriverTimeout => "Client Error Driver Timeout",
            AeronErrorType::ClientErrorClientTimeout => "Client Error Client Timeout",
            AeronErrorType::ClientErrorConductorServiceTimeout => "Client Error Conductor Service Timeout",
            AeronErrorType::ClientErrorBufferFull => "Client Error Buffer Full",
            AeronErrorType::PublicationBackPressured => "Publication Back Pressured",
            AeronErrorType::PublicationAdminAction => "Publication Admin Action",
            AeronErrorType::PublicationClosed => "Publication Closed",
            AeronErrorType::PublicationMaxPositionExceeded => "Publication Max Position Exceeded",
            AeronErrorType::PublicationError => "Publication Error",
            AeronErrorType::TimedOut => "Timed Out",
            AeronErrorType::Unknown(_) => "Unknown Error",
        }
    }
}

/// An error reported by the Aeron C API, identified by its numeric code.
#[derive(Debug, PartialEq, Eq, Structural, Clone)]
pub struct AeronCError {
    pub code: i32,
}

impl AeronCError {
    /// Creates an error from the code returned by Aeron.
    pub fn from_code(code: i32) -> (r: AeronCError)
        ensures
            r.code == code,
    {
        AeronCError { code }
    }

    /// The kind of this error.
    pub fn kind(&self) -> (r: AeronErrorType)
        ensures
            r == spec_error_kind(self.code),
    {
        AeronErrorType::from_code(self.code)
    }

    /// Whether the error is back-pressure.
    pub fn is_back_pressured(&self) -> (r: bool)
        ensures
            r == (self.code == -2),
    {
        self.kind().is_back_pressured()
    }

    /// Whether the error is an admin action.
    pub fn is_admin_action(&self) -> (r: bool)
        ensures
            r == (self.code == -3),
    {
        self.kind().is_admin_action()
    }

    /// Whether the error is back-pressure or an admin action.
    pub fn is_back_pressured_or_admin_action(&self) -> (r: bool)
        ensures
            r == (self.code == -2 || self.code == -3),
    {
        self.kind().is_back_pressured_or_admin_action()
    }
}

impl From<AeronErrorType> for AeronCError {
    fn from(value: AeronErrorType) -> (r: AeronCError) {
        AeronCError::from_code(value.code())
    }
}

impl vstd::std_specs::convert::FromSpecImpl<AeronErrorType> for AeronCError {
    open spec fn obeys_from_spec() -> bool {
        true
    }

    open spec fn from_spec(v: AeronErrorType) -> AeronCError {
        AeronCError { code: spec_error_code(v) as i32 }
    }
}

/// Reading a code as a kind and taking the kind's code gives the code back.
pub proof fn lemma_code_of_kind_is_identity(code: i32)
    ensures
        spec_error_code(spec_error_kind(code)) == code,
{
}

/// Taking a kind's code and reading it back gives the kind, unless the kind is
/// `Unknown` with a code that a named kind already has.
pub proof fn lemma_kind_of_code_round_trip(t: AeronErrorType)
    requires
        t matches AeronErrorType::Unknown(c) ==> !is_named_code(c),
    ensures
        spec_error_kind(spec_error_code(t) as i32) == t,
{
}

/// Each named error kind stands for exactly one code, the Aeron C constant of
/// that condition: `-1` generic error, `-1000` driver timeout, `-1001` client
/// timeout, `-1002` conductor service timeout, `-1003` buffer full, `-2` to
/// `-6` the publication results (back pressured, admin action, closed, max
/// position exceeded, error), and `-234324` a timed-out operation. A code is
/// read as a kind, and a kind gives its code, accordingly; any other code is
/// read as `Unknown` of itself.
pub proof fn lemma_named_kinds_are_aeron_constants(code: i32)
    ensures
        (spec_error_kind(code) == AeronErrorType::GenericError) <==> code == -1,
        (spec_error_kind(code) == AeronErrorType::ClientErrorDriverTimeout) <==> code == -1000,
        (spec_error_kind(code) == AeronErrorType::ClientErrorClientTimeout) <==> code == -1001,
        (spec_error_kind(code) == AeronErrorType::ClientErrorConductorServiceTimeout) <==> code == -1002,
        (spec_error_kind(code) == AeronErrorType::ClientErrorBufferFull) <==> code == -1003,
        (spec_error_kind(code) == AeronErrorType::PublicationBackPressured) <==> code == -2,
        (spec_error_kind(code) == AeronErrorType::PublicationAdminAction) <==> code == -3,
        (spec_error_kind(code) == AeronErrorType::PublicationClosed) <==> code == -4,
        (spec_error_kind(code) == AeronErrorType::PublicationMaxPositionExceeded) <==> code == -5,
        (spec_error_kind(code) == AeronErrorType::PublicationError) <==> code == -6,
        spec_error_code(AeronErrorType::GenericError) == -1,
        spec_error_code(AeronErrorType::ClientErrorDriverTimeout) == -1000,
        spec_error_code(AeronErrorType::ClientErrorClientTimeout) == -1001,
        spec_error_code(AeronErrorType::ClientErrorConductorServiceTimeout) == -1002,
        spec_error_code(AeronErrorType::ClientErrorBufferFull) == -1003,
        spec_error_code(AeronErrorType::PublicationBackPressured) == -2,
        spec_error_code(AeronErrorType::PublicationAdminAction) == -3,
        spec_error_code(AeronErrorType::PublicationClosed) == -4,
        spec_error_code(AeronErrorType::PublicationMaxPositionExceeded) == -5,
        spec_error_code(AeronErrorType::PublicationError) == -6,
        (spec_error_kind(code) == AeronErrorType::TimedOut) <==> code == -234324,
        spec_error_code(AeronErrorType::TimedOut) == -234324,
        !(code == -1 || code == -2 || code == -3 || code == -4 || code == -5 || code == -6 || code == -1000
            || code == -1001 || code == -1002 || code == -1003 || code == -234324) ==> spec_error_kind(code)
            == AeronErrorType::Unknown(code),
{
}

} // verus!
