//! The middleware's return codes as a closed set of outcomes.

use vstd::prelude::*;
use vstd::std_specs::convert::FromSpecImpl;

verus! {

/// What a native call reported.
#[derive(Debug, PartialEq, Eq, Clone, Copy, Structural)]
pub enum DDSError {
    DdsOk,
    DdsError,
    Unsupported,
    BadParameter,
    PreconditionNotMet,
    OutOfResources,
    NotEnabled,
    ImmutablePolicy,
    InconsistentPolicy,
    AlreadyDeleted,
    Timeout,
    NoData,
    IllegalOperation,
    NotAllowedBySecurity,
}

/// The most negative return code that has a meaning of its own.
pub const LAST_NAMED_CODE: i32 = -13;

/// The failures that have a return code of their own: the entry at index `i`
/// belongs to the code `-(i + 1)`.
pub open spec fn named_failures() -> Seq<DDSError> {
    seq![
        DDSError::DdsError,
        DDSError::Unsupported,
        DDSError::BadParameter,
        DDSError::PreconditionNotMet,
        DDSError::OutOfResources,
        DDSError::NotEnabled,
        DDSError::ImmutablePolicy,
        DDSError::InconsistentPolicy,
        DDSError::AlreadyDeleted,
        DDSError::Timeout,
        DDSError::NoData,
        DDSError::IllegalOperation,
        DDSError::NotAllowedBySecurity,
    ]
}

/// The outcome that a return code stands for. Zero and every count above it
/// are success; the codes from -1 down to -13 are the named failures; every
/// code below them is the unspecified error.
pub open spec fn outcome_of(code: int) -> DDSError {
    if code >= 0 {
        DDSError::DdsOk
    } else if code < LAST_NAMED_CODE {
        DDSError::DdsError
    } else {
        named_failures()[-code - 1]
    }
}

impl FromSpecImpl<i32> for DDSError {
    open spec fn obeys_from_spec() -> bool {
        true
    }

    open spec fn from_spec(entity: i32) -> DDSError {
        outcome_of(entity as int)
    }
}

impl From<i32> for DDSError {
    /// Reads a native return code. Every code has an outcome.
    fn from(entity: i32) -> (outcome: DDSError)
        ensures
            outcome == outcome_of(entity as int),
    {
        match entity {
            -1 => DDSError::DdsError,
            -2 => DDSError::Unsupported,
            -3 => DDSError::BadParameter,
            -4 => DDSError::PreconditionNotMet,
            -5 => DDSError::OutOfResources,
            -6 => DDSError::NotEnabled,
            -7 => DDSError::ImmutablePolicy,
            -8 => DDSError::InconsistentPolicy,
            -9 => DDSError::AlreadyDeleted,
            -10 => DDSError::Timeout,
            -11 => DDSError::NoData,
            -12 => DDSError::IllegalOperation,
            -13 => DDSError::NotAllowedBySecurity,
            x if x >= 0 => DDSError::DdsOk,
            _ => DDSError::DdsError,
        }
    }
}

impl DDSError {
    /// The words by which an outcome is shown to a reader.
    pub open spec fn description(self) -> Seq<char> {
        match self {
            DDSError::DdsOk => "OK"@,
            DDSError::DdsError => "Unspecified Error"@,
            DDSError::Unsupported => "Unsupported"@,
            DDSError::BadParameter => "Bad parameter"@,
            DDSError::PreconditionNotMet => "Preconditions not met"@,
            DDSError::OutOfResources => "Out of resources"@,
            DDSError::NotEnabled => "Not enabled"@,
            DDSError::ImmutablePolicy => "Immutable policy"@,
            DDSError::InconsistentPolicy => "Inconsistent polocy"@,
            DDSError::AlreadyDeleted => "Already deleted"@,
            DDSError::Timeout => "Timeout"@,
            DDSError::NoData => "No Data"@,
            DDSError::IllegalOperation => "Illegal operation"@,
            DDSError::NotAllowedBySecurity => "Not allowed by security"@,
        }
    }

    /// The outcome in words.
    pub fn to_string(&self) -> (text: String)
        ensures
            text@ == self.description(),
    {
        let words: &str = match self {
            DDSError::DdsOk => "OK",
            DDSError::DdsError => "Unspecified Error",
            DDSError::Unsupported => "Unsupported",
            DDSError::BadParameter => "Bad parameter",
            DDSError::PreconditionNotMet => "Preconditions not met",
            DDSError::OutOfResources => "Out of resources",
            DDSError::NotEnabled => "Not enabled",
            DDSError::ImmutablePolicy => "Immutable policy",
            DDSError::InconsistentPolicy => "Inconsistent polocy",
            DDSError::AlreadyDeleted => "Already deleted",
            DDSError::Timeout => "Timeout",
            DDSError::NoData => "No Data",
            DDSError::IllegalOperation => "Illegal operation",
            DDSError::NotAllowedBySecurity => "Not allowed by security",
        };
        words.to_owned()
    }

    /// Reads the return code of a call that reports a count on success:
    /// the count where the code is zero or above, the failure it names
    /// otherwise.
    pub fn check(code: i32) -> (outcome: Result<u32, DDSError>)
        ensures
            code >= 0 ==> outcome == Ok::<u32, DDSError>(code as u32),
            code < 0 ==> outcome == Err::<u32, DDSError>(outcome_of(code as int)),
    {
        if code >= 0 {
            Ok(code as u32)
        } else {
            Err(DDSError::from(code))
        }
    }

    /// A failure is never read as success: every code below zero names an
    /// outcome other than `DdsOk`, and every other code names `DdsOk`.
    pub proof fn lemma_success_iff_not_negative(code: int)
        ensures
            outcome_of(code) == DDSError::DdsOk <==> code >= 0,
    {
    }

    /// The table of return codes, entry by entry: zero and every count
    /// above it are success, each code from -1 down to -13 has its own
    /// failure, and every code below -13 is the unspecified error.
    pub proof fn lemma_code_table()
        ensures
            forall|code: int| code >= 0 ==> outcome_of(code) == DDSError::DdsOk,
            outcome_of(-1) == DDSError::DdsError,
            outcome_of(-2) == DDSError::Unsupported,
            outcome_of(-3) == DDSError::BadParameter,
            outcome_of(-4) == DDSError::PreconditionNotMet,
            outcome_of(-5) == DDSError::OutOfResources,
            outcome_of(-6) == DDSError::NotEnabled,
            outcome_of(-7) == DDSError::ImmutablePolicy,
            outcome_of(-8) == DDSError::InconsistentPolicy,
            outcome_of(-9) == DDSError::AlreadyDeleted,
            outcome_of(-10) == DDSError::Timeout,
            outcome_of(-11) == DDSError::NoData,
            outcome_of(-12) == DDSError::IllegalOperation,
            outcome_of(-13) == DDSError::NotAllowedBySecurity,
            forall|code: int| code < -13 ==> outcome_of(code) == DDSError::DdsError,
    {
    }

    /// Every outcome but success has a return code of its own between -13
    /// and -1, and two different codes in that range name two different
    /// outcomes.
    pub proof fn lemma_named_codes(outcome: DDSError)
        requires
            outcome != DDSError::DdsOk,
        ensures
            exists|code: int| -13 <= code <= -1 && #[trigger] outcome_of(code) == outcome,
            forall|a: int, b: int|
                -13 <= a <= -1 && -13 <= b <= -1 && outcome_of(a) == outcome_of(b) ==> a == b,
    {
        Self::lemma_code_table();
    }
}

} // verus!
