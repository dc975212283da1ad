//! Errors, the retry policy and the decisions of the resilience executor.
//!
//! The executor itself waits and sleeps; what it decides between two waits is
//! stated and proved here: whether a failed attempt is retried and after
//! which delay, and which result a primary/fallback pair yields.

use vstd::prelude::*;
use crate::text::concat_str;

verus! {

/// The longest delay between two attempts, in milliseconds.
pub const MAX_BACKOFF_MS: u64 = 30000;

/// What went wrong, without the message.
#[derive(Clone, Copy, Debug, PartialEq, Eq, Structural)]
pub enum ErrorKind {
    HomebrewNotFound,
    PackageNotFound,
    InstallationFailed,
    UninstallationFailed,
    UpdateFailed,
    NetworkError,
    CacheError,
    PermissionDenied,
    CommandExecutionFailed,
    ParsingError,
    IoError,
    SerializationError,
    TimeoutError,
    RateLimitExceeded,
    InvalidConfiguration,
    InternalError,
}

/// A failure of the data layer: a kind and a human-readable message.
#[derive(Debug)]
pub enum BrewDeckError {
    HomebrewNotFound(String),
    PackageNotFound(String),
    InstallationFailed(String),
    UninstallationFailed(String),
    UpdateFailed(String),
    NetworkError(String),
    CacheError(String),
    PermissionDenied(String),
    CommandExecutionFailed(String),
    ParsingError(String),
    IoError(String),
    SerializationError(String),
    TimeoutError(String),
    RateLimitExceeded(String),
    InvalidConfiguration(String),
    InternalError(String),
}

/// The mathematical content of a [`BrewDeckError`].
pub struct ErrorView {
    pub kind: ErrorKind,
    pub message: Seq<char>,
}

impl View for BrewDeckError {
    type V = ErrorView;

    open spec fn view(&self) -> ErrorView {
        match self {
            BrewDeckError::HomebrewNotFound(m) => ErrorView {
                kind: ErrorKind::HomebrewNotFound,
                message: m@,
            },
            BrewDeckError::PackageNotFound(m) => ErrorView {
                kind: ErrorKind::PackageNotFound,
                message: m@,
            },
            BrewDeckError::InstallationFailed(m) => ErrorView {
                kind: ErrorKind::InstallationFailed,
                message: m@,
            },
            BrewDeckError::UninstallationFailed(m) => ErrorView {
                kind: ErrorKind::UninstallationFailed,
                message: m@,
            },
            BrewDeckError::UpdateFailed(m) => ErrorView {
                kind: ErrorKind::UpdateFailed,
                message: m@,
            },
            BrewDeckError::NetworkError(m) => ErrorView {
                kind: ErrorKind::NetworkError,
                message: m@,
            },
            BrewDeckError::CacheError(m) => ErrorView { kind: ErrorKind::CacheError, message: m@ },
            BrewDeckError::PermissionDenied(m) => ErrorView {
                kind: ErrorKind::PermissionDenied,
                message: m@,
            },
            BrewDeckError::CommandExecutionFailed(m) => ErrorView {
                kind: ErrorKind::CommandExecutionFailed,
                message: m@,
            },
            BrewDeckError::ParsingError(m) => ErrorView {
                kind: ErrorKind::ParsingError,
                message: m@,
            },
            BrewDeckError::IoError(m) => ErrorView { kind: ErrorKind::IoError, message: m@ },
            BrewDeckError::SerializationError(m) => ErrorView {
                kind: ErrorKind::SerializationError,
                message: m@,
            },
            BrewDeckError::TimeoutError(m) => ErrorView {
                kind: ErrorKind::TimeoutError,
                message: m@,
            },
            BrewDeckError::RateLimitExceeded(m) => ErrorView {
                kind: ErrorKind::RateLimitExceeded,
                message: m@,
            },
            BrewDeckError::InvalidConfiguration(m) => ErrorView {
                kind: ErrorKind::InvalidConfiguration,
                message: m@,
            },
            BrewDeckError::InternalError(m) => ErrorView {
                kind: ErrorKind::InternalError,
                message: m@,
            },
        }
    }
}

/// The words that introduce the message of each kind of error.
pub open spec fn kind_prefix(kind: ErrorKind) -> Seq<char> {
    match kind {
        ErrorKind::HomebrewNotFound => "Homebrew not found: "@,
        ErrorKind::PackageNotFound => "Package not found: "@,
        ErrorKind::InstallationFailed => "Installation failed: "@,
        ErrorKind::UninstallationFailed => "Uninstallation failed: "@,
        ErrorKind::UpdateFailed => "Update failed: "@,
        ErrorKind::NetworkError => "Network error: "@,
        ErrorKind::CacheError => "Cache error: "@,
        ErrorKind::PermissionDenied => "Permission denied: "@,
        ErrorKind::CommandExecutionFailed => "Command execution failed: "@,
        ErrorKind::ParsingError => "Parsing error: "@,
        ErrorKind::IoError => "IO error: "@,
        ErrorKind::SerializationError => "Serialization error: "@,
        ErrorKind::TimeoutError => "Timeout error: "@,
        ErrorKind::RateLimitExceeded => "Rate limit exceeded: "@,
        ErrorKind::InvalidConfiguration => "Invalid configuration: "@,
        ErrorKind::InternalError => "Internal error: "@,
    }
}

/// The text shown to a user for an error.
pub open spec fn display_text(e: ErrorView) -> Seq<char> {
    kind_prefix(e.kind) + e.message
}

/// Whether a failure of this kind may pass by itself, so that trying again
/// can help: a network failure, a timeout, or a rate limit. Every other kind
/// is permanent: a missing package or tool does not appear by asking again,
/// and a tool that failed fails again.
pub open spec fn transient(kind: ErrorKind) -> bool {
    kind == ErrorKind::NetworkError || kind == ErrorKind::TimeoutError || kind
        == ErrorKind::RateLimitExceeded
}

impl ErrorKind {
    /// Whether a failure of this kind may pass by itself; see [`transient`].
    pub fn is_transient(self) -> (r: bool)
        ensures
            r == transient(self),
    {
        match self {
            ErrorKind::NetworkError => true,
            ErrorKind::TimeoutError => true,
            ErrorKind::RateLimitExceeded => true,
            _ => false,
        }
    }

    /// The words that introduce the message of this kind of error.
    pub fn prefix(self) -> (r: &'static str)
        ensures
            r@ == kind_prefix(self),
    {
        match self {
            ErrorKind::HomebrewNotFound => "Homebrew not found: ",
            ErrorKind::PackageNotFound => "Package not found: ",
            ErrorKind::InstallationFailed => "Installation failed: ",
            ErrorKind::UninstallationFailed => "Uninstallation failed: ",
            ErrorKind::UpdateFailed => "Update failed: ",
            ErrorKind::NetworkError => "Network error: ",
            ErrorKind::CacheError => "Cache error: ",
            ErrorKind::PermissionDenied => "Permission denied: ",
            ErrorKind::CommandExecutionFailed => "Command execution failed: ",
            ErrorKind::ParsingError => "Parsing error: ",
            ErrorKind::IoError => "IO error: ",
            ErrorKind::SerializationError => "Serialization error: ",
            ErrorKind::TimeoutError => "Timeout error: ",
            ErrorKind::RateLimitExceeded => "Rate limit exceeded: ",
            ErrorKind::InvalidConfiguration => "Invalid configuration: ",
            ErrorKind::InternalError => "Internal error: ",
        }
    }
}

impl BrewDeckError {
    /// An error of the given kind with the given message.
    pub fn new(kind: ErrorKind, message: String) -> (e: Self)
        ensures
            e@ == (ErrorView { kind, message: message@ }),
    {
        match kind {
            ErrorKind::HomebrewNotFound => BrewDeckError::HomebrewNotFound(message),
            ErrorKind::PackageNotFound => BrewDeckError::PackageNotFound(message),
            ErrorKind::InstallationFailed => BrewDeckError::InstallationFailed(message),
            ErrorKind::UninstallationFailed => BrewDeckError::UninstallationFailed(message),
            ErrorKind::UpdateFailed => BrewDeckError::UpdateFailed(message),
            ErrorKind::NetworkError => BrewDeckError::NetworkError(message),
            ErrorKind::CacheError => BrewDeckError::CacheError(message),
            ErrorKind::PermissionDenied => BrewDeckError::PermissionDenied(message),
            ErrorKind::CommandExecutionFailed => BrewDeckError::CommandExecutionFailed(message),
            ErrorKind::ParsingError => BrewDeckError::ParsingError(message),
            ErrorKind::IoError => BrewDeckError::IoError(message),
            ErrorKind::SerializationError => BrewDeckError::SerializationError(message),
            ErrorKind::TimeoutError => BrewDeckError::TimeoutError(message),
            ErrorKind::RateLimitExceeded => BrewDeckError::RateLimitExceeded(message),
            ErrorKind::InvalidConfiguration => BrewDeckError::InvalidConfiguration(message),
            ErrorKind::InternalError => BrewDeckError::InternalError(message),
        }
    }

    /// The kind of this error.
    pub fn kind(&self) -> (k: ErrorKind)
        ensures
            k == self@.kind,
    {
        match self {
            BrewDeckError::HomebrewNotFound(_) => ErrorKind::HomebrewNotFound,
            BrewDeckError::PackageNotFound(_) => ErrorKind::PackageNotFound,
            BrewDeckError::InstallationFailed(_) => ErrorKind::InstallationFailed,
            BrewDeckError::UninstallationFailed(_) => ErrorKind::UninstallationFailed,
            BrewDeckError::UpdateFailed(_) => ErrorKind::UpdateFailed,
            BrewDeckError::NetworkError(_) => ErrorKind::NetworkError,
            BrewDeckError::CacheError(_) => ErrorKind::CacheError,
            BrewDeckError::PermissionDenied(_) => ErrorKind::PermissionDenied,
            BrewDeckError::CommandExecutionFailed(_) => ErrorKind::CommandExecutionFailed,
            BrewDeckError::ParsingError(_) => ErrorKind::ParsingError,
            BrewDeckError::IoError(_) => ErrorKind::IoError,
            BrewDeckError::SerializationError(_) => ErrorKind::SerializationError,
            BrewDeckError::TimeoutError(_) => ErrorKind::TimeoutError,
            BrewDeckError::RateLimitExceeded(_) => ErrorKind::RateLimitExceeded,
            BrewDeckError::InvalidConfiguration(_) => ErrorKind::InvalidConfiguration,
            BrewDeckError::InternalError(_) => ErrorKind::InternalError,
        }
    }

    /// The message of this error, without the words of its kind.
    pub fn message(&self) -> (m: &str)
        ensures
            m@ == self@.message,
    {
        match self {
            BrewDeckError::HomebrewNotFound(m) => m.as_str(),
            BrewDeckError::PackageNotFound(m) => m.as_str(),
            BrewDeckError::InstallationFailed(m) => m.as_str(),
            BrewDeckError::UninstallationFailed(m) => m.as_str(),
            BrewDeckError::UpdateFailed(m) => m.as_str(),
            BrewDeckError::NetworkError(m) => m.as_str(),
            BrewDeckError::CacheError(m) => m.as_str(),
            BrewDeckError::PermissionDenied(m) => m.as_str(),
            BrewDeckError::CommandExecutionFailed(m) => m.as_str(),
            BrewDeckError::ParsingError(m) => m.as_str(),
            BrewDeckError::IoError(m) => m.as_str(),
            BrewDeckError::SerializationError(m) => m.as_str(),
            BrewDeckError::TimeoutError(m) => m.as_str(),
            BrewDeckError::RateLimitExceeded(m) => m.as_str(),
            BrewDeckError::InvalidConfiguration(m) => m.as_str(),
            BrewDeckError::InternalError(m) => m.as_str(),
        }
    }

    /// The text shown to a user: the words of the kind, then the message.
    pub fn describe(&self) -> (text: String)
        ensures
            text@ == display_text(self@),
    {
        concat_str(self.kind().prefix(), self.message())
    }

    /// The error for a failed HTTP exchange.
    ///
    /// A timeout is a `TimeoutError`; a failed connection a `NetworkError`
    /// that says so; a status error with code 429 a `RateLimitExceeded`, with
    /// another code a `NetworkError` that names the status; anything else a
    /// `NetworkError` with the transport's own text.
    pub fn from_transport(failure: &TransportFailure) -> (e: Self)
        ensures
            e@ == transport_error(failure@),
    {
        if failure.timed_out {
            BrewDeckError::TimeoutError(failure.text.clone())
        } else if failure.connect_failed {
            BrewDeckError::NetworkError(concat_str("Connection failed: ", failure.text.as_str()))
        } else if failure.bad_status {
            match failure.status_code {
                Some(code) => {
                    if code == 429 {
                        BrewDeckError::RateLimitExceeded(failure.text.clone())
                    } else {
                        let head = concat_str("HTTP ", failure.status_label.as_str());
                        let head = concat_str(head.as_str(), ": ");
                        BrewDeckError::NetworkError(concat_str(head.as_str(), failure.text.as_str()))
                    }
                },
                None => BrewDeckError::NetworkError(failure.text.clone()),
            }
        } else {
            BrewDeckError::NetworkError(failure.text.clone())
        }
    }

    /// The error for a failed operating-system call.
    pub fn from_io(kind: IoFailureKind, text: String) -> (e: Self)
        ensures
            e@.message == text@,
            e@.kind == match kind {
                IoFailureKind::NotFound => ErrorKind::HomebrewNotFound,
                IoFailureKind::PermissionDenied => ErrorKind::PermissionDenied,
                IoFailureKind::TimedOut => ErrorKind::TimeoutError,
                IoFailureKind::Other => ErrorKind::IoError,
            },
    {
        match kind {
            IoFailureKind::NotFound => BrewDeckError::HomebrewNotFound(text),
            IoFailureKind::PermissionDenied => BrewDeckError::PermissionDenied(text),
            IoFailureKind::TimedOut => BrewDeckError::TimeoutError(text),
            IoFailureKind::Other => BrewDeckError::IoError(text),
        }
    }

    /// The error for a value that could not be encoded or decoded.
    pub fn from_encoding(text: String) -> (e: Self)
        ensures
            e@ == (ErrorView { kind: ErrorKind::SerializationError, message: text@ }),
    {
        BrewDeckError::SerializationError(text)
    }
}

/// What an HTTP client reports of a failed exchange.
#[derive(Debug)]
pub struct TransportFailure {
    /// The exchange ran out of time.
    pub timed_out: bool,
    /// No connection could be made.
    pub connect_failed: bool,
    /// The server answered with an error status.
    pub bad_status: bool,
    /// The status code of the answer, if there was one.
    pub status_code: Option<u16>,
    /// The status as the client prints it, such as `404 Not Found`.
    pub status_label: String,
    /// The client's own description of the failure.
    pub text: String,
}

/// The mathematical content of a [`TransportFailure`].
pub struct TransportFailureView {
    pub timed_out: bool,
    pub connect_failed: bool,
    pub bad_status: bool,
    pub status_code: Option<u16>,
    pub status_label: Seq<char>,
    pub text: Seq<char>,
}

impl View for TransportFailure {
    type V = TransportFailureView;

    open spec fn view(&self) -> TransportFailureView {
        TransportFailureView {
            timed_out: self.timed_out,
            connect_failed: self.connect_failed,
            bad_status: self.bad_status,
            status_code: self.status_code,
            status_label: self.status_label@,
            text: self.text@,
        }
    }
}

/// The error that stands for a failed HTTP exchange.
pub open spec fn transport_error(f: TransportFailureView) -> ErrorView {
    if f.timed_out {
        ErrorView { kind: ErrorKind::TimeoutError, message: f.text }
    } else if f.connect_failed {
        ErrorView { kind: ErrorKind::NetworkError, message: "Connection failed: "@ + f.text }
    } else if f.bad_status && f.status_code == Some(429u16) {
        ErrorView { kind: ErrorKind::RateLimitExceeded, message: f.text }
    } else if f.bad_status && f.status_code is Some {
        ErrorView {
            kind: ErrorKind::NetworkError,
            message: "HTTP "@ + f.status_label + ": "@ + f.text,
        }
    } else {
        ErrorView { kind: ErrorKind::NetworkError, message: f.text }
    }
}

/// The kinds of operating-system failure that the data layer tells apart.
#[derive(Clone, Copy, Debug, PartialEq, Eq, Structural)]
pub enum IoFailureKind {
    NotFound,
    PermissionDenied,
    TimedOut,
    Other,
}

/// Two to the power of `n`.
pub open spec fn two_to(n: nat) -> nat
    decreases n,
{
    if n == 0 {
        1
    } else {
        2 * two_to((n - 1) as nat)
    }
}

/// The delay before the next attempt after `retries` retries: the base delay
/// doubled once per retry, and never more than [`MAX_BACKOFF_MS`].
pub open spec fn backoff_delay(base_ms: u64, retries: u32) -> int {
    if base_ms * two_to(retries as nat) <= MAX_BACKOFF_MS {
        base_ms * two_to(retries as nat)
    } else {
        MAX_BACKOFF_MS as int
    }
}

proof fn lemma_two_to_monotonic(a: nat, b: nat)
    requires
        a <= b,
    ensures
        1 <= two_to(a) <= two_to(b),
    decreases b,
{
    if a < b {
        lemma_two_to_monotonic(a, (b - 1) as nat);
    } else if a > 0 {
        lemma_two_to_monotonic((a - 1) as nat, (a - 1) as nat);
    }
}

/// How a failed operation is retried.
#[derive(Clone, Copy, Debug, PartialEq, Eq, Structural)]
pub struct ErrorRecovery {
    pub can_retry: bool,
    pub retry_count: u32,
    pub max_retries: u32,
    pub backoff_ms: u64,
    pub fallback_available: bool,
}

impl ErrorRecovery {
    /// Whether another attempt is allowed.
    pub open spec fn may_retry(self) -> bool {
        self.can_retry && self.retry_count < self.max_retries
    }

    /// The policy after one more failed attempt has been counted.
    pub open spec fn after_failure(self) -> ErrorRecovery {
        ErrorRecovery {
            retry_count: if self.retry_count < u32::MAX {
                (self.retry_count + 1) as u32
            } else {
                self.retry_count
            },
            ..self
        }
    }

    /// The policy after `failures` failed attempts that were each retried.
    pub open spec fn after_failures(self, failures: nat) -> ErrorRecovery
        decreases failures,
    {
        if failures == 0 {
            self
        } else {
            self.after_failures((failures - 1) as nat).after_failure()
        }
    }

    /// Three retries, one second of base delay, no fallback.
    pub fn new() -> (r: Self)
        ensures
            r == (ErrorRecovery {
                can_retry: true,
                retry_count: 0,
                max_retries: 3,
                backoff_ms: 1000,
                fallback_available: false,
            }),
    {
        ErrorRecovery {
            can_retry: true,
            retry_count: 0,
            max_retries: 3,
            backoff_ms: 1000,
            fallback_available: false,
        }
    }

    pub fn with_max_retries(self, max_retries: u32) -> (r: Self)
        ensures
            r == (ErrorRecovery { max_retries, ..self }),
    {
        ErrorRecovery { max_retries, ..self }
    }

    pub fn with_backoff(self, backoff_ms: u64) -> (r: Self)
        ensures
            r == (ErrorRecovery { backoff_ms, ..self }),
    {
        ErrorRecovery { backoff_ms, ..self }
    }

    pub fn with_fallback(self) -> (r: Self)
        ensures
            r == (ErrorRecovery { fallback_available: true, ..self }),
    {
        ErrorRecovery { fallback_available: true, ..self }
    }

    pub fn no_retry(self) -> (r: Self)
        ensures
            r == (ErrorRecovery { can_retry: false, max_retries: 0, ..self }),
            !r.may_retry(),
    {
        ErrorRecovery { can_retry: false, max_retries: 0, ..self }
    }

    /// Whether another attempt is allowed: retrying is on and fewer than
    /// `max_retries` retries were made.
    pub fn should_retry(&self) -> (r: bool)
        ensures
            r == self.may_retry(),
    {
        self.can_retry && self.retry_count < self.max_retries
    }

    /// Counts one more retry. The count stops at the largest `u32`.
    pub fn increment_retry(&mut self)
        ensures
            *final(self) == old(self).after_failure(),
    {
        if self.retry_count < u32::MAX {
            self.retry_count = self.retry_count + 1;
        }
    }

    /// The delay before the next attempt, in milliseconds.
    pub fn get_backoff_duration(&self) -> (delay_ms: u64)
        ensures
            delay_ms == backoff_delay(self.backoff_ms, self.retry_count),
            delay_ms <= MAX_BACKOFF_MS,
    {
        if self.backoff_ms == 0 {
            assert(0 * two_to(self.retry_count as nat) == 0);
            return 0;
        }
        let mut delay: u64 = self.backoff_ms;
        let mut doubled: u32 = 0;
        assert(self.backoff_ms * two_to(0) == self.backoff_ms) by {
            assert(two_to(0) == 1);
        }
        while doubled < self.retry_count && delay <= MAX_BACKOFF_MS
            invariant
                doubled <= self.retry_count,
                self.backoff_ms > 0,
                delay == self.backoff_ms * two_to(doubled as nat),
            decreases self.retry_count - doubled,
        {
            assert(self.backoff_ms * (2 * two_to(doubled as nat)) == 2 * (self.backoff_ms * two_to(
                doubled as nat,
            ))) by (nonlinear_arith);
            delay = delay * 2;
            doubled = doubled + 1;
        }
        proof {
            lemma_two_to_monotonic(doubled as nat, self.retry_count as nat);
            let small = two_to(doubled as nat) as int;
            let large = two_to(self.retry_count as nat) as int;
            let base = self.backoff_ms as int;
            assert(base * small <= base * large) by (nonlinear_arith)
                requires
                    0 < base,
                    small <= large,
            ;
        }
        if delay > MAX_BACKOFF_MS {
            MAX_BACKOFF_MS
        } else {
            delay
        }
    }
}

/// After `failures` retried failures the policy has counted them all, as long
/// as the count fits.
pub proof fn lemma_failures_are_counted(policy: ErrorRecovery, failures: nat)
    requires
        policy.retry_count + failures <= u32::MAX,
    ensures
        policy.after_failures(failures) == (ErrorRecovery {
            retry_count: (policy.retry_count + failures) as u32,
            ..policy
        }),
    decreases failures,
{
    if failures > 0 {
        lemma_failures_are_counted(policy, (failures - 1) as nat);
    }
}

/// An operation that always fails with a transient failure is attempted once
/// and then retried exactly `max_retries - retry_count` times: each of the
/// first that many failures is retried, after a delay of the base delay
/// doubled once per earlier retry and capped at [`MAX_BACKOFF_MS`], and the
/// failure after them is final.
pub proof fn lemma_always_failing_run(policy: ErrorRecovery, kind: ErrorKind, failures: nat)
    requires
        policy.can_retry,
        transient(kind),
        policy.retry_count <= policy.max_retries,
        failures <= policy.max_retries - policy.retry_count,
    ensures
        policy.after_failures(failures).may_retry() <==> failures < policy.max_retries
            - policy.retry_count,
        retry_decision(policy.after_failures(failures), kind) == (if failures < policy.max_retries
            - policy.retry_count {
            Some(backoff_delay(policy.backoff_ms, (policy.retry_count + failures) as u32))
        } else {
            None
        }),
        backoff_delay(policy.backoff_ms, (policy.retry_count + failures) as u32) <= MAX_BACKOFF_MS,
        policy.after_failures(failures).retry_count <= policy.max_retries,
{
    lemma_failures_are_counted(policy, failures);
}

/// A permanent failure is never retried, whatever the policy: the operation
/// is attempted once and the failure is final.
pub proof fn lemma_permanent_failure_is_final(policy: ErrorRecovery, kind: ErrorKind)
    requires
        !transient(kind),
    ensures
        retry_decision(policy, kind) is None,
        !transient(ErrorKind::PackageNotFound),
        !transient(ErrorKind::HomebrewNotFound),
        !transient(ErrorKind::CommandExecutionFailed),
        !transient(ErrorKind::InstallationFailed),
        !transient(ErrorKind::UninstallationFailed),
        !transient(ErrorKind::UpdateFailed),
{
}

/// What follows an attempt that failed with a failure of the given kind under
/// `policy`: the delay before the next attempt, or `None` when the failure is
/// final. A failure is retried if it is transient and the policy allows
/// another attempt.
pub open spec fn retry_decision(policy: ErrorRecovery, kind: ErrorKind) -> Option<int> {
    if policy.may_retry() && transient(kind) {
        Some(backoff_delay(policy.backoff_ms, policy.retry_count))
    } else {
        None
    }
}

/// The outcome of an operation together with the policy it ran under.
#[derive(Debug)]
pub struct BrewDeckResult<T> {
    pub result: Result<T, BrewDeckError>,
    pub recovery: Option<ErrorRecovery>,
}

impl<T> BrewDeckResult<T> {
    pub fn ok(value: T) -> (r: Self)
        ensures
            r.result == Ok::<T, BrewDeckError>(value),
            r.recovery is None,
    {
        BrewDeckResult { result: Ok(value), recovery: None }
    }

    pub fn error(error: BrewDeckError) -> (r: Self)
        ensures
            r.result == Err::<T, BrewDeckError>(error),
            r.recovery == Some(
                ErrorRecovery {
                    can_retry: true,
                    retry_count: 0,
                    max_retries: 3,
                    backoff_ms: 1000,
                    fallback_available: false,
                },
            ),
    {
        BrewDeckResult { result: Err(error), recovery: Some(ErrorRecovery::new()) }
    }

    pub fn error_with_recovery(error: BrewDeckError, recovery: ErrorRecovery) -> (r: Self)
        ensures
            r.result == Err::<T, BrewDeckError>(error),
            r.recovery == Some(recovery),
    {
        BrewDeckResult { result: Err(error), recovery: Some(recovery) }
    }
}

/// What the retry loop does after one attempt.
#[derive(Debug)]
pub enum RetryDecision<T> {
    /// The operation is over, with this result.
    Finished(Result<T, BrewDeckError>),
    /// Sleep for `delay_ms` milliseconds, then try again. `error` is the
    /// failure that is retried.
    RetryAfter { delay_ms: u64, error: BrewDeckError },
}

/// Decides what follows one attempt of an operation.
///
/// A success ends the operation. A transient failure is retried while the
/// policy allows it: the delay is computed first, then the retry is counted.
/// A permanent failure, and a transient one once the policy is exhausted, is
/// returned as it came, and the policy stays as it was.
pub fn retry_step<T>(recovery: &mut ErrorRecovery, outcome: Result<T, BrewDeckError>) -> (decision:
    RetryDecision<T>)
    ensures
        match outcome {
            Ok(value) => {
                &&& decision == RetryDecision::Finished(Ok::<T, BrewDeckError>(value))
                &&& *final(recovery) == *old(recovery)
            },
            Err(error) => if old(recovery).may_retry() && transient(error@.kind) {
                &&& decision matches RetryDecision::RetryAfter { delay_ms, error: retried }
                &&& retried == error
                &&& delay_ms == backoff_delay(old(recovery).backoff_ms, old(recovery).retry_count)
                &&& delay_ms <= MAX_BACKOFF_MS
                &&& *final(recovery) == old(recovery).after_failure()
                &&& final(recovery).retry_count == old(recovery).retry_count + 1
                &&& final(recovery).retry_count <= final(recovery).max_retries
            } else {
                &&& decision == RetryDecision::Finished(Err::<T, BrewDeckError>(error))
                &&& *final(recovery) == *old(recovery)
            },
        },
{
    match outcome {
        Ok(value) => RetryDecision::Finished(Ok(value)),
        Err(error) => {
            if !recovery.should_retry() || !error.kind().is_transient() {
                return RetryDecision::Finished(Err(error));
            }
            let delay_ms = recovery.get_backoff_duration();
            recovery.increment_retry();
            RetryDecision::RetryAfter { delay_ms, error }
        },
    }
}

/// What follows the primary operation of a primary/fallback pair.
#[derive(Debug)]
pub enum FallbackDecision<T> {
    /// The primary operation succeeded with this value.
    Finished(T),
    /// The primary operation failed with this error: run the fallback.
    TryFallback(BrewDeckError),
}

/// Decides what follows the primary operation: its value on success, the
/// fallback on failure.
pub fn after_primary<T>(primary: Result<T, BrewDeckError>) -> (decision: FallbackDecision<T>)
    ensures
        decision == match primary {
            Ok(value) => FallbackDecision::Finished(value),
            Err(error) => FallbackDecision::<T>::TryFallback(error),
        },
{
    match primary {
        Ok(value) => FallbackDecision::Finished(value),
        Err(error) => FallbackDecision::TryFallback(error),
    }
}

/// The result of a pair whose primary operation failed with `primary_error`:
/// the fallback's value if it succeeded, else the primary error. The
/// fallback's own error never reaches the caller.
pub fn after_fallback<T>(primary_error: BrewDeckError, fallback: Result<T, BrewDeckError>) -> (r:
    Result<T, BrewDeckError>)
    ensures
        r == match fallback {
            Ok(value) => Ok::<T, BrewDeckError>(value),
            Err(_) => Err::<T, BrewDeckError>(primary_error),
        },
{
    match fallback {
        Ok(value) => Ok(value),
        Err(_) => Err(primary_error),
    }
}

} // verus!
