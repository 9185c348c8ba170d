//! The errors a request can be answered with.

use vstd::prelude::*;

verus! {

/// Why a request was refused or could not be served.
#[derive(Debug, PartialEq, Eq)]
pub enum AppError {
    /// A request field is missing, malformed or out of range.
    InvalidInput,
    /// The e-mail address is malformed.
    InvalidEmail,
    /// The password is too short.
    WeakPassword,
    /// A one-time token, OAuth state or authorization code was not accepted.
    InvalidToken,
    /// The caller is not authenticated.
    Unauthorized,
    /// E-mail and password do not match an account.
    InvalidCredentials,
    /// The caller's session has expired.
    SessionExpired,
    /// The caller has not verified their e-mail address.
    EmailNotVerified,
    /// The account is not active.
    AccountSuspended,
    /// The caller's role does not allow the request.
    InsufficientRole,
    /// The caller's API key lacks a scope.
    InsufficientScope,
    /// The user is not a member of the tenant.
    NotAMember,
    /// There is no such resource.
    NotFound,
    /// Chat is switched off.
    ChatFeatureDisabled,
    /// There is no such chat session in the caller's tenant.
    ChatSessionNotFound,
    /// The chat session takes no more messages.
    ChatSessionNotActive,
    /// The e-mail address is already registered.
    EmailTaken,
    /// An administrator already exists.
    AdminBootstrapConflict,
    /// The tenant changed between the dry run and the confirmation.
    AdminForceDeleteConflict,
    /// The installation is bound to another tenant.
    GithubInstallationConflict,
    /// The installation belongs to another GitHub App; it can be installed again at `install_url`.
    InstallationForDifferentApp { install_url: String },
    /// The session has no live stream.
    SessionNotRunning,
    /// The process runs as many sessions as it may.
    SessionCapExceeded,
    /// The tenant runs as many sessions as it may.
    TenantSessionCapExceeded,
    /// Too many attempts to log in.
    RateLimited,
    /// The tenant creates sessions too fast.
    SessionRateLimitExceeded { retry_after_secs: u64 },
    /// GitHub rejected the exchange of a manifest code.
    GithubExchangeFailed,
    /// The GitHub App is not configured.
    GithubAppNotConfigured,
    /// No Kafka producer is configured.
    KafkaNotConfigured,
    /// A message could not be published.
    KafkaPublish,
    /// The agent runtime is not configured.
    RuntimeNotConfigured,
    /// A service that the request needs is not configured.
    ServiceUnavailable,
    /// A database statement failed.
    Database,
    /// Anything else.
    Internal,
}

impl AppError {
    /// The HTTP status that `self` is answered with.
    pub open spec fn spec_status(&self) -> u16 {
        match self {
            AppError::InvalidInput | AppError::InvalidEmail | AppError::WeakPassword
            | AppError::InvalidToken => 400,
            AppError::Unauthorized | AppError::InvalidCredentials | AppError::SessionExpired => 401,
            AppError::EmailNotVerified | AppError::AccountSuspended | AppError::InsufficientRole
            | AppError::InsufficientScope | AppError::NotAMember => 403,
            AppError::NotFound | AppError::ChatFeatureDisabled
            | AppError::ChatSessionNotFound => 404,
            AppError::EmailTaken | AppError::AdminBootstrapConflict
            | AppError::AdminForceDeleteConflict | AppError::GithubInstallationConflict
            | AppError::InstallationForDifferentApp { .. } | AppError::SessionNotRunning => 409,
            AppError::ChatSessionNotActive => 422,
            AppError::SessionCapExceeded | AppError::TenantSessionCapExceeded | AppError::RateLimited
            | AppError::SessionRateLimitExceeded { .. } => 429,
            AppError::GithubExchangeFailed => 502,
            AppError::GithubAppNotConfigured | AppError::KafkaNotConfigured
            | AppError::KafkaPublish | AppError::RuntimeNotConfigured
            | AppError::ServiceUnavailable => 503,
            AppError::Database | AppError::Internal => 500,
        }
    }

    /// The HTTP status that `self` is answered with.
    pub fn status(&self) -> (code: u16)
        ensures
            code == self.spec_status(),
            code == 400 <==> self is InvalidInput || self is InvalidEmail || self is WeakPassword || self is InvalidToken,
            code == 401 <==> self is Unauthorized || self is InvalidCredentials || self is SessionExpired,
            code == 403 <==> self is EmailNotVerified || self is AccountSuspended || self is InsufficientRole
                || self is InsufficientScope || self is NotAMember,
            code == 404 <==> self is NotFound || self is ChatFeatureDisabled || self is ChatSessionNotFound,
            code == 409 <==> self is EmailTaken || self is AdminBootstrapConflict || self is AdminForceDeleteConflict
                || self is GithubInstallationConflict || self is InstallationForDifferentApp || self is SessionNotRunning,
            code == 422 <==> self is ChatSessionNotActive,
            code == 429 <==> self is SessionCapExceeded || self is TenantSessionCapExceeded || self is RateLimited
                || self is SessionRateLimitExceeded,
            code == 502 <==> self is GithubExchangeFailed,
            code == 503 <==> self is GithubAppNotConfigured || self is KafkaNotConfigured || self is KafkaPublish
                || self is RuntimeNotConfigured || self is ServiceUnavailable,
            code == 500 <==> self is Database || self is Internal,
    {
        match self {
            AppError::InvalidInput | AppError::InvalidEmail | AppError::WeakPassword
            | AppError::InvalidToken => 400,
            AppError::Unauthorized | AppError::InvalidCredentials | AppError::SessionExpired => 401,
            AppError::EmailNotVerified | AppError::AccountSuspended | AppError::InsufficientRole
            | AppError::InsufficientScope | AppError::NotAMember => 403,
            AppError::NotFound | AppError::ChatFeatureDisabled
            | AppError::ChatSessionNotFound => 404,
            AppError::EmailTaken | AppError::AdminBootstrapConflict
            | AppError::AdminForceDeleteConflict | AppError::GithubInstallationConflict
            | AppError::InstallationForDifferentApp { .. } | AppError::SessionNotRunning => 409,
            AppError::ChatSessionNotActive => 422,
            AppError::SessionCapExceeded | AppError::TenantSessionCapExceeded | AppError::RateLimited
            | AppError::SessionRateLimitExceeded { .. } => 429,
            AppError::GithubExchangeFailed => 502,
            AppError::GithubAppNotConfigured | AppError::KafkaNotConfigured
            | AppError::KafkaPublish | AppError::RuntimeNotConfigured
            | AppError::ServiceUnavailable => 503,
            AppError::Database | AppError::Internal => 500,
        }
    }
}

} // verus!
