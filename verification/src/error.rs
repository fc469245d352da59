use vstd::prelude::*;

verus! {

/// Covers errors that can be returned by the steamworks API
///
/// Documentation is based on official documentation which doesn't
/// always explain when an error could be returned or its meaning.
#[derive(Copy, Clone, Debug, PartialEq, Eq, Structural)]
pub enum SteamError {
    /// Returned if the steamworks API fails to initialize.
    InitFailed,
    /// Returned if the steamworks API fails to perform an action
    Generic,
    /// Returned when steam fails performing a network request
    NoConnection,
    /// Return when the password or ticked used is invalid
    InvalidPassword,
    /// Returned when the user is already logged in at another location
    LoggedInElsewhere,
    /// Returned when the protocol version is incorrect
    InvalidProtocolVersion,
    /// Returned when a passed parameter is invalid
    InvalidParameter,
    /// Returned when a file is not found
    FileNotFound,
    /// Returned when the called method was busy
    ///
    /// No action was performed
    Busy,
    /// Returned when the called object was in an
    /// invalid state
    InvalidState,
    /// Returned when the name is invalid
    InvalidName,
    /// Returned when the email is invalid
    InvalidEmail,
    /// Returned when the name is not unique
    DuplicateName,
    /// Returned when access is denied
    AccessDenied,
    /// Returned when the operation timed out
    Timeout,
    /// Returned when the user is VAC2 banned
    Banned,
    /// Returned when the account is not found
    AccountNotFound,
    /// Returned when the passed steam id is invalid
    InvalidSteamID,
    /// Returned when the requested service in unavailable
    ServiceUnavailable,
    /// Returned when the user is not logged on
    NotLoggedOn,
    /// Returned when the request is pending (e.g. in progress/waiting)
    Pending,
    /// Returned when encryption or decryption fails
    EncryptionFailure,
    /// Returned when you have insufficient privilege to perform
    /// the action
    InsufficientPrivilege,
    /// Returned when you have hit the API limits
    LimitExceeded,
    /// Returned when the user's access has been revoked (e.g. revoked
    /// guess passes)
    Revoked,
    /// Returned when the user's access has expired
    Expired,
    /// Returned when the licence/guest pass has already been redeemed
    AlreadyRedeemed,
    /// Returned when the requested action is a duplicate and has
    /// already occurred.
    ///
    /// The action will be ignored
    DuplicateRequest,
    /// Returned when all the games in the guest pass are already
    /// owned by the user
    AlreadyOwned,
    /// Returned when the ip address is not found
    IPNotFound,
    /// Returned when the change failed to write to the data store
    PersistFailed,
    /// Returned when the operation failed to acquire the access lock
    LockingFailed,
    /// Undocumented
    LogonSessionReplaced,
    /// Undocumented
    ConnectFailed,
    /// Undocumented
    HandshakeFailed,
    /// Undocumented
    IOFailure,
    /// Undocumented
    RemoteDisconnect,
    /// Returned when the requested shopping cart wasn't found
    ShoppingCartNotFound,
    /// Returned when the user blocks an action
    Blocked,
    /// Returned when the target user is ignoring the sender
    Ignored,
    /// Returned when nothing matching the request is found
    NoMatch,
    /// Undocumented
    AccountDisabled,
    /// Returned when the service isn't accepting content changes at
    /// this moment
    ServiceReadOnly,
    /// Returned when the account doesn't have value so the feature
    /// isn't available
    AccountNotFeatured,
    /// Allowed to take this action but only because the requester is
    /// an admin
    AdministratorOK,
    /// Returned when there is a version mismatch in content transmitted
    /// within the steam protocol
    ContentVersion,
    /// Returned when the current CM cannot service the user's request.
    ///
    /// The user should try another.
    TryAnotherCM,
    /// Returned when the user is already logged in elsewhere and the
    /// cached credential login failed.
    PasswordRequiredToKickSession,
    /// Returned when the user is already logged in elsewhere, you
    /// must wait before trying again
    AlreadyLoggedInElsewhere,
    /// Returned when a long running operation (e.g. download) is
    /// suspended/paused.
    Suspended,
    /// Returned when an operation is cancelled
    Cancelled,
    /// Returned when an operation is cancelled due to data corruption
    DataCorruption,
    /// Returned when an operation is cancelled due to running out of disk
    /// space
    DiskFull,
    /// Returned when a remote call or an IPC call failed
    RemoteCallFailed,
    /// Returned when a password could not be verified as its unset
    /// server side
    PasswordUnset,
    /// Returned when the external account is not linked to a steam
    /// account
    ExternalAccountUnlinked,
    /// Returned when the PSN ticket is invalid
    PSNTicketInvalid,
    /// Returned when the external account is already linked to a steam
    /// account
    ExternalAccountAlreadyLinked,
    /// Returned when sync cannot resume due to a file conflict
    RemoteFileConflict,
    /// Returned when the requested new password is not legal
    IllegalPassword,
    /// Returned when the new value is the same as the previous value
    SameAsPreviousValue,
    /// Returned when the account logon is denied to 2nd factor authentication
    /// failure
    AccountLogonDenied,
    /// Returned when the requested new password is the same as the
    /// previous password
    CannotUseOldPassword,
    /// Returned when logging in is denied due to an invalid auth code
    InvalidLoginAuthCode,
    /// Returned when logging in fails due to no email being set for 2nd
    /// factor authentication
    AccountLogonDeniedNoMail,
    /// Undocumented
    HardwareNotCapableOfIPT,
    /// Undocumented
    IPTInitError,
    /// Returned when a operation fails due to parental control restrictions
    /// for a user
    ParentalControlRestricted,
    /// Returned when a facebook query returns an error
    FacebookQueryError,
    /// Returned when account login is denied due to an expired auth code
    ExpiredLoginAuthCode,
    /// Undocumented
    IPLoginRestrictionFailed,
    /// Undocumented
    AccountLockedDown,
    /// Undocumented
    AccountLogonDeniedVerifiedEmailRequired,
    /// Undocumented
    NoMatchingURL,
    /// Returned when something fails to parse/has a missing field
    BadResponse,
    /// Returned when a user cannot complete the action until they
    /// re-enter their password
    RequirePasswordReEntry,
    /// Returned when an entered value is outside the acceptable range
    ValueOutOfRange,
    /// Returned when an error happens that the steamworks API didn't
    /// expect to happen
    UnexpectedError,
    /// Returned when the requested service is disabled
    Disabled,
    /// Returned when the set of files submitted to the CEG server
    /// are not valid
    InvalidCEGSubmission,
    /// Returned when the device being used is not allowed to perform
    /// this action
    RestrictedDevice,
    /// Returned when an action is prevented due to region restrictions
    RegionLocked,
    /// Returned when an action failed due to a temporary rate limit
    RateLimitExceeded,
    /// Returned when a account needs to use a two-factor code to login
    AccountLoginDeniedNeedTwoFactor,
    /// Returned when the item attempting to be accessed has been deleted
    ItemDeleted,
    /// Returned when the account login failed and you should throttle the
    /// response to the possible attacker
    AccountLoginDeniedThrottle,
    /// Returned when the two factor code provided mismatched the expected
    /// one
    TwoFactorCodeMismatch,
    /// Returned when the two factor activation code mismatched the expected
    /// one
    TwoFactorActivationCodeMismatch,
    /// Returned when the account has been associated with multiple partners
    AccountAssociatedToMultiplePartners,
    /// Returned when the data wasn't modified
    NotModified,
    /// Returned when the account doesn't have a mobile device associated with
    /// it
    NoMobileDevice,
    /// Returned when the current time is out of range or tolerance
    TimeNotSynced,
    /// Returned when the sms code failed to validate
    SmsCodeFailed,
    /// Returned when too many accounts are accessing the requested
    /// resource
    AccountLimitExceeded,
    /// Returned when there have been too many changes to the account
    AccountActivityLimitExceeded,
    /// Returned when there have been too many changes to the phone
    PhoneActivityLimitExceeded,
    /// Returned when the refund can not be sent to the payment method
    /// and the steam wallet must be used
    RefundToWallet,
    /// Returned when steam failed to send an email
    EmailSendFailure,
    /// Returned when an action cannot be performed until the payment
    /// has settled
    NotSettled,
    /// Returned when the user needs to provide a valid captcha
    NeedCaptcha,
    /// Returned when the game server login token owned by the token's owner
    /// been banned
    GSLTDenied,
    /// Returned when the game server owner has been denied for other reasons
    /// (account lock, community ban, vac ban, missing phone)
    GSOwnerDenied,
    /// Returned when the type of item attempted to be acted on is invalid
    InvalidItemType,
    /// Returned when the IP address has been banned for taking this action
    IPBanned,
    /// Returned when the game server login token has expired
    ///
    /// It can be reset for use
    GSLTExpired,
    /// Returned when the user does not have the wallet funds to complete
    /// the action
    InsufficientFunds,
    /// Returned when there are too many of the requested action pending
    /// already
    TooManyPending,
    /// Returned when there is no site licenses found
    NoSiteLicensesFound,
    /// Returned when WG could not send a response because it exceeded the
    /// max network send size
    WGNetworkSendExceeded,
}

/// The `EResult` code that Steam reports for success.
pub const RESULT_OK: i64 = 1;

/// Returned when an integer is not the code of any `SteamError`.
#[derive(Copy, Clone, Debug, PartialEq, Eq, Structural)]
pub struct InvalidErrorCode;

/// The error that an `EResult` code stands for, if it stands for one.
pub open spec fn error_of_code(code: i64) -> Option<SteamError> {
    match code {
        2 => Some(SteamError::Generic),
        3 => Some(SteamError::NoConnection),
        5 => Some(SteamError::InvalidPassword),
        6 => Some(SteamError::LoggedInElsewhere),
        7 => Some(SteamError::InvalidProtocolVersion),
        8 => Some(SteamError::InvalidParameter),
        9 => Some(SteamError::FileNotFound),
        10 => Some(SteamError::Busy),
        11 => Some(SteamError::InvalidState),
        12 => Some(SteamError::InvalidName),
        13 => Some(SteamError::InvalidEmail),
        14 => Some(SteamError::DuplicateName),
        15 => Some(SteamError::AccessDenied),
        16 => Some(SteamError::Timeout),
        17 => Some(SteamError::Banned),
        18 => Some(SteamError::AccountNotFound),
        19 => Some(SteamError::InvalidSteamID),
        20 => Some(SteamError::ServiceUnavailable),
        21 => Some(SteamError::NotLoggedOn),
        22 => Some(SteamError::Pending),
        23 => Some(SteamError::EncryptionFailure),
        24 => Some(SteamError::InsufficientPrivilege),
        25 => Some(SteamError::LimitExceeded),
        26 => Some(SteamError::Revoked),
        27 => Some(SteamError::Expired),
        28 => Some(SteamError::AlreadyRedeemed),
        29 => Some(SteamError::DuplicateRequest),
        30 => Some(SteamError::AlreadyOwned),
        31 => Some(SteamError::IPNotFound),
        32 => Some(SteamError::PersistFailed),
        33 => Some(SteamError::LockingFailed),
        34 => Some(SteamError::LogonSessionReplaced),
        35 => Some(SteamError::ConnectFailed),
        36 => Some(SteamError::HandshakeFailed),
        37 => Some(SteamError::IOFailure),
        38 => Some(SteamError::RemoteDisconnect),
        39 => Some(SteamError::ShoppingCartNotFound),
        40 => Some(SteamError::Blocked),
        41 => Some(SteamError::Ignored),
        42 => Some(SteamError::NoMatch),
        43 => Some(SteamError::AccountDisabled),
        44 => Some(SteamError::ServiceReadOnly),
        45 => Some(SteamError::AccountNotFeatured),
        46 => Some(SteamError::AdministratorOK),
        47 => Some(SteamError::ContentVersion),
        48 => Some(SteamError::TryAnotherCM),
        49 => Some(SteamError::PasswordRequiredToKickSession),
        50 => Some(SteamError::AlreadyLoggedInElsewhere),
        51 => Some(SteamError::Suspended),
        52 => Some(SteamError::Cancelled),
        53 => Some(SteamError::DataCorruption),
        54 => Some(SteamError::DiskFull),
        55 => Some(SteamError::RemoteCallFailed),
        56 => Some(SteamError::PasswordUnset),
        57 => Some(SteamError::ExternalAccountUnlinked),
        58 => Some(SteamError::PSNTicketInvalid),
        59 => Some(SteamError::ExternalAccountAlreadyLinked),
        60 => Some(SteamError::RemoteFileConflict),
        61 => Some(SteamError::IllegalPassword),
        62 => Some(SteamError::SameAsPreviousValue),
        63 => Some(SteamError::AccountLogonDenied),
        64 => Some(SteamError::CannotUseOldPassword),
        65 => Some(SteamError::InvalidLoginAuthCode),
        66 => Some(SteamError::AccountLogonDeniedNoMail),
        67 => Some(SteamError::HardwareNotCapableOfIPT),
        68 => Some(SteamError::IPTInitError),
        69 => Some(SteamError::ParentalControlRestricted),
        70 => Some(SteamError::FacebookQueryError),
        71 => Some(SteamError::ExpiredLoginAuthCode),
        72 => Some(SteamError::IPLoginRestrictionFailed),
        73 => Some(SteamError::AccountLockedDown),
        74 => Some(SteamError::AccountLogonDeniedVerifiedEmailRequired),
        75 => Some(SteamError::NoMatchingURL),
        76 => Some(SteamError::BadResponse),
        77 => Some(SteamError::RequirePasswordReEntry),
        78 => Some(SteamError::ValueOutOfRange),
        79 => Some(SteamError::UnexpectedError),
        80 => Some(SteamError::Disabled),
        81 => Some(SteamError::InvalidCEGSubmission),
        82 => Some(SteamError::RestrictedDevice),
        83 => Some(SteamError::RegionLocked),
        84 => Some(SteamError::RateLimitExceeded),
        85 => Some(SteamError::AccountLoginDeniedNeedTwoFactor),
        86 => Some(SteamError::ItemDeleted),
        87 => Some(SteamError::AccountLoginDeniedThrottle),
        88 => Some(SteamError::TwoFactorCodeMismatch),
        89 => Some(SteamError::TwoFactorActivationCodeMismatch),
        90 => Some(SteamError::AccountAssociatedToMultiplePartners),
        91 => Some(SteamError::NotModified),
        92 => Some(SteamError::NoMobileDevice),
        93 => Some(SteamError::TimeNotSynced),
        94 => Some(SteamError::SmsCodeFailed),
        95 => Some(SteamError::AccountLimitExceeded),
        96 => Some(SteamError::AccountActivityLimitExceeded),
        97 => Some(SteamError::PhoneActivityLimitExceeded),
        98 => Some(SteamError::RefundToWallet),
        99 => Some(SteamError::EmailSendFailure),
        100 => Some(SteamError::NotSettled),
        101 => Some(SteamError::NeedCaptcha),
        102 => Some(SteamError::GSLTDenied),
        103 => Some(SteamError::GSOwnerDenied),
        104 => Some(SteamError::InvalidItemType),
        105 => Some(SteamError::IPBanned),
        106 => Some(SteamError::GSLTExpired),
        107 => Some(SteamError::InsufficientFunds),
        108 => Some(SteamError::TooManyPending),
        109 => Some(SteamError::NoSiteLicensesFound),
        110 => Some(SteamError::WGNetworkSendExceeded),
        _ => None,
    }
}

/// The `EResult` code of an error; `InitFailed` has none.
pub open spec fn code_of_error(e: SteamError) -> Option<i64> {
    match e {
        SteamError::InitFailed => None,
        SteamError::Generic => Some(2),
        SteamError::NoConnection => Some(3),
        SteamError::InvalidPassword => Some(5),
        SteamError::LoggedInElsewhere => Some(6),
        SteamError::InvalidProtocolVersion => Some(7),
        SteamError::InvalidParameter => Some(8),
        SteamError::FileNotFound => Some(9),
        SteamError::Busy => Some(10),
        SteamError::InvalidState => Some(11),
        SteamError::InvalidName => Some(12),
        SteamError::InvalidEmail => Some(13),
        SteamError::DuplicateName => Some(14),
        SteamError::AccessDenied => Some(15),
        SteamError::Timeout => Some(16),
        SteamError::Banned => Some(17),
        SteamError::AccountNotFound => Some(18),
        SteamError::InvalidSteamID => Some(19),
        SteamError::ServiceUnavailable => Some(20),
        SteamError::NotLoggedOn => Some(21),
        SteamError::Pending => Some(22),
        SteamError::EncryptionFailure => Some(23),
        SteamError::InsufficientPrivilege => Some(24),
        SteamError::LimitExceeded => Some(25),
        SteamError::Revoked => Some(26),
        SteamError::Expired => Some(27),
        SteamError::AlreadyRedeemed => Some(28),
        SteamError::DuplicateRequest => Some(29),
        SteamError::AlreadyOwned => Some(30),
        SteamError::IPNotFound => Some(31),
        SteamError::PersistFailed => Some(32),
        SteamError::LockingFailed => Some(33),
        SteamError::LogonSessionReplaced => Some(34),
        SteamError::ConnectFailed => Some(35),
        SteamError::HandshakeFailed => Some(36),
        SteamError::IOFailure => Some(37),
        SteamError::RemoteDisconnect => Some(38),
        SteamError::ShoppingCartNotFound => Some(39),
        SteamError::Blocked => Some(40),
        SteamError::Ignored => Some(41),
        SteamError::NoMatch => Some(42),
        SteamError::AccountDisabled => Some(43),
        SteamError::ServiceReadOnly => Some(44),
        SteamError::AccountNotFeatured => Some(45),
        SteamError::AdministratorOK => Some(46),
        SteamError::ContentVersion => Some(47),
        SteamError::TryAnotherCM => Some(48),
        SteamError::PasswordRequiredToKickSession => Some(49),
        SteamError::AlreadyLoggedInElsewhere => Some(50),
        SteamError::Suspended => Some(51),
        SteamError::Cancelled => Some(52),
        SteamError::DataCorruption => Some(53),
        SteamError::DiskFull => Some(54),
        SteamError::RemoteCallFailed => Some(55),
        SteamError::PasswordUnset => Some(56),
        SteamError::ExternalAccountUnlinked => Some(57),
        SteamError::PSNTicketInvalid => Some(58),
        SteamError::ExternalAccountAlreadyLinked => Some(59),
        SteamError::RemoteFileConflict => Some(60),
        SteamError::IllegalPassword => Some(61),
        SteamError::SameAsPreviousValue => Some(62),
        SteamError::AccountLogonDenied => Some(63),
        SteamError::CannotUseOldPassword => Some(64),
        SteamError::InvalidLoginAuthCode => Some(65),
        SteamError::AccountLogonDeniedNoMail => Some(66),
        SteamError::HardwareNotCapableOfIPT => Some(67),
        SteamError::IPTInitError => Some(68),
        SteamError::ParentalControlRestricted => Some(69),
        SteamError::FacebookQueryError => Some(70),
        SteamError::ExpiredLoginAuthCode => Some(71),
        SteamError::IPLoginRestrictionFailed => Some(72),
        SteamError::AccountLockedDown => Some(73),
        SteamError::AccountLogonDeniedVerifiedEmailRequired => Some(74),
        SteamError::NoMatchingURL => Some(75),
        SteamError::BadResponse => Some(76),
        SteamError::RequirePasswordReEntry => Some(77),
        SteamError::ValueOutOfRange => Some(78),
        SteamError::UnexpectedError => Some(79),
        SteamError::Disabled => Some(80),
        SteamError::InvalidCEGSubmission => Some(81),
        SteamError::RestrictedDevice => Some(82),
        SteamError::RegionLocked => Some(83),
        SteamError::RateLimitExceeded => Some(84),
        SteamError::AccountLoginDeniedNeedTwoFactor => Some(85),
        SteamError::ItemDeleted => Some(86),
        SteamError::AccountLoginDeniedThrottle => Some(87),
        SteamError::TwoFactorCodeMismatch => Some(88),
        SteamError::TwoFactorActivationCodeMismatch => Some(89),
        SteamError::AccountAssociatedToMultiplePartners => Some(90),
        SteamError::NotModified => Some(91),
        SteamError::NoMobileDevice => Some(92),
        SteamError::TimeNotSynced => Some(93),
        SteamError::SmsCodeFailed => Some(94),
        SteamError::AccountLimitExceeded => Some(95),
        SteamError::AccountActivityLimitExceeded => Some(96),
        SteamError::PhoneActivityLimitExceeded => Some(97),
        SteamError::RefundToWallet => Some(98),
        SteamError::EmailSendFailure => Some(99),
        SteamError::NotSettled => Some(100),
        SteamError::NeedCaptcha => Some(101),
        SteamError::GSLTDenied => Some(102),
        SteamError::GSOwnerDenied => Some(103),
        SteamError::InvalidItemType => Some(104),
        SteamError::IPBanned => Some(105),
        SteamError::GSLTExpired => Some(106),
        SteamError::InsufficientFunds => Some(107),
        SteamError::TooManyPending => Some(108),
        SteamError::NoSiteLicensesFound => Some(109),
        SteamError::WGNetworkSendExceeded => Some(110),
    }
}

/// The human readable message of an error.
pub open spec fn error_message(e: SteamError) -> Seq<char> {
    match e {
        SteamError::InitFailed => "failed to init the steamworks API"@,
        SteamError::Generic => "a generic failure from the steamworks API"@,
        SteamError::NoConnection => "there isn't a network connection to steam or it failed to connect"@,
        SteamError::InvalidPassword => "password or ticket is invalid"@,
        SteamError::LoggedInElsewhere => "user logged in elsewhere"@,
        SteamError::InvalidProtocolVersion => "the protocol version is incorrect"@,
        SteamError::InvalidParameter => "a parameter is invalid"@,
        SteamError::FileNotFound => "a file was not found"@,
        SteamError::Busy => "method busy"@,
        SteamError::InvalidState => "object in invalid state"@,
        SteamError::InvalidName => "name is invalid"@,
        SteamError::InvalidEmail => "email is invalid"@,
        SteamError::DuplicateName => "name is not unique"@,
        SteamError::AccessDenied => "access denied"@,
        SteamError::Timeout => "operation timed out"@,
        SteamError::Banned => "VAC2 banned"@,
        SteamError::AccountNotFound => "account not found"@,
        SteamError::InvalidSteamID => "steamID is invalid"@,
        SteamError::ServiceUnavailable => "requested service is unavailable"@,
        SteamError::NotLoggedOn => "user not logged on"@,
        SteamError::Pending => "request is pending"@,
        SteamError::EncryptionFailure => "encryption/decryption failed"@,
        SteamError::InsufficientPrivilege => "insufficient privilege"@,
        SteamError::LimitExceeded => "limit exceeded"@,
        SteamError::Revoked => "access revoked"@,
        SteamError::Expired => "access expired"@,
        SteamError::AlreadyRedeemed => "licence/guest pass already redeemed"@,
        SteamError::DuplicateRequest => "request is a duplicate"@,
        SteamError::AlreadyOwned => "all games requested already owned"@,
        SteamError::IPNotFound => "ip address not found"@,
        SteamError::PersistFailed => "failed to write change"@,
        SteamError::LockingFailed => "failed to acquire access lock"@,
        SteamError::LogonSessionReplaced => "logon session replaced"@,
        SteamError::ConnectFailed => "connect failed"@,
        SteamError::HandshakeFailed => "handshake failed"@,
        SteamError::IOFailure => "IO failure"@,
        SteamError::RemoteDisconnect => "remote disconnect"@,
        SteamError::ShoppingCartNotFound => "failed to find the requested shopping cart"@,
        SteamError::Blocked => "action blocked"@,
        SteamError::Ignored => "target is ignoring sender"@,
        SteamError::NoMatch => "no matches found"@,
        SteamError::AccountDisabled => "account disabled"@,
        SteamError::ServiceReadOnly => "service is read only"@,
        SteamError::AccountNotFeatured => "account not featured"@,
        SteamError::AdministratorOK => "administrator ok"@,
        SteamError::ContentVersion => "version mismatch with transmitted content"@,
        SteamError::TryAnotherCM => "CM cannot service user"@,
        SteamError::PasswordRequiredToKickSession => "user already logged in, cached login failed"@,
        SteamError::AlreadyLoggedInElsewhere => "user already logged in, please wait"@,
        SteamError::Suspended => "operation suspended/paused"@,
        SteamError::Cancelled => "operation cancelled"@,
        SteamError::DataCorruption => "operation cancelled due to data corruption"@,
        SteamError::DiskFull => "operation cancelled due to the disk being full"@,
        SteamError::RemoteCallFailed => "remote/IPC call failed"@,
        SteamError::PasswordUnset => "cannot verify unset password"@,
        SteamError::ExternalAccountUnlinked => "external account not linked to steam"@,
        SteamError::PSNTicketInvalid => "PSN ticket invalid"@,
        SteamError::ExternalAccountAlreadyLinked => "external account already linked"@,
        SteamError::RemoteFileConflict => "sync conflict between remote and local files"@,
        SteamError::IllegalPassword => "new password is illegal"@,
        SteamError::SameAsPreviousValue => "new value is the same as old value"@,
        SteamError::AccountLogonDenied => "2nd factor authentication failed"@,
        SteamError::CannotUseOldPassword => "cannot use old password"@,
        SteamError::InvalidLoginAuthCode => "invalid login auth code"@,
        SteamError::AccountLogonDeniedNoMail => "no email for 2nd factor authentication"@,
        SteamError::HardwareNotCapableOfIPT => "hardware not capable of IPT"@,
        SteamError::IPTInitError => "IPT init error"@,
        SteamError::ParentalControlRestricted => "restricted due to parental controls"@,
        SteamError::FacebookQueryError => "facebook query failed"@,
        SteamError::ExpiredLoginAuthCode => "login denied due to exipred auth code"@,
        SteamError::IPLoginRestrictionFailed => "IP login restriction failed"@,
        SteamError::AccountLockedDown => "account locked down"@,
        SteamError::AccountLogonDeniedVerifiedEmailRequired => "account logon denied verified email required"@,
        SteamError::NoMatchingURL => "no matching URL"@,
        SteamError::BadResponse => "bad response"@,
        SteamError::RequirePasswordReEntry => "password re-entry required"@,
        SteamError::ValueOutOfRange => "value is out of range"@,
        SteamError::UnexpectedError => "unexpected error"@,
        SteamError::Disabled => "service disabled"@,
        SteamError::InvalidCEGSubmission => "submitted files to CEG are invalid"@,
        SteamError::RestrictedDevice => "device is restricted from action"@,
        SteamError::RegionLocked => "region restrictions prevented action"@,
        SteamError::RateLimitExceeded => "temporary rate limit exceeded"@,
        SteamError::AccountLoginDeniedNeedTwoFactor => "two-factor authetication required for login"@,
        SteamError::ItemDeleted => "item deleted"@,
        SteamError::AccountLoginDeniedThrottle => "account login denied, throttled"@,
        SteamError::TwoFactorCodeMismatch => "two-factor code mismatched"@,
        SteamError::TwoFactorActivationCodeMismatch => "two-factor activation code mismatched"@,
        SteamError::AccountAssociatedToMultiplePartners => "account associated to multiple partners"@,
        SteamError::NotModified => "data not modified"@,
        SteamError::NoMobileDevice => "no mobile device associated with account"@,
        SteamError::TimeNotSynced => "time not synced correctly"@,
        SteamError::SmsCodeFailed => "sms code validation failed"@,
        SteamError::AccountLimitExceeded => "account limit exceeded for resource"@,
        SteamError::AccountActivityLimitExceeded => "account activity limit exceeded"@,
        SteamError::PhoneActivityLimitExceeded => "phone activity limited exceeded"@,
        SteamError::RefundToWallet => "must refund to wallet instead of payment method"@,
        SteamError::EmailSendFailure => "email sending failed"@,
        SteamError::NotSettled => "action cannot be performed until payment has settled"@,
        SteamError::NeedCaptcha => "valid captcha required"@,
        SteamError::GSLTDenied => "game server login token has been banned"@,
        SteamError::GSOwnerDenied => "game server owner denied"@,
        SteamError::InvalidItemType => "invalid item type"@,
        SteamError::IPBanned => "IP banned from action"@,
        SteamError::GSLTExpired => "game server login token expired"@,
        SteamError::InsufficientFunds => "insufficient wallet funds for action"@,
        SteamError::TooManyPending => "too many actions pending"@,
        SteamError::NoSiteLicensesFound => "no site licenses found"@,
        SteamError::WGNetworkSendExceeded => "WG network send size exceeded"@,
    }
}

impl SteamError {
    /// Converts an `EResult` code into the error it stands for.
    ///
    /// Fails with `InvalidErrorCode` for the success code and for every
    /// code that has no variant here.
    fn try_from_code(code: i64) -> (r: Result<SteamError, InvalidErrorCode>)
        ensures
            r == (match error_of_code(code) {
                Some(e) => Ok(e),
                None => Err(InvalidErrorCode),
            }),
    {
        let e = match code {
            2 => SteamError::Generic,
            3 => SteamError::NoConnection,
            5 => SteamError::InvalidPassword,
            6 => SteamError::LoggedInElsewhere,
            7 => SteamError::InvalidProtocolVersion,
            8 => SteamError::InvalidParameter,
            9 => SteamError::FileNotFound,
            10 => SteamError::Busy,
            11 => SteamError::InvalidState,
            12 => SteamError::InvalidName,
            13 => SteamError::InvalidEmail,
            14 => SteamError::DuplicateName,
            15 => SteamError::AccessDenied,
            16 => SteamError::Timeout,
            17 => SteamError::Banned,
            18 => SteamError::AccountNotFound,
            19 => SteamError::InvalidSteamID,
            20 => SteamError::ServiceUnavailable,
            21 => SteamError::NotLoggedOn,
            22 => SteamError::Pending,
            23 => SteamError::EncryptionFailure,
            24 => SteamError::InsufficientPrivilege,
            25 => SteamError::LimitExceeded,
            26 => SteamError::Revoked,
            27 => SteamError::Expired,
            28 => SteamError::AlreadyRedeemed,
            29 => SteamError::DuplicateRequest,
            30 => SteamError::AlreadyOwned,
            31 => SteamError::IPNotFound,
            32 => SteamError::PersistFailed,
            33 => SteamError::LockingFailed,
            34 => SteamError::LogonSessionReplaced,
            35 => SteamError::ConnectFailed,
            36 => SteamError::HandshakeFailed,
            37 => SteamError::IOFailure,
            38 => SteamError::RemoteDisconnect,
            39 => SteamError::ShoppingCartNotFound,
            40 => SteamError::Blocked,
            41 => SteamError::Ignored,
            42 => SteamError::NoMatch,
            43 => SteamError::AccountDisabled,
            44 => SteamError::ServiceReadOnly,
            45 => SteamError::AccountNotFeatured,
            46 => SteamError::AdministratorOK,
            47 => SteamError::ContentVersion,
            48 => SteamError::TryAnotherCM,
            49 => SteamError::PasswordRequiredToKickSession,
            50 => SteamError::AlreadyLoggedInElsewhere,
            51 => SteamError::Suspended,
            52 => SteamError::Cancelled,
            53 => SteamError::DataCorruption,
            54 => SteamError::DiskFull,
            55 => SteamError::RemoteCallFailed,
            56 => SteamError::PasswordUnset,
            57 => SteamError::ExternalAccountUnlinked,
            58 => SteamError::PSNTicketInvalid,
            59 => SteamError::ExternalAccountAlreadyLinked,
            60 => SteamError::RemoteFileConflict,
            61 => SteamError::IllegalPassword,
            62 => SteamError::SameAsPreviousValue,
            63 => SteamError::AccountLogonDenied,
            64 => SteamError::CannotUseOldPassword,
            65 => SteamError::InvalidLoginAuthCode,
            66 => SteamError::AccountLogonDeniedNoMail,
            67 => SteamError::HardwareNotCapableOfIPT,
            68 => SteamError::IPTInitError,
            69 => SteamError::ParentalControlRestricted,
            70 => SteamError::FacebookQueryError,
            71 => SteamError::ExpiredLoginAuthCode,
            72 => SteamError::IPLoginRestrictionFailed,
            73 => SteamError::AccountLockedDown,
            74 => SteamError::AccountLogonDeniedVerifiedEmailRequired,
            75 => SteamError::NoMatchingURL,
            76 => SteamError::BadResponse,
            77 => SteamError::RequirePasswordReEntry,
            78 => SteamError::ValueOutOfRange,
            79 => SteamError::UnexpectedError,
            80 => SteamError::Disabled,
            81 => SteamError::InvalidCEGSubmission,
            82 => SteamError::RestrictedDevice,
            83 => SteamError::RegionLocked,
            84 => SteamError::RateLimitExceeded,
            85 => SteamError::AccountLoginDeniedNeedTwoFactor,
            86 => SteamError::ItemDeleted,
            87 => SteamError::AccountLoginDeniedThrottle,
            88 => SteamError::TwoFactorCodeMismatch,
            89 => SteamError::TwoFactorActivationCodeMismatch,
            90 => SteamError::AccountAssociatedToMultiplePartners,
            91 => SteamError::NotModified,
            92 => SteamError::NoMobileDevice,
            93 => SteamError::TimeNotSynced,
            94 => SteamError::SmsCodeFailed,
            95 => SteamError::AccountLimitExceeded,
            96 => SteamError::AccountActivityLimitExceeded,
            97 => SteamError::PhoneActivityLimitExceeded,
            98 => SteamError::RefundToWallet,
            99 => SteamError::EmailSendFailure,
            100 => SteamError::NotSettled,
            101 => SteamError::NeedCaptcha,
            102 => SteamError::GSLTDenied,
            103 => SteamError::GSOwnerDenied,
            104 => SteamError::InvalidItemType,
            105 => SteamError::IPBanned,
            106 => SteamError::GSLTExpired,
            107 => SteamError::InsufficientFunds,
            108 => SteamError::TooManyPending,
            109 => SteamError::NoSiteLicensesFound,
            110 => SteamError::WGNetworkSendExceeded,
            _ => return Err(InvalidErrorCode),
        };
        Ok(e)
    }

    /// Converts the `EResult` code of a failed call into its error.
    ///
    /// The code must be an error code: not the success code, and one that
    /// has a variant here.
    pub fn from_result_code(code: i64) -> (e: SteamError)
        requires
            error_of_code(code) is Some,
        ensures
            error_of_code(code) == Some(e),
    {
        match SteamError::try_from(code) {
            Ok(e) => e,
            Err(_) => {
                assert(false);
                SteamError::Generic
            },
        }
    }

    /// The human readable description of the error.
    pub fn to_string(&self) -> (s: String)
        ensures
            s@ == error_message(*self),
    {
        let m: &str = match self {
            SteamError::InitFailed => "failed to init the steamworks API",
            SteamError::Generic => "a generic failure from the steamworks API",
            SteamError::NoConnection => "there isn't a network connection to steam or it failed to connect",
            SteamError::InvalidPassword => "password or ticket is invalid",
            SteamError::LoggedInElsewhere => "user logged in elsewhere",
            SteamError::InvalidProtocolVersion => "the protocol version is incorrect",
            SteamError::InvalidParameter => "a parameter is invalid",
            SteamError::FileNotFound => "a file was not found",
            SteamError::Busy => "method busy",
            SteamError::InvalidState => "object in invalid state",
            SteamError::InvalidName => "name is invalid",
            SteamError::InvalidEmail => "email is invalid",
            SteamError::DuplicateName => "name is not unique",
            SteamError::AccessDenied => "access denied",
            SteamError::Timeout => "operation timed out",
            SteamError::Banned => "VAC2 banned",
            SteamError::AccountNotFound => "account not found",
            SteamError::InvalidSteamID => "steamID is invalid",
            SteamError::ServiceUnavailable => "requested service is unavailable",
            SteamError::NotLoggedOn => "user not logged on",
            SteamError::Pending => "request is pending",
            SteamError::EncryptionFailure => "encryption/decryption failed",
            SteamError::InsufficientPrivilege => "insufficient privilege",
            SteamError::LimitExceeded => "limit exceeded",
            SteamError::Revoked => "access revoked",
            SteamError::Expired => "access expired",
            SteamError::AlreadyRedeemed => "licence/guest pass already redeemed",
            SteamError::DuplicateRequest => "request is a duplicate",
            SteamError::AlreadyOwned => "all games requested already owned",
            SteamError::IPNotFound => "ip address not found",
            SteamError::PersistFailed => "failed to write change",
            SteamError::LockingFailed => "failed to acquire access lock",
            SteamError::LogonSessionReplaced => "logon session replaced",
            SteamError::ConnectFailed => "connect failed",
            SteamError::HandshakeFailed => "handshake failed",
            SteamError::IOFailure => "IO failure",
            SteamError::RemoteDisconnect => "remote disconnect",
            SteamError::ShoppingCartNotFound => "failed to find the requested shopping cart",
            SteamError::Blocked => "action blocked",
            SteamError::Ignored => "target is ignoring sender",
            SteamError::NoMatch => "no matches found",
            SteamError::AccountDisabled => "account disabled",
            SteamError::ServiceReadOnly => "service is read only",
            SteamError::AccountNotFeatured => "account not featured",
            SteamError::AdministratorOK => "administrator ok",
            SteamError::ContentVersion => "version mismatch with transmitted content",
            SteamError::TryAnotherCM => "CM cannot service user",
            SteamError::PasswordRequiredToKickSession => "user already logged in, cached login failed",
            SteamError::AlreadyLoggedInElsewhere => "user already logged in, please wait",
            SteamError::Suspended => "operation suspended/paused",
            SteamError::Cancelled => "operation cancelled",
            SteamError::DataCorruption => "operation cancelled due to data corruption",
            SteamError::DiskFull => "operation cancelled due to the disk being full",
            SteamError::RemoteCallFailed => "remote/IPC call failed",
            SteamError::PasswordUnset => "cannot verify unset password",
            SteamError::ExternalAccountUnlinked => "external account not linked to steam",
            SteamError::PSNTicketInvalid => "PSN ticket invalid",
            SteamError::ExternalAccountAlreadyLinked => "external account already linked",
            SteamError::RemoteFileConflict => "sync conflict between remote and local files",
            SteamError::IllegalPassword => "new password is illegal",
            SteamError::SameAsPreviousValue => "new value is the same as old value",
            SteamError::AccountLogonDenied => "2nd factor authentication failed",
            SteamError::CannotUseOldPassword => "cannot use old password",
            SteamError::InvalidLoginAuthCode => "invalid login auth code",
            SteamError::AccountLogonDeniedNoMail => "no email for 2nd factor authentication",
            SteamError::HardwareNotCapableOfIPT => "hardware not capable of IPT",
            SteamError::IPTInitError => "IPT init error",
            SteamError::ParentalControlRestricted => "restricted due to parental controls",
            SteamError::FacebookQueryError => "facebook query failed",
            SteamError::ExpiredLoginAuthCode => "login denied due to exipred auth code",
            SteamError::IPLoginRestrictionFailed => "IP login restriction failed",
            SteamError::AccountLockedDown => "account locked down",
            SteamError::AccountLogonDeniedVerifiedEmailRequired => "account logon denied verified email required",
            SteamError::NoMatchingURL => "no matching URL",
            SteamError::BadResponse => "bad response",
            SteamError::RequirePasswordReEntry => "password re-entry required",
            SteamError::ValueOutOfRange => "value is out of range",
            SteamError::UnexpectedError => "unexpected error",
            SteamError::Disabled => "service disabled",
            SteamError::InvalidCEGSubmission => "submitted files to CEG are invalid",
            SteamError::RestrictedDevice => "device is restricted from action",
            SteamError::RegionLocked => "region restrictions prevented action",
            SteamError::RateLimitExceeded => "temporary rate limit exceeded",
            SteamError::AccountLoginDeniedNeedTwoFactor => "two-factor authetication required for login",
            SteamError::ItemDeleted => "item deleted",
            SteamError::AccountLoginDeniedThrottle => "account login denied, throttled",
            SteamError::TwoFactorCodeMismatch => "two-factor code mismatched",
            SteamError::TwoFactorActivationCodeMismatch => "two-factor activation code mismatched",
            SteamError::AccountAssociatedToMultiplePartners => "account associated to multiple partners",
            SteamError::NotModified => "data not modified",
            SteamError::NoMobileDevice => "no mobile device associated with account",
            SteamError::TimeNotSynced => "time not synced correctly",
            SteamError::SmsCodeFailed => "sms code validation failed",
            SteamError::AccountLimitExceeded => "account limit exceeded for resource",
            SteamError::AccountActivityLimitExceeded => "account activity limit exceeded",
            SteamError::PhoneActivityLimitExceeded => "phone activity limited exceeded",
            SteamError::RefundToWallet => "must refund to wallet instead of payment method",
            SteamError::EmailSendFailure => "email sending failed",
            SteamError::NotSettled => "action cannot be performed until payment has settled",
            SteamError::NeedCaptcha => "valid captcha required",
            SteamError::GSLTDenied => "game server login token has been banned",
            SteamError::GSOwnerDenied => "game server owner denied",
            SteamError::InvalidItemType => "invalid item type",
            SteamError::IPBanned => "IP banned from action",
            SteamError::GSLTExpired => "game server login token expired",
            SteamError::InsufficientFunds => "insufficient wallet funds for action",
            SteamError::TooManyPending => "too many actions pending",
            SteamError::NoSiteLicensesFound => "no site licenses found",
            SteamError::WGNetworkSendExceeded => "WG network send size exceeded",
        };
        String::from_str(m)
    }
}

impl TryFrom<i64> for SteamError {
    type Error = InvalidErrorCode;

    fn try_from(code: i64) -> (r: Result<SteamError, InvalidErrorCode>) {
        SteamError::try_from_code(code)
    }
}

impl vstd::std_specs::convert::TryFromSpecImpl<i64> for SteamError {
    open spec fn obeys_try_from_spec() -> bool {
        true
    }

    open spec fn try_from_spec(code: i64) -> Result<SteamError, InvalidErrorCode> {
        match error_of_code(code) {
            Some(e) => Ok(e),
            None => Err(InvalidErrorCode),
        }
    }
}

impl InvalidErrorCode {
    /// The human readable description of the error.
    pub fn to_string(&self) -> (s: String)
        ensures
            s@ == "error code could not be converted to rust enum"@,
    {
        String::from_str("error code could not be converted to rust enum")
    }
}

/// Turns the `EResult` code of a call into its result: `Ok` for the success
/// code, the matching error otherwise.
pub fn to_steam_result(code: i64) -> (r: Result<(), SteamError>)
    requires
        code == RESULT_OK || error_of_code(code) is Some,
    ensures
        code == RESULT_OK ==> r == Ok::<(), SteamError>(()),
        code != RESULT_OK ==> r == Err::<(), SteamError>(error_of_code(code).unwrap()),
{
    if code == RESULT_OK {
        Ok(())
    } else {
        Err(SteamError::from_result_code(code))
    }
}

/// Every error code stands for exactly one error, and that error carries
/// the code back: codes and errors other than `InitFailed` are in one-to-one
/// correspondence.
pub proof fn lemma_error_code_roundtrip(code: i64, e: SteamError)
    ensures
        error_of_code(code) == Some(e) <==> code_of_error(e) == Some(code),
{
}

/// The success code is no error, and `InitFailed` has no code.
pub proof fn lemma_success_is_no_error()
    ensures
        error_of_code(RESULT_OK) is None,
        code_of_error(SteamError::InitFailed) is None,
{
}

/// The result of a call into the Steam API.
pub type SResult<T> = Result<T, SteamError>;

/// The result of starting the Steam API.
pub type SIResult<T> = Result<T, SteamAPIInitError>;

/// Why the Steam API could not start, with the message that Steam gave.
#[derive(Debug, Clone, PartialEq, Eq)]
pub enum SteamAPIInitError {
    /// Some other failure.
    FailedGeneric(String),
    /// Steam cannot be reached; the client is probably not running.
    NoSteamClient(String),
    /// The Steam client appears to be out of date.
    VersionMismatch(String),
}

/// The `ESteamAPIInitResult` code of a successful start.
pub const INIT_OK: i32 = 0;

/// The outcome of starting the Steam API from the `ESteamAPIInitResult` code
/// and the message that Steam wrote: success for the OK code, and the
/// failure that the code names, carrying the message, otherwise.
pub fn init_result(code: i32, message: String) -> (r: SIResult<()>)
    requires
        0 <= code <= 3,
    ensures
        code == INIT_OK ==> r is Ok,
        code == 1 ==> (r matches Err(SteamAPIInitError::FailedGeneric(m)) && m@ == message@),
        code == 2 ==> (r matches Err(SteamAPIInitError::NoSteamClient(m)) && m@ == message@),
        code == 3 ==> (r matches Err(SteamAPIInitError::VersionMismatch(m)) && m@ == message@),
{
    if code == INIT_OK {
        Ok(())
    } else if code == 1 {
        Err(SteamAPIInitError::FailedGeneric(message))
    } else if code == 2 {
        Err(SteamAPIInitError::NoSteamClient(message))
    } else {
        Err(SteamAPIInitError::VersionMismatch(message))
    }
}

/// The values of `error_of_code`, as the Steamworks SDK headers fix them.
pub proof fn lemma_error_of_code_table()
    ensures
        error_of_code(2) == Some(SteamError::Generic),
        error_of_code(3) == Some(SteamError::NoConnection),
        error_of_code(5) == Some(SteamError::InvalidPassword),
        error_of_code(6) == Some(SteamError::LoggedInElsewhere),
        error_of_code(7) == Some(SteamError::InvalidProtocolVersion),
        error_of_code(8) == Some(SteamError::InvalidParameter),
        error_of_code(9) == Some(SteamError::FileNotFound),
        error_of_code(10) == Some(SteamError::Busy),
        error_of_code(11) == Some(SteamError::InvalidState),
        error_of_code(12) == Some(SteamError::InvalidName),
        error_of_code(13) == Some(SteamError::InvalidEmail),
        error_of_code(14) == Some(SteamError::DuplicateName),
        error_of_code(15) == Some(SteamError::AccessDenied),
        error_of_code(16) == Some(SteamError::Timeout),
        error_of_code(17) == Some(SteamError::Banned),
        error_of_code(18) == Some(SteamError::AccountNotFound),
        error_of_code(19) == Some(SteamError::InvalidSteamID),
        error_of_code(20) == Some(SteamError::ServiceUnavailable),
        error_of_code(21) == Some(SteamError::NotLoggedOn),
        error_of_code(22) == Some(SteamError::Pending),
        error_of_code(23) == Some(SteamError::EncryptionFailure),
        error_of_code(24) == Some(SteamError::InsufficientPrivilege),
        error_of_code(25) == Some(SteamError::LimitExceeded),
        error_of_code(26) == Some(SteamError::Revoked),
        error_of_code(27) == Some(SteamError::Expired),
        error_of_code(28) == Some(SteamError::AlreadyRedeemed),
        error_of_code(29) == Some(SteamError::DuplicateRequest),
        error_of_code(30) == Some(SteamError::AlreadyOwned),
        error_of_code(31) == Some(SteamError::IPNotFound),
        error_of_code(32) == Some(SteamError::PersistFailed),
        error_of_code(33) == Some(SteamError::LockingFailed),
        error_of_code(34) == Some(SteamError::LogonSessionReplaced),
        error_of_code(35) == Some(SteamError::ConnectFailed),
        error_of_code(36) == Some(SteamError::HandshakeFailed),
        error_of_code(37) == Some(SteamError::IOFailure),
        error_of_code(38) == Some(SteamError::RemoteDisconnect),
        error_of_code(39) == Some(SteamError::ShoppingCartNotFound),
        error_of_code(40) == Some(SteamError::Blocked),
        error_of_code(41) == Some(SteamError::Ignored),
        error_of_code(42) == Some(SteamError::NoMatch),
        error_of_code(43) == Some(SteamError::AccountDisabled),
        error_of_code(44) == Some(SteamError::ServiceReadOnly),
        error_of_code(45) == Some(SteamError::AccountNotFeatured),
        error_of_code(46) == Some(SteamError::AdministratorOK),
        error_of_code(47) == Some(SteamError::ContentVersion),
        error_of_code(48) == Some(SteamError::TryAnotherCM),
        error_of_code(49) == Some(SteamError::PasswordRequiredToKickSession),
        error_of_code(50) == Some(SteamError::AlreadyLoggedInElsewhere),
        error_of_code(51) == Some(SteamError::Suspended),
        error_of_code(52) == Some(SteamError::Cancelled),
        error_of_code(53) == Some(SteamError::DataCorruption),
        error_of_code(54) == Some(SteamError::DiskFull),
        error_of_code(55) == Some(SteamError::RemoteCallFailed),
        error_of_code(56) == Some(SteamError::PasswordUnset),
        error_of_code(57) == Some(SteamError::ExternalAccountUnlinked),
        error_of_code(58) == Some(SteamError::PSNTicketInvalid),
        error_of_code(59) == Some(SteamError::ExternalAccountAlreadyLinked),
        error_of_code(60) == Some(SteamError::RemoteFileConflict),
        error_of_code(61) == Some(SteamError::IllegalPassword),
        error_of_code(62) == Some(SteamError::SameAsPreviousValue),
        error_of_code(63) == Some(SteamError::AccountLogonDenied),
        error_of_code(64) == Some(SteamError::CannotUseOldPassword),
        error_of_code(65) == Some(SteamError::InvalidLoginAuthCode),
        error_of_code(66) == Some(SteamError::AccountLogonDeniedNoMail),
        error_of_code(67) == Some(SteamError::HardwareNotCapableOfIPT),
        error_of_code(68) == Some(SteamError::IPTInitError),
        error_of_code(69) == Some(SteamError::ParentalControlRestricted),
        error_of_code(70) == Some(SteamError::FacebookQueryError),
        error_of_code(71) == Some(SteamError::ExpiredLoginAuthCode),
        error_of_code(72) == Some(SteamError::IPLoginRestrictionFailed),
        error_of_code(73) == Some(SteamError::AccountLockedDown),
        error_of_code(74) == Some(SteamError::AccountLogonDeniedVerifiedEmailRequired),
        error_of_code(75) == Some(SteamError::NoMatchingURL),
        error_of_code(76) == Some(SteamError::BadResponse),
        error_of_code(77) == Some(SteamError::RequirePasswordReEntry),
        error_of_code(78) == Some(SteamError::ValueOutOfRange),
        error_of_code(79) == Some(SteamError::UnexpectedError),
        error_of_code(80) == Some(SteamError::Disabled),
        error_of_code(81) == Some(SteamError::InvalidCEGSubmission),
        error_of_code(82) == Some(SteamError::RestrictedDevice),
        error_of_code(83) == Some(SteamError::RegionLocked),
        error_of_code(84) == Some(SteamError::RateLimitExceeded),
        error_of_code(85) == Some(SteamError::AccountLoginDeniedNeedTwoFactor),
        error_of_code(86) == Some(SteamError::ItemDeleted),
        error_of_code(87) == Some(SteamError::AccountLoginDeniedThrottle),
        error_of_code(88) == Some(SteamError::TwoFactorCodeMismatch),
        error_of_code(89) == Some(SteamError::TwoFactorActivationCodeMismatch),
        error_of_code(90) == Some(SteamError::AccountAssociatedToMultiplePartners),
        error_of_code(91) == Some(SteamError::NotModified),
        error_of_code(92) == Some(SteamError::NoMobileDevice),
        error_of_code(93) == Some(SteamError::TimeNotSynced),
        error_of_code(94) == Some(SteamError::SmsCodeFailed),
        error_of_code(95) == Some(SteamError::AccountLimitExceeded),
        error_of_code(96) == Some(SteamError::AccountActivityLimitExceeded),
        error_of_code(97) == Some(SteamError::PhoneActivityLimitExceeded),
        error_of_code(98) == Some(SteamError::RefundToWallet),
        error_of_code(99) == Some(SteamError::EmailSendFailure),
        error_of_code(100) == Some(SteamError::NotSettled),
        error_of_code(101) == Some(SteamError::NeedCaptcha),
        error_of_code(102) == Some(SteamError::GSLTDenied),
        error_of_code(103) == Some(SteamError::GSOwnerDenied),
        error_of_code(104) == Some(SteamError::InvalidItemType),
        error_of_code(105) == Some(SteamError::IPBanned),
        error_of_code(106) == Some(SteamError::GSLTExpired),
        error_of_code(107) == Some(SteamError::InsufficientFunds),
        error_of_code(108) == Some(SteamError::TooManyPending),
        error_of_code(109) == Some(SteamError::NoSiteLicensesFound),
        error_of_code(110) == Some(SteamError::WGNetworkSendExceeded),
{
}

/// The values of `code_of_error`, as the Steamworks SDK headers fix them.
pub proof fn lemma_code_of_error_table()
    ensures
        code_of_error(SteamError::InitFailed) == None::<i64>,
        code_of_error(SteamError::Generic) == Some(2i64),
        code_of_error(SteamError::NoConnection) == Some(3i64),
        code_of_error(SteamError::InvalidPassword) == Some(5i64),
        code_of_error(SteamError::LoggedInElsewhere) == Some(6i64),
        code_of_error(SteamError::InvalidProtocolVersion) == Some(7i64),
        code_of_error(SteamError::InvalidParameter) == Some(8i64),
        code_of_error(SteamError::FileNotFound) == Some(9i64),
        code_of_error(SteamError::Busy) == Some(10i64),
        code_of_error(SteamError::InvalidState) == Some(11i64),
        code_of_error(SteamError::InvalidName) == Some(12i64),
        code_of_error(SteamError::InvalidEmail) == Some(13i64),
        code_of_error(SteamError::DuplicateName) == Some(14i64),
        code_of_error(SteamError::AccessDenied) == Some(15i64),
        code_of_error(SteamError::Timeout) == Some(16i64),
        code_of_error(SteamError::Banned) == Some(17i64),
        code_of_error(SteamError::AccountNotFound) == Some(18i64),
        code_of_error(SteamError::InvalidSteamID) == Some(19i64),
        code_of_error(SteamError::ServiceUnavailable) == Some(20i64),
        code_of_error(SteamError::NotLoggedOn) == Some(21i64),
        code_of_error(SteamError::Pending) == Some(22i64),
        code_of_error(SteamError::EncryptionFailure) == Some(23i64),
        code_of_error(SteamError::InsufficientPrivilege) == Some(24i64),
        code_of_error(SteamError::LimitExceeded) == Some(25i64),
        code_of_error(SteamError::Revoked) == Some(26i64),
        code_of_error(SteamError::Expired) == Some(27i64),
        code_of_error(SteamError::AlreadyRedeemed) == Some(28i64),
        code_of_error(SteamError::DuplicateRequest) == Some(29i64),
        code_of_error(SteamError::AlreadyOwned) == Some(30i64),
        code_of_error(SteamError::IPNotFound) == Some(31i64),
        code_of_error(SteamError::PersistFailed) == Some(32i64),
        code_of_error(SteamError::LockingFailed) == Some(33i64),
        code_of_error(SteamError::LogonSessionReplaced) == Some(34i64),
        code_of_error(SteamError::ConnectFailed) == Some(35i64),
        code_of_error(SteamError::HandshakeFailed) == Some(36i64),
        code_of_error(SteamError::IOFailure) == Some(37i64),
        code_of_error(SteamError::RemoteDisconnect) == Some(38i64),
        code_of_error(SteamError::ShoppingCartNotFound) == Some(39i64),
        code_of_error(SteamError::Blocked) == Some(40i64),
        code_of_error(SteamError::Ignored) == Some(41i64),
        code_of_error(SteamError::NoMatch) == Some(42i64),
        code_of_error(SteamError::AccountDisabled) == Some(43i64),
        code_of_error(SteamError::ServiceReadOnly) == Some(44i64),
        code_of_error(SteamError::AccountNotFeatured) == Some(45i64),
        code_of_error(SteamError::AdministratorOK) == Some(46i64),
        code_of_error(SteamError::ContentVersion) == Some(47i64),
        code_of_error(SteamError::TryAnotherCM) == Some(48i64),
        code_of_error(SteamError::PasswordRequiredToKickSession) == Some(49i64),
        code_of_error(SteamError::AlreadyLoggedInElsewhere) == Some(50i64),
        code_of_error(SteamError::Suspended) == Some(51i64),
        code_of_error(SteamError::Cancelled) == Some(52i64),
        code_of_error(SteamError::DataCorruption) == Some(53i64),
        code_of_error(SteamError::DiskFull) == Some(54i64),
        code_of_error(SteamError::RemoteCallFailed) == Some(55i64),
        code_of_error(SteamError::PasswordUnset) == Some(56i64),
        code_of_error(SteamError::ExternalAccountUnlinked) == Some(57i64),
        code_of_error(SteamError::PSNTicketInvalid) == Some(58i64),
        code_of_error(SteamError::ExternalAccountAlreadyLinked) == Some(59i64),
        code_of_error(SteamError::RemoteFileConflict) == Some(60i64),
        code_of_error(SteamError::IllegalPassword) == Some(61i64),
        code_of_error(SteamError::SameAsPreviousValue) == Some(62i64),
        code_of_error(SteamError::AccountLogonDenied) == Some(63i64),
        code_of_error(SteamError::CannotUseOldPassword) == Some(64i64),
        code_of_error(SteamError::InvalidLoginAuthCode) == Some(65i64),
        code_of_error(SteamError::AccountLogonDeniedNoMail) == Some(66i64),
        code_of_error(SteamError::HardwareNotCapableOfIPT) == Some(67i64),
        code_of_error(SteamError::IPTInitError) == Some(68i64),
        code_of_error(SteamError::ParentalControlRestricted) == Some(69i64),
        code_of_error(SteamError::FacebookQueryError) == Some(70i64),
        code_of_error(SteamError::ExpiredLoginAuthCode) == Some(71i64),
        code_of_error(SteamError::IPLoginRestrictionFailed) == Some(72i64),
        code_of_error(SteamError::AccountLockedDown) == Some(73i64),
        code_of_error(SteamError::AccountLogonDeniedVerifiedEmailRequired) == Some(74i64),
        code_of_error(SteamError::NoMatchingURL) == Some(75i64),
        code_of_error(SteamError::BadResponse) == Some(76i64),
        code_of_error(SteamError::RequirePasswordReEntry) == Some(77i64),
        code_of_error(SteamError::ValueOutOfRange) == Some(78i64),
        code_of_error(SteamError::UnexpectedError) == Some(79i64),
        code_of_error(SteamError::Disabled) == Some(80i64),
        code_of_error(SteamError::InvalidCEGSubmission) == Some(81i64),
        code_of_error(SteamError::RestrictedDevice) == Some(82i64),
        code_of_error(SteamError::RegionLocked) == Some(83i64),
        code_of_error(SteamError::RateLimitExceeded) == Some(84i64),
        code_of_error(SteamError::AccountLoginDeniedNeedTwoFactor) == Some(85i64),
        code_of_error(SteamError::ItemDeleted) == Some(86i64),
        code_of_error(SteamError::AccountLoginDeniedThrottle) == Some(87i64),
        code_of_error(SteamError::TwoFactorCodeMismatch) == Some(88i64),
        code_of_error(SteamError::TwoFactorActivationCodeMismatch) == Some(89i64),
        code_of_error(SteamError::AccountAssociatedToMultiplePartners) == Some(90i64),
        code_of_error(SteamError::NotModified) == Some(91i64),
        code_of_error(SteamError::NoMobileDevice) == Some(92i64),
        code_of_error(SteamError::TimeNotSynced) == Some(93i64),
        code_of_error(SteamError::SmsCodeFailed) == Some(94i64),
        code_of_error(SteamError::AccountLimitExceeded) == Some(95i64),
        code_of_error(SteamError::AccountActivityLimitExceeded) == Some(96i64),
        code_of_error(SteamError::PhoneActivityLimitExceeded) == Some(97i64),
        code_of_error(SteamError::RefundToWallet) == Some(98i64),
        code_of_error(SteamError::EmailSendFailure) == Some(99i64),
        code_of_error(SteamError::NotSettled) == Some(100i64),
        code_of_error(SteamError::NeedCaptcha) == Some(101i64),
        code_of_error(SteamError::GSLTDenied) == Some(102i64),
        code_of_error(SteamError::GSOwnerDenied) == Some(103i64),
        code_of_error(SteamError::InvalidItemType) == Some(104i64),
        code_of_error(SteamError::IPBanned) == Some(105i64),
        code_of_error(SteamError::GSLTExpired) == Some(106i64),
        code_of_error(SteamError::InsufficientFunds) == Some(107i64),
        code_of_error(SteamError::TooManyPending) == Some(108i64),
        code_of_error(SteamError::NoSiteLicensesFound) == Some(109i64),
        code_of_error(SteamError::WGNetworkSendExceeded) == Some(110i64),
{
}

/// The values of `error_message`, as the Steamworks SDK headers fix them.
pub proof fn lemma_error_message_table()
    ensures
        error_message(SteamError::InitFailed) == "failed to init the steamworks API"@,
        error_message(SteamError::Generic) == "a generic failure from the steamworks API"@,
        error_message(SteamError::NoConnection) == "there isn't a network connection to steam or it failed to connect"@,
        error_message(SteamError::InvalidPassword) == "password or ticket is invalid"@,
        error_message(SteamError::LoggedInElsewhere) == "user logged in elsewhere"@,
        error_message(SteamError::InvalidProtocolVersion) == "the protocol version is incorrect"@,
        error_message(SteamError::InvalidParameter) == "a parameter is invalid"@,
        error_message(SteamError::FileNotFound) == "a file was not found"@,
        error_message(SteamError::Busy) == "method busy"@,
        error_message(SteamError::InvalidState) == "object in invalid state"@,
        error_message(SteamError::InvalidName) == "name is invalid"@,
        error_message(SteamError::InvalidEmail) == "email is invalid"@,
        error_message(SteamError::DuplicateName) == "name is not unique"@,
        error_message(SteamError::AccessDenied) == "access denied"@,
        error_message(SteamError::Timeout) == "operation timed out"@,
        error_message(SteamError::Banned) == "VAC2 banned"@,
        error_message(SteamError::AccountNotFound) == "account not found"@,
        error_message(SteamError::InvalidSteamID) == "steamID is invalid"@,
        error_message(SteamError::ServiceUnavailable) == "requested service is unavailable"@,
        error_message(SteamError::NotLoggedOn) == "user not logged on"@,
        error_message(SteamError::Pending) == "request is pending"@,
        error_message(SteamError::EncryptionFailure) == "encryption/decryption failed"@,
        error_message(SteamError::InsufficientPrivilege) == "insufficient privilege"@,
        error_message(SteamError::LimitExceeded) == "limit exceeded"@,
        error_message(SteamError::Revoked) == "access revoked"@,
        error_message(SteamError::Expired) == "access expired"@,
        error_message(SteamError::AlreadyRedeemed) == "licence/guest pass already redeemed"@,
        error_message(SteamError::DuplicateRequest) == "request is a duplicate"@,
        error_message(SteamError::AlreadyOwned) == "all games requested already owned"@,
        error_message(SteamError::IPNotFound) == "ip address not found"@,
        error_message(SteamError::PersistFailed) == "failed to write change"@,
        error_message(SteamError::LockingFailed) == "failed to acquire access lock"@,
        error_message(SteamError::LogonSessionReplaced) == "logon session replaced"@,
        error_message(SteamError::ConnectFailed) == "connect failed"@,
        error_message(SteamError::HandshakeFailed) == "handshake failed"@,
        error_message(SteamError::IOFailure) == "IO failure"@,
        error_message(SteamError::RemoteDisconnect) == "remote disconnect"@,
        error_message(SteamError::ShoppingCartNotFound) == "failed to find the requested shopping cart"@,
        error_message(SteamError::Blocked) == "action blocked"@,
        error_message(SteamError::Ignored) == "target is ignoring sender"@,
        error_message(SteamError::NoMatch) == "no matches found"@,
        error_message(SteamError::AccountDisabled) == "account disabled"@,
        error_message(SteamError::ServiceReadOnly) == "service is read only"@,
        error_message(SteamError::AccountNotFeatured) == "account not featured"@,
        error_message(SteamError::AdministratorOK) == "administrator ok"@,
        error_message(SteamError::ContentVersion) == "version mismatch with transmitted content"@,
        error_message(SteamError::TryAnotherCM) == "CM cannot service user"@,
        error_message(SteamError::PasswordRequiredToKickSession) == "user already logged in, cached login failed"@,
        error_message(SteamError::AlreadyLoggedInElsewhere) == "user already logged in, please wait"@,
        error_message(SteamError::Suspended) == "operation suspended/paused"@,
        error_message(SteamError::Cancelled) == "operation cancelled"@,
        error_message(SteamError::DataCorruption) == "operation cancelled due to data corruption"@,
        error_message(SteamError::DiskFull) == "operation cancelled due to the disk being full"@,
        error_message(SteamError::RemoteCallFailed) == "remote/IPC call failed"@,
        error_message(SteamError::PasswordUnset) == "cannot verify unset password"@,
        error_message(SteamError::ExternalAccountUnlinked) == "external account not linked to steam"@,
        error_message(SteamError::PSNTicketInvalid) == "PSN ticket invalid"@,
        error_message(SteamError::ExternalAccountAlreadyLinked) == "external account already linked"@,
        error_message(SteamError::RemoteFileConflict) == "sync conflict between remote and local files"@,
        error_message(SteamError::IllegalPassword) == "new password is illegal"@,
        error_message(SteamError::SameAsPreviousValue) == "new value is the same as old value"@,
        error_message(SteamError::AccountLogonDenied) == "2nd factor authentication failed"@,
        error_message(SteamError::CannotUseOldPassword) == "cannot use old password"@,
        error_message(SteamError::InvalidLoginAuthCode) == "invalid login auth code"@,
        error_message(SteamError::AccountLogonDeniedNoMail) == "no email for 2nd factor authentication"@,
        error_message(SteamError::HardwareNotCapableOfIPT) == "hardware not capable of IPT"@,
        error_message(SteamError::IPTInitError) == "IPT init error"@,
        error_message(SteamError::ParentalControlRestricted) == "restricted due to parental controls"@,
        error_message(SteamError::FacebookQueryError) == "facebook query failed"@,
        error_message(SteamError::ExpiredLoginAuthCode) == "login denied due to exipred auth code"@,
        error_message(SteamError::IPLoginRestrictionFailed) == "IP login restriction failed"@,
        error_message(SteamError::AccountLockedDown) == "account locked down"@,
        error_message(SteamError::AccountLogonDeniedVerifiedEmailRequired) == "account logon denied verified email required"@,
        error_message(SteamError::NoMatchingURL) == "no matching URL"@,
        error_message(SteamError::BadResponse) == "bad response"@,
        error_message(SteamError::RequirePasswordReEntry) == "password re-entry required"@,
        error_message(SteamError::ValueOutOfRange) == "value is out of range"@,
        error_message(SteamError::UnexpectedError) == "unexpected error"@,
        error_message(SteamError::Disabled) == "service disabled"@,
        error_message(SteamError::InvalidCEGSubmission) == "submitted files to CEG are invalid"@,
        error_message(SteamError::RestrictedDevice) == "device is restricted from action"@,
        error_message(SteamError::RegionLocked) == "region restrictions prevented action"@,
        error_message(SteamError::RateLimitExceeded) == "temporary rate limit exceeded"@,
        error_message(SteamError::AccountLoginDeniedNeedTwoFactor) == "two-factor authetication required for login"@,
        error_message(SteamError::ItemDeleted) == "item deleted"@,
        error_message(SteamError::AccountLoginDeniedThrottle) == "account login denied, throttled"@,
        error_message(SteamError::TwoFactorCodeMismatch) == "two-factor code mismatched"@,
        error_message(SteamError::TwoFactorActivationCodeMismatch) == "two-factor activation code mismatched"@,
        error_message(SteamError::AccountAssociatedToMultiplePartners) == "account associated to multiple partners"@,
        error_message(SteamError::NotModified) == "data not modified"@,
        error_message(SteamError::NoMobileDevice) == "no mobile device associated with account"@,
        error_message(SteamError::TimeNotSynced) == "time not synced correctly"@,
        error_message(SteamError::SmsCodeFailed) == "sms code validation failed"@,
        error_message(SteamError::AccountLimitExceeded) == "account limit exceeded for resource"@,
        error_message(SteamError::AccountActivityLimitExceeded) == "account activity limit exceeded"@,
        error_message(SteamError::PhoneActivityLimitExceeded) == "phone activity limited exceeded"@,
        error_message(SteamError::RefundToWallet) == "must refund to wallet instead of payment method"@,
        error_message(SteamError::EmailSendFailure) == "email sending failed"@,
        error_message(SteamError::NotSettled) == "action cannot be performed until payment has settled"@,
        error_message(SteamError::NeedCaptcha) == "valid captcha required"@,
        error_message(SteamError::GSLTDenied) == "game server login token has been banned"@,
        error_message(SteamError::GSOwnerDenied) == "game server owner denied"@,
        error_message(SteamError::InvalidItemType) == "invalid item type"@,
        error_message(SteamError::IPBanned) == "IP banned from action"@,
        error_message(SteamError::GSLTExpired) == "game server login token expired"@,
        error_message(SteamError::InsufficientFunds) == "insufficient wallet funds for action"@,
        error_message(SteamError::TooManyPending) == "too many actions pending"@,
        error_message(SteamError::NoSiteLicensesFound) == "no site licenses found"@,
        error_message(SteamError::WGNetworkSendExceeded) == "WG network send size exceeded"@,
{
}

} // verus!
