//! The result codes of native calls.
use vstd::prelude::*;

verus! {

/// The result code of a native call.
#[derive(Debug, Copy, Clone, Hash, PartialEq, Eq, Structural, PartialOrd, Ord)]
pub enum SteamResult {
    OK,
    Fail,
    NoConnection,
    InvalidPassword,
    LoggedInElsewhere,
    InvalidProtocolVer,
    InvalidParam,
    FileNotFound,
    Busy,
    InvalidState,
    InvalidName,
    InvalidEmail,
    DuplicateName,
    AccessDenied,
    Timeout,
    Banned,
    AccountNotFound,
    InvalidSteamID,
    ServiceUnavailable,
    NotLoggedOn,
    Pending,
    EncryptionFailure,
    InsufficientPrivilege,
    LimitExceeded,
    Revoked,
    Expired,
    AlreadyRedeemed,
    DuplicateRequest,
    AlreadyOwned,
    IPNotFound,
    PersistFailed,
    LockingFailed,
    LogonSessionReplaced,
    ConnectFailed,
    HandshakeFailed,
    IOFailure,
    RemoteDisconnect,
    ShoppingCartNotFound,
    Blocked,
    Ignored,
    NoMatch,
    AccountDisabled,
    ServiceReadOnly,
    AccountNotFeatured,
    AdministratorOK,
    ContentVersion,
    TryAnotherCM,
    PasswordRequiredToKickSession,
    AlreadyLoggedInElsewhere,
    Suspended,
    Cancelled,
    DataCorruption,
    DiskFull,
    RemoteCallFailed,
    PasswordUnset,
    ExternalAccountUnlinked,
    PSNTicketInvalid,
    ExternalAccountAlreadyLinked,
    RemoteFileConflict,
    IllegalPassword,
    SameAsPreviousValue,
    AccountLogonDenied,
    CannotUseOldPassword,
    InvalidLoginAuthCode,
    AccountLogonDeniedNoMail,
    HardwareNotCapableOfIPT,
    IPTInitError,
    ParentalControlRestricted,
    FacebookQueryError,
    ExpiredLoginAuthCode,
    IPLoginRestrictionFailed,
    AccountLockedDown,
    AccountLogonDeniedVerifiedEmailRequired,
    NoMatchingURL,
    BadResponse,
    RequirePasswordReEntry,
    ValueOutOfRange,
    UnexpectedError,
    Disabled,
    InvalidCEGSubmission,
    RestrictedDevice,
    RegionLocked,
    RateLimitExceeded,
    AccountLoginDeniedNeedTwoFactor,
    ItemDeleted,
    AccountLoginDeniedThrottle,
    TwoFactorCodeMismatch,
    TwoFactorActivationCodeMismatch,
    AccountAssociatedToMultiplePartners,
    NotModified,
    NoMobileDevice,
    TimeNotSynced,
    SmsCodeFailed,
    AccountLimitExceeded,
    AccountActivityLimitExceeded,
    PhoneActivityLimitExceeded,
    RefundToWallet,
    EmailSendFailure,
    NotSettled,
    NeedCaptcha,
    GSLTDenied,
    GSOwnerDenied,
    InvalidItemType,
    IPBanned,
    GSLTExpired,
    InsufficientFunds,
    TooManyPending,
    NoSiteLicensesFound,
    WGNetworkSendExceeded,
    AccountNotFriends,
    LimitedUserAccount,
    CantRemoveItem,
}

impl SteamResult {
    /// The native code of this result.
    pub open spec fn code(self) -> i32 {
        match self {
            SteamResult::OK => 1,
            SteamResult::Fail => 2,
            SteamResult::NoConnection => 3,
            SteamResult::InvalidPassword => 5,
            SteamResult::LoggedInElsewhere => 6,
            SteamResult::InvalidProtocolVer => 7,
            SteamResult::InvalidParam => 8,
            SteamResult::FileNotFound => 9,
            SteamResult::Busy => 10,
            SteamResult::InvalidState => 11,
            SteamResult::InvalidName => 12,
            SteamResult::InvalidEmail => 13,
            SteamResult::DuplicateName => 14,
            SteamResult::AccessDenied => 15,
            SteamResult::Timeout => 16,
            SteamResult::Banned => 17,
            SteamResult::AccountNotFound => 18,
            SteamResult::InvalidSteamID => 19,
            SteamResult::ServiceUnavailable => 20,
            SteamResult::NotLoggedOn => 21,
            SteamResult::Pending => 22,
            SteamResult::EncryptionFailure => 23,
            SteamResult::InsufficientPrivilege => 24,
            SteamResult::LimitExceeded => 25,
            SteamResult::Revoked => 26,
            SteamResult::Expired => 27,
            SteamResult::AlreadyRedeemed => 28,
            SteamResult::DuplicateRequest => 29,
            SteamResult::AlreadyOwned => 30,
            SteamResult::IPNotFound => 31,
            SteamResult::PersistFailed => 32,
            SteamResult::LockingFailed => 33,
            SteamResult::LogonSessionReplaced => 34,
            SteamResult::ConnectFailed => 35,
            SteamResult::HandshakeFailed => 36,
            SteamResult::IOFailure => 37,
            SteamResult::RemoteDisconnect => 38,
            SteamResult::ShoppingCartNotFound => 39,
            SteamResult::Blocked => 40,
            SteamResult::Ignored => 41,
            SteamResult::NoMatch => 42,
            SteamResult::AccountDisabled => 43,
            SteamResult::ServiceReadOnly => 44,
            SteamResult::AccountNotFeatured => 45,
            SteamResult::AdministratorOK => 46,
            SteamResult::ContentVersion => 47,
            SteamResult::TryAnotherCM => 48,
            SteamResult::PasswordRequiredToKickSession => 49,
            SteamResult::AlreadyLoggedInElsewhere => 50,
            SteamResult::Suspended => 51,
            SteamResult::Cancelled => 52,
            SteamResult::DataCorruption => 53,
            SteamResult::DiskFull => 54,
            SteamResult::RemoteCallFailed => 55,
            SteamResult::PasswordUnset => 56,
            SteamResult::ExternalAccountUnlinked => 57,
            SteamResult::PSNTicketInvalid => 58,
            SteamResult::ExternalAccountAlreadyLinked => 59,
            SteamResult::RemoteFileConflict => 60,
            SteamResult::IllegalPassword => 61,
            SteamResult::SameAsPreviousValue => 62,
            SteamResult::AccountLogonDenied => 63,
            SteamResult::CannotUseOldPassword => 64,
            SteamResult::InvalidLoginAuthCode => 65,
            SteamResult::AccountLogonDeniedNoMail => 66,
            SteamResult::HardwareNotCapableOfIPT => 67,
            SteamResult::IPTInitError => 68,
            SteamResult::ParentalControlRestricted => 69,
            SteamResult::FacebookQueryError => 70,
            SteamResult::ExpiredLoginAuthCode => 71,
            SteamResult::IPLoginRestrictionFailed => 72,
            SteamResult::AccountLockedDown => 73,
            SteamResult::AccountLogonDeniedVerifiedEmailRequired => 74,
            SteamResult::NoMatchingURL => 75,
            SteamResult::BadResponse => 76,
            SteamResult::RequirePasswordReEntry => 77,
            SteamResult::ValueOutOfRange => 78,
            SteamResult::UnexpectedError => 79,
            SteamResult::Disabled => 80,
            SteamResult::InvalidCEGSubmission => 81,
            SteamResult::RestrictedDevice => 82,
            SteamResult::RegionLocked => 83,
            SteamResult::RateLimitExceeded => 84,
            SteamResult::AccountLoginDeniedNeedTwoFactor => 85,
            SteamResult::ItemDeleted => 86,
            SteamResult::AccountLoginDeniedThrottle => 87,
            SteamResult::TwoFactorCodeMismatch => 88,
            SteamResult::TwoFactorActivationCodeMismatch => 89,
            SteamResult::AccountAssociatedToMultiplePartners => 90,
            SteamResult::NotModified => 91,
            SteamResult::NoMobileDevice => 92,
            SteamResult::TimeNotSynced => 93,
            SteamResult::SmsCodeFailed => 94,
            SteamResult::AccountLimitExceeded => 95,
            SteamResult::AccountActivityLimitExceeded => 96,
            SteamResult::PhoneActivityLimitExceeded => 97,
            SteamResult::RefundToWallet => 98,
            SteamResult::EmailSendFailure => 99,
            SteamResult::NotSettled => 100,
            SteamResult::NeedCaptcha => 101,
            SteamResult::GSLTDenied => 102,
            SteamResult::GSOwnerDenied => 103,
            SteamResult::InvalidItemType => 104,
            SteamResult::IPBanned => 105,
            SteamResult::GSLTExpired => 106,
            SteamResult::InsufficientFunds => 107,
            SteamResult::TooManyPending => 108,
            SteamResult::NoSiteLicensesFound => 109,
            SteamResult::WGNetworkSendExceeded => 110,
            SteamResult::AccountNotFriends => 111,
            SteamResult::LimitedUserAccount => 112,
            SteamResult::CantRemoveItem => 113,
        }
    }

    /// Whether `code` is the native code of some result.
    pub open spec fn is_known_code(code: i32) -> bool {
        1 <= code <= 113 && code != 4
    }

    /// The result whose native code is `code`, if any.
    pub fn from_code(code: i32) -> (r: Option<SteamResult>)
        ensures
            r is Some <==> Self::is_known_code(code),
            r matches Some(x) ==> x.code() == code,
    {
        match code {
            1 => Some(SteamResult::OK),
            2 => Some(SteamResult::Fail),
            3 => Some(SteamResult::NoConnection),
            5 => Some(SteamResult::InvalidPassword),
            6 => Some(SteamResult::LoggedInElsewhere),
            7 => Some(SteamResult::InvalidProtocolVer),
            8 => Some(SteamResult::InvalidParam),
            9 => Some(SteamResult::FileNotFound),
            10 => Some(SteamResult::Busy),
            11 => Some(SteamResult::InvalidState),
            12 => Some(SteamResult::InvalidName),
            13 => Some(SteamResult::InvalidEmail),
            14 => Some(SteamResult::DuplicateName),
            15 => Some(SteamResult::AccessDenied),
            16 => Some(SteamResult::Timeout),
            17 => Some(SteamResult::Banned),
            18 => Some(SteamResult::AccountNotFound),
            19 => Some(SteamResult::InvalidSteamID),
            20 => Some(SteamResult::ServiceUnavailable),
            21 => Some(SteamResult::NotLoggedOn),
            22 => Some(SteamResult::Pending),
            23 => Some(SteamResult::EncryptionFailure),
            24 => Some(SteamResult::InsufficientPrivilege),
            25 => Some(SteamResult::LimitExceeded),
            26 => Some(SteamResult::Revoked),
            27 => Some(SteamResult::Expired),
            28 => Some(SteamResult::AlreadyRedeemed),
            29 => Some(SteamResult::DuplicateRequest),
            30 => Some(SteamResult::AlreadyOwned),
            31 => Some(SteamResult::IPNotFound),
            32 => Some(SteamResult::PersistFailed),
            33 => Some(SteamResult::LockingFailed),
            34 => Some(SteamResult::LogonSessionReplaced),
            35 => Some(SteamResult::ConnectFailed),
            36 => Some(SteamResult::HandshakeFailed),
            37 => Some(SteamResult::IOFailure),
            38 => Some(SteamResult::RemoteDisconnect),
            39 => Some(SteamResult::ShoppingCartNotFound),
            40 => Some(SteamResult::Blocked),
            41 => Some(SteamResult::Ignored),
            42 => Some(SteamResult::NoMatch),
            43 => Some(SteamResult::AccountDisabled),
            44 => Some(SteamResult::ServiceReadOnly),
            45 => Some(SteamResult::AccountNotFeatured),
            46 => Some(SteamResult::AdministratorOK),
            47 => Some(SteamResult::ContentVersion),
            48 => Some(SteamResult::TryAnotherCM),
            49 => Some(SteamResult::PasswordRequiredToKickSession),
            50 => Some(SteamResult::AlreadyLoggedInElsewhere),
            51 => Some(SteamResult::Suspended),
            52 => Some(SteamResult::Cancelled),
            53 => Some(SteamResult::DataCorruption),
            54 => Some(SteamResult::DiskFull),
            55 => Some(SteamResult::RemoteCallFailed),
            56 => Some(SteamResult::PasswordUnset),
            57 => Some(SteamResult::ExternalAccountUnlinked),
            58 => Some(SteamResult::PSNTicketInvalid),
            59 => Some(SteamResult::ExternalAccountAlreadyLinked),
            60 => Some(SteamResult::RemoteFileConflict),
            61 => Some(SteamResult::IllegalPassword),
            62 => Some(SteamResult::SameAsPreviousValue),
            63 => Some(SteamResult::AccountLogonDenied),
            64 => Some(SteamResult::CannotUseOldPassword),
            65 => Some(SteamResult::InvalidLoginAuthCode),
            66 => Some(SteamResult::AccountLogonDeniedNoMail),
            67 => Some(SteamResult::HardwareNotCapableOfIPT),
            68 => Some(SteamResult::IPTInitError),
            69 => Some(SteamResult::ParentalControlRestricted),
            70 => Some(SteamResult::FacebookQueryError),
            71 => Some(SteamResult::ExpiredLoginAuthCode),
            72 => Some(SteamResult::IPLoginRestrictionFailed),
            73 => Some(SteamResult::AccountLockedDown),
            74 => Some(SteamResult::AccountLogonDeniedVerifiedEmailRequired),
            75 => Some(SteamResult::NoMatchingURL),
            76 => Some(SteamResult::BadResponse),
            77 => Some(SteamResult::RequirePasswordReEntry),
            78 => Some(SteamResult::ValueOutOfRange),
            79 => Some(SteamResult::UnexpectedError),
            80 => Some(SteamResult::Disabled),
            81 => Some(SteamResult::InvalidCEGSubmission),
            82 => Some(SteamResult::RestrictedDevice),
            83 => Some(SteamResult::RegionLocked),
            84 => Some(SteamResult::RateLimitExceeded),
            85 => Some(SteamResult::AccountLoginDeniedNeedTwoFactor),
            86 => Some(SteamResult::ItemDeleted),
            87 => Some(SteamResult::AccountLoginDeniedThrottle),
            88 => Some(SteamResult::TwoFactorCodeMismatch),
            89 => Some(SteamResult::TwoFactorActivationCodeMismatch),
            90 => Some(SteamResult::AccountAssociatedToMultiplePartners),
            91 => Some(SteamResult::NotModified),
            92 => Some(SteamResult::NoMobileDevice),
            93 => Some(SteamResult::TimeNotSynced),
            94 => Some(SteamResult::SmsCodeFailed),
            95 => Some(SteamResult::AccountLimitExceeded),
            96 => Some(SteamResult::AccountActivityLimitExceeded),
            97 => Some(SteamResult::PhoneActivityLimitExceeded),
            98 => Some(SteamResult::RefundToWallet),
            99 => Some(SteamResult::EmailSendFailure),
            100 => Some(SteamResult::NotSettled),
            101 => Some(SteamResult::NeedCaptcha),
            102 => Some(SteamResult::GSLTDenied),
            103 => Some(SteamResult::GSOwnerDenied),
            104 => Some(SteamResult::InvalidItemType),
            105 => Some(SteamResult::IPBanned),
            106 => Some(SteamResult::GSLTExpired),
            107 => Some(SteamResult::InsufficientFunds),
            108 => Some(SteamResult::TooManyPending),
            109 => Some(SteamResult::NoSiteLicensesFound),
            110 => Some(SteamResult::WGNetworkSendExceeded),
            111 => Some(SteamResult::AccountNotFriends),
            112 => Some(SteamResult::LimitedUserAccount),
            113 => Some(SteamResult::CantRemoveItem),
            _ => None,
        }
    }

    /// The native code of this result.
    pub fn to_code(self) -> (r: i32)
        ensures
            r == self.code(),
    {
        match self {
            SteamResult::OK => 1,
            SteamResult::Fail => 2,
            SteamResult::NoConnection => 3,
            SteamResult::InvalidPassword => 5,
            SteamResult::LoggedInElsewhere => 6,
            SteamResult::InvalidProtocolVer => 7,
            SteamResult::InvalidParam => 8,
            SteamResult::FileNotFound => 9,
            SteamResult::Busy => 10,
            SteamResult::InvalidState => 11,
            SteamResult::InvalidName => 12,
            SteamResult::InvalidEmail => 13,
            SteamResult::DuplicateName => 14,
            SteamResult::AccessDenied => 15,
            SteamResult::Timeout => 16,
            SteamResult::Banned => 17,
            SteamResult::AccountNotFound => 18,
            SteamResult::InvalidSteamID => 19,
            SteamResult::ServiceUnavailable => 20,
            SteamResult::NotLoggedOn => 21,
            SteamResult::Pending => 22,
            SteamResult::EncryptionFailure => 23,
            SteamResult::InsufficientPrivilege => 24,
            SteamResult::LimitExceeded => 25,
            SteamResult::Revoked => 26,
            SteamResult::Expired => 27,
            SteamResult::AlreadyRedeemed => 28,
            SteamResult::DuplicateRequest => 29,
            SteamResult::AlreadyOwned => 30,
            SteamResult::IPNotFound => 31,
            SteamResult::PersistFailed => 32,
            SteamResult::LockingFailed => 33,
            SteamResult::LogonSessionReplaced => 34,
            SteamResult::ConnectFailed => 35,
            SteamResult::HandshakeFailed => 36,
            SteamResult::IOFailure => 37,
            SteamResult::RemoteDisconnect => 38,
            SteamResult::ShoppingCartNotFound => 39,
            SteamResult::Blocked => 40,
            SteamResult::Ignored => 41,
            SteamResult::NoMatch => 42,
            SteamResult::AccountDisabled => 43,
            SteamResult::ServiceReadOnly => 44,
            SteamResult::AccountNotFeatured => 45,
            SteamResult::AdministratorOK => 46,
            SteamResult::ContentVersion => 47,
            SteamResult::TryAnotherCM => 48,
            SteamResult::PasswordRequiredToKickSession => 49,
            SteamResult::AlreadyLoggedInElsewhere => 50,
            SteamResult::Suspended => 51,
            SteamResult::Cancelled => 52,
            SteamResult::DataCorruption => 53,
            SteamResult::DiskFull => 54,
            SteamResult::RemoteCallFailed => 55,
            SteamResult::PasswordUnset => 56,
            SteamResult::ExternalAccountUnlinked => 57,
            SteamResult::PSNTicketInvalid => 58,
            SteamResult::ExternalAccountAlreadyLinked => 59,
            SteamResult::RemoteFileConflict => 60,
            SteamResult::IllegalPassword => 61,
            SteamResult::SameAsPreviousValue => 62,
            SteamResult::AccountLogonDenied => 63,
            SteamResult::CannotUseOldPassword => 64,
            SteamResult::InvalidLoginAuthCode => 65,
            SteamResult::AccountLogonDeniedNoMail => 66,
            SteamResult::HardwareNotCapableOfIPT => 67,
            SteamResult::IPTInitError => 68,
            SteamResult::ParentalControlRestricted => 69,
            SteamResult::FacebookQueryError => 70,
            SteamResult::ExpiredLoginAuthCode => 71,
            SteamResult::IPLoginRestrictionFailed => 72,
            SteamResult::AccountLockedDown => 73,
            SteamResult::AccountLogonDeniedVerifiedEmailRequired => 74,
            SteamResult::NoMatchingURL => 75,
            SteamResult::BadResponse => 76,
            SteamResult::RequirePasswordReEntry => 77,
            SteamResult::ValueOutOfRange => 78,
            SteamResult::UnexpectedError => 79,
            SteamResult::Disabled => 80,
            SteamResult::InvalidCEGSubmission => 81,
            SteamResult::RestrictedDevice => 82,
            SteamResult::RegionLocked => 83,
            SteamResult::RateLimitExceeded => 84,
            SteamResult::AccountLoginDeniedNeedTwoFactor => 85,
            SteamResult::ItemDeleted => 86,
            SteamResult::AccountLoginDeniedThrottle => 87,
            SteamResult::TwoFactorCodeMismatch => 88,
            SteamResult::TwoFactorActivationCodeMismatch => 89,
            SteamResult::AccountAssociatedToMultiplePartners => 90,
            SteamResult::NotModified => 91,
            SteamResult::NoMobileDevice => 92,
            SteamResult::TimeNotSynced => 93,
            SteamResult::SmsCodeFailed => 94,
            SteamResult::AccountLimitExceeded => 95,
            SteamResult::AccountActivityLimitExceeded => 96,
            SteamResult::PhoneActivityLimitExceeded => 97,
            SteamResult::RefundToWallet => 98,
            SteamResult::EmailSendFailure => 99,
            SteamResult::NotSettled => 100,
            SteamResult::NeedCaptcha => 101,
            SteamResult::GSLTDenied => 102,
            SteamResult::GSOwnerDenied => 103,
            SteamResult::InvalidItemType => 104,
            SteamResult::IPBanned => 105,
            SteamResult::GSLTExpired => 106,
            SteamResult::InsufficientFunds => 107,
            SteamResult::TooManyPending => 108,
            SteamResult::NoSiteLicensesFound => 109,
            SteamResult::WGNetworkSendExceeded => 110,
            SteamResult::AccountNotFriends => 111,
            SteamResult::LimitedUserAccount => 112,
            SteamResult::CantRemoveItem => 113,
        }
    }

    /// What the result means, in words.
    pub open spec fn text(self) -> &'static str {
        match self {
            SteamResult::OK => "Success.",
            SteamResult::Fail => "Generic failure.",
            SteamResult::NoConnection => "Your Steam client doesn't have a connection to the back-end.",
            SteamResult::InvalidPassword => "Password/ticket is invalid.",
            SteamResult::LoggedInElsewhere => "The user is logged in elsewhere.",
            SteamResult::InvalidProtocolVer => "Protocol version is incorrect.",
            SteamResult::InvalidParam => "A parameter is incorrect.",
            SteamResult::FileNotFound => "File was not found.",
            SteamResult::Busy => "Called method is busy - action not taken.",
            SteamResult::InvalidState => "Called object was in an invalid state.",
            SteamResult::InvalidName => "The name was invalid.",
            SteamResult::InvalidEmail => "The email was invalid.",
            SteamResult::DuplicateName => "The name is not unique.",
            SteamResult::AccessDenied => "Access is denied.",
            SteamResult::Timeout => "Operation timed out.",
            SteamResult::Banned => "The user is VAC2 banned.",
            SteamResult::AccountNotFound => "Account not found.",
            SteamResult::InvalidSteamID => "The Steam ID was invalid.",
            SteamResult::ServiceUnavailable => "The requested service is currently unavailable.",
            SteamResult::NotLoggedOn => "The user is not logged on.",
            SteamResult::Pending => "Request is pending, it may be in process or waiting on third party.",
            SteamResult::EncryptionFailure => "Encryption or Decryption failed.",
            SteamResult::InsufficientPrivilege => "Insufficient privilege.",
            SteamResult::LimitExceeded => "Too much of a good thing.",
            SteamResult::Revoked => "Access has been revoked (used for revoked guest passes.)",
            SteamResult::Expired => "License/Guest pass the user is trying to access is expired.",
            SteamResult::AlreadyRedeemed => "Guest pass has already been redeemed by account, cannot be used again.",
            SteamResult::DuplicateRequest => "The request is a duplicate and the action has already occurred in the past, ignored this time.",
            SteamResult::AlreadyOwned => "All the games in this guest pass redemption request are already owned by the user.",
            SteamResult::IPNotFound => "IP address not found.",
            SteamResult::PersistFailed => "Failed to write change to the data store.",
            SteamResult::LockingFailed => "Failed to acquire access lock for this operation.",
            SteamResult::LogonSessionReplaced => "The logon session has been replaced.",
            SteamResult::ConnectFailed => "Failed to connect.",
            SteamResult::HandshakeFailed => "The authentication handshake has failed.",
            SteamResult::IOFailure => "There has been a generic IO failure.",
            SteamResult::RemoteDisconnect => "The remote server has disconnected.",
            SteamResult::ShoppingCartNotFound => "Failed to find the shopping cart requested.",
            SteamResult::Blocked => "A user blocked the action.",
            SteamResult::Ignored => "The target is ignoring sender.",
            SteamResult::NoMatch => "Nothing matching the request found.",
            SteamResult::AccountDisabled => "The account is disabled.",
            SteamResult::ServiceReadOnly => "This service is not accepting content changes right now.",
            SteamResult::AccountNotFeatured => "Account doesn't have value, so this feature isn't available.",
            SteamResult::AdministratorOK => "Allowed to take this action, but only because requester is admin.",
            SteamResult::ContentVersion => "A Version mismatch in content transmitted within the Steam protocol.",
            SteamResult::TryAnotherCM => "The current CM can't service the user making a request, user should try another.",
            SteamResult::PasswordRequiredToKickSession => "You are already logged in elsewhere, this cached credential login has failed.",
            SteamResult::AlreadyLoggedInElsewhere => "The user is logged in elsewhere. (Use k_EResultLoggedInElsewhere instead!)",
            SteamResult::Suspended => "Long running operation has suspended/paused. (eg. content download.)",
            SteamResult::Cancelled => "Operation has been canceled, typically by user. (eg. a content download.)",
            SteamResult::DataCorruption => "Operation canceled because data is ill formed or unrecoverable.",
            SteamResult::DiskFull => "Operation canceled - not enough disk space.",
            SteamResult::RemoteCallFailed => "The remote or IPC call has failed.",
            SteamResult::PasswordUnset => "Password could not be verified as it's unset server side.",
            SteamResult::ExternalAccountUnlinked => "External account (PSN, Facebook...) is not linked to a Steam account.",
            SteamResult::PSNTicketInvalid => "PSN ticket was invalid.",
            SteamResult::ExternalAccountAlreadyLinked => "External account (PSN, Facebook...) is already linked to some other account, must explicitly request to replace/delete the link first.",
            SteamResult::RemoteFileConflict => "The sync cannot resume due to a conflict between the local and remote files.",
            SteamResult::IllegalPassword => "The requested new password is not allowed.",
            SteamResult::SameAsPreviousValue => "New value is the same as the old one. This is used for secret question and answer.",
            SteamResult::AccountLogonDenied => "Account login denied due to 2nd factor authentication failure.",
            SteamResult::CannotUseOldPassword => "The requested new password is not legal.",
            SteamResult::InvalidLoginAuthCode => "Account login denied due to auth code invalid.",
            SteamResult::AccountLogonDeniedNoMail => "Account login denied due to 2nd factor auth failure - and no mail has been sent.",
            SteamResult::HardwareNotCapableOfIPT => "The users hardware does not support Intel's Identity Protection Technology (IPT).",
            SteamResult::IPTInitError => "Intel's Identity Protection Technology (IPT) has failed to initialize.",
            SteamResult::ParentalControlRestricted => "Operation failed due to parental control restrictions for current user.",
            SteamResult::FacebookQueryError => "Facebook query returned an error.",
            SteamResult::ExpiredLoginAuthCode => "Account login denied due to an expired auth code.",
            SteamResult::IPLoginRestrictionFailed => "The login failed due to an IP restriction.",
            SteamResult::AccountLockedDown => "The current users account is currently locked for use. This is likely due to a hijacking and pending ownership verification.",
            SteamResult::AccountLogonDeniedVerifiedEmailRequired => "The logon failed because the accounts email is not verified.",
            SteamResult::NoMatchingURL => "There is no URL matching the provided values.",
            SteamResult::BadResponse => "Bad Response due to a Parse failure, missing field, etc.",
            SteamResult::RequirePasswordReEntry => "The user cannot complete the action until they re-enter their password.",
            SteamResult::ValueOutOfRange => "The value entered is outside the acceptable range.",
            SteamResult::UnexpectedError => "Something happened that we didn't expect to ever happen.",
            SteamResult::Disabled => "The requested service has been configured to be unavailable.",
            SteamResult::InvalidCEGSubmission => "The files submitted to the CEG server are not valid.",
            SteamResult::RestrictedDevice => "The device being used is not allowed to perform this action.",
            SteamResult::RegionLocked => "The action could not be complete because it is region restricted.",
            SteamResult::RateLimitExceeded => "Temporary rate limit exceeded, try again later, different from k_EResultLimitExceeded which may be permanent.",
            SteamResult::AccountLoginDeniedNeedTwoFactor => "Need two-factor code to login.",
            SteamResult::ItemDeleted => "The thing we're trying to access has been deleted.",
            SteamResult::AccountLoginDeniedThrottle => "Login attempt failed, try to throttle response to possible attacker.",
            SteamResult::TwoFactorCodeMismatch => "Two factor authentication (Steam Guard) code is incorrect.",
            SteamResult::TwoFactorActivationCodeMismatch => "The activation code for two-factor authentication (Steam Guard) didn't match.",
            SteamResult::AccountAssociatedToMultiplePartners => "The current account has been associated with multiple partners.",
            SteamResult::NotModified => "The data has not been modified.",
            SteamResult::NoMobileDevice => "The account does not have a mobile device associated with it.",
            SteamResult::TimeNotSynced => "The time presented is out of range or tolerance.",
            SteamResult::SmsCodeFailed => "SMS code failure - no match, none pending, etc.",
            SteamResult::AccountLimitExceeded => "Too many accounts access this resource.",
            SteamResult::AccountActivityLimitExceeded => "Too many changes to this account.",
            SteamResult::PhoneActivityLimitExceeded => "Too many changes to this phone.",
            SteamResult::RefundToWallet => "Cannot refund to payment method, must use wallet.",
            SteamResult::EmailSendFailure => "Cannot send an email.",
            SteamResult::NotSettled => "Can't perform operation until payment has settled.",
            SteamResult::NeedCaptcha => "The user needs to provide a valid captcha.",
            SteamResult::GSLTDenied => "A game server login token owned by this token's owner has been banned.",
            SteamResult::GSOwnerDenied => "Game server owner is denied for some other reason such as account locked, community ban, vac ban, missing phone, etc.",
            SteamResult::InvalidItemType => "The type of thing we were requested to act on is invalid.",
            SteamResult::IPBanned => "The IP address has been banned from taking this action.",
            SteamResult::GSLTExpired => "This Game Server Login Token (GSLT) has expired from disuse; it can be reset for use.",
            SteamResult::InsufficientFunds => "user doesn't have enough wallet funds to complete the action",
            SteamResult::TooManyPending => "There are too many of this thing pending already",
            SteamResult::NoSiteLicensesFound => "No site licenses found",
            SteamResult::WGNetworkSendExceeded => "the WG couldn't send a response because we exceeded max network send size",
            SteamResult::AccountNotFriends => "the user is not mutually friends",
            SteamResult::LimitedUserAccount => "the user is limited",
            SteamResult::CantRemoveItem => "item can't be removed",
        }
    }

    /// What the result means, in words.
    pub fn message(&self) -> (r: &'static str)
        ensures
            r == self.text(),
    {
        match self {
            SteamResult::OK => "Success.",
            SteamResult::Fail => "Generic failure.",
            SteamResult::NoConnection => "Your Steam client doesn't have a connection to the back-end.",
            SteamResult::InvalidPassword => "Password/ticket is invalid.",
            SteamResult::LoggedInElsewhere => "The user is logged in elsewhere.",
            SteamResult::InvalidProtocolVer => "Protocol version is incorrect.",
            SteamResult::InvalidParam => "A parameter is incorrect.",
            SteamResult::FileNotFound => "File was not found.",
            SteamResult::Busy => "Called method is busy - action not taken.",
            SteamResult::InvalidState => "Called object was in an invalid state.",
            SteamResult::InvalidName => "The name was invalid.",
            SteamResult::InvalidEmail => "The email was invalid.",
            SteamResult::DuplicateName => "The name is not unique.",
            SteamResult::AccessDenied => "Access is denied.",
            SteamResult::Timeout => "Operation timed out.",
            SteamResult::Banned => "The user is VAC2 banned.",
            SteamResult::AccountNotFound => "Account not found.",
            SteamResult::InvalidSteamID => "The Steam ID was invalid.",
            SteamResult::ServiceUnavailable => "The requested service is currently unavailable.",
            SteamResult::NotLoggedOn => "The user is not logged on.",
            SteamResult::Pending => "Request is pending, it may be in process or waiting on third party.",
            SteamResult::EncryptionFailure => "Encryption or Decryption failed.",
            SteamResult::InsufficientPrivilege => "Insufficient privilege.",
            SteamResult::LimitExceeded => "Too much of a good thing.",
            SteamResult::Revoked => "Access has been revoked (used for revoked guest passes.)",
            SteamResult::Expired => "License/Guest pass the user is trying to access is expired.",
            SteamResult::AlreadyRedeemed => "Guest pass has already been redeemed by account, cannot be used again.",
            SteamResult::DuplicateRequest => "The request is a duplicate and the action has already occurred in the past, ignored this time.",
            SteamResult::AlreadyOwned => "All the games in this guest pass redemption request are already owned by the user.",
            SteamResult::IPNotFound => "IP address not found.",
            SteamResult::PersistFailed => "Failed to write change to the data store.",
            SteamResult::LockingFailed => "Failed to acquire access lock for this operation.",
            SteamResult::LogonSessionReplaced => "The logon session has been replaced.",
            SteamResult::ConnectFailed => "Failed to connect.",
            SteamResult::HandshakeFailed => "The authentication handshake has failed.",
            SteamResult::IOFailure => "There has been a generic IO failure.",
            SteamResult::RemoteDisconnect => "The remote server has disconnected.",
            SteamResult::ShoppingCartNotFound => "Failed to find the shopping cart requested.",
            SteamResult::Blocked => "A user blocked the action.",
            SteamResult::Ignored => "The target is ignoring sender.",
            SteamResult::NoMatch => "Nothing matching the request found.",
            SteamResult::AccountDisabled => "The account is disabled.",
            SteamResult::ServiceReadOnly => "This service is not accepting content changes right now.",
            SteamResult::AccountNotFeatured => "Account doesn't have value, so this feature isn't available.",
            SteamResult::AdministratorOK => "Allowed to take this action, but only because requester is admin.",
            SteamResult::ContentVersion => "A Version mismatch in content transmitted within the Steam protocol.",
            SteamResult::TryAnotherCM => "The current CM can't service the user making a request, user should try another.",
            SteamResult::PasswordRequiredToKickSession => "You are already logged in elsewhere, this cached credential login has failed.",
            SteamResult::AlreadyLoggedInElsewhere => "The user is logged in elsewhere. (Use k_EResultLoggedInElsewhere instead!)",
            SteamResult::Suspended => "Long running operation has suspended/paused. (eg. content download.)",
            SteamResult::Cancelled => "Operation has been canceled, typically by user. (eg. a content download.)",
            SteamResult::DataCorruption => "Operation canceled because data is ill formed or unrecoverable.",
            SteamResult::DiskFull => "Operation canceled - not enough disk space.",
            SteamResult::RemoteCallFailed => "The remote or IPC call has failed.",
            SteamResult::PasswordUnset => "Password could not be verified as it's unset server side.",
            SteamResult::ExternalAccountUnlinked => "External account (PSN, Facebook...) is not linked to a Steam account.",
            SteamResult::PSNTicketInvalid => "PSN ticket was invalid.",
            SteamResult::ExternalAccountAlreadyLinked => "External account (PSN, Facebook...) is already linked to some other account, must explicitly request to replace/delete the link first.",
            SteamResult::RemoteFileConflict => "The sync cannot resume due to a conflict between the local and remote files.",
            SteamResult::IllegalPassword => "The requested new password is not allowed.",
            SteamResult::SameAsPreviousValue => "New value is the same as the old one. This is used for secret question and answer.",
            SteamResult::AccountLogonDenied => "Account login denied due to 2nd factor authentication failure.",
            SteamResult::CannotUseOldPassword => "The requested new password is not legal.",
            SteamResult::InvalidLoginAuthCode => "Account login denied due to auth code invalid.",
            SteamResult::AccountLogonDeniedNoMail => "Account login denied due to 2nd factor auth failure - and no mail has been sent.",
            SteamResult::HardwareNotCapableOfIPT => "The users hardware does not support Intel's Identity Protection Technology (IPT).",
            SteamResult::IPTInitError => "Intel's Identity Protection Technology (IPT) has failed to initialize.",
            SteamResult::ParentalControlRestricted => "Operation failed due to parental control restrictions for current user.",
            SteamResult::FacebookQueryError => "Facebook query returned an error.",
            SteamResult::ExpiredLoginAuthCode => "Account login denied due to an expired auth code.",
            SteamResult::IPLoginRestrictionFailed => "The login failed due to an IP restriction.",
            SteamResult::AccountLockedDown => "The current users account is currently locked for use. This is likely due to a hijacking and pending ownership verification.",
            SteamResult::AccountLogonDeniedVerifiedEmailRequired => "The logon failed because the accounts email is not verified.",
            SteamResult::NoMatchingURL => "There is no URL matching the provided values.",
            SteamResult::BadResponse => "Bad Response due to a Parse failure, missing field, etc.",
            SteamResult::RequirePasswordReEntry => "The user cannot complete the action until they re-enter their password.",
            SteamResult::ValueOutOfRange => "The value entered is outside the acceptable range.",
            SteamResult::UnexpectedError => "Something happened that we didn't expect to ever happen.",
            SteamResult::Disabled => "The requested service has been configured to be unavailable.",
            SteamResult::InvalidCEGSubmission => "The files submitted to the CEG server are not valid.",
            SteamResult::RestrictedDevice => "The device being used is not allowed to perform this action.",
            SteamResult::RegionLocked => "The action could not be complete because it is region restricted.",
            SteamResult::RateLimitExceeded => "Temporary rate limit exceeded, try again later, different from k_EResultLimitExceeded which may be permanent.",
            SteamResult::AccountLoginDeniedNeedTwoFactor => "Need two-factor code to login.",
            SteamResult::ItemDeleted => "The thing we're trying to access has been deleted.",
            SteamResult::AccountLoginDeniedThrottle => "Login attempt failed, try to throttle response to possible attacker.",
            SteamResult::TwoFactorCodeMismatch => "Two factor authentication (Steam Guard) code is incorrect.",
            SteamResult::TwoFactorActivationCodeMismatch => "The activation code for two-factor authentication (Steam Guard) didn't match.",
            SteamResult::AccountAssociatedToMultiplePartners => "The current account has been associated with multiple partners.",
            SteamResult::NotModified => "The data has not been modified.",
            SteamResult::NoMobileDevice => "The account does not have a mobile device associated with it.",
            SteamResult::TimeNotSynced => "The time presented is out of range or tolerance.",
            SteamResult::SmsCodeFailed => "SMS code failure - no match, none pending, etc.",
            SteamResult::AccountLimitExceeded => "Too many accounts access this resource.",
            SteamResult::AccountActivityLimitExceeded => "Too many changes to this account.",
            SteamResult::PhoneActivityLimitExceeded => "Too many changes to this phone.",
            SteamResult::RefundToWallet => "Cannot refund to payment method, must use wallet.",
            SteamResult::EmailSendFailure => "Cannot send an email.",
            SteamResult::NotSettled => "Can't perform operation until payment has settled.",
            SteamResult::NeedCaptcha => "The user needs to provide a valid captcha.",
            SteamResult::GSLTDenied => "A game server login token owned by this token's owner has been banned.",
            SteamResult::GSOwnerDenied => "Game server owner is denied for some other reason such as account locked, community ban, vac ban, missing phone, etc.",
            SteamResult::InvalidItemType => "The type of thing we were requested to act on is invalid.",
            SteamResult::IPBanned => "The IP address has been banned from taking this action.",
            SteamResult::GSLTExpired => "This Game Server Login Token (GSLT) has expired from disuse; it can be reset for use.",
            SteamResult::InsufficientFunds => "user doesn't have enough wallet funds to complete the action",
            SteamResult::TooManyPending => "There are too many of this thing pending already",
            SteamResult::NoSiteLicensesFound => "No site licenses found",
            SteamResult::WGNetworkSendExceeded => "the WG couldn't send a response because we exceeded max network send size",
            SteamResult::AccountNotFriends => "the user is not mutually friends",
            SteamResult::LimitedUserAccount => "the user is limited",
            SteamResult::CantRemoveItem => "item can't be removed",
        }
    }
}

} // verus!
