//! The error codes of the signalling service: shared codes and the
//! codes of this module, each `88` followed by a four-digit number
//! (success is `0`).
use vstd::prelude::*;

use super::v1::Status;

verus! {

/// The code of this module, the leading digits of its error codes.
pub const MODULE_CODE: i32 = 88;

#[derive(Debug, PartialEq, Eq, Clone, Copy, Structural)]
pub enum ErrorCode {
    Success,
    SystemBusy,
    InternalError,
    ServerConnectionFailed,
    IllegalOperationRequest,
    UnknownService,
    InvalidResponseData,
    SystemProcessing,
    DataReceived,
    FileNotFound,
    FileReadError,
    FileWriteError,
    OperationRestricted,
    UserError,
    PasswordError,
    InvalidToken,
    SignatureVerificationError,
    RedisError,
    MySQLError,
    KafkaError,
    NetworkConnectionFailed,
    ServiceTimeout,
    RequiredParameterMissing,
    UnifiedRequestParameterError,
    DupUser,
    DupSession,
    SessionClosed,
    ConnectionClosed,
    NotFoundSession,
    ReconnSession,
    RoomEnded,
}

/// The number of a code.
pub open spec fn error_code_value(e: ErrorCode) -> i32 {
    match e {
        ErrorCode::Success => 0,
        ErrorCode::SystemBusy => 881000,
        ErrorCode::InternalError => 881001,
        ErrorCode::ServerConnectionFailed => 881002,
        ErrorCode::IllegalOperationRequest => 881004,
        ErrorCode::UnknownService => 881010,
        ErrorCode::InvalidResponseData => 881011,
        ErrorCode::SystemProcessing => 881012,
        ErrorCode::DataReceived => 881013,
        ErrorCode::FileNotFound => 881029,
        ErrorCode::FileReadError => 881031,
        ErrorCode::FileWriteError => 881032,
        ErrorCode::OperationRestricted => 881105,
        ErrorCode::UserError => 881106,
        ErrorCode::PasswordError => 881107,
        ErrorCode::InvalidToken => 881108,
        ErrorCode::SignatureVerificationError => 881109,
        ErrorCode::RedisError => 881227,
        ErrorCode::MySQLError => 881228,
        ErrorCode::KafkaError => 881229,
        ErrorCode::NetworkConnectionFailed => 881303,
        ErrorCode::ServiceTimeout => 881405,
        ErrorCode::RequiredParameterMissing => 881506,
        ErrorCode::UnifiedRequestParameterError => 881507,
        ErrorCode::DupUser => 881601,
        ErrorCode::DupSession => 881602,
        ErrorCode::SessionClosed => 881603,
        ErrorCode::ConnectionClosed => 881604,
        ErrorCode::NotFoundSession => 881605,
        ErrorCode::ReconnSession => 881606,
        ErrorCode::RoomEnded => 881607,
    }
}

/// The code whose number is `v`, if any.
pub open spec fn error_code_from_value(v: i32) -> Option<ErrorCode> {
    if v == 0 {
        Some(ErrorCode::Success)
    } else if v == 881000 {
        Some(ErrorCode::SystemBusy)
    } else if v == 881001 {
        Some(ErrorCode::InternalError)
    } else if v == 881002 {
        Some(ErrorCode::ServerConnectionFailed)
    } else if v == 881004 {
        Some(ErrorCode::IllegalOperationRequest)
    } else if v == 881010 {
        Some(ErrorCode::UnknownService)
    } else if v == 881011 {
        Some(ErrorCode::InvalidResponseData)
    } else if v == 881012 {
        Some(ErrorCode::SystemProcessing)
    } else if v == 881013 {
        Some(ErrorCode::DataReceived)
    } else if v == 881029 {
        Some(ErrorCode::FileNotFound)
    } else if v == 881031 {
        Some(ErrorCode::FileReadError)
    } else if v == 881032 {
        Some(ErrorCode::FileWriteError)
    } else if v == 881105 {
        Some(ErrorCode::OperationRestricted)
    } else if v == 881106 {
        Some(ErrorCode::UserError)
    } else if v == 881107 {
        Some(ErrorCode::PasswordError)
    } else if v == 881108 {
        Some(ErrorCode::InvalidToken)
    } else if v == 881109 {
        Some(ErrorCode::SignatureVerificationError)
    } else if v == 881227 {
        Some(ErrorCode::RedisError)
    } else if v == 881228 {
        Some(ErrorCode::MySQLError)
    } else if v == 881229 {
        Some(ErrorCode::KafkaError)
    } else if v == 881303 {
        Some(ErrorCode::NetworkConnectionFailed)
    } else if v == 881405 {
        Some(ErrorCode::ServiceTimeout)
    } else if v == 881506 {
        Some(ErrorCode::RequiredParameterMissing)
    } else if v == 881507 {
        Some(ErrorCode::UnifiedRequestParameterError)
    } else if v == 881601 {
        Some(ErrorCode::DupUser)
    } else if v == 881602 {
        Some(ErrorCode::DupSession)
    } else if v == 881603 {
        Some(ErrorCode::SessionClosed)
    } else if v == 881604 {
        Some(ErrorCode::ConnectionClosed)
    } else if v == 881605 {
        Some(ErrorCode::NotFoundSession)
    } else if v == 881606 {
        Some(ErrorCode::ReconnSession)
    } else if v == 881607 {
        Some(ErrorCode::RoomEnded)
    } else {
        None
    }
}

/// What a code means.
pub open spec fn error_code_description(e: ErrorCode) -> Seq<char> {
    match e {
        ErrorCode::Success => "Success"@,
        ErrorCode::SystemBusy => "System is busy"@,
        ErrorCode::InternalError => "Internal system error"@,
        ErrorCode::ServerConnectionFailed => "Failed to connect to the server"@,
        ErrorCode::IllegalOperationRequest => "Illegal operation request"@,
        ErrorCode::UnknownService => "Unrecognized service"@,
        ErrorCode::InvalidResponseData => "Invalid response data"@,
        ErrorCode::SystemProcessing => "System is processing"@,
        ErrorCode::DataReceived => "Data has been received"@,
        ErrorCode::FileNotFound => "File not found"@,
        ErrorCode::FileReadError => "Error reading file"@,
        ErrorCode::FileWriteError => "Error writing file"@,
        ErrorCode::OperationRestricted => "Operation restricted"@,
        ErrorCode::UserError => "User error"@,
        ErrorCode::PasswordError => "Password error"@,
        ErrorCode::InvalidToken => "Invalid token"@,
        ErrorCode::SignatureVerificationError => "Signature verification failed"@,
        ErrorCode::RedisError => "Redis connection error"@,
        ErrorCode::MySQLError => "MySQL connection error"@,
        ErrorCode::KafkaError => "Kafka connection error"@,
        ErrorCode::NetworkConnectionFailed => "Failed to connect to the network"@,
        ErrorCode::ServiceTimeout => "Service request timed out"@,
        ErrorCode::RequiredParameterMissing => "Required parameter is missing"@,
        ErrorCode::UnifiedRequestParameterError => "Unified request parameter error"@,
        ErrorCode::DupUser => "DupUser"@,
        ErrorCode::DupSession => "DupSession"@,
        ErrorCode::SessionClosed => "SessionClosed"@,
        ErrorCode::ConnectionClosed => "ConnectionClosed"@,
        ErrorCode::NotFoundSession => "NotFoundSession"@,
        ErrorCode::ReconnSession => "ReconnectSession"@,
        ErrorCode::RoomEnded => "RoomEnded"@,
    }
}

/// The name of a code, as its debug text shows it.
pub open spec fn error_code_name(e: ErrorCode) -> Seq<char> {
    match e {
        ErrorCode::Success => "Success"@,
        ErrorCode::SystemBusy => "SystemBusy"@,
        ErrorCode::InternalError => "InternalError"@,
        ErrorCode::ServerConnectionFailed => "ServerConnectionFailed"@,
        ErrorCode::IllegalOperationRequest => "IllegalOperationRequest"@,
        ErrorCode::UnknownService => "UnknownService"@,
        ErrorCode::InvalidResponseData => "InvalidResponseData"@,
        ErrorCode::SystemProcessing => "SystemProcessing"@,
        ErrorCode::DataReceived => "DataReceived"@,
        ErrorCode::FileNotFound => "FileNotFound"@,
        ErrorCode::FileReadError => "FileReadError"@,
        ErrorCode::FileWriteError => "FileWriteError"@,
        ErrorCode::OperationRestricted => "OperationRestricted"@,
        ErrorCode::UserError => "UserError"@,
        ErrorCode::PasswordError => "PasswordError"@,
        ErrorCode::InvalidToken => "InvalidToken"@,
        ErrorCode::SignatureVerificationError => "SignatureVerificationError"@,
        ErrorCode::RedisError => "RedisError"@,
        ErrorCode::MySQLError => "MySQLError"@,
        ErrorCode::KafkaError => "KafkaError"@,
        ErrorCode::NetworkConnectionFailed => "NetworkConnectionFailed"@,
        ErrorCode::ServiceTimeout => "ServiceTimeout"@,
        ErrorCode::RequiredParameterMissing => "RequiredParameterMissing"@,
        ErrorCode::UnifiedRequestParameterError => "UnifiedRequestParameterError"@,
        ErrorCode::DupUser => "DupUser"@,
        ErrorCode::DupSession => "DupSession"@,
        ErrorCode::SessionClosed => "SessionClosed"@,
        ErrorCode::ConnectionClosed => "ConnectionClosed"@,
        ErrorCode::NotFoundSession => "NotFoundSession"@,
        ErrorCode::ReconnSession => "ReconnSession"@,
        ErrorCode::RoomEnded => "RoomEnded"@,
    }
}

impl ErrorCode {
    pub fn value(&self) -> (r: i32)
        ensures
            r == error_code_value(*self),
    {
        match self {
            ErrorCode::Success => 0,
            ErrorCode::SystemBusy => 881000,
            ErrorCode::InternalError => 881001,
            ErrorCode::ServerConnectionFailed => 881002,
            ErrorCode::IllegalOperationRequest => 881004,
            ErrorCode::UnknownService => 881010,
            ErrorCode::InvalidResponseData => 881011,
            ErrorCode::SystemProcessing => 881012,
            ErrorCode::DataReceived => 881013,
            ErrorCode::FileNotFound => 881029,
            ErrorCode::FileReadError => 881031,
            ErrorCode::FileWriteError => 881032,
            ErrorCode::OperationRestricted => 881105,
            ErrorCode::UserError => 881106,
            ErrorCode::PasswordError => 881107,
            ErrorCode::InvalidToken => 881108,
            ErrorCode::SignatureVerificationError => 881109,
            ErrorCode::RedisError => 881227,
            ErrorCode::MySQLError => 881228,
            ErrorCode::KafkaError => 881229,
            ErrorCode::NetworkConnectionFailed => 881303,
            ErrorCode::ServiceTimeout => 881405,
            ErrorCode::RequiredParameterMissing => 881506,
            ErrorCode::UnifiedRequestParameterError => 881507,
            ErrorCode::DupUser => 881601,
            ErrorCode::DupSession => 881602,
            ErrorCode::SessionClosed => 881603,
            ErrorCode::ConnectionClosed => 881604,
            ErrorCode::NotFoundSession => 881605,
            ErrorCode::ReconnSession => 881606,
            ErrorCode::RoomEnded => 881607,
        }
    }

    /// The code whose number is `v`; `None` for a number that is no code.
    pub fn from_value(v: i32) -> (r: Option<Self>)
        ensures
            r == error_code_from_value(v),
    {
        if v == 0 {
            Some(ErrorCode::Success)
        } else if v == 881000 {
            Some(ErrorCode::SystemBusy)
        } else if v == 881001 {
            Some(ErrorCode::InternalError)
        } else if v == 881002 {
            Some(ErrorCode::ServerConnectionFailed)
        } else if v == 881004 {
            Some(ErrorCode::IllegalOperationRequest)
        } else if v == 881010 {
            Some(ErrorCode::UnknownService)
        } else if v == 881011 {
            Some(ErrorCode::InvalidResponseData)
        } else if v == 881012 {
            Some(ErrorCode::SystemProcessing)
        } else if v == 881013 {
            Some(ErrorCode::DataReceived)
        } else if v == 881029 {
            Some(ErrorCode::FileNotFound)
        } else if v == 881031 {
            Some(ErrorCode::FileReadError)
        } else if v == 881032 {
            Some(ErrorCode::FileWriteError)
        } else if v == 881105 {
            Some(ErrorCode::OperationRestricted)
        } else if v == 881106 {
            Some(ErrorCode::UserError)
        } else if v == 881107 {
            Some(ErrorCode::PasswordError)
        } else if v == 881108 {
            Some(ErrorCode::InvalidToken)
        } else if v == 881109 {
            Some(ErrorCode::SignatureVerificationError)
        } else if v == 881227 {
            Some(ErrorCode::RedisError)
        } else if v == 881228 {
            Some(ErrorCode::MySQLError)
        } else if v == 881229 {
            Some(ErrorCode::KafkaError)
        } else if v == 881303 {
            Some(ErrorCode::NetworkConnectionFailed)
        } else if v == 881405 {
            Some(ErrorCode::ServiceTimeout)
        } else if v == 881506 {
            Some(ErrorCode::RequiredParameterMissing)
        } else if v == 881507 {
            Some(ErrorCode::UnifiedRequestParameterError)
        } else if v == 881601 {
            Some(ErrorCode::DupUser)
        } else if v == 881602 {
            Some(ErrorCode::DupSession)
        } else if v == 881603 {
            Some(ErrorCode::SessionClosed)
        } else if v == 881604 {
            Some(ErrorCode::ConnectionClosed)
        } else if v == 881605 {
            Some(ErrorCode::NotFoundSession)
        } else if v == 881606 {
            Some(ErrorCode::ReconnSession)
        } else if v == 881607 {
            Some(ErrorCode::RoomEnded)
        } else {
            None
        }
    }

    pub fn description(&self) -> (r: &'static str)
        ensures
            r@ == error_code_description(*self),
    {
        match self {
            ErrorCode::Success => "Success",
            ErrorCode::SystemBusy => "System is busy",
            ErrorCode::InternalError => "Internal system error",
            ErrorCode::ServerConnectionFailed => "Failed to connect to the server",
            ErrorCode::IllegalOperationRequest => "Illegal operation request",
            ErrorCode::UnknownService => "Unrecognized service",
            ErrorCode::InvalidResponseData => "Invalid response data",
            ErrorCode::SystemProcessing => "System is processing",
            ErrorCode::DataReceived => "Data has been received",
            ErrorCode::FileNotFound => "File not found",
            ErrorCode::FileReadError => "Error reading file",
            ErrorCode::FileWriteError => "Error writing file",
            ErrorCode::OperationRestricted => "Operation restricted",
            ErrorCode::UserError => "User error",
            ErrorCode::PasswordError => "Password error",
            ErrorCode::InvalidToken => "Invalid token",
            ErrorCode::SignatureVerificationError => "Signature verification failed",
            ErrorCode::RedisError => "Redis connection error",
            ErrorCode::MySQLError => "MySQL connection error",
            ErrorCode::KafkaError => "Kafka connection error",
            ErrorCode::NetworkConnectionFailed => "Failed to connect to the network",
            ErrorCode::ServiceTimeout => "Service request timed out",
            ErrorCode::RequiredParameterMissing => "Required parameter is missing",
            ErrorCode::UnifiedRequestParameterError => "Unified request parameter error",
            ErrorCode::DupUser => "DupUser",
            ErrorCode::DupSession => "DupSession",
            ErrorCode::SessionClosed => "SessionClosed",
            ErrorCode::ConnectionClosed => "ConnectionClosed",
            ErrorCode::NotFoundSession => "NotFoundSession",
            ErrorCode::ReconnSession => "ReconnectSession",
            ErrorCode::RoomEnded => "RoomEnded",
        }
    }

    /// The name of the code.
    pub fn name(&self) -> (r: &'static str)
        ensures
            r@ == error_code_name(*self),
    {
        match self {
            ErrorCode::Success => "Success",
            ErrorCode::SystemBusy => "SystemBusy",
            ErrorCode::InternalError => "InternalError",
            ErrorCode::ServerConnectionFailed => "ServerConnectionFailed",
            ErrorCode::IllegalOperationRequest => "IllegalOperationRequest",
            ErrorCode::UnknownService => "UnknownService",
            ErrorCode::InvalidResponseData => "InvalidResponseData",
            ErrorCode::SystemProcessing => "SystemProcessing",
            ErrorCode::DataReceived => "DataReceived",
            ErrorCode::FileNotFound => "FileNotFound",
            ErrorCode::FileReadError => "FileReadError",
            ErrorCode::FileWriteError => "FileWriteError",
            ErrorCode::OperationRestricted => "OperationRestricted",
            ErrorCode::UserError => "UserError",
            ErrorCode::PasswordError => "PasswordError",
            ErrorCode::InvalidToken => "InvalidToken",
            ErrorCode::SignatureVerificationError => "SignatureVerificationError",
            ErrorCode::RedisError => "RedisError",
            ErrorCode::MySQLError => "MySQLError",
            ErrorCode::KafkaError => "KafkaError",
            ErrorCode::NetworkConnectionFailed => "NetworkConnectionFailed",
            ErrorCode::ServiceTimeout => "ServiceTimeout",
            ErrorCode::RequiredParameterMissing => "RequiredParameterMissing",
            ErrorCode::UnifiedRequestParameterError => "UnifiedRequestParameterError",
            ErrorCode::DupUser => "DupUser",
            ErrorCode::DupSession => "DupSession",
            ErrorCode::SessionClosed => "SessionClosed",
            ErrorCode::ConnectionClosed => "ConnectionClosed",
            ErrorCode::NotFoundSession => "NotFoundSession",
            ErrorCode::ReconnSession => "ReconnSession",
            ErrorCode::RoomEnded => "RoomEnded",
        }
    }

    /// A status with this code and `reason`.
    pub fn to_status(self, reason: String) -> (r: Status)
        ensures
            r.code == error_code_value(self),
            r.reason == reason,
    {
        Status { code: self.value(), reason }
    }

    /// A status with this code whose reason is the code's name.
    pub fn into_status(self) -> (r: Status)
        ensures
            r.code == error_code_value(self),
            r.reason@ == error_code_name(self),
    {
        Status { code: self.value(), reason: self.name().to_owned() }
    }
}

impl From<ErrorCode> for i32 {
    fn from(value: ErrorCode) -> (r: i32) {
        value.value()
    }
}

impl vstd::std_specs::convert::FromSpecImpl<ErrorCode> for i32 {
    open spec fn obeys_from_spec() -> bool {
        true
    }

    open spec fn from_spec(v: ErrorCode) -> i32 {
        error_code_value(v)
    }
}

/// Reading a code back from its number gives the code.
pub proof fn lemma_error_code_roundtrip(e: ErrorCode)
    ensures
        error_code_from_value(error_code_value(e)) == Some(e),
{
}

/// Every code but success is this module's code followed by four digits.
pub proof fn lemma_error_code_module(e: ErrorCode)
    ensures
        e != ErrorCode::Success ==> error_code_value(e) / 10000 == MODULE_CODE
            && 1000 <= error_code_value(e) % 10000 <= 9999,
        e == ErrorCode::Success ==> error_code_value(e) == 0,
{
}

} // verus!
