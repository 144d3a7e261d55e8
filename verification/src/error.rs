use vstd::prelude::*;

use crate::auth::RoleLv;
use vstd::string::StringExecFns;

verus! {

/// What can go wrong while serving a request.
#[derive(Clone, Debug, PartialEq, Eq)]
pub enum Error {
    PremissionDeny(&'static str),
    /// A database failure, by its text.
    DBErr(String),
    BadArgument(&'static str),
    NotInPayload(&'static str),
    Unauthenticated,
    NotInDB(&'static str),
    PaginationError(&'static str),
    InvaildUUID,
    Unreachable(&'static str),
    NumberTooLarge,
    BufferTooLarge(&'static str),
    AlreadyExist(&'static str),
    RequirePermission(RoleLv),
    NotInDBList,
    /// The request's login token is not in the token store.
    TokenNotExist,
    /// The token store could not check the request's login token.
    TokenVerificationFailed,
}

} // verus!

verus! {

/// The gRPC status codes that the backend answers with.
#[derive(Clone, Copy, Debug, PartialEq, Eq, Structural)]
pub enum StatusCode {
    PermissionDenied,
    Internal,
    InvalidArgument,
    Unauthenticated,
    NotFound,
    FailedPrecondition,
    AlreadyExists,
}

/// The status a client receives: a code and a message.
#[derive(Clone, Debug, PartialEq, Eq)]
pub struct GrpcStatus {
    pub code: StatusCode,
    pub message: String,
}

/// The code that answers each error.
pub open spec fn status_code_of(e: Error) -> StatusCode {
    match e {
        Error::PremissionDeny(_) => StatusCode::PermissionDenied,
        Error::DBErr(_) => StatusCode::Internal,
        Error::BadArgument(_) => StatusCode::InvalidArgument,
        Error::NotInPayload(_) => StatusCode::InvalidArgument,
        Error::Unauthenticated => StatusCode::Unauthenticated,
        Error::NotInDB(_) => StatusCode::NotFound,
        Error::PaginationError(_) => StatusCode::FailedPrecondition,
        Error::InvaildUUID => StatusCode::InvalidArgument,
        Error::Unreachable(_) => StatusCode::Internal,
        Error::NumberTooLarge => StatusCode::InvalidArgument,
        Error::BufferTooLarge(_) => StatusCode::InvalidArgument,
        Error::AlreadyExist(_) => StatusCode::AlreadyExists,
        Error::RequirePermission(_) => StatusCode::PermissionDenied,
        Error::NotInDBList => StatusCode::NotFound,
        Error::TokenNotExist => StatusCode::Unauthenticated,
        Error::TokenVerificationFailed => StatusCode::Unauthenticated,
    }
}

/// The message that answers each error.
pub open spec fn status_message_of(e: Error) -> Seq<char> {
    match e {
        Error::PremissionDeny(x) => x@,
        Error::DBErr(x) => x@,
        Error::BadArgument(x) => x@,
        Error::NotInPayload(x) => "payload."@ + x@ + " is not found"@,
        Error::Unauthenticated => Seq::empty(),
        Error::NotInDB(_) => Seq::empty(),
        Error::PaginationError(x) => x@,
        Error::InvaildUUID => "Invaild request_id(should be a client generated UUIDv4)"@,
        Error::Unreachable(x) => x@,
        Error::NumberTooLarge => "number too large"@,
        Error::BufferTooLarge(x) => "buffer "@ + x@ + " too large"@,
        Error::AlreadyExist(x) => x@,
        Error::RequirePermission(_) => Seq::empty(),
        Error::NotInDBList => Seq::empty(),
        Error::TokenNotExist => "Token does not exist"@,
        Error::TokenVerificationFailed => "Token verification failed"@,
    }
}

impl Error {
    /// The status that the client receives for this error. Internal
    /// failures carry their own text; a missing entity and a missing login
    /// carry no message; a refused login token says why it was refused.
    pub fn into_status(self) -> (res: GrpcStatus)
        ensures
            res.code == status_code_of(self),
            res.message@ == status_message_of(self),
    {
        match self {
            Error::PremissionDeny(x) => GrpcStatus {
                code: StatusCode::PermissionDenied,
                message: String::from_str(x),
            },
            Error::DBErr(x) => GrpcStatus { code: StatusCode::Internal, message: x },
            Error::BadArgument(x) => GrpcStatus {
                code: StatusCode::InvalidArgument,
                message: String::from_str(x),
            },
            Error::NotInPayload(x) => {
                let msg = String::from_str("payload.").concat(x).concat(" is not found");
                GrpcStatus { code: StatusCode::InvalidArgument, message: msg }
            },
            Error::Unauthenticated => GrpcStatus {
                code: StatusCode::Unauthenticated,
                message: String::new(),
            },
            Error::NotInDB(_) => GrpcStatus { code: StatusCode::NotFound, message: String::new() },
            Error::PaginationError(x) => GrpcStatus {
                code: StatusCode::FailedPrecondition,
                message: String::from_str(x),
            },
            Error::InvaildUUID => GrpcStatus {
                code: StatusCode::InvalidArgument,
                message: String::from_str(
                    "Invaild request_id(should be a client generated UUIDv4)",
                ),
            },
            Error::Unreachable(x) => GrpcStatus {
                code: StatusCode::Internal,
                message: String::from_str(x),
            },
            Error::NumberTooLarge => GrpcStatus {
                code: StatusCode::InvalidArgument,
                message: String::from_str("number too large"),
            },
            Error::BufferTooLarge(x) => {
                let msg = String::from_str("buffer ").concat(x).concat(" too large");
                GrpcStatus { code: StatusCode::InvalidArgument, message: msg }
            },
            Error::AlreadyExist(x) => GrpcStatus {
                code: StatusCode::AlreadyExists,
                message: String::from_str(x),
            },
            Error::RequirePermission(_) => GrpcStatus {
                code: StatusCode::PermissionDenied,
                message: String::new(),
            },
            Error::NotInDBList => GrpcStatus { code: StatusCode::NotFound, message: String::new() },
            Error::TokenNotExist => GrpcStatus {
                code: StatusCode::Unauthenticated,
                message: String::from_str("Token does not exist"),
            },
            Error::TokenVerificationFailed => GrpcStatus {
                code: StatusCode::Unauthenticated,
                message: String::from_str("Token verification failed"),
            },
        }
    }
}


/// Only a failure of the server itself answers "internal"; every refusal
/// of a request carries a code that names what was wrong with it, and a
/// refusal that names its reason passes that text on.
pub proof fn lemma_only_server_faults_are_internal(e: Error)
    ensures
        (status_code_of(e) == StatusCode::Internal) <==> (e is DBErr || e is Unreachable),
        e is Unauthenticated || e is TokenNotExist || e is TokenVerificationFailed
            ==> status_code_of(e) == StatusCode::Unauthenticated,
        e is PremissionDeny || e is RequirePermission ==> status_code_of(e)
            == StatusCode::PermissionDenied,
        e is NotInDB || e is NotInDBList ==> status_code_of(e) == StatusCode::NotFound,
        e matches Error::PremissionDeny(x) ==> status_message_of(e) == x@,
        e matches Error::BadArgument(x) ==> status_message_of(e) == x@,
        e matches Error::PaginationError(x) ==> status_message_of(e) == x@,
        e matches Error::AlreadyExist(x) ==> status_message_of(e) == x@,
{
}

} // verus!
