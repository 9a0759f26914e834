//! Errors of the relay server's HTTP API and the responses they turn into.
use vstd::prelude::*;
use crate::protocol::{CourierError, courier_error_text};
use crate::text::{copy_text, concat3};

verus! {

/// An error answered by the HTTP API.
#[derive(Debug, Clone)]
pub enum ApiError {
    /// A request that fails validation (400).
    ValidationError(String),
    /// A field that fails validation (400).
    FieldValidationError { field: String, reason: String },
    /// A missing or refused credential (401).
    Unauthorized(String),
    /// A resource that does not exist (404).
    NotFound(String),
    /// A database failure (500).
    DatabaseError(String),
    /// Any other server failure (500).
    InternalError(String),
}

/// The text that an `ApiError` displays.
pub open spec fn api_error_text(e: ApiError) -> Seq<char> {
    match e {
        ApiError::ValidationError(m) => "验证错误："@ + m@,
        ApiError::FieldValidationError { field, reason } => "字段 '"@ + field@ + "' 验证失败："@ + reason@,
        ApiError::Unauthorized(m) => "未授权："@ + m@,
        ApiError::NotFound(m) => "未找到："@ + m@,
        ApiError::DatabaseError(m) => "数据库错误："@ + m@,
        ApiError::InternalError(m) => "服务器错误："@ + m@,
    }
}

/// The `details` object of an error response.
#[derive(Debug, Clone)]
pub enum ErrorDetails {
    /// `{}`
    Empty,
    /// `{ "field": .., "reason": .. }`
    Field { field: String, reason: String },
    /// `{ "reason": .. }`
    Reason(String),
}

/// The parts of the JSON error response: HTTP status, error code, message and details.
#[derive(Debug, Clone)]
pub struct ErrorResponse {
    pub status: u16,
    pub code: String,
    pub message: String,
    pub details: ErrorDetails,
}

/// The HTTP status of each kind of error.
pub open spec fn api_error_status(e: ApiError) -> u16 {
    match e {
        ApiError::ValidationError(_) => 400,
        ApiError::FieldValidationError { .. } => 400,
        ApiError::Unauthorized(_) => 401,
        ApiError::NotFound(_) => 404,
        ApiError::DatabaseError(_) => 500,
        ApiError::InternalError(_) => 500,
    }
}

/// The error code string of each kind of error.
pub open spec fn api_error_code(e: ApiError) -> Seq<char> {
    match e {
        ApiError::ValidationError(_) => "VALIDATION_ERROR"@,
        ApiError::FieldValidationError { .. } => "FIELD_VALIDATION_ERROR"@,
        ApiError::Unauthorized(_) => "UNAUTHORIZED"@,
        ApiError::NotFound(_) => "NOT_FOUND"@,
        ApiError::DatabaseError(_) => "DATABASE_ERROR"@,
        ApiError::InternalError(_) => "INTERNAL_ERROR"@,
    }
}

/// The message of the response body of each kind of error.
pub open spec fn api_error_message(e: ApiError) -> Seq<char> {
    match e {
        ApiError::FieldValidationError { field, .. } => "字段 '"@ + field@ + "' 验证失败"@,
        ApiError::ValidationError(m) => m@,
        ApiError::Unauthorized(m) => m@,
        ApiError::NotFound(m) => m@,
        ApiError::DatabaseError(m) => m@,
        ApiError::InternalError(m) => m@,
    }
}

impl ApiError {
    /// The message the error displays.
    pub fn to_string(&self) -> (r: String)
        ensures
            r@ == api_error_text(*self),
    {
        match self {
            ApiError::ValidationError(m) => crate::text::concat2("验证错误：", m.as_str()),
            ApiError::FieldValidationError { field, reason } => {
                let mut s = concat3("字段 '", field.as_str(), "' 验证失败：");
                s.append(reason.as_str());
                s
            },
            ApiError::Unauthorized(m) => crate::text::concat2("未授权：", m.as_str()),
            ApiError::NotFound(m) => crate::text::concat2("未找到：", m.as_str()),
            ApiError::DatabaseError(m) => crate::text::concat2("数据库错误：", m.as_str()),
            ApiError::InternalError(m) => crate::text::concat2("服务器错误：", m.as_str()),
        }
    }

    /// The JSON response the error is answered with.
    pub fn response(&self) -> (r: ErrorResponse)
        ensures
            r.status == api_error_status(*self),
            r.code@ == api_error_code(*self),
            r.message@ == api_error_message(*self),
            match *self {
                ApiError::FieldValidationError { field, reason } => r.details matches ErrorDetails::Field { field: f, reason: why }
                    && f@ == field@ && why@ == reason@,
                ApiError::DatabaseError(_) => r.details matches ErrorDetails::Reason(why) && why@ == "数据库连接或查询失败"@,
                _ => r.details is Empty,
            },
    {
        match self {
            ApiError::ValidationError(m) => ErrorResponse {
                status: 400,
                code: copy_text("VALIDATION_ERROR"),
                message: copy_text(m.as_str()),
                details: ErrorDetails::Empty,
            },
            ApiError::FieldValidationError { field, reason } => ErrorResponse {
                status: 400,
                code: copy_text("FIELD_VALIDATION_ERROR"),
                message: concat3("字段 '", field.as_str(), "' 验证失败"),
                details: ErrorDetails::Field { field: copy_text(field.as_str()), reason: copy_text(reason.as_str()) },
            },
            ApiError::Unauthorized(m) => ErrorResponse {
                status: 401,
                code: copy_text("UNAUTHORIZED"),
                message: copy_text(m.as_str()),
                details: ErrorDetails::Empty,
            },
            ApiError::NotFound(m) => ErrorResponse {
                status: 404,
                code: copy_text("NOT_FOUND"),
                message: copy_text(m.as_str()),
                details: ErrorDetails::Empty,
            },
            ApiError::DatabaseError(m) => ErrorResponse {
                status: 500,
                code: copy_text("DATABASE_ERROR"),
                message: copy_text(m.as_str()),
                details: ErrorDetails::Reason(copy_text("数据库连接或查询失败")),
            },
            ApiError::InternalError(m) => ErrorResponse {
                status: 500,
                code: copy_text("INTERNAL_ERROR"),
                message: copy_text(m.as_str()),
                details: ErrorDetails::Empty,
            },
        }
    }

    /// The API error a protocol error is answered with: authentication and
    /// subdomain problems, bad ports and invalid requests (the client errors of
    /// the protocol) are validation errors, a missing tunnel
    /// is not found, a database failure stays one, and any other error becomes
    /// an internal error carrying the error's text.
    pub fn from_courier(err: CourierError) -> (r: ApiError)
        ensures
            api_error_from(err, r),
    {
        match err {
            CourierError::InvalidAuth(msg) => ApiError::ValidationError(msg),
            CourierError::TunnelNotFound(msg) => ApiError::NotFound(msg),
            CourierError::SubdomainConflict(msg) => ApiError::ValidationError(msg),
            CourierError::InvalidLocalPort(port) => {
                let d = crate::text::decimal_string(port as u64);
                ApiError::ValidationError(crate::text::concat2("无效的本地端口: ", d.as_str()))
            },
            CourierError::DatabaseError(msg) => ApiError::DatabaseError(msg),
            CourierError::InvalidRequest(msg) => ApiError::ValidationError(msg),
            _ => ApiError::InternalError(err.to_string()),
        }
    }
}

/// Whether `r` is the API error that the protocol error `err` becomes.
pub open spec fn api_error_from(err: CourierError, r: ApiError) -> bool {
    match err {
        CourierError::InvalidAuth(m) => r matches ApiError::ValidationError(x) && x@ == m@,
        CourierError::TunnelNotFound(m) => r matches ApiError::NotFound(x) && x@ == m@,
        CourierError::SubdomainConflict(m) => r matches ApiError::ValidationError(x) && x@ == m@,
        CourierError::InvalidLocalPort(p) => r matches ApiError::ValidationError(x)
            && x@ == "无效的本地端口: "@ + crate::text::decimal(p as nat),
        CourierError::DatabaseError(m) => r matches ApiError::DatabaseError(x) && x@ == m@,
        CourierError::InvalidRequest(m) => r matches ApiError::ValidationError(x) && x@ == m@,
        _ => r matches ApiError::InternalError(x) && x@ == courier_error_text(err),
    }
}

impl From<String> for ApiError {
    /// A bare message is an internal error.
    fn from(err: String) -> (r: ApiError) {
        ApiError::InternalError(err)
    }
}

impl vstd::std_specs::convert::FromSpecImpl<String> for ApiError {
    open spec fn obeys_from_spec() -> bool {
        true
    }

    open spec fn from_spec(err: String) -> ApiError {
        ApiError::InternalError(err)
    }
}

} // verus!
