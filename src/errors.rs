use vstd::prelude::*;
use vstd::string::*;

use crate::config::ConfigError;
use crate::text::{decimal_text, int_text, joined};

verus! {

/// Expected business-level failures, each with its own status and business code.
pub enum ServiceError {
    InvalidArgument(String),
    ResourceNotFound,
    Forbidden(String),
    Unauthorized,
}

/// Failures of an outbound call to a service found through the registry.
pub enum RpcError {
    /// The registry had no healthy instance of the service.
    ServiceUnavailable { service_name: String },
    /// The resolved instance could not be reached (connect, timeout, DNS).
    Transport { service_name: String, path: String, detail: String },
    /// The resolved instance answered with a status outside 200..=299.
    UpstreamStatus { service_name: String, path: String, status: u16, body: String },
    /// A success status came with a body of the wrong shape.
    ResponseDecode { service_name: String, detail: String },
}

/// Every error the service surfaces at its HTTP boundary.
pub enum AppError {
    Nacos(String),
    Config(ConfigError),
    DatabaseError(String),
    RedisPoolError(String),
    RedisError(String),
    Anyhow(String),
    Service(ServiceError),
    Rpc(RpcError),
}

/// What the HTTP boundary answers for an error: status, business code, message.
pub struct ErrorReply {
    pub status: u16,
    pub code: u16,
    pub message: String,
}

pub open spec fn service_message(e: ServiceError) -> Seq<char> {
    match e {
        ServiceError::InvalidArgument(m) => "请求参数不合法: "@ + m@,
        ServiceError::ResourceNotFound => "请求的资源不存在"@,
        ServiceError::Forbidden(p) => "无权访问该资源: "@ + p@,
        ServiceError::Unauthorized => "未授权, 请重新登录"@,
    }
}

pub open spec fn rpc_message(e: RpcError) -> Seq<char> {
    match e {
        RpcError::ServiceUnavailable { service_name } => "no healthy instance of service "@
            + service_name@,
        RpcError::Transport { service_name, path, detail } => "Failed to call service "@
            + service_name@ + " (path: '"@ + path@ + "'): "@ + detail@,
        RpcError::UpstreamStatus { service_name, path, status, body } => "上游服务 '"@
            + service_name@ + "' (路径: '"@ + path@ + "') 返回状态码 "@ + int_text(status as int),
        RpcError::ResponseDecode { service_name, detail } => "Failed to parse response from "@
            + service_name@ + ": "@ + detail@,
    }
}

pub open spec fn config_message(e: ConfigError) -> Seq<char> {
    match e {
        ConfigError::Var(name) => "Environment variable error: environment variable not found: "@ + name@,
    }
}

/// HTTP status of each kind of error.
pub open spec fn status_of(e: AppError) -> u16 {
    match e {
        AppError::Service(ServiceError::InvalidArgument(_)) => 400,
        AppError::Service(ServiceError::Unauthorized) => 401,
        AppError::Service(ServiceError::Forbidden(_)) => 403,
        AppError::Service(ServiceError::ResourceNotFound) => 404,
        AppError::RedisPoolError(_) => 503,
        AppError::Rpc(RpcError::ServiceUnavailable { .. }) => 503,
        _ => 500,
    }
}

/// Business code of each kind of error.
pub open spec fn code_of(e: AppError) -> u16 {
    match e {
        AppError::Service(ServiceError::InvalidArgument(_)) => 10001,
        AppError::Service(ServiceError::Unauthorized) => 10002,
        AppError::Service(ServiceError::Forbidden(_)) => 10003,
        AppError::Service(ServiceError::ResourceNotFound) => 10004,
        AppError::DatabaseError(_) => 20003,
        AppError::RedisPoolError(_) => 20002,
        AppError::RedisError(_) => 20001,
        AppError::Config(_) => 20001,
        AppError::Anyhow(_) => 20001,
        AppError::Nacos(_) => 30001,
        AppError::Rpc(RpcError::ServiceUnavailable { .. }) => 30002,
        AppError::Rpc(_) => 30003,
    }
}

/// Message of each kind of error.
pub open spec fn message_of(e: AppError) -> Seq<char> {
    match e {
        AppError::Service(s) => service_message(s),
        AppError::DatabaseError(m) => "数据库服务异常: "@ + m@,
        AppError::RedisPoolError(m) => "Redis 连接池服务暂不可用: "@ + m@,
        AppError::RedisError(m) => "Redis 命令执行错误: "@ + m@,
        AppError::Config(c) => "服务器配置加载错误: "@ + config_message(c),
        AppError::Anyhow(m) => "服务器内部未知错误: "@ + m@,
        AppError::Nacos(m) => "Nacos SDK 错误: "@ + m@,
        AppError::Rpc(r) => rpc_message(r),
    }
}

impl ServiceError {
    /// Human-readable text of the error.
    pub fn message(&self) -> (r: String)
        ensures
            r@ == service_message(*self),
    {
        match self {
            ServiceError::InvalidArgument(m) => joined("请求参数不合法: ", m.as_str()),
            ServiceError::ResourceNotFound => String::from_str("请求的资源不存在"),
            ServiceError::Forbidden(p) => joined(
                "无权访问该资源: ",
                p.as_str(),
            ),
            ServiceError::Unauthorized => String::from_str("未授权, 请重新登录"),
        }
    }
}

impl RpcError {
    /// Human-readable text of the error, naming the service and path involved.
    pub fn message(&self) -> (r: String)
        ensures
            r@ == rpc_message(*self),
    {
        match self {
            RpcError::ServiceUnavailable { service_name } => joined(
                "no healthy instance of service ",
                service_name.as_str(),
            ),
            RpcError::Transport { service_name, path, detail } => {
                let mut s = joined("Failed to call service ", service_name.as_str());
                s.append(" (path: '");
                s.append(path.as_str());
                s.append("'): ");
                s.append(detail.as_str());
                s
            },
            RpcError::UpstreamStatus { service_name, path, status, body: _ } => {
                let mut s = joined("上游服务 '", service_name.as_str());
                s.append("' (路径: '");
                s.append(path.as_str());
                s.append("') 返回状态码 ");
                let code = decimal_text(*status as i64);
                s.append(code.as_str());
                s
            },
            RpcError::ResponseDecode { service_name, detail } => {
                let mut s = joined("Failed to parse response from ", service_name.as_str());
                s.append(": ");
                s.append(detail.as_str());
                s
            },
        }
    }
}

impl ConfigError {
    /// Human-readable text of the error.
    pub fn message(&self) -> (r: String)
        ensures
            r@ == config_message(*self),
    {
        match self {
            ConfigError::Var(name) => joined("Environment variable error: environment variable not found: ", name.as_str()),
        }
    }
}

impl AppError {
    /// Whether the error is a fault of the service or of what it depends on,
    /// rather than a business-level rejection of the request.
    pub fn is_server_error(&self) -> (r: bool)
        ensures
            r == !(self is Service),
    {
        match self {
            AppError::Service(_) => false,
            _ => true,
        }
    }

    /// The reply for this error at the HTTP boundary: one exhaustive table from
    /// error kind to status, business code and message.
    pub fn into_response(self) -> (r: ErrorReply)
        ensures
            r.status == status_of(self),
            r.code == code_of(self),
            r.message@ == message_of(self),
    {
        match self {
            AppError::Service(s) => {
                let message = s.message();
                let (status, code): (u16, u16) = match s {
                    ServiceError::InvalidArgument(_) => (400, 10001),
                    ServiceError::Unauthorized => (401, 10002),
                    ServiceError::Forbidden(_) => (403, 10003),
                    ServiceError::ResourceNotFound => (404, 10004),
                };
                ErrorReply { status, code, message }
            },
            AppError::DatabaseError(m) => ErrorReply {
                status: 500,
                code: 20003,
                message: joined("数据库服务异常: ", m.as_str()),
            },
            AppError::RedisPoolError(m) => ErrorReply {
                status: 503,
                code: 20002,
                message: joined("Redis 连接池服务暂不可用: ", m.as_str()),
            },
            AppError::RedisError(m) => ErrorReply {
                status: 500,
                code: 20001,
                message: joined("Redis 命令执行错误: ", m.as_str()),
            },
            AppError::Config(c) => {
                let detail = c.message();
                ErrorReply {
                    status: 500,
                    code: 20001,
                    message: joined("服务器配置加载错误: ", detail.as_str()),
                }
            },
            AppError::Anyhow(m) => ErrorReply {
                status: 500,
                code: 20001,
                message: joined("服务器内部未知错误: ", m.as_str()),
            },
            AppError::Nacos(m) => ErrorReply {
                status: 500,
                code: 30001,
                message: joined("Nacos SDK 错误: ", m.as_str()),
            },
            AppError::Rpc(r) => {
                let message = r.message();
                let (status, code): (u16, u16) = match r {
                    RpcError::ServiceUnavailable { .. } => (503, 30002),
                    _ => (500, 30003),
                };
                ErrorReply { status, code, message }
            },
        }
    }
}

} // verus!
