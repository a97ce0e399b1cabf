use vstd::prelude::*;
use vstd::string::*;

use crate::app_config::AppSpecificConfig;
use crate::errors::{AppError, ServiceError};
use crate::response::ApiResponse;
use crate::text::joined;

verus! {

pub struct HealthCheckResponse {
    pub status: String,
}

/// What the greeting endpoint reports of the current snapshot.
pub struct HelloResponse {
    pub message: String,
    pub log_level: Option<String>,
    pub dashboard_enabled: Option<bool>,
}

/// A request body that was decoded and then passed its validation rules.
pub struct ValidatedJson<T>(pub T);

/// The liveness reply: status `UP`.
pub fn health_check() -> (r: ApiResponse<HealthCheckResponse>)
    ensures
        r.code == 0,
        r.msg@ == "success"@,
        r matches ApiResponse { data: Some(h), .. } && h.status@ == "UP"@,
{
    ApiResponse::<HealthCheckResponse>::success(HealthCheckResponse { status: String::from_str("UP") })
}

/// The greeting reply for a snapshot: its greeting (a fixed default when
/// unset), its log level, and its dashboard flag.
pub fn hello_from_nacos_config(cfg: &AppSpecificConfig) -> (r: ApiResponse<HelloResponse>)
    ensures
        r.code == 0,
        r.msg@ == "success"@,
        r matches ApiResponse { data: Some(h), .. } && {
            &&& h.message@ == match cfg.greeting {
                Some(g) => g@,
                None => "Default Greeting from Code"@,
            }
            &&& h.log_level == cfg.log_level
            &&& h.dashboard_enabled == match cfg.feature_flags {
                Some(f) => f.new_dashboard_enabled,
                None => None,
            }
        },
{
    let message = match &cfg.greeting {
        Some(g) => g.clone(),
        None => String::from_str("Default Greeting from Code"),
    };
    let log_level = match &cfg.log_level {
        Some(l) => Some(l.clone()),
        None => None,
    };
    let dashboard_enabled = match &cfg.feature_flags {
        Some(f) => f.new_dashboard_enabled,
        None => None,
    };
    ApiResponse::<HelloResponse>::success(HelloResponse { message, log_level, dashboard_enabled })
}

/// An app access record looked up by id: a database failure is
/// `DatabaseError`, no record is `ResourceNotFound`.
pub fn get_app_access_by_id<T>(found: Result<Option<T>, String>) -> (r: Result<T, AppError>)
    ensures
        match found {
            Ok(Some(m)) => r matches Ok(x) && x == m,
            Ok(None) => r matches Err(AppError::Service(ServiceError::ResourceNotFound)),
            Err(e) => r matches Err(AppError::DatabaseError(x)) && x == e,
        },
{
    match found {
        Ok(Some(m)) => Ok(m),
        Ok(None) => Err(AppError::Service(ServiceError::ResourceNotFound)),
        Err(e) => Err(AppError::DatabaseError(e)),
    }
}

impl<T> ValidatedJson<T> {
    /// Accepts a request body: a body that did not decode, or that broke a
    /// validation rule (`violation`, checked only on a decoded body), is
    /// `InvalidArgument` with the reason.
    pub fn from_request(decoded: Result<T, String>, violation: Option<String>) -> (r: Result<
        ValidatedJson<T>,
        AppError,
    >)
        ensures
            match decoded {
                Err(e) => r matches Err(AppError::Service(ServiceError::InvalidArgument(m))) && m@
                    == "JSON 格式错误: "@ + e@,
                Ok(v) => match violation {
                    Some(e) => r matches Err(AppError::Service(ServiceError::InvalidArgument(m)))
                        && m@ == "请求参数不合法: "@ + e@,
                    None => r matches Ok(ValidatedJson(x)) && x == v,
                },
            },
    {
        match decoded {
            Err(e) => Err(
                AppError::Service(
                    ServiceError::InvalidArgument(joined("JSON 格式错误: ", e.as_str())),
                ),
            ),
            Ok(v) => match violation {
                Some(e) => Err(
                    AppError::Service(
                        ServiceError::InvalidArgument(
                            joined("请求参数不合法: ", e.as_str()),
                        ),
                    ),
                ),
                None => Ok(ValidatedJson(v)),
            },
        }
    }
}

} // verus!
