use vstd::prelude::*;
use vstd::string::*;

use crate::errors::{AppError, RpcError, ServiceError};
use crate::rpc::{get_service_with_query, HttpMethod, RpcCall};

verus! {

/// Body of a successful token check.
pub struct AuthResponse {
    pub user_info: UserInfo,
}

/// The principal behind a token, as the auth service describes it.
pub struct UserInfo {
    pub user_id: String,
    pub username: String,
    pub authorities: Vec<Authority>,
}

pub struct Authority {
    pub authority: String,
}

/// The identity attached to a request once its token has been validated.
pub struct CurrentUser {
    pub id: String,
    pub username: String,
    pub permissions: Vec<String>,
}

/// What the middleware does with a request before any handler runs.
pub enum AuthStep {
    /// The request is turned away; the auth service is not called.
    Rejected(AppError),
    /// The token is to be checked with this call to the auth service.
    CheckToken(RpcCall),
}

/// The token of an `Authorization` header value of the form `Bearer <token>`.
pub open spec fn bearer_token(header: Option<Seq<char>>) -> Option<Seq<char>> {
    match header {
        Some(v) => if v.len() >= 7 && v.take(7) == "Bearer "@ {
            Some(v.skip(7))
        } else {
            None
        },
        None => None,
    }
}

pub open spec fn header_view(header: Option<&str>) -> Option<Seq<char>> {
    match header {
        Some(h) => Some(h@),
        None => None,
    }
}

/// `call` asks the auth service named `service` whether `token` is valid.
pub open spec fn is_token_check(call: RpcCall, service: Seq<char>, token: Seq<char>) -> bool {
    &&& call.service_name@ == service
    &&& call.group is None
    &&& call.method == HttpMethod::Get
    &&& call.path@ == "/token/check_token"@
    &&& call.query@.len() == 1
    &&& call.query@[0].0@ == "token"@
    &&& call.query@[0].1@ == token
    &&& call.body is None
}

/// `user` is the identity that `resp` describes.
pub open spec fn identity_of(user: CurrentUser, resp: AuthResponse) -> bool {
    &&& user.id == resp.user_info.user_id
    &&& user.username == resp.user_info.username
    &&& user.permissions@.len() == resp.user_info.authorities@.len()
    &&& forall|i: int|
        0 <= i < user.permissions@.len() ==> #[trigger] user.permissions@[i]
            == resp.user_info.authorities@[i].authority
}

pub open spec fn has_permission(user: CurrentUser, required: Seq<char>) -> bool {
    exists|i: int| 0 <= i < user.permissions@.len() && (#[trigger] user.permissions@[i])@ == required
}

/// The token of an `Authorization` header; a missing header or another scheme
/// than `Bearer ` is `Unauthorized`.
pub fn extract_token(authorization: Option<&str>) -> (r: Result<String, AppError>)
    ensures
        match bearer_token(header_view(authorization)) {
            Some(t) => r matches Ok(s) && s@ == t,
            None => r matches Err(AppError::Service(ServiceError::Unauthorized)),
        },
{
    match authorization {
        None => Err(AppError::Service(ServiceError::Unauthorized)),
        Some(h) => {
            let n = h.unicode_len();
            if n < 7 {
                return Err(AppError::Service(ServiceError::Unauthorized));
            }
            let scheme = String::from_str(h.substring_char(0, 7));
            let bearer = String::from_str("Bearer ");
            if scheme == bearer {
                Ok(String::from_str(h.substring_char(7, n)))
            } else {
                Err(AppError::Service(ServiceError::Unauthorized))
            }
        },
    }
}

/// The call that checks `token` with the auth service: a GET of the token
/// check endpoint with the token as its one query parameter.
pub fn check_token_call(auth_service_name: &str, token: &str) -> (r: RpcCall)
    ensures
        is_token_check(r, auth_service_name@, token@),
{
    let mut query: Vec<(String, String)> = Vec::new();
    query.push((String::from_str("token"), String::from_str(token)));
    get_service_with_query(auth_service_name, "/token/check_token", query)
}

/// What a token check means to the caller: any non-success status from the
/// auth service is `Unauthorized`; an unreachable or misbehaving auth service
/// stays an internal failure, told apart from a bad token.
pub fn check_token(result: Result<AuthResponse, RpcError>) -> (r: Result<AuthResponse, AppError>)
    ensures
        match result {
            Ok(resp) => r matches Ok(x) && x == resp,
            Err(RpcError::UpstreamStatus { .. }) => r matches Err(
                AppError::Service(ServiceError::Unauthorized),
            ),
            Err(e) => r matches Err(AppError::Rpc(x)) && x == e,
        },
{
    match result {
        Ok(resp) => Ok(resp),
        Err(RpcError::UpstreamStatus { .. }) => Err(AppError::Service(ServiceError::Unauthorized)),
        Err(e) => Err(AppError::Rpc(e)),
    }
}

impl CurrentUser {
    /// The identity described by a successful token check.
    pub fn from_auth_response(resp: AuthResponse) -> (r: CurrentUser)
        ensures
            identity_of(r, resp),
    {
        let auths = &resp.user_info.authorities;
        let mut permissions: Vec<String> = Vec::new();
        let mut i: usize = 0;
        while i < auths.len()
            invariant
                i <= auths@.len(),
                permissions@.len() == i,
                forall|j: int| 0 <= j < i ==> #[trigger] permissions@[j] == auths@[j].authority,
            decreases auths@.len() - i,
        {
            permissions.push(auths[i].authority.clone());
            i += 1;
        }
        CurrentUser { id: resp.user_info.user_id, username: resp.user_info.username, permissions }
    }
}

/// First step of the authentication middleware: reject a request without a
/// bearer token at once, or ask for its token to be checked.
pub fn mw_require_auth(authorization: Option<&str>, auth_service_name: &str) -> (r: AuthStep)
    ensures
        match bearer_token(header_view(authorization)) {
            Some(t) => r matches AuthStep::CheckToken(call) && is_token_check(
                call,
                auth_service_name@,
                t,
            ),
            None => r matches AuthStep::Rejected(AppError::Service(ServiceError::Unauthorized)),
        },
{
    match extract_token(authorization) {
        Ok(token) => AuthStep::CheckToken(check_token_call(auth_service_name, token.as_str())),
        Err(e) => AuthStep::Rejected(e),
    }
}

/// Last step of the authentication middleware: the identity to attach to the
/// request, or the rejection.
pub fn authenticated_user(checked: Result<AuthResponse, AppError>) -> (r: Result<CurrentUser, AppError>)
    ensures
        match checked {
            Ok(resp) => r matches Ok(user) && identity_of(user, resp),
            Err(e) => r matches Err(x) && x == e,
        },
{
    match checked {
        Ok(resp) => Ok(CurrentUser::from_auth_response(resp)),
        Err(e) => Err(e),
    }
}

/// Whether `user` holds the authority `required`; `Forbidden` naming it if not.
pub fn check_permission(user: &CurrentUser, required: &str) -> (r: Result<(), AppError>)
    ensures
        r is Ok <==> has_permission(*user, required@),
        r is Err ==> (r matches Err(AppError::Service(ServiceError::Forbidden(p))) && p@
            == required@),
{
    let wanted = String::from_str(required);
    let mut i: usize = 0;
    while i < user.permissions.len()
        invariant
            i <= user.permissions@.len(),
            wanted@ == required@,
            forall|j: int| 0 <= j < i ==> (#[trigger] user.permissions@[j])@ != required@,
        decreases user.permissions@.len() - i,
    {
        if user.permissions[i] == wanted {
            return Ok(());
        }
        i += 1;
    }
    Err(AppError::Service(ServiceError::Forbidden(wanted)))
}

} // verus!
