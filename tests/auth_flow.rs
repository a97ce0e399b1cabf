use axum_template::auth::{
    authenticated_user, check_permission, check_token, check_token_call, extract_token,
    mw_require_auth, AuthResponse, AuthStep, Authority, CurrentUser, UserInfo,
};
use axum_template::errors::{AppError, RpcError, ServiceError};
use axum_template::rpc::{HttpMethod, HttpReply, Instance, OutboundRequest, RpcCall};

fn alice_response() -> AuthResponse {
    AuthResponse {
        user_info: UserInfo {
            user_id: "1".to_string(),
            username: "alice".to_string(),
            authorities: vec![Authority { authority: "view".to_string() }],
        },
    }
}

/// The call sent to the one healthy instance that the registry returns.
fn at_instance(call: RpcCall) -> OutboundRequest {
    call.target(Ok(Instance { ip: "10.0.0.5".to_string(), port: 8080 })).ok().unwrap()
}

fn is_unauthorized(e: &AppError) -> bool {
    matches!(e, AppError::Service(ServiceError::Unauthorized))
}

#[test]
fn basic_scheme_is_rejected_without_calling_auth() {
    match mw_require_auth(Some("Basic xyz"), "auth-service") {
        AuthStep::Rejected(e) => assert!(is_unauthorized(&e)),
        AuthStep::CheckToken(_) => panic!("the auth service must not be called"),
    }
}

#[test]
fn missing_header_is_rejected() {
    match mw_require_auth(None, "auth-service") {
        AuthStep::Rejected(e) => assert!(is_unauthorized(&e)),
        AuthStep::CheckToken(_) => panic!("the auth service must not be called"),
    }
}

#[test]
fn lowercase_scheme_is_rejected() {
    assert!(is_unauthorized(&extract_token(Some("bearer abc")).unwrap_err()));
    assert!(is_unauthorized(&extract_token(Some("Bearer")).unwrap_err()));
}

#[test]
fn bearer_token_is_extracted() {
    assert_eq!(extract_token(Some("Bearer good-token")).ok(), Some("good-token".to_string()));
    assert_eq!(extract_token(Some("Bearer ")).ok(), Some(String::new()));
    assert_eq!(extract_token(Some("Bearer a b")).ok(), Some("a b".to_string()));
}

#[test]
fn token_check_call_shape() {
    let call = check_token_call("rtsp-upms-service", "abc");
    assert_eq!(call.service_name, "rtsp-upms-service");
    assert!(call.group.is_none());
    assert!(call.method == HttpMethod::Get);
    assert_eq!(call.path, "/token/check_token");
    assert_eq!(call.query, vec![("token".to_string(), "abc".to_string())]);
    assert!(call.body.is_none());
}

#[test]
fn good_token_attaches_identity() {
    let call = match mw_require_auth(Some("Bearer good-token"), "auth-service") {
        AuthStep::CheckToken(call) => call,
        AuthStep::Rejected(_) => panic!("a bearer token must be checked"),
    };
    assert_eq!(call.query, vec![("token".to_string(), "good-token".to_string())]);
    let out = at_instance(call);
    assert_eq!(out.url, "http://10.0.0.5:8080/token/check_token");
    let body = r#"{"user_info":{"id":"1","username":"alice","authorities":[{"authority":"view"}]}}"#;
    let raw = out.outcome(Ok(HttpReply { status: 200, body: body.to_string() })).ok().unwrap();
    assert_eq!(raw, body);
    let decoded = out.decoded::<AuthResponse>(Ok(alice_response()));
    let checked = check_token(decoded);
    let user: CurrentUser = authenticated_user(checked).ok().unwrap();
    assert_eq!(user.id, "1");
    assert_eq!(user.username, "alice");
    assert_eq!(user.permissions, vec!["view".to_string()]);
}

#[test]
fn upstream_401_is_unauthorized() {
    let out = at_instance(check_token_call("auth-service", "bad"));
    let outcome = out.outcome(Ok(HttpReply { status: 401, body: "denied".to_string() }));
    match &outcome {
        Err(RpcError::UpstreamStatus { status, body, .. }) => {
            assert_eq!(*status, 401);
            assert_eq!(body, "denied");
        }
        _ => panic!("a 401 is a status error"),
    }
    let checked = check_token(outcome.map(|_| alice_response()));
    assert!(is_unauthorized(&checked.err().unwrap()));
}

#[test]
fn auth_timeout_is_internal_not_unauthorized() {
    let out = at_instance(check_token_call("auth-service", "tok"));
    let outcome = out.outcome(Err("operation timed out".to_string()));
    let checked = check_token(outcome.map(|_| alice_response()));
    match checked {
        Err(AppError::Rpc(RpcError::Transport { service_name, path, detail })) => {
            assert_eq!(service_name, "auth-service");
            assert_eq!(path, "/token/check_token");
            assert_eq!(detail, "operation timed out");
        }
        _ => panic!("a timeout is a transport failure"),
    }
    let reply = AppError::Rpc(RpcError::Transport {
        service_name: "auth-service".to_string(),
        path: "/token/check_token".to_string(),
        detail: "operation timed out".to_string(),
    })
    .into_response();
    assert_eq!(reply.status, 500);
    assert_ne!(reply.code, 10002);
}

#[test]
fn undecodable_auth_reply_is_internal() {
    let out = at_instance(check_token_call("auth-service", "tok"));
    let decoded = out.decoded::<AuthResponse>(Err("missing field `user_info`".to_string()));
    match check_token(decoded) {
        Err(AppError::Rpc(RpcError::ResponseDecode { service_name, detail })) => {
            assert_eq!(service_name, "auth-service");
            assert_eq!(detail, "missing field `user_info`");
        }
        _ => panic!("a bad body is a decode failure"),
    }
}

#[test]
fn rejected_check_passes_error_through() {
    let r = authenticated_user(Err(AppError::Service(ServiceError::Unauthorized)));
    assert!(is_unauthorized(&r.err().unwrap()));
}

#[test]
fn permission_present_and_absent() {
    let user = CurrentUser {
        id: "1".to_string(),
        username: "alice".to_string(),
        permissions: vec!["view".to_string(), "kms_kmsAppAccess_view".to_string()],
    };
    assert!(check_permission(&user, "kms_kmsAppAccess_view").is_ok());
    match check_permission(&user, "kms_kmsAppAccess_add") {
        Err(AppError::Service(ServiceError::Forbidden(p))) => assert_eq!(p, "kms_kmsAppAccess_add"),
        _ => panic!("a missing authority is forbidden"),
    }
    let nobody = CurrentUser { id: "2".to_string(), username: "bob".to_string(), permissions: vec![] };
    assert!(check_permission(&nobody, "view").is_err());
}

#[test]
fn identity_keeps_authority_order() {
    let resp = AuthResponse {
        user_info: UserInfo {
            user_id: "7".to_string(),
            username: "carol".to_string(),
            authorities: vec![
                Authority { authority: "b".to_string() },
                Authority { authority: "a".to_string() },
            ],
        },
    };
    let user = CurrentUser::from_auth_response(resp);
    assert_eq!(user.permissions, vec!["b".to_string(), "a".to_string()]);
}
