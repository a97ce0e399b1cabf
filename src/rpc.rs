use vstd::prelude::*;
use vstd::string::*;

use crate::errors::RpcError;
use crate::text::{decimal_text, int_text, joined};

verus! {

#[derive(PartialEq, Eq, Structural, Clone, Copy)]
pub enum HttpMethod {
    Get,
    Post,
}

/// One healthy instance of a service, as the registry chose it.
pub struct Instance {
    pub ip: String,
    pub port: i32,
}

/// One outbound call: which service, which group, which method and path, what
/// query parameters and, for a POST, what JSON body.
pub struct RpcCall {
    pub service_name: String,
    pub group: Option<String>,
    pub method: HttpMethod,
    pub path: String,
    pub query: Vec<(String, String)>,
    pub body: Option<String>,
}

/// The HTTP request to send once an instance has been resolved, with the
/// service name and path kept for the errors that may follow.
pub struct OutboundRequest {
    pub service_name: String,
    pub path: String,
    pub method: HttpMethod,
    pub url: String,
    pub query: Vec<(String, String)>,
    pub body: Option<String>,
}

/// What the upstream answered: status and raw body.
pub struct HttpReply {
    pub status: u16,
    pub body: String,
}

/// `http://<ip>:<port>` of an instance.
pub open spec fn base_url(inst: Instance) -> Seq<char> {
    "http://"@ + inst.ip@ + ":"@ + int_text(inst.port as int)
}

pub open spec fn is_success(status: u16) -> bool {
    200 <= status && status <= 299
}

/// Base URL of a resolved instance; a failed resolution means the service has
/// no healthy instance.
pub fn discover_service_url(service_name: &str, resolved: Result<Instance, String>) -> (r: Result<
    String,
    RpcError,
>)
    ensures
        match resolved {
            Ok(inst) => r matches Ok(url) && url@ == base_url(inst),
            Err(_) => r matches Err(RpcError::ServiceUnavailable { service_name: s }) && s@
                == service_name@,
        },
{
    match resolved {
        Ok(inst) => {
            let mut url = joined("http://", inst.ip.as_str());
            url.append(":");
            let port = decimal_text(inst.port as i64);
            url.append(port.as_str());
            Ok(url)
        },
        Err(_) => Err(RpcError::ServiceUnavailable { service_name: String::from_str(service_name) }),
    }
}

/// A GET without query parameters, in the default group.
pub fn get_service(service_name: &str, endpoint_path: &str) -> (r: RpcCall)
    ensures
        r.service_name@ == service_name@,
        r.group is None,
        r.method == HttpMethod::Get,
        r.path@ == endpoint_path@,
        r.query@.len() == 0,
        r.body is None,
{
    get_service_with_group(service_name, None, endpoint_path, Vec::new())
}

/// A GET with query parameters, in the default group.
pub fn get_service_with_query(
    service_name: &str,
    endpoint_path: &str,
    query_params: Vec<(String, String)>,
) -> (r: RpcCall)
    ensures
        r.service_name@ == service_name@,
        r.group is None,
        r.method == HttpMethod::Get,
        r.path@ == endpoint_path@,
        r.query == query_params,
        r.body is None,
{
    get_service_with_group(service_name, None, endpoint_path, query_params)
}

/// A GET with query parameters, in the given group.
pub fn get_service_with_group(
    service_name: &str,
    group_name: Option<String>,
    endpoint_path: &str,
    query_params: Vec<(String, String)>,
) -> (r: RpcCall)
    ensures
        r.service_name@ == service_name@,
        r.group == group_name,
        r.method == HttpMethod::Get,
        r.path@ == endpoint_path@,
        r.query == query_params,
        r.body is None,
{
    RpcCall {
        service_name: String::from_str(service_name),
        group: group_name,
        method: HttpMethod::Get,
        path: String::from_str(endpoint_path),
        query: query_params,
        body: None,
    }
}

/// A POST with a JSON body, in the default group.
pub fn post_service(service_name: &str, endpoint_path: &str, body: String) -> (r: RpcCall)
    ensures
        r.service_name@ == service_name@,
        r.group is None,
        r.method == HttpMethod::Post,
        r.path@ == endpoint_path@,
        r.query@.len() == 0,
        r.body == Some(body),
{
    post_service_with_group(service_name, None, endpoint_path, Vec::new(), body)
}

/// A POST with query parameters and a JSON body, in the default group.
pub fn post_service_with_query(
    service_name: &str,
    endpoint_path: &str,
    query_params: Vec<(String, String)>,
    body: String,
) -> (r: RpcCall)
    ensures
        r.service_name@ == service_name@,
        r.group is None,
        r.method == HttpMethod::Post,
        r.path@ == endpoint_path@,
        r.query == query_params,
        r.body == Some(body),
{
    post_service_with_group(service_name, None, endpoint_path, query_params, body)
}

/// A POST with query parameters and a JSON body, in the given group.
pub fn post_service_with_group(
    service_name: &str,
    group_name: Option<String>,
    endpoint_path: &str,
    query_params: Vec<(String, String)>,
    body: String,
) -> (r: RpcCall)
    ensures
        r.service_name@ == service_name@,
        r.group == group_name,
        r.method == HttpMethod::Post,
        r.path@ == endpoint_path@,
        r.query == query_params,
        r.body == Some(body),
{
    RpcCall {
        service_name: String::from_str(service_name),
        group: group_name,
        method: HttpMethod::Post,
        path: String::from_str(endpoint_path),
        query: query_params,
        body: Some(body),
    }
}

impl RpcCall {
    /// First step of a call, once the registry has answered: the request to
    /// send to the chosen instance, or `ServiceUnavailable` when the registry
    /// had none, in which case nothing is sent.
    pub fn target(self, resolved: Result<Instance, String>) -> (r: Result<OutboundRequest, RpcError>)
        ensures
            match resolved {
                Ok(inst) => r matches Ok(req) && req.service_name == self.service_name && req.path
                    == self.path && req.method == self.method && req.url@ == base_url(inst)
                    + self.path@ && req.query == self.query && req.body == self.body,
                Err(_) => r matches Err(RpcError::ServiceUnavailable { service_name: s }) && s@
                    == self.service_name@,
            },
    {
        match discover_service_url(self.service_name.as_str(), resolved) {
            Ok(base) => {
                let mut url = base;
                url.append(self.path.as_str());
                Ok(
                    OutboundRequest {
                        service_name: self.service_name,
                        path: self.path,
                        method: self.method,
                        url,
                        query: self.query,
                        body: self.body,
                    },
                )
            },
            Err(e) => Err(e),
        }
    }
}

impl OutboundRequest {
    /// Second step, once the HTTP exchange is over: the body of a success
    /// reply, `UpstreamStatus` with status and body for any other status, and
    /// `Transport` when no reply came.
    pub fn outcome(&self, reply: Result<HttpReply, String>) -> (r: Result<String, RpcError>)
        ensures
            match reply {
                Ok(rep) => if is_success(rep.status) {
                    r == Ok::<String, RpcError>(rep.body)
                } else {
                    r matches Err(RpcError::UpstreamStatus { service_name, path, status, body })
                        && service_name@ == self.service_name@ && path@ == self.path@ && status
                        == rep.status && body == rep.body
                },
                Err(detail) => r matches Err(RpcError::Transport { service_name, path, detail: d })
                    && service_name@ == self.service_name@ && path@ == self.path@ && d == detail,
            },
    {
        match reply {
            Ok(rep) => {
                if 200 <= rep.status && rep.status <= 299 {
                    Ok(rep.body)
                } else {
                    Err(
                        RpcError::UpstreamStatus {
                            service_name: self.service_name.clone(),
                            path: self.path.clone(),
                            status: rep.status,
                            body: rep.body,
                        },
                    )
                }
            },
            Err(detail) => Err(
                RpcError::Transport {
                    service_name: self.service_name.clone(),
                    path: self.path.clone(),
                    detail,
                },
            ),
        }
    }

    /// Last step, once the caller has decoded a success body into its own
    /// shape: a decoding failure is `ResponseDecode`.
    pub fn decoded<T>(&self, decoded: Result<T, String>) -> (r: Result<T, RpcError>)
        ensures
            match decoded {
                Ok(v) => r matches Ok(w) && w == v,
                Err(detail) => r matches Err(RpcError::ResponseDecode { service_name, detail: d })
                    && service_name@ == self.service_name@ && d == detail,
            },
    {
        match decoded {
            Ok(v) => Ok(v),
            Err(detail) => Err(
                RpcError::ResponseDecode { service_name: self.service_name.clone(), detail },
            ),
        }
    }
}

} // verus!
