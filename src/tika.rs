//! The remote text-extraction service: its configuration, the requests that
//! the pipeline sends it, and the title found in the metadata it returns.
//!
//! The requests are plain values; whoever holds the network connection sends
//! them and hands the answers back.

use vstd::prelude::*;
use vstd::string::StringExecFns;

use crate::metadata::{meta_title, searchkey, MetaNode, TITLE_KEY};

verus! {

/// Where the remote service listens, and whether it is used at all. Made once
/// and passed by reference through the whole pipeline.
#[derive(Debug)]
pub struct TikaConfig {
    pub host: String,
    pub port: String,
    pub active: bool,
}

/// The HTTP method of a request.
#[derive(Clone, Copy, Debug, PartialEq, Eq, Structural)]
pub enum Method {
    Get,
    Put,
}

/// A request to the remote service. Where `upload` names a file, the body is
/// that file's bytes.
#[derive(Debug)]
pub struct TikaRequest {
    pub method: Method,
    pub url: String,
    pub accept: Option<String>,
    pub upload: Option<String>,
}

pub open spec fn opt_view(o: Option<String>) -> Option<Seq<char>> {
    match o {
        Some(s) => Some(s@),
        None => None,
    }
}

/// The URL of `path` on the service that `c` names.
pub open spec fn endpoint(c: TikaConfig, path: Seq<char>) -> Seq<char> {
    "http://"@ + c.host@ + ":"@ + c.port@ + path
}

impl TikaRequest {
    /// The request is a `method` request of `url`, with that `Accept` header
    /// and that file as body.
    pub open spec fn is(
        &self,
        method: Method,
        url: Seq<char>,
        accept: Option<Seq<char>>,
        upload: Option<Seq<char>>,
    ) -> bool {
        &&& self.method == method
        &&& self.url@ == url
        &&& opt_view(self.accept) == accept
        &&& opt_view(self.upload) == upload
    }
}

/// The configuration of the remote service.
pub fn config(host: &str, port: &str, active: bool) -> (r: TikaConfig)
    ensures
        r.host@ == host@,
        r.port@ == port@,
        r.active == active,
{
    TikaConfig { host: host.to_string(), port: port.to_string(), active }
}

/// The URL of `path` on the configured service.
fn endpoint_url(config: &TikaConfig, path: &str) -> (r: String)
    ensures
        r@ == endpoint(*config, path@),
{
    let mut url = "http://".to_string();
    url.append(config.host.as_str());
    url.append(":");
    url.append(config.port.as_str());
    url.append(path);
    url
}

/// A plain `GET` of `url`.
pub fn get(url: &str) -> (r: TikaRequest)
    ensures
        r.is(Method::Get, url@, None, None),
{
    TikaRequest { method: Method::Get, url: url.to_string(), accept: None, upload: None }
}

/// A `PUT` of the bytes of `file` to `url`, asking for plain text back.
pub fn put_file(url: &str, file: &str) -> (r: TikaRequest)
    ensures
        r.is(Method::Put, url@, Some("text/plain"@), Some(file@)),
{
    TikaRequest {
        method: Method::Put,
        url: url.to_string(),
        accept: Some("text/plain".to_string()),
        upload: Some(file.to_string()),
    }
}

/// The liveness probe of the service.
pub fn check(config: &TikaConfig) -> (r: TikaRequest)
    ensures
        r.is(Method::Get, endpoint(*config, "/tika"@), None, None),
{
    get(endpoint_url(config, "/tika").as_str())
}

/// Asks the service for the MIME type of `file`.
pub fn detect(config: &TikaConfig, file: &str) -> (r: TikaRequest)
    ensures
        r.is(Method::Put, endpoint(*config, "/detect/stream"@), Some("text/plain"@), Some(file@)),
{
    put_file(endpoint_url(config, "/detect/stream").as_str(), file)
}

/// Asks the service for the language of `file`.
pub fn language(config: &TikaConfig, file: &str) -> (r: TikaRequest)
    ensures
        r.is(
            Method::Put,
            endpoint(*config, "/language/string"@),
            Some("text/plain"@),
            Some(file@),
        ),
{
    put_file(endpoint_url(config, "/language/string").as_str(), file)
}

/// Asks the service for the plain text of `file`.
pub fn text(config: &TikaConfig, file: &str) -> (r: TikaRequest)
    ensures
        r.is(Method::Put, endpoint(*config, "/tika"@), Some("text/plain"@), Some(file@)),
{
    put_file(endpoint_url(config, "/tika").as_str(), file)
}

/// Asks the service for the metadata tree of `file`, as JSON.
pub fn metadata(config: &TikaConfig, file: &str) -> (r: TikaRequest)
    ensures
        r.is(Method::Put, endpoint(*config, "/meta"@), Some("application/json"@), Some(file@)),
{
    TikaRequest {
        method: Method::Put,
        url: endpoint_url(config, "/meta"),
        accept: Some("application/json".to_string()),
        upload: Some(file.to_string()),
    }
}

/// The title that a metadata tree gives: the first value found under a key
/// that contains "title", or the empty text.
pub fn title(meta: &MetaNode) -> (r: String)
    ensures
        r@ == meta_title(*meta),
{
    let candidates = searchkey(meta, TITLE_KEY, false);
    if candidates.len() > 0 {
        candidates[0].clone()
    } else {
        String::new()
    }
}

} // verus!
