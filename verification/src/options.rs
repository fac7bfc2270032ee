//! Caller-supplied configuration: a partially populated request whose unset
//! fields fall back to environment variables and then to hard defaults.

use vstd::prelude::*;

use crate::strmap::StrMap;

verus! {

/// OTLP transport protocol.
#[derive(Debug, Clone, Copy, PartialEq, Eq, Structural)]
pub enum Protocol {
    /// gRPC transport (port 4317).
    Grpc,
    /// HTTP with Protobuf encoding (the default, port 4318).
    HttpProtobuf,
    /// HTTP with JSON encoding (port 4318).
    HttpJson,
}

/// The view of an optional string as an optional character sequence.
pub open spec fn opt_view(o: Option<String>) -> Option<Seq<char>> {
    match o {
        Some(s) => Some(s@),
        None => None,
    }
}

/// Configuration options for the telemetry setup.
///
/// Use [`OtelOptions::builder()`] to construct an instance. All fields are
/// optional; unset values fall back to environment variables, then defaults.
pub struct OtelOptions {
    pub(crate) endpoint: Option<String>,
    pub(crate) protocol: Option<Protocol>,
    pub(crate) headers: StrMap,
    pub(crate) resource_attributes: StrMap,
    pub(crate) export_timeout: Option<u64>,
}

impl OtelOptions {
    /// The requested endpoint, when one was set.
    pub closed spec fn endpoint_spec(&self) -> Option<Seq<char>> {
        opt_view(self.endpoint)
    }

    /// The requested protocol, when one was set.
    pub closed spec fn protocol_spec(&self) -> Option<Protocol> {
        self.protocol
    }

    /// The requested export headers.
    pub closed spec fn headers_spec(&self) -> Map<Seq<char>, Seq<char>> {
        self.headers@
    }

    /// The requested resource attributes.
    pub closed spec fn attrs_spec(&self) -> Map<Seq<char>, Seq<char>> {
        self.resource_attributes@
    }

    /// The requested resource attributes as ordered pairs.
    pub closed spec fn attrs_pairs(&self) -> Seq<(Seq<char>, Seq<char>)> {
        self.resource_attributes.pairs()
    }

    /// The requested export timeout in milliseconds, when one was set.
    pub closed spec fn timeout_spec(&self) -> Option<u64> {
        self.export_timeout
    }

    /// Whether the held maps are well formed.
    pub closed spec fn wf(&self) -> bool {
        self.headers.wf() && self.resource_attributes.wf()
    }

    /// The requested protocol, when one was set.
    pub fn protocol_opt(&self) -> (r: Option<Protocol>)
        ensures
            r == self.protocol_spec(),
    {
        self.protocol
    }

    /// The requested endpoint, when one was set.
    pub fn endpoint_opt<'a>(&'a self) -> (r: Option<&'a String>)
        ensures
            match r {
                Some(s) => self.endpoint_spec() == Some(s@),
                None => self.endpoint_spec() is None,
            },
    {
        self.endpoint.as_ref()
    }

    /// The requested export headers.
    pub fn headers_map<'a>(&'a self) -> (r: &'a StrMap)
        ensures
            r@ == self.headers_spec(),
            self.wf() ==> r.wf(),
    {
        &self.headers
    }

    /// The requested resource attributes.
    pub fn attrs_map<'a>(&'a self) -> (r: &'a StrMap)
        ensures
            r@ == self.attrs_spec(),
            r.pairs() == self.attrs_pairs(),
            self.wf() ==> r.wf(),
    {
        &self.resource_attributes
    }

    /// The requested export timeout in milliseconds, when one was set.
    pub fn timeout_opt(&self) -> (r: Option<u64>)
        ensures
            r == self.timeout_spec(),
    {
        self.export_timeout
    }

    /// Create a new builder for `OtelOptions`.
    pub fn builder() -> (r: OtelOptionsBuilder)
        ensures
            r.wf(),
            r.endpoint_spec() is None,
            r.protocol_spec() is None,
            r.headers_spec() == Map::<Seq<char>, Seq<char>>::empty(),
            r.attrs_spec() == Map::<Seq<char>, Seq<char>>::empty(),
            r.timeout_spec() is None,
    {
        OtelOptionsBuilder {
            endpoint: None,
            protocol: None,
            headers: StrMap::new(),
            resource_attributes: StrMap::new(),
            export_timeout: None,
        }
    }
}

impl Default for OtelOptions {
    /// An options value with nothing requested.
    fn default() -> (r: OtelOptions)
        ensures
            r.wf(),
            r.endpoint_spec() is None,
            r.protocol_spec() is None,
            r.headers_spec() == Map::<Seq<char>, Seq<char>>::empty(),
            r.attrs_spec() == Map::<Seq<char>, Seq<char>>::empty(),
            r.timeout_spec() is None,
    {
        OtelOptions {
            endpoint: None,
            protocol: None,
            headers: StrMap::new(),
            resource_attributes: StrMap::new(),
            export_timeout: None,
        }
    }
}

/// Builder for [`OtelOptions`]; each call returns the updated builder value.
pub struct OtelOptionsBuilder {
    endpoint: Option<String>,
    protocol: Option<Protocol>,
    headers: StrMap,
    resource_attributes: StrMap,
    export_timeout: Option<u64>,
}

impl OtelOptionsBuilder {
    /// The endpoint set so far, when one was set.
    pub closed spec fn endpoint_spec(&self) -> Option<Seq<char>> {
        opt_view(self.endpoint)
    }

    /// The protocol set so far, when one was set.
    pub closed spec fn protocol_spec(&self) -> Option<Protocol> {
        self.protocol
    }

    /// The headers set so far.
    pub closed spec fn headers_spec(&self) -> Map<Seq<char>, Seq<char>> {
        self.headers@
    }

    /// The resource attributes set so far.
    pub closed spec fn attrs_spec(&self) -> Map<Seq<char>, Seq<char>> {
        self.resource_attributes@
    }

    /// The export timeout set so far, in milliseconds, when one was set.
    pub closed spec fn timeout_spec(&self) -> Option<u64> {
        self.export_timeout
    }

    /// Whether the held maps are well formed.
    pub closed spec fn wf(&self) -> bool {
        self.headers.wf() && self.resource_attributes.wf()
    }

    /// Set the OTLP endpoint (e.g. `"http://collector:4317"`).
    pub fn endpoint(self, endpoint: String) -> (r: Self)
        ensures
            r.endpoint_spec() == Some(endpoint@),
            r.protocol_spec() == self.protocol_spec(),
            r.headers_spec() == self.headers_spec(),
            r.attrs_spec() == self.attrs_spec(),
            r.timeout_spec() == self.timeout_spec(),
            self.wf() ==> r.wf(),
    {
        OtelOptionsBuilder { endpoint: Some(endpoint), ..self }
    }

    /// Set the OTLP transport protocol.
    pub fn protocol(self, protocol: Protocol) -> (r: Self)
        ensures
            r.endpoint_spec() == self.endpoint_spec(),
            r.protocol_spec() == Some(protocol),
            r.headers_spec() == self.headers_spec(),
            r.attrs_spec() == self.attrs_spec(),
            r.timeout_spec() == self.timeout_spec(),
            self.wf() ==> r.wf(),
    {
        OtelOptionsBuilder { protocol: Some(protocol), ..self }
    }

    /// Set headers to include in OTLP export requests (e.g. authorization
    /// tokens), replacing any headers set before.
    pub fn headers(self, headers: StrMap) -> (r: Self)
        requires
            headers.wf(),
        ensures
            r.endpoint_spec() == self.endpoint_spec(),
            r.protocol_spec() == self.protocol_spec(),
            r.headers_spec() == headers@,
            r.attrs_spec() == self.attrs_spec(),
            r.timeout_spec() == self.timeout_spec(),
            self.wf() ==> r.wf(),
    {
        OtelOptionsBuilder { headers, ..self }
    }

    /// Set additional resource attributes (e.g. a deployment environment
    /// name), replacing any attributes set before.
    pub fn resource_attributes(self, attrs: StrMap) -> (r: Self)
        requires
            attrs.wf(),
        ensures
            r.endpoint_spec() == self.endpoint_spec(),
            r.protocol_spec() == self.protocol_spec(),
            r.headers_spec() == self.headers_spec(),
            r.attrs_spec() == attrs@,
            r.timeout_spec() == self.timeout_spec(),
            self.wf() ==> r.wf(),
    {
        OtelOptionsBuilder { resource_attributes: attrs, ..self }
    }

    /// Set the export timeout for OTLP requests, in milliseconds.
    pub fn export_timeout(self, timeout_millis: u64) -> (r: Self)
        ensures
            r.endpoint_spec() == self.endpoint_spec(),
            r.protocol_spec() == self.protocol_spec(),
            r.headers_spec() == self.headers_spec(),
            r.attrs_spec() == self.attrs_spec(),
            r.timeout_spec() == Some(timeout_millis),
            self.wf() ==> r.wf(),
    {
        OtelOptionsBuilder { export_timeout: Some(timeout_millis), ..self }
    }

    /// Build the [`OtelOptions`].
    pub fn build(self) -> (r: OtelOptions)
        ensures
            r.endpoint_spec() == self.endpoint_spec(),
            r.protocol_spec() == self.protocol_spec(),
            r.headers_spec() == self.headers_spec(),
            r.attrs_spec() == self.attrs_spec(),
            r.timeout_spec() == self.timeout_spec(),
            self.wf() ==> r.wf(),
    {
        OtelOptions {
            endpoint: self.endpoint,
            protocol: self.protocol,
            headers: self.headers,
            resource_attributes: self.resource_attributes,
            export_timeout: self.export_timeout,
        }
    }
}

} // verus!
