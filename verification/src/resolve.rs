//! The configuration resolver: merges caller options, environment variable
//! values, and hard defaults into one fully populated configuration.
//!
//! Precedence, highest first: programmatic option, environment variable,
//! default. An environment variable that is unset or empty never overrides,
//! and a malformed protocol or timeout value falls through to the default.

use vstd::prelude::*;
use vstd::string::*;

use crate::options::{opt_view, OtelOptions, Protocol};
use crate::strmap::StrMap;
use crate::strutil::{
    find_char, first_index_of, parse_u64, parse_u64_spec, str_eq, trim, trim_str,
};

verus! {

/// The export timeout used when neither the caller nor the environment set one.
pub const DEFAULT_EXPORT_TIMEOUT_MILLIS: u64 = 30000;

/// The environment variable values that the resolver consumes, each `None`
/// when the variable is unset.
pub struct EnvVars {
    /// `OTEL_SERVICE_NAME`
    pub service_name: Option<String>,
    /// `OTEL_EXPORTER_OTLP_ENDPOINT`
    pub endpoint: Option<String>,
    /// `OTEL_EXPORTER_OTLP_PROTOCOL`
    pub protocol: Option<String>,
    /// `OTEL_EXPORTER_OTLP_HEADERS`
    pub headers: Option<String>,
    /// `OTEL_EXPORTER_OTLP_TIMEOUT`
    pub timeout: Option<String>,
}

impl EnvVars {
    /// An environment with none of the variables set.
    pub fn empty() -> (r: EnvVars)
        ensures
            r.service_name is None,
            r.endpoint is None,
            r.protocol is None,
            r.headers is None,
            r.timeout is None,
    {
        EnvVars {
            service_name: None,
            endpoint: None,
            protocol: None,
            headers: None,
            timeout: None,
        }
    }
}

/// Whether an environment value is present and non-empty; an empty value is
/// treated as absent for every field.
pub open spec fn env_present(v: Option<Seq<char>>) -> bool {
    match v {
        Some(s) => s.len() > 0,
        None => false,
    }
}

/// The service name: the environment value when non-empty, else the
/// caller-supplied default. (This field has no programmatic tier.)
pub open spec fn resolved_service_name(default_name: Seq<char>, env: Option<Seq<char>>) -> Seq<
    char,
> {
    if env_present(env) {
        env.unwrap()
    } else {
        default_name
    }
}

/// The protocol named by a recognized literal, or `None` for anything else.
pub open spec fn protocol_of_str(s: Seq<char>) -> Option<Protocol> {
    if s == "grpc"@ {
        Some(Protocol::Grpc)
    } else if s == "http/protobuf"@ {
        Some(Protocol::HttpProtobuf)
    } else if s == "http/json"@ {
        Some(Protocol::HttpJson)
    } else {
        None
    }
}

/// The protocol contributed by the environment, if any.
pub open spec fn env_protocol(env: Option<Seq<char>>) -> Option<Protocol> {
    if env_present(env) {
        protocol_of_str(env.unwrap())
    } else {
        None
    }
}

/// The protocol: the programmatic value, else a recognized environment
/// value, else HTTP with Protobuf encoding.
pub open spec fn resolved_protocol(req: Option<Protocol>, env: Option<Seq<char>>) -> Protocol {
    match req {
        Some(p) => p,
        None => match env_protocol(env) {
            Some(p) => p,
            None => Protocol::HttpProtobuf,
        },
    }
}

/// The default endpoint for a protocol.
pub open spec fn default_endpoint(p: Protocol) -> Seq<char> {
    match p {
        Protocol::Grpc => "http://localhost:4317"@,
        Protocol::HttpProtobuf => "http://localhost:4318"@,
        Protocol::HttpJson => "http://localhost:4318"@,
    }
}

/// The endpoint: the programmatic value, else a non-empty environment value,
/// else the default chosen by the already-resolved protocol.
pub open spec fn resolved_endpoint(
    req: Option<Seq<char>>,
    env: Option<Seq<char>>,
    p: Protocol,
) -> Seq<char> {
    match req {
        Some(e) => e,
        None => if env_present(env) {
            env.unwrap()
        } else {
            default_endpoint(p)
        },
    }
}

/// The entry contributed by one comma-separated header segment: the part
/// before the first `=` is the key and the rest the value, both trimmed; a
/// segment without `=` or with an empty key contributes nothing.
pub open spec fn pair_map(seg: Seq<char>) -> Map<Seq<char>, Seq<char>> {
    let i = first_index_of(seg, '=');
    if i < 0 || i >= seg.len() {
        Map::<Seq<char>, Seq<char>>::empty()
    } else {
        let k = trim(seg.subrange(0, i));
        let v = trim(seg.subrange(i + 1, seg.len() as int));
        if k.len() == 0 {
            Map::<Seq<char>, Seq<char>>::empty()
        } else {
            Map::<Seq<char>, Seq<char>>::empty().insert(k, v)
        }
    }
}

/// The map read from a comma-separated header list; on a repeated key the
/// later segment wins.
pub open spec fn parse_headers(s: Seq<char>) -> Map<Seq<char>, Seq<char>>
    decreases s.len(),
{
    let i = first_index_of(s, ',');
    if i < 0 || i >= s.len() {
        pair_map(s)
    } else {
        pair_map(s.subrange(0, i)).union_prefer_right(
            parse_headers(s.subrange(i + 1, s.len() as int)),
        )
    }
}

/// The headers contributed by the environment, if any.
pub open spec fn env_headers(env: Option<Seq<char>>) -> Map<Seq<char>, Seq<char>> {
    if env_present(env) {
        parse_headers(env.unwrap())
    } else {
        Map::<Seq<char>, Seq<char>>::empty()
    }
}

/// The headers: environment headers with programmatic headers laid over
/// them, so both sources contribute and the programmatic value wins on a
/// shared key.
pub open spec fn resolved_headers(
    req: Map<Seq<char>, Seq<char>>,
    env: Option<Seq<char>>,
) -> Map<Seq<char>, Seq<char>> {
    env_headers(env).union_prefer_right(req)
}

/// The timeout contributed by the environment, if any: a value that does not
/// read as an unsigned number of milliseconds counts as absent.
pub open spec fn env_timeout(env: Option<Seq<char>>) -> Option<u64> {
    if env_present(env) {
        parse_u64_spec(env.unwrap())
    } else {
        None
    }
}

/// The export timeout in milliseconds: the programmatic value, else a
/// parseable environment value, else thirty seconds.
pub open spec fn resolved_timeout(req: Option<u64>, env: Option<Seq<char>>) -> u64 {
    match req {
        Some(t) => t,
        None => match env_timeout(env) {
            Some(t) => t,
            None => DEFAULT_EXPORT_TIMEOUT_MILLIS,
        },
    }
}

/// Precedence invariant: a programmatic value appears in the resolved
/// configuration verbatim, whatever the environment holds. For headers this
/// reads key by key: a programmatic entry always wins on its key.
pub proof fn lemma_programmatic_precedence(
    req_protocol: Option<Protocol>,
    req_endpoint: Option<Seq<char>>,
    req_timeout: Option<u64>,
    req_headers: Map<Seq<char>, Seq<char>>,
    envp: Option<Seq<char>>,
    enve: Option<Seq<char>>,
    envt: Option<Seq<char>>,
    envh: Option<Seq<char>>,
    p: Protocol,
    k: Seq<char>,
)
    ensures
        req_protocol is Some ==> resolved_protocol(req_protocol, envp) == req_protocol.unwrap(),
        req_endpoint is Some ==> resolved_endpoint(req_endpoint, enve, p) == req_endpoint.unwrap(),
        req_timeout is Some ==> resolved_timeout(req_timeout, envt) == req_timeout.unwrap(),
        req_headers.contains_key(k) ==> resolved_headers(req_headers, envh).contains_key(k)
            && resolved_headers(req_headers, envh)[k] == req_headers[k],
{
}

/// Environment fallback: with no programmatic value and a present, non-empty,
/// well-formed environment value, the resolved value is the environment's,
/// after its trimming and parsing rules.
pub proof fn lemma_environment_fallback(
    req_endpoint: Option<Seq<char>>,
    req_timeout: Option<u64>,
    name_default: Seq<char>,
    envn: Option<Seq<char>>,
    envp: Option<Seq<char>>,
    enve: Option<Seq<char>>,
    envt: Option<Seq<char>>,
    p: Protocol,
)
    ensures
        env_present(envn) ==> resolved_service_name(name_default, envn) == envn.unwrap(),
        env_protocol(envp) is Some ==> resolved_protocol(None, envp) == env_protocol(
            envp,
        ).unwrap(),
        req_endpoint is None && env_present(enve) ==> resolved_endpoint(req_endpoint, enve, p)
            == enve.unwrap(),
        req_timeout is None && env_timeout(envt) is Some ==> resolved_timeout(req_timeout, envt)
            == env_timeout(envt).unwrap(),
{
}

/// Default fallback: with no programmatic value and an absent, empty or
/// malformed environment value, the resolved value is the hard default, and
/// the endpoint default is chosen by the already-resolved protocol.
pub proof fn lemma_default_fallback(
    req_protocol: Option<Protocol>,
    name_default: Seq<char>,
    envn: Option<Seq<char>>,
    envp: Option<Seq<char>>,
    enve: Option<Seq<char>>,
    envt: Option<Seq<char>>,
)
    ensures
        !env_present(envn) ==> resolved_service_name(name_default, envn) == name_default,
        env_protocol(envp) is None ==> resolved_protocol(None, envp) == Protocol::HttpProtobuf,
        !env_present(enve) ==> resolved_endpoint(None, enve, resolved_protocol(req_protocol, envp))
            == default_endpoint(resolved_protocol(req_protocol, envp)),
        env_timeout(envt) is None ==> resolved_timeout(None, envt)
            == DEFAULT_EXPORT_TIMEOUT_MILLIS,
{
}

/// Header merge is additive, not exclusive: the resolved headers hold exactly
/// the keys of both sources; on a shared key the programmatic value wins, and
/// a key only the environment contributes keeps the environment's value.
pub proof fn lemma_header_merge_additive(
    req: Map<Seq<char>, Seq<char>>,
    envh: Option<Seq<char>>,
    k: Seq<char>,
)
    ensures
        resolved_headers(req, envh).contains_key(k) <==> (env_headers(envh).contains_key(k)
            || req.contains_key(k)),
        req.contains_key(k) ==> resolved_headers(req, envh)[k] == req[k],
        env_headers(envh).contains_key(k) && !req.contains_key(k) ==> resolved_headers(req, envh)[k]
            == env_headers(envh)[k],
{
}

/// Fully resolved configuration after merging programmatic options,
/// environment values, and defaults.
pub struct ResolvedConfig {
    /// The service name attached to all telemetry.
    pub service_name: String,
    /// The collector endpoint.
    pub endpoint: String,
    /// The transport protocol.
    pub protocol: Protocol,
    /// Headers for export requests.
    pub headers: StrMap,
    /// Additional resource attributes.
    pub resource_attributes: StrMap,
    /// The export timeout in milliseconds.
    pub export_timeout: u64,
}

impl ResolvedConfig {
    /// Whether the held maps are well formed.
    pub open spec fn wf(&self) -> bool {
        self.headers.wf() && self.resource_attributes.wf()
    }
}

/// A non-empty environment value, or `None`.
fn env_var_non_empty<'a>(v: &'a Option<String>) -> (r: Option<&'a String>)
    ensures
        match r {
            Some(s) => env_present(opt_view(*v)) && opt_view(*v) == Some(s@),
            None => !env_present(opt_view(*v)),
        },
{
    match v {
        Some(s) => if s.as_str().is_empty() {
            None
        } else {
            Some(s)
        },
        None => None,
    }
}

/// Read `OTEL_EXPORTER_OTLP_PROTOCOL`: exactly three literals are
/// recognized, and anything else counts as unset.
pub fn parse_protocol_env(v: &Option<String>) -> (r: Option<Protocol>)
    ensures
        r == env_protocol(opt_view(*v)),
{
    proof {
        reveal_strlit("grpc");
        reveal_strlit("http/protobuf");
        reveal_strlit("http/json");
    }
    match v {
        Some(s) => if str_eq(s.as_str(), "grpc") {
            Some(Protocol::Grpc)
        } else if str_eq(s.as_str(), "http/protobuf") {
            Some(Protocol::HttpProtobuf)
        } else if str_eq(s.as_str(), "http/json") {
            Some(Protocol::HttpJson)
        } else {
            None
        },
        None => None,
    }
}

/// The entry of one header segment, as `pair_map` describes it.
fn parse_header_pair(seg: &str) -> (r: StrMap)
    ensures
        r.wf(),
        r@ == pair_map(seg@),
{
    match find_char(seg, '=') {
        None => StrMap::new(),
        Some(i) => {
            let n = seg.unicode_len();
            let kraw = seg.substring_char(0, i);
            let vraw = seg.substring_char(i + 1, n);
            let k = trim_str(kraw);
            let v = trim_str(vraw);
            if k.unicode_len() == 0 {
                StrMap::new()
            } else {
                StrMap::new().insert(String::from_str(k), String::from_str(v))
            }
        },
    }
}

/// The map of a comma-separated header list, as `parse_headers` describes it.
fn parse_header_list(s: &str) -> (r: StrMap)
    ensures
        r.wf(),
        r@ == parse_headers(s@),
    decreases s@.len(),
{
    match find_char(s, ',') {
        None => parse_header_pair(s),
        Some(i) => {
            let n = s.unicode_len();
            let head = s.substring_char(0, i);
            let rest = s.substring_char(i + 1, n);
            let m_head = parse_header_pair(head);
            let m_rest = parse_header_list(rest);
            m_head.extend(&m_rest)
        },
    }
}

/// Read `OTEL_EXPORTER_OTLP_HEADERS` as comma-separated `key=value` pairs;
/// segments without a separator or with an empty key are dropped.
pub fn parse_headers_env(v: &Option<String>) -> (r: StrMap)
    ensures
        r.wf(),
        r@ == env_headers(opt_view(*v)),
{
    match env_var_non_empty(v) {
        Some(s) => parse_header_list(s.as_str()),
        None => StrMap::new(),
    }
}

/// Read `OTEL_EXPORTER_OTLP_TIMEOUT` as an unsigned number of milliseconds;
/// an unparseable value counts as unset.
pub fn parse_timeout_env(v: &Option<String>) -> (r: Option<u64>)
    ensures
        r == env_timeout(opt_view(*v)),
{
    match env_var_non_empty(v) {
        Some(s) => parse_u64(s.as_str()),
        None => None,
    }
}

/// Resolve configuration by merging programmatic options, environment
/// values, and defaults. Every field of the result is fully determined:
/// a programmatic value is kept verbatim; otherwise a present, non-empty,
/// well-formed environment value is used; otherwise the hard default, with
/// the endpoint default chosen by the already-resolved protocol.
pub fn resolve_config(service_name: &str, opts: &OtelOptions, env: &EnvVars) -> (r: ResolvedConfig)
    requires
        opts.wf(),
    ensures
        r.wf(),
        r.service_name@ == resolved_service_name(service_name@, opt_view(env.service_name)),
        r.protocol == resolved_protocol(opts.protocol_spec(), opt_view(env.protocol)),
        r.endpoint@ == resolved_endpoint(
            opts.endpoint_spec(),
            opt_view(env.endpoint),
            r.protocol,
        ),
        r.headers@ == resolved_headers(opts.headers_spec(), opt_view(env.headers)),
        r.resource_attributes@ == opts.attrs_spec(),
        r.resource_attributes.pairs() == opts.attrs_pairs(),
        r.export_timeout == resolved_timeout(opts.timeout_spec(), opt_view(env.timeout)),
{
    let resolved_name: String = match env_var_non_empty(&env.service_name) {
        Some(s) => s.clone(),
        None => String::from_str(service_name),
    };

    let protocol: Protocol = match opts.protocol_opt() {
        Some(p) => p,
        None => match parse_protocol_env(&env.protocol) {
            Some(p) => p,
            None => Protocol::HttpProtobuf,
        },
    };

    let endpoint: String = match opts.endpoint_opt() {
        Some(e) => e.clone(),
        None => match env_var_non_empty(&env.endpoint) {
            Some(s) => s.clone(),
            None => match protocol {
                Protocol::Grpc => String::from_str("http://localhost:4317"),
                Protocol::HttpProtobuf => String::from_str("http://localhost:4318"),
                Protocol::HttpJson => String::from_str("http://localhost:4318"),
            },
        },
    };

    let env_header_map = parse_headers_env(&env.headers);
    let headers = env_header_map.extend(opts.headers_map());

    let export_timeout: u64 = match opts.timeout_opt() {
        Some(t) => t,
        None => match parse_timeout_env(&env.timeout) {
            Some(t) => t,
            None => DEFAULT_EXPORT_TIMEOUT_MILLIS,
        },
    };

    ResolvedConfig {
        service_name: resolved_name,
        endpoint,
        protocol,
        headers,
        resource_attributes: opts.attrs_map().duplicate(),
        export_timeout,
    }
}

} // verus!
