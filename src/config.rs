use vstd::prelude::*;
use vstd::string::*;
use crate::error::OpenAIError;

verus! {

/// Base URL of the default service.
pub const OPENAI_API_BASE: &'static str = "https://api.openai.com/v1";

/// Configuration of the default service: bearer authentication and a fixed
/// URL scheme (base URL followed by the endpoint path).
pub struct OpenAIConfig {
    pub api_base: String,
    pub api_key: String,
    /// Organization id; an empty one is not sent.
    pub org_id: String,
}

/// Configuration of the enterprise gateway: the URL holds a deployment
/// segment, the API version is a mandatory query parameter and the key goes
/// in an `api-key` header.
pub struct AzureConfig {
    pub api_base: String,
    pub api_key: String,
    pub deployment_id: String,
    pub api_version: Option<String>,
}

/// One of the two deployment backends.
pub enum Config {
    OpenAI(OpenAIConfig),
    Azure(AzureConfig),
}

pub open spec fn bearer_prefix() -> Seq<char> {
    "Bearer "@
}

pub open spec fn deployments_segment() -> Seq<char> {
    "/openai/deployments/"@
}

/// Whether a gateway configuration holds an API version: an empty one
/// counts as missing.
pub open spec fn has_version(a: AzureConfig) -> bool {
    a.api_version matches Some(v) && v@.len() > 0
}

pub open spec fn opt_version(a: AzureConfig) -> Option<Seq<char>> {
    match a.api_version {
        Some(v) => Some(v@),
        None => None,
    }
}

/// The URL of an endpoint under a configuration, or `None` when the
/// configuration cannot build one.
pub open spec fn url_spec(c: Config, path: Seq<char>) -> Option<Seq<char>> {
    match c {
        Config::OpenAI(o) => Some(o.api_base@ + path),
        Config::Azure(a) => if has_version(a) {
            Some(a.api_base@ + deployments_segment() + a.deployment_id@ + path)
        } else {
            None
        },
    }
}

/// The query parameters sent with every request, or `None` when the
/// configuration cannot build them.
pub open spec fn query_spec(c: Config) -> Option<Seq<(Seq<char>, Seq<char>)>> {
    match c {
        Config::OpenAI(_) => Some(Seq::empty()),
        Config::Azure(a) => match a.api_version {
            Some(v) => if v@.len() > 0 {
                Some(seq![("api-version"@, v@)])
            } else {
                None
            },
            None => None,
        },
    }
}

/// The headers sent with every request, in order.
pub open spec fn headers_spec(c: Config) -> Seq<(Seq<char>, Seq<char>)> {
    match c {
        Config::OpenAI(o) => {
            let auth = seq![("Authorization"@, bearer_prefix() + o.api_key@)];
            if o.org_id@.len() == 0 {
                auth
            } else {
                auth.push(("OpenAI-Organization"@, o.org_id@))
            }
        },
        Config::Azure(a) => seq![("api-key"@, a.api_key@)],
    }
}

pub open spec fn pairs_view(v: Seq<(String, String)>) -> Seq<(Seq<char>, Seq<char>)> {
    Seq::new(v.len(), |i: int| (v[i].0@, v[i].1@))
}

fn missing_version() -> (r: OpenAIError)
    ensures
        r is Configuration,
{
    OpenAIError::Configuration(String::from_str("api version is required by the gateway configuration"))
}

impl OpenAIConfig {
    /// A configuration for the default service with the given key.
    pub fn new(api_key: String) -> (r: OpenAIConfig)
        ensures
            r.api_base@ == OPENAI_API_BASE@,
            r.api_key@ == api_key@,
            r.org_id@.len() == 0,
    {
        OpenAIConfig { api_base: String::from_str(OPENAI_API_BASE), api_key, org_id: String::new() }
    }
}

impl Config {
    /// The URL of the endpoint at `path`.
    pub fn url(&self, path: &str) -> (r: Result<String, OpenAIError>)
        ensures
            match url_spec(*self, path@) {
                Some(u) => r matches Ok(s) && s@ == u,
                None => r matches Err(e) && e is Configuration,
            },
    {
        match self {
            Config::OpenAI(o) => Ok(o.api_base.clone().concat(path)),
            Config::Azure(a) => match &a.api_version {
                Some(v) if v.as_str().unicode_len() != 0 => {
                    let u = a.api_base.clone().concat("/openai/deployments/");
                    let u = u.concat(a.deployment_id.as_str());
                    Ok(u.concat(path))
                },
                _ => Err(missing_version()),
            },
        }
    }

    /// The query parameters of every request.
    pub fn query(&self) -> (r: Result<Vec<(String, String)>, OpenAIError>)
        ensures
            match query_spec(*self) {
                Some(q) => r matches Ok(v) && pairs_view(v@) == q,
                None => r matches Err(e) && e is Configuration,
            },
    {
        match self {
            Config::OpenAI(_) => {
                let v: Vec<(String, String)> = Vec::new();
                proof {
                    assert(pairs_view(v@) =~= Seq::empty());
                }
                Ok(v)
            },
            Config::Azure(a) => match &a.api_version {
                Some(ver) if ver.as_str().unicode_len() != 0 => {
                    let mut v: Vec<(String, String)> = Vec::new();
                    v.push((String::from_str("api-version"), ver.clone()));
                    proof {
                        assert(pairs_view(v@) =~= seq![("api-version"@, ver@)]);
                    }
                    Ok(v)
                },
                _ => Err(missing_version()),
            },
        }
    }

    /// The headers of every request: authentication, then organization.
    pub fn headers(&self) -> (r: Vec<(String, String)>)
        ensures
            pairs_view(r@) == headers_spec(*self),
    {
        let mut v: Vec<(String, String)> = Vec::new();
        match self {
            Config::OpenAI(o) => {
                let auth = String::from_str("Bearer ").concat(o.api_key.as_str());
                v.push((String::from_str("Authorization"), auth));
                if o.org_id.as_str().unicode_len() != 0 {
                    v.push((String::from_str("OpenAI-Organization"), o.org_id.clone()));
                }
            },
            Config::Azure(a) => {
                v.push((String::from_str("api-key"), a.api_key.clone()));
            },
        }
        proof {
            assert(pairs_view(v@) =~= headers_spec(*self));
        }
        v
    }
}

/// A gateway configuration without an API version, or with an empty one,
/// yields neither a URL nor query parameters; a default-service
/// configuration never sends an `api-version` parameter.
pub proof fn lemma_api_version_rules(c: Config, path: Seq<char>)
    ensures
        (c matches Config::Azure(a) && !has_version(a)) ==> url_spec(c, path) is None && query_spec(c) is None,
        c is OpenAI ==> (url_spec(c, path) is Some && (query_spec(c) matches Some(q) && forall|i: int|
            0 <= i < q.len() ==> (#[trigger] q[i]).0 != "api-version"@)),
        c matches Config::Azure(a) ==> (has_version(a) ==> (query_spec(c) matches Some(q) && q.len() == 1
            && q[0].0 == "api-version"@ && Some(q[0].1) == opt_version(a))),
{
}

} // verus!
