//! The client configuration: the identity and capability headers that every
//! request carries, and builders over them. The transport connection pool
//! and the URL parsing live with the unverified driver; here the
//! configuration is plain text and the header list is computed exactly.

use vstd::prelude::*;
use vstd::string::StringExecFns;
use crate::query::Query;
use crate::request::{Method, RequestBuilder, TimeoutPolicy};
use crate::text::push_char;

verus! {

/// The configuration from which every request's headers are prepared.
#[derive(Debug, Clone, PartialEq, Eq)]
pub struct HttpClient {
    /// The base API URL the driver resolves request paths against.
    pub api_url: String,
    /// `X-Plex-Provides` header value. Comma-separated list.
    pub x_plex_provides: String,
    /// `X-Plex-Platform` header value.
    pub x_plex_platform: String,
    /// `X-Plex-Platform-Version` header value.
    pub x_plex_platform_version: String,
    /// `X-Plex-Product` header value.
    pub x_plex_product: String,
    /// `X-Plex-Version` header value.
    pub x_plex_version: String,
    /// `X-Plex-Device` header value.
    pub x_plex_device: String,
    /// `X-Plex-Device-Name` header value.
    pub x_plex_device_name: String,
    /// `X-Plex-Client-Identifier` header value: unique per device. The
    /// download queue is scoped by it, one queue per user and device.
    pub x_plex_client_identifier: String,
    /// `X-Plex-Token` header value: the authentication token, empty when
    /// unauthenticated.
    pub x_plex_token: String,
    /// `X-Plex-Sync-Version` header value.
    pub x_plex_sync_version: String,
    /// `X-Plex-Model` header value.
    pub x_plex_model: String,
    /// `X-Plex-Features` header value.
    pub x_plex_features: String,
    /// `X-Plex-Target-Client-Identifier` header value, for proxying a
    /// client request via a server; empty when unused.
    pub x_plex_target_client_identifier: String,
}

impl HttpClient {
    /// The bare minimum headers: the client identifier, the target client
    /// identifier when one is set, and the token when one is set.
    pub open spec fn spec_min_headers(self) -> Seq<(Seq<char>, Seq<char>)> {
        seq![("X-Plex-Client-Identifier"@, self.x_plex_client_identifier@)] + (
        if self.x_plex_target_client_identifier@.len() > 0 {
            seq![("X-Plex-Target-Client-Identifier"@, self.x_plex_target_client_identifier@)]
        } else {
            Seq::<(Seq<char>, Seq<char>)>::empty()
        }) + (if self.x_plex_token@.len() > 0 {
            seq![("X-Plex-Token"@, self.x_plex_token@)]
        } else {
            Seq::<(Seq<char>, Seq<char>)>::empty()
        })
    }

    /// The full header set: the minimum headers followed by the capability
    /// and identity headers.
    pub open spec fn spec_full_headers(self) -> Seq<(Seq<char>, Seq<char>)> {
        self.spec_min_headers() + seq![
            ("X-Plex-Provides"@, self.x_plex_provides@),
            ("X-Plex-Platform"@, self.x_plex_platform@),
            ("X-Plex-Platform-Version"@, self.x_plex_platform_version@),
            ("X-Plex-Product"@, self.x_plex_product@),
            ("X-Plex-Version"@, self.x_plex_version@),
            ("X-Plex-Device"@, self.x_plex_device@),
            ("X-Plex-Device-Name"@, self.x_plex_device_name@),
            ("X-Plex-Sync-Version"@, self.x_plex_sync_version@),
            ("X-Plex-Model"@, self.x_plex_model@),
            ("X-Plex-Features"@, self.x_plex_features@),
        ]
    }

    /// Computes the bare minimum header list.
    pub fn prepare_headers_min(&self) -> (r: Vec<(String, String)>)
        ensures
            Seq::new(r@.len(), |i: int| (r@[i].0@, r@[i].1@)) == self.spec_min_headers(),
    {
        let mut r: Vec<(String, String)> = Vec::new();
        r.push(
            (String::from_str("X-Plex-Client-Identifier"), self.x_plex_client_identifier.clone()),
        );
        if !self.x_plex_target_client_identifier.as_str().is_empty() {
            r.push(
                (
                    String::from_str("X-Plex-Target-Client-Identifier"),
                    self.x_plex_target_client_identifier.clone(),
                ),
            );
        }
        if !self.x_plex_token.as_str().is_empty() {
            r.push((String::from_str("X-Plex-Token"), self.x_plex_token.clone()));
        }
        proof {
            assert(Seq::new(r@.len(), |i: int| (r@[i].0@, r@[i].1@)) =~= self.spec_min_headers());
        }
        r
    }

    /// Computes the full header list.
    pub fn prepare_headers(&self) -> (r: Vec<(String, String)>)
        ensures
            Seq::new(r@.len(), |i: int| (r@[i].0@, r@[i].1@)) == self.spec_full_headers(),
    {
        let mut r = self.prepare_headers_min();
        r.push((String::from_str("X-Plex-Provides"), self.x_plex_provides.clone()));
        r.push((String::from_str("X-Plex-Platform"), self.x_plex_platform.clone()));
        r.push((String::from_str("X-Plex-Platform-Version"), self.x_plex_platform_version.clone()));
        r.push((String::from_str("X-Plex-Product"), self.x_plex_product.clone()));
        r.push((String::from_str("X-Plex-Version"), self.x_plex_version.clone()));
        r.push((String::from_str("X-Plex-Device"), self.x_plex_device.clone()));
        r.push((String::from_str("X-Plex-Device-Name"), self.x_plex_device_name.clone()));
        r.push((String::from_str("X-Plex-Sync-Version"), self.x_plex_sync_version.clone()));
        r.push((String::from_str("X-Plex-Model"), self.x_plex_model.clone()));
        r.push((String::from_str("X-Plex-Features"), self.x_plex_features.clone()));
        proof {
            assert(Seq::new(r@.len(), |i: int| (r@[i].0@, r@[i].1@)) =~= self.spec_full_headers());
        }
        r
    }

    /// Verifies that this client has an authentication token.
    pub fn is_authenticated(&self) -> (r: bool)
        ensures
            r <==> self.x_plex_token@.len() > 0,
    {
        !self.x_plex_token.as_str().is_empty()
    }

    /// Set the client's authentication token.
    pub fn set_x_plex_token(self, x_plex_token: String) -> (r: HttpClient)
        ensures
            r == (HttpClient { x_plex_token, ..self }),
    {
        HttpClient { x_plex_token, ..self }
    }

    /// Get a reference to the client's authentication token.
    pub fn x_plex_token(&self) -> (r: &str)
        ensures
            r@ == self.x_plex_token@,
    {
        self.x_plex_token.as_str()
    }

    fn request(&self, method: Method, path: String, minimal: bool) -> (r: RequestBuilder)
        ensures
            r.method == method,
            r.path@ == path@,
            r.query@ == Seq::<(Seq<char>, Seq<char>)>::empty(),
            r.spec_headers() == (if minimal {
                self.spec_min_headers()
            } else {
                self.spec_full_headers()
            }),
            r.body is None,
            r.timeout == TimeoutPolicy::DefaultTimeout,
    {
        let headers = if minimal {
            self.prepare_headers_min()
        } else {
            self.prepare_headers()
        };
        let r = RequestBuilder {
            method,
            path,
            query: Query::new(),
            headers,
            body: None,
            timeout: TimeoutPolicy::DefaultTimeout,
        };
        r
    }

    /// Begins a request using the HTTP POST method.
    pub fn post(&self, path: String) -> (r: RequestBuilder)
        ensures
            r.method == Method::Post,
            r.path@ == path@,
            r.query@ == Seq::<(Seq<char>, Seq<char>)>::empty(),
            r.spec_headers() == self.spec_full_headers(),
            r.body is None,
            r.timeout == TimeoutPolicy::DefaultTimeout,
    {
        self.request(Method::Post, path, false)
    }

    /// Does the same as [`Self::post`], but with only the bare minimum
    /// headers.
    pub fn postm(&self, path: String) -> (r: RequestBuilder)
        ensures
            r.method == Method::Post,
            r.path@ == path@,
            r.query@ == Seq::<(Seq<char>, Seq<char>)>::empty(),
            r.spec_headers() == self.spec_min_headers(),
            r.body is None,
            r.timeout == TimeoutPolicy::DefaultTimeout,
    {
        self.request(Method::Post, path, true)
    }

    /// Begins a request using the HTTP GET method.
    pub fn get(&self, path: String) -> (r: RequestBuilder)
        ensures
            r.method == Method::Get,
            r.path@ == path@,
            r.query@ == Seq::<(Seq<char>, Seq<char>)>::empty(),
            r.spec_headers() == self.spec_full_headers(),
            r.body is None,
            r.timeout == TimeoutPolicy::DefaultTimeout,
    {
        self.request(Method::Get, path, false)
    }

    /// Does the same as [`Self::get`], but with only the bare minimum
    /// headers.
    pub fn getm(&self, path: String) -> (r: RequestBuilder)
        ensures
            r.method == Method::Get,
            r.path@ == path@,
            r.query@ == Seq::<(Seq<char>, Seq<char>)>::empty(),
            r.spec_headers() == self.spec_min_headers(),
            r.body is None,
            r.timeout == TimeoutPolicy::DefaultTimeout,
    {
        self.request(Method::Get, path, true)
    }

    /// Begins a request using the HTTP PUT method.
    pub fn put(&self, path: String) -> (r: RequestBuilder)
        ensures
            r.method == Method::Put,
            r.path@ == path@,
            r.query@ == Seq::<(Seq<char>, Seq<char>)>::empty(),
            r.spec_headers() == self.spec_full_headers(),
            r.body is None,
            r.timeout == TimeoutPolicy::DefaultTimeout,
    {
        self.request(Method::Put, path, false)
    }

    /// Does the same as [`Self::put`], but with only the bare minimum
    /// headers.
    pub fn putm(&self, path: String) -> (r: RequestBuilder)
        ensures
            r.method == Method::Put,
            r.path@ == path@,
            r.query@ == Seq::<(Seq<char>, Seq<char>)>::empty(),
            r.spec_headers() == self.spec_min_headers(),
            r.body is None,
            r.timeout == TimeoutPolicy::DefaultTimeout,
    {
        self.request(Method::Put, path, true)
    }

    /// Begins a request using the HTTP DELETE method.
    pub fn delete(&self, path: String) -> (r: RequestBuilder)
        ensures
            r.method == Method::Delete,
            r.path@ == path@,
            r.query@ == Seq::<(Seq<char>, Seq<char>)>::empty(),
            r.spec_headers() == self.spec_full_headers(),
            r.body is None,
            r.timeout == TimeoutPolicy::DefaultTimeout,
    {
        self.request(Method::Delete, path, false)
    }

    /// Does the same as [`Self::delete`], but with only the bare minimum
    /// headers.
    pub fn deletem(&self, path: String) -> (r: RequestBuilder)
        ensures
            r.method == Method::Delete,
            r.path@ == path@,
            r.query@ == Seq::<(Seq<char>, Seq<char>)>::empty(),
            r.spec_headers() == self.spec_min_headers(),
            r.body is None,
            r.timeout == TimeoutPolicy::DefaultTimeout,
    {
        self.request(Method::Delete, path, true)
    }

    /// Begins a request using the HTTP HEAD method.
    pub fn head(&self, path: String) -> (r: RequestBuilder)
        ensures
            r.method == Method::Head,
            r.path@ == path@,
            r.query@ == Seq::<(Seq<char>, Seq<char>)>::empty(),
            r.spec_headers() == self.spec_full_headers(),
            r.body is None,
            r.timeout == TimeoutPolicy::DefaultTimeout,
    {
        self.request(Method::Head, path, false)
    }
}

/// A comma-joined list value, as the capability headers carry it.
pub open spec fn spec_join_comma(parts: Seq<Seq<char>>) -> Seq<char>
    decreases parts.len(),
{
    if parts.len() == 0 {
        Seq::empty()
    } else if parts.len() == 1 {
        parts[0]
    } else {
        spec_join_comma(parts.drop_last()) + seq![','] + parts.last()
    }
}

fn join_comma(parts: &Vec<String>) -> (s: String)
    ensures
        s@ == spec_join_comma(Seq::new(parts@.len(), |i: int| parts@[i]@)),
{
    let ghost pv = Seq::new(parts@.len(), |i: int| parts@[i]@);
    let mut s = String::new();
    let n = parts.len();
    let mut i: usize = 0;
    while i < n
        invariant
            i <= n,
            n == parts@.len(),
            pv == Seq::new(parts@.len(), |k: int| parts@[k]@),
            s@ =~= spec_join_comma(pv.subrange(0, i as int)),
        decreases n - i,
    {
        proof {
            assert(pv.subrange(0, i + 1 as int).drop_last() =~= pv.subrange(0, i as int));
            assert(pv.subrange(0, i + 1 as int).last() == pv[i as int]);
        }
        if i > 0 {
            push_char(&mut s, ',');
        }
        let p = parts[i].as_str();
        s.append(p);
        i = i + 1;
    }
    proof {
        assert(pv.subrange(0, n as int) =~= pv);
    }
    s
}

/// Builds a client configuration step by step.
#[derive(Debug)]
pub struct HttpClientBuilder {
    pub client: HttpClient,
}

impl HttpClientBuilder {
    /// Starts from the standard configuration: a controller client against
    /// the given API URL, with the machine facts the caller gathered
    /// (platform, its version, the host's name) and this client's product,
    /// version and unique identifier.
    pub fn new(
        api_url: String,
        platform: String,
        platform_version: String,
        device_name: String,
        client_identifier: String,
        product: String,
        version: String,
    ) -> (r: HttpClientBuilder)
        ensures
            r.client.api_url@ == api_url@,
            r.client.x_plex_provides@ == "controller"@,
            r.client.x_plex_platform@ == platform@,
            r.client.x_plex_platform_version@ == platform_version@,
            r.client.x_plex_product@ == product@,
            r.client.x_plex_version@ == version@,
            r.client.x_plex_device@ == platform@,
            r.client.x_plex_device_name@ == device_name@,
            r.client.x_plex_client_identifier@ == client_identifier@,
            r.client.x_plex_token@ == Seq::<char>::empty(),
            r.client.x_plex_sync_version@ == "2"@,
            r.client.x_plex_model@ == "hosted"@,
            r.client.x_plex_features@ == "external-media,indirect-media,hub-style-list"@,
            r.client.x_plex_target_client_identifier@ == Seq::<char>::empty(),
    {
        let device = platform.clone();
        HttpClientBuilder {
            client: HttpClient {
                api_url,
                x_plex_provides: String::from_str("controller"),
                x_plex_platform: platform,
                x_plex_platform_version: platform_version,
                x_plex_product: product,
                x_plex_version: version,
                x_plex_device: device,
                x_plex_device_name: device_name,
                x_plex_client_identifier: client_identifier,
                x_plex_token: String::new(),
                x_plex_sync_version: String::from_str("2"),
                x_plex_model: String::from_str("hosted"),
                x_plex_features: String::from_str("external-media,indirect-media,hub-style-list"),
                x_plex_target_client_identifier: String::new(),
            },
        }
    }

    /// Wraps an existing configuration for further changes.
    pub fn from(client: HttpClient) -> (r: HttpClientBuilder)
        ensures
            r.client == client,
    {
        HttpClientBuilder { client }
    }

    pub fn build(self) -> (r: HttpClient)
        ensures
            r == self.client,
    {
        self.client
    }

    pub fn set_api_url(self, api_url: String) -> (r: HttpClientBuilder)
        ensures
            r.client == (HttpClient { api_url, ..self.client }),
    {
        HttpClientBuilder { client: HttpClient { api_url, ..self.client } }
    }

    pub fn set_x_plex_token(self, token: String) -> (r: HttpClientBuilder)
        ensures
            r.client == (HttpClient { x_plex_token: token, ..self.client }),
    {
        HttpClientBuilder { client: HttpClient { x_plex_token: token, ..self.client } }
    }

    pub fn set_x_plex_client_identifier(self, client_identifier: String) -> (r: HttpClientBuilder)
        ensures
            r.client == (HttpClient {
                x_plex_client_identifier: client_identifier,
                ..self.client
            }),
    {
        HttpClientBuilder {
            client: HttpClient { x_plex_client_identifier: client_identifier, ..self.client },
        }
    }

    /// Sets the provided capabilities, joined with commas.
    pub fn set_x_plex_provides(self, provides: &Vec<String>) -> (r: HttpClientBuilder)
        ensures
            r.client.x_plex_provides@ == spec_join_comma(
                Seq::new(provides@.len(), |i: int| provides@[i]@),
            ),
            r.client == (HttpClient {
                x_plex_provides: r.client.x_plex_provides,
                ..self.client
            }),
    {
        let joined = join_comma(provides);
        HttpClientBuilder { client: HttpClient { x_plex_provides: joined, ..self.client } }
    }

    pub fn set_x_plex_platform(self, platform: String) -> (r: HttpClientBuilder)
        ensures
            r.client == (HttpClient { x_plex_platform: platform, ..self.client }),
    {
        HttpClientBuilder { client: HttpClient { x_plex_platform: platform, ..self.client } }
    }

    pub fn set_x_plex_platform_version(self, platform_version: String) -> (r: HttpClientBuilder)
        ensures
            r.client == (HttpClient {
                x_plex_platform_version: platform_version,
                ..self.client
            }),
    {
        HttpClientBuilder {
            client: HttpClient { x_plex_platform_version: platform_version, ..self.client },
        }
    }

    pub fn set_x_plex_product(self, product: String) -> (r: HttpClientBuilder)
        ensures
            r.client == (HttpClient { x_plex_product: product, ..self.client }),
    {
        HttpClientBuilder { client: HttpClient { x_plex_product: product, ..self.client } }
    }

    pub fn set_x_plex_version(self, version: String) -> (r: HttpClientBuilder)
        ensures
            r.client == (HttpClient { x_plex_version: version, ..self.client }),
    {
        HttpClientBuilder { client: HttpClient { x_plex_version: version, ..self.client } }
    }

    pub fn set_x_plex_device(self, device: String) -> (r: HttpClientBuilder)
        ensures
            r.client == (HttpClient { x_plex_device: device, ..self.client }),
    {
        HttpClientBuilder { client: HttpClient { x_plex_device: device, ..self.client } }
    }

    pub fn set_x_plex_device_name(self, device_name: String) -> (r: HttpClientBuilder)
        ensures
            r.client == (HttpClient { x_plex_device_name: device_name, ..self.client }),
    {
        HttpClientBuilder { client: HttpClient { x_plex_device_name: device_name, ..self.client } }
    }

    pub fn set_x_plex_model(self, model: String) -> (r: HttpClientBuilder)
        ensures
            r.client == (HttpClient { x_plex_model: model, ..self.client }),
    {
        HttpClientBuilder { client: HttpClient { x_plex_model: model, ..self.client } }
    }

    /// Sets the feature list, joined with commas.
    pub fn set_x_plex_features(self, features: &Vec<String>) -> (r: HttpClientBuilder)
        ensures
            r.client.x_plex_features@ == spec_join_comma(
                Seq::new(features@.len(), |i: int| features@[i]@),
            ),
            r.client == (HttpClient {
                x_plex_features: r.client.x_plex_features,
                ..self.client
            }),
    {
        let joined = join_comma(features);
        HttpClientBuilder { client: HttpClient { x_plex_features: joined, ..self.client } }
    }
}

} // verus!
