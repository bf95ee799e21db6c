use vstd::prelude::*;
use vstd::string::*;
use crate::text::{chars_of, push_char, string_from_chars, trimmed_end, trimmed_start};
use crate::request::{Effect, EffectView};
use crate::url::{host_starts_with, spec_host_starts_with, spec_url_for};

verus! {

/// Networking settings shared by all resources of one REST service: the
/// base URL and the two header values that every request carries.
pub struct Service {
    /// Base URL, e.g. `https://reqres.in/api`.
    pub base_url: String,
    /// `x-api-key` header value.
    pub api_key: Option<String>,
    /// `token` header value, set after a successful login.
    pub token: Option<String>,
}

/// The mathematical form of a [`Service`].
pub struct ServiceView {
    pub base_url: Seq<char>,
    pub api_key: Option<Seq<char>>,
    pub token: Option<Seq<char>>,
}

impl View for Service {
    type V = ServiceView;

    open spec fn view(&self) -> ServiceView {
        ServiceView {
            base_url: self.base_url@,
            api_key: self.api_key.deep_view(),
            token: self.token.deep_view(),
        }
    }
}

/// The headers of every request, in order: the API key, then the token,
/// each only when set.
pub open spec fn spec_common_headers(s: ServiceView) -> Seq<(Seq<char>, Seq<char>)> {
    (match s.api_key {
        Some(k) => seq![("x-api-key"@, k)],
        None => Seq::empty(),
    }) + (match s.token {
        Some(t) => seq![("token"@, t)],
        None => Seq::empty(),
    })
}

/// The API key that a base URL calls for: hosts starting with `reqres`
/// need one (the configured key, else the shared placeholder); other hosts none.
pub open spec fn spec_api_key_for(url: Seq<char>, configured: Option<Seq<char>>) -> Option<Seq<char>> {
    if spec_host_starts_with(url, "reqres"@) {
        Some(
            match configured {
                Some(k) => k,
                None => "reqres-free-v1"@,
            },
        )
    } else {
        None
    }
}

/// The token header, when a token is set, comes last and carries that
/// token; without a token there is no token header; the API key header
/// does not depend on the token.
pub proof fn law_token_header(s: ServiceView, t: Seq<char>)
    ensures
        spec_common_headers(ServiceView { token: Some(t), ..s })
            == spec_common_headers(ServiceView { token: None, ..s }).push(("token"@, t)),
        forall|i: int|
            0 <= i < spec_common_headers(ServiceView { token: None, ..s }).len()
                ==> #[trigger] spec_common_headers(ServiceView { token: None, ..s })[i].0 == "x-api-key"@,
{
    assert(spec_common_headers(ServiceView { token: Some(t), ..s })
        =~= spec_common_headers(ServiceView { token: None, ..s }).push(("token"@, t)));
}

/// Exactly the hosts that start with `reqres` get an API key header.
pub proof fn law_api_key_only_for_reqres(url: Seq<char>, configured: Option<Seq<char>>)
    ensures
        spec_api_key_for(url, configured) is Some <==> spec_host_starts_with(url, "reqres"@),
        spec_host_starts_with(url, "reqres"@) && configured is Some
            ==> spec_api_key_for(url, configured) == configured,
{
}

/// The common headers carry the stored settings themselves: the stored API
/// key under `x-api-key` first, the stored token under `token` last, one
/// header for each setting that is set and no other.
pub proof fn law_common_headers_carry_settings(s: ServiceView)
    ensures
        spec_common_headers(s).len() == (if s.api_key is Some { 1int } else { 0 }) + (if s.token is Some { 1int } else { 0 }),
        s.api_key is Some ==> spec_common_headers(s)[0] == ("x-api-key"@, s.api_key->0),
        s.token is Some ==> spec_common_headers(s).last() == ("token"@, s.token->0),
        s.api_key is None && s.token is Some ==> spec_common_headers(s)[0] == ("token"@, s.token->0),
{
}

/// Without a configured key a reqres host gets the shared placeholder key.
pub proof fn law_api_key_placeholder(url: Seq<char>)
    ensures
        spec_host_starts_with(url, "reqres"@) ==> spec_api_key_for(url, None) == Some("reqres-free-v1"@),
{
}

/// The service after one effect: a token effect sets the token, the others
/// leave the service alone.
pub open spec fn apply_effect(s: ServiceView, e: EffectView) -> ServiceView {
    match e {
        EffectView::SetToken(t) => ServiceView { token: t, ..s },
        _ => s,
    }
}

/// The service after a list of effects, applied in order.
pub open spec fn apply_effects(s: ServiceView, effects: Seq<EffectView>) -> ServiceView
    decreases effects.len(),
{
    if effects.len() == 0 {
        s
    } else {
        apply_effects(apply_effect(s, effects[0]), effects.drop_first())
    }
}

/// The mathematical form of an optional attached service.
pub open spec fn attached(s: Option<&Service>) -> Option<ServiceView> {
    match s {
        Some(x) => Some(x@),
        None => None,
    }
}

impl Service {
    /// A service with no base URL, no API key and no token.
    pub fn new() -> (s: Service)
        ensures
            s@.base_url == Seq::<char>::empty(),
            s@.api_key is None,
            s@.token is None,
    {
        Service { base_url: String::new(), api_key: None, token: None }
    }

    /// Build the absolute URL for a resource `path` (e.g. `"users"` -> `".../users"`).
    pub fn url_for(&self, path: &str) -> (url: String)
        ensures
            url@ == spec_url_for(self.base_url@, path@),
    {
        let b = chars_of(self.base_url.as_str());
        let p = chars_of(path);
        let end = trimmed_end(&b, '/');
        let start = trimmed_start(&p, '/');
        let mut url = string_from_chars(&b, 0, end);
        push_char(&mut url, '/');
        let tail = string_from_chars(&p, start, p.len());
        url.append(tail.as_str());
        assert(b@.subrange(0, end as int) == b@.take(end as int));
        assert(p@.subrange(start as int, p.len() as int) == p@.skip(start as int));
        url
    }

    /// The common headers to attach to every request (API key + auth token).
    pub fn common_headers(&self) -> (headers: Vec<(String, String)>)
        ensures
            headers.deep_view() == spec_common_headers(self@),
    {
        let mut headers: Vec<(String, String)> = Vec::new();
        match &self.api_key {
            Some(key) => {
                headers.push((String::from_str("x-api-key"), key.clone()));
            },
            None => {},
        }
        match &self.token {
            Some(token) => {
                headers.push((String::from_str("token"), token.clone()));
            },
            None => {},
        }
        assert(headers.deep_view() =~= spec_common_headers(self@));
        headers
    }

    /// Update the base URL and recompute the API key header. reqres.in needs
    /// an API key, other servers do not; `configured_key` is the key the
    /// user configured for it, if any.
    pub fn set_url(&mut self, url: &str, configured_key: Option<String>)
        ensures
            final(self)@.base_url == url@,
            final(self)@.api_key == spec_api_key_for(url@, configured_key.deep_view()),
            final(self)@.token == old(self)@.token,
    {
        self.base_url = String::from_str(url);
        self.api_key = if host_starts_with(url, "reqres") {
            match configured_key {
                Some(k) => Some(k),
                None => Some(String::from_str("reqres-free-v1")),
            }
        } else {
            None
        };
    }

    /// Set or clear the authentication token.
    pub fn set_token(&mut self, token: Option<String>)
        ensures
            final(self)@.token == token.deep_view(),
            final(self)@.base_url == old(self)@.base_url,
            final(self)@.api_key == old(self)@.api_key,
    {
        self.token = token;
    }

    /// Carries out the part of `effect` that concerns the service: a token
    /// effect sets the token; other effects change nothing here.
    pub fn apply_effect(&mut self, effect: &Effect)
        ensures
            final(self)@ == apply_effect(old(self)@, effect@),
    {
        match effect {
            Effect::SetToken(t) => {
                self.token = t.clone();
            },
            _ => {},
        }
    }

}

} // verus!
