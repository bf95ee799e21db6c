use vstd::prelude::*;
use crate::request::{effects_view, Effect, EffectView, Signal};
use crate::service::{spec_api_key_for, Service};

verus! {

/// The rules of the REST service element: it exposes the shared service's
/// base URL, and changing it re-derives the API key and is announced.
pub struct RestService;

impl RestService {
    /// The base URL of the shared service.
    pub fn get_url(service: &Service) -> (url: String)
        ensures
            url@ == service@.base_url,
    {
        service.base_url.clone()
    }

    /// Sets the base URL of the shared service. The same URL again changes
    /// nothing; another one is stored, the API key recomputed (see
    /// [`Service::set_url`]) and the change announced.
    pub fn set_url(service: &mut Service, url: String, configured_key: Option<String>) -> (effects: Vec<Effect>)
        ensures
            old(service)@.base_url == url@ ==> final(service)@ == old(service)@ && effects@.len() == 0,
            old(service)@.base_url != url@ ==> {
                &&& final(service)@.base_url == url@
                &&& final(service)@.api_key == spec_api_key_for(url@, configured_key.deep_view())
                &&& final(service)@.token == old(service)@.token
                &&& effects_view(effects@) == seq![EffectView::Emit(Signal::UrlChanged)]
            },
    {
        if service.base_url == url {
            return Vec::new();
        }
        service.set_url(url.as_str(), configured_key);
        let mut effects: Vec<Effect> = Vec::new();
        effects.push(Effect::Emit(Signal::UrlChanged));
        assert(effects_view(effects@) =~= seq![EffectView::Emit(Signal::UrlChanged)]);
        effects
    }

    /// Requests can always use HTTPS.
    pub fn ssl_supported() -> (b: bool)
        ensures
            b,
    {
        true
    }
}

} // verus!
