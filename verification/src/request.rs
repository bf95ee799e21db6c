use vstd::prelude::*;

verus! {

/// The HTTP method of a request.
#[derive(Clone, Copy, Debug, PartialEq, Eq, Structural)]
pub enum Method {
    Get,
    Post,
    Put,
    Delete,
}

/// What a request carries as its body.
#[derive(Debug)]
pub enum Body {
    /// No body is set.
    NoBody,
    /// An empty text body.
    EmptyText,
    /// This JSON value, serialized.
    Json(serde_json::Value),
}

/// A request to send: method, absolute URL, headers in order, body.
#[derive(Debug)]
pub struct HttpRequest {
    pub method: Method,
    pub url: String,
    pub headers: Vec<(String, String)>,
    pub body: Body,
}

/// The mathematical form of an [`HttpRequest`].
pub struct RequestView {
    pub method: Method,
    pub url: Seq<char>,
    pub headers: Seq<(Seq<char>, Seq<char>)>,
    pub body: Body,
}

impl View for HttpRequest {
    type V = RequestView;

    open spec fn view(&self) -> RequestView {
        RequestView {
            method: self.method,
            url: self.url@,
            headers: self.headers.deep_view(),
            body: self.body,
        }
    }
}

/// A change notification of one of the elements' properties.
#[derive(Clone, Copy, Debug, PartialEq, Eq, Structural)]
pub enum Signal {
    /// The login element's user, login state or user id changed.
    UserChanged,
    /// The resource's page of items changed.
    DataUpdated,
    /// The resource's current page changed.
    PageUpdated,
    /// The resource's page count changed.
    PagesUpdated,
    /// The service's base URL changed.
    UrlChanged,
    /// The monitor's host name changed.
    HostnameChanged,
    /// The monitor's latency changed.
    LatencyChanged,
    /// The monitor's reachability changed.
    StatusChanged,
}

/// One thing that an operation asks its caller to do, in order.
#[derive(Debug)]
pub enum Effect {
    /// Notify observers of a property change.
    Emit(Signal),
    /// Send a request; its reply comes back through the matching `on_*_finished` operation.
    Send(HttpRequest),
    /// Set (or clear) the authentication token of the shared service.
    SetToken(Option<String>),
}

/// The mathematical form of an [`Effect`].
pub enum EffectView {
    Emit(Signal),
    Send(RequestView),
    SetToken(Option<Seq<char>>),
}

impl View for Effect {
    type V = EffectView;

    open spec fn view(&self) -> EffectView {
        match self {
            Effect::Emit(s) => EffectView::Emit(*s),
            Effect::Send(r) => EffectView::Send(r@),
            Effect::SetToken(t) => EffectView::SetToken(t.deep_view()),
        }
    }
}

/// The mathematical form of a list of effects.
pub open spec fn effects_view(effects: Seq<Effect>) -> Seq<EffectView> {
    effects.map_values(|e: Effect| e@)
}

} // verus!
