use vstd::prelude::*;
use crate::json::{json_member_str, json_parses, json_value, JsonDoc};
use crate::request::{effects_view, Body, Effect, EffectView, HttpRequest, Method, RequestView, Signal};
use crate::service::{apply_effects, spec_common_headers, Service, ServiceView};
use crate::status::{is_success, spec_is_success};
use crate::url::spec_url_for;

verus! {

/// Posts credentials to the server's login endpoint and, on success, stores
/// the returned `token` in the shared [`Service`] so that later resource
/// requests are authenticated.
pub struct BasicLogin {
    pub login_path: String,
    pub logout_path: String,
    /// Email of the logged-in user, empty when logged out.
    pub user: String,
    pub logged_in: bool,
    pub user_id: i32,
}

/// The mathematical form of a [`BasicLogin`].
pub struct LoginView {
    pub login_path: Seq<char>,
    pub logout_path: Seq<char>,
    pub user: Seq<char>,
    pub logged_in: bool,
    pub user_id: i32,
}

impl View for BasicLogin {
    type V = LoginView;

    open spec fn view(&self) -> LoginView {
        LoginView {
            login_path: self.login_path@,
            logout_path: self.logout_path@,
            user: self.user@,
            logged_in: self.logged_in,
            user_id: self.user_id,
        }
    }
}

impl LoginView {
    /// A logged-out element remembers no user.
    pub open spec fn consistent(self) -> bool {
        !self.logged_in ==> self.user.len() == 0 && self.user_id == 0
    }

    /// The same element with the user forgotten.
    pub open spec fn logged_out(self) -> LoginView {
        LoginView { user: Seq::empty(), logged_in: false, user_id: 0, ..self }
    }

    /// The same element with `email` (user `id`) logged in.
    pub open spec fn logged_in_as(self, email: Seq<char>, id: i32) -> LoginView {
        LoginView { user: email, logged_in: true, user_id: id, ..self }
    }
}

/// The token that a login reply grants: the string member `token` of the
/// JSON body of a 2xx reply.
pub open spec fn reply_token(body: Seq<char>, status: int) -> Option<Seq<char>> {
    if spec_is_success(status) && json_parses(body) {
        json_member_str(json_value(body), "token"@)
    } else {
        None
    }
}

/// A POST of `body` to `path` of the service, with the common headers.
pub open spec fn post_request(s: crate::service::ServiceView, path: Seq<char>, body: Body) -> RequestView {
    RequestView {
        method: Method::Post,
        url: spec_url_for(s.base_url, path),
        headers: spec_common_headers(s),
        body: body,
    }
}

/// Login and logout requests are POSTs to the service URL of their path,
/// with exactly the service's common headers and the given body.
pub proof fn law_post_request_shape(s: ServiceView, path: Seq<char>, body: Body)
    ensures
        post_request(s, path, body).method == Method::Post,
        post_request(s, path, body).url == spec_url_for(s.base_url, path),
        post_request(s, path, body).headers == spec_common_headers(s),
        post_request(s, path, body).body == body,
{
}

/// What the element does with a login reply that granted `token` (or none).
pub open spec fn login_outcome(old: LoginView, email: Seq<char>, id: i32, token: Option<Seq<char>>) -> (LoginView, Seq<EffectView>) {
    match token {
        Some(t) => (
            old.logged_in_as(email, id),
            seq![EffectView::SetToken(Some(t)), EffectView::Emit(Signal::UserChanged)],
        ),
        None => (old.logged_out(), seq![EffectView::Emit(Signal::UserChanged)]),
    }
}

/// A login reply that grants a token logs the user in, and once its effects
/// reach the service, every request carries that token as its last header.
pub proof fn law_login_grants_token(old: LoginView, s: ServiceView, email: Seq<char>, id: i32, body: Seq<char>, status: int)
    requires
        reply_token(body, status) is Some,
    ensures
        ({
            let t = reply_token(body, status)->0;
            let (l, effects) = login_outcome(old, email, id, reply_token(body, status));
            let s2 = apply_effects(s, effects);
            &&& l.logged_in && l.user == email && l.user_id == id
            &&& s2.token == Some(t)
            &&& spec_common_headers(s2).last() == ("token"@, t)
            &&& s2.base_url == s.base_url && s2.api_key == s.api_key
        }),
{
    reveal_with_fuel(apply_effects, 3);
    let effects = login_outcome(old, email, id, reply_token(body, status)).1;
    assert(effects.drop_first().drop_first() =~= Seq::<EffectView>::empty());
    assert(effects.drop_first()[0] == EffectView::Emit(Signal::UserChanged));
}

/// A login reply that is not a 2xx JSON object with a string `token` leaves
/// the user logged out and the service as it was.
pub proof fn law_refused_login_logs_out(old: LoginView, s: ServiceView, email: Seq<char>, id: i32, body: Seq<char>, status: int)
    requires
        reply_token(body, status) is None,
    ensures
        ({
            let (l, effects) = login_outcome(old, email, id, reply_token(body, status));
            &&& !l.logged_in && l.user.len() == 0 && l.user_id == 0
            &&& apply_effects(s, effects) == s
        }),
{
    reveal_with_fuel(apply_effects, 2);
    let effects = login_outcome(old, email, id, reply_token(body, status)).1;
    assert(effects.drop_first() =~= Seq::<EffectView>::empty());
}

/// Only 2xx replies can grant a token.
pub proof fn law_only_success_grants_token(body: Seq<char>, status: int)
    ensures
        reply_token(body, status) is Some ==> spec_is_success(status),
{
}

/// A successful logout, once its effects reach the service, leaves it
/// without a token (so with no token header) and otherwise unchanged.
pub proof fn law_logout_drops_token(s: ServiceView)
    ensures
        apply_effects(s, seq![EffectView::SetToken(None), EffectView::Emit(Signal::UserChanged)])
            == (ServiceView { token: None, ..s }),
{
    reveal_with_fuel(apply_effects, 3);
    let e = seq![EffectView::SetToken(None), EffectView::Emit(Signal::UserChanged)];
    assert(e.drop_first().drop_first() =~= Seq::<EffectView>::empty());
    assert(e.drop_first()[0] == EffectView::Emit(Signal::UserChanged));
}

impl Default for BasicLogin {
    fn default() -> (l: BasicLogin)
        ensures
            l@.login_path.len() == 0,
            l@.logout_path.len() == 0,
            l@.user.len() == 0,
            !l@.logged_in,
            l@.user_id == 0,
    {
        BasicLogin {
            login_path: String::new(),
            logout_path: String::new(),
            user: String::new(),
            logged_in: false,
            user_id: 0,
        }
    }
}

impl BasicLogin {
    /// The POST of `data` (`{email, password}`) to the login endpoint;
    /// nothing when no service is attached.
    pub fn login(&self, service: Option<&Service>, data: serde_json::Value) -> (r: Option<HttpRequest>)
        ensures
            match service {
                None => r is None,
                Some(s) => r matches Some(req) && req@ == post_request(s@, self.login_path@, Body::Json(data)),
            },
    {
        match service {
            None => None,
            Some(s) => Some(
                HttpRequest {
                    method: Method::Post,
                    url: s.url_for(self.login_path.as_str()),
                    headers: s.common_headers(),
                    body: Body::Json(data),
                },
            ),
        }
    }

    /// The POST to the logout endpoint, with an empty body; nothing when no
    /// service is attached.
    pub fn logout(&self, service: Option<&Service>) -> (r: Option<HttpRequest>)
        ensures
            match service {
                None => r is None,
                Some(s) => r matches Some(req) && req@ == post_request(s@, self.logout_path@, Body::EmptyText),
            },
    {
        match service {
            None => None,
            Some(s) => Some(
                HttpRequest {
                    method: Method::Post,
                    url: s.url_for(self.logout_path.as_str()),
                    headers: s.common_headers(),
                    body: Body::EmptyText,
                },
            ),
        }
    }

    /// Records the user of a login reply that granted `token`, or forgets the
    /// user when it granted none; the user always counts as changed.
    pub fn apply_login_reply(&mut self, email: String, id: i32, token: Option<String>) -> (effects: Vec<Effect>)
        ensures
            (final(self)@, effects_view(effects@)) == login_outcome(old(self)@, email@, id, token.deep_view()),
            final(self)@.consistent(),
    {
        let mut effects: Vec<Effect> = Vec::new();
        match token {
            Some(t) => {
                self.user = email;
                self.user_id = id;
                self.logged_in = true;
                effects.push(Effect::SetToken(Some(t)));
            },
            None => {
                self.user = String::new();
                self.user_id = 0;
                self.logged_in = false;
            },
        }
        effects.push(Effect::Emit(Signal::UserChanged));
        assert(effects_view(effects@) =~= login_outcome(old(self)@, email@, id, token.deep_view()).1);
        effects
    }

    /// Continuation of `login`: reads the token from the reply and records
    /// the user on success.
    pub fn on_login_finished(&mut self, email: String, id: i32, body: &str, status: i32) -> (effects: Vec<Effect>)
        ensures
            (final(self)@, effects_view(effects@)) == login_outcome(old(self)@, email@, id, reply_token(body@, status as int)),
            final(self)@.consistent(),
    {
        let token = if is_success(status) {
            match JsonDoc::parse(body) {
                Some(doc) => doc.member_str("token"),
                None => None,
            }
        } else {
            None
        };
        self.apply_login_reply(email, id, token)
    }

    /// Continuation of `logout`: on a 2xx reply forgets the user and clears
    /// the service's token; otherwise changes nothing.
    pub fn on_logout_finished(&mut self, status: i32) -> (effects: Vec<Effect>)
        ensures
            spec_is_success(status as int) ==> final(self)@ == old(self)@.logged_out() && effects_view(effects@)
                == seq![EffectView::SetToken(None), EffectView::Emit(Signal::UserChanged)],
            !spec_is_success(status as int) ==> final(self)@ == old(self)@ && effects@.len() == 0,
            old(self)@.consistent() ==> final(self)@.consistent(),
    {
        let mut effects: Vec<Effect> = Vec::new();
        if is_success(status) {
            self.user = String::new();
            self.user_id = 0;
            self.logged_in = false;
            effects.push(Effect::SetToken(None));
            effects.push(Effect::Emit(Signal::UserChanged));
            assert(effects_view(effects@) =~= seq![EffectView::SetToken(None), EffectView::Emit(Signal::UserChanged)]);
        }
        effects
    }
}

} // verus!
