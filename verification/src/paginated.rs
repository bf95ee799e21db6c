use vstd::prelude::*;
use crate::json::{json_member_array, json_member_i64, json_parses, json_value, JsonDoc};
use crate::request::{effects_view, Body, Effect, EffectView, HttpRequest, Method, RequestView, Signal};
use crate::service::{attached, spec_common_headers, Service, ServiceView};
use crate::status::{is_success, spec_is_success};
use crate::text::{all_digits, decimal, digits_value, law_decimal_denotes, push_char, push_decimal};
use crate::url::spec_url_for;

verus! {

/// A paginated CRUD resource: a list of JSON items served one page at a time.
pub struct PaginatedResource {
    pub path: String,
    /// The items of the current page, handed to the view as they came.
    pub data: Vec<serde_json::Value>,
    pub pages: i32,
    pub current_page: i32,
}

/// The mathematical form of a [`PaginatedResource`].
pub struct ResourceView {
    pub path: Seq<char>,
    pub data: Seq<serde_json::Value>,
    pub pages: i32,
    pub current_page: i32,
}

impl View for PaginatedResource {
    type V = ResourceView;

    open spec fn view(&self) -> ResourceView {
        ResourceView {
            path: self.path@,
            data: self.data@,
            pages: self.pages,
            current_page: self.current_page,
        }
    }
}

/// What a page reply carries: the page count, the page number, and the
/// items (each `None` when the reply lacks it).
pub struct PageReply {
    pub total_pages: Option<i64>,
    pub page: Option<i64>,
    pub data: Option<Vec<serde_json::Value>>,
}

/// The URL of page `page` of the resource at `path`: `<url>?page=<page>`.
pub open spec fn page_url(s: ServiceView, path: Seq<char>, page: i32) -> Seq<char> {
    spec_url_for(s.base_url, path) + "?page="@ + decimal(page as int)
}

/// The URL of item `id` of the resource at `path`: `<url>/<id>`.
pub open spec fn item_url(s: ServiceView, path: Seq<char>, id: i32) -> Seq<char> {
    spec_url_for(s.base_url, path) + seq!['/'] + decimal(id as int)
}

/// A request with the service's common headers.
pub open spec fn request_to(s: ServiceView, method: Method, url: Seq<char>, body: Body) -> RequestView {
    RequestView { method: method, url: url, headers: spec_common_headers(s), body: body }
}

/// The GET of the current page, when a service is attached.
pub open spec fn refresh_effects(r: ResourceView, service: Option<ServiceView>) -> Seq<EffectView> {
    match service {
        Some(s) => seq![EffectView::Send(request_to(s, Method::Get, page_url(s, r.path, r.current_page), Body::NoBody))],
        None => Seq::empty(),
    }
}

/// The outcome of asking for page `page`: pages below 1 and the current page
/// change nothing; another page becomes current, is announced and fetched.
pub open spec fn set_page_outcome(r: ResourceView, page: i32, service: Option<ServiceView>) -> (ResourceView, Seq<EffectView>) {
    if r.current_page == page || page < 1 {
        (r, Seq::empty())
    } else {
        let r2 = ResourceView { current_page: page, ..r };
        (r2, seq![EffectView::Emit(Signal::PageUpdated)] + refresh_effects(r2, service))
    }
}

/// The outcome of a failed page fetch: away from page 1, go back to page 1;
/// on page 1, drop the page count and the items.
pub open spec fn failure_outcome(r: ResourceView, service: Option<ServiceView>) -> (ResourceView, Seq<EffectView>) {
    if r.current_page != 1 {
        set_page_outcome(r, 1, service)
    } else {
        let r2 = ResourceView { pages: 0, data: Seq::empty(), ..r };
        if r.data.len() != 0 {
            (r2, seq![EffectView::Emit(Signal::PagesUpdated), EffectView::Emit(Signal::DataUpdated)])
        } else {
            (r2, seq![EffectView::Emit(Signal::PagesUpdated)])
        }
    }
}

/// The state after a page reply: the page count (0 when absent), the page
/// number when present, and the items (none when absent); the three
/// properties always count as changed.
pub open spec fn reply_state(r: ResourceView, total_pages: Option<i64>, page: Option<i64>, data: Seq<serde_json::Value>) -> ResourceView {
    ResourceView {
        pages: match total_pages {
            Some(t) => t as i32,
            None => 0,
        },
        current_page: match page {
            Some(p) => p as i32,
            None => r.current_page,
        },
        data: data,
        ..r
    }
}

/// The signals of an applied page reply.
pub open spec fn reply_signals() -> Seq<EffectView> {
    seq![
        EffectView::Emit(Signal::PageUpdated),
        EffectView::Emit(Signal::PagesUpdated),
        EffectView::Emit(Signal::DataUpdated),
    ]
}

/// Asking for the current page, or for a page below 1, changes nothing and
/// asks for nothing.
pub proof fn law_set_page_ignores_current_and_invalid(r: ResourceView, page: i32, service: Option<ServiceView>)
    requires
        page == r.current_page || page < 1,
    ensures
        set_page_outcome(r, page, service) == (r, Seq::<EffectView>::empty()),
{
}

/// Asking for another valid page makes it the current page, announces it,
/// and (with a service attached) fetches exactly that page, changing nothing else.
pub proof fn law_set_page_fetches_new_page(r: ResourceView, page: i32, service: Option<ServiceView>)
    requires
        page != r.current_page,
        page >= 1,
    ensures
        ({
            let (r2, effects) = set_page_outcome(r, page, service);
            &&& r2 == (ResourceView { current_page: page, ..r })
            &&& effects[0] == EffectView::Emit(Signal::PageUpdated)
            &&& match service {
                Some(s) => effects.len() == 2 && effects[1] == EffectView::Send(
                    request_to(s, Method::Get, page_url(s, r.path, page), Body::NoBody),
                ),
                None => effects.len() == 1,
            }
        }),
{
}

/// After a failed fetch the resource is on page 1: either it goes back to
/// page 1 and fetches it, or, already there, it holds no page count and no items.
pub proof fn law_failure_lands_on_first_page(r: ResourceView, service: Option<ServiceView>)
    ensures
        failure_outcome(r, service).0.current_page == 1,
        r.current_page == 1 ==> failure_outcome(r, service).0.pages == 0
            && failure_outcome(r, service).0.data.len() == 0,
        r.current_page != 1 && service is Some ==> failure_outcome(r, service).1.last()
            == EffectView::Send(request_to(service->0, Method::Get, page_url(service->0, r.path, 1), Body::NoBody)),
{
}

/// Page replies and failures never change which resource is shown.
pub proof fn law_path_is_kept(r: ResourceView, service: Option<ServiceView>, total_pages: Option<i64>, page: Option<i64>, data: Seq<serde_json::Value>, p: i32)
    ensures
        failure_outcome(r, service).0.path == r.path,
        reply_state(r, total_pages, page, data).path == r.path,
        set_page_outcome(r, p, service).0.path == r.path,
{
}

/// A page reply's items become the resource's items exactly, all of them in
/// order; the page count and page number are the reply's when they fit in
/// 32 bits (a missing count reads as 0, a missing page keeps the current one).
pub proof fn law_reply_state_takes_reply(r: ResourceView, total_pages: Option<i64>, page: Option<i64>, data: Seq<serde_json::Value>)
    ensures
        reply_state(r, total_pages, page, data).data == data,
        reply_state(r, total_pages, page, data).data.len() == data.len(),
        forall|i: int| 0 <= i < data.len() ==> #[trigger] reply_state(r, total_pages, page, data).data[i] == data[i],
        total_pages is None ==> reply_state(r, total_pages, page, data).pages == 0,
        total_pages is Some && i32::MIN <= total_pages->0 <= i32::MAX
            ==> reply_state(r, total_pages, page, data).pages == total_pages->0,
        page is None ==> reply_state(r, total_pages, page, data).current_page == r.current_page,
        page is Some && i32::MIN <= page->0 <= i32::MAX
            ==> reply_state(r, total_pages, page, data).current_page == page->0,
        reply_state(r, total_pages, page, data).path == r.path,
{
}

/// Every request the resource plans carries exactly the service's common
/// headers, whatever its method, with the given method, URL and body.
pub proof fn law_requests_carry_common_headers(s: ServiceView, method: Method, url: Seq<char>, body: Body)
    ensures
        request_to(s, method, url, body).headers == spec_common_headers(s),
        request_to(s, method, url, body).method == method,
        request_to(s, method, url, body).url == url,
        request_to(s, method, url, body).body == body,
{
}

/// With a service attached, a refresh plans exactly one request: a GET of the
/// current page's URL with the service's common headers and no body.
pub proof fn law_refresh_gets_current_page(r: ResourceView, s: ServiceView)
    ensures
        refresh_effects(r, Some(s)).len() == 1,
        refresh_effects(r, Some(s))[0] matches EffectView::Send(req) && req.method == Method::Get
            && req.url == page_url(s, r.path, r.current_page) && req.headers == spec_common_headers(s)
            && req.body == Body::NoBody,
        refresh_effects(r, None).len() == 0,
{
}

/// A page URL is the resource URL, `?page=`, and digits that read back to
/// the page number (after a `-` for a negative one).
pub proof fn law_page_url_names_page(s: ServiceView, path: Seq<char>, page: i32)
    ensures
        ({
            let base = spec_url_for(s.base_url, path);
            let u = page_url(s, path, page);
            let n = base.len() + 6int;
            &&& u.take(base.len() as int) == base
            &&& u.subrange(base.len() as int, n) == "?page="@
            &&& page >= 0 ==> all_digits(u.skip(n)) && digits_value(u.skip(n)) == page
            &&& page < 0 ==> u[n] == '-' && all_digits(u.skip(n + 1)) && digits_value(u.skip(n + 1)) == -page
        }),
{
    reveal_strlit("?page=");
    law_decimal_denotes(page as int);
    let base = spec_url_for(s.base_url, path);
    let u = page_url(s, path, page);
    let n = base.len() + 6int;
    assert(u.take(base.len() as int) =~= base);
    assert(u.subrange(base.len() as int, n) =~= "?page="@);
    assert(u.skip(n) =~= decimal(page as int));
    if page < 0 {
        assert(u.skip(n + 1) =~= decimal(page as int).drop_first());
    }
}

/// An item URL is the resource URL, `/`, and digits that read back to the
/// id (after a `-` for a negative one): the request names that item only.
pub proof fn law_item_url_names_item(s: ServiceView, path: Seq<char>, id: i32)
    ensures
        ({
            let base = spec_url_for(s.base_url, path);
            let u = item_url(s, path, id);
            let n = base.len() + 1int;
            &&& u.take(base.len() as int) == base
            &&& u[base.len() as int] == '/'
            &&& id >= 0 ==> all_digits(u.skip(n)) && digits_value(u.skip(n)) == id
            &&& id < 0 ==> u[n] == '-' && all_digits(u.skip(n + 1)) && digits_value(u.skip(n + 1)) == -id
        }),
{
    law_decimal_denotes(id as int);
    let base = spec_url_for(s.base_url, path);
    let u = item_url(s, path, id);
    let n = base.len() + 1int;
    assert(u.take(base.len() as int) =~= base);
    assert(u.skip(n) =~= decimal(id as int));
    if id < 0 {
        assert(u.skip(n + 1) =~= decimal(id as int).drop_first());
    }
}

impl Default for PaginatedResource {
    fn default() -> (r: PaginatedResource)
        ensures
            r@.path.len() == 0,
            r@.data.len() == 0,
            r@.pages == 0,
            r@.current_page == 1,
    {
        PaginatedResource { path: String::new(), data: Vec::new(), pages: 0, current_page: 1 }
    }
}

impl PaginatedResource {
    /// The current page.
    pub fn page(&self) -> (p: i32)
        ensures
            p == self.current_page,
    {
        self.current_page
    }

    fn with_headers(s: &Service, method: Method, url: String, body: Body) -> (req: HttpRequest)
        ensures
            req@ == request_to(s@, method, url@, body),
    {
        HttpRequest { method, url, headers: s.common_headers(), body }
    }

    fn item_url_of(&self, s: &Service, id: i32) -> (url: String)
        ensures
            url@ == item_url(s@, self.path@, id),
    {
        let mut url = s.url_for(self.path.as_str());
        push_char(&mut url, '/');
        push_decimal(&mut url, id);
        url
    }

    /// GET the current page; nothing when no service is attached.
    pub fn refresh_current_page(&self, service: Option<&Service>) -> (r: Option<HttpRequest>)
        ensures
            match service {
                None => r is None,
                Some(s) => r matches Some(req)
                    && req@ == request_to(s@, Method::Get, page_url(s@, self.path@, self.current_page), Body::NoBody),
            },
    {
        match service {
            None => None,
            Some(s) => {
                let mut url = s.url_for(self.path.as_str());
                url.append("?page=");
                push_decimal(&mut url, self.current_page);
                Some(Self::with_headers(s, Method::Get, url, Body::NoBody))
            },
        }
    }

    fn refresh_effects_exec(&self, service: Option<&Service>) -> (effects: Vec<Effect>)
        ensures
            effects_view(effects@) == refresh_effects(self@, attached(service)),
    {
        let mut effects: Vec<Effect> = Vec::new();
        match self.refresh_current_page(service) {
            Some(req) => effects.push(Effect::Send(req)),
            None => {},
        }
        assert(effects_view(effects@) =~= refresh_effects(self@, attached(service)));
        effects
    }

    /// POST `data` as a new item; nothing when no service is attached.
    pub fn add(&self, service: Option<&Service>, data: serde_json::Value) -> (r: Option<HttpRequest>)
        ensures
            match service {
                None => r is None,
                Some(s) => r matches Some(req)
                    && req@ == request_to(s@, Method::Post, spec_url_for(s@.base_url, self.path@), Body::Json(data)),
            },
    {
        match service {
            None => None,
            Some(s) => Some(Self::with_headers(s, Method::Post, s.url_for(self.path.as_str()), Body::Json(data))),
        }
    }

    /// PUT `data` as the item with id `id`; nothing when no service is attached.
    pub fn update(&self, service: Option<&Service>, data: serde_json::Value, id: i32) -> (r: Option<HttpRequest>)
        ensures
            match service {
                None => r is None,
                Some(s) => r matches Some(req)
                    && req@ == request_to(s@, Method::Put, item_url(s@, self.path@, id), Body::Json(data)),
            },
    {
        match service {
            None => None,
            Some(s) => Some(Self::with_headers(s, Method::Put, self.item_url_of(s, id), Body::Json(data))),
        }
    }

    /// DELETE an item by id; nothing when no service is attached.
    pub fn remove(&self, service: Option<&Service>, id: i32) -> (r: Option<HttpRequest>)
        ensures
            match service {
                None => r is None,
                Some(s) => r matches Some(req)
                    && req@ == request_to(s@, Method::Delete, item_url(s@, self.path@, id), Body::NoBody),
            },
    {
        match service {
            None => None,
            Some(s) => Some(Self::with_headers(s, Method::Delete, self.item_url_of(s, id), Body::NoBody)),
        }
    }

    /// Show page `page`: pages below 1 and the current page are ignored;
    /// otherwise the page becomes current, is announced, and is fetched.
    pub fn set_page(&mut self, page: i32, service: Option<&Service>) -> (effects: Vec<Effect>)
        ensures
            (final(self)@, effects_view(effects@)) == set_page_outcome(old(self)@, page, attached(service)),
    {
        if self.current_page == page || page < 1 {
            return Vec::new();
        }
        self.current_page = page;
        let mut effects: Vec<Effect> = Vec::new();
        effects.push(Effect::Emit(Signal::PageUpdated));
        let mut fetch = self.refresh_effects_exec(service);
        let ghost head = effects@;
        let ghost tail = fetch@;
        effects.append(&mut fetch);
        assert(effects_view(effects@) =~= effects_view(head) + effects_view(tail));
        assert(effects_view(head) =~= seq![EffectView::Emit(Signal::PageUpdated)]);
        effects
    }

    /// Takes a page reply: records the page count, page number and items,
    /// and announces all three.
    pub fn apply_page_reply(&mut self, reply: PageReply) -> (effects: Vec<Effect>)
        ensures
            final(self)@ == reply_state(
                old(self)@,
                reply.total_pages,
                reply.page,
                match reply.data {
                    Some(items) => items@,
                    None => Seq::empty(),
                },
            ),
            effects_view(effects@) == reply_signals(),
    {
        self.pages = match reply.total_pages {
            Some(t) => t as i32,
            None => 0,
        };
        match reply.page {
            Some(p) => {
                self.current_page = p as i32;
            },
            None => {},
        }
        self.data = match reply.data {
            Some(items) => items,
            None => Vec::new(),
        };
        let mut effects: Vec<Effect> = Vec::new();
        effects.push(Effect::Emit(Signal::PageUpdated));
        effects.push(Effect::Emit(Signal::PagesUpdated));
        effects.push(Effect::Emit(Signal::DataUpdated));
        assert(effects_view(effects@) =~= reply_signals());
        effects
    }

    /// After a failed fetch: away from page 1, go back to page 1 (and fetch
    /// it); on page 1, drop the page count and the items.
    pub fn refresh_request_failed(&mut self, service: Option<&Service>) -> (effects: Vec<Effect>)
        ensures
            (final(self)@, effects_view(effects@)) == failure_outcome(old(self)@, attached(service)),
    {
        if self.current_page != 1 {
            return self.set_page(1, service);
        }
        self.pages = 0;
        let mut effects: Vec<Effect> = Vec::new();
        effects.push(Effect::Emit(Signal::PagesUpdated));
        if self.data.len() != 0 {
            self.data = Vec::new();
            effects.push(Effect::Emit(Signal::DataUpdated));
        }
        assert(self.data@ =~= Seq::<serde_json::Value>::empty());
        assert(effects_view(effects@) =~= failure_outcome(old(self)@, attached(service)).1);
        effects
    }

    /// Continuation of a page fetch: a 2xx reply whose body is JSON updates
    /// the page; anything else counts as a failed fetch.
    pub fn on_refresh_finished(&mut self, body: &str, status: i32, service: Option<&Service>) -> (effects: Vec<Effect>)
        ensures
            !(spec_is_success(status as int) && json_parses(body@))
                ==> (final(self)@, effects_view(effects@)) == failure_outcome(old(self)@, attached(service)),
            spec_is_success(status as int) && json_parses(body@) ==> {
                &&& final(self)@ == reply_state(
                    old(self)@,
                    json_member_i64(json_value(body@), "total_pages"@),
                    json_member_i64(json_value(body@), "page"@),
                    match json_member_array(json_value(body@), "data"@) {
                        Some(items) => items,
                        None => Seq::empty(),
                    },
                )
                &&& effects_view(effects@) == reply_signals()
            },
    {
        if !is_success(status) {
            return self.refresh_request_failed(service);
        }
        match JsonDoc::parse(body) {
            None => self.refresh_request_failed(service),
            Some(doc) => {
                let total_pages = doc.member_i64("total_pages");
                let page = doc.member_i64("page");
                let data = doc.into_member_array("data");
                self.apply_page_reply(PageReply { total_pages, page, data })
            },
        }
    }

    /// Continuation of add, update and remove: on a 2xx reply fetch the
    /// current page again.
    pub fn on_mutation_finished(&self, status: i32, service: Option<&Service>) -> (effects: Vec<Effect>)
        ensures
            spec_is_success(status as int) ==> effects_view(effects@) == refresh_effects(self@, attached(service)),
            !spec_is_success(status as int) ==> effects@.len() == 0,
    {
        if is_success(status) {
            self.refresh_effects_exec(service)
        } else {
            Vec::new()
        }
    }
}

} // verus!
