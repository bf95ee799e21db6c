use vstd::prelude::*;
use crate::request::{effects_view, Body, Effect, EffectView, HttpRequest, Method, Signal};

verus! {

/// Watches one host: whether it answered with a 2xx status, and how long that took.
pub struct Backend {
    pub hostname: String,
    pub status: bool,
    /// Milliseconds the last successful probe took; 0 after a failed one.
    pub latency: u64,
}

/// The probe result for a reply with status `status` (`None`: no reply)
/// after `elapsed_ms` milliseconds: reachable on a 2xx status, and then the
/// elapsed time (cut to 64 bits), else 0.
pub open spec fn spec_probe_outcome(status: Option<u16>, elapsed_ms: u128) -> (bool, u64) {
    let ok = match status {
        Some(s) => 200 <= s < 300,
        None => false,
    };
    (ok, if ok { elapsed_ms as u64 } else { 0 })
}

/// A probe counts as reachable exactly on a 2xx status; then the latency is
/// the elapsed milliseconds whenever they fit in 64 bits, else it is 0.
pub proof fn law_probe_reports_elapsed_time(status: Option<u16>, elapsed_ms: u128)
    ensures
        spec_probe_outcome(status, elapsed_ms).0 <==> (status is Some && 200 <= status->0 < 300),
        spec_probe_outcome(status, elapsed_ms).0 && elapsed_ms <= u64::MAX
            ==> spec_probe_outcome(status, elapsed_ms).1 == elapsed_ms,
        !spec_probe_outcome(status, elapsed_ms).0 ==> spec_probe_outcome(status, elapsed_ms).1 == 0,
{
}

/// The probe result of one request: see [`spec_probe_outcome`].
pub fn probe_outcome(status: Option<u16>, elapsed_ms: u128) -> (r: (bool, u64))
    ensures
        r == spec_probe_outcome(status, elapsed_ms),
{
    let ok = match status {
        Some(s) => 200 <= s && s < 300,
        None => false,
    };
    let latency: u64 = if ok {
        elapsed_ms as u64
    } else {
        0
    };
    (ok, latency)
}

impl Default for Backend {
    fn default() -> (b: Backend)
        ensures
            b.hostname@ == "https://www.qt.io"@,
            !b.status,
            b.latency == 0,
    {
        Backend { hostname: String::from_str("https://www.qt.io"), status: false, latency: 0 }
    }
}

impl Backend {
    pub fn set_status(&mut self, status: bool) -> (effects: Vec<Effect>)
        ensures
            final(self).status == status,
            final(self).latency == old(self).latency,
            final(self).hostname@ == old(self).hostname@,
            effects_view(effects@) == seq![EffectView::Emit(Signal::StatusChanged)],
    {
        self.status = status;
        let mut effects: Vec<Effect> = Vec::new();
        effects.push(Effect::Emit(Signal::StatusChanged));
        assert(effects_view(effects@) =~= seq![EffectView::Emit(Signal::StatusChanged)]);
        effects
    }

    pub fn set_latency(&mut self, latency: u64) -> (effects: Vec<Effect>)
        ensures
            final(self).latency == latency,
            final(self).status == old(self).status,
            final(self).hostname@ == old(self).hostname@,
            effects_view(effects@) == seq![EffectView::Emit(Signal::LatencyChanged)],
    {
        self.latency = latency;
        let mut effects: Vec<Effect> = Vec::new();
        effects.push(Effect::Emit(Signal::LatencyChanged));
        assert(effects_view(effects@) =~= seq![EffectView::Emit(Signal::LatencyChanged)]);
        effects
    }

    pub fn set_hostname(&mut self, hostname: String) -> (effects: Vec<Effect>)
        ensures
            final(self).hostname@ == hostname@,
            final(self).status == old(self).status,
            final(self).latency == old(self).latency,
            effects_view(effects@) == seq![EffectView::Emit(Signal::HostnameChanged)],
    {
        self.hostname = hostname;
        let mut effects: Vec<Effect> = Vec::new();
        effects.push(Effect::Emit(Signal::HostnameChanged));
        assert(effects_view(effects@) =~= seq![EffectView::Emit(Signal::HostnameChanged)]);
        effects
    }

    /// The probe: a GET of the host name, with no headers and no body.
    pub fn make_request(&self) -> (req: HttpRequest)
        ensures
            req@.method == Method::Get,
            req@.url == self.hostname@,
            req@.headers.len() == 0,
            req@.body == Body::NoBody,
    {
        HttpRequest { method: Method::Get, url: self.hostname.clone(), headers: Vec::new(), body: Body::NoBody }
    }

    /// Records a probe result: reachability first, then latency, each announced.
    pub fn update_status(&mut self, status: bool, latency: u64) -> (effects: Vec<Effect>)
        ensures
            final(self).status == status,
            final(self).latency == latency,
            final(self).hostname@ == old(self).hostname@,
            effects_view(effects@) == seq![
                EffectView::Emit(Signal::StatusChanged),
                EffectView::Emit(Signal::LatencyChanged),
            ],
    {
        let mut effects = self.set_status(status);
        let mut more = self.set_latency(latency);
        let ghost a = effects@;
        let ghost b = more@;
        effects.append(&mut more);
        assert(effects_view(effects@) =~= effects_view(a) + effects_view(b));
        assert(effects_view(effects@) =~= seq![
            EffectView::Emit(Signal::StatusChanged),
            EffectView::Emit(Signal::LatencyChanged),
        ]);
        effects
    }
}

} // verus!
