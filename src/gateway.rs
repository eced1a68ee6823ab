use vstd::prelude::*;

use crate::api::{bearer, pairs_view};
use crate::cookies::{
    cookie_item, cookie_line, last_setting, lemma_recorded_holds, recorded_all, CookieJar,
};
use crate::headers::{flatten_headers, flattened, kept_headers, opt_pairs_view, set_cookie_values};
use crate::pairs::distinct_names;
use crate::proxy::{
    build_request, outbound_for, OutboundRequest, ProxyRequest, ProxyResponse, ProxyResponseView,
    UpstreamResponse,
};
use crate::session::AuthSession;

verus! {

/// The status that makes the gateway renew the session and try once more.
pub const STATUS_UNAUTHORIZED: u16 = 401;

/// The request gateway: the upstream API base and the cookies gathered from
/// upstream responses.
pub struct Gateway {
    base: String,
    jar: CookieJar,
}

/// Where one forwarded request stands.
pub enum ForwardStage {
    /// The first attempt is out; `authorized` says whether it carried a session.
    FirstAttempt { authorized: bool },
    /// The first attempt got 401; a session renewal was asked for. The first
    /// response is kept in case the renewal fails.
    Refreshing(ProxyResponse),
    /// The one retry is out.
    Retrying,
    /// The UI has its answer.
    Done,
}

/// What the host reports to a forwarded request: an upstream reply (`Err` is
/// a transport failure) or the result of the session renewal it asked for.
pub enum ForwardEvent {
    Upstream(Result<UpstreamResponse, String>),
    Refreshed(Option<AuthSession>),
}

/// What the host does next for a forwarded request.
#[derive(Debug)]
pub enum ForwardAction {
    Send(OutboundRequest),
    Refresh,
    Respond(Result<ProxyResponse, String>),
}

/// One forwarded request: the UI's request, the stage, and how many upstream
/// requests and session renewals it has asked for so far.
pub struct ForwardFlow {
    request: ProxyRequest,
    stage: ForwardStage,
    sent: u8,
    refreshes: u8,
}

impl ForwardFlow {
    #[verifier::type_invariant]
    spec fn inv(&self) -> bool {
        self.wf()
    }

    /// The counts agree with the stage: one request and no renewal during the
    /// first attempt, one renewal while it runs, two requests during the retry.
    pub closed spec fn wf(&self) -> bool {
        match self.stage {
            ForwardStage::FirstAttempt { .. } => self.sent == 1 && self.refreshes == 0,
            ForwardStage::Refreshing(_) => self.sent == 1 && self.refreshes == 1,
            ForwardStage::Retrying => self.sent == 2 && self.refreshes == 1,
            ForwardStage::Done => self.sent <= 2 && self.refreshes <= 1 && self.refreshes
                <= self.sent,
        }
    }

    pub closed spec fn request(&self) -> ProxyRequest {
        self.request
    }

    pub closed spec fn stage(&self) -> ForwardStage {
        self.stage
    }

    /// Upstream requests this forward has asked the host to send.
    pub closed spec fn requests_sent(&self) -> nat {
        self.sent as nat
    }

    /// Session renewals this forward has asked the host for.
    pub closed spec fn refreshes_requested(&self) -> nat {
        self.refreshes as nat
    }
}

/// A forwarded request asks for at most one session renewal and at most two
/// upstream requests: the first attempt and a single retry.
pub proof fn lemma_forward_retries_once(flow: ForwardFlow)
    requires
        flow.wf(),
    ensures
        flow.requests_sent() <= 2,
        flow.refreshes_requested() <= 1,
        flow.stage() is Retrying ==> flow.requests_sent() == 2 && flow.refreshes_requested() == 1,
{
}

/// The UI's view of an upstream response.
pub open spec fn response_view(resp: UpstreamResponse) -> ProxyResponseView {
    ProxyResponseView {
        status: resp.status,
        headers: flattened(opt_pairs_view(resp.headers@)),
        body: resp.body@,
    }
}

/// The jar after an upstream response.
pub open spec fn jar_after(jar: Seq<(Seq<char>, Seq<char>)>, resp: UpstreamResponse) -> Seq<
    (Seq<char>, Seq<char>),
> {
    recorded_all(jar, set_cookie_values(opt_pairs_view(resp.headers@)))
}

/// Cookie propagation: when a `Set-Cookie` line of a response sets
/// `name=value` and no later line of it sets `name` again, the jar holds that
/// pair afterwards and the next request built from the jar carries a `Cookie`
/// header whose items include `name=value`.
pub proof fn lemma_cookie_replayed(
    base: Seq<char>,
    jar: Seq<(Seq<char>, Seq<char>)>,
    resp: UpstreamResponse,
    next: ProxyRequest,
    session: Option<AuthSession>,
    i: int,
    name: Seq<char>,
    value: Seq<char>,
)
    requires
        last_setting(set_cookie_values(opt_pairs_view(resp.headers@)), i, name, value),
    ensures
        jar_after(jar, resp).contains((name, value)),
        cookie_line(jar_after(jar, resp)) is Some,
        outbound_for(base, next, session, jar_after(jar, resp)).headers.contains(
            ("Cookie"@, cookie_line(jar_after(jar, resp))->Some_0),
        ),
        jar_after(jar, resp).map_values(|p: (Seq<char>, Seq<char>)| cookie_item(p)).contains(
            name + "="@ + value,
        ),
{
    let lines = set_cookie_values(opt_pairs_view(resp.headers@));
    lemma_recorded_holds(jar, lines, i, name, value);
    let after = jar_after(jar, resp);
    let k = choose|k: int| 0 <= k < after.len() && after[k] == (name, value);
    let items = after.map_values(|p: (Seq<char>, Seq<char>)| cookie_item(p));
    assert(items[k] == name + "="@ + value);
    let v = outbound_for(base, next, session, after);
    let hs = pairs_view(next.headers@);
    let auth = match session {
        Some(s) => seq![("x-pm-uid"@, s.uid@), ("Authorization"@, bearer(s.token_type@, s.access_token@))],
        None => Seq::<(Seq<char>, Seq<char>)>::empty(),
    };
    let at = (kept_headers(hs).len() + auth.len()) as int;
    assert(v.headers[at] == ("Cookie"@, cookie_line(after)->Some_0));
}

impl Gateway {
    pub closed spec fn base(&self) -> Seq<char> {
        self.base@
    }

    pub closed spec fn jar(&self) -> Seq<(Seq<char>, Seq<char>)> {
        self.jar.pairs()
    }

    /// A gateway for the upstream API at `base`, with an empty jar.
    pub fn new(base: &str) -> (r: Gateway)
        ensures
            r.base() == base@,
            r.jar() == Seq::<(Seq<char>, Seq<char>)>::empty(),
            distinct_names(r.jar()),
    {
        Gateway { base: String::from_str(base), jar: CookieJar::new() }
    }

    /// The upstream request for `req` under `session` and the current jar.
    pub fn build_request(&self, req: &ProxyRequest, session: &Option<AuthSession>) -> (r:
        OutboundRequest)
        ensures
            r@ == outbound_for(self.base(), *req, *session, self.jar()),
    {
        build_request(self.base.as_str(), req, session, &self.jar)
    }

    /// Takes in an upstream response: its cookies go to the jar, in order,
    /// and the UI gets the status, the flat headers and the body.
    pub fn receive(&mut self, resp: UpstreamResponse) -> (r: ProxyResponse)
        ensures
            final(self).base() == old(self).base(),
            final(self).jar() == jar_after(old(self).jar(), resp),
            distinct_names(old(self).jar()) ==> distinct_names(final(self).jar()),
            r@ == response_view(resp),
    {
        let (headers, cookies) = flatten_headers(&resp.headers);
        let ghost lines = set_cookie_values(opt_pairs_view(resp.headers@));
        let ghost start = self.jar.pairs();
        let mut i: usize = 0;
        while i < cookies.len()
            invariant
                i <= cookies@.len(),
                cookies@.len() == lines.len(),
                forall|j: int| 0 <= j < lines.len() ==> cookies@[j]@ == lines[j],
                self.base@ == old(self).base(),
                self.jar.pairs() == recorded_all(start, lines.subrange(0, i as int)),
                distinct_names(start) ==> distinct_names(self.jar.pairs()),
            decreases cookies@.len() - i,
        {
            assert(lines.subrange(0, i + 1).drop_last() =~= lines.subrange(0, i as int));
            self.jar.record(cookies[i].as_str());
            i += 1;
        }
        assert(lines.subrange(0, i as int) =~= lines);
        ProxyResponse { status: resp.status, headers, body: resp.body }
    }

    /// Starts forwarding `req`: the flow and the first upstream request,
    /// which carries `session` when there is one.
    pub fn forward(&self, req: ProxyRequest, session: Option<AuthSession>) -> (r: (
        ForwardFlow,
        OutboundRequest,
    ))
        ensures
            r.0.wf(),
            r.0.request() == req,
            r.0.stage() == (ForwardStage::FirstAttempt { authorized: session is Some }),
            r.0.requests_sent() == 1,
            r.0.refreshes_requested() == 0,
            r.1@ == outbound_for(self.base(), req, session, self.jar()),
    {
        let out = build_request(self.base.as_str(), &req, &session, &self.jar);
        let authorized = session.is_some();
        (ForwardFlow { request: req, stage: ForwardStage::FirstAttempt { authorized }, sent: 1, refreshes: 0 }, out)
    }

    /// Advances a forwarded request with what the host observed.
    ///
    /// A 401 to an attempt that carried a session asks for one renewal; a
    /// renewed session gets exactly one retry, whose reply is the answer
    /// whatever it is; a failed renewal answers with the first response.
    /// Every other reply is the answer as it came. An event that does not
    /// fit the stage answers with an error.
    pub fn forward_step(&mut self, flow: &mut ForwardFlow, event: ForwardEvent) -> (r: ForwardAction)
        ensures
            final(self).base() == old(self).base(),
            distinct_names(old(self).jar()) ==> distinct_names(final(self).jar()),
            final(flow).wf(),
            final(flow).request() == old(flow).request(),
            final(flow).requests_sent() == old(flow).requests_sent() + if r is Send { 1nat } else { 0nat },
            final(flow).refreshes_requested() == old(flow).refreshes_requested() + if r is Refresh { 1nat } else { 0nat },
            r is Respond <==> final(flow).stage() is Done,
            match (old(flow).stage(), event) {
                (ForwardStage::FirstAttempt { authorized }, ForwardEvent::Upstream(Ok(resp))) => {
                    &&& final(self).jar() == jar_after(old(self).jar(), resp)
                    &&& if resp.status == STATUS_UNAUTHORIZED && authorized {
                        &&& r is Refresh
                        &&& final(flow).stage() matches ForwardStage::Refreshing(first)
                        &&& first@ == response_view(resp)
                    } else {
                        r matches ForwardAction::Respond(Ok(out)) && out@ == response_view(resp)
                    }
                },
                (ForwardStage::Refreshing(first), ForwardEvent::Refreshed(Some(s))) => {
                    &&& final(self).jar() == old(self).jar()
                    &&& final(flow).stage() is Retrying
                    &&& r matches ForwardAction::Send(out)
                    &&& out@ == outbound_for(old(self).base(), old(flow).request(), Some(s), old(self).jar())
                },
                (ForwardStage::Refreshing(first), ForwardEvent::Refreshed(None)) => {
                    &&& final(self).jar() == old(self).jar()
                    &&& r == ForwardAction::Respond(Ok(first))
                },
                (ForwardStage::Retrying, ForwardEvent::Upstream(Ok(resp))) => {
                    &&& final(self).jar() == jar_after(old(self).jar(), resp)
                    &&& r matches ForwardAction::Respond(Ok(out))
                    &&& out@ == response_view(resp)
                },
                (ForwardStage::FirstAttempt { .. }, ForwardEvent::Upstream(Err(m)))
                | (ForwardStage::Retrying, ForwardEvent::Upstream(Err(m))) => {
                    &&& final(self).jar() == old(self).jar()
                    &&& r matches ForwardAction::Respond(Err(t))
                    &&& t@ == "Request failed: "@ + m@
                },
                _ => final(self).jar() == old(self).jar() && r matches ForwardAction::Respond(Err(_)),
            },
    {
        proof {
            use_type_invariant(&*flow);
        }
        let mut taken = ForwardFlow {
            request: ProxyRequest { method: String::new(), url: String::new(), headers: Vec::new(), body: None },
            stage: ForwardStage::Done,
            sent: 0,
            refreshes: 0,
        };
        std::mem::swap(flow, &mut taken);
        proof {
            use_type_invariant(&taken);
        }
        let ForwardFlow { request, stage, sent, refreshes } = taken;
        let (next, action) = match (stage, event) {
            (ForwardStage::FirstAttempt { authorized }, ForwardEvent::Upstream(Ok(resp))) => {
                let status = resp.status;
                let out = self.receive(resp);
                if status == STATUS_UNAUTHORIZED && authorized {
                    (ForwardFlow { request, stage: ForwardStage::Refreshing(out), sent, refreshes: 1 }, ForwardAction::Refresh)
                } else {
                    (ForwardFlow { request, stage: ForwardStage::Done, sent, refreshes }, ForwardAction::Respond(Ok(out)))
                }
            },
            (ForwardStage::Refreshing(_), ForwardEvent::Refreshed(Some(s))) => {
                let out = build_request(self.base.as_str(), &request, &Some(s), &self.jar);
                (ForwardFlow { request, stage: ForwardStage::Retrying, sent: 2, refreshes }, ForwardAction::Send(out))
            },
            (ForwardStage::Refreshing(first), ForwardEvent::Refreshed(None)) => {
                (ForwardFlow { request, stage: ForwardStage::Done, sent, refreshes }, ForwardAction::Respond(Ok(first)))
            },
            (ForwardStage::Retrying, ForwardEvent::Upstream(Ok(resp))) => {
                let out = self.receive(resp);
                (ForwardFlow { request, stage: ForwardStage::Done, sent, refreshes }, ForwardAction::Respond(Ok(out)))
            },
            (ForwardStage::FirstAttempt { .. }, ForwardEvent::Upstream(Err(m)))
            | (ForwardStage::Retrying, ForwardEvent::Upstream(Err(m))) => {
                let text = String::from_str("Request failed: ").concat(m.as_str());
                (ForwardFlow { request, stage: ForwardStage::Done, sent, refreshes }, ForwardAction::Respond(Err(text)))
            },
            _ => {
                let text = String::from_str("unexpected event for this request");
                (ForwardFlow { request, stage: ForwardStage::Done, sent, refreshes }, ForwardAction::Respond(Err(text)))
            },
        };
        *flow = next;
        action
    }
}

} // verus!
