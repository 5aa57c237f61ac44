//! Health state machine.
//!
//! The machine consumes the parsed event stream in chronological order (as
//! found in the log), maintains the single pending-request slot, and keeps
//! the health verdict current:
//!
//! - a request observed while another is still pending is evidence of a
//!   backend stall — the verdict turns unhealthy at once and the new request
//!   takes the slot;
//! - a response always refreshes the last-activity instant; it answers the
//!   pending request, making the verdict healthy exactly for status `200`,
//!   or — with no pending request to pair it with — is treated
//!   conservatively as unhealthy, since correct pairing cannot be confirmed;
//! - when the log is silent past the idle threshold, the machine asks for
//!   one liveness probe, adopts its verdict, and resets the idle clock so a
//!   permanently dead backend is probed once per idle window, not
//!   continuously.
use crate::parser::{EventKind, EventModel, KindModel, LogEvent};
use vstd::prelude::*;

verus! {

/// The status code that makes a paired response healthy.
pub open spec fn ok_status() -> Seq<u8> {
    seq![50u8, 48u8, 48u8]
}

/// The pending request, at the specification level.
pub ghost struct PendingModel {
    pub endpoint: Seq<u8>,
    pub at: int,
}

/// The whole machine, at the specification level.
pub ghost struct MachineModel {
    pub started_at: int,
    pub pending: Option<PendingModel>,
    pub healthy: bool,
    pub last_response_at: Option<int>,
}

/// The machine as it stands when the process starts: no pending request, no
/// response seen yet, and a conservative verdict until evidence arrives.
pub open spec fn init_model(started_at: int) -> MachineModel {
    MachineModel { started_at, pending: None, healthy: false, last_response_at: None }
}

/// One transition of the machine.
pub open spec fn step(m: MachineModel, ev: EventModel) -> MachineModel {
    match ev.kind {
        KindModel::Req { endpoint } => MachineModel {
            pending: Some(PendingModel { endpoint, at: ev.at }),
            healthy: if m.pending is Some {
                false
            } else {
                m.healthy
            },
            ..m
        },
        KindModel::Resp { status } => MachineModel {
            pending: None,
            healthy: if m.pending is Some {
                status == ok_status()
            } else {
                false
            },
            last_response_at: Some(ev.at),
            ..m
        },
        KindModel::Other => m,
    }
}

/// The machine after consuming `evs` in order, oldest first.
pub open spec fn run(m: MachineModel, evs: Seq<EventModel>) -> MachineModel
    decreases evs.len(),
{
    if evs.len() == 0 {
        m
    } else {
        step(run(m, evs.drop_last()), evs.last())
    }
}

/// Consuming a concatenation is consuming the parts in turn.
pub proof fn lemma_run_append(m: MachineModel, a: Seq<EventModel>, b: Seq<EventModel>)
    ensures
        run(m, a + b) == run(run(m, a), b),
    decreases b.len(),
{
    if b.len() == 0 {
        assert(a + b =~= a);
    } else {
        lemma_run_append(m, a, b.drop_last());
        assert((a + b).drop_last() =~= a + b.drop_last());
        assert((a + b).last() == b.last());
    }
}

/// The instant the idle clock counts from: the last observed response, or
/// the process start while none has been seen.
pub open spec fn idle_anchor(m: MachineModel) -> int {
    match m.last_response_at {
        Some(t) => t,
        None => m.started_at,
    }
}

/// Whole seconds of log silence at instant `now`.
pub open spec fn idle_seconds(m: MachineModel, now: int) -> int {
    if now >= idle_anchor(m) {
        (now - idle_anchor(m)) / 1000
    } else {
        0
    }
}

/// The machine asks for a liveness probe: the log has been silent for at
/// least `max_idle` seconds.
pub open spec fn wants_probe(m: MachineModel, now: int, max_idle: int) -> bool {
    idle_seconds(m, now) >= max_idle
}

/// The machine after a probe attempt at instant `now` came back with
/// verdict `ok`: the verdict is adopted and the idle clock restarts.
pub open spec fn after_probe(m: MachineModel, ok: bool, now: int) -> MachineModel {
    MachineModel { healthy: ok, last_response_at: Some(now), ..m }
}

/// The single in-flight request marker.
pub struct PendingRequest {
    /// Endpoint named by the request line.
    pub endpoint: Vec<u8>,
    /// Instant the request line carries.
    pub observed_at: u64,
}

/// The shared health verdict, as read by the router and the notifier.
pub struct HealthState {
    /// Current verdict.
    pub healthy: bool,
    /// Instant of the last observed response or probe, if any.
    pub last_response_at: Option<u64>,
}

/// The health state machine.
pub struct HealthMachine {
    started_at: u64,
    pending: Option<PendingRequest>,
    healthy: bool,
    last_response_at: Option<u64>,
}

impl View for HealthMachine {
    type V = MachineModel;

    closed spec fn view(&self) -> MachineModel {
        MachineModel {
            started_at: self.started_at as int,
            pending: match self.pending {
                Some(p) => Some(PendingModel { endpoint: p.endpoint@, at: p.observed_at as int }),
                None => None,
            },
            healthy: self.healthy,
            last_response_at: match self.last_response_at {
                Some(t) => Some(t as int),
                None => None,
            },
        }
    }
}

/// Do the bytes spell the status code `200`?
fn is_ok_status(v: &Vec<u8>) -> (r: bool)
    ensures
        r == (v@ == ok_status()),
{
    let r = v.len() == 3 && v[0] == 50 && v[1] == 48 && v[2] == 48;
    proof {
        if r {
            assert(v@ =~= ok_status());
        } else {
            if v@ == ok_status() {
                assert(v@[0] == ok_status()[0]);
                assert(v@[1] == ok_status()[1]);
                assert(v@[2] == ok_status()[2]);
            }
        }
    }
    r
}

impl HealthMachine {
    /// A machine as it stands at process start, `started_at` being the
    /// current instant in the timestamp encoding.
    pub fn new(started_at: u64) -> (m: HealthMachine)
        ensures
            m@ == init_model(started_at as int),
    {
        HealthMachine { started_at, pending: None, healthy: false, last_response_at: None }
    }

    /// Current verdict.
    pub fn healthy(&self) -> (r: bool)
        ensures
            r == self@.healthy,
    {
        self.healthy
    }

    /// Copy of the shared health state this machine maintains.
    pub fn health_state(&self) -> (r: HealthState)
        ensures
            r.healthy == self@.healthy,
            r.last_response_at is None <==> self@.last_response_at is None,
            r.last_response_at matches Some(t) ==> self@.last_response_at == Some(t as int),
    {
        HealthState { healthy: self.healthy, last_response_at: self.last_response_at }
    }

    /// Consumes one event.
    pub fn apply_event(&mut self, ev: &LogEvent)
        ensures
            final(self)@ == step(old(self)@, ev@),
    {
        match &ev.kind {
            EventKind::RequestStarted { endpoint } => {
                if self.pending.is_some() {
                    self.healthy = false;
                }
                let ep = crate::parser::copy_range(endpoint, 0, endpoint.len());
                proof {
                    assert(ep@ =~= endpoint@);
                }
                self.pending = Some(
                    PendingRequest { endpoint: ep, observed_at: ev.timestamp_millis },
                );
            },
            EventKind::ResponseCompleted { status_code } => {
                self.last_response_at = Some(ev.timestamp_millis);
                let was_pending = self.pending.is_some();
                self.pending = None;
                self.healthy = was_pending && is_ok_status(status_code);
            },
            EventKind::Other => {},
        }
    }

    /// Consumes a batch of events in order, oldest first.
    pub fn apply_events(&mut self, evs: &Vec<LogEvent>)
        ensures
            final(self)@ == run(old(self)@, evs@.map_values(|e: LogEvent| e@)),
    {
        let mut i: usize = 0;
        proof {
            assert(evs@.map_values(|e: LogEvent| e@).take(0) =~= Seq::<EventModel>::empty());
        }
        while i < evs.len()
            invariant
                i <= evs.len(),
                self@ == run(old(self)@, evs@.map_values(|e: LogEvent| e@).take(i as int)),
            decreases evs.len() - i,
        {
            self.apply_event(&evs[i]);
            proof {
                let mapped = evs@.map_values(|e: LogEvent| e@);
                assert(mapped.take(i + 1).drop_last() =~= mapped.take(i as int));
                assert(mapped.take(i + 1).last() == mapped[i as int]);
            }
            i = i + 1;
        }
        proof {
            let mapped = evs@.map_values(|e: LogEvent| e@);
            assert(mapped.take(mapped.len() as int) =~= mapped);
        }
    }

    /// Should a liveness probe be issued now?  To be consulted only on an
    /// iteration that observed no new log bytes.
    pub fn should_probe(&self, now: u64, max_idle_seconds: u64) -> (r: bool)
        ensures
            r == wants_probe(self@, now as int, max_idle_seconds as int),
    {
        let anchor = match self.last_response_at {
            Some(t) => t,
            None => self.started_at,
        };
        let idle: u64 = if now >= anchor {
            (now - anchor) / 1000
        } else {
            0
        };
        idle >= max_idle_seconds
    }

    /// Records the outcome of a probe attempt: the verdict is the probe's,
    /// and the idle clock restarts whatever the outcome, so one probe is
    /// issued per idle window.
    pub fn record_probe(&mut self, ok: bool, now: u64)
        ensures
            final(self)@ == after_probe(old(self)@, ok, now as int),
    {
        self.healthy = ok;
        self.last_response_at = Some(now);
    }
}

/// Request/response pairs with no interleaving, every response carrying
/// status `200`.
pub open spec fn paired_ok(evs: Seq<EventModel>) -> bool {
    &&& evs.len() % 2 == 0
    &&& forall|i: int|
        0 <= i < evs.len() && i % 2 == 0 ==> (#[trigger] evs[i]).kind is Req
    &&& forall|i: int|
        0 <= i < evs.len() && i % 2 == 1 ==> ((#[trigger] evs[i]).kind matches KindModel::Resp {
            status,
        } && status == ok_status())
}

/// Law: a stream of request/response pairs with no interleaving, each
/// response successful, leaves the machine healthy — whatever state it
/// started from.
pub proof fn lemma_paired_ok_healthy(m: MachineModel, evs: Seq<EventModel>)
    requires
        paired_ok(evs),
        evs.len() >= 2,
    ensures
        run(m, evs).healthy,
        run(m, evs).pending is None,
    decreases evs.len(),
{
    let head = evs.take(2);
    let tail = evs.skip(2);
    assert(evs =~= head + tail);
    lemma_run_append(m, head, tail);
    let m2 = run(m, head);
    assert(m2 == step(step(m, evs[0]), evs[1])) by {
        assert(head.len() == 2);
        assert(head.last() == evs[1]);
        assert(head.drop_last() =~= seq![evs[0]]);
        assert(seq![evs[0]].last() == evs[0]);
        assert(seq![evs[0]].drop_last() =~= Seq::<EventModel>::empty());
        assert(run(m, Seq::<EventModel>::empty()) == m);
        assert(run(m, seq![evs[0]]) == step(m, evs[0]));
    }
    assert(evs[0].kind is Req);
    assert(evs[1].kind matches KindModel::Resp { status } && status == ok_status());
    assert(m2.healthy && m2.pending is None);
    if tail.len() == 0 {
        assert(run(m2, tail) == m2);
    } else {
        assert(paired_ok(tail)) by {
            assert(forall|i: int|
                0 <= i < tail.len() ==> #[trigger] tail[i] == evs[i + 2]);
        }
        lemma_paired_ok_healthy(m2, tail);
    }
}

/// The status code `500`.
pub open spec fn error_status() -> Seq<u8> {
    seq![53u8, 48u8, 48u8]
}

/// Law: a request answered by a response with status `500` as the final
/// events of a stream leaves the machine unhealthy, whatever came before.
pub proof fn lemma_failing_response_unhealthy(
    m: MachineModel,
    evs: Seq<EventModel>,
    ep: Seq<u8>,
    t1: int,
    t2: int,
)
    ensures
        !run(
            m,
            evs + seq![
                EventModel { at: t1, kind: KindModel::Req { endpoint: ep } },
                EventModel { at: t2, kind: KindModel::Resp { status: error_status() } },
            ],
        ).healthy,
{
    let req = EventModel { at: t1, kind: KindModel::Req { endpoint: ep } };
    let resp = EventModel { at: t2, kind: KindModel::Resp { status: error_status() } };
    let s = evs + seq![req, resp];
    assert(error_status() != ok_status()) by {
        assert(error_status()[0] == 53 && ok_status()[0] == 50);
    }
    assert(run(m, s) == step(step(run(m, evs), req), resp)) by {
        assert(s.len() == evs.len() + 2);
        assert(s.last() == resp);
        assert(s.drop_last() =~= evs + seq![req]);
        assert((evs + seq![req]).last() == req);
        assert((evs + seq![req]).drop_last() =~= evs);
        assert(run(m, evs + seq![req]) == step(run(m, evs), req));
    }
}

/// Law: a second request arriving before the first is answered makes the
/// machine unhealthy immediately upon the second start, whatever came
/// before.
pub proof fn lemma_second_request_unhealthy(
    m: MachineModel,
    evs: Seq<EventModel>,
    ep1: Seq<u8>,
    t1: int,
    ep2: Seq<u8>,
    t2: int,
)
    ensures
        !run(
            m,
            evs + seq![
                EventModel { at: t1, kind: KindModel::Req { endpoint: ep1 } },
                EventModel { at: t2, kind: KindModel::Req { endpoint: ep2 } },
            ],
        ).healthy,
{
    let req1 = EventModel { at: t1, kind: KindModel::Req { endpoint: ep1 } };
    let req2 = EventModel { at: t2, kind: KindModel::Req { endpoint: ep2 } };
    let s = evs + seq![req1, req2];
    assert(run(m, s) == step(step(run(m, evs), req1), req2)) by {
        assert(s.len() == evs.len() + 2);
        assert(s.last() == req2);
        assert(s.drop_last() =~= evs + seq![req1]);
        assert((evs + seq![req1]).last() == req1);
        assert((evs + seq![req1]).drop_last() =~= evs);
        assert(run(m, evs + seq![req1]) == step(run(m, evs), req1));
    }
}

/// Law: recording a probe makes the verdict the probe's outcome, and no
/// further probe is wanted until a full idle window has elapsed since —
/// one probe per idle window.
pub proof fn lemma_one_probe_per_window(
    m: MachineModel,
    ok: bool,
    now: int,
    later: int,
    max_idle: int,
)
    requires
        now <= later,
        later - now < max_idle * 1000,
    ensures
        after_probe(m, ok, now).healthy == ok,
        after_probe(m, ok, now).last_response_at == Some(now),
        !wants_probe(after_probe(m, ok, now), later, max_idle),
{
    let m2 = after_probe(m, ok, now);
    assert(idle_anchor(m2) == now);
    assert((later - now) / 1000 < max_idle) by {
        assert(1000 * ((later - now) / 1000) + (later - now) % 1000 == later - now);
    }
}

} // verus!
