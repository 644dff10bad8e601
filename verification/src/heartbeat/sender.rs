use std::collections::HashMap;
use vstd::prelude::*;
use vstd::std_specs::iter::IteratorSpec;

verus! {

broadcast use {vstd::std_specs::hash::group_hash_axioms, vstd::seq_lib::group_seq_properties};

/// A heartbeat request that has been sent and not yet answered.
#[derive(Debug, Clone)]
pub struct PendingRequest {
    pub target: String,
    pub sent_at_ms: u64,
}

/// A request that went unanswered for longer than the response timeout.
#[derive(Debug, Clone)]
pub struct MissedRequest {
    pub request_id: u64,
    pub target: String,
}

/// What an answered request tells: whom it went to and how long the answer took.
#[derive(Debug, Clone)]
pub struct ResponseReport {
    pub target: String,
    pub latency_ms: u64,
}

/// One request of a round: its id, the target it goes to, and the name and time it carries.
#[derive(Debug, Clone)]
pub struct TickRequest {
    pub request_id: u64,
    pub target: String,
    pub sender_name: String,
    pub timestamp_ms: u64,
}

/// The ids of a round of requests, in its order.
pub open spec fn tick_ids(round: Seq<TickRequest>) -> Seq<u64> {
    round.map_values(|r: TickRequest| r.request_id)
}

/// The `n` consecutive ids after `last`.
pub open spec fn request_ids_from(last: nat, n: nat) -> Seq<u64> {
    Seq::new(n, |k: int| (last + k + 1) as u64)
}

/// The ids of a list of missed requests, in its order.
pub open spec fn missed_ids(missed: Seq<MissedRequest>) -> Seq<u64> {
    missed.map_values(|m: MissedRequest| m.request_id)
}

/// `a - b`, or 0 where `b` is larger.
pub open spec fn saturating_diff(a: u64, b: u64) -> int {
    if a >= b {
        a - b
    } else {
        0
    }
}

/// Whether a request sent at `sent_at_ms` has waited longer than `timeout_ms` at `now_ms`.
pub open spec fn is_overdue(sent_at_ms: u64, now_ms: u64, timeout_ms: u64) -> bool {
    saturating_diff(now_ms, sent_at_ms) > timeout_ms
}

/// The ids of the pending requests that are overdue at `now_ms`.
pub open spec fn overdue_ids(
    pending: Map<u64, PendingRequest>,
    now_ms: u64,
    timeout_ms: u64,
) -> Set<u64> {
    pending.dom().filter(|id: u64| is_overdue(pending[id].sent_at_ms, now_ms, timeout_ms))
}

/// The pending requests left after the overdue ones are dropped.
pub open spec fn prune_pending(
    pending: Map<u64, PendingRequest>,
    now_ms: u64,
    timeout_ms: u64,
) -> Map<u64, PendingRequest> {
    pending.remove_keys(overdue_ids(pending, now_ms, timeout_ms))
}

/// The targets that a sender polls: those of `targets` that are among the `known` clients, each
/// once, in the order of their first occurrence.
pub open spec fn resolve_targets(targets: Seq<Seq<char>>, known: Seq<Seq<char>>) -> Seq<Seq<char>>
    decreases targets.len(),
{
    if targets.len() == 0 {
        Seq::empty()
    } else {
        let prev = resolve_targets(targets.drop_last(), known);
        let t = targets.last();
        if known.contains(t) && !prev.contains(t) {
            prev.push(t)
        } else {
            prev
        }
    }
}

/// Whether `name` is one of `names`.
pub fn contains_name(names: &[String], name: &String) -> (found: bool)
    ensures
        found == names@.map_values(|s: String| s@).contains(name@),
{
    let ghost views = names@.map_values(|s: String| s@);
    let mut i: usize = 0;
    while i < names.len()
        invariant
            0 <= i <= names@.len(),
            views == names@.map_values(|s: String| s@),
            forall|j: int| 0 <= j < i ==> views[j] != name@,
        decreases names@.len() - i,
    {
        if names[i] == *name {
            assert(views[i as int] == name@);
            return true;
        }
        i = i + 1;
    }
    assert forall|j: int| 0 <= j < views.len() implies views[j] != name@ by {}
    false
}

/// The decision core of a heartbeat sender: which targets it polls, which request ids it has
/// handed out, and which requests still await an answer.
pub struct HeartbeatSender {
    interval_ms: u64,
    response_timeout_ms: u64,
    container_name: String,
    targets: Vec<String>,
    next_id: u64,
    last_recorded: u64,
    pending: HashMap<u64, PendingRequest>,
}

impl HeartbeatSender {
    /// Every pending request carries an id already recorded, recorded ids were handed out, and
    /// no target is polled twice.
    pub closed spec fn wf(&self) -> bool {
        &&& forall|id: u64| #[trigger]
            self.pending@.contains_key(id) ==> 0 < id <= self.last_recorded
        &&& self.last_recorded <= self.next_id
        &&& self.target_names().no_duplicates()
    }

    pub closed spec fn interval(&self) -> u64 {
        self.interval_ms
    }

    pub closed spec fn response_timeout(&self) -> u64 {
        self.response_timeout_ms
    }

    pub closed spec fn name(&self) -> Seq<char> {
        self.container_name@
    }

    /// The names of the polled targets, in polling order.
    pub closed spec fn target_names(&self) -> Seq<Seq<char>> {
        self.targets@.map_values(|s: String| s@)
    }

    /// The last request id handed out (0 before the first).
    pub closed spec fn last_id(&self) -> u64 {
        self.next_id
    }

    /// The last request id recorded as sent (0 before the first). Ids are recorded in increasing
    /// order, so no id is ever recorded twice.
    pub closed spec fn last_recorded_id(&self) -> u64 {
        self.last_recorded
    }

    /// The requests that await an answer, by id.
    pub closed spec fn pending_requests(&self) -> Map<u64, PendingRequest> {
        self.pending@
    }

    /// A sender that polls those of `targets` found among `known_clients` (each once, in the order
    /// given), has handed out no id and awaits nothing.
    pub fn new(
        interval_ms: u64,
        response_timeout_ms: u64,
        container_name: String,
        known_clients: &[String],
        targets: &[String],
    ) -> (s: HeartbeatSender)
        ensures
            s.wf(),
            s.interval() == interval_ms,
            s.response_timeout() == response_timeout_ms,
            s.name() == container_name@,
            s.target_names() == resolve_targets(
                targets@.map_values(|t: String| t@),
                known_clients@.map_values(|t: String| t@),
            ),
            forall|t: Seq<char>|
                #![trigger s.target_names().contains(t)]
                s.target_names().contains(t) <==> (targets@.map_values(|x: String| x@).contains(t)
                    && known_clients@.map_values(|x: String| x@).contains(t)),
            s.last_id() == 0,
            s.last_recorded_id() == 0,
            s.pending_requests() == Map::<u64, PendingRequest>::empty(),
    {
        let ghost tv = targets@.map_values(|t: String| t@);
        let ghost kv = known_clients@.map_values(|t: String| t@);
        let mut resolved: Vec<String> = Vec::new();
        let mut i: usize = 0;
        while i < targets.len()
            invariant
                0 <= i <= targets@.len(),
                tv == targets@.map_values(|t: String| t@),
                kv == known_clients@.map_values(|t: String| t@),
                resolved@.map_values(|t: String| t@) == resolve_targets(tv.take(i as int), kv),
            decreases targets@.len() - i,
        {
            let ghost prev = resolved@.map_values(|t: String| t@);
            assert(tv.take(i as int + 1).drop_last() =~= tv.take(i as int));
            assert(tv.take(i as int + 1).last() == targets@[i as int]@);
            let t = &targets[i];
            if contains_name(known_clients, t) && !contains_name(resolved.as_slice(), t) {
                resolved.push(t.clone());
                assert(resolved@.map_values(|t: String| t@) =~= prev.push(t@));
            }
            i = i + 1;
        }
        assert(tv.take(targets@.len() as int) =~= tv);
        proof {
            lemma_resolve_targets_no_duplicates(tv, kv);
            lemma_resolve_targets_complete(tv, kv);
        }
        HeartbeatSender {
            interval_ms,
            response_timeout_ms,
            container_name,
            targets: resolved,
            next_id: 0,
            last_recorded: 0,
            pending: HashMap::new(),
        }
    }

    /// Milliseconds between two rounds of requests.
    pub fn interval_ms(&self) -> (ms: u64)
        ensures
            ms == self.interval(),
    {
        self.interval_ms
    }

    /// Name under which this container sends its requests.
    pub fn container_name(&self) -> (name: &String)
        ensures
            name@ == self.name(),
    {
        &self.container_name
    }

    /// The polled targets, in polling order.
    pub fn targets(&self) -> (t: &Vec<String>)
        ensures
            t@.map_values(|s: String| s@) == self.target_names(),
    {
        &self.targets
    }

    /// The last request id recorded as sent (0 before the first).
    pub fn last_recorded_request_id(&self) -> (id: u64)
        ensures
            id == self.last_recorded_id(),
    {
        self.last_recorded
    }

    /// Whether a round of requests, one per target, can be numbered.
    pub fn can_begin_tick(&self) -> (b: bool)
        ensures
            b == (self.last_id() + self.target_names().len() <= u64::MAX),
    {
        self.targets.len() as u64 <= u64::MAX - self.next_id
    }

    /// Numbers one round of requests: one per polled target, in polling order, the k-th getting
    /// the id one past the last plus k, all sent under this container's name with the tick's time
    /// `epoch_ms`. None of them is pending yet; `record_pending` notes those actually sent.
    pub fn begin_tick(&mut self, epoch_ms: u64) -> (round: Vec<TickRequest>)
        requires
            old(self).wf(),
            old(self).last_id() + old(self).target_names().len() <= u64::MAX,
        ensures
            final(self).wf(),
            round@.len() == old(self).target_names().len(),
            tick_ids(round@) == request_ids_from(
                old(self).last_id() as nat,
                old(self).target_names().len(),
            ),
            forall|k: int|
                0 <= k < round@.len() ==> {
                    &&& (#[trigger] round@[k]).target@ == old(self).target_names()[k]
                    &&& round@[k].sender_name@ == old(self).name()
                    &&& round@[k].timestamp_ms == epoch_ms
                    &&& !old(self).pending_requests().contains_key(round@[k].request_id)
                },
            final(self).last_id() == old(self).last_id() + old(self).target_names().len(),
            final(self).last_recorded_id() == old(self).last_recorded_id(),
            final(self).pending_requests() == old(self).pending_requests(),
            final(self).target_names() == old(self).target_names(),
            final(self).interval() == old(self).interval(),
            final(self).response_timeout() == old(self).response_timeout(),
            final(self).name() == old(self).name(),
    {
        let ghost start = self.next_id as nat;
        let ghost names = self.target_names();
        let mut round: Vec<TickRequest> = Vec::new();
        let mut k: usize = 0;
        while k < self.targets.len()
            invariant
                0 <= k <= self.targets@.len(),
                self.wf(),
                names == self.target_names(),
                start == old(self).next_id,
                start + names.len() <= u64::MAX,
                self.next_id == start + k,
                self.last_recorded == old(self).last_recorded,
                self.pending@ == old(self).pending@,
                self.target_names() == old(self).target_names(),
                self.interval() == old(self).interval(),
                self.response_timeout() == old(self).response_timeout(),
                self.name() == old(self).name(),
                round@.len() == k,
                tick_ids(round@) == request_ids_from(start, k as nat),
                forall|j: int|
                    0 <= j < k ==> {
                        &&& (#[trigger] round@[j]).target@ == names[j]
                        &&& round@[j].sender_name@ == self.container_name@
                        &&& round@[j].timestamp_ms == epoch_ms
                        &&& !old(self).pending@.contains_key(round@[j].request_id)
                    },
            decreases self.targets@.len() - k,
        {
            let id = self.allocate_request_id();
            let target = self.targets[k].clone();
            let sender_name = self.container_name.clone();
            let ghost before = round@;
            round.push(TickRequest { request_id: id, target, sender_name, timestamp_ms: epoch_ms });
            assert(tick_ids(round@) =~= request_ids_from(start, k as nat + 1)) by {
                assert(tick_ids(round@) =~= tick_ids(before).push(id));
            }
            k = k + 1;
        }
        round
    }

    /// Hands out the next request id: one more than the last, never pending before.
    fn allocate_request_id(&mut self) -> (id: u64)
        requires
            old(self).wf(),
            old(self).last_id() < u64::MAX,
        ensures
            final(self).wf(),
            id == old(self).last_id() + 1,
            final(self).last_id() == id,
            !old(self).pending_requests().contains_key(id),
            final(self).pending_requests() == old(self).pending_requests(),
            final(self).last_recorded_id() == old(self).last_recorded_id(),
            final(self).target_names() == old(self).target_names(),
            final(self).interval() == old(self).interval(),
            final(self).response_timeout() == old(self).response_timeout(),
            final(self).name() == old(self).name(),
    {
        self.next_id = self.next_id + 1;
        self.next_id
    }

    /// Notes that request `request_id` went to `target` at `sent_at_ms` and awaits an answer.
    pub fn record_pending(&mut self, request_id: u64, target: String, sent_at_ms: u64)
        requires
            old(self).wf(),
            old(self).last_recorded_id() < request_id <= old(self).last_id(),
        ensures
            final(self).wf(),
            final(self).last_recorded_id() == request_id,
            !old(self).pending_requests().contains_key(request_id),
            final(self).pending_requests() == old(self).pending_requests().insert(
                request_id,
                PendingRequest { target, sent_at_ms },
            ),
            final(self).last_id() == old(self).last_id(),
            final(self).target_names() == old(self).target_names(),
            final(self).interval() == old(self).interval(),
            final(self).response_timeout() == old(self).response_timeout(),
            final(self).name() == old(self).name(),
    {
        self.pending.insert(request_id, PendingRequest { target, sent_at_ms });
        self.last_recorded = request_id;
    }

    /// Drops every pending request that has waited longer than the response timeout at `now_ms`
    /// and returns them, each once, in no particular order. The others stay pending.
    pub fn prune_expired(&mut self, now_ms: u64) -> (missed: Vec<MissedRequest>)
        requires
            old(self).wf(),
        ensures
            final(self).wf(),
            final(self).pending_requests() == prune_pending(
                old(self).pending_requests(),
                now_ms,
                old(self).response_timeout(),
            ),
            missed_ids(missed@).no_duplicates(),
            missed_ids(missed@).to_set() == overdue_ids(
                old(self).pending_requests(),
                now_ms,
                old(self).response_timeout(),
            ),
            forall|i: int|
                0 <= i < missed@.len() ==> #[trigger] missed@[i].target
                    == old(self).pending_requests()[missed@[i].request_id].target,
            final(self).last_id() == old(self).last_id(),
            final(self).last_recorded_id() == old(self).last_recorded_id(),
            final(self).target_names() == old(self).target_names(),
            final(self).interval() == old(self).interval(),
            final(self).response_timeout() == old(self).response_timeout(),
            final(self).name() == old(self).name(),
    {
        let ids = self.pending_ids();
        let ghost old_p = self.pending@;
        let ghost timeout = self.response_timeout_ms;
        let ghost overdue = overdue_ids(old_p, now_ms, timeout);
        let mut missed: Vec<MissedRequest> = Vec::new();
        let mut i: usize = 0;
        while i < ids.len()
            invariant
                0 <= i <= ids@.len(),
                ids@.to_set() == old_p.dom(),
                ids@.no_duplicates(),
                old_p == old(self).pending@,
                timeout == self.response_timeout_ms,
                overdue == overdue_ids(old_p, now_ms, timeout),
                self.next_id == old(self).next_id,
                self.last_recorded == old(self).last_recorded,
                self.targets == old(self).targets,
                self.interval_ms == old(self).interval_ms,
                self.response_timeout_ms == old(self).response_timeout_ms,
                self.container_name == old(self).container_name,
                forall|k: u64| #[trigger]
                    self.pending@.contains_key(k) <==> (old_p.contains_key(k) && !(
                    ids@.take(i as int).contains(k) && overdue.contains(k))),
                forall|k: u64| #[trigger]
                    self.pending@.contains_key(k) ==> self.pending@[k] == old_p[k],
                missed_ids(missed@).no_duplicates(),
                forall|k: u64|
                    #[trigger] missed_ids(missed@).contains(k)
                        <==> (ids@.take(i as int).contains(k) && overdue.contains(k)),
                forall|j: int|
                    0 <= j < missed@.len() ==> #[trigger] missed@[j].target
                        == old_p[missed@[j].request_id].target,
            decreases ids@.len() - i,
        {
            let k = ids[i];
            let ghost mids = missed_ids(missed@);
            assert(ids@.take(i as int + 1) =~= ids@.take(i as int).push(k));
            assert(old_p.contains_key(k)) by {
                assert(ids@.to_set().contains(k));
            }
            assert(!ids@.take(i as int).contains(k)) by {
                if ids@.take(i as int).contains(k) {
                    let j = choose|j: int| 0 <= j < i && ids@.take(i as int)[j] == k;
                    assert(ids@[j] == ids@[i as int]);
                }
            }
            let mut found: Option<(String, bool)> = None;
            match self.pending.get(&k) {
                Some(p) => {
                    let elapsed: u64 = if now_ms >= p.sent_at_ms {
                        now_ms - p.sent_at_ms
                    } else {
                        0
                    };
                    found = Some((p.target.clone(), elapsed > self.response_timeout_ms));
                },
                None => {},
            }
            assert(found is Some);
            let (target, is_late) = found.unwrap();
            assert(is_late == overdue.contains(k));
            if is_late {
                assert(!mids.contains(k));
                assert(mids.push(k).no_duplicates()) by {
                    assert forall|a: int, b: int|
                        0 <= a < mids.push(k).len() && 0 <= b < mids.push(k).len() && a != b
                            implies mids.push(k)[a] != mids.push(k)[b] by {
                        if a < mids.len() && b < mids.len() {
                        } else if a < mids.len() {
                            assert(mids.contains(mids[a]));
                        } else {
                            assert(mids.contains(mids[b]));
                        }
                    }
                }
                self.pending.remove(&k);
                missed.push(MissedRequest { request_id: k, target });
                assert(missed_ids(missed@) =~= mids.push(k));
            }
            i = i + 1;
        }
        assert(ids@.take(ids@.len() as int) =~= ids@);
        assert forall|k: u64| #[trigger] ids@.contains(k) <==> old_p.contains_key(k) by {
            assert(ids@.to_set().contains(k) <==> ids@.contains(k));
        }
        assert(self.pending@ =~= old_p.remove_keys(overdue));
        assert(missed_ids(missed@).to_set() =~= overdue);
        missed
    }

    /// Takes the answer to request `request_id` at `now_ms`: `Some` of its target and the time it
    /// took when that request was pending, which it no longer is; `None` when it was not.
    pub fn on_response(&mut self, request_id: u64, now_ms: u64) -> (report: Option<ResponseReport>)
        requires
            old(self).wf(),
        ensures
            final(self).wf(),
            final(self).pending_requests() == old(self).pending_requests().remove(request_id),
            match report {
                Some(r) => {
                    &&& old(self).pending_requests().contains_key(request_id)
                    &&& r.target == old(self).pending_requests()[request_id].target
                    &&& r.latency_ms == saturating_diff(
                        now_ms,
                        old(self).pending_requests()[request_id].sent_at_ms,
                    )
                },
                None => !old(self).pending_requests().contains_key(request_id),
            },
            final(self).last_id() == old(self).last_id(),
            final(self).last_recorded_id() == old(self).last_recorded_id(),
            final(self).target_names() == old(self).target_names(),
            final(self).interval() == old(self).interval(),
            final(self).response_timeout() == old(self).response_timeout(),
            final(self).name() == old(self).name(),
    {
        match self.pending.remove(&request_id) {
            Some(p) => {
                let latency_ms: u64 = if now_ms >= p.sent_at_ms {
                    now_ms - p.sent_at_ms
                } else {
                    0
                };
                Some(ResponseReport { target: p.target, latency_ms })
            },
            None => None,
        }
    }

    /// Ids of all pending requests, each once.
    fn pending_ids(&self) -> (ids: Vec<u64>)
        ensures
            ids@.to_set() == self.pending@.dom(),
            ids@.no_duplicates(),
    {
        let mut ids: Vec<u64> = Vec::new();
        let ghost all = vstd::std_specs::hash::spec_keys_iter(&self.pending).remaining();
        for k in it: self.pending.keys()
            invariant
                it.seq() == all,
                ids@.len() == it.index(),
                forall|j: int| 0 <= j < it.index() ==> ids@[j] == *all[j],
        {
            ids.push(*k);
        }
        assert(ids@ =~= all.unref());
        ids
    }
}

/// A request answered before a prune is never reported missed by it, whatever the time.
pub proof fn lemma_answered_request_never_missed(
    pending: Map<u64, PendingRequest>,
    request_id: u64,
    request: PendingRequest,
    now_ms: u64,
    timeout_ms: u64,
)
    ensures
        !overdue_ids(pending.insert(request_id, request).remove(request_id), now_ms, timeout_ms).contains(
            request_id,
        ),
{
}

/// Answering a recorded request finds it with the target it was recorded for, and leaves the
/// other pending requests as they were before it was recorded.
pub proof fn lemma_answer_matches_record(
    pending: Map<u64, PendingRequest>,
    request_id: u64,
    request: PendingRequest,
)
    requires
        !pending.contains_key(request_id),
    ensures
        pending.insert(request_id, request).contains_key(request_id),
        pending.insert(request_id, request)[request_id] == request,
        pending.insert(request_id, request).remove(request_id) == pending,
{
    assert(pending.insert(request_id, request).remove(request_id) =~= pending);
}

/// A pending request that has waited longer than the timeout is reported by the next prune
/// and no longer pending after it; one that has not stays pending, unchanged.
pub proof fn lemma_prune_reports_exactly_overdue(
    pending: Map<u64, PendingRequest>,
    request_id: u64,
    now_ms: u64,
    timeout_ms: u64,
)
    requires
        pending.contains_key(request_id),
    ensures
        is_overdue(pending[request_id].sent_at_ms, now_ms, timeout_ms) ==> (overdue_ids(
            pending,
            now_ms,
            timeout_ms,
        ).contains(request_id) && !prune_pending(pending, now_ms, timeout_ms).contains_key(
            request_id,
        )),
        !is_overdue(pending[request_id].sent_at_ms, now_ms, timeout_ms) ==> (!overdue_ids(
            pending,
            now_ms,
            timeout_ms,
        ).contains(request_id) && prune_pending(pending, now_ms, timeout_ms).contains_key(
            request_id,
        ) && prune_pending(pending, now_ms, timeout_ms)[request_id] == pending[request_id]),
{
}

/// Pruning a second time at the same moment drops nothing more.
pub proof fn lemma_prune_idempotent(pending: Map<u64, PendingRequest>, now_ms: u64, timeout_ms: u64)
    ensures
        prune_pending(prune_pending(pending, now_ms, timeout_ms), now_ms, timeout_ms) == prune_pending(
            pending,
            now_ms,
            timeout_ms,
        ),
        overdue_ids(prune_pending(pending, now_ms, timeout_ms), now_ms, timeout_ms) == Set::<
            u64,
        >::empty(),
{
    let once = prune_pending(pending, now_ms, timeout_ms);
    assert(overdue_ids(once, now_ms, timeout_ms) =~= Set::<u64>::empty());
    assert(prune_pending(once, now_ms, timeout_ms) =~= once);
}

/// Every request a sender still awaits was recorded, and so carries an id handed out before.
pub proof fn lemma_pending_ids_recorded(s: &HeartbeatSender)
    requires
        s.wf(),
    ensures
        s.last_recorded_id() <= s.last_id(),
        forall|id: u64| #[trigger]
            s.pending_requests().contains_key(id) ==> 0 < id <= s.last_recorded_id(),
{
}

/// Rounds number their requests on from where the last round stopped: over a sender's whole life,
/// starting from a new sender, the k-th request of all rounds together gets id k.
pub proof fn lemma_rounds_number_requests_consecutively(last: nat, first: nat, second: nat)
    requires
        last + first + second <= u64::MAX,
    ensures
        request_ids_from(last, first) + request_ids_from(last + first, second) == request_ids_from(
            last,
            first + second,
        ),
        forall|k: int|
            1 <= k <= first + second ==> #[trigger] request_ids_from(0, first + second)[k - 1]
                == k,
{
    assert(request_ids_from(last, first) + request_ids_from(last + first, second)
        =~= request_ids_from(last, first + second));
}

/// A request is reported missed at most once: the prune that reports it drops it, later records
/// carry larger ids and cannot bring it back, and a prune reports only requests still pending.
pub proof fn lemma_missed_request_reported_once(
    pending: Map<u64, PendingRequest>,
    last_recorded: u64,
    request_id: u64,
    now_ms: u64,
    timeout_ms: u64,
)
    requires
        forall|id: u64| #[trigger] pending.contains_key(id) ==> id <= last_recorded,
        overdue_ids(pending, now_ms, timeout_ms).contains(request_id),
    ensures
        !prune_pending(pending, now_ms, timeout_ms).contains_key(request_id),
        forall|later_id: u64, p: PendingRequest|
            later_id > last_recorded ==> !(#[trigger] prune_pending(
                pending,
                now_ms,
                timeout_ms,
            ).insert(later_id, p)).contains_key(request_id),
        forall|m: Map<u64, PendingRequest>, later_ms: u64, t: u64|
            !m.contains_key(request_id) ==> !(#[trigger] overdue_ids(m, later_ms, t)).contains(
                request_id,
            ),
{
}

/// The targets resolved for a sender are never repeated.
pub proof fn lemma_resolve_targets_no_duplicates(targets: Seq<Seq<char>>, known: Seq<Seq<char>>)
    ensures
        resolve_targets(targets, known).no_duplicates(),
        forall|t: Seq<char>| #[trigger] resolve_targets(targets, known).contains(t) ==> known.contains(t)
            && targets.contains(t),
    decreases targets.len(),
{
    if targets.len() > 0 {
        lemma_resolve_targets_no_duplicates(targets.drop_last(), known);
        let prev = resolve_targets(targets.drop_last(), known);
        let t = targets.last();
        assert forall|x: Seq<char>| #[trigger] resolve_targets(targets, known).contains(x) implies known.contains(x)
            && targets.contains(x) by {
            if prev.contains(x) {
                let j = choose|j: int| 0 <= j < targets.drop_last().len() && targets.drop_last()[j] == x;
                assert(targets[j] == x);
            } else {
                assert(x == t);
                assert(targets[targets.len() - 1] == x);
            }
        }
    }
}

/// Every target that is a known client is polled: resolving the targets drops only the names
/// that are not known clients (and repeats).
pub proof fn lemma_resolve_targets_complete(targets: Seq<Seq<char>>, known: Seq<Seq<char>>)
    ensures
        forall|t: Seq<char>|
            targets.contains(t) && known.contains(t) ==> #[trigger] resolve_targets(
                targets,
                known,
            ).contains(t),
    decreases targets.len(),
{
    if targets.len() > 0 {
        let rest = targets.drop_last();
        lemma_resolve_targets_complete(rest, known);
        let prev = resolve_targets(rest, known);
        let last = targets.last();
        assert forall|t: Seq<char>|
            targets.contains(t) && known.contains(t) implies #[trigger] resolve_targets(
            targets,
            known,
        ).contains(t) by {
            let j = choose|j: int| 0 <= j < targets.len() && targets[j] == t;
            if j < targets.len() - 1 {
                assert(rest[j] == t);
                assert(prev.contains(t));
                if known.contains(last) && !prev.contains(last) {
                    assert(prev.push(last)[prev.index_of(t)] == t);
                }
            } else {
                assert(t == last);
                if !prev.contains(last) {
                    assert(prev.push(last)[prev.len() as int] == t);
                }
            }
        }
    }
}

} // verus!
