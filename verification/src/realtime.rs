//! The real-time channel: a WebSocket connection's subscriptions and live
//! queries, what each incoming message does to them and what is to be sent back,
//! and the parameters of the polling endpoints.
use vstd::prelude::*;
use std::collections::HashMap;
use crate::text::{str_eq, chars_of, string_of};
use crate::ambient::{new_uuid_text, now_text, uuid_hyphenated};
use crate::processors::{trim, trim_spec};

verus! {

/// A message from a WebSocket client.
#[derive(Debug)]
pub enum WebSocketMessage {
    /// Subscribe to metrics every `interval` seconds.
    SubscribeMetrics { metrics: Vec<String>, interval: u32 },
    /// Drop a subscription.
    Unsubscribe { subscription_id: String },
    /// Run a query and keep it live.
    LiveQuery { query_id: String, sql: String, auto_refresh: bool, refresh_interval: Option<u32> },
    /// Heartbeat from the client.
    Ping,
    /// Answer to a heartbeat.
    Pong,
}

/// A metrics subscription.
#[derive(Debug)]
pub struct MetricsSubscriptionRequest {
    /// Metric names.
    pub metrics: Vec<String>,
    /// Seconds between pushes.
    pub interval: u32,
    /// Filters.
    pub filters: Option<HashMap<String, String>>,
}

/// A live query.
#[derive(Debug)]
pub struct LiveQueryRequest {
    /// The SQL.
    pub sql: String,
    /// Whether it is re-run.
    pub auto_refresh: bool,
    /// Seconds between runs.
    pub refresh_interval: Option<u32>,
    /// Most rows returned.
    pub max_rows: Option<u32>,
}

/// What to send back after a message.
#[derive(Debug)]
pub enum WsAction {
    /// Push the metrics of the new subscription.
    SendMetrics { subscription_id: String },
    /// Push the result of the live query.
    SendQueryResult { query_id: String },
    /// Answer a heartbeat.
    SendPong,
    /// Nothing to send.
    NoReply,
}

/// A client connection.
#[derive(Debug)]
pub struct WebSocketConnection {
    /// Client identifier.
    pub client_id: String,
    /// When it connected, as text.
    pub connected_at: String,
    subscriptions: Vec<(String, MetricsSubscriptionRequest)>,
    live_queries: Vec<(String, LiveQueryRequest)>,
}

/// The keys of a keyed list.
pub open spec fn keys_of<V>(v: Seq<(String, V)>) -> Seq<Seq<char>> {
    v.map_values(|e: (String, V)| e.0@)
}

/// Whether no key occurs twice.
pub open spec fn unique_keys(k: Seq<Seq<char>>) -> bool {
    forall|i: int, j: int| 0 <= i < j < k.len() ==> k[i] != k[j]
}

fn find_key<V>(v: &Vec<(String, V)>, key: &str) -> (r: Option<usize>)
    ensures
        match r {
            Some(i) => i < v@.len() && keys_of(v@)[i as int] == key@,
            None => !keys_of(v@).contains(key@),
        },
{
    let mut i: usize = 0;
    while i < v.len()
        invariant
            i <= v@.len(),
            forall|j: int| 0 <= j < i ==> keys_of(v@)[j] != key@,
        decreases v.len() - i,
    {
        if str_eq(v[i].0.as_str(), key) {
            return Some(i);
        }
        i = i + 1;
    }
    proof {
        if keys_of(v@).contains(key@) {
            let j = choose|j: int| 0 <= j < keys_of(v@).len() && keys_of(v@)[j] == key@;
        }
    }
    None
}

fn put<V>(v: &mut Vec<(String, V)>, key: String, value: V)
    requires
        unique_keys(keys_of(old(v)@)),
    ensures
        unique_keys(keys_of(final(v)@)),
        keys_of(final(v)@).to_set() == keys_of(old(v)@).to_set().insert(key@),
        exists|i: int| 0 <= i < final(v)@.len() && (#[trigger] final(v)@[i]).0@ == key@ && final(v)@[i].1 == value,
{
    let ghost k0 = keys_of(v@);
    match find_key(v, key.as_str()) {
        Some(i) => {
            v.set(i, (key, value));
            proof {
                assert(keys_of(v@) =~= k0);
                assert(k0.to_set() =~= k0.to_set().insert(key@)) by {
                    assert(k0.contains(k0[i as int]));
                }
                assert(v@[i as int].0@ == key@);
            }
        },
        None => {
            let ghost kv = key@;
            v.push((key, value));
            proof {
                assert(keys_of(v@) =~= k0.push(kv));
                k0.lemma_push_to_set_commute(kv);
                assert(v@[v@.len() - 1].0@ == kv);
            }
        },
    }
}

fn drop_key<V>(v: &mut Vec<(String, V)>, key: &str) -> (found: bool)
    requires
        unique_keys(keys_of(old(v)@)),
    ensures
        unique_keys(keys_of(final(v)@)),
        found == keys_of(old(v)@).contains(key@),
        keys_of(final(v)@).to_set() == keys_of(old(v)@).to_set().remove(key@),
{
    let ghost k0 = keys_of(v@);
    match find_key(v, key) {
        Some(i) => {
            let _ = v.remove(i);
            proof {
                assert(keys_of(v@) =~= k0.remove(i as int));
                assert forall|x: Seq<char>| #[trigger] keys_of(v@).to_set().contains(x) == k0.to_set().remove(
                    key@,
                ).contains(x) by {
                    if keys_of(v@).contains(x) {
                        let j = choose|j: int| 0 <= j < keys_of(v@).len() && keys_of(v@)[j] == x;
                        if j < i {
                            assert(k0[j] == x);
                        } else {
                            assert(k0[j + 1] == x);
                        }
                        assert(k0.contains(x));
                    }
                    if k0.contains(x) && x != key@ {
                        let j = choose|j: int| 0 <= j < k0.len() && k0[j] == x;
                        assert(j != i);
                        if j < i {
                            assert(keys_of(v@)[j] == x);
                        } else {
                            assert(keys_of(v@)[j - 1] == x);
                        }
                    }
                }
                assert(keys_of(v@).to_set() =~= k0.to_set().remove(key@));
                assert(k0.contains(k0[i as int]));
            }
            true
        },
        None => {
            proof {
                assert(k0.to_set() =~= k0.to_set().remove(key@));
            }
            false
        },
    }
}

/// Whether handling `msg` took the connection from `before` to `after` with the reply `a`, a
/// new subscription getting the identifier `new_id`: a subscription is added and its metrics
/// are to be pushed; an unsubscription removes the subscription if it exists; a live query is
/// recorded and its result is to be pushed; a ping is answered; a pong needs nothing.
pub open spec fn handled(
    before: WebSocketConnection,
    after: WebSocketConnection,
    msg: WebSocketMessage,
    a: WsAction,
    new_id: Seq<char>,
) -> bool {
    match msg {
        WebSocketMessage::SubscribeMetrics { .. } => after.subscription_ids() == before.subscription_ids().insert(new_id)
            && after.query_ids() == before.query_ids()
            && (a matches WsAction::SendMetrics { subscription_id } && subscription_id@ == new_id),
        WebSocketMessage::Unsubscribe { subscription_id } => after.subscription_ids()
            == before.subscription_ids().remove(subscription_id@) && after.query_ids() == before.query_ids()
            && a is NoReply,
        WebSocketMessage::LiveQuery { query_id, .. } => after.query_ids() == before.query_ids().insert(query_id@)
            && after.subscription_ids() == before.subscription_ids()
            && (a matches WsAction::SendQueryResult { query_id: q } && q@ == query_id@),
        WebSocketMessage::Ping => after.subscription_ids() == before.subscription_ids()
            && after.query_ids() == before.query_ids() && a is SendPong,
        WebSocketMessage::Pong => after.subscription_ids() == before.subscription_ids()
            && after.query_ids() == before.query_ids() && a is NoReply,
    }
}

impl WebSocketConnection {
    /// The client's identifier.
    pub closed spec fn client_id_view(&self) -> Seq<char> {
        self.client_id@
    }

    /// The identifiers of the subscriptions.
    pub closed spec fn subscription_ids(&self) -> Set<Seq<char>> {
        keys_of(self.subscriptions@).to_set()
    }

    /// The identifiers of the live queries.
    pub closed spec fn query_ids(&self) -> Set<Seq<char>> {
        keys_of(self.live_queries@).to_set()
    }

    /// Whether the connection holds the subscription `id`.
    pub fn has_subscription(&self, id: &str) -> (b: bool)
        ensures
            b == self.subscription_ids().contains(id@),
    {
        match find_key(&self.subscriptions, id) {
            Some(i) => {
                assert(keys_of(self.subscriptions@).contains(id@)) by {
                    assert(keys_of(self.subscriptions@)[i as int] == id@);
                }
                true
            },
            None => false,
        }
    }

    /// Whether the connection runs the live query `id`.
    pub fn has_live_query(&self, id: &str) -> (b: bool)
        ensures
            b == self.query_ids().contains(id@),
    {
        match find_key(&self.live_queries, id) {
            Some(i) => {
                assert(keys_of(self.live_queries@).contains(id@)) by {
                    assert(keys_of(self.live_queries@)[i as int] == id@);
                }
                true
            },
            None => false,
        }
    }

    /// The connection's own consistency: each identifier once.
    pub closed spec fn wf(&self) -> bool {
        unique_keys(keys_of(self.subscriptions@)) && unique_keys(keys_of(self.live_queries@))
    }

    /// A new connection with a fresh identifier, connected now, with nothing
    /// subscribed.
    pub fn new() -> (c: Self)
        ensures
            exists|v: u128| c.client_id_view() == uuid_hyphenated(v),
            c.wf(),
            c.subscription_ids() == Set::<Seq<char>>::empty(),
            c.query_ids() == Set::<Seq<char>>::empty(),
    {
        let c = WebSocketConnection {
            client_id: new_uuid_text(),
            connected_at: now_text(),
            subscriptions: Vec::new(),
            live_queries: Vec::new(),
        };
        assert(keys_of(c.subscriptions@) =~= Seq::empty());
        assert(keys_of(c.live_queries@) =~= Seq::empty());
        c
    }

    /// Handles a message, with `new_subscription_id` the identifier a new
    /// subscription gets: a subscription is added and its metrics are to be
    /// pushed; an unsubscription removes the subscription if it exists; a live
    /// query is recorded (at most 1000 rows) and its result is to be pushed; a
    /// ping is answered; a pong needs nothing.
    pub fn handle_message_with(&mut self, msg: WebSocketMessage, new_subscription_id: String) -> (a: WsAction)
        requires
            old(self).wf(),
        ensures
            final(self).wf(),
            handled(*old(self), *final(self), msg, a, new_subscription_id@),
    {
        match msg {
            WebSocketMessage::SubscribeMetrics { metrics, interval } => {
                let id = new_subscription_id.clone();
                put(&mut self.subscriptions, new_subscription_id, MetricsSubscriptionRequest { metrics, interval, filters: None });
                WsAction::SendMetrics { subscription_id: id }
            },
            WebSocketMessage::Unsubscribe { subscription_id } => {
                let _ = drop_key(&mut self.subscriptions, subscription_id.as_str());
                WsAction::NoReply
            },
            WebSocketMessage::LiveQuery { query_id, sql, auto_refresh, refresh_interval } => {
                let id = query_id.clone();
                put(
                    &mut self.live_queries,
                    query_id,
                    LiveQueryRequest { sql, auto_refresh, refresh_interval, max_rows: Some(1000) },
                );
                WsAction::SendQueryResult { query_id: id }
            },
            WebSocketMessage::Ping => WsAction::SendPong,
            WebSocketMessage::Pong => WsAction::NoReply,
        }
    }

    /// Handles a message; a new subscription gets a fresh random identifier.
    pub fn handle_websocket_message(&mut self, msg: WebSocketMessage) -> (a: WsAction)
        requires
            old(self).wf(),
        ensures
            final(self).wf(),
            exists|id: Seq<char>| #![trigger handled(*old(self), *final(self), msg, a, id)]
                (exists|v: u128| id == uuid_hyphenated(v)) && handled(*old(self), *final(self), msg, a, id),
    {
        let id = new_uuid_text();
        let ghost gid = id@;
        let a = self.handle_message_with(msg, id);
        assert(handled(*old(self), *self, msg, a, gid));
        a
    }
}

/// The rows a live query returns: `max_rows` (10 when absent), at most 100.
pub fn live_query_rows(max_rows: Option<u32>) -> (n: u32)
    ensures
        n == match max_rows { Some(m) => if m < 100 { m } else { 100 }, None => 10 },
{
    match max_rows {
        Some(m) => if m < 100 { m } else { 100 },
        None => 10,
    }
}

/// `s` split at every `,`.
pub open spec fn split_commas(s: Seq<char>) -> Seq<Seq<char>>
    decreases s.len(),
{
    if s.len() == 0 {
        seq![Seq::empty()]
    } else {
        let rest = split_commas(s.drop_last());
        if s.last() == ',' {
            rest.push(Seq::empty())
        } else {
            rest.update(rest.len() - 1, rest.last().push(s.last()))
        }
    }
}

/// The metric names asked for: the comma-separated list (by default
/// `cpu_usage,memory_usage`), each name trimmed.
pub fn metric_names(query: Option<&str>) -> (names: Vec<String>)
    ensures
        names@.map_values(|s: String| s@) == split_commas(match query { Some(q) => q@, None => "cpu_usage,memory_usage"@ }).map_values(
            |p: Seq<char>| trim_spec(p),
        ),
{
    let list = match query {
        Some(q) => q,
        None => "cpu_usage,memory_usage",
    };
    let cs = chars_of(list);
    let mut parts: Vec<Vec<char>> = Vec::new();
    parts.push(Vec::new());
    let mut i: usize = 0;
    assert(cs@.subrange(0, 0) =~= Seq::<char>::empty());
    while i < cs.len()
        invariant
            i <= cs@.len(),
            parts@.len() >= 1,
            parts@.map_values(|p: Vec<char>| p@) == split_commas(cs@.subrange(0, i as int)),
        decreases cs.len() - i,
    {
        let c = cs[i];
        proof {
            assert(cs@.subrange(0, i + 1).drop_last() =~= cs@.subrange(0, i as int));
        }
        if c == ',' {
            parts.push(Vec::new());
            proof {
                assert(parts@.map_values(|p: Vec<char>| p@) =~= split_commas(cs@.subrange(0, i + 1)));
            }
        } else {
            let last = parts.len() - 1;
            let mut cur = parts.remove(last);
            cur.push(c);
            parts.push(cur);
            proof {
                assert(parts@.map_values(|p: Vec<char>| p@) =~= split_commas(cs@.subrange(0, i + 1)));
            }
        }
        i = i + 1;
    }
    assert(cs@.subrange(0, cs@.len() as int) =~= cs@);
    let ghost pv = parts@.map_values(|p: Vec<char>| p@);
    let mut names: Vec<String> = Vec::new();
    let mut k: usize = 0;
    while k < parts.len()
        invariant
            k <= parts@.len(),
            pv == parts@.map_values(|p: Vec<char>| p@),
            names@.len() == k,
            names@.map_values(|s: String| s@) == pv.subrange(0, k as int).map_values(|p: Seq<char>| trim_spec(p)),
        decreases parts.len() - k,
    {
        let s = string_of(&parts[k]);
        let t = trim(s.as_str());
        let ghost prev = names@;
        names.push(t);
        proof {
            assert(pv[k as int] == parts@[k as int]@);
            assert forall|m: int| 0 <= m < k implies #[trigger] names@[m]@ == trim_spec(pv[m]) by {
                assert(names@[m] == prev[m]);
                assert(prev.map_values(|s: String| s@)[m] == pv.subrange(0, k as int).map_values(
                    |p: Seq<char>| trim_spec(p),
                )[m]);
            }
            assert(names@.map_values(|s: String| s@) =~= pv.subrange(0, k + 1).map_values(|p: Seq<char>| trim_spec(p)));
        }
        k = k + 1;
    }
    assert(pv.subrange(0, pv.len() as int) =~= pv);
    names
}

/// Unsubscribing from a subscription just made restores the subscriptions held
/// before it, when its identifier was new: `before` subscribed `id` and became
/// `subscribed`, which unsubscribed `id` and became `after`.
pub proof fn lemma_unsubscribe_undoes_subscribe(
    before: WebSocketConnection,
    subscribed: WebSocketConnection,
    after: WebSocketConnection,
    id: Seq<char>,
)
    requires
        !before.subscription_ids().contains(id),
        subscribed.subscription_ids() == before.subscription_ids().insert(id),
        after.subscription_ids() == subscribed.subscription_ids().remove(id),
    ensures
        after.subscription_ids() == before.subscription_ids(),
{
    assert(before.subscription_ids().insert(id).remove(id) =~= before.subscription_ids());
}

} // verus!
