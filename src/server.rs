//! The greeting service: its configuration, its shared state, and the
//! handling of one request to the counted route.

use vstd::prelude::*;

verus! {

/// The address the service listens on: the loopback interface only.
pub const HOST: &'static str = "127.0.0.1";

/// The number of workers that serve requests concurrently.
pub const WORKERS: usize = 8;

/// A greeting service that will listen on a port; it binds nothing when made.
pub struct MessageApp {
    port: u16,
}

impl View for MessageApp {
    /// The port to listen on.
    type V = u16;

    closed spec fn view(&self) -> u16 {
        self.port
    }
}

impl MessageApp {
    /// Makes a service for `port`.
    pub fn new(port: u16) -> (app: Self)
        ensures
            app@ == port,
    {
        MessageApp { port }
    }

    /// The port to listen on.
    pub fn port(&self) -> (port: u16)
        ensures
            port == self@,
    {
        self.port
    }
}

/// The state of a running server, as a mathematical value.
pub struct StateView {
    pub server_id: nat,
    pub request_count: nat,
    pub messages: Seq<Seq<char>>,
}

/// The payload of one response, as a mathematical value.
pub struct ResponseView {
    pub server_id: nat,
    pub request_count: nat,
    pub messages: Seq<Seq<char>>,
}

/// The state of a server that has just started: no request handled yet.
pub open spec fn initial(server_id: nat, messages: Seq<Seq<char>>) -> StateView {
    StateView { server_id, request_count: 0, messages }
}

/// The state after one more request to the counted route.
pub open spec fn handled(s: StateView) -> StateView {
    StateView { request_count: s.request_count + 1, ..s }
}

/// The response to a request that finds the server in state `s`.
pub open spec fn response_to(s: StateView) -> ResponseView {
    ResponseView {
        server_id: s.server_id,
        request_count: s.request_count + 1,
        messages: s.messages,
    }
}

/// The state after `k` requests, starting from `s`.
pub open spec fn after(s: StateView, k: nat) -> StateView
    decreases k,
{
    if k == 0 {
        s
    } else {
        handled(after(s, (k - 1) as nat))
    }
}

/// The responses to `k` requests handled one after another from `s`, in the
/// order they were handled.
pub open spec fn responses(s: StateView, k: nat) -> Seq<ResponseView>
    decreases k,
{
    if k == 0 {
        seq![]
    } else {
        responses(s, (k - 1) as nat).push(response_to(after(s, (k - 1) as nat)))
    }
}

/// The counts carried by the responses to `k` requests handled from `s`.
pub open spec fn counts(s: StateView, k: nat) -> Set<nat> {
    Set::new(|c: nat| exists|i: int| 0 <= i < k && #[trigger] responses(s, k)[i].request_count == c)
}

/// After `k` requests the state differs from `s` only in its count, which
/// has grown by `k`.
pub proof fn lemma_after(s: StateView, k: nat)
    ensures
        after(s, k) == (StateView { request_count: s.request_count + k, ..s }),
    decreases k,
{
    if k > 0 {
        lemma_after(s, (k - 1) as nat);
    }
}

/// The `i`-th of `k` responses is the response to the state after `i`
/// requests.
pub proof fn lemma_responses(s: StateView, k: nat)
    ensures
        responses(s, k).len() == k,
        forall|i: int| 0 <= i < k ==> #[trigger] responses(s, k)[i] == response_to(after(s, i as nat)),
    decreases k,
{
    if k > 0 {
        lemma_responses(s, (k - 1) as nat);
    }
}

/// Requests handled one after another are counted one by one: the `i`-th
/// of `k` responses carries the count `s.request_count + i + 1`. From a
/// fresh start the counts are `1, 2, ..., k` in order, and as a set they
/// are exactly the numbers from 1 to `k`, none repeated and none skipped.
pub proof fn lemma_request_counts(s: StateView, k: nat)
    ensures
        responses(s, k).len() == k,
        forall|i: int|
            0 <= i < k ==> #[trigger] responses(s, k)[i].request_count == s.request_count + i + 1,
        counts(s, k) == Set::new(|c: nat| s.request_count < c <= s.request_count + k),
{
    lemma_responses(s, k);
    assert forall|i: int| 0 <= i < k implies #[trigger] responses(s, k)[i].request_count
        == s.request_count + i + 1 by {
        lemma_after(s, i as nat);
    }
    assert forall|c: nat| s.request_count < c <= s.request_count + k implies #[trigger] counts(
        s,
        k,
    ).contains(c) by {
        let i = c - s.request_count - 1;
        assert(responses(s, k)[i].request_count == c);
    }
    assert(counts(s, k) =~= Set::new(|c: nat| s.request_count < c <= s.request_count + k));
}

/// Every response of a running server carries the identifier it started
/// with.
pub proof fn lemma_server_id_fixed(s: StateView, k: nat)
    ensures
        forall|i: int| 0 <= i < k ==> #[trigger] responses(s, k)[i].server_id == s.server_id,
{
    lemma_responses(s, k);
    assert forall|i: int| 0 <= i < k implies #[trigger] responses(s, k)[i].server_id
        == s.server_id by {
        lemma_after(s, i as nat);
    }
}

/// Every response of a running server carries the whole list of messages it
/// started with.
pub proof fn lemma_messages_fixed(s: StateView, k: nat)
    ensures
        forall|i: int| 0 <= i < k ==> #[trigger] responses(s, k)[i].messages == s.messages,
{
    lemma_responses(s, k);
    assert forall|i: int| 0 <= i < k implies #[trigger] responses(s, k)[i].messages
        == s.messages by {
        lemma_after(s, i as nat);
    }
}

/// A server that starts again counts from 1, whatever it had counted before:
/// the first request after a start gets the count 1.
pub proof fn lemma_restart_counts_from_one(server_id: nat, messages: Seq<Seq<char>>, k: nat)
    requires
        k > 0,
    ensures
        responses(initial(server_id, messages), k)[0].request_count == 1,
{
    lemma_request_counts(initial(server_id, messages), k);
}

/// The per-process state shared by every worker: a fixed server identifier,
/// the number of requests handled so far, and the configured messages.
pub struct ServerState {
    server_id: usize,
    request_count: usize,
    messages: Vec<String>,
}

impl View for ServerState {
    type V = StateView;

    closed spec fn view(&self) -> StateView {
        StateView {
            server_id: self.server_id as nat,
            request_count: self.request_count as nat,
            messages: self.messages.deep_view(),
        }
    }
}

/// The payload of one response: the server identifier, the count of requests
/// including this one, and a copy of the messages.
pub struct IndexResponse {
    pub server_id: usize,
    pub request_count: usize,
    pub messages: Vec<String>,
}

impl View for IndexResponse {
    type V = ResponseView;

    open spec fn view(&self) -> ResponseView {
        ResponseView {
            server_id: self.server_id as nat,
            request_count: self.request_count as nat,
            messages: self.messages.deep_view(),
        }
    }
}

impl ServerState {
    /// The state of a server that starts with identifier `server_id` and the
    /// list `messages`; no request has been handled yet.
    pub fn new(server_id: usize, messages: Vec<String>) -> (state: Self)
        ensures
            state@ == initial(server_id as nat, messages.deep_view()),
    {
        ServerState { server_id, request_count: 0, messages }
    }

    /// The number of requests handled so far.
    pub fn request_count(&self) -> (count: usize)
        ensures
            count == self@.request_count,
    {
        self.request_count
    }

    /// Handles one request to the counted route: counts it, and answers with
    /// the server identifier, the new count and a copy of the messages.
    pub fn handle(&mut self) -> (response: IndexResponse)
        requires
            old(self)@.request_count < usize::MAX,
        ensures
            final(self)@ == handled(old(self)@),
            response@ == response_to(old(self)@),
    {
        self.request_count = self.request_count + 1;
        let messages = self.messages.clone();
        proof {
            assert(messages.deep_view() =~= self.messages.deep_view());
        }
        IndexResponse { server_id: self.server_id, request_count: self.request_count, messages }
    }
}

} // verus!
