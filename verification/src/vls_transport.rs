//! Message routing of the in-process VLS transport behind the native
//! signer: which handler serves a message, when the reply to `HsmdInit2` is
//! cached and replayed, and when a per-channel handler comes into being.
//! The handlers themselves run outside; each step here takes what the
//! previous outside call returned.
use vstd::prelude::*;

verus! {

/// Errors the transport reports to the VLS client.
#[derive(Debug, Clone, PartialEq, Eq)]
pub enum TransportError {
    /// The message could not be decoded.
    Protocol,
    /// No handler could serve the message, or it failed.
    Transport,
}

/// Routing state of the transport: whether the init handler is still held,
/// whether the root handler is installed, the cached `HsmdInit2` reply and
/// the `(dbid, peer id)` of every channel handler created so far.
#[derive(Debug, PartialEq, Eq)]
pub struct TransportState {
    init_handler_present: bool,
    root_ready: bool,
    cached_hsmd_init2_reply: Option<Vec<u8>>,
    channel_clients: Vec<(u64, [u8; 33])>,
}

/// The state as values: flags, cached reply bytes, channel handler keys.
pub struct StateView {
    pub init_handler_present: bool,
    pub root_ready: bool,
    pub cached: Option<Seq<u8>>,
    pub clients: Seq<(u64, Seq<u8>)>,
}

pub open spec fn cached_view(c: Option<Vec<u8>>) -> Option<Seq<u8>> {
    match c {
        Some(v) => Some(v@),
        None => None,
    }
}

pub open spec fn clients_view(c: Seq<(u64, [u8; 33])>) -> Seq<(u64, Seq<u8>)> {
    c.map_values(|k: (u64, [u8; 33])| (k.0, k.1@))
}

impl TransportState {
    /// The state as values.
    pub closed spec fn sv(self) -> StateView {
        StateView {
            init_handler_present: self.init_handler_present,
            root_ready: self.root_ready,
            cached: cached_view(self.cached_hsmd_init2_reply),
            clients: clients_view(self.channel_clients@),
        }
    }
}

/// No channel handler key occurs twice.
pub open spec fn distinct_clients(c: Seq<(u64, Seq<u8>)>) -> bool {
    forall|i: int, j: int| 0 <= i < j < c.len() ==> c[i] != c[j]
}

/// Whether a channel handler exists for `(dbid, peer)`.
pub open spec fn has_client(c: Seq<(u64, Seq<u8>)>, dbid: u64, peer: Seq<u8>) -> bool {
    c.contains((dbid, peer))
}

/// How a node-level message is served.
#[derive(Debug, Clone, PartialEq, Eq)]
pub enum NodeCallRoute {
    /// By the init handler; `cache_reply` when the reply is to be kept.
    Init { cache_reply: bool },
    /// By replaying the cached `HsmdInit2` reply.
    Replay(Vec<u8>),
    /// By the root handler.
    Root,
    /// Not at all.
    Fail(TransportError),
}

/// A node-level route as values.
pub enum NodeRouteView {
    Init { cache_reply: bool },
    Replay(Seq<u8>),
    Root,
    Fail(TransportError),
}

pub open spec fn node_route_view(r: NodeCallRoute) -> NodeRouteView {
    match r {
        NodeCallRoute::Init { cache_reply } => NodeRouteView::Init { cache_reply },
        NodeCallRoute::Replay(v) => NodeRouteView::Replay(v@),
        NodeCallRoute::Root => NodeRouteView::Root,
        NodeCallRoute::Fail(e) => NodeRouteView::Fail(e),
    }
}

/// The route of a node-level message named `name` (`decoded` tells whether
/// it could be decoded).
pub open spec fn node_route(s: StateView, name: Seq<char>, decoded: bool) -> NodeRouteView {
    if !decoded {
        NodeRouteView::Fail(TransportError::Protocol)
    } else if !s.root_ready {
        if s.init_handler_present {
            NodeRouteView::Init { cache_reply: name == "HsmdInit2"@ }
        } else {
            NodeRouteView::Fail(TransportError::Transport)
        }
    } else if name == "HsmdInit2"@ {
        match s.cached {
            Some(r) => NodeRouteView::Replay(r),
            None => NodeRouteView::Fail(TransportError::Transport),
        }
    } else {
        NodeRouteView::Root
    }
}

/// The state after the init handler answered: `outcome` is `None` when it
/// failed, otherwise whether initialization is done and the reply, if any.
pub open spec fn init_step(
    s: StateView,
    cache_reply: bool,
    outcome: Option<(bool, Option<Seq<u8>>)>,
) -> (StateView, Result<Seq<u8>, TransportError>) {
    match outcome {
        Some((done, Some(reply))) => {
            let cached = if cache_reply {
                Some(reply)
            } else {
                s.cached
            };
            (
                StateView {
                    init_handler_present: if done {
                        false
                    } else {
                        s.init_handler_present
                    },
                    root_ready: s.root_ready || done,
                    cached,
                    clients: s.clients,
                },
                Ok(reply),
            )
        },
        _ => (s, Err(TransportError::Transport)),
    }
}

pub open spec fn outcome_view(o: Option<(bool, Option<Vec<u8>>)>) -> Option<(bool, Option<Seq<u8>>)> {
    match o {
        Some((done, reply)) => Some((done, cached_view(reply))),
        None => None,
    }
}

/// Whether a message is served by the root handler even on the channel path.
pub open spec fn root_message(name: Seq<char>) -> bool {
    name == "NewChannel"@ || name == "GetChannelBasepoints"@
}

/// How a channel-level message is served.
#[derive(Debug, Clone, PartialEq, Eq)]
pub enum CallRoute {
    /// By the root handler.
    Root,
    /// By the channel's own handler, created first when `create`.
    Channel { create: bool },
    /// Not at all.
    Fail(TransportError),
}

/// The route of a channel-level message and the channel handler keys after it.
pub open spec fn call_step(s: StateView, dbid: u64, peer: Seq<u8>, name: Seq<char>, decoded: bool) -> (
    CallRoute,
    Seq<(u64, Seq<u8>)>,
) {
    if !decoded {
        (CallRoute::Fail(TransportError::Protocol), s.clients)
    } else if !s.root_ready {
        (CallRoute::Fail(TransportError::Transport), s.clients)
    } else if root_message(name) {
        (CallRoute::Root, s.clients)
    } else if has_client(s.clients, dbid, peer) {
        (CallRoute::Channel { create: false }, s.clients)
    } else {
        (CallRoute::Channel { create: true }, s.clients.push((dbid, peer)))
    }
}

fn same_peer(a: &[u8; 33], b: &[u8; 33]) -> (r: bool)
    ensures
        r == (a@ == b@),
{
    let mut i: usize = 0;
    while i < 33
        invariant
            i <= 33,
            a@.len() == 33,
            b@.len() == 33,
            forall|j: int| 0 <= j < i ==> a@[j] == b@[j],
        decreases 33 - i,
    {
        if a[i] != b[i] {
            return false;
        }
        i = i + 1;
    }
    assert(a@ =~= b@);
    true
}

fn is_name(name: &str, expected: &str) -> (r: bool)
    ensures
        r == (name@ == expected@),
{
    String::from_str(name) == String::from_str(expected)
}

impl TransportState {
    /// A fresh transport: the init handler is held, nothing else exists yet.
    pub fn new() -> (s: TransportState)
        ensures
            s.sv().init_handler_present,
            !s.sv().root_ready,
            s.sv().cached is None,
            s.sv().clients.len() == 0,
    {
        TransportState {
            init_handler_present: true,
            root_ready: false,
            cached_hsmd_init2_reply: None,
            channel_clients: Vec::new(),
        }
    }

    /// Whether no channel handler key occurs twice: kept by every step.
    #[verifier::type_invariant]
    spec fn clients_distinct(self) -> bool {
        distinct_clients(clients_view(self.channel_clients@))
    }

    /// Whether the init handler is still held.
    pub fn init_handler_present(&self) -> (b: bool)
        ensures
            b == self.sv().init_handler_present,
    {
        self.init_handler_present
    }

    /// Whether the root handler is installed.
    pub fn root_ready(&self) -> (b: bool)
        ensures
            b == self.sv().root_ready,
    {
        self.root_ready
    }

    /// The cached `HsmdInit2` reply.
    pub fn cached_hsmd_init2_reply(&self) -> (r: Option<Vec<u8>>)
        ensures
            cached_view(r) == self.sv().cached,
    {
        match &self.cached_hsmd_init2_reply {
            Some(v) => {
                let mut c: Vec<u8> = Vec::new();
                c.extend_from_slice(v.as_slice());
                assert(c@ =~= v@);
                Some(c)
            },
            None => None,
        }
    }

    /// The channel handler keys, in creation order; none occurs twice.
    pub fn channel_clients(&self) -> (r: Vec<(u64, [u8; 33])>)
        ensures
            clients_view(r@) == self.sv().clients,
            distinct_clients(self.sv().clients),
    {
        proof {
            use_type_invariant(self);
        }
        let mut r: Vec<(u64, [u8; 33])> = Vec::new();
        let n = self.channel_clients.len();
        let mut i: usize = 0;
        while i < n
            invariant
                n == self.channel_clients@.len(),
                i <= n,
                r@ =~= self.channel_clients@.take(i as int),
            decreases n - i,
        {
            r.push(self.channel_clients[i]);
            i = i + 1;
            assert(r@ =~= self.channel_clients@.take(i as int));
        }
        assert(self.channel_clients@.take(n as int) =~= self.channel_clients@);
        assert(clients_view(r@) =~= clients_view(self.channel_clients@));
        r
    }

    /// Routes a node-level message named `name`.
    pub fn route_node_call(&self, name: &str, decoded: bool) -> (r: NodeCallRoute)
        ensures
            node_route_view(r) == node_route(self.sv(), name@, decoded),
    {
        if !decoded {
            return NodeCallRoute::Fail(TransportError::Protocol);
        }
        let init2 = is_name(name, "HsmdInit2");
        if !self.root_ready {
            if self.init_handler_present {
                NodeCallRoute::Init { cache_reply: init2 }
            } else {
                NodeCallRoute::Fail(TransportError::Transport)
            }
        } else if init2 {
            match &self.cached_hsmd_init2_reply {
                Some(r) => {
                    let mut v: Vec<u8> = Vec::new();
                    v.extend_from_slice(r.as_slice());
                    assert(v@ =~= r@);
                    NodeCallRoute::Replay(v)
                },
                None => NodeCallRoute::Fail(TransportError::Transport),
            }
        } else {
            NodeCallRoute::Root
        }
    }

    /// Takes the init handler's answer to a message routed to it: a failed
    /// call or a missing reply is a transport error and changes nothing;
    /// otherwise the reply is returned, kept when `cache_reply`, and once
    /// initialization is done the root handler replaces the init handler.
    pub fn finish_init_call(&mut self, cache_reply: bool, outcome: Option<(bool, Option<Vec<u8>>)>) -> (r:
        Result<Vec<u8>, TransportError>)
        ensures
            final(self).sv() == init_step(old(self).sv(), cache_reply, outcome_view(outcome)).0,
            match (r, init_step(old(self).sv(), cache_reply, outcome_view(outcome)).1) {
                (Ok(v), Ok(w)) => v@ == w,
                (Err(e), Err(f)) => e == f,
                _ => false,
            },
    {
        proof {
            use_type_invariant(&*self);
        }
        match outcome {
            Some((done, Some(reply))) => {
                if cache_reply {
                    let mut kept: Vec<u8> = Vec::new();
                    kept.extend_from_slice(reply.as_slice());
                    assert(kept@ =~= reply@);
                    self.cached_hsmd_init2_reply = Some(kept);
                }
                if done {
                    self.init_handler_present = false;
                    self.root_ready = true;
                }
                Ok(reply)
            },
            _ => Err(TransportError::Transport),
        }
    }

    fn find_client(&self, dbid: u64, peer_id: &[u8; 33]) -> (found: bool)
        ensures
            found == has_client(self.sv().clients, dbid, peer_id@),
    {
        let n = self.channel_clients.len();
        let ghost c = self.sv().clients;
        let mut i: usize = 0;
        while i < n
            invariant
                n == self.channel_clients@.len(),
                c == clients_view(self.channel_clients@),
                i <= n,
                forall|j: int| 0 <= j < i ==> c[j] != (dbid, peer_id@),
            decreases n - i,
        {
            let k = &self.channel_clients[i];
            if k.0 == dbid && same_peer(&k.1, peer_id) {
                assert(c[i as int] == (dbid, peer_id@));
                return true;
            }
            assert(c[i as int] != (dbid, peer_id@));
            i = i + 1;
        }
        assert(!c.contains((dbid, peer_id@)));
        false
    }

    /// Routes a channel-level message named `name` for the channel client
    /// `(dbid, peer_id)`, recording a new channel handler when one is to be
    /// created.
    pub fn route_call(&mut self, dbid: u64, peer_id: &[u8; 33], name: &str, decoded: bool) -> (r:
        CallRoute)
        ensures
            (r, final(self).sv().clients) == call_step(old(self).sv(), dbid, peer_id@, name@, decoded),
            decoded && old(self).sv().root_ready ==> (r is Root <==> (name@ == "NewChannel"@ || name@
                == "GetChannelBasepoints"@)),
            decoded && old(self).sv().root_ready ==> (r is Root || r is Channel),
            final(self).sv().init_handler_present == old(self).sv().init_handler_present,
            final(self).sv().root_ready == old(self).sv().root_ready,
            final(self).sv().cached == old(self).sv().cached,
    {
        proof {
            use_type_invariant(&*self);
        }
        if !decoded {
            return CallRoute::Fail(TransportError::Protocol);
        }
        if !self.root_ready {
            return CallRoute::Fail(TransportError::Transport);
        }
        if is_name(name, "NewChannel") || is_name(name, "GetChannelBasepoints") {
            return CallRoute::Root;
        }
        if self.find_client(dbid, peer_id) {
            CallRoute::Channel { create: false }
        } else {
            let ghost before = self.sv().clients;
            assert(distinct_clients(before.push((dbid, peer_id@)))) by {
                assert(!before.contains((dbid, peer_id@)));
                let after = before.push((dbid, peer_id@));
                assert forall|i: int, j: int| 0 <= i < j < after.len() implies after[i] != after[j] by {
                    if j == before.len() {
                        assert(after[i] == before[i]);
                    }
                }
            }
            let mut clients: Vec<(u64, [u8; 33])> = Vec::new();
            std::mem::swap(&mut clients, &mut self.channel_clients);
            clients.push((dbid, *peer_id));
            assert(clients_view(clients@) =~= before.push((dbid, peer_id@)));
            self.channel_clients = clients;
            assert(self.sv().clients =~= before.push((dbid, peer_id@)));
            CallRoute::Channel { create: true }
        }
    }
}

/// Once initialization completes on an `HsmdInit2` message, every later
/// `HsmdInit2` is answered with that same reply, and every other node-level
/// message goes to the root handler.
pub proof fn lemma_init2_reply_replayed(s: StateView, reply: Seq<u8>, name: Seq<char>)
    requires
        !s.root_ready,
        s.init_handler_present,
    ensures
        node_route(init_step(s, true, Some((true, Some(reply)))).0, "HsmdInit2"@, true)
            == NodeRouteView::Replay(reply),
        name != "HsmdInit2"@ ==> node_route(init_step(s, true, Some((true, Some(reply)))).0, name, true)
            == NodeRouteView::Root,
{
}

/// The root handler, once installed, stays installed, and no init step
/// touches the channel handlers.
pub proof fn lemma_root_stays_ready(s: StateView, cache_reply: bool, outcome: Option<(bool, Option<Seq<u8>>)>)
    ensures
        s.root_ready ==> init_step(s, cache_reply, outcome).0.root_ready,
        init_step(s, cache_reply, outcome).0.clients == s.clients,
{
}

/// A channel client gets its own handler on its first channel-level message
/// and keeps it: a second message creates nothing more.
pub proof fn lemma_channel_handler_created_once(s: StateView, dbid: u64, peer: Seq<u8>, name: Seq<char>, name2: Seq<char>)
    requires
        s.root_ready,
        !root_message(name),
        !root_message(name2),
    ensures
        call_step(s, dbid, peer, name, true).0 is Channel,
        ({
            let next = StateView { clients: call_step(s, dbid, peer, name, true).1, ..s };
            call_step(next, dbid, peer, name2, true) == (CallRoute::Channel { create: false }, next.clients)
        }),
{
    let c = call_step(s, dbid, peer, name, true).1;
    if !has_client(s.clients, dbid, peer) {
        assert(c[c.len() - 1] == (dbid, peer));
    }
}

/// A node-level call as the routing sees it: the message name, whether it
/// decoded, and what the init handler answered if the call reached it.
pub type NodeCall = (Seq<char>, bool, Option<(bool, Option<Seq<u8>>)>);

/// The state after one node-level call: only a call routed to the init
/// handler changes it.
pub open spec fn node_call_step(s: StateView, c: NodeCall) -> StateView {
    match node_route(s, c.0, c.1) {
        NodeRouteView::Init { cache_reply } => init_step(s, cache_reply, c.2).0,
        _ => s,
    }
}

/// The state after a run of node-level calls, in order.
pub open spec fn run_node_calls(s: StateView, calls: Seq<NodeCall>) -> StateView
    decreases calls.len(),
{
    if calls.len() == 0 {
        s
    } else {
        node_call_step(run_node_calls(s, calls.drop_last()), calls.last())
    }
}

/// An `HsmdInit2` reply `r0` that the init handler gave is what every later
/// `HsmdInit2` gets, however many other messages initialization still takes,
/// as long as no further `HsmdInit2` reaches the init handler (every later one
/// comes once initialization is done).
pub proof fn lemma_init2_reply_replayed_after_later_init(
    s: StateView,
    done: bool,
    r0: Seq<u8>,
    rest: Seq<NodeCall>,
)
    requires
        !s.root_ready,
        s.init_handler_present,
        forall|i: int|
            0 <= i < rest.len() && rest[i].0 == "HsmdInit2"@ ==> #[trigger] run_node_calls(
                init_step(s, true, Some((done, Some(r0)))).0,
                rest.take(i),
            ).root_ready,
    ensures
        run_node_calls(init_step(s, true, Some((done, Some(r0)))).0, rest).cached == Some(r0),
        run_node_calls(init_step(s, true, Some((done, Some(r0)))).0, rest).root_ready ==> node_route(
            run_node_calls(init_step(s, true, Some((done, Some(r0)))).0, rest),
            "HsmdInit2"@,
            true,
        ) == NodeRouteView::Replay(r0),
        forall|i: int|
            0 <= i < rest.len() && rest[i].0 == "HsmdInit2"@ && rest[i].1 ==> node_route(
                #[trigger] run_node_calls(init_step(s, true, Some((done, Some(r0)))).0, rest.take(i)),
                "HsmdInit2"@,
                true,
            ) == NodeRouteView::Replay(r0),
{
    let s1 = init_step(s, true, Some((done, Some(r0)))).0;
    assert(s1.cached == Some(r0));
    lemma_cached_kept(s1, r0, rest);
}

proof fn lemma_cached_kept(s1: StateView, r0: Seq<u8>, rest: Seq<NodeCall>)
    requires
        s1.cached == Some(r0),
        forall|i: int|
            0 <= i < rest.len() && rest[i].0 == "HsmdInit2"@ ==> #[trigger] run_node_calls(
                s1,
                rest.take(i),
            ).root_ready,
    ensures
        run_node_calls(s1, rest).cached == Some(r0),
        forall|i: int|
            0 <= i <= rest.len() ==> (#[trigger] run_node_calls(s1, rest.take(i))).cached == Some(r0),
    decreases rest.len(),
{
    if rest.len() == 0 {
        assert(rest.take(0) =~= rest);
    } else {
        let prefix = rest.drop_last();
        assert forall|i: int| 0 <= i < prefix.len() && prefix[i].0 == "HsmdInit2"@ implies #[trigger] run_node_calls(
            s1,
            prefix.take(i),
        ).root_ready by {
            assert(prefix.take(i) =~= rest.take(i));
            assert(rest[i] == prefix[i]);
        }
        lemma_cached_kept(s1, r0, prefix);
        let n = rest.len() - 1;
        assert(rest.take(n) =~= prefix);
        assert(rest.take(n + 1) =~= rest);
        let before = run_node_calls(s1, prefix);
        let c = rest.last();
        assert(prefix.take(n) =~= prefix);
        if c.0 == "HsmdInit2"@ {
            assert(run_node_calls(s1, rest.take(n)).root_ready);
        }
        assert(run_node_calls(s1, rest) == node_call_step(before, c));
        assert forall|i: int| 0 <= i <= rest.len() implies (#[trigger] run_node_calls(s1, rest.take(i))).cached == Some(r0) by {
            if i <= n {
                assert(rest.take(i) =~= prefix.take(i));
            }
        }
    }
}

/// Once the root handler is installed, a decoded channel-level message goes
/// to the root handler exactly when it is `NewChannel` or
/// `GetChannelBasepoints`; any other message goes to the channel handler of
/// its `(dbid, peer)`, which is created only if that client has none yet.
pub proof fn lemma_channel_messages_go_to_channel_handlers(
    s: StateView,
    dbid: u64,
    peer: Seq<u8>,
    name: Seq<char>,
)
    requires
        s.root_ready,
    ensures
        call_step(s, dbid, peer, name, true).0 is Root <==> (name == "NewChannel"@ || name
            == "GetChannelBasepoints"@),
        !(name == "NewChannel"@ || name == "GetChannelBasepoints"@) ==> call_step(
            s,
            dbid,
            peer,
            name,
            true,
        ).0 == (CallRoute::Channel { create: !s.clients.contains((dbid, peer)) }),
        !(name == "NewChannel"@ || name == "GetChannelBasepoints"@) ==> call_step(
            s,
            dbid,
            peer,
            name,
            true,
        ).1.contains((dbid, peer)),
{
    if !(name == "NewChannel"@ || name == "GetChannelBasepoints"@) && !s.clients.contains((dbid, peer)) {
        let c = call_step(s, dbid, peer, name, true).1;
        assert(c[c.len() - 1] == (dbid, peer));
    }
}

} // verus!
