use std::marker::PhantomData;
use vstd::prelude::*;
use vstd::string::*;

verus! {

/// Marks a client that has not started connecting.
pub struct Uninitialized;

/// Marks a client that is connecting and subscribing for the first time.
pub struct Initializing;

/// Marks a client that has been subscribed once and may be read.
pub struct Initialized;

/// Connection policy: the endpoint and the retry budget.
pub struct WebSocketConfig {
    pub num_retries: u8,
    pub url: String,
}

/// Lifecycle of the streaming connection.
#[derive(Clone, Copy, Debug, PartialEq, Eq, Structural)]
pub enum ConnectionState {
    Connecting,
    Subscribing,
    Ready,
    Failed,
}

/// A fatal failure of the client.
#[derive(Clone, Copy, Debug, PartialEq, Eq, Structural)]
pub enum LinkError {
    /// The first connection and subscription ran out of retries.
    ConnectError,
    /// Reading (and reconnecting) ran out of retries.
    ReadError,
}

/// What the transport reports back to the client.
#[derive(Clone, Copy, Debug, PartialEq, Eq, Structural)]
pub enum LinkEvent {
    Connected,
    ConnectFailed,
    SubscribeAcked,
    SubscribeFailed,
    MessageParsed,
    MessageMalformed,
    TransportLost,
}

/// What the client asks the transport to do next.
#[derive(Clone, Copy, Debug, PartialEq, Eq, Structural)]
pub enum LinkAction {
    /// Close any connection and open a new one.
    Connect,
    /// Send the subscription request and await its acknowledgment.
    Subscribe,
    /// Read the next message.
    ReadNext,
    /// Hand the parsed message to the caller.
    Deliver,
    /// Give up with this error.
    Fail(LinkError),
}

/// Whether an event is a failure that consumes one unit of retry budget.
pub open spec fn is_failure(ev: LinkEvent) -> bool {
    ev == LinkEvent::TransportLost || ev == LinkEvent::MessageMalformed || ev
        == LinkEvent::ConnectFailed || ev == LinkEvent::SubscribeFailed
}

/// Where a failure leads while budget remains: a lost transport or a failed
/// connection reconnects, a failed subscription resubscribes, a malformed
/// message is dropped and the next one read.
pub open spec fn retry_target(ev: LinkEvent) -> (ConnectionState, LinkAction) {
    match ev {
        LinkEvent::SubscribeFailed => (ConnectionState::Subscribing, LinkAction::Subscribe),
        LinkEvent::MessageMalformed => (ConnectionState::Ready, LinkAction::ReadNext),
        _ => (ConnectionState::Connecting, LinkAction::Connect),
    }
}

/// Where a success leads.
pub open spec fn success_target(ev: LinkEvent) -> (ConnectionState, LinkAction) {
    match ev {
        LinkEvent::Connected => (ConnectionState::Subscribing, LinkAction::Subscribe),
        LinkEvent::SubscribeAcked => (ConnectionState::Ready, LinkAction::ReadNext),
        _ => (ConnectionState::Ready, LinkAction::Deliver),
    }
}

/// The client's transition: next state, remaining budget, and action. The
/// budget drops by one per failure, fails the client when it would reach zero,
/// and is restored to `max` by each parsed message.
pub open spec fn link_step(
    max: u8,
    kind: LinkError,
    state: ConnectionState,
    left: u8,
    ev: LinkEvent,
) -> (ConnectionState, u8, LinkAction) {
    if state == ConnectionState::Failed {
        (ConnectionState::Failed, left, LinkAction::Fail(kind))
    } else if is_failure(ev) {
        if left <= 1 {
            (ConnectionState::Failed, 0, LinkAction::Fail(kind))
        } else {
            (retry_target(ev).0, (left - 1) as u8, retry_target(ev).1)
        }
    } else if ev == LinkEvent::MessageParsed {
        (ConnectionState::Ready, max, LinkAction::Deliver)
    } else {
        (success_target(ev).0, left, success_target(ev).1)
    }
}

/// Escape of a double quote inside a JSON string.
pub const ESCAPED_QUOTE: &'static str = "\\\"";

/// Escape of a backslash inside a JSON string.
pub const ESCAPED_BACKSLASH: &'static str = "\\\\";

/// Start of the escape of a control character inside a JSON string.
pub const ESCAPED_CONTROL: &'static str = "\\u00";

/// Lower-case hexadecimal digits.
pub const HEX_DIGITS: &'static str = "0123456789abcdef";

/// How one character is written inside a JSON string: a quote or backslash
/// behind a backslash, a control character as `\u00` and two hex digits,
/// any other as itself.
pub open spec fn json_escape_char(c: char) -> Seq<char> {
    if c == '"' {
        ESCAPED_QUOTE@
    } else if c == '\\' {
        ESCAPED_BACKSLASH@
    } else if (c as u32) < 0x20 {
        let code = c as u32 as int;
        ESCAPED_CONTROL@ + HEX_DIGITS@.subrange(code / 16, code / 16 + 1) + HEX_DIGITS@.subrange(
            code % 16,
            code % 16 + 1,
        )
    } else {
        seq![c]
    }
}

/// A text written as the contents of a JSON string.
pub open spec fn json_escape(s: Seq<char>) -> Seq<char>
    decreases s.len(),
{
    if s.len() == 0 {
        Seq::empty()
    } else {
        json_escape(s.drop_last()) + json_escape_char(s.last())
    }
}

/// The body of a `logsSubscribe` request for the logs that mention an account,
/// at confirmed commitment.
pub open spec fn logs_request(mention: Seq<char>) -> Seq<char> {
    LOGS_REQUEST_HEAD@ + json_escape(mention) + LOGS_REQUEST_TAIL@
}

/// Appends `text`, escaped as the contents of a JSON string.
pub fn append_json_escaped(out: &mut String, text: &str)
    ensures
        final(out)@ == old(out)@ + json_escape(text@),
{
    proof {
        reveal_strlit("0123456789abcdef");
    }
    let n = text.unicode_len();
    let mut i: usize = 0;
    while i < n
        invariant
            n == text@.len(),
            i <= n,
            HEX_DIGITS@.len() == 16,
            out@ == old(out)@ + json_escape(text@.subrange(0, i as int)),
        decreases n - i,
    {
        let c = text.get_char(i);
        if c == '"' {
            out.append(ESCAPED_QUOTE);
        } else if c == '\\' {
            out.append(ESCAPED_BACKSLASH);
        } else if (c as u32) < 0x20 {
            let code = c as u32;
            out.append(ESCAPED_CONTROL);
            out.append(HEX_DIGITS.substring_char((code / 16) as usize, (code / 16 + 1) as usize));
            out.append(HEX_DIGITS.substring_char((code % 16) as usize, (code % 16 + 1) as usize));
        } else {
            let one = text.substring_char(i, i + 1);
            assert(one@ =~= seq![c]);
            out.append(one);
        }
        proof {
            let pre = text@.subrange(0, i + 1);
            assert(pre.drop_last() =~= text@.subrange(0, i as int));
            assert(pre.last() == c);
        }
        i = i + 1;
    }
    assert(text@.subrange(0, n as int) =~= text@);
}

pub const LOGS_REQUEST_HEAD: &'static str =
    "{\"jsonrpc\":\"2.0\",\"id\":1,\"method\":\"logsSubscribe\",\"params\":[{\"mentions\":[\"";

pub const LOGS_REQUEST_TAIL: &'static str = "\"]},{\"commitment\":\"confirmed\"}]}";

/// The subscription request for the logs that mention `mention`, escaped.
pub fn logs_subscription_request(mention: &str) -> (r: String)
    ensures
        r@ == logs_request(mention@),
{
    let mut out = String::from_str(LOGS_REQUEST_HEAD);
    append_json_escaped(&mut out, mention);
    out.append(LOGS_REQUEST_TAIL);
    out
}

/// A streaming subscription client. `Status` says how far its lifecycle has
/// come: only an `Initialized` client is read from. The transport itself is
/// driven by the caller, which performs each returned action and reports the
/// result as an event.
pub struct WebSocket<Status> {
    config: WebSocketConfig,
    subscription: String,
    state: ConnectionState,
    retries_left: u8,
    status: PhantomData<Status>,
}

impl<Status> WebSocket<Status> {
    /// The connection policy.
    pub closed spec fn spec_config(&self) -> WebSocketConfig {
        self.config
    }

    /// The subscription request text.
    pub closed spec fn spec_subscription(&self) -> Seq<char> {
        self.subscription@
    }

    /// Where the lifecycle stands.
    pub closed spec fn spec_state(&self) -> ConnectionState {
        self.state
    }

    /// The retry budget left.
    pub closed spec fn spec_retries_left(&self) -> u8 {
        self.retries_left
    }

    /// Where the lifecycle stands.
    pub fn state(&self) -> (r: ConnectionState)
        ensures
            r == self.spec_state(),
    {
        self.state
    }

    /// The retry budget left.
    pub fn retries_left(&self) -> (r: u8)
        ensures
            r == self.spec_retries_left(),
    {
        self.retries_left
    }

    /// The endpoint.
    pub fn url(&self) -> (r: &str)
        ensures
            r@ == self.spec_config().url@,
    {
        self.config.url.as_str()
    }

    /// The subscription request text.
    pub fn subscription(&self) -> (r: &str)
        ensures
            r@ == self.spec_subscription(),
    {
        self.subscription.as_str()
    }

    /// The budget is positive and never above the configured maximum, and
    /// only a failed client has none left.
    pub closed spec fn wf(&self) -> bool {
        &&& self.config.num_retries > 0
        &&& self.retries_left <= self.config.num_retries
        &&& self.state != ConnectionState::Failed ==> self.retries_left > 0
    }

    fn step(&mut self, kind: LinkError, ev: LinkEvent) -> (a: LinkAction)
        requires
            old(self).wf(),
        ensures
            final(self).wf(),
            (final(self).spec_state(), final(self).spec_retries_left(), a) == link_step(
                old(self).spec_config().num_retries,
                kind,
                old(self).spec_state(),
                old(self).spec_retries_left(),
                ev,
            ),
            final(self).spec_config() == old(self).spec_config(),
            final(self).spec_subscription() == old(self).spec_subscription(),
    {
        if self.state == ConnectionState::Failed {
            return LinkAction::Fail(kind);
        }
        match ev {
            LinkEvent::TransportLost | LinkEvent::MessageMalformed | LinkEvent::ConnectFailed
            | LinkEvent::SubscribeFailed => {
                if self.retries_left <= 1 {
                    self.retries_left = 0;
                    self.state = ConnectionState::Failed;
                    LinkAction::Fail(kind)
                } else {
                    self.retries_left = self.retries_left - 1;
                    match ev {
                        LinkEvent::SubscribeFailed => {
                            self.state = ConnectionState::Subscribing;
                            LinkAction::Subscribe
                        },
                        LinkEvent::MessageMalformed => {
                            self.state = ConnectionState::Ready;
                            LinkAction::ReadNext
                        },
                        _ => {
                            self.state = ConnectionState::Connecting;
                            LinkAction::Connect
                        },
                    }
                }
            },
            LinkEvent::MessageParsed => {
                self.retries_left = self.config.num_retries;
                self.state = ConnectionState::Ready;
                LinkAction::Deliver
            },
            LinkEvent::Connected => {
                self.state = ConnectionState::Subscribing;
                LinkAction::Subscribe
            },
            LinkEvent::SubscribeAcked => {
                self.state = ConnectionState::Ready;
                LinkAction::ReadNext
            },
        }
    }
}

impl WebSocket<Uninitialized> {
    /// Starts a logs subscription: the client begins by connecting, with the
    /// whole retry budget.
    pub fn create_new_logs_subscription(config: WebSocketConfig, mention: &str) -> (ws: WebSocket<
        Initializing,
    >)
        requires
            config.num_retries > 0,
        ensures
            ws.wf(),
            ws.spec_config() == config,
            ws.spec_subscription() == logs_request(mention@),
            ws.spec_state() == ConnectionState::Connecting,
            ws.spec_retries_left() == config.num_retries,
    {
        let subscription = logs_subscription_request(mention);
        let n = config.num_retries;
        WebSocket {
            config,
            subscription,
            state: ConnectionState::Connecting,
            retries_left: n,
            status: PhantomData,
        }
    }
}

impl WebSocket<Initializing> {
    /// Advances the first connection; running out of budget is a `ConnectError`.
    pub fn on_connect_event(&mut self, ev: LinkEvent) -> (a: LinkAction)
        requires
            old(self).wf(),
        ensures
            final(self).wf(),
            (final(self).spec_state(), final(self).spec_retries_left(), a) == link_step(
                old(self).spec_config().num_retries,
                LinkError::ConnectError,
                old(self).spec_state(),
                old(self).spec_retries_left(),
                ev,
            ),
            final(self).spec_config() == old(self).spec_config(),
            final(self).spec_subscription() == old(self).spec_subscription(),
    {
        self.step(LinkError::ConnectError, ev)
    }

    /// Whether the first subscription has been acknowledged.
    pub fn is_ready(&self) -> (b: bool)
        ensures
            b == (self.spec_state() == ConnectionState::Ready),
    {
        self.state == ConnectionState::Ready
    }

    /// The readable client, once subscribed, with its whole budget for reading.
    pub fn from_uninitialized(initializing: WebSocket<Initializing>) -> (ws: WebSocket<Initialized>)
        requires
            initializing.wf(),
            initializing.spec_state() == ConnectionState::Ready,
        ensures
            ws.wf(),
            ws.spec_config() == initializing.spec_config(),
            ws.spec_subscription() == initializing.spec_subscription(),
            ws.spec_state() == ConnectionState::Ready,
            ws.spec_retries_left() == initializing.spec_config().num_retries,
    {
        let n = initializing.config.num_retries;
        WebSocket {
            config: initializing.config,
            subscription: initializing.subscription,
            state: ConnectionState::Ready,
            retries_left: n,
            status: PhantomData,
        }
    }
}

impl WebSocket<Initialized> {
    /// Advances reading (and any reconnection); running out of budget is a
    /// `ReadError`.
    pub fn read(&mut self, ev: LinkEvent) -> (a: LinkAction)
        requires
            old(self).wf(),
        ensures
            final(self).wf(),
            (final(self).spec_state(), final(self).spec_retries_left(), a) == link_step(
                old(self).spec_config().num_retries,
                LinkError::ReadError,
                old(self).spec_state(),
                old(self).spec_retries_left(),
                ev,
            ),
            final(self).spec_config() == old(self).spec_config(),
            final(self).spec_subscription() == old(self).spec_subscription(),
    {
        self.step(LinkError::ReadError, ev)
    }
}

/// The number of failures in a run of events.
pub open spec fn failure_count(evs: Seq<LinkEvent>) -> nat
    decreases evs.len(),
{
    if evs.len() == 0 {
        0
    } else {
        (if is_failure(evs[0]) {
            1nat
        } else {
            0nat
        }) + failure_count(evs.subrange(1, evs.len() as int))
    }
}

/// State and remaining budget after a run of events.
pub open spec fn link_run(
    max: u8,
    kind: LinkError,
    state: ConnectionState,
    left: u8,
    evs: Seq<LinkEvent>,
) -> (ConnectionState, u8)
    decreases evs.len(),
{
    if evs.len() == 0 {
        (state, left)
    } else {
        let next = link_step(max, kind, state, left, evs[0]);
        link_run(max, kind, next.0, next.1, evs.subrange(1, evs.len() as int))
    }
}

proof fn lemma_failed_stays(max: u8, kind: LinkError, left: u8, evs: Seq<LinkEvent>)
    ensures
        link_run(max, kind, ConnectionState::Failed, left, evs).0 == ConnectionState::Failed,
    decreases evs.len(),
{
    if evs.len() > 0 {
        lemma_failed_stays(max, kind, left, evs.subrange(1, evs.len() as int));
    }
}

proof fn lemma_run_without_success(
    max: u8,
    kind: LinkError,
    state: ConnectionState,
    left: u8,
    evs: Seq<LinkEvent>,
)
    requires
        state != ConnectionState::Failed,
        0 < left <= max,
        forall|i: int| 0 <= i < evs.len() ==> #[trigger] evs[i] != LinkEvent::MessageParsed,
    ensures
        (link_run(max, kind, state, left, evs).0 == ConnectionState::Failed) == (failure_count(evs)
            >= left),
        failure_count(evs) < left ==> link_run(max, kind, state, left, evs).1 == left
            - failure_count(evs),
    decreases evs.len(),
{
    if evs.len() > 0 {
        let rest = evs.subrange(1, evs.len() as int);
        assert forall|i: int| 0 <= i < rest.len() implies #[trigger] rest[i]
            != LinkEvent::MessageParsed by {
            assert(rest[i] == evs[i + 1]);
        }
        assert(evs[0] != LinkEvent::MessageParsed);
        let next = link_step(max, kind, state, left, evs[0]);
        if is_failure(evs[0]) && left <= 1 {
            lemma_failed_stays(max, kind, next.1, rest);
        } else {
            lemma_run_without_success(max, kind, next.0, next.1, rest);
        }
    }
}

/// Retry budget: from a live client with its whole budget, a run of events
/// without a parsed message fails the client exactly when its failures reach
/// the budget, and otherwise leaves the budget reduced by one per failure,
/// never below one; a parsed message restores the whole budget.
pub proof fn law_retry_budget(
    max: u8,
    kind: LinkError,
    state: ConnectionState,
    evs: Seq<LinkEvent>,
    left: u8,
)
    requires
        max > 0,
        state != ConnectionState::Failed,
        forall|i: int| 0 <= i < evs.len() ==> #[trigger] evs[i] != LinkEvent::MessageParsed,
    ensures
        (link_run(max, kind, state, max, evs).0 == ConnectionState::Failed) == (failure_count(evs)
            >= max),
        link_run(max, kind, state, max, evs).0 != ConnectionState::Failed ==> link_run(
            max,
            kind,
            state,
            max,
            evs,
        ).1 == max - failure_count(evs) >= 1,
        link_step(max, kind, state, left, LinkEvent::MessageParsed) == (
            ConnectionState::Ready,
            max,
            LinkAction::Deliver,
        ),
{
    lemma_run_without_success(max, kind, state, max, evs);
}

proof fn lemma_run_push(
    max: u8,
    kind: LinkError,
    state: ConnectionState,
    left: u8,
    evs: Seq<LinkEvent>,
    ev: LinkEvent,
)
    ensures
        link_run(max, kind, state, left, evs.push(ev)) == ({
            let m = link_run(max, kind, state, left, evs);
            let n = link_step(max, kind, m.0, m.1, ev);
            (n.0, n.1)
        }),
    decreases evs.len(),
{
    let all = evs.push(ev);
    if evs.len() > 0 {
        let next = link_step(max, kind, state, left, evs[0]);
        let rest = evs.subrange(1, evs.len() as int);
        assert(all[0] == evs[0]);
        assert(all.subrange(1, all.len() as int) =~= rest.push(ev));
        lemma_run_push(max, kind, next.0, next.1, rest, ev);
        assert(link_run(max, kind, state, left, all) == link_run(max, kind, next.0, next.1, rest.push(ev)));
        assert(link_run(max, kind, state, left, evs) == link_run(max, kind, next.0, next.1, rest));
    } else {
        let n = link_step(max, kind, state, left, ev);
        assert(all[0] == ev);
        assert(all.subrange(1, all.len() as int) =~= Seq::<LinkEvent>::empty());
        assert(link_run(max, kind, n.0, n.1, Seq::<LinkEvent>::empty()) == (n.0, n.1));
        assert(link_run(max, kind, state, left, evs) == (state, left));
    }
}

/// Retry budget from any remaining budget: a run of events without a parsed
/// message fails the client exactly when its failures reach what was left,
/// and otherwise leaves the budget reduced by one per failure. A parsed
/// message after fewer failures than were left is delivered with the whole
/// budget restored; after as many or more, the client has failed and nothing
/// further is read.
pub proof fn law_retry_budget_from(
    max: u8,
    kind: LinkError,
    state: ConnectionState,
    left: u8,
    evs: Seq<LinkEvent>,
)
    requires
        state != ConnectionState::Failed,
        0 < left <= max,
        forall|i: int| 0 <= i < evs.len() ==> #[trigger] evs[i] != LinkEvent::MessageParsed,
    ensures
        (link_run(max, kind, state, left, evs).0 == ConnectionState::Failed) == (failure_count(evs)
            >= left),
        failure_count(evs) < left ==> link_run(max, kind, state, left, evs).1 == left
            - failure_count(evs),
        failure_count(evs) < left ==> link_run(
            max,
            kind,
            state,
            left,
            evs.push(LinkEvent::MessageParsed),
        ) == (ConnectionState::Ready, max),
        failure_count(evs) < left ==> link_step(
            max,
            kind,
            link_run(max, kind, state, left, evs).0,
            link_run(max, kind, state, left, evs).1,
            LinkEvent::MessageParsed,
        ).2 == LinkAction::Deliver,
        failure_count(evs) >= left ==> link_run(
            max,
            kind,
            state,
            left,
            evs.push(LinkEvent::MessageParsed),
        ).0 == ConnectionState::Failed,
{
    lemma_run_without_success(max, kind, state, left, evs);
    lemma_run_push(max, kind, state, left, evs, LinkEvent::MessageParsed);
}

} // verus!
