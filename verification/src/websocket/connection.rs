//! One streaming connection: the request that subscribes it, the bounded
//! inbox that a worker fills, what a worker does with each frame, and the
//! policy by which a dead connection is started again.

use crate::clock::{elapsed_ms, elapsed_spec};
use crate::config::{INBOX_CAPACITY, INBOX_DROP};
use crate::json::{json_of_text, json_to_text, text_of_json, Json, JsonModel, MemberModel};
use crate::text::str_eq;
use crate::websocket::clob::{
    decode_frame,
    decode_spec,
    messages_view,
    MessageModel,
    PolymarketWebSocketMessage,
};
use vstd::prelude::*;

verus! {

/// The credentials that the user channel asks for.
#[derive(Debug, Clone, PartialEq, Eq)]
pub struct ApiCredentials {
    pub api_key: String,
    pub secret: String,
    pub passphrase: String,
}

/// The mathematical content of [`ApiCredentials`].
pub struct CredentialsModel {
    pub api_key: Seq<char>,
    pub secret: Seq<char>,
    pub passphrase: Seq<char>,
}

impl View for ApiCredentials {
    type V = CredentialsModel;

    open spec fn view(&self) -> CredentialsModel {
        CredentialsModel {
            api_key: self.api_key@,
            secret: self.secret@,
            passphrase: self.passphrase@,
        }
    }
}

/// Why no subscription request can be made.
#[derive(Debug, Clone, Copy, PartialEq, Eq, Structural)]
pub enum SubscriptionError {
    /// The user channel was asked for without credentials.
    MissingAuth,
    /// The channel is neither `market` nor `user`.
    InvalidChannel,
}

/// The contents of a list of strings.
pub open spec fn strings_view(v: Seq<String>) -> Seq<Seq<char>> {
    Seq::new(v.len(), |i: int| v[i]@)
}

/// An array of the strings `ids`.
pub open spec fn id_array(ids: Seq<Seq<char>>) -> JsonModel {
    JsonModel::Array(Seq::new(ids.len(), |i: int| JsonModel::Text(ids[i])))
}

/// The request that subscribes a connection: for the channel `market` the
/// instruments by id, for the channel `user` the markets and the
/// credentials, which must be there.
pub open spec fn subscription_spec(
    channel: Seq<char>,
    auth: Option<CredentialsModel>,
    ids: Seq<Seq<char>>,
) -> Result<JsonModel, SubscriptionError> {
    if channel == "user"@ {
        match auth {
            None => Err(SubscriptionError::MissingAuth),
            Some(a) => Ok(
                JsonModel::Object(
                    seq![
                        MemberModel { name: "type"@, value: JsonModel::Text("user"@) },
                        MemberModel { name: "markets"@, value: id_array(ids) },
                        MemberModel {
                            name: "auth"@,
                            value: JsonModel::Object(
                                seq![
                                    MemberModel { name: "apiKey"@, value: JsonModel::Text(a.api_key) },
                                    MemberModel { name: "secret"@, value: JsonModel::Text(a.secret) },
                                    MemberModel {
                                        name: "passphrase"@,
                                        value: JsonModel::Text(a.passphrase),
                                    },
                                ],
                            ),
                        },
                    ],
                ),
            ),
        }
    } else if channel == "market"@ {
        Ok(
            JsonModel::Object(
                seq![
                    MemberModel { name: "type"@, value: JsonModel::Text("market"@) },
                    MemberModel { name: "assets_ids"@, value: id_array(ids) },
                ],
            ),
        )
    } else {
        Err(SubscriptionError::InvalidChannel)
    }
}

/// Builds the request that subscribes a connection to `channel_type`.
pub fn subscription_request(
    channel_type: &str,
    auth: Option<&ApiCredentials>,
    filter_ids: &Vec<String>,
) -> (r: Result<Json, SubscriptionError>)
    ensures
        match r {
            Ok(request) => subscription_spec(
                channel_type@,
                match auth {
                    Some(a) => Some(a@),
                    None => None,
                },
                strings_view(filter_ids@),
            ) == Ok::<JsonModel, SubscriptionError>(request@),
            Err(e) => subscription_spec(
                channel_type@,
                match auth {
                    Some(a) => Some(a@),
                    None => None,
                },
                strings_view(filter_ids@),
            ) == Err::<JsonModel, SubscriptionError>(e),
        },
{
    let ghost ids = strings_view(filter_ids@);
    if str_eq(channel_type, "user") {
        let a = match auth {
            Some(a) => a,
            None => {
                return Err(SubscriptionError::MissingAuth);
            },
        };
        let mut credentials: Vec<(String, Json)> = Vec::new();
        credentials.push((String::from_str("apiKey"), Json::text_of(a.api_key.as_str())));
        credentials.push((String::from_str("secret"), Json::text_of(a.secret.as_str())));
        credentials.push((String::from_str("passphrase"), Json::text_of(a.passphrase.as_str())));
        let auth_value = Json::object_of(credentials);
        let id_list = Json::texts_of(filter_ids);
        let mut members: Vec<(String, Json)> = Vec::new();
        members.push((String::from_str("type"), Json::text_of("user")));
        members.push((String::from_str("markets"), id_list));
        members.push((String::from_str("auth"), auth_value));
        let request = Json::object_of(members);
        proof {
            assert(id_list@->Array_0 =~= id_array(ids)->Array_0);
            assert(auth_value@->Object_0 =~= seq![
                MemberModel { name: "apiKey"@, value: JsonModel::Text(a.api_key@) },
                MemberModel { name: "secret"@, value: JsonModel::Text(a.secret@) },
                MemberModel { name: "passphrase"@, value: JsonModel::Text(a.passphrase@) },
            ]);
            assert(request@->Object_0 =~= seq![
                MemberModel { name: "type"@, value: JsonModel::Text("user"@) },
                MemberModel { name: "markets"@, value: id_array(ids) },
                MemberModel { name: "auth"@, value: auth_value@ },
            ]);
        }
        Ok(request)
    } else if str_eq(channel_type, "market") {
        let id_list = Json::texts_of(filter_ids);
        let mut members: Vec<(String, Json)> = Vec::new();
        members.push((String::from_str("type"), Json::text_of("market")));
        members.push((String::from_str("assets_ids"), id_list));
        let request = Json::object_of(members);
        proof {
            assert(id_list@->Array_0 =~= id_array(ids)->Array_0);
            assert(request@->Object_0 =~= seq![
                MemberModel { name: "type"@, value: JsonModel::Text("market"@) },
                MemberModel { name: "assets_ids"@, value: id_array(ids) },
            ]);
        }
        Ok(request)
    } else {
        Err(SubscriptionError::InvalidChannel)
    }
}

/// The text of the request that subscribes a connection.
pub fn subscription_text(
    channel_type: &str,
    auth: Option<&ApiCredentials>,
    filter_ids: &Vec<String>,
) -> (r: Result<String, SubscriptionError>)
    ensures
        match (
            r,
            subscription_spec(
                channel_type@,
                match auth {
                    Some(a) => Some(a@),
                    None => None,
                },
                strings_view(filter_ids@),
            ),
        ) {
            (Ok(text), Ok(request)) => text@ == text_of_json(request),
            (Err(e), Err(expected)) => e == expected,
            _ => false,
        },
{
    match subscription_request(channel_type, auth, filter_ids) {
        Ok(request) => Ok(json_to_text(&request)),
        Err(e) => Err(e),
    }
}

/// The address of the feed for a channel.
pub fn feed_url(channel_type: &str) -> (r: String)
    ensures
        r@ == "wss://ws-subscriptions-clob.polymarket.com/ws/"@ + channel_type@,
{
    String::from_str("wss://ws-subscriptions-clob.polymarket.com/ws/").concat(channel_type)
}

/// Whether an event is about one of the instruments in `filter`.
pub open spec fn passes_filter(event: MessageModel, filter: Seq<Seq<char>>) -> bool {
    exists|i: int| 0 <= i < filter.len() && event.asset_id() == Some(#[trigger] filter[i])
}

/// Whether an event is about one of the instruments in `filter`.
pub fn event_passes(event: &PolymarketWebSocketMessage, filter: &Vec<String>) -> (r: bool)
    ensures
        r == passes_filter(event@, strings_view(filter@)),
{
    let ghost ids = strings_view(filter@);
    let mut i: usize = 0;
    while i < filter.len()
        invariant
            i <= filter.len(),
            ids == strings_view(filter@),
            forall|j: int| 0 <= j < i ==> event@.asset_id() != Some(#[trigger] ids[j]),
        decreases filter.len() - i,
    {
        if event.is_for(filter[i].as_str()) {
            assert(event@.asset_id() == Some(ids[i as int]));
            return true;
        }
        i = i + 1;
    }
    false
}

/// The inbox after one more event: the event goes to the end, and where
/// that makes more than 50, the 25 oldest leave.
pub open spec fn inbox_push_spec(events: Seq<MessageModel>, event: MessageModel) -> Seq<
    MessageModel,
> {
    let pushed = events.push(event);
    if pushed.len() > INBOX_CAPACITY {
        pushed.skip(INBOX_DROP as int)
    } else {
        pushed
    }
}

/// The inbox after a frame's events were offered to it in order: those
/// that pass the filter are pushed, the others dropped.
pub open spec fn deliver_spec(
    inbox: Seq<MessageModel>,
    filter: Seq<Seq<char>>,
    events: Seq<MessageModel>,
) -> Seq<MessageModel>
    decreases events.len(),
{
    if events.len() == 0 {
        inbox
    } else {
        let next = if passes_filter(events[0], filter) {
            inbox_push_spec(inbox, events[0])
        } else {
            inbox
        };
        deliver_spec(next, filter, events.skip(1))
    }
}

/// Delivery never makes a bounded inbox exceed its bound.
pub proof fn lemma_deliver_bounded(
    inbox: Seq<MessageModel>,
    filter: Seq<Seq<char>>,
    events: Seq<MessageModel>,
)
    requires
        inbox.len() <= INBOX_CAPACITY,
    ensures
        deliver_spec(inbox, filter, events).len() <= INBOX_CAPACITY,
    decreases events.len(),
{
    if events.len() > 0 {
        let next = if passes_filter(events[0], filter) {
            inbox_push_spec(inbox, events[0])
        } else {
            inbox
        };
        lemma_deliver_bounded(next, filter, events.skip(1));
    }
}

/// The events that a worker has received and the consumer has still to
/// take, oldest first.
#[derive(Debug, Clone, PartialEq, Eq)]
pub struct Inbox {
    pub events: Vec<PolymarketWebSocketMessage>,
}

impl View for Inbox {
    type V = Seq<MessageModel>;

    open spec fn view(&self) -> Seq<MessageModel> {
        messages_view(self.events@)
    }
}

impl Inbox {
    /// Whether the inbox is within its capacity.
    pub open spec fn wf(&self) -> bool {
        self.events@.len() <= INBOX_CAPACITY
    }

    /// An empty inbox.
    pub fn new() -> (r: Self)
        ensures
            r@ == Seq::<MessageModel>::empty(),
            r.wf(),
    {
        let r = Inbox { events: Vec::new() };
        assert(r@ =~= Seq::<MessageModel>::empty());
        r
    }

    /// The number of events waiting.
    pub fn len(&self) -> (r: usize)
        ensures
            r == self@.len(),
    {
        self.events.len()
    }

    /// Puts one event into the inbox.
    pub fn push(&mut self, event: PolymarketWebSocketMessage)
        ensures
            final(self)@ == inbox_push_spec(old(self)@, event@),
            old(self).wf() ==> final(self).wf(),
    {
        self.events.push(event);
        assert(messages_view(self.events@) =~= old(self)@.push(event@));
        if self.events.len() > INBOX_CAPACITY {
            let kept = self.events.split_off(INBOX_DROP);
            self.events = kept;
            assert(messages_view(self.events@) =~= old(self)@.push(event@).skip(INBOX_DROP as int));
        }
    }

    /// Offers a frame's events to the inbox, in order.
    pub fn deliver(&mut self, filter: &Vec<String>, events: Vec<PolymarketWebSocketMessage>)
        ensures
            final(self)@ == deliver_spec(
                old(self)@,
                strings_view(filter@),
                messages_view(events@),
            ),
            old(self).wf() ==> final(self).wf(),
    {
        let ghost ids = strings_view(filter@);
        let ghost all = messages_view(events@);
        let mut rest = events;
        while rest.len() > 0
            invariant
                ids == strings_view(filter@),
                deliver_spec(self@, ids, messages_view(rest@)) == deliver_spec(old(self)@, ids, all),
                old(self).wf() ==> self.wf(),
            decreases rest.len(),
        {
            let ghost before = messages_view(rest@);
            let event = rest.remove(0);
            assert(messages_view(rest@) =~= before.skip(1));
            assert(before[0] == event@);
            if event_passes(&event, filter) {
                self.push(event);
            }
        }
    }

    /// Hands over every waiting event and leaves the inbox empty.
    pub fn take_all(&mut self) -> (r: Vec<PolymarketWebSocketMessage>)
        ensures
            messages_view(r@) == old(self)@,
            final(self)@ == Seq::<MessageModel>::empty(),
    {
        let taken = self.events.split_off(0);
        assert(taken@ =~= old(self).events@);
        assert(messages_view(self.events@) =~= Seq::<MessageModel>::empty());
        taken
    }
}

/// What a transport hands to a worker.
#[derive(Debug, Clone, PartialEq, Eq)]
pub enum Incoming {
    Text(String),
    Binary(Vec<u8>),
    Ping(Vec<u8>),
    Pong(Vec<u8>),
    Close,
    Frame,
    Failed,
}

/// What a worker does next.
#[derive(Debug, Clone, PartialEq, Eq)]
pub enum WorkerStep {
    /// Wait for the next frame.
    Continue,
    /// Answer a ping with this payload, then wait for the next frame.
    Pong(Vec<u8>),
    /// End: the connection closed or failed.
    Stop,
}

/// Handles one frame: text is decoded and its events that pass the filter
/// go to the inbox; a ping is answered with its own payload; a close and a
/// transport failure end the worker; everything else is passed over.
pub fn worker_step(inbox: &mut Inbox, filter: &Vec<String>, incoming: Incoming) -> (r: WorkerStep)
    ensures
        old(inbox).wf() ==> final(inbox).wf(),
        match incoming {
            Incoming::Text(text) => r == WorkerStep::Continue && final(inbox)@ == deliver_spec(
                old(inbox)@,
                strings_view(filter@),
                decode_spec(json_of_text(text@), text@),
            ),
            Incoming::Ping(payload) => r == WorkerStep::Pong(payload) && final(inbox)@ == old(
                inbox,
            )@,
            Incoming::Close => r == WorkerStep::Stop && final(inbox)@ == old(inbox)@,
            Incoming::Failed => r == WorkerStep::Stop && final(inbox)@ == old(inbox)@,
            _ => r == WorkerStep::Continue && final(inbox)@ == old(inbox)@,
        },
{
    match incoming {
        Incoming::Text(text) => {
            let events = decode_frame(text.as_str());
            inbox.deliver(filter, events);
            WorkerStep::Continue
        },
        Incoming::Ping(payload) => WorkerStep::Pong(payload),
        Incoming::Close => WorkerStep::Stop,
        Incoming::Failed => WorkerStep::Stop,
        _ => WorkerStep::Continue,
    }
}

/// Whether a connection is being watched, and whether its worker lives.
#[derive(Debug, Clone, Copy, PartialEq, Eq, Structural)]
pub enum ConnectionStatus {
    Idle,
    Live,
    Dead,
}

/// The supervisor's record of one connection.
#[derive(Debug, Clone, Copy, PartialEq, Eq)]
pub struct ConnectionState {
    pub status: ConnectionStatus,
    pub reconnect_attempts: u32,
    pub last_attempt_time: i64,
}

/// What the supervisor asks for after a health check.
#[derive(Debug, Clone, Copy, PartialEq, Eq, Structural)]
pub enum SupervisorAction {
    /// Nothing is to be done.
    Wait,
    /// Start a new worker for the connection.
    StartWorker,
}

/// The reconnection policy: how many attempts are made before the
/// connection stays dead, and the constant delay between two attempts.
#[derive(Debug, Clone, Copy, PartialEq, Eq)]
pub struct ReconnectPolicy {
    pub max_attempts: u32,
    pub delay_ms: u64,
}

/// Whether an attempt to reconnect is due at `now`.
pub open spec fn may_reconnect(state: ConnectionState, policy: ReconnectPolicy, now: i64) -> bool {
    state.reconnect_attempts < policy.max_attempts && elapsed_spec(now, state.last_attempt_time)
        >= policy.delay_ms
}

/// The record after an attempt to reconnect at `now`: where one is due it
/// is counted and timed, and the connection is live again; otherwise
/// nothing changes.
pub open spec fn reconnect_spec(
    state: ConnectionState,
    policy: ReconnectPolicy,
    now: i64,
) -> ConnectionState {
    if may_reconnect(state, policy, now) {
        ConnectionState {
            status: ConnectionStatus::Live,
            reconnect_attempts: (state.reconnect_attempts + 1) as u32,
            last_attempt_time: now,
        }
    } else {
        state
    }
}

/// The record after a health check at `now` that found the worker finished
/// or not. A live connection whose worker has finished is dead; a dead
/// connection is started again where an attempt is due.
pub open spec fn health_check_spec(
    state: ConnectionState,
    policy: ReconnectPolicy,
    worker_finished: bool,
    now: i64,
) -> ConnectionState {
    let marked = if state.status == ConnectionStatus::Live && worker_finished {
        ConnectionState { status: ConnectionStatus::Dead, ..state }
    } else {
        state
    };
    if marked.status == ConnectionStatus::Dead {
        reconnect_spec(marked, policy, now)
    } else {
        marked
    }
}

/// Whether the health check at `now` asks for a new worker.
pub open spec fn health_check_starts(
    state: ConnectionState,
    policy: ReconnectPolicy,
    worker_finished: bool,
    now: i64,
) -> bool {
    let dead = state.status == ConnectionStatus::Dead || (state.status == ConnectionStatus::Live
        && worker_finished);
    dead && may_reconnect(state, policy, now)
}

impl ConnectionState {
    /// The record of a connection that is not watched yet.
    pub fn new(now: i64) -> (r: Self)
        ensures
            r == (ConnectionState {
                status: ConnectionStatus::Idle,
                reconnect_attempts: 0,
                last_attempt_time: now,
            }),
    {
        ConnectionState { status: ConnectionStatus::Idle, reconnect_attempts: 0, last_attempt_time: now }
    }

    /// Notes that a caller started a worker for the connection.
    pub fn mark_started(&mut self)
        ensures
            *final(self) == (ConnectionState { status: ConnectionStatus::Live, ..*old(self) }),
    {
        self.status = ConnectionStatus::Live;
    }

    /// Notes that a caller stopped watching the connection.
    pub fn mark_stopped(&mut self)
        ensures
            *final(self) == (ConnectionState { status: ConnectionStatus::Idle, ..*old(self) }),
    {
        self.status = ConnectionStatus::Idle;
    }

    /// Sets the count of attempts back to 0, as a caller does who starts
    /// monitoring anew.
    pub fn reset_websocket_reconnect_counter(&mut self)
        ensures
            *final(self) == (ConnectionState { reconnect_attempts: 0, ..*old(self) }),
    {
        self.reconnect_attempts = 0;
    }

    /// Makes an attempt to reconnect at `now` where one is due; says
    /// whether a new worker is to be started.
    pub fn try_reconnect_websocket(&mut self, policy: &ReconnectPolicy, now: i64) -> (start: bool)
        ensures
            *final(self) == reconnect_spec(*old(self), *policy, now),
            start == may_reconnect(*old(self), *policy, now),
    {
        if self.reconnect_attempts >= policy.max_attempts || elapsed_ms(
            now,
            self.last_attempt_time,
        ) < policy.delay_ms {
            return false;
        }
        self.reconnect_attempts = self.reconnect_attempts + 1;
        self.last_attempt_time = now;
        self.status = ConnectionStatus::Live;
        true
    }

    /// Looks at the connection's health at `now`.
    pub fn check_websocket_health(
        &mut self,
        policy: &ReconnectPolicy,
        worker_finished: bool,
        now: i64,
    ) -> (action: SupervisorAction)
        ensures
            *final(self) == health_check_spec(*old(self), *policy, worker_finished, now),
            action == if health_check_starts(*old(self), *policy, worker_finished, now) {
                SupervisorAction::StartWorker
            } else {
                SupervisorAction::Wait
            },
    {
        if self.status == ConnectionStatus::Live && worker_finished {
            self.status = ConnectionStatus::Dead;
        }
        if self.status == ConnectionStatus::Dead {
            if self.try_reconnect_websocket(policy, now) {
                return SupervisorAction::StartWorker;
            }
        }
        SupervisorAction::Wait
    }
}

/// One health check of a run: whether the worker was found finished, and
/// when.
pub struct Check {
    pub worker_finished: bool,
    pub now: i64,
}

/// The record after a run of health checks.
pub open spec fn after_checks(
    state: ConnectionState,
    policy: ReconnectPolicy,
    checks: Seq<Check>,
) -> ConnectionState
    decreases checks.len(),
{
    if checks.len() == 0 {
        state
    } else {
        let before = after_checks(state, policy, checks.drop_last());
        health_check_spec(before, policy, checks.last().worker_finished, checks.last().now)
    }
}

/// The number of workers started over a run of health checks.
pub open spec fn starts_during(
    state: ConnectionState,
    policy: ReconnectPolicy,
    checks: Seq<Check>,
) -> nat
    decreases checks.len(),
{
    if checks.len() == 0 {
        0
    } else {
        let before = after_checks(state, policy, checks.drop_last());
        starts_during(state, policy, checks.drop_last()) + if health_check_starts(
            before,
            policy,
            checks.last().worker_finished,
            checks.last().now,
        ) {
            1nat
        } else {
            0nat
        }
    }
}

/// Whatever health checks come in, the count of attempts never passes the
/// policy's maximum, every start is counted, and so no more workers are
/// started than attempts were left.
pub proof fn lemma_reconnects_bounded(
    state: ConnectionState,
    policy: ReconnectPolicy,
    checks: Seq<Check>,
)
    requires
        state.reconnect_attempts <= policy.max_attempts,
    ensures
        after_checks(state, policy, checks).reconnect_attempts <= policy.max_attempts,
        after_checks(state, policy, checks).reconnect_attempts == state.reconnect_attempts
            + starts_during(state, policy, checks),
        starts_during(state, policy, checks) <= policy.max_attempts - state.reconnect_attempts,
    decreases checks.len(),
{
    if checks.len() > 0 {
        lemma_reconnects_bounded(state, policy, checks.drop_last());
    }
}

/// Two attempts are never closer than the policy's delay: a check that
/// comes sooner after an attempt starts nothing and changes nothing but,
/// for a live connection whose worker has finished, the status.
pub proof fn lemma_no_start_within_delay(
    state: ConnectionState,
    policy: ReconnectPolicy,
    worker_finished: bool,
    now: i64,
)
    requires
        elapsed_spec(now, state.last_attempt_time) < policy.delay_ms,
    ensures
        !health_check_starts(state, policy, worker_finished, now),
        health_check_spec(state, policy, worker_finished, now).reconnect_attempts
            == state.reconnect_attempts,
        health_check_spec(state, policy, worker_finished, now).last_attempt_time
            == state.last_attempt_time,
{
}

} // verus!
