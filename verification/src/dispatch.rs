//! The dispatcher: for each request, whether this node serves it or the
//! owning node does, and the reply that goes back to the client.
//!
//! A request is validated, then routed. The owner of the key executes it on
//! its store and replies. Any other node is told to forward it: the caller
//! sends the request to the owner, and `resolve_forward` turns what came
//! back, or the failure to get anything back, into the reply. The
//! dispatcher itself retries nothing; `retry_after` tells the caller how
//! often, and after which pause, a request that got no reply may be sent
//! again.

use crate::db::text_of;
use crate::db::Database;
use crate::db::Store;
use crate::error::ErrorKind;
use crate::error::STATUS_BAD_REQUEST;
use crate::error::STATUS_INTERNAL;
use crate::error::STATUS_OK;
use crate::sharding::ShardConfig;
use crate::sharding::Topology;
use vstd::prelude::*;

verus! {

/// An operation on one key, as a client asks for it.
#[derive(Debug, Clone, PartialEq, Eq)]
pub enum Request {
    Get { key: String },
    Put { key: String, value: String },
    Delete { key: String },
}

/// A request as a value.
pub enum RequestView {
    Get { key: Seq<char> },
    Put { key: Seq<char>, value: Seq<char> },
    Delete { key: Seq<char> },
}

impl View for Request {
    type V = RequestView;

    open spec fn view(&self) -> RequestView {
        match self {
            Request::Get { key } => RequestView::Get { key: key@ },
            Request::Put { key, value } => RequestView::Put { key: key@, value: value@ },
            Request::Delete { key } => RequestView::Delete { key: key@ },
        }
    }
}

impl RequestView {
    /// The path of the endpoint that serves the request.
    pub open spec fn path(self) -> Seq<char> {
        match self {
            RequestView::Get { .. } => "/get"@,
            RequestView::Put { .. } => "/set"@,
            RequestView::Delete { .. } => "/del"@,
        }
    }

    /// Whether the request changes the store.
    pub open spec fn is_write(self) -> bool {
        !(self is Get)
    }

    /// The key that the request is about.
    pub open spec fn key(self) -> Seq<char> {
        match self {
            RequestView::Get { key } => key,
            RequestView::Put { key, .. } => key,
            RequestView::Delete { key } => key,
        }
    }
}

impl Request {
    /// The path of the endpoint that serves the request.
    pub fn path(&self) -> (path: &'static str)
        ensures
            path@ == self@.path(),
    {
        match self {
            Request::Get { .. } => "/get",
            Request::Put { .. } => "/set",
            Request::Delete { .. } => "/del",
        }
    }

    /// Whether the request changes the store. Reads travel as GET, writes
    /// as POST.
    pub fn is_write(&self) -> (write: bool)
        ensures
            write == self@.is_write(),
    {
        match self {
            Request::Get { .. } => false,
            Request::Put { .. } => true,
            Request::Delete { .. } => true,
        }
    }
}

/// The body of a reply: a status, and either the data or the message of an
/// error.
#[derive(Debug, Clone, PartialEq, Eq)]
pub struct ApiResponse {
    pub status: String,
    pub data: Option<String>,
    pub error: Option<String>,
}

/// The body of a reply as a value.
pub struct ApiResponseView {
    pub status: Seq<char>,
    pub data: Option<Seq<char>>,
    pub error: Option<Seq<char>>,
}

impl View for ApiResponse {
    type V = ApiResponseView;

    open spec fn view(&self) -> ApiResponseView {
        ApiResponseView {
            status: self.status@,
            data: text_of(self.data),
            error: text_of(self.error),
        }
    }
}

impl ApiResponseView {
    /// The body that carries a result: `data` is the result, and is absent
    /// where there is none; there is no error.
    pub open spec fn success(data: Option<Seq<char>>) -> ApiResponseView {
        ApiResponseView { status: "success"@, data, error: None }
    }

    /// The body that reports a failure: there is no data, and the error is
    /// the message of the kind.
    pub open spec fn failure(kind: ErrorKind) -> ApiResponseView {
        ApiResponseView { status: "error"@, data: None, error: Some(kind.spec_message()) }
    }

    /// Whether the body is one of the two forms that a node sends: a
    /// success without an error, or an error with a message and no data.
    pub open spec fn well_formed(self) -> bool {
        ||| self.status == "success"@ && self.error is None
        ||| self.status == "error"@ && self.data is None && self.error is Some
    }
}

impl ApiResponse {
    /// The body that carries a result.
    pub fn success(data: Option<String>) -> (body: ApiResponse)
        ensures
            body@ == ApiResponseView::success(text_of(data)),
    {
        ApiResponse { status: "success".to_owned(), data, error: None }
    }

    /// The body that reports a failure of the given kind.
    pub fn failure(kind: ErrorKind) -> (body: ApiResponse)
        ensures
            body@ == ApiResponseView::failure(kind),
    {
        ApiResponse {
            status: "error".to_owned(),
            data: None,
            error: Some(kind.message().to_owned()),
        }
    }
}

/// What goes back to the client: a status code and a body.
#[derive(Debug, Clone, PartialEq, Eq)]
pub struct Reply {
    pub code: u16,
    pub body: ApiResponse,
}

/// A reply as a value.
pub struct ReplyView {
    pub code: u16,
    pub body: ApiResponseView,
}

impl View for Reply {
    type V = ReplyView;

    open spec fn view(&self) -> ReplyView {
        ReplyView { code: self.code, body: self.body@ }
    }
}

impl ReplyView {
    /// The reply to a request that was served: status 200 and the result.
    pub open spec fn success(data: Option<Seq<char>>) -> ReplyView {
        ReplyView { code: STATUS_OK, body: ApiResponseView::success(data) }
    }

    /// The reply to a request that failed: the status and the message of
    /// the kind of failure.
    pub open spec fn failure(kind: ErrorKind) -> ReplyView {
        ReplyView { code: kind.spec_http_status(), body: ApiResponseView::failure(kind) }
    }

    /// The reply for the outcome of an operation.
    pub open spec fn from_outcome(outcome: Result<Option<Seq<char>>, ErrorKind>) -> ReplyView {
        match outcome {
            Ok(data) => ReplyView::success(data),
            Err(kind) => ReplyView::failure(kind),
        }
    }

    /// Whether the reply is one that a node sends: the body is well-formed,
    /// a success goes with status 200, and an error with status 400 or 500.
    pub open spec fn well_formed(self) -> bool {
        &&& self.body.well_formed()
        &&& self.body.status == "success"@ ==> self.code == STATUS_OK
        &&& self.body.status == "error"@ ==> self.code == STATUS_BAD_REQUEST || self.code
            == STATUS_INTERNAL
    }
}

impl Reply {
    /// The reply for the outcome of an operation: status 200 and the data
    /// for a success; for a failure, the status and the message of its kind.
    pub fn from_outcome(outcome: Result<Option<String>, ErrorKind>) -> (reply: Reply)
        ensures
            outcome matches Ok(data) ==> reply@ == ReplyView::success(text_of(data)),
            outcome matches Err(kind) ==> reply@ == ReplyView::failure(kind),
    {
        match outcome {
            Ok(data) => Reply { code: STATUS_OK, body: ApiResponse::success(data) },
            Err(kind) => Reply { code: kind.http_status(), body: ApiResponse::failure(kind) },
        }
    }

    /// Whether the reply is one that a node sends.
    pub fn is_well_formed(&self) -> (well_formed: bool)
        ensures
            well_formed == self@.well_formed(),
    {
        proof {
            reveal_strlit("success");
            reveal_strlit("error");
            assert("success"@.len() != "error"@.len());
        }
        if self.body.status == "success".to_owned() {
            self.body.error.is_none() && self.code == STATUS_OK
        } else if self.body.status == "error".to_owned() {
            self.body.data.is_none() && self.body.error.is_some() && (self.code
                == STATUS_BAD_REQUEST || self.code == STATUS_INTERNAL)
        } else {
            false
        }
    }
}

/// Where a request is served.
#[derive(Debug, Clone, PartialEq, Eq)]
pub enum Route {
    /// By this node, which owns the key.
    Local,
    /// By the node of `partition`, which listens at `target`.
    Remote { partition: usize, target: String },
}

/// A route as a value.
pub enum RouteView {
    Local,
    Remote { partition: nat, target: Seq<char> },
}

impl View for Route {
    type V = RouteView;

    open spec fn view(&self) -> RouteView {
        match self {
            Route::Local => RouteView::Local,
            Route::Remote { partition, target } => RouteView::Remote {
                partition: *partition as nat,
                target: target@,
            },
        }
    }
}

/// The route of a request for `key` at a node with the given topology.
///
/// An empty key is refused. A node whose own partition is not in the
/// topology cannot route. A key that the node owns is served by it. Any
/// other key goes to the node of its owner, unless that node has this
/// node's own address: forwarding would then come back to this node without
/// end.
pub open spec fn route_for(topology: Topology, key: Seq<char>) -> Result<RouteView, ErrorKind> {
    if key.len() == 0 {
        Err(ErrorKind::Validation)
    } else if !topology.well_formed() {
        Err(ErrorKind::InvalidPartition)
    } else if topology.is_local(key) {
        Ok(RouteView::Local)
    } else if topology.owner_address(key) == topology.own_address() {
        Err(ErrorKind::RedirectLoop)
    } else {
        Ok(RouteView::Remote { partition: topology.owner(key), target: topology.owner_address(key) })
    }
}

/// Decides where a request for `key` is served. No request leaves the node
/// and the store is not read.
pub fn route(shard_config: &ShardConfig, key: &str) -> (routed: Result<Route, ErrorKind>)
    ensures
        route_for(shard_config@, key@) matches Ok(expected) ==> routed is Ok && routed.unwrap()@
            == expected,
        route_for(shard_config@, key@) matches Err(kind) ==> routed == Err::<Route, ErrorKind>(
            kind,
        ),
{
    if key.is_empty() {
        return Err(ErrorKind::Validation);
    }
    if shard_config.current_shard >= shard_config.shards.len() {
        return Err(ErrorKind::InvalidPartition);
    }
    let owner: usize = shard_config.get_shard(key);
    if owner == shard_config.current_shard {
        return Ok(Route::Local);
    }
    if shard_config.shards[owner] == shard_config.shards[shard_config.current_shard] {
        return Err(ErrorKind::RedirectLoop);
    }
    Ok(Route::Remote { partition: owner, target: shard_config.shards[owner].clone() })
}

/// What the node does next with a request.
#[derive(Debug, Clone, PartialEq, Eq)]
pub enum Step {
    /// The request is settled: send the reply to the client.
    Respond(Reply),
    /// The key belongs to another node: send the request to the node at
    /// `target`, and settle with what comes back.
    Forward { target: String, request: Request },
}

/// A step as a value.
pub enum StepView {
    Respond(ReplyView),
    Forward { target: Seq<char>, request: RequestView },
}

impl View for Step {
    type V = StepView;

    open spec fn view(&self) -> StepView {
        match self {
            Step::Respond(reply) => StepView::Respond(reply@),
            Step::Forward { target, request } => StepView::Forward {
                target: target@,
                request: request@,
            },
        }
    }
}

/// How an attempt to forward a request ended.
#[derive(Debug, Clone, PartialEq, Eq)]
pub enum ForwardOutcome {
    /// The owning node sent this reply.
    Replied(Reply),
    /// No reply came: the node was not reached, did not answer in time, or
    /// what it sent could not be read as a reply.
    Failed,
}

/// The longest that a node waits for the reply to a forwarded request, in
/// milliseconds.
pub const FORWARD_TIMEOUT_MS: u64 = 5000;

/// How often at most a request is sent to the owner of its key.
pub const FORWARD_ATTEMPTS: u32 = 3;

/// The pause after the first attempt that got no reply, in milliseconds.
/// Each further pause is twice the one before.
pub const FORWARD_BACKOFF_MS: u64 = 100;

/// The pause after `attempts` attempts, of which the last got no reply.
pub open spec fn backoff_ms(attempts: nat) -> nat
    decreases attempts,
{
    if attempts <= 1 {
        FORWARD_BACKOFF_MS as nat
    } else {
        2 * backoff_ms((attempts - 1) as nat)
    }
}

/// Whether a request is sent again after `attempts` attempts, and after
/// which pause: only where the last attempt got no reply, and fewer than
/// `FORWARD_ATTEMPTS` were made.
pub open spec fn retry_pause(replied: bool, attempts: nat) -> Option<nat> {
    if !replied && 1 <= attempts < FORWARD_ATTEMPTS {
        Some(backoff_ms(attempts))
    } else {
        None
    }
}

/// Decides whether a forwarded request is sent again. `outcome` is how the
/// last attempt ended and `attempts` the number of attempts made so far. The
/// result is the pause before the next attempt, in milliseconds, or `None`
/// where the outcome stands.
pub fn retry_after(outcome: &ForwardOutcome, attempts: u32) -> (pause: Option<u64>)
    ensures
        pause is Some <==> retry_pause(outcome is Replied, attempts as nat) is Some,
        pause matches Some(ms) ==> retry_pause(outcome is Replied, attempts as nat) == Some(
            ms as nat,
        ),
{
    match outcome {
        ForwardOutcome::Replied(_) => None,
        ForwardOutcome::Failed => {
            if attempts == 0 || attempts >= FORWARD_ATTEMPTS {
                return None;
            }
            let mut pause: u64 = FORWARD_BACKOFF_MS;
            let mut made: u32 = 1;
            while made < attempts
                invariant
                    1 <= made <= attempts < FORWARD_ATTEMPTS,
                    pause == backoff_ms(made as nat),
                decreases attempts - made,
            {
                proof {
                    lemma_backoff_is_bounded(made as nat);
                    lemma_backoff_is_bounded((made + 1) as nat);
                }
                pause = pause * 2;
                made = made + 1;
            }
            Some(pause)
        },
    }
}

/// The pauses between the attempts to forward one request are at least the
/// first pause and at most twice as long.
pub proof fn lemma_backoff_is_bounded(attempts: nat)
    requires
        attempts < FORWARD_ATTEMPTS,
    ensures
        FORWARD_BACKOFF_MS <= backoff_ms(attempts) <= 2 * FORWARD_BACKOFF_MS,
        retry_pause(false, attempts) matches Some(ms) ==> ms <= 2 * FORWARD_BACKOFF_MS,
{
    reveal_with_fuel(backoff_ms, 3);
}

/// The data of the reply to a write that bound a key.
pub open spec fn put_ack() -> Seq<char> {
    "OK"@
}

/// The data of the reply to a write that unbound a key.
pub open spec fn delete_ack() -> Seq<char> {
    "Deleted"@
}

/// What the owner of a key makes of a request while its storage engine
/// works: the reply, and the store after it.
pub open spec fn served(store: Store, request: RequestView) -> (ReplyView, Store) {
    match request {
        RequestView::Get { key } => (ReplyView::from_outcome(store.read(key)), store),
        RequestView::Put { key, value } => if store.read_only {
            (ReplyView::failure(ErrorKind::ReadOnly), store)
        } else {
            (ReplyView::success(Some(put_ack())), store.put(key, value))
        },
        RequestView::Delete { key } => if store.read_only {
            (ReplyView::failure(ErrorKind::ReadOnly), store)
        } else {
            (ReplyView::success(Some(delete_ack())), store.erase(key))
        },
    }
}

/// What a node makes of a request that it does not serve itself: it refuses
/// the request, or has it forwarded to the owner of the key as it is. `None`
/// where the node owns the key.
pub open spec fn deferred(topology: Topology, request: RequestView) -> Option<StepView> {
    match route_for(topology, request.key()) {
        Err(kind) => Some(StepView::Respond(ReplyView::failure(kind))),
        Ok(RouteView::Remote { target, .. }) => Some(StepView::Forward { target, request }),
        Ok(RouteView::Local) => None,
    }
}

/// Whether `step` and the store `after` are what the owner of a key may
/// make of a request on the store `before`: what `served` says, or, where
/// the storage engine failed, the report of that failure.
pub open spec fn executed(before: Store, request: RequestView, step: StepView, after: Store) -> bool {
    ||| step == StepView::Respond(served(before, request).0) && after == served(before, request).1
    ||| step == StepView::Respond(ReplyView::failure(ErrorKind::StorageIo)) && after.read_only
        == before.read_only && !(request.is_write() && before.read_only)
}

/// The reply to a write: the acknowledgement where it was made, the failure
/// where it was not.
pub fn acknowledge(written: Result<(), ErrorKind>, ack: &str) -> (reply: Reply)
    ensures
        written is Ok ==> reply@ == ReplyView::success(Some(ack@)),
        written matches Err(kind) ==> reply@ == ReplyView::failure(kind),
{
    match written {
        Ok(()) => Reply::from_outcome(Ok(Some(ack.to_owned()))),
        Err(kind) => Reply::from_outcome(Err(kind)),
    }
}

/// Handles a read of `key`. The node that owns the key reads its store; any
/// other node asks for the request to be forwarded to the owner.
pub fn get_value(db: &Database, shard_config: &ShardConfig, key: &str) -> (step: Step)
    ensures
        ({
            let request = RequestView::Get { key: key@ };
            match deferred(shard_config@, request) {
                Some(expected) => step@ == expected,
                None => executed(db@, request, step@, db@),
            }
        }),
{
    match route(shard_config, key) {
        Err(kind) => Step::Respond(Reply::from_outcome(Err(kind))),
        Ok(Route::Remote { target, .. }) => Step::Forward {
            target,
            request: Request::Get { key: key.to_owned() },
        },
        Ok(Route::Local) => Step::Respond(Reply::from_outcome(db.fetch(key))),
    }
}

/// Handles a write of `value` under `key`. The node that owns the key
/// writes to its store; any other node leaves its store alone and asks for
/// the request to be forwarded to the owner.
pub fn set_value(db: &mut Database, shard_config: &ShardConfig, key: &str, value: &str) -> (step:
    Step)
    ensures
        ({
            let request = RequestView::Put { key: key@, value: value@ };
            match deferred(shard_config@, request) {
                Some(expected) => step@ == expected && final(db)@ == old(db)@,
                None => executed(old(db)@, request, step@, final(db)@),
            }
        }),
{
    match route(shard_config, key) {
        Err(kind) => Step::Respond(Reply::from_outcome(Err(kind))),
        Ok(Route::Remote { target, .. }) => Step::Forward {
            target,
            request: Request::Put { key: key.to_owned(), value: value.to_owned() },
        },
        Ok(Route::Local) => Step::Respond(acknowledge(db.set(key, value), "OK")),
    }
}

/// Handles the removal of `key`. The node that owns the key writes to its
/// store; any other node leaves its store alone and asks for the request to
/// be forwarded to the owner.
pub fn delete_value(db: &mut Database, shard_config: &ShardConfig, key: &str) -> (step: Step)
    ensures
        ({
            let request = RequestView::Delete { key: key@ };
            match deferred(shard_config@, request) {
                Some(expected) => step@ == expected && final(db)@ == old(db)@,
                None => executed(old(db)@, request, step@, final(db)@),
            }
        }),
{
    match route(shard_config, key) {
        Err(kind) => Step::Respond(Reply::from_outcome(Err(kind))),
        Ok(Route::Remote { target, .. }) => Step::Forward {
            target,
            request: Request::Delete { key: key.to_owned() },
        },
        Ok(Route::Local) => Step::Respond(acknowledge(db.delete(key), "Deleted")),
    }
}

/// The reply that settles a forwarded request: the reply of the owning
/// node, as it came, where it is well-formed; the report that the owner is
/// unavailable, where no reply came or one that no node sends.
pub open spec fn relayed(sent: Option<ReplyView>) -> ReplyView {
    match sent {
        Some(reply) => if reply.well_formed() {
            reply
        } else {
            ReplyView::failure(ErrorKind::RemoteUnavailable)
        },
        None => ReplyView::failure(ErrorKind::RemoteUnavailable),
    }
}

/// The reply that settles a forwarded request, for the outcome of the last
/// attempt to send it.
pub open spec fn settled(outcome: ForwardOutcome) -> ReplyView {
    match outcome {
        ForwardOutcome::Replied(sent) => relayed(Some(sent@)),
        ForwardOutcome::Failed => relayed(None),
    }
}

/// Settles a forwarded request. A well-formed reply of the owning node goes
/// to the client as it came, status code and body. Where no reply came, or
/// one that no node sends, the client is told that the owner is
/// unavailable.
pub fn resolve_forward(outcome: ForwardOutcome) -> (reply: Reply)
    ensures
        reply@ == settled(outcome),
        reply@.well_formed(),
{
    proof {
        lemma_replies_are_well_formed(Err(ErrorKind::RemoteUnavailable));
    }
    match outcome {
        ForwardOutcome::Replied(sent) => {
            if sent.is_well_formed() {
                sent
            } else {
                Reply::from_outcome(Err(ErrorKind::RemoteUnavailable))
            }
        },
        ForwardOutcome::Failed => Reply::from_outcome(Err(ErrorKind::RemoteUnavailable)),
    }
}

/// The topology of the cluster and the partition of this node, as the node
/// was started with them.
pub fn shard_info(shard_config: &ShardConfig) -> (info: &ShardConfig)
    ensures
        info == shard_config,
{
    shard_config
}

/// Every reply that a node makes for the outcome of an operation is
/// well-formed. A success has status 200 and the text `success`, carries the
/// data and no error. A failure has the text `error`, no data, the message
/// of its kind, and status 400 where the request or the configuration is at
/// fault, 500 otherwise.
pub proof fn lemma_replies_are_well_formed(outcome: Result<Option<Seq<char>>, ErrorKind>)
    ensures
        ReplyView::from_outcome(outcome).well_formed(),
        outcome is Ok <==> ReplyView::from_outcome(outcome).body.status == "success"@,
        outcome is Ok <==> ReplyView::from_outcome(outcome).code == 200,
        outcome matches Ok(data) ==> ReplyView::from_outcome(outcome).body.data == data
            && ReplyView::from_outcome(outcome).body.error is None,
        outcome matches Err(kind) ==> {
            &&& ReplyView::from_outcome(outcome).body.error == Some(kind.spec_message())
            &&& ReplyView::from_outcome(outcome).body.data is None
            &&& ReplyView::from_outcome(outcome).code == (if kind.is_client_fault() {
                400u16
            } else {
                500u16
            })
        },
{
    reveal_strlit("success");
    reveal_strlit("error");
    assert("success"@.len() != "error"@.len());
}

/// Whatever a node replies to a request by itself is well-formed: every
/// failure goes out in the envelope, with the status and the message of its
/// kind.
pub proof fn lemma_handled_replies_are_well_formed(
    topology: Topology,
    before: Store,
    request: RequestView,
    step: StepView,
    after: Store,
)
    requires
        match deferred(topology, request) {
            Some(expected) => step == expected,
            None => executed(before, request, step, after),
        },
    ensures
        step matches StepView::Respond(reply) ==> reply.well_formed(),
{
    reveal_strlit("success");
    reveal_strlit("error");
    assert("success"@.len() != "error"@.len());
}

/// A request is sent to the owner of its key at most `FORWARD_ATTEMPTS`
/// times, and never again once a reply came.
pub proof fn lemma_retries_are_bounded(replied: bool, attempts: nat)
    ensures
        replied ==> retry_pause(replied, attempts) is None,
        attempts >= FORWARD_ATTEMPTS ==> retry_pause(replied, attempts) is None,
        attempts == 0 ==> retry_pause(replied, attempts) is None,
        !replied && 1 <= attempts < FORWARD_ATTEMPTS ==> retry_pause(replied, attempts) is Some,
{
}

/// A request is never forwarded to the address of the node that holds it.
/// Where the owner of the key is another partition with this node's own
/// address, the request is refused as a redirect loop and nothing is sent.
/// What is forwarded is the request as it came, and it goes to the address
/// of the owner, which is another partition.
pub proof fn lemma_redirect_loop_is_detected(topology: Topology, request: RequestView)
    ensures
        request.key().len() > 0 && topology.well_formed() && !topology.is_local(request.key())
            && topology.owner_address(request.key()) == topology.own_address() ==> deferred(
            topology,
            request,
        ) == Some(StepView::Respond(ReplyView::failure(ErrorKind::RedirectLoop))),
        deferred(topology, request) matches Some(StepView::Forward { target, request: sent }) ==> {
            &&& sent == request
            &&& target == topology.owner_address(request.key())
            &&& target != topology.own_address()
            &&& topology.owner(request.key()) != topology.current_shard
            &&& topology.owner(request.key()) < topology.shards.len()
        },
{
}

/// Every node of a cluster sends a request to the same place: the owner of
/// the key serves it, and every other node forwards it, as it came, to the
/// owner's address. A node refuses a request with a key only where the
/// cluster gives it the owner's address as its own.
pub proof fn lemma_every_node_reaches_owner(cluster: Topology, node: nat, request: RequestView)
    requires
        request.key().len() > 0,
        node < cluster.shards.len(),
    ensures
        cluster.owner(request.key()) < cluster.shards.len(),
        node == cluster.owner(request.key()) <==> deferred(cluster.seen_from(node), request)
            is None,
        node != cluster.owner(request.key()) ==> {
            ||| deferred(cluster.seen_from(node), request) == Some(
                StepView::Forward {
                    target: cluster.shards[cluster.owner(request.key()) as int],
                    request,
                },
            )
            ||| deferred(cluster.seen_from(node), request) == Some(
                StepView::Respond(ReplyView::failure(ErrorKind::RedirectLoop)),
            ) && cluster.shards[node as int] == cluster.shards[cluster.owner(
                request.key(),
            ) as int]
        },
{
}

/// A value written through the owner of its key is the value that a read
/// through the owner returns.
pub proof fn lemma_round_trip(store: Store, key: Seq<char>, value: Seq<char>)
    requires
        !store.read_only,
    ensures
        served(store, RequestView::Put { key, value }).0 == ReplyView::success(Some(put_ack())),
        served(
            served(store, RequestView::Put { key, value }).1,
            RequestView::Get { key },
        ).0 == ReplyView::success(Some(value)),
{
    crate::db::lemma_put_then_lookup(store, key, value, key);
}

/// Removing a key succeeds whether or not the key is bound; removing it a
/// second time succeeds too and changes nothing; a read then finds nothing.
pub proof fn lemma_delete_is_idempotent(store: Store, key: Seq<char>)
    requires
        !store.read_only,
    ensures
        served(store, RequestView::Delete { key }).0 == ReplyView::success(Some(delete_ack())),
        served(served(store, RequestView::Delete { key }).1, RequestView::Delete { key }) == (
            ReplyView::success(Some(delete_ack())),
            served(store, RequestView::Delete { key }).1,
        ),
        served(
            served(store, RequestView::Delete { key }).1,
            RequestView::Get { key },
        ).0 == ReplyView::success(None),
{
    crate::db::lemma_erase_is_idempotent(store, key, key);
}

/// A read-only store refuses every write and keeps its state.
pub proof fn lemma_read_only_rejects_writes(store: Store, request: RequestView)
    requires
        store.read_only,
        request.is_write(),
    ensures
        served(store, request) == (ReplyView::failure(ErrorKind::ReadOnly), store),
{
}

} // verus!
