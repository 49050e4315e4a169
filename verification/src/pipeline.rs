//! The two ingestion pipelines as explicit state machines: the outer loop
//! performs the transport work (pulling, reading, sending, sleeping) and
//! reports each outcome as an event; the machines decide what follows and
//! keep the consumption checkpoint.
//!
//! The central asymmetry: in log mode a spent retry budget terminates the
//! pipeline without marking the item consumed, so it is redelivered after a
//! restart (at-least-once); in socket mode the same outcome is absorbed and
//! the loop keeps reading, since a frame read off the socket can never be
//! asked for again (best-effort).

use vstd::prelude::*;

use crate::config::KafkaConfig;
use crate::strutil::dotted;
use crate::strutil::replace_underscores;

verus! {

/// Per-partition offsets staged for commit (log mode only). Kept as an
/// append-only journal of stores; its meaning is the map from partition to
/// the offset stored last.
#[derive(Debug)]
pub struct Checkpoints {
    stores: Vec<(i32, i64)>,
}

/// The staged offset per partition that a journal of stores denotes: later
/// stores win.
pub open spec fn ckpt_map(s: Seq<(i32, i64)>) -> Map<int, int>
    decreases s.len(),
{
    if s.len() == 0 {
        Map::empty()
    } else {
        ckpt_map(s.drop_last()).insert(s.last().0 as int, s.last().1 as int)
    }
}

impl View for Checkpoints {
    type V = Map<int, int>;

    closed spec fn view(&self) -> Map<int, int> {
        ckpt_map(self.stores@)
    }
}

impl Checkpoints {
    /// No offset staged anywhere.
    pub fn new() -> (c: Checkpoints)
        ensures
            c@ == Map::<int, int>::empty(),
    {
        Checkpoints { stores: Vec::new() }
    }

    /// Stage `offset` as safe-to-resume-after for `partition`, replacing
    /// whatever was staged for it before.
    pub fn store(&mut self, partition: i32, offset: i64)
        ensures
            final(self)@ == old(self)@.insert(partition as int, offset as int),
    {
        self.stores.push((partition, offset));
        proof {
            assert(self.stores@.drop_last() =~= old(self).stores@);
        }
    }

    /// The offset staged for `partition`, if any.
    pub fn stored_offset(&self, partition: i32) -> (r: Option<i64>)
        ensures
            match r {
                Some(o) => self@.contains_key(partition as int) && self@[partition as int]
                    == o as int,
                None => !self@.contains_key(partition as int),
            },
    {
        let mut i: usize = self.stores.len();
        proof {
            assert(self.stores@.subrange(0, self.stores@.len() as int) =~= self.stores@);
        }
        while i > 0
            invariant
                i <= self.stores@.len(),
                self@.contains_key(partition as int) <==> ckpt_map(
                    self.stores@.subrange(0, i as int),
                ).contains_key(partition as int),
                self@.contains_key(partition as int) ==> self@[partition as int] == ckpt_map(
                    self.stores@.subrange(0, i as int),
                )[partition as int],
            decreases i,
        {
            proof {
                assert(self.stores@.subrange(0, i as int).drop_last() =~= self.stores@.subrange(
                    0,
                    i - 1,
                ));
                assert(self.stores@.subrange(0, i as int).last() == self.stores@[i - 1]);
            }
            let (sp, so) = self.stores[i - 1];
            if sp == partition {
                return Some(so);
            }
            i = i - 1;
        }
        proof {
            assert(self.stores@.subrange(0, 0) =~= Seq::<(i32, i64)>::empty());
        }
        None
    }
}

/// What the outer log-mode loop observed for one pulled item (or for the
/// pull itself).
#[derive(Clone, Copy, Debug, PartialEq, Eq, Structural)]
pub enum LogEvent {
    /// Transport-level receive failure: no further progress is possible on
    /// this consumer.
    ReceiveError,
    /// The upstream stream ended.
    StreamEnded,
    /// The pulled item did not decode into an envelope.
    DecodeFailed,
    /// A decoded envelope was resolved by the sender with success — accepted
    /// by the sink, or deliberately dropped on a permanent failure — so its
    /// offset may be marked consumed.
    Forwarded { partition: i32, offset: i64 },
    /// The sender gave up on a decoded envelope: the retry budget is spent.
    ForwardFailed,
    /// Handing a staged offset to the consumer client failed.
    StoreFailed,
}

/// What the outer log-mode loop must do next.
#[derive(Clone, Copy, Debug, PartialEq, Eq, Structural)]
pub enum LogAction {
    /// Pull the next item.
    Continue,
    /// Stage this offset with the consumer client, then pull the next item.
    StoreOffset { partition: i32, offset: i64 },
    /// Terminate the pipeline; the process is expected to exit and be
    /// restarted by its supervisor.
    Terminate,
}

/// The log-mode policy: receive failures, spent retry budgets and store
/// failures terminate; undecodable items are skipped; only a resolved
/// delivery marks its offset consumed.
pub open spec fn spec_log_action(e: LogEvent) -> LogAction {
    match e {
        LogEvent::ReceiveError => LogAction::Terminate,
        LogEvent::StreamEnded => LogAction::Terminate,
        LogEvent::DecodeFailed => LogAction::Continue,
        LogEvent::Forwarded { partition, offset } => LogAction::StoreOffset { partition, offset },
        LogEvent::ForwardFailed => LogAction::Terminate,
        LogEvent::StoreFailed => LogAction::Terminate,
    }
}

/// State of the log-mode pipeline: the staged checkpoints, and whether the
/// loop is still running.
#[derive(Debug)]
pub struct LogPipeline {
    pub checkpoints: Checkpoints,
    pub running: bool,
}

impl LogPipeline {
    /// A freshly subscribed pipeline: running, nothing staged.
    pub fn new() -> (p: LogPipeline)
        ensures
            p.running,
            p.checkpoints@ == Map::<int, int>::empty(),
    {
        LogPipeline { checkpoints: Checkpoints::new(), running: true }
    }

    /// Couple one observed outcome to consumption marking. The checkpoint
    /// advances exactly on a resolved delivery (`Forwarded`), and never on a
    /// skipped item, a spent retry budget, or a transport failure — an
    /// envelope is never marked consumed before the sender has returned a
    /// terminal outcome for it.
    pub fn on_event(&mut self, e: LogEvent) -> (a: LogAction)
        requires
            old(self).running,
        ensures
            a == spec_log_action(e),
            final(self).running == !(a is Terminate),
            e matches LogEvent::Forwarded { partition, offset } ==> final(self).checkpoints@ == old(
                self,
            ).checkpoints@.insert(partition as int, offset as int),
            !(e matches LogEvent::Forwarded { .. }) ==> final(self).checkpoints@ == old(
                self,
            ).checkpoints@,
    {
        match e {
            LogEvent::ReceiveError => {
                self.running = false;
                LogAction::Terminate
            },
            LogEvent::StreamEnded => {
                self.running = false;
                LogAction::Terminate
            },
            LogEvent::DecodeFailed => LogAction::Continue,
            LogEvent::Forwarded { partition, offset } => {
                self.checkpoints.store(partition, offset);
                LogAction::StoreOffset { partition, offset }
            },
            LogEvent::ForwardFailed => {
                self.running = false;
                LogAction::Terminate
            },
            LogEvent::StoreFailed => {
                self.running = false;
                LogAction::Terminate
            },
        }
    }
}

/// What the outer socket-mode loop observed for one frame.
#[derive(Clone, Copy, Debug, PartialEq, Eq, Structural)]
pub enum SocketEvent {
    /// The socket could not be read: no further frame will arrive.
    ReceiveError,
    /// A non-data control frame: ignored.
    ControlFrame,
    /// A data frame that did not decode as an envelope: silently ignored.
    DecodeFailed,
    /// A decoded envelope was resolved by the sender with success.
    Forwarded,
    /// The sender gave up on a decoded envelope. There is no checkpoint and
    /// no replay: the event is lost.
    ForwardFailed,
}

/// What the outer socket-mode loop must do next.
#[derive(Clone, Copy, Debug, PartialEq, Eq, Structural)]
pub enum SocketAction {
    /// Read the next frame.
    Continue,
    /// Terminate the pipeline; the process is expected to exit and be
    /// restarted by its supervisor.
    Terminate,
}

/// The socket-mode policy: every delivery outcome, a spent retry budget
/// included, is absorbed and the loop keeps reading the next frame —
/// liveness is kept, the delivery guarantee is not, so this mode is
/// best-effort by nature. Only an unreadable socket terminates.
pub fn socket_on_event(e: SocketEvent) -> (a: SocketAction)
    ensures
        a is Terminate <==> e is ReceiveError,
{
    match e {
        SocketEvent::ReceiveError => SocketAction::Terminate,
        SocketEvent::ControlFrame => SocketAction::Continue,
        SocketEvent::DecodeFailed => SocketAction::Continue,
        SocketEvent::Forwarded => SocketAction::Continue,
        SocketEvent::ForwardFailed => SocketAction::Continue,
    }
}

/// What base64 encoding (standard alphabet, padded) of a credential string
/// returns; a function of the string alone.
pub uninterp spec fn base64_of(s: Seq<char>) -> Seq<char>;

/// Relies on base64::encode with the standard alphabet: deterministic in its
/// input, and empty input encodes to the empty string.
#[verifier::external_body]
fn base64_encode(s: &str) -> (r: String)
    ensures
        r@ == base64_of(s@),
        s@.len() == 0 ==> r@.len() == 0,
{
    base64::encode(s)
}

/// The credential string that is base64-encoded for the authorization
/// header: user, ':', token, with an absent part empty.
pub open spec fn spec_credentials(user: Option<Seq<char>>, token: Option<Seq<char>>) -> Seq<char> {
    (match user {
        Some(u) => u,
        None => Seq::empty(),
    }) + seq![':'] + (match token {
        Some(t) => t,
        None => Seq::empty(),
    })
}

/// The authorization header of the socket connection: when either credential
/// is configured, "Basic " followed by the base64 encoding of "user:token".
pub fn basic_auth_header(user: &Option<String>, token: &Option<String>) -> (r: Option<String>)
    ensures
        match r {
            Some(h) => (user is Some || token is Some) && h@ == "Basic "@ + base64_of(
                spec_credentials(
                    match user {
                        Some(u) => Some(u@),
                        None => None,
                    },
                    match token {
                        Some(t) => Some(t@),
                        None => None,
                    },
                ),
            ),
            None => user is None && token is None,
        },
{
    if user.is_none() && token.is_none() {
        return None;
    }
    let mut cred = String::new();
    match user {
        Some(u) => cred.append(u.as_str()),
        None => (),
    }
    cred.push(':');
    match token {
        Some(t) => cred.append(t.as_str()),
        None => (),
    }
    proof {
        assert(cred@ =~= spec_credentials(
            match user {
                Some(u) => Some(u@),
                None => None,
            },
            match token {
                Some(t) => Some(t@),
                None => None,
            },
        ));
    }
    let encoded = base64_encode(cred.as_str());
    let mut h = String::from_str("Basic ");
    h.append(encoded.as_str());
    Some(h)
}

/// The socket endpoint URL: the configured endpoint, '/', the application.
pub fn socket_url(endpoint: &str, app: &str) -> (r: String)
    ensures
        r@ == endpoint@ + seq!['/'] + app@,
{
    let mut url = String::from_str(endpoint);
    url.push('/');
    url.append(app);
    proof {
        assert(url@ =~= endpoint@ + seq!['/'] + app@);
    }
    url
}

/// The property set handed to the log client: the configured bootstrap
/// servers; each free-form property with its key translated ('_' to '.');
/// and the three fixed at-least-once settings — periodic auto-commit on,
/// a five-second commit interval, and offset storing left to the
/// application, so that only offsets this pipeline stages are committed.
pub fn kafka_client_properties(cfg: &KafkaConfig) -> (r: Vec<(String, String)>)
    ensures
        r@.len() == cfg.properties@.len() + 4,
        r@[0].0@ == "bootstrap.servers"@ && r@[0].1@ == cfg.bootstrap_servers@,
        forall|i: int|
            0 <= i < cfg.properties@.len() ==> (#[trigger] r@[i + 1]).0@ == dotted(
                cfg.properties@[i].0@,
            ) && r@[i + 1].1@ == cfg.properties@[i].1@,
        r@[cfg.properties@.len() as int + 1].0@ == "enable.auto.commit"@ && r@[cfg.properties@.len() as int
            + 1].1@ == "true"@,
        r@[cfg.properties@.len() as int + 2].0@ == "auto.commit.interval.ms"@ && r@[cfg.properties@.len() as int
            + 2].1@ == "5000"@,
        r@[cfg.properties@.len() as int + 3].0@ == "enable.auto.offset.store"@ && r@[cfg.properties@.len() as int
            + 3].1@ == "false"@,
{
    let mut r: Vec<(String, String)> = Vec::new();
    r.push((String::from_str("bootstrap.servers"), cfg.bootstrap_servers.clone()));
    let n = cfg.properties.len();
    let mut i: usize = 0;
    while i < n
        invariant
            n == cfg.properties@.len(),
            i <= n,
            r@.len() == i + 1,
            r@[0].0@ == "bootstrap.servers"@ && r@[0].1@ == cfg.bootstrap_servers@,
            forall|j: int|
                0 <= j < i ==> (#[trigger] r@[j + 1]).0@ == dotted(cfg.properties@[j].0@) && r@[j
                    + 1].1@ == cfg.properties@[j].1@,
        decreases n - i,
    {
        let key = replace_underscores(cfg.properties[i].0.as_str());
        let value = cfg.properties[i].1.clone();
        r.push((key, value));
        i += 1;
    }
    r.push((String::from_str("enable.auto.commit"), String::from_str("true")));
    r.push((String::from_str("auto.commit.interval.ms"), String::from_str("5000")));
    r.push((String::from_str("enable.auto.offset.store"), String::from_str("false")));
    r
}

} // verus!
