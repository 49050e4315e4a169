//! Forwarding sender: classification of one delivery attempt and the bounded
//! retry policy that turns a stream of attempt outcomes into a terminal
//! delivery result.

use vstd::prelude::*;

use crate::config::ConfigError;
use crate::config::EndpointConfig;

verus! {

/// Why a single delivery attempt failed.
#[derive(Debug, PartialEq, Eq)]
pub enum FailureReason {
    /// The sink answered with this HTTP status code.
    Status(u16),
    /// The request never produced a response (connect, timeout, TLS, ...).
    Transport(String),
    /// The envelope could not be encoded into a request.
    Encode(String),
}

/// Classified failure of one delivery attempt.
#[derive(Debug, PartialEq, Eq)]
pub enum SendError {
    /// Worth retrying: the sink may accept the same envelope later.
    Temporary(FailureReason),
    /// Never retried: the same envelope would fail again.
    Permanent(FailureReason),
}

/// What one HTTP attempt observably produced, as reported by the transport.
#[derive(Debug, PartialEq, Eq)]
pub enum AttemptOutcome {
    /// A response arrived with this status code.
    Response(u16),
    /// A transport-level error: the request was sent (or attempted) but no
    /// response arrived.
    TransportError(String),
    /// The envelope could not be encoded into a request body.
    EncodeError(String),
}

/// The classification policy: status family decides whether a failure is
/// temporary (5xx, transport) or permanent (4xx, encode failure, and any
/// other status as a conservative default).
pub open spec fn spec_classify(o: AttemptOutcome) -> Result<(), SendError> {
    match o {
        AttemptOutcome::Response(s) => {
            if 200 <= s && s < 300 {
                Ok(())
            } else if 500 <= s && s < 600 {
                Err(SendError::Temporary(FailureReason::Status(s)))
            } else {
                Err(SendError::Permanent(FailureReason::Status(s)))
            }
        },
        AttemptOutcome::TransportError(m) => Err(SendError::Temporary(FailureReason::Transport(m))),
        AttemptOutcome::EncodeError(m) => Err(SendError::Permanent(FailureReason::Encode(m))),
    }
}

/// Classify what one HTTP attempt produced into success, a temporary
/// failure, or a permanent failure.
pub fn classify(o: AttemptOutcome) -> (r: Result<(), SendError>)
    ensures
        r == spec_classify(o),
{
    match o {
        AttemptOutcome::Response(s) => {
            if 200 <= s && s < 300 {
                Ok(())
            } else if 500 <= s && s < 600 {
                Err(SendError::Temporary(FailureReason::Status(s)))
            } else {
                Err(SendError::Permanent(FailureReason::Status(s)))
            }
        },
        AttemptOutcome::TransportError(m) => Err(SendError::Temporary(FailureReason::Transport(m))),
        AttemptOutcome::EncodeError(m) => Err(SendError::Permanent(FailureReason::Encode(m))),
    }
}

impl Clone for FailureReason {
    /// An exact copy: a retried delivery carries the same reason around.
    fn clone(&self) -> (r: Self)
        ensures
            r == *self,
    {
        match self {
            FailureReason::Status(s) => FailureReason::Status(*s),
            FailureReason::Transport(m) => FailureReason::Transport(m.clone()),
            FailureReason::Encode(m) => FailureReason::Encode(m.clone()),
        }
    }
}

impl Clone for SendError {
    /// An exact copy.
    fn clone(&self) -> (r: Self)
        ensures
            r == *self,
    {
        match self {
            SendError::Temporary(x) => SendError::Temporary(x.clone()),
            SendError::Permanent(x) => SendError::Permanent(x.clone()),
        }
    }
}

impl Clone for AttemptOutcome {
    /// An exact copy.
    fn clone(&self) -> (r: Self)
        ensures
            r == *self,
    {
        match self {
            AttemptOutcome::Response(s) => AttemptOutcome::Response(*s),
            AttemptOutcome::TransportError(m) => AttemptOutcome::TransportError(m.clone()),
            AttemptOutcome::EncodeError(m) => AttemptOutcome::EncodeError(m.clone()),
        }
    }
}

/// What the retry loop does after one classified attempt.
#[derive(Clone, Debug, PartialEq, Eq)]
pub enum SendDecision {
    /// The sink accepted the envelope: report success.
    Delivered,
    /// Permanent failure: drop the envelope deliberately and report success,
    /// so that a poison message cannot block the pipeline.
    Dropped(FailureReason),
    /// Temporary failure with budget left: wait this many milliseconds, then
    /// attempt again with an identical payload.
    RetryAfter(u64),
    /// Temporary failure past the budget: give up after this many attempts.
    GaveUp(usize),
}

/// Whether a URL is accepted by the sink client's URL parser.
pub uninterp spec fn url_valid(s: Seq<char>) -> bool;

/// Relies on reqwest::Url::parse (the url crate's parser): whether the
/// string parses as an absolute URL, a function of the string alone.
#[verifier::external_body]
fn parse_url_ok(s: &str) -> (r: bool)
    ensures
        r == url_valid(s@),
{
    reqwest::Url::parse(s).is_ok()
}

/// Owns the sink endpoint: target URL, per-event retry policy and error
/// classification. Holds no mutable state; both ingestion pipelines drive it.
#[derive(Clone, Debug, PartialEq, Eq)]
pub struct Sender {
    pub config: EndpointConfig,
    pub url: String,
}

/// The retry policy, as one step: attempt number `attempts` (counted from 1)
/// resolved with `outcome`.
pub open spec fn spec_send_step(
    retries: usize,
    error_delay_ms: u64,
    attempts: usize,
    outcome: Result<(), SendError>,
) -> SendDecision {
    match outcome {
        Ok(u) => SendDecision::Delivered,
        Err(SendError::Permanent(r)) => SendDecision::Dropped(r),
        Err(SendError::Temporary(r)) => {
            if attempts > retries {
                SendDecision::GaveUp(attempts)
            } else {
                SendDecision::RetryAfter(error_delay_ms)
            }
        },
    }
}

impl Sender {
    /// A sender for the given sink URL and endpoint block. Rejected exactly
    /// when the URL does not parse; nothing else is validated here.
    pub fn new(url: String, config: EndpointConfig) -> (r: Result<Sender, ConfigError>)
        ensures
            r is Ok <==> url_valid(url@),
            r matches Ok(s) ==> s.url == url && s.config == config,
            r matches Err(e) ==> e == ConfigError::InvalidValue(url),
    {
        if parse_url_ok(url.as_str()) {
            Ok(Sender { config, url })
        } else {
            Err(ConfigError::InvalidValue(url))
        }
    }

    /// The per-request timeout handed to the HTTP client: the configured one,
    /// or five seconds.
    pub fn effective_timeout_ms(&self) -> (r: u64)
        ensures
            r == match self.config.timeout_ms {
                Some(t) => t,
                None => 5000u64,
            },
    {
        match self.config.timeout_ms {
            Some(t) => t,
            None => 5000,
        }
    }

    /// One step of the retry loop: the decision after attempt `attempts`
    /// (counted from 1) resolved with `outcome`. Success returns at once; a
    /// permanent failure drops the envelope; a temporary failure retries
    /// after the fixed delay until the budget of `retries` further attempts
    /// is spent.
    pub fn send_step(&self, attempts: usize, outcome: Result<(), SendError>) -> (d: SendDecision)
        ensures
            d == spec_send_step(self.config.retries, self.config.error_delay_ms, attempts, outcome),
    {
        match outcome {
            Ok(u) => SendDecision::Delivered,
            Err(SendError::Permanent(r)) => SendDecision::Dropped(r),
            Err(SendError::Temporary(r)) => {
                if attempts > self.config.retries {
                    SendDecision::GaveUp(attempts)
                } else {
                    SendDecision::RetryAfter(self.config.error_delay_ms)
                }
            },
        }
    }
}

/// Terminal result of the retry loop run against a script of classified
/// outcomes, with the number of HTTP calls made.
pub enum SendSummary {
    /// `send` returned success; the last call was accepted.
    Delivered { calls: int },
    /// `send` returned success after dropping the envelope on a permanent
    /// failure.
    Dropped { calls: int },
    /// `send` returned a fatal error: the budget was exhausted.
    GaveUp { calls: int },
    /// The script ended before the loop reached a terminal outcome.
    Starved { calls: int },
}

/// The retry loop over a script of classified outcomes, starting at attempt
/// number `attempt`: outcome `i` of the script resolves attempt `attempt + i`.
pub open spec fn spec_send_run(
    outcomes: Seq<Result<(), SendError>>,
    retries: int,
    attempt: int,
) -> SendSummary
    decreases outcomes.len(),
{
    if outcomes.len() == 0 {
        SendSummary::Starved { calls: attempt - 1 }
    } else {
        match outcomes[0] {
            Ok(u) => SendSummary::Delivered { calls: attempt },
            Err(SendError::Permanent(r)) => SendSummary::Dropped { calls: attempt },
            Err(SendError::Temporary(r)) => {
                if attempt > retries {
                    SendSummary::GaveUp { calls: attempt }
                } else {
                    spec_send_run(outcomes.drop_first(), retries, attempt + 1)
                }
            },
        }
    }
}

/// The retry loop over a whole script, attempts counted from 1.
pub open spec fn spec_send(outcomes: Seq<Result<(), SendError>>, retries: int) -> SendSummary {
    spec_send_run(outcomes, retries, 1)
}

/// Terminal result of [`Sender::send_scripted`], with the number of HTTP
/// calls that were made.
#[derive(Clone, Debug, PartialEq, Eq)]
pub enum ScriptedSend {
    /// `send` returns success; the last call was accepted by the sink.
    Delivered { calls: usize },
    /// `send` returns success after deliberately dropping the envelope.
    Dropped { calls: usize, reason: FailureReason },
    /// `send` returns the fatal error: the retry budget is exhausted.
    GaveUp { calls: usize },
    /// The script ended before the retry loop reached a terminal outcome.
    Starved { calls: usize },
}

/// The summary that a [`ScriptedSend`] stands for.
pub open spec fn scripted_view(s: ScriptedSend) -> SendSummary {
    match s {
        ScriptedSend::Delivered { calls } => SendSummary::Delivered { calls: calls as int },
        ScriptedSend::Dropped { calls, reason } => SendSummary::Dropped { calls: calls as int },
        ScriptedSend::GaveUp { calls } => SendSummary::GaveUp { calls: calls as int },
        ScriptedSend::Starved { calls } => SendSummary::Starved { calls: calls as int },
    }
}

/// A script of attempt outcomes, classified.
pub open spec fn classified(script: Seq<AttemptOutcome>) -> Seq<Result<(), SendError>> {
    script.map_values(|o: AttemptOutcome| spec_classify(o))
}

impl Sender {
    /// The whole retry loop, run against a pre-recorded script of attempt
    /// outcomes: outcome `i` of the script is what HTTP call `i + 1`
    /// produced. The real loop suspends between attempts for the configured
    /// delay and asks the transport for each outcome; this verified form
    /// takes the outcomes as a value and makes every decision the loop makes.
    pub fn send_scripted(&self, script: &Vec<AttemptOutcome>) -> (r: ScriptedSend)
        requires
            self.config.retries < usize::MAX,
        ensures
            scripted_view(r) == spec_send(classified(script@), self.config.retries as int),
    {
        let ghost all = classified(script@);
        proof {
            assert(all.skip(0) =~= all);
        }
        let mut i: usize = 0;
        let mut attempts: usize = 1;
        while i < script.len()
            invariant
                self.config.retries < usize::MAX,
                i <= script@.len(),
                attempts == i + 1,
                attempts <= self.config.retries + 1,
                all == classified(script@),
                spec_send(all, self.config.retries as int) == spec_send_run(
                    all.skip(i as int),
                    self.config.retries as int,
                    attempts as int,
                ),
            decreases script@.len() - i,
        {
            let outcome = classify(script[i].clone());
            let d = self.send_step(attempts, outcome);
            proof {
                assert(all.skip(i as int)[0] == all[i as int]);
                assert(all.skip(i as int).drop_first() =~= all.skip(i + 1));
            }
            match d {
                SendDecision::Delivered => {
                    return ScriptedSend::Delivered { calls: attempts };
                },
                SendDecision::Dropped(reason) => {
                    return ScriptedSend::Dropped { calls: attempts, reason };
                },
                SendDecision::GaveUp(n) => {
                    return ScriptedSend::GaveUp { calls: n };
                },
                SendDecision::RetryAfter(_) => {
                    i = i + 1;
                    attempts = attempts + 1;
                },
            }
        }
        proof {
            assert(all.skip(i as int) =~= Seq::<Result<(), SendError>>::empty());
        }
        ScriptedSend::Starved { calls: i }
    }
}

/// Helper for the delivery law: from any attempt number within the budget, a
/// run of temporary failures closed by a success delivers, with one call per
/// script entry.
proof fn lemma_send_run_delivers(outcomes: Seq<Result<(), SendError>>, retries: int, attempt: int)
    requires
        1 <= attempt,
        1 <= outcomes.len(),
        attempt + outcomes.len() - 1 <= retries + 1,
        forall|i: int|
            0 <= i < outcomes.len() - 1 ==> ((#[trigger] outcomes[i]) matches Err(SendError::Temporary(_))),
        outcomes.last() is Ok,
    ensures
        spec_send_run(outcomes, retries, attempt) == (SendSummary::Delivered {
            calls: attempt + outcomes.len() - 1,
        }),
    decreases outcomes.len(),
{
    if outcomes.len() == 1 {
        assert(outcomes[0] is Ok);
    } else {
        assert(outcomes[0] matches Err(SendError::Temporary(_)));
        assert(attempt <= retries);
        assert(outcomes.drop_first().last() == outcomes.last());
        lemma_send_run_delivers(outcomes.drop_first(), retries, attempt + 1);
    }
}

/// Delivery within the budget: for every script of at most `retries`
/// consecutive temporary failures followed by a success, `send` returns
/// success and makes exactly one HTTP call per script entry.
pub proof fn lemma_send_delivers_within_budget(
    outcomes: Seq<Result<(), SendError>>,
    retries: int,
)
    requires
        1 <= outcomes.len(),
        outcomes.len() <= retries + 1,
        forall|i: int|
            0 <= i < outcomes.len() - 1 ==> ((#[trigger] outcomes[i]) matches Err(SendError::Temporary(_))),
        outcomes.last() is Ok,
    ensures
        spec_send(outcomes, retries) == (SendSummary::Delivered { calls: outcomes.len() as int }),
{
    lemma_send_run_delivers(outcomes, retries, 1);
}

/// Permanent failures are not retried: whatever follows in the script, a
/// first permanent failure makes `send` drop the envelope and return success
/// after exactly one HTTP call.
pub proof fn lemma_send_drops_on_permanent(outcomes: Seq<Result<(), SendError>>, retries: int)
    requires
        1 <= outcomes.len(),
        outcomes[0] matches Err(SendError::Permanent(_)),
    ensures
        spec_send(outcomes, retries) == (SendSummary::Dropped { calls: 1 }),
{
}

/// Helper for the exhaustion law: with `retries + 1 - attempt` further
/// temporary failures ahead, the run gives up after attempt `retries + 1`.
proof fn lemma_send_run_gives_up(outcomes: Seq<Result<(), SendError>>, retries: int, attempt: int)
    requires
        0 <= retries,
        1 <= attempt <= retries + 1,
        retries + 2 - attempt <= outcomes.len(),
        forall|i: int|
            0 <= i < retries + 2 - attempt ==> ((#[trigger] outcomes[i]) matches Err(SendError::Temporary(_))),
    ensures
        spec_send_run(outcomes, retries, attempt) == (SendSummary::GaveUp { calls: retries + 1 }),
    decreases retries + 2 - attempt,
{
    assert(outcomes[0] matches Err(SendError::Temporary(_)));
    if attempt == retries + 1 {
    } else {
        assert(forall|i: int|
            0 <= i < retries + 2 - (attempt + 1) ==> ((#[trigger] outcomes.drop_first()[i]) matches Err(
                SendError::Temporary(_),
            )));
        lemma_send_run_gives_up(outcomes.drop_first(), retries, attempt + 1);
    }
}

/// Budget exhaustion: for every script that begins with `retries + 1` or
/// more consecutive temporary failures, `send` returns the fatal error after
/// exactly `retries + 1` attempts.
pub proof fn lemma_send_gives_up_past_budget(outcomes: Seq<Result<(), SendError>>, retries: int)
    requires
        0 <= retries,
        retries + 1 <= outcomes.len(),
        forall|i: int|
            0 <= i < retries + 1 ==> ((#[trigger] outcomes[i]) matches Err(SendError::Temporary(_))),
    ensures
        spec_send(outcomes, retries) == (SendSummary::GaveUp { calls: retries + 1 }),
{
    lemma_send_run_gives_up(outcomes, retries, 1);
}

/// Idempotence against an always-accepting sink: any two runs whose scripts
/// open with a success each deliver after exactly one call; the sender holds
/// no mutable state, so nothing about it can change between the runs.
pub proof fn lemma_send_idempotent(
    first: Seq<Result<(), SendError>>,
    second: Seq<Result<(), SendError>>,
    retries: int,
)
    requires
        1 <= first.len(),
        1 <= second.len(),
        first[0] is Ok,
        second[0] is Ok,
    ensures
        spec_send(first, retries) == (SendSummary::Delivered { calls: 1 }),
        spec_send(second, retries) == (SendSummary::Delivered { calls: 1 }),
{
}

} // verus!
