use vstd::prelude::*;

verus! {

/// Whether a failure is retried or sent to the dead-letter topic at once.
#[derive(Debug, Clone, Copy, PartialEq, Eq, Structural)]
pub enum ErrorKind {
    /// Bad data or a refused request: retrying cannot help.
    NonRetriable,
    /// A passing failure of the infrastructure.
    Retriable,
}

/// The delays, in seconds, before each retry.
#[derive(Debug, Clone)]
pub struct RetryConfig {
    pub retry_delays: Vec<u64>,
}

impl Default for RetryConfig {
    /// Three retries, after 1, 3 and 9 seconds.
    fn default() -> (config: Self)
        ensures
            config.retry_delays@ == seq![1u64, 3u64, 9u64],
    {
        let config = RetryConfig { retry_delays: vec![1, 3, 9] };
        assert(config.retry_delays@ =~= seq![1u64, 3u64, 9u64]);
        config
    }
}

impl RetryConfig {
    /// How many retries are made at most: one per delay.
    pub fn max_retries(&self) -> (n: usize)
        ensures
            n == self.retry_delays@.len(),
    {
        self.retry_delays.len()
    }
}

/// The dead-letter topic of a topic: its name followed by `-dlq`.
pub fn dlq_topic(topic: &str) -> (dlq: String)
    ensures
        dlq@ == topic@ + "-dlq"@,
{
    let mut dlq = String::from_str(topic);
    dlq.append("-dlq");
    dlq
}

/// What to do after the handler ran.
#[derive(Debug, Clone, PartialEq, Eq)]
pub enum RetryAction {
    /// The message was handled.
    Done,
    /// Run the handler again after this many seconds.
    RetryAfter(u64),
    /// Give up: send the message to the dead-letter topic, keyed by this error message.
    SendToDlq(String),
}

/// The abstract value of a [`RetryAction`].
pub enum RetryActionView {
    Done,
    RetryAfter(u64),
    SendToDlq(Seq<char>),
}

impl View for RetryAction {
    type V = RetryActionView;

    open spec fn view(&self) -> RetryActionView {
        match self {
            RetryAction::Done => RetryActionView::Done,
            RetryAction::RetryAfter(d) => RetryActionView::RetryAfter(*d),
            RetryAction::SendToDlq(m) => RetryActionView::SendToDlq(m@),
        }
    }
}

/// What one run of the handler gave: success, or the kind and message of its error.
pub type HandlerOutcome = Result<(), (ErrorKind, String)>;

/// The action after a run of the handler, when `calls` runs came before it
/// and `first_error` is the message of the first of them that failed: success
/// is done; a failure that cannot be retried goes to the dead-letter topic with
/// its own message; one that can is retried after the next delay, and when no
/// delay is left the message goes to the dead-letter topic with the first
/// error's message.
pub open spec fn retry_action(
    delays: Seq<u64>,
    calls: nat,
    first_error: Option<Seq<char>>,
    outcome: Result<(), (ErrorKind, Seq<char>)>,
) -> RetryActionView {
    match outcome {
        Ok(()) => RetryActionView::Done,
        Err((ErrorKind::NonRetriable, m)) => RetryActionView::SendToDlq(m),
        Err((ErrorKind::Retriable, m)) => if calls < delays.len() {
            RetryActionView::RetryAfter(delays[calls as int])
        } else {
            RetryActionView::SendToDlq(
                match first_error {
                    Some(f) => f,
                    None => m,
                },
            )
        },
    }
}

/// The abstract value of an outcome.
pub open spec fn outcome_view(outcome: HandlerOutcome) -> Result<(), (ErrorKind, Seq<char>)> {
    match outcome {
        Ok(()) => Ok(()),
        Err((kind, m)) => Err((kind, m@)),
    }
}

/// The state of the retries of one message: how many runs of the handler
/// were reported, and the message of the first failure.
pub struct RetryState {
    calls: usize,
    first_error: Option<String>,
}

impl RetryState {
    /// The number of runs reported.
    pub closed spec fn calls(&self) -> nat {
        self.calls as nat
    }

    /// The message of the first failure reported, if any.
    pub closed spec fn first_error(&self) -> Option<Seq<char>> {
        match &self.first_error {
            Some(m) => Some(m@),
            None => None,
        }
    }

    /// No run reported yet.
    pub fn new() -> (state: Self)
        ensures
            state.calls() == 0,
            state.first_error() is None,
    {
        RetryState { calls: 0, first_error: None }
    }

    /// Reports a run of the handler and says what to do next.
    pub fn after_attempt(&mut self, config: &RetryConfig, outcome: HandlerOutcome) -> (action: RetryAction)
        requires
            old(self).calls() <= config.retry_delays@.len(),
            config.retry_delays@.len() < usize::MAX,
        ensures
            action@ == retry_action(
                config.retry_delays@,
                old(self).calls(),
                old(self).first_error(),
                outcome_view(outcome),
            ),
            final(self).calls() == old(self).calls() + 1,
            final(self).first_error() == match old(self).first_error() {
                Some(f) => Some(f),
                None => match outcome {
                    Err((_, m)) => Some(m@),
                    Ok(()) => None,
                },
            },
    {
        let calls = self.calls;
        self.calls = calls + 1;
        match outcome {
            Ok(()) => RetryAction::Done,
            Err((kind, message)) => {
                if self.first_error.is_none() {
                    self.first_error = Some(message.clone());
                }
                match kind {
                    ErrorKind::NonRetriable => RetryAction::SendToDlq(message),
                    ErrorKind::Retriable => {
                        if calls < config.retry_delays.len() {
                            RetryAction::RetryAfter(config.retry_delays[calls])
                        } else {
                            match &self.first_error {
                                Some(first) => RetryAction::SendToDlq(first.clone()),
                                None => RetryAction::SendToDlq(message),
                            }
                        }
                    },
                }
            },
        }
    }
}

/// Whether an action ends the handling of a message.
pub open spec fn is_final(action: RetryActionView) -> bool {
    !(action is RetryAfter)
}

/// Once every delay has been used, the next report ends the handling: the
/// handler runs at most once more than there are delays.
pub proof fn lemma_retries_end(
    delays: Seq<u64>,
    first_error: Option<Seq<char>>,
    outcome: Result<(), (ErrorKind, Seq<char>)>,
)
    ensures
        is_final(retry_action(delays, delays.len(), first_error, outcome)),
{
}

/// A failure that cannot be retried always goes to the dead-letter topic at
/// once, with its own message.
pub proof fn lemma_non_retriable_goes_to_dlq(
    delays: Seq<u64>,
    calls: nat,
    first_error: Option<Seq<char>>,
    message: Seq<char>,
)
    ensures
        retry_action(delays, calls, first_error, Err((ErrorKind::NonRetriable, message)))
            == RetryActionView::SendToDlq(message),
{
}

} // verus!
