use vstd::prelude::*;

use super::category_consumer::CategoryConsumerError;
use super::retry::ErrorKind;

verus! {

/// What went wrong while consuming a message.
#[derive(Debug)]
pub struct ConsumerError {
    inner: ConsumerErrorInner,
}

#[derive(Debug)]
enum ConsumerErrorInner {
    Deserialization { message: String },
    Handler { message: String },
    Tombstone { topic: String },
    MissingAfterField { topic: String, op: String },
    MissingBeforeField { topic: String, op: String },
}

/// The abstract value of a [`ConsumerError`].
pub enum ConsumerErrorView {
    Deserialization { message: Seq<char> },
    Handler { message: Seq<char> },
    Tombstone { topic: Seq<char> },
    MissingAfterField { topic: Seq<char>, op: Seq<char> },
    MissingBeforeField { topic: Seq<char>, op: Seq<char> },
}

impl View for ConsumerError {
    type V = ConsumerErrorView;

    closed spec fn view(&self) -> ConsumerErrorView {
        match &self.inner {
            ConsumerErrorInner::Deserialization { message } => ConsumerErrorView::Deserialization {
                message: message@,
            },
            ConsumerErrorInner::Handler { message } => ConsumerErrorView::Handler { message: message@ },
            ConsumerErrorInner::Tombstone { topic } => ConsumerErrorView::Tombstone { topic: topic@ },
            ConsumerErrorInner::MissingAfterField { topic, op } => ConsumerErrorView::MissingAfterField {
                topic: topic@,
                op: op@,
            },
            ConsumerErrorInner::MissingBeforeField { topic, op } => ConsumerErrorView::MissingBeforeField {
                topic: topic@,
                op: op@,
            },
        }
    }
}

/// The message of a consumer error.
pub open spec fn consumer_error_message(error: ConsumerErrorView) -> Seq<char> {
    match error {
        ConsumerErrorView::Deserialization { message } => "deserialization error: "@ + message,
        ConsumerErrorView::Handler { message } => "handler error: "@ + message,
        ConsumerErrorView::Tombstone { topic } => "tombstone message on topic "@ + topic + " (skipped)"@,
        ConsumerErrorView::MissingAfterField { topic, op } => "missing 'after' field for op="@ + op
            + " on topic "@ + topic,
        ConsumerErrorView::MissingBeforeField { topic, op } => "missing 'before' field for op="@ + op
            + " on topic "@ + topic,
    }
}

impl ConsumerError {
    /// A message that could not be read.
    pub fn deserialization(message: &str) -> (error: Self)
        ensures
            error@ == (ConsumerErrorView::Deserialization { message: message@ }),
    {
        ConsumerError { inner: ConsumerErrorInner::Deserialization { message: String::from_str(message) } }
    }

    /// A message whose handling failed.
    pub fn handler(message: &str) -> (error: Self)
        ensures
            error@ == (ConsumerErrorView::Handler { message: message@ }),
    {
        ConsumerError { inner: ConsumerErrorInner::Handler { message: String::from_str(message) } }
    }

    /// A message without a value on a topic.
    pub fn tombstone(topic: &str) -> (error: Self)
        ensures
            error@ == (ConsumerErrorView::Tombstone { topic: topic@ }),
    {
        ConsumerError { inner: ConsumerErrorInner::Tombstone { topic: String::from_str(topic) } }
    }

    /// An event of operation `op` without the row after it.
    pub fn missing_after(topic: &str, op: &str) -> (error: Self)
        ensures
            error@ == (ConsumerErrorView::MissingAfterField { topic: topic@, op: op@ }),
    {
        ConsumerError {
            inner: ConsumerErrorInner::MissingAfterField { topic: String::from_str(topic), op: String::from_str(op) },
        }
    }

    /// An event of operation `op` without the row before it.
    pub fn missing_before(topic: &str, op: &str) -> (error: Self)
        ensures
            error@ == (ConsumerErrorView::MissingBeforeField { topic: topic@, op: op@ }),
    {
        ConsumerError {
            inner: ConsumerErrorInner::MissingBeforeField { topic: String::from_str(topic), op: String::from_str(op) },
        }
    }

    pub fn is_tombstone(&self) -> (is: bool)
        ensures
            is == self@ is Tombstone,
    {
        match &self.inner {
            ConsumerErrorInner::Tombstone { .. } => true,
            _ => false,
        }
    }

    pub fn is_deserialization(&self) -> (is: bool)
        ensures
            is == self@ is Deserialization,
    {
        match &self.inner {
            ConsumerErrorInner::Deserialization { .. } => true,
            _ => false,
        }
    }

    pub fn is_handler(&self) -> (is: bool)
        ensures
            is == self@ is Handler,
    {
        match &self.inner {
            ConsumerErrorInner::Handler { .. } => true,
            _ => false,
        }
    }

    /// The error's message.
    pub fn to_string(&self) -> (message: String)
        ensures
            message@ == consumer_error_message(self@),
    {
        match &self.inner {
            ConsumerErrorInner::Deserialization { message } => {
                let mut text = String::from_str("deserialization error: ");
                text.append(message.as_str());
                text
            },
            ConsumerErrorInner::Handler { message } => {
                let mut text = String::from_str("handler error: ");
                text.append(message.as_str());
                text
            },
            ConsumerErrorInner::Tombstone { topic } => {
                let mut text = String::from_str("tombstone message on topic ");
                text.append(topic.as_str());
                text.append(" (skipped)");
                text
            },
            ConsumerErrorInner::MissingAfterField { topic, op } => {
                let mut text = String::from_str("missing 'after' field for op=");
                text.append(op.as_str());
                text.append(" on topic ");
                text.append(topic.as_str());
                text
            },
            ConsumerErrorInner::MissingBeforeField { topic, op } => {
                let mut text = String::from_str("missing 'before' field for op=");
                text.append(op.as_str());
                text.append(" on topic ");
                text.append(topic.as_str());
                text
            },
        }
    }
}

/// Whether a failure of the category consumer is worth retrying: bad data
/// never is; a failed use case (the index may be down) is.
pub open spec fn error_kind(error: CategoryConsumerError) -> ErrorKind {
    match error {
        CategoryConsumerError::UseCase(_) => ErrorKind::Retriable,
        _ => ErrorKind::NonRetriable,
    }
}

/// Classifies a failure of the category consumer.
pub fn classify_error(err: &CategoryConsumerError) -> (kind: ErrorKind)
    ensures
        kind == error_kind(*err),
{
    match err {
        CategoryConsumerError::Deserialization(_) => ErrorKind::NonRetriable,
        CategoryConsumerError::InvalidDate(_) => ErrorKind::NonRetriable,
        CategoryConsumerError::MissingField => ErrorKind::NonRetriable,
        CategoryConsumerError::UseCase(_) => ErrorKind::Retriable,
    }
}

} // verus!
