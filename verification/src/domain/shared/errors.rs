use vstd::prelude::*;

use super::notification::Notification;

verus! {

/// An entity did not pass validation; the notification says why.
#[derive(Debug, Clone)]
pub struct EntityValidationError {
    pub notification: Notification,
}

impl EntityValidationError {
    pub fn new(notification: Notification) -> (error: Self)
        ensures
            error.notification == notification,
    {
        EntityValidationError { notification }
    }

    /// The message `Entity Validation Error`.
    pub fn to_string(&self) -> (message: String)
        ensures
            message@ == "Entity Validation Error"@,
    {
        String::from_str("Entity Validation Error")
    }
}

/// No entity of a kind was found under an id.
#[derive(Debug, Clone)]
pub struct NotFoundError {
    pub id: String,
    pub entity_name: String,
}

/// The message of a [`NotFoundError`].
pub open spec fn not_found_message(id: Seq<char>, entity_name: Seq<char>) -> Seq<char> {
    entity_name + " Not Found using ID "@ + id
}

impl NotFoundError {
    pub fn new(id: &str, entity_name: &str) -> (error: Self)
        ensures
            error.id@ == id@,
            error.entity_name@ == entity_name@,
    {
        NotFoundError { id: String::from_str(id), entity_name: String::from_str(entity_name) }
    }

    /// `<entity> Not Found using ID <id>`.
    pub fn to_string(&self) -> (message: String)
        ensures
            message@ == not_found_message(self.id@, self.entity_name@),
    {
        let mut message = self.entity_name.clone();
        message.append(" Not Found using ID ");
        message.append(self.id.as_str());
        message
    }
}

/// An argument that was refused, with the reason.
#[derive(Debug, Clone)]
pub struct InvalidArgumentError(pub String);

impl InvalidArgumentError {
    /// `Invalid argument: <reason>`.
    pub fn to_string(&self) -> (message: String)
        ensures
            message@ == "Invalid argument: "@ + self.0@,
    {
        let mut message = String::from_str("Invalid argument: ");
        message.append(self.0.as_str());
        message
    }
}

/// A stored document could not be turned back into an entity.
#[derive(Debug, Clone)]
pub struct LoadEntityError {
    pub errors: Vec<String>,
}

impl LoadEntityError {
    /// The message `Load Entity Error`.
    pub fn to_string(&self) -> (message: String)
        ensures
            message@ == "Load Entity Error"@,
    {
        String::from_str("Load Entity Error")
    }
}

} // verus!

verus! {

/// An error that can say what went wrong.
pub trait ErrorMessage {
    /// The text of the error's message.
    spec fn message_text(&self) -> Seq<char>;

    fn message(&self) -> (message: String)
        ensures
            message@ == self.message_text(),
    ;
}

} // verus!
