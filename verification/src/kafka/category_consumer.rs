use vstd::prelude::*;

use crate::application::category::delete_category::{
    category_deleted, delete_category_error_text, DeleteCategoryError, DeleteCategoryInput,
    DeleteCategoryUseCase,
};
use crate::application::category::save_category::{
    category_saved, save_category_error_text, SaveCategoryError, SaveCategoryInput, SaveCategoryOutput,
    SaveCategoryUseCase,
};
use crate::domain::category::category_repository::ICategoryRepository;
use crate::domain::shared::timestamp::Timestamp;

use super::cdc::{CdcOperation, CdcPayload};

verus! {

/// A category row as the category topic carries it: the activity as a
/// number, the creation time as RFC 3339 text.
#[derive(Debug, Clone)]
pub struct CategoryCdcData {
    pub category_id: String,
    pub name: String,
    pub description: Option<String>,
    pub is_active: u8,
    pub created_at: String,
}

/// Why a category event could not be applied.
#[derive(Debug, Clone, PartialEq, Eq)]
pub enum CategoryConsumerError {
    Deserialization(String),
    UseCase(String),
    InvalidDate(String),
    MissingField,
}

impl CategoryConsumerError {
    /// The error's message.
    pub fn to_string(&self) -> (message: String)
        ensures
            message@ == match self {
                CategoryConsumerError::Deserialization(m) => "deserialization error: "@ + m@,
                CategoryConsumerError::UseCase(m) => "use case error: "@ + m@,
                CategoryConsumerError::InvalidDate(m) => "invalid date: "@ + m@,
                CategoryConsumerError::MissingField => "missing payload field"@,
            },
    {
        match self {
            CategoryConsumerError::Deserialization(m) => {
                let mut text = String::from_str("deserialization error: ");
                text.append(m.as_str());
                text
            },
            CategoryConsumerError::UseCase(m) => {
                let mut text = String::from_str("use case error: ");
                text.append(m.as_str());
                text
            },
            CategoryConsumerError::InvalidDate(m) => {
                let mut text = String::from_str("invalid date: ");
                text.append(m.as_str());
                text
            },
            CategoryConsumerError::MissingField => String::from_str("missing payload field"),
        }
    }
}

/// What chrono's `DateTime::parse_from_rfc3339` makes of a text: the instant,
/// in microseconds since the Unix epoch, or the message of its error.
pub uninterp spec fn rfc3339_instant(text: Seq<char>) -> Result<i64, Seq<char>>;

/// Reads an RFC 3339 date and time with `chrono::DateTime::parse_from_rfc3339`
/// and gives the instant in microseconds since the epoch (UTC). The result is
/// named, not spelled out: the grammar is chrono's.
#[verifier::external_body]
fn parse_rfc3339(text: &str) -> (instant: Result<Timestamp, String>)
    ensures
        match rfc3339_instant(text@) {
            Ok(t) => instant == Ok::<i64, String>(t),
            Err(m) => instant matches Err(e) && e@ == m,
        },
{
    match chrono::DateTime::parse_from_rfc3339(text) {
        Ok(instant) => Ok(instant.with_timezone(&chrono::Utc).timestamp_micros()),
        Err(e) => Err(e.to_string()),
    }
}

/// The input that saves a category row created at `created_at`.
pub open spec fn consumed_input(data: CategoryCdcData, created_at: Timestamp) -> SaveCategoryInput {
    SaveCategoryInput {
        category_id: data.category_id,
        name: data.name,
        description: data.description,
        is_active: data.is_active != 0,
        created_at,
    }
}

/// Applies category events of the category topic to the catalog.
pub struct CategoryConsumer<SR: ICategoryRepository, DR: ICategoryRepository> {
    save_use_case: SaveCategoryUseCase<SR>,
    delete_use_case: DeleteCategoryUseCase<DR>,
}

impl<SR: ICategoryRepository, DR: ICategoryRepository> CategoryConsumer<SR, DR> {
    /// The repository rows are saved to.
    pub closed spec fn save_repository(&self) -> SR {
        self.save_use_case.repository()
    }

    /// The repository rows are deleted from.
    pub closed spec fn delete_repository(&self) -> DR {
        self.delete_use_case.repository()
    }

    pub fn new(save_repo: SR, delete_repo: DR) -> (consumer: Self)
        ensures
            consumer.save_repository() == save_repo,
            consumer.delete_repository() == delete_repo,
    {
        CategoryConsumer {
            save_use_case: SaveCategoryUseCase::new(save_repo),
            delete_use_case: DeleteCategoryUseCase::new(delete_repo),
        }
    }

    /// Applies a message given as it was read: none for a tombstone, else the
    /// event or the message of the error that kept it from being read. A
    /// tombstone and a snapshot read are skipped; creates and updates save the
    /// row after the change, its time read as RFC 3339; deletes soft-delete the
    /// row before it.
    pub fn handle(&mut self, value: Option<Result<CdcPayload<CategoryCdcData>, String>>) -> (result: Result<
        (),
        CategoryConsumerError,
    >)
        ensures
            ({
                let saves = old(self).save_repository();
                let deletes = old(self).delete_repository();
                let saves_after = final(self).save_repository();
                let deletes_after = final(self).delete_repository();
                let unchanged = saves_after == saves && deletes_after == deletes;
                match value {
                    None => result is Ok && unchanged,
                    Some(Err(m)) => result == Err::<(), CategoryConsumerError>(
                        CategoryConsumerError::Deserialization(m),
                    ) && unchanged,
                    Some(Ok(p)) => match p.op {
                        CdcOperation::Read => result is Ok && unchanged,
                        CdcOperation::Delete => match p.before {
                            None => result == Err::<(), CategoryConsumerError>(CategoryConsumerError::MissingField)
                                && unchanged,
                            Some(data) => {
                                &&& saves_after == saves
                                &&& exists|r: Result<(), DeleteCategoryError<DR::Error>>|
                                    #[trigger] category_deleted(
                                        deletes,
                                        deletes_after,
                                        DeleteCategoryInput { id: data.category_id },
                                        r,
                                    ) && (r is Ok <==> result is Ok) && (r is Err ==> result matches Err(
                                        CategoryConsumerError::UseCase(_),
                                    )) && (r matches Err(x) ==> (delete_category_error_text(x) matches Some(m) ==> result matches Err(CategoryConsumerError::UseCase(u)) && u@ == m))
                            },
                        },
                        _ => match p.after {
                            None => result == Err::<(), CategoryConsumerError>(CategoryConsumerError::MissingField)
                                && unchanged,
                            Some(data) => match rfc3339_instant(data.created_at@) {
                                Err(m) => result matches Err(CategoryConsumerError::InvalidDate(e)) && e@ == m
                                    && unchanged,
                                Ok(t) => {
                                    &&& deletes_after == deletes
                                    &&& exists|r: Result<SaveCategoryOutput, SaveCategoryError<SR::Error>>|
                                        #[trigger] category_saved(saves, saves_after, consumed_input(data, t), r)
                                            && (r is Ok <==> result is Ok) && (r is Err ==> result matches Err(
                                            CategoryConsumerError::UseCase(_),
                                        )) && (r matches Err(x) ==> (save_category_error_text(x) matches Some(m) ==> result matches Err(CategoryConsumerError::UseCase(u)) && u@ == m))
                                },
                            },
                        },
                    },
                }
            }),
    {
        let payload = match value {
            None => {
                return Ok(());
            },
            Some(Err(m)) => {
                return Err(CategoryConsumerError::Deserialization(m));
            },
            Some(Ok(p)) => p,
        };
        match payload.op {
            CdcOperation::Read => Ok(()),
            CdcOperation::Delete => {
                let data = match payload.before {
                    Some(data) => data,
                    None => {
                        return Err(CategoryConsumerError::MissingField);
                    },
                };
                let input = DeleteCategoryInput { id: data.category_id };
                let ghost spec_input = input;
                let outcome = self.delete_use_case.execute(input);
                assert(category_deleted(
                    old(self).delete_repository(),
                    self.delete_repository(),
                    spec_input,
                    outcome,
                ));
                match outcome {
                    Ok(()) => Ok(()),
                    Err(e) => {
                        let message = e.to_string();
                        assert(delete_category_error_text(e) matches Some(m) ==> message@ == m);
                        Err(CategoryConsumerError::UseCase(message))
                    },
                }
            },
            _ => {
                let data = match payload.after {
                    Some(data) => data,
                    None => {
                        return Err(CategoryConsumerError::MissingField);
                    },
                };
                let created_at = match parse_rfc3339(data.created_at.as_str()) {
                    Ok(t) => t,
                    Err(m) => {
                        return Err(CategoryConsumerError::InvalidDate(m));
                    },
                };
                let ghost spec_data = data;
                let input = SaveCategoryInput {
                    category_id: data.category_id,
                    name: data.name,
                    description: data.description,
                    is_active: data.is_active != 0,
                    created_at,
                };
                assert(input == consumed_input(spec_data, created_at));
                let ghost spec_input = input;
                let outcome = self.save_use_case.execute(input);
                assert(category_saved(
                    old(self).save_repository(),
                    self.save_repository(),
                    spec_input,
                    outcome,
                ));
                match outcome {
                    Ok(_) => Ok(()),
                    Err(e) => {
                        let message = e.to_string();
                        assert(save_category_error_text(e) matches Some(m) ==> message@ == m);
                        Err(CategoryConsumerError::UseCase(message))
                    },
                }
            },
        }
    }
}

} // verus!
