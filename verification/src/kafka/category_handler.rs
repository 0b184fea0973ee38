use vstd::prelude::*;

use crate::application::category::delete_category::{
    category_deleted, delete_category_error_text, DeleteCategoryInput, DeleteCategoryUseCase,
};
use crate::application::category::save_category::{
    category_saved, save_category_error_text, SaveCategoryInput, SaveCategoryUseCase,
};
use crate::domain::category::category_repository::ICategoryRepository;
use crate::domain::shared::errors::ErrorMessage;
use crate::domain::shared::timestamp::Timestamp;

use super::cdc::{operation_code, CdcOperation, CdcPayload};
use super::consumer::{ConsumerError, ConsumerErrorView};

verus! {

/// A boolean as MySQL sends it: a number, zero being false.
#[derive(Debug, Clone, Copy, PartialEq, Eq, Structural)]
pub struct MysqlBool(bool);

impl View for MysqlBool {
    type V = bool;

    closed spec fn view(&self) -> bool {
        self.0
    }
}

impl From<u8> for MysqlBool {
    /// Any number but zero is true.
    fn from(value: u8) -> (b: Self)
        ensures
            b@ == (value != 0),
    {
        MysqlBool(value != 0)
    }
}

impl vstd::std_specs::convert::FromSpecImpl<u8> for MysqlBool {
    open spec fn obeys_from_spec() -> bool {
        true
    }

    closed spec fn from_spec(v: u8) -> MysqlBool {
        MysqlBool(v != 0)
    }
}

impl MysqlBool {
    /// Any number but zero is true.
    pub fn from_number(value: u8) -> (b: Self)
        ensures
            b@ == (value != 0),
    {
        MysqlBool(value != 0)
    }

    pub fn as_bool(self) -> (b: bool)
        ensures
            b == self@,
    {
        self.0
    }
}

/// A category row as a change-data-capture event carries it.
#[derive(Debug, Clone)]
pub struct CategoryCdcData {
    pub category_id: String,
    pub name: String,
    pub description: Option<String>,
    pub is_active: MysqlBool,
    pub created_at: Timestamp,
}

/// The input that saves a category row.
pub open spec fn upsert_input(data: CategoryCdcData) -> SaveCategoryInput {
    SaveCategoryInput {
        category_id: data.category_id,
        name: data.name,
        description: data.description,
        is_active: data.is_active@,
        created_at: data.created_at,
    }
}

/// Applies change-data-capture events of categories: creates, updates and
/// reads save the row after the change, deletes soft-delete the row before it.
pub struct CategoryCdcHandler<R: ICategoryRepository> {
    save_use_case: SaveCategoryUseCase<R>,
    delete_use_case: DeleteCategoryUseCase<R>,
}

impl<R: ICategoryRepository + Clone> CategoryCdcHandler<R> {
    /// The repository rows are saved to.
    pub closed spec fn save_repository(&self) -> R {
        self.save_use_case.repository()
    }

    /// The repository rows are deleted from.
    pub closed spec fn delete_repository(&self) -> R {
        self.delete_use_case.repository()
    }

    /// Saves with the repository and deletes with a clone of it.
    pub fn new(repo: R) -> (handler: Self)
        ensures
            handler.save_repository() == repo,
            cloned::<R>(repo, handler.delete_repository()),
    {
        let copy = repo.clone();
        CategoryCdcHandler { save_use_case: SaveCategoryUseCase::new(repo), delete_use_case: DeleteCategoryUseCase::new(copy) }
    }

    /// Applies an event read from `topic`, given as it was read: the event, or
    /// the message of the error that kept it from being read.
    pub fn handle(&mut self, payload: Result<CdcPayload<CategoryCdcData>, String>, topic: &str) -> (result: Result<
        (),
        ConsumerError,
    >)
        ensures
            match payload {
                Err(m) => {
                    &&& result matches Err(e) && e@ == (ConsumerErrorView::Deserialization { message: m@ })
                    &&& final(self).save_repository() == old(self).save_repository()
                    &&& final(self).delete_repository() == old(self).delete_repository()
                },
                Ok(p) => match p.op {
                    CdcOperation::Delete => match p.before {
                        None => {
                            &&& result matches Err(e) && e@ == (ConsumerErrorView::MissingBeforeField {
                                topic: topic@,
                                op: operation_code(p.op),
                            })
                            &&& final(self).save_repository() == old(self).save_repository()
                            &&& final(self).delete_repository() == old(self).delete_repository()
                        },
                        Some(data) => {
                            &&& final(self).save_repository() == old(self).save_repository()
                            &&& exists|r: Result<(), crate::application::category::delete_category::DeleteCategoryError<R::Error>>|
                                #[trigger] category_deleted(
                                    old(self).delete_repository(),
                                    final(self).delete_repository(),
                                    DeleteCategoryInput { id: data.category_id },
                                    r,
                                ) && (r is Ok <==> result is Ok) && (r is Err ==> (result matches Err(e)
                                    && e@ is Handler)) && (r matches Err(x) ==> (delete_category_error_text(x) matches Some(m) ==> result matches Err(e) && e@ == (ConsumerErrorView::Handler { message: m })))
                        },
                    },
                    _ => match p.after {
                        None => {
                            &&& result matches Err(e) && e@ == (ConsumerErrorView::MissingAfterField {
                                topic: topic@,
                                op: operation_code(p.op),
                            })
                            &&& final(self).save_repository() == old(self).save_repository()
                            &&& final(self).delete_repository() == old(self).delete_repository()
                        },
                        Some(data) => {
                            &&& final(self).delete_repository() == old(self).delete_repository()
                            &&& exists|r: Result<
                                crate::application::category::save_category::SaveCategoryOutput,
                                crate::application::category::save_category::SaveCategoryError<R::Error>,
                            >|
                                #[trigger] category_saved(
                                    old(self).save_repository(),
                                    final(self).save_repository(),
                                    upsert_input(data),
                                    r,
                                ) && (r is Ok <==> result is Ok) && (r is Err ==> (result matches Err(e)
                                    && e@ is Handler)) && (r matches Err(x) ==> (save_category_error_text(x) matches Some(m) ==> result matches Err(e) && e@ == (ConsumerErrorView::Handler { message: m })))
                        },
                    },
                },
            },
    {
        let payload = match payload {
            Ok(p) => p,
            Err(m) => {
                return Err(ConsumerError::deserialization(m.as_str()));
            },
        };
        match payload.op {
            CdcOperation::Delete => {
                let data = match payload.before {
                    Some(data) => data,
                    None => {
                        let op = payload.op.to_string();
                        return Err(ConsumerError::missing_before(topic, op.as_str()));
                    },
                };
                let input = DeleteCategoryInput { id: data.category_id };
                let ghost spec_input = input;
                let outcome = self.delete_use_case.execute(input);
                assert(category_deleted(
                    old(self).delete_repository(),
                    self.delete_repository(),
                    spec_input,
                    outcome,
                ));
                let ghost reported = outcome;
                let result = match outcome {
                    Ok(()) => Ok(()),
                    Err(e) => {
                        let message = e.to_string();
                        let error = ConsumerError::handler(message.as_str());
                        assert(delete_category_error_text(e) matches Some(m) ==> error@ == (ConsumerErrorView::Handler { message: m }));
                        Err(error)
                    },
                };
                assert(reported matches Err(x) ==> (delete_category_error_text(x) matches Some(m) ==> result matches Err(e) && e@
                    == (ConsumerErrorView::Handler { message: m })));
                result
            },
            _ => {
                let data = match payload.after {
                    Some(data) => data,
                    None => {
                        let op = payload.op.to_string();
                        return Err(ConsumerError::missing_after(topic, op.as_str()));
                    },
                };
                let input = SaveCategoryInput {
                    category_id: data.category_id,
                    name: data.name,
                    description: data.description,
                    is_active: data.is_active.as_bool(),
                    created_at: data.created_at,
                };
                let ghost spec_input = input;
                let outcome = self.save_use_case.execute(input);
                assert(category_saved(
                    old(self).save_repository(),
                    self.save_repository(),
                    spec_input,
                    outcome,
                ));
                let ghost reported = outcome;
                let result = match outcome {
                    Ok(_) => Ok(()),
                    Err(e) => {
                        let message = e.to_string();
                        let error = ConsumerError::handler(message.as_str());
                        assert(save_category_error_text(e) matches Some(m) ==> error@ == (ConsumerErrorView::Handler { message: m }));
                        Err(error)
                    },
                };
                assert(reported matches Err(x) ==> (save_category_error_text(x) matches Some(m) ==> result matches Err(e) && e@
                    == (ConsumerErrorView::Handler { message: m })));
                result
            },
        }
    }
}

} // verus!

verus! {

/// Once the save that a create, update or read event asks succeeds, a read of
/// the row's id finds the category with the row's values: its name,
/// description and creation time, and active exactly when the row's flag is
/// (MySQL's number not being zero).
pub proof fn lemma_saved_row_found<R: ICategoryRepository>(
    before: R,
    after: R,
    data: CategoryCdcData,
    result: Result<
        crate::application::category::save_category::SaveCategoryOutput,
        crate::application::category::save_category::SaveCategoryError<R::Error>,
    >,
)
    requires
        category_saved(before, after, upsert_input(data), result),
        result is Ok,
    ensures
        crate::domain::shared::value_object::uuid_parse(data.category_id@) matches Some(v)
            && crate::domain::shared::query::first_selected::<crate::domain::category::aggregate::Category>(
            after.stored(),
            after.hides_deleted(),
            Some(v),
            None,
        ) matches Some(c) && c.category_id.0.id == v && c.name == data.name@ && c.description
            == crate::domain::shared::text::option_text(data.description) && c.is_active == data.is_active@
            && c.created_at == data.created_at,
{
    crate::application::category::save_category::lemma_category_found_after_save(
        before,
        after,
        upsert_input(data),
        result,
    );
}

} // verus!
