//! The secondary indexes of the store, and the order in which they are
//! built.

use crate::error::ApiError;
use crate::query::Field;
use crate::store::{
    Collection, Index, IndexView, StoreAnswer, StoreAnswerView, StoreRequest, StoreRequestView,
};
use vstd::prelude::*;

verus! {

/// How far the building of the indexes has come: the number of collections
/// whose indexes are built.
#[derive(Debug, Clone, Copy, PartialEq, Eq, Structural)]
pub struct InitDb {
    pub built: u8,
}

impl View for InitDb {
    type V = InitDb;

    open spec fn view(&self) -> InitDb {
        *self
    }
}

/// What the building of the indexes does next.
#[derive(Debug, Clone, PartialEq, Eq)]
pub enum InitStep {
    /// It asks the store for `request` and waits in `state` for the answer.
    Ask { state: InitDb, request: StoreRequest },
    /// All indexes are built.
    Done,
    /// The store refused a request; the indexes of the collections that
    /// follow were not asked for.
    Failed(ApiError),
}

/// The view of [`InitStep`].
pub enum InitStepView {
    Ask { state: InitDb, request: StoreRequestView },
    Done,
    Failed(ApiError),
}

impl View for InitStep {
    type V = InitStepView;

    open spec fn view(&self) -> InitStepView {
        match self {
            InitStep::Ask { state, request } => InitStepView::Ask {
                state: *state,
                request: request@,
            },
            InitStep::Done => InitStepView::Done,
            InitStep::Failed(error) => InitStepView::Failed(*error),
        }
    }
}

/// The index on the one field `key`, which admits records with equal keys.
pub open spec fn index_on(key: Field) -> IndexView {
    IndexView { keys: seq![key], unique: false }
}

/// The request that builds several indexes, each on one field.
pub open spec fn indexes_on(collection: Collection, indexes: Seq<IndexView>) -> StoreRequestView {
    StoreRequestView::CreateIndexes { collection, indexes }
}

/// The request that builds the indexes of the collection at `position`:
/// users by their e-mail address, which is unique; services by category,
/// location and provider; products by category and seller; bookings by
/// customer and service; purchases by customer and product; reviews by their
/// target, which is the item's id with its tag, and by user.
pub open spec fn index_request(position: int) -> StoreRequestView {
    if position == 0 {
        StoreRequestView::CreateIndex {
            collection: Collection::Users,
            index: IndexView { keys: seq![Field::Email], unique: true },
        }
    } else if position == 1 {
        indexes_on(
            Collection::Services,
            seq![index_on(Field::Category), index_on(Field::Location), index_on(Field::ProviderId)],
        )
    } else if position == 2 {
        indexes_on(
            Collection::Products,
            seq![index_on(Field::Category), index_on(Field::SellerId)],
        )
    } else if position == 3 {
        indexes_on(
            Collection::Bookings,
            seq![index_on(Field::CustomerId), index_on(Field::ServiceId)],
        )
    } else if position == 4 {
        indexes_on(
            Collection::Purchases,
            seq![index_on(Field::CustomerId), index_on(Field::ProductId)],
        )
    } else {
        indexes_on(
            Collection::Reviews,
            seq![
                IndexView { keys: seq![Field::ItemId, Field::ItemType], unique: false },
                index_on(Field::UserId),
            ],
        )
    }
}

/// The step that follows when the indexes of `built` collections are built:
/// those of the next collection are asked for, until all six are done.
pub open spec fn indexing(built: int) -> InitStepView {
    if built < 6 {
        InitStepView::Ask { state: InitDb { built: built as u8 }, request: index_request(built) }
    } else {
        InitStepView::Done
    }
}

impl InitDb {
    /// The step that `answer` leads to: the next collection after a success,
    /// and the end at the first failure.
    pub open spec fn resume_spec(self, answer: StoreAnswerView) -> InitStepView {
        if answer is Indexed {
            indexing(self.built + 1)
        } else {
            InitStepView::Failed(ApiError::StorageError)
        }
    }
}

/// An index on `first` and, if present, on `second`.
fn make_index(first: Field, second: Option<Field>, unique: bool) -> (index: Index)
    ensures
        index@ == (IndexView {
            keys: match second {
                Some(s) => seq![first, s],
                None => seq![first],
            },
            unique,
        }),
{
    let mut keys: Vec<Field> = Vec::new();
    keys.push(first);
    if let Some(s) = second {
        keys.push(s);
    }
    assert(keys@ =~= match second {
        Some(s) => seq![first, s],
        None => seq![first],
    });
    Index { keys, unique }
}

/// The request that builds `first` and `second` and, if present, `third` on
/// `collection`.
fn make_request(
    collection: Collection,
    first: Index,
    second: Index,
    third: Option<Index>,
) -> (request: StoreRequest)
    ensures
        request@ == indexes_on(
            collection,
            match third {
                Some(t) => seq![first@, second@, t@],
                None => seq![first@, second@],
            },
        ),
{
    let mut indexes: Vec<Index> = Vec::new();
    indexes.push(first);
    indexes.push(second);
    if let Some(t) = third {
        indexes.push(t);
    }
    assert(indexes.deep_view() =~= match third {
        Some(t) => seq![first@, second@, t@],
        None => seq![first@, second@],
    });
    StoreRequest::CreateIndexes { collection, indexes }
}

/// The request that builds the indexes of the collection at `position`.
fn plan(position: u8) -> (request: StoreRequest)
    requires
        position < 6,
    ensures
        request@ == index_request(position as int),
{
    if position == 0 {
        StoreRequest::CreateIndex {
            collection: Collection::Users,
            index: make_index(Field::Email, None, true),
        }
    } else if position == 1 {
        make_request(
            Collection::Services,
            make_index(Field::Category, None, false),
            make_index(Field::Location, None, false),
            Some(make_index(Field::ProviderId, None, false)),
        )
    } else if position == 2 {
        make_request(
            Collection::Products,
            make_index(Field::Category, None, false),
            make_index(Field::SellerId, None, false),
            None,
        )
    } else if position == 3 {
        make_request(
            Collection::Bookings,
            make_index(Field::CustomerId, None, false),
            make_index(Field::ServiceId, None, false),
            None,
        )
    } else if position == 4 {
        make_request(
            Collection::Purchases,
            make_index(Field::CustomerId, None, false),
            make_index(Field::ProductId, None, false),
            None,
        )
    } else {
        make_request(
            Collection::Reviews,
            make_index(Field::ItemId, Some(Field::ItemType), false),
            make_index(Field::UserId, None, false),
            None,
        )
    }
}

/// The step that follows when the indexes of `built` collections are built.
fn advance(built: u8) -> (step: InitStep)
    requires
        built <= 6,
    ensures
        step@ == indexing(built as int),
{
    if built < 6 {
        InitStep::Ask { state: InitDb { built }, request: plan(built) }
    } else {
        InitStep::Done
    }
}

/// Starts the building of the indexes, collection by collection.
pub fn init_db() -> (step: InitStep)
    ensures
        step@ == indexing(0),
{
    advance(0)
}

impl InitDb {
    /// Goes on to the next collection, with the store's answer to the request
    /// for the indexes of this one.
    pub fn resume(self, answer: StoreAnswer) -> (step: InitStep)
        ensures
            step@ == self.resume_spec(answer@),
    {
        match answer {
            StoreAnswer::Indexed => {
                if self.built < 6 {
                    advance(self.built + 1)
                } else {
                    InitStep::Done
                }
            },
            _ => InitStep::Failed(ApiError::StorageError),
        }
    }
}

} // verus!
