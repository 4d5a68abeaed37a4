//! The four endpoints: what each asks of the store, and what it replies.
//!
//! A handler never talks to the store. It says which statement to run, and
//! turns what came back into a reply.

use vstd::prelude::*;
use crate::category::Category;
use crate::offer::{offer_views, Offer, OfferView};
use crate::response::{Body, BodyView, ContentType, Response, ResponseView, Status};
use crate::statement::{Statement, StatementView};

verus! {

/// The store could not run a statement.
#[derive(Clone, Copy, Debug, PartialEq, Eq, Structural)]
pub struct StoreFailure;

/// What a handler does with a request before any answer of the store.
#[derive(Debug, PartialEq, Eq)]
pub enum Step {
    /// Run this statement and hand the answer to the handler's second half.
    Ask(Statement),
    /// Send this reply; the store is not asked.
    Reply(Response),
}

/// A step as a mathematical value.
pub enum StepView {
    Ask(StatementView),
    Reply(ResponseView),
}

impl View for Step {
    type V = StepView;

    open spec fn view(&self) -> StepView {
        match self {
            Step::Ask(statement) => StepView::Ask(statement@),
            Step::Reply(reply) => StepView::Reply(reply@),
        }
    }
}

/// The reply to `GET /listings`: all categories, as JSON.
pub open spec fn listing() -> ResponseView {
    ResponseView::json(BodyView::Categories(Category::every()))
}

/// The first step of `GET /offers/{category}`: the query for the category
/// that the path segment names, or a refusal where it names none.
pub open spec fn offers_step(segment: Seq<char>) -> StepView {
    match Category::of_tag(segment) {
        Some(category) => StepView::Ask(StatementView::OffersByCategory { category }),
        None => StepView::Reply(ResponseView::bare(Status::NotFound)),
    }
}

/// The reply that carries the offers the store returned, in the order in
/// which it returned them, or reports its failure.
pub open spec fn offers_answer(rows: Result<Seq<OfferView>, StoreFailure>) -> ResponseView {
    match rows {
        Ok(rows) => ResponseView::json(BodyView::Offers(rows)),
        Err(_) => ResponseView::bare(Status::ServerError),
    }
}

/// The reply that carries the image the store returned, says that there is
/// none of that name, or reports the store's failure.
pub open spec fn thumbnail_answer(image: Result<Option<Seq<u8>>, StoreFailure>) -> ResponseView {
    match image {
        Ok(Some(bytes)) => ResponseView::jpeg(bytes),
        Ok(None) => ResponseView::bare(Status::NotFound),
        Err(_) => ResponseView::bare(Status::ServerError),
    }
}

/// `GET /listings`: the three categories in their fixed order, whatever the
/// store holds.
pub fn listings() -> (reply: Response)
    ensures
        reply@ == listing(),
        reply@.body matches BodyView::Categories(categories) && Category::tags(categories)
            == seq!["attractions"@, "food"@, "ttc"@],
{
    assert(Category::tags(Category::every()) =~= seq!["attractions"@, "food"@, "ttc"@]);
    Response {
        status: Status::Success,
        content_type: Some(ContentType::Json),
        body: Body::Categories(Category::all()),
    }
}

/// `GET /offers/{category}`, first half: decodes the path segment. A known
/// tag asks the store for the offers of its category; any other segment is
/// refused at once, and the store is not asked.
pub fn offers(category: &str) -> (step: Step)
    ensures
        step@ == offers_step(category@),
{
    match Category::from_wire_tag(category) {
        Some(category) => Step::Ask(Statement::OffersByCategory { category }),
        None => Step::Reply(Response::bare(Status::NotFound)),
    }
}

/// `GET /offers/{category}` and `GET /popular`, second half: the reply for
/// what the store answered.
pub fn offers_reply(rows: Result<Vec<Offer>, StoreFailure>) -> (reply: Response)
    ensures
        reply@ == offers_answer(
            match rows {
                Ok(rows) => Ok(offer_views(rows@)),
                Err(failure) => Err(failure),
            },
        ),
{
    match rows {
        Ok(rows) => Response {
            status: Status::Success,
            content_type: Some(ContentType::Json),
            body: Body::Offers(rows),
        },
        Err(_) => Response::bare(Status::ServerError),
    }
}

/// `GET /popular`, first half: the query for the best-selling offers.
pub fn popular() -> (statement: Statement)
    ensures
        statement@ == StatementView::PopularOffers,
{
    Statement::PopularOffers
}

/// `GET /thumbnails/{name}`, first half: the query for the image of that
/// name. The name goes to the store as an argument, as it came.
pub fn thumbnails(name: String) -> (statement: Statement)
    ensures
        statement@ == (StatementView::ThumbnailByName { name: name@ }),
{
    Statement::ThumbnailByName { name }
}

/// `GET /thumbnails/{name}`, second half: the reply for what the store
/// answered.
pub fn thumbnails_reply(image: Result<Option<Vec<u8>>, StoreFailure>) -> (reply: Response)
    ensures
        reply@ == thumbnail_answer(
            match image {
                Ok(Some(bytes)) => Ok(Some(bytes@)),
                Ok(None) => Ok(None),
                Err(failure) => Err(failure),
            },
        ),
{
    match image {
        Ok(Some(bytes)) => Response {
            status: Status::Success,
            content_type: Some(ContentType::Jpeg),
            body: Body::Image(bytes),
        },
        Ok(None) => Response::bare(Status::NotFound),
        Err(_) => Response::bare(Status::ServerError),
    }
}

} // verus!
