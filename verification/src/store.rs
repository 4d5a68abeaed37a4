//! A model of the store: which rows it holds and what each statement means.
//!
//! The store itself is a database outside this crate. The model says what
//! the service relies on: that an insert adds a row only where no row of
//! that name exists, and which rows are a faithful answer to each query.

use vstd::prelude::*;
use crate::category::Category;
use crate::offer::{OfferView, ThumbnailView};
use crate::statement::{StatementView, POPULAR_LIMIT};

verus! {

/// The rows of a store, each table keyed by the name of its rows.
pub struct Store {
    pub thumbnails: Map<Seq<char>, Seq<u8>>,
    pub offers: Map<Seq<char>, OfferView>,
}

impl Store {
    /// The store without rows.
    pub open spec fn empty() -> Store {
        Store { thumbnails: Map::empty(), offers: Map::empty() }
    }

    /// Both tables are finite, and every offer is filed under its own name.
    pub open spec fn well_formed(self) -> bool {
        &&& self.thumbnails.dom().finite()
        &&& self.offers.dom().finite()
        &&& forall|name: Seq<char>| #[trigger]
            self.offers.dom().contains(name) ==> self.offers[name].name == name
    }

    /// Whether every offer has its picture: the thumbnail that it names is
    /// stored.
    pub open spec fn pictured(self) -> bool {
        forall|name: Seq<char>| #[trigger]
            self.offers.dom().contains(name) ==> self.thumbnails.dom().contains(
                self.offers[name].thumbnail,
            )
    }

    /// Whether the store holds exactly this offer under its name.
    pub open spec fn holds(self, offer: OfferView) -> bool {
        self.offers.dom().contains(offer.name) && self.offers[offer.name] == offer
    }

    /// The store after a conditional insert of a thumbnail: unchanged where
    /// a thumbnail of that name exists, else with the new row.
    pub open spec fn insert_thumbnail(self, thumbnail: ThumbnailView) -> Store {
        if self.thumbnails.dom().contains(thumbnail.name) {
            self
        } else {
            Store {
                thumbnails: self.thumbnails.insert(thumbnail.name, thumbnail.image),
                offers: self.offers,
            }
        }
    }

    /// The store after a conditional insert of an offer: unchanged where an
    /// offer of that name exists, else with the new row.
    pub open spec fn insert_offer(self, offer: OfferView) -> Store {
        if self.offers.dom().contains(offer.name) {
            self
        } else {
            Store { thumbnails: self.thumbnails, offers: self.offers.insert(offer.name, offer) }
        }
    }

    /// The store after a statement has run. Queries change nothing.
    pub open spec fn after(self, statement: StatementView) -> Store {
        match statement {
            StatementView::InsertThumbnail { thumbnail } => self.insert_thumbnail(thumbnail),
            StatementView::InsertOffer { offer } => self.insert_offer(offer),
            _ => self,
        }
    }

    /// Whether `rows` answers the query for the offers of `category`: every
    /// stored offer of that category once, no other row, in any order.
    pub open spec fn lists(self, category: Category, rows: Seq<OfferView>) -> bool {
        &&& forall|i: int|
            0 <= i < rows.len() ==> self.holds(#[trigger] rows[i]) && rows[i].category == category
        &&& forall|i: int, j: int|
            0 <= i < j < rows.len() ==> (#[trigger] rows[i]).name != (#[trigger] rows[j]).name
        &&& forall|name: Seq<char>| #[trigger]
            self.offers.dom().contains(name) && self.offers[name].category == category
                ==> rows.contains(self.offers[name])
    }

    /// Whether `rows` answers the query for the most popular offers: stored
    /// offers, each once, as many as the limit allows, by falling sales, and
    /// none left out that sold more than one that is in. Which of two offers
    /// with equal sales comes first, or makes it in, is open.
    pub open spec fn ranks(self, rows: Seq<OfferView>) -> bool {
        &&& rows.len() == if self.offers.dom().len() < POPULAR_LIMIT {
            self.offers.dom().len()
        } else {
            POPULAR_LIMIT as nat
        }
        &&& forall|i: int| 0 <= i < rows.len() ==> self.holds(#[trigger] rows[i])
        &&& forall|i: int, j: int|
            0 <= i < j < rows.len() ==> (#[trigger] rows[i]).name != (#[trigger] rows[j]).name
        &&& forall|i: int, j: int|
            0 <= i < j < rows.len() ==> (#[trigger] rows[i]).sales >= (#[trigger] rows[j]).sales
        &&& forall|name: Seq<char>, i: int|
            #![trigger self.offers[name], rows[i]]
            self.offers.dom().contains(name) && !rows.contains(self.offers[name]) && 0 <= i
                < rows.len() ==> self.offers[name].sales <= rows[i].sales
    }

    /// The answer to the query for a thumbnail's image: the stored image, or
    /// nothing where no thumbnail has that name.
    pub open spec fn image(self, name: Seq<char>) -> Option<Seq<u8>> {
        if self.thumbnails.dom().contains(name) {
            Some(self.thumbnails[name])
        } else {
            None
        }
    }

    /// The store without rows is well formed.
    pub proof fn empty_is_well_formed()
        ensures
            Store::empty().well_formed(),
    {
    }

    /// Running a statement keeps a well-formed store well formed.
    pub proof fn after_keeps_well_formed(self, statement: StatementView)
        requires
            self.well_formed(),
        ensures
            self.after(statement).well_formed(),
    {
    }

    /// An insert never touches a row that exists: every thumbnail and every
    /// offer that was stored before a statement is stored unchanged after it.
    pub proof fn after_keeps_rows(self, statement: StatementView)
        ensures
            forall|name: Seq<char>| #[trigger]
                self.thumbnails.dom().contains(name) ==> self.after(
                    statement,
                ).thumbnails.dom().contains(name) && self.after(statement).thumbnails[name]
                    == self.thumbnails[name],
            forall|name: Seq<char>| #[trigger]
                self.offers.dom().contains(name) ==> self.after(statement).offers.dom().contains(
                    name,
                ) && self.after(statement).offers[name] == self.offers[name],
    {
    }
}

} // verus!
