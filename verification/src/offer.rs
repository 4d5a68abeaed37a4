//! Offers, thumbnails and the catalog that a fresh store is seeded with.

use vstd::prelude::*;
use crate::category::Category;

verus! {

/// A redeemable reward.
#[derive(Debug, PartialEq, Eq)]
pub struct Offer {
    pub category: Category,
    /// Unique among the offers of a store.
    pub name: String,
    pub description: String,
    /// Cost in points.
    pub value: i64,
    /// How often the offer has been redeemed.
    pub sales: i64,
    /// Name of the thumbnail image shown with the offer.
    pub thumbnail: String,
}

/// An offer as a mathematical value.
pub struct OfferView {
    pub category: Category,
    pub name: Seq<char>,
    pub description: Seq<char>,
    pub value: int,
    pub sales: int,
    pub thumbnail: Seq<char>,
}

impl View for Offer {
    type V = OfferView;

    open spec fn view(&self) -> OfferView {
        OfferView {
            category: self.category,
            name: self.name@,
            description: self.description@,
            value: self.value as int,
            sales: self.sales as int,
            thumbnail: self.thumbnail@,
        }
    }
}

impl Clone for Offer {
    fn clone(&self) -> (copy: Self)
        ensures
            copy == *self,
    {
        Offer {
            category: self.category,
            name: self.name.clone(),
            description: self.description.clone(),
            value: self.value,
            sales: self.sales,
            thumbnail: self.thumbnail.clone(),
        }
    }
}

/// The views of a sequence of offers, in the same order.
pub open spec fn offer_views(offers: Seq<Offer>) -> Seq<OfferView> {
    offers.map_values(|offer: Offer| offer@)
}

/// A named image.
#[derive(Debug, PartialEq, Eq)]
pub struct Thumbnail {
    /// Unique among the thumbnails of a store.
    pub name: String,
    /// The raw JPEG bytes.
    pub image: Vec<u8>,
}

/// A thumbnail as a mathematical value.
pub struct ThumbnailView {
    pub name: Seq<char>,
    pub image: Seq<u8>,
}

impl View for Thumbnail {
    type V = ThumbnailView;

    open spec fn view(&self) -> ThumbnailView {
        ThumbnailView { name: self.name@, image: self.image@ }
    }
}

impl Clone for Thumbnail {
    fn clone(&self) -> (copy: Self)
        ensures
            copy@ == self@,
    {
        Thumbnail { name: self.name.clone(), image: self.image.clone() }
    }
}

/// The offers that every store starts with.
pub open spec fn starting_offers() -> Seq<OfferView> {
    seq![
        OfferView {
            category: Category::Food,
            name: "Starbucks"@,
            description: "covfefe"@,
            value: 100,
            sales: 0,
            thumbnail: "starbucks"@,
        },
        OfferView {
            category: Category::TTC,
            name: "TTC Pass"@,
            description: "vroom"@,
            value: 50,
            sales: 0,
            thumbnail: "pass"@,
        },
    ]
}

/// Builds the catalog of offers that every store starts with.
pub fn default_catalog() -> (catalog: Vec<Offer>)
    ensures
        offer_views(catalog@) == starting_offers(),
{
    let mut catalog: Vec<Offer> = Vec::new();
    catalog.push(
        Offer {
            category: Category::Food,
            name: "Starbucks".to_owned(),
            description: "covfefe".to_owned(),
            value: 100,
            sales: 0,
            thumbnail: "starbucks".to_owned(),
        },
    );
    catalog.push(
        Offer {
            category: Category::TTC,
            name: "TTC Pass".to_owned(),
            description: "vroom".to_owned(),
            value: 50,
            sales: 0,
            thumbnail: "pass".to_owned(),
        },
    );
    assert(offer_views(catalog@) =~= starting_offers());
    catalog
}

} // verus!
