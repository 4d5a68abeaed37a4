//! The statements that the service sends to its store.
//!
//! Every statement is a fixed text with numbered placeholders. What a request
//! or a catalog entry contributes travels beside the text as arguments and is
//! never spliced into it.

use vstd::prelude::*;
use crate::category::Category;
use crate::offer::{Offer, OfferView, Thumbnail, ThumbnailView};

verus! {

/// How many offers the popularity ranking holds at most.
pub const POPULAR_LIMIT: usize = 10;

/// One argument of a statement.
#[derive(Debug, PartialEq, Eq)]
pub enum Param {
    Text(String),
    Integer(i64),
    Blob(Vec<u8>),
    Category(Category),
}

/// An argument as a mathematical value.
pub enum ParamView {
    Text(Seq<char>),
    Integer(int),
    Blob(Seq<u8>),
    Category(Category),
}

impl View for Param {
    type V = ParamView;

    open spec fn view(&self) -> ParamView {
        match self {
            Param::Text(text) => ParamView::Text(text@),
            Param::Integer(number) => ParamView::Integer(*number as int),
            Param::Blob(bytes) => ParamView::Blob(bytes@),
            Param::Category(category) => ParamView::Category(*category),
        }
    }
}

/// The views of a sequence of arguments, in the same order.
pub open spec fn param_views(params: Seq<Param>) -> Seq<ParamView> {
    params.map_values(|param: Param| param@)
}

/// A statement for the store, with what it is about.
#[derive(Debug, PartialEq, Eq)]
pub enum Statement {
    /// All offers of one category.
    OffersByCategory { category: Category },
    /// The offers with the most sales, best first, at most [`POPULAR_LIMIT`].
    PopularOffers,
    /// The image of the thumbnail with the given name.
    ThumbnailByName { name: String },
    /// Adds a thumbnail unless one of that name is stored.
    InsertThumbnail { thumbnail: Thumbnail },
    /// Adds an offer unless one of that name is stored.
    InsertOffer { offer: Offer },
}

/// A statement as a mathematical value.
pub enum StatementView {
    OffersByCategory { category: Category },
    PopularOffers,
    ThumbnailByName { name: Seq<char> },
    InsertThumbnail { thumbnail: ThumbnailView },
    InsertOffer { offer: OfferView },
}

impl View for Statement {
    type V = StatementView;

    open spec fn view(&self) -> StatementView {
        match self {
            Statement::OffersByCategory { category } => StatementView::OffersByCategory {
                category: *category,
            },
            Statement::PopularOffers => StatementView::PopularOffers,
            Statement::ThumbnailByName { name } => StatementView::ThumbnailByName { name: name@ },
            Statement::InsertThumbnail { thumbnail } => StatementView::InsertThumbnail {
                thumbnail: thumbnail@,
            },
            Statement::InsertOffer { offer } => StatementView::InsertOffer { offer: offer@ },
        }
    }
}

impl StatementView {
    /// The text of the statement. It depends on the kind of statement alone.
    pub open spec fn text(self) -> Seq<char> {
        match self {
            StatementView::OffersByCategory { .. } =>
                "SELECT name, description, category, value, sales, thumbnail FROM offers WHERE category = $1"@,
            StatementView::PopularOffers =>
                "SELECT name, description, category, value, sales, thumbnail FROM offers ORDER BY sales DESC LIMIT 10"@,
            StatementView::ThumbnailByName { .. } => "SELECT image FROM thumbnails WHERE name = $1"@,
            StatementView::InsertThumbnail { .. } =>
                "INSERT INTO thumbnails (name, image) SELECT $1, $2 WHERE NOT EXISTS (SELECT name FROM thumbnails WHERE name = $1)"@,
            StatementView::InsertOffer { .. } =>
                "INSERT INTO offers (name, description, value, category, sales, thumbnail) SELECT $1, $2, $3, $4, $5, $6 WHERE NOT EXISTS (SELECT name FROM offers WHERE name = $1)"@,
        }
    }

    /// The arguments of the statement, the first for `$1`, the second for
    /// `$2` and so on.
    pub open spec fn arguments(self) -> Seq<ParamView> {
        match self {
            StatementView::OffersByCategory { category } => seq![ParamView::Category(category)],
            StatementView::PopularOffers => seq![],
            StatementView::ThumbnailByName { name } => seq![ParamView::Text(name)],
            StatementView::InsertThumbnail { thumbnail } => seq![
                ParamView::Text(thumbnail.name),
                ParamView::Blob(thumbnail.image),
            ],
            StatementView::InsertOffer { offer } => seq![
                ParamView::Text(offer.name),
                ParamView::Text(offer.description),
                ParamView::Integer(offer.value),
                ParamView::Category(offer.category),
                ParamView::Integer(offer.sales),
                ParamView::Text(offer.thumbnail),
            ],
        }
    }

    /// Whether the statement only reads.
    pub open spec fn reads(self) -> bool {
        self is OffersByCategory || self is PopularOffers || self is ThumbnailByName
    }

    /// Whether two statements are of the same kind.
    pub open spec fn same_kind(self, other: StatementView) -> bool {
        ||| self is OffersByCategory && other is OffersByCategory
        ||| self is PopularOffers && other is PopularOffers
        ||| self is ThumbnailByName && other is ThumbnailByName
        ||| self is InsertThumbnail && other is InsertThumbnail
        ||| self is InsertOffer && other is InsertOffer
    }

    /// Statements of one kind have one text, whatever they are about: no
    /// argument ever becomes part of the text.
    pub proof fn text_is_fixed(self, other: StatementView)
        requires
            self.same_kind(other),
        ensures
            self.text() == other.text(),
    {
    }
}

impl Statement {
    /// The text to prepare, with `$1`, `$2`, ... for the arguments.
    pub fn sql(&self) -> (text: &'static str)
        ensures
            text@ == self@.text(),
    {
        match self {
            Statement::OffersByCategory { .. } =>
                "SELECT name, description, category, value, sales, thumbnail FROM offers WHERE category = $1",
            Statement::PopularOffers =>
                "SELECT name, description, category, value, sales, thumbnail FROM offers ORDER BY sales DESC LIMIT 10",
            Statement::ThumbnailByName { .. } => "SELECT image FROM thumbnails WHERE name = $1",
            Statement::InsertThumbnail { .. } =>
                "INSERT INTO thumbnails (name, image) SELECT $1, $2 WHERE NOT EXISTS (SELECT name FROM thumbnails WHERE name = $1)",
            Statement::InsertOffer { .. } =>
                "INSERT INTO offers (name, description, value, category, sales, thumbnail) SELECT $1, $2, $3, $4, $5, $6 WHERE NOT EXISTS (SELECT name FROM offers WHERE name = $1)",
        }
    }

    /// The arguments to bind, in the order of their placeholders.
    pub fn params(&self) -> (params: Vec<Param>)
        ensures
            param_views(params@) == self@.arguments(),
    {
        let mut params: Vec<Param> = Vec::new();
        match self {
            Statement::OffersByCategory { category } => {
                params.push(Param::Category(*category));
            },
            Statement::PopularOffers => {},
            Statement::ThumbnailByName { name } => {
                params.push(Param::Text(name.clone()));
            },
            Statement::InsertThumbnail { thumbnail } => {
                params.push(Param::Text(thumbnail.name.clone()));
                params.push(Param::Blob(thumbnail.image.clone()));
            },
            Statement::InsertOffer { offer } => {
                params.push(Param::Text(offer.name.clone()));
                params.push(Param::Text(offer.description.clone()));
                params.push(Param::Integer(offer.value));
                params.push(Param::Category(offer.category));
                params.push(Param::Integer(offer.sales));
                params.push(Param::Text(offer.thumbnail.clone()));
            },
        }
        assert(param_views(params@) =~= self@.arguments());
        params
    }
}

} // verus!
