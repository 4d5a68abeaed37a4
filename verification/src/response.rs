//! Replies of the service, as plain values for the transport to send.

use vstd::prelude::*;
use crate::category::Category;
use crate::offer::{offer_views, Offer, OfferView};

verus! {

/// The outcome class of a reply.
#[derive(Clone, Copy, Debug, PartialEq, Eq, Structural)]
pub enum Status {
    /// The request was answered.
    Success,
    /// The request names nothing the service knows.
    NotFound,
    /// The store failed.
    ServerError,
}

impl Status {
    /// The HTTP status code as a number.
    pub open spec fn number(self) -> int {
        match self {
            Status::Success => 200,
            Status::NotFound => 404,
            Status::ServerError => 500,
        }
    }

    /// The HTTP status code.
    pub fn code(&self) -> (code: u16)
        ensures
            code == self.number(),
    {
        match self {
            Status::Success => 200,
            Status::NotFound => 404,
            Status::ServerError => 500,
        }
    }
}

/// What kind of content a body is.
#[derive(Clone, Copy, Debug, PartialEq, Eq, Structural)]
pub enum ContentType {
    Json,
    Jpeg,
}

impl ContentType {
    /// The media type as text.
    pub open spec fn media_type(self) -> Seq<char> {
        match self {
            ContentType::Json => "application/json"@,
            ContentType::Jpeg => "image/jpeg"@,
        }
    }

    /// The value of the `Content-Type` header.
    pub fn mime(&self) -> (mime: &'static str)
        ensures
            mime@ == self.media_type(),
    {
        match self {
            ContentType::Json => "application/json",
            ContentType::Jpeg => "image/jpeg",
        }
    }
}

/// The content of a reply.
#[derive(Debug, PartialEq, Eq)]
pub enum Body {
    /// No bytes at all.
    Empty,
    /// A JSON array of category tags.
    Categories(Vec<Category>),
    /// A JSON array of offer objects.
    Offers(Vec<Offer>),
    /// The bytes of an image.
    Image(Vec<u8>),
}

/// A body as a mathematical value.
pub enum BodyView {
    Empty,
    Categories(Seq<Category>),
    Offers(Seq<OfferView>),
    Image(Seq<u8>),
}

impl View for Body {
    type V = BodyView;

    open spec fn view(&self) -> BodyView {
        match self {
            Body::Empty => BodyView::Empty,
            Body::Categories(categories) => BodyView::Categories(categories@),
            Body::Offers(offers) => BodyView::Offers(offer_views(offers@)),
            Body::Image(bytes) => BodyView::Image(bytes@),
        }
    }
}

/// A reply: status, kind of content, content.
#[derive(Debug, PartialEq, Eq)]
pub struct Response {
    pub status: Status,
    pub content_type: Option<ContentType>,
    pub body: Body,
}

/// A reply as a mathematical value.
pub struct ResponseView {
    pub status: Status,
    pub content_type: Option<ContentType>,
    pub body: BodyView,
}

impl View for Response {
    type V = ResponseView;

    open spec fn view(&self) -> ResponseView {
        ResponseView { status: self.status, content_type: self.content_type, body: self.body@ }
    }
}

impl ResponseView {
    /// The reply without content: the given status, no content type, no body.
    pub open spec fn bare(status: Status) -> ResponseView {
        ResponseView { status, content_type: None, body: BodyView::Empty }
    }

    /// The reply that carries `body` as JSON.
    pub open spec fn json(body: BodyView) -> ResponseView {
        ResponseView { status: Status::Success, content_type: Some(ContentType::Json), body }
    }

    /// The reply that carries an image.
    pub open spec fn jpeg(image: Seq<u8>) -> ResponseView {
        ResponseView {
            status: Status::Success,
            content_type: Some(ContentType::Jpeg),
            body: BodyView::Image(image),
        }
    }
}

impl Response {
    /// A reply without content.
    pub fn bare(status: Status) -> (reply: Response)
        ensures
            reply@ == ResponseView::bare(status),
    {
        Response { status, content_type: None, body: Body::Empty }
    }
}

} // verus!
