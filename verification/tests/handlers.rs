use rewards_catalog::{
    default_catalog, listings, offers, offers_reply, popular, thumbnails, thumbnails_reply, Body,
    Category, ContentType, Response, Statement, Status, Step, StoreFailure,
};

#[test]
fn listings_returns_the_three_categories_in_order() {
    let reply = listings();
    assert_eq!(reply.status, Status::Success);
    assert_eq!(reply.content_type, Some(ContentType::Json));
    assert_eq!(
        reply.body,
        Body::Categories(vec![Category::Attractions, Category::Food, Category::TTC])
    );
    let tags: Vec<&str> = match &reply.body {
        Body::Categories(categories) => categories.iter().map(|c| c.wire_tag()).collect(),
        _ => panic!("the listing is a list of categories"),
    };
    assert_eq!(tags, vec!["attractions", "food", "ttc"]);
}

#[test]
fn listings_is_the_same_every_time() {
    assert_eq!(listings(), listings());
}

#[test]
fn offers_asks_for_the_decoded_category() {
    assert_eq!(
        offers("attractions"),
        Step::Ask(Statement::OffersByCategory { category: Category::Attractions })
    );
    assert_eq!(offers("food"), Step::Ask(Statement::OffersByCategory { category: Category::Food }));
    assert_eq!(offers("ttc"), Step::Ask(Statement::OffersByCategory { category: Category::TTC }));
}

#[test]
fn offers_refuses_a_bogus_category_without_asking() {
    let refusal =
        Step::Reply(Response { status: Status::NotFound, content_type: None, body: Body::Empty });
    assert_eq!(offers("bogus-category"), refusal);
    assert_eq!(offers("TTC"), refusal);
    assert_eq!(offers(""), refusal);
}

#[test]
fn offers_reply_carries_the_rows_as_they_came() {
    let rows = default_catalog();
    let reply = offers_reply(Ok(rows.clone()));
    assert_eq!(
        reply,
        Response {
            status: Status::Success,
            content_type: Some(ContentType::Json),
            body: Body::Offers(rows),
        }
    );
}

#[test]
fn offers_reply_with_no_rows_is_an_empty_list() {
    assert_eq!(
        offers_reply(Ok(vec![])),
        Response {
            status: Status::Success,
            content_type: Some(ContentType::Json),
            body: Body::Offers(vec![]),
        }
    );
}

#[test]
fn offers_reply_reports_a_store_failure() {
    assert_eq!(
        offers_reply(Err(StoreFailure)),
        Response { status: Status::ServerError, content_type: None, body: Body::Empty }
    );
}

#[test]
fn popular_asks_for_the_ranking() {
    assert_eq!(popular(), Statement::PopularOffers);
}

#[test]
fn thumbnails_asks_for_the_name_as_it_came() {
    assert_eq!(
        thumbnails("starbucks".to_string()),
        Statement::ThumbnailByName { name: "starbucks".to_string() }
    );
    assert_eq!(
        thumbnails("../etc/passwd".to_string()),
        Statement::ThumbnailByName { name: "../etc/passwd".to_string() }
    );
}

#[test]
fn thumbnails_reply_serves_the_image_as_jpeg() {
    assert_eq!(
        thumbnails_reply(Ok(Some(vec![0xff, 0xd8, 0xff, 0xe0]))),
        Response {
            status: Status::Success,
            content_type: Some(ContentType::Jpeg),
            body: Body::Image(vec![0xff, 0xd8, 0xff, 0xe0]),
        }
    );
}

#[test]
fn thumbnails_reply_for_an_unknown_name_is_an_empty_404() {
    let reply = thumbnails_reply(Ok(None));
    assert_eq!(reply.status.code(), 404);
    assert_eq!(reply.content_type, None);
    assert_eq!(reply.body, Body::Empty);
}

#[test]
fn thumbnails_reply_reports_a_store_failure() {
    assert_eq!(
        thumbnails_reply(Err(StoreFailure)),
        Response { status: Status::ServerError, content_type: None, body: Body::Empty }
    );
}

#[test]
fn bare_reply_has_no_content() {
    assert_eq!(
        Response::bare(Status::NotFound),
        Response { status: Status::NotFound, content_type: None, body: Body::Empty }
    );
}

#[test]
fn status_codes() {
    assert_eq!(Status::Success.code(), 200);
    assert_eq!(Status::NotFound.code(), 404);
    assert_eq!(Status::ServerError.code(), 500);
}

#[test]
fn media_types() {
    assert_eq!(ContentType::Json.mime(), "application/json");
    assert_eq!(ContentType::Jpeg.mime(), "image/jpeg");
}
