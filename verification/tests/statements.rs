use rewards_catalog::{Category, Offer, Param, Statement, Thumbnail, POPULAR_LIMIT};

fn pass() -> Offer {
    Offer {
        category: Category::TTC,
        name: "TTC Pass".to_string(),
        description: "vroom".to_string(),
        value: 50,
        sales: 7,
        thumbnail: "pass".to_string(),
    }
}

#[test]
fn offers_by_category_statement() {
    let statement = Statement::OffersByCategory { category: Category::Food };
    assert_eq!(
        statement.sql(),
        "SELECT name, description, category, value, sales, thumbnail FROM offers WHERE category = $1"
    );
    assert_eq!(statement.params(), vec![Param::Category(Category::Food)]);
}

#[test]
fn popular_statement() {
    let statement = Statement::PopularOffers;
    assert_eq!(
        statement.sql(),
        "SELECT name, description, category, value, sales, thumbnail FROM offers ORDER BY sales DESC LIMIT 10"
    );
    assert_eq!(statement.params(), vec![]);
    assert_eq!(POPULAR_LIMIT, 10);
    assert!(statement.sql().ends_with(&format!("LIMIT {}", POPULAR_LIMIT)));
}

#[test]
fn thumbnail_statement() {
    let statement = Statement::ThumbnailByName { name: "starbucks".to_string() };
    assert_eq!(statement.sql(), "SELECT image FROM thumbnails WHERE name = $1");
    assert_eq!(statement.params(), vec![Param::Text("starbucks".to_string())]);
}

#[test]
fn insert_thumbnail_statement() {
    let statement = Statement::InsertThumbnail {
        thumbnail: Thumbnail { name: "pass".to_string(), image: vec![0xff, 0xd8, 0xff] },
    };
    assert_eq!(
        statement.sql(),
        "INSERT INTO thumbnails (name, image) SELECT $1, $2 WHERE NOT EXISTS (SELECT name FROM thumbnails WHERE name = $1)"
    );
    assert_eq!(
        statement.params(),
        vec![Param::Text("pass".to_string()), Param::Blob(vec![0xff, 0xd8, 0xff])]
    );
}

#[test]
fn insert_offer_statement() {
    let statement = Statement::InsertOffer { offer: pass() };
    assert_eq!(
        statement.sql(),
        "INSERT INTO offers (name, description, value, category, sales, thumbnail) SELECT $1, $2, $3, $4, $5, $6 WHERE NOT EXISTS (SELECT name FROM offers WHERE name = $1)"
    );
    assert_eq!(
        statement.params(),
        vec![
            Param::Text("TTC Pass".to_string()),
            Param::Text("vroom".to_string()),
            Param::Integer(50),
            Param::Category(Category::TTC),
            Param::Integer(7),
            Param::Text("pass".to_string()),
        ]
    );
}

#[test]
fn hostile_names_never_reach_the_text() {
    let plain = Statement::ThumbnailByName { name: "starbucks".to_string() };
    let hostile = Statement::ThumbnailByName { name: "x'; DROP TABLE offers; --".to_string() };
    assert_eq!(plain.sql(), hostile.sql());
    assert_eq!(hostile.params(), vec![Param::Text("x'; DROP TABLE offers; --".to_string())]);
}

#[test]
fn offer_clone_keeps_every_field() {
    let offer = pass();
    assert_eq!(offer.clone(), offer);
    let thumbnail = Thumbnail { name: "pass".to_string(), image: vec![1, 2, 3] };
    assert_eq!(thumbnail.clone(), thumbnail);
}
