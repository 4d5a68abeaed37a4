use rewards_catalog::text::same_text;
use rewards_catalog::Category;

#[test]
fn wire_tags_are_lower_case() {
    assert_eq!(Category::Attractions.wire_tag(), "attractions");
    assert_eq!(Category::Food.wire_tag(), "food");
    assert_eq!(Category::TTC.wire_tag(), "ttc");
}

#[test]
fn wire_tags_decode() {
    assert_eq!(Category::from_wire_tag("attractions"), Some(Category::Attractions));
    assert_eq!(Category::from_wire_tag("food"), Some(Category::Food));
    assert_eq!(Category::from_wire_tag("ttc"), Some(Category::TTC));
}

#[test]
fn unknown_wire_tags_do_not_decode() {
    assert_eq!(Category::from_wire_tag("bogus-category"), None);
    assert_eq!(Category::from_wire_tag(""), None);
    assert_eq!(Category::from_wire_tag("Food"), None);
    assert_eq!(Category::from_wire_tag("TTC"), None);
    assert_eq!(Category::from_wire_tag("tTC"), None);
    assert_eq!(Category::from_wire_tag("food "), None);
    assert_eq!(Category::from_wire_tag("foo"), None);
}

#[test]
fn wire_tag_round_trip_for_every_category() {
    for category in Category::all() {
        assert_eq!(Category::from_wire_tag(category.wire_tag()), Some(category));
    }
}

#[test]
fn store_labels_are_the_variant_names() {
    assert_eq!(Category::Attractions.store_label(), "Attractions");
    assert_eq!(Category::Food.store_label(), "Food");
    assert_eq!(Category::TTC.store_label(), "TTC");
    assert_eq!(Category::store_type(), "Category");
}

#[test]
fn store_labels_decode() {
    assert_eq!(Category::from_store_label("Attractions"), Some(Category::Attractions));
    assert_eq!(Category::from_store_label("Food"), Some(Category::Food));
    assert_eq!(Category::from_store_label("TTC"), Some(Category::TTC));
    assert_eq!(Category::from_store_label("ttc"), None);
    assert_eq!(Category::from_store_label("food"), None);
    assert_eq!(Category::from_store_label(""), None);
}

#[test]
fn store_label_round_trip_for_every_category() {
    for category in Category::all() {
        assert_eq!(Category::from_store_label(category.store_label()), Some(category));
    }
}

#[test]
fn tags_are_the_lower_cased_labels() {
    for category in Category::all() {
        assert_eq!(category.wire_tag(), category.store_label().to_lowercase());
        assert_ne!(category.wire_tag(), category.store_label());
    }
}

#[test]
fn all_lists_the_categories_in_fixed_order() {
    assert_eq!(Category::all(), vec![Category::Attractions, Category::Food, Category::TTC]);
}

#[test]
fn thumbnail_keys_are_the_tags() {
    assert_eq!(Category::Attractions.thumbnail_key(), "attractions");
    assert_eq!(Category::Food.thumbnail_key(), "food");
    assert_eq!(Category::TTC.thumbnail_key(), "ttc");
}

#[test]
fn same_text_compares_characters() {
    assert!(same_text("", ""));
    assert!(same_text("food", "food"));
    assert!(!same_text("food", "foo"));
    assert!(!same_text("foo", "food"));
    assert!(!same_text("food", "fooD"));
    assert!(same_text("caf\u{e9} \u{1f355}", "caf\u{e9} \u{1f355}"));
    assert!(!same_text("caf\u{e9}", "cafe"));
}
