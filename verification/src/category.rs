//! The closed set of offer categories and their two written forms.

use vstd::prelude::*;
use crate::text::same_text;

verus! {

/// What an offer is filed under.
#[derive(Clone, Copy, Debug, PartialEq, Eq, Hash, Structural)]
pub enum Category {
    Attractions,
    Food,
    TTC,
}

impl Category {
    /// The tag that stands for this category in request paths and reply bodies.
    pub open spec fn tag(self) -> Seq<char> {
        match self {
            Category::Attractions => "attractions"@,
            Category::Food => "food"@,
            Category::TTC => "ttc"@,
        }
    }

    /// The category that a tag stands for, if any.
    pub open spec fn of_tag(tag: Seq<char>) -> Option<Category> {
        if tag == "attractions"@ {
            Some(Category::Attractions)
        } else if tag == "food"@ {
            Some(Category::Food)
        } else if tag == "ttc"@ {
            Some(Category::TTC)
        } else {
            None
        }
    }

    /// The label of this category in the store's own enumeration.
    pub open spec fn label(self) -> Seq<char> {
        match self {
            Category::Attractions => "Attractions"@,
            Category::Food => "Food"@,
            Category::TTC => "TTC"@,
        }
    }

    /// The category that a label of the store's enumeration stands for, if any.
    pub open spec fn of_label(label: Seq<char>) -> Option<Category> {
        if label == "Attractions"@ {
            Some(Category::Attractions)
        } else if label == "Food"@ {
            Some(Category::Food)
        } else if label == "TTC"@ {
            Some(Category::TTC)
        } else {
            None
        }
    }

    /// Every category, in the order in which the service lists them.
    pub open spec fn every() -> Seq<Category> {
        seq![Category::Attractions, Category::Food, Category::TTC]
    }

    /// The tags of a sequence of categories, in the same order.
    pub open spec fn tags(categories: Seq<Category>) -> Seq<Seq<char>> {
        categories.map_values(|category: Category| category.tag())
    }

    /// All categories in listing order.
    pub fn all() -> (list: Vec<Category>)
        ensures
            list@ == Category::every(),
    {
        vec![Category::Attractions, Category::Food, Category::TTC]
    }

    /// Encodes the category as its wire tag.
    pub fn wire_tag(&self) -> (tag: &'static str)
        ensures
            tag@ == self.tag(),
    {
        match self {
            Category::Attractions => "attractions",
            Category::Food => "food",
            Category::TTC => "ttc",
        }
    }

    /// Decodes a wire tag; `None` for anything but the three known tags.
    pub fn from_wire_tag(tag: &str) -> (category: Option<Category>)
        ensures
            category == Category::of_tag(tag@),
    {
        if same_text(tag, "attractions") {
            Some(Category::Attractions)
        } else if same_text(tag, "food") {
            Some(Category::Food)
        } else if same_text(tag, "ttc") {
            Some(Category::TTC)
        } else {
            None
        }
    }

    /// The name of the thumbnail that pictures the category: its tag.
    pub fn thumbnail_key(&self) -> (key: &'static str)
        ensures
            key@ == self.tag(),
    {
        match self {
            Category::Attractions => "attractions",
            Category::Food => "food",
            Category::TTC => "ttc",
        }
    }

    /// The name of the store's enumeration of categories.
    pub fn store_type() -> (name: &'static str)
        ensures
            name@ == "Category"@,
    {
        "Category"
    }

    /// Encodes the category as a label of the store's enumeration.
    pub fn store_label(&self) -> (label: &'static str)
        ensures
            label@ == self.label(),
    {
        match self {
            Category::Attractions => "Attractions",
            Category::Food => "Food",
            Category::TTC => "TTC",
        }
    }

    /// Decodes a label of the store's enumeration; `None` for an unknown one.
    pub fn from_store_label(label: &str) -> (category: Option<Category>)
        ensures
            category == Category::of_label(label@),
    {
        if same_text(label, "Attractions") {
            Some(Category::Attractions)
        } else if same_text(label, "Food") {
            Some(Category::Food)
        } else if same_text(label, "TTC") {
            Some(Category::TTC)
        } else {
            None
        }
    }

    /// Decoding the tag of a category gives that category back, and a tag
    /// that decodes is the tag of the category it decodes to: tags and
    /// categories correspond one to one.
    pub proof fn tag_round_trip(category: Category, tag: Seq<char>)
        ensures
            Category::of_tag(category.tag()) == Some(category),
            Category::of_tag(tag) == Some(category) <==> tag == category.tag(),
    {
        reveal_strlit("attractions");
        reveal_strlit("food");
        reveal_strlit("ttc");
        assert("attractions"@.len() == 11 && "food"@.len() == 4 && "ttc"@.len() == 3);
    }

    /// Decoding the store label of a category gives that category back, and a
    /// label that decodes is the label of the category it decodes to.
    pub proof fn label_round_trip(category: Category, label: Seq<char>)
        ensures
            Category::of_label(category.label()) == Some(category),
            Category::of_label(label) == Some(category) <==> label == category.label(),
    {
        reveal_strlit("Attractions");
        reveal_strlit("Food");
        reveal_strlit("TTC");
        assert("Attractions"@.len() == 11 && "Food"@.len() == 4 && "TTC"@.len() == 3);
    }
}

} // verus!
