//! Seeding: the steps that bring a store up to a catalog.
//!
//! Every step is a conditional insert, so seeding adds what is missing and
//! leaves every stored row as it is. It can run at every start. What the
//! steps do to a store is the subject of [`crate::seeded`].

use vstd::prelude::*;
use vstd::string::StringExecFns;
use crate::category::Category;
use crate::offer::{offer_views, Offer, OfferView};

verus! {

/// One step of seeding.
#[derive(Debug, PartialEq, Eq)]
pub enum SeedStep {
    /// Read the image file `asset` and store it as the thumbnail `name`,
    /// unless a thumbnail of that name is stored.
    Thumbnail { name: String, asset: String },
    /// Store the offer, unless an offer of that name is stored.
    Offer { offer: Offer },
}

/// A step of seeding as a mathematical value.
pub enum SeedStepView {
    Thumbnail { name: Seq<char>, asset: Seq<char> },
    Offer { offer: OfferView },
}

impl View for SeedStep {
    type V = SeedStepView;

    open spec fn view(&self) -> SeedStepView {
        match self {
            SeedStep::Thumbnail { name, asset } => SeedStepView::Thumbnail {
                name: name@,
                asset: asset@,
            },
            SeedStep::Offer { offer } => SeedStepView::Offer { offer: offer@ },
        }
    }
}

/// The views of a sequence of steps, in the same order.
pub open spec fn step_views(steps: Seq<SeedStep>) -> Seq<SeedStepView> {
    steps.map_values(|step: SeedStep| step@)
}

/// Where the image of the thumbnail `name` lies: `thumbnails/<name>.jpg`.
pub open spec fn asset_of(name: Seq<char>) -> Seq<char> {
    "thumbnails/"@ + name + ".jpg"@
}

/// The step that stores the thumbnail `name` from its image file.
pub open spec fn thumbnail_step(name: Seq<char>) -> SeedStepView {
    SeedStepView::Thumbnail { name, asset: asset_of(name) }
}

/// The steps for the thumbnails of the categories, in listing order.
pub open spec fn category_steps() -> Seq<SeedStepView> {
    Category::every().map_values(|category: Category| thumbnail_step(category.tag()))
}

/// The steps for a catalog: for each offer in turn its thumbnail, then the
/// offer itself.
pub open spec fn offer_steps(catalog: Seq<OfferView>) -> Seq<SeedStepView> {
    Seq::new(
        2 * catalog.len(),
        |k: int|
            if k % 2 == 0 {
                thumbnail_step(catalog[k / 2].thumbnail)
            } else {
                SeedStepView::Offer { offer: catalog[k / 2] }
            },
    )
}

/// All steps of seeding with a catalog: the thumbnails of the categories,
/// then the offers with theirs.
pub open spec fn seed_steps(catalog: Seq<OfferView>) -> Seq<SeedStepView> {
    category_steps() + offer_steps(catalog)
}

/// The path of the image file of the thumbnail `name`.
pub fn asset_path(name: &str) -> (path: String)
    ensures
        path@ == asset_of(name@),
{
    "thumbnails/".to_owned().concat(name).concat(".jpg")
}

/// Lays out the seeding of a store with `catalog`: the steps to take, in
/// order. The caller reads each image, runs each insert, and gives up at the
/// first step that fails.
pub fn load_example_db(catalog: &Vec<Offer>) -> (plan: Vec<SeedStep>)
    ensures
        step_views(plan@) == seed_steps(offer_views(catalog@)),
{
    let mut plan: Vec<SeedStep> = Vec::new();
    let categories = Category::all();
    let mut c: usize = 0;
    while c < categories.len()
        invariant
            c <= categories@.len(),
            categories@ == Category::every(),
            plan@.len() == c,
            forall|k: int| 0 <= k < c ==> (#[trigger] plan@[k])@ == category_steps()[k],
        decreases categories@.len() - c,
    {
        let key = categories[c].thumbnail_key();
        plan.push(SeedStep::Thumbnail { name: key.to_owned(), asset: asset_path(key) });
        c += 1;
    }
    let ghost offers = offer_views(catalog@);
    let mut i: usize = 0;
    while i < catalog.len()
        invariant
            i <= catalog@.len(),
            offers == offer_views(catalog@),
            plan@.len() == 3 + 2 * i,
            forall|k: int| 0 <= k < 3 ==> (#[trigger] plan@[k])@ == category_steps()[k],
            forall|k: int|
                0 <= k < 2 * i ==> (#[trigger] plan@[3 + k])@ == offer_steps(offers)[k],
        decreases catalog@.len() - i,
    {
        let offer = &catalog[i];
        let ghost before = plan@;
        plan.push(
            SeedStep::Thumbnail {
                name: offer.thumbnail.clone(),
                asset: asset_path(offer.thumbnail.as_str()),
            },
        );
        plan.push(SeedStep::Offer { offer: offer.clone() });
        assert forall|k: int| 0 <= k < 2 * (i + 1) implies (#[trigger] plan@[3 + k])@
            == offer_steps(offers)[k] by {
            if k < 2 * i {
                assert(plan@[3 + k] == before[3 + k]);
            }
        }
        i += 1;
    }
    assert forall|k: int| 0 <= k < plan@.len() implies step_views(plan@)[k] == seed_steps(
        offers,
    )[k] by {
        if k >= 3 {
            assert(plan@[3 + (k - 3)]@ == offer_steps(offers)[k - 3]);
        }
    }
    assert(step_views(plan@) =~= seed_steps(offers));
    plan
}

} // verus!
