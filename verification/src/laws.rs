//! What holds of the service as a whole, from request to reply, when the
//! store answers its statements faithfully.

use vstd::prelude::*;
use crate::category::Category;
use crate::handlers::{listing, offers_answer, offers_step, thumbnail_answer, StepView};
use crate::offer::OfferView;
use crate::response::{BodyView, ContentType, ResponseView, Status};
use crate::seed::{asset_of, category_steps, offer_steps, seed_steps, thumbnail_step, SeedStepView};
use crate::seeded::{all_readable, first_step_about_a_row_wins, seeded};
use crate::statement::{StatementView, POPULAR_LIMIT};
use crate::store::Store;

verus! {

/// The listing names the three categories by the tags `attractions`, `food`
/// and `ttc`, in this order. No store enters into it.
pub proof fn listing_names_the_three_tags()
    ensures
        listing().status == Status::Success,
        listing().content_type == Some(ContentType::Json),
        listing().body matches BodyView::Categories(categories) && Category::tags(categories)
            == seq!["attractions"@, "food"@, "ttc"@],
{
    assert(Category::tags(Category::every()) =~= seq!["attractions"@, "food"@, "ttc"@]);
}

/// A request for the offers of a known tag is answered with offers of that
/// category only: the segment decodes, the store is asked for its category,
/// and every offer in the reply carries the tag that was asked for.
pub proof fn offers_reply_holds_only_the_asked_category(
    store: Store,
    segment: Seq<char>,
    rows: Seq<OfferView>,
)
    requires
        Category::of_tag(segment) is Some,
        store.lists(Category::of_tag(segment).unwrap(), rows),
    ensures
        offers_step(segment) == StepView::Ask(
            StatementView::OffersByCategory { category: Category::of_tag(segment).unwrap() },
        ),
        offers_answer(Ok(rows)) == ResponseView::json(BodyView::Offers(rows)),
        forall|i: int| 0 <= i < rows.len() ==> (#[trigger] rows[i]).category.tag() == segment,
{
    let category = Category::of_tag(segment).unwrap();
    Category::tag_round_trip(category, segment);
    assert forall|i: int| 0 <= i < rows.len() implies (#[trigger] rows[i]).category.tag()
        == segment by {
        assert(store.holds(rows[i]) && rows[i].category == category);
    }
}

/// The popularity ranking never has more offers than its limit, and none of
/// them sold more than one before it.
pub proof fn popular_reply_is_short_and_sorted(store: Store, rows: Seq<OfferView>)
    requires
        store.ranks(rows),
    ensures
        offers_answer(Ok(rows)) == ResponseView::json(BodyView::Offers(rows)),
        rows.len() <= POPULAR_LIMIT,
        forall|i: int, j: int|
            0 <= i <= j < rows.len() ==> (#[trigger] rows[i]).sales >= (#[trigger] rows[j]).sales,
{
}

/// A segment that is none of the three tags is refused with a bare
/// not-found reply, and no statement goes to the store.
pub proof fn unknown_category_is_refused_unasked(segment: Seq<char>)
    requires
        segment != "attractions"@,
        segment != "food"@,
        segment != "ttc"@,
    ensures
        offers_step(segment) == StepView::Reply(ResponseView::bare(Status::NotFound)),
{
}

/// No request writes: every statement that a handler asks for is a query,
/// and a query leaves the store as it is.
pub proof fn handlers_only_read(store: Store, segment: Seq<char>, name: Seq<char>)
    ensures
        offers_step(segment) matches StepView::Ask(statement) ==> statement.reads() && store.after(
            statement,
        ) == store,
        StatementView::PopularOffers.reads() && store.after(StatementView::PopularOffers) == store,
        (StatementView::ThumbnailByName { name }).reads() && store.after(
            StatementView::ThumbnailByName { name },
        ) == store,
{
}

/// A thumbnail that the store does not have is answered with a bare
/// not-found reply; one that it has, with its bytes as a JPEG image.
pub proof fn thumbnail_reply_follows_the_store(store: Store, name: Seq<char>)
    ensures
        !store.thumbnails.dom().contains(name) ==> thumbnail_answer(Ok(store.image(name)))
            == ResponseView::bare(Status::NotFound),
        store.thumbnails.dom().contains(name) ==> thumbnail_answer(Ok(store.image(name)))
            == ResponseView::jpeg(store.thumbnails[name]),
{
}

/// Whether seeding with `catalog` stores a thumbnail called `name`: it is
/// the tag of a category or the thumbnail of an offer.
pub open spec fn seeds_thumbnail(catalog: Seq<OfferView>, name: Seq<char>) -> bool {
    ||| exists|category: Category| name == #[trigger] category.tag()
    ||| exists|i: int| 0 <= i < catalog.len() && name == (#[trigger] catalog[i]).thumbnail
}

/// After a seeding that could read every image, a thumbnail of the catalog
/// that the store lacked before is served with the bytes of its image file
/// `thumbnails/<name>.jpg`, as a JPEG image.
pub proof fn seeded_thumbnail_is_served(
    store: Store,
    catalog: Seq<OfferView>,
    assets: Map<Seq<char>, Seq<u8>>,
    name: Seq<char>,
)
    requires
        seeds_thumbnail(catalog, name),
        !store.thumbnails.dom().contains(name),
        all_readable(seed_steps(catalog), assets),
    ensures
        thumbnail_answer(Ok(seeded(store, seed_steps(catalog), assets).image(name)))
            == ResponseView::jpeg(assets[asset_of(name)]),
{
    let steps = seed_steps(catalog);
    let step = thumbnail_step(name);
    let some: int = if exists|category: Category| name == #[trigger] category.tag() {
        match choose|category: Category| name == #[trigger] category.tag() {
            Category::Attractions => 0,
            Category::Food => 1,
            Category::TTC => 2,
        }
    } else {
        3 + 2 * choose|i: int| 0 <= i < catalog.len() && name == (#[trigger] catalog[i]).thumbnail
    };
    assert(0 <= some < steps.len() && steps[some] == step) by {
        if some < 3 {
            assert(steps[some] == category_steps()[some]);
        } else {
            assert(steps[some] == offer_steps(catalog)[some - 3]);
        }
    }
    assert(steps[some].readable(assets));
    first_step_about_exists(steps, step, some);
    let at = first_step_about(steps, step);
    assert(steps[at] == step) by {
        if at >= 3 {
            assert(steps[at] == offer_steps(catalog)[at - 3]);
        } else {
            assert(steps[at] == category_steps()[at]);
        }
    }
    first_step_about_a_row_wins(store, steps, assets, at);
}

/// The index of the first of `steps` that is about the same row as `row`,
/// or the length of `steps` where none is.
spec fn first_step_about(steps: Seq<SeedStepView>, row: SeedStepView) -> int
    decreases steps.len(),
{
    if steps.len() == 0 {
        0
    } else if first_step_about(steps.drop_last(), row) < steps.len() - 1 {
        first_step_about(steps.drop_last(), row)
    } else if steps.last().same_row(row) {
        steps.len() - 1
    } else {
        steps.len() as int
    }
}

/// Where some step is about a row, the first such step exists, is about that
/// row, and no step before it is.
proof fn first_step_about_exists(steps: Seq<SeedStepView>, row: SeedStepView, at: int)
    requires
        0 <= at < steps.len(),
        steps[at].same_row(row),
    ensures
        0 <= first_step_about(steps, row) <= at,
        steps[first_step_about(steps, row)].same_row(row),
        forall|k: int|
            0 <= k < first_step_about(steps, row) ==> !(#[trigger] steps[k]).same_row(row),
    decreases steps.len(),
{
    first_step_about_is_first(steps, row);
    if at < steps.len() - 1 {
        assert(steps.drop_last()[at] == steps[at]);
        first_step_about_exists(steps.drop_last(), row, at);
        let first = first_step_about(steps, row);
        assert(steps.drop_last()[first] == steps[first]);
    } else {
        first_step_about_is_first(steps.drop_last(), row);
        let earlier = first_step_about(steps.drop_last(), row);
        if earlier < steps.len() - 1 {
            assert(steps.drop_last()[earlier] == steps[earlier]);
        }
    }
}

/// No step before the first step about a row is about that row, and the
/// first step about it, where there is one, is.
proof fn first_step_about_is_first(steps: Seq<SeedStepView>, row: SeedStepView)
    ensures
        0 <= first_step_about(steps, row) <= steps.len(),
        first_step_about(steps, row) < steps.len() ==> steps[first_step_about(
            steps,
            row,
        )].same_row(row),
        forall|k: int|
            0 <= k < first_step_about(steps, row) ==> !(#[trigger] steps[k]).same_row(row),
    decreases steps.len(),
{
    if steps.len() > 0 {
        first_step_about_is_first(steps.drop_last(), row);
        let earlier = first_step_about(steps.drop_last(), row);
        if earlier < steps.len() - 1 {
            assert(steps.drop_last()[earlier] == steps[earlier]);
        }
        assert forall|k: int| 0 <= k < first_step_about(steps, row) implies !(#[trigger] steps[k]).same_row(
            row,
        ) by {
            if k < steps.len() - 1 {
                assert(steps.drop_last()[k] == steps[k]);
            }
        }
    }
}

/// An offer that seeding inserts comes back as it was written: where the
/// store had no offer of its name and the catalog has none before it, every
/// faithful answer to the request for its category holds the offer with the
/// name, description, value, sales and thumbnail of the catalog.
pub proof fn seeded_offer_is_listed(
    store: Store,
    catalog: Seq<OfferView>,
    assets: Map<Seq<char>, Seq<u8>>,
    at: int,
    rows: Seq<OfferView>,
)
    requires
        0 <= at < catalog.len(),
        !store.offers.dom().contains(catalog[at].name),
        forall|i: int| 0 <= i < at ==> (#[trigger] catalog[i]).name != catalog[at].name,
        seeded(store, seed_steps(catalog), assets).lists(catalog[at].category, rows),
    ensures
        offers_step(catalog[at].category.tag()) == StepView::Ask(
            StatementView::OffersByCategory { category: catalog[at].category },
        ),
        offers_answer(Ok(rows)) == ResponseView::json(BodyView::Offers(rows)),
        rows.contains(catalog[at]),
{
    let steps = seed_steps(catalog);
    let offer = catalog[at];
    Category::tag_round_trip(offer.category, offer.category.tag());
    let k = 3 + 2 * at + 1;
    assert(steps[k] == offer_steps(catalog)[2 * at + 1]);
    assert(steps[k] == SeedStepView::Offer { offer });
    assert forall|j: int| 0 <= j < k implies !(#[trigger] steps[j]).same_row(steps[k]) by {
        if j >= 3 {
            assert(steps[j] == offer_steps(catalog)[j - 3]);
            if (j - 3) % 2 == 1 {
                assert(steps[j] == SeedStepView::Offer { offer: catalog[(j - 3) / 2] });
                assert((j - 3) / 2 < at);
            }
        } else {
            assert(steps[j] == category_steps()[j]);
        }
    }
    first_step_about_a_row_wins(store, steps, assets, k);
    let after = seeded(store, steps, assets);
    assert(after.holds(offer));
    assert(after.offers.dom().contains(offer.name) && after.offers[offer.name].category
        == offer.category);
}

} // verus!
