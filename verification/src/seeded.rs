//! What seeding does to a store.
//!
//! The steps of [`crate::seed`] are taken by the program around this crate.
//! Here they are run on the model of the store, and the results say what
//! every such run leaves behind.

use vstd::prelude::*;
use crate::offer::{OfferView, ThumbnailView};
use crate::seed::{category_steps, offer_steps, seed_steps, SeedStepView};
use crate::statement::StatementView;
use crate::store::Store;

verus! {

impl SeedStepView {
    /// Whether the step can be taken with the image files `assets`, a map
    /// from the paths that can be read to what they hold.
    pub open spec fn readable(self, assets: Map<Seq<char>, Seq<u8>>) -> bool {
        self matches SeedStepView::Thumbnail { asset, .. } ==> assets.dom().contains(asset)
    }

    /// The insert that the step runs, given the image files.
    pub open spec fn statement(self, assets: Map<Seq<char>, Seq<u8>>) -> StatementView {
        match self {
            SeedStepView::Thumbnail { name, asset } => StatementView::InsertThumbnail {
                thumbnail: ThumbnailView { name, image: assets[asset] },
            },
            SeedStepView::Offer { offer } => StatementView::InsertOffer { offer },
        }
    }

    /// Whether the store has a row of the name that the step is about, in
    /// the table that the step is about.
    pub open spec fn present(self, store: Store) -> bool {
        match self {
            SeedStepView::Thumbnail { name, .. } => store.thumbnails.dom().contains(name),
            SeedStepView::Offer { offer } => store.offers.dom().contains(offer.name),
        }
    }

    /// Whether the store holds just the row that the step would insert.
    pub open spec fn stored(self, store: Store, assets: Map<Seq<char>, Seq<u8>>) -> bool {
        match self {
            SeedStepView::Thumbnail { name, asset } => store.image(name) == Some(assets[asset]),
            SeedStepView::Offer { offer } => store.holds(offer),
        }
    }

    /// Whether the step stores the thumbnail `wanted`.
    pub open spec fn stores_thumbnail(self, wanted: Seq<char>) -> bool {
        self matches SeedStepView::Thumbnail { name, .. } && name == wanted
    }

    /// Whether two steps are about a row of the same name in the same table.
    pub open spec fn same_row(self, other: SeedStepView) -> bool {
        match (self, other) {
            (SeedStepView::Thumbnail { name: a, .. }, SeedStepView::Thumbnail { name: b, .. }) => a
                == b,
            (SeedStepView::Offer { offer: a }, SeedStepView::Offer { offer: b }) => a.name
                == b.name,
            _ => false,
        }
    }
}

/// Whether every image that `steps` needs can be read.
pub open spec fn all_readable(steps: Seq<SeedStepView>, assets: Map<Seq<char>, Seq<u8>>) -> bool {
    forall|k: int| 0 <= k < steps.len() ==> (#[trigger] steps[k]).readable(assets)
}

/// The store after `steps` were taken in order, every one with success.
pub open spec fn seeded(
    store: Store,
    steps: Seq<SeedStepView>,
    assets: Map<Seq<char>, Seq<u8>>,
) -> Store
    decreases steps.len(),
{
    if steps.len() == 0 {
        store
    } else {
        seeded(store, steps.drop_last(), assets).after(steps.last().statement(assets))
    }
}

/// Seeding keeps a well-formed store well formed.
pub proof fn seeded_is_well_formed(
    store: Store,
    steps: Seq<SeedStepView>,
    assets: Map<Seq<char>, Seq<u8>>,
)
    requires
        store.well_formed(),
    ensures
        seeded(store, steps, assets).well_formed(),
    decreases steps.len(),
{
    if steps.len() > 0 {
        seeded_is_well_formed(store, steps.drop_last(), assets);
        seeded(store, steps.drop_last(), assets).after_keeps_well_formed(
            steps.last().statement(assets),
        );
    }
}

/// Seeding never touches a row that exists: every thumbnail and every offer
/// of the store is there unchanged afterwards.
pub proof fn seeded_keeps_rows(
    store: Store,
    steps: Seq<SeedStepView>,
    assets: Map<Seq<char>, Seq<u8>>,
)
    ensures
        forall|name: Seq<char>| #[trigger]
            store.thumbnails.dom().contains(name) ==> seeded(store, steps, assets).image(name)
                == store.image(name),
        forall|name: Seq<char>| #[trigger]
            store.offers.dom().contains(name) ==> seeded(store, steps, assets).offers.dom().contains(
                name,
            ) && seeded(store, steps, assets).offers[name] == store.offers[name],
        forall|step: SeedStepView| #[trigger]
            step.present(store) ==> step.present(seeded(store, steps, assets)),
        forall|step: SeedStepView| #[trigger]
            step.stored(store, assets) ==> step.stored(seeded(store, steps, assets), assets),
    decreases steps.len(),
{
    if steps.len() > 0 {
        let before = seeded(store, steps.drop_last(), assets);
        seeded_keeps_rows(store, steps.drop_last(), assets);
        before.after_keeps_rows(steps.last().statement(assets));
        assert forall|step: SeedStepView| #[trigger] step.present(store) implies step.present(
            seeded(store, steps, assets),
        ) by {
            assert(step.present(before));
        }
        assert forall|step: SeedStepView| #[trigger] step.stored(store, assets) implies step.stored(
            seeded(store, steps, assets),
            assets,
        ) by {
            assert(step.stored(before, assets));
        }
    }
}

/// After seeding, every step finds a row of its name.
pub proof fn seeded_has_every_row(
    store: Store,
    steps: Seq<SeedStepView>,
    assets: Map<Seq<char>, Seq<u8>>,
)
    ensures
        forall|k: int|
            0 <= k < steps.len() ==> (#[trigger] steps[k]).present(seeded(store, steps, assets)),
    decreases steps.len(),
{
    if steps.len() > 0 {
        let before = seeded(store, steps.drop_last(), assets);
        seeded_has_every_row(store, steps.drop_last(), assets);
        before.after_keeps_rows(steps.last().statement(assets));
        assert forall|k: int| 0 <= k < steps.len() implies (#[trigger] steps[k]).present(
            seeded(store, steps, assets),
        ) by {
            if k < steps.len() - 1 {
                assert(steps.drop_last()[k] == steps[k]);
                assert(steps[k].present(before));
            }
        }
    }
}

/// Seeding a store that has a row for every step changes nothing.
pub proof fn seeding_adds_only_what_is_missing(
    store: Store,
    steps: Seq<SeedStepView>,
    assets: Map<Seq<char>, Seq<u8>>,
)
    requires
        forall|k: int| 0 <= k < steps.len() ==> (#[trigger] steps[k]).present(store),
    ensures
        seeded(store, steps, assets) == store,
    decreases steps.len(),
{
    if steps.len() > 0 {
        let earlier = steps.drop_last();
        assert forall|k: int| 0 <= k < earlier.len() implies (#[trigger] earlier[k]).present(
            store,
        ) by {
            assert(earlier[k] == steps[k]);
        }
        seeding_adds_only_what_is_missing(store, earlier, assets);
        assert(steps.last() == steps[steps.len() - 1]);
        assert(steps.last().present(store));
    }
}

/// Seeding is idempotent: a second run over the same steps leaves the store
/// as the first run left it, row for row, whatever the store held before
/// and whatever the image files hold by then.
pub proof fn seeding_twice_is_seeding_once(
    store: Store,
    steps: Seq<SeedStepView>,
    assets: Map<Seq<char>, Seq<u8>>,
    later_assets: Map<Seq<char>, Seq<u8>>,
)
    ensures
        seeded(seeded(store, steps, assets), steps, later_assets) == seeded(store, steps, assets),
{
    seeded_has_every_row(store, steps, assets);
    seeding_adds_only_what_is_missing(seeded(store, steps, assets), steps, later_assets);
}

/// Seeding in two stretches is seeding in one.
pub proof fn seeded_in_two_stretches(
    store: Store,
    first: Seq<SeedStepView>,
    second: Seq<SeedStepView>,
    assets: Map<Seq<char>, Seq<u8>>,
)
    ensures
        seeded(store, first + second, assets) == seeded(seeded(store, first, assets), second, assets),
    decreases second.len(),
{
    if second.len() == 0 {
        assert(first + second =~= first);
    } else {
        seeded_in_two_stretches(store, first, second.drop_last(), assets);
        assert((first + second).drop_last() =~= first + second.drop_last());
        assert((first + second).last() == second.last());
    }
}

/// A run that gave up after its first `done` steps is made good by a full
/// run: the store ends as if the first run had gone through.
pub proof fn rerun_completes_an_aborted_run(
    store: Store,
    steps: Seq<SeedStepView>,
    assets: Map<Seq<char>, Seq<u8>>,
    done: int,
)
    requires
        0 <= done <= steps.len(),
    ensures
        seeded(seeded(store, steps.take(done), assets), steps, assets) == seeded(
            store,
            steps,
            assets,
        ),
{
    let partly = seeded(store, steps.take(done), assets);
    assert(steps =~= steps.take(done) + steps.skip(done));
    seeded_in_two_stretches(partly, steps.take(done), steps.skip(done), assets);
    seeding_twice_is_seeding_once(store, steps.take(done), assets, assets);
    seeded_in_two_stretches(store, steps.take(done), steps.skip(done), assets);
}

/// A row that no step is about stays missing.
pub proof fn seeded_adds_no_other_row(
    store: Store,
    steps: Seq<SeedStepView>,
    assets: Map<Seq<char>, Seq<u8>>,
    row: SeedStepView,
)
    requires
        !row.present(store),
        forall|k: int| 0 <= k < steps.len() ==> !(#[trigger] steps[k]).same_row(row),
    ensures
        !row.present(seeded(store, steps, assets)),
    decreases steps.len(),
{
    if steps.len() > 0 {
        let earlier = steps.drop_last();
        assert forall|k: int| 0 <= k < earlier.len() implies !(#[trigger] earlier[k]).same_row(
            row,
        ) by {
            assert(earlier[k] == steps[k]);
        }
        seeded_adds_no_other_row(store, earlier, assets, row);
        assert(steps.last() == steps[steps.len() - 1]);
        assert(!steps.last().same_row(row));
    }
}

/// The first step about a missing row decides what is stored: after seeding
/// the store holds just the row that this step inserts.
pub proof fn first_step_about_a_row_wins(
    store: Store,
    steps: Seq<SeedStepView>,
    assets: Map<Seq<char>, Seq<u8>>,
    at: int,
)
    requires
        0 <= at < steps.len(),
        !steps[at].present(store),
        forall|k: int| 0 <= k < at ==> !(#[trigger] steps[k]).same_row(steps[at]),
    ensures
        steps[at].stored(seeded(store, steps, assets), assets),
{
    let upto = steps.take(at);
    let from = steps.skip(at + 1);
    assert(steps =~= (upto + seq![steps[at]]) + from);
    seeded_in_two_stretches(store, upto + seq![steps[at]], from, assets);
    let before = seeded(store, upto, assets);
    seeded_adds_no_other_row(store, upto, assets, steps[at]);
    let with_row = seeded(store, upto + seq![steps[at]], assets);
    assert((upto + seq![steps[at]]).drop_last() =~= upto);
    assert(with_row == before.after(steps[at].statement(assets)));
    assert(steps[at].stored(with_row, assets));
    seeded_keeps_rows(with_row, from, assets);
}

/// Whether every offer among `steps` comes after a step that stores the
/// thumbnail it names.
pub open spec fn thumbnails_come_first(steps: Seq<SeedStepView>) -> bool {
    forall|k: int|
        0 <= k < steps.len() && (#[trigger] steps[k]) is Offer ==> exists|j: int|
            0 <= j < k && (#[trigger] steps[j]).stores_thumbnail(steps[k]->offer.thumbnail)
}

/// The steps of seeding store the thumbnail of every offer before the offer.
pub proof fn seed_steps_put_thumbnails_first(catalog: Seq<OfferView>)
    ensures
        thumbnails_come_first(seed_steps(catalog)),
{
    let steps = seed_steps(catalog);
    assert forall|k: int| 0 <= k < steps.len() && (#[trigger] steps[k]) is Offer implies (
        exists|j: int|
            0 <= j < k && (#[trigger] steps[j]).stores_thumbnail(steps[k]->offer.thumbnail)
    ) by {
        if k < 3 {
            assert(steps[k] == category_steps()[k]);
        } else {
            assert(steps[k] == offer_steps(catalog)[k - 3]);
            assert(steps[k - 1] == offer_steps(catalog)[k - 4]);
            assert(steps[k - 1].stores_thumbnail(steps[k]->offer.thumbnail));
        }
    }
}

/// Seeding keeps every offer pictured: where every stored offer names a
/// stored thumbnail before, and the steps store each thumbnail before the
/// offer that names it, every stored offer names a stored thumbnail after.
pub proof fn seeded_keeps_offers_pictured(
    store: Store,
    steps: Seq<SeedStepView>,
    assets: Map<Seq<char>, Seq<u8>>,
)
    requires
        store.pictured(),
        thumbnails_come_first(steps),
    ensures
        seeded(store, steps, assets).pictured(),
    decreases steps.len(),
{
    if steps.len() > 0 {
        let earlier = steps.drop_last();
        let before = seeded(store, earlier, assets);
        assert(thumbnails_come_first(earlier)) by {
            assert forall|k: int|
                0 <= k < earlier.len() && (#[trigger] earlier[k]) is Offer implies (
                exists|j: int|
                    0 <= j < k && (#[trigger] earlier[j]).stores_thumbnail(
                        earlier[k]->offer.thumbnail,
                    )
            ) by {
                assert(steps[k] is Offer);
                let j = choose|j: int|
                    0 <= j < k && (#[trigger] steps[j]).stores_thumbnail(steps[k]->offer.thumbnail);
                assert(earlier[j] == steps[j]);
            }
        }
        seeded_keeps_offers_pictured(store, earlier, assets);
        let last = steps.len() - 1;
        if steps[last] is Offer {
            let j = choose|j: int|
                0 <= j < last && (#[trigger] steps[j]).stores_thumbnail(
                    steps[last]->offer.thumbnail,
                );
            seeded_has_every_row(store, earlier, assets);
            assert(earlier[j].present(before));
        }
        before.after_keeps_rows(steps.last().statement(assets));
    }
}

} // verus!
