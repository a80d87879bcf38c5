//! Properties that hold across the operations of a progress bar and the
//! material built from it.
use vstd::prelude::*;
use crate::bar::{clamp_progress, BarState, PROGRESS_FULL};
use crate::color::{converts_to, linear_of, nan_in_rgb, SrgbColor};
use crate::material::{is_material_of, material_of, nan_free, total_weight, MaterialState};

verus! {

/// Whatever amount progress is set to or increased by, the stored progress
/// lies in `[0, PROGRESS_FULL]`, and an amount already in that range is kept
/// as it is.
pub proof fn lemma_progress_stays_in_range(amount: int)
    ensures
        0 <= clamp_progress(amount) <= PROGRESS_FULL,
        0 <= amount <= PROGRESS_FULL ==> clamp_progress(amount) == amount,
        amount <= 0 ==> clamp_progress(amount) == 0,
        amount >= PROGRESS_FULL ==> clamp_progress(amount) == PROGRESS_FULL,
{
}

/// Appending a section keeps every earlier section where and as it was, and
/// puts the new one last.
pub proof fn lemma_add_section_appends(
    sections: Seq<(u32, SrgbColor)>,
    amount: u32,
    color: SrgbColor,
)
    ensures
        sections.push((amount, color)).len() == sections.len() + 1,
        sections.push((amount, color)).take(sections.len() as int) == sections,
        sections.push((amount, color)).last() == (amount, color),
{
    assert(sections.push((amount, color)).take(sections.len() as int) =~= sections);
}

/// A bar whose sections were cleared is drawn with no section at all.
pub proof fn lemma_cleared_bar_draws_nothing(bar: BarState)
    requires
        bar.sections.len() == 0,
    ensures
        material_of(bar).sections_count == 0,
        material_of(bar).sections_color.len() == 0,
        material_of(bar).sections_start_percentage.len() == 0,
{
}

/// Where every weight is zero, and so where there are no sections at all,
/// the weights sum to zero.
pub proof fn lemma_zero_weights_sum_to_zero(sections: Seq<(u32, SrgbColor)>)
    requires
        forall|i: int| 0 <= i < sections.len() ==> #[trigger] sections[i].0 == 0,
    ensures
        total_weight(sections) == 0,
    decreases sections.len(),
{
    if sections.len() > 0 {
        let rest = sections.drop_last();
        assert forall|i: int| 0 <= i < rest.len() implies #[trigger] rest[i].0 == 0 by {
            assert(rest[i] == sections[i]);
        }
        lemma_zero_weights_sum_to_zero(rest);
        assert(sections[sections.len() - 1].0 == 0);
    }
}

/// A bar with no sections, or with only sections of weight zero, is drawn
/// with no section at all: both lists are empty and the count is zero.
pub proof fn lemma_zero_weight_draws_nothing(bar: BarState)
    requires
        forall|i: int| 0 <= i < bar.sections.len() ==> #[trigger] bar.sections[i].0 == 0,
    ensures
        material_of(bar).sections_count == 0,
        material_of(bar).sections_color.len() == 0,
        material_of(bar).sections_start_percentage.len() == 0,
{
    lemma_zero_weights_sum_to_zero(bar.sections);
}

/// The two lists of a material always have one entry per counted section,
/// and where any section has weight, the sections are drawn in their order
/// with their colors and weights.
pub proof fn lemma_material_lists_agree(bar: BarState)
    ensures
        material_of(bar).sections_color.len() == material_of(bar).sections_count,
        material_of(bar).sections_start_percentage.len() == material_of(bar).sections_count,
        total_weight(bar.sections) != 0 ==> material_of(bar).sections_count == bar.sections.len(),
        total_weight(bar.sections) != 0 ==> forall|i: int|
            0 <= i < bar.sections.len() ==> (
            #[trigger] material_of(bar).sections_start_percentage[i]).weight == bar.sections[i].0
                && material_of(bar).sections_start_percentage[i].total == total_weight(bar.sections) as u64
                && material_of(bar).sections_color[i] == linear_of(bar.sections[i].1),
{
}

/// For a bar without NaN channels, a material of the bar is exactly
/// `material_of(bar)`.
pub proof fn lemma_nan_free_material_is_exact(bar: BarState, m: MaterialState)
    requires
        nan_free(bar),
        is_material_of(bar, m),
    ensures
        m == material_of(bar),
{
    let spec_m = material_of(bar);
    assert forall|i: int| 0 <= i < m.sections_color.len() implies m.sections_color[i]
        == spec_m.sections_color[i] by {
        assert(converts_to(bar.sections[i].1, m.sections_color[i]));
        assert(!nan_in_rgb(bar.sections[i].1));
    }
    assert(m.sections_color =~= spec_m.sections_color);
}

/// Running `MaterialData::update` twice from a bar that has not changed
/// gives the same material both times: `first` and `second` are what the
/// two calls leave. Progress, count, shares and alphas always agree, and a
/// NaN channel is a NaN both times; for a bar without NaN channels the two
/// materials are identical, bit for bit.
pub proof fn lemma_update_is_idempotent(bar: BarState, first: MaterialState, second: MaterialState)
    requires
        is_material_of(bar, first),
        is_material_of(bar, second),
    ensures
        first.progress == second.progress,
        first.sections_count == second.sections_count,
        first.sections_start_percentage == second.sections_start_percentage,
        first.sections_color.len() == second.sections_color.len(),
        first.empty_color.alpha == second.empty_color.alpha,
        forall|i: int|
            0 <= i < first.sections_color.len() ==> (#[trigger] first.sections_color[i]).alpha
                == second.sections_color[i].alpha,
        nan_free(bar) ==> first == second,
{
    assert forall|i: int| 0 <= i < first.sections_color.len() implies (
    #[trigger] first.sections_color[i]).alpha == second.sections_color[i].alpha by {
        assert(converts_to(bar.sections[i].1, first.sections_color[i]));
        assert(converts_to(bar.sections[i].1, second.sections_color[i]));
    }
    if nan_free(bar) {
        lemma_nan_free_material_is_exact(bar, first);
        lemma_nan_free_material_is_exact(bar, second);
    }
}

} // verus!
