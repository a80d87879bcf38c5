//! The data a progress bar's material is rebuilt from on each pass: the
//! empty color and progress, and per section a linear color and a share.
use vstd::prelude::*;
use crate::bar::{BarState, ProgressBar};
use crate::color::{converts_to, linear_of, nan_in_rgb, to_linear, LinearColor, SrgbColor};

verus! {

/// The sum of the weights of `sections`.
pub open spec fn total_weight(sections: Seq<(u32, SrgbColor)>) -> int
    decreases sections.len(),
{
    if sections.len() == 0 {
        0
    } else {
        total_weight(sections.drop_last()) + sections.last().0
    }
}

/// The share of a bar that one section takes: `weight / total`.
#[derive(Clone, Copy, Debug, PartialEq, Eq, Structural)]
pub struct SectionShare {
    pub weight: u32,
    pub total: u64,
}

/// What a material holds of a bar: the empty color in linear space, the
/// progress in steps, and two parallel lists with one entry per section.
#[derive(Clone, Debug, PartialEq, Eq)]
pub struct MaterialData {
    pub empty_color: LinearColor,
    pub progress: u32,
    pub sections_color: Vec<LinearColor>,
    pub sections_start_percentage: Vec<SectionShare>,
    pub sections_count: u32,
}

/// What a material holds, as values.
pub struct MaterialState {
    pub empty_color: LinearColor,
    pub progress: int,
    pub sections_color: Seq<LinearColor>,
    pub sections_start_percentage: Seq<SectionShare>,
    pub sections_count: int,
}

impl View for MaterialData {
    type V = MaterialState;

    open spec fn view(&self) -> MaterialState {
        MaterialState {
            empty_color: self.empty_color,
            progress: self.progress as int,
            sections_color: self.sections_color@,
            sections_start_percentage: self.sections_start_percentage@,
            sections_count: self.sections_count as int,
        }
    }
}

/// Whether no color of `bar` has a NaN channel.
pub open spec fn nan_free(bar: BarState) -> bool {
    &&& !nan_in_rgb(bar.empty_color)
    &&& forall|i: int| 0 <= i < bar.sections.len() ==> !nan_in_rgb(#[trigger] bar.sections[i].1)
}

/// Whether `m` is a material of a bar in state `bar`: as `material_of(bar)`,
/// but with each color only known as far as `converts_to` says. For a bar
/// without NaN channels that is `material_of(bar)` itself.
pub open spec fn is_material_of(bar: BarState, m: MaterialState) -> bool {
    let spec_m = material_of(bar);
    &&& converts_to(bar.empty_color, m.empty_color)
    &&& m.progress == spec_m.progress
    &&& m.sections_start_percentage == spec_m.sections_start_percentage
    &&& m.sections_count == spec_m.sections_count
    &&& m.sections_color.len() == spec_m.sections_color.len()
    &&& forall|i: int|
        0 <= i < m.sections_color.len() ==> converts_to(bar.sections[i].1, #[trigger] m.sections_color[i])
}

/// The material that a bar in state `bar` is drawn with, where its colors
/// have no NaN channel. Where the weights
/// sum to zero there is nothing to divide the bar by, and no section is
/// drawn.
pub open spec fn material_of(bar: BarState) -> MaterialState {
    let total = total_weight(bar.sections);
    MaterialState {
        empty_color: linear_of(bar.empty_color),
        progress: bar.progress,
        sections_color: if total == 0 {
            Seq::empty()
        } else {
            bar.sections.map_values(|s: (u32, SrgbColor)| linear_of(s.1))
        },
        sections_start_percentage: if total == 0 {
            Seq::empty()
        } else {
            bar.sections.map_values(|s: (u32, SrgbColor)| SectionShare { weight: s.0, total: total as u64 })
        },
        sections_count: if total == 0 {
            0
        } else {
            bar.sections.len() as int
        },
    }
}

proof fn lemma_total_weight_bound(sections: Seq<(u32, SrgbColor)>)
    ensures
        0 <= total_weight(sections) <= sections.len() * (u32::MAX as int),
    decreases sections.len(),
{
    if sections.len() > 0 {
        lemma_total_weight_bound(sections.drop_last());
    }
}

/// Sums the weights of `sections`.
fn sum_weights(sections: &Vec<(u32, SrgbColor)>) -> (r: u64)
    requires
        sections@.len() <= u32::MAX,
    ensures
        r == total_weight(sections@),
{
    let mut total: u64 = 0;
    let mut i: usize = 0;
    while i < sections.len()
        invariant
            i <= sections@.len() <= u32::MAX,
            total == total_weight(sections@.take(i as int)),
        decreases sections@.len() - i,
    {
        proof {
            assert(sections@.take(i + 1).drop_last() =~= sections@.take(i as int));
            lemma_total_weight_bound(sections@.take(i as int));
            assert(total + sections@[i as int].0 <= (i + 1) * (u32::MAX as int)) by (nonlinear_arith)
                requires
                    total <= i * (u32::MAX as int),
                    sections@[i as int].0 <= u32::MAX,
            ;
            assert((i + 1) * (u32::MAX as int) <= (u32::MAX as int) * (u32::MAX as int)) by (nonlinear_arith)
                requires
                    i + 1 <= u32::MAX,
            ;
        }
        total = total + sections[i].0 as u64;
        i = i + 1;
    }
    assert(sections@.take(i as int) =~= sections@);
    total
}

impl MaterialData {
    /// The material of `bar`, built from scratch.
    pub fn from_bar(bar: &ProgressBar) -> (r: MaterialData)
        requires
            bar@.sections.len() <= u32::MAX,
        ensures
            is_material_of(bar@, r@),
    {
        let sections = bar.sections();
        let total = sum_weights(sections);
        let mut colors: Vec<LinearColor> = Vec::new();
        let mut shares: Vec<SectionShare> = Vec::new();
        let mut count: u32 = 0;
        if total != 0 {
            let mut i: usize = 0;
            while i < sections.len()
                invariant
                    i <= sections@.len() <= u32::MAX,
                    total == total_weight(sections@),
                    colors@.len() == i,
                    forall|j: int| 0 <= j < i ==> converts_to(sections@[j].1, #[trigger] colors@[j]),
                    shares@ =~= sections@.take(i as int).map_values(
                        |s: (u32, SrgbColor)| SectionShare { weight: s.0, total: total },
                    ),
                decreases sections@.len() - i,
            {
                let (weight, color) = sections[i];
                colors.push(to_linear(color));
                shares.push(SectionShare { weight, total });
                i = i + 1;
            }
            assert(sections@.take(i as int) =~= sections@);
            assert(sections@ == bar@.sections);
            count = sections.len() as u32;
        }
        MaterialData {
            empty_color: to_linear(bar.empty_color()),
            progress: bar.get_progress(),
            sections_color: colors,
            sections_start_percentage: shares,
            sections_count: count,
        }
    }

    /// Rebuilds the material from `bar`, replacing all it held.
    pub fn update(&mut self, bar: &ProgressBar)
        requires
            bar@.sections.len() <= u32::MAX,
        ensures
            is_material_of(bar@, final(self)@),
    {
        *self = MaterialData::from_bar(bar);
    }
}

impl Default for MaterialData {
    /// A material with no sections, no progress and a transparent empty color.
    fn default() -> (r: MaterialData)
        ensures
            r.empty_color == (LinearColor { red: 0, green: 0, blue: 0, alpha: 0 }),
            r.progress == 0,
            r.sections_color@.len() == 0,
            r.sections_start_percentage@.len() == 0,
            r.sections_count == 0,
    {
        MaterialData {
            empty_color: LinearColor { red: 0, green: 0, blue: 0, alpha: 0 },
            progress: 0,
            sections_color: Vec::new(),
            sections_start_percentage: Vec::new(),
            sections_count: 0,
        }
    }
}

} // verus!
