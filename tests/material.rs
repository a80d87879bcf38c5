use bevy_progressbar::bar::{ProgressBar, PROGRESS_FULL};
use bevy_progressbar::color::{LinearColor, SrgbColor};
use bevy_progressbar::material::{MaterialData, SectionShare};
use bevy_progressbar::{ProgressBarPlugin, PROGRESS_BAR_SHADER_ID};

const HALF: i64 = (PROGRESS_FULL / 2) as i64;
const FULL: i64 = PROGRESS_FULL as i64;

fn srgb(c: bevy_color::Srgba) -> SrgbColor {
    SrgbColor::new(c.red.to_bits(), c.green.to_bits(), c.blue.to_bits(), c.alpha.to_bits())
}

fn red() -> SrgbColor {
    srgb(bevy_color::palettes::tailwind::RED_500)
}

fn blue() -> SrgbColor {
    srgb(bevy_color::palettes::tailwind::BLUE_500)
}

fn green() -> SrgbColor {
    srgb(bevy_color::palettes::tailwind::GREEN_500)
}

fn linear(c: SrgbColor) -> LinearColor {
    let l = bevy_color::Color::srgba(
        f32::from_bits(c.red),
        f32::from_bits(c.green),
        f32::from_bits(c.blue),
        f32::from_bits(c.alpha),
    )
    .to_linear();
    LinearColor {
        red: l.red.to_bits(),
        green: l.green.to_bits(),
        blue: l.blue.to_bits(),
        alpha: l.alpha.to_bits(),
    }
}

fn fraction(s: &SectionShare) -> f32 {
    s.weight as f32 / s.total as f32
}

#[test]
fn shares_of_ten_and_nine() {
    let bar = ProgressBar::new(vec![(10, red()), (9, blue())]);
    let m = MaterialData::from_bar(&bar);
    assert_eq!(
        m.sections_start_percentage,
        vec![SectionShare { weight: 10, total: 19 }, SectionShare { weight: 9, total: 19 }]
    );
    assert_eq!(m.sections_color, vec![linear(red()), linear(blue())]);
}

#[test]
fn zero_weights_give_no_sections() {
    let bar = ProgressBar::new(vec![(0, red()), (0, blue())]);
    let m = MaterialData::from_bar(&bar);
    assert_eq!(m.sections_count, 0);
    assert!(m.sections_color.is_empty());
    assert!(m.sections_start_percentage.is_empty());
}

#[test]
fn empty_bar_gives_no_sections() {
    let mut bar = ProgressBar::default();
    bar.set_progress(HALF);
    let m = MaterialData::from_bar(&bar);
    assert_eq!(m.sections_count, 0);
    assert!(m.sections_color.is_empty());
    assert!(m.sections_start_percentage.is_empty());
    assert_eq!(m.progress, PROGRESS_FULL / 2);
}

#[test]
fn cleared_bar_gives_no_sections() {
    let mut bar = ProgressBar::new(vec![(10, red()), (9, blue())]);
    bar.clear_sections();
    let m = MaterialData::from_bar(&bar);
    assert_eq!(m.sections_count, 0);
    assert!(m.sections_color.is_empty());
}

#[test]
fn zero_weight_section_beside_others_is_kept() {
    let bar = ProgressBar::new(vec![(0, red()), (4, blue())]);
    let m = MaterialData::from_bar(&bar);
    assert_eq!(m.sections_count, 2);
    assert_eq!(
        m.sections_start_percentage,
        vec![SectionShare { weight: 0, total: 4 }, SectionShare { weight: 4, total: 4 }]
    );
}

#[test]
fn two_sections_at_half_progress() {
    let mut bar = ProgressBar::new(vec![(10, red()), (9, blue())]);
    bar.set_progress(HALF);
    let m = MaterialData::from_bar(&bar);
    assert_eq!(m.progress, PROGRESS_FULL / 2);
    assert_eq!(m.progress as f32 / PROGRESS_FULL as f32, 0.5);
    assert_eq!(m.sections_count, 2);
    assert_eq!(m.sections_color, vec![linear(red()), linear(blue())]);
    let fractions: Vec<f32> = m.sections_start_percentage.iter().map(fraction).collect();
    assert!((fractions[0] - 0.526).abs() < 0.001);
    assert!((fractions[1] - 0.474).abs() < 0.001);
    assert_eq!(m.empty_color, linear(SrgbColor::transparent()));
}

#[test]
fn single_section_overfilled() {
    let mut bar = ProgressBar::single(green());
    bar.increase_progress(2 * FULL);
    assert_eq!(bar.get_progress(), PROGRESS_FULL);
    assert!(bar.is_finished());
    let m = MaterialData::from_bar(&bar);
    assert_eq!(m.sections_count, 1);
    assert_eq!(m.sections_start_percentage, vec![SectionShare { weight: 1, total: 1 }]);
    assert_eq!(fraction(&m.sections_start_percentage[0]), 1.0);
    assert_eq!(m.sections_color, vec![linear(green())]);
}

#[test]
fn rebuilding_twice_gives_identical_material() {
    let mut bar = ProgressBar::new(vec![(10, red()), (9, blue())]);
    bar.set_progress(HALF / 3);
    let mut m = MaterialData::default();
    m.update(&bar);
    let first = m.clone();
    m.update(&bar);
    assert_eq!(first, m);
    assert_eq!(MaterialData::from_bar(&bar), m);
}

#[test]
fn update_replaces_previous_material() {
    let mut m = MaterialData::from_bar(&ProgressBar::new(vec![(1, red()), (2, blue()), (3, green())]));
    assert_eq!(m.sections_count, 3);
    let bar = ProgressBar::single(green());
    m.update(&bar);
    assert_eq!(m.sections_count, 1);
    assert_eq!(m.sections_color, vec![linear(green())]);
    assert_eq!(m.sections_start_percentage, vec![SectionShare { weight: 1, total: 1 }]);
    assert_eq!(m.progress, 0);
}

#[test]
fn empty_color_is_converted_to_linear() {
    let mut bar = ProgressBar::default();
    let gray = srgb(bevy_color::Srgba::new(0.5, 0.25, 1.5, 0.5));
    bar.empty_color = gray;
    let m = MaterialData::from_bar(&bar);
    assert_eq!(m.empty_color, linear(gray));
    assert_ne!(m.empty_color.red, gray.red);
    assert_eq!(f32::from_bits(m.empty_color.alpha), 0.5);
    assert!((f32::from_bits(m.empty_color.red) - 0.2140411).abs() < 0.0001);
    assert!(f32::from_bits(m.empty_color.blue) > 1.0);
}

#[test]
fn default_material_is_empty() {
    let m = MaterialData::default();
    assert_eq!(m.empty_color, LinearColor { red: 0, green: 0, blue: 0, alpha: 0 });
    assert_eq!(m.progress, 0);
    assert_eq!(m.sections_count, 0);
    assert!(m.sections_color.is_empty());
    assert!(m.sections_start_percentage.is_empty());
}

#[test]
fn large_weights_do_not_overflow_the_total() {
    let bar = ProgressBar::new(vec![(u32::MAX, red()), (u32::MAX, blue())]);
    let m = MaterialData::from_bar(&bar);
    let total = 2 * u32::MAX as u64;
    assert_eq!(
        m.sections_start_percentage,
        vec![SectionShare { weight: u32::MAX, total }, SectionShare { weight: u32::MAX, total }]
    );
}

#[test]
fn plugin_names_its_shader() {
    assert_eq!(ProgressBarPlugin.shader_id(), PROGRESS_BAR_SHADER_ID);
}

#[test]
fn nan_channel_stays_nan_and_alpha_is_kept() {
    let odd = SrgbColor::new(f32::NAN.to_bits(), 0.5f32.to_bits(), 0.25f32.to_bits(), 0.75f32.to_bits());
    let bar = ProgressBar::new(vec![(2, odd), (1, red())]);
    let m = MaterialData::from_bar(&bar);
    assert_eq!(m.sections_count, 2);
    assert!(f32::from_bits(m.sections_color[0].red).is_nan());
    assert_eq!(m.sections_color[0].alpha, 0.75f32.to_bits());
    assert_eq!(m.sections_color[0].green, linear(odd).green);
    assert_eq!(m.sections_color[1], linear(red()));
}
