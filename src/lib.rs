//! A segmented progress bar: a plain data model of progress and weighted,
//! colored sections, and the data that a material is rebuilt from on each
//! pass.
pub mod bar;
pub mod color;
pub mod laws;
pub mod material;

use vstd::prelude::*;

verus! {

/// The stable identifier under which the bar's fragment shader is
/// registered.
pub const PROGRESS_BAR_SHADER_ID: u128 = 8714649747086695632918559878778085427;

/// The plugin that registers the bar's shader and its per-frame pass.
#[derive(Clone, Copy, Debug, PartialEq, Eq, Structural)]
pub struct ProgressBarPlugin;

impl ProgressBarPlugin {
    /// The identifier of the shader this plugin registers.
    pub fn shader_id(&self) -> (r: u128)
        ensures
            r == PROGRESS_BAR_SHADER_ID,
    {
        PROGRESS_BAR_SHADER_ID
    }
}

} // verus!
