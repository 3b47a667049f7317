//! The choice of the interface theme.

use vstd::prelude::*;
use crate::storage::process::ColorScheme;

verus! {

/// The built-in theme that is active at start: `Noot Dark` under a dark
/// system colour scheme, `Noot Light` otherwise.
pub fn active_theme_name(scheme: ColorScheme) -> (r: &'static str)
    ensures
        r@ == match scheme {
            ColorScheme::Dark => "Noot Dark"@,
            _ => "Noot Light"@,
        },
{
    match scheme {
        ColorScheme::Dark => "Noot Dark",
        ColorScheme::Light => "Noot Light",
        ColorScheme::Unspecified => "Noot Light",
    }
}

} // verus!
