//! Polar plot of the integers: each integer `n` is placed at radius `n` and
//! angle `n` radians, tagged as prime or composite, and the tagged points are
//! culled and colored for the current view.

mod batch;
mod bound;
mod primality;
mod view;

pub use primality::{is_prime_number, Particle, PrimeOracle, MAX_SUPPORTED_NUMBER};
pub use view::{lemma_zoom_stays_in_range, step, Configs, HostAction, Input, MAX_ZOOM_LEVEL};
pub use batch::{
    batch_of, batch_upto, build_batch, color_column, frame_bound, is_visible,
    lemma_hiding_composites_keeps_primes, lemma_redraw_is_skipped, palette, visible, DrawEntry,
    PaletteColor, PolarOxideColors, PolarOxides,
};
pub use bound::{
    decimal_value, is_decimal, max_number_from_arg, parsed_u64, trimmed, DEFAULT_MAX_NUMBER,
};
