use vstd::prelude::*;
use crate::primality::Particle;
use crate::view::{step, Configs, HostAction, Input};

verus! {

/// The colors of the one-row palette image, by column.
#[derive(Clone, Copy, Debug, PartialEq, Eq, Structural)]
pub enum PaletteColor {
    Black,
    Yellow,
    Blue,
}

/// The palette image, column by column: background, composites, primes.
pub open spec fn palette() -> Seq<PaletteColor> {
    seq![PaletteColor::Black, PaletteColor::Yellow, PaletteColor::Blue]
}

/// Column of the palette that a particle is drawn with.
pub open spec fn color_column(is_prime: bool) -> u16 {
    if is_prime { 2 } else { 1 }
}

pub struct PolarOxideColors {}

impl PolarOxideColors {
    /// The palette column holding `c`.
    pub fn index_of(c: PaletteColor) -> (r: u16)
        ensures
            r < palette().len(),
            palette()[r as int] == c,
    {
        match c {
            PaletteColor::Black => 0,
            PaletteColor::Yellow => 1,
            PaletteColor::Blue => 2,
        }
    }
}

/// The larger of the frame's two sides.
pub fn frame_bound(width: i32, height: i32) -> (r: i32)
    ensures
        r == if width >= height { width } else { height },
{
    if width >= height { width } else { height }
}

/// Whether a particle is drawn, given the whole-pixel magnitudes `ax`, `ay`
/// of its scaled position: the larger of them, `max_dim`, must be at least 1
/// and `max_dim / 2` at most `frame_bound`, and a composite is drawn only
/// when composites are shown.
pub open spec fn visible(ax: int, ay: int, frame_bound: int, is_prime: bool, draw_nonprimes: bool) -> bool {
    let max_dim = if ax >= ay { ax } else { ay };
    &&& max_dim >= 1
    &&& max_dim <= 2 * frame_bound
    &&& is_prime || draw_nonprimes
}

pub fn is_visible(ax: i32, ay: i32, frame_bound: i32, is_prime: bool, draw_nonprimes: bool) -> (r:
    bool)
    ensures
        r == visible(ax as int, ay as int, frame_bound as int, is_prime, draw_nonprimes),
{
    let max_dim: i64 = if ax >= ay { ax as i64 } else { ay as i64 };
    max_dim >= 1 && max_dim <= 2 * (frame_bound as i64) && (is_prime || draw_nonprimes)
}

/// One sprite to draw: the particle it stands for and its palette column.
#[derive(Clone, Copy, Debug, PartialEq, Eq, Structural)]
pub struct DrawEntry {
    pub index: usize,
    pub color_index: u16,
}

/// The entries for the first `n` particles, in index order.
pub open spec fn batch_upto(
    particles: Seq<Particle>,
    magnitudes: Seq<(i32, i32)>,
    frame_bound: int,
    draw_nonprimes: bool,
    n: nat,
) -> Seq<DrawEntry>
    decreases n,
{
    if n == 0 {
        seq![]
    } else {
        let i = n - 1;
        let sub = batch_upto(particles, magnitudes, frame_bound, draw_nonprimes, i as nat);
        let p = particles[i];
        if visible(magnitudes[i].0 as int, magnitudes[i].1 as int, frame_bound, p.is_prime, draw_nonprimes) {
            sub.push(DrawEntry { index: i as usize, color_index: color_column(p.is_prime) })
        } else {
            sub
        }
    }
}

/// The draw batch: one entry for each visible particle, in index order.
pub open spec fn batch_of(
    particles: Seq<Particle>,
    magnitudes: Seq<(i32, i32)>,
    frame_bound: int,
    draw_nonprimes: bool,
) -> Seq<DrawEntry> {
    batch_upto(particles, magnitudes, frame_bound, draw_nonprimes, particles.len())
}

/// Builds the draw batch; `magnitudes[i]` holds the whole-pixel magnitudes
/// of particle `i`'s scaled position.
pub fn build_batch(
    particles: &Vec<Particle>,
    magnitudes: &Vec<(i32, i32)>,
    frame_bound: i32,
    draw_nonprimes: bool,
) -> (r: Vec<DrawEntry>)
    requires
        magnitudes@.len() == particles@.len(),
    ensures
        r@ == batch_of(particles@, magnitudes@, frame_bound as int, draw_nonprimes),
{
    let mut r: Vec<DrawEntry> = Vec::new();
    let mut i: usize = 0;
    while i < particles.len()
        invariant
            i <= particles@.len(),
            magnitudes@.len() == particles@.len(),
            r@ == batch_upto(particles@, magnitudes@, frame_bound as int, draw_nonprimes, i as nat),
        decreases particles@.len() - i,
    {
        let p = particles[i];
        let (ax, ay) = magnitudes[i];
        if is_visible(ax, ay, frame_bound, p.is_prime, draw_nonprimes) {
            let color = if p.is_prime {
                PolarOxideColors::index_of(PaletteColor::Blue)
            } else {
                PolarOxideColors::index_of(PaletteColor::Yellow)
            };
            r.push(DrawEntry { index: i, color_index: color });
        }
        i = i + 1;
    }
    r
}

/// Hiding composites keeps exactly the prime-colored entries of the batch
/// drawn with composites shown, in the same order.
pub proof fn lemma_hiding_composites_keeps_primes(
    particles: Seq<Particle>,
    magnitudes: Seq<(i32, i32)>,
    frame_bound: int,
)
    requires
        magnitudes.len() == particles.len(),
    ensures
        batch_of(particles, magnitudes, frame_bound, false) == batch_of(
            particles,
            magnitudes,
            frame_bound,
            true,
        ).filter(|e: DrawEntry| e.color_index == color_column(true)),
{
    lemma_hiding_composites_upto(particles, magnitudes, frame_bound, particles.len());
}

proof fn lemma_hiding_composites_upto(
    particles: Seq<Particle>,
    magnitudes: Seq<(i32, i32)>,
    frame_bound: int,
    n: nat,
)
    requires
        n <= particles.len(),
        magnitudes.len() == particles.len(),
    ensures
        batch_upto(particles, magnitudes, frame_bound, false, n) == batch_upto(
            particles,
            magnitudes,
            frame_bound,
            true,
            n,
        ).filter(|e: DrawEntry| e.color_index == color_column(true)),
    decreases n,
{
    let pred = |e: DrawEntry| e.color_index == color_column(true);
    let all = batch_upto(particles, magnitudes, frame_bound, true, n);
    reveal(Seq::filter);
    if n == 0 {
        assert(all.filter(pred) =~= seq![]);
    } else {
        let i = (n - 1) as nat;
        lemma_hiding_composites_upto(particles, magnitudes, frame_bound, i);
        let sub = batch_upto(particles, magnitudes, frame_bound, true, i);
        if all.len() > sub.len() {
            assert(all.drop_last() =~= sub);
        } else {
            assert(all =~= sub);
        }
    }
}

/// The particle field with the view it is drawn in, and the view the last
/// frame was drawn with, so that a frame whose view is unchanged does not
/// rebuild its batch.
pub struct PolarOxides {
    pub particles: Vec<Particle>,
    pub configs: Configs,
    pub prev_frame_configs: Configs,
}

impl PolarOxides {
    /// The next frame rebuilds its batch.
    pub open spec fn dirty(&self) -> bool {
        self.configs != self.prev_frame_configs
    }

    /// The initial view, with no frame drawn yet.
    pub fn new(particles: Vec<Particle>) -> (r: PolarOxides)
        ensures
            r.particles@ == particles@,
            r.configs == (Configs { zoom_level: 0, draw_nonprimes: true }),
            r.prev_frame_configs == (Configs { zoom_level: -1i32, draw_nonprimes: true }),
            r.dirty(),
    {
        PolarOxides {
            particles,
            configs: Configs::initial(),
            prev_frame_configs: Configs { zoom_level: -1, draw_nonprimes: true },
        }
    }

    /// Whether the next frame rebuilds its batch.
    pub fn needs_rebuild(&self) -> (r: bool)
        ensures
            r == self.dirty(),
    {
        self.configs != self.prev_frame_configs
    }

    /// Applies one input edge to the view.
    pub fn interact(&mut self, input: Input) -> (r: HostAction)
        ensures
            (final(self).configs, r) == step(old(self).configs, input),
            final(self).prev_frame_configs == old(self).prev_frame_configs,
            final(self).particles@ == old(self).particles@,
    {
        self.configs.apply(input)
    }

    /// Draws one frame: the new batch when the view changed since the last
    /// frame, else `None` (the last batch stands).
    pub fn draw(&mut self, magnitudes: &Vec<(i32, i32)>, frame_bound: i32) -> (r: Option<
        Vec<DrawEntry>,
    >)
        requires
            magnitudes@.len() == old(self).particles@.len(),
        ensures
            r is Some <==> old(self).dirty(),
            r matches Some(b) ==> b@ == batch_of(
                old(self).particles@,
                magnitudes@,
                frame_bound as int,
                old(self).configs.draw_nonprimes,
            ),
            final(self).configs == old(self).configs,
            final(self).prev_frame_configs == old(self).configs,
            final(self).particles@ == old(self).particles@,
            !final(self).dirty(),
    {
        let r = if self.needs_rebuild() {
            Some(build_batch(&self.particles, magnitudes, frame_bound, self.configs.draw_nonprimes))
        } else {
            None
        };
        self.prev_frame_configs = self.configs;
        r
    }
}

/// Drawing twice with no input in between rebuilds nothing the second time.
pub proof fn lemma_redraw_is_skipped(before: PolarOxides, after: PolarOxides)
    requires
        after.configs == before.configs,
        after.prev_frame_configs == before.configs,
    ensures
        !after.dirty(),
{
}

} // verus!
