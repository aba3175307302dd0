//! Particle rain: drops that fall down their columns with a fading trail.

use vstd::prelude::*;
use crate::frame::{PartImage, fits, can_hold};
use crate::pixel::{PartPixel, spec_transparent};
use crate::widgets::interval_millis;

verus! {

/// `rand::rngs::StdRng`, the generator a rain draws from. Nothing is known
/// of its state.
#[verifier::external_type_specification]
#[verifier::external_body]
pub struct ExStdRng(rand::rngs::StdRng);

/// Calls `SeedableRng::seed_from_u64` for `StdRng`.
#[verifier::external_body]
pub(crate) fn seeded_rng(seed: u64) -> rand::rngs::StdRng {
    rand::SeedableRng::seed_from_u64(seed)
}

/// Calls `Rng::gen_range` on the half-open range from `low` to `high`, which
/// panics on an empty range and returns a number of the range.
#[verifier::external_body]
pub(crate) fn pick(rng: &mut rand::rngs::StdRng, low: u32, high: u32) -> (n: u32)
    requires
        low < high,
    ensures
        low <= n < high,
{
    rand::Rng::gen_range(rng, low..high)
}

/// The number of pixels a drop lights: its head and the trail behind it.
pub const TRAIL: u32 = 15;

/// The fewest ticks between two new drops.
pub const COOLDOWN_MIN: u32 = 2;

/// One more than the most ticks between two new drops.
pub const COOLDOWN_END: u32 = 8;

#[derive(Clone, Debug)]
pub struct MatrixRainWidget {
    pub width: u32,
    pub height: u32,
    pub color: PartPixel,
    pub speed: u32,
    pub steps: u32,
}

impl Default for MatrixRainWidget {
    fn default() -> (w: MatrixRainWidget)
        ensures
            w.width == 64,
            w.height == 64,
            w.color == (PartPixel { r: 0, g: 255, b: 0, a: 255 }),
            w.speed == 100,
            w.steps == 20,
    {
        MatrixRainWidget {
            width: 64,
            height: 64,
            color: PartPixel { r: 0, g: 255, b: 0, a: 255 },
            speed: 100,
            steps: 20,
        }
    }
}

/// A drop: its column and the row of its head.
pub type RainDrop = (u32, u32);

/// The alpha of the trail pixel `distance` rows behind the head: it falls
/// linearly, from 255 at the head towards 0 at `steps` rows.
pub open spec fn trail_alpha(steps: int, distance: int) -> int {
    255 * (steps - distance) / steps
}

/// The colour of the trail pixel `distance` rows behind the head: green,
/// whatever colour is configured, with the alpha of that distance.
pub open spec fn trail_color(steps: int, distance: int) -> PartPixel {
    PartPixel { r: 0, g: 255, b: 0, a: trail_alpha(steps, distance) as u8 }
}

/// Whether `drop` lights the pixel `(x, y)` of a frame `height` rows high:
/// the pixel is in its column, at its head or less than `TRAIL` rows above.
pub open spec fn lights(drop: RainDrop, height: int, x: int, y: int) -> bool {
    x == drop.0 && 0 <= y < height && y <= drop.1 && drop.1 - y < TRAIL
}

/// How far behind the head of `drop` the pixel in row `y` counts as. The
/// part of a trail that would lie above the frame is folded onto row 0,
/// which therefore shows the end of the trail.
pub open spec fn distance(drop: RainDrop, y: int) -> int {
    if y == 0 {
        TRAIL - 1
    } else {
        drop.1 - y
    }
}

/// The pixel `(x, y)` of the frame that shows the drops from number `from`
/// on: the colour of the first of them that lights it, transparent where
/// none does.
pub open spec fn rain_pixel(
    drops: Seq<RainDrop>,
    from: int,
    steps: int,
    height: int,
    x: int,
    y: int,
) -> PartPixel
    decreases drops.len() - from,
{
    if from < 0 || from >= drops.len() {
        spec_transparent()
    } else if lights(drops[from], height, x, y) {
        trail_color(steps, distance(drops[from], y))
    } else {
        rain_pixel(drops, from + 1, steps, height, x, y)
    }
}

/// The first `count` of `drops` one row further down, without those whose
/// head would then be more than `limit` rows down.
pub open spec fn fallen(drops: Seq<RainDrop>, count: int, limit: int) -> Seq<RainDrop>
    decreases count,
{
    if count <= 0 {
        Seq::empty()
    } else if drops[count - 1].1 + 1 > limit {
        fallen(drops, count - 1, limit)
    } else {
        fallen(drops, count - 1, limit).push((drops[count - 1].0, (drops[count - 1].1 + 1) as u32))
    }
}

impl MatrixRainWidget {
    /// A configuration that rain can run with: the frame can be allocated
    /// and has a column, frames follow each other, and the fade is at least
    /// as long as the trail after the head.
    pub open spec fn valid(&self) -> bool {
        &&& fits(self.width, self.height)
        &&& self.width > 0
        &&& self.speed > 0
        &&& self.steps >= TRAIL - 1
        &&& self.steps + self.height < u32::MAX
    }

    /// The row below which a drop is taken away.
    pub open spec fn limit(&self) -> int {
        self.steps + self.height
    }

    /// Whether rain can run with this configuration.
    pub fn is_valid(&self) -> (ok: bool)
        ensures
            ok == self.valid(),
    {
        can_hold(self.width, self.height) && self.width > 0 && self.speed > 0 && self.steps
            >= TRAIL - 1 && (self.steps as u64) + (self.height as u64) < u32::MAX as u64
    }

    /// The time between two frames, in milliseconds.
    pub fn wait_millis(&self) -> (millis: u64)
        requires
            self.speed > 0,
        ensures
            millis == 1000int / (self.speed as int),
    {
        interval_millis(self.speed)
    }
}

/// The drops of a rain and the ticks until the next one appears.
pub struct Rain {
    lines: Vec<RainDrop>,
    last_in: u32,
}

impl Rain {
    /// The drops, the oldest first.
    pub closed spec fn drops(&self) -> Seq<RainDrop> {
        self.lines@
    }

    /// The ticks until the next drop appears.
    pub closed spec fn cooldown(&self) -> u32 {
        self.last_in
    }

    /// Every drop is in a column of the frame and not yet past the limit.
    pub open spec fn wf(&self, conf: &MatrixRainWidget) -> bool {
        forall|k: int|
            0 <= k < self.drops().len() ==> (#[trigger] self.drops()[k]).0 < conf.width
                && self.drops()[k].1 <= conf.limit()
    }

    /// No drops, and the first one due at once.
    pub fn new() -> (rain: Rain)
        ensures
            rain.drops().len() == 0,
            rain.cooldown() == 0,
    {
        Rain { lines: Vec::new(), last_in: 0 }
    }

    /// The drops, the oldest first.
    pub fn lines(&self) -> (lines: &Vec<RainDrop>)
        ensures
            lines@ == self.drops(),
    {
        &self.lines
    }

    /// The ticks until the next drop appears.
    pub fn ticks_to_next(&self) -> (ticks: u32)
        ensures
            ticks == self.cooldown(),
    {
        self.last_in
    }

    /// Whether a new drop appears on this tick.
    pub fn due(&self) -> (due: bool)
        ensures
            due == (self.cooldown() == 0),
    {
        self.last_in == 0
    }

    /// Lets a new drop appear at the top of `column`, the next one being due
    /// in `cooldown` ticks.
    pub fn spawn(&mut self, conf: &MatrixRainWidget, cooldown: u32, column: u32)
        requires
            old(self).wf(conf),
            column < conf.width,
        ensures
            final(self).wf(conf),
            final(self).drops() == old(self).drops().push((column, 0u32)),
            final(self).cooldown() == cooldown,
    {
        self.last_in = cooldown;
        self.lines.push((column, 0));
        assert forall|k: int| 0 <= k < self.drops().len() implies (#[trigger] self.drops()[k]).0
            < conf.width && self.drops()[k].1 <= conf.limit() by {
            if k < old(self).drops().len() {
                assert(self.drops()[k] == old(self).drops()[k]);
            }
        }
    }

    /// The frame that shows the drops as they are.
    pub fn draw(&self, conf: &MatrixRainWidget) -> (img: PartImage)
        requires
            conf.valid(),
            self.wf(conf),
        ensures
            img.spec_width() == conf.width,
            img.spec_height() == conf.height,
            img.shaped(),
            forall|x: int, y: int|
                img.holds(x, y) ==> (#[trigger] img.at(x, y)) == rain_pixel(
                    self.drops(),
                    0,
                    conf.steps as int,
                    conf.height as int,
                    x,
                    y,
                ),
    {
        let mut img = PartImage::new(conf.width, conf.height);
        let steps = conf.steps;
        let height = conf.height;
        let mut n: usize = self.lines.len();
        while n > 0
            invariant
                n <= self.lines.len(),
                conf.valid(),
                self.wf(conf),
                steps == conf.steps,
                height == conf.height,
                img.spec_width() == conf.width,
                img.spec_height() == conf.height,
                img.shaped(),
                forall|x: int, y: int|
                    img.holds(x, y) ==> (#[trigger] img.at(x, y)) == rain_pixel(
                        self.drops(),
                        n as int,
                        steps as int,
                        height as int,
                        x,
                        y,
                    ),
            decreases n,
        {
            n = n - 1;
            let l: RainDrop = self.lines[n];
            assert(l == self.drops()[n as int]);
            let ghost below = img;
            let mut i: u32 = 0;
            while i < TRAIL
                invariant
                    i <= TRAIL,
                    conf.valid(),
                    steps == conf.steps,
                    height == conf.height,
                    l == self.drops()[n as int],
                    l.0 < conf.width,
                    img.spec_width() == conf.width,
                    img.spec_height() == conf.height,
                    below.spec_width() == conf.width,
                    below.spec_height() == conf.height,
                    img.shaped(),
                    forall|x: int, y: int|
                        img.holds(x, y) ==> (#[trigger] img.at(x, y)) == if x == l.0 && y <= l.1 && l.1 - y < i {
                            trail_color(
                                steps as int,
                                if y == 0 {
                                    i - 1
                                } else {
                                    l.1 - y
                                },
                            )
                        } else {
                            below.at(x, y)
                        },
                decreases TRAIL - i,
            {
                let y: u32 = if l.1 < i {
                    0
                } else {
                    l.1 - i
                };
                assert(255 * (steps - i) / (steps as int) <= 255) by (nonlinear_arith)
                    requires
                        0 <= steps - i <= steps,
                        steps > 0,
                ;
                let alpha: u64 = 255 * ((steps - i) as u64) / (steps as u64);
                let color = PartPixel { r: 0, g: 255, b: 0, a: alpha as u8 };
                if y < height {
                    img.put_pixel(l.0, y, color);
                }
                i = i + 1;
            }
        }
        img
    }

    /// Moves every drop one row down, takes away those that are past the
    /// limit, and counts one tick off the time to the next drop.
    pub fn advance(&mut self, conf: &MatrixRainWidget)
        requires
            conf.valid(),
            old(self).wf(conf),
            old(self).cooldown() > 0,
        ensures
            final(self).wf(conf),
            final(self).drops() == fallen(
                old(self).drops(),
                old(self).drops().len() as int,
                conf.limit(),
            ),
            final(self).cooldown() == old(self).cooldown() - 1,
    {
        let limit: u32 = conf.steps + conf.height;
        let mut kept: Vec<RainDrop> = Vec::new();
        let mut k: usize = 0;
        while k < self.lines.len()
            invariant
                k <= self.lines.len(),
                conf.valid(),
                self.wf(conf),
                self.drops() == old(self).drops(),
                self.cooldown() == old(self).cooldown(),
                limit == conf.limit(),
                kept@ == fallen(self.drops(), k as int, limit as int),
                forall|j: int|
                    0 <= j < kept@.len() ==> (#[trigger] kept@[j]).0 < conf.width && kept@[j].1
                        <= limit,
            decreases self.lines.len() - k,
        {
            let l: RainDrop = self.lines[k];
            assert(l == self.drops()[k as int]);
            if l.1 + 1 <= limit {
                kept.push((l.0, l.1 + 1));
            }
            k = k + 1;
        }
        self.lines = kept;
        self.last_in = self.last_in - 1;
    }

    /// The drops that the frame of this tick shows: those there are, and a
    /// new one at the top of `column` if one is due.
    pub open spec fn shown(&self, column: u32) -> Seq<RainDrop> {
        if self.cooldown() == 0 {
            self.drops().push((column, 0u32))
        } else {
            self.drops()
        }
    }

    /// One tick leads from this rain to `after` and gives the frame `img`,
    /// where chance has decided on `cooldown` and `column`: a drop that is
    /// due appears at the top of `column`, the next one being due in
    /// `cooldown` ticks; the frame shows the drops as they then are; after
    /// that they fall by one row and one tick is counted off.
    pub open spec fn ticks_to(
        &self,
        after: &Rain,
        img: &PartImage,
        conf: &MatrixRainWidget,
        cooldown: u32,
        column: u32,
    ) -> bool {
        &&& after.drops() == fallen(
            self.shown(column),
            self.shown(column).len() as int,
            conf.limit(),
        )
        &&& after.cooldown() == if self.cooldown() == 0 {
            cooldown - 1
        } else {
            self.cooldown() - 1
        }
        &&& img.spec_width() == conf.width
        &&& img.spec_height() == conf.height
        &&& img.shaped()
        &&& forall|x: int, y: int|
            img.holds(x, y) ==> (#[trigger] img.at(x, y)) == rain_pixel(
                self.shown(column),
                0,
                conf.steps as int,
                conf.height as int,
                x,
                y,
            )
    }

    /// One tick, given the two numbers that chance decides.
    pub fn step(&mut self, conf: &MatrixRainWidget, cooldown: u32, column: u32) -> (img: PartImage)
        requires
            conf.valid(),
            old(self).wf(conf),
            0 < cooldown,
            column < conf.width,
        ensures
            final(self).wf(conf),
            old(self).ticks_to(final(self), &img, conf, cooldown, column),
    {
        if self.due() {
            self.spawn(conf, cooldown, column);
        }
        let img = self.draw(conf);
        self.advance(conf);
        img
    }

    /// One tick: draws the two numbers a new drop needs from `rng` if one is
    /// due, and goes on as `step` does. The time to the next drop is at
    /// least `COOLDOWN_MIN` and less than `COOLDOWN_END` ticks, and the
    /// column is one of the frame.
    pub fn tick(&mut self, conf: &MatrixRainWidget, rng: &mut rand::rngs::StdRng) -> (img: PartImage)
        requires
            conf.valid(),
            old(self).wf(conf),
        ensures
            final(self).wf(conf),
            exists|cooldown: u32, column: u32|
                COOLDOWN_MIN <= cooldown < COOLDOWN_END && column < conf.width
                    && #[trigger] old(self).ticks_to(final(self), &img, conf, cooldown, column),
    {
        let (cooldown, column) = if self.due() {
            let c = pick(rng, COOLDOWN_MIN, COOLDOWN_END);
            let x = pick(rng, 0, conf.width);
            (c, x)
        } else {
            (COOLDOWN_MIN, 0)
        };
        self.step(conf, cooldown, column)
    }
}

/// A generator of random numbers for a rain, started from `seed`.
pub fn rain_rng(seed: u64) -> rand::rngs::StdRng {
    seeded_rng(seed)
}

} // verus!
