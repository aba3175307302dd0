//! The ticker: messages that scroll by, one below the other, until their
//! time is up.

use vstd::prelude::*;
use crate::frame::{PartImage, fits, can_hold, lemma_fits_lower};
use crate::movers::{blit_at, view_pixel, is_view};
use crate::movers::scroll::{ScrollIterator, next_origin, start_origin};
use crate::pixel::PartPixel;
use crate::widgets::interval_millis;
use crate::widgets::message::FlyerMessage;

verus! {

/// Nanoseconds in a second.
pub const NANOS_PER_SEC: u64 = 1_000_000_000;

#[derive(Clone, Debug)]
pub struct FlyerWidget {
    pub width: u32,
    pub height: u32,
    pub text_color: PartPixel,
    pub background_color: PartPixel,
    pub speed: u32,
}

impl Default for FlyerWidget {
    fn default() -> (w: FlyerWidget)
        ensures
            w.width == 0,
            w.height == 0,
            w.text_color == (PartPixel { r: 255, g: 255, b: 0, a: 255 }),
            w.background_color == (PartPixel { r: 0, g: 0, b: 0, a: 0 }),
            w.speed == 100,
    {
        FlyerWidget {
            width: 0,
            height: 0,
            text_color: PartPixel { r: 255, g: 255, b: 0, a: 255 },
            background_color: PartPixel { r: 0, g: 0, b: 0, a: 0 },
            speed: 100,
        }
    }
}

impl FlyerWidget {
    /// The time between two frames, in milliseconds.
    pub fn wait_millis(&self) -> (millis: u64)
        requires
            self.speed > 0,
        ensures
            millis == 1000int / (self.speed as int),
    {
        interval_millis(self.speed)
    }
}

/// One message on the ticker: what it says, when it came, how many rows its
/// picture takes, and the generator that scrolls that picture.
pub struct FlyerEntry {
    pub message: FlyerMessage,
    pub accepted_at: u64,
    pub height: u32,
    pub scroller: ScrollIterator,
}

impl FlyerEntry {
    /// The time at which the message is taken off, in nanoseconds.
    pub open spec fn expiration(&self) -> int {
        self.accepted_at + self.message.ttl * NANOS_PER_SEC
    }

    /// Whether the message is still shown at `now`.
    pub open spec fn live(&self, now: u64) -> bool {
        now < self.expiration()
    }

    /// The generator scrolls across one band of a ticker `width` pixels
    /// wide.
    pub open spec fn wf(&self, width: u32) -> bool {
        &&& self.scroller.wf()
        &&& self.scroller.target_width() == width
        &&& self.scroller.target_height() == self.height
    }

    /// This entry is `before` one tick later: the same message, its picture
    /// one step further.
    pub open spec fn follows(&self, before: &FlyerEntry) -> bool {
        &&& self.message == before.message
        &&& self.accepted_at == before.accepted_at
        &&& self.height == before.height
        &&& self.scroller.same_setup(&before.scroller)
        &&& self.scroller.origin_x() == next_origin(
            before.scroller.origin_x(),
            before.scroller.delta_x() as int,
            before.scroller.source().spec_width(),
            before.scroller.target_width() as int,
        )
        &&& self.scroller.origin_y() == next_origin(
            before.scroller.origin_y(),
            before.scroller.delta_y() as int,
            before.scroller.source().spec_height(),
            before.scroller.target_height() as int,
        )
    }

    /// Whether the message is still shown at `now`.
    pub fn is_live(&self, now: u64) -> (live: bool)
        ensures
            live == self.live(now),
    {
        now < self.accepted_at || now - self.accepted_at < self.message.ttl as u64 * NANOS_PER_SEC
    }
}

/// The first `count` of `entries` without those whose time is up at `now`.
pub open spec fn survivors(entries: Seq<FlyerEntry>, count: int, now: u64) -> Seq<FlyerEntry>
    decreases count,
{
    if count <= 0 {
        Seq::empty()
    } else if entries[count - 1].live(now) {
        survivors(entries, count - 1, now).push(entries[count - 1])
    } else {
        survivors(entries, count - 1, now)
    }
}

/// The rows that the first `count` of `entries` take together.
pub open spec fn band_top(entries: Seq<FlyerEntry>, count: int) -> int
    decreases count,
{
    if count <= 0 {
        0
    } else {
        band_top(entries, count - 1) + entries[count - 1].height
    }
}

/// The pixel in column `x` and row `row` of the band of entry `k`, in a
/// picture where the bands lie one below the other.
pub open spec fn band_pixel(img: &PartImage, entries: Seq<FlyerEntry>, k: int, x: int, row: int) -> PartPixel {
    img.at(x, band_top(entries, k) + row)
}

/// `img` shows the current frame of each of `entries`, one band below the
/// other in their order, `width` pixels wide.
pub open spec fn is_stacked(img: &PartImage, entries: Seq<FlyerEntry>, width: u32) -> bool {
    &&& img.spec_width() == width
    &&& img.spec_height() == band_top(entries, entries.len() as int)
    &&& img.shaped()
    &&& forall|k: int, x: int, row: int|
        0 <= k < entries.len() && 0 <= x < width && 0 <= row < entries[k].height
            ==> #[trigger] band_pixel(img, entries, k, x, row) == view_pixel(
            &entries[k].scroller.source(),
            entries[k].scroller.origin_x(),
            entries[k].scroller.origin_y(),
            x,
            row,
        )
}

/// The messages of a ticker, the oldest first.
pub struct Flyer {
    pub width: u32,
    pub entries: Vec<FlyerEntry>,
}

impl Flyer {
    /// Every entry scrolls across a band of this ticker, and the bands
    /// together make a picture that can be allocated.
    pub open spec fn wf(&self) -> bool {
        &&& forall|k: int| 0 <= k < self.entries@.len() ==> (#[trigger] self.entries@[k]).wf(self.width)
        &&& band_top(self.entries@, self.entries@.len() as int) <= u32::MAX
        &&& self.entries@.len() > 0 ==> fits(
            self.width,
            band_top(self.entries@, self.entries@.len() as int) as u32,
        )
    }

    /// A ticker `width` pixels wide, without messages.
    pub fn new(width: u32) -> (flyer: Flyer)
        ensures
            flyer.wf(),
            flyer.width == width,
            flyer.entries@.len() == 0,
    {
        Flyer { width, entries: Vec::new() }
    }

    /// Whether a message is shown at all: only one with a time to live.
    pub fn accepts(msg: &FlyerMessage) -> (yes: bool)
        ensures
            yes == (msg.ttl > 0),
    {
        msg.ttl > 0
    }

    /// Whether a band of `height` more rows leaves a picture that can be
    /// allocated.
    pub open spec fn has_room(&self, height: int) -> bool {
        let total = band_top(self.entries@, self.entries@.len() as int) + height;
        total <= u32::MAX && fits(self.width, total as u32)
    }

    /// The rows of all bands together.
    pub fn total_height(&self) -> (total: u32)
        requires
            self.wf(),
        ensures
            total == band_top(self.entries@, self.entries@.len() as int),
    {
        let mut total: u32 = 0;
        let mut k: usize = 0;
        while k < self.entries.len()
            invariant
                k <= self.entries.len(),
                total == band_top(self.entries@, k as int),
                band_top(self.entries@, self.entries@.len() as int) <= u32::MAX,
            decreases self.entries.len() - k,
        {
            proof {
                lemma_band_top_grows(self.entries@, k as int + 1, self.entries@.len() as int);
            }
            total = total + self.entries[k].height;
            k = k + 1;
        }
        total
    }

    /// Takes in a message that came at `now`, with the picture of its text.
    /// A message with a time to live is put below the others, to scroll
    /// towards smaller columns from its start, and is shown until `ttl`
    /// seconds after `now`. One without, or one for which there is no room,
    /// is ignored.
    pub fn offer(&mut self, msg: FlyerMessage, img: PartImage, now: u64) -> (taken: bool)
        requires
            old(self).wf(),
        ensures
            final(self).wf(),
            final(self).width == old(self).width,
            taken == (msg.ttl > 0 && old(self).has_room(img.spec_height())),
            !taken ==> final(self).entries@ == old(self).entries@,
            taken ==> {
                let e = final(self).entries@.last();
                &&& final(self).entries@ == old(self).entries@.push(e)
                &&& e.message == msg
                &&& e.accepted_at == now
                &&& e.height == img.spec_height()
                &&& e.scroller.source().same_as(&img)
                &&& e.scroller.delta_x() == -1
                &&& e.scroller.delta_y() == 0
                &&& e.scroller.origin_x() == old(self).width
                &&& e.scroller.origin_y() == 0
            },
    {
        if msg.ttl == 0 {
            return false;
        }
        let h = img.height();
        let total = self.total_height();
        if h > u32::MAX - total || !can_hold(self.width, total + h) {
            return false;
        }
        proof {
            lemma_fits_lower(self.width, h, (total + h) as u32);
        }
        let scroller = ScrollIterator::new(img, self.width, h, -1, 0);
        let entry = FlyerEntry { message: msg, accepted_at: now, height: h, scroller };
        let ghost before = self.entries@;
        self.entries.push(entry);
        proof {
            assert(self.entries@.drop_last() == before);
            lemma_band_top_prefix(self.entries@, before, before.len() as int);
            assert forall|k: int| 0 <= k < self.entries@.len() implies (
            #[trigger] self.entries@[k]).wf(self.width) by {
                if k < before.len() {
                    assert(self.entries@[k] == before[k]);
                }
            }
        }
        true
    }

    /// One tick at time `now`. Messages whose time is up are taken off for
    /// good. The frame shows the current picture of each of the others, one
    /// band below the other in the order they came, and there is none where
    /// no message is left. Then every picture moves by one step.
    pub fn tick(&mut self, now: u64) -> (img: Option<PartImage>)
        requires
            old(self).wf(),
        ensures
            final(self).wf(),
            final(self).width == old(self).width,
            ({
                let live = survivors(old(self).entries@, old(self).entries@.len() as int, now);
                &&& final(self).entries@.len() == live.len()
                &&& forall|k: int|
                    0 <= k < live.len() ==> (#[trigger] final(self).entries@[k]).follows(&live[k])
                &&& img.is_some() <==> live.len() > 0
                &&& img.is_some() ==> is_stacked(&img.unwrap(), live, old(self).width)
            }),
    {
        let width = self.width;
        let mut pending: Vec<FlyerEntry> = Vec::new();
        core::mem::swap(&mut self.entries, &mut pending);
        let ghost all = pending@;
        let ghost mut seen: int = 0;
        let mut kept: Vec<FlyerEntry> = Vec::new();
        let mut total: u32 = 0;
        while pending.len() > 0
            invariant
                0 <= seen <= all.len(),
                pending@ == all.subrange(seen, all.len() as int),
                kept@ == survivors(all, seen, now),
                total == band_top(kept@, kept@.len() as int),
                total <= band_top(all, seen),
                band_top(all, all.len() as int) <= u32::MAX,
                forall|k: int| 0 <= k < all.len() ==> (#[trigger] all[k]).wf(width),
                forall|k: int| 0 <= k < kept@.len() ==> (#[trigger] kept@[k]).wf(width),
            decreases pending.len(),
        {
            let e = pending.remove(0);
            assert(e == all[seen]);
            proof {
                lemma_band_top_grows(all, seen + 1, all.len() as int);
            }
            if e.is_live(now) {
                let ghost before = kept@;
                let h = e.height;
                kept.push(e);
                proof {
                    lemma_band_top_prefix(kept@, before, before.len() as int);
                    assert forall|k: int| 0 <= k < kept@.len() implies (#[trigger] kept@[k]).wf(
                        width,
                    ) by {
                        if k < before.len() {
                            assert(kept@[k] == before[k]);
                        }
                    }
                }
                total = total + h;
            }
            proof {
                seen = seen + 1;
            }
            assert(pending@ == all.subrange(seen, all.len() as int));
        }
        let ghost live = kept@;
        if kept.len() == 0 {
            self.entries = kept;
            return None;
        }
        proof {
            lemma_fits_lower(width, total, band_top(all, all.len() as int) as u32);
        }
        let mut image = PartImage::new(width, total);
        let mut y: u32 = 0;
        let mut j: usize = 0;
        while j < kept.len()
            invariant
                j <= kept.len(),
                kept@.len() == live.len(),
                y == band_top(live, j as int),
                total == band_top(live, live.len() as int),
                image.spec_width() == width,
                image.spec_height() == total,
                image.shaped(),
                forall|m: int| j <= m < live.len() ==> (#[trigger] kept@[m]) == live[m],
                forall|m: int| 0 <= m < live.len() ==> (#[trigger] live[m]).wf(width),
                forall|m: int| 0 <= m < j ==> (#[trigger] kept@[m]).follows(&live[m]),
                forall|m: int| 0 <= m < j ==> (#[trigger] kept@[m]).wf(width),
                forall|m: int, x: int, row: int|
                    0 <= m < j && 0 <= x < width && 0 <= row < live[m].height
                        ==> #[trigger] band_pixel(&image, live, m, x, row) == view_pixel(
                        &live[m].scroller.source(),
                        live[m].scroller.origin_x(),
                        live[m].scroller.origin_y(),
                        x,
                        row,
                    ),
            decreases kept.len() - j,
        {
            proof {
                lemma_band_top_grows(live, j as int + 1, live.len() as int);
            }
            let ghost below = image;
            let ghost entries_before = kept@;
            let h = kept[j].height;
            let frame = kept[j].scroller.next().unwrap();
            blit_at(&frame, &mut image, 0, y as i64);
            proof {
                assert(entries_before[j as int] == live[j as int]);
                assert(live[j as int].wf(width));
                assert(h == live[j as int].height);
                assert(is_view(
                    &frame,
                    &live[j as int].scroller.source(),
                    width as int,
                    h as int,
                    live[j as int].scroller.origin_x(),
                    live[j as int].scroller.origin_y(),
                ));
                assert(band_top(live, j as int + 1) == y + h);
                assert forall|m: int, x: int, row: int|
                    0 <= m < j + 1 && 0 <= x < width && 0 <= row < live[m].height
                        implies #[trigger] band_pixel(&image, live, m, x, row) == view_pixel(
                    &live[m].scroller.source(),
                    live[m].scroller.origin_x(),
                    live[m].scroller.origin_y(),
                    x,
                    row,
                ) by {
                    lemma_band_top_grows(live, m + 1, live.len() as int);
                    lemma_band_top_grows(live, 0, m);
                    assert(band_top(live, m + 1) == band_top(live, m) + live[m].height);
                    assert(below.holds(x, band_top(live, m) + row));
                    if m == j {
                        assert(frame.holds(x, row));
                        assert(image.at(x, y + row) == frame.at(x, row));
                    }
                    if m < j {
                        lemma_band_top_grows(live, m + 1, j as int);
                        assert(band_pixel(&below, live, m, x, row) == view_pixel(
                            &live[m].scroller.source(),
                            live[m].scroller.origin_x(),
                            live[m].scroller.origin_y(),
                            x,
                            row,
                        ));
                    }
                }
            }
            y = y + h;
            j = j + 1;
        }
        proof {
            lemma_band_top_prefix(kept@, live, live.len() as int);
        }
        self.entries = kept;
        Some(image)
    }
}

/// A tick keeps every message whose time is not up: entry `k`, if it is
/// live at `now`, is among the survivors.
pub proof fn live_message_is_kept(entries: Seq<FlyerEntry>, count: int, now: u64, k: int)
    requires
        0 <= k < count <= entries.len(),
        entries[k].live(now),
    ensures
        survivors(entries, count, now).contains(entries[k]),
    decreases count,
{
    let kept = survivors(entries, count, now);
    if k == count - 1 {
        assert(kept.last() == entries[k]);
    } else {
        live_message_is_kept(entries, count - 1, now, k);
        let before = survivors(entries, count - 1, now);
        let at = choose|i: int| 0 <= i < before.len() && before[i] == entries[k];
        assert(kept[at] == entries[k]);
    }
}

/// A tick keeps nothing else: every survivor is one of the entries, and its
/// time is not up at `now`. So a message whose time is up is in no frame
/// from then on.
pub proof fn kept_message_is_live(entries: Seq<FlyerEntry>, count: int, now: u64, j: int)
    requires
        0 <= count <= entries.len(),
        0 <= j < survivors(entries, count, now).len(),
    ensures
        survivors(entries, count, now)[j].live(now),
        exists|k: int| 0 <= k < count && entries[k] == survivors(entries, count, now)[j],
    decreases count,
{
    if count > 0 {
        let before = survivors(entries, count - 1, now);
        if j < before.len() {
            kept_message_is_live(entries, count - 1, now, j);
            let k = choose|k: int| 0 <= k < count - 1 && entries[k] == before[j];
            assert(entries[k] == survivors(entries, count, now)[j]);
        } else {
            assert(entries[count - 1] == survivors(entries, count, now)[j]);
        }
    }
}

/// A message that came at `accepted_at` with a time to live of `ttl`
/// seconds is live at every time before `accepted_at + ttl` seconds and at
/// none from then on; once its time is up, it stays so.
pub proof fn message_lifetime(e: FlyerEntry, now: u64, later: u64)
    requires
        now <= later,
    ensures
        e.live(now) <==> now < e.accepted_at + e.message.ttl * NANOS_PER_SEC,
        !e.live(now) ==> !e.live(later),
{
}

/// A tick moves the picture of a message and leaves its lifetime alone.
pub proof fn tick_keeps_lifetime(after: FlyerEntry, before: FlyerEntry, now: u64)
    requires
        after.follows(&before),
    ensures
        after.live(now) == before.live(now),
        after.expiration() == before.expiration(),
{
}

/// The bands of more entries take at least as many rows.
pub proof fn lemma_band_top_grows(entries: Seq<FlyerEntry>, fewer: int, more: int)
    requires
        fewer <= more,
    ensures
        band_top(entries, fewer) <= band_top(entries, more),
    decreases more - fewer,
{
    if fewer < more {
        lemma_band_top_grows(entries, fewer, more - 1);
        if more <= 0 {
        }
    }
}

/// The rows of the first bands depend on those entries alone.
pub proof fn lemma_band_top_prefix(a: Seq<FlyerEntry>, b: Seq<FlyerEntry>, count: int)
    requires
        count <= a.len(),
        count <= b.len(),
        forall|k: int| 0 <= k < count ==> a[k].height == b[k].height,
    ensures
        band_top(a, count) == band_top(b, count),
    decreases count,
{
    if count > 0 {
        lemma_band_top_prefix(a, b, count - 1);
    }
}

} // verus!
