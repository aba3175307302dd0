//! The animated image: a sequence of frames, each shown for its own time.

use vstd::prelude::*;
use crate::frame::PartImage;
use crate::widgets::IDLE_SECS;

verus! {

#[derive(Clone, Debug)]
pub struct GifWidget {
    pub location: String,
}

/// Whether `s` begins with `prefix`.
pub fn starts_with(s: &str, prefix: &str) -> (yes: bool)
    ensures
        yes == prefix@.is_prefix_of(s@),
{
    let n = prefix.unicode_len();
    let m = s.unicode_len();
    if n > m {
        return false;
    }
    let mut i: usize = 0;
    while i < n
        invariant
            i <= n <= m,
            n == prefix@.len(),
            m == s@.len(),
            forall|j: int| 0 <= j < i ==> s@[j] == prefix@[j],
        decreases n - i,
    {
        if s.get_char(i) != prefix.get_char(i) {
            assert(s@.subrange(0, n as int)[i as int] != prefix@[i as int]);
            return false;
        }
        i = i + 1;
    }
    assert(prefix@ =~= s@.subrange(0, n as int));
    true
}

impl GifWidget {
    /// Whether `url` names a source to fetch over the network rather than a
    /// file: it does where it begins with `http://` or `https://`.
    pub fn is_remote(url: &str) -> (remote: bool)
        ensures
            remote == ("http://"@.is_prefix_of(url@) || "https://"@.is_prefix_of(url@)),
    {
        starts_with(url, "http://") || starts_with(url, "https://")
    }
}

/// One decoded frame and the microseconds it is shown for.
pub struct GifFrame {
    pub image: PartImage,
    pub delay_micros: u64,
}

/// Where an animated image stands in its sequence of frames.
pub struct GifPlayer {
    frames: Vec<GifFrame>,
    index: usize,
}

impl GifPlayer {
    /// The frames that are played.
    pub closed spec fn frames(&self) -> Seq<GifFrame> {
        self.frames@
    }

    /// The number of the frame that is shown.
    pub closed spec fn index(&self) -> int {
        self.index as int
    }

    /// The index names a frame, or is 0 where there is none.
    pub open spec fn wf(&self) -> bool {
        if self.frames().len() == 0 {
            self.index() == 0
        } else {
            0 <= self.index() < self.frames().len()
        }
    }

    /// The index after the frame at `index` of `count` frames.
    pub open spec fn following(index: int, count: int) -> int {
        if count == 0 {
            0
        } else {
            (index + 1) % count
        }
    }

    /// A player at the first of `frames`.
    pub fn new(frames: Vec<GifFrame>) -> (p: GifPlayer)
        ensures
            p.wf(),
            p.frames() == frames@,
            p.frames().len() == frames@.len(),
            p.index() == 0,
    {
        GifPlayer { frames, index: 0 }
    }

    /// The number of the frame that is shown.
    pub fn position(&self) -> (index: usize)
        ensures
            index == self.index(),
    {
        self.index
    }

    /// The number of frames.
    pub fn len(&self) -> (count: usize)
        ensures
            count == self.frames().len(),
    {
        self.frames.len()
    }

    /// The picture to show now; none where there are no frames.
    pub fn current(&self) -> (img: Option<PartImage>)
        requires
            self.wf(),
        ensures
            img.is_some() <==> self.frames().len() > 0,
            img.is_some() ==> img.unwrap().same_as(&self.frames()[self.index()].image),
    {
        if self.frames.len() == 0 {
            None
        } else {
            Some(self.frames[self.index].image.copy())
        }
    }

    /// How long the current picture is shown, in microseconds: its own
    /// delay, or the idle time where there are no frames.
    pub fn wait_micros(&self) -> (micros: u64)
        requires
            self.wf(),
        ensures
            micros == if self.frames().len() == 0 {
                IDLE_SECS * 1_000_000
            } else {
                self.frames()[self.index()].delay_micros as int
            },
    {
        if self.frames.len() == 0 {
            IDLE_SECS * 1_000_000
        } else {
            self.frames[self.index].delay_micros
        }
    }

    /// Goes on to the next frame, and from the last to the first.
    pub fn advance(&mut self)
        requires
            old(self).wf(),
        ensures
            final(self).wf(),
            final(self).frames() == old(self).frames(),
            final(self).index() == Self::following(old(self).index(), old(self).frames().len() as int),
    {
        if self.frames.len() == 0 {
            self.index = 0;
        } else {
            self.index = (self.index + 1) % self.frames.len();
        }
    }

    /// Replaces the whole sequence and starts at its first frame.
    pub fn load(&mut self, frames: Vec<GifFrame>)
        ensures
            final(self).wf(),
            final(self).frames() == frames@,
            final(self).index() == 0,
    {
        self.frames = frames;
        self.index = 0;
    }
}

} // verus!
