//! Raw camera frames and the shared current-frame slot.
//!
//! The slot holds either nothing (before the first successful capture) or the
//! most recently captured frame: last-write-wins, no history, no queueing.

use vstd::prelude::*;

verus! {

/// Mathematical content of a [`Frame`]: its dimensions and pixel bytes.
#[verifier::ext_equal]
pub ghost struct FrameView {
    pub width: nat,
    pub height: nat,
    pub pixels: Seq<u8>,
}

impl FrameView {
    /// A frame is well formed when it carries one RGB triple per pixel and its
    /// dimensions are even, as the 4:2:0 downstream encoding requires.
    pub open spec fn wf(self) -> bool {
        &&& self.pixels.len() == 3 * (self.width * self.height)
        &&& self.width % 2 == 0
        &&& self.height % 2 == 0
    }
}

/// A raw image: width, height and a packed RGB pixel buffer, captured once and
/// immutable after creation.
pub struct Frame {
    pub width: u32,
    pub height: u32,
    pub pixels: Vec<u8>,
}

impl View for Frame {
    type V = FrameView;

    open spec fn view(&self) -> FrameView {
        FrameView {
            width: self.width as nat,
            height: self.height as nat,
            pixels: self.pixels@,
        }
    }
}

impl Frame {
    pub open spec fn wf(self) -> bool {
        self@.wf()
    }

    /// Builds a frame from plain captured values, accepting exactly the well
    /// formed combinations: a pixel buffer of `3 * width * height` bytes and
    /// even dimensions.
    pub fn new(width: u32, height: u32, pixels: Vec<u8>) -> (r: Option<Frame>)
        ensures
            r is Some <==> (FrameView {
                width: width as nat,
                height: height as nat,
                pixels: pixels@,
            }).wf(),
            r matches Some(f) ==> f@ == (FrameView {
                width: width as nat,
                height: height as nat,
                pixels: pixels@,
            }) && f.wf(),
    {
        if width % 2 != 0 || height % 2 != 0 {
            return None;
        }
        proof {
            assert((width as int) * (height as int) <= 0xffff_ffff * 0xffff_ffff)
                by (nonlinear_arith)
                requires width <= 0xffff_ffffu32 && height <= 0xffff_ffffu32;
        }
        let wh: u128 = (width as u128) * (height as u128);
        let needed: u128 = 3 * wh;
        if (pixels.len() as u128) != needed {
            return None;
        }
        Some(Frame { width, height, pixels })
    }
}

/// An owned copy of a pixel buffer, byte for byte.
fn copy_pixels(v: &Vec<u8>) -> (r: Vec<u8>)
    ensures
        r@ == v@,
{
    let mut r: Vec<u8> = Vec::new();
    let mut i: usize = 0;
    while i < v.len()
        invariant
            i <= v@.len(),
            r@ == v@.subrange(0, i as int),
        decreases v@.len() - i,
    {
        proof {
            assert(v@.subrange(0, i as int).push(v@[i as int]) =~= v@.subrange(0, i as int + 1));
        }
        r.push(v[i]);
        i += 1;
    }
    proof {
        assert(v@.subrange(0, v@.len() as int) =~= v@);
    }
    r
}

/// The shared current-frame slot. The writer overwrites, never appends; the
/// ghost `published` sequence records every frame ever published so that
/// freshness can be stated against it.
pub struct FrameSlot {
    current: Option<Frame>,
    published: Ghost<Seq<FrameView>>,
}

impl FrameSlot {
    /// All frames ever written into the slot, oldest first.
    pub closed spec fn published(self) -> Seq<FrameView> {
        self.published@
    }

    /// The frame a reader would observe now, if any.
    pub closed spec fn current_view(self) -> Option<FrameView> {
        match self.current {
            None => None,
            Some(f) => Some(f@),
        }
    }

    pub closed spec fn wf(self) -> bool {
        &&& match self.current {
            None => self.published@.len() == 0,
            Some(f) => self.published@.len() > 0 && f@ == self.published@.last() && f.wf(),
        }
        &&& forall|i: int| 0 <= i < self.published@.len() ==> (#[trigger] self.published@[i]).wf()
    }

    /// The slot before the first capture: empty.
    pub fn empty() -> (r: FrameSlot)
        ensures
            r.wf(),
            r.published() == Seq::<FrameView>::empty(),
            r.current_view() is None,
    {
        FrameSlot { current: None, published: Ghost(Seq::empty()) }
    }

    /// Replaces the slot's content with a newly captured frame.
    pub fn publish(&mut self, f: Frame)
        requires
            old(self).wf(),
            f.wf(),
        ensures
            final(self).wf(),
            final(self).published() == old(self).published().push(f@),
            final(self).current_view() == Some(f@),
    {
        let ghost hist = self.published@.push(f@);
        self.current = Some(f);
        self.published = Ghost(hist);
    }

    /// Copy-out read: the reader receives its own copy of the frame that
    /// existed at read time, so the capture loop never waits on readers.
    pub fn snapshot(&self) -> (r: Option<Frame>)
        requires
            self.wf(),
        ensures
            match r {
                None => self.published().len() == 0 && self.current_view() is None,
                Some(f) => self.published().len() > 0 && f@ == self.published().last()
                    && self.current_view() == Some(f@) && f.wf(),
            },
    {
        match &self.current {
            None => None,
            Some(f) => Some(
                Frame { width: f.width, height: f.height, pixels: copy_pixels(&f.pixels) },
            ),
        }
    }

    /// Non-blocking snapshot read: `None` only before the first successful
    /// capture, otherwise the most recently published frame.
    pub fn current(&self) -> (r: Option<&Frame>)
        requires
            self.wf(),
        ensures
            match r {
                None => self.published().len() == 0 && self.current_view() is None,
                Some(f) => self.published().len() > 0 && f@ == self.published().last()
                    && self.current_view() == Some(f@) && f.wf(),
            },
    {
        self.current.as_ref()
    }
}

/// The slot never exposes a frame older than the latest one published: a
/// reader observes exactly the last write, and nothing at all only before the
/// first capture.
pub proof fn lemma_slot_freshness(s: FrameSlot)
    requires
        s.wf(),
    ensures
        s.published().len() > 0 ==> s.current_view() == Some(s.published().last()),
        s.published().len() == 0 ==> s.current_view() is None,
{
}

} // verus!
