//! Where finished pixels are kept until the image is written.
//!
//! Pixels may be worked on in any order and by any number of workers, but
//! the image is one stream of lines in a fixed order: the rows from the
//! highest `j` to row 0, and each row from column 0 to the right.  A frame
//! keeps every finished pixel at the place of its line in that stream, so
//! that the text of the image shows where a pixel is and never when it was
//! finished.

use crate::save::{header_text, pixel_text, push_color, push_header, Rgb};
use vstd::prelude::*;

verus! {

/// A frame as a value: its size and, for each place in the stream, the
/// colour of the pixel there once it is finished.
pub struct FrameView {
    pub width: int,
    pub height: int,
    pub pixels: Seq<Option<Rgb>>,
}

/// The place in the stream of the pixel in column `i` of row `j`.
pub open spec fn slot_spec(width: int, height: int, i: int, j: int) -> int {
    (height - 1 - j) * width + i
}

/// The lines of the pixels, in their order.
pub open spec fn body_text(pixels: Seq<Option<Rgb>>) -> Seq<u8>
    decreases pixels.len(),
{
    if pixels.len() == 0 {
        Seq::<u8>::empty()
    } else {
        body_text(pixels.drop_last()) + pixel_text(pixels.last().unwrap())
    }
}

impl FrameView {
    /// The size is not negative, and there is one place for each pixel.
    pub open spec fn wf(self) -> bool {
        &&& 0 <= self.width
        &&& 0 <= self.height
        &&& self.pixels.len() == self.width * self.height
    }

    /// Whether column `i` of row `j` is a pixel of the frame.
    pub open spec fn holds(self, i: int, j: int) -> bool {
        0 <= i < self.width && 0 <= j < self.height
    }

    /// The frame with `color` at column `i` of row `j`; the frame itself
    /// where it has no such pixel.
    pub open spec fn put(self, i: int, j: int, color: Rgb) -> FrameView {
        if self.holds(i, j) {
            FrameView {
                pixels: self.pixels.update(
                    slot_spec(self.width, self.height, i, j),
                    Some(color),
                ),
                ..self
            }
        } else {
            self
        }
    }

    /// The frame after the pixels of `finished` were put in, in their order.
    pub open spec fn put_all(self, finished: Seq<(int, int, Rgb)>) -> FrameView
        decreases finished.len(),
    {
        if finished.len() == 0 {
            self
        } else {
            let last = finished.last();
            self.put_all(finished.drop_last()).put(last.0, last.1, last.2)
        }
    }

    /// Every pixel is finished.
    pub open spec fn complete(self) -> bool {
        forall|k: int| 0 <= k < self.pixels.len() ==> (#[trigger] self.pixels[k]) is Some
    }

    /// The text of the image: the head, then the pixels' lines.
    pub open spec fn text(self) -> Seq<u8> {
        header_text(self.width, self.height) + body_text(self.pixels)
    }
}

/// The pixels of an image that is being rendered.
pub struct Frame {
    width: i32,
    height: i32,
    pixels: Vec<Option<Rgb>>,
}

impl View for Frame {
    type V = FrameView;

    closed spec fn view(&self) -> FrameView {
        FrameView { width: self.width as int, height: self.height as int, pixels: self.pixels@ }
    }
}

impl Frame {
    #[verifier::type_invariant]
    spec fn inv(self) -> bool {
        self@.wf()
    }

    /// A frame of the given size with no pixel finished.  There is none of a
    /// negative size, nor of more pixels than can be counted.
    pub fn new(image_width: i32, image_height: i32) -> (r: Option<Frame>)
        ensures
            match r {
                Some(frame) => {
                    &&& frame@.wf()
                    &&& frame@.width == image_width
                    &&& frame@.height == image_height
                    &&& forall|k: int|
                        0 <= k < frame@.pixels.len() ==> (#[trigger] frame@.pixels[k]) is None
                },
                None => image_width < 0 || image_height < 0 || image_width * image_height
                    > usize::MAX,
            },
    {
        if image_width < 0 || image_height < 0 {
            return None;
        }
        let count = match (image_width as usize).checked_mul(image_height as usize) {
            Some(count) => count,
            None => {
                return None;
            },
        };
        let mut pixels: Vec<Option<Rgb>> = Vec::new();
        while pixels.len() < count
            invariant
                pixels.len() <= count,
                forall|k: int| 0 <= k < pixels.len() ==> (#[trigger] pixels[k]) is None,
            decreases count - pixels.len(),
        {
            pixels.push(None);
        }
        Some(Frame { width: image_width, height: image_height, pixels })
    }

    pub fn width(&self) -> (r: i32)
        ensures
            r == self@.width,
    {
        self.width
    }

    pub fn height(&self) -> (r: i32)
        ensures
            r == self@.height,
    {
        self.height
    }

    /// Keeps `color` as the pixel in column `i` of row `j`, and says whether
    /// the frame has such a pixel.  A pixel that was kept before is replaced.
    pub fn store(&mut self, i: i32, j: i32, color: Rgb) -> (kept: bool)
        ensures
            kept == old(self)@.holds(i as int, j as int),
            final(self)@ == old(self)@.put(i as int, j as int, color),
    {
        proof {
            use_type_invariant(&*self);
        }
        if i < 0 || i >= self.width || j < 0 || j >= self.height {
            return false;
        }
        let w = self.width as usize;
        let row = (self.height - 1 - j) as usize;
        proof {
            slot_in_frame(self.width as int, self.height as int, i as int, j as int);
            assert(row as int * w as int == (self.height - 1 - j) * self.width);
            assert(self.pixels@.len() == self.width * self.height);
            assert(self.pixels.len() <= usize::MAX);
        }
        let slot = row * w + i as usize;
        self.pixels[slot] = Some(color);
        true
    }

    /// Whether every pixel is finished.
    pub fn is_complete(&self) -> (r: bool)
        ensures
            r == self@.complete(),
    {
        let mut k: usize = 0;
        while k < self.pixels.len()
            invariant
                k <= self.pixels.len(),
                forall|m: int| 0 <= m < k ==> (#[trigger] self.pixels@[m]) is Some,
            decreases self.pixels.len() - k,
        {
            if self.pixels[k].is_none() {
                return false;
            }
            k += 1;
        }
        true
    }

    /// The text of the image, once every pixel is finished; nothing before.
    pub fn encode(&self) -> (r: Option<Vec<u8>>)
        ensures
            match r {
                Some(text) => self@.complete() && text@ == self@.text(),
                None => !self@.complete(),
            },
    {
        let mut out: Vec<u8> = Vec::new();
        push_header(&mut out, self.width, self.height);
        let mut k: usize = 0;
        while k < self.pixels.len()
            invariant
                k <= self.pixels.len(),
                forall|m: int| 0 <= m < k ==> (#[trigger] self.pixels@[m]) is Some,
                out@ == header_text(self.width as int, self.height as int) + body_text(
                    self.pixels@.take(k as int),
                ),
            decreases self.pixels.len() - k,
        {
            match self.pixels[k] {
                Some(color) => {
                    proof {
                        assert(self.pixels@.take(k + 1).drop_last() == self.pixels@.take(k as int));
                        assert(self.pixels@.take(k + 1).last() == Some(color));
                    }
                    push_color(&mut out, color);
                },
                None => {
                    return None;
                },
            }
            k += 1;
        }
        proof {
            assert(self.pixels@.take(k as int) == self.pixels@);
        }
        Some(out)
    }
}

/// Every pixel of a frame has a place in the stream.
pub proof fn slot_in_frame(width: int, height: int, i: int, j: int)
    requires
        0 <= i < width,
        0 <= j < height,
    ensures
        0 <= (height - 1 - j) * width,
        0 <= slot_spec(width, height, i, j) < width * height,
{
    assert(0 <= (height - 1 - j) * width && (height - 1 - j) * width + width <= width * height)
        by (nonlinear_arith)
        requires
            0 <= j < height,
            0 < width,
    ;
}

/// The order of the stream: one pixel comes before another where its row is
/// the higher one or, in the same row, where its column is the lower one.  So
/// no two pixels share a place.
pub proof fn slots_follow_scan_order(width: int, height: int, i: int, j: int, i2: int, j2: int)
    requires
        0 <= i < width,
        0 <= j < height,
        0 <= i2 < width,
        0 <= j2 < height,
    ensures
        slot_spec(width, height, i, j) < slot_spec(width, height, i2, j2) <==> (j > j2 || (j == j2
            && i < i2)),
        slot_spec(width, height, i, j) == slot_spec(width, height, i2, j2) <==> (i == i2 && j
            == j2),
{
    if j > j2 {
        assert((height - 1 - j) * width + width <= (height - 1 - j2) * width) by (nonlinear_arith)
            requires
                j > j2,
                0 < width,
        ;
    } else if j < j2 {
        assert((height - 1 - j2) * width + width <= (height - 1 - j) * width) by (nonlinear_arith)
            requires
                j < j2,
                0 < width,
        ;
    }
}

/// No pixel of `finished` has two colours.
pub open spec fn one_color_each(finished: Seq<(int, int, Rgb)>) -> bool {
    forall|m: int, n: int|
        0 <= m < finished.len() && 0 <= n < finished.len() && (#[trigger] finished[m]).0 == (
        #[trigger] finished[n]).0 && finished[m].1 == finished[n].1 ==> finished[m].2
            == finished[n].2
}

/// What a frame holds after pixels were put in: each of them at its place,
/// and what was there before at every other place.
proof fn put_all_places(frame: FrameView, finished: Seq<(int, int, Rgb)>)
    requires
        frame.wf(),
        one_color_each(finished),
    ensures
        frame.put_all(finished).width == frame.width,
        frame.put_all(finished).height == frame.height,
        frame.put_all(finished).pixels.len() == frame.pixels.len(),
        forall|n: int|
            0 <= n < finished.len() && frame.holds((#[trigger] finished[n]).0, finished[n].1)
                ==> frame.put_all(finished).pixels[slot_spec(
                frame.width,
                frame.height,
                finished[n].0,
                finished[n].1,
            )] == Some(finished[n].2),
        forall|k: int|
            0 <= k < frame.pixels.len() && (forall|n: int|
                0 <= n < finished.len() && frame.holds((#[trigger] finished[n]).0, finished[n].1)
                    ==> slot_spec(frame.width, frame.height, finished[n].0, finished[n].1) != k)
                ==> #[trigger] frame.put_all(finished).pixels[k] == frame.pixels[k],
    decreases finished.len(),
{
    if finished.len() > 0 {
        let rest = finished.drop_last();
        let last = finished.last();
        let before = frame.put_all(rest);
        let after = frame.put_all(finished);
        assert(forall|n: int| 0 <= n < rest.len() ==> rest[n] == finished[n]);
        put_all_places(frame, rest);
        if frame.holds(last.0, last.1) {
            slot_in_frame(frame.width, frame.height, last.0, last.1);
        }
        assert forall|n: int|
            0 <= n < finished.len() && frame.holds(
                (#[trigger] finished[n]).0,
                finished[n].1,
            ) implies after.pixels[slot_spec(
            frame.width,
            frame.height,
            finished[n].0,
            finished[n].1,
        )] == Some(finished[n].2) by {
            slot_in_frame(frame.width, frame.height, finished[n].0, finished[n].1);
            if frame.holds(last.0, last.1) {
                slots_follow_scan_order(
                    frame.width,
                    frame.height,
                    finished[n].0,
                    finished[n].1,
                    last.0,
                    last.1,
                );
                assert(finished[finished.len() - 1] == last);
            }
            if n < rest.len() {
                assert(rest[n] == finished[n]);
            }
        }
        assert forall|k: int|
            0 <= k < frame.pixels.len() && (forall|n: int|
                0 <= n < finished.len() && frame.holds((#[trigger] finished[n]).0, finished[n].1)
                    ==> slot_spec(frame.width, frame.height, finished[n].0, finished[n].1)
                    != k) implies #[trigger] after.pixels[k] == frame.pixels[k] by {
            assert(finished[finished.len() - 1] == last);
            assert forall|n: int|
                0 <= n < rest.len() && frame.holds(
                    (#[trigger] rest[n]).0,
                    rest[n].1,
                ) implies slot_spec(frame.width, frame.height, rest[n].0, rest[n].1) != k by {
                assert(rest[n] == finished[n]);
            }
        }
    }
}

/// The order in which pixels are finished is not seen in the frame: where
/// the same pixels were put in, each with one colour, in two orders, the two
/// frames are the same, and so are the texts of the two images.
pub proof fn order_of_completion_is_not_seen(
    frame: FrameView,
    first: Seq<(int, int, Rgb)>,
    second: Seq<(int, int, Rgb)>,
)
    requires
        frame.wf(),
        one_color_each(first),
        forall|x: (int, int, Rgb)| first.contains(x) <==> second.contains(x),
    ensures
        frame.put_all(first) == frame.put_all(second),
        frame.put_all(first).text() == frame.put_all(second).text(),
{
    assert forall|m: int, n: int|
        0 <= m < second.len() && 0 <= n < second.len() && (#[trigger] second[m]).0 == (
        #[trigger] second[n]).0 && second[m].1 == second[n].1 implies second[m].2
        == second[n].2 by {
        assert(second.contains(second[m]));
        assert(second.contains(second[n]));
        assert(first.contains(second[m]));
        assert(first.contains(second[n]));
    }
    put_all_places(frame, first);
    put_all_places(frame, second);
    let a = frame.put_all(first);
    let b = frame.put_all(second);
    assert forall|k: int| 0 <= k < a.pixels.len() implies a.pixels[k] == b.pixels[k] by {
        if exists|n: int|
            0 <= n < first.len() && frame.holds((#[trigger] first[n]).0, first[n].1) && slot_spec(
                frame.width,
                frame.height,
                first[n].0,
                first[n].1,
            ) == k {
            let n = choose|n: int|
                0 <= n < first.len() && frame.holds((#[trigger] first[n]).0, first[n].1)
                    && slot_spec(frame.width, frame.height, first[n].0, first[n].1) == k;
            assert(first.contains(first[n]));
            assert(second.contains(first[n]));
            let m = choose|m: int| 0 <= m < second.len() && second[m] == first[n];
            assert(frame.holds(second[m].0, second[m].1));
        } else {
            assert forall|m: int|
                0 <= m < second.len() && frame.holds(
                    (#[trigger] second[m]).0,
                    second[m].1,
                ) implies slot_spec(frame.width, frame.height, second[m].0, second[m].1)
                != k by {
                assert(second.contains(second[m]));
                assert(first.contains(second[m]));
                let n = choose|n: int| 0 <= n < first.len() && first[n] == second[m];
                assert(frame.holds(first[n].0, first[n].1));
            }
        }
    }
    assert(a.pixels =~= b.pixels);
}

} // verus!
