//! What every capture backend offers: capture a frame, read the last good
//! frame, and tell its size.

use crate::cerror::CError;
use vstd::prelude::*;

pub mod linux;

verus! {

/// The descriptor of a frame in native memory: where its pixels start, and
/// its width and height in pixels. A null `data` means that there is no
/// frame.
#[derive(Clone, Copy, Debug, PartialEq, Eq, Structural)]
pub struct CImage {
    pub data: usize,
    pub width: u32,
    pub height: u32,
}

/// Bytes per pixel: three colours and one byte of padding.
pub const BYTES_PER_PIXEL: usize = 4;

impl CImage {
    /// How many bytes the pixels of the frame take.
    pub open spec fn byte_len(&self) -> nat {
        (self.width * self.height * BYTES_PER_PIXEL) as nat
    }

    /// The descriptor before any capture: no pixels, no extent.
    pub fn new() -> (r: CImage)
        ensures
            r == (CImage { data: 0, width: 0, height: 0 }),
    {
        CImage { data: 0, width: 0, height: 0 }
    }

    /// The number of bytes of the frame, if an address can reach that far.
    pub fn size(&self) -> (r: Option<usize>)
        ensures
            r is Some <==> self.byte_len() <= usize::MAX,
            r matches Some(n) ==> n == self.byte_len(),
    {
        let w: u64 = self.width as u64;
        let h: u64 = self.height as u64;
        assert(w * h <= 0xffff_ffff * 0xffff_ffff) by (nonlinear_arith)
            requires
                w <= 0xffff_ffff,
                h <= 0xffff_ffff,
        ;
        let pixels: u64 = w * h;
        let limit: u64 = (usize::MAX / BYTES_PER_PIXEL) as u64;
        if pixels <= limit {
            Some((pixels as usize) * BYTES_PER_PIXEL)
        } else {
            None
        }
    }

    /// Where the pixels start.
    pub fn data(&self) -> (r: usize)
        ensures
            r == self.data,
    {
        self.data
    }
}

/// A readable frame with its pixel layout, or none.
#[derive(Clone, Copy, Debug, PartialEq, Eq, Structural)]
pub enum PixelProvider {
    /// No frame can be read.
    Absent,
    /// Four bytes per pixel: blue, green, red, and one byte of padding.
    BGR0(CImage),
}

/// The frame that a session shows after a capture that reported `img` and
/// `code`, if `before` was shown until then.
pub open spec fn frame_after(before: CImage, img: CImage, code: i32) -> CImage {
    if code != 0 {
        CImage { data: 0, ..before }
    } else {
        img
    }
}

/// The frame that a session shows after the captures `outcomes`, each a
/// descriptor and a code, if `start` was shown before the first.
pub open spec fn frame_after_all(start: CImage, outcomes: Seq<(CImage, i32)>) -> CImage
    decreases outcomes.len(),
{
    if outcomes.len() == 0 {
        start
    } else {
        frame_after(
            frame_after_all(start, outcomes.drop_last()),
            outcomes.last().0,
            outcomes.last().1,
        )
    }
}

/// While captures fail, no frame can be read and the extent stays that of
/// the frame before them, however many fail in a row.
pub proof fn lemma_failures_hide_frame_and_keep_size(
    start: CImage,
    outcomes: Seq<(CImage, i32)>,
)
    requires
        outcomes.len() > 0,
        forall|i: int| 0 <= i < outcomes.len() ==> (#[trigger] outcomes[i]).1 != 0,
    ensures
        frame_after_all(start, outcomes).data == 0,
        frame_after_all(start, outcomes).width == start.width,
        frame_after_all(start, outcomes).height == start.height,
    decreases outcomes.len(),
{
    let front = outcomes.drop_last();
    assert(outcomes.last() == outcomes[outcomes.len() - 1]);
    if front.len() > 0 {
        assert forall|i: int| 0 <= i < front.len() implies (#[trigger] front[i]).1 != 0 by {
            assert(front[i] == outcomes[i]);
        }
        lemma_failures_hide_frame_and_keep_size(start, front);
    } else {
        assert(frame_after_all(start, front) == start);
    }
}

/// After a capture that succeeded and any number of captures that failed
/// after it, no frame can be read, and the extent is that of the frame that
/// the successful capture gave.
pub proof fn lemma_size_survives_failed_captures(
    start: CImage,
    earlier: Seq<(CImage, i32)>,
    good: CImage,
    failed: Seq<(CImage, i32)>,
)
    requires
        failed.len() > 0,
        forall|i: int| 0 <= i < failed.len() ==> (#[trigger] failed[i]).1 != 0,
    ensures
        frame_after_all(start, earlier.push((good, 0)) + failed).data == 0,
        frame_after_all(start, earlier.push((good, 0)) + failed).width == good.width,
        frame_after_all(start, earlier.push((good, 0)) + failed).height == good.height,
        frame_after_all(start, earlier.push((good, 0))) == good,
{
    let upto = earlier.push((good, 0));
    assert(upto.drop_last() == earlier);
    assert(frame_after_all(start, upto) == good);
    lemma_frame_after_all_splits(start, upto, failed);
    lemma_failures_hide_frame_and_keep_size(good, failed);
}

/// Captures one after another give what the later ones give on the frame
/// that the earlier ones left.
pub proof fn lemma_frame_after_all_splits(
    start: CImage,
    first: Seq<(CImage, i32)>,
    second: Seq<(CImage, i32)>,
)
    ensures
        frame_after_all(start, first + second) == frame_after_all(
            frame_after_all(start, first),
            second,
        ),
    decreases second.len(),
{
    if second.len() == 0 {
        assert(first + second == first);
    } else {
        assert((first + second).drop_last() == first + second.drop_last());
        assert((first + second).last() == second.last());
        lemma_frame_after_all_splits(start, first, second.drop_last());
    }
}

/// The capability that a capture backend gives to its callers.
pub trait ScreenCapture {
    /// The descriptor that the backend holds now. Its extent is that of the
    /// last good frame; its data is null when no frame may be read.
    spec fn image(&self) -> CImage;

    /// Takes what the native capture wrote and reported. After a failure no
    /// frame can be read, the extent stays as it was, and the backend can
    /// capture again.
    fn capture(&mut self, img: CImage, err: CError) -> (r: Result<(), CError>)
        ensures
            final(self).image() == frame_after(old(self).image(), img, err.code),
            err.code != 0 ==> r == Err::<(), CError>(err),
            err.code == 0 ==> r == Ok::<(), CError>(()),
    ;

    /// The last good frame, or none: before the first capture, and after a
    /// capture that failed.
    fn pixel_provider(&self) -> (r: PixelProvider)
        ensures
            self.image().data == 0 ==> r == PixelProvider::Absent,
            self.image().data != 0 ==> r == PixelProvider::BGR0(self.image()),
    ;

    /// Width and height of the last good frame; zero before the first.
    fn size(&self) -> (r: (usize, usize))
        ensures
            r.0 == self.image().width,
            r.1 == self.image().height,
    ;
}

} // verus!
