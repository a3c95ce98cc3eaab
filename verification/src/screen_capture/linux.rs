//! The capture session on one target.

use crate::cerror::CError;
use crate::screen_capture::{frame_after, CImage, PixelProvider, ScreenCapture};
use crate::x11helper::{TargetState, X11Capturable};
use vstd::prelude::*;

verus! {

/// What a session is made of.
pub struct SessionState {
    /// The native session, to be stopped once.
    pub handle: usize,
    /// The target that the session keeps alive.
    pub target: TargetState,
    /// Whether the cursor is captured too.
    pub capture_cursor: bool,
    /// The frame descriptor.
    pub img: CImage,
}

/// A running capture session. It owns its target, so that the target is
/// not destroyed before the session has stopped.
pub struct ScreenCaptureX11 {
    handle: usize,
    capturable: X11Capturable,
    img: CImage,
    capture_cursor: bool,
}

impl View for ScreenCaptureX11 {
    type V = SessionState;

    closed spec fn view(&self) -> SessionState {
        SessionState {
            handle: self.handle,
            target: self.capturable@,
            capture_cursor: self.capture_cursor,
            img: self.img,
        }
    }
}

impl ScreenCaptureX11 {
    /// Takes what starting the native session on `capturable` returned. If
    /// the start failed there is no session, hence nothing that could stop
    /// one: the outcome comes back together with the target, which its
    /// owner still has to drop.
    pub fn new(capturable: X11Capturable, capture_cursor: bool, handle: usize, err: CError) -> (r:
        Result<ScreenCaptureX11, (CError, X11Capturable)>)
        ensures
            err.code != 0 ==> r == Err::<ScreenCaptureX11, (CError, X11Capturable)>(
                (err, capturable),
            ),
            err.code == 0 ==> r is Ok && r->Ok_0@ == (SessionState {
                handle,
                target: capturable@,
                capture_cursor,
                img: CImage { data: 0, width: 0, height: 0 },
            }),
    {
        if err.is_err() {
            Err((err, capturable))
        } else {
            Ok(ScreenCaptureX11 { handle, capturable, img: CImage::new(), capture_cursor })
        }
    }

    /// The native session.
    pub fn handle(&self) -> (r: usize)
        ensures
            r == self@.handle,
    {
        self.handle
    }

    /// Whether the cursor is captured too.
    pub fn capture_cursor(&self) -> (r: bool)
        ensures
            r == self@.capture_cursor,
    {
        self.capture_cursor
    }

    /// The descriptor to hand to the next native capture.
    pub fn image(&self) -> (r: CImage)
        ensures
            r == self@.img,
    {
        self.img
    }

    /// Ends the session. It is used up, so it cannot be stopped twice. The
    /// native session comes back to be stopped first, and the target to be
    /// dropped after that.
    pub fn stop(self) -> (r: (usize, X11Capturable))
        ensures
            r.0 == self@.handle,
            r.1@ == self@.target,
    {
        (self.handle, self.capturable)
    }
}

impl ScreenCapture for ScreenCaptureX11 {
    open spec fn image(&self) -> CImage {
        self@.img
    }

    fn capture(&mut self, img: CImage, err: CError) -> (r: Result<(), CError>)
        ensures
            final(self)@ == (SessionState {
                img: frame_after(old(self)@.img, img, err.code),
                ..old(self)@
            }),
    {
        if err.is_err() {
            self.img.data = 0;
            Err(err)
        } else {
            self.img = img;
            Ok(())
        }
    }

    fn pixel_provider(&self) -> (r: PixelProvider) {
        if self.img.data == 0 {
            PixelProvider::Absent
        } else {
            PixelProvider::BGR0(self.img)
        }
    }

    fn size(&self) -> (r: (usize, usize)) {
        (self.img.width as usize, self.img.height as usize)
    }
}

} // verus!
