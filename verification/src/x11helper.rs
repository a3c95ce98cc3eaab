//! The display connection, the capturable targets that are derived from it,
//! and the account of who still holds the display.
//!
//! Native handles are plain addresses here; zero is the null handle. Every
//! function that follows a native call takes what that call reported.

use crate::cerror::{kind_of, CError, ErrorKind, CODE_INVALID_DEVICE_NAME};
use crate::native_text::{lossy_text, text_from_bytes};
use vstd::prelude::*;
use vstd::utf8::{decode_utf8, valid_utf8};

verus! {

/// How many targets one enumeration asks for at most.
pub const MAX_CAPTURABLES: usize = 128;

/// The bit pattern of the binary64 number one.
pub const ONE_BITS: u64 = 0x3FF0_0000_0000_0000;

/// The bit pattern of the binary64 number negative zero.
pub const NEGATIVE_ZERO_BITS: u64 = 0x8000_0000_0000_0000;

/// Whether `bits` is the pattern of a binary64 number between zero and one,
/// both included. The patterns of the numbers from positive zero up to one
/// are the integers up to `ONE_BITS`; negative zero equals zero.
pub open spec fn is_unit_fraction(bits: u64) -> bool {
    bits <= ONE_BITS || bits == NEGATIVE_ZERO_BITS
}

/// The bounding box of a target, relative to the full screen. Each field
/// holds the bit pattern of a binary64 number.
#[derive(Clone, Copy, Debug, PartialEq, Eq, Structural)]
pub struct CaptureGeometry {
    pub x: u64,
    pub y: u64,
    pub width: u64,
    pub height: u64,
}

impl CaptureGeometry {
    /// Whether all four values are fractions of the full extent.
    pub open spec fn relative(&self) -> bool {
        &&& is_unit_fraction(self.x)
        &&& is_unit_fraction(self.y)
        &&& is_unit_fraction(self.width)
        &&& is_unit_fraction(self.height)
    }

    /// Tests `relative`.
    pub fn is_relative(&self) -> (r: bool)
        ensures
            r == self.relative(),
    {
        (self.x <= ONE_BITS || self.x == NEGATIVE_ZERO_BITS) && (self.y <= ONE_BITS || self.y
            == NEGATIVE_ZERO_BITS) && (self.width <= ONE_BITS || self.width == NEGATIVE_ZERO_BITS)
            && (self.height <= ONE_BITS || self.height == NEGATIVE_ZERO_BITS)
    }
}

/// The account of a display connection: its handle, how many holders are
/// alive, and whether it has been closed.
pub struct DisplayState {
    pub handle: usize,
    pub holders: nat,
    pub closed: bool,
}

impl DisplayState {
    /// A display is closed exactly when nobody holds it.
    pub open spec fn wf(self) -> bool {
        &&& self.handle != 0
        &&& self.closed <==> self.holders == 0
    }

    /// The account right after the display was opened: its opener holds it.
    pub open spec fn opened(handle: usize) -> DisplayState {
        DisplayState { handle, holders: 1, closed: false }
    }

    /// One more holder. A closed display takes none.
    pub open spec fn acquire(self) -> DisplayState {
        if self.closed {
            self
        } else {
            DisplayState { holders: self.holders + 1, ..self }
        }
    }

    /// `n` more holders. A closed display takes none.
    pub open spec fn acquire_many(self, n: nat) -> DisplayState {
        if self.closed {
            self
        } else {
            DisplayState { holders: self.holders + n, ..self }
        }
    }

    /// One holder less. The display closes with its last holder.
    pub open spec fn release(self) -> DisplayState {
        if self.holders == 0 {
            self
        } else {
            DisplayState {
                holders: (self.holders - 1) as nat,
                closed: self.holders == 1,
                ..self
            }
        }
    }
}

/// One step in the life of a display's holders.
#[derive(Clone, Copy, Debug, PartialEq, Eq, Structural)]
pub enum HolderEvent {
    /// A holder came to be: a target was enumerated or duplicated.
    Acquire,
    /// A holder was dropped.
    Release,
}

/// The account after `events`, applied in order.
pub open spec fn after_events(s: DisplayState, events: Seq<HolderEvent>) -> DisplayState
    decreases events.len(),
{
    if events.len() == 0 {
        s
    } else {
        let before = after_events(s, events.drop_last());
        match events.last() {
            HolderEvent::Acquire => before.acquire(),
            HolderEvent::Release => before.release(),
        }
    }
}

/// How many holders are alive after `events`, counted from the events alone:
/// the opener, one more for each acquisition, one less for each drop.
pub open spec fn alive_after(events: Seq<HolderEvent>) -> int
    decreases events.len(),
{
    if events.len() == 0 {
        1
    } else {
        match events.last() {
            HolderEvent::Acquire => alive_after(events.drop_last()) + 1,
            HolderEvent::Release => alive_after(events.drop_last()) - 1,
        }
    }
}

/// Whether each event of `events` comes from a holder that is alive: a
/// holder is duplicated or dropped only while it exists.
pub open spec fn possible(events: Seq<HolderEvent>) -> bool {
    forall|k: int| 0 <= k < events.len() ==> alive_after(#[trigger] events.take(k)) > 0
}

/// Taking `n` holders at once, as an enumeration does, is taking one holder
/// `n` times.
pub proof fn lemma_acquire_many_is_repeated_acquire(s: DisplayState, n: nat)
    ensures
        after_events(s, Seq::new(n, |i: int| HolderEvent::Acquire)) == s.acquire_many(n),
    decreases n,
{
    let events = Seq::new(n, |i: int| HolderEvent::Acquire);
    if n > 0 {
        let front = Seq::new((n - 1) as nat, |i: int| HolderEvent::Acquire);
        assert(events.drop_last() == front);
        lemma_acquire_many_is_repeated_acquire(s, (n - 1) as nat);
    }
}

/// Whatever is done to an account that is in order leaves it in order.
pub proof fn lemma_account_stays_in_order(s: DisplayState, events: Seq<HolderEvent>)
    requires
        s.wf(),
    ensures
        after_events(s, events).wf(),
        after_events(s, events).handle == s.handle,
    decreases events.len(),
{
    if events.len() > 0 {
        lemma_account_stays_in_order(s, events.drop_last());
    }
}

/// Through every sequence of duplications and drops, the account counts the
/// holders that are alive, and the display is closed only once none is left.
pub proof fn lemma_display_outlives_holders(handle: usize, events: Seq<HolderEvent>)
    requires
        handle != 0,
        possible(events),
    ensures
        after_events(DisplayState::opened(handle), events).holders == alive_after(events),
        after_events(DisplayState::opened(handle), events).closed <==> alive_after(events) == 0,
        alive_after(events) >= 0,
    decreases events.len(),
{
    let s = DisplayState::opened(handle);
    lemma_account_stays_in_order(s, events);
    if events.len() > 0 {
        let front = events.drop_last();
        assert forall|k: int| 0 <= k < front.len() implies alive_after(#[trigger] front.take(k))
            > 0 by {
            assert(front.take(k) == events.take(k));
        }
        lemma_display_outlives_holders(handle, front);
        assert(events.take(events.len() - 1) == front);
        lemma_account_stays_in_order(s, front);
    }
}

/// A display connection with the account of its holders.
pub struct XDisplay {
    handle: usize,
    holders: usize,
    closed: bool,
}

impl View for XDisplay {
    type V = DisplayState;

    closed spec fn view(&self) -> DisplayState {
        DisplayState { handle: self.handle, holders: self.holders as nat, closed: self.closed }
    }
}

impl XDisplay {
    #[verifier::type_invariant]
    spec fn in_order(self) -> bool {
        self@.wf()
    }

    /// Takes what opening the display returned. A null handle means that
    /// opening failed, and then there is no display at all.
    pub fn new(handle: usize) -> (r: Option<XDisplay>)
        ensures
            r is Some <==> handle != 0,
            r matches Some(d) ==> d@ == DisplayState::opened(handle),
    {
        if handle == 0 {
            None
        } else {
            Some(XDisplay { handle, holders: 1, closed: false })
        }
    }

    /// The native handle.
    pub fn handle(&self) -> (r: usize)
        ensures
            r == self@.handle,
            r != 0,
    {
        proof {
            use_type_invariant(self);
        }
        self.handle
    }

    /// How many holders are alive.
    pub fn holders(&self) -> (r: usize)
        ensures
            r == self@.holders,
    {
        self.holders
    }

    /// Whether the display has been closed, which is when no holder is left.
    pub fn is_closed(&self) -> (r: bool)
        ensures
            r == self@.closed,
            r == (self@.holders == 0),
    {
        proof {
            use_type_invariant(self);
        }
        self.closed
    }

    /// Counts one more holder. Refuses, and changes nothing, if the display
    /// is closed or the count is at its limit.
    pub fn acquire(&mut self) -> (ok: bool)
        ensures
            ok == (!old(self)@.closed && old(self)@.holders < usize::MAX),
            ok ==> final(self)@ == old(self)@.acquire(),
            !ok ==> final(self)@ == old(self)@,
            old(self)@.wf(),
            final(self)@.wf(),
    {
        proof {
            use_type_invariant(&*self);
        }
        if self.closed || self.holders == usize::MAX {
            false
        } else {
            self.holders = self.holders + 1;
            true
        }
    }

    /// Counts one holder less. Returns whether that was the last one: then
    /// the display is closed from now on, and the caller closes the native
    /// connection, once.
    pub fn release(&mut self) -> (last: bool)
        ensures
            final(self)@ == old(self)@.release(),
            last == (old(self)@.holders == 1),
            last == (!old(self)@.closed && final(self)@.closed),
            old(self)@.wf(),
            final(self)@.wf(),
    {
        proof {
            use_type_invariant(&*self);
        }
        if self.holders == 0 {
            false
        } else if self.holders == 1 {
            *self = XDisplay { handle: self.handle, holders: 0, closed: true };
            true
        } else {
            self.holders = self.holders - 1;
            false
        }
    }
}

/// What is left to do when a target is dropped, in this order.
#[derive(Clone, Copy, Debug, PartialEq, Eq, Structural)]
pub struct Teardown {
    /// The target handle to destroy.
    pub destroy: usize,
    /// The display to close after that, if the target was its last holder.
    pub close_display: Option<usize>,
}

/// Why a bounding box could not be had.
#[derive(Debug)]
pub enum GeometryError {
    /// The native query failed, with this outcome.
    Native(CError),
    /// The native query reported this box, which does not lie within the
    /// full screen.
    OutOfRange(CaptureGeometry),
}

/// What a target is made of.
pub struct TargetState {
    /// The native handle of the target.
    pub handle: usize,
    /// The handle of the display that the target holds.
    pub display: usize,
}

/// One capturable target: a window or a screen.
#[derive(Debug)]
pub struct X11Capturable {
    handle: usize,
    // the display that stays open while this target exists
    disp: usize,
}

impl View for X11Capturable {
    type V = TargetState;

    closed spec fn view(&self) -> TargetState {
        TargetState { handle: self.handle, display: self.disp }
    }
}

/// The handles of `targets`, in order.
pub open spec fn handles_of(targets: Seq<X11Capturable>) -> Seq<usize> {
    targets.map_values(|t: X11Capturable| t@.handle)
}

/// Whether each of `targets` holds the display `display`.
pub open spec fn all_hold(targets: Seq<X11Capturable>, display: usize) -> bool {
    forall|i: int| 0 <= i < targets.len() ==> (#[trigger] targets[i])@.display == display
}

/// The handles that an enumeration yields, if it yields any list at all:
/// none on a fatal code, an empty list on the code for "no targets", and
/// the first `count` of `handles` on success.
pub open spec fn enumerated(handles: Seq<usize>, count: int, code: i32) -> Option<Seq<usize>> {
    match kind_of(code) {
        ErrorKind::Fatal => None,
        ErrorKind::NoTargets => Some(Seq::empty()),
        ErrorKind::Success => Some(handles.take(count)),
    }
}

/// An enumeration yields a list exactly on the code of success and on the
/// code for "no targets"; on the latter the list is empty, and it never
/// holds more than was asked for.
pub proof fn lemma_enumeration_yields_a_list_on_two_codes(
    handles: Seq<usize>,
    count: int,
    code: i32,
)
    requires
        0 <= count <= handles.len() <= MAX_CAPTURABLES,
    ensures
        enumerated(handles, count, code) is Some <==> (code == 0 || code == 2),
        code == 2 ==> enumerated(handles, count, code) == Some(Seq::<usize>::empty()),
        enumerated(handles, count, code) matches Some(list) ==> list.len() <= MAX_CAPTURABLES,
{
}

impl X11Capturable {
    /// The native handle.
    pub fn handle(&self) -> (r: usize)
        ensures
            r == self@.handle,
    {
        self.handle
    }

    /// The handle of the display that this target holds.
    pub fn display(&self) -> (r: usize)
        ensures
            r == self@.display,
    {
        self.disp
    }

    /// Takes the bytes of the name that the native layer holds for this
    /// target, without the terminator, and returns the name as text for a
    /// person to pick the target by.
    pub fn name(&self, raw: &[u8]) -> (r: String)
        ensures
            r@ == lossy_text(raw@),
            valid_utf8(raw@) ==> r@ == decode_utf8(raw@),
    {
        text_from_bytes(raw)
    }

    /// Takes what the native query for the bounding box reported. Any
    /// nonzero code is a failure. Else the four values are the box, if each
    /// is a fraction of the full extent; a box that is not is refused.
    pub fn geometry(&self, x: u64, y: u64, width: u64, height: u64, err: CError) -> (r: Result<
        CaptureGeometry,
        GeometryError,
    >)
        ensures
            r matches Ok(g) ==> g.relative(),
            err.code != 0 ==> r == Err::<CaptureGeometry, GeometryError>(
                GeometryError::Native(err),
            ),
            err.code == 0 && (CaptureGeometry { x, y, width, height }).relative() ==> r == Ok::<
                CaptureGeometry,
                GeometryError,
            >((CaptureGeometry { x, y, width, height })),
            err.code == 0 && !(CaptureGeometry { x, y, width, height }).relative() ==> r == Err::<
                CaptureGeometry,
                GeometryError,
            >(GeometryError::OutOfRange((CaptureGeometry { x, y, width, height }))),
    {
        if err.is_err() {
            return Err(GeometryError::Native(err));
        }
        let found = CaptureGeometry { x, y, width, height };
        if found.is_relative() {
            Ok(found)
        } else {
            Err(GeometryError::OutOfRange(found))
        }
    }

    /// Takes what the native hook that runs before an input event reported.
    /// Any nonzero code is a failure.
    pub fn before_input(&mut self, err: CError) -> (r: Result<(), CError>)
        ensures
            final(self)@ == old(self)@,
            err.code != 0 ==> r == Err::<(), CError>(err),
            err.code == 0 ==> r == Ok::<(), CError>(()),
    {
        if err.is_err() {
            Err(err)
        } else {
            Ok(())
        }
    }

    /// A second, independent target for the native duplicate `duplicate` of
    /// this one. It holds the same display as this one, whose context
    /// `context` is, and counts there as one more holder.
    pub fn clone(&self, context: &mut X11Context, duplicate: usize) -> (r: X11Capturable)
        requires
            old(context)@.handle == self@.display,
            !old(context)@.closed,
            old(context)@.holders < usize::MAX,
        ensures
            r@.handle == duplicate,
            r@.display == self@.display,
            final(context)@ == old(context)@.acquire(),
            old(context)@.wf(),
            final(context)@.wf(),
    {
        proof {
            use_type_invariant(&context.disp);
        }
        let ok = context.disp.acquire();
        assert(ok);
        X11Capturable { handle: duplicate, disp: self.disp }
    }

    /// Drops this target, a holder of the display whose context `context`
    /// is. Its handle is to be destroyed, and after that the display closed
    /// if nobody else holds it.
    pub fn release(self, context: &mut X11Context) -> (r: Teardown)
        requires
            old(context)@.handle == self@.display,
        ensures
            r.destroy == self@.handle,
            final(context)@ == old(context)@.release(),
            r.close_display == if old(context)@.holders == 1 {
                Some(self@.display)
            } else {
                None
            },
            old(context)@.wf(),
            final(context)@.wf(),
    {
        let close_display = context.release();
        Teardown { destroy: self.handle, close_display }
    }
}

/// The connection to the windowing system, shared by its opener and by every
/// target that was derived from it.
pub struct X11Context {
    disp: XDisplay,
}

impl View for X11Context {
    type V = DisplayState;

    closed spec fn view(&self) -> DisplayState {
        self.disp@
    }
}

impl X11Context {
    /// Takes what opening the display returned. A null handle means that
    /// opening failed, and then there is no context.
    pub fn new(handle: usize) -> (r: Option<X11Context>)
        ensures
            r is Some <==> handle != 0,
            r matches Some(c) ==> c@ == DisplayState::opened(handle),
    {
        match XDisplay::new(handle) {
            Some(disp) => Some(X11Context { disp }),
            None => None,
        }
    }

    /// The display and its account.
    pub fn display(&self) -> (r: &XDisplay)
        ensures
            r@ == self@,
            self@.wf(),
    {
        proof {
            use_type_invariant(&self.disp);
        }
        &self.disp
    }

    /// Takes what the native enumeration reported: the handles it wrote,
    /// how many of them, and its outcome. The native layer is asked for
    /// `MAX_CAPTURABLES` handles at most.
    ///
    /// The code for "no targets" gives an empty list and no error. Any other
    /// nonzero code is a failure that carries the outcome, and no target.
    /// On success the first `count` handles become targets, in order, each
    /// a holder of this display.
    pub fn capturables(&mut self, handles: &[usize], count: usize, err: CError) -> (r: Result<
        Vec<X11Capturable>,
        CError,
    >)
        requires
            !old(self)@.closed,
            handles@.len() <= MAX_CAPTURABLES,
            err.code == 0 ==> count <= handles@.len() && old(self)@.holders + count <= usize::MAX,
        ensures
            old(self)@.wf(),
            final(self)@.wf(),
            r is Ok <==> (err.code == 0 || err.code == 2),
            r is Ok <==> enumerated(handles@, count as int, err.code) is Some,
            r matches Ok(targets) ==> {
                &&& Some(handles_of(targets@)) == enumerated(handles@, count as int, err.code)
                &&& all_hold(targets@, old(self)@.handle)
                &&& targets@.len() <= MAX_CAPTURABLES
            },
            kind_of(err.code) == ErrorKind::Fatal ==> {
                &&& r == Err::<Vec<X11Capturable>, CError>(err)
                &&& final(self)@ == old(self)@
            },
            kind_of(err.code) == ErrorKind::NoTargets ==> {
                &&& r is Ok
                &&& r->Ok_0@.len() == 0
                &&& final(self)@ == old(self)@
            },
            kind_of(err.code) == ErrorKind::Success ==> {
                &&& r is Ok
                &&& r->Ok_0@.len() == count
                &&& handles_of(r->Ok_0@) == handles@.take(count as int)
                &&& final(self)@ == old(self)@.acquire_many(count as nat)
            },
    {
        proof {
            use_type_invariant(&self.disp);
        }
        match err.kind() {
            ErrorKind::Fatal => {
                return Err(err);
            },
            ErrorKind::NoTargets => {
                let none: Vec<X11Capturable> = Vec::new();
                assert(handles_of(none@) =~= Seq::<usize>::empty());
                return Ok(none);
            },
            ErrorKind::Success => {},
        }
        let display = self.disp.handle();
        let mut targets: Vec<X11Capturable> = Vec::new();
        let mut i: usize = 0;
        while i < count
            invariant
                i <= count <= handles@.len(),
                old(self)@.wf(),
                !old(self)@.closed,
                old(self)@.holders + count <= usize::MAX,
                display == old(self)@.handle,
                self@ == old(self)@.acquire_many(i as nat),
                targets@.len() == i,
                handles_of(targets@) == handles@.take(i as int),
                all_hold(targets@, display),
            decreases count - i,
        {
            let ok = self.disp.acquire();
            assert(ok);
            targets.push(X11Capturable { handle: handles[i], disp: display });
            proof {
                let before = targets@.drop_last();
                assert(handles_of(targets@) =~= handles_of(before).push(handles@[i as int]));
                assert(handles@.take(i + 1) =~= handles@.take(i as int).push(handles@[i as int]));
                assert forall|k: int| 0 <= k < targets@.len() implies (
                #[trigger] targets@[k])@.display == display by {
                    if k < before.len() {
                        assert(targets@[k] == before[k]);
                    }
                }
            }
            i = i + 1;
        }
        Ok(targets)
    }

    /// Makes what is handed to the native mapping of an input device onto
    /// the whole screen: the display, the name of the device with its
    /// terminator, and the flag that tells a pen from other devices. A name
    /// that holds a NUL byte cannot be handed over: then there is no
    /// request, and the native mapping is not to be called.
    pub fn map_input_request(&self, device_name: &[u8], pen: bool) -> (r: Option<
        (usize, Vec<u8>, i32),
    >)
        ensures
            r is None <==> device_name@.contains(0u8),
            r matches Some((disp, name, flag)) ==> disp == self@.handle && name@
                == device_name@.push(0u8) && flag == (if pen {
                1i32
            } else {
                0i32
            }),
    {
        let mut name: Vec<u8> = Vec::new();
        let mut i: usize = 0;
        while i < device_name.len()
            invariant
                i <= device_name@.len(),
                name@ == device_name@.take(i as int),
                !device_name@.take(i as int).contains(0u8),
            decreases device_name@.len() - i,
        {
            let byte = device_name[i];
            if byte == 0 {
                assert(device_name@[i as int] == 0u8);
                return None;
            }
            name.push(byte);
            proof {
                let upto = device_name@.take(i + 1);
                assert(upto =~= device_name@.take(i as int).push(byte));
                assert forall|k: int| 0 <= k < upto.len() implies upto[k] != 0u8 by {
                    if k < i {
                        assert(device_name@.take(i as int)[k] == upto[k]);
                        assert(device_name@.take(i as int).contains(upto[k]));
                    }
                }
            }
            i = i + 1;
        }
        assert(device_name@.take(i as int) =~= device_name@);
        name.push(0);
        let flag: i32 = if pen {
            1
        } else {
            0
        };
        Some((self.disp.handle(), name, flag))
    }

    /// Takes what the native mapping of an input device reported, or nothing
    /// if there was no request to call it with. Either way the failure is
    /// advisory: an outcome is handed back for the log, never as an error,
    /// and the context is as before. Where the native mapping was not
    /// called, the outcome is the library's own, with the code
    /// `CODE_INVALID_DEVICE_NAME`.
    pub fn map_input_device_to_entire_screen(&mut self, outcome: Option<CError>) -> (r: CError)
        ensures
            final(self)@ == old(self)@,
            outcome matches Some(err) ==> r == err,
            outcome is None ==> r.code == CODE_INVALID_DEVICE_NAME && r.message@
                == "device name holds a NUL byte"@,
    {
        match outcome {
            Some(err) => err,
            None => CError {
                code: CODE_INVALID_DEVICE_NAME,
                message: "device name holds a NUL byte".to_owned(),
            },
        }
    }

    /// Drops one holder of the display. Returns the display to close, if
    /// that was the last holder.
    pub fn release(&mut self) -> (r: Option<usize>)
        ensures
            final(self)@ == old(self)@.release(),
            r == if old(self)@.holders == 1 {
                Some(old(self)@.handle)
            } else {
                None
            },
            old(self)@.wf(),
            final(self)@.wf(),
    {
        proof {
            use_type_invariant(&self.disp);
        }
        if self.disp.release() {
            Some(self.disp.handle())
        } else {
            None
        }
    }
}

} // verus!
