//! What the server does with each message of a client: which steps it takes
//! against the display, the target and the capture session, in which order,
//! and what it answers. The steps themselves are carried out by the caller,
//! who reports how each one ended.

use crate::cerror::CError;
use crate::protocol::{ClientConfiguration, MessageInbound, MessageOutbound, PointerEvent};
use vstd::prelude::*;

verus! {

/// One step for the caller to carry out.
#[derive(Clone, Copy, Debug, PartialEq, Eq, Structural)]
pub enum Action {
    /// Enumerate the targets and report to `on_capturables`.
    ListCapturables,
    /// Bind the target and the parameters of the configuration, start a
    /// capture session on it and report to `on_configured`.
    Configure(ClientConfiguration),
    /// Run the hook of the bound target that precedes an input event.
    BeforeInput,
    /// Issue the native input event for this pointer event.
    Inject(PointerEvent),
    /// Capture and encode one frame and report to `on_frame`.
    CaptureFrame,
}

/// What the dispatcher remembers of one client.
#[derive(Clone, Copy, Debug, PartialEq, Eq)]
pub struct DispatchState {
    /// Whether a configuration was accepted, so that a target is bound.
    pub bound: bool,
    /// Whether a frame is being captured or encoded.
    pub in_flight: bool,
    /// The frame size of the video stream that the client was told of, if
    /// it was told of one since the last configuration.
    pub announced: Option<(usize, usize)>,
}

impl DispatchState {
    /// The steps that answer `msg`, in order.
    pub open spec fn actions(self, msg: MessageInbound) -> Seq<Action> {
        match msg {
            MessageInbound::PointerEvent(event) => if self.bound {
                seq![Action::BeforeInput, Action::Inject(event)]
            } else {
                seq![]
            },
            MessageInbound::TryGetFrame => if self.bound && !self.in_flight {
                seq![Action::CaptureFrame]
            } else {
                seq![]
            },
            MessageInbound::GetCapturableList => seq![Action::ListCapturables],
            MessageInbound::Config(config) => seq![Action::Configure(config)],
        }
    }

    /// The state after `msg`.
    pub open spec fn received(self, msg: MessageInbound) -> DispatchState {
        match msg {
            MessageInbound::TryGetFrame => if self.bound {
                DispatchState { in_flight: true, ..self }
            } else {
                self
            },
            _ => self,
        }
    }

    /// The state after an attempt to configure that ended as `accepted`
    /// says.
    pub open spec fn configured(self, accepted: bool) -> DispatchState {
        if accepted {
            DispatchState { bound: true, announced: None, ..self }
        } else {
            self
        }
    }

    /// The state after a frame of `size` was captured, or after the capture
    /// failed.
    pub open spec fn framed(self, size: Option<(usize, usize)>) -> DispatchState {
        match size {
            Some(s) => DispatchState { in_flight: false, announced: Some(s), ..self },
            None => DispatchState { in_flight: false, ..self },
        }
    }
}

/// The answer to a request for the list of targets, once the enumeration has
/// given the names or has failed.
pub open spec fn capturables_reply(result: Result<Vec<String>, CError>) -> MessageOutbound {
    match result {
        Ok(names) => MessageOutbound::CapturableList(names),
        Err(e) => MessageOutbound::Error(e.message),
    }
}

/// The answer to a configuration, once it was accepted or refused with a
/// reason.
pub open spec fn config_reply(result: Result<(), String>) -> MessageOutbound {
    match result {
        Ok(_) => MessageOutbound::ConfigOk,
        Err(reason) => MessageOutbound::ConfigError(reason),
    }
}

/// What the client is told when a capture has ended: of a fresh video
/// stream, if the frame has a size it was not told of; of the failure, if
/// the capture failed; else nothing.
pub open spec fn frame_reply(s: DispatchState, result: Result<(usize, usize), CError>) -> Option<
    MessageOutbound,
> {
    match result {
        Ok(size) => if s.announced == Some(size) {
            None
        } else {
            Some(MessageOutbound::NewVideo)
        },
        Err(e) => Some(MessageOutbound::Error(e.message)),
    }
}

/// The size that `result` tells of, if the capture succeeded.
pub open spec fn frame_size(result: Result<(usize, usize), CError>) -> Option<(usize, usize)> {
    match result {
        Ok(size) => Some(size),
        Err(_) => None,
    }
}

/// The first frame after an accepted configuration starts a fresh video
/// stream, whatever was announced before: no frame of the new configuration
/// reaches the client unannounced.
pub proof fn lemma_new_configuration_is_announced(s: DispatchState, size: (usize, usize))
    ensures
        frame_reply(s.configured(true), Ok(size)) == Some(MessageOutbound::NewVideo),
        s.configured(true).bound,
        s.configured(false) == s,
{
}

/// A stream that was announced is not announced again while its frames keep
/// their size, and is announced anew as soon as the size changes.
pub proof fn lemma_stream_is_announced_once(
    s: DispatchState,
    size: (usize, usize),
    next: (usize, usize),
)
    ensures
        frame_reply(s.framed(Some(size)), Ok(next)) == if next == size {
            None
        } else {
            Some(MessageOutbound::NewVideo)
        },
        !s.framed(Some(size)).in_flight,
        !s.framed(None).in_flight,
        s.framed(None).announced == s.announced,
{
}

/// The place in the enumeration of the target that `config` names, if the
/// enumeration has that many targets.
pub fn target_index(config: &ClientConfiguration, available: usize) -> (r: Option<usize>)
    ensures
        r == if config.capturable_id < available {
            Some(config.capturable_id)
        } else {
            None::<usize>
        },
{
    if config.capturable_id < available {
        Some(config.capturable_id)
    } else {
        None
    }
}

/// The state after the messages `msgs`, received in order with no capture
/// ending in between.
pub open spec fn received_all(s: DispatchState, msgs: Seq<MessageInbound>) -> DispatchState
    decreases msgs.len(),
{
    if msgs.len() == 0 {
        s
    } else {
        received_all(s, msgs.drop_last()).received(msgs.last())
    }
}

/// While a capture is in flight, whatever the client sends starts no other:
/// a request for a frame is dropped with no step at all, and the state
/// stays as it is.
pub proof fn lemma_one_capture_at_a_time(s: DispatchState, msgs: Seq<MessageInbound>)
    requires
        s.bound,
        s.in_flight,
    ensures
        received_all(s, msgs) == s,
        forall|i: int|
            0 <= i < msgs.len() ==> !(#[trigger] received_all(s, msgs.take(i)).actions(
                msgs[i],
            )).contains(Action::CaptureFrame),
        forall|i: int|
            0 <= i < msgs.len() && msgs[i] == MessageInbound::TryGetFrame ==> (
            #[trigger] received_all(s, msgs.take(i)).actions(msgs[i])).len() == 0,
    decreases msgs.len(),
{
    if msgs.len() > 0 {
        let front = msgs.drop_last();
        lemma_one_capture_at_a_time(s, front);
        assert forall|i: int| 0 <= i < msgs.len() implies received_all(s, msgs.take(i)) == s by {
            if i < front.len() {
                assert(msgs.take(i) == front.take(i));
                lemma_one_capture_at_a_time(s, front.take(i));
            } else {
                assert(msgs.take(i) == front);
            }
        }
        assert forall|i: int| 0 <= i < msgs.len() implies !(#[trigger] received_all(
            s,
            msgs.take(i),
        ).actions(msgs[i])).contains(Action::CaptureFrame) by {
            let steps = s.actions(msgs[i]);
            assert(received_all(s, msgs.take(i)) == s);
            assert(forall|k: int| 0 <= k < steps.len() ==> steps[k] != Action::CaptureFrame);
        }
    }
}

/// Decides, message by message, what is done for one client.
pub struct Dispatcher {
    state: DispatchState,
}

impl View for Dispatcher {
    type V = DispatchState;

    closed spec fn view(&self) -> DispatchState {
        self.state
    }
}

impl Dispatcher {
    /// A client that has configured nothing yet.
    pub fn new() -> (r: Dispatcher)
        ensures
            r@ == (DispatchState { bound: false, in_flight: false, announced: None }),
    {
        Dispatcher { state: DispatchState { bound: false, in_flight: false, announced: None } }
    }

    /// What the dispatcher remembers.
    pub fn state(&self) -> (r: DispatchState)
        ensures
            r == self@,
    {
        self.state
    }

    /// Takes one message of the client and returns the steps to carry out,
    /// in order.
    ///
    /// A pointer event is applied to the bound target, the hook first. A
    /// request for a frame starts one capture, unless one is in flight or no
    /// target is bound: then the request is dropped, with no step and no
    /// answer.
    pub fn on_message(&mut self, msg: MessageInbound) -> (r: Vec<Action>)
        ensures
            r@ == old(self)@.actions(msg),
            final(self)@ == old(self)@.received(msg),
    {
        let mut steps: Vec<Action> = Vec::new();
        match msg {
            MessageInbound::PointerEvent(event) => {
                if self.state.bound {
                    steps.push(Action::BeforeInput);
                    steps.push(Action::Inject(event));
                }
            },
            MessageInbound::TryGetFrame => {
                if self.state.bound {
                    if !self.state.in_flight {
                        steps.push(Action::CaptureFrame);
                    }
                    self.state.in_flight = true;
                }
            },
            MessageInbound::GetCapturableList => {
                steps.push(Action::ListCapturables);
            },
            MessageInbound::Config(config) => {
                steps.push(Action::Configure(config));
            },
        }
        assert(steps@ =~= old(self)@.actions(msg));
        steps
    }

    /// Takes the names of the enumerated targets, or the failure of the
    /// enumeration, and returns the answer: the list, which may be empty,
    /// or the message of the failure.
    pub fn on_capturables(&self, result: Result<Vec<String>, CError>) -> (r: MessageOutbound)
        ensures
            r == capturables_reply(result),
    {
        match result {
            Ok(names) => MessageOutbound::CapturableList(names),
            Err(e) => MessageOutbound::Error(e.message),
        }
    }

    /// Takes how the attempt to configure ended and returns the answer. An
    /// accepted configuration binds the target, and the client has yet to
    /// be told of its video stream; a refused one changes nothing and is
    /// answered with the reason.
    pub fn on_configured(&mut self, result: Result<(), String>) -> (r: MessageOutbound)
        ensures
            final(self)@ == old(self)@.configured(result is Ok),
            r == config_reply(result),
    {
        match result {
            Ok(_) => {
                self.state.bound = true;
                self.state.announced = None;
                MessageOutbound::ConfigOk
            },
            Err(reason) => MessageOutbound::ConfigError(reason),
        }
    }

    /// Takes how the capture that was in flight ended: the size of the
    /// frame, or the failure. Nothing is in flight after that. A frame whose
    /// size the client was not told of starts a fresh video stream, which is
    /// announced; a failure is answered with its message. Otherwise there is
    /// no message.
    pub fn on_frame(&mut self, result: Result<(usize, usize), CError>) -> (r: Option<
        MessageOutbound,
    >)
        ensures
            final(self)@ == old(self)@.framed(frame_size(result)),
            r == frame_reply(old(self)@, result),
    {
        self.state.in_flight = false;
        match result {
            Ok(size) => {
                let known = match self.state.announced {
                    Some(told) => told.0 == size.0 && told.1 == size.1,
                    None => false,
                };
                if known {
                    None
                } else {
                    self.state.announced = Some(size);
                    Some(MessageOutbound::NewVideo)
                }
            },
            Err(e) => Some(MessageOutbound::Error(e.message)),
        }
    }
}

} // verus!
