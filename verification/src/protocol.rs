//! The messages exchanged with a remote client, and the pointer event that
//! they carry. The transport and its byte format are not fixed here; the
//! tags, the field names and the button encoding are.

use vstd::prelude::*;

verus! {

/// The capture parameters that a client negotiates.
#[derive(Clone, Copy, Debug, PartialEq, Eq, Structural)]
pub struct ClientConfiguration {
    pub stylus_support: bool,
    pub faster_capture: bool,
    pub capturable_id: usize,
    pub capture_cursor: bool,
    pub max_width: usize,
    pub max_height: usize,
}

/// The kind of device behind a pointer event.
#[derive(Clone, Copy, Debug, PartialEq, Eq, Structural)]
pub enum PointerType {
    Unknown,
    Mouse,
    Pen,
    Touch,
}

/// What happened to the pointer.
#[derive(Clone, Copy, Debug, PartialEq, Eq, Structural)]
#[allow(non_camel_case_types)]
pub enum PointerEventType {
    DOWN,
    UP,
    CANCEL,
    MOVE,
}

/// The bits of the empty button set.
pub const NONE: u8 = 0b0000_0000;

/// The bit of the primary button.
pub const PRIMARY: u8 = 0b0000_0001;

/// The bit of the secondary button.
pub const SECONDARY: u8 = 0b0000_0010;

/// The bit of the auxiliary button.
pub const AUXILARY: u8 = 0b0000_0100;

/// The bit of the fourth button.
pub const FOURTH: u8 = 0b0000_1000;

/// The bit of the fifth button.
pub const FIFTH: u8 = 0b0001_0000;

/// The five bits that a button set may hold.
pub const BUTTON_MASK: u8 = 0b0001_1111;

/// A set of pointer buttons: primary, secondary, auxiliary, fourth, fifth,
/// one bit each. No other bit is ever stored.
#[derive(Clone, Copy, Debug, PartialEq, Eq, Structural)]
pub struct Button {
    bits: u8,
}

impl View for Button {
    type V = u8;

    closed spec fn view(&self) -> u8 {
        self.bits
    }
}

impl Button {
    #[verifier::type_invariant]
    spec fn only_defined_bits(self) -> bool {
        self.bits & !BUTTON_MASK == 0
    }

    /// The set as it travels: one unsigned byte.
    pub fn bits(&self) -> (r: u8)
        ensures
            r == self@,
            r & !BUTTON_MASK == 0,
    {
        proof {
            use_type_invariant(self);
        }
        self.bits
    }

    /// Reads a byte, dropping every bit that is not one of the five.
    pub fn from_bits_truncate(bits: u8) -> (r: Button)
        ensures
            r@ == bits & BUTTON_MASK,
    {
        assert((bits & 0b0001_1111u8) & !0b0001_1111u8 == 0) by (bit_vector);
        Button { bits: bits & BUTTON_MASK }
    }

    /// Reads a byte that holds defined bits only; any other is refused.
    pub fn from_bits(bits: u8) -> (r: Option<Button>)
        ensures
            r is Some <==> bits & !BUTTON_MASK == 0,
            r matches Some(b) ==> b@ == bits,
    {
        if bits & !BUTTON_MASK == 0 {
            Some(Button { bits })
        } else {
            None
        }
    }

    /// Whether no button is in the set.
    pub fn is_empty(&self) -> (r: bool)
        ensures
            r == (self@ == 0),
    {
        self.bits == 0
    }

    /// Whether every button of `other` is in this set.
    pub fn contains(&self, other: Button) -> (r: bool)
        ensures
            r == (self@ & other@ == other@),
    {
        self.bits & other.bits == other.bits
    }

    /// The buttons that are in either set.
    pub fn union(self, other: Button) -> (r: Button)
        ensures
            r@ == self@ | other@,
    {
        proof {
            use_type_invariant(self);
            use_type_invariant(other);
        }
        let a = self.bits;
        let b = other.bits;
        assert(a & !0b0001_1111u8 == 0 && b & !0b0001_1111u8 == 0 ==> (a | b) & !0b0001_1111u8
            == 0) by (bit_vector);
        Button { bits: a | b }
    }
}

/// A byte that holds defined bits only is read as itself, and reading any
/// byte leaves defined bits only: what was written is what is read.
pub proof fn lemma_button_bits_round_trip(bits: u8)
    ensures
        (bits & BUTTON_MASK) & !BUTTON_MASK == 0,
        (bits & BUTTON_MASK) & BUTTON_MASK == bits & BUTTON_MASK,
        bits & !BUTTON_MASK == 0 ==> bits & BUTTON_MASK == bits,
{
    assert((bits & 0b0001_1111u8) & !0b0001_1111u8 == 0) by (bit_vector);
    assert((bits & 0b0001_1111u8) & 0b0001_1111u8 == bits & 0b0001_1111u8) by (bit_vector);
    assert(bits & !0b0001_1111u8 == 0 ==> bits & 0b0001_1111u8 == bits) by (bit_vector);
}

/// One pointer event of the client, carried field by field. The five
/// fractional fields `x`, `y`, `pressure`, `width` and `height` hold the bit
/// pattern of a binary64 number, so that the value passes through unchanged.
#[derive(Clone, Copy, Debug, PartialEq, Eq, Structural)]
pub struct PointerEvent {
    pub event_type: PointerEventType,
    pub pointer_id: i64,
    pub timestamp: u64,
    pub is_primary: bool,
    pub pointer_type: PointerType,
    pub button: Button,
    pub buttons: Button,
    pub x: u64,
    pub y: u64,
    pub movement_x: i64,
    pub movement_y: i64,
    pub pressure: u64,
    pub tilt_x: i32,
    pub tilt_y: i32,
    pub twist: i32,
    pub width: u64,
    pub height: u64,
}

/// What a client sends.
#[derive(Clone, Copy, Debug, PartialEq, Eq, Structural)]
pub enum MessageInbound {
    /// Apply one simulated input event.
    PointerEvent(PointerEvent),
    /// Ask for at most one new frame. The server may drop the request.
    TryGetFrame,
    /// Ask for the current list of targets.
    GetCapturableList,
    /// Negotiate the capture parameters.
    Config(ClientConfiguration),
}

/// What the server sends.
#[derive(Clone, Debug, PartialEq, Eq)]
pub enum MessageOutbound {
    /// The names of the targets, in the order of their ids.
    CapturableList(Vec<String>),
    /// A fresh video stream starts.
    NewVideo,
    /// The configuration was accepted.
    ConfigOk,
    /// The configuration was refused, with the reason.
    ConfigError(String),
    /// A request failed, with the message.
    Error(String),
}

/// The tag under which an inbound message travels.
pub open spec fn message_inbound_tag(m: MessageInbound) -> Seq<char> {
    match m {
        MessageInbound::PointerEvent(_) => "PointerEvent"@,
        MessageInbound::TryGetFrame => "TryGetFrame"@,
        MessageInbound::GetCapturableList => "GetCapturableList"@,
        MessageInbound::Config(_) => "Config"@,
    }
}

/// The tag under which an outbound message travels.
pub open spec fn message_outbound_tag(m: MessageOutbound) -> Seq<char> {
    match m {
        MessageOutbound::CapturableList(_) => "CapturableList"@,
        MessageOutbound::NewVideo => "NewVideo"@,
        MessageOutbound::ConfigOk => "ConfigOk"@,
        MessageOutbound::ConfigError(_) => "ConfigError"@,
        MessageOutbound::Error(_) => "Error"@,
    }
}

/// Messages of different kinds travel under different tags, so that the tag
/// tells the kind.
pub proof fn lemma_message_tags_tell_the_kind()
    ensures
        forall|a: MessageInbound, b: MessageInbound|
            #![trigger message_inbound_tag(a), message_inbound_tag(b)]
            message_inbound_tag(a) == message_inbound_tag(b) ==> {
                &&& a is PointerEvent <==> b is PointerEvent
                &&& a is TryGetFrame <==> b is TryGetFrame
                &&& a is GetCapturableList <==> b is GetCapturableList
                &&& a is Config <==> b is Config
            },
        forall|a: MessageOutbound, b: MessageOutbound|
            #![trigger message_outbound_tag(a), message_outbound_tag(b)]
            message_outbound_tag(a) == message_outbound_tag(b) ==> {
                &&& a is CapturableList <==> b is CapturableList
                &&& a is NewVideo <==> b is NewVideo
                &&& a is ConfigOk <==> b is ConfigOk
                &&& a is ConfigError <==> b is ConfigError
                &&& a is Error <==> b is Error
            },
{
    reveal_strlit("PointerEvent");
    reveal_strlit("TryGetFrame");
    reveal_strlit("GetCapturableList");
    reveal_strlit("Config");
    reveal_strlit("CapturableList");
    reveal_strlit("NewVideo");
    reveal_strlit("ConfigOk");
    reveal_strlit("ConfigError");
    reveal_strlit("Error");
    assert("PointerEvent"@.len() == 12 && "TryGetFrame"@.len() == 11);
    assert("GetCapturableList"@.len() == 17 && "Config"@.len() == 6);
    assert("CapturableList"@.len() == 14 && "NewVideo"@.len() == 8 && "ConfigOk"@.len() == 8);
    assert("ConfigError"@.len() == 11 && "Error"@.len() == 5);
    assert("NewVideo"@[0] == 'N' && "ConfigOk"@[0] == 'C');
}

impl MessageInbound {
    /// The tag of this message.
    pub fn tag(&self) -> (r: &'static str)
        ensures
            r@ == message_inbound_tag(*self),
    {
        match self {
            MessageInbound::PointerEvent(_) => "PointerEvent",
            MessageInbound::TryGetFrame => "TryGetFrame",
            MessageInbound::GetCapturableList => "GetCapturableList",
            MessageInbound::Config(_) => "Config",
        }
    }
}

impl MessageOutbound {
    /// The tag of this message.
    pub fn tag(&self) -> (r: &'static str)
        ensures
            r@ == message_outbound_tag(*self),
    {
        match self {
            MessageOutbound::CapturableList(_) => "CapturableList",
            MessageOutbound::NewVideo => "NewVideo",
            MessageOutbound::ConfigOk => "ConfigOk",
            MessageOutbound::ConfigError(_) => "ConfigError",
            MessageOutbound::Error(_) => "Error",
        }
    }
}

/// The textual tag under which a pointer type travels.
pub open spec fn pointer_type_tag(t: PointerType) -> Seq<char> {
    match t {
        PointerType::Unknown => ""@,
        PointerType::Mouse => "mouse"@,
        PointerType::Pen => "pen"@,
        PointerType::Touch => "touch"@,
    }
}

/// The pointer type that a tag stands for, if it is one of the four tags.
pub open spec fn pointer_type_of_tag(tag: Seq<char>) -> Option<PointerType> {
    if tag == ""@ {
        Some(PointerType::Unknown)
    } else if tag == "mouse"@ {
        Some(PointerType::Mouse)
    } else if tag == "pen"@ {
        Some(PointerType::Pen)
    } else if tag == "touch"@ {
        Some(PointerType::Touch)
    } else {
        None
    }
}

/// The textual tag under which an event type travels.
pub open spec fn pointer_event_type_tag(t: PointerEventType) -> Seq<char> {
    match t {
        PointerEventType::DOWN => "pointerdown"@,
        PointerEventType::UP => "pointerup"@,
        PointerEventType::CANCEL => "pointercancel"@,
        PointerEventType::MOVE => "pointermove"@,
    }
}

/// The event type that a tag stands for, if it is one of the four tags.
pub open spec fn pointer_event_type_of_tag(tag: Seq<char>) -> Option<PointerEventType> {
    if tag == "pointerdown"@ {
        Some(PointerEventType::DOWN)
    } else if tag == "pointerup"@ {
        Some(PointerEventType::UP)
    } else if tag == "pointercancel"@ {
        Some(PointerEventType::CANCEL)
    } else if tag == "pointermove"@ {
        Some(PointerEventType::MOVE)
    } else {
        None
    }
}

impl PointerType {
    /// The tag of this pointer type.
    pub fn tag(&self) -> (r: &'static str)
        ensures
            r@ == pointer_type_tag(*self),
    {
        match self {
            PointerType::Unknown => "",
            PointerType::Mouse => "mouse",
            PointerType::Pen => "pen",
            PointerType::Touch => "touch",
        }
    }

    /// Reads a tag. Any text but the four tags is refused.
    pub fn from_tag(tag: &str) -> (r: Option<PointerType>)
        ensures
            r == pointer_type_of_tag(tag@),
    {
        let t = tag.to_owned();
        if t == "".to_owned() {
            Some(PointerType::Unknown)
        } else if t == "mouse".to_owned() {
            Some(PointerType::Mouse)
        } else if t == "pen".to_owned() {
            Some(PointerType::Pen)
        } else if t == "touch".to_owned() {
            Some(PointerType::Touch)
        } else {
            None
        }
    }
}

impl PointerEventType {
    /// The tag of this event type.
    pub fn tag(&self) -> (r: &'static str)
        ensures
            r@ == pointer_event_type_tag(*self),
    {
        match self {
            PointerEventType::DOWN => "pointerdown",
            PointerEventType::UP => "pointerup",
            PointerEventType::CANCEL => "pointercancel",
            PointerEventType::MOVE => "pointermove",
        }
    }

    /// Reads a tag. Any text but the four tags is refused.
    pub fn from_tag(tag: &str) -> (r: Option<PointerEventType>)
        ensures
            r == pointer_event_type_of_tag(tag@),
    {
        let t = tag.to_owned();
        if t == "pointerdown".to_owned() {
            Some(PointerEventType::DOWN)
        } else if t == "pointerup".to_owned() {
            Some(PointerEventType::UP)
        } else if t == "pointercancel".to_owned() {
            Some(PointerEventType::CANCEL)
        } else if t == "pointermove".to_owned() {
            Some(PointerEventType::MOVE)
        } else {
            None
        }
    }
}

/// A pointer type that is written as its tag is read back as itself, and
/// no other tag is read as that type.
pub proof fn lemma_pointer_type_tag_round_trip(t: PointerType)
    ensures
        pointer_type_of_tag(pointer_type_tag(t)) == Some(t),
        forall|s: Seq<char>| pointer_type_of_tag(s) == Some(t) ==> s == pointer_type_tag(t),
{
    reveal_strlit("");
    reveal_strlit("mouse");
    reveal_strlit("pen");
    reveal_strlit("touch");
    assert(""@.len() == 0 && "mouse"@.len() == 5 && "pen"@.len() == 3 && "touch"@.len() == 5);
    assert("mouse"@[0] == 'm' && "touch"@[0] == 't');
}

/// An event type that is written as its tag is read back as itself, and
/// no other tag is read as that type.
pub proof fn lemma_pointer_event_type_tag_round_trip(t: PointerEventType)
    ensures
        pointer_event_type_of_tag(pointer_event_type_tag(t)) == Some(t),
        forall|s: Seq<char>|
            pointer_event_type_of_tag(s) == Some(t) ==> s == pointer_event_type_tag(t),
{
    reveal_strlit("pointerdown");
    reveal_strlit("pointerup");
    reveal_strlit("pointercancel");
    reveal_strlit("pointermove");
    assert("pointerdown"@.len() == 11 && "pointerup"@.len() == 9);
    assert("pointercancel"@.len() == 13 && "pointermove"@.len() == 11);
    assert("pointerdown"@[7] == 'd' && "pointermove"@[7] == 'm');
}

} // verus!
