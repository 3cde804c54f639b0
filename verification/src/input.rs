//! The browser's input messages on the mouse and keyboard data channels, read into the
//! events the host is sent.
use vstd::prelude::*;
use vstd::utf8::decode_utf8;

use vstd::string::StringSliceAdditionalSpecFns;

use crate::buffer::{ByteBuffer, read_u16, read_u32, utf8_prefix_len};
use crate::stream::{KeyAction, MouseButton, MouseButtonAction, TouchEventType};
use crate::text::{copy_range, parse_unsigned_bytes, spec_parse_unsigned};

verus! {

/// The data channels input arrives on.
#[derive(Debug, Clone, Copy, PartialEq, Eq, Structural)]
pub enum InputChannel {
    Mouse,
    Touch,
    Keyboard,
    /// Controllers arriving and leaving.
    Controllers,
    /// The state of the controller with this number.
    Controller(u8),
}

/// The input a data channel carries, by its label: the three mouse channels, `touch`,
/// `keyboard`, `controllers`, and `controller` followed by a controller's number.
pub open spec fn spec_input_channel(label: Seq<u8>) -> Option<InputChannel> {
    if label == "mouseClicks".spec_bytes() || label == "mouseAbsolute".spec_bytes() || label
        == "mouseRelative".spec_bytes() {
        Some(InputChannel::Mouse)
    } else if label == "touch".spec_bytes() {
        Some(InputChannel::Touch)
    } else if label == "keyboard".spec_bytes() {
        Some(InputChannel::Keyboard)
    } else if label == "controllers".spec_bytes() {
        Some(InputChannel::Controllers)
    } else if label.len() >= "controller".spec_bytes().len() && label.take(
        "controller".spec_bytes().len() as int,
    ) == "controller".spec_bytes() {
        match spec_parse_unsigned(label.skip("controller".spec_bytes().len() as int), 255) {
            Ok(id) => Some(InputChannel::Controller(id as u8)),
            Err(_) => None,
        }
    } else {
        None
    }
}

/// The input a data channel carries, by its label; `None` for a channel that carries none.
pub fn input_channel(label: &str) -> (res: Option<InputChannel>)
    ensures
        res == spec_input_channel(label.spec_bytes()),
{
    let l = label.as_bytes();
    if bytes_equal(l, "mouseClicks".as_bytes()) || bytes_equal(l, "mouseAbsolute".as_bytes())
        || bytes_equal(l, "mouseRelative".as_bytes()) {
        return Some(InputChannel::Mouse);
    }
    if bytes_equal(l, "touch".as_bytes()) {
        return Some(InputChannel::Touch);
    }
    if bytes_equal(l, "keyboard".as_bytes()) {
        return Some(InputChannel::Keyboard);
    }
    if bytes_equal(l, "controllers".as_bytes()) {
        return Some(InputChannel::Controllers);
    }
    let prefix = "controller".as_bytes();
    let n = prefix.len();
    if l.len() >= n {
        let head = copy_range(l, 0, n);
        if bytes_equal(head.as_slice(), prefix) {
            assert(head@ =~= l@.take(n as int));
            let rest = copy_range(l, n, l.len());
            assert(rest@ =~= l@.skip(n as int));
            return match parse_unsigned_bytes(rest.as_slice(), 255) {
                Ok(id) => Some(InputChannel::Controller(id as u8)),
                Err(_) => None,
            };
        }
        assert(head@ =~= l@.take(n as int));
    }
    None
}

fn bytes_equal(a: &[u8], b: &[u8]) -> (res: bool)
    ensures
        res == (a@ == b@),
{
    if a.len() != b.len() {
        return false;
    }
    let mut i: usize = 0;
    while i < a.len()
        invariant
            a@.len() == b@.len(),
            i <= a@.len(),
            forall|j: int| 0 <= j < i ==> a@[j] == b@[j],
        decreases a@.len() - i,
    {
        if a[i] != b[i] {
            return false;
        }
        i = i + 1;
    }
    assert(a@ =~= b@);
    true
}

/// The mouse button with the protocol's number `n`.
pub open spec fn spec_mouse_button(n: u8) -> Option<MouseButton> {
    if n == 1 {
        Some(MouseButton::Left)
    } else if n == 2 {
        Some(MouseButton::Middle)
    } else if n == 3 {
        Some(MouseButton::Right)
    } else if n == 4 {
        Some(MouseButton::X1)
    } else if n == 5 {
        Some(MouseButton::X2)
    } else {
        None
    }
}

/// The mouse button with the protocol's number `n`.
pub fn mouse_button_from_u8(n: u8) -> (res: Option<MouseButton>)
    ensures
        res == spec_mouse_button(n),
{
    match n {
        1 => Some(MouseButton::Left),
        2 => Some(MouseButton::Middle),
        3 => Some(MouseButton::Right),
        4 => Some(MouseButton::X1),
        5 => Some(MouseButton::X2),
        _ => None,
    }
}

/// What a mouse message asks of the host.
#[derive(Debug, Clone, Copy, PartialEq, Eq, Structural)]
pub enum MouseInput {
    /// The pointer moved by this much.
    Move { delta_x: i16, delta_y: i16 },
    /// The pointer is at `x`, `y` in an area of the reference size.
    Position { x: i16, y: i16, reference_width: i16, reference_height: i16 },
    /// A button was pressed or released.
    Button { action: MouseButtonAction, button: MouseButton },
    /// The wheel turned vertically, in high resolution.
    HighResScroll(i16),
    /// The wheel turned horizontally, in high resolution.
    HighResHorizontalScroll(i16),
    /// The wheel turned vertically.
    Scroll(i8),
    /// The wheel turned horizontally.
    HorizontalScroll(i8),
}

/// A mouse message holds what its type needs after the type byte: two 16-bit deltas (type 0
/// and 3), four 16-bit numbers (type 1), a press flag and a button (type 2), two 8-bit deltas
/// (type 4).
pub open spec fn mouse_message_complete(data: Seq<u8>) -> bool {
    &&& data.len() >= 1
    &&& (data[0] == 0 || data[0] == 3) ==> data.len() >= 5
    &&& data[0] == 1 ==> data.len() >= 9
    &&& (data[0] == 2 || data[0] == 4) ==> data.len() >= 3
}

/// The big-endian 16-bit number at `i`, as signed.
pub open spec fn i16_at(data: Seq<u8>, i: int) -> i16 {
    read_u16(data.subrange(i, i + 2), false) as i16
}

/// The scroll events of a wheel message: the vertical one, then the horizontal one, each only
/// when its delta is not zero.
pub open spec fn spec_scrolls(vertical: Option<MouseInput>, horizontal: Option<MouseInput>) -> Seq<MouseInput> {
    (match vertical {
        Some(v) => seq![v],
        None => Seq::empty(),
    }) + (match horizontal {
        Some(h) => seq![h],
        None => Seq::empty(),
    })
}

/// The events of a mouse message, all numbers big-endian: type 0 moves the pointer, type 1
/// places it, type 2 presses (non-zero flag) or releases a button and sends nothing for an
/// unknown button, types 3 and 4 turn the wheel in high or normal resolution; other types
/// send nothing.
pub open spec fn spec_mouse_inputs(data: Seq<u8>) -> Seq<MouseInput> {
    if data[0] == 0 {
        seq![MouseInput::Move { delta_x: i16_at(data, 1), delta_y: i16_at(data, 3) }]
    } else if data[0] == 1 {
        seq![
            MouseInput::Position {
                x: i16_at(data, 1),
                y: i16_at(data, 3),
                reference_width: i16_at(data, 5),
                reference_height: i16_at(data, 7),
            },
        ]
    } else if data[0] == 2 {
        match spec_mouse_button(data[2]) {
            None => Seq::empty(),
            Some(button) => seq![
                MouseInput::Button {
                    action: if data[1] != 0 {
                        MouseButtonAction::Press
                    } else {
                        MouseButtonAction::Release
                    },
                    button,
                },
            ],
        }
    } else if data[0] == 3 {
        let dx = i16_at(data, 1);
        let dy = i16_at(data, 3);
        spec_scrolls(
            if dy != 0 { Some(MouseInput::HighResScroll(dy)) } else { None },
            if dx != 0 { Some(MouseInput::HighResHorizontalScroll(dx)) } else { None },
        )
    } else if data[0] == 4 {
        let dx = data[1] as i8;
        let dy = data[2] as i8;
        spec_scrolls(
            if dy != 0 { Some(MouseInput::Scroll(dy)) } else { None },
            if dx != 0 { Some(MouseInput::HorizontalScroll(dx)) } else { None },
        )
    } else {
        Seq::empty()
    }
}

/// Reads a mouse message into the events to send, in order.
pub fn parse_mouse_message(data: Vec<u8>) -> (res: Vec<MouseInput>)
    requires
        mouse_message_complete(data@),
    ensures
        res@ == spec_mouse_inputs(data@),
{
    let ghost d = data@;
    let mut buffer = ByteBuffer::new(data);
    let ty = buffer.get_u8();
    let mut out: Vec<MouseInput> = Vec::new();
    if ty == 0 {
        let delta_x = buffer.get_i16();
        let delta_y = buffer.get_i16();
        out.push(MouseInput::Move { delta_x, delta_y });
    } else if ty == 1 {
        let x = buffer.get_i16();
        let y = buffer.get_i16();
        let reference_width = buffer.get_i16();
        let reference_height = buffer.get_i16();
        out.push(MouseInput::Position { x, y, reference_width, reference_height });
    } else if ty == 2 {
        let action = if buffer.get_bool() {
            MouseButtonAction::Press
        } else {
            MouseButtonAction::Release
        };
        if let Some(button) = mouse_button_from_u8(buffer.get_u8()) {
            out.push(MouseInput::Button { action, button });
        }
    } else if ty == 3 {
        let delta_x = buffer.get_i16();
        let delta_y = buffer.get_i16();
        if delta_y != 0 {
            out.push(MouseInput::HighResScroll(delta_y));
        }
        if delta_x != 0 {
            out.push(MouseInput::HighResHorizontalScroll(delta_x));
        }
    } else if ty == 4 {
        let delta_x = buffer.get_i8();
        let delta_y = buffer.get_i8();
        if delta_y != 0 {
            out.push(MouseInput::Scroll(delta_y));
        }
        if delta_x != 0 {
            out.push(MouseInput::HorizontalScroll(delta_x));
        }
    }
    assert(out@ =~= spec_mouse_inputs(d));
    out
}

/// The modifier keys held with a key event.
#[derive(Debug, Clone, Copy, PartialEq, Eq, Structural)]
pub struct KeyModifiers {
    pub bits: i8,
}

impl KeyModifiers {
    pub const SHIFT: i8 = 0x01;
    pub const CTRL: i8 = 0x02;
    pub const ALT: i8 = 0x04;
    pub const META: i8 = 0x08;

    /// The modifiers in `bits`; `None` when a bit names none.
    pub fn from_bits(bits: i8) -> (res: Option<KeyModifiers>)
        ensures
            res is Some <==> 0 <= bits < 16,
            res matches Some(m) ==> m.bits == bits,
    {
        if bits & !0x0fi8 == 0 {
            assert(0 <= bits < 16) by (bit_vector)
                requires
                    bits & !0x0fi8 == 0,
            ;
            Some(KeyModifiers { bits })
        } else {
            assert(!(0 <= bits < 16)) by (bit_vector)
                requires
                    bits & !0x0fi8 != 0,
            ;
            None
        }
    }
}

/// What a keyboard message asks.
#[derive(Debug, Clone, PartialEq, Eq)]
pub enum KeyboardInput {
    /// A key went down or up, with the modifiers held.
    Key { key: i16, action: KeyAction, modifiers: KeyModifiers },
    /// Text was typed.
    Text(String),
}

/// A keyboard message holds what its type needs: a type byte, then for a key (type 0) a down
/// flag, the modifiers and a 16-bit key code, for text (type 1) the number of characters.
pub open spec fn keyboard_message_complete(data: Seq<u8>) -> bool {
    &&& data.len() >= 1
    &&& data[0] == 0 ==> data.len() >= 5
    &&& data[0] == 1 ==> data.len() >= 2
}

/// The modifiers of a key message: the byte read as bits, none when it names unknown ones.
pub open spec fn spec_key_modifiers(b: u8) -> KeyModifiers {
    if 0 <= (b as i8) < 16 {
        KeyModifiers { bits: b as i8 }
    } else {
        KeyModifiers { bits: 0 }
    }
}

/// Reads a keyboard message: type 0 is a key going down (non-zero flag) or up, with its
/// modifiers and big-endian key code; type 1 is text: as many characters as its second byte
/// says, of the UTF-8 text after it, nothing when there are not that many; other types send
/// nothing.
pub fn parse_keyboard_message(data: Vec<u8>) -> (res: Option<KeyboardInput>)
    requires
        keyboard_message_complete(data@),
    ensures
        data@[0] == 0 ==> res == Some(
            KeyboardInput::Key {
                key: read_u16(data@.subrange(3, 5), false) as i16,
                action: if data@[1] != 0 {
                    KeyAction::Down
                } else {
                    KeyAction::Up
                },
                modifiers: spec_key_modifiers(data@[2]),
            },
        ),
        data@[0] == 1 ==> match utf8_prefix_len(data@.skip(2), data@[1] as nat) {
            None => res is None,
            Some(k) => res matches Some(KeyboardInput::Text(t)) && t@ == decode_utf8(data@.skip(2).take(k)),
        },
        data@[0] != 0 && data@[0] != 1 ==> res is None,
{
    let mut buffer = ByteBuffer::new(data);
    let ty = buffer.get_u8();
    if ty == 0 {
        let action = if buffer.get_bool() {
            KeyAction::Down
        } else {
            KeyAction::Up
        };
        let modifiers = match KeyModifiers::from_bits(buffer.get_u8() as i8) {
            Some(m) => m,
            None => KeyModifiers { bits: 0 },
        };
        let key = buffer.get_u16();
        Some(KeyboardInput::Key { key: key as i16, action, modifiers })
    } else if ty == 1 {
        let len = buffer.get_u8();
        match buffer.get_utf8(len as usize) {
            Ok(text) => Some(KeyboardInput::Text(text)),
            Err(()) => None,
        }
    } else {
        None
    }
}

/// A touch on the screen. The coordinates, pressure and contact area are 32-bit floats,
/// kept here as their bits in the order they came.
#[derive(Debug, Clone, Copy, PartialEq, Eq, Structural)]
pub struct TouchInput {
    pub event_type: TouchEventType,
    pub pointer_id: u32,
    pub x_bits: u32,
    pub y_bits: u32,
    pub pressure_or_distance_bits: u32,
    pub contact_area_major_bits: u32,
    pub contact_area_minor_bits: u32,
    pub rotation: u16,
}

/// The type of a touch event by its number: 0 down, 1 move, 2 cancel.
pub open spec fn spec_touch_event(n: u8) -> Option<TouchEventType> {
    if n == 0 {
        Some(TouchEventType::Down)
    } else if n == 1 {
        Some(TouchEventType::Move)
    } else if n == 2 {
        Some(TouchEventType::Cancel)
    } else {
        None
    }
}

/// A touch message of a known type holds the pointer id, five floats and the rotation.
pub open spec fn touch_message_complete(data: Seq<u8>) -> bool {
    &&& data.len() >= 1
    &&& data[0] <= 2 ==> data.len() >= 27
}

/// The big-endian 32-bit number at `i`.
pub open spec fn u32_at(data: Seq<u8>, i: int) -> u32 {
    read_u32(data.subrange(i, i + 4), false)
}

/// The event of a touch message: its type, then the pointer id, the five floats and the
/// rotation, all big-endian; nothing for an unknown type.
pub open spec fn spec_touch_input(data: Seq<u8>) -> Option<TouchInput> {
    match spec_touch_event(data[0]) {
        None => None,
        Some(event_type) => Some(
            TouchInput {
                event_type,
                pointer_id: u32_at(data, 1),
                x_bits: u32_at(data, 5),
                y_bits: u32_at(data, 9),
                pressure_or_distance_bits: u32_at(data, 13),
                contact_area_major_bits: u32_at(data, 17),
                contact_area_minor_bits: u32_at(data, 21),
                rotation: read_u16(data.subrange(25, 27), false),
            },
        ),
    }
}

/// What a touch message means: type byte 0 is a finger going down, 1 a finger moving, 2 a
/// touch cancelled, and any other type is no touch; the pointer id is the big-endian number
/// in bytes 1 to 4, the rotation the big-endian number in bytes 25 and 26, and the five
/// floats come in order from byte 5 on, four bytes each.
pub proof fn law_touch_message(data: Seq<u8>)
    requires
        touch_message_complete(data),
    ensures
        data[0] == 0 ==> (spec_touch_input(data) matches Some(t) && t.event_type == TouchEventType::Down),
        data[0] == 1 ==> (spec_touch_input(data) matches Some(t) && t.event_type == TouchEventType::Move),
        data[0] == 2 ==> (spec_touch_input(data) matches Some(t) && t.event_type == TouchEventType::Cancel),
        data[0] > 2 ==> spec_touch_input(data) is None,
        spec_touch_input(data) matches Some(t) ==> {
            &&& t.pointer_id as int == data[1] * 16777216 + data[2] * 65536 + data[3] * 256 + data[4]
            &&& t.x_bits as int == data[5] * 16777216 + data[6] * 65536 + data[7] * 256 + data[8]
            &&& t.y_bits as int == data[9] * 16777216 + data[10] * 65536 + data[11] * 256 + data[12]
            &&& t.pressure_or_distance_bits as int == data[13] * 16777216 + data[14] * 65536 + data[15] * 256 + data[16]
            &&& t.contact_area_major_bits as int == data[17] * 16777216 + data[18] * 65536 + data[19] * 256 + data[20]
            &&& t.contact_area_minor_bits as int == data[21] * 16777216 + data[22] * 65536 + data[23] * 256 + data[24]
            &&& t.rotation as int == data[25] * 256 + data[26]
        },
{
}

/// Reads a touch message.
pub fn parse_touch_message(data: Vec<u8>) -> (res: Option<TouchInput>)
    requires
        touch_message_complete(data@),
    ensures
        res == spec_touch_input(data@),
{
    let mut buffer = ByteBuffer::new(data);
    let event_type = match buffer.get_u8() {
        0 => TouchEventType::Down,
        1 => TouchEventType::Move,
        2 => TouchEventType::Cancel,
        _ => return None,
    };
    let pointer_id = buffer.get_u32();
    let x_bits = buffer.get_u32();
    let y_bits = buffer.get_u32();
    let pressure_or_distance_bits = buffer.get_u32();
    let contact_area_major_bits = buffer.get_u32();
    let contact_area_minor_bits = buffer.get_u32();
    let rotation = buffer.get_u16();
    Some(
        TouchInput {
            event_type,
            pointer_id,
            x_bits,
            y_bits,
            pressure_or_distance_bits,
            contact_area_major_bits,
            contact_area_minor_bits,
            rotation,
        },
    )
}

/// The number of controllers a stream can have.
pub const MAX_GAMEPADS: u8 = 16;

/// The set of attached controllers, bit `i` for controller `i`.
#[derive(Debug, Clone, Copy, PartialEq, Eq, Structural)]
pub struct ActiveGamepads {
    pub bits: u16,
}

impl ActiveGamepads {
    /// No controller.
    pub fn empty() -> (res: ActiveGamepads)
        ensures
            res.bits == 0,
    {
        ActiveGamepads { bits: 0 }
    }

    /// The set of the controller `id` alone; `None` for a number past the last controller.
    pub fn from_id(id: u8) -> (res: Option<ActiveGamepads>)
        ensures
            id < MAX_GAMEPADS <==> res is Some,
            res matches Some(g) ==> g.bits == 1u16 << id,
    {
        if id < MAX_GAMEPADS {
            Some(ActiveGamepads { bits: 1u16 << id })
        } else {
            None
        }
    }

    /// Both sets together.
    pub fn union(self, other: ActiveGamepads) -> (res: ActiveGamepads)
        ensures
            res.bits == self.bits | other.bits,
    {
        ActiveGamepads { bits: self.bits | other.bits }
    }

    /// This set without the other.
    pub fn difference(self, other: ActiveGamepads) -> (res: ActiveGamepads)
        ensures
            res.bits == self.bits & !other.bits,
    {
        ActiveGamepads { bits: self.bits & !other.bits }
    }

    /// The other set lies in this one.
    pub fn contains(self, other: ActiveGamepads) -> (res: bool)
        ensures
            res == (self.bits & other.bits == other.bits),
    {
        self.bits & other.bits == other.bits
    }
}

/// Every button a controller can report.
pub const ALL_CONTROLLER_BUTTONS: u32 = 0x3f_f7ff;

/// The buttons held on a controller.
#[derive(Debug, Clone, Copy, PartialEq, Eq, Structural)]
pub struct ControllerButtons {
    pub bits: u32,
}

impl ControllerButtons {
    /// The buttons in `bits`; `None` when a bit names none.
    pub fn from_bits(bits: u32) -> (res: Option<ControllerButtons>)
        ensures
            res is Some <==> bits & !ALL_CONTROLLER_BUTTONS == 0,
            res matches Some(b) ==> b.bits == bits,
    {
        if bits & !ALL_CONTROLLER_BUTTONS == 0 {
            Some(ControllerButtons { bits })
        } else {
            None
        }
    }
}

/// Every feature a controller can report.
pub const ALL_CONTROLLER_CAPABILITIES: u16 = 0xff;

/// What a controller has besides buttons: analog triggers, rumble, a touchpad, motion sensors,
/// a battery, a light.
#[derive(Debug, Clone, Copy, PartialEq, Eq, Structural)]
pub struct ControllerCapabilities {
    pub bits: u16,
}

impl ControllerCapabilities {
    /// The features in `bits`; `None` when a bit names none.
    pub fn from_bits(bits: u16) -> (res: Option<ControllerCapabilities>)
        ensures
            res is Some <==> bits & !ALL_CONTROLLER_CAPABILITIES == 0,
            res matches Some(c) ==> c.bits == bits,
    {
        if bits & !ALL_CONTROLLER_CAPABILITIES == 0 {
            Some(ControllerCapabilities { bits })
        } else {
            None
        }
    }
}

/// What the controllers channel asks of the host.
#[derive(Debug, Clone, Copy, PartialEq, Eq, Structural)]
pub enum ControllerEvent {
    /// A controller arrived; `active` is the set of controllers with it.
    Arrival {
        id: u8,
        active: ActiveGamepads,
        supported_buttons: ControllerButtons,
        capabilities: ControllerCapabilities,
    },
    /// A controller left; `active` is the set of controllers without it. The host is sent the
    /// controller's state with nothing held.
    Removal { id: u8, active: ActiveGamepads },
}

/// A controllers message holds what its type needs: a number, the supported buttons and the
/// features for an arrival (type 0), a number for a removal (type 1).
pub open spec fn controllers_message_complete(data: Seq<u8>) -> bool {
    &&& data.len() >= 1
    &&& data[0] == 0 ==> data.len() >= 8
    &&& data[0] == 1 ==> data.len() >= 2
}

/// The set of attached controllers after a controllers message, and what the host is to be
/// sent. An arrival adds the controller, with unknown buttons taken as all buttons and unknown
/// features as none; a removal takes it away; a number past the last controller, and any other
/// type, change nothing and send nothing.
pub open spec fn spec_controllers_message(data: Seq<u8>, active: ActiveGamepads) -> (ActiveGamepads, Option<ControllerEvent>) {
    let id = data[1];
    if (data[0] == 0 || data[0] == 1) && id < MAX_GAMEPADS {
        let one = 1u16 << id;
        if data[0] == 0 {
            let buttons = u32_at(data, 2);
            let features = read_u16(data.subrange(6, 8), false);
            let now = ActiveGamepads { bits: active.bits | one };
            (
                now,
                Some(
                    ControllerEvent::Arrival {
                        id,
                        active: now,
                        supported_buttons: ControllerButtons {
                            bits: if buttons & !ALL_CONTROLLER_BUTTONS == 0 {
                                buttons
                            } else {
                                ALL_CONTROLLER_BUTTONS
                            },
                        },
                        capabilities: ControllerCapabilities {
                            bits: if features & !ALL_CONTROLLER_CAPABILITIES == 0 {
                                features
                            } else {
                                0
                            },
                        },
                    },
                ),
            )
        } else {
            let now = ActiveGamepads { bits: active.bits & !one };
            (now, Some(ControllerEvent::Removal { id, active: now }))
        }
    } else {
        (active, None)
    }
}

/// Reads a message of the controllers channel against the set of attached controllers.
pub fn on_controller_message(data: Vec<u8>, active: ActiveGamepads) -> (res: (ActiveGamepads, Option<ControllerEvent>))
    requires
        controllers_message_complete(data@),
    ensures
        res == spec_controllers_message(data@, active),
{
    let mut buffer = ByteBuffer::new(data);
    let ty = buffer.get_u8();
    if ty == 0 {
        let id = buffer.get_u8();
        let supported_buttons = match ControllerButtons::from_bits(buffer.get_u32()) {
            Some(b) => b,
            None => ControllerButtons { bits: ALL_CONTROLLER_BUTTONS },
        };
        let capabilities = match ControllerCapabilities::from_bits(buffer.get_u16()) {
            Some(c) => c,
            None => ControllerCapabilities { bits: 0 },
        };
        match ActiveGamepads::from_id(id) {
            None => (active, None),
            Some(one) => {
                let now = active.union(one);
                (now, Some(ControllerEvent::Arrival { id, active: now, supported_buttons, capabilities }))
            },
        }
    } else if ty == 1 {
        let id = buffer.get_u8();
        match ActiveGamepads::from_id(id) {
            None => (active, None),
            Some(one) => {
                let now = active.difference(one);
                (now, Some(ControllerEvent::Removal { id, active: now }))
            },
        }
    } else {
        (active, None)
    }
}

/// A controller that arrives and then leaves leaves the set of attached controllers as it was
/// before it arrived, when it was not attached then.
pub proof fn law_arrival_then_removal(arrival: Seq<u8>, removal: Seq<u8>, active: ActiveGamepads)
    requires
        controllers_message_complete(arrival),
        controllers_message_complete(removal),
        arrival[0] == 0,
        removal[0] == 1,
        arrival[1] == removal[1],
        arrival[1] < MAX_GAMEPADS,
        !gamepad_attached(arrival[1], active),
    ensures
        spec_controllers_message(removal, spec_controllers_message(arrival, active).0).0 == active,
{
    let id = arrival[1];
    let a = active.bits;
    assert((a & (1u16 << id)) != (1u16 << id) && id < 16 ==> ((a | (1u16 << id)) & !(1u16 << id)) == a)
        by (bit_vector);
}

/// The state of a controller, as the host is sent it.
#[derive(Debug, Clone, Copy, PartialEq, Eq, Structural)]
pub struct ControllerState {
    pub id: u8,
    pub active: ActiveGamepads,
    pub buttons: ControllerButtons,
    pub left_trigger: u8,
    pub right_trigger: u8,
    pub left_stick_x: i16,
    pub left_stick_y: i16,
    pub right_stick_x: i16,
    pub right_stick_y: i16,
}

/// The controller `id` is attached.
pub open spec fn gamepad_attached(id: u8, active: ActiveGamepads) -> bool {
    id < MAX_GAMEPADS && active.bits & (1u16 << id) == (1u16 << id)
}

/// A state message of an attached controller holds its buttons, and when they are known, the
/// two triggers and the four stick axes.
pub open spec fn controller_message_complete(id: u8, data: Seq<u8>, active: ActiveGamepads) -> bool {
    &&& data.len() >= 1
    &&& data[0] == 0 && gamepad_attached(id, active) ==> data.len() >= 5
    &&& data[0] == 0 && gamepad_attached(id, active) && u32_at(data, 1) & !ALL_CONTROLLER_BUTTONS == 0
        ==> data.len() >= 15
}

/// The state a controller's channel reports: only for type 0, an attached controller and known
/// buttons; the triggers are bytes, the stick axes big-endian 16-bit numbers.
pub open spec fn spec_controller_state(id: u8, data: Seq<u8>, active: ActiveGamepads) -> Option<ControllerState> {
    if data[0] == 0 && gamepad_attached(id, active) && u32_at(data, 1) & !ALL_CONTROLLER_BUTTONS == 0 {
        Some(
            ControllerState {
                id,
                active,
                buttons: ControllerButtons { bits: u32_at(data, 1) },
                left_trigger: data[5],
                right_trigger: data[6],
                left_stick_x: i16_at(data, 7),
                left_stick_y: i16_at(data, 9),
                right_stick_x: i16_at(data, 11),
                right_stick_y: i16_at(data, 13),
            },
        )
    } else {
        None
    }
}

/// Reads a message of the channel of controller `id`.
pub fn on_controller_input_message(id: u8, data: Vec<u8>, active: ActiveGamepads) -> (res: Option<ControllerState>)
    requires
        controller_message_complete(id, data@, active),
    ensures
        res == spec_controller_state(id, data@, active),
{
    let mut buffer = ByteBuffer::new(data);
    let ty = buffer.get_u8();
    if ty != 0 {
        return None;
    }
    let one = match ActiveGamepads::from_id(id) {
        Some(g) => g,
        None => return None,
    };
    if !active.contains(one) {
        return None;
    }
    let buttons = match ControllerButtons::from_bits(buffer.get_u32()) {
        Some(b) => b,
        None => return None,
    };
    let left_trigger = buffer.get_u8();
    let right_trigger = buffer.get_u8();
    let left_stick_x = buffer.get_i16();
    let left_stick_y = buffer.get_i16();
    let right_stick_x = buffer.get_i16();
    let right_stick_y = buffer.get_i16();
    Some(
        ControllerState {
            id,
            active,
            buttons,
            left_trigger,
            right_trigger,
            left_stick_x,
            left_stick_y,
            right_stick_x,
            right_stick_y,
        },
    )
}

/// The message that asks the browser to rumble a controller: type 0, the controller, then the
/// two motors as big-endian 16-bit numbers.
pub fn controller_rumble_message(controller_number: u8, low_frequency_motor: u16, high_frequency_motor: u16) -> (res: [u8; 6])
    ensures
        res@ == seq![
            0u8,
            controller_number,
            (low_frequency_motor / 256) as u8,
            (low_frequency_motor % 256) as u8,
            (high_frequency_motor / 256) as u8,
            (high_frequency_motor % 256) as u8,
        ],
{
    let res = [
        0u8,
        controller_number,
        (low_frequency_motor / 256) as u8,
        (low_frequency_motor % 256) as u8,
        (high_frequency_motor / 256) as u8,
        (high_frequency_motor % 256) as u8,
    ];
    assert(res@ =~= seq![
        0u8,
        controller_number,
        (low_frequency_motor / 256) as u8,
        (low_frequency_motor % 256) as u8,
        (high_frequency_motor / 256) as u8,
        (high_frequency_motor % 256) as u8,
    ]);
    res
}

/// The message that asks the browser to rumble a controller's triggers; it is framed as the
/// motor rumble, type 0 included.
pub fn controller_trigger_rumble_message(controller_number: u8, left_trigger_motor: u16, right_trigger_motor: u16) -> (res: [u8; 6])
    ensures
        res@ == seq![
            0u8,
            controller_number,
            (left_trigger_motor / 256) as u8,
            (left_trigger_motor % 256) as u8,
            (right_trigger_motor / 256) as u8,
            (right_trigger_motor % 256) as u8,
        ],
{
    controller_rumble_message(controller_number, left_trigger_motor, right_trigger_motor)
}

} // verus!
