use moonlight_web::buffer::ByteBuffer;
use moonlight_web::input::{
    controller_rumble_message, controller_trigger_rumble_message, input_channel, on_controller_input_message,
    on_controller_message, parse_keyboard_message, parse_mouse_message, parse_touch_message, ActiveGamepads,
    ControllerButtons, ControllerCapabilities, ControllerEvent, ControllerState, InputChannel, KeyModifiers,
    KeyboardInput, MouseInput, ALL_CONTROLLER_BUTTONS,
};
use moonlight_web::stream::{KeyAction, MouseButton, MouseButtonAction, TouchEventType};

#[test]
fn buffer_reads_big_endian() {
    let mut b = ByteBuffer::new(vec![1, 0x01, 0x02, 0xff, 0xfe, 0, 0, 1, 0]);
    assert!(b.get_bool());
    assert_eq!(b.get_u16(), 0x0102);
    assert_eq!(b.get_i16(), -2);
    assert_eq!(b.get_u32(), 256);
}

#[test]
fn buffer_reads_arrays_and_bytes() {
    let mut b = ByteBuffer::new(vec![9, 8, 7, 0]);
    let mut a = [0u8; 2];
    b.get_u8_array(&mut a);
    assert_eq!(a, [9, 8]);
    assert_eq!(b.get_u8(), 7);
    assert!(!b.get_bool());
}

#[test]
fn buffer_reads_back_what_was_written() {
    let mut b = ByteBuffer::new(vec![0, 0, 0]);
    b.get_u8();
    b.put_u16(0xbeef);
    assert_eq!(b.get_u16(), 0xbeef);
    let mut b = ByteBuffer::new(vec![0, 0]);
    b.put_u8_array(&[3, 4]);
    let mut a = [0u8; 2];
    b.get_u8_array(&mut a);
    assert_eq!(a, [3, 4]);
    let mut b = ByteBuffer::new(vec![0]);
    b.put_u8(42);
    assert_eq!(b.get_u8(), 42);
}

#[test]
fn buffer_flip_and_reset() {
    let mut b = ByteBuffer::new(vec![1, 2, 3]);
    b.get_u8();
    b.flip();
    assert_eq!(b.get_u8(), 1);
    b.reset();
    assert_eq!(b.get_u8(), 1);
}

#[test]
fn buffer_reads_utf8_characters() {
    let mut b = ByteBuffer::new("aé€😀x".as_bytes().to_vec());
    assert_eq!(b.get_utf8(4).unwrap(), "aé€😀");
    assert_eq!(b.get_utf8(0).unwrap(), "");
    assert!(b.get_utf8(6).is_err());
    let mut b = ByteBuffer::new(vec![b'a', 0xff, b'b']);
    assert_eq!(b.get_utf8(1).unwrap(), "a");
    assert!(b.get_utf8(2).is_err());
    let mut b = ByteBuffer::new(Vec::new());
    assert!(b.get_utf8(1).is_err());
}

#[test]
fn input_channels_by_label() {
    assert_eq!(input_channel("mouseClicks"), Some(InputChannel::Mouse));
    assert_eq!(input_channel("mouseAbsolute"), Some(InputChannel::Mouse));
    assert_eq!(input_channel("mouseRelative"), Some(InputChannel::Mouse));
    assert_eq!(input_channel("mouse"), None);
    assert_eq!(input_channel("touch"), Some(InputChannel::Touch));
    assert_eq!(input_channel("keyboard"), Some(InputChannel::Keyboard));
    assert_eq!(input_channel("controllers"), Some(InputChannel::Controllers));
    assert_eq!(input_channel("controller0"), Some(InputChannel::Controller(0)));
    assert_eq!(input_channel("controller+15"), Some(InputChannel::Controller(15)));
    assert_eq!(input_channel("controller255"), Some(InputChannel::Controller(255)));
    assert_eq!(input_channel("controller256"), None);
    assert_eq!(input_channel("controller"), None);
    assert_eq!(input_channel("controllerX"), None);
}

#[test]
fn mouse_messages() {
    assert_eq!(parse_mouse_message(vec![0, 0xff, 0xff, 0, 5]), vec![MouseInput::Move { delta_x: -1, delta_y: 5 }]);
    assert_eq!(
        parse_mouse_message(vec![1, 0, 10, 0, 20, 0x07, 0x80, 0x04, 0x38]),
        vec![MouseInput::Position { x: 10, y: 20, reference_width: 1920, reference_height: 1080 }]
    );
    assert_eq!(
        parse_mouse_message(vec![2, 1, 3]),
        vec![MouseInput::Button { action: MouseButtonAction::Press, button: MouseButton::Right }]
    );
    assert_eq!(
        parse_mouse_message(vec![2, 0, 1]),
        vec![MouseInput::Button { action: MouseButtonAction::Release, button: MouseButton::Left }]
    );
    assert_eq!(parse_mouse_message(vec![2, 0, 9]), vec![]);
    assert_eq!(
        parse_mouse_message(vec![3, 0, 120, 0xff, 0x88]),
        vec![MouseInput::HighResScroll(-120), MouseInput::HighResHorizontalScroll(120)]
    );
    assert_eq!(parse_mouse_message(vec![3, 0, 0, 0, 0]), vec![]);
    assert_eq!(parse_mouse_message(vec![4, 0xff, 0]), vec![MouseInput::HorizontalScroll(-1)]);
    assert_eq!(parse_mouse_message(vec![4, 0, 2]), vec![MouseInput::Scroll(2)]);
    assert_eq!(parse_mouse_message(vec![7]), vec![]);
}

#[test]
fn keyboard_messages() {
    assert_eq!(
        parse_keyboard_message(vec![0, 1, 3, 0, 65]),
        Some(KeyboardInput::Key {
            key: 65,
            action: KeyAction::Down,
            modifiers: KeyModifiers { bits: KeyModifiers::SHIFT | KeyModifiers::CTRL }
        })
    );
    assert_eq!(
        parse_keyboard_message(vec![0, 0, 0x40, 0, 66]),
        Some(KeyboardInput::Key { key: 66, action: KeyAction::Up, modifiers: KeyModifiers { bits: 0 } })
    );
    let mut text = vec![1, 2];
    text.extend_from_slice("ßxy".as_bytes());
    assert_eq!(parse_keyboard_message(text), Some(KeyboardInput::Text("ßx".to_string())));
    assert_eq!(parse_keyboard_message(vec![1, 0]), Some(KeyboardInput::Text(String::new())));
    assert_eq!(parse_keyboard_message(vec![1, 1, 0xff]), None);
    assert_eq!(parse_keyboard_message(vec![1, 3, b'a', b'b']), None);
    assert_eq!(parse_keyboard_message(vec![2]), None);
}

#[test]
fn touch_messages() {
    let mut data = vec![1, 0, 0, 0, 7];
    for f in [0.5f32, 0.25, 1.0, 2.0, 3.0] {
        data.extend_from_slice(&f.to_be_bytes());
    }
    data.extend_from_slice(&[0x01, 0x68]);
    let touch = parse_touch_message(data).unwrap();
    assert_eq!(touch.event_type, TouchEventType::Move);
    assert_eq!(touch.pointer_id, 7);
    assert_eq!(f32::from_bits(touch.x_bits), 0.5);
    assert_eq!(f32::from_bits(touch.y_bits), 0.25);
    assert_eq!(f32::from_bits(touch.contact_area_minor_bits), 3.0);
    assert_eq!(touch.rotation, 360);
    assert_eq!(parse_touch_message(vec![3]), None);
}

#[test]
fn controllers_arrive_and_leave() {
    let none = ActiveGamepads::empty();
    let (active, event) = on_controller_message(vec![0, 2, 0, 0, 0x10, 0x01, 0, 0x03], none);
    assert_eq!(active.bits, 0b100);
    assert_eq!(
        event,
        Some(ControllerEvent::Arrival {
            id: 2,
            active,
            supported_buttons: ControllerButtons { bits: 0x1001 },
            capabilities: ControllerCapabilities { bits: 3 },
        })
    );
    let (active, event) = on_controller_message(vec![0, 0, 0xff, 0, 0, 0, 0x01, 0], active);
    assert_eq!(active.bits, 0b101);
    assert_eq!(
        event,
        Some(ControllerEvent::Arrival {
            id: 0,
            active,
            supported_buttons: ControllerButtons { bits: ALL_CONTROLLER_BUTTONS },
            capabilities: ControllerCapabilities { bits: 0 },
        })
    );
    let (after, event) = on_controller_message(vec![1, 2], active);
    assert_eq!(after.bits, 0b001);
    assert_eq!(event, Some(ControllerEvent::Removal { id: 2, active: after }));
    assert_eq!(on_controller_message(vec![1, 16], after), (after, None));
    assert_eq!(on_controller_message(vec![5], after), (after, None));
}

#[test]
fn controller_state_messages() {
    let active = ActiveGamepads { bits: 0b10 };
    let data = vec![0, 0, 0, 0x10, 0x00, 200, 10, 0x80, 0x00, 0x7f, 0xff, 0, 1, 0xff, 0xff];
    assert_eq!(
        on_controller_input_message(1, data.clone(), active),
        Some(ControllerState {
            id: 1,
            active,
            buttons: ControllerButtons { bits: 0x1000 },
            left_trigger: 200,
            right_trigger: 10,
            left_stick_x: i16::MIN,
            left_stick_y: i16::MAX,
            right_stick_x: 1,
            right_stick_y: -1,
        })
    );
    assert_eq!(on_controller_input_message(0, data.clone(), active), None);
    assert_eq!(on_controller_input_message(1, vec![0, 0, 0, 0x08, 0], active), None);
    assert_eq!(on_controller_input_message(1, vec![1], active), None);
}

#[test]
fn rumble_messages() {
    assert_eq!(controller_rumble_message(3, 0x1234, 0xffff), [0, 3, 0x12, 0x34, 0xff, 0xff]);
    assert_eq!(controller_trigger_rumble_message(1, 0, 0x0100), [0, 1, 0, 0, 1, 0]);
}

#[test]
fn written_bytes_reach_the_caller() {
    let mut b = ByteBuffer::new(vec![0, 0, 0]);
    b.get_u8();
    b.put_u16(0xbeef);
    assert_eq!(b.as_slice(), &[0, 0xbe, 0xef]);
    assert_eq!(b.get_u16(), 0xbeef);
    assert_eq!(b.into_inner(), vec![0, 0xbe, 0xef]);
}
