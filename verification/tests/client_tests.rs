use hue_bt::client::{Client, WriteCommand};
use hue_bt::color::ColorError;
use hue_bt::error::Error;
use hue_bt::{
    LightState, BRIGHTNESS_CHARACTERISTIC, COLOR_CHARACTERISTIC, NAME_CHARACTERISTIC,
    STATE_CHARACTERISTIC, TEMPERATURE_CHARACTERISTIC,
};

const STATE: u128 = 0x932c32bd_0002_47a2_835a_a8d455b859dd;
const BRIGHTNESS: u128 = 0x932c32bd_0003_47a2_835a_a8d455b859dd;
const TEMPERATURE: u128 = 0x932c32bd_0004_47a2_835a_a8d455b859dd;
const COLOR: u128 = 0x932c32bd_0005_47a2_835a_a8d455b859dd;
const NAME: u128 = 0x97fe6561_0003_4f62_86e9_b71ee2da3d22;
const OTHER: u128 = 0x0000180a_0000_1000_8000_00805f9b34fb;

fn id_of(text: &str) -> u128 {
    uuid::Uuid::parse_str(text).unwrap().as_u128()
}

fn full_light() -> Client {
    Client::new(vec![OTHER, STATE, BRIGHTNESS, TEMPERATURE, COLOR, NAME])
}

fn parts(command: Option<WriteCommand>) -> Option<(usize, Vec<u8>, bool)> {
    command.map(|c| (c.characteristic, c.payload, c.with_response))
}

#[test]
fn identifiers_are_read_as_uuids() {
    assert_eq!(id_of(STATE_CHARACTERISTIC), STATE);
    assert_eq!(id_of(BRIGHTNESS_CHARACTERISTIC), BRIGHTNESS);
    assert_eq!(id_of(TEMPERATURE_CHARACTERISTIC), TEMPERATURE);
    assert_eq!(id_of(COLOR_CHARACTERISTIC), COLOR);
    assert_eq!(id_of(NAME_CHARACTERISTIC), NAME);
}

#[test]
fn each_operation_writes_to_its_own_characteristic() {
    let client: Client = full_light();
    assert_eq!(parts(client.set_state(LightState::On)), Some((1, vec![1], false)));
    assert_eq!(parts(client.set_brightness(200)), Some((2, vec![200], false)));
    assert_eq!(parts(client.set_temperature(40)), Some((3, vec![40], false)));
    assert_eq!(parts(client.set_color("#FF0000").unwrap()), Some((4, vec![1, 253, 1, 1], false)));
    assert_eq!(parts(client.set_light_name("Lamp")), Some((5, b"Lamp".to_vec(), false)));
    assert_eq!(client.read_state(), Some(1));
}

#[test]
fn identifiers_found_through_the_uuid_crate() {
    let client: Client = Client::new(vec![
        id_of(NAME_CHARACTERISTIC),
        id_of(COLOR_CHARACTERISTIC),
        id_of(TEMPERATURE_CHARACTERISTIC),
        id_of(BRIGHTNESS_CHARACTERISTIC),
        id_of(STATE_CHARACTERISTIC),
    ]);
    assert_eq!(parts(client.set_light_name("x")), Some((0, vec![b'x'], false)));
    assert_eq!(parts(client.set_color("0000FF").unwrap()), Some((1, vec![1, 1, 253, 1], false)));
    assert_eq!(parts(client.set_temperature(0)), Some((2, vec![0], false)));
    assert_eq!(parts(client.set_brightness(255)), Some((3, vec![255], false)));
    assert_eq!(parts(client.set_state(LightState::Off)), Some((4, vec![0], false)));
    assert_eq!(client.read_state(), Some(4));
}

#[test]
fn missing_characteristic_is_a_silent_no_op() {
    let bare: Client = Client::new(vec![OTHER]);
    assert_eq!(parts(bare.set_brightness(7)), None);
    assert_eq!(parts(bare.set_temperature(7)), None);
    assert_eq!(parts(bare.set_state(LightState::On)), None);
    assert_eq!(parts(bare.set_light_name("Lamp")), None);
    assert_eq!(parts(bare.set_color("#FF0000").unwrap()), None);
    assert_eq!(bare.read_state(), None);
    assert_eq!(parts(bare.toggle(Some(LightState::On))), None);

    let empty: Client = Client::new(Vec::new());
    assert_eq!(parts(empty.set_brightness(7)), None);
    assert_eq!(empty.read_state(), None);

    let only_state: Client = Client::new(vec![STATE]);
    assert_eq!(parts(only_state.set_brightness(7)), None);
    assert_eq!(parts(only_state.set_state(LightState::On)), Some((0, vec![1], false)));
}

#[test]
fn color_is_not_read_without_a_color_characteristic() {
    let bare: Client = Client::new(vec![OTHER, STATE]);
    assert!(matches!(bare.set_color("not a colour"), Ok(None)));
    assert!(matches!(bare.set_color("#000002"), Ok(None)));
}

#[test]
fn bad_color_is_an_error_where_the_characteristic_exists() {
    let client: Client = full_light();
    assert_eq!(client.set_color("not a colour").unwrap_err(), Error::Color(ColorError::InvalidHex));
    assert_eq!(client.set_color("FF00").unwrap_err(), Error::Color(ColorError::InvalidHex));
    assert_eq!(client.set_color("#000002").unwrap_err(), Error::Color(ColorError::InvalidColor));
}

#[test]
fn the_first_of_equal_characteristics_is_written() {
    let client: Client = Client::new(vec![OTHER, BRIGHTNESS, STATE, BRIGHTNESS, STATE]);
    assert_eq!(parts(client.set_brightness(1)), Some((1, vec![1], false)));
    assert_eq!(client.read_state(), Some(2));
    assert_eq!(client.locate(Some(STATE)), Some(2));
    assert_eq!(client.locate(Some(BRIGHTNESS)), Some(1));
    assert_eq!(client.locate(Some(COLOR)), None);
    assert_eq!(client.locate(None), None);
}

#[test]
fn write_goes_to_the_wanted_identifier() {
    let client: Client = Client::new(vec![5, 7, 7]);
    assert_eq!(parts(client.write(Some(7), vec![9, 8])), Some((1, vec![9, 8], false)));
    assert_eq!(parts(client.write(Some(5), Vec::new())), Some((0, Vec::new(), false)));
    assert_eq!(parts(client.write(Some(6), vec![9])), None);
    assert_eq!(parts(client.write(None, vec![9])), None);
}

#[test]
fn set_name() {
    let client: Client = full_light();
    assert_eq!(
        parts(client.set_light_name("Hue BT Rust testing")),
        Some((5, b"Hue BT Rust testing".to_vec(), false))
    );
}

#[test]
fn name_is_written_as_utf8_without_terminator() {
    let client: Client = full_light();
    assert_eq!(
        parts(client.set_light_name("Küche ☀")),
        Some((5, vec![0x4b, 0xc3, 0xbc, 0x63, 0x68, 0x65, 0x20, 0xe2, 0x98, 0x80], false))
    );
    assert_eq!(parts(client.set_light_name("")), Some((5, Vec::new(), false)));
}

#[test]
fn set_temperature() {
    let client: Client = full_light();
    assert_eq!(parts(client.set_temperature(40)), Some((3, vec![40], false)));
}

#[test]
fn toggle_state() {
    let client: Client = full_light();
    let mut state: LightState = LightState::Off;
    for round in 0..10 {
        let command: WriteCommand = client.toggle(Some(state)).unwrap();
        assert_eq!(command.characteristic, 1);
        assert!(!command.with_response);
        assert_eq!(command.payload.len(), 1);
        let expected: u8 = if round % 2 == 0 { 1 } else { 0 };
        assert_eq!(command.payload[0], expected);
        state = LightState::from(command.payload[0]);
    }
    assert_eq!(state, LightState::Off);
}

#[test]
fn toggle_without_a_state_writes_nothing() {
    let client: Client = full_light();
    assert_eq!(parts(client.toggle(None)), None);
}

#[test]
fn toggle_twice_restores_the_state() {
    let client: Client = full_light();
    for start in [LightState::Off, LightState::On] {
        let first: WriteCommand = client.toggle(Some(start)).unwrap();
        let between: LightState = LightState::from(first.payload[0]);
        assert_ne!(between, start);
        let second: WriteCommand = client.toggle(Some(between)).unwrap();
        assert_eq!(LightState::from(second.payload[0]), start);
    }
}

#[test]
fn written_state_is_read_back() {
    let client: Client = full_light();
    for state in [LightState::On, LightState::Off] {
        let command: WriteCommand = client.set_state(state).unwrap();
        assert_eq!(Some(command.characteristic), client.read_state());
        assert_eq!(LightState::from(command.payload[0]), state);
    }
}

#[test]
fn light_state_bytes() {
    assert_eq!(LightState::from(0), LightState::Off);
    assert_eq!(LightState::from(1), LightState::On);
    assert_eq!(LightState::Off.to_byte(), 0);
    assert_eq!(LightState::On.to_byte(), 1);
    assert_eq!(LightState::Off.toggled(), LightState::On);
    assert_eq!(LightState::On.toggled(), LightState::Off);
}

#[test]
fn error_messages() {
    assert_eq!(Error::LightNotFound.message(), "Light Not Found");
    assert_eq!(Error::Color(ColorError::InvalidHex).message(), "Invalid hex color code");
    assert_eq!(Error::from(ColorError::InvalidHex), Error::Color(ColorError::InvalidHex));
    assert_eq!(
        Error::Color(ColorError::InvalidColor).message(),
        ColorError::InvalidColor.message()
    );
    assert_ne!(Error::NoAdapter.message(), Error::LightNotFound.message());
}
