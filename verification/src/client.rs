//! The client's side of a connected light.
//!
//! A [`Client`] knows which characteristics were discovered on the
//! peripheral, each by its 128-bit identifier, in the order in which the
//! transport lists them. Its methods decide what is written to which of
//! them; carrying a write out is left to the caller.
//!
//! [`Connect`] leads a connection attempt in the same way: it says what to
//! ask of the transport next, and [`find_light`] picks the light among the
//! peripherals of the scan.

use crate::color::{color, color_spec};
use crate::error::Error;
use crate::{
    DeviceSearchFilter, LightState, BRIGHTNESS_CHARACTERISTIC, COLOR_CHARACTERISTIC,
    NAME_CHARACTERISTIC, STATE_CHARACTERISTIC, TEMPERATURE_CHARACTERISTIC,
};
use vstd::prelude::*;
use vstd::string::StrSliceExecFns;
use vstd::utf8::encode_utf8;

verus! {

/// What `uuid::Uuid::parse_str` makes of a text: the identifier as a 128-bit
/// number, most significant byte first, or `None` where the text is no UUID.
pub uninterp spec fn parsed_uuid(text: Seq<char>) -> Option<u128>;

/// Reads an identifier with `uuid::Uuid::parse_str` and hands it out as
/// `uuid::Uuid::as_u128` gives it.
///
/// Nothing of this is proved. The contract claims only that the result is a
/// function of the text: the parser reads the bytes of its argument and
/// nothing else. Which texts are identifiers, and which number each one is,
/// is left to the `uuid` crate.
#[verifier::external_body]
fn parse_uuid(text: &str) -> (id: Option<u128>)
    ensures
        id == parsed_uuid(text@),
{
    match uuid::Uuid::parse_str(text) {
        Ok(id) => Some(id.as_u128()),
        Err(_) => None,
    }
}

/// Whether `at` is the first place in `ids` that holds `wanted`.
pub open spec fn is_first(ids: Seq<u128>, wanted: u128, at: int) -> bool {
    &&& 0 <= at < ids.len()
    &&& ids[at] == wanted
    &&& forall|before: int| 0 <= before < at ==> ids[before] != wanted
}

/// The first place in `ids` that holds the wanted identifier, if there is an
/// identifier and a place.
pub open spec fn position(ids: Seq<u128>, wanted: Option<u128>) -> Option<int> {
    match wanted {
        Some(id) => if exists|at: int| is_first(ids, id, at) {
            Some(choose|at: int| is_first(ids, id, at))
        } else {
            None
        },
        None => None,
    }
}

/// A write that the transport is asked to carry out.
#[derive(Debug)]
pub struct WriteCommand {
    /// Which of the discovered characteristics is written: its place among
    /// them.
    pub characteristic: usize,
    /// The bytes to write.
    pub payload: Vec<u8>,
    /// Whether the peripheral is asked to confirm the write.
    pub with_response: bool,
}

/// A write as a mathematical value.
pub struct Write {
    pub characteristic: int,
    pub payload: Seq<u8>,
    pub with_response: bool,
}

impl View for WriteCommand {
    type V = Write;

    open spec fn view(&self) -> Write {
        Write {
            characteristic: self.characteristic as int,
            payload: self.payload@,
            with_response: self.with_response,
        }
    }
}

/// A command that may be absent, as a mathematical value.
pub open spec fn command_view(command: Option<WriteCommand>) -> Option<Write> {
    match command {
        Some(c) => Some(c@),
        None => None,
    }
}

/// The write of `payload` to the wanted characteristic: unconfirmed, and
/// none at all where the characteristic is not among `ids`.
pub open spec fn plan_write(ids: Seq<u128>, wanted: Option<u128>, payload: Seq<u8>) -> Option<
    Write,
> {
    match position(ids, wanted) {
        Some(at) => Some(Write { characteristic: at, payload, with_response: false }),
        None => None,
    }
}

/// What is written to switch the light to `state`: its one byte.
pub open spec fn state_payload(state: LightState) -> Seq<u8> {
    seq![state.wire_byte()]
}

/// The characteristics discovered on the connected light.
pub struct Client {
    characteristics: Vec<u128>,
}

impl View for Client {
    type V = Seq<u128>;

    closed spec fn view(&self) -> Seq<u128> {
        self.characteristics@
    }
}

impl Client {
    /// A client for a light on which `characteristics` were discovered: the
    /// identifier of each, in the transport's order.
    pub fn new(characteristics: Vec<u128>) -> (client: Client)
        ensures
            client@ == characteristics@,
    {
        Client { characteristics }
    }

    /// Where the characteristic with the wanted identifier is: the first
    /// place among the discovered ones that holds it.
    pub fn locate(&self, wanted: Option<u128>) -> (at: Option<usize>)
        ensures
            match at {
                Some(i) => wanted matches Some(id) && is_first(self@, id, i as int),
                None => wanted matches Some(id) ==> forall|j: int|
                    0 <= j < self@.len() ==> self@[j] != id,
            },
            match at {
                Some(i) => position(self@, wanted) == Some(i as int),
                None => position(self@, wanted) is None,
            },
    {
        match wanted {
            Some(id) => {
                let mut i: usize = 0;
                while i < self.characteristics.len()
                    invariant
                        wanted == Some(id),
                        i <= self.characteristics.len(),
                        forall|j: int| 0 <= j < i ==> self@[j] != id,
                    decreases self.characteristics.len() - i,
                {
                    if self.characteristics[i] == id {
                        assert(is_first(self@, id, i as int));
                        return Some(i);
                    }
                    i += 1;
                }
                None
            },
            None => None,
        }
    }

    /// The write of `payload` to the characteristic with the wanted
    /// identifier, or nothing where the light has no such characteristic.
    pub fn write(&self, wanted: Option<u128>, payload: Vec<u8>) -> (command: Option<WriteCommand>)
        ensures
            command_view(command) == plan_write(self@, wanted, payload@),
            match command {
                Some(c) => {
                    &&& wanted matches Some(id) && is_first(self@, id, c.characteristic as int)
                    &&& c.payload@ == payload@
                    &&& !c.with_response
                },
                None => wanted matches Some(id) ==> forall|j: int|
                    0 <= j < self@.len() ==> self@[j] != id,
            },
    {
        match self.locate(wanted) {
            Some(at) => Some(WriteCommand { characteristic: at, payload, with_response: false }),
            None => None,
        }
    }

    /// Sets the brightness: one byte to the brightness characteristic.
    pub fn set_brightness(&self, value: u8) -> (command: Option<WriteCommand>)
        ensures
            command_view(command) == plan_write(
                self@,
                parsed_uuid(BRIGHTNESS_CHARACTERISTIC@),
                seq![value],
            ),
    {
        let payload = vec![value];
        assert(payload@ =~= seq![value]);
        self.write(parse_uuid(BRIGHTNESS_CHARACTERISTIC), payload)
    }

    /// Sets the colour temperature: one byte to the temperature
    /// characteristic.
    pub fn set_temperature(&self, value: u8) -> (command: Option<WriteCommand>)
        ensures
            command_view(command) == plan_write(
                self@,
                parsed_uuid(TEMPERATURE_CHARACTERISTIC@),
                seq![value],
            ),
    {
        let payload = vec![value];
        assert(payload@ =~= seq![value]);
        self.write(parse_uuid(TEMPERATURE_CHARACTERISTIC), payload)
    }

    /// Switches the light on or off: the state's byte to the state
    /// characteristic.
    pub fn set_state(&self, value: LightState) -> (command: Option<WriteCommand>)
        ensures
            command_view(command) == plan_write(
                self@,
                parsed_uuid(STATE_CHARACTERISTIC@),
                state_payload(value),
            ),
    {
        let payload = vec![value.to_byte()];
        assert(payload@ =~= state_payload(value));
        self.write(parse_uuid(STATE_CHARACTERISTIC), payload)
    }

    /// Where the power state is read: the place of the state characteristic
    /// among the discovered ones, or nothing where the light has none. The
    /// first byte of what is read there is the state, see
    /// [`LightState::from`].
    pub fn read_state(&self) -> (at: Option<usize>)
        ensures
            match at {
                Some(i) => position(self@, parsed_uuid(STATE_CHARACTERISTIC@)) == Some(i as int),
                None => position(self@, parsed_uuid(STATE_CHARACTERISTIC@)) is None,
            },
    {
        self.locate(parse_uuid(STATE_CHARACTERISTIC))
    }

    /// Switches the light to the other state. `current` is what was read
    /// from the light, as [`Client::read_state`] directs: without a state
    /// that was read, nothing is written.
    pub fn toggle(&self, current: Option<LightState>) -> (command: Option<WriteCommand>)
        ensures
            command_view(command) == match current {
                Some(state) => plan_write(
                    self@,
                    parsed_uuid(STATE_CHARACTERISTIC@),
                    state_payload(state.opposite()),
                ),
                None => None,
            },
    {
        match current {
            Some(state) => self.set_state(state.toggled()),
            None => None,
        }
    }

    /// Sets the colour. `hex_string` is six hexadecimal digits, with or
    /// without a `#` before them.
    ///
    /// Where the light has no colour characteristic nothing is written and
    /// the text is not looked at. Otherwise the text is converted, and a
    /// text that cannot be is an error.
    pub fn set_color(&self, hex_string: &str) -> (command: Result<Option<WriteCommand>, Error>)
        ensures
            match position(self@, parsed_uuid(COLOR_CHARACTERISTIC@)) {
                Some(at) => match color_spec(hex_string@) {
                    Ok(payload) => command matches Ok(Some(c)) && c@ == (Write {
                        characteristic: at,
                        payload,
                        with_response: false,
                    }),
                    Err(e) => command matches Err(Error::Color(err)) && err == e,
                },
                None => command matches Ok(None),
            },
    {
        match self.locate(parse_uuid(COLOR_CHARACTERISTIC)) {
            Some(at) => match color(hex_string) {
                Ok(bytes) => {
                    let payload = vec![bytes[0], bytes[1], bytes[2], bytes[3]];
                    assert(payload@ =~= bytes@);
                    Ok(Some(WriteCommand { characteristic: at, payload, with_response: false }))
                },
                Err(e) => Err(Error::from(e)),
            },
            None => Ok(None),
        }
    }

    /// Names the light: the name's bytes in UTF-8, with nothing after them,
    /// to the name characteristic.
    pub fn set_light_name(&self, name: &str) -> (command: Option<WriteCommand>)
        ensures
            command_view(command) == plan_write(
                self@,
                parsed_uuid(NAME_CHARACTERISTIC@),
                encode_utf8(name@),
            ),
    {
        self.write(parse_uuid(NAME_CHARACTERISTIC), name.as_bytes_vec())
    }
}

/// The state that the light reports once `write` has reached its state
/// characteristic: the one that the first byte written stands for.
pub open spec fn state_after(write: Write) -> LightState {
    LightState::of_byte(write.payload[0])
}

/// A state that is written is the state that is read back: what
/// [`Client::set_state`] writes for a state is one byte, 0 or 1, and
/// [`LightState::from`] decodes it to that state.
pub proof fn lemma_state_round_trip(ids: Seq<u128>, wanted: Option<u128>, state: LightState)
    ensures
        plan_write(ids, wanted, state_payload(state)) matches Some(write) ==> write.payload.len()
            == 1 && write.payload[0] <= 1 && state_after(write) == state,
{
}

/// Two toggles restore the state. Where the first, from `state`, writes at
/// all, the light is in the other state after it, and the second, from that
/// state, writes to the same characteristic and leaves the light in `state`
/// again.
pub proof fn lemma_toggle_twice(ids: Seq<u128>, wanted: Option<u128>, state: LightState)
    ensures
        state.opposite().opposite() == state,
        plan_write(ids, wanted, state_payload(state.opposite())) matches Some(first) ==> {
            &&& state_after(first) == state.opposite()
            &&& plan_write(ids, wanted, state_payload(state_after(first).opposite())) matches Some(
                second,
            )
            &&& second.characteristic == first.characteristic
            &&& state_after(second) == state
        },
{
}

/// What a scan tells of a peripheral.
#[derive(Debug)]
pub struct PeripheralInfo {
    /// The peripheral's address, written out.
    pub address: String,
    /// The name that the peripheral advertises, if it advertises one.
    pub local_name: Option<String>,
}

/// Whether `part` stands in `text` from place `at` on.
pub open spec fn occurs_at(text: Seq<char>, part: Seq<char>, at: int) -> bool {
    &&& 0 <= at
    &&& at + part.len() <= text.len()
    &&& text.subrange(at, at + part.len()) == part
}

/// Whether `part` stands somewhere in `text`.
pub open spec fn contains_text(text: Seq<char>, part: Seq<char>) -> bool {
    exists|at: int| occurs_at(text, part, at)
}

impl<'a> DeviceSearchFilter<'a> {
    /// Whether the filter takes the peripheral for the light: a name filter
    /// where the advertised name contains the filter's text, an address
    /// filter where the address does. A peripheral without a name meets no
    /// name filter.
    pub open spec fn accepts(self, peripheral: PeripheralInfo) -> bool {
        match self {
            DeviceSearchFilter::Name(part) => match peripheral.local_name {
                Some(name) => contains_text(name@, part@),
                None => false,
            },
            DeviceSearchFilter::MAC(part) => contains_text(peripheral.address@, part@),
        }
    }

    /// Whether the filter takes the peripheral for the light.
    pub fn matches(&self, peripheral: &PeripheralInfo) -> (accepted: bool)
        ensures
            accepted == self.accepts(*peripheral),
    {
        match self {
            DeviceSearchFilter::Name(part) => match &peripheral.local_name {
                Some(name) => contains(name.as_str(), part),
                None => false,
            },
            DeviceSearchFilter::MAC(part) => contains(peripheral.address.as_str(), part),
        }
    }
}

/// Whether `at` is the first peripheral that the filter accepts.
pub open spec fn is_first_match(
    peripherals: Seq<PeripheralInfo>,
    filter: DeviceSearchFilter,
    at: int,
) -> bool {
    &&& 0 <= at < peripherals.len()
    &&& filter.accepts(peripherals[at])
    &&& forall|before: int| 0 <= before < at ==> !filter.accepts(#[trigger] peripherals[before])
}

/// The place of the first peripheral that the filter accepts, if it accepts
/// one.
pub open spec fn first_match(peripherals: Seq<PeripheralInfo>, filter: DeviceSearchFilter) -> Option<
    int,
> {
    if exists|at: int| is_first_match(peripherals, filter, at) {
        Some(choose|at: int| is_first_match(peripherals, filter, at))
    } else {
        None
    }
}

fn chars_of(text: &str) -> (chars: Vec<char>)
    ensures
        chars@ == text@,
{
    let mut chars: Vec<char> = Vec::new();
    for c in it: text.chars()
        invariant
            chars@ == it.seq().take(it.index()),
            it.seq() == text@,
    {
        chars.push(c);
    }
    chars
}

fn occurs(text: &Vec<char>, part: &Vec<char>, at: usize) -> (found: bool)
    requires
        at + part.len() <= text.len(),
    ensures
        found == occurs_at(text@, part@, at as int),
{
    let mut i: usize = 0;
    while i < part.len()
        invariant
            i <= part.len(),
            at + part.len() <= text.len(),
            forall|j: int| 0 <= j < i ==> text@[at + j] == part@[j],
        decreases part.len() - i,
    {
        if text[at + i] != part[i] {
            assert(text@.subrange(at as int, at + part.len())[i as int] != part@[i as int]);
            return false;
        }
        i += 1;
    }
    assert(text@.subrange(at as int, at + part.len()) =~= part@);
    true
}

/// Whether `part` stands somewhere in `text`. The empty text stands in every
/// text.
pub fn contains(text: &str, part: &str) -> (found: bool)
    ensures
        found == contains_text(text@, part@),
{
    let hay = chars_of(text);
    let needle = chars_of(part);
    if needle.len() > hay.len() {
        assert forall|at: int| !occurs_at(text@, part@, at) by {}
        return false;
    }
    let last = hay.len() - needle.len();
    let mut at: usize = 0;
    loop
        invariant
            hay@ == text@,
            needle@ == part@,
            last == hay.len() - needle.len(),
            at <= last,
            forall|before: int| 0 <= before < at ==> !occurs_at(text@, part@, before),
        decreases last - at,
    {
        if occurs(&hay, &needle, at) {
            return true;
        }
        if at == last {
            return false;
        }
        at += 1;
    }
}

/// Picks the light among the peripherals of a scan: the first, in the order
/// of the scan, that the filter accepts.
pub fn find_light(peripherals: &Vec<PeripheralInfo>, search_filter: DeviceSearchFilter) -> (found:
    Option<usize>)
    ensures
        match found {
            Some(at) => is_first_match(peripherals@, search_filter, at as int),
            None => forall|at: int|
                0 <= at < peripherals.len() ==> !search_filter.accepts(#[trigger] peripherals[at]),
        },
        match found {
            Some(at) => first_match(peripherals@, search_filter) == Some(at as int),
            None => first_match(peripherals@, search_filter) is None,
        },
{
    let mut at: usize = 0;
    while at < peripherals.len()
        invariant
            at <= peripherals.len(),
            forall|before: int|
                0 <= before < at ==> !search_filter.accepts(#[trigger] peripherals[before]),
        decreases peripherals.len() - at,
    {
        if search_filter.matches(&peripherals[at]) {
            assert(is_first_match(peripherals@, search_filter, at as int));
            return Some(at);
        }
        at += 1;
    }
    None
}

/// How long a scan runs before its peripherals are looked at, in
/// milliseconds, unless the caller says otherwise.
pub const SCAN_WINDOW_MS: u64 = 1000;

/// What a connection attempt asks of the transport, one request at a time.
#[derive(Clone, Copy, Debug, PartialEq, Eq, Structural)]
pub enum Request {
    /// List the machine's Bluetooth adapters.
    ListAdapters,
    /// Start a scan, without a filter, on the adapter at this place of the
    /// list.
    StartScan { adapter: usize },
    /// Let the scan run for so many milliseconds.
    Wait { millis: u64 },
    /// List the peripherals that the scan has found, each with its address
    /// and name.
    ListPeripherals,
    /// Connect to the peripheral at this place of the list.
    Connect { peripheral: usize },
    /// Discover the services and characteristics of that peripheral.
    DiscoverServices { peripheral: usize },
}

/// What the transport answers to a request.
#[derive(Debug)]
pub enum Response {
    /// The request was carried out; it hands nothing back.
    Done,
    /// So many adapters were listed.
    Adapters { count: usize },
    /// These peripherals were listed, in the transport's order.
    Peripherals { found: Vec<PeripheralInfo> },
    /// The request failed.
    Failed,
}

/// Where a connection attempt stands after an answer.
#[derive(Clone, Copy, Debug, PartialEq, Eq, Structural)]
pub enum Progress {
    /// The transport is to carry out this request next.
    Ask(Request),
    /// The light is the peripheral at this place of the list; it is connected
    /// and its characteristics are discovered.
    Ready { peripheral: usize },
    /// The attempt is over and has failed.
    Fail(Error),
}

/// A connection attempt: how the light is recognised and how long the scan
/// runs.
#[derive(Clone, Copy, Debug)]
pub struct Connect<'a> {
    pub filter: DeviceSearchFilter<'a>,
    pub scan_window_ms: u64,
}

impl<'a> Connect<'a> {
    /// What follows when the transport has answered `response` to `asked`.
    ///
    /// The requests come in one fixed order: the adapters are listed and the
    /// first of them scans; the scan runs for the whole window; only then
    /// are the peripherals listed and the first that the filter accepts
    /// connected to, and its services discovered. Without an adapter the
    /// attempt fails with `NoAdapter`, without a peripheral that the filter
    /// accepts with `LightNotFound`. A request that failed, or that was
    /// answered with what belongs to another request, ends the attempt with
    /// `BluetoothError` for that request.
    pub open spec fn next_spec(self, asked: Request, response: Response) -> Progress {
        match (asked, response) {
            (Request::ListAdapters, Response::Adapters { count }) => if count == 0 {
                Progress::Fail(Error::NoAdapter)
            } else {
                Progress::Ask(Request::StartScan { adapter: 0 })
            },
            (Request::StartScan { .. }, Response::Done) => Progress::Ask(
                Request::Wait { millis: self.scan_window_ms },
            ),
            (Request::Wait { .. }, Response::Done) => Progress::Ask(Request::ListPeripherals),
            (Request::ListPeripherals, Response::Peripherals { found }) => match first_match(
                found@,
                self.filter,
            ) {
                Some(at) => Progress::Ask(Request::Connect { peripheral: at as usize }),
                None => Progress::Fail(Error::LightNotFound),
            },
            (Request::Connect { peripheral }, Response::Done) => Progress::Ask(
                Request::DiscoverServices { peripheral },
            ),
            (Request::DiscoverServices { peripheral }, Response::Done) => Progress::Ready {
                peripheral,
            },
            _ => Progress::Fail(Error::BluetoothError(asked)),
        }
    }

    /// An attempt with the given filter and the usual scan window.
    pub fn new(filter: DeviceSearchFilter<'a>) -> (attempt: Connect<'a>)
        ensures
            attempt.filter == filter,
            attempt.scan_window_ms == SCAN_WINDOW_MS,
    {
        Connect { filter, scan_window_ms: SCAN_WINDOW_MS }
    }

    /// The request that opens the attempt.
    pub fn start(&self) -> (first: Request)
        ensures
            first == Request::ListAdapters,
    {
        Request::ListAdapters
    }

    /// Decides what follows when the transport has answered `response` to
    /// `asked`: the next request, or how the attempt ended.
    pub fn next(&self, asked: Request, response: &Response) -> (progress: Progress)
        ensures
            progress == self.next_spec(asked, *response),
    {
        match (asked, response) {
            (Request::ListAdapters, Response::Adapters { count }) => {
                if *count == 0 {
                    Progress::Fail(Error::NoAdapter)
                } else {
                    Progress::Ask(Request::StartScan { adapter: 0 })
                }
            },
            (Request::StartScan { .. }, Response::Done) => Progress::Ask(
                Request::Wait { millis: self.scan_window_ms },
            ),
            (Request::Wait { .. }, Response::Done) => Progress::Ask(Request::ListPeripherals),
            (Request::ListPeripherals, Response::Peripherals { found }) => {
                match find_light(found, self.filter) {
                    Some(at) => Progress::Ask(Request::Connect { peripheral: at }),
                    None => Progress::Fail(Error::LightNotFound),
                }
            },
            (Request::Connect { peripheral }, Response::Done) => Progress::Ask(
                Request::DiscoverServices { peripheral },
            ),
            (Request::DiscoverServices { peripheral }, Response::Done) => Progress::Ready {
                peripheral,
            },
            _ => Progress::Fail(Error::BluetoothError(asked)),
        }
    }
}

} // verus!
