//! The events the session controller consumes and the actions it hands
//! back to its driver.
//!
//! The controller itself never touches a device: whenever handling an
//! event calls for port work, [`Action`] says what the driver must do
//! (open, write, poll, read, close), and the driver reports the outcome
//! back as a further event (`OpenSucceeded`, `WriteFailed`, and so on).

use vstd::prelude::*;
use crate::codec::RxFormats;

verus! {

/// The encoding of the composed command on transmit.
#[derive(Clone, Copy, Debug, PartialEq, Eq, Structural)]
pub enum TxFormat {
    Utf8,
    Hex,
}

/// The polled listener's two states.
#[derive(Clone, Copy, Debug, PartialEq, Eq, Structural)]
pub enum ListenerState {
    Idle,
    Listening,
}

/// Data bits of the serial line configuration.
#[derive(Clone, Copy, Debug, PartialEq, Eq, Structural)]
pub enum DataBits {
    Five,
    Six,
    Seven,
    Eight,
}

/// Parity of the serial line configuration; `Off` transmits no parity bit.
#[derive(Clone, Copy, Debug, PartialEq, Eq, Structural)]
pub enum Parity {
    Off,
    Odd,
    Even,
}

/// Stop bits of the serial line configuration.
#[derive(Clone, Copy, Debug, PartialEq, Eq, Structural)]
pub enum StopBits {
    One,
    Two,
}

/// The line parameters handed to the driver on an open request.
#[derive(Debug)]
pub struct PortConfig {
    pub name: String,
    pub baud: u32,
    pub data_bits: DataBits,
    pub parity: Parity,
    pub stop_bits: StopBits,
}

pub ghost struct PortConfigModel {
    pub name: Seq<char>,
    pub baud: u32,
    pub data_bits: DataBits,
    pub parity: Parity,
    pub stop_bits: StopBits,
}

impl View for PortConfig {
    type V = PortConfigModel;

    open spec fn view(&self) -> PortConfigModel {
        PortConfigModel {
            name: self.name@,
            baud: self.baud,
            data_bits: self.data_bits,
            parity: self.parity,
            stop_bits: self.stop_bits,
        }
    }
}

/// One event of the serialized queue. The first group mirrors user
/// gestures; `OpenSucceeded` through `ReadFailed` report the outcome of a
/// previously requested [`Action`] and carry what the driver observed.
#[derive(Debug)]
pub enum Event {
    SelectPort(String),
    SelectBaud(u32),
    SelectDataBits(DataBits),
    SelectParity(Parity),
    SelectStopBits(StopBits),
    SelectTxFormat(TxFormat),
    ToggleRxUtf8(bool),
    ToggleRxHex(bool),
    ToggleRxBin(bool),
    ChangeCommand(String),
    SelectTheme(String),
    HoverTheme(String),
    OpenPort,
    /// The requested open returned a handle, now held by the driver.
    OpenSucceeded,
    /// The requested open failed with this error message.
    OpenFailed(String),
    ClosePort,
    Send,
    /// The requested write completed; the field is the number of bytes of
    /// the written frame.
    WriteSucceeded(u64),
    /// The requested write failed; the format of the attempted frame and
    /// the error message.
    WriteFailed(TxFormat, String),
    Recv,
    /// The requested poll found this many readable bytes.
    BytesAvailable(u64),
    /// The requested read returned: the number of bytes placed in the
    /// buffer, and the whole 16-byte buffer.
    ReadSucceeded(u64, Vec<u8>),
    /// The requested poll or read failed with this error message.
    ReadFailed(String),
    ToggleListener,
}

pub ghost enum EventModel {
    SelectPort(Seq<char>),
    SelectBaud(u32),
    SelectDataBits(DataBits),
    SelectParity(Parity),
    SelectStopBits(StopBits),
    SelectTxFormat(TxFormat),
    ToggleRxUtf8(bool),
    ToggleRxHex(bool),
    ToggleRxBin(bool),
    ChangeCommand(Seq<char>),
    SelectTheme(Seq<char>),
    HoverTheme(Seq<char>),
    OpenPort,
    OpenSucceeded,
    OpenFailed(Seq<char>),
    ClosePort,
    Send,
    WriteSucceeded(u64),
    WriteFailed(TxFormat, Seq<char>),
    Recv,
    BytesAvailable(u64),
    ReadSucceeded(u64, Seq<u8>),
    ReadFailed(Seq<char>),
    ToggleListener,
}

impl View for Event {
    type V = EventModel;

    open spec fn view(&self) -> EventModel {
        match self {
            Event::SelectPort(n) => EventModel::SelectPort(n@),
            Event::SelectBaud(b) => EventModel::SelectBaud(*b),
            Event::SelectDataBits(d) => EventModel::SelectDataBits(*d),
            Event::SelectParity(p) => EventModel::SelectParity(*p),
            Event::SelectStopBits(s) => EventModel::SelectStopBits(*s),
            Event::SelectTxFormat(f) => EventModel::SelectTxFormat(*f),
            Event::ToggleRxUtf8(on) => EventModel::ToggleRxUtf8(*on),
            Event::ToggleRxHex(on) => EventModel::ToggleRxHex(*on),
            Event::ToggleRxBin(on) => EventModel::ToggleRxBin(*on),
            Event::ChangeCommand(s) => EventModel::ChangeCommand(s@),
            Event::SelectTheme(t) => EventModel::SelectTheme(t@),
            Event::HoverTheme(t) => EventModel::HoverTheme(t@),
            Event::OpenPort => EventModel::OpenPort,
            Event::OpenSucceeded => EventModel::OpenSucceeded,
            Event::OpenFailed(e) => EventModel::OpenFailed(e@),
            Event::ClosePort => EventModel::ClosePort,
            Event::Send => EventModel::Send,
            Event::WriteSucceeded(n) => EventModel::WriteSucceeded(*n),
            Event::WriteFailed(f, e) => EventModel::WriteFailed(*f, e@),
            Event::Recv => EventModel::Recv,
            Event::BytesAvailable(n) => EventModel::BytesAvailable(*n),
            Event::ReadSucceeded(n, buf) => EventModel::ReadSucceeded(*n, buf@),
            Event::ReadFailed(e) => EventModel::ReadFailed(e@),
            Event::ToggleListener => EventModel::ToggleListener,
        }
    }
}

/// What the driver must do after an event was handled. `Wait` asks for
/// nothing. A `ReadRequest` is served by one non-blocking read into a
/// fresh 16-byte zeroed buffer.
#[derive(Debug)]
pub enum Action {
    Wait,
    OpenRequest(PortConfig),
    WriteRequest(TxFormat, Vec<u8>),
    PollRequest,
    ReadRequest,
    CloseRequest,
}

pub ghost enum ActionModel {
    Wait,
    OpenRequest(PortConfigModel),
    WriteRequest(TxFormat, Seq<u8>),
    PollRequest,
    ReadRequest,
    CloseRequest,
}

impl View for Action {
    type V = ActionModel;

    open spec fn view(&self) -> ActionModel {
        match self {
            Action::Wait => ActionModel::Wait,
            Action::OpenRequest(c) => ActionModel::OpenRequest(c@),
            Action::WriteRequest(f, b) => ActionModel::WriteRequest(*f, b@),
            Action::PollRequest => ActionModel::PollRequest,
            Action::ReadRequest => ActionModel::ReadRequest,
            Action::CloseRequest => ActionModel::CloseRequest,
        }
    }
}

} // verus!
