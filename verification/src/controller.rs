//! The session controller: an event-driven state container that owns the
//! port lifecycle, the transmit and receive format selections, the composed
//! command, the polled listener, and the append-only activity log.
//!
//! [`Controller::step`] is the single mutator. Its entire effect — the new
//! state and the action handed back to the driver — is given by the two
//! spec functions [`spec_step`] and [`spec_action`], so every property of
//! the controller can be stated and proved over those.

use vstd::prelude::*;
use vstd::utf8::encode_utf8;
use crate::codec::{
    all_hex_digits, hex_decode, hex_err_text, render_bytes, spec_hex_decode, spec_render_lines,
    spec_strip_spaces, HexDecodeError, RxFormats,
};
use crate::events::{
    Action, ActionModel, DataBits, Event, EventModel, ListenerState, Parity, PortConfig,
    PortConfigModel, StopBits, TxFormat,
};
use crate::text::{spec_dec, u64_to_dec};

verus! {

/// The mathematical state of the controller. The open port handle itself
/// lives with the driver; here it is only the fact that one is held.
#[verifier::ext_equal]
pub ghost struct Model {
    pub selected_port: Option<Seq<char>>,
    pub baud: u32,
    pub data_bits: DataBits,
    pub parity: Parity,
    pub stop_bits: StopBits,
    pub port_open: bool,
    pub listener: ListenerState,
    pub tx_format: TxFormat,
    pub rx_formats: RxFormats,
    pub command: Seq<char>,
    pub theme: Seq<char>,
    pub log: Seq<Seq<char>>,
}

pub open spec fn line_port_not_open() -> Seq<char> {
    "Port not open"@
}

pub open spec fn line_no_port_selected() -> Seq<char> {
    "No port selected"@
}

pub open spec fn line_port_closed() -> Seq<char> {
    "Port closed"@
}

pub open spec fn line_listener_started() -> Seq<char> {
    "Listener started"@
}

pub open spec fn line_listener_stopped() -> Seq<char> {
    "Listener stopped"@
}

pub open spec fn line_invalid_hex() -> Seq<char> {
    "Invalid hex string"@
}

pub open spec fn line_open_ok(name: Seq<char>) -> Seq<char> {
    "Successfully opened port '"@ + name + "'"@
}

pub open spec fn line_open_failed(name: Seq<char>, err: Seq<char>) -> Seq<char> {
    "Failed to open port '"@ + name + "': "@ + err
}

pub open spec fn line_hex_decode_error(err: Seq<char>) -> Seq<char> {
    "Error decoding hex: "@ + err
}

pub open spec fn line_sent(count: u64, cmd: Seq<char>) -> Seq<char> {
    "Sent "@ + spec_dec(count as nat) + " bytes: "@ + cmd
}

pub open spec fn line_send_failed(format: TxFormat, err: Seq<char>) -> Seq<char> {
    (if format == TxFormat::Utf8 {
        "Error sending utf8 command: "@
    } else {
        "Error sending hex command: "@
    }) + err
}

/// The state a fresh controller starts in: nothing selected, line
/// parameters at their defaults, port closed, listener idle, transmit as
/// text, hexadecimal display active, empty command and log.
pub open spec fn init_model() -> Model {
    Model {
        selected_port: None,
        baud: 9600,
        data_bits: DataBits::Eight,
        parity: Parity::Off,
        stop_bits: StopBits::One,
        port_open: false,
        listener: ListenerState::Idle,
        tx_format: TxFormat::Utf8,
        rx_formats: RxFormats { utf8: false, hex: true, bin: false },
        command: Seq::empty(),
        theme: Seq::empty(),
        log: Seq::empty(),
    }
}

/// The controller's invariant: the listener is only ever armed while a
/// port is held.
pub open spec fn wf(m: Model) -> bool {
    m.listener == ListenerState::Listening ==> m.port_open
}

/// The state after handling one event.
pub open spec fn spec_step(m: Model, e: EventModel) -> Model {
    match e {
        EventModel::SelectPort(n) => Model { selected_port: Some(n), ..m },
        EventModel::SelectBaud(b) => Model { baud: b, ..m },
        EventModel::SelectDataBits(d) => Model { data_bits: d, ..m },
        EventModel::SelectParity(p) => Model { parity: p, ..m },
        EventModel::SelectStopBits(s) => Model { stop_bits: s, ..m },
        EventModel::SelectTxFormat(f) => Model { tx_format: f, ..m },
        EventModel::ToggleRxUtf8(on) => Model {
            rx_formats: RxFormats { utf8: on, ..m.rx_formats },
            ..m
        },
        EventModel::ToggleRxHex(on) => Model {
            rx_formats: RxFormats { hex: on, ..m.rx_formats },
            ..m
        },
        EventModel::ToggleRxBin(on) => Model {
            rx_formats: RxFormats { bin: on, ..m.rx_formats },
            ..m
        },
        EventModel::ChangeCommand(s) => Model { command: s, ..m },
        EventModel::SelectTheme(t) => Model { theme: t, ..m },
        EventModel::HoverTheme(t) => Model { theme: t, ..m },
        EventModel::OpenPort => match m.selected_port {
            None => Model { log: m.log.push(line_no_port_selected()), ..m },
            Some(_) => m,
        },
        EventModel::OpenSucceeded => match m.selected_port {
            Some(n) => Model { port_open: true, log: m.log.push(line_open_ok(n)), ..m },
            None => m,
        },
        EventModel::OpenFailed(err) => match m.selected_port {
            Some(n) => Model {
                port_open: false,
                listener: ListenerState::Idle,
                log: m.log.push(line_open_failed(n, err)),
                ..m
            },
            None => m,
        },
        EventModel::ClosePort => if m.port_open {
            Model {
                port_open: false,
                listener: ListenerState::Idle,
                log: m.log.push(line_port_closed()),
                ..m
            }
        } else {
            m
        },
        EventModel::Send => if !m.port_open {
            Model { log: m.log.push(line_port_not_open()), ..m }
        } else {
            match m.tx_format {
                TxFormat::Utf8 => m,
                TxFormat::Hex => {
                    let t = spec_strip_spaces(m.command);
                    if t.len() % 2 != 0 {
                        Model { log: m.log.push(line_invalid_hex()), ..m }
                    } else if !all_hex_digits(t) {
                        Model { log: m.log.push(line_hex_decode_error(hex_err_text(t))), ..m }
                    } else {
                        m
                    }
                },
            }
        },
        EventModel::WriteSucceeded(n) => if m.port_open {
            Model { log: m.log.push(line_sent(n, m.command)), ..m }
        } else {
            m
        },
        EventModel::WriteFailed(f, err) => if m.port_open {
            Model { log: m.log.push(line_send_failed(f, err)), ..m }
        } else {
            m
        },
        EventModel::Recv => if !m.port_open {
            Model { log: m.log.push(line_port_not_open()), ..m }
        } else {
            m
        },
        EventModel::BytesAvailable(_) => m,
        EventModel::ReadSucceeded(n, buf) => if m.port_open {
            Model { log: m.log + spec_render_lines(n, buf, m.rx_formats), ..m }
        } else {
            m
        },
        EventModel::ReadFailed(err) => if m.port_open {
            Model { log: m.log.push(err), ..m }
        } else {
            m
        },
        EventModel::ToggleListener => if !m.port_open {
            Model { log: m.log.push(line_port_not_open()), ..m }
        } else if m.listener == ListenerState::Idle {
            Model {
                listener: ListenerState::Listening,
                log: m.log.push(line_listener_started()),
                ..m
            }
        } else {
            Model { listener: ListenerState::Idle, log: m.log.push(line_listener_stopped()), ..m }
        },
    }
}

/// The action handed to the driver for one event.
pub open spec fn spec_action(m: Model, e: EventModel) -> ActionModel {
    match e {
        EventModel::OpenPort => match m.selected_port {
            Some(n) => ActionModel::OpenRequest(
                PortConfigModel {
                    name: n,
                    baud: m.baud,
                    data_bits: m.data_bits,
                    parity: m.parity,
                    stop_bits: m.stop_bits,
                },
            ),
            None => ActionModel::Wait,
        },
        EventModel::ClosePort => if m.port_open {
            ActionModel::CloseRequest
        } else {
            ActionModel::Wait
        },
        EventModel::Send => if !m.port_open {
            ActionModel::Wait
        } else {
            match m.tx_format {
                TxFormat::Utf8 => ActionModel::WriteRequest(
                    TxFormat::Utf8,
                    encode_utf8(m.command),
                ),
                TxFormat::Hex => {
                    let t = spec_strip_spaces(m.command);
                    if t.len() % 2 == 0 && all_hex_digits(t) {
                        ActionModel::WriteRequest(TxFormat::Hex, spec_hex_decode(t))
                    } else {
                        ActionModel::Wait
                    }
                },
            }
        },
        EventModel::Recv => if m.port_open {
            ActionModel::PollRequest
        } else {
            ActionModel::Wait
        },
        EventModel::BytesAvailable(n) => if m.port_open && n > 0 {
            ActionModel::ReadRequest
        } else {
            ActionModel::Wait
        },
        _ => ActionModel::Wait,
    }
}

/// The session controller's state, as the driver holds it.
pub struct Controller {
    pub selected_port: Option<String>,
    pub baud: u32,
    pub data_bits: DataBits,
    pub parity: Parity,
    pub stop_bits: StopBits,
    pub port_open: bool,
    pub listener: ListenerState,
    pub tx_format: TxFormat,
    pub rx_formats: RxFormats,
    pub command: String,
    pub theme: String,
    pub log: Vec<String>,
}

impl View for Controller {
    type V = Model;

    open spec fn view(&self) -> Model {
        Model {
            selected_port: self.selected_port.deep_view(),
            baud: self.baud,
            data_bits: self.data_bits,
            parity: self.parity,
            stop_bits: self.stop_bits,
            port_open: self.port_open,
            listener: self.listener,
            tx_format: self.tx_format,
            rx_formats: self.rx_formats,
            command: self.command@,
            theme: self.theme@,
            log: self.log.deep_view(),
        }
    }
}

fn build_open_ok_line(name: &str) -> (r: String)
    ensures
        r@ == line_open_ok(name@),
{
    let mut r = "Successfully opened port '".to_owned();
    r.append(name);
    r.append("'");
    r
}

fn build_open_failed_line(name: &str, err: &str) -> (r: String)
    ensures
        r@ == line_open_failed(name@, err@),
{
    let mut r = "Failed to open port '".to_owned();
    r.append(name);
    r.append("': ");
    r.append(err);
    r
}

fn build_hex_decode_error_line(err: &str) -> (r: String)
    ensures
        r@ == line_hex_decode_error(err@),
{
    let mut r = "Error decoding hex: ".to_owned();
    r.append(err);
    r
}

fn build_sent_line(count: u64, cmd: &str) -> (r: String)
    ensures
        r@ == line_sent(count, cmd@),
{
    let mut r = "Sent ".to_owned();
    r.append(u64_to_dec(count).as_str());
    r.append(" bytes: ");
    r.append(cmd);
    r
}

fn build_send_failed_line(format: TxFormat, err: &str) -> (r: String)
    ensures
        r@ == line_send_failed(format, err@),
{
    let mut r = if let TxFormat::Utf8 = format {
        "Error sending utf8 command: ".to_owned()
    } else {
        "Error sending hex command: ".to_owned()
    };
    r.append(err);
    r
}

impl Controller {
    /// A fresh controller in the initial state.
    pub fn new() -> (c: Controller)
        ensures
            c@ == init_model(),
    {
        let c = Controller {
            selected_port: None,
            baud: 9600,
            data_bits: DataBits::Eight,
            parity: Parity::Off,
            stop_bits: StopBits::One,
            port_open: false,
            listener: ListenerState::Idle,
            tx_format: TxFormat::Utf8,
            rx_formats: RxFormats { utf8: false, hex: true, bin: false },
            command: String::new(),
            theme: String::new(),
            log: Vec::new(),
        };
        proof {
            assert(c@ =~~= init_model());
        }
        c
    }

    fn log_line(&mut self, line: String)
        ensures
            final(self)@ == (Model { log: old(self)@.log.push(line@), ..old(self)@ }),
    {
        self.log.push(line);
        proof {
            assert(self@ =~~= (Model { log: old(self)@.log.push(line@), ..old(self)@ }));
        }
    }

    fn on_open_port(&mut self) -> (a: Action)
        ensures
            final(self)@ == spec_step(old(self)@, EventModel::OpenPort),
            a@ == spec_action(old(self)@, EventModel::OpenPort),
    {
        match &self.selected_port {
            None => {
                self.log_line("No port selected".to_owned());
                Action::Wait
            },
            Some(name) => {
                let config = PortConfig {
                    name: name.clone(),
                    baud: self.baud,
                    data_bits: self.data_bits,
                    parity: self.parity,
                    stop_bits: self.stop_bits,
                };
                Action::OpenRequest(config)
            },
        }
    }

    fn on_open_succeeded(&mut self) -> (a: Action)
        ensures
            final(self)@ == spec_step(old(self)@, EventModel::OpenSucceeded),
            a@ == spec_action(old(self)@, EventModel::OpenSucceeded),
    {
        let line = match &self.selected_port {
            Some(name) => Some(build_open_ok_line(name.as_str())),
            None => None,
        };
        match line {
            Some(l) => {
                self.port_open = true;
                self.log_line(l);
            },
            None => {},
        }
        Action::Wait
    }

    fn on_open_failed(&mut self, err: String) -> (a: Action)
        ensures
            final(self)@ == spec_step(old(self)@, EventModel::OpenFailed(err@)),
            a@ == spec_action(old(self)@, EventModel::OpenFailed(err@)),
    {
        let line = match &self.selected_port {
            Some(name) => Some(build_open_failed_line(name.as_str(), err.as_str())),
            None => None,
        };
        match line {
            Some(l) => {
                self.port_open = false;
                self.listener = ListenerState::Idle;
                self.log_line(l);
            },
            None => {},
        }
        Action::Wait
    }

    fn on_close_port(&mut self) -> (a: Action)
        ensures
            final(self)@ == spec_step(old(self)@, EventModel::ClosePort),
            a@ == spec_action(old(self)@, EventModel::ClosePort),
    {
        if self.port_open {
            self.port_open = false;
            self.listener = ListenerState::Idle;
            self.log_line("Port closed".to_owned());
            Action::CloseRequest
        } else {
            Action::Wait
        }
    }

    fn on_send(&mut self) -> (a: Action)
        ensures
            final(self)@ == spec_step(old(self)@, EventModel::Send),
            a@ == spec_action(old(self)@, EventModel::Send),
    {
        if !self.port_open {
            self.log_line("Port not open".to_owned());
            Action::Wait
        } else {
            match self.tx_format {
                TxFormat::Utf8 => {
                    let bytes = self.command.as_str().as_bytes_vec();
                    Action::WriteRequest(TxFormat::Utf8, bytes)
                },
                TxFormat::Hex => {
                    match hex_decode(self.command.as_str()) {
                        Ok(bytes) => Action::WriteRequest(TxFormat::Hex, bytes),
                        Err(HexDecodeError::OddLength) => {
                            self.log_line("Invalid hex string".to_owned());
                            Action::Wait
                        },
                        Err(HexDecodeError::BadDigit(msg)) => {
                            self.log_line(build_hex_decode_error_line(msg.as_str()));
                            Action::Wait
                        },
                    }
                },
            }
        }
    }

    fn on_write_succeeded(&mut self, n: u64) -> (a: Action)
        ensures
            final(self)@ == spec_step(old(self)@, EventModel::WriteSucceeded(n)),
            a@ == spec_action(old(self)@, EventModel::WriteSucceeded(n)),
    {
        if self.port_open {
            let line = build_sent_line(n, self.command.as_str());
            self.log_line(line);
        }
        Action::Wait
    }

    fn on_read_succeeded(&mut self, n: u64, buf: Vec<u8>) -> (a: Action)
        ensures
            final(self)@ == spec_step(old(self)@, EventModel::ReadSucceeded(n, buf@)),
            a@ == spec_action(old(self)@, EventModel::ReadSucceeded(n, buf@)),
    {
        if self.port_open {
            let mut lines = render_bytes(n, &buf, self.rx_formats);
            self.log.append(&mut lines);
            proof {
                assert(self@ =~~= spec_step(old(self)@, EventModel::ReadSucceeded(n, buf@)));
            }
        }
        Action::Wait
    }

    fn on_toggle_listener(&mut self) -> (a: Action)
        ensures
            final(self)@ == spec_step(old(self)@, EventModel::ToggleListener),
            a@ == spec_action(old(self)@, EventModel::ToggleListener),
    {
        if !self.port_open {
            self.log_line("Port not open".to_owned());
        } else if let ListenerState::Idle = self.listener {
            self.listener = ListenerState::Listening;
            self.log_line("Listener started".to_owned());
        } else {
            self.listener = ListenerState::Idle;
            self.log_line("Listener stopped".to_owned());
        }
        Action::Wait
    }

    /// Handles one event: updates the state and returns what the driver
    /// must do. This is the single serialization point for all mutations.
    pub fn step(&mut self, e: Event) -> (a: Action)
        ensures
            final(self)@ == spec_step(old(self)@, e@),
            a@ == spec_action(old(self)@, e@),
    {
        match e {
            Event::SelectPort(n) => {
                self.selected_port = Some(n);
                Action::Wait
            },
            Event::SelectBaud(b) => {
                self.baud = b;
                Action::Wait
            },
            Event::SelectDataBits(d) => {
                self.data_bits = d;
                Action::Wait
            },
            Event::SelectParity(p) => {
                self.parity = p;
                Action::Wait
            },
            Event::SelectStopBits(s) => {
                self.stop_bits = s;
                Action::Wait
            },
            Event::SelectTxFormat(f) => {
                self.tx_format = f;
                Action::Wait
            },
            Event::ToggleRxUtf8(on) => {
                self.rx_formats.utf8 = on;
                Action::Wait
            },
            Event::ToggleRxHex(on) => {
                self.rx_formats.hex = on;
                Action::Wait
            },
            Event::ToggleRxBin(on) => {
                self.rx_formats.bin = on;
                Action::Wait
            },
            Event::ChangeCommand(s) => {
                self.command = s;
                Action::Wait
            },
            Event::SelectTheme(t) => {
                self.theme = t;
                Action::Wait
            },
            Event::HoverTheme(t) => {
                self.theme = t;
                Action::Wait
            },
            Event::OpenPort => self.on_open_port(),
            Event::OpenSucceeded => self.on_open_succeeded(),
            Event::OpenFailed(err) => self.on_open_failed(err),
            Event::ClosePort => self.on_close_port(),
            Event::Send => self.on_send(),
            Event::WriteSucceeded(n) => self.on_write_succeeded(n),
            Event::WriteFailed(f, err) => {
                if self.port_open {
                    self.log_line(build_send_failed_line(f, err.as_str()));
                }
                Action::Wait
            },
            Event::Recv => {
                if !self.port_open {
                    self.log_line("Port not open".to_owned());
                    Action::Wait
                } else {
                    Action::PollRequest
                }
            },
            Event::BytesAvailable(n) => {
                if self.port_open && n > 0 {
                    Action::ReadRequest
                } else {
                    Action::Wait
                }
            },
            Event::ReadSucceeded(n, buf) => self.on_read_succeeded(n, buf),
            Event::ReadFailed(err) => {
                if self.port_open {
                    self.log_line(err);
                }
                Action::Wait
            },
            Event::ToggleListener => self.on_toggle_listener(),
        }
    }
}

/// How many display formats are active.
pub open spec fn rx_count(f: RxFormats) -> nat {
    (if f.hex {
        1nat
    } else {
        0nat
    }) + (if f.bin {
        1nat
    } else {
        0nat
    }) + (if f.utf8 {
        1nat
    } else {
        0nat
    })
}

/// A fresh controller satisfies the listener/port invariant.
pub proof fn lemma_init_wf()
    ensures
        wf(init_model()),
{
}

/// In any well-formed state, closing the port leaves the listener idle.
pub proof fn lemma_close_forces_idle(m: Model)
    requires
        wf(m),
    ensures
        spec_step(m, EventModel::ClosePort).listener == ListenerState::Idle,
{
}

/// No event can leave the listener armed while no port is held: every
/// event preserves the listener/port invariant.
pub proof fn lemma_wf_preserved(m: Model, e: EventModel)
    requires
        wf(m),
    ensures
        wf(spec_step(m, e)),
{
}

/// The log is append-only: handling an event never rewrites or drops a
/// line that was already there.
pub proof fn lemma_log_monotone(m: Model, e: EventModel)
    ensures
        m.log.len() <= spec_step(m, e).log.len(),
        spec_step(m, e).log.subrange(0, m.log.len() as int) == m.log,
{
    let post = spec_step(m, e).log;
    assert(post.subrange(0, m.log.len() as int) =~= m.log);
}

/// Transmitting never modifies the composed command: neither the send
/// itself nor the driver's report of its outcome.
pub proof fn lemma_send_preserves_command(m: Model, n: u64, f: TxFormat, err: Seq<char>)
    ensures
        spec_step(m, EventModel::Send).command == m.command,
        spec_step(m, EventModel::WriteSucceeded(n)).command == m.command,
        spec_step(m, EventModel::WriteFailed(f, err)).command == m.command,
{
}

/// Receiving is gated on available bytes: polling with the port open logs
/// nothing, and a report of zero available bytes changes nothing at all
/// and asks for no read.
pub proof fn lemma_recv_gating(m: Model)
    ensures
        m.port_open ==> spec_step(m, EventModel::Recv).log == m.log,
        spec_step(m, EventModel::BytesAvailable(0)) == m,
        spec_action(m, EventModel::BytesAvailable(0)) == ActionModel::Wait,
{
}

/// A successful read with the port open produces exactly one log line per
/// active display format.
pub proof fn lemma_recv_fanout(m: Model, n: u64, buf: Seq<u8>)
    requires
        m.port_open,
    ensures
        spec_step(m, EventModel::ReadSucceeded(n, buf)).log.len() == m.log.len() + rx_count(
            m.rx_formats,
        ),
{
}

} // verus!
