use loco::base::address::Address;
use loco::base::drive::{Direction, Speed};
use loco::dcc;
use loco::dcc::message::Message;
use loco::dcc::reader::{Decoder, PinDecoder, PinDelayReader};
use loco::dcc::writer::{Bit, Encoder, PinEncoder, PinWriter};
use loco::host::{Op, Outcome, Pending, Pin, Poll, Turn};
use loco::station::togglepins::TogglePins;
use loco::station::Station;
use loco::susi::message::Msg;
use std::cell::{Cell, RefCell};
use std::convert::Infallible;
use std::rc::Rc;

type PinId = usize;

#[derive(Clone, Copy, Debug, PartialEq)]
enum WireState {
    Low,
    High,
    Floating,
}

#[derive(Debug)]
struct WireWrapper {
    state: Vec<WireState>,
    pull: WireState,
}

// a wire that any number of pins can drive and sample
#[derive(Clone, Debug)]
struct Wire {
    wire: Rc<RefCell<WireWrapper>>,
}

impl Wire {
    fn new() -> Self {
        Self::new_with_pull(WireState::Floating)
    }

    fn new_with_pull(pull: WireState) -> Self {
        Self {
            wire: Rc::new(RefCell::new(WireWrapper { state: vec![], pull })),
        }
    }

    fn set_state(&mut self, id: PinId, state: WireState) {
        self.wire.borrow_mut().state[id] = state;
        // check for short circuit
        let _ = self.get_state();
    }

    fn get_state(&self) -> WireState {
        let mut s = WireState::Floating;
        let wire = self.wire.borrow();
        for state in wire.state.iter() {
            if *state == WireState::Floating {
                continue;
            }
            if s != WireState::Floating && *state != WireState::Floating && *state != s {
                panic!("short circuit: {:?}", wire.state);
            }
            s = *state;
        }
        if s == WireState::Floating {
            wire.pull
        } else {
            s
        }
    }

    fn as_push_pull_pin(&self) -> PushPullPin {
        let mut wire = self.wire.borrow_mut();
        let id = wire.state.len();
        wire.state.push(WireState::Floating);
        PushPullPin { id, wire: self.clone() }
    }

    fn as_open_drain_pin(&self) -> OpenDrainPin {
        let mut wire = self.wire.borrow_mut();
        let id = wire.state.len();
        wire.state.push(WireState::Floating);
        OpenDrainPin { id, wire: self.clone() }
    }

    fn as_input_pin(&self) -> InputOnlyPin {
        InputOnlyPin { wire: self.clone() }
    }
}

struct InputOnlyPin {
    wire: Wire,
}

impl InputOnlyPin {
    fn try_is_high(&self) -> Result<bool, Infallible> {
        Ok(self.wire.get_state() == WireState::High)
    }

    fn try_is_low(&self) -> Result<bool, Infallible> {
        Ok(self.wire.get_state() == WireState::Low)
    }
}

struct PushPullPin {
    wire: Wire,
    id: PinId,
}

impl PushPullPin {
    fn try_set_low(&mut self) -> Result<(), Infallible> {
        self.wire.set_state(self.id, WireState::Low);
        Ok(())
    }

    fn try_set_high(&mut self) -> Result<(), Infallible> {
        self.wire.set_state(self.id, WireState::High);
        Ok(())
    }

    fn toggle(&mut self) -> Result<(), Infallible> {
        if self.wire.get_state() == WireState::High {
            self.try_set_low()
        } else {
            self.try_set_high()
        }
    }
}

struct OpenDrainPin {
    wire: Wire,
    id: PinId,
}

impl OpenDrainPin {
    fn try_is_high(&self) -> Result<bool, Infallible> {
        Ok(self.wire.get_state() == WireState::High)
    }

    fn try_set_low(&mut self) -> Result<(), Infallible> {
        self.wire.set_state(self.id, WireState::Floating);
        Ok(())
    }

    fn try_set_high(&mut self) -> Result<(), Infallible> {
        self.wire.set_state(self.id, WireState::Low);
        Ok(())
    }
}

// simulated time, in nanoseconds
#[derive(Clone, Debug)]
struct SimClock {
    ticks: Rc<Cell<u64>>,
}

impl SimClock {
    fn new() -> Self {
        SimClock { ticks: Rc::new(Cell::new(0)) }
    }

    fn elapsed(&self) -> u64 {
        self.ticks.get()
    }

    fn tick(&mut self, ticks: u64) {
        self.ticks.set(self.ticks.get() + ticks);
    }

    fn get_timer(&self) -> SimTimer {
        SimTimer {
            clock: self.clone(),
            duration: 1,
            expiration: self.elapsed(),
            started: false,
        }
    }
}

struct SimTimer {
    clock: SimClock,
    duration: u64,
    expiration: u64,
    started: bool,
}

impl SimTimer {
    fn try_start(&mut self, count: u64) -> Result<(), Infallible> {
        let now = self.clock.elapsed();
        self.duration = count;
        self.expiration = now + self.duration;
        self.started = true;
        Ok(())
    }

    fn try_wait(&mut self) -> Result<(), Pending<Infallible>> {
        let now = self.clock.elapsed();
        if self.started && now >= self.expiration {
            self.expiration = now + self.duration;
            Ok(())
        } else {
            Err(Pending::WouldBlock)
        }
    }
}

const MS: u64 = 1_000_000;

#[test]
fn init() {
    let wire = Wire::new();
    assert_eq!(WireState::Floating, wire.get_state());
    let wire = Wire::new_with_pull(WireState::High);
    assert_eq!(WireState::High, wire.get_state());
}

#[test]
fn pull_up() {
    let wire = Wire::new_with_pull(WireState::High);
    let mut pin = wire.as_open_drain_pin();
    assert_eq!(WireState::High, wire.get_state());
    assert_eq!(Ok(()), pin.try_set_high());
    assert_eq!(WireState::Low, wire.get_state());
}

#[test]
fn pull_down() {
    let wire = Wire::new_with_pull(WireState::Low);
    let mut pin = wire.as_push_pull_pin();
    assert_eq!(WireState::Low, wire.get_state());
    assert_eq!(Ok(()), pin.try_set_high());
    assert_eq!(WireState::High, wire.get_state());
    assert_eq!(Ok(()), pin.try_set_low());
    assert_eq!(WireState::Low, wire.get_state());
}

#[test]
fn input() {
    let wire = Wire::new();
    let mut pin_out = wire.as_push_pull_pin();
    let pin_in = wire.as_input_pin();
    assert_eq!(WireState::Floating, wire.get_state());
    assert_eq!(Ok(false), pin_in.try_is_high());
    assert_eq!(Ok(false), pin_in.try_is_low());
    assert_eq!(Ok(()), pin_out.try_set_low());
    assert_eq!(WireState::Low, wire.get_state());
    assert_eq!(Ok(false), pin_in.try_is_high());
    assert_eq!(Ok(true), pin_in.try_is_low());
    assert_eq!(Ok(()), pin_out.try_set_high());
    assert_eq!(WireState::High, wire.get_state());
    assert_eq!(Ok(true), pin_in.try_is_high());
    assert_eq!(Ok(false), pin_in.try_is_low());
}

#[test]
#[should_panic]
fn short_circuit() {
    let wire = Wire::new();
    let mut pin1 = wire.as_push_pull_pin();
    let mut pin2 = wire.as_push_pull_pin();
    assert_eq!(Ok(()), pin1.try_set_high());
    // this will cause a short circuit and panic
    assert_eq!(Ok(()), pin2.try_set_low());
}

#[test]
fn count_down() {
    let mut clock = SimClock::new();
    let mut timer = clock.get_timer();
    timer.try_start(100).unwrap();
    clock.tick(50);
    assert_eq!(timer.try_wait(), Err(Pending::WouldBlock));
    clock.tick(50);
    assert_eq!(timer.try_wait(), Ok(()));
}

// the pins and the timer of one codec
struct Pins {
    track: Option<PushPullPin>,
    track_in: Option<InputOnlyPin>,
    clk: Option<PushPullPin>,
    clk_in: Option<InputOnlyPin>,
    data: Option<OpenDrainPin>,
    timer: SimTimer,
}

impl Pins {
    fn new(timer: SimTimer) -> Pins {
        Pins { track: None, track_in: None, clk: None, clk_in: None, data: None, timer }
    }

    fn perform(&mut self, op: Op) -> Outcome {
        let level = |high: bool| if high { Outcome::High } else { Outcome::Low };
        match op {
            Op::StartMicros(us) => {
                self.timer.try_start(us as u64 * 1_000).unwrap();
                Outcome::Done
            }
            Op::StartMillis(ms) => {
                self.timer.try_start(ms as u64 * MS).unwrap();
                Outcome::Done
            }
            Op::Wait => match self.timer.try_wait() {
                Ok(()) => Outcome::Done,
                Err(_) => Outcome::WouldBlock,
            },
            Op::Toggle(Pin::Track) => {
                self.track.as_mut().unwrap().toggle().unwrap();
                Outcome::Done
            }
            Op::Drive(Pin::Clock, high) => {
                let clk = self.clk.as_mut().unwrap();
                if high {
                    clk.try_set_high().unwrap();
                } else {
                    clk.try_set_low().unwrap();
                }
                Outcome::Done
            }
            Op::Drive(Pin::Data, high) => {
                let data = self.data.as_mut().unwrap();
                if high {
                    data.try_set_high().unwrap();
                } else {
                    data.try_set_low().unwrap();
                }
                Outcome::Done
            }
            Op::Sample(Pin::Track) => level(self.track_in.as_ref().unwrap().try_is_high().unwrap()),
            Op::Sample(Pin::Clock) => level(self.clk_in.as_ref().unwrap().try_is_high().unwrap()),
            Op::Sample(Pin::Data) => level(self.data.as_ref().unwrap().try_is_high().unwrap()),
            other => panic!("unexpected operation {:?}", other),
        }
    }

    // performs what one call of a codec asks for and gives its answer
    fn call<T, E>(&mut self, mut entry: impl FnMut(&[Outcome]) -> Turn<T, E>) -> Poll<T, E> {
        let mut io = vec![];
        loop {
            match entry(&io) {
                Turn::Need(op) => io.push(self.perform(op)),
                Turn::Done(value) => return Ok(value),
                Turn::WouldBlock => return Err(Pending::WouldBlock),
                Turn::Failed(e) => return Err(Pending::Failed(e)),
            }
        }
    }
}

// a bus master with its pins: `Writer` or `Sender`
enum Master {
    Writer(loco::susi::writer::Writer),
    Sender(loco::susi::sender::Sender),
}

struct SusiWriter {
    pins: Pins,
    master: Master,
}

impl SusiWriter {
    fn write(&mut self, msg: &Msg) -> Poll<(), String> {
        match &mut self.master {
            Master::Writer(writer) => match self.pins.call(|io| writer.write(msg, io)) {
                Ok(_) => Ok(()),
                Err(Pending::WouldBlock) => Err(Pending::WouldBlock),
                Err(Pending::Failed(e)) => Err(Pending::Failed(format!("{:?}", e))),
            },
            Master::Sender(sender) => match self.pins.call(|io| sender.write(msg, io)) {
                Ok(_) => Ok(()),
                Err(Pending::WouldBlock) => Err(Pending::WouldBlock),
                Err(Pending::Failed(e)) => Err(Pending::Failed(format!("{:?}", e))),
            },
        }
    }
}

// a bus slave with its pins: `Reader` or `Receiver`
enum Slave {
    Reader(loco::susi::reader::Reader),
    Receiver(loco::susi::receiver::Receiver),
}

struct SusiReader {
    pins: Pins,
    slave: Slave,
}

impl SusiReader {
    fn read(&mut self) -> Poll<Msg, String> {
        match &mut self.slave {
            Slave::Reader(reader) => match self.pins.call(|io| reader.read(io)) {
                Ok(msg) => Ok(msg),
                Err(Pending::WouldBlock) => Err(Pending::WouldBlock),
                Err(Pending::Failed(e)) => Err(Pending::Failed(format!("{:?}", e))),
            },
            Slave::Receiver(receiver) => match self.pins.call(|io| receiver.read(io)) {
                Ok(msg) => Ok(msg),
                Err(Pending::WouldBlock) => Err(Pending::WouldBlock),
                Err(Pending::Failed(e)) => Err(Pending::Failed(format!("{:?}", e))),
            },
        }
    }
}

fn write_and_read<FS, FR>(paired: bool, mut write: FS, mut read: FR, timeout: u64) -> Vec<Msg>
where
    FS: FnMut(&mut SusiWriter, &SimClock) -> Poll<(), String>,
    FR: FnMut(&mut SusiReader, &SimClock) -> Poll<Vec<Msg>, String>,
{
    let wire_clk = Wire::new();
    let wire_data = Wire::new_with_pull(WireState::High);

    let mut writer_pin_clk = wire_clk.as_push_pull_pin();
    let writer_pin_data = wire_data.as_open_drain_pin();

    let reader_pin_clk = wire_clk.as_input_pin();
    let reader_pin_data = wire_data.as_open_drain_pin();

    let mut clock = SimClock::new();
    let writer_timer = clock.get_timer();
    let reader_timer = clock.get_timer();

    writer_pin_clk.try_set_low().unwrap();
    let last_clk = reader_pin_clk.try_is_high().unwrap_or(false);
    let mut writer_pins = Pins::new(writer_timer);
    writer_pins.clk = Some(writer_pin_clk);
    writer_pins.data = Some(writer_pin_data);
    let mut reader_pins = Pins::new(reader_timer);
    reader_pins.clk_in = Some(reader_pin_clk);
    reader_pins.data = Some(reader_pin_data);
    let mut writer = SusiWriter {
        pins: writer_pins,
        master: if paired {
            Master::Sender(loco::susi::sender::Sender::new())
        } else {
            Master::Writer(loco::susi::writer::Writer::new())
        },
    };
    let mut reader = SusiReader {
        pins: reader_pins,
        slave: if paired {
            Slave::Receiver(loco::susi::receiver::Receiver::new(last_clk))
        } else {
            Slave::Reader(loco::susi::reader::Reader::new(last_clk))
        },
    };

    let mut recv = vec![];
    let mut writer_done = false;
    let mut reader_done = false;

    loop {
        if clock.elapsed() > timeout * MS {
            panic!("simulation timed out");
        }
        if !writer_done {
            if let Ok(_) = write(&mut writer, &clock) {
                writer_done = true;
                println!("writer done");
            }
        }
        if !reader_done {
            if let Ok(msgs) = read(&mut reader, &clock) {
                recv = msgs;
                reader_done = true;
                println!("reader done");
            }
        }
        if writer_done && reader_done {
            break;
        }
        clock.tick(100);
    }
    recv
}

fn write_and_read_messages(paired: bool, msgs: Vec<Msg>) {
    let mut write_msgs = msgs.clone();
    write_msgs.reverse();
    let num = msgs.len();
    let mut msg = write_msgs.pop().expect("at least one message must be sent");
    let mut recv = vec![];

    let writer = move |writer: &mut SusiWriter, _clock: &SimClock| {
        let res = writer.write(&msg);
        if let Ok(_) = res {
            if write_msgs.is_empty() {
                return Ok(());
            } else {
                msg = write_msgs.pop().unwrap();
            }
        } else if res != Err(Pending::WouldBlock) {
            panic!("{:?}", res);
        }
        Err(Pending::WouldBlock)
    };
    let reader = move |reader: &mut SusiReader, _clock: &SimClock| {
        let res = reader.read();
        if let Ok(msg) = res {
            recv.push(msg);
            if recv.len() == num {
                return Ok(recv.clone());
            }
        } else if res != Err(Pending::WouldBlock) {
            panic!("{:?}", res);
        }
        Err(Pending::WouldBlock)
    };

    let recv = write_and_read(paired, writer, reader, 500);
    assert_eq!(recv, msgs);
}

fn timing_issues(paired: bool) {
    let mut write_msgs = vec![
        Msg::LocomotiveSpeed(Direction::Forward, 10),
        Msg::LocomotiveSpeed(Direction::Forward, 20),
        Msg::LocomotiveSpeed(Direction::Forward, 30),
    ];
    write_msgs.reverse();
    let mut msg = write_msgs.pop().unwrap();
    let mut recv = vec![];
    let mut shift = None;
    let mut reset = None;

    let writer = move |writer: &mut SusiWriter, clock: &SimClock| {
        if reset.is_none() {
            if let Some(s) = shift {
                // write for ~2ms, then reset (corrupting the second message)
                if (clock.elapsed() - s) > 2 * MS {
                    reset = Some(clock.elapsed());
                    shift = None;
                    return Err(Pending::WouldBlock);
                }
            }
            let res = writer.write(&msg);
            if let Ok(_) = res {
                if write_msgs.is_empty() {
                    return Ok(());
                } else {
                    msg = write_msgs.pop().unwrap();
                    if write_msgs.len() == 1 {
                        // one message left, lets corrupt the timing while writing
                        shift = Some(clock.elapsed());
                    }
                    if write_msgs.len() == 0 {
                        // no message left, reset now to get the last message right again
                        reset = Some(clock.elapsed());
                    }
                }
            } else if res != Err(Pending::WouldBlock) {
                panic!("{:?}", res);
            }
        } else {
            // wait at least 10 ms to reset the reader
            if (clock.elapsed() - reset.unwrap()) > 10 * MS {
                reset = None;
            }
        }
        Err(Pending::WouldBlock)
    };
    let reader = move |reader: &mut SusiReader, _clock: &SimClock| {
        let res = reader.read();
        if let Ok(msg) = res {
            recv.push(msg);
            if recv.len() == 2 {
                return Ok(recv.clone());
            }
        } else if res != Err(Pending::WouldBlock) {
            panic!("{:?}", res);
        }
        Err(Pending::WouldBlock)
    };

    let recv = write_and_read(paired, writer, reader, 500);
    assert_eq!(
        recv,
        vec![
            Msg::LocomotiveSpeed(Direction::Forward, 10),
            Msg::LocomotiveSpeed(Direction::Forward, 30),
        ]
    );
}

#[test]
fn write_and_read_single_message() {
    write_and_read_messages(false, vec![Msg::LocomotiveSpeed(Direction::Forward, 120)]);
}

#[test]
fn write_and_read_two_messages() {
    write_and_read_messages(
        false,
        vec![
            Msg::LocomotiveSpeed(Direction::Forward, 120),
            Msg::LocomotiveSpeed(Direction::Forward, 120),
        ],
    );
}

#[test]
fn write_and_read_three_messages() {
    write_and_read_messages(
        false,
        vec![
            Msg::LocomotiveSpeed(Direction::Forward, 120),
            Msg::LocomotiveSpeed(Direction::Forward, 120),
            Msg::LocomotiveSpeed(Direction::Forward, 120),
        ],
    );
}

#[test]
fn write_and_read_timing_issues() {
    timing_issues(false);
}

#[test]
fn send_and_receive_single_message() {
    write_and_read_messages(true, vec![Msg::LocomotiveSpeed(Direction::Forward, 120)]);
}

#[test]
fn send_and_receive_two_messages() {
    write_and_read_messages(
        true,
        vec![
            Msg::LocomotiveSpeed(Direction::Forward, 120),
            Msg::LocomotiveSpeed(Direction::Forward, 120),
        ],
    );
}

#[test]
fn send_and_receive_three_messages() {
    write_and_read_messages(
        true,
        vec![
            Msg::LocomotiveSpeed(Direction::Forward, 120),
            Msg::LocomotiveSpeed(Direction::Forward, 120),
            Msg::LocomotiveSpeed(Direction::Forward, 120),
        ],
    );
}

#[test]
fn send_and_receive_timing_issues() {
    timing_issues(true);
}

#[test]
fn realtime_single_message() {
    write_and_read_messages(false, vec![Msg::LocomotiveSpeed(Direction::Forward, 120)]);
}

#[test]
fn realtime_two_messages() {
    write_and_read_messages(
        false,
        vec![
            Msg::LocomotiveSpeed(Direction::Forward, 120),
            Msg::LocomotiveSpeed(Direction::Forward, 120),
        ],
    );
}

#[test]
fn realtime_three_messages() {
    write_and_read_messages(
        false,
        vec![
            Msg::LocomotiveSpeed(Direction::Forward, 120),
            Msg::LocomotiveSpeed(Direction::Forward, 120),
            Msg::LocomotiveSpeed(Direction::Forward, 120),
        ],
    );
}

#[test]
fn write_and_read_every_kind_of_message() {
    write_and_read_messages(
        false,
        vec![
            Msg::Noop,
            Msg::SpeedDiff(-8),
            Msg::MotorPower(15),
            Msg::TriggerPulse,
            Msg::BinaryState(5, true),
        ],
    );
}

// the half-bit encoder on a simulated pin
struct SimEncoder {
    pins: Pins,
    encoder: PinEncoder,
}

impl Encoder for SimEncoder {
    fn write(&mut self, bit: Bit) -> Poll<(), dcc::Error> {
        let encoder = &mut self.encoder;
        self.pins.call(|io| encoder.write(bit, io))
    }
}

// the half-bit decoder on a simulated pin
struct SimDecoder {
    pins: Pins,
    decoder: PinDecoder,
}

impl Decoder for SimDecoder {
    fn read(&mut self) -> Poll<Bit, dcc::Error> {
        let decoder = &mut self.decoder;
        self.pins.call(|io| decoder.read(io))
    }
}

type DccWriter = dcc::writer::Writer<SimEncoder>;
type DccReader = dcc::reader::Reader<SimDecoder>;

fn track() -> (SimClock, SimEncoder, SimDecoder) {
    let wire_dcc = Wire::new_with_pull(WireState::High);

    let writer_pin_dcc = wire_dcc.as_push_pull_pin();
    let reader_pin_dcc = wire_dcc.as_input_pin();

    let clock = SimClock::new();
    let mut writer_pins = Pins::new(clock.get_timer());
    writer_pins.track = Some(writer_pin_dcc);
    let mut reader_pins = Pins::new(clock.get_timer());
    reader_pins.track_in = Some(reader_pin_dcc);
    (
        clock,
        SimEncoder { pins: writer_pins, encoder: PinEncoder::new() },
        SimDecoder { pins: reader_pins, decoder: PinDecoder::new() },
    )
}

fn dcc_write_and_read<FS, FR>(mut write: FS, mut read: FR, timeout: u64) -> Vec<Message>
where
    FS: FnMut(&mut DccWriter, &SimClock) -> Poll<(), dcc::Error>,
    FR: FnMut(&mut DccReader, &SimClock) -> Poll<Vec<Message>, dcc::Error>,
{
    let (mut clock, encoder, decoder) = track();
    let mut writer = dcc::writer::Writer::new(encoder);
    let mut reader = dcc::reader::Reader::new(decoder);

    let mut recv = vec![];
    let mut writer_done = false;
    let mut reader_done = false;

    loop {
        if clock.elapsed() > timeout * MS {
            panic!("simulation timed out");
        }
        if !writer_done {
            if let Ok(_) = write(&mut writer, &clock) {
                writer_done = true;
                println!("writer done");
            }
        }
        if !reader_done {
            if let Ok(msgs) = read(&mut reader, &clock) {
                recv = msgs;
                reader_done = true;
                println!("reader done");
            }
        }
        if writer_done && reader_done {
            break;
        }
        clock.tick(1000);
    }
    recv
}

fn dcc_write_and_read_messages(msgs: Vec<Message>) {
    let mut write_msgs = msgs.clone();
    write_msgs.reverse();
    let num = msgs.len();
    let mut msg = write_msgs.pop().expect("at least one message must be sent");
    let mut recv = vec![];

    let writer = move |writer: &mut DccWriter, _clock: &SimClock| {
        let res = writer.write(&msg);
        if let Ok(_) = res {
            if write_msgs.is_empty() {
                return Ok(());
            } else {
                msg = write_msgs.pop().unwrap();
            }
        } else if res != Err(Pending::WouldBlock) {
            panic!("{:?}", res);
        }
        Err(Pending::WouldBlock)
    };
    let reader = move |reader: &mut DccReader, _clock: &SimClock| {
        let res = reader.read();
        if let Ok(msg) = res {
            recv.push(msg);
            if recv.len() == num {
                return Ok(recv.clone());
            }
        } else if res != Err(Pending::WouldBlock) {
            panic!("{:?}", res);
        }
        Err(Pending::WouldBlock)
    };

    let recv = dcc_write_and_read(writer, reader, 500);
    assert_eq!(recv, msgs);
}

#[test]
fn single_message() {
    dcc_write_and_read_messages(vec![
        Message::Drive(Address { num: 23 }, Direction::Forward, Speed::Steps128(56)),
        Message::Drive(Address { num: 2 }, Direction::Forward, Speed::Steps128(4)),
    ]);
}

#[test]
fn dcc_write_and_read_baseline_and_long_address() {
    dcc_write_and_read_messages(vec![
        Message::Drive(Address { num: 3 }, Direction::Forward, Speed::Stop),
        Message::Drive(Address { num: 0x0101 }, Direction::Backward, Speed::Steps28(124)),
        Message::Drive(Address { num: 127 }, Direction::Backward, Speed::EmergencyStop),
    ]);
}

// the edges of the track line, with the time of each in microseconds
fn record_edges(msg: &Message) -> Vec<u64> {
    let wire_dcc = Wire::new_with_pull(WireState::High);
    let mut clock = SimClock::new();
    let mut pins = Pins::new(clock.get_timer());
    pins.track = Some(wire_dcc.as_push_pull_pin());
    let probe = wire_dcc.as_input_pin();
    let mut writer = PinWriter::new();
    let mut edges = vec![];
    let mut last = probe.try_is_high().unwrap();
    loop {
        let res = pins.call(|io| writer.write(msg, io));
        let level = probe.try_is_high().unwrap();
        if level != last {
            edges.push(clock.elapsed() / 1000);
            last = level;
        }
        if res == Ok(()) {
            return edges;
        }
        assert_eq!(res, Err(Pending::WouldBlock));
        clock.tick(1000);
    }
}

#[test]
fn pin_writer_half_bit_timing() {
    let msg = Message::Drive(Address { num: 3 }, Direction::Forward, Speed::Stop);
    let edges = record_edges(&msg);
    // 14 ones, then for each of 3 bytes a zero and 8 bits, then a one: two edges a bit
    assert_eq!(edges.len(), 2 * (14 + 3 * 9 + 1));
    // the first half starts from the resting line, so the first edge ends it
    assert_eq!(edges[0], 58);
    assert_eq!(edges[1], 116);
    // every bit after the first takes one more call, and so one more microsecond
    let halves: Vec<u64> = edges.windows(2).map(|w| w[1] - w[0]).collect();
    for bit in 1..14 {
        assert_eq!(halves[2 * bit - 1], 59);
        assert_eq!(halves[2 * bit], 58);
    }
    // the zero after the preamble
    assert_eq!(halves[2 * 14 - 1], 101);
    assert_eq!(halves[2 * 14], 100);
    // the bits of 0x03 after it: six zeros, two ones
    for bit in 15..21 {
        assert_eq!(halves[2 * bit], 100);
    }
    assert_eq!(halves[2 * 21], 58);
    assert_eq!(halves[2 * 22], 58);
    // the closing one
    assert_eq!(halves[halves.len() - 1], 58);
}

#[test]
fn pin_writer_and_pin_reader() {
    let wire_dcc = Wire::new_with_pull(WireState::High);
    let mut clock = SimClock::new();
    let mut writer_pins = Pins::new(clock.get_timer());
    writer_pins.track = Some(wire_dcc.as_push_pull_pin());
    let mut reader_pins = Pins::new(clock.get_timer());
    reader_pins.track_in = Some(wire_dcc.as_input_pin());
    let mut writer = PinWriter::new();
    let mut reader = PinDelayReader::new();
    let msg = Message::Drive(Address { num: 23 }, Direction::Forward, Speed::Steps128(56));
    let mut written = false;
    loop {
        assert!(clock.elapsed() < 500 * MS, "simulation timed out");
        if !written {
            written = writer_pins.call(|io| writer.write(&msg, io)) == Ok(());
        }
        match reader_pins.call(|io| reader.read(io)) {
            Ok(read) => {
                assert_eq!(read, msg);
                assert!(written);
                return;
            }
            Err(Pending::WouldBlock) => {}
            Err(e) => panic!("{:?}", e),
        }
        clock.tick(1000);
    }
}

#[test]
fn station_refreshes_over_the_track() {
    let (mut clock, encoder, decoder) = track();
    let mut station: Station<SimEncoder, 4> = Station::new(encoder);
    let mut reader = dcc::reader::Reader::new(decoder);
    station.add_loco(Address { num: 3 }).unwrap();
    station.add_loco(Address { num: 23 }).unwrap();
    station.loco_set_drive(Address { num: 23 }, Speed::Steps128(56), Direction::Backward);
    let mut recv = vec![];
    while recv.len() < 3 {
        assert!(clock.elapsed() < 500 * MS, "simulation timed out");
        assert_eq!(station.run(), Err(Pending::WouldBlock));
        if let Ok(msg) = reader.read() {
            recv.push(msg);
        }
        clock.tick(1000);
    }
    assert_eq!(
        recv,
        vec![
            Message::Drive(Address { num: 3 }, Direction::Forward, Speed::Stop),
            Message::Drive(Address { num: 23 }, Direction::Backward, Speed::Steps128(56)),
            Message::Drive(Address { num: 3 }, Direction::Forward, Speed::Stop),
        ]
    );
}

#[test]
fn toggle_pins_drive_in_opposition() {
    let mut driven = vec![];
    let mut call = |pins: &mut Option<TogglePins>| {
        let mut io = vec![];
        loop {
            let turn = match pins {
                None => match TogglePins::new(&io) {
                    Turn::Need(op) => Turn::Need(op),
                    Turn::Done(new) => {
                        *pins = Some(new);
                        Turn::Done(())
                    }
                    Turn::WouldBlock => Turn::WouldBlock,
                    Turn::Failed(e) => Turn::Failed(e),
                },
                Some(pins) => pins.toggle(&io),
            };
            match turn {
                Turn::Need(op) => {
                    driven.push(op);
                    io.push(Outcome::Done);
                }
                other => return other,
            }
        }
    };
    let mut pins = None;
    assert_eq!(call(&mut pins), Turn::Done(()));
    assert_eq!(call(&mut pins), Turn::Done(()));
    assert_eq!(call(&mut pins), Turn::Done(()));
    assert_eq!(
        driven,
        vec![
            Op::Drive(Pin::TrackA, true),
            Op::Drive(Pin::TrackB, false),
            Op::Drive(Pin::TrackA, false),
            Op::Drive(Pin::TrackB, true),
            Op::Drive(Pin::TrackA, true),
            Op::Drive(Pin::TrackB, false),
        ]
    );
    // a pin that fails leaves the pair as it was
    let mut pins = pins.unwrap();
    assert_eq!(pins.toggle(&[Outcome::Done, Outcome::Failed]), Turn::Failed(dcc::Error::IOError));
    assert_eq!(pins.toggle(&[]), Turn::Need(Op::Drive(Pin::TrackA, false)));
    match TogglePins::new(&[Outcome::Failed]) {
        Turn::Failed(e) => assert_eq!(e, dcc::Error::IOError),
        _ => panic!("a failing pin must fail the pair"),
    }
}
