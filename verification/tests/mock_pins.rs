use loco::base::drive::Direction;
use loco::host::{Op, Outcome, Pending, Pin, Turn};
use loco::susi::message::Msg;
use loco::susi::reader::Reader;
use loco::susi::receiver::Receiver;
use loco::susi::sender::{Sender, SenderResult};
use loco::susi::writer::{Writer, WriterResult};
use loco::susi::Error;

#[derive(Clone, Copy, Debug, PartialEq)]
enum State {
    Low,
    High,
}

#[derive(Clone, Copy, Debug, PartialEq)]
enum Transaction {
    Read(State),
    Write(State),
}

impl Transaction {
    fn get(state: State) -> Transaction {
        Transaction::Read(state)
    }

    fn set(state: State) -> Transaction {
        Transaction::Write(state)
    }
}

// a pin that expects a fixed sequence of reads and writes
struct Mock {
    expected: Vec<Transaction>,
    next: usize,
}

impl Mock {
    fn new(expected: &[Transaction]) -> Mock {
        Mock { expected: expected.to_vec(), next: 0 }
    }

    fn take(&mut self) -> Transaction {
        assert!(self.next < self.expected.len(), "no more transactions expected");
        self.next += 1;
        self.expected[self.next - 1]
    }

    fn is_high(&mut self) -> bool {
        match self.take() {
            Transaction::Read(state) => state == State::High,
            other => panic!("expected {:?}, got a read", other),
        }
    }

    fn set(&mut self, high: bool) {
        let state = if high { State::High } else { State::Low };
        assert_eq!(self.take(), Transaction::Write(state));
    }

    fn done(&self) -> bool {
        self.next == self.expected.len()
    }
}

struct MockTimer {
    clock: u64,
    count: u64,
}

impl MockTimer {
    fn new(clock: u64) -> MockTimer {
        MockTimer { clock, count: 0 }
    }

    fn start(&mut self, nanoseconds: u64) {
        self.count = nanoseconds * self.clock / 1_000_000_000_u64;
    }

    fn wait(&mut self) -> Outcome {
        if self.count > 0 {
            self.count -= 1;
        }
        if self.count > 0 {
            Outcome::WouldBlock
        } else {
            Outcome::Done
        }
    }
}

// the pins and the timer of one codec
struct Pins {
    data: Mock,
    clk: Mock,
    ack: Mock,
    timer: MockTimer,
}

impl Pins {
    fn perform(&mut self, op: Op) -> Outcome {
        match op {
            Op::StartMicros(us) => {
                self.timer.start(us as u64 * 1_000);
                Outcome::Done
            }
            Op::StartMillis(ms) => {
                self.timer.start(ms as u64 * 1_000_000);
                Outcome::Done
            }
            Op::Wait => self.timer.wait(),
            Op::Drive(pin, high) => {
                match pin {
                    Pin::Clock => self.clk.set(high),
                    Pin::Data => self.data.set(high),
                    Pin::Ack => self.ack.set(high),
                    other => panic!("unexpected pin {:?}", other),
                }
                Outcome::Done
            }
            Op::Sample(pin) => {
                let high = match pin {
                    Pin::Clock => self.clk.is_high(),
                    Pin::Data => self.data.is_high(),
                    other => panic!("unexpected pin {:?}", other),
                };
                if high {
                    Outcome::High
                } else {
                    Outcome::Low
                }
            }
            Op::Toggle(pin) => panic!("unexpected toggle of {:?}", pin),
        }
    }

    // performs what one call of a codec asks for and gives its answer
    fn call<T, E>(
        &mut self,
        mut entry: impl FnMut(&[Outcome]) -> Turn<T, E>,
    ) -> Result<T, Pending<E>> {
        let mut io = vec![];
        loop {
            match entry(&io) {
                Turn::Need(op) => io.push(self.perform(op)),
                Turn::Done(value) => return Ok(value),
                Turn::WouldBlock => return Err(Pending::WouldBlock),
                Turn::Failed(e) => return Err(Pending::Failed(e)),
            }
        }
    }

    // repeats a call until it does not block any more
    fn block<T, E>(
        &mut self,
        mut entry: impl FnMut(&[Outcome]) -> Turn<T, E>,
    ) -> Result<T, E> {
        loop {
            match self.call(&mut entry) {
                Ok(value) => return Ok(value),
                Err(Pending::WouldBlock) => {}
                Err(Pending::Failed(e)) => return Err(e),
            }
        }
    }
}

// convert a vector of bytes to mocked pins that can be used
// to test a reader
fn reader_pin_states(word: Vec<u8>, acks: usize) -> (Pins, usize) {
    let bytes = word.len();
    let bits = bytes * 8;
    // add pin states for data line
    let mut data_states = vec![];
    for i in 0..bytes {
        for j in 0..8 {
            if (word[i] >> j) & 0x01 == 1 {
                data_states.push(Transaction::get(State::High));
            } else {
                data_states.push(Transaction::get(State::Low));
            }
        }
    }
    // add pin states for data line
    for _ in 1..=acks {
        data_states.push(Transaction::set(State::High));
        data_states.push(Transaction::set(State::Low));
    }
    let data = Mock::new(&data_states);
    // add pin states for clock line
    let mut clk_states = vec![];
    clk_states.push(Transaction::get(State::Low));
    for _i in 0..bits {
        clk_states.push(Transaction::get(State::High));
        clk_states.push(Transaction::get(State::Low));
    }
    let clk = Mock::new(&clk_states);
    // add pin states for ack line
    let ack = Mock::new(&[]);
    // add a mocked timer
    let timer = MockTimer::new(128_000u64);
    (Pins { data, clk, ack, timer }, bits)
}

fn new_reader(pins: &mut Pins) -> Reader {
    Reader::new(pins.clk.is_high())
}

fn new_receiver(pins: &mut Pins) -> Receiver {
    Receiver::new(pins.clk.is_high())
}

// test reading a single NOOP message
#[test]
fn reader_single_noop() {
    let (mut pins, bits) = reader_pin_states(vec![0x00, 0x00], 0);
    let mut reader = new_reader(&mut pins);
    for i in 0..bits * 2 {
        let res = pins.call(|io| reader.read(io));
        if i < (bits * 2) - 1 {
            assert_eq!(res, Err(Pending::WouldBlock));
        } else {
            assert_eq!(res, Ok(Msg::Noop));
        }
    }
}

// test reading a single speed difference message
#[test]
fn reader_single_diff() {
    let (mut pins, bits) = reader_pin_states(vec![0x22, 0xf8], 0);
    let mut reader = new_reader(&mut pins);
    for i in 0..bits * 2 {
        let res = pins.call(|io| reader.read(io));
        if i < (bits * 2) - 1 {
            assert_eq!(res, Err(Pending::WouldBlock));
        } else {
            assert_eq!(res, Ok(Msg::SpeedDiff(-8)));
        }
    }
}

// test reading three consecutive messages
#[test]
fn reader_three_messages() {
    let (mut pins, _bits) = reader_pin_states(vec![0x22, 0xf8, 0x00, 0x00, 0x23, 0x08], 0);
    let mut reader = new_reader(&mut pins);
    for i in 0..32 {
        let res = pins.call(|io| reader.read(io));
        if i < 31 {
            assert_eq!(res, Err(Pending::WouldBlock));
        } else {
            assert_eq!(res, Ok(Msg::SpeedDiff(-8)));
        }
    }
    for i in 0..32 {
        let res = pins.call(|io| reader.read(io));
        if i < 31 {
            assert_eq!(res, Err(Pending::WouldBlock));
        } else {
            assert_eq!(res, Ok(Msg::Noop));
        }
    }
    for i in 0..32 {
        let res = pins.call(|io| reader.read(io));
        if i < 31 {
            assert_eq!(res, Err(Pending::WouldBlock));
        } else {
            assert_eq!(res, Ok(Msg::MotorPower(8)));
        }
    }
}

#[test]
fn cv_set() {
    let (mut pins, bits) = reader_pin_states(vec![0x7F, 0x80, 0xAA], 1);
    let mut reader = new_reader(&mut pins);
    for i in 0..bits * 2 {
        let res = pins.call(|io| reader.read(io));
        if i < (bits * 2) - 1 {
            assert_eq!(res, Err(Pending::WouldBlock));
        } else {
            assert_eq!(
                res,
                Ok(Msg::CVByteSet {
                    addr: 0x80,
                    value: 0xAA
                })
            );
        }
    }
    let _ = pins.call(|io| reader.ack(io));
}

#[test]
fn reader_acknowledge_pulse() {
    let (mut pins, bits) = reader_pin_states(vec![0x7F, 0x80, 0xAA], 1);
    let mut reader = new_reader(&mut pins);
    for _ in 0..bits * 2 {
        let _ = pins.call(|io| reader.read(io));
    }
    // the first call pulls the line, the calls after it wait for the pulse to end
    assert_eq!(pins.call(|io| reader.ack(io)), Err(Pending::WouldBlock));
    assert_eq!(pins.timer.count, 256);
    let mut calls = 1;
    while pins.call(|io| reader.ack(io)) == Err(Pending::WouldBlock) {
        calls += 1;
    }
    assert_eq!(calls, 256);
    assert!(pins.data.done());
    assert_eq!(reader.state(), Reader::new(false).state());
}

// test reading a single NOOP message
#[test]
fn receiver_single_noop() {
    let (mut pins, bits) = reader_pin_states(vec![0x00, 0x00], 0);
    let mut receiver = new_receiver(&mut pins);
    for i in 0..bits * 2 {
        let res = pins.call(|io| receiver.read(io));
        if i < (bits * 2) - 1 {
            assert_eq!(res, Err(Pending::WouldBlock));
        } else {
            assert_eq!(res, Ok(Msg::Noop));
        }
    }
}

// test reading a single speed message
#[test]
fn receiver_single_diff() {
    let (mut pins, bits) = reader_pin_states(vec![0x22, 0xf8], 0);
    let mut receiver = new_receiver(&mut pins);
    for i in 0..bits * 2 {
        let res = pins.call(|io| receiver.read(io));
        if i < (bits * 2) - 1 {
            assert_eq!(res, Err(Pending::WouldBlock));
        } else {
            assert_eq!(res, Ok(Msg::SpeedDiff(-8)));
        }
    }
}

// test reading three consecutive messages
#[test]
fn receiver_three_messages() {
    let (mut pins, _bits) = reader_pin_states(vec![0x22, 0xf8, 0x00, 0x00, 0x23, 0x08], 0);
    let mut receiver = new_receiver(&mut pins);
    for i in 0..32 {
        let res = pins.call(|io| receiver.read(io));
        if i < 31 {
            assert_eq!(res, Err(Pending::WouldBlock));
        } else {
            assert_eq!(res, Ok(Msg::SpeedDiff(-8)));
        }
    }
    for i in 0..32 {
        let res = pins.call(|io| receiver.read(io));
        if i < 31 {
            assert_eq!(res, Err(Pending::WouldBlock));
        } else {
            assert_eq!(res, Ok(Msg::Noop));
        }
    }
    for i in 0..32 {
        let res = pins.call(|io| receiver.read(io));
        if i < 31 {
            assert_eq!(res, Err(Pending::WouldBlock));
        } else {
            assert_eq!(res, Ok(Msg::MotorPower(8)));
        }
    }
}

#[test]
fn receiver_acknowledges_on_its_own_line() {
    let (mut pins, bits) = reader_pin_states(vec![0x7F, 0x80, 0xAA], 0);
    pins.ack = Mock::new(&[Transaction::set(State::High), Transaction::set(State::Low)]);
    let mut receiver = new_receiver(&mut pins);
    let mut last = Err(Pending::WouldBlock);
    for _ in 0..bits * 2 {
        last = pins.call(|io| receiver.read(io));
    }
    assert_eq!(last, Ok(Msg::CVByteSet { addr: 0x80, value: 0xAA }));
    assert_eq!(pins.call(|io| receiver.ack(io)), Err(Pending::WouldBlock));
    assert_eq!(pins.block(|io| receiver.ack(io)), Ok(()));
    assert!(pins.ack.done());
}

// convert a message to mocked pins that can be used to test a writer
fn writer_pin_states(msg: &Msg) -> (Pins, usize) {
    let word = msg.to_bytes();
    let bytes = msg.len() as usize;
    let bits = bytes * 8;
    // add pin states for data line
    let mut data_states = vec![];
    for byte in word.iter() {
        for j in 0..8 {
            // open drain output: high / low is inversed
            if (byte >> j) & 0x01 == 1 {
                data_states.push(Transaction::set(State::Low));
            } else {
                data_states.push(Transaction::set(State::High));
            }
        }
    }
    data_states.truncate(bits);
    // add pin states for data line
    if msg.needs_ack() {
        data_states.push(Transaction::get(State::Low));
    }
    let data = Mock::new(&data_states);
    // add pin states for clock line
    let mut clk_states = vec![];
    clk_states.push(Transaction::set(State::Low));
    for _i in 0..bits {
        clk_states.push(Transaction::set(State::High));
        clk_states.push(Transaction::set(State::Low));
    }
    let clk = Mock::new(&clk_states);
    let ack = Mock::new(&[]);
    // add a mocked timer
    let timer = MockTimer::new(128_000u64);
    (Pins { data, clk, ack, timer }, bits)
}

fn new_writer(pins: &mut Pins) -> Writer {
    pins.clk.set(false);
    Writer::new()
}

fn new_sender(pins: &mut Pins) -> Sender {
    pins.clk.set(false);
    Sender::new()
}

// test writing a single NOOP message
#[test]
fn writer_single_noop() {
    let msg = Msg::Noop;
    let (mut pins, _bits) = writer_pin_states(&msg);
    let mut writer = new_writer(&mut pins);
    let res = pins.block(|io| writer.write(&msg, io));
    assert_eq!(res, Ok(WriterResult::Sent));
    assert!(pins.data.done());
    assert!(pins.clk.done());
}

// test writing a single speed message
#[test]
fn writer_single_speed() {
    let msg = Msg::LocomotiveSpeed(Direction::Forward, 120);
    let (mut pins, _bits) = writer_pin_states(&msg);
    let mut writer = new_writer(&mut pins);
    let res = pins.block(|io| writer.write(&msg, io));
    assert_eq!(res, Ok(WriterResult::Sent));
    assert!(pins.data.done());
    assert!(pins.clk.done());
}

#[test]
fn writer_waits_for_the_acknowledge() {
    let msg = Msg::CVByteSet { addr: 0x80, value: 0xAA };
    let (mut pins, _bits) = writer_pin_states(&msg);
    let mut writer = new_writer(&mut pins);
    let res = pins.block(|io| writer.write(&msg, io));
    assert_eq!(res, Ok(WriterResult::Ack));
    assert!(pins.data.done());
    assert!(pins.clk.done());
    assert_eq!(writer.state().state, loco::susi::writer::State::Idle);
    assert_eq!(writer.state().bits_written, 0);
    assert_eq!(writer.state().buf, [0, 0, 0]);
}

#[test]
fn writer_reports_a_missing_acknowledge() {
    let msg = Msg::CVByteCheck { addr: 0x81, value: 1 };
    let (mut pins, bits) = writer_pin_states(&msg);
    pins.data.expected[bits] = Transaction::get(State::High);
    let mut writer = new_writer(&mut pins);
    let res = pins.block(|io| writer.write(&msg, io));
    assert_eq!(res, Ok(WriterResult::Nack));
}

#[test]
fn writer_calls_between_edges() {
    let msg = Msg::Noop;
    let (mut pins, _bits) = writer_pin_states(&msg);
    let mut writer = new_writer(&mut pins);
    // the first call raises the clock and arms half a period of 200 µs
    assert_eq!(pins.call(|io| writer.write(&msg, io)), Err(Pending::WouldBlock));
    assert_eq!(pins.clk.next, 2);
    assert_eq!(pins.data.next, 1);
    assert_eq!(pins.timer.count, 25);
    // 24 calls find the timer running, the next one lowers the clock
    for _ in 0..24 {
        assert_eq!(pins.call(|io| writer.write(&msg, io)), Err(Pending::WouldBlock));
        assert_eq!(pins.clk.next, 2);
    }
    assert_eq!(pins.call(|io| writer.write(&msg, io)), Err(Pending::WouldBlock));
    assert_eq!(pins.clk.next, 3);
    assert_eq!(writer.state().bits_written, 1);
}

// test writing a single NOOP message
#[test]
fn sender_single_noop() {
    let msg = Msg::Noop;
    let (mut pins, _bits) = writer_pin_states(&msg);
    let mut sender = new_sender(&mut pins);
    let res = pins.block(|io| sender.write(&msg, io));
    assert_eq!(res, Ok(SenderResult::Sent));
}

// test writing a single speed message
#[test]
fn sender_single_speed() {
    let msg = Msg::LocomotiveSpeed(Direction::Forward, 120);
    let (mut pins, _bits) = writer_pin_states(&msg);
    let mut sender = new_sender(&mut pins);
    let res = pins.block(|io| sender.write(&msg, io));
    assert_eq!(res, Ok(SenderResult::Sent));
    assert!(pins.data.done());
    assert!(pins.clk.done());
}

#[test]
fn sender_waits_for_the_acknowledge() {
    let msg = Msg::CVBitManipulation { addr: 0x90, check: false, value: true, position: 3 };
    let (mut pins, _bits) = writer_pin_states(&msg);
    let mut sender = new_sender(&mut pins);
    let res = pins.block(|io| sender.write(&msg, io));
    assert_eq!(res, Ok(SenderResult::Ack));
    assert!(pins.data.done());
    assert!(pins.clk.done());
}

// a host on which one kind of operation fails
fn failing(op: Op, broken: Pin) -> Outcome {
    match op {
        Op::Drive(pin, _) | Op::Sample(pin) | Op::Toggle(pin) if pin == broken => Outcome::Failed,
        Op::Sample(_) => Outcome::Low,
        _ => Outcome::Done,
    }
}

fn call_with<T, E>(
    mut entry: impl FnMut(&[Outcome]) -> Turn<T, E>,
    perform: impl Fn(Op) -> Outcome,
) -> Result<T, Pending<E>> {
    let mut io = vec![];
    loop {
        match entry(&io) {
            Turn::Need(op) => io.push(perform(op)),
            Turn::Done(value) => return Ok(value),
            Turn::WouldBlock => return Err(Pending::WouldBlock),
            Turn::Failed(e) => return Err(Pending::Failed(e)),
        }
    }
}

#[test]
fn pin_and_timer_errors_are_passed_on() {
    let msg = Msg::Noop;
    let mut writer = Writer::new();
    let res = call_with(|io| writer.write(&msg, io), |op| failing(op, Pin::Clock));
    assert_eq!(res, Err(Pending::Failed(Error::IOError)));
    // the message is taken up, the clock edge is still due
    assert_eq!(writer.state().state, loco::susi::writer::State::Writing);
    assert_eq!(writer.state().bits_written, 0);
    assert!(!writer.state().last_clk);
    let mut writer = Writer::new();
    let res = call_with(|io| writer.write(&msg, io), |op| failing(op, Pin::Data));
    assert_eq!(res, Err(Pending::Failed(Error::IOError)));
    let mut writer = Writer::new();
    let no_timer = |op| match op {
        Op::StartMicros(_) | Op::StartMillis(_) | Op::Wait => Outcome::Failed,
        _ => Outcome::Done,
    };
    let res = call_with(|io| writer.write(&msg, io), no_timer);
    assert_eq!(res, Err(Pending::Failed(Error::TimerError)));
    let mut sender = Sender::new();
    let res = call_with(|io| sender.write(&msg, io), no_timer);
    assert_eq!(res, Err(Pending::Failed(Error::TimerError)));
    let mut reader = Reader::new(true);
    let res = call_with(|io| reader.read(io), |op| failing(op, Pin::Clock));
    assert_eq!(res, Err(Pending::Failed(Error::IOError)));
    let res = call_with(|io| reader.read(io), |op| failing(op, Pin::Data));
    assert_eq!(res, Err(Pending::Failed(Error::IOError)));
    let mut reader = Reader::new(true);
    let low_clock = |op| match op {
        Op::StartMillis(_) => Outcome::Failed,
        _ => Outcome::Low,
    };
    let res = call_with(|io| reader.read(io), low_clock);
    assert_eq!(res, Err(Pending::Failed(Error::TimerError)));
    let mut receiver = Receiver::new(true);
    let res = call_with(|io| receiver.read(io), low_clock);
    assert_eq!(res, Err(Pending::Failed(loco::susi::receiver::Error::TimerError)));
    let res = call_with(|io| receiver.ack(io), |op| failing(op, Pin::Ack));
    assert_eq!(res, Err(Pending::Failed(loco::susi::receiver::Error::IOError)));
}

// feeds one byte to a reader, one falling edge for each bit
fn clock_in(reader: &mut Reader, byte: u8, fired: bool) -> Vec<Result<Msg, Pending<Error>>> {
    let mut answers = vec![];
    for j in 0..8 {
        let bit = (byte >> j) & 0x01 == 1;
        for clk in [true, false] {
            let perform = |op| match op {
                Op::Wait => {
                    if fired && clk && j == 0 {
                        Outcome::Done
                    } else {
                        Outcome::WouldBlock
                    }
                }
                Op::Sample(Pin::Clock) => {
                    if clk {
                        Outcome::High
                    } else {
                        Outcome::Low
                    }
                }
                Op::Sample(_) => {
                    if bit {
                        Outcome::High
                    } else {
                        Outcome::Low
                    }
                }
                _ => Outcome::Done,
            };
            answers.push(call_with(|io| reader.read(io), perform));
        }
    }
    answers
}

#[test]
fn silence_drops_a_partial_message() {
    let mut reader = Reader::new(false);
    // the first byte of a message of three bytes
    let answers = clock_in(&mut reader, 0x7F, false);
    assert!(answers.iter().all(|a| *a == Err(Pending::WouldBlock)));
    assert_eq!(reader.state().current_byte, 1);
    assert_eq!(reader.state().buf, [0x7F, 0, 0]);
    // silence: the timer has fired when the clock moves again
    let answers = clock_in(&mut reader, 0x22, true);
    assert!(answers.iter().all(|a| *a == Err(Pending::WouldBlock)));
    assert_eq!(reader.state().current_byte, 1);
    assert_eq!(reader.state().buf, [0x22, 0, 0]);
    let answers = clock_in(&mut reader, 0xF8, false);
    assert_eq!(answers.last(), Some(&Ok(Msg::SpeedDiff(-8))));
    assert!(answers[..15].iter().all(|a| *a == Err(Pending::WouldBlock)));
}

#[test]
fn silence_resets_byte_and_bit_counters() {
    let mut reader = Reader::new(false);
    let mut answers = clock_in(&mut reader, 0x7F, false);
    answers.truncate(0);
    // three more bits
    for clk in [true, false, true, false, true, false] {
        let level = if clk { Outcome::High } else { Outcome::Low };
        let perform = |op| match op {
            Op::Wait => Outcome::WouldBlock,
            Op::Sample(_) => level,
            _ => Outcome::Done,
        };
        let _ = call_with(|io| reader.read(io), perform);
    }
    assert_eq!(reader.state().current_byte, 1);
    assert_eq!(reader.state().bits_read, 3);
    // the timer fires while the clock rests low
    let perform = |op| match op {
        Op::Wait => Outcome::Done,
        Op::Sample(_) => Outcome::Low,
        _ => Outcome::Done,
    };
    assert_eq!(call_with(|io| reader.read(io), perform), Err(Pending::WouldBlock));
    assert_eq!(reader.state().current_byte, 0);
    assert_eq!(reader.state().bits_read, 0);
    assert_eq!(reader.state().buf, [0, 0, 0]);
    assert_eq!(reader.state(), Reader::new(false).state());
}
