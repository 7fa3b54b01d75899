use loco::base::address::Address;
use loco::base::drive::{Direction, Speed};
use loco::base::functions::Function;
use loco::dcc::message::Message;
use loco::dcc::reader::Frame;
use loco::dcc::writer::{Bit, Encoder};
use loco::dcc::Error;
use loco::host::{Pending, Poll};
use loco::station::{Loco, Roster, RosterError, Station};
use std::cell::RefCell;
use std::rc::Rc;

// an encoder that is done with every bit at once and keeps what it was given
struct Recorder {
    bits: Rc<RefCell<Vec<Bit>>>,
    broken: Rc<RefCell<bool>>,
}

impl Encoder for Recorder {
    fn write(&mut self, bit: Bit) -> Poll<(), Error> {
        if *self.broken.borrow() {
            return Err(Pending::Failed(Error::DelayError));
        }
        self.bits.borrow_mut().push(bit);
        Ok(())
    }
}

struct Bench<const N: usize> {
    station: Station<Recorder, N>,
    bits: Rc<RefCell<Vec<Bit>>>,
    broken: Rc<RefCell<bool>>,
    frame: Frame,
    seen: usize,
}

impl<const N: usize> Bench<N> {
    fn new() -> Bench<N> {
        let bits = Rc::new(RefCell::new(vec![]));
        let broken = Rc::new(RefCell::new(false));
        let recorder = Recorder { bits: bits.clone(), broken: broken.clone() };
        Bench { station: Station::new(recorder), bits, broken, frame: Frame::new(), seen: 0 }
    }

    // runs the station until it has sent one more packet
    fn next_packet(&mut self) -> Message {
        for _ in 0..1000 {
            assert_eq!(self.station.run(), Err(Pending::WouldBlock));
            let bits = self.bits.borrow();
            while self.seen < bits.len() {
                self.seen += 1;
                if let Ok(msg) = self.frame.receive(Ok(bits[self.seen - 1])) {
                    return msg;
                }
            }
        }
        panic!("no packet");
    }

    fn next_address(&mut self) -> u16 {
        match self.next_packet() {
            Message::Drive(addr, _, _) => addr.num,
            other => panic!("{:?}", other),
        }
    }
}

#[test]
fn loco_defaults_and_setters() {
    let mut loco = Loco::new(3u16);
    assert_eq!(loco.address(), Address { num: 3 });
    assert_eq!(loco.direction(), Direction::Forward);
    assert_eq!(loco.speed(), Speed::Stop);
    loco.set_direction(Direction::Backward);
    loco.set_speed(Speed::Steps28(40));
    assert_eq!(loco.direction(), Direction::Backward);
    assert_eq!(loco.speed(), Speed::Steps28(40));
    let loco = Loco::new(Address { num: 77 });
    assert_eq!(loco.address().num, 77);
    assert_eq!(Loco::with_address(Address { num: 5 }).address().num, 5);
}

#[test]
fn loco_functions() {
    let mut loco = Loco::new(3u16);
    for n in 0..=68u8 {
        assert!(!loco.is_function_set(Function::from_u8(n).unwrap()));
    }
    loco.set_function(Function::F5, true);
    loco.set_function(Function::F68, true);
    loco.set_function(Function::F0, true);
    for n in 0..=68u8 {
        let f = Function::from_u8(n).unwrap();
        assert_eq!(loco.is_function_set(f), n == 0 || n == 5 || n == 68);
    }
    loco.set_function(Function::F5, false);
    assert!(!loco.is_function_set(Function::F5));
    assert!(loco.is_function_set(Function::F68));
    assert!(loco.is_function_set(Function::F0));
    // setting a function leaves the drive state alone
    assert_eq!(loco.speed(), Speed::Stop);
    assert_eq!(loco.direction(), Direction::Forward);
}

#[test]
fn three_locos_in_turn() {
    let mut bench: Bench<8> = Bench::new();
    let (a, b, c) = (3, 23, 0x0101);
    bench.station.add_loco(Address { num: a }).unwrap();
    bench.station.add_loco(Address { num: b }).unwrap();
    bench.station.add_loco(Address { num: c }).unwrap();
    assert_eq!(bench.next_address(), a);
    assert_eq!(bench.next_address(), b);
    assert_eq!(bench.next_address(), c);
    assert_eq!(bench.next_address(), a);
}

#[test]
fn every_window_addresses_every_loco_once() {
    let mut bench: Bench<8> = Bench::new();
    let addresses = [5u16, 9, 3, 100, 42];
    for num in addresses {
        bench.station.add_loco(Address { num }).unwrap();
    }
    let sent: Vec<u16> = (0..23).map(|_| bench.next_address()).collect();
    for window in sent.windows(addresses.len()) {
        for num in addresses {
            assert_eq!(window.iter().filter(|n| **n == num).count(), 1);
        }
    }
    assert_eq!(&sent[..6], &[5, 9, 3, 100, 42, 5]);
}

#[test]
fn an_empty_station_would_block_for_ever() {
    let mut bench: Bench<2> = Bench::new();
    for _ in 0..100 {
        assert_eq!(bench.station.run(), Err(Pending::WouldBlock));
    }
    assert!(bench.bits.borrow().is_empty());
    assert!(bench.station.loco(0).is_none());
}

#[test]
fn a_full_station_takes_no_more() {
    let mut station: Station<Recorder, 2> = Bench::<2>::new().station;
    assert_eq!(station.add_loco(Address { num: 1 }), Ok(()));
    assert_eq!(station.add_loco(Address { num: 2 }), Ok(()));
    assert_eq!(station.add_loco(Address { num: 3 }), Err(RosterError::Full));
    assert_eq!(station.loco(1).unwrap().address().num, 2);
    assert!(station.loco(2).is_none());
    let mut none: Roster<0> = Roster::new();
    assert_eq!(none.add_loco(Address { num: 1 }), Err(RosterError::Full));
    assert_eq!(none.len(), 0);
}

#[test]
fn a_change_shows_in_the_next_packet() {
    let mut bench: Bench<4> = Bench::new();
    let a = Address { num: 3 };
    let b = Address { num: 4 };
    bench.station.add_loco(a).unwrap();
    bench.station.add_loco(b).unwrap();
    assert_eq!(bench.next_packet(), Message::Drive(a, Direction::Forward, Speed::Stop));
    // the packet for b is chosen and on its way when b changes
    assert_eq!(bench.station.run(), Err(Pending::WouldBlock));
    assert_eq!(bench.station.run(), Err(Pending::WouldBlock));
    bench.station.loco_set_drive(b, Speed::Steps128(56), Direction::Backward);
    assert_eq!(bench.next_packet(), Message::Drive(b, Direction::Forward, Speed::Stop));
    assert_eq!(bench.next_packet(), Message::Drive(a, Direction::Forward, Speed::Stop));
    assert_eq!(bench.next_packet(), Message::Drive(b, Direction::Backward, Speed::Steps128(56)));
}

#[test]
fn set_drive_changes_the_first_match_and_set_function_every_match() {
    let mut bench: Bench<4> = Bench::new();
    let a = Address { num: 3 };
    bench.station.add_loco(Address { num: 9 }).unwrap();
    bench.station.add_loco(a).unwrap();
    bench.station.add_loco(a).unwrap();
    assert_eq!(bench.station.len(), 3);
    bench.station.loco_set_drive(a, Speed::EmergencyStop, Direction::Backward);
    bench.station.loco_set_function(a, Function::F7, true);
    bench.station.loco_set_drive(Address { num: 1000 }, Speed::Steps14(8), Direction::Backward);
    bench.station.loco_set_function(Address { num: 1000 }, Function::F1, true);
    let station = &bench.station;
    assert_eq!(station.loco(0).unwrap().speed(), Speed::Stop);
    assert!(!station.loco(0).unwrap().is_function_set(Function::F7));
    assert!(!station.loco(0).unwrap().is_function_set(Function::F1));
    assert_eq!(station.loco(1).unwrap().speed(), Speed::EmergencyStop);
    assert_eq!(station.loco(1).unwrap().direction(), Direction::Backward);
    assert!(station.loco(1).unwrap().is_function_set(Function::F7));
    assert!(!station.loco(1).unwrap().is_function_set(Function::F8));
    // the drive state of the second match stays, its function is set as well
    assert_eq!(station.loco(2).unwrap().speed(), Speed::Stop);
    assert_eq!(station.loco(2).unwrap().direction(), Direction::Forward);
    assert!(station.loco(2).unwrap().is_function_set(Function::F7));
    bench.station.loco_set_function(a, Function::F7, false);
    assert!(!bench.station.loco(1).unwrap().is_function_set(Function::F7));
    assert!(!bench.station.loco(2).unwrap().is_function_set(Function::F7));
}

#[test]
fn a_new_loco_joins_the_rotation() {
    let mut bench: Bench<4> = Bench::new();
    bench.station.add_loco(Address { num: 1 }).unwrap();
    bench.station.add_loco(Address { num: 2 }).unwrap();
    assert_eq!(bench.next_address(), 1);
    assert_eq!(bench.next_address(), 2);
    bench.station.add_loco(Address { num: 3 }).unwrap();
    assert_eq!(bench.next_address(), 3);
    assert_eq!(bench.next_address(), 1);
    assert_eq!(bench.next_address(), 2);
    assert_eq!(bench.next_address(), 3);
}

#[test]
fn errors_of_the_encoder_are_passed_on() {
    let mut bench: Bench<4> = Bench::new();
    bench.station.add_loco(Address { num: 1 }).unwrap();
    // the first call chooses the packet, the second calls the writer
    assert_eq!(bench.station.run(), Err(Pending::WouldBlock));
    *bench.broken.borrow_mut() = true;
    assert_eq!(bench.station.run(), Err(Pending::Failed(Error::DelayError)));
    assert_eq!(bench.station.run(), Err(Pending::Failed(Error::DelayError)));
    *bench.broken.borrow_mut() = false;
    assert_eq!(bench.next_address(), 1);
}

#[test]
fn roster_steps() {
    let mut roster: Roster<3> = Roster::new();
    roster.schedule();
    assert_eq!(roster.in_flight(), None);
    roster.add_loco(Address { num: 8 }).unwrap();
    roster.add_loco(Address { num: 9 }).unwrap();
    assert_eq!(roster.len(), 2);
    roster.schedule();
    let first = Message::Drive(Address { num: 8 }, Direction::Forward, Speed::Stop);
    assert_eq!(roster.in_flight(), Some(first));
    assert_eq!(roster.written(Err(Pending::WouldBlock)), Err(Pending::WouldBlock));
    assert_eq!(roster.in_flight(), Some(first));
    assert_eq!(
        roster.written(Err(Pending::Failed(Error::IOError))),
        Err(Pending::Failed(Error::IOError))
    );
    assert_eq!(roster.in_flight(), Some(first));
    assert_eq!(roster.written(Ok(())), Err(Pending::WouldBlock));
    assert_eq!(roster.in_flight(), None);
    roster.schedule();
    assert_eq!(
        roster.in_flight(),
        Some(Message::Drive(Address { num: 9 }, Direction::Forward, Speed::Stop))
    );
    assert_eq!(roster.written(Ok(())), Err(Pending::WouldBlock));
    roster.schedule();
    assert_eq!(roster.in_flight(), Some(first));
}
