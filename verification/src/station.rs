//! The command station: a roster of locomotives whose drive commands are
//! sent to the track in turn, without end.

use vstd::prelude::*;
use vstd::std_specs::convert::IntoSpec;
use crate::base::address::Address;
use crate::base::drive::{Direction, Speed};
use crate::base::functions::Function;
use crate::dcc::Error;
use crate::dcc::message::Message;
use crate::dcc::writer::{Encoder, Writer, WriterState};
use crate::host::{Pending, Poll};

pub mod togglepins;

verus! {

/// The number of bits in the function store of a locomotive.
pub const FUNCTION_BITS: usize = 72;

/// The function states of a locomotive, one bit for each function: a
/// `bitvec::array::BitArray` over nine bytes.  Its bits are known only
/// through `function_bits`.
#[verifier::external_body]
#[derive(Debug)]
pub struct FunctionBits {
    bits: bitvec::array::BitArray<[u8; 9], bitvec::order::Msb0>,
}

/// The bits of a function store in the order of their index, as indexing
/// of the bit array gives them.
pub uninterp spec fn function_bits(store: FunctionBits) -> Seq<bool>;

/// Takes `BitArray::ZERO`, the bit array over nine zero bytes: a store of
/// 72 bits, all of them clear.
#[verifier::external_body]
fn bits_zero() -> (store: FunctionBits)
    ensures
        function_bits(store) == Seq::new(FUNCTION_BITS as nat, |i: int| false),
{
    FunctionBits { bits: bitvec::array::BitArray::ZERO }
}

/// Indexes the bit array with `Index<usize>` of `BitSlice`: the bit at
/// `index`.  The index must be within the store; beyond it the call panics.
#[verifier::external_body]
fn bits_get(store: &FunctionBits, index: usize) -> (on: bool)
    requires
        index < function_bits(*store).len(),
    ensures
        on == function_bits(*store)[index as int],
    no_unwind
{
    store.bits[index]
}

/// Calls `BitSlice::set`: writes the bit at `index` and leaves every other
/// bit as it is.  The index must be within the store; beyond it the call
/// panics.
#[verifier::external_body]
fn bits_set(store: &mut FunctionBits, index: usize, on: bool)
    requires
        index < function_bits(*old(store)).len(),
    ensures
        function_bits(*final(store)) == function_bits(*old(store)).update(index as int, on),
    no_unwind
{
    store.bits.set(index, on);
}

/// What the station knows of a locomotive.
pub struct LocoState {
    pub addr: Address,
    pub direction: Direction,
    pub speed: Speed,
    /// The function states, by function number.
    pub functions: Seq<bool>,
}

impl LocoState {
    /// A locomotive as it is added: forward, stopped, all functions off.
    pub open spec fn initial(addr: Address) -> LocoState {
        LocoState {
            addr,
            direction: Direction::Forward,
            speed: Speed::Stop,
            functions: Seq::new(FUNCTION_BITS as nat, |i: int| false),
        }
    }

    /// The drive command that refreshes the locomotive.
    pub open spec fn drive(self) -> Message {
        Message::Drive(self.addr, self.direction, self.speed)
    }
}

/// A locomotive of the roster.
#[derive(Debug)]
pub struct Loco {
    addr: Address,
    direction: Direction,
    speed: Speed,
    functions: FunctionBits,
}

impl View for Loco {
    type V = LocoState;

    closed spec fn view(&self) -> LocoState {
        LocoState {
            addr: self.addr,
            direction: self.direction,
            speed: self.speed,
            functions: function_bits(self.functions),
        }
    }
}

impl Loco {
    #[verifier::type_invariant]
    spec fn inv(self) -> bool {
        function_bits(self.functions).len() == FUNCTION_BITS
    }

    pub fn new<A: Into<Address>>(addr: A) -> (loco: Loco)
        ensures
            A::obeys_into_spec() ==> loco@ == LocoState::initial(addr.into_spec()),
            loco@.direction == Direction::Forward,
            loco@.speed == Speed::Stop,
            loco@.functions == Seq::new(FUNCTION_BITS as nat, |i: int| false),
    {
        Loco::with_address(addr.into())
    }

    /// A locomotive with address `addr`: forward, stopped, all functions
    /// off.
    pub fn with_address(addr: Address) -> (loco: Loco)
        ensures
            loco@ == LocoState::initial(addr),
    {
        Loco {
            addr,
            direction: Direction::Forward,
            speed: Speed::Stop,
            functions: bits_zero(),
        }
    }

    /// The address of the locomotive.
    pub fn address(&self) -> (addr: Address)
        ensures
            addr == self@.addr,
        no_unwind
    {
        self.addr
    }

    pub fn is_function_set(&self, func: Function) -> (on: bool)
        ensures
            on == self@.functions[func.spec_to_u8() as int],
    {
        proof {
            use_type_invariant(self);
        }
        bits_get(&self.functions, func.to_usize())
    }

    pub fn set_function(&mut self, func: Function, val: bool)
        ensures
            final(self)@ == (LocoState {
                functions: old(self)@.functions.update(func.spec_to_u8() as int, val),
                ..old(self)@
            }),
            final(self)@.functions.len() == FUNCTION_BITS,
        no_unwind
    {
        proof {
            use_type_invariant(&*self);
        }
        bits_set(&mut self.functions, func.to_usize(), val);
    }

    pub fn set_direction(&mut self, direction: Direction)
        ensures
            final(self)@ == (LocoState { direction, ..old(self)@ }),
        no_unwind
    {
        proof {
            use_type_invariant(&*self);
        }
        self.direction = direction;
    }

    pub fn direction(&self) -> (direction: Direction)
        ensures
            direction == self@.direction,
        no_unwind
    {
        self.direction
    }

    pub fn set_speed(&mut self, speed: Speed)
        ensures
            final(self)@ == (LocoState { speed, ..old(self)@ }),
        no_unwind
    {
        proof {
            use_type_invariant(&*self);
        }
        self.speed = speed;
    }

    pub fn speed(&self) -> (speed: Speed)
        ensures
            speed == self@.speed,
        no_unwind
    {
        self.speed
    }
}

/// Why a locomotive could not be added.
#[derive(Clone, Copy, Debug, PartialEq, Eq, Structural)]
pub enum RosterError {
    /// The roster holds as many locomotives as it has room for.
    Full,
}

/// The locomotives of a station in the order in which they were added, the
/// packet that is on its way, and the place in the order of the locomotive
/// whose turn is next.
pub struct RosterState {
    pub locos: Seq<LocoState>,
    pub msg: Option<Message>,
    pub index: nat,
}

impl RosterState {
    /// A roster without locomotives.
    pub open spec fn empty() -> RosterState {
        RosterState { locos: Seq::empty(), msg: None, index: 0 }
    }

    /// Whether `i` is the place of the first locomotive with address `addr`.
    pub open spec fn is_first(self, addr: Address, i: int) -> bool {
        &&& 0 <= i < self.locos.len()
        &&& self.locos[i].addr == addr
        &&& forall|j: int| 0 <= j < i ==> self.locos[j].addr != addr
    }

    /// The locomotives after function number `n` of every locomotive with
    /// address `addr` is set to `val`.
    pub open spec fn with_function(self, addr: Address, n: int, val: bool) -> Seq<LocoState> {
        Seq::new(
            self.locos.len(),
            |i: int|
                if self.locos[i].addr == addr {
                    LocoState { functions: self.locos[i].functions.update(n, val), ..self.locos[i] }
                } else {
                    self.locos[i]
                },
        )
    }

    /// Whether no locomotive has the address `addr`.
    pub open spec fn is_absent(self, addr: Address) -> bool {
        forall|j: int| 0 <= j < self.locos.len() ==> self.locos[j].addr != addr
    }

    /// The place of the locomotive whose turn is next: the cursor, or the
    /// first place once the cursor has passed the last.
    pub open spec fn cursor(self) -> int {
        if self.index >= self.locos.len() {
            0
        } else {
            self.index as int
        }
    }

    /// The roster after the next packet is chosen: the drive command of the
    /// locomotive at the cursor is on its way and the cursor has moved on.
    /// Without locomotives, or with a packet on its way, nothing is chosen.
    pub open spec fn schedule(self) -> RosterState {
        if self.locos.len() == 0 || self.msg is Some {
            self
        } else {
            RosterState {
                msg: Some(self.locos[self.cursor()].drive()),
                index: (self.cursor() + 1) as nat,
                ..self
            }
        }
    }

    /// The roster and the answer of the station after the writer answered
    /// `result` for the packet on its way: when the packet is out the slot is
    /// free again; an error is passed on.  The station never answers `Ok`.
    pub open spec fn written(self, result: Poll<(), Error>) -> (RosterState, Poll<(), Error>) {
        match result {
            Ok(()) => (RosterState { msg: None, ..self }, Err(Pending::WouldBlock)),
            Err(e) => (self, Err(e)),
        }
    }

    /// What holds of every roster that a station reaches: a packet on its
    /// way is a drive command for the locomotive just before the cursor.
    pub open spec fn wf(self) -> bool {
        self.msg is Some ==> {
            &&& 1 <= self.index <= self.locos.len()
            &&& self.msg.unwrap() is Drive
            &&& self.msg.unwrap()->Drive_0 == self.locos[self.index - 1].addr
        }
    }

    /// The place of the locomotive whose packet is completed next: that of
    /// the packet on its way, or else the place at the cursor.
    pub open spec fn pending(self) -> int {
        if self.msg is Some {
            self.index - 1
        } else {
            self.cursor()
        }
    }

    /// The roster after the next packet is completed: one is chosen if none
    /// is on its way, and it is sent in full.
    pub open spec fn completed(self) -> RosterState {
        self.schedule().written(Ok(())).0
    }

    /// The roster after the next `n` packets are completed.
    pub open spec fn after_packets(self, n: nat) -> RosterState
        decreases n,
    {
        if n == 0 {
            self
        } else {
            self.after_packets((n - 1) as nat).completed()
        }
    }

    /// The place of the locomotive that packet number `n` from now is for,
    /// the packet that is completed next being number 0.
    pub open spec fn addressed(self, n: nat) -> int {
        self.after_packets(n).pending()
    }

    /// Whether one of the packets number `w` to `w + k - 1` is for the
    /// locomotive at `place`, `k` being the number of locomotives.
    pub open spec fn in_window(self, w: nat, place: int) -> bool {
        exists|j: nat| j < self.locos.len() && #[trigger] self.addressed(w + j) == place
    }
}

/// Sending packets changes neither the locomotives nor their order; each
/// packet is addressed to the locomotive at its place, and the next packet
/// is for the locomotive after it, the first following the last.
pub proof fn lemma_rotation(s: RosterState, n: nat)
    requires
        s.locos.len() >= 1,
        s.wf(),
    ensures
        s.after_packets(n).wf(),
        s.after_packets(n).locos == s.locos,
        0 <= s.addressed(n) < s.locos.len(),
        s.after_packets(n).schedule().msg is Some,
        s.after_packets(n).schedule().msg.unwrap()->Drive_0 == s.locos[s.addressed(n)].addr,
        s.addressed(n + 1) == if s.addressed(n) + 1 < s.locos.len() {
            s.addressed(n) + 1
        } else {
            0
        },
    decreases n,
{
    if n > 0 {
        lemma_rotation(s, (n - 1) as nat);
    }
    assert(s.after_packets(n + 1) == s.after_packets(n).completed());
}

/// From packet number `w` on, packet number `w + j` is for the locomotive
/// `j` places after that of packet `w`, counted round the roster.
pub proof fn lemma_window(s: RosterState, w: nat, j: nat)
    requires
        s.locos.len() >= 1,
        s.wf(),
        j <= s.locos.len(),
    ensures
        s.addressed(w + j) == if s.addressed(w) + j < s.locos.len() {
            s.addressed(w) + j
        } else {
            s.addressed(w) + j - s.locos.len()
        },
    decreases j,
{
    lemma_rotation(s, w);
    if j > 0 {
        lemma_window(s, w, (j - 1) as nat);
        lemma_rotation(s, (w + j - 1) as nat);
        assert(w + (j - 1) as nat + 1 == w + j);
    }
}

/// With `k` locomotives and no change to the roster, any `k` packets in a
/// row address every locomotive exactly once: each place of the roster is
/// that of one packet of the window, and of no other.
pub proof fn lemma_fairness(s: RosterState, w: nat)
    requires
        s.locos.len() >= 1,
        s.wf(),
    ensures
        forall|place: int| 0 <= place < s.locos.len() ==> #[trigger] s.in_window(w, place),
        forall|i: nat, j: nat|
            i < s.locos.len() && j < s.locos.len() && #[trigger] s.addressed(w + i)
                == #[trigger] s.addressed(w + j) ==> i == j,
{
    let k = s.locos.len();
    let first = s.addressed(w);
    lemma_rotation(s, w);
    assert forall|place: int| 0 <= place < k implies #[trigger] s.in_window(w, place) by {
        let j: nat = if place >= first {
            (place - first) as nat
        } else {
            (place - first + k) as nat
        };
        lemma_window(s, w, j);
        assert(s.addressed(w + j) == place);
    }
    assert forall|i: nat, j: nat|
        i < k && j < k && #[trigger] s.addressed(w + i) == #[trigger] s.addressed(
            w + j,
        ) implies i == j by {
        lemma_window(s, w, i);
        lemma_window(s, w, j);
    }
}

/// Every step of a station leaves a valid roster valid: choosing a packet,
/// the answer of the writer, a new locomotive, and a change to a locomotive
/// that keeps its address.
pub proof fn lemma_roster_stays_valid(
    s: RosterState,
    result: Poll<(), Error>,
    added: LocoState,
    i: int,
    changed: LocoState,
)
    requires
        s.wf(),
    ensures
        RosterState::empty().wf(),
        s.schedule().wf(),
        s.written(result).0.wf(),
        (RosterState { locos: s.locos.push(added), ..s }).wf(),
        0 <= i < s.locos.len() && changed.addr == s.locos[i].addr ==> (RosterState {
            locos: s.locos.update(i, changed),
            ..s
        }).wf(),
        forall|addr: Address, n: int, val: bool|
            (RosterState { locos: #[trigger] s.with_function(addr, n, val), ..s }).wf(),
{
}

/// The roster of a station with room for `N` locomotives.
pub struct Roster<const N: usize> {
    locos: Vec<Loco>,
    msg: Option<Message>,
    index: usize,
}

impl<const N: usize> View for Roster<N> {
    type V = RosterState;

    closed spec fn view(&self) -> RosterState {
        RosterState {
            locos: Seq::new(self.locos@.len(), |i: int| self.locos@[i]@),
            msg: self.msg,
            index: self.index as nat,
        }
    }
}

impl<const N: usize> Roster<N> {
    #[verifier::type_invariant]
    spec fn inv(self) -> bool {
        &&& self.locos@.len() <= N
        &&& (self.msg is Some ==> {
            &&& 1 <= self.index <= self.locos@.len()
            &&& self.msg.unwrap() is Drive
            &&& self.msg.unwrap()->Drive_0 == self.locos@[self.index - 1]@.addr
        })
    }

    pub fn new() -> (roster: Roster<N>)
        ensures
            roster@ == RosterState::empty(),
            roster@.wf(),
    {
        let roster = Roster { locos: Vec::new(), msg: None, index: 0 };
        proof {
            assert(roster@.locos =~= Seq::empty());
        }
        roster
    }

    /// The number of locomotives, which never exceeds `N`.
    pub fn len(&self) -> (n: usize)
        ensures
            n == self@.locos.len(),
            n <= N,
            self@.wf(),
    {
        proof {
            use_type_invariant(self);
        }
        self.locos.len()
    }

    /// The locomotive at `index` in the order of the roster.
    pub fn loco(&self, index: usize) -> (loco: Option<&Loco>)
        ensures
            loco is Some <==> index < self@.locos.len(),
            loco is Some ==> loco.unwrap()@ == self@.locos[index as int],
    {
        if index < self.locos.len() {
            Some(&self.locos[index])
        } else {
            None
        }
    }

    /// The packet that is on its way, if there is one; it is a drive
    /// command.
    pub fn in_flight(&self) -> (msg: Option<Message>)
        ensures
            msg == self@.msg,
            msg is Some ==> msg.unwrap() is Drive,
            self@.wf(),
    {
        proof {
            use_type_invariant(self);
        }
        self.msg
    }

    /// Adds a locomotive at the end of the roster: forward, stopped, all
    /// functions off.  Fails when the roster is full.
    pub fn add_loco(&mut self, addr: Address) -> (r: Result<(), RosterError>)
        ensures
            r is Ok <==> old(self)@.locos.len() < N,
            r is Ok ==> final(self)@ == (RosterState {
                locos: old(self)@.locos.push(LocoState::initial(addr)),
                ..old(self)@
            }),
            r is Err ==> final(self)@ == old(self)@,
            final(self)@.wf(),
            final(self)@.locos.len() <= N,
    {
        proof {
            use_type_invariant(&*self);
        }
        if self.locos.len() >= N {
            return Err(RosterError::Full);
        }
        let loco = Loco::with_address(addr);
        let mut taken: Roster<N> = Roster::new();
        core::mem::swap(self, &mut taken);
        let Roster { locos, msg, index } = taken;
        let mut locos = locos;
        locos.push(loco);
        *self = Roster { locos, msg, index };
        proof {
            assert(self@.locos =~= old(self)@.locos.push(LocoState::initial(addr)));
        }
        Ok(())
    }

    fn find(&self, addr: Address) -> (found: Option<usize>)
        ensures
            match found {
                Some(i) => self@.is_first(addr, i as int),
                None => self@.is_absent(addr),
            },
    {
        let mut i: usize = 0;
        while i < self.locos.len()
            invariant
                i <= self.locos@.len(),
                forall|j: int| 0 <= j < i ==> self@.locos[j].addr != addr,
            decreases self.locos@.len() - i,
        {
            if self.locos[i].address() == addr {
                return Some(i);
            }
            i += 1;
        }
        None
    }

    /// Sets a function of every locomotive with address `addr`.
    pub fn loco_set_function(&mut self, addr: Address, func: Function, val: bool)
        ensures
            final(self)@ == (RosterState {
                locos: old(self)@.with_function(addr, func.spec_to_u8() as int, val),
                ..old(self)@
            }),
            final(self)@.wf(),
    {
        proof {
            use_type_invariant(&*self);
        }
        let ghost before = self@.locos;
        let mut taken: Roster<N> = Roster::new();
        core::mem::swap(self, &mut taken);
        let Roster { locos, msg, index } = taken;
        let mut locos = locos;
        let mut i: usize = 0;
        while i < locos.len()
            invariant
                i <= locos@.len(),
                locos@.len() == before.len(),
                before == old(self)@.locos,
                forall|j: int|
                    0 <= j < i ==> (#[trigger] locos@[j])@ == old(self)@.with_function(
                        addr,
                        func.spec_to_u8() as int,
                        val,
                    )[j],
                forall|j: int| i <= j < locos@.len() ==> (#[trigger] locos@[j])@ == before[j],
            decreases locos@.len() - i,
        {
            if locos[i].address() == addr {
                locos[i].set_function(func, val);
            }
            i += 1;
        }
        proof {
            assert forall|j: int| 0 <= j < locos@.len() implies locos@[j]@.addr
                == before[j].addr by {
                assert(locos@[j]@ == old(self)@.with_function(
                    addr,
                    func.spec_to_u8() as int,
                    val,
                )[j]);
            }
        }
        *self = Roster { locos, msg, index };
        proof {
            assert(self@.locos =~= old(self)@.with_function(
                addr,
                func.spec_to_u8() as int,
                val,
            ));
        }
    }

    /// Sets speed and direction of the first locomotive with address
    /// `addr`.  Without such a locomotive nothing changes.
    pub fn loco_set_drive(&mut self, addr: Address, speed: Speed, direction: Direction)
        ensures
            old(self)@.is_absent(addr) ==> final(self)@ == old(self)@,
            forall|i: int|
                old(self)@.is_first(addr, i) ==> final(self)@ == (RosterState {
                    locos: old(self)@.locos.update(
                        i,
                        LocoState { speed, direction, ..old(self)@.locos[i] },
                    ),
                    ..old(self)@
                }),
            final(self)@.wf(),
    {
        proof {
            use_type_invariant(&*self);
        }
        match self.find(addr) {
            Some(i) => {
                let mut taken: Roster<N> = Roster::new();
                core::mem::swap(self, &mut taken);
                let Roster { locos, msg, index } = taken;
                let mut locos = locos;
                locos[i].set_speed(speed);
                locos[i].set_direction(direction);
                *self = Roster { locos, msg, index };
                proof {
                    let changed = LocoState { speed, direction, ..old(self)@.locos[i as int] };
                    assert(self@.locos =~= old(self)@.locos.update(i as int, changed));
                }
            },
            None => {},
        }
    }

    /// Chooses the next packet, if nothing is on its way.
    pub fn schedule(&mut self)
        ensures
            final(self)@ == old(self)@.schedule(),
            final(self)@.wf(),
    {
        proof {
            use_type_invariant(&*self);
        }
        if self.locos.len() == 0 || self.msg.is_some() {
            return ;
        }
        let place: usize = if self.index >= self.locos.len() {
            0
        } else {
            self.index
        };
        let msg = Message::Drive(
            self.locos[place].address(),
            self.locos[place].direction(),
            self.locos[place].speed(),
        );
        self.index = place + 1;
        self.msg = Some(msg);
    }

    /// Takes the answer of the writer for the packet on its way and gives
    /// the answer of the station.
    pub fn written(&mut self, result: Poll<(), Error>) -> (r: Poll<(), Error>)
        ensures
            (final(self)@, r) == old(self)@.written(result),
            r is Err,
            final(self)@.wf(),
    {
        proof {
            use_type_invariant(&*self);
        }
        match result {
            Ok(()) => {
                self.msg = None;
                Err(Pending::WouldBlock)
            },
            Err(e) => Err(e),
        }
    }
}

/// The state of a station: its roster and its packet writer.
pub struct StationState {
    pub roster: RosterState,
    pub writer: WriterState,
}

impl StationState {
    /// The state and the answer of a station with a packet on its way after
    /// one call of the writer, which went on from the state `start` of the
    /// packet and got `answer` from the encoder.
    pub open spec fn forwarded(self, start: WriterState, answer: Poll<(), Error>) -> (
        StationState,
        Poll<(), Error>,
    ) {
        let (writer, written) = start.advance(answer);
        let (roster, r) = self.roster.written(written);
        (StationState { roster, writer }, r)
    }

    /// The state of a station without a packet on its way after the next
    /// packet is chosen.
    pub open spec fn scheduled(self) -> StationState {
        StationState { roster: self.roster.schedule(), ..self }
    }
}

/// The command station over any encoder, with room for `N` locomotives.
pub struct Station<E: Encoder, const N: usize> {
    roster: Roster<N>,
    writer: Writer<E>,
}

impl<E: Encoder, const N: usize> View for Station<E, N> {
    type V = StationState;

    closed spec fn view(&self) -> StationState {
        StationState { roster: self.roster@, writer: self.writer@ }
    }
}

impl<E: Encoder, const N: usize> Station<E, N> {
    pub fn new(encoder: E) -> (station: Station<E, N>)
        ensures
            station@.roster == RosterState::empty(),
            station@.writer == WriterState::idle(),
            station@.roster.wf(),
            station@.writer.wf(),
    {
        Station { roster: Roster::new(), writer: Writer::new(encoder) }
    }

    /// The number of locomotives, which never exceeds `N`.  The roster and
    /// the writer of a station are valid at all times.
    pub fn len(&self) -> (n: usize)
        ensures
            n == self@.roster.locos.len(),
            n <= N,
            self@.roster.wf(),
            self@.writer.wf(),
    {
        let _writer = self.writer.state();
        self.roster.len()
    }

    /// The locomotive at `index` in the order of the roster.
    pub fn loco(&self, index: usize) -> (loco: Option<&Loco>)
        ensures
            loco is Some <==> index < self@.roster.locos.len(),
            loco is Some ==> loco.unwrap()@ == self@.roster.locos[index as int],
    {
        self.roster.loco(index)
    }

    /// Adds a locomotive at the end of the roster.  Fails when the roster is
    /// full.
    pub fn add_loco(&mut self, addr: Address) -> (r: Result<(), RosterError>)
        ensures
            r is Ok <==> old(self)@.roster.locos.len() < N,
            r is Ok ==> final(self)@.roster == (RosterState {
                locos: old(self)@.roster.locos.push(LocoState::initial(addr)),
                ..old(self)@.roster
            }),
            r is Err ==> final(self)@.roster == old(self)@.roster,
            final(self)@.writer == old(self)@.writer,
            final(self)@.roster.wf(),
            final(self)@.roster.locos.len() <= N,
    {
        self.roster.add_loco(addr)
    }

    /// Sets a function of every locomotive with address `addr`.
    pub fn loco_set_function(&mut self, addr: Address, func: Function, val: bool)
        ensures
            final(self)@.writer == old(self)@.writer,
            final(self)@.roster == (RosterState {
                locos: old(self)@.roster.with_function(addr, func.spec_to_u8() as int, val),
                ..old(self)@.roster
            }),
            final(self)@.roster.wf(),
    {
        self.roster.loco_set_function(addr, func, val);
    }

    /// Sets speed and direction of the first locomotive with address
    /// `addr`.  The change shows in the next packet that is chosen for the
    /// locomotive, never in one that is on its way.
    pub fn loco_set_drive(&mut self, addr: Address, speed: Speed, direction: Direction)
        ensures
            final(self)@.writer == old(self)@.writer,
            old(self)@.roster.is_absent(addr) ==> final(self)@.roster == old(self)@.roster,
            forall|i: int|
                old(self)@.roster.is_first(addr, i) ==> final(self)@.roster == (RosterState {
                    locos: old(self)@.roster.locos.update(
                        i,
                        LocoState { speed, direction, ..old(self)@.roster.locos[i] },
                    ),
                    ..old(self)@.roster
                }),
            final(self)@.roster.wf(),
    {
        self.roster.loco_set_drive(addr, speed, direction);
    }

    /// One step of the refresh.  With a packet on its way the writer is
    /// called once, and the slot is freed when the packet is out.  Otherwise
    /// the next packet is chosen.  The answer is never `Ok`: it is
    /// `WouldBlock`, or the error of the writer.
    pub fn run(&mut self) -> (r: Poll<(), Error>)
        ensures
            r is Err,
            final(self)@.roster.wf(),
            final(self)@.writer.wf(),
            match old(self)@.roster.msg {
                Some(msg) => exists|start: WriterState, answer: Poll<(), Error>|
                    old(self)@.writer.begins(msg, start) && (final(self)@, r)
                        == #[trigger] old(self)@.forwarded(start, answer),
                None => final(self)@ == old(self)@.scheduled() && r == Err::<(), Pending<Error>>(
                    Pending::WouldBlock,
                ),
            },
    {
        match self.roster.in_flight() {
            Some(msg) => {
                let written = self.writer.write(&msg);
                let ghost (start, answer) = choose|start: WriterState, answer: Poll<(), Error>|
                    old(self)@.writer.begins(msg, start) && (self.writer@, written)
                        == #[trigger] start.advance(answer);
                let r = self.roster.written(written);
                proof {
                    assert((self@, r) == old(self)@.forwarded(start, answer));
                }
                r
            },
            None => {
                let _writer = self.writer.state();
                self.roster.schedule();
                Err(Pending::WouldBlock)
            },
        }
    }
}

} // verus!
