//! The bus adapter contract: the one capability the driver core requires of
//! its environment — write one byte to a register, read N contiguous bytes
//! from a register — together with a ghost log of every attempted bus
//! transaction, so that contracts can pin down the exact order of register
//! accesses. An in-memory adapter for exercising the driver without hardware
//! lives here too.

use vstd::prelude::*;

verus! {

/// A transport-level bus failure (the bus did not acknowledge, the transfer
/// did not complete). Carries no further detail: retry policy belongs to the
/// caller.
#[derive(Clone, Copy, Debug, PartialEq, Eq, Structural)]
pub struct BusError;

/// One attempted bus transaction, as recorded in the ghost log of a
/// `BusAdapter`. A failed attempt is recorded too, with `ok: false` for a
/// write and `data: None` for a read.
pub enum BusOp {
    Write { addr: u8, value: u8, ok: bool },
    Read { addr: u8, count: usize, data: Option<Seq<u8>> },
}

/// The log entry of a write attempt.
pub open spec fn write_attempt(addr: u8, value: u8, ok: bool) -> BusOp {
    BusOp::Write { addr, value, ok }
}

/// The log entry of a read attempt; `data` is `None` when the read failed.
pub open spec fn read_attempt(addr: u8, count: usize, data: Option<Seq<u8>>) -> BusOp {
    BusOp::Read { addr, count, data }
}

/// Holds when `op` records a successful read of `count` bytes at `addr`.
pub open spec fn ok_read(op: BusOp, addr: u8, count: usize) -> bool {
    match op {
        BusOp::Read { addr: a, count: c, data: Some(d) } =>
            a == addr && c == count && d.len() == count,
        _ => false,
    }
}

/// Holds when `op` records a failed read of `count` bytes at `addr`.
pub open spec fn failed_read(op: BusOp, addr: u8, count: usize) -> bool {
    op == read_attempt(addr, count, None)
}

/// The bytes a successful read returned (empty for any other log entry).
pub open spec fn read_data(op: BusOp) -> Seq<u8> {
    match op {
        BusOp::Read { data: Some(d), .. } => d,
        _ => Seq::empty(),
    }
}

/// The minimal capability the driver core requires from its environment,
/// bound to one bus device node and slave address. Implementations append
/// every attempted transaction — successful or not — to the ghost `log`.
pub trait BusAdapter: Sized {
    /// Ghost history of every bus transaction attempted through this adapter.
    /// The default is the empty history, for adapters outside the verified
    /// world; an adapter that is reasoned about overrides it.
    open spec fn log(&self) -> Seq<BusOp> {
        Seq::empty()
    }

    /// Write a single byte to a single register address.
    fn write_register(&mut self, addr: u8, value: u8) -> (r: Result<(), BusError>)
        ensures
            final(self).log() == old(self).log().push(
                write_attempt(addr, value, r is Ok),
            ),
        ;

    /// Read `count` contiguous bytes starting at register `addr`, returning
    /// exactly `count` bytes or failing.
    fn read_registers(&mut self, addr: u8, count: usize) -> (r: Result<Vec<u8>, BusError>)
        ensures
            (match r {
                Ok(data) => {
                    &&& data@.len() == count
                    &&& final(self).log() == old(self).log().push(
                        read_attempt(addr, count, Some(data@)),
                    )
                },
                Err(_) => final(self).log() == old(self).log().push(
                    read_attempt(addr, count, None),
                ),
            }),
        ;
}

/// One attempted transaction of a `MemoryBus`, kept in an ordinary vector so
/// that unverified callers can inspect what the driver did and in what order.
#[derive(Clone, Copy, Debug, PartialEq, Eq, Structural)]
pub enum BusEvent {
    Write { addr: u8, value: u8, ok: bool },
    Read { addr: u8, count: usize, ok: bool },
}

/// An in-memory bus adapter: a 256-byte register file, plus a budget of
/// operations that are allowed to succeed before every further one fails,
/// for exercising the driver's failure paths without hardware.
pub struct MemoryBus {
    /// The register file; index = register address.
    pub mem: Vec<u8>,
    /// How many more operations succeed; once zero, every attempt fails.
    pub ok_budget: usize,
    /// Every attempted transaction, oldest first.
    pub events: Vec<BusEvent>,
    /// Ghost mirror of `events`, carrying the data each read returned.
    pub history: Ghost<Seq<BusOp>>,
}

impl MemoryBus {
    /// A bus whose 256 registers all read zero and that never fails.
    pub fn new() -> (r: MemoryBus)
        ensures
            r.log() == Seq::<BusOp>::empty(),
            r.mem@.len() == 256,
            forall|i: int| 0 <= i < 256 ==> r.mem@[i] == 0u8,
    {
        let mut mem: Vec<u8> = Vec::new();
        let mut i: usize = 0;
        while i < 256
            invariant
                i <= 256,
                mem@.len() == i,
                forall|j: int| 0 <= j < i ==> mem@[j] == 0u8,
            decreases 256 - i,
        {
            mem.push(0);
            i = i + 1;
        }
        MemoryBus { mem, ok_budget: usize::MAX, events: Vec::new(), history: Ghost(Seq::empty()) }
    }

    /// Preload one register of the register file; no transaction is logged.
    pub fn set_register(&mut self, addr: u8, value: u8)
        requires
            old(self).mem@.len() == 256,
        ensures
            final(self).mem@ == old(self).mem@.update(addr as int, value),
            final(self).log() == old(self).log(),
            final(self).ok_budget == old(self).ok_budget,
            final(self).events@ == old(self).events@,
    {
        self.mem.set(addr as usize, value);
    }

    /// Let the next `n` operations succeed and every later one fail.
    pub fn fail_after(&mut self, n: usize)
        ensures
            final(self).ok_budget == n,
            final(self).log() == old(self).log(),
            final(self).mem@ == old(self).mem@,
            final(self).events@ == old(self).events@,
    {
        self.ok_budget = n;
    }
}

impl BusAdapter for MemoryBus {
    open spec fn log(&self) -> Seq<BusOp> {
        self.history@
    }

    fn write_register(&mut self, addr: u8, value: u8) -> (r: Result<(), BusError>) {
        if self.ok_budget == 0 || (addr as usize) >= self.mem.len() {
            self.events.push(BusEvent::Write { addr, value, ok: false });
            self.history = Ghost(self.history@.push(write_attempt(addr, value, false)));
            Err(BusError)
        } else {
            self.ok_budget = self.ok_budget - 1;
            self.mem.set(addr as usize, value);
            self.events.push(BusEvent::Write { addr, value, ok: true });
            self.history = Ghost(self.history@.push(write_attempt(addr, value, true)));
            Ok(())
        }
    }

    fn read_registers(&mut self, addr: u8, count: usize) -> (r: Result<Vec<u8>, BusError>) {
        let start = addr as usize;
        let in_range = count <= self.mem.len() && start <= self.mem.len() - count;
        if self.ok_budget == 0 || !in_range {
            self.events.push(BusEvent::Read { addr, count, ok: false });
            self.history = Ghost(self.history@.push(read_attempt(addr, count, None)));
            Err(BusError)
        } else {
            self.ok_budget = self.ok_budget - 1;
            let mem_len: usize = self.mem.len();
            let mut data: Vec<u8> = Vec::new();
            let mut i: usize = 0;
            while i < count
                invariant
                    i <= count,
                    mem_len == self.mem@.len(),
                    start + count <= mem_len,
                    data@.len() == i,
                    forall|j: int| 0 <= j < i ==> data@[j] == self.mem@[start + j],
                decreases count - i,
            {
                data.push(self.mem[start + i]);
                i = i + 1;
            }
            self.events.push(BusEvent::Read { addr, count, ok: true });
            self.history = Ghost(self.history@.push(read_attempt(addr, count, Some(data@))));
            Ok(data)
        }
    }
}

} // verus!
