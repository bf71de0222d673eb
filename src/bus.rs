//! The memory bus: the CPU's only view of memory, as a read/write capability
//! over the 16-bit address space.
use crate::cartridge::Cartridge;
use vstd::prelude::*;

verus! {

/// A 16-bit address space that can be read and written a byte at a time.
pub trait BusTrait: Sized {
    /// What a read of `addr` returns in this state.
    spec fn peek(&self, addr: u16) -> u8;

    /// Whether `next` is the state that writing `data` at `addr` leaves.
    spec fn stores(&self, addr: u16, data: u8, next: &Self) -> bool;

    /// Reads the byte at `addr`.
    fn read(&self, addr: u16) -> (r: u8)
        ensures
            r == self.peek(addr),
    ;

    /// Writes `data` at `addr`.
    fn write(&mut self, addr: u16, data: u8)
        ensures
            old(self).stores(addr, data, final(self)),
    ;
}

/// Addresses 0x0000-0x7FFF: the cartridge's ROM banks.
pub open spec fn is_rom(addr: u16) -> bool {
    addr < 0x8000
}

/// Addresses 0xE000-0xFDFF: a mirror of 0xC000-0xDDFF.
pub open spec fn is_echo(addr: u16) -> bool {
    0xE000 <= addr <= 0xFDFF
}

/// Addresses 0xFEA0-0xFEFF, which no device answers.
pub open spec fn is_unusable(addr: u16) -> bool {
    0xFEA0 <= addr <= 0xFEFF
}

/// Addresses backed by the bus's own storage: everything above ROM but the
/// unusable range (RAM, object attributes, I/O registers, interrupt enable).
pub open spec fn is_backed(addr: u16) -> bool {
    !is_rom(addr) && !is_unusable(addr)
}

/// The RAM regions: video RAM, external RAM, work RAM with its echo, and
/// high RAM.
pub open spec fn is_ram(addr: u16) -> bool {
    (0x8000 <= addr <= 0xFDFF) || (0xFF80 <= addr <= 0xFFFE)
}

/// The address that a backed address stands for: echo addresses stand for
/// work RAM 0x2000 lower, all others for themselves.
pub open spec fn canonical(addr: u16) -> int {
    if is_echo(addr) {
        addr - 0x2000
    } else {
        addr as int
    }
}

/// The bus of the console: ROM reads go to the cartridge, the rest of the
/// address space to the bus's own storage.
pub struct Bus {
    cartridge: Cartridge,
    memory: [u8; 0x8000],
}

impl Bus {
    /// The inserted cartridge.
    pub closed spec fn cart(&self) -> Cartridge {
        self.cartridge
    }

    /// The byte that the bus's storage holds for backed address `addr`.
    pub closed spec fn stored_at(&self, addr: int) -> u8 {
        self.memory@[addr - 0x8000]
    }

    /// A bus with an empty cartridge and zeroed storage.
    pub fn new() -> (r: Bus)
        ensures
            r.cart().is_empty_spec(),
            forall|a: u16| is_backed(a) ==> #[trigger] r.peek(a) == 0,
    {
        Bus { cartridge: Cartridge::new(), memory: [0u8; 0x8000] }
    }

    /// The inserted cartridge.
    pub fn cartridge(&self) -> (r: &Cartridge)
        ensures
            *r == self.cart(),
    {
        &self.cartridge
    }

    /// Replaces the inserted cartridge; the rest of the bus is kept.
    pub fn insert_cartridge(&mut self, cartridge: Cartridge)
        ensures
            final(self).cart() == cartridge,
            forall|a: u16| !is_rom(a) ==> #[trigger] final(self).peek(a) == old(self).peek(a),
    {
        self.cartridge = cartridge;
    }

    /// Index into the storage of a backed address.
    fn slot(addr: u16) -> (r: usize)
        requires
            is_backed(addr),
        ensures
            r == canonical(addr) - 0x8000,
            r < 0x8000,
    {
        if 0xE000 <= addr && addr <= 0xFDFF {
            (addr - 0xA000) as usize
        } else {
            (addr - 0x8000) as usize
        }
    }
}

impl BusTrait for Bus {
    open spec fn peek(&self, addr: u16) -> u8 {
        if is_rom(addr) {
            self.cart().peek(addr)
        } else if is_unusable(addr) {
            0x00
        } else {
            self.stored_at(canonical(addr))
        }
    }

    open spec fn stores(&self, addr: u16, data: u8, next: &Self) -> bool {
        &&& next.cart() == self.cart()
        &&& forall|a: u16| #[trigger]
            next.peek(a) == if is_backed(addr) && is_backed(a) && canonical(a) == canonical(addr) {
                data
            } else {
                self.peek(a)
            }
    }

    fn read(&self, addr: u16) -> (r: u8) {
        if addr < 0x8000 {
            self.cartridge.read(addr)
        } else if 0xFEA0 <= addr && addr <= 0xFEFF {
            0x00
        } else {
            self.memory[Bus::slot(addr)]
        }
    }

    fn write(&mut self, addr: u16, data: u8) {
        if addr >= 0x8000 && !(0xFEA0 <= addr && addr <= 0xFEFF) {
            let i = Bus::slot(addr);
            self.memory[i] = data;
        }
    }
}

/// A bus over a flat 64 KiB array, every address readable and writable.
pub struct FlatBus {
    memory: [u8; 0x10000],
}

impl FlatBus {
    /// A flat bus with every byte zero.
    pub fn new() -> (r: FlatBus)
        ensures
            forall|a: u16| #[trigger] r.peek(a) == 0,
    {
        FlatBus { memory: [0u8; 0x10000] }
    }
}

impl BusTrait for FlatBus {
    closed spec fn peek(&self, addr: u16) -> u8 {
        self.memory@[addr as int]
    }

    open spec fn stores(&self, addr: u16, data: u8, next: &Self) -> bool {
        forall|a: u16| #[trigger] next.peek(a) == if a == addr { data } else { self.peek(a) }
    }

    fn read(&self, addr: u16) -> (r: u8) {
        self.memory[addr as usize]
    }

    fn write(&mut self, addr: u16, data: u8) {
        self.memory[addr as usize] = data;
    }
}

/// Bus round trip: after a byte is written to a RAM address, reading that
/// address returns the byte.
pub proof fn lemma_ram_round_trip(before: Bus, after: Bus, addr: u16, data: u8)
    requires
        is_ram(addr),
        before.stores(addr, data, &after),
    ensures
        after.peek(addr) == data,
{
}

} // verus!
