//! Work RAM and the router that serves every bus access.

use crate::cpu::address::law_ram_mirrors;
use crate::cpu::address::route;
use crate::cpu::address::route_of;
use crate::cpu::address::Target;
use crate::cpu::address::RAM_SIZE;
use crate::cpu::address::REGISTER_COUNT;
use crate::fault::Component;
use crate::fault::Fault;
use crate::link::downgrade;
use crate::link::peek;
use crate::link::peek_mut;
use crate::link::try_borrow;
use crate::link::try_borrow_mut;
use crate::link::upgrade;
use crate::link::Backref;
use crate::mapper::answers_byte;
use crate::mapper::takes_byte;
use crate::mapper::Mapper;
use crate::ppu::answers_register;
use crate::ppu::takes_register;
use crate::ppu::Ppu;
use std::cell::RefCell;
use std::rc::Rc;
use vstd::prelude::*;

verus! {

/// The console's work RAM: 2 KiB of bytes, addressed without any wraparound.
pub struct Memory([u8; 0x800]);

impl View for Memory {
    type V = Seq<u8>;

    closed spec fn view(&self) -> Seq<u8> {
        self.0@
    }
}

impl Memory {
    /// Work RAM never changes its size.
    pub proof fn lemma_size(&self)
        ensures
            self@.len() == RAM_SIZE,
    {
    }

    /// RAM as it is at power-on: every byte zero.
    pub fn new() -> (ram: Self)
        ensures
            ram@ == Seq::new(RAM_SIZE as nat, |i: int| 0u8),
    {
        Memory([0; 0x800])
    }

    /// The byte stored at `index`.
    pub fn read_byte(&self, index: usize) -> (val: u8)
        requires
            index < RAM_SIZE,
        ensures
            self@.len() == RAM_SIZE,
            val == self@[index as int],
    {
        self.0[index]
    }

    /// Stores `val` at `index` and leaves every other byte as it was.
    pub fn write_byte(&mut self, index: usize, val: u8)
        requires
            index < RAM_SIZE,
        ensures
            old(self)@.len() == RAM_SIZE,
            final(self)@ == old(self)@.update(index as int, val),
    {
        self.0[index] = val;
    }
}

/// The 16-bit word whose low byte is `low` and whose high byte is `high`.
pub open spec fn word_of(low: u8, high: u8) -> u16 {
    (high * 256 + low) as u16
}

/// A word is its high byte shifted up by eight bits, with the low byte in the
/// bits below; its two bytes can be read back from it.
pub proof fn law_word_is_little_endian(low: u8, high: u8)
    ensures
        word_of(low, high) == ((high as u16) << 8) | (low as u16),
        word_of(low, high) & 0xFF == low,
        word_of(low, high) >> 8 == high,
{
    let word = word_of(low, high);
    assert(word == high * 256 + low);
    assert(word == ((high as u16) << 8) | (low as u16)) by (bit_vector)
        requires
            word == high * 256 + low,
    ;
    assert(word & 0xFF == low && word >> 8 == high) by (bit_vector)
        requires
            word == high * 256 + low,
    ;
}

/// Assembles a little-endian word from its two bytes.
pub fn make_word(low: u8, high: u8) -> (word: u16)
    ensures
        word == word_of(low, high),
{
    assert((((high as u16) << 8) | (low as u16)) == high * 256 + low) by (bit_vector);
    ((high as u16) << 8) | (low as u16)
}

/// What an access to an outside component ends in, once the component has
/// answered with `answer` or could not be reached at all (`None`).
pub open spec fn settled<T>(answer: Option<T>, component: Component, addr: u16) -> Result<
    T,
    Fault,
> {
    match answer {
        Some(value) => Ok(value),
        None => Err(Fault::Unresolved { component, addr }),
    }
}

/// Turns a component's answer into the result of the access: the answer
/// itself, or the fault that names the component that could not be reached.
pub fn settle<T>(answer: Option<T>, component: Component, addr: u16) -> (result: Result<T, Fault>)
    ensures
        result == settled(answer, component, addr),
{
    match answer {
        Some(value) => Ok(value),
        None => Err(Fault::Unresolved { component, addr }),
    }
}

/// The word that the two byte reads of a word read amount to. The high byte
/// is read first, so its fault, if any, is the one reported.
pub open spec fn word_result(high: Result<u8, Fault>, low: Result<u8, Fault>) -> Result<
    u16,
    Fault,
> {
    match high {
        Err(fault) => Err(fault),
        Ok(high_byte) => match low {
            Err(fault) => Err(fault),
            Ok(low_byte) => Ok(word_of(low_byte, high_byte)),
        },
    }
}

/// Whether `result` is a possible end of reading the byte at `addr` while
/// work RAM holds `ram`. Faults and work RAM are decided by the router alone.
/// For the picture unit and the mapper the byte is whatever the component
/// answers, and the only fault is that the component could not be reached.
pub open spec fn read_outcome(ram: Seq<u8>, addr: u16, result: Result<u8, Fault>) -> bool {
    match route_of(addr) {
        Err(fault) => result == Err::<u8, Fault>(fault),
        Ok(Target::Ram { index }) => result == Ok::<u8, Fault>(ram[index as int]),
        Ok(Target::Register { .. }) => result is Ok || result == Err::<u8, Fault>(
            Fault::Unresolved { component: Component::PictureUnit, addr },
        ),
        Ok(Target::Cartridge { .. }) => result is Ok || result == Err::<u8, Fault>(
            Fault::Unresolved { component: Component::Mapper, addr },
        ),
    }
}

/// Whether `result` is a possible end of writing a byte to `addr`. A write to
/// work RAM always succeeds.
pub open spec fn write_outcome(addr: u16, result: Result<(), Fault>) -> bool {
    match route_of(addr) {
        Err(fault) => result == Err::<(), Fault>(fault),
        Ok(Target::Ram { .. }) => result is Ok,
        Ok(Target::Register { .. }) => result is Ok || result == Err::<(), Fault>(
            Fault::Unresolved { component: Component::PictureUnit, addr },
        ),
        Ok(Target::Cartridge { .. }) => result is Ok || result == Err::<(), Fault>(
            Fault::Unresolved { component: Component::Mapper, addr },
        ),
    }
}

/// Work RAM `ram` after a write of `val` to `addr`: one byte changes if
/// `addr` decodes to work RAM, nothing otherwise.
pub open spec fn written(ram: Seq<u8>, addr: u16, val: u8) -> Seq<u8> {
    match route_of(addr) {
        Ok(Target::Ram { index }) => ram.update(index as int, val),
        _ => ram,
    }
}

/// Work RAM `ram` after the writes `writes`, each an address and a byte, in order.
pub open spec fn written_all(ram: Seq<u8>, writes: Seq<(u16, u8)>) -> Seq<u8>
    decreases writes.len(),
{
    if writes.len() == 0 {
        ram
    } else {
        written(written_all(ram, writes.drop_last()), writes.last().0, writes.last().1)
    }
}

/// Whether `result` is a possible end of reading the word at `addr` while
/// work RAM holds `ram`: the high byte is read at `addr + 1`, then the low
/// byte at `addr`, each routed on its own.
pub open spec fn word_outcome(ram: Seq<u8>, addr: u16, result: Result<u16, Fault>) -> bool {
    if addr == 0xFFFF {
        result == Err::<u16, Fault>(Fault::InvalidAddress { addr })
    } else {
        exists|high: Result<u8, Fault>, low: Result<u8, Fault>|
            {
                &&& read_outcome(ram, (addr + 1) as u16, high)
                &&& read_outcome(ram, addr, low)
                &&& result == #[trigger] word_result(high, low)
            }
    }
}

/// Every read has some possible end.
proof fn lemma_some_read_outcome(ram: Seq<u8>, addr: u16)
    ensures
        exists|low: Result<u8, Fault>| read_outcome(ram, addr, low),
{
    let low: Result<u8, Fault> = match route_of(addr) {
        Err(fault) => Err(fault),
        Ok(Target::Ram { index }) => Ok(ram[index as int]),
        _ => Ok(0u8),
    };
    assert(read_outcome(ram, addr, low));
}

/// A byte written to work RAM is the byte read back from the same address
/// and from each of its mirrors; every other byte of work RAM reads as before.
/// Writing the same byte again changes nothing.
pub proof fn law_ram_reads_back(ram: Seq<u8>, addr: u16, val: u8, at: u16, result: Result<u8, Fault>)
    requires
        ram.len() == RAM_SIZE,
        addr <= 0x1FFF,
        at <= 0x1FFF,
        read_outcome(written(ram, addr, val), at, result),
    ensures
        at % 0x800 == addr % 0x800 ==> result == Ok::<u8, Fault>(val),
        at % 0x800 != addr % 0x800 ==> read_outcome(ram, at, result),
        written(written(ram, addr, val), addr, val) == written(ram, addr, val),
        written(ram, addr, val).len() == RAM_SIZE,
{
}

/// The four mirrors of work RAM read alike: two addresses of the RAM region
/// that differ by a multiple of 0x800 always read the same byte.
pub proof fn law_ram_mirrors_read_alike(
    ram: Seq<u8>,
    addr: u16,
    windows: nat,
    near: Result<u8, Fault>,
    far: Result<u8, Fault>,
)
    requires
        addr + 0x800 * windows <= 0x1FFF,
        read_outcome(ram, addr, near),
        read_outcome(ram, (addr + 0x800 * windows) as u16, far),
    ensures
        near == far,
        near == Ok::<u8, Fault>(ram[addr as int % 0x800]),
{
    law_ram_mirrors(addr, windows);
}

/// After any sequence of writes to work RAM, reading the address written
/// last returns the byte written last.
pub proof fn law_last_write_reads_back(
    ram: Seq<u8>,
    writes: Seq<(u16, u8)>,
    result: Result<u8, Fault>,
)
    requires
        ram.len() == RAM_SIZE,
        writes.len() > 0,
        forall|i: int| 0 <= i < writes.len() ==> (#[trigger] writes[i]).0 <= 0x1FFF,
        read_outcome(written_all(ram, writes), writes.last().0, result),
    ensures
        result == Ok::<u8, Fault>(writes.last().1),
{
    lemma_written_all_size(ram, writes.drop_last());
}

/// Writes never change the size of work RAM.
proof fn lemma_written_all_size(ram: Seq<u8>, writes: Seq<(u16, u8)>)
    requires
        ram.len() == RAM_SIZE,
    ensures
        written_all(ram, writes).len() == RAM_SIZE,
    decreases writes.len(),
{
    if writes.len() > 0 {
        lemma_written_all_size(ram, writes.drop_last());
    }
}

/// In work RAM a word read is the two byte reads put together: the byte at
/// `addr + 1` shifted up by eight bits, with the byte at `addr` below it.
pub proof fn law_ram_word_is_two_bytes(
    ram: Seq<u8>,
    addr: u16,
    high: Result<u8, Fault>,
    low: Result<u8, Fault>,
    word: Result<u16, Fault>,
)
    requires
        addr < 0x1FFF,
        read_outcome(ram, (addr + 1) as u16, high),
        read_outcome(ram, addr, low),
        word_outcome(ram, addr, word),
    ensures
        high is Ok,
        low is Ok,
        word == Ok::<u16, Fault>(((high->Ok_0 as u16) << 8) | (low->Ok_0 as u16)),
{
    law_word_is_little_endian(low->Ok_0, high->Ok_0);
}

/// Wherever a word read succeeds, the word is made of two byte reads that
/// could have succeeded: its upper eight bits at `addr + 1` and its lower
/// eight bits at `addr`.
pub proof fn law_word_is_two_reads(ram: Seq<u8>, addr: u16, word: u16)
    requires
        word_outcome(ram, addr, Ok::<u16, Fault>(word)),
    ensures
        addr < 0xFFFF,
        read_outcome(ram, (addr + 1) as u16, Ok::<u8, Fault>((word >> 8) as u8)),
        read_outcome(ram, addr, Ok::<u8, Fault>((word & 0xFF) as u8)),
{
    let (high, low) = choose|high: Result<u8, Fault>, low: Result<u8, Fault>|
        {
            &&& read_outcome(ram, (addr + 1) as u16, high)
            &&& read_outcome(ram, addr, low)
            &&& Ok::<u16, Fault>(word) == #[trigger] word_result(high, low)
        };
    law_word_is_little_endian(low->Ok_0, high->Ok_0);
}

/// An access to the audio and I/O window or to the test-mode window never
/// answers: a read yields no byte and a write is not carried out, and each
/// ends in the not-implemented fault of its window.
pub proof fn law_unimplemented_access_faults(
    ram: Seq<u8>,
    addr: u16,
    read: Result<u8, Fault>,
    write: Result<(), Fault>,
    val: u8,
)
    requires
        0x4000 <= addr <= 0x401F,
        read_outcome(ram, addr, read),
        write_outcome(addr, write),
    ensures
        read is Err,
        write is Err,
        read->Err_0 == write->Err_0,
        read->Err_0 == if addr <= 0x4017 {
            Fault::AudioIoNotImplemented { addr }
        } else {
            Fault::TestModeNotImplemented { addr }
        },
        written(ram, addr, val) == ram,
{
}

/// The bus router. It owns work RAM and holds non-owning references to the
/// processor, the picture unit and the mapper, which the machine owns.
#[verifier::reject_recursive_types(C)]
#[verifier::reject_recursive_types(P)]
#[verifier::reject_recursive_types(M)]
pub struct MemoryMap<C, P, M> {
    memory: Memory,
    cpu: Backref<C>,
    ppu: Backref<P>,
    mapper: Backref<M>,
}

impl<C, P: Ppu, M: Mapper> MemoryMap<C, P, M> {
    /// The content of work RAM, byte by byte.
    pub closed spec fn ram(&self) -> Seq<u8> {
        self.memory@
    }

    /// Work RAM never changes its size.
    pub proof fn lemma_ram_size(&self)
        ensures
            self.ram().len() == RAM_SIZE,
    {
    }

    /// Whether `val` can be the byte read at `addr` as far as the component
    /// behind `addr` goes: the picture unit answers with it for register
    /// `(addr - 0x2000) mod 8`, or the mapper for `addr` itself. Work RAM is
    /// not a component, so nothing is asked of its bytes here.
    pub open spec fn answered(addr: u16, val: u8) -> bool {
        match route_of(addr) {
            Ok(Target::Register { reg }) => answers_register::<P>(reg, val),
            Ok(Target::Cartridge { addr: passed }) => answers_byte::<M>(passed, val),
            _ => true,
        }
    }

    /// Whether a write of `val` to `addr` was carried out by the component
    /// behind `addr`: by the picture unit at register `(addr - 0x2000) mod 8`,
    /// or by the mapper at `addr` itself.
    pub open spec fn accepted(addr: u16, val: u8) -> bool {
        match route_of(addr) {
            Ok(Target::Register { reg }) => takes_register::<P>(reg, val),
            Ok(Target::Cartridge { addr: passed }) => takes_byte::<M>(passed, val),
            _ => true,
        }
    }

    /// A router with zeroed work RAM that refers to the three components
    /// without owning them.
    pub fn new(cpu: &Rc<RefCell<C>>, ppu: &Rc<RefCell<P>>, mapper: &Rc<RefCell<M>>) -> (map: Self)
        ensures
            map.ram() == Seq::new(RAM_SIZE as nat, |i: int| 0u8),
    {
        MemoryMap {
            memory: Memory::new(),
            cpu: downgrade(cpu),
            ppu: downgrade(ppu),
            mapper: downgrade(mapper),
        }
    }

    /// Reads register `reg` of the picture unit, if the unit can be reached:
    /// a byte that comes back is the unit's answer to a read of that register.
    fn read_register(&self, reg: usize) -> (answer: Option<u8>)
        requires
            reg < REGISTER_COUNT,
        ensures
            answer matches Some(val) ==> answers_register::<P>(reg, val),
    {
        match upgrade(&self.ppu) {
            None => None,
            Some(owner) => match try_borrow(&owner) {
                None => None,
                Some(guard) => Some(peek(&guard).read_register(reg)),
            },
        }
    }

    /// Writes `val` to register `reg` of the picture unit; `None` if the unit
    /// cannot be reached. Otherwise the unit has carried out that write.
    fn write_register(&self, reg: usize, val: u8) -> (answer: Option<()>)
        requires
            reg < REGISTER_COUNT,
        ensures
            answer is Some ==> takes_register::<P>(reg, val),
    {
        match upgrade(&self.ppu) {
            None => None,
            Some(owner) => match try_borrow_mut(&owner) {
                None => None,
                Some(mut guard) => {
                    peek_mut(&mut guard).write_register(reg, val);
                    Some(())
                },
            },
        }
    }

    /// Reads the cartridge byte at `addr`, if the mapper can be reached: a
    /// byte that comes back is the mapper's answer to a read of that address.
    fn read_cartridge(&self, addr: u16) -> (answer: Option<u8>)
        ensures
            answer matches Some(val) ==> answers_byte::<M>(addr, val),
    {
        match upgrade(&self.mapper) {
            None => None,
            Some(owner) => match try_borrow(&owner) {
                None => None,
                Some(guard) => Some(peek(&guard).read_byte(addr)),
            },
        }
    }

    /// Writes `val` to the cartridge at `addr`; `None` if the mapper cannot be
    /// reached. Otherwise the mapper has carried out that write.
    fn write_cartridge(&self, addr: u16, val: u8) -> (answer: Option<()>)
        ensures
            answer is Some ==> takes_byte::<M>(addr, val),
    {
        match upgrade(&self.mapper) {
            None => None,
            Some(owner) => match try_borrow_mut(&owner) {
                None => None,
                Some(mut guard) => {
                    peek_mut(&mut guard).write_byte(addr, val);
                    Some(())
                },
            },
        }
    }

    /// Reads the byte at `addr`.
    ///
    /// Work RAM answers with the byte at `addr mod 0x800`. The two
    /// unimplemented windows and 0xFFFF fail with their fault, never with a
    /// byte. The picture unit is asked for register `(addr - 0x2000) mod 8` and
    /// the mapper for `addr` itself.
    pub fn read_byte(&self, addr: u16) -> (result: Result<u8, Fault>)
        ensures
            self.ram().len() == RAM_SIZE,
            read_outcome(self.ram(), addr, result),
            result matches Ok(val) ==> Self::answered(addr, val),
    {
        match route(addr) {
            Err(fault) => Err(fault),
            Ok(Target::Ram { index }) => Ok(self.memory.read_byte(index)),
            Ok(Target::Register { reg }) => settle(
                self.read_register(reg),
                Component::PictureUnit,
                addr,
            ),
            Ok(Target::Cartridge { addr: passed }) => settle(
                self.read_cartridge(passed),
                Component::Mapper,
                addr,
            ),
        }
    }

    /// Writes `val` to `addr`.
    ///
    /// Work RAM stores the byte at `addr mod 0x800`; no other access touches
    /// work RAM. The two unimplemented windows and 0xFFFF fail with their
    /// fault. The picture unit gets the write at register
    /// `(addr - 0x2000) mod 8` and the mapper at `addr` itself.
    pub fn write_byte(&mut self, addr: u16, val: u8) -> (result: Result<(), Fault>)
        ensures
            write_outcome(addr, result),
            old(self).ram().len() == RAM_SIZE,
            final(self).ram() == written(old(self).ram(), addr, val),
            result is Ok ==> Self::accepted(addr, val),
    {
        match route(addr) {
            Err(fault) => Err(fault),
            Ok(Target::Ram { index }) => {
                self.memory.write_byte(index, val);
                Ok(())
            },
            Ok(Target::Register { reg }) => settle(
                self.write_register(reg, val),
                Component::PictureUnit,
                addr,
            ),
            Ok(Target::Cartridge { addr: passed }) => settle(
                self.write_cartridge(passed, val),
                Component::Mapper,
                addr,
            ),
        }
    }

    /// Reads the little-endian word at `addr`: the high byte from `addr + 1`
    /// first, then the low byte from `addr`, each routed on its own. A word
    /// at 0xFFFF has no high byte to read and fails as an invalid address.
    pub fn read_word(&self, addr: u16) -> (result: Result<u16, Fault>)
        ensures
            self.ram().len() == RAM_SIZE,
            word_outcome(self.ram(), addr, result),
            addr < 0x1FFF ==> result == Ok::<u16, Fault>(
                word_of(self.ram()[addr as int % 0x800], self.ram()[(addr + 1) % 0x800]),
            ),
            result matches Ok(word) ==> {
                &&& Self::answered((addr + 1) as u16, (word >> 8) as u8)
                &&& Self::answered(addr, (word & 0xFF) as u8)
            },
    {
        if addr == 0xFFFF {
            return Err(Fault::InvalidAddress { addr });
        }
        let high = self.read_byte(addr + 1);
        match high {
            Err(fault) => {
                proof {
                    lemma_some_read_outcome(self.ram(), addr);
                    let low = choose|low: Result<u8, Fault>| read_outcome(self.ram(), addr, low);
                    assert(word_outcome(self.ram(), addr, word_result(high, low)));
                }
                Err(fault)
            },
            Ok(high_byte) => {
                let low = self.read_byte(addr);
                assert(word_outcome(self.ram(), addr, word_result(high, low)));
                match low {
                    Err(fault) => Err(fault),
                    Ok(low_byte) => {
                        proof {
                            law_word_is_little_endian(low_byte, high_byte);
                        }
                        Ok(make_word(low_byte, high_byte))
                    },
                }
            },
        }
    }
}

} // verus!
