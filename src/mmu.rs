use std::rc::Rc;
use vstd::cell::invcell::InvCell;
use vstd::predicate::Predicate;
use vstd::prelude::*;

use crate::memory::{high_byte, le_word, linear, low_byte, splice, translate, Memory, MEMORY_SIZE};

verus! {

/// What the shared cell may hold: the whole store of `MEMORY_SIZE` bytes,
/// or the empty stand-in that sits there while one access has the store
/// checked out.
pub struct StoreShape;

impl Predicate<Memory> for StoreShape {
    open spec fn predicate(&self, m: Memory) -> bool {
        m@.len() == MEMORY_SIZE || m@.len() == 0
    }
}

/// An access found the store checked out by another access still in
/// progress: a reentrant use of the shared store.
#[derive(Debug, PartialEq, Eq)]
pub struct StoreBusy;

/// The byte at `seg:offset` of `mem`.
pub fn read_u8_at(mem: &Memory, seg: u16, offset: u16) -> (r: u8)
    requires
        linear(seg, offset) < mem@.len(),
    ensures
        r == mem@[linear(seg, offset) as int],
{
    mem.read_u8(translate(seg, offset))
}

/// The little-endian word at `seg:offset` of `mem`: low byte at the
/// translated address, high byte just after.
pub fn read_u16_at(mem: &Memory, seg: u16, offset: u16) -> (r: u16)
    requires
        linear(seg, offset) + 1 < mem@.len(),
    ensures
        r == le_word(mem@[linear(seg, offset) as int], mem@[linear(seg, offset) + 1int]),
{
    mem.read_u16(translate(seg, offset))
}

/// Stores `data` at `seg:offset` of `mem`.
pub fn write_u8_at(mem: &mut Memory, seg: u16, offset: u16, data: u8)
    requires
        linear(seg, offset) < old(mem)@.len(),
    ensures
        final(mem)@ == old(mem)@.update(linear(seg, offset) as int, data),
{
    mem.write_u8(translate(seg, offset), data)
}

/// Stores `data` little-endian at `seg:offset` of `mem`.
pub fn write_u16_at(mem: &mut Memory, seg: u16, offset: u16, data: u16)
    requires
        linear(seg, offset) + 1 < old(mem)@.len(),
    ensures
        final(mem)@ == old(mem)@.update(linear(seg, offset) as int, low_byte(data)).update(
            linear(seg, offset) + 1int,
            high_byte(data),
        ),
{
    mem.write_u16(translate(seg, offset), data)
}

/// A copy of the `length` bytes of `mem` from `seg:offset` on.
pub fn read_at(mem: &Memory, seg: u16, offset: u16, length: usize) -> (r: Vec<u8>)
    requires
        linear(seg, offset) + length <= mem@.len(),
    ensures
        r@ == mem@.subrange(linear(seg, offset) as int, linear(seg, offset) + length),
{
    mem.read(translate(seg, offset), length)
}

/// Copies `data` into `mem` from `seg:offset` on.
pub fn write_at(mem: &mut Memory, seg: u16, offset: u16, data: &[u8])
    requires
        linear(seg, offset) + data@.len() <= old(mem)@.len(),
    ensures
        final(mem)@ == splice(old(mem)@, linear(seg, offset) as int, data@),
{
    mem.write(translate(seg, offset), data)
}

/// A real-mode address translator in front of a shared memory store.
///
/// Clones are handles on the same store: a write through one is seen
/// through every other. Since the store is shared, its contents are not
/// part of a handle's value, and the contracts here cannot speak of them.
/// Each access checks the store out of the shared cell for its whole
/// duration and hands it to the matching function above (`read_u8_at`,
/// `write_at`, ...), whose contract states exactly what the access reads or
/// changes. An access that finds the store already checked out, which only
/// a reentrant use can cause, returns `StoreBusy`.
#[derive(Clone)]
pub struct MMU {
    memory: Rc<InvCell<Memory, StoreShape>>,
}

impl MMU {
    /// A translator over a fresh zero-filled store of `MEMORY_SIZE` bytes.
    pub fn new() -> (r: MMU) {
        let store = Memory::new(MEMORY_SIZE);
        MMU { memory: Rc::new(InvCell::new(store, Ghost(StoreShape))) }
    }

    /// Takes the store out of the shared cell, leaving the empty stand-in,
    /// or reports that another access holds it.
    fn checkout(&self) -> (r: Result<Memory, StoreBusy>)
        ensures
            r matches Ok(m) ==> m@.len() == MEMORY_SIZE,
    {
        let m = self.memory.replace(Memory::new(0));
        if m.capacity() == 0 {
            Err(StoreBusy)
        } else {
            Ok(m)
        }
    }

    /// Puts a checked-out store back into the shared cell.
    fn checkin(&self, m: Memory)
        requires
            m@.len() == MEMORY_SIZE,
    {
        let _ = self.memory.replace(m);
    }

    /// The linear address of `seg:offset`: `seg * 16 + offset`.
    pub fn s_translate(&self, seg: u16, offset: u16) -> (r: usize)
        ensures
            r == linear(seg, offset),
    {
        translate(seg, offset)
    }

    /// The byte at `seg:offset`.
    pub fn read_u8(&self, seg: u16, offset: u16) -> (r: Result<u8, StoreBusy>)
        requires
            linear(seg, offset) < MEMORY_SIZE,
    {
        let m = self.checkout()?;
        let v = read_u8_at(&m, seg, offset);
        self.checkin(m);
        Ok(v)
    }

    /// The little-endian word at `seg:offset`.
    pub fn read_u16(&self, seg: u16, offset: u16) -> (r: Result<u16, StoreBusy>)
        requires
            linear(seg, offset) + 1 < MEMORY_SIZE,
    {
        let m = self.checkout()?;
        let v = read_u16_at(&m, seg, offset);
        self.checkin(m);
        Ok(v)
    }

    /// Stores `data` at `seg:offset`.
    pub fn write_u8(&mut self, seg: u16, offset: u16, data: u8) -> (r: Result<(), StoreBusy>)
        requires
            linear(seg, offset) < MEMORY_SIZE,
        ensures
            *final(self) == *old(self),
    {
        let mut m = self.checkout()?;
        write_u8_at(&mut m, seg, offset, data);
        self.checkin(m);
        Ok(())
    }

    /// Stores `data` little-endian at `seg:offset`.
    pub fn write_u16(&mut self, seg: u16, offset: u16, data: u16) -> (r: Result<(), StoreBusy>)
        requires
            linear(seg, offset) + 1 < MEMORY_SIZE,
        ensures
            *final(self) == *old(self),
    {
        let mut m = self.checkout()?;
        write_u16_at(&mut m, seg, offset, data);
        self.checkin(m);
        Ok(())
    }

    /// A copy of the `length` bytes from `seg:offset` on.
    pub fn read(&self, seg: u16, offset: u16, length: usize) -> (r: Result<Vec<u8>, StoreBusy>)
        requires
            linear(seg, offset) + length <= MEMORY_SIZE,
        ensures
            r matches Ok(v) ==> v@.len() == length,
    {
        let m = self.checkout()?;
        let v = read_at(&m, seg, offset, length);
        self.checkin(m);
        Ok(v)
    }

    /// Copies `data` into the store from `seg:offset` on.
    pub fn write(&mut self, seg: u16, offset: u16, data: &[u8]) -> (r: Result<(), StoreBusy>)
        requires
            linear(seg, offset) + data@.len() <= MEMORY_SIZE,
        ensures
            *final(self) == *old(self),
    {
        let mut m = self.checkout()?;
        write_at(&mut m, seg, offset, data);
        self.checkin(m);
        Ok(())
    }

    /// A copy of the whole store, `MEMORY_SIZE` bytes.
    pub fn dump_mem(&self) -> (r: Result<Vec<u8>, StoreBusy>)
        ensures
            r matches Ok(v) ==> v@.len() == MEMORY_SIZE,
    {
        let m = self.checkout()?;
        let v = m.snapshot();
        self.checkin(m);
        Ok(v)
    }
}

} // verus!
