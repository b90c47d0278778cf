use vstd::prelude::*;

verus! {

/// Capacity of the store that a machine is built with: the 1 MiB that real
/// mode can address.
pub const MEMORY_SIZE: usize = 0x10_0000;

/// The 16-bit value whose low byte is `lo` and high byte is `hi`.
pub open spec fn le_word(lo: u8, hi: u8) -> u16 {
    (hi as int * 256 + lo as int) as u16
}

/// Low byte of a 16-bit value.
pub open spec fn low_byte(v: u16) -> u8 {
    (v % 256) as u8
}

/// High byte of a 16-bit value.
pub open spec fn high_byte(v: u16) -> u8 {
    (v / 256) as u8
}

/// The bytes `s` with `data` copied over them from `addr` on.
pub open spec fn splice(s: Seq<u8>, addr: int, data: Seq<u8>) -> Seq<u8> {
    s.take(addr) + data + s.skip(addr + data.len())
}

/// A flat, byte-addressable store of fixed capacity.
pub struct Memory {
    bytes: Vec<u8>,
}

impl View for Memory {
    type V = Seq<u8>;

    closed spec fn view(&self) -> Seq<u8> {
        self.bytes@
    }
}

impl Memory {
    /// A zero-filled store of `capacity` bytes.
    pub fn new(capacity: usize) -> (r: Memory)
        ensures
            r@ == Seq::new(capacity as nat, |i: int| 0u8),
    {
        let mut bytes: Vec<u8> = Vec::with_capacity(capacity);
        let mut i: usize = 0;
        while i < capacity
            invariant
                i <= capacity,
                bytes@ == Seq::new(i as nat, |j: int| 0u8),
            decreases capacity - i,
        {
            bytes.push(0);
            i = i + 1;
            assert(bytes@ =~= Seq::new(i as nat, |j: int| 0u8));
        }
        Memory { bytes }
    }

    /// Number of bytes the store holds.
    pub fn capacity(&self) -> (r: usize)
        ensures
            r == self@.len(),
    {
        self.bytes.len()
    }

    /// The byte at `addr`.
    pub fn read_u8(&self, addr: usize) -> (r: u8)
        requires
            addr < self@.len(),
        ensures
            r == self@[addr as int],
    {
        self.bytes[addr]
    }

    /// The little-endian word at `addr`: low byte at `addr`, high byte at
    /// `addr + 1`.
    pub fn read_u16(&self, addr: usize) -> (r: u16)
        requires
            addr + 1 < self@.len(),
        ensures
            r == le_word(self@[addr as int], self@[addr + 1]),
    {
        // the store's length is a usize, so `addr + 1` cannot overflow
        proof {
            let len = self.bytes.len();
            assert(addr + 1 < len);
        }
        let lo = self.bytes[addr] as u16;
        let hi = self.bytes[addr + 1] as u16;
        hi * 256 + lo
    }

    /// Stores `data` at `addr`.
    pub fn write_u8(&mut self, addr: usize, data: u8)
        requires
            addr < old(self)@.len(),
        ensures
            final(self)@ == old(self)@.update(addr as int, data),
    {
        self.bytes.set(addr, data);
    }

    /// Stores `data` little-endian at `addr` and `addr + 1`.
    pub fn write_u16(&mut self, addr: usize, data: u16)
        requires
            addr + 1 < old(self)@.len(),
        ensures
            final(self)@ == old(self)@.update(addr as int, low_byte(data)).update(
                addr + 1,
                high_byte(data),
            ),
    {
        // the store's length is a usize, so `addr + 1` cannot overflow
        proof {
            let len = self.bytes.len();
            assert(addr + 1 < len);
        }
        self.bytes.set(addr, (data % 256) as u8);
        self.bytes.set(addr + 1, (data / 256) as u8);
    }

    /// A copy of the `length` bytes from `addr` on.
    pub fn read(&self, addr: usize, length: usize) -> (r: Vec<u8>)
        requires
            addr + length <= self@.len(),
        ensures
            r@ == self@.subrange(addr as int, addr + length),
    {
        let n = self.bytes.len();
        let mut r: Vec<u8> = Vec::with_capacity(length);
        let mut i: usize = 0;
        while i < length
            invariant
                n == self@.len(),
                i <= length,
                addr + length <= self@.len(),
                r@ == self@.subrange(addr as int, addr + i),
            decreases length - i,
        {
            r.push(self.bytes[addr + i]);
            i = i + 1;
            assert(r@ =~= self@.subrange(addr as int, addr + i));
        }
        r
    }

    /// Copies `data` into the store from `addr` on.
    pub fn write(&mut self, addr: usize, data: &[u8])
        requires
            addr + data@.len() <= old(self)@.len(),
        ensures
            final(self)@ == splice(old(self)@, addr as int, data@),
    {
        let n = self.bytes.len();
        let mut i: usize = 0;
        while i < data.len()
            invariant
                n == self@.len(),
                i <= data@.len(),
                addr + data@.len() <= old(self)@.len(),
                self@ == splice(old(self)@, addr as int, data@.take(i as int)),
            decreases data@.len() - i,
        {
            self.bytes.set(addr + i, data[i]);
            i = i + 1;
            assert(self@ =~= splice(old(self)@, addr as int, data@.take(i as int)));
        }
        assert(data@.take(data@.len() as int) =~= data@);
    }

    /// A copy of everything the store holds.
    pub fn snapshot(&self) -> (r: Vec<u8>)
        ensures
            r@ == self@,
    {
        let r = self.read(0, self.bytes.len());
        assert(self@.subrange(0, self@.len() as int) =~= self@);
        r
    }
}

/// Writing a word at `segment:offset` and reading it back gives the word;
/// its low byte lands at the translated address, its high byte just after.
pub proof fn lemma_word_round_trip(s: Seq<u8>, segment: u16, offset: u16, v: u16)
    requires
        linear(segment, offset) + 1 < s.len(),
    ensures
        ({
            let a = linear(segment, offset) as int;
            let t = s.update(a, low_byte(v)).update(a + 1, high_byte(v));
            &&& le_word(t[a], t[a + 1]) == v
            &&& t[a] == low_byte(v)
            &&& t[a + 1] == high_byte(v)
            &&& t.len() == s.len()
        }),
{
    let a = linear(segment, offset) as int;
    let t = s.update(a, low_byte(v)).update(a + 1, high_byte(v));
    assert(t[a] == low_byte(v));
    assert((v / 256) * 256 + v % 256 == v) by (nonlinear_arith);
}

/// A block write keeps the store's capacity, puts `data` at its place and
/// leaves every other byte as it was, so a later snapshot shows it.
pub proof fn lemma_block_write_visible(s: Seq<u8>, addr: int, data: Seq<u8>)
    requires
        0 <= addr,
        addr + data.len() <= s.len(),
    ensures
        splice(s, addr, data).len() == s.len(),
        splice(s, addr, data).subrange(addr, addr + data.len()) == data,
        forall|i: int|
            0 <= i < s.len() && !(addr <= i < addr + data.len()) ==> #[trigger] splice(
                s,
                addr,
                data,
            )[i] == s[i],
{
    assert(splice(s, addr, data).subrange(addr, addr + data.len()) =~= data);
}

/// The linear address of `segment:offset` in real mode, with no wraparound.
pub open spec fn linear(segment: u16, offset: u16) -> nat {
    segment as nat * 16 + offset as nat
}

/// Real-mode translation: `segment * 16 + offset`.
pub fn translate(segment: u16, offset: u16) -> (r: usize)
    ensures
        r == linear(segment, offset),
{
    segment as usize * 16 + offset as usize
}

} // verus!
