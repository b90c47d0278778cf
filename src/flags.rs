use vstd::prelude::*;

verus! {

/// Bit position of the carry flag.
pub const CARRY_BIT: usize = 0;
/// Bit position of the parity flag.
pub const PARITY_BIT: usize = 2;
/// Bit position of the auxiliary carry flag.
pub const AUXILIARY_BIT: usize = 4;
/// Bit position of the zero flag.
pub const ZERO_BIT: usize = 6;
/// Bit position of the sign flag.
pub const SIGN_BIT: usize = 7;
/// Bit position of the overflow flag.
pub const OVERFLOW_BIT: usize = 11;

/// Bit `i` of a 16-bit word.
pub open spec fn word_bit(w: u16, i: u16) -> bool {
    (w >> i) & 1u16 == 1u16
}

/// The positions that the packed word takes from the register; bits 1, 3, 5
/// and 15 are reserved and ignored when a packed word is loaded.
pub open spec fn is_stored_bit(i: int) -> bool {
    0 <= i < 15 && i != 1 && i != 3 && i != 5
}

/// `m` when `c` holds, else no bit.
pub open spec fn mask_if(c: bool, m: u16) -> u16 {
    if c { m } else { 0u16 }
}

/// The packed FLAGS word of a register whose bits are `b`, indexed by
/// position: every stored bit in place, reserved bits 1, 3 and 5 clear, and
/// bit 15 always set. Hardware reads bits 1, 3 and 5 as set; leaving them
/// clear is a known, deliberate deviation kept for compatibility.
pub open spec fn packed_of(b: Seq<bool>) -> u16 {
    mask_if(b[0], 0x0001) | mask_if(b[2], 0x0004) | mask_if(b[4], 0x0010) | mask_if(b[6], 0x0040)
        | mask_if(b[7], 0x0080) | mask_if(b[8], 0x0100) | mask_if(b[9], 0x0200)
        | mask_if(b[10], 0x0400) | mask_if(b[11], 0x0800) | mask_if(b[12], 0x1000)
        | mask_if(b[13], 0x2000) | mask_if(b[14], 0x4000) | 0x8000u16
}

/// The bits `b` after loading the packed word `w`: each stored bit is taken
/// from `w`, each reserved bit is left as it was.
pub open spec fn unpacked(b: Seq<bool>, w: u16) -> Seq<bool> {
    Seq::new(16, |i: int| if is_stored_bit(i) { word_bit(w, i as u16) } else { b[i] })
}

proof fn lemma_packed_bits_bv(
    c0: bool, c2: bool, c4: bool, c6: bool, c7: bool, c8: bool,
    c9: bool, c10: bool, c11: bool, c12: bool, c13: bool, c14: bool,
    w: u16,
)
    by (bit_vector)
    requires
        w == mask_if(c0, 0x0001) | mask_if(c2, 0x0004) | mask_if(c4, 0x0010) | mask_if(c6, 0x0040)
            | mask_if(c7, 0x0080) | mask_if(c8, 0x0100) | mask_if(c9, 0x0200)
            | mask_if(c10, 0x0400) | mask_if(c11, 0x0800) | mask_if(c12, 0x1000)
            | mask_if(c13, 0x2000) | mask_if(c14, 0x4000) | 0x8000u16,
    ensures
        word_bit(w, 0) == c0, !word_bit(w, 1), word_bit(w, 2) == c2, !word_bit(w, 3),
        word_bit(w, 4) == c4, !word_bit(w, 5), word_bit(w, 6) == c6, word_bit(w, 7) == c7,
        word_bit(w, 8) == c8, word_bit(w, 9) == c9, word_bit(w, 10) == c10,
        word_bit(w, 11) == c11, word_bit(w, 12) == c12, word_bit(w, 13) == c13,
        word_bit(w, 14) == c14, word_bit(w, 15),
{
}

proof fn lemma_word_rebuilt_bv(w: u16)
    by (bit_vector)
    requires
        word_bit(w, 15), !word_bit(w, 1), !word_bit(w, 3), !word_bit(w, 5),
    ensures
        w == mask_if(word_bit(w, 0), 0x0001) | mask_if(word_bit(w, 2), 0x0004)
            | mask_if(word_bit(w, 4), 0x0010) | mask_if(word_bit(w, 6), 0x0040)
            | mask_if(word_bit(w, 7), 0x0080) | mask_if(word_bit(w, 8), 0x0100)
            | mask_if(word_bit(w, 9), 0x0200) | mask_if(word_bit(w, 10), 0x0400)
            | mask_if(word_bit(w, 11), 0x0800) | mask_if(word_bit(w, 12), 0x1000)
            | mask_if(word_bit(w, 13), 0x2000) | mask_if(word_bit(w, 14), 0x4000) | 0x8000u16,
{
}

/// Layout of the packed word: each stored bit sits at its position, the
/// reserved bits 1, 3 and 5 read as clear, and bit 15 always reads as set.
pub proof fn lemma_packed_layout(b: Seq<bool>)
    requires
        b.len() == 16,
    ensures
        forall|i: u16|
            i < 16 ==> #[trigger] word_bit(packed_of(b), i) == if is_stored_bit(i as int) {
                b[i as int]
            } else {
                i == 15
            },
{
    lemma_packed_bits_bv(
        b[0], b[2], b[4], b[6], b[7], b[8], b[9], b[10], b[11], b[12], b[13], b[14],
        packed_of(b),
    );
    assert forall|i: u16| i < 16 implies #[trigger] word_bit(packed_of(b), i) == if is_stored_bit(i as int) {
        b[i as int]
    } else {
        i == 15
    } by {
        if i == 0 {} else if i == 1 {} else if i == 2 {} else if i == 3 {} else if i == 4 {}
        else if i == 5 {} else if i == 6 {} else if i == 7 {} else if i == 8 {}
        else if i == 9 {} else if i == 10 {} else if i == 11 {} else if i == 12 {}
        else if i == 13 {} else if i == 14 {} else {}
    }
}

/// Loading a register's own packed word gives back that register.
pub proof fn lemma_load_saved_word(b: Seq<bool>)
    requires
        b.len() == 16,
    ensures
        unpacked(b, packed_of(b)) == b,
{
    lemma_packed_layout(b);
    assert(unpacked(b, packed_of(b)) =~= b);
}

/// Saving a register that was loaded from `w` gives back `w`, for every word
/// whose bit 15 is set and whose reserved bits 1, 3 and 5 are clear (the
/// words that saving can produce).
pub proof fn lemma_save_loaded_word(b: Seq<bool>, w: u16)
    requires
        b.len() == 16,
        word_bit(w, 15),
        !word_bit(w, 1),
        !word_bit(w, 3),
        !word_bit(w, 5),
    ensures
        packed_of(unpacked(b, w)) == w,
{
    lemma_word_rebuilt_bv(w);
    let u = unpacked(b, w);
    assert(u[0] == word_bit(w, 0) && u[2] == word_bit(w, 2) && u[4] == word_bit(w, 4));
    assert(u[6] == word_bit(w, 6) && u[7] == word_bit(w, 7) && u[8] == word_bit(w, 8));
    assert(u[9] == word_bit(w, 9) && u[10] == word_bit(w, 10) && u[11] == word_bit(w, 11));
    assert(u[12] == word_bit(w, 12) && u[13] == word_bit(w, 13) && u[14] == word_bit(w, 14));
}

/// The FLAGS register: one boolean per bit of the hardware word.
///
/// The condition bits are public to read; the reserved bits, the I/O
/// privilege level and the nested task bit can only change through
/// `set_u16`.
pub struct Flags {
    pub carry: bool,
    reserved1: bool,
    pub parity: bool,
    reserved3: bool,
    pub auxiliary_carry: bool,
    reserved5: bool,
    pub zero: bool,
    pub sign: bool,
    pub trap: bool,
    pub interrupt: bool,
    pub direction: bool,
    pub overflow: bool,
    iopl12: bool,
    iopl13: bool,
    nested_task: bool,
    reserved15: bool,
}

impl Flags {
    /// The bit at position `i` of the FLAGS word.
    closed spec fn bit_at(&self, i: int) -> bool {
        if i == 0 { self.carry }
        else if i == 1 { self.reserved1 }
        else if i == 2 { self.parity }
        else if i == 3 { self.reserved3 }
        else if i == 4 { self.auxiliary_carry }
        else if i == 5 { self.reserved5 }
        else if i == 6 { self.zero }
        else if i == 7 { self.sign }
        else if i == 8 { self.trap }
        else if i == 9 { self.interrupt }
        else if i == 10 { self.direction }
        else if i == 11 { self.overflow }
        else if i == 12 { self.iopl12 }
        else if i == 13 { self.iopl13 }
        else if i == 14 { self.nested_task }
        else { self.reserved15 }
    }
}

impl View for Flags {
    type V = Seq<bool>;

    /// The sixteen bits, indexed by their position in the FLAGS word.
    closed spec fn view(&self) -> Seq<bool> {
        Seq::new(16, |i: int| self.bit_at(i))
    }
}

/// Every register has sixteen bits.
pub proof fn lemma_view_len(f: &Flags)
    ensures
        f@.len() == 16,
{
}

fn mask(c: bool, m: u16) -> (r: u16)
    ensures
        r == mask_if(c, m),
{
    if c { m } else { 0 }
}

impl Flags {
    /// A register with every bit clear, as at machine reset.
    pub fn new() -> (r: Flags)
        ensures
            r@ == Seq::new(16, |i: int| false),
    {
        let r = Flags {
            carry: false,
            reserved1: false,
            parity: false,
            reserved3: false,
            auxiliary_carry: false,
            reserved5: false,
            zero: false,
            sign: false,
            trap: false,
            interrupt: false,
            direction: false,
            overflow: false,
            iopl12: false,
            iopl13: false,
            nested_task: false,
            reserved15: false,
        };
        assert(r@ =~= Seq::new(16, |i: int| false));
        r
    }
    /// The packed 16-bit FLAGS word.
    pub fn u16(&self) -> (r: u16)
        ensures
            r == packed_of(self@),
    {
        mask(self.carry, 0x0001) | mask(self.parity, 0x0004) | mask(self.auxiliary_carry, 0x0010)
            | mask(self.zero, 0x0040) | mask(self.sign, 0x0080) | mask(self.trap, 0x0100)
            | mask(self.interrupt, 0x0200) | mask(self.direction, 0x0400)
            | mask(self.overflow, 0x0800) | mask(self.iopl12, 0x1000)
            | mask(self.iopl13, 0x2000) | mask(self.nested_task, 0x4000) | 0x8000
    }

    /// Loads the register from a packed FLAGS word, the inverse of `u16`:
    /// every stored bit is taken from `val`, the reserved bits are kept.
    pub fn set_u16(&mut self, val: u16)
        ensures
            final(self)@ == unpacked(old(self)@, val),
    {
        self.carry = (val >> 0) & 1 == 1;
        self.parity = (val >> 2) & 1 == 1;
        self.auxiliary_carry = (val >> 4) & 1 == 1;
        self.zero = (val >> 6) & 1 == 1;
        self.sign = (val >> 7) & 1 == 1;
        self.trap = (val >> 8) & 1 == 1;
        self.interrupt = (val >> 9) & 1 == 1;
        self.direction = (val >> 10) & 1 == 1;
        self.overflow = (val >> 11) & 1 == 1;
        self.iopl12 = (val >> 12) & 1 == 1;
        self.iopl13 = (val >> 13) & 1 == 1;
        self.nested_task = (val >> 14) & 1 == 1;
        assert forall|i: int| 0 <= i < 16 implies #[trigger] self@[i] == unpacked(old(self)@, val)[i] by {
            if i == 0 {} else if i == 1 {} else if i == 2 {} else if i == 3 {} else if i == 4 {}
            else if i == 5 {} else if i == 6 {} else if i == 7 {} else if i == 8 {}
            else if i == 9 {} else if i == 10 {} else if i == 11 {} else if i == 12 {}
            else if i == 13 {} else if i == 14 {} else {}
        }
        assert(self@ =~= unpacked(old(self)@, val));
    }

    /// Sign of an 8-bit result: its bit 7.
    pub fn set_sign_u8(&mut self, v: usize)
        ensures
            final(self)@[SIGN_BIT as int] == (v & 0x80 != 0),
            final(self)@ == old(self)@.update(SIGN_BIT as int, v & 0x80 != 0),
    {
        self.sign = v & 0x80 != 0;
        assert(self@ =~= old(self)@.update(SIGN_BIT as int, v & 0x80 != 0));
    }

    /// Sign of a 16-bit result: its bit 15.
    pub fn set_sign_u16(&mut self, v: usize)
        ensures
            final(self)@[SIGN_BIT as int] == (v & 0x8000 != 0),
            final(self)@ == old(self)@.update(SIGN_BIT as int, v & 0x8000 != 0),
    {
        self.sign = v & 0x8000 != 0;
        assert(self@ =~= old(self)@.update(SIGN_BIT as int, v & 0x8000 != 0));
    }

    /// Parity as this register defines it: set when bit 0 of the result is
    /// clear. This is narrower than the usual x86 rule (an even number of set
    /// bits in the low byte), and deliberately so, for compatibility.
    pub fn set_parity(&mut self, v: usize)
        ensures
            final(self)@[PARITY_BIT as int] == (v & 1 == 0),
            final(self)@ == old(self)@.update(PARITY_BIT as int, v & 1 == 0),
    {
        self.parity = v & 1 == 0;
        assert(self@ =~= old(self)@.update(PARITY_BIT as int, v & 1 == 0));
    }

    /// Zero of an 8-bit result: only the low byte is examined.
    pub fn set_zero_u8(&mut self, v: usize)
        ensures
            final(self)@[ZERO_BIT as int] == (v & 0xFF == 0),
            final(self)@ == old(self)@.update(ZERO_BIT as int, v & 0xFF == 0),
    {
        self.zero = (v & 0xFF) == 0;
        assert(self@ =~= old(self)@.update(ZERO_BIT as int, v & 0xFF == 0));
    }

    /// Zero of a 16-bit result: only the low word is examined.
    pub fn set_zero_u16(&mut self, v: usize)
        ensures
            final(self)@[ZERO_BIT as int] == (v & 0xFFFF == 0),
            final(self)@ == old(self)@.update(ZERO_BIT as int, v & 0xFFFF == 0),
    {
        self.zero = (v & 0xFFFF) == 0;
        assert(self@ =~= old(self)@.update(ZERO_BIT as int, v & 0xFFFF == 0));
    }

    /// Auxiliary carry: a carry or borrow out of bit 3, whatever the width.
    pub fn set_auxiliary(&mut self, res: usize, v1: usize, v2: usize)
        ensures
            final(self)@[AUXILIARY_BIT as int] == ((res ^ (v1 ^ v2)) & 0x10 != 0),
            final(self)@ == old(self)@.update(AUXILIARY_BIT as int, (res ^ (v1 ^ v2)) & 0x10 != 0),
    {
        self.auxiliary_carry = (res ^ (v1 ^ v2)) & 0x10 != 0;
        assert(self@ =~= old(self)@.update(AUXILIARY_BIT as int, (res ^ (v1 ^ v2)) & 0x10 != 0));
    }

    /// Signed overflow of the 8-bit addition `v1 + v2 = res`.
    pub fn set_overflow_add_u8(&mut self, res: usize, v1: usize, v2: usize)
        ensures
            final(self)@[OVERFLOW_BIT as int] == ((res ^ v1) & (res ^ v2) & 0x80 != 0),
            final(self)@ == old(self)@.update(OVERFLOW_BIT as int, (res ^ v1) & (res ^ v2) & 0x80 != 0),
    {
        self.overflow = (res ^ v1) & (res ^ v2) & 0x80 != 0;
        assert(self@ =~= old(self)@.update(OVERFLOW_BIT as int, (res ^ v1) & (res ^ v2) & 0x80 != 0));
    }

    /// Signed overflow of the 16-bit addition `v1 + v2 = res`.
    pub fn set_overflow_add_u16(&mut self, res: usize, v1: usize, v2: usize)
        ensures
            final(self)@[OVERFLOW_BIT as int] == ((res ^ v1) & (res ^ v2) & 0x8000 != 0),
            final(self)@ == old(self)@.update(OVERFLOW_BIT as int, (res ^ v1) & (res ^ v2) & 0x8000 != 0),
    {
        self.overflow = (res ^ v1) & (res ^ v2) & 0x8000 != 0;
        assert(self@ =~= old(self)@.update(OVERFLOW_BIT as int, (res ^ v1) & (res ^ v2) & 0x8000 != 0));
    }

    /// Signed overflow of an 8-bit subtraction with result `res`; `v2` plays
    /// the role its call sites give it.
    pub fn set_overflow_sub_u8(&mut self, res: usize, v1: usize, v2: usize)
        ensures
            final(self)@[OVERFLOW_BIT as int] == ((v2 ^ v1) & (v2 ^ res) & 0x80 != 0),
            final(self)@ == old(self)@.update(OVERFLOW_BIT as int, (v2 ^ v1) & (v2 ^ res) & 0x80 != 0),
    {
        self.overflow = (v2 ^ v1) & (v2 ^ res) & 0x80 != 0;
        assert(self@ =~= old(self)@.update(OVERFLOW_BIT as int, (v2 ^ v1) & (v2 ^ res) & 0x80 != 0));
    }

    /// Signed overflow of a 16-bit subtraction with result `res`.
    pub fn set_overflow_sub_u16(&mut self, res: usize, v1: usize, v2: usize)
        ensures
            final(self)@[OVERFLOW_BIT as int] == ((v2 ^ v1) & (v2 ^ res) & 0x8000 != 0),
            final(self)@ == old(self)@.update(OVERFLOW_BIT as int, (v2 ^ v1) & (v2 ^ res) & 0x8000 != 0),
    {
        self.overflow = (v2 ^ v1) & (v2 ^ res) & 0x8000 != 0;
        assert(self@ =~= old(self)@.update(OVERFLOW_BIT as int, (v2 ^ v1) & (v2 ^ res) & 0x8000 != 0));
    }

    /// Carry out of an 8-bit operation: bit 8 of the unmasked result.
    pub fn set_carry_u8(&mut self, res: usize)
        ensures
            final(self)@[CARRY_BIT as int] == (res & 0x100 != 0),
            final(self)@ == old(self)@.update(CARRY_BIT as int, res & 0x100 != 0),
    {
        self.carry = res & 0x100 != 0;
        assert(self@ =~= old(self)@.update(CARRY_BIT as int, res & 0x100 != 0));
    }

    /// Carry out of a 16-bit operation: bit 16 of the unmasked result.
    pub fn set_carry_u16(&mut self, res: usize)
        ensures
            final(self)@[CARRY_BIT as int] == (res & 0x10000 != 0),
            final(self)@ == old(self)@.update(CARRY_BIT as int, res & 0x10000 != 0),
    {
        self.carry = res & 0x10000 != 0;
        assert(self@ =~= old(self)@.update(CARRY_BIT as int, res & 0x10000 != 0));
    }

    /// The carry flag.
    pub fn carry(&self) -> (r: bool)
        ensures
            r == self@[CARRY_BIT as int],
    {
        self.carry
    }

    /// The parity flag.
    pub fn parity(&self) -> (r: bool)
        ensures
            r == self@[PARITY_BIT as int],
    {
        self.parity
    }

    /// The auxiliary carry flag.
    pub fn auxiliary_carry(&self) -> (r: bool)
        ensures
            r == self@[AUXILIARY_BIT as int],
    {
        self.auxiliary_carry
    }

    /// The zero flag.
    pub fn zero(&self) -> (r: bool)
        ensures
            r == self@[ZERO_BIT as int],
    {
        self.zero
    }

    /// The sign flag.
    pub fn sign(&self) -> (r: bool)
        ensures
            r == self@[SIGN_BIT as int],
    {
        self.sign
    }

    /// The trap flag.
    pub fn trap(&self) -> (r: bool)
        ensures
            r == self@[8],
    {
        self.trap
    }

    /// The interrupt flag.
    pub fn interrupt(&self) -> (r: bool)
        ensures
            r == self@[9],
    {
        self.interrupt
    }

    /// The direction flag.
    pub fn direction(&self) -> (r: bool)
        ensures
            r == self@[10],
    {
        self.direction
    }

    /// The overflow flag.
    pub fn overflow(&self) -> (r: bool)
        ensures
            r == self@[OVERFLOW_BIT as int],
    {
        self.overflow
    }
}

} // verus!
