//! The operand stack: a growable sequence of bytes with typed LIFO access.

use crate::text::{decimal, push_decimal};
use vstd::prelude::*;
use vstd::string::StringExecFns;

verus! {

/// Errors involving the data stack.
#[derive(Debug, PartialEq, Eq, Structural)]
pub enum DataStackError {
    /// Attempt to pop more bytes than the stack holds.
    NotEnoughBytes { attempt: usize, remaining: usize },
}

/// The message that describes `e`.
pub open spec fn stack_error_text(e: DataStackError) -> Seq<char> {
    match e {
        DataStackError::NotEnoughBytes { attempt, remaining } => "Attempting to pop "@ + decimal(
            attempt as nat,
        ) + " byte(s) off of stack when only "@ + decimal(remaining as nat)
            + " byte(s) are remaining."@,
    }
}

impl DataStackError {
    /// A message that describes the error.
    pub fn message(&self) -> (r: String)
        ensures
            r@ == stack_error_text(*self),
    {
        match self {
            DataStackError::NotEnoughBytes { attempt, remaining } => {
                let mut r = String::from_str("Attempting to pop ");
                push_decimal(&mut r, *attempt as u64);
                r.append(" byte(s) off of stack when only ");
                push_decimal(&mut r, *remaining as u64);
                r.append(" byte(s) are remaining.");
                r
            },
        }
    }
}

/// The two bytes of `w`, most significant first.
pub open spec fn bytes16(w: u16) -> Seq<u8> {
    seq![(w / 0x100) as u8, (w % 0x100) as u8]
}

/// The four bytes of `d`, most significant first.
pub open spec fn bytes32(d: u32) -> Seq<u8> {
    seq![
        (d / 0x100_0000) as u8,
        (d / 0x1_0000 % 0x100) as u8,
        (d / 0x100 % 0x100) as u8,
        (d % 0x100) as u8,
    ]
}

/// The 16-bit value whose bytes, most significant first, are `s`.
pub open spec fn value16(s: Seq<u8>) -> u16
    recommends
        s.len() == 2,
{
    (s[0] * 0x100 + s[1]) as u16
}

/// The 32-bit value whose bytes, most significant first, are `s`.
pub open spec fn value32(s: Seq<u8>) -> u32
    recommends
        s.len() == 4,
{
    (s[0] * 0x100_0000 + s[1] * 0x1_0000 + s[2] * 0x100 + s[3]) as u32
}

/// The top `n` bytes of `s`, in the order in which they were pushed.
pub open spec fn top(s: Seq<u8>, n: int) -> Seq<u8> {
    s.subrange(s.len() - n, s.len() as int)
}

/// `s` without its top `n` bytes.
pub open spec fn below(s: Seq<u8>, n: int) -> Seq<u8> {
    s.subrange(0, s.len() - n)
}

/// Pushing a byte and then popping one gives back that byte and the stack as
/// it was, length included.
pub proof fn lemma_push8_pop8(s: Seq<u8>, v: u8)
    ensures
        s.push(v).len() >= 1,
        s.push(v).last() == v,
        s.push(v).drop_last() == s,
        s.push(v).drop_last().len() == s.len(),
{
    assert(s.push(v).drop_last() =~= s);
}

/// Pushing a 16-bit value and then popping one gives back that value and the
/// stack as it was, length included.
pub proof fn lemma_push16_pop16(s: Seq<u8>, v: u16)
    ensures
        (s + bytes16(v)).len() >= 2,
        value16(top(s + bytes16(v), 2)) == v,
        below(s + bytes16(v), 2) == s,
        below(s + bytes16(v), 2).len() == s.len(),
{
    assert(top(s + bytes16(v), 2) =~= bytes16(v));
    assert(below(s + bytes16(v), 2) =~= s);
}

/// Pushing a 32-bit value and then popping one gives back that value and the
/// stack as it was, length included.
pub proof fn lemma_push32_pop32(s: Seq<u8>, v: u32)
    ensures
        (s + bytes32(v)).len() >= 4,
        value32(top(s + bytes32(v), 4)) == v,
        below(s + bytes32(v), 4) == s,
        below(s + bytes32(v), 4).len() == s.len(),
{
    assert(top(s + bytes32(v), 4) =~= bytes32(v));
    assert(below(s + bytes32(v), 4) =~= s);
}

/// Operand stack of bytes. The last element of the sequence is the top.
pub struct DataStack {
    stack: Vec<u8>,
}

impl View for DataStack {
    type V = Seq<u8>;

    closed spec fn view(&self) -> Seq<u8> {
        self.stack@
    }
}

impl DataStack {
    /// Creates an empty stack.
    pub fn new() -> (r: Self)
        ensures
            r@ == Seq::<u8>::empty(),
    {
        DataStack { stack: Vec::new() }
    }

    /// Number of bytes currently on the stack.
    pub fn len(&self) -> (r: usize)
        ensures
            r == self@.len(),
    {
        self.stack.len()
    }

    /// The bytes on the stack, bottom first.
    pub fn as_bytes(&self) -> (r: &[u8])
        ensures
            r@ == self@,
    {
        self.stack.as_slice()
    }

    /// Removes and returns the top byte.
    pub fn pop8(&mut self) -> (r: Result<u8, DataStackError>)
        ensures
            old(self)@.len() >= 1 ==> r == Ok::<u8, DataStackError>(old(self)@.last())
                && final(self)@ == old(self)@.drop_last(),
            old(self)@.len() < 1 ==> r == Err::<u8, DataStackError>(
                DataStackError::NotEnoughBytes { attempt: 1, remaining: 0 },
            ) && final(self)@ == old(self)@,
    {
        match self.stack.pop() {
            Some(b) => Ok(b),
            None => Err(DataStackError::NotEnoughBytes { attempt: 1, remaining: 0 }),
        }
    }

    /// Pushes one byte.
    pub fn push8(&mut self, byte: u8)
        ensures
            final(self)@ == old(self)@.push(byte),
    {
        self.stack.push(byte);
    }
    /// Removes the top byte of a stack known to be non-empty.
    fn take(&mut self) -> (r: u8)
        requires
            old(self)@.len() >= 1,
        ensures
            r == old(self)@.last(),
            final(self)@ == old(self)@.drop_last(),
    {
        match self.stack.pop() {
            Some(b) => b,
            None => 0,
        }
    }

    /// Removes the top two bytes and returns the 16-bit value they encode,
    /// the byte below the top being the most significant.
    pub fn pop16(&mut self) -> (r: Result<u16, DataStackError>)
        ensures
            old(self)@.len() >= 2 ==> r == Ok::<u16, DataStackError>(value16(top(old(self)@, 2)))
                && final(self)@ == below(old(self)@, 2),
            old(self)@.len() < 2 ==> r == Err::<u16, DataStackError>(
                DataStackError::NotEnoughBytes { attempt: 2, remaining: old(self)@.len() as usize },
            ) && final(self)@ == old(self)@,
    {
        let len = self.len();
        if len < 2 {
            return Err(DataStackError::NotEnoughBytes { attempt: 2, remaining: len });
        }
        let ghost s = self@;
        let lo = self.take();
        let hi = self.take();
        let r: u16 = (lo as u16) | ((hi as u16) << 8u16);
        assert(r == hi * 0x100 + lo) by (bit_vector)
            requires
                r == (lo as u16) | ((hi as u16) << 8u16),
        ;
        assert(top(s, 2) =~= seq![hi, lo]);
        assert(self@ =~= below(s, 2));
        Ok(r)
    }

    /// Pushes the two bytes of `word`, most significant first, so that the
    /// least significant byte ends on top.
    pub fn push16(&mut self, word: u16)
        ensures
            final(self)@ == old(self)@ + bytes16(word),
    {
        let hi = (word >> 8u16) as u8;
        let lo = (word & 0xff) as u8;
        assert(hi == word / 0x100 && lo == word % 0x100) by (bit_vector)
            requires
                hi == (word >> 8u16) as u8,
                lo == (word & 0xff) as u8,
        ;
        let ghost s = self@;
        self.stack.push(hi);
        self.stack.push(lo);
        assert(self@ =~= s + bytes16(word));
    }

    /// Removes the top four bytes and returns the 32-bit value they encode,
    /// the deepest of them being the most significant.
    pub fn pop32(&mut self) -> (r: Result<u32, DataStackError>)
        ensures
            old(self)@.len() >= 4 ==> r == Ok::<u32, DataStackError>(value32(top(old(self)@, 4)))
                && final(self)@ == below(old(self)@, 4),
            old(self)@.len() < 4 ==> r == Err::<u32, DataStackError>(
                DataStackError::NotEnoughBytes { attempt: 4, remaining: old(self)@.len() as usize },
            ) && final(self)@ == old(self)@,
    {
        let len = self.len();
        if len < 4 {
            return Err(DataStackError::NotEnoughBytes { attempt: 4, remaining: len });
        }
        let ghost s = self@;
        let b3 = self.take();
        let b2 = self.take();
        let b1 = self.take();
        let b0 = self.take();
        let r: u32 = (b3 as u32) | ((b2 as u32) << 8u32) | ((b1 as u32) << 16u32) | ((b0 as u32)
            << 24u32);
        assert(r == b0 * 0x100_0000 + b1 * 0x1_0000 + b2 * 0x100 + b3) by (bit_vector)
            requires
                r == (b3 as u32) | ((b2 as u32) << 8u32) | ((b1 as u32) << 16u32) | ((b0 as u32)
                    << 24u32),
        ;
        assert(top(s, 4) =~= seq![b0, b1, b2, b3]);
        assert(self@ =~= below(s, 4));
        Ok(r)
    }

    /// Pushes the four bytes of `double_word`, most significant first.
    pub fn push32(&mut self, double_word: u32)
        ensures
            final(self)@ == old(self)@ + bytes32(double_word),
    {
        let d = double_word;
        let b0 = (d >> 24u32) as u8;
        let b1 = ((d >> 16u32) & 0xff) as u8;
        let b2 = ((d >> 8u32) & 0xff) as u8;
        let b3 = (d & 0xff) as u8;
        assert(b0 == d / 0x100_0000 && b1 == d / 0x1_0000 % 0x100 && b2 == d / 0x100 % 0x100 && b3
            == d % 0x100) by (bit_vector)
            requires
                b0 == (d >> 24u32) as u8,
                b1 == ((d >> 16u32) & 0xff) as u8,
                b2 == ((d >> 8u32) & 0xff) as u8,
                b3 == (d & 0xff) as u8,
        ;
        let ghost s = self@;
        self.stack.push(b0);
        self.stack.push(b1);
        self.stack.push(b2);
        self.stack.push(b3);
        assert(self@ =~= s + bytes32(d));
    }
}

} // verus!
