//! Wire packets: an opcode and a little-endian payload, with a writer and a reader.

use vstd::prelude::*;

verus! {

/// Little-endian bytes of a 16-bit number.
pub open spec fn u16_bytes(v: u16) -> Seq<u8> {
    seq![(v % 256) as u8, (v / 256) as u8]
}

/// Little-endian bytes of a 32-bit number.
pub open spec fn u32_bytes(v: u32) -> Seq<u8> {
    seq![
        (v % 256) as u8,
        (v / 256 % 256) as u8,
        (v / 65536 % 256) as u8,
        (v / 16777216) as u8,
    ]
}

/// The 16-bit number at the front of `s`.
pub open spec fn u16_at_front(s: Seq<u8>) -> u16 {
    (s[0] + 256 * s[1]) as u16
}

/// The 32-bit number at the front of `s`.
pub open spec fn u32_at_front(s: Seq<u8>) -> u32 {
    (s[0] + 256 * s[1] + 65536 * s[2] + 16777216 * s[3]) as u32
}

/// The concatenated little-endian bytes of a run of 32-bit signed numbers.
pub open spec fn i32_run_bytes(values: Seq<i32>) -> Seq<u8>
    decreases values.len(),
{
    if values.len() == 0 {
        Seq::empty()
    } else {
        i32_run_bytes(values.drop_last()) + u32_bytes(values.last() as u32)
    }
}

/// A packet under construction or received: its opcode and its payload.
#[derive(Clone, Debug)]
pub struct Packet {
    pub opcode: u8,
    pub data: Vec<u8>,
}

impl Packet {
    /// An empty packet with the given opcode.
    pub fn new(opcode: u8) -> (p: Packet)
        ensures
            p.opcode == opcode,
            p.data@ == Seq::<u8>::empty(),
    {
        Packet { opcode, data: Vec::new() }
    }

    /// Append one byte.
    pub fn write_u8(&mut self, v: u8)
        ensures
            final(self).opcode == old(self).opcode,
            final(self).data@ == old(self).data@.push(v),
    {
        self.data.push(v);
    }

    /// Append a 16-bit number, low byte first.
    pub fn write_u16(&mut self, v: u16)
        ensures
            final(self).opcode == old(self).opcode,
            final(self).data@ == old(self).data@ + u16_bytes(v),
    {
        self.data.push((v % 256) as u8);
        self.data.push((v / 256) as u8);
    }

    /// Append a 32-bit number, low byte first.
    pub fn write_u32(&mut self, v: u32)
        ensures
            final(self).opcode == old(self).opcode,
            final(self).data@ == old(self).data@ + u32_bytes(v),
    {
        self.data.push((v % 256) as u8);
        self.data.push((v / 256 % 256) as u8);
        self.data.push((v / 65536 % 256) as u8);
        self.data.push((v / 16777216) as u8);
    }

    /// Append a signed 16-bit number in two's complement.
    pub fn write_i16(&mut self, v: i16)
        ensures
            final(self).opcode == old(self).opcode,
            final(self).data@ == old(self).data@ + u16_bytes(v as u16),
    {
        self.write_u16(v as u16);
    }

    /// Append a signed 32-bit number in two's complement.
    pub fn write_i32(&mut self, v: i32)
        ensures
            final(self).opcode == old(self).opcode,
            final(self).data@ == old(self).data@ + u32_bytes(v as u32),
    {
        self.write_u32(v as u32);
    }

    /// Append the seven data words of a skill packet.
    pub fn write_data_words(&mut self, words: &[i32; 7])
        ensures
            final(self).opcode == old(self).opcode,
            final(self).data@ == old(self).data@ + i32_run_bytes(words@),
    {
        let mut i: usize = 0;
        assert(words@.take(0) =~= Seq::<i32>::empty());
        while i < 7
            invariant
                0 <= i <= 7,
                self.opcode == old(self).opcode,
                self.data@ == old(self).data@ + i32_run_bytes(words@.take(i as int)),
            decreases 7 - i,
        {
            assert(words@.take(i + 1).drop_last() =~= words@.take(i as int));
            self.write_i32(words[i]);
            i = i + 1;
            assert(self.data@ =~= old(self).data@ + i32_run_bytes(words@.take(i as int)));
        }
        assert(words@.take(7) =~= words@);
    }
}

/// A cursor over a payload. Its view is the part that has not been read yet.
pub struct PacketReader<'a> {
    bytes: &'a [u8],
    pos: usize,
}

impl<'a> View for PacketReader<'a> {
    type V = Seq<u8>;

    closed spec fn view(&self) -> Seq<u8> {
        self.bytes@.skip(self.pos as int)
    }
}

impl<'a> PacketReader<'a> {
    #[verifier::type_invariant]
    spec fn in_bounds(self) -> bool {
        self.pos <= self.bytes@.len()
    }

    /// A reader at the start of `data`.
    pub fn new(data: &'a [u8]) -> (r: PacketReader<'a>)
        ensures
            r@ == data@,
    {
        let r = PacketReader { bytes: data, pos: 0 };
        assert(r@ =~= data@);
        r
    }

    /// How many bytes are left.
    pub fn remaining(&self) -> (n: usize)
        ensures
            n == self@.len(),
    {
        proof {
            use_type_invariant(self);
        }
        self.bytes.len() - self.pos
    }

    /// Read one byte; `None` where nothing is left.
    pub fn read_u8(&mut self) -> (r: Option<u8>)
        ensures
            old(self)@.len() < 1 ==> r is None && final(self)@ == old(self)@,
            old(self)@.len() >= 1 ==> r == Some(old(self)@[0]) && final(self)@ == old(self)@.skip(1),
    {
        proof {
            use_type_invariant(&*self);
        }
        if self.bytes.len() - self.pos < 1 {
            return None;
        }
        let v: u8 = self.bytes[self.pos];
        self.pos = self.pos + 1;
        assert(self@ =~= old(self)@.skip(1));
        Some(v)
    }

    /// Read a 16-bit number; `None`, with nothing consumed, where fewer than two bytes are left.
    pub fn read_u16(&mut self) -> (r: Option<u16>)
        ensures
            old(self)@.len() < 2 ==> r is None && final(self)@ == old(self)@,
            old(self)@.len() >= 2 ==> r == Some(u16_at_front(old(self)@)) && final(self)@ == old(
                self,
            )@.skip(2),
    {
        proof {
            use_type_invariant(&*self);
        }
        if self.bytes.len() - self.pos < 2 {
            return None;
        }
        let lo: u16 = self.bytes[self.pos] as u16;
        let hi: u16 = self.bytes[self.pos + 1] as u16;
        self.pos = self.pos + 2;
        assert(self@ =~= old(self)@.skip(2));
        Some(lo + 256 * hi)
    }

    /// Read a 32-bit number; `None`, with nothing consumed, where fewer than four bytes are left.
    pub fn read_u32(&mut self) -> (r: Option<u32>)
        ensures
            old(self)@.len() < 4 ==> r is None && final(self)@ == old(self)@,
            old(self)@.len() >= 4 ==> r == Some(u32_at_front(old(self)@)) && final(self)@ == old(
                self,
            )@.skip(4),
    {
        proof {
            use_type_invariant(&*self);
        }
        if self.bytes.len() - self.pos < 4 {
            return None;
        }
        let b0: u32 = self.bytes[self.pos] as u32;
        let b1: u32 = self.bytes[self.pos + 1] as u32;
        let b2: u32 = self.bytes[self.pos + 2] as u32;
        let b3: u32 = self.bytes[self.pos + 3] as u32;
        self.pos = self.pos + 4;
        assert(self@ =~= old(self)@.skip(4));
        Some(b0 + 256 * b1 + 65536 * b2 + 16777216 * b3)
    }

    /// Read a signed 16-bit number.
    pub fn read_i16(&mut self) -> (r: Option<i16>)
        ensures
            old(self)@.len() < 2 ==> r is None && final(self)@ == old(self)@,
            old(self)@.len() >= 2 ==> r == Some(u16_at_front(old(self)@) as i16) && final(self)@
                == old(self)@.skip(2),
    {
        match self.read_u16() {
            Some(v) => Some(v as i16),
            None => None,
        }
    }

    /// Read a signed 32-bit number.
    pub fn read_i32(&mut self) -> (r: Option<i32>)
        ensures
            old(self)@.len() < 4 ==> r is None && final(self)@ == old(self)@,
            old(self)@.len() >= 4 ==> r == Some(u32_at_front(old(self)@) as i32) && final(self)@
                == old(self)@.skip(4),
    {
        match self.read_u32() {
            Some(v) => Some(v as i32),
            None => None,
        }
    }
}

/// A 16-bit number is read back as it was written, whatever follows it.
pub proof fn law_u16_round_trip(v: u16, rest: Seq<u8>)
    ensures
        u16_at_front(u16_bytes(v) + rest) == v,
        (u16_bytes(v) + rest).skip(2) == rest,
{
    assert((u16_bytes(v) + rest).skip(2) =~= rest);
}

/// A 32-bit number is read back as it was written, whatever follows it.
pub proof fn law_u32_round_trip(v: u32, rest: Seq<u8>)
    ensures
        u32_at_front(u32_bytes(v) + rest) == v,
        (u32_bytes(v) + rest).skip(4) == rest,
{
    let s = u32_bytes(v) + rest;
    assert(s.skip(4) =~= rest);
    assert(s[0] == v % 256 && s[1] == v / 256 % 256 && s[2] == v / 65536 % 256 && s[3] == v
        / 16777216);
    assert(v % 256 + 256 * (v / 256 % 256) + 65536 * (v / 65536 % 256) + 16777216 * (v / 16777216)
        == v);
}

/// Signed numbers are read back as they were written, in both widths.
pub proof fn law_signed_round_trip(a: i16, b: i32, rest: Seq<u8>)
    ensures
        u16_at_front(u16_bytes(a as u16) + rest) as i16 == a,
        u32_at_front(u32_bytes(b as u32) + rest) as i32 == b,
{
    law_u16_round_trip(a as u16, rest);
    law_u32_round_trip(b as u32, rest);
    assert((a as u16) as i16 == a) by (bit_vector);
    assert((b as u32) as i32 == b) by (bit_vector);
}

/// A run of data words takes four bytes each.
pub proof fn lemma_i32_run_len(values: Seq<i32>)
    ensures
        i32_run_bytes(values).len() == 4 * values.len(),
    decreases values.len(),
{
    if values.len() > 0 {
        lemma_i32_run_len(values.drop_last());
    }
}

/// The word at index `i` of a run stands at byte `4 * i`.
pub proof fn lemma_i32_run_word(values: Seq<i32>, i: int)
    requires
        0 <= i < values.len(),
    ensures
        i32_run_bytes(values).len() == 4 * values.len(),
        i32_run_bytes(values).subrange(4 * i, 4 * i + 4) == u32_bytes(values[i] as u32),
    decreases values.len(),
{
    lemma_i32_run_len(values);
    lemma_i32_run_len(values.drop_last());
    let whole = i32_run_bytes(values);
    let front = i32_run_bytes(values.drop_last());
    if i == values.len() - 1 {
        assert(whole.subrange(4 * i, 4 * i + 4) =~= u32_bytes(values[i] as u32));
    } else {
        lemma_i32_run_word(values.drop_last(), i);
        assert(whole.subrange(4 * i, 4 * i + 4) =~= front.subrange(4 * i, 4 * i + 4));
    }
}

/// Numbers go with their lowest byte first, and every byte weighs 256 times the one before it.
pub proof fn law_low_bytes_go_first(a: u16, b: u32)
    ensures
        u16_bytes(a).len() == 2,
        u16_bytes(a)[0] + 256 * u16_bytes(a)[1] == a,
        u32_bytes(b).len() == 4,
        u32_bytes(b)[0] + 256 * (u32_bytes(b)[1] + 256 * (u32_bytes(b)[2] + 256 * u32_bytes(b)[3]))
            == b,
{
}

/// A number is read from the bytes in front with the lowest first, and no other byte counts.
pub proof fn law_reading_weighs_the_bytes(s: Seq<u8>)
    ensures
        s.len() >= 2 ==> u16_at_front(s) == s[0] + 256 * s[1],
        s.len() >= 4 ==> u32_at_front(s) == s[0] + 256 * (s[1] + 256 * (s[2] + 256 * s[3])),
{
}

} // verus!
