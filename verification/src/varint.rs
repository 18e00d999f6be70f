use vstd::prelude::*;

verus! {

/// The variable-length integer encoding of the Minecraft protocol: the 32 bits of
/// `value`, seven at a time, least significant group first, each byte but the last
/// carrying the continuation bit `0x80`.
pub open spec fn varint_encode(value: u32) -> Seq<u8>
    decreases value,
{
    if value < 0x80 {
        seq![value as u8]
    } else {
        proof {
            assert(value >= 0x80 ==> value >> 7 < value) by (bit_vector);
        }
        seq![((value & 0x7f) | 0x80) as u8] + varint_encode(value >> 7)
    }
}

/// What a reader of the protocol makes of a byte sequence that starts with a
/// variable-length integer.
#[derive(Debug, Clone, Copy, PartialEq, Eq, Structural)]
pub enum VarIntDecode {
    /// A complete integer of `len` bytes.
    Value { value: i32, len: usize },
    /// The bytes end before the integer does.
    Incomplete,
    /// A sixth byte follows five bytes that all carry the continuation bit.
    TooBig,
}

/// The decoder from the `k`-th byte on, with `acc` the bits gathered so far.
pub open spec fn varint_decode_from(bytes: Seq<u8>, k: int, acc: u32) -> VarIntDecode
    decreases 5 - k,
{
    if k < 0 || k >= bytes.len() {
        VarIntDecode::Incomplete
    } else if k >= 5 {
        VarIntDecode::TooBig
    } else {
        let b = bytes[k];
        let acc2 = acc | (((b & 0x7f) as u32) << ((7 * k) as u32));
        if b < 0x80 {
            VarIntDecode::Value { value: acc2 as i32, len: (k + 1) as usize }
        } else {
            varint_decode_from(bytes, k + 1, acc2)
        }
    }
}

/// The integer at the start of `bytes`.
pub open spec fn varint_decode(bytes: Seq<u8>) -> VarIntDecode {
    varint_decode_from(bytes, 0, 0)
}

/// Appends the encoding of `value` to `buf`.
pub fn write_varint_to_buf(buf: &mut Vec<u8>, value: i32)
    ensures
        final(buf)@ == old(buf)@ + varint_encode(value as u32),
{
    let mut v: u32 = #[verifier::truncate] (value as u32);
    let ghost start = old(buf)@;
    loop
        invariant
            start == old(buf)@,
            buf@ + varint_encode(v) == start + varint_encode(value as u32),
        decreases v,
    {
        if v < 0x80 {
            let ghost before = buf@;
            buf.push(v as u8);
            assert(buf@ == before + varint_encode(v));
            return;
        }
        let byte: u8 = #[verifier::truncate] (((v & 0x7f) | 0x80) as u8);
        let ghost before = buf@;
        buf.push(byte);
        let ghost old_v = v;
        assert(v >= 0x80 ==> v >> 7 < v) by (bit_vector);
        v = v >> 7;
        assert(varint_encode(old_v) == seq![byte] + varint_encode(v));
        assert(buf@ + varint_encode(v) == before + varint_encode(old_v));
    }
}


/// Reads the integer at the start of `bytes`.
pub fn decode_varint(bytes: &[u8]) -> (r: VarIntDecode)
    ensures
        r == varint_decode(bytes@),
{
    let mut k: usize = 0;
    let mut acc: u32 = 0;
    loop
        invariant
            k <= 5,
            varint_decode(bytes@) == varint_decode_from(bytes@, k as int, acc),
        decreases 5 - k,
    {
        if k >= bytes.len() {
            return VarIntDecode::Incomplete;
        }
        if k == 5 {
            return VarIntDecode::TooBig;
        }
        let b = bytes[k];
        let shift: u32 = (7 * k) as u32;
        acc = acc | (((b & 0x7f) as u32) << shift);
        if b < 0x80 {
            return VarIntDecode::Value { value: #[verifier::truncate] (acc as i32), len: k + 1 };
        }
        k = k + 1;
    }
}

proof fn lemma_decode_encoded(s: Seq<u8>, k: int, acc: u32, w: u32)
    requires
        0 <= k <= 4,
        k == 0 || w < (1u32 << ((32 - 7 * k) as u32)),
        k + varint_encode(w).len() <= s.len(),
        forall|i: int| 0 <= i < varint_encode(w).len() ==> s[k + i] == #[trigger] varint_encode(w)[i],
    ensures
        varint_decode_from(s, k, acc) == (VarIntDecode::Value {
            value: (acc | (w << ((7 * k) as u32))) as i32,
            len: (k + varint_encode(w).len()) as usize,
        }),
    decreases w,
{
    let sh: u32 = (7 * k) as u32;
    if w < 0x80 {
        assert(s[k] == varint_encode(w)[0]);
        assert(((w as u8) & 0x7f) as u32 == w && (w as u8) < 0x80) by (bit_vector)
            requires w < 0x80;
    } else {
        let b: u8 = ((w & 0x7f) | 0x80) as u8;
        let w2: u32 = w >> 7;
        assert(w2 < w) by (bit_vector) requires w2 == w >> 7, w >= 0x80;
        assert(varint_encode(w) == seq![b] + varint_encode(w2));
        assert(s[k] == varint_encode(w)[0]);
        assert(s[k] == b);
        assert(k <= 3) by {
            if k == 4 {
                assert((32 - 7 * k) as u32 == 4u32);
                assert(w < 16) by (bit_vector)
                    requires w < (1u32 << 4u32);
            }
        };
        assert forall|i: int| 0 <= i < varint_encode(w2).len() implies s[(k + 1) + i]
            == #[trigger] varint_encode(w2)[i] by {
            assert(varint_encode(w)[i + 1] == varint_encode(w2)[i]);
        };
        let acc2 = acc | (((b & 0x7f) as u32) << sh);
        let sh2: u32 = (7 * (k + 1)) as u32;
        assert(sh2 == sh + 7);
        assert((b & 0x7f) as u32 == w & 0x7f && b >= 0x80) by (bit_vector)
            requires b == ((w & 0x7f) | 0x80) as u8;
        if k == 0 {
            assert(w2 < (1u32 << 25u32)) by (bit_vector)
                requires w2 == w >> 7;
            assert((1u32 << ((32 - 7 * 1) as u32)) == (1u32 << 25u32));
            assert((acc | ((w & 0x7f) << 0u32)) | (w2 << 7u32) == acc | (w << 0u32)) by (bit_vector)
                requires w2 == w >> 7;
        } else {
            let lim: u32 = (32 - 7 * k) as u32;
            assert(7 <= lim <= 25);
            assert(w2 < (1u32 << ((lim - 7) as u32))) by (bit_vector)
                requires w2 == w >> 7, w < (1u32 << lim), 7 <= lim <= 25;
            assert((32 - 7 * (k + 1)) as u32 == (lim - 7) as u32);
            assert((acc | ((w & 0x7f) << sh)) | (w2 << sh2) == acc | (w << sh)) by (bit_vector)
                requires w2 == w >> 7, w < (1u32 << lim), sh2 == sh + 7, lim + sh == 32, 7 <= lim <= 25;
        }
        lemma_decode_encoded(s, k + 1, acc2, w2);
    }
}

/// What is written is read back: the decoder, given the encoding of `value` followed
/// by any bytes, returns `value` and the length of its encoding.
pub proof fn lemma_varint_roundtrip(value: i32, rest: Seq<u8>)
    ensures
        varint_decode(varint_encode(value as u32) + rest) == (VarIntDecode::Value {
            value,
            len: varint_encode(value as u32).len() as usize,
        }),
{
    let w = value as u32;
    let s = varint_encode(w) + rest;
    lemma_decode_encoded(s, 0, 0, w);
    assert((0u32 | (w << 0u32)) as i32 == value) by (bit_vector)
        requires w == value as u32;
}

/// An encoding takes one to five bytes, and only its last byte lacks the
/// continuation bit.
pub proof fn lemma_varint_encoding_shape(value: u32)
    ensures
        1 <= varint_encode(value).len() <= 5,
        forall|i: int| 0 <= i < varint_encode(value).len() ==>
            (#[trigger] varint_encode(value)[i] < 0x80 <==> i == varint_encode(value).len() - 1),
{
    lemma_encoding_shape_bounded(value, 5);
}

proof fn lemma_encoding_shape_bounded(w: u32, n: int)
    requires
        1 <= n <= 5,
        n == 5 || w < (1u32 << ((7 * n) as u32)),
    ensures
        1 <= varint_encode(w).len() <= n,
        forall|i: int| 0 <= i < varint_encode(w).len() ==>
            (#[trigger] varint_encode(w)[i] < 0x80 <==> i == varint_encode(w).len() - 1),
    decreases w,
{
    if w < 0x80 {
        assert((w as u8) < 0x80) by (bit_vector) requires w < 0x80;
    } else {
        let b: u8 = ((w & 0x7f) | 0x80) as u8;
        let w2 = w >> 7;
        assert(w2 < w) by (bit_vector) requires w2 == w >> 7, w >= 0x80;
        assert(b >= 0x80) by (bit_vector) requires b == ((w & 0x7f) | 0x80) as u8;
        assert(n >= 2) by {
            if n == 1 {
                assert(w < 0x80) by (bit_vector) requires w < (1u32 << 7u32);
            }
        };
        if n == 5 {
            assert(w2 < (1u32 << 28u32)) by (bit_vector) requires w2 == w >> 7;
        } else {
            let sh: u32 = (7 * n) as u32;
            assert(w2 < (1u32 << ((sh - 7) as u32))) by (bit_vector)
                requires w2 == w >> 7, w < (1u32 << sh), 14 <= sh <= 28;
        }
        assert((7 * (n - 1)) as u32 == ((7 * n) as u32 - 7) as u32);
        lemma_encoding_shape_bounded(w2, n - 1);
        assert(varint_encode(w) == seq![b] + varint_encode(w2));
        assert forall|i: int| 0 <= i < varint_encode(w).len() implies
            (#[trigger] varint_encode(w)[i] < 0x80 <==> i == varint_encode(w).len() - 1) by {
            if i > 0 {
                assert(varint_encode(w)[i] == varint_encode(w2)[i - 1]);
            }
        };
    }
}


/// The bits that the first `k` bytes of `bytes` contribute to an integer.
pub open spec fn varint_acc(bytes: Seq<u8>, k: int) -> u32
    decreases k,
{
    if k <= 0 {
        0
    } else {
        varint_acc(bytes, k - 1) | (((bytes[k - 1] & 0x7f) as u32) << ((7 * (k - 1)) as u32))
    }
}

proof fn lemma_acc_prefix(a: Seq<u8>, b: Seq<u8>, k: int)
    requires
        0 <= k <= a.len(),
        k <= b.len(),
        forall|i: int| 0 <= i < k ==> a[i] == b[i],
    ensures
        varint_acc(a, k) == varint_acc(b, k),
    decreases k,
{
    if k > 0 {
        lemma_acc_prefix(a, b, k - 1);
    }
}

proof fn lemma_decode_resume(bytes: Seq<u8>, k: int)
    requires
        0 <= k <= 5,
        k <= bytes.len(),
        forall|i: int| 0 <= i < k ==> #[trigger] bytes[i] >= 0x80,
    ensures
        varint_decode(bytes) == varint_decode_from(bytes, k, varint_acc(bytes, k)),
    decreases k,
{
    if k > 0 {
        lemma_decode_resume(bytes, k - 1);
        assert(bytes[k - 1] >= 0x80);
    }
}

/// What one more byte does to an integer being read.
#[derive(Debug, Clone, Copy, PartialEq, Eq, Structural)]
pub enum VarIntStep {
    /// The integer goes on.
    NeedMore,
    /// The integer is complete.
    Done(i32),
    /// More than five bytes: the protocol's limit is passed.
    TooBig,
}

/// A reader that takes an integer one byte at a time, as it comes off a stream.
pub struct VarIntReader {
    num_read: usize,
    acc: u32,
    fed: Ghost<Seq<u8>>,
}

impl VarIntReader {
    /// The bytes taken so far.
    pub closed spec fn fed(&self) -> Seq<u8> {
        self.fed@
    }

    pub closed spec fn wf(&self) -> bool {
        &&& self.num_read == self.fed@.len()
        &&& self.num_read <= 5
        &&& forall|i: int| 0 <= i < self.fed@.len() ==> #[trigger] self.fed@[i] >= 0x80
        &&& self.acc == varint_acc(self.fed@, self.num_read as int)
    }

    /// A reader that has taken no byte yet.
    pub fn new() -> (r: VarIntReader)
        ensures
            r.wf(),
            r.fed() == Seq::<u8>::empty(),
    {
        VarIntReader { num_read: 0, acc: 0, fed: Ghost(Seq::empty()) }
    }

    /// Takes the next byte. The answer is the one that `varint_decode` gives for all
    /// the bytes taken, this one included; the reader keeps the byte only while the
    /// integer goes on.
    pub fn feed(&mut self, byte: u8) -> (r: VarIntStep)
        requires
            old(self).wf(),
        ensures
            final(self).wf(),
            match varint_decode(old(self).fed().push(byte)) {
                VarIntDecode::Value { value, len } => r == VarIntStep::Done(value),
                VarIntDecode::Incomplete => r == VarIntStep::NeedMore,
                VarIntDecode::TooBig => r == VarIntStep::TooBig,
            },
            r == VarIntStep::NeedMore ==> final(self).fed() == old(self).fed().push(byte),
            r != VarIntStep::NeedMore ==> final(self).fed() == old(self).fed(),
    {
        let ghost s = self.fed@.push(byte);
        let k = self.num_read;
        proof {
            lemma_acc_prefix(self.fed@, s, k as int);
            lemma_decode_resume(s, k as int);
        }
        if k == 5 {
            return VarIntStep::TooBig;
        }
        let shift: u32 = (7 * k) as u32;
        let acc2: u32 = self.acc | (((byte & 0x7f) as u32) << shift);
        if byte < 0x80 {
            return VarIntStep::Done(#[verifier::truncate] (acc2 as i32));
        }
        assert(varint_decode_from(s, k + 1, acc2) == VarIntDecode::Incomplete);
        self.acc = acc2;
        self.num_read = k + 1;
        self.fed = Ghost(s);
        VarIntStep::NeedMore
    }
}

} // verus!
