//! A passphrase buffer wiped when it is cleared and when it is dropped.
//!
//! Capacity is fixed and the buffer never grows: growing a `Vec` reallocates,
//! and the old allocation would be freed before it could be wiped, leaking the
//! passphrase onto the heap. The bytes live in a [`Zeroizing`] vector of the
//! full capacity, allocated once, which zeroes itself on drop; `len` marks
//! how much of it holds the passphrase.
use vstd::prelude::*;
use vstd::utf8::{encode_scalar, encode_utf8};
use zeroize::{Zeroize, Zeroizing};

verus! {

/// GnuPG's pinentry uses 2 KiB; double it for long diceware passphrases.
pub const DEFAULT_CAPACITY: usize = 4096;

/// A byte vector that `zeroize` wipes when it is dropped. Its contents are
/// private and reached only through the functions below, whose contracts
/// speak of them as [`held`].
#[verifier::external_body]
#[derive(Debug)]
pub struct WipedBytes {
    inner: Zeroizing<Vec<u8>>,
}

/// The bytes that a wiped-on-drop vector holds.
pub uninterp spec fn held(z: WipedBytes) -> Seq<u8>;

/// Calls `Zeroizing::new`, which takes ownership of `v` without copying it.
#[verifier::external_body]
fn zeroizing_new(v: Vec<u8>) -> (z: WipedBytes)
    ensures
        held(z) == v@,
{
    WipedBytes { inner: Zeroizing::new(v) }
}

/// The length of the vector, through `Zeroizing`'s `Deref`.
#[verifier::external_body]
fn zeroizing_len(z: &WipedBytes) -> (n: usize)
    ensures
        n == held(*z).len(),
{
    z.inner.len()
}

/// Reads `z[..n]` through `Zeroizing`'s `Deref` to the vector.
#[verifier::external_body]
fn zeroizing_prefix(z: &WipedBytes, n: usize) -> (s: &[u8])
    requires
        n <= held(*z).len(),
    ensures
        s@ == held(*z).take(n as int),
{
    &z.inner[..n]
}

/// Writes `z[i] = b` through `Zeroizing`'s `DerefMut` to the vector.
#[verifier::external_body]
fn zeroizing_set(z: &mut WipedBytes, i: usize, b: u8)
    requires
        i < held(*old(z)).len(),
    ensures
        held(*final(z)) == held(*old(z)).update(i as int, b),
    no_unwind
{
    z.inner[i] = b;
}

/// Calls `Zeroize::zeroize` on the whole slice of the vector: every byte
/// becomes 0 and the length stays.
#[verifier::external_body]
fn zeroizing_wipe(z: &mut WipedBytes)
    ensures
        held(*final(z)) == Seq::new(held(*old(z)).len(), |i: int| 0u8),
    no_unwind
{
    z.inner.as_mut_slice().zeroize();
}

#[derive(Debug, PartialEq, Eq)]
pub enum SecretError {
    Full,
}

impl SecretError {
    /// The message shown for the error.
    pub fn message(&self) -> (r: &'static str)
        ensures
            r@ == "passphrase exceeds buffer capacity"@,
    {
        match self {
            SecretError::Full => "passphrase exceeds buffer capacity",
        }
    }
}

/// A continuation byte of a UTF-8 sequence, `10xxxxxx`.
pub open spec fn is_continuation(b: u8) -> bool {
    128 <= b && b < 192
}

/// `b` without its last UTF-8 character: trailing continuation bytes and the
/// byte that leads them.
pub open spec fn drop_last_char(b: Seq<u8>) -> Seq<u8>
    decreases b.len(),
{
    if b.len() == 0 {
        b
    } else if is_continuation(b.last()) {
        drop_last_char(b.drop_last())
    } else {
        b.drop_last()
    }
}

/// The UTF-8 encoding of a text with one more character is the encoding of
/// the text followed by that character's bytes.
pub proof fn lemma_encode_utf8_push(s: Seq<char>, c: char)
    ensures
        encode_utf8(s.push(c)) == encode_utf8(s) + encode_scalar(c as u32),
    decreases s.len(),
{
    if s.len() == 0 {
        assert(s.push(c).drop_first() =~= Seq::<char>::empty());
        assert(encode_utf8(Seq::<char>::empty()) =~= Seq::<u8>::empty());
        assert(encode_utf8(s) =~= Seq::<u8>::empty());
        assert(encode_utf8(s.push(c)) =~= encode_scalar(c as u32));
    } else {
        assert(s.push(c).drop_first() =~= s.drop_first().push(c));
        lemma_encode_utf8_push(s.drop_first(), c);
        assert(encode_utf8(s.push(c)) =~= encode_utf8(s) + encode_scalar(c as u32));
    }
}

/// Dropping the last character of bytes that end in a character's encoding
/// removes exactly that encoding.
pub proof fn lemma_drop_last_scalar(p: Seq<u8>, c: char)
    ensures
        drop_last_char(p + encode_scalar(c as u32)) == p,
{
    let v = c as u32;
    vstd::utf8::char_is_scalar(c);
    let q = p + encode_scalar(v);
    if vstd::utf8::has_width_1_encoding(v) {
        let b = vstd::utf8::leading_byte_width_1(v);
        assert(b < 128) by (bit_vector)
            requires
                v <= 0x7F,
                b == (v & 0x7F) as u8,
        ;
        assert(q.drop_last() =~= p);
    } else {
        let l1 = vstd::utf8::last_continuation_byte(v);
        assert(128 <= l1 && l1 < 192) by (bit_vector)
            requires
                l1 == 0x80 | (v & 0x3F) as u8,
        ;
        let q1 = q.drop_last();
        if vstd::utf8::has_width_2_encoding(v) {
            let b = vstd::utf8::leading_byte_width_2(v);
            assert(b >= 192) by (bit_vector)
                requires
                    b == 0xC0 | ((v >> 6) & 0x1F) as u8,
            ;
            assert(q1 =~= p.push(b));
            assert(q1.drop_last() =~= p);
            assert(drop_last_char(q1) == p);
        } else {
            let l2 = vstd::utf8::second_last_continuation_byte(v);
            assert(128 <= l2 && l2 < 192) by (bit_vector)
                requires
                    l2 == 0x80 | ((v >> 6) & 0x3F) as u8,
            ;
            let q2 = q1.drop_last();
            if vstd::utf8::has_width_3_encoding(v) {
                let b = vstd::utf8::leading_byte_width_3(v);
                assert(b >= 192) by (bit_vector)
                    requires
                        b == 0xE0 | ((v >> 12) & 0x0F) as u8,
                ;
                assert(q1 =~= p.push(b).push(l2));
                assert(q2 =~= p.push(b));
                assert(q2.drop_last() =~= p);
                assert(drop_last_char(q2) == p);
                assert(drop_last_char(q1) == p);
            } else {
                let l3 = vstd::utf8::third_last_continuation_byte(v);
                assert(128 <= l3 && l3 < 192) by (bit_vector)
                    requires
                        l3 == 0x80 | ((v >> 12) & 0x3F) as u8,
                ;
                let b = vstd::utf8::leading_byte_width_4(v);
                assert(b >= 192) by (bit_vector)
                    requires
                        b == 0xF0 | ((v >> 18) & 0x7) as u8,
                ;
                let q3 = q2.drop_last();
                assert(q1 =~= p.push(b).push(l3).push(l2));
                assert(q2 =~= p.push(b).push(l3));
                assert(q3 =~= p.push(b));
                assert(q3.drop_last() =~= p);
                assert(drop_last_char(q3) == p);
                assert(drop_last_char(q2) == p);
                assert(drop_last_char(q1) == p);
            }
        }
    }
}

/// Erasing at a passphrase prompt removes the last typed character whole,
/// however many bytes it took: what remains is the encoding of the text
/// without it, never a broken UTF-8 sequence.
pub proof fn law_pop_char_removes_one_character(typed: Seq<char>)
    ensures
        typed.len() > 0 ==> drop_last_char(encode_utf8(typed)) == encode_utf8(typed.drop_last()),
        typed.len() == 0 ==> drop_last_char(encode_utf8(typed)) == Seq::<u8>::empty(),
{
    if typed.len() > 0 {
        let init = typed.drop_last();
        assert(init.push(typed.last()) =~= typed);
        lemma_encode_utf8_push(init, typed.last());
        lemma_drop_last_scalar(encode_utf8(init), typed.last());
    } else {
        assert(encode_utf8(typed) =~= Seq::<u8>::empty());
    }
}

#[derive(Debug)]
pub struct Secret {
    buf: WipedBytes,
    len: usize,
    /// Whether the buffer could be locked into RAM. Locking needs an `unsafe`
    /// system call, so this buffer is never locked.
    locked: bool,
}

impl View for Secret {
    type V = Seq<u8>;

    closed spec fn view(&self) -> Seq<u8> {
        held(self.buf).take(self.len as int)
    }
}

impl Secret {
    #[verifier::type_invariant]
    closed spec fn inv(self) -> bool {
        self.len <= held(self.buf).len()
    }

    /// Every byte of the buffer, the passphrase and what lies past it.
    pub closed spec fn spec_buffer(&self) -> Seq<u8> {
        held(self.buf)
    }

    /// The fixed number of bytes the buffer can hold.
    pub closed spec fn spec_capacity(&self) -> nat {
        held(self.buf).len()
    }

    pub closed spec fn spec_locked(&self) -> bool {
        self.locked
    }

    pub fn new() -> (r: Self)
        ensures
            r@ == Seq::<u8>::empty(),
            r.spec_capacity() == DEFAULT_CAPACITY,
            !r.spec_locked(),
    {
        Self::with_capacity(DEFAULT_CAPACITY)
    }

    pub fn with_capacity(capacity: usize) -> (r: Self)
        ensures
            r@ == Seq::<u8>::empty(),
            r.spec_capacity() == capacity,
            !r.spec_locked(),
    {
        // Allocated up front at full size, so the buffer never moves.
        let buf = zeroizing_new(vec![0u8; capacity]);
        let r = Self { buf, len: 0, locked: false };
        proof {
            assert(r@ =~= Seq::<u8>::empty());
        }
        r
    }

    pub fn is_locked(&self) -> (r: bool)
        ensures
            r == self.spec_locked(),
    {
        self.locked
    }

    pub fn capacity(&self) -> (r: usize)
        ensures
            r == self.spec_capacity(),
    {
        proof {
            use_type_invariant(self);
        }
        self.capacity_exec()
    }

    fn capacity_exec(&self) -> (r: usize)
        ensures
            r == held(self.buf).len(),
    {
        zeroizing_len(&self.buf)
    }

    pub fn len(&self) -> (r: usize)
        ensures
            r == self@.len(),
    {
        proof {
            use_type_invariant(self);
        }
        self.len
    }

    pub fn is_empty(&self) -> (r: bool)
        ensures
            r == (self@.len() == 0),
    {
        self.len() == 0
    }

    pub fn as_bytes(&self) -> (r: &[u8])
        ensures
            r@ == self@,
    {
        proof {
            use_type_invariant(self);
        }
        zeroizing_prefix(&self.buf, self.len)
    }

    pub fn push_str(&mut self, s: &str) -> (r: Result<(), SecretError>)
        ensures
            final(self).spec_capacity() == old(self).spec_capacity(),
            final(self).spec_locked() == old(self).spec_locked(),
            r is Ok <==> old(self)@.len() + vstd::utf8::encode_utf8(s@).len()
                <= old(self).spec_capacity(),
            r is Ok ==> final(self)@ == old(self)@ + vstd::utf8::encode_utf8(s@),
            r is Err ==> final(self)@ == old(self)@,
    {
        self.push_bytes(s.as_bytes())
    }

    /// Refuses, leaving the contents as they were, when the bytes would not
    /// fit.
    pub fn push_bytes(&mut self, bytes: &[u8]) -> (r: Result<(), SecretError>)
        ensures
            final(self).spec_capacity() == old(self).spec_capacity(),
            final(self).spec_locked() == old(self).spec_locked(),
            r is Ok <==> old(self)@.len() + bytes@.len() <= old(self).spec_capacity(),
            r is Ok ==> final(self)@ == old(self)@ + bytes@,
            r is Err ==> final(self)@ == old(self)@,
    {
        proof {
            use_type_invariant(&*self);
        }
        let cap = self.capacity_exec();
        if bytes.len() > cap - self.len {
            return Err(SecretError::Full);
        }
        let ghost start = self@;
        let mut i: usize = 0;
        while i < bytes.len()
            invariant
                self.len + bytes@.len() <= held(self.buf).len(),
                held(self.buf).len() == cap,
                held(self.buf).len() == old(self).spec_capacity(),
                self.len == old(self).len,
                self.locked == old(self).locked,
                start == old(self)@,
                start == held(self.buf).take(self.len as int),
                i <= bytes@.len(),
                held(self.buf).subrange(self.len as int, self.len + i) == bytes@.take(i as int),
            decreases bytes@.len() - i,
        {
            let ghost before = held(self.buf);
            zeroizing_set(&mut self.buf, self.len + i, bytes[i]);
            proof {
                assert(held(self.buf).take(self.len as int) =~= before.take(self.len as int));
                assert(held(self.buf).subrange(self.len as int, self.len + i + 1) =~= bytes@.take(
                    i + 1,
                ));
            }
            i = i + 1;
        }
        self.len = self.len + bytes.len();
        proof {
            assert(self@ =~= start + bytes@) by {
                assert(bytes@.take(bytes@.len() as int) =~= bytes@);
            }
        }
        Ok(())
    }

    /// Removes a whole UTF-8 character, not a byte.
    pub fn pop_char(&mut self)
        ensures
            final(self).spec_capacity() == old(self).spec_capacity(),
            final(self).spec_locked() == old(self).spec_locked(),
            final(self)@ == drop_last_char(old(self)@),
    {
        proof {
            use_type_invariant(&*self);
        }
        let ghost start = self@;
        loop
            invariant
                self.len <= held(self.buf).len(),
                held(self.buf) == held(old(self).buf),
                self.locked == old(self).locked,
                drop_last_char(start) == drop_last_char(self@),
                start == old(self)@,
                self@ == held(self.buf).take(self.len as int),
            decreases self.len,
        {
            if self.len == 0 {
                proof {
                    assert(self@ =~= Seq::<u8>::empty());
                }
                return ;
            }
            let b = zeroizing_prefix(&self.buf, self.len)[self.len - 1];
            let ghost before = self@;
            proof {
                assert(before.last() == b);
                assert(before.drop_last() =~= held(self.buf).take(self.len - 1));
            }
            self.len = self.len - 1;
            proof {
                assert(self@ == before.drop_last());
                assert(drop_last_char(before) == if is_continuation(b) {
                    drop_last_char(self@)
                } else {
                    self@
                });
            }
            if !(128 <= b && b < 192) {
                return ;
            }
        }
    }

    /// Wipes the whole buffer and empties the passphrase.
    pub fn clear(&mut self)
        ensures
            final(self).spec_buffer() == Seq::new(old(self).spec_capacity(), |i: int| 0u8),
            final(self).spec_capacity() == old(self).spec_capacity(),
            final(self).spec_locked() == old(self).spec_locked(),
            final(self)@ == Seq::<u8>::empty(),
    {
        self.len = 0;
        zeroizing_wipe(&mut self.buf);
        proof {
            assert(self@ =~= Seq::<u8>::empty());
        }
    }
}

impl Default for Secret {
    fn default() -> (r: Self)
        ensures
            r@ == Seq::<u8>::empty(),
            r.spec_capacity() == DEFAULT_CAPACITY,
    {
        Self::new()
    }
}

} // verus!
