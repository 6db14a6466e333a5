//! The UUID as it travels on the chat wire protocol: sixteen bytes,
//! most significant first.

use vstd::prelude::*;
use vstd::arithmetic::power::pow;
use crate::text::push_char;

verus! {

/// The numeric value of a byte string read most significant byte first.
pub open spec fn be_value(bytes: Seq<u8>) -> nat
    decreases bytes.len(),
{
    if bytes.len() == 0 {
        0
    } else {
        be_value(bytes.drop_last()) * 256 + bytes.last() as nat
    }
}

/// The lower-case hexadecimal digit of `n`, for `n` from 0 to 15.
pub open spec fn hex_digit(n: int) -> char {
    seq!['0', '1', '2', '3', '4', '5', '6', '7', '8', '9', 'a', 'b', 'c', 'd', 'e', 'f'][n]
}

/// The `j`-th of the 32 hexadecimal digits of `id`, most significant first.
pub open spec fn nibble(id: u128, j: int) -> int {
    (id as int / pow(16, (31 - j) as nat)) % 16
}

/// The 32 hexadecimal digits of `id`, most significant first.
pub open spec fn hex_digits(id: u128) -> Seq<char> {
    Seq::new(32, |j: int| hex_digit(nibble(id, j)))
}

/// The text of a UUID: its 32 lower-case hexadecimal digits in groups of
/// 8, 4, 4, 4 and 12, joined by hyphens.
pub open spec fn uuid_text(id: u128) -> Seq<char> {
    let h = hex_digits(id);
    h.subrange(0, 8) + seq!['-'] + h.subrange(8, 12) + seq!['-'] + h.subrange(12, 16) + seq!['-']
        + h.subrange(16, 20) + seq!['-'] + h.subrange(20, 32)
}

fn hex_char(n: u8) -> (c: char)
    requires
        n < 16,
    ensures
        c == hex_digit(n as int),
{
    let table: [char; 16] = ['0', '1', '2', '3', '4', '5', '6', '7', '8', '9', 'a', 'b', 'c', 'd', 'e', 'f'];
    assert(table@ =~= seq!['0', '1', '2', '3', '4', '5', '6', '7', '8', '9', 'a', 'b', 'c', 'd', 'e', 'f']);
    table[n as usize]
}

fn push_digits(s: &mut String, digits: &[char; 32], from: usize, to: usize)
    requires
        from <= to <= 32,
    ensures
        final(s)@ == old(s)@ + digits@.subrange(from as int, to as int),
{
    let mut i: usize = from;
    while i < to
        invariant
            from <= i <= to <= 32,
            s@ == old(s)@ + digits@.subrange(from as int, i as int),
        decreases to - i,
    {
        push_char(s, digits[i]);
        assert(digits@.subrange(from as int, i + 1) =~= digits@.subrange(from as int, i as int).push(
            digits@[i as int],
        ));
        i = i + 1;
    }
}

/// The text of the UUID `id`, as UUIDs are written: hyphenated lower-case
/// hexadecimal.
pub fn uuid_to_string(id: u128) -> (r: String)
    ensures
        r@ == uuid_text(id),
{
    let mut digits: [char; 32] = ['0'; 32];
    let mut rem: u128 = id;
    let mut k: usize = 0;
    proof {
        vstd::arithmetic::power::lemma_pow0(16);
        assert(id as int / 1 == id as int);
    }
    while k < 32
        invariant
            k <= 32,
            digits@.len() == 32,
            rem as int == id as int / pow(16, k as nat),
            forall|j: int| 32 - k <= j < 32 ==> #[trigger] digits@[j] == hex_digit(nibble(id, j)),
        decreases 32 - k,
    {
        let j: usize = 31 - k;
        let c = hex_char((rem % 16) as u8);
        digits[j] = c;
        proof {
            vstd::arithmetic::power::lemma_pow_positive(16, k as nat);
            vstd::arithmetic::power::lemma_pow_adds(16, k as nat, 1);
            vstd::arithmetic::power::lemma_pow1(16);
            vstd::arithmetic::div_mod::lemma_div_denominator(id as int, pow(16, k as nat), 16);
            assert((31 - j) as nat == k as nat);
            assert(nibble(id, j as int) == rem as int % 16);
        }
        rem = rem / 16;
        k = k + 1;
    }
    proof {
        assert(digits@ =~= hex_digits(id));
    }
    let mut s = String::new();
    push_digits(&mut s, &digits, 0, 8);
    push_char(&mut s, '-');
    push_digits(&mut s, &digits, 8, 12);
    push_char(&mut s, '-');
    push_digits(&mut s, &digits, 12, 16);
    push_char(&mut s, '-');
    push_digits(&mut s, &digits, 16, 20);
    push_char(&mut s, '-');
    push_digits(&mut s, &digits, 20, 32);
    proof {
        assert(s@ =~= uuid_text(id));
    }
    s
}

/// A UUID, held as its 128-bit value.
#[derive(PartialEq, Eq, Structural, Clone, Copy, Debug)]
pub struct SerializableUuid(pub u128);

impl core::ops::Not for SerializableUuid {
    type Output = u128;

    /// The UUID itself.
    fn not(self) -> (r: u128)
        ensures
            r == self.0,
    {
        self.0
    }
}

impl vstd::std_specs::ops::NotSpecImpl for SerializableUuid {
    open spec fn obeys_not_spec() -> bool {
        true
    }

    open spec fn not_req(self) -> bool {
        true
    }

    open spec fn not_spec(self) -> u128 {
        self.0
    }
}

impl SerializableUuid {
    /// Reads a UUID from the sixteen bytes that carry it on the wire.
    pub fn from_bytes(bytes: [u8; 16]) -> (r: Self)
        ensures
            r.0 == be_value(bytes@),
    {
        let mut v: u128 = 0;
        let mut i: usize = 0;
        proof {
            vstd::arithmetic::power::lemma_pow0(256);
        }
        while i < 16
            invariant
                0 <= i <= 16,
                v == be_value(bytes@.take(i as int)),
                v < pow(256, i as nat),
            decreases 16 - i,
        {
            proof {
                lemma_be_value_take_step(bytes@, i as int);
                vstd::arithmetic::power::lemma_pow_adds(256, i as nat, 1);
                vstd::arithmetic::power::lemma_pow1(256);
                lemma_pow256_16();
                vstd::arithmetic::power::lemma_pow_increases(256, (i + 1) as nat, 16);
                assert(v * 256 + bytes@[i as int] < pow(256, (i + 1) as nat)) by (nonlinear_arith)
                    requires
                        v < pow(256, i as nat),
                        bytes@[i as int] < 256,
                        pow(256, (i + 1) as nat) == pow(256, i as nat) * 256,
                ;
            }
            v = v * 256 + bytes[i] as u128;
            i = i + 1;
        }
        assert(bytes@.take(16) =~= bytes@);
        SerializableUuid(v)
    }

    /// The sixteen bytes that carry this UUID on the wire.
    pub fn to_bytes(&self) -> (r: [u8; 16])
        ensures
            be_value(r@) == self.0,
    {
        let mut bytes: [u8; 16] = [0u8; 16];
        let mut rem: u128 = self.0;
        let mut k: usize = 0;
        proof {
            vstd::arithmetic::power::lemma_pow0(256);
            lemma_pow256_16();
            assert(bytes@.subrange(16, 16) =~= Seq::<u8>::empty());
        }
        while k < 16
            invariant
                0 <= k <= 16,
                bytes@.len() == 16,
                self.0 == rem * pow(256, k as nat) + be_value(bytes@.subrange(16 - k, 16)),
                rem < pow(256, (16 - k) as nat),
            decreases 16 - k,
        {
            let j: usize = 15 - k;
            let byte: u8 = (rem % 256) as u8;
            let ghost old_bytes = bytes@;
            let ghost old_rem = rem;
            bytes[j] = byte;
            rem = rem / 256;
            proof {
                assert(bytes@.subrange(j + 1, 16) =~= old_bytes.subrange(j + 1, 16));
                assert(bytes@.subrange(j as int, 16) =~= seq![byte].add(bytes@.subrange(j + 1, 16)));
                lemma_be_value_prepend(byte, bytes@.subrange(j + 1, 16));
                vstd::arithmetic::power::lemma_pow_adds(256, k as nat, 1);
                vstd::arithmetic::power::lemma_pow1(256);
                vstd::arithmetic::power::lemma_pow_adds(256, (15 - k) as nat, 1);
                let p = pow(256, k as nat);
                let b = be_value(old_bytes.subrange(16 - k, 16));
                assert(old_rem == rem * 256 + byte) by {
                    vstd::arithmetic::div_mod::lemma_fundamental_div_mod(old_rem as int, 256);
                }
                assert(old_rem * p + b == rem * (p * 256) + (byte * p + b)) by (nonlinear_arith)
                    requires
                        old_rem == rem * 256 + byte,
                ;
                assert(rem < pow(256, (15 - k) as nat)) by (nonlinear_arith)
                    requires
                        old_rem < pow(256, (15 - k) as nat) * 256,
                        old_rem == rem * 256 + byte,
                        0 <= byte,
                ;
            }
            k = k + 1;
        }
        assert(bytes@.subrange(0, 16) =~= bytes@);
        bytes
    }
}

/// Sixteen bytes that read back as the same UUID are the same bytes: the
/// encoding of a UUID on the wire is unique, so what is written is what
/// is read.
pub proof fn lemma_wire_uuid_unique(a: Seq<u8>, b: Seq<u8>)
    requires
        a.len() == b.len(),
        be_value(a) == be_value(b),
    ensures
        a == b,
    decreases a.len(),
{
    if a.len() > 0 {
        vstd::arithmetic::div_mod::lemma_fundamental_div_mod_converse(
            be_value(a) as int,
            256,
            be_value(a.drop_last()) as int,
            a.last() as int,
        );
        vstd::arithmetic::div_mod::lemma_fundamental_div_mod_converse(
            be_value(b) as int,
            256,
            be_value(b.drop_last()) as int,
            b.last() as int,
        );
        lemma_wire_uuid_unique(a.drop_last(), b.drop_last());
        assert(a =~= a.drop_last().push(a.last()));
        assert(b =~= b.drop_last().push(b.last()));
    } else {
        assert(a =~= b);
    }
}

/// Every sixteen bytes read as a value that fits in 128 bits.
pub proof fn lemma_wire_uuid_fits(a: Seq<u8>)
    requires
        a.len() == 16,
    ensures
        be_value(a) <= u128::MAX,
{
    lemma_be_value_bound(a);
    lemma_pow256_16();
}

proof fn lemma_be_value_bound(a: Seq<u8>)
    ensures
        be_value(a) < pow(256, a.len()),
    decreases a.len(),
{
    if a.len() == 0 {
        vstd::arithmetic::power::lemma_pow0(256);
    } else {
        lemma_be_value_bound(a.drop_last());
        vstd::arithmetic::power::lemma_pow_adds(256, (a.len() - 1) as nat, 1);
        vstd::arithmetic::power::lemma_pow1(256);
        let v = be_value(a.drop_last());
        let p = pow(256, (a.len() - 1) as nat);
        assert(v * 256 + a.last() < p * 256) by (nonlinear_arith)
            requires
                v < p,
                a.last() < 256,
        ;
    }
}

proof fn lemma_be_value_prepend(x: u8, t: Seq<u8>)
    ensures
        be_value(seq![x].add(t)) == x * pow(256, t.len()) + be_value(t),
    decreases t.len(),
{
    if t.len() == 0 {
        vstd::arithmetic::power::lemma_pow0(256);
        assert(seq![x].add(t).drop_last() =~= Seq::<u8>::empty());
        assert(be_value(Seq::<u8>::empty()) == 0);
        assert(be_value(seq![x].add(t)) == x);
    } else {
        let s = seq![x].add(t);
        assert(s.drop_last() =~= seq![x].add(t.drop_last()));
        lemma_be_value_prepend(x, t.drop_last());
        vstd::arithmetic::power::lemma_pow_adds(256, (t.len() - 1) as nat, 1);
        vstd::arithmetic::power::lemma_pow1(256);
        let p = pow(256, (t.len() - 1) as nat);
        let v = be_value(t.drop_last());
        assert(s.last() == t.last());
        assert(be_value(s) == be_value(s.drop_last()) * 256 + s.last());
        assert(be_value(t) == v * 256 + t.last());
        assert((x * p + v) * 256 + t.last() == x * (p * 256) + (v * 256 + t.last()))
            by (nonlinear_arith);
    }
}

proof fn lemma_pow256_16()
    ensures
        pow(256, 16) == 0x1_0000_0000_0000_0000_0000_0000_0000_0000,
{
    vstd::arithmetic::power::lemma_pow1(256);
    vstd::arithmetic::power::lemma_pow_adds(256, 1, 1);
    assert(pow(256, 2) == 0x1_0000);
    vstd::arithmetic::power::lemma_pow_adds(256, 2, 2);
    assert(pow(256, 4) == 0x1_0000_0000);
    vstd::arithmetic::power::lemma_pow_adds(256, 4, 4);
    assert(pow(256, 8) == 0x1_0000_0000_0000_0000);
    vstd::arithmetic::power::lemma_pow_adds(256, 8, 8);
}

proof fn lemma_be_value_take_step(s: Seq<u8>, i: int)
    requires
        0 <= i < s.len(),
    ensures
        be_value(s.take(i + 1)) == be_value(s.take(i)) * 256 + s[i] as nat,
{
    assert(s.take(i + 1).drop_last() =~= s.take(i));
}

} // verus!
