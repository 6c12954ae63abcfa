//! Byte orders, and unsigned integers read from and written to bytes.
//!
//! The model of a stored integer is [`uint_value`]: the number that a
//! sequence of bytes spells in a given byte order. [`uint_bytes`] is its
//! inverse for a fixed width. Everything that reads or writes a multi-byte
//! field is stated over these two.

use vstd::prelude::*;

verus! {

/// The order in which the bytes of a multi-byte integer are stored.
#[derive(Debug, Clone, Copy, PartialEq, Eq, Structural)]
pub enum Endianness {
    /// Least significant byte first.
    Little,
    /// Most significant byte first.
    Big,
}

/// 256 to the power `k`: the number of values that `k` bytes can spell.
pub open spec fn pow256(k: nat) -> nat
    decreases k,
{
    if k == 0 {
        1
    } else {
        256 * pow256((k - 1) as nat)
    }
}

/// The number that `s` spells when its first byte is the least significant.
pub open spec fn le_value(s: Seq<u8>) -> nat
    decreases s.len(),
{
    if s.len() == 0 {
        0
    } else {
        s[0] as nat + 256 * le_value(s.subrange(1, s.len() as int))
    }
}

/// The `width` least significant bytes of `v`, least significant first.
pub open spec fn le_bytes(v: nat, width: nat) -> Seq<u8>
    decreases width,
{
    if width == 0 {
        Seq::empty()
    } else {
        seq![(v % 256) as u8] + le_bytes(v / 256, (width - 1) as nat)
    }
}

/// The bytes of `s` from the least significant to the most significant,
/// where `s` is stored in the order `order`.
pub open spec fn ascending(s: Seq<u8>, order: Endianness) -> Seq<u8> {
    match order {
        Endianness::Little => s,
        Endianness::Big => s.reverse(),
    }
}

/// The number that the bytes `s` spell in the order `order`.
pub open spec fn uint_value(s: Seq<u8>, order: Endianness) -> nat {
    le_value(ascending(s, order))
}

/// The `width` least significant bytes of `v`, stored in the order `order`.
pub open spec fn uint_bytes(v: nat, width: nat, order: Endianness) -> Seq<u8> {
    ascending(le_bytes(v, width), order)
}

/// The 16-bit field that stands at offset `at` of `bytes`.
pub open spec fn u16_at(bytes: Seq<u8>, at: int, order: Endianness) -> u16 {
    uint_value(bytes.subrange(at, at + 2), order) as u16
}

/// The 32-bit field that stands at offset `at` of `bytes`.
pub open spec fn u32_at(bytes: Seq<u8>, at: int, order: Endianness) -> u32 {
    uint_value(bytes.subrange(at, at + 4), order) as u32
}

/// The 64-bit field that stands at offset `at` of `bytes`.
pub open spec fn u64_at(bytes: Seq<u8>, at: int, order: Endianness) -> u64 {
    uint_value(bytes.subrange(at, at + 8), order) as u64
}

/// More bytes never spell fewer values.
pub proof fn lemma_pow256_increases(a: nat, b: nat)
    requires
        a <= b,
    ensures
        pow256(a) <= pow256(b),
        pow256(a) >= 1,
    decreases b,
{
    if a < b {
        lemma_pow256_increases(a, (b - 1) as nat);
    } else if a > 0 {
        lemma_pow256_increases((a - 1) as nat, (a - 1) as nat);
    }
}

/// The values that one, two, four and eight bytes can spell are those of
/// `u8`, `u16`, `u32` and `u64`.
pub proof fn lemma_pow256_widths()
    ensures
        pow256(0) == 1,
        pow256(1) == 0x100,
        pow256(2) == 0x1_0000,
        pow256(4) == 0x1_0000_0000,
        pow256(8) == 0x1_0000_0000_0000_0000,
{
    reveal_with_fuel(pow256, 9);
}

/// `k` bytes spell a number below 256 to the power `k`.
pub proof fn lemma_le_value_bound(s: Seq<u8>)
    ensures
        le_value(s) < pow256(s.len()),
    decreases s.len(),
{
    if s.len() > 0 {
        lemma_le_value_bound(s.subrange(1, s.len() as int));
    }
}

/// A number is spelled with as many bytes as were asked for.
pub proof fn lemma_le_bytes_len(v: nat, width: nat)
    ensures
        le_bytes(v, width).len() == width,
    decreases width,
{
    if width > 0 {
        lemma_le_bytes_len(v / 256, (width - 1) as nat);
    }
}

/// Writing the number that `s` spells, with the width of `s`, gives `s` back.
pub proof fn lemma_le_bytes_of_value(s: Seq<u8>)
    ensures
        le_bytes(le_value(s), s.len()) == s,
    decreases s.len(),
{
    if s.len() > 0 {
        let rest = s.subrange(1, s.len() as int);
        lemma_le_bytes_of_value(rest);
        let v = le_value(s);
        assert(v % 256 == s[0] as nat && v / 256 == le_value(rest));
        assert(le_bytes(v, s.len()) =~= s);
    } else {
        assert(le_bytes(le_value(s), s.len()) =~= s);
    }
}

/// Reading what was written gives the number back, as far as it fits the width.
pub proof fn lemma_le_value_of_bytes(v: nat, width: nat)
    requires
        v < pow256(width),
    ensures
        le_value(le_bytes(v, width)) == v,
    decreases width,
{
    if width > 0 {
        let s = le_bytes(v, width);
        let tail = le_bytes(v / 256, (width - 1) as nat);
        lemma_le_bytes_len(v / 256, (width - 1) as nat);
        assert(s.subrange(1, s.len() as int) =~= tail);
        lemma_le_value_of_bytes(v / 256, (width - 1) as nat);
    }
}

/// In either byte order, `k` bytes spell a number below 256 to the power `k`.
pub proof fn lemma_uint_value_bound(s: Seq<u8>, order: Endianness)
    ensures
        uint_value(s, order) < pow256(s.len()),
{
    lemma_le_value_bound(ascending(s, order));
}

/// In either byte order, a number is spelled with as many bytes as were
/// asked for.
pub proof fn lemma_uint_bytes_len(v: nat, width: nat, order: Endianness)
    ensures
        uint_bytes(v, width, order).len() == width,
{
    lemma_le_bytes_len(v, width);
}

/// In either byte order, writing the number that `s` spells, with the width
/// of `s`, gives `s` back.
pub proof fn lemma_uint_bytes_of_value(s: Seq<u8>, order: Endianness)
    ensures
        uint_bytes(uint_value(s, order), s.len(), order) == s,
{
    lemma_le_bytes_of_value(ascending(s, order));
    assert(s.reverse().reverse() =~= s);
}

/// In either byte order, reading what was written gives the number back, as
/// far as it fits the width.
pub proof fn lemma_uint_value_of_bytes(v: nat, width: nat, order: Endianness)
    requires
        v < pow256(width),
    ensures
        uint_value(uint_bytes(v, width, order), order) == v,
{
    lemma_le_value_of_bytes(v, width);
    let s = le_bytes(v, width);
    assert(s.reverse().reverse() =~= s);
}

/// Writing the 16-bit field at offset `at` gives the two bytes that stand
/// there.
pub proof fn lemma_u16_field_bytes(bytes: Seq<u8>, at: int, order: Endianness)
    requires
        0 <= at,
        at + 2 <= bytes.len(),
    ensures
        uint_bytes(u16_at(bytes, at, order) as nat, 2, order) == bytes.subrange(at, at + 2),
{
    let field = bytes.subrange(at, at + 2);
    lemma_uint_value_bound(field, order);
    lemma_pow256_widths();
    lemma_uint_bytes_of_value(field, order);
}

/// Writing the 32-bit field at offset `at` gives the four bytes that stand
/// there.
pub proof fn lemma_u32_field_bytes(bytes: Seq<u8>, at: int, order: Endianness)
    requires
        0 <= at,
        at + 4 <= bytes.len(),
    ensures
        uint_bytes(u32_at(bytes, at, order) as nat, 4, order) == bytes.subrange(at, at + 4),
{
    let field = bytes.subrange(at, at + 4);
    lemma_uint_value_bound(field, order);
    lemma_pow256_widths();
    lemma_uint_bytes_of_value(field, order);
}

/// Writing the 64-bit field at offset `at` gives the eight bytes that stand
/// there.
pub proof fn lemma_u64_field_bytes(bytes: Seq<u8>, at: int, order: Endianness)
    requires
        0 <= at,
        at + 8 <= bytes.len(),
    ensures
        uint_bytes(u64_at(bytes, at, order) as nat, 8, order) == bytes.subrange(at, at + 8),
{
    let field = bytes.subrange(at, at + 8);
    lemma_uint_value_bound(field, order);
    lemma_pow256_widths();
    lemma_uint_bytes_of_value(field, order);
}

impl Endianness {
    /// The value of the `data` byte of an identification block that
    /// announces this byte order.
    pub open spec fn spec_code(self) -> u8 {
        match self {
            Endianness::Little => 1,
            Endianness::Big => 2,
        }
    }

    /// The value of the `data` byte of an identification block that
    /// announces this byte order: 1 for little endian, 2 for big endian.
    #[verifier::when_used_as_spec(spec_code)]
    pub fn code(self) -> (c: u8)
        ensures
            c == self.spec_code(),
    {
        match self {
            Endianness::Little => 1,
            Endianness::Big => 2,
        }
    }

    /// The byte order that a `data` byte announces, if it announces one.
    pub fn from_code(code: u8) -> (r: Option<Endianness>)
        ensures
            code == 1 ==> r == Some(Endianness::Little),
            code == 2 ==> r == Some(Endianness::Big),
            code != 1 && code != 2 ==> r is None,
    {
        if code == 1 {
            Some(Endianness::Little)
        } else if code == 2 {
            Some(Endianness::Big)
        } else {
            None
        }
    }
}

/// Reads the `width` bytes at offset `at` of `bytes` as one unsigned integer
/// stored in the order `order`.
pub fn read_uint(bytes: &[u8], at: usize, width: usize, order: Endianness) -> (r: u64)
    requires
        width <= 8,
        at + width <= bytes.len(),
    ensures
        r == uint_value(bytes@.subrange(at as int, at + width), order),
{
    let ghost field = bytes@.subrange(at as int, at + width);
    let ghost s = ascending(field, order);
    let mut acc: u64 = 0;
    let mut k: usize = width;
    while k > 0
        invariant
            k <= width <= 8,
            at + width <= bytes.len(),
            field == bytes@.subrange(at as int, at + width),
            s == ascending(field, order),
            s.len() == width,
            acc == le_value(s.subrange(k as int, width as int)),
            acc < pow256((width - k) as nat),
        decreases k,
    {
        k = k - 1;
        let b = match order {
            Endianness::Little => bytes[at + k],
            Endianness::Big => bytes[at + (width - 1 - k)],
        };
        proof {
            assert(b == s[k as int]);
            let upper = s.subrange(k as int, width as int);
            assert(upper.subrange(1, upper.len() as int) =~= s.subrange(k + 1, width as int));
            lemma_pow256_increases((width - k) as nat, 8);
            lemma_pow256_widths();
        }
        acc = acc * 256 + b as u64;
    }
    proof {
        assert(s.subrange(0, width as int) =~= s);
    }
    acc
}

/// Reads the 16-bit field at offset `at` of `bytes`.
pub fn read_u16(bytes: &[u8], at: usize, order: Endianness) -> (r: u16)
    requires
        at + 2 <= bytes.len(),
    ensures
        r == u16_at(bytes@, at as int, order),
{
    let v = read_uint(bytes, at, 2, order);
    proof {
        lemma_uint_value_bound(bytes@.subrange(at as int, at + 2), order);
        lemma_pow256_widths();
    }
    v as u16
}

/// Reads the 32-bit field at offset `at` of `bytes`.
pub fn read_u32(bytes: &[u8], at: usize, order: Endianness) -> (r: u32)
    requires
        at + 4 <= bytes.len(),
    ensures
        r == u32_at(bytes@, at as int, order),
{
    let v = read_uint(bytes, at, 4, order);
    proof {
        lemma_uint_value_bound(bytes@.subrange(at as int, at + 4), order);
        lemma_pow256_widths();
    }
    v as u32
}

/// Reads the 64-bit field at offset `at` of `bytes`.
pub fn read_u64(bytes: &[u8], at: usize, order: Endianness) -> (r: u64)
    requires
        at + 8 <= bytes.len(),
    ensures
        r == u64_at(bytes@, at as int, order),
{
    read_uint(bytes, at, 8, order)
}

/// Appends to `out` the `width` least significant bytes of `v`, stored in the
/// order `order`.
pub fn push_uint(out: &mut Vec<u8>, v: u64, width: usize, order: Endianness)
    requires
        width <= 8,
    ensures
        final(out)@ == old(out)@ + uint_bytes(v as nat, width as nat, order),
{
    let ghost before = out@;
    let ghost all = le_bytes(v as nat, width as nat);
    let mut low_first: Vec<u8> = Vec::new();
    let mut rest: u64 = v;
    let mut k: usize = 0;
    while k < width
        invariant
            k <= width,
            low_first@.len() == k,
            all == le_bytes(v as nat, width as nat),
            low_first@ + le_bytes(rest as nat, (width - k) as nat) == all,
        decreases width - k,
    {
        let ghost done = low_first@;
        let ghost tail = le_bytes((rest / 256) as nat, (width - k - 1) as nat);
        low_first.push((rest % 256) as u8);
        proof {
            assert(low_first@ + tail =~= done + (seq![(rest % 256) as u8] + tail));
        }
        rest = rest / 256;
        k = k + 1;
    }
    proof {
        assert(low_first@ + Seq::<u8>::empty() =~= low_first@);
    }
    let ghost stored = ascending(all, order);
    let mut j: usize = 0;
    while j < width
        invariant
            j <= width <= 8,
            low_first@ == all,
            all.len() == width,
            stored == ascending(all, order),
            out@ == before + stored.subrange(0, j as int),
        decreases width - j,
    {
        let b = match order {
            Endianness::Little => low_first[j],
            Endianness::Big => low_first[width - 1 - j],
        };
        out.push(b);
        proof {
            assert(b == stored[j as int]);
            assert(out@ =~= before + stored.subrange(0, j + 1));
        }
        j = j + 1;
    }
    proof {
        assert(stored.subrange(0, width as int) =~= stored);
    }
}

/// Appends the two bytes of `v`, stored in the order `order`.
pub fn push_u16(out: &mut Vec<u8>, v: u16, order: Endianness)
    ensures
        final(out)@ == old(out)@ + uint_bytes(v as nat, 2, order),
{
    push_uint(out, v as u64, 2, order);
}

/// Appends the four bytes of `v`, stored in the order `order`.
pub fn push_u32(out: &mut Vec<u8>, v: u32, order: Endianness)
    ensures
        final(out)@ == old(out)@ + uint_bytes(v as nat, 4, order),
{
    push_uint(out, v as u64, 4, order);
}

/// Appends the eight bytes of `v`, stored in the order `order`.
pub fn push_u64(out: &mut Vec<u8>, v: u64, order: Endianness)
    ensures
        final(out)@ == old(out)@ + uint_bytes(v as nat, 8, order),
{
    push_uint(out, v, 8, order);
}

/// The `u16` that `u16::from_ne_bytes` of the standard library makes of the
/// two bytes, which it reads in the byte order of the machine that runs the
/// call. Nothing here is proved of it: the contract takes from the
/// documentation of the standard library that the bytes are read either
/// least significant first or most significant first.
#[verifier::external_body]
fn u16_from_native_bytes(b0: u8, b1: u8) -> (r: u16)
    ensures
        r == uint_value(seq![b0, b1], Endianness::Little) || r == uint_value(
            seq![b0, b1],
            Endianness::Big,
        ),
{
    u16::from_ne_bytes([b0, b1])
}

/// The numbers that the probe bytes 1, 0 spell in the two byte orders.
pub proof fn lemma_probe_values()
    ensures
        uint_value(seq![1u8, 0u8], Endianness::Little) == 1,
        uint_value(seq![1u8, 0u8], Endianness::Big) == 256,
{
    reveal_with_fuel(le_value, 3);
    let s = seq![1u8, 0u8];
    let r = s.reverse();
    assert(r =~= seq![0u8, 1u8]);
    assert(s.subrange(1, 2) =~= seq![0u8]);
    assert(r.subrange(1, 2) =~= seq![1u8]);
    assert(seq![0u8].subrange(1, 1) =~= Seq::<u8>::empty());
    assert(seq![1u8].subrange(1, 1) =~= Seq::<u8>::empty());
}

impl Endianness {
    /// The byte order that a reader has who made `probe` of the bytes 1, 0.
    pub open spec fn spec_of_probe(probe: u16) -> Endianness {
        if probe == 1 {
            Endianness::Little
        } else {
            Endianness::Big
        }
    }

    /// The byte order that a reader has who made `probe` of the bytes 1, 0:
    /// little endian where they spell 1 to it, big endian otherwise. Where
    /// `probe` is one of the two numbers that the bytes can spell, it is the
    /// number that they spell in the order returned.
    pub fn of_probe(probe: u16) -> (r: Endianness)
        ensures
            r == Endianness::spec_of_probe(probe),
            probe == 1 || probe == 256 ==> uint_value(seq![1u8, 0u8], r) == probe,
    {
        proof {
            lemma_probe_values();
        }
        if probe == 1 {
            Endianness::Little
        } else {
            Endianness::Big
        }
    }

    /// The byte order in which the machine that runs the library stores its
    /// integers. Which of the two it is depends on the machine alone, so the
    /// contract promises neither: the machine is asked what it makes of the
    /// bytes 1, 0, and [`Endianness::of_probe`] says which order that is.
    pub fn native() -> Endianness {
        Endianness::of_probe(u16_from_native_bytes(1, 0))
    }
}

} // verus!
