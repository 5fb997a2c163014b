use vstd::prelude::*;

verus! {

/// The `n` least significant bytes of `x`, least significant first.
pub open spec fn le_bytes(x: nat, n: nat) -> Seq<u8>
    decreases n,
{
    if n == 0 {
        Seq::empty()
    } else {
        seq![(x % 256) as u8] + le_bytes(x / 256, (n - 1) as nat)
    }
}

/// The value of eight bytes read least significant first.
pub open spec fn u64_from_le(s: Seq<u8>) -> nat {
    (s[0] + 0x100 * s[1] + 0x10000 * s[2] + 0x1000000 * s[3] + 0x100000000 * s[4]
        + 0x10000000000 * s[5] + 0x1000000000000 * s[6] + 0x100000000000000 * s[7]) as nat
}

/// The two's complement bits of a signed 64-bit value, as an unsigned value.
pub open spec fn i64_bits(x: i64) -> nat {
    if x >= 0 {
        x as nat
    } else {
        (x + 0x1_0000_0000_0000_0000) as nat
    }
}

/// The two little-endian bytes of a 16-bit value.
pub proof fn lemma_le_bytes_2(v: nat)
    requires
        v < 0x10000,
    ensures
        le_bytes(v, 2) == seq![(v % 256) as u8, (v / 256) as u8],
{
    assert(le_bytes(v / 256 / 256, 0) =~= Seq::<u8>::empty());
    assert(le_bytes(v / 256, 1) =~= seq![((v / 256) % 256) as u8]);
    assert(le_bytes(v, 2) =~= seq![(v % 256) as u8, (v / 256) as u8]);
}

/// Appends the `n` least significant bytes of `x` to `out`, least significant first.
pub fn push_le_bytes(out: &mut Vec<u8>, x: u64, n: usize)
    requires
        n <= 8,
    ensures
        final(out)@ == old(out)@ + le_bytes(x as nat, n as nat),
{
    let mut y: u64 = x;
    let mut i: usize = 0;
    while i < n
        invariant
            i <= n,
            out@ + le_bytes(y as nat, (n - i) as nat) == old(out)@ + le_bytes(x as nat, n as nat),
        decreases n - i,
    {
        let ghost before = out@;
        out.push((y % 256) as u8);
        proof {
            let rest = le_bytes((y / 256) as nat, (n - i - 1) as nat);
            assert(le_bytes(y as nat, (n - i) as nat) == seq![(y % 256) as u8] + rest);
            assert(before + (seq![(y % 256) as u8] + rest) =~= out@ + rest);
        }
        y = y / 256;
        i = i + 1;
    }
    assert(le_bytes(y as nat, 0) =~= Seq::<u8>::empty());
    assert(out@ + Seq::<u8>::empty() =~= out@);
}

/// The little-endian bytes of `x`.
pub fn u64_to_le_bytes(x: u64) -> (r: Vec<u8>)
    ensures
        r@ == le_bytes(x as nat, 8),
{
    let mut r: Vec<u8> = Vec::new();
    push_le_bytes(&mut r, x, 8);
    assert(Seq::<u8>::empty() + le_bytes(x as nat, 8) =~= le_bytes(x as nat, 8));
    r
}

/// Reads eight bytes at `start`, least significant first.
pub fn read_u64_le(data: &[u8], start: usize) -> (r: u64)
    requires
        start + 8 <= data@.len(),
    ensures
        r as nat == u64_from_le(data@.subrange(start as int, start + 8)),
{
    let r: u64 = data[start] as u64 + 0x100 * (data[start + 1] as u64) + 0x10000 * (
    data[start + 2] as u64) + 0x1000000 * (data[start + 3] as u64) + 0x100000000 * (data[start
        + 4] as u64) + 0x10000000000 * (data[start + 5] as u64) + 0x1000000000000 * (data[start
        + 6] as u64) + 0x100000000000000 * (data[start + 7] as u64);
    r
}

/// The two's complement bits of `x`.
pub fn i64_to_bits(x: i64) -> (r: u64)
    ensures
        r as nat == i64_bits(x),
{
    if x >= 0 {
        x as u64
    } else {
        let shifted: i128 = x as i128 + 0x1_0000_0000_0000_0000;
        shifted as u64
    }
}

/// Whether two byte strings are equal.
pub fn slice_eq(a: &[u8], b: &[u8]) -> (r: bool)
    ensures
        r == (a@ == b@),
{
    if a.len() != b.len() {
        return false;
    }
    let mut i: usize = 0;
    while i < a.len()
        invariant
            i <= a@.len(),
            a@.len() == b@.len(),
            forall|j: int| 0 <= j < i ==> a@[j] == b@[j],
        decreases a@.len() - i,
    {
        if a[i] != b[i] {
            return false;
        }
        i = i + 1;
    }
    assert(a@ =~= b@);
    true
}

} // verus!
