//! Integers in network byte order.
use vstd::prelude::*;

verus! {

/// The number that a sequence of bytes stands for, most significant first.
pub open spec fn be_value(bytes: Seq<u8>) -> nat
    decreases bytes.len(),
{
    if bytes.len() == 0 {
        0
    } else {
        be_value(bytes.drop_last()) * 256 + bytes.last() as nat
    }
}

/// The lowest `width` bytes of a number, most significant first.
pub open spec fn be_bytes(value: nat, width: nat) -> Seq<u8>
    decreases width,
{
    if width == 0 {
        Seq::empty()
    } else {
        be_bytes(value / 256, (width - 1) as nat).push((value % 256) as u8)
    }
}

/// How many numbers fit into `width` bytes.
pub open spec fn be_limit(width: nat) -> nat
    decreases width,
{
    if width == 0 {
        1
    } else {
        256 * be_limit((width - 1) as nat)
    }
}

/// The number of bytes is the one asked for.
pub proof fn lemma_be_bytes_len(value: nat, width: nat)
    ensures
        be_bytes(value, width).len() == width,
    decreases width,
{
    if width > 0 {
        lemma_be_bytes_len(value / 256, (width - 1) as nat);
    }
}

/// Writing down the number that some bytes stand for gives the same bytes.
pub proof fn lemma_bytes_of_value(bytes: Seq<u8>)
    ensures
        be_bytes(be_value(bytes), bytes.len()) == bytes,
        be_value(bytes) < be_limit(bytes.len()),
    decreases bytes.len(),
{
    if bytes.len() > 0 {
        let front = bytes.drop_last();
        lemma_bytes_of_value(front);
        let value = be_value(bytes);
        assert(value / 256 == be_value(front));
        assert(value % 256 == bytes.last());
        assert(front.push(bytes.last()) =~= bytes);
    } else {
        assert(bytes =~= Seq::empty());
    }
}

/// Reading back the bytes of a number that fits gives the same number.
pub proof fn lemma_value_of_bytes(value: nat, width: nat)
    requires
        value < be_limit(width),
    ensures
        be_value(be_bytes(value, width)) == value,
    decreases width,
{
    if width > 0 {
        lemma_value_of_bytes(value / 256, (width - 1) as nat);
        let bytes = be_bytes(value, width);
        assert(bytes.drop_last() =~= be_bytes(value / 256, (width - 1) as nat));
    }
}

/// What the widths in use can hold.
pub proof fn lemma_be_limits()
    ensures
        be_limit(2) == 0x1_0000,
        be_limit(4) == 0x1_0000_0000,
        be_limit(16) == 0x1_0000_0000_0000_0000_0000_0000_0000_0000,
{
    reveal_with_fuel(be_limit, 17);
}

/// A shorter sequence of bytes stands for a smaller number.
proof fn lemma_be_limit_monotonic(width: nat, bound: nat)
    requires
        width <= bound,
    ensures
        be_limit(width) <= be_limit(bound),
    decreases bound,
{
    if width < bound {
        lemma_be_limit_monotonic(width, (bound - 1) as nat);
    }
}

/// Appends the lowest `width` bytes of a number, most significant first.
pub fn put_be(out: &mut Vec<u8>, value: u128, width: usize)
    ensures
        final(out)@ == old(out)@ + be_bytes(value as nat, width as nat),
    decreases width,
{
    if width > 0 {
        put_be(out, value / 256, width - 1);
        out.push((value % 256) as u8);
    }
}

/// Reads the number that the bytes from `from` to `to` stand for.
pub fn get_be(bytes: &[u8], from: usize, to: usize) -> (value: u128)
    requires
        from <= to <= bytes@.len(),
        to - from <= 16,
    ensures
        value == be_value(bytes@.subrange(from as int, to as int)),
        value < be_limit((to - from) as nat),
{
    let mut value: u128 = 0;
    let mut at: usize = from;
    while at < to
        invariant
            from <= at <= to <= bytes@.len(),
            to - from <= 16,
            value == be_value(bytes@.subrange(from as int, at as int)),
        decreases to - at,
    {
        let ghost seen = bytes@.subrange(from as int, at as int);
        let ghost grown = bytes@.subrange(from as int, at + 1);
        proof {
            assert(grown.drop_last() =~= seen);
            assert(grown.last() == bytes@[at as int]);
            lemma_bytes_of_value(grown);
            lemma_be_limit_monotonic(grown.len(), 16);
            lemma_be_limits();
        }
        value = value * 256 + bytes[at] as u128;
        at = at + 1;
    }
    proof {
        lemma_bytes_of_value(bytes@.subrange(from as int, to as int));
    }
    value
}

} // verus!
