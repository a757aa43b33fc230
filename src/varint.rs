use vstd::prelude::*;

verus! {

pub open spec fn pow256(n: nat) -> nat
    decreases n,
{
    if n == 0 {
        1
    } else {
        256 * pow256((n - 1) as nat)
    }
}

/// The big-endian value of a byte string.
pub open spec fn be_value(s: Seq<u8>) -> nat
    decreases s.len(),
{
    if s.len() == 0 {
        0
    } else {
        be_value(s.drop_last()) * 256 + s.last() as nat
    }
}

/// The encoded length that the two high bits of the first byte select.
pub open spec fn encoded_len(first: u8) -> nat {
    if first < 64 {
        1
    } else if first < 128 {
        2
    } else if first < 192 {
        4
    } else {
        8
    }
}

/// The variable-length integer at the start of `s`, with the number of bytes it
/// takes: the first byte's low six bits followed by the next bytes, big-endian.
pub open spec fn decode_spec(s: Seq<u8>) -> Option<(u64, nat)> {
    if s.len() == 0 {
        None
    } else {
        let n = encoded_len(s[0]);
        if s.len() < n {
            None
        } else {
            Some(
                (
                    be_value(seq![(s[0] % 64) as u8] + s.subrange(1, n as int)) as u64,
                    n,
                ),
            )
        }
    }
}

proof fn lemma_pow256_mono(a: nat, b: nat)
    requires
        a <= b,
    ensures
        pow256(a) <= pow256(b),
    decreases b,
{
    if a < b {
        lemma_pow256_mono(a, (b - 1) as nat);
    }
}

/// Decodes the variable-length integer that starts at `pos`.
pub fn decode_at(bytes: &Vec<u8>, pos: usize) -> (r: Option<(u64, usize)>)
    requires
        pos <= bytes@.len(),
    ensures
        match r {
            Some((v, n)) => decode_spec(bytes@.subrange(pos as int, bytes@.len() as int)) == Some(
                (v, n as nat),
            ),
            None => decode_spec(bytes@.subrange(pos as int, bytes@.len() as int)).is_none(),
        },
{
    let ghost s = bytes@.subrange(pos as int, bytes@.len() as int);
    if pos == bytes.len() {
        return None;
    }
    let first = bytes[pos];
    let n: usize = if first < 64 {
        1
    } else if first < 128 {
        2
    } else if first < 192 {
        4
    } else {
        8
    };
    if bytes.len() - pos < n {
        return None;
    }
    let ghost head = seq![(first % 64) as u8];
    let mut v: u64 = (first % 64) as u64;
    let mut i: usize = 1;
    proof {
        assert(head + s.subrange(1, 1) =~= head);
        assert(head.drop_last() =~= Seq::<u8>::empty());
        assert(be_value(head) == be_value(head.drop_last()) * 256 + head.last() as nat);
        assert(be_value(Seq::<u8>::empty()) == 0);
        assert(pow256(1) == 256 * pow256(0));
    }
    while i < n
        invariant
            1 <= i <= n <= 8,
            n == encoded_len(first),
            pos + n <= bytes@.len(),
            bytes@.len() == bytes.len(),
            s == bytes@.subrange(pos as int, bytes@.len() as int),
            s[0] == first,
            head == seq![(first % 64) as u8],
            v == be_value(head + s.subrange(1, i as int)),
            v < pow256(i as nat),
        decreases n - i,
    {
        let b = bytes[pos + i];
        proof {
            let p = head + s.subrange(1, i as int);
            let q = head + s.subrange(1, i + 1);
            assert(q.drop_last() =~= p);
            assert(q.last() == b);
            lemma_pow256_mono(i as nat, 7);
            assert(pow256(1) == 256 * pow256(0));
            assert(pow256(2) == 256 * pow256(1));
            assert(pow256(3) == 256 * pow256(2));
            assert(pow256(4) == 256 * pow256(3));
            assert(pow256(5) == 256 * pow256(4));
            assert(pow256(6) == 256 * pow256(5));
            assert(pow256(7) == 256 * pow256(6));
            assert(pow256((i + 1) as nat) == 256 * pow256(i as nat));
        }
        v = v * 256 + b as u64;
        i = i + 1;
    }
    Some((v, n))
}

} // verus!
