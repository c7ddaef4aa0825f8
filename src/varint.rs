use vstd::prelude::*;

verus! {

/// The unsigned LEB128 bytes of `v`: seven bits a byte, least significant
/// first, the top bit set on every byte but the last.
pub open spec fn varint(v: nat) -> Seq<u8>
    decreases v,
{
    if v < 128 {
        seq![v as u8]
    } else {
        seq![(v % 128 + 128) as u8] + varint(v / 128)
    }
}

/// `p` is the beginning of `b`.
pub open spec fn starts_with(b: Seq<u8>, p: Seq<u8>) -> bool {
    p.len() <= b.len() && b.subrange(0, p.len() as int) == p
}

pub open spec fn pow128(n: nat) -> nat
    decreases n,
{
    if n == 0 {
        1
    } else {
        128 * pow128((n - 1) as nat)
    }
}

/// The value of LEB128 bytes.
pub open spec fn varint_value(s: Seq<u8>) -> nat
    decreases s.len(),
{
    if s.len() == 0 {
        0
    } else {
        (s[0] % 128) as nat + 128 * varint_value(s.drop_first())
    }
}

pub proof fn lemma_starts_with_cons(b: Seq<u8>, t: u8, p: Seq<u8>)
    ensures
        starts_with(b, seq![t] + p) <==> (b.len() >= 1 && b[0] == t && starts_with(
            b.subrange(1, b.len() as int),
            p,
        )),
{
    let q = seq![t] + p;
    if starts_with(b, q) {
        assert(b[0] == b.subrange(0, q.len() as int)[0]);
        assert(b.subrange(1, b.len() as int).subrange(0, p.len() as int) =~= b.subrange(
            0,
            q.len() as int,
        ).subrange(1, q.len() as int));
        assert(q.subrange(1, q.len() as int) =~= p);
    }
    if b.len() >= 1 && b[0] == t && starts_with(b.subrange(1, b.len() as int), p) {
        assert(b.subrange(0, q.len() as int) =~= q);
    }
}

pub proof fn lemma_varint_shape(v: nat)
    ensures
        varint(v).len() >= 1,
        v < 128 ==> varint(v).len() == 1 && varint(v)[0] == v,
        v >= 128 ==> varint(v)[0] >= 128,
        forall|k: int| 0 <= k < varint(v).len() - 1 ==> #[trigger] varint(v)[k] >= 128,
        varint(v)[varint(v).len() - 1] < 128,
        varint(v).len() > 1 ==> varint(v)[varint(v).len() - 1] != 0,
        varint_value(varint(v)) == v,
    decreases v,
{
    if v < 128 {
        assert(varint(v).drop_first().len() == 0);
        assert(varint_value(varint(v).drop_first()) == 0);
    } else {
        lemma_varint_shape(v / 128);
        let s = varint(v);
        let t = varint(v / 128);
        assert(s.drop_first() =~= t);
        assert(v == v % 128 + 128 * (v / 128)) by (nonlinear_arith);
        assert(s[0] % 128 == v % 128);
        assert forall|k: int| 0 <= k < s.len() - 1 implies #[trigger] s[k] >= 128 by {
            if k > 0 {
                assert(s[k] == t[k - 1]);
            }
        }
        assert(s[s.len() - 1] == t[t.len() - 1]);
        if t.len() == 1 {
            assert(v / 128 >= 1);
        }
    }
}

/// Bytes whose top bit is set on all but the last, with no zero byte at
/// the end of a longer run, are the LEB128 bytes of their value.
pub proof fn lemma_varint_canonical(s: Seq<u8>)
    requires
        s.len() >= 1,
        forall|k: int| 0 <= k < s.len() - 1 ==> #[trigger] s[k] >= 128,
        s[s.len() - 1] < 128,
        s.len() > 1 ==> s[s.len() - 1] != 0,
    ensures
        varint(varint_value(s)) == s,
        varint_value(s) < pow128(s.len()),
        s.len() > 1 ==> varint_value(s) >= pow128((s.len() - 1) as nat),
    decreases s.len(),
{
    let v = varint_value(s);
    if s.len() == 1 {
        assert(s.drop_first().len() == 0);
        assert(varint_value(s.drop_first()) == 0);
        assert(v == s[0] as nat);
        assert(pow128(0) == 1);
        assert(pow128(1) == 128);
        assert(varint(v) =~= s);
    } else {
        let t = s.drop_first();
        assert forall|k: int| 0 <= k < t.len() - 1 implies #[trigger] t[k] >= 128 by {
            assert(t[k] == s[k + 1]);
        }
        assert(t[t.len() - 1] == s[s.len() - 1]);
        lemma_varint_canonical(t);
        let w = varint_value(t);
        assert(v == (s[0] % 128) as nat + 128 * w);
        if t.len() == 1 {
            assert(w == t[0] as nat);
            assert(w >= 1);
        }
        assert(w >= 1);
        assert(v >= 128);
        assert(v % 128 == s[0] % 128 && v / 128 == w) by (nonlinear_arith)
            requires
                v == (s[0] % 128) as nat + 128 * w,
        ;
        assert(s[0] == (s[0] % 128) + 128);
        assert(varint(v) =~= s);
        assert(pow128(s.len()) == 128 * pow128(t.len()));
        assert(pow128((s.len() - 1) as nat) == pow128(t.len()));
        if t.len() > 1 {
            assert(pow128((t.len() - 1) as nat) >= 1) by {
                lemma_pow128_positive((t.len() - 1) as nat);
            }
            assert(pow128(t.len()) == 128 * pow128((t.len() - 1) as nat));
        } else {
            assert(pow128(t.len()) == 128);
        }
        assert(v < pow128(s.len())) by (nonlinear_arith)
            requires
                v == (s[0] % 128) as nat + 128 * w,
                w < pow128(t.len()),
                pow128(s.len()) == 128 * pow128(t.len()),
                s[0] % 128 < 128,
        ;
        assert(v >= pow128((s.len() - 1) as nat)) by (nonlinear_arith)
            requires
                v >= 128 * w,
                t.len() > 1 ==> w >= pow128((t.len() - 1) as nat),
                t.len() > 1 ==> pow128(t.len()) == 128 * pow128((t.len() - 1) as nat),
                t.len() == 1 ==> pow128(t.len()) == 128,
                w >= 1,
                pow128((s.len() - 1) as nat) == pow128(t.len()),
        ;
    }
}

pub proof fn lemma_pow128_positive(n: nat)
    ensures
        pow128(n) >= 1,
    decreases n,
{
    if n > 0 {
        lemma_pow128_positive((n - 1) as nat);
    }
}

/// A value below 2^64 takes at most ten bytes.
pub proof fn lemma_varint_len(v: nat)
    requires
        v <= u64::MAX,
    ensures
        varint(v).len() <= 10,
{
    lemma_varint_shape(v);
    let s = varint(v);
    if s.len() > 10 {
        lemma_varint_canonical(s);
        lemma_pow128_monotone(10, (s.len() - 1) as nat);
        lemma_pow128_ten();
    }
}

/// 128^10, which is 2^70.
pub proof fn lemma_pow128_ten()
    ensures
        pow128(10) == 1180591620717411303424nat,
{
    assert(pow128(0) == 1);
    assert(pow128(1) == 128);
    assert(pow128(2) == 16384);
    assert(pow128(3) == 2097152);
    assert(pow128(4) == 268435456);
    assert(pow128(5) == 34359738368);
    assert(pow128(6) == 4398046511104);
    assert(pow128(7) == 562949953421312);
    assert(pow128(8) == 72057594037927936);
    assert(pow128(9) == 9223372036854775808);
    assert(pow128(10) == 1180591620717411303424);
}

pub proof fn lemma_pow128_monotone(a: nat, b: nat)
    requires
        a <= b,
    ensures
        pow128(a) <= pow128(b),
    decreases b,
{
    if a < b {
        lemma_pow128_monotone(a, (b - 1) as nat);
        lemma_pow128_positive((b - 1) as nat);
    }
}

/// Two values whose LEB128 bytes both begin `b` are the same value.
pub proof fn lemma_varint_unique(b: Seq<u8>, u: nat, v: nat)
    requires
        starts_with(b, varint(u)),
        starts_with(b, varint(v)),
    ensures
        u == v,
    decreases u,
{
    lemma_varint_shape(u);
    lemma_varint_shape(v);
    assert(b[0] == varint(u)[0]) by {
        assert(b.subrange(0, varint(u).len() as int)[0] == b[0]);
    }
    assert(b[0] == varint(v)[0]) by {
        assert(b.subrange(0, varint(v).len() as int)[0] == b[0]);
    }
    if u >= 128 && v >= 128 {
        lemma_starts_with_cons(b, varint(u)[0], varint(u / 128));
        lemma_starts_with_cons(b, varint(v)[0], varint(v / 128));
        lemma_varint_unique(b.subrange(1, b.len() as int), u / 128, v / 128);
    }
}

/// Reads LEB128 bytes at `pos` of `b` into a `usize`.
pub fn decode_varint(b: &[u8], pos: usize) -> (r: Option<(usize, usize)>)
    requires
        pos <= b@.len(),
    ensures
        match r {
            Some((v, n)) => n == varint(v as nat).len() && starts_with(
                b@.subrange(pos as int, b@.len() as int),
                varint(v as nat),
            ),
            None => forall|v: usize|
                !starts_with(b@.subrange(pos as int, b@.len() as int), #[trigger] varint(v as nat)),
        },
{
    let ghost rest = b@.subrange(pos as int, b@.len() as int);
    // find the last byte: the first one with the top bit clear
    let mut n: usize = 0;
    while n < 10 && n < b.len() - pos && b[pos + n] >= 128
        invariant
            n <= 10,
            pos + n <= b@.len(),
            rest == b@.subrange(pos as int, b@.len() as int),
            forall|k: int| 0 <= k < n ==> #[trigger] rest[k] >= 128,
        decreases 10 - n,
    {
        n += 1;
    }
    if n == 10 || n >= b.len() - pos || (n > 0 && b[pos + n] == 0) {
        proof {
            assert forall|v: usize| !starts_with(rest, #[trigger] varint(v as nat)) by {
                if starts_with(rest, varint(v as nat)) {
                    let s = varint(v as nat);
                    lemma_varint_shape(v as nat);
                    lemma_varint_len(v as nat);
                    assert forall|k: int| 0 <= k < s.len() implies rest[k] == #[trigger] s[k] by {
                        assert(rest.subrange(0, s.len() as int)[k] == rest[k]);
                    }
                    // the last byte of `s` is the first of `rest` with its top bit clear
                    if s.len() - 1 < n {
                        assert(rest[s.len() - 1] >= 128);
                    } else if s.len() - 1 > n {
                        assert(s[n as int] >= 128);
                        assert(rest[n as int] == b@[pos + n]);
                    } else {
                        assert(rest[n as int] == b@[pos + n]);
                    }
                }
            }
        }
        return None;
    }
    let ghost s = rest.subrange(0, n + 1);
    // add up the bytes from the last one down
    let mut v: u128 = 0;
    let mut k: usize = n + 1;
    proof {
        assert(s.subrange(k as int, s.len() as int).len() == 0);
        assert(rest[n as int] == b@[pos + n]);
        assert forall|i: int| 0 <= i < s.len() - 1 implies #[trigger] s[i] >= 128 by {
            assert(s[i] == rest[i]);
        }
        lemma_varint_canonical(s);
        lemma_pow128_monotone(s.len(), 10);
        lemma_pow128_ten();
    }
    while k > 0
        invariant
            k <= n + 1,
            n < 10,
            pos + n < b@.len(),
            b@.len() == b.len(),
            s == b@.subrange(pos as int, (pos + n + 1) as int),
            s.len() == n + 1,
            v == varint_value(s.subrange(k as int, s.len() as int)),
            pow128(10) == 1180591620717411303424nat,
        decreases k,
    {
        let ghost tail = s.subrange(k as int, s.len() as int);
        let ghost t2 = s.subrange(k - 1, s.len() as int);
        proof {
            assert(t2.drop_first() =~= tail);
            lemma_value_lt(tail);
            lemma_pow128_monotone(tail.len(), 9);
            assert(pow128(9) == 9223372036854775808nat);
        }
        assert(pos + (k - 1) < b.len());
        let byte = b[pos + (k - 1)];
        assert(byte == t2[0]);
        v = (byte % 128) as u128 + 128 * v;
        k -= 1;
    }
    proof {
        assert(s.subrange(0, s.len() as int) =~= s);
    }
    if v > usize::MAX as u128 {
        proof {
            assert forall|w: usize| !starts_with(rest, #[trigger] varint(w as nat)) by {
                if starts_with(rest, varint(w as nat)) {
                    lemma_varint_shape(w as nat);
                    lemma_varint_canonical(s);
                    assert(starts_with(rest, s)) by {
                        assert(rest.subrange(0, s.len() as int) =~= s);
                    }
                    assert(starts_with(rest, varint(varint_value(s))));
                    lemma_varint_unique(rest, w as nat, varint_value(s));
                }
            }
        }
        return None;
    }
    proof {
        lemma_varint_canonical(s);
        assert(rest.subrange(0, s.len() as int) =~= s);
    }
    Some((v as usize, n + 1))
}

/// The value of `n` bytes is below 128^n.
proof fn lemma_value_lt(s: Seq<u8>)
    ensures
        varint_value(s) < pow128(s.len()),
    decreases s.len(),
{
    if s.len() > 0 {
        let t = s.drop_first();
        lemma_value_lt(t);
        let w = varint_value(t);
        assert(pow128(s.len()) == 128 * pow128(t.len()));
        assert(varint_value(s) < pow128(s.len())) by (nonlinear_arith)
            requires
                varint_value(s) == (s[0] % 128) as nat + 128 * w,
                w < pow128(t.len()),
                pow128(s.len()) == 128 * pow128(t.len()),
                s[0] % 128 < 128,
        ;
    }
}

/// Writes the LEB128 bytes of `v` at the end of `out`.
pub fn encode_varint(out: &mut Vec<u8>, v: usize)
    ensures
        final(out)@ == old(out)@ + varint(v as nat),
{
    let mut v = v;
    let ghost start = old(out)@;
    let ghost v0 = v;
    while v >= 128
        invariant
            out@ + varint(v as nat) == start + varint(v0 as nat),
        decreases v,
    {
        let byte: u8 = (v % 128 + 128) as u8;
        proof {
            assert(varint(v as nat) == seq![byte] + varint((v / 128) as nat));
            assert(out@.push(byte) + varint((v / 128) as nat) =~= out@ + varint(v as nat));
        }
        out.push(byte);
        v = v / 128;
    }
    proof {
        assert(out@.push(v as u8) =~= out@ + varint(v as nat));
    }
    out.push(v as u8);
}

} // verus!
