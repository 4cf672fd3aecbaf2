//! Small verified text helpers: decimal rendering and a stable 64-bit
//! string hash, used for call identifiers and pub/sub channel ids.

use vstd::prelude::*;

verus! {

/// The character for one decimal digit.
pub open spec fn digit_char(d: nat) -> char
    recommends
        d < 10,
{
    if d == 0 {
        '0'
    } else if d == 1 {
        '1'
    } else if d == 2 {
        '2'
    } else if d == 3 {
        '3'
    } else if d == 4 {
        '4'
    } else if d == 5 {
        '5'
    } else if d == 6 {
        '6'
    } else if d == 7 {
        '7'
    } else if d == 8 {
        '8'
    } else {
        '9'
    }
}

/// The decimal rendering of a natural number, most significant digit first.
pub open spec fn dec_digits(n: nat) -> Seq<char>
    decreases n,
{
    if n < 10 {
        seq![digit_char(n)]
    } else {
        dec_digits(n / 10) + seq![digit_char(n % 10)]
    }
}

fn digit_str(d: u64) -> (s: &'static str)
    requires
        d < 10,
    ensures
        s@ =~= seq![digit_char(d as nat)],
{
    let r: &'static str = match d {
        0 => "0",
        1 => "1",
        2 => "2",
        3 => "3",
        4 => "4",
        5 => "5",
        6 => "6",
        7 => "7",
        8 => "8",
        _ => "9",
    };
    proof {
        reveal_strlit("0");
        reveal_strlit("1");
        reveal_strlit("2");
        reveal_strlit("3");
        reveal_strlit("4");
        reveal_strlit("5");
        reveal_strlit("6");
        reveal_strlit("7");
        reveal_strlit("8");
        reveal_strlit("9");
    }
    r
}

/// One step of the FNV-1a hash: fold one byte into the accumulator.
pub open spec fn fnv1a_step(h: u64, b: u8) -> u64 {
    mul_wrap(h ^ (b as u64), 0x100000001b3)
}

/// 64-bit multiplication that wraps around, as spec.
pub open spec fn mul_wrap(a: u64, b: u64) -> u64 {
    ((a as nat * b as nat) % 0x1_0000_0000_0000_0000nat) as u64
}

/// The FNV-1a accumulator after folding in `bytes`, starting from `h`.
pub open spec fn fnv1a_fold(h: u64, bytes: Seq<u8>) -> u64
    decreases bytes.len(),
{
    if bytes.len() == 0 {
        h
    } else {
        fnv1a_fold(fnv1a_step(h, bytes[0]), bytes.skip(1))
    }
}

/// The FNV-1a offset basis, the accumulator a fresh hash starts from.
pub open spec fn fnv1a_basis() -> u64 {
    0xcbf29ce484222325
}

proof fn lemma_fnv1a_fold_snoc(h: u64, bytes: Seq<u8>, b: u8)
    ensures
        fnv1a_fold(h, bytes.push(b)) == fnv1a_step(fnv1a_fold(h, bytes), b),
    decreases bytes.len(),
{
    if bytes.len() == 0 {
        assert(bytes =~= Seq::<u8>::empty());
        assert(bytes.push(b)[0] == b);
        assert(bytes.push(b).skip(1) =~= Seq::<u8>::empty());
        assert(fnv1a_fold(h, bytes.push(b)) == fnv1a_fold(
            fnv1a_step(h, b),
            bytes.push(b).skip(1),
        ));
        assert(fnv1a_fold(fnv1a_step(h, b), Seq::<u8>::empty()) == fnv1a_step(h, b));
    } else {
        assert(bytes.push(b)[0] == bytes[0]);
        assert(bytes.push(b).skip(1) =~= bytes.skip(1).push(b));
        lemma_fnv1a_fold_snoc(fnv1a_step(h, bytes[0]), bytes.skip(1), b);
    }
}

/// Folds `bytes` into an FNV-1a accumulator, continuing from `h`.
pub fn fnv1a_continue(h: u64, bytes: &[u8]) -> (r: u64)
    ensures
        r == fnv1a_fold(h, bytes@),
{
    let mut acc = h;
    let mut i: usize = 0;
    proof {
        assert(bytes@.skip(0) =~= bytes@);
    }
    while i < bytes.len()
        invariant
            i <= bytes@.len(),
            fnv1a_fold(acc, bytes@.skip(i as int)) == fnv1a_fold(h, bytes@),
        decreases bytes@.len() - i,
    {
        let b = bytes[i];
        let step = (acc ^ (b as u64)).wrapping_mul(0x100000001b3);
        proof {
            assert(bytes@.skip(i as int)[0] == b);
            assert(bytes@.skip(i as int).skip(1) =~= bytes@.skip(i as int + 1));
            assert(step == fnv1a_step(acc, b));
        }
        acc = step;
        i = i + 1;
    }
    proof {
        assert(bytes@.skip(i as int) =~= Seq::<u8>::empty());
    }
    acc
}

/// The FNV-1a 64-bit hash of `bytes`.
pub fn fnv1a_hash(bytes: &[u8]) -> (r: u64)
    ensures
        r == fnv1a_fold(fnv1a_basis(), bytes@),
{
    fnv1a_continue(0xcbf29ce484222325, bytes)
}

/// Renders `n` in decimal, most significant digit first.
pub fn decimal_string(n: u64) -> (r: String)
    ensures
        r@ == dec_digits(n as nat),
    decreases n,
{
    if n < 10 {
        let s = digit_str(n);
        let r = s.to_owned();
        proof {
            assert(r@ =~= dec_digits(n as nat));
        }
        r
    } else {
        let mut r = decimal_string(n / 10);
        let s = digit_str(n % 10);
        r.append(s);
        proof {
            assert(r@ =~= dec_digits(n as nat));
        }
        r
    }
}

} // verus!
