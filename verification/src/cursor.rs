//! Cyclic selection cursor: moving by a signed delta through `len` slots
//! wraps around at both ends.

use vstd::prelude::*;
use vstd::arithmetic::div_mod::{
    lemma_add_mod_noop, lemma_add_mod_noop_right, lemma_fundamental_div_mod,
    lemma_mod_division_less_than_divisor, lemma_mod_multiples_vanish, lemma_small_mod,
};

verus! {

/// The slot reached from `selected` after moving `delta` steps around a ring
/// of `len` slots. Spec `%` is Euclidean, so the result lies in `[0, len)`
/// for every `delta`, positive or negative.
pub open spec fn spec_cycle(selected: int, delta: int, len: int) -> int {
    (selected + delta) % len
}

/// Move the selection `delta` steps, wrapping at both ends.
pub fn cycle(selected: usize, delta: isize, len: usize) -> (r: usize)
    requires
        0 < len,
        selected < len,
    ensures
        r == spec_cycle(selected as int, delta as int, len as int),
        r < len,
{
    let l: u128 = len as u128;
    let step: u128 = if delta >= 0 {
        let s = (delta as u128) % l;
        proof {
            lemma_add_mod_noop_right(selected as int, delta as int, len as int);
        }
        s
    } else {
        let m: u128 = ((-(delta as i128)) as u128) % l;
        proof {
            lemma_mod_division_less_than_divisor(-(delta as int), len as int);
        }
        let s = (l - m) % l;
        proof {
            lemma_cycle_negative_step(selected as int, delta as int, len as int);
        }
        s
    };
    proof {
        lemma_mod_division_less_than_divisor(step as int, len as int);
        lemma_add_mod_noop_right(selected as int, step as int, len as int);
    }
    let r = ((selected as u128) + step) % l;
    proof {
        lemma_mod_division_less_than_divisor(selected as int + step as int, len as int);
    }
    r as usize
}

/// For a negative `delta`, stepping forward by `(len - (-delta) % len) % len`
/// reaches the same slot as stepping by `delta` itself.
proof fn lemma_cycle_negative_step(selected: int, delta: int, len: int)
    requires
        0 < len,
        0 <= selected < len,
        delta < 0,
    ensures
        (selected + (len - (-delta) % len) % len) % len == (selected + delta) % len,
{
    let m = (-delta) % len;
    let q = (-delta) / len;
    lemma_mod_division_less_than_divisor(-delta, len);
    lemma_fundamental_div_mod(-delta, len);
    // -delta == len * q + m, hence delta == -(len * q) - m
    assert(len * (-q) == -(len * q)) by (nonlinear_arith);
    assert(selected + delta == len * (-q) + (selected - m));
    assert((selected + delta) % len == (selected - m) % len) by {
        lemma_mod_multiples_vanish(-q, selected - m, len);
    }
    if m == 0 {
        assert((len - m) % len == 0) by {
            lemma_mod_multiples_vanish(1, 0, len);
            lemma_small_mod(0nat, len as nat);
        }
        lemma_small_mod(selected as nat, len as nat);
    } else {
        assert((len - m) % len == len - m) by {
            lemma_small_mod((len - m) as nat, len as nat);
        }
        assert((selected + (len - m)) % len == (selected - m) % len) by {
            lemma_mod_multiples_vanish(1, selected - m, len);
        }
    }
}

/// Moving by `a` and then by `b` lands on the same slot as moving once by
/// `a + b`: cursor motion is a group action of the integers on the ring of
/// `len` slots.
pub proof fn lemma_cycle_compose(selected: int, a: int, b: int, len: int)
    requires
        0 < len,
    ensures
        spec_cycle(spec_cycle(selected, a, len), b, len) == spec_cycle(selected, a + b, len),
{
    lemma_add_mod_noop_right((selected + a) % len, b, len);
    lemma_add_mod_noop(selected + a, b, len);
}

} // verus!
