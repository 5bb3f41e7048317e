//! File sizes as listings show them: bytes below 1 KB, else one decimal in the
//! largest fitting unit, rounded as a double-precision value is.
use vstd::prelude::*;
use crate::respond::{decimal, push_decimal, push_decimal_wide};
use crate::text::push_str;

verus! {

broadcast use vstd::string::group_string_axioms;

/// `2` to the power `k`.
pub open spec fn two_to(k: nat) -> nat
    decreases k,
{
    if k == 0 {
        1
    } else {
        2 * two_to((k - 1) as nat)
    }
}

/// The largest integer with 53 significant bits, plus one.
pub open spec fn exact_limit() -> nat {
    9007199254740992
}

/// How many low bits of `n` a double cannot hold: those beyond its 53 significant
/// bits.
pub open spec fn dropped_bits(n: nat) -> nat
    decreases n,
{
    if n < exact_limit() {
        0
    } else {
        1 + dropped_bits(n / 2)
    }
}

/// `n as f64`: `n` with its dropped bits rounded to the nearest multiple, ties to an
/// even last kept bit.
pub open spec fn as_double(n: nat) -> nat {
    let p = two_to(dropped_bits(n));
    let q = n / p;
    let r = n % p;
    if 2 * r > p || (2 * r == p && q % 2 == 1) {
        (q + 1) * p
    } else {
        q * p
    }
}

/// `1024` to the power `k`.
pub open spec fn unit_size(k: nat) -> nat
    decreases k,
{
    if k == 0 {
        1
    } else {
        1024 * unit_size((k - 1) as nat)
    }
}

/// The unit a size of `v` bytes is shown in: the largest of B, KB, MB and GB that it
/// fills at least once.
pub open spec fn size_unit(v: nat) -> nat {
    if v >= unit_size(3) {
        3
    } else if v >= unit_size(2) {
        2
    } else if v >= unit_size(1) {
        1
    } else {
        0
    }
}

pub open spec fn unit_name(k: nat) -> Seq<char> {
    if k == 1 {
        "KB"@
    } else if k == 2 {
        "MB"@
    } else {
        "GB"@
    }
}

/// `v / d` in tenths, rounded to the nearest tenth, ties to an even last digit.
pub open spec fn rounded_tenths(v: nat, d: nat) -> nat {
    let t = (v * 10) / d;
    let r = (v * 10) % d;
    if 2 * r > d || (2 * r == d && t % 2 == 1) {
        t + 1
    } else {
        t
    }
}

/// The text a size of `bytes` bytes is shown as: `{bytes} B` below 1 KB, else the size
/// in the largest fitting unit with one decimal.
pub open spec fn size_text(bytes: nat) -> Seq<char> {
    let v = as_double(bytes);
    let k = size_unit(v);
    if k == 0 {
        decimal(bytes) + " B"@
    } else {
        let t = rounded_tenths(v, unit_size(k));
        decimal(t / 10) + "."@ + decimal(t % 10) + " "@ + unit_name(k)
    }
}

/// The size text of `bytes` bytes.
pub fn human_size(bytes: u64) -> (r: String)
    ensures
        r@ == size_text(bytes as nat),
{
    let mut p: u128 = 1;
    let mut q: u64 = bytes;
    let ghost mut k: nat = 0;
    while q >= 9007199254740992
        invariant
            p == two_to(k),
            1 <= p <= 4096,
            q as nat == bytes as nat / (p as nat),
            dropped_bits(bytes as nat) == k + dropped_bits(q as nat),
        decreases q,
    {
        proof {
            vstd::arithmetic::div_mod::lemma_div_denominator(bytes as int, p as int, 2);
            vstd::arithmetic::div_mod::lemma_fundamental_div_mod(bytes as int, p as int);
            assert(dropped_bits(q as nat) == 1 + dropped_bits(q as nat / 2));
            assert(p * q <= bytes) by (nonlinear_arith)
                requires
                    bytes as int == p * (bytes as int / p as int) + bytes as int % p as int,
                    bytes as int % p as int >= 0,
                    q == bytes as int / p as int,
            ;
            assert(p < 2048) by (nonlinear_arith)
                requires
                    p * q <= bytes,
                    q >= 9007199254740992,
                    bytes < 0x1_0000_0000_0000_0000,
                    p >= 1,
            ;
        }
        q = q / 2;
        p = p * 2;
        proof {
            k = k + 1;
        }
    }
    let b = bytes as u128;
    let whole = b / p;
    let rest = b % p;
    let up = 2 * rest > p || (2 * rest == p && whole % 2 == 1);
    let kept = if up { whole + 1 } else { whole };
    proof {
        assert(dropped_bits(q as nat) == 0);
        assert(whole * p <= b) by (nonlinear_arith)
            requires
                whole == b / p,
                p >= 1,
        ;
        assert(kept * p <= b + p) by (nonlinear_arith)
            requires
                kept <= whole + 1,
                whole * p <= b,
        ;
    }
    let v: u128 = kept * p;
    proof {
        assert(v as nat == as_double(bytes as nat));
        reveal_with_fuel(unit_size, 4);
        assert(unit_size(1) == 1024);
        assert(unit_size(2) == 1048576);
        assert(unit_size(3) == 1073741824);
    }
    let unit: u128 = if v >= 1073741824 {
        1073741824
    } else if v >= 1048576 {
        1048576
    } else if v >= 1024 {
        1024
    } else {
        let mut r = String::new();
        push_decimal(&mut r, bytes);
        push_str(&mut r, " B");
        proof {
            assert(size_unit(v as nat) == 0);
            assert(r@ =~= size_text(bytes as nat));
        }
        return r;
    };
    let name = if unit == 1073741824 {
        "GB"
    } else if unit == 1048576 {
        "MB"
    } else {
        "KB"
    };
    let tens = v * 10;
    let t0 = tens / unit;
    let rem = tens % unit;
    let t = if 2 * rem > unit || (2 * rem == unit && t0 % 2 == 1) { t0 + 1 } else { t0 };
    let mut r = String::new();
    push_decimal_wide(&mut r, t / 10);
    push_str(&mut r, ".");
    push_decimal_wide(&mut r, t % 10);
    push_str(&mut r, " ");
    push_str(&mut r, name);
    proof {
        let kk = size_unit(v as nat);
        assert(unit as nat == unit_size(kk));
        assert(name@ == unit_name(kk)) by {
            reveal_strlit("GB");
            reveal_strlit("MB");
            reveal_strlit("KB");
        }
        assert(t as nat == rounded_tenths(v as nat, unit_size(kk)));
        assert(r@ =~= size_text(bytes as nat));
    }
    r
}

} // verus!
