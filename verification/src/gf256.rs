use vstd::prelude::*;
use crate::gf_tables::{exp_lit, log_lit, lemma_exp_log_lit, lemma_log_exp_lit, lemma_pow_alpha_table};

verus! {

/// Sentinel exponent standing for the additive identity of GF(256):
/// the field value 0 has no discrete logarithm.
pub const SENTINEL_EXP: u32 = 0xFFFF;

/// An exponent slot is either the zero sentinel or a reduced discrete log.
pub open spec fn is_exp(e: u32) -> bool {
    e == SENTINEL_EXP || e < 255
}

/// Doubling in GF(256): multiplication by the generator alpha = 2,
/// reduced by the primitive polynomial x^8 + x^4 + x^3 + x^2 + 1 (0x11D).
pub open spec fn gf_double(v: u32) -> u32 {
    if v < 128 {
        (2 * v) as u32
    } else {
        (((2 * v) as u32) ^ 0x11Du32)
    }
}

/// alpha^e in GF(256), an integer in [1,255].
pub open spec fn pow_alpha(e: nat) -> u32
    decreases e,
{
    if e == 0 {
        1
    } else {
        gf_double(pow_alpha((e - 1) as nat))
    }
}

/// Discrete log of a nonzero field value: the exponent in [0,254] whose
/// power of alpha is v (meaningful for v in [1,255]).
pub open spec fn log_alpha(v: u32) -> nat {
    choose|e: nat| e < 255 && pow_alpha(e) == v
}

/// The field value an exponent slot stands for: the sentinel is 0,
/// anything else is the corresponding power of alpha.
pub open spec fn value_of(e: u32) -> u32 {
    if e == SENTINEL_EXP {
        0
    } else {
        pow_alpha((e as nat) % 255)
    }
}

/// The exponent slot a field value is stored as: 0 becomes the sentinel.
pub open spec fn exp_of_value(v: u32) -> u32 {
    if v == 0 {
        SENTINEL_EXP
    } else {
        log_alpha(v) as u32
    }
}

/// Field multiplication carried out on exponent slots: the sentinel (zero)
/// absorbs, otherwise exponents add modulo 255.
pub open spec fn spec_add_exp(a: u32, b: u32) -> u32 {
    if a == SENTINEL_EXP || b == SENTINEL_EXP {
        SENTINEL_EXP
    } else {
        ((a + b) % 255) as u32
    }
}

/// Field addition carried out on exponent slots: the sentinel (zero) is the
/// identity, otherwise the values are added (XOR) and converted back.
pub open spec fn spec_combine(a: u32, b: u32) -> u32 {
    if a == SENTINEL_EXP {
        b
    } else if b == SENTINEL_EXP {
        a
    } else {
        exp_of_value(value_of(a) ^ value_of(b))
    }
}

/// Field addition on plain values: XOR of the two bytes.
pub open spec fn gf_add(x: u32, y: u32) -> u32 {
    x ^ y
}

/// Field multiplication on plain values, through the discrete logs.
pub open spec fn gf_mul(x: u32, y: u32) -> u32 {
    if x == 0 || y == 0 {
        0
    } else {
        pow_alpha((log_alpha(x) + log_alpha(y)) % 255)
    }
}

/// Every power of alpha is a byte value in [1,255].
pub proof fn lemma_pow_alpha_range(e: nat)
    ensures
        1 <= pow_alpha(e) <= 255,
    decreases e,
{
    if e > 0 {
        lemma_pow_alpha_range((e - 1) as nat);
        let v = pow_alpha((e - 1) as nat);
        if v >= 128 {
            assert(128 <= v <= 255 ==> 1 <= ((2 * v) as u32) ^ 0x11Du32 <= 255) by (bit_vector);
        }
    }
}

/// Every power of alpha is a byte value in [1,255] (quantified form).
pub proof fn lemma_pow_alpha_range_all()
    ensures
        forall|e: nat| 1 <= #[trigger] pow_alpha(e) <= 255,
{
    assert forall|e: nat| 1 <= #[trigger] pow_alpha(e) <= 255 by {
        lemma_pow_alpha_range(e);
    }
}

/// The powers of alpha enumerate every nonzero field value exactly once:
/// log_alpha is a two-sided inverse of pow_alpha.
pub proof fn lemma_alpha_bijective()
    ensures
        forall|v: u32|
            1 <= v <= 255 ==> (#[trigger] log_alpha(v)) < 255 && pow_alpha(log_alpha(v)) == v,
        forall|e: nat| e < 255 ==> #[trigger] log_alpha(pow_alpha(e)) == e,
{
    lemma_pow_alpha_table();
    lemma_log_exp_lit();
    lemma_exp_log_lit();
    assert forall|v: u32|
        1 <= v <= 255 implies (#[trigger] log_alpha(v)) < 255 && pow_alpha(log_alpha(v)) == v by {
        let e = log_lit(v as int);
        assert(0 <= e < 255 && exp_lit(e) == v);
        assert(pow_alpha(e as nat) == exp_lit(e));
        assert(exists|w: nat| w < 255 && pow_alpha(w) == v) by {
            assert((e as nat) < 255 && pow_alpha(e as nat) == v);
        }
    }
    assert forall|e: nat| e < 255 implies #[trigger] log_alpha(pow_alpha(e)) == e by {
        let v = pow_alpha(e);
        assert(pow_alpha(e) == exp_lit(e as int));
        assert(1 <= exp_lit(e as int) <= 255 && log_lit(exp_lit(e as int)) == e as int);
        assert(exists|w: nat| w < 255 && pow_alpha(w) == v) by {
            assert(e < 255 && pow_alpha(e) == v);
        }
        let e2 = log_alpha(v);
        assert(e2 < 255 && pow_alpha(e2) == v);
        assert(pow_alpha(e2) == exp_lit(e2 as int));
        assert(log_lit(exp_lit(e2 as int)) == e2 as int);
    }
}

/// Converting an exponent slot to its field value and back returns the slot,
/// and a value round-trips through its exponent; the sentinel stands exactly
/// for the value 0.
pub proof fn lemma_roundtrip()
    ensures
        forall|e: u32| e < 255 ==> #[trigger] exp_of_value(value_of(e)) == e,
        forall|v: u32| v <= 255 ==> #[trigger] value_of(exp_of_value(v)) == v,
        forall|e: u32| is_exp(e) ==> ((#[trigger] value_of(e)) == 0 <==> e == SENTINEL_EXP),
        forall|e: u32| is_exp(e) ==> #[trigger] value_of(e) <= 255,
        forall|v: u32| v <= 255 ==> #[trigger] is_exp(exp_of_value(v)),
{
    lemma_alpha_bijective();
    assert forall|e: u32| is_exp(e) implies #[trigger] value_of(e) <= 255 by {
        if e != SENTINEL_EXP {
            lemma_pow_alpha_range((e as nat) % 255);
        }
    }
    assert forall|e: u32| e < 255 implies #[trigger] exp_of_value(value_of(e)) == e by {
        lemma_pow_alpha_range(e as nat);
        assert((e as nat) % 255 == e as nat);
        assert(value_of(e) == pow_alpha(e as nat));
        assert(log_alpha(pow_alpha(e as nat)) == e as nat);
    }
    assert forall|v: u32| v <= 255 implies #[trigger] value_of(exp_of_value(v)) == v by {
        if v != 0 {
            assert(log_alpha(v) < 255 && pow_alpha(log_alpha(v)) == v);
            assert((log_alpha(v) as u32 as nat) % 255 == log_alpha(v));
        }
    }
    assert forall|e: u32| is_exp(e) implies ((#[trigger] value_of(e)) == 0 <==> e
        == SENTINEL_EXP) by {
        if e != SENTINEL_EXP {
            lemma_pow_alpha_range((e as nat) % 255);
        }
    }
}

/// The field zero is the identity of value addition.
pub proof fn lemma_gf_add_zero(x: u32)
    ensures
        gf_add(x, 0) == x,
        gf_add(0, x) == x,
{
    assert((x ^ 0u32) == x && (0u32 ^ x) == x) by (bit_vector);
}

/// A field product is a byte value.
pub proof fn lemma_gf_mul_range(x: u32, y: u32)
    ensures
        gf_mul(x, y) <= 255,
{
    if x != 0 && y != 0 {
        lemma_pow_alpha_range(((log_alpha(x) + log_alpha(y)) % 255) as nat);
    }
}

/// XOR of two byte values is a byte value: the defensive reduction against
/// the primitive polynomial on the addition path can never be reached.
pub proof fn lemma_xor_stays_byte(x: u32, y: u32)
    requires
        x <= 255,
        y <= 255,
    ensures
        gf_add(x, y) <= 255,
{
    assert(x <= 255 && y <= 255 ==> (x ^ y) <= 255) by (bit_vector);
}

/// Combining exponent slots is field addition of the values they stand for.
pub proof fn lemma_combine_is_gf_add(a: u32, b: u32)
    requires
        is_exp(a),
        is_exp(b),
    ensures
        is_exp(spec_combine(a, b)),
        value_of(spec_combine(a, b)) == gf_add(value_of(a), value_of(b)),
{
    lemma_roundtrip();
    assert(forall|x: u32| (x ^ 0u32) == x && (0u32 ^ x) == x) by (bit_vector);
    if a != SENTINEL_EXP && b != SENTINEL_EXP {
        lemma_xor_stays_byte(value_of(a), value_of(b));
    }
}

/// Adding exponent slots modulo 255 is field multiplication of the values
/// they stand for.
pub proof fn lemma_add_exp_is_gf_mul(a: u32, b: u32)
    requires
        is_exp(a),
        is_exp(b),
    ensures
        is_exp(spec_add_exp(a, b)),
        value_of(spec_add_exp(a, b)) == gf_mul(value_of(a), value_of(b)),
{
    lemma_roundtrip();
    lemma_alpha_bijective();
    if a != SENTINEL_EXP && b != SENTINEL_EXP {
        lemma_pow_alpha_range(a as nat);
        lemma_pow_alpha_range(b as nat);
        assert((a as nat) % 255 == a as nat && (b as nat) % 255 == b as nat);
        assert(value_of(a) == pow_alpha(a as nat) && value_of(b) == pow_alpha(b as nat));
        assert(log_alpha(pow_alpha(a as nat)) == a as nat);
        assert(log_alpha(pow_alpha(b as nat)) == b as nat);
        assert(value_of(spec_add_exp(a, b)) == pow_alpha(((a + b) % 255) as nat));
        assert((((a + b) % 255) as u32 as nat) % 255 == ((a as nat) + (b as nat)) % 255);
    }
}

/// The antilog table: entry e holds alpha^e, for e in [0,254].
pub(crate) fn build_exp_table() -> (t: Vec<u32>)
    ensures
        t@.len() == 255,
        forall|i: int| 0 <= i < 255 ==> #[trigger] t@[i] == pow_alpha(i as nat),
{
    let mut t: Vec<u32> = Vec::new();
    let mut v: u32 = 1;
    for i in 0..255usize
        invariant
            t@.len() == i,
            v == pow_alpha(i as nat),
            1 <= v <= 255,
            forall|j: int| 0 <= j < i ==> #[trigger] t@[j] == pow_alpha(j as nat),
    {
        t.push(v);
        v = if v < 128 {
            2 * v
        } else {
            (2 * v) ^ 0x11D
        };
        proof {
            lemma_pow_alpha_range((i + 1) as nat);
        }
    }
    t
}

/// The log table: entry v holds the discrete log of v, for v in [1,255];
/// entry 0 holds the sentinel.
pub(crate) fn build_log_table() -> (t: Vec<u32>)
    ensures
        t@.len() == 256,
        forall|v: int|
            1 <= v < 256 ==> (#[trigger] t@[v]) < 255 && t@[v] as nat == log_alpha(v as u32),
        t@[0] == SENTINEL_EXP,
{
    let exp_table = build_exp_table();
    let mut t: Vec<u32> = vec![SENTINEL_EXP; 256];
    proof {
        lemma_alpha_bijective();
        lemma_pow_alpha_range_all();
    }
    for e in 0..255usize
        invariant
            t@.len() == 256,
            exp_table@.len() == 255,
            forall|i: int| 0 <= i < 255 ==> #[trigger] exp_table@[i] == pow_alpha(i as nat),
            t@[0] == SENTINEL_EXP,
            forall|j: nat| 1 <= #[trigger] pow_alpha(j) <= 255,
            forall|j: int|
                0 <= j < e ==> #[trigger] t@[pow_alpha(j as nat) as int] == j,
            forall|v: u32|
                1 <= v <= 255 ==> (#[trigger] log_alpha(v)) < 255 && pow_alpha(log_alpha(v)) == v,
            forall|j: nat| j < 255 ==> #[trigger] log_alpha(pow_alpha(j)) == j,
    {
        let v = exp_table[e];
        proof {
            lemma_pow_alpha_range(e as nat);
        }
        t[v as usize] = e as u32;
        proof {
            assert forall|j: int|
                0 <= j < e + 1 implies #[trigger] t@[pow_alpha(j as nat) as int] == j by {
                if j < e {
                    assert(log_alpha(pow_alpha(j as nat)) == j as nat);
                    assert(log_alpha(pow_alpha(e as nat)) == e as nat);
                }
            }
        }
    }
    proof {
        assert forall|v: int|
            1 <= v < 256 implies (#[trigger] t@[v]) < 255 && t@[v] as nat == log_alpha(v as u32) by {
            let e = log_alpha(v as u32);
            assert(e < 255 && pow_alpha(e) == v as u32);
            let ej: int = e as int;
            assert(t@[pow_alpha(ej as nat) as int] == ej);
        }
    }
    t
}

/// Value addition (XOR) is commutative and associative, 0 is its identity,
/// and every element cancels itself.
pub proof fn lemma_gf_add_algebra()
    ensures
        forall|x: u32, y: u32| #[trigger] gf_add(x, y) == gf_add(y, x),
        forall|x: u32, y: u32, z: u32|
            #[trigger] gf_add(gf_add(x, y), z) == gf_add(x, gf_add(y, z)),
        forall|x: u32| #[trigger] gf_add(x, 0) == x && gf_add(0, x) == x,
        forall|x: u32| #[trigger] gf_add(x, x) == 0,
{
    assert forall|x: u32, y: u32| #[trigger] gf_add(x, y) == gf_add(y, x) by {
        assert((x ^ y) == (y ^ x)) by (bit_vector);
    }
    assert forall|x: u32, y: u32, z: u32|
        #[trigger] gf_add(gf_add(x, y), z) == gf_add(x, gf_add(y, z)) by {
        assert(((x ^ y) ^ z) == (x ^ (y ^ z))) by (bit_vector);
    }
    assert forall|x: u32| #[trigger] gf_add(x, 0) == x && gf_add(0, x) == x by {
        assert((x ^ 0u32) == x && (0u32 ^ x) == x) by (bit_vector);
    }
    assert forall|x: u32| #[trigger] gf_add(x, x) == 0 by {
        assert((x ^ x) == 0u32) by (bit_vector);
    }
}

/// Value multiplication is commutative, 1 is its identity and 0 absorbs,
/// and it is associative on byte values.
pub proof fn lemma_gf_mul_algebra()
    ensures
        forall|x: u32, y: u32| #[trigger] gf_mul(x, y) == gf_mul(y, x),
        forall|x: u32| x <= 255 ==> #[trigger] gf_mul(x, 1) == x && gf_mul(1, x) == x,
        forall|x: u32| #[trigger] gf_mul(x, 0) == 0 && gf_mul(0, x) == 0,
        forall|x: u32, y: u32, z: u32|
            x <= 255 && y <= 255 && z <= 255 ==> #[trigger] gf_mul(gf_mul(x, y), z) == gf_mul(
                x,
                gf_mul(y, z),
            ),
{
    lemma_alpha_bijective();
    lemma_pow_alpha_range_all();
    assert(pow_alpha(0) == 1);
    assert(log_alpha(1) == 0);
    assert forall|x: u32| x <= 255 implies #[trigger] gf_mul(x, 1) == x && gf_mul(1, x) == x by {
        if x != 0 {
            assert(log_alpha(x) < 255 && pow_alpha(log_alpha(x)) == x);
            assert((log_alpha(x) + 0) % 255 == log_alpha(x));
            assert((0 + log_alpha(x)) % 255 == log_alpha(x));
        }
    }
    assert forall|x: u32, y: u32, z: u32|
        x <= 255 && y <= 255 && z <= 255 implies #[trigger] gf_mul(gf_mul(x, y), z) == gf_mul(
        x,
        gf_mul(y, z),
    ) by {
        if x != 0 && y != 0 && z != 0 {
            let lx = log_alpha(x);
            let ly = log_alpha(y);
            let lz = log_alpha(z);
            assert(gf_mul(x, y) == pow_alpha((lx + ly) % 255));
            assert(1 <= gf_mul(x, y) <= 255);
            assert(log_alpha(gf_mul(x, y)) == (lx + ly) % 255);
            assert(gf_mul(y, z) == pow_alpha((ly + lz) % 255));
            assert(1 <= gf_mul(y, z) <= 255);
            assert(log_alpha(gf_mul(y, z)) == (ly + lz) % 255);
            vstd::arithmetic::div_mod::lemma_add_mod_noop(lx as int + ly as int, lz as int, 255);
            vstd::arithmetic::div_mod::lemma_add_mod_noop(lx as int, ly as int + lz as int, 255);
            assert(((lx + ly) % 255 + lz) % 255 == (lx + ly + lz) % 255);
            assert((lx + (ly + lz) % 255) % 255 == (lx + ly + lz) % 255);
        }
    }
}

/// Wrapping around the full cycle of powers: alpha^255 is 1 again.
pub proof fn lemma_pow_alpha_wraps()
    ensures
        pow_alpha(255) == 1,
{
    lemma_pow_alpha_table();
    assert(pow_alpha(254) == exp_lit(254));
    assert(exp_lit(254) == 142);
    assert((284u32 ^ 0x11Du32) == 1u32) by (bit_vector);
    assert(pow_alpha(255) == gf_double(142));
}

/// Doubling distributes over value addition: both are linear maps on bits.
pub proof fn lemma_gf_double_add(x: u32, y: u32)
    requires
        x <= 255,
        y <= 255,
    ensures
        gf_double(gf_add(x, y)) == gf_add(gf_double(x), gf_double(y)),
{
    assert((x <= 255 && y <= 255) ==> {
        &&& ((x < 128 && y < 128) ==> ((x ^ y) < 128 && ((2 * (x ^ y)) as u32) == (((2 * x) as u32)
            ^ ((2 * y) as u32))))
        &&& ((x >= 128 && y < 128) ==> ((x ^ y) >= 128 && (((2 * (x ^ y)) as u32) ^ 0x11Du32) == (((
        (2 * x) as u32) ^ 0x11Du32) ^ ((2 * y) as u32))))
        &&& ((x < 128 && y >= 128) ==> ((x ^ y) >= 128 && (((2 * (x ^ y)) as u32) ^ 0x11Du32) == ((
        (2 * x) as u32) ^ (((2 * y) as u32) ^ 0x11Du32))))
        &&& ((x >= 128 && y >= 128) ==> ((x ^ y) < 128 && ((2 * (x ^ y)) as u32) == ((((2 * x) as u32)
            ^ 0x11Du32) ^ (((2 * y) as u32) ^ 0x11Du32))))
    }) by (bit_vector);
}

/// Doubling one factor doubles the product.
pub proof fn lemma_gf_mul_double(x: u32, y: u32)
    requires
        x <= 255,
        y <= 255,
    ensures
        gf_mul(gf_double(x), y) == gf_double(gf_mul(x, y)),
{
    lemma_alpha_bijective();
    lemma_pow_alpha_range_all();
    if x == 0 || y == 0 {
        if x == 0 {
            assert(gf_double(0) == 0);
        }
    } else {
        let lx = log_alpha(x);
        let ly = log_alpha(y);
        // the double of x is the next power of alpha
        assert(gf_double(x) == pow_alpha((lx + 1) % 255)) by {
            if lx + 1 < 255 {
                assert(pow_alpha(lx + 1) == gf_double(pow_alpha(lx)));
                assert((lx + 1) % 255 == lx + 1);
            } else {
                lemma_pow_alpha_wraps();
                assert(lx == 254);
                assert((lx + 1) % 255 == 0);
                assert(pow_alpha(255) == gf_double(pow_alpha(254)));
            }
        }
        assert(log_alpha(gf_double(x)) == (lx + 1) % 255);
        assert(gf_double(x) >= 1);
        assert(gf_mul(gf_double(x), y) == pow_alpha(((lx + 1) % 255 + ly) % 255));
        // the double of the product is the next power of alpha as well
        let m = gf_mul(x, y);
        assert(m == pow_alpha((lx + ly) % 255));
        assert(1 <= m <= 255);
        assert(log_alpha(m) == (lx + ly) % 255);
        assert(gf_double(m) == pow_alpha(((lx + ly) % 255 + 1) % 255)) by {
            let lm = (lx + ly) % 255;
            if lm + 1 < 255 {
                assert(pow_alpha((lm + 1) as nat) == gf_double(pow_alpha(lm as nat)));
                assert((lm + 1) % 255 == lm + 1);
            } else {
                lemma_pow_alpha_wraps();
                assert(pow_alpha(255) == gf_double(pow_alpha(254)));
            }
        }
        vstd::arithmetic::div_mod::lemma_add_mod_noop(lx as int + 1, ly as int, 255);
        vstd::arithmetic::div_mod::lemma_add_mod_noop(lx as int + ly, 1, 255);
        assert((1int) % 255 == 1 && ly as int % 255 == ly as int);
        assert(((lx + 1) % 255 + ly) % 255 == (lx + 1 + ly) % 255);
        assert(((lx + ly) % 255 + 1) % 255 == (lx + ly + 1) % 255);
    }
}

/// Multiplication by a power of alpha distributes over value addition.
proof fn lemma_gf_pow_mul_distributes(e: nat, x: u32, y: u32)
    requires
        e < 255,
        x <= 255,
        y <= 255,
    ensures
        gf_mul(pow_alpha(e), gf_add(x, y)) == gf_add(gf_mul(pow_alpha(e), x), gf_mul(
            pow_alpha(e),
            y,
        )),
    decreases e,
{
    lemma_gf_mul_algebra();
    lemma_xor_stays_byte(x, y);
    if e == 0 {
        assert(pow_alpha(0) == 1);
    } else {
        lemma_gf_pow_mul_distributes((e - 1) as nat, x, y);
        lemma_pow_alpha_range(e);
        lemma_pow_alpha_range((e - 1) as nat);
        let p = pow_alpha((e - 1) as nat);
        assert(pow_alpha(e) == gf_double(p));
        lemma_gf_mul_double(p, gf_add(x, y));
        lemma_gf_mul_double(p, x);
        lemma_gf_mul_double(p, y);
        lemma_gf_mul_range(p, x);
        lemma_gf_mul_range(p, y);
        lemma_gf_double_add(gf_mul(p, x), gf_mul(p, y));
    }
}

/// Value multiplication distributes over value addition.
pub proof fn lemma_gf_mul_distributes(a: u32, x: u32, y: u32)
    requires
        a <= 255,
        x <= 255,
        y <= 255,
    ensures
        gf_mul(a, gf_add(x, y)) == gf_add(gf_mul(a, x), gf_mul(a, y)),
{
    if a == 0 {
        assert((0u32 ^ 0u32) == 0u32) by (bit_vector);
    } else {
        lemma_alpha_bijective();
        assert(pow_alpha(log_alpha(a)) == a);
        lemma_gf_pow_mul_distributes(log_alpha(a), x, y);
    }
}

} // verus!
