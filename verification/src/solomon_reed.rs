use vstd::prelude::*;
use crate::gf256::{
    build_exp_table, build_log_table, exp_of_value, gf_add, gf_mul, is_exp, log_alpha,
    lemma_add_exp_is_gf_mul, lemma_combine_is_gf_add, lemma_gf_add_zero, lemma_gf_mul_range,
    lemma_gf_add_algebra, lemma_gf_mul_algebra, lemma_gf_mul_distributes, lemma_pow_alpha_range, lemma_roundtrip, lemma_xor_stays_byte, pow_alpha, spec_add_exp,
    spec_combine, value_of, SENTINEL_EXP,
};

verus! {

/// Field multiplication in exponent space: the sentinel (field zero) absorbs,
/// otherwise the exponents add modulo 255.
pub fn add_exp(a: u32, b: u32) -> (r: u32)
    requires
        is_exp(a),
        is_exp(b),
    ensures
        r == spec_add_exp(a, b),
        is_exp(r),
        value_of(r) == gf_mul(value_of(a), value_of(b)),
{
    proof {
        lemma_add_exp_is_gf_mul(a, b);
    }
    if a == SENTINEL_EXP || b == SENTINEL_EXP {
        SENTINEL_EXP
    } else {
        (a + b) % 255
    }
}

/// Antilog lookup: the field value alpha^exp, for an exponent taken modulo 255.
pub fn get_power_of_two(exp: u32) -> (r: u32)
    requires
        exp <= 255,
    ensures
        r == pow_alpha((exp as nat) % 255),
        1 <= r <= 255,
{
    let t = build_exp_table();
    let i = if exp >= 255 {
        0
    } else {
        exp
    };
    proof {
        lemma_pow_alpha_range((exp as nat) % 255);
    }
    t[i as usize]
}

/// Log lookup: the exponent slot a field value is stored as; 0 maps to the
/// sentinel.
pub fn int_to_exponent(value: u32) -> (r: u32)
    requires
        value <= 255,
    ensures
        r == exp_of_value(value),
        is_exp(r),
{
    let t = build_log_table();
    t[value as usize]
}

/// Field addition of two coefficients held in exponent space: the values are
/// XORed and the sum converted back to an exponent slot. The sentinel (field
/// zero) is the identity on either side.
pub fn add_coeffs(coeff_power_a: u32, coeff_power_b: u32) -> (r: u32)
    requires
        is_exp(coeff_power_a),
        is_exp(coeff_power_b),
    ensures
        r == spec_combine(coeff_power_a, coeff_power_b),
        is_exp(r),
        value_of(r) == gf_add(value_of(coeff_power_a), value_of(coeff_power_b)),
{
    proof {
        lemma_combine_is_gf_add(coeff_power_a, coeff_power_b);
        lemma_roundtrip();
    }
    if coeff_power_a == SENTINEL_EXP {
        coeff_power_b
    } else if coeff_power_b == SENTINEL_EXP {
        coeff_power_a
    } else {
        let va = get_power_of_two(coeff_power_a);
        let vb = get_power_of_two(coeff_power_b);
        proof {
            lemma_xor_stays_byte(va, vb);
        }
        let sum = va ^ vb;
        int_to_exponent(sum)
    }
}

/// The field values a sequence of exponent slots stands for.
pub open spec fn values_of(s: Seq<u32>) -> Seq<u32> {
    Seq::new(s.len(), |i: int| value_of(s[i]))
}

/// Every slot of the sequence is a well-formed exponent.
pub open spec fn all_exps(s: Seq<u32>) -> bool {
    forall|i: int| 0 <= i < s.len() ==> is_exp(#[trigger] s[i])
}

/// Rotation of a slot index by p places in a 255-slot coefficient array.
pub open spec fn rot255(i: int, p: int) -> int {
    if i + p < 255 {
        i + p
    } else {
        i + p - 255
    }
}

/// Degree of a polynomial given by its values: the highest index holding a
/// nonzero value, or 0 for the zero polynomial.
pub open spec fn val_deg(s: Seq<u32>) -> int
    decreases s.len(),
{
    if s.len() <= 1 {
        0
    } else if s[s.len() - 1] != 0 {
        s.len() - 1
    } else {
        val_deg(s.drop_last())
    }
}

/// The degree lies inside the array, every slot above it holds zero, and the
/// slot at the degree is nonzero unless the polynomial is zero.
pub proof fn lemma_val_deg_props(s: Seq<u32>)
    requires
        s.len() >= 1,
    ensures
        0 <= val_deg(s) < s.len(),
        forall|i: int| val_deg(s) < i < s.len() ==> s[i] == 0,
        s[val_deg(s)] != 0 || val_deg(s) == 0,
    decreases s.len(),
{
    if s.len() > 1 && s[s.len() - 1] == 0 {
        lemma_val_deg_props(s.drop_last());
        assert forall|i: int| val_deg(s) < i < s.len() implies s[i] == 0 by {
            if i < s.len() - 1 {
                assert(s[i] == s.drop_last()[i]);
            }
        }
        if val_deg(s) != 0 {
            assert(s[val_deg(s)] == s.drop_last()[val_deg(s)]);
        }
    }
}

/// An index that is nonzero (or 0) with only zeros above it is the degree.
pub proof fn lemma_val_deg_unique(s: Seq<u32>, d: int)
    requires
        s.len() >= 1,
        0 <= d < s.len(),
        s[d] != 0 || d == 0,
        forall|i: int| d < i < s.len() ==> s[i] == 0,
    ensures
        val_deg(s) == d,
    decreases s.len(),
{
    if s.len() > 1 {
        if s[s.len() - 1] != 0 {
        } else {
            lemma_val_deg_unique(s.drop_last(), d);
        }
    }
}

/// Highest coefficient slot not holding the sentinel, i.e. the degree of the
/// polynomial the slots stand for.
pub fn get_poly_degree(coeffs: &[u32]) -> (r: u32)
    requires
        coeffs@.len() == 255,
        all_exps(coeffs@),
    ensures
        r == val_deg(values_of(coeffs@)),
        r < 255,
{
    proof {
        lemma_roundtrip();
        lemma_val_deg_props(values_of(coeffs@));
    }
    let mut i: usize = 255;
    while i > 0
        invariant
            i <= 255,
            coeffs@.len() == 255,
            all_exps(coeffs@),
            forall|j: int| i <= j < 255 ==> coeffs@[j] == SENTINEL_EXP,
        decreases i,
    {
        i = i - 1;
        if coeffs[i] != SENTINEL_EXP {
            proof {
                lemma_roundtrip();
                assert(value_of(coeffs@[i as int]) != 0);
                assert forall|j: int| i < j < 255 implies values_of(coeffs@)[j] == 0 by {
                    assert(coeffs@[j] == SENTINEL_EXP);
                }
                lemma_val_deg_unique(values_of(coeffs@), i as int);
            }
            return i as u32;
        }
    }
    proof {
        assert forall|j: int| 0 < j < 255 implies values_of(coeffs@)[j] == 0 by {
            assert(coeffs@[j] == SENTINEL_EXP);
        }
        lemma_val_deg_unique(values_of(coeffs@), 0);
    }
    0
}

/// Multiply a 255-slot polynomial by x^pow: each coefficient moves up by pow
/// places; the index arithmetic rotates modulo 255.
pub fn mult_by_pow_of_x(pow: u32, coeffs: &mut [u32])
    requires
        pow < 255,
        old(coeffs)@.len() == 255,
        all_exps(old(coeffs)@),
    ensures
        final(coeffs)@.len() == 255,
        all_exps(final(coeffs)@),
        forall|i: int| 0 <= i < 255 ==> final(coeffs)@[rot255(i, pow as int)] == old(coeffs)@[i],
        forall|j: int|
            0 <= j < 255 ==> final(coeffs)@[j] == old(coeffs)@[rot255(j, 255 - pow as int)],
{
    let mut new_coeffs: Vec<u32> = vec![SENTINEL_EXP; 255];
    let ghost orig = coeffs@;
    for e in 0..255usize
        invariant
            new_coeffs@.len() == 255,
            coeffs@ == orig,
            orig.len() == 255,
            all_exps(orig),
            pow < 255,
            forall|i: int| 0 <= i < e ==> new_coeffs@[rot255(i, pow as int)] == orig[i],
    {
        let new_exp = add_exp(e as u32, pow);
        proof {
            assert(new_exp == (e + pow) % 255);
            assert(rot255(e as int, pow as int) == new_exp as int);
            assert forall|i: int| 0 <= i < e implies rot255(i, pow as int) != new_exp as int by {}
        }
        new_coeffs[new_exp as usize] = coeffs[e];
    }
    for j in 0..255usize
        invariant
            new_coeffs@.len() == 255,
            coeffs@.len() == 255,
            orig.len() == 255,
            all_exps(orig),
            pow < 255,
            forall|i: int| 0 <= i < 255 ==> new_coeffs@[rot255(i, pow as int)] == orig[i],
            forall|i: int| 0 <= i < j ==> coeffs@[i] == new_coeffs@[i],
            forall|i: int| j <= i < 255 ==> coeffs@[i] == orig[i],
    {
        coeffs[j] = new_coeffs[j];
    }
    proof {
        assert forall|j: int| 0 <= j < 255 implies coeffs@[j] == orig[rot255(j, 255 - pow as int)] by {
            let i = rot255(j, 255 - pow as int);
            assert(rot255(i, pow as int) == j);
        }
        assert forall|j: int| 0 <= j < coeffs@.len() implies is_exp(#[trigger] coeffs@[j]) by {
            let i = rot255(j, 255 - pow as int);
            assert(coeffs@[j] == orig[i]);
        }
    }
}

/// Read a byte message into a 255-slot coefficient array: the last byte is
/// the constant term, the first byte the highest written coefficient.
pub fn nums_to_coeffs(nums: &[u8]) -> (r: Vec<u32>)
    requires
        nums@.len() <= 255,
    ensures
        r@.len() == 255,
        all_exps(r@),
        forall|i: int|
            0 <= i < nums@.len() ==> r@[i] == exp_of_value(nums@[nums@.len() - 1 - i] as u32),
        forall|i: int| nums@.len() <= i < 255 ==> r@[i] == SENTINEL_EXP,
        forall|i: int|
            0 <= i < nums@.len() ==> values_of(r@)[i] == nums@[nums@.len() - 1 - i] as u32,
        forall|i: int| nums@.len() <= i < 255 ==> values_of(r@)[i] == 0,
{
    let mut coeff_powers: Vec<u32> = vec![SENTINEL_EXP; 255];
    let n = nums.len();
    for i in 0..n
        invariant
            coeff_powers@.len() == 255,
            n == nums@.len() <= 255,
            forall|j: int|
                0 <= j < i ==> coeff_powers@[j] == exp_of_value(nums@[n - 1 - j] as u32),
            forall|j: int| i <= j < 255 ==> coeff_powers@[j] == SENTINEL_EXP,
            forall|j: int| 0 <= j < i ==> is_exp(#[trigger] coeff_powers@[j]),
    {
        let e = int_to_exponent(nums[n - 1 - i] as u32);
        coeff_powers[i] = e;
    }
    proof {
        lemma_roundtrip();
        assert forall|i: int|
            0 <= i < nums@.len() implies values_of(coeff_powers@)[i] == nums@[nums@.len() - 1
            - i] as u32 by {
            assert(coeff_powers@[i] == exp_of_value(nums@[nums@.len() - 1 - i] as u32));
            assert(value_of(exp_of_value(nums@[nums@.len() - 1 - i] as u32)) == nums@[nums@.len()
                - 1 - i] as u32);
        }
    }
    coeff_powers
}

/// One synthetic-multiplication step on a value-space polynomial: multiply
/// the polynomial whose coefficient values are prev by (x + alpha^i).
pub open spec fn gen_step(prev: Seq<u32>, i: nat) -> Seq<u32> {
    Seq::new(
        255,
        |j: int|
            gf_add(
                gf_mul(prev[j], pow_alpha(i)),
                if j == 0 {
                    0
                } else {
                    prev[j - 1]
                },
            ),
    )
}

/// Coefficient values of the Reed-Solomon generator polynomial for n
/// codewords: the product of (x + alpha^i) over i in [0, n-1], in a 255-slot
/// array indexed by power of x.
pub open spec fn generator_vals(n: nat) -> Seq<u32>
    decreases n,
{
    if n <= 1 {
        Seq::new(
            255,
            |j: int|
                if j == 0 || j == 1 {
                    1u32
                } else {
                    0u32
                },
        )
    } else {
        gen_step(generator_vals((n - 1) as nat), (n - 1) as nat)
    }
}

/// Shape of the generator polynomial: degree exactly n with leading value 1,
/// every slot a byte value.
pub proof fn lemma_generator_vals_shape(n: nat)
    requires
        1 <= n <= 254,
    ensures
        generator_vals(n).len() == 255,
        generator_vals(n)[n as int] == 1,
        forall|j: int| n < j < 255 ==> generator_vals(n)[j] == 0,
        forall|j: int| 0 <= j < 255 ==> generator_vals(n)[j] <= 255,
    decreases n,
{
    if n == 1 {
    } else {
        lemma_generator_vals_shape((n - 1) as nat);
        let prev = generator_vals((n - 1) as nat);
        let s = generator_vals(n);
        assert(s == gen_step(prev, (n - 1) as nat));
        assert(s[n as int] == 1) by {
            assert(prev[n as int] == 0);
            assert(prev[n as int - 1] == 1);
            lemma_gf_add_zero(1);
        }
        assert forall|j: int| n < j < 255 implies s[j] == 0 by {
            assert(prev[j] == 0);
            assert(prev[j - 1] == 0);
            lemma_gf_add_zero(0);
        }
        assert forall|j: int| 0 <= j < 255 implies s[j] <= 255 by {
            lemma_gf_mul_range(prev[j], pow_alpha((n - 1) as nat));
            if j == 0 {
                lemma_xor_stays_byte(gf_mul(prev[j], pow_alpha((n - 1) as nat)), 0);
            } else {
                lemma_xor_stays_byte(gf_mul(prev[j], pow_alpha((n - 1) as nat)), prev[j - 1]);
            }
        }
    }
}

/// Build the Reed-Solomon generator polynomial for the given number of
/// codewords, held as exponent slots in a 255-slot array.
pub fn get_generator_polynomial(num_codewords: u32) -> (r: Vec<u32>)
    requires
        1 <= num_codewords <= 254,
    ensures
        r@.len() == 255,
        all_exps(r@),
        values_of(r@) == generator_vals(num_codewords as nat),
{
    let mut coeff_powers: Vec<u32> = vec![SENTINEL_EXP; 255];
    coeff_powers[0] = 0;
    coeff_powers[1] = 0;
    proof {
        lemma_roundtrip();
        assert(values_of(coeff_powers@) =~= generator_vals(1));
    }
    let n = num_codewords;
    for i in 1..n
        invariant
            1 <= i <= n <= 254,
            coeff_powers@.len() == 255,
            all_exps(coeff_powers@),
            values_of(coeff_powers@) == generator_vals(i as nat),
    {
        let mut new_powers: Vec<u32> = vec![SENTINEL_EXP; 255];
        let ghost prev = values_of(coeff_powers@);
        proof {
            lemma_generator_vals_shape(i as nat);
        }
        let mut j: usize = 0;
        while j <= (i + 1) as usize
            invariant
                1 <= i < n <= 254,
                j <= i + 2,
                coeff_powers@.len() == 255,
                all_exps(coeff_powers@),
                prev == values_of(coeff_powers@),
                prev == generator_vals(i as nat),
                prev[i as int] == 1,
                forall|k: int| i < k < 255 ==> prev[k] == 0,
                new_powers@.len() == 255,
                forall|k: int| j <= k < 255 ==> new_powers@[k] == SENTINEL_EXP,
                forall|k: int| 0 <= k < j ==> is_exp(#[trigger] new_powers@[k]),
                forall|k: int|
                    0 <= k < j ==> values_of(new_powers@)[k] == gen_step(prev, i as nat)[k],
            decreases i + 2 - j,
        {
            if j == (i + 1) as usize {
                new_powers[j] = 0;
                proof {
                    lemma_roundtrip();
                    assert(value_of(0u32) == pow_alpha(0));
                    assert(gf_mul(prev[j as int], pow_alpha(i as nat)) == 0);
                    lemma_gf_add_zero(prev[j as int - 1]);
                    assert(gen_step(prev, i as nat)[j as int] == 1);
                }
            } else {
                let value1 = add_exp(coeff_powers[j], i);
                let value2 = if j == 0 {
                    SENTINEL_EXP
                } else {
                    coeff_powers[j - 1]
                };
                let combined = add_coeffs(value1, value2);
                new_powers[j] = combined;
                proof {
                    lemma_add_exp_is_gf_mul(coeff_powers@[j as int], i);
                    assert(value_of(i) == pow_alpha(i as nat));
                    assert(value_of(value1) == gf_mul(prev[j as int], pow_alpha(i as nat)));
                    if j == 0 {
                        assert(value_of(value2) == 0);
                    } else {
                        assert(value_of(value2) == prev[j as int - 1]);
                    }
                    assert(values_of(new_powers@)[j as int] == gen_step(prev, i as nat)[j as int]);
                }
            }
            j = j + 1;
        }
        proof {
            lemma_roundtrip();
            assert forall|k: int| 0 <= k < 255 implies values_of(new_powers@)[k] == gen_step(
                prev,
                i as nat,
            )[k] by {
                if k >= i + 2 {
                    assert(new_powers@[k] == SENTINEL_EXP);
                    assert(prev[k] == 0 && prev[k - 1] == 0);
                    lemma_gf_add_zero(0);
                }
            }
            assert(values_of(new_powers@) =~= gen_step(prev, i as nat));
            assert(gen_step(prev, i as nat) == generator_vals((i + 1) as nat));
        }
        coeff_powers = new_powers;
    }
    coeff_powers
}

/// A value-space polynomial shifted up by p slots (multiplied by x^p).
pub open spec fn shift_up(s: Seq<u32>, p: int) -> Seq<u32> {
    Seq::new(
        255,
        |j: int|
            if j >= p {
                s[j - p]
            } else {
                0
            },
    )
}

/// The subtrahend row of one long-division step: the generator scaled by the
/// message's leading value and shifted up so the degrees line up.
pub open spec fn div_row(gen: Seq<u32>, lead: u32, shift: int) -> Seq<u32> {
    Seq::new(
        255,
        |j: int|
            if j >= shift {
                gf_mul(gen[j - shift], lead)
            } else {
                0
            },
    )
}

/// One long-division step with the message at degree d against the generator
/// of degree n: the scaled, shifted generator is added into the message.
pub open spec fn div_step(msg: Seq<u32>, gen: Seq<u32>, d: int, n: int) -> Seq<u32> {
    Seq::new(255, |j: int| gf_add(msg[j], div_row(gen, msg[d], d - n)[j]))
}

/// A run of long-division steps, the message degree walking down from d.
pub open spec fn div_loop(msg: Seq<u32>, gen: Seq<u32>, d: int, n: int, steps: nat) -> Seq<u32>
    decreases steps,
{
    if steps == 0 {
        msg
    } else {
        div_loop(div_step(msg, gen, d, n), gen, d - 1, n, (steps - 1) as nat)
    }
}

/// The remainder left by dividing the message polynomial, shifted up by n
/// slots, by the generator polynomial for n codewords.
pub open spec fn remainder_vals(msg_vals: Seq<u32>, n: int) -> Seq<u32> {
    let d = val_deg(msg_vals);
    div_loop(shift_up(msg_vals, n), generator_vals(n as nat), d + n, n, (d + 1) as nat)
}

/// Unrolling a run of division steps from the back.
proof fn lemma_div_loop_snoc(msg: Seq<u32>, gen: Seq<u32>, d: int, n: int, steps: nat)
    ensures
        div_loop(msg, gen, d, n, (steps + 1) as nat) == div_step(
            div_loop(msg, gen, d, n, steps),
            gen,
            d - steps,
            n,
        ),
    decreases steps,
{
    if steps == 0 {
        assert(div_loop(msg, gen, d, n, 1) == div_loop(div_step(msg, gen, d, n), gen, d - 1, n, 0));
        assert(div_loop(div_step(msg, gen, d, n), gen, d - 1, n, 0) == div_step(msg, gen, d, n));
        assert(div_loop(msg, gen, d, n, 0) == msg);
    } else {
        lemma_div_loop_snoc(div_step(msg, gen, d, n), gen, d - 1, n, (steps - 1) as nat);
        assert(div_loop(msg, gen, d, n, (steps + 1) as nat) == div_loop(
            div_step(msg, gen, d, n),
            gen,
            d - 1,
            n,
            steps,
        ));
        assert(div_loop(msg, gen, d, n, steps) == div_loop(
            div_step(msg, gen, d, n),
            gen,
            d - 1,
            n,
            (steps - 1) as nat,
        ));
    }
}

/// Scale every coefficient of a 255-slot polynomial by the field element the
/// given exponent slot stands for.
fn scale_by_lead(coeffs: &mut Vec<u32>, leading: u32)
    requires
        old(coeffs)@.len() == 255,
        all_exps(old(coeffs)@),
        is_exp(leading),
    ensures
        final(coeffs)@.len() == 255,
        all_exps(final(coeffs)@),
        forall|j: int|
            0 <= j < 255 ==> values_of(final(coeffs)@)[j] == gf_mul(
                values_of(old(coeffs)@)[j],
                value_of(leading),
            ),
{
    let ghost orig = coeffs@;
    for i in 0..255usize
        invariant
            coeffs@.len() == 255,
            orig.len() == 255,
            all_exps(orig),
            is_exp(leading),
            forall|j: int| i <= j < 255 ==> coeffs@[j] == orig[j],
            forall|j: int| 0 <= j < i ==> is_exp(#[trigger] coeffs@[j]),
            forall|j: int|
                0 <= j < i ==> value_of(#[trigger] coeffs@[j]) == gf_mul(value_of(orig[j]), value_of(
                    leading,
                )),
    {
        let prior = coeffs[i];
        proof {
            assert(coeffs@[i as int] == orig[i as int]);
            assert(is_exp(prior));
        }
        let scaled = add_exp(prior, leading);
        coeffs[i] = scaled;
    }
    proof {
        assert forall|j: int| 0 <= j < 255 implies values_of(coeffs@)[j] == gf_mul(
            values_of(orig)[j],
            value_of(leading),
        ) by {
            assert(value_of(coeffs@[j]) == gf_mul(value_of(orig[j]), value_of(leading)));
        }
    }
}

/// Add (XOR of values) a second 255-slot polynomial into the first, slot by
/// slot.
fn add_row(msg: &mut [u32], row: &Vec<u32>)
    requires
        old(msg)@.len() == 255,
        all_exps(old(msg)@),
        row@.len() == 255,
        all_exps(row@),
    ensures
        final(msg)@.len() == 255,
        all_exps(final(msg)@),
        forall|j: int|
            0 <= j < 255 ==> values_of(final(msg)@)[j] == gf_add(
                values_of(old(msg)@)[j],
                values_of(row@)[j],
            ),
{
    let ghost orig = msg@;
    for i in 0..255usize
        invariant
            msg@.len() == 255,
            orig.len() == 255,
            all_exps(orig),
            row@.len() == 255,
            all_exps(row@),
            forall|j: int| i <= j < 255 ==> msg@[j] == orig[j],
            forall|j: int| 0 <= j < i ==> is_exp(#[trigger] msg@[j]),
            forall|j: int|
                0 <= j < i ==> value_of(#[trigger] msg@[j]) == gf_add(value_of(orig[j]), value_of(
                    row@[j],
                )),
    {
        let a = msg[i];
        let b = row[i];
        proof {
            assert(msg@[i as int] == orig[i as int]);
            assert(is_exp(a) && is_exp(b));
        }
        let c = add_coeffs(a, b);
        msg[i] = c;
    }
    proof {
        assert forall|j: int| 0 <= j < 255 implies values_of(msg@)[j] == gf_add(
            values_of(orig)[j],
            values_of(row@)[j],
        ) by {
            assert(value_of(msg@[j]) == gf_add(value_of(orig[j]), value_of(row@[j])));
        }
    }
}

/// A rotation by p of a polynomial whose value-degree stays below 255 - p is
/// a plain shift by p in value space.
proof fn lemma_rot_is_shift(pre: Seq<u32>, post: Seq<u32>, p: int, dpre: int)
    requires
        pre.len() == 255,
        post.len() == 255,
        0 <= p < 255,
        0 <= dpre,
        dpre + p <= 254,
        forall|j: int| 0 <= j < 255 ==> post[j] == pre[rot255(j, 255 - p)],
        forall|j: int| dpre < j < 255 ==> value_of(#[trigger] pre[j]) == 0,
    ensures
        values_of(post) == shift_up(values_of(pre), p),
{
    assert forall|j: int| 0 <= j < 255 implies values_of(post)[j] == shift_up(
        values_of(pre),
        p,
    )[j] by {
        let i = rot255(j, 255 - p);
        assert(post[j] == pre[i]);
        if j < p {
            assert(i == j + 255 - p);
            assert(i > dpre);
            assert(value_of(pre[i]) == 0);
        } else {
            assert(i == j - p);
        }
    }
    assert(values_of(post) =~= shift_up(values_of(pre), p));
}

/// Perform the long division of the message polynomial (multiplied by
/// x^num_codewords to make room) by the generator polynomial, and hand back
/// the num_codewords correction codewords, highest degree first, as plain
/// field values.
#[verifier::loop_isolation(false)]
#[verifier::rlimit(100)]
pub fn get_code_words(msg_coeffs_pows: &mut [u32], num_codewords: u32) -> (r: Vec<u32>)
    requires
        old(msg_coeffs_pows)@.len() == 255,
        all_exps(old(msg_coeffs_pows)@),
        1 <= num_codewords <= 254,
        val_deg(values_of(old(msg_coeffs_pows)@)) + num_codewords <= 254,
        values_of(old(msg_coeffs_pows)@)[val_deg(values_of(old(msg_coeffs_pows)@))] != 0,
    ensures
        r@.len() == num_codewords,
        forall|k: int|
            0 <= k < num_codewords ==> r@[k] == remainder_vals(
                values_of(old(msg_coeffs_pows)@),
                num_codewords as int,
            )[num_codewords - 1 - k],
        forall|k: int| 0 <= k < num_codewords ==> r@[k] <= 255,
{
    let ghost msg0 = values_of(old(msg_coeffs_pows)@);
    let ghost n_ = num_codewords as int;
    proof {
        lemma_val_deg_props(msg0);
    }
    let ghost dm = val_deg(msg0);

    mult_by_pow_of_x(num_codewords, msg_coeffs_pows);
    let ghost s0 = shift_up(msg0, n_);
    let ghost d0 = dm + n_;
    proof {
        assert forall|j: int| dm < j < 255 implies value_of(#[trigger] old(msg_coeffs_pows)@[j])
            == 0 by {
            assert(msg0[j] == 0);
        }
        lemma_rot_is_shift(old(msg_coeffs_pows)@, msg_coeffs_pows@, n_, dm);
        assert(s0[d0] == msg0[dm]);
        assert forall|j: int| d0 < j < 255 implies s0[j] == 0 by {
            assert(msg0[j - n_] == 0);
        }
        lemma_val_deg_unique(s0, d0);
    }

    let gen_coeff_pows = get_generator_polynomial(num_codewords);
    let ghost genv = generator_vals(num_codewords as nat);
    let mut curr_msg_deg = get_poly_degree(msg_coeffs_pows);
    let gen_deg = num_codewords;
    let num_iterations = curr_msg_deg - gen_deg;
    proof {
        lemma_generator_vals_shape(num_codewords as nat);
        lemma_roundtrip();
    }

    let mut it: u32 = 0;
    while it < num_iterations + 1
        invariant
            it <= num_iterations + 1,
            curr_msg_deg == d0 - it,
            msg_coeffs_pows@.len() == 255,
            all_exps(msg_coeffs_pows@),
            values_of(msg_coeffs_pows@) == div_loop(s0, genv, d0, n_, it as nat),
        decreases num_iterations + 1 - it,
    {
        let ghost m_in = values_of(msg_coeffs_pows@);
        let mut temp_gen_coeff_pows = gen_coeff_pows.clone();
        proof {
            assert forall|j: int|
                0 <= j < 255 implies temp_gen_coeff_pows@[j] == gen_coeff_pows@[j] by {}
            assert(temp_gen_coeff_pows@ =~= gen_coeff_pows@);
        }
        let shift = curr_msg_deg - gen_deg;
        mult_by_pow_of_x(shift, temp_gen_coeff_pows.as_mut_slice());
        proof {
            assert forall|j: int| n_ < j < 255 implies value_of(#[trigger] gen_coeff_pows@[j])
                == 0 by {
                assert(values_of(gen_coeff_pows@)[j] == genv[j]);
            }
            lemma_rot_is_shift(gen_coeff_pows@, temp_gen_coeff_pows@, shift as int, n_);
        }
        let ghost shifted_gen = values_of(temp_gen_coeff_pows@);

        let leading = msg_coeffs_pows[curr_msg_deg as usize];
        let ghost lead_val = value_of(leading);
        let ghost row = div_row(genv, lead_val, shift as int);
        scale_by_lead(&mut temp_gen_coeff_pows, leading);
        proof {
            assert forall|j: int| 0 <= j < 255 implies values_of(temp_gen_coeff_pows@)[j]
                == row[j] by {
                assert(values_of(temp_gen_coeff_pows@)[j] == gf_mul(shifted_gen[j], lead_val));
                assert(shifted_gen[j] == shift_up(genv, shift as int)[j]);
                if j >= shift as int {
                    assert(shift_up(genv, shift as int)[j] == genv[j - shift as int]);
                }
            }
        }

        add_row(msg_coeffs_pows, &temp_gen_coeff_pows);
        proof {
            lemma_div_loop_snoc(s0, genv, d0, n_, it as nat);
            assert(lead_val == m_in[d0 - it]);
            assert forall|j: int|
                0 <= j < 255 implies values_of(msg_coeffs_pows@)[j] == div_step(
                m_in,
                genv,
                d0 - it,
                n_,
            )[j] by {
                assert(values_of(msg_coeffs_pows@)[j] == gf_add(m_in[j], values_of(
                    temp_gen_coeff_pows@,
                )[j]));
                assert(values_of(temp_gen_coeff_pows@)[j] == row[j]);
            }
            assert(values_of(msg_coeffs_pows@) =~= div_step(m_in, genv, d0 - it, n_));
            assert(values_of(msg_coeffs_pows@) == div_loop(s0, genv, d0, n_, (it + 1) as nat));
        }
        curr_msg_deg = curr_msg_deg - 1;
        it = it + 1;
    }

    let ghost rem = remainder_vals(msg0, n_);
    proof {
        assert(rem == div_loop(s0, genv, d0, n_, (dm + 1) as nat));
        assert(it as int == dm + 1);
        assert(values_of(msg_coeffs_pows@) == rem);
    }

    let mut codewords: Vec<u32> = Vec::new();
    let mut k: u32 = curr_msg_deg + 1;
    proof {
        assert(k == n_);
    }
    while k > 0
        invariant
            k <= n_,
            codewords@.len() == n_ - k,
            forall|idx: int| 0 <= idx < codewords@.len() ==> codewords@[idx] == rem[n_ - 1 - idx],
            forall|idx: int| 0 <= idx < codewords@.len() ==> codewords@[idx] <= 255,
        decreases k,
    {
        k = k - 1;
        let e = msg_coeffs_pows[k as usize];
        let v = if e == SENTINEL_EXP {
            0
        } else {
            get_power_of_two(e)
        };
        proof {
            assert(v == value_of(e));
            assert(value_of(msg_coeffs_pows@[k as int]) == rem[k as int]);
        }
        codewords.push(v);
    }
    codewords
}


/// Errors of the Reed-Solomon encoder.
#[derive(Debug, Clone, Copy, PartialEq, Eq, Structural)]
pub enum SolomonReedError {
    InvalidParameter,
}

/// The 255-slot value-space polynomial a byte message stands for: the last
/// byte is the constant term, the first byte the highest coefficient.
pub open spec fn message_vals(msg: Seq<u8>) -> Seq<u32> {
    Seq::new(
        255,
        |i: int|
            if i < msg.len() {
                msg[msg.len() - 1 - i] as u32
            } else {
                0
            },
    )
}

/// The correction codewords owed for a message: the remainder coefficients
/// read from degree n-1 down to 0, as bytes.
pub open spec fn ecc_bytes(msg: Seq<u8>, n: int) -> Seq<u8> {
    let rem = remainder_vals(message_vals(msg), n);
    Seq::new(n as nat, |k: int| rem[n - 1 - k] as u8)
}

/// Whether encode accepts its parameters: at least one codeword, a nonempty
/// message, and message plus codewords fitting the 255-slot polynomial.
pub open spec fn encode_params_ok(msg: Seq<u8>, n: int) -> bool {
    1 <= n && 1 <= msg.len() && msg.len() + n <= 255
}

/// Compute the num_codewords Reed-Solomon correction codewords for a byte
/// message: build the generator, shift the message polynomial up, divide, and
/// read the remainder back as bytes, highest degree first.
#[verifier::loop_isolation(false)]
pub fn encode(message: &[u8], num_codewords: u32) -> (r: Result<Vec<u8>, SolomonReedError>)
    ensures
        r is Ok <==> encode_params_ok(message@, num_codewords as int),
        r matches Ok(w) ==> w@ == ecc_bytes(message@, num_codewords as int) && w@.len()
            == num_codewords,
{
    let n = num_codewords;
    let ghost n_ = num_codewords as int;
    if n == 0 || message.len() == 0 || n > 255 || message.len() > 255 - (n as usize) {
        return Err(SolomonReedError::InvalidParameter);
    }
    let mut coeffs = nums_to_coeffs(message);
    proof {
        lemma_roundtrip();
        assert forall|j: int| 0 <= j < 255 implies values_of(coeffs@)[j] == message_vals(
            message@,
        )[j] by {}
        assert(values_of(coeffs@) =~= message_vals(message@));
    }
    let ghost mv = message_vals(message@);
    let deg = get_poly_degree(coeffs.as_slice());
    proof {
        lemma_val_deg_props(mv);
        if val_deg(mv) >= message@.len() {
            assert(mv[val_deg(mv)] == 0);
            assert(val_deg(mv) == 0);
        }
    }
    if coeffs[deg as usize] == SENTINEL_EXP {
        // The zero polynomial: its remainder is zero, so every codeword is 0.
        let out = vec![0u8; n as usize];
        proof {
            assert(mv[val_deg(mv)] == 0);
            assert(val_deg(mv) == 0);
            assert forall|j: int| 0 <= j < 255 implies mv[j] == 0 by {}
            let s0 = shift_up(mv, n_);
            let genv = generator_vals(n_ as nat);
            assert forall|j: int| 0 <= j < 255 implies s0[j] == 0 by {}
            let rem = remainder_vals(mv, n_);
            assert(rem == div_loop(s0, genv, n_, n_, 1));
            let stepped = div_step(s0, genv, n_, n_);
            assert forall|j: int| 0 <= j < 255 implies stepped[j] == 0 by {
                assert(s0[n_] == 0);
                assert(gf_mul(div_row(genv, s0[n_], 0)[j], 0) == 0);
                assert(div_row(genv, 0, 0)[j] == gf_mul(genv[j], 0));
                lemma_gf_add_zero(0);
            }
            assert(div_loop(s0, genv, n_, n_, 1) == div_loop(stepped, genv, n_ - 1, n_, 0));
            assert(rem =~= stepped);
            assert forall|k: int| 0 <= k < n_ implies ecc_bytes(message@, n_)[k] == 0 by {
                assert(rem[n_ - 1 - k] == 0);
            }
            assert(out@ =~= ecc_bytes(message@, n_));
        }
        return Ok(out);
    }
    proof {
        assert(value_of(coeffs@[deg as int]) != 0);
        assert(mv[val_deg(mv)] != 0);
        assert(val_deg(mv) < message@.len());
        assert(val_deg(mv) + n_ <= 254);
    }
    let words = get_code_words(coeffs.as_mut_slice(), n);
    let ghost rem = remainder_vals(mv, n_);
    let mut out: Vec<u8> = Vec::new();
    let mut k: usize = 0;
    while k < n as usize
        invariant
            k <= n_,
            out@.len() == k,
            forall|j: int| 0 <= j < k ==> out@[j] == ecc_bytes(message@, n_)[j],
        decreases n_ - k,
    {
        let w = words[k];
        proof {
            assert(words@[k as int] == rem[n_ - 1 - k]);
            assert(words@[k as int] <= 255);
        }
        out.push(w as u8);
        k = k + 1;
    }
    proof {
        assert(out@ =~= ecc_bytes(message@, n_));
    }
    Ok(out)
}

/// The constant coefficient of the generator polynomial is
/// alpha^(0 + 1 + ... + (n-1)), the product of the roots.
proof fn lemma_generator_const(n: nat)
    requires
        1 <= n <= 254,
    ensures
        generator_vals(n)[0] == pow_alpha(((n * (n - 1) / 2) % 255) as nat),
    decreases n,
{
    crate::gf256::lemma_alpha_bijective();
    crate::gf256::lemma_pow_alpha_range_all();
    if n == 1 {
        assert(generator_vals(1)[0] == 1);
        assert((n * (n - 1) / 2) % 255 == 0) by (nonlinear_arith)
            requires n == 1;
    } else {
        lemma_generator_const((n - 1) as nat);
        let prev = generator_vals((n - 1) as nat);
        let a: nat = (((n - 1) * (n - 2) / 2) % 255) as nat;
        assert(prev[0] == pow_alpha(a));
        assert(generator_vals(n) == gen_step(prev, (n - 1) as nat));
        assert(generator_vals(n)[0] == gf_add(gf_mul(prev[0], pow_alpha((n - 1) as nat)), 0));
        assert(1 <= pow_alpha(a) <= 255 && 1 <= pow_alpha((n - 1) as nat) <= 255);
        assert(log_alpha(pow_alpha(a)) == a);
        assert(log_alpha(pow_alpha((n - 1) as nat)) == (n - 1) as nat);
        assert(gf_mul(pow_alpha(a), pow_alpha((n - 1) as nat)) == pow_alpha(
            ((a + (n - 1) as nat) % 255) as nat,
        ));
        lemma_gf_add_zero(gf_mul(prev[0], pow_alpha((n - 1) as nat)));
        assert(n * (n - 1) / 2 == (n - 1) * (n - 2) / 2 + (n - 1)) by (nonlinear_arith);
        vstd::arithmetic::div_mod::lemma_add_mod_noop(
            ((n - 1) * (n - 2) / 2) as int,
            (n - 1) as int,
            255,
        );
        assert((n - 1) as int % 255 == (n - 1) as int);
        assert(((a + (n - 1) as nat) % 255) as nat == ((n * (n - 1) / 2) % 255) as nat);
    }
}

/// The generator polynomial for n codewords has degree exactly n, leading
/// coefficient of field value 1, and constant coefficient alpha to the
/// triangular number 0 + 1 + ... + (n-1) reduced modulo 255; for a single
/// codeword the constant coefficient is the field value 1 as well.
pub proof fn lemma_generator_extremes(n: nat)
    requires
        1 <= n <= 254,
    ensures
        val_deg(generator_vals(n)) == n,
        generator_vals(n)[n as int] == 1,
        generator_vals(n)[0] == pow_alpha(((n * (n - 1) / 2) % 255) as nat),
        n == 1 ==> generator_vals(n)[0] == 1,
{
    lemma_generator_vals_shape(n);
    lemma_val_deg_unique(generator_vals(n), n as int);
    lemma_generator_const(n);
    if n == 1 {
        assert((1nat * 0 / 2) % 255 == 0) by (nonlinear_arith);
    }
}

/// The sentinel is the identity of coefficient addition on both sides.
pub proof fn lemma_combine_identity(a: u32, b: u32)
    requires
        is_exp(a),
        is_exp(b),
    ensures
        spec_combine(a, SENTINEL_EXP) == a,
        spec_combine(SENTINEL_EXP, b) == b,
{
}

/// The sentinel absorbs under exponent addition (field multiplication by
/// zero gives zero).
pub proof fn lemma_add_exp_absorbs(a: u32)
    ensures
        spec_add_exp(a, SENTINEL_EXP) == SENTINEL_EXP,
        spec_add_exp(SENTINEL_EXP, a) == SENTINEL_EXP,
{
}

/// The value of a polynomial at a point, folded from slot j upward:
/// p[j] + x * (p[j+1] + x * (...)).
pub open spec fn eval_from(p: Seq<u32>, x: u32, j: int) -> u32
    decreases p.len() - j,
{
    if j < 0 || j >= p.len() {
        0
    } else {
        gf_add(p[j], gf_mul(x, eval_from(p, x, j + 1)))
    }
}

/// The value of a polynomial at a point.
pub open spec fn poly_eval(p: Seq<u32>, x: u32) -> u32 {
    eval_from(p, x, 0)
}

/// Evaluation of byte-valued coefficients at a byte point stays a byte.
proof fn lemma_eval_range(p: Seq<u32>, x: u32, j: int)
    requires
        forall|k: int| 0 <= k < p.len() ==> p[k] <= 255,
        x <= 255,
    ensures
        eval_from(p, x, j) <= 255,
    decreases p.len() - j,
{
    if 0 <= j < p.len() {
        lemma_eval_range(p, x, j + 1);
        lemma_gf_mul_range(x, eval_from(p, x, j + 1));
        lemma_xor_stays_byte(p[j], gf_mul(x, eval_from(p, x, j + 1)));
    }
}

/// A tail of zero coefficients evaluates to zero.
proof fn lemma_eval_zero_suffix(p: Seq<u32>, x: u32, j: int)
    requires
        forall|k: int| j <= k < p.len() ==> p[k] == 0,
    ensures
        eval_from(p, x, j) == 0,
    decreases p.len() - j,
{
    if 0 <= j < p.len() {
        lemma_eval_zero_suffix(p, x, j + 1);
        assert(gf_mul(x, 0) == 0);
        lemma_gf_add_zero(0);
    }
}

/// Folding the synthetic-multiplication step from slot j upward: the new
/// tail value is alpha^i times the old tail value, plus the old value one
/// slot lower (which carries the multiplication by x).
proof fn lemma_eval_gen_step_from(prev: Seq<u32>, i: nat, x: u32, j: int)
    requires
        prev.len() == 255,
        forall|k: int| 0 <= k < 255 ==> prev[k] <= 255,
        prev[254] == 0,
        x <= 255,
        i < 255,
        1 <= j <= 255,
    ensures
        eval_from(gen_step(prev, i), x, j) == gf_add(
            gf_mul(pow_alpha(i), eval_from(prev, x, j)),
            eval_from(prev, x, j - 1),
        ),
    decreases 255 - j,
{
    lemma_gf_add_algebra();
    lemma_gf_mul_algebra();
    lemma_pow_alpha_range(i);
    let pw = pow_alpha(i);
    let nw = gen_step(prev, i);
    lemma_eval_range(prev, x, j);
    lemma_eval_range(prev, x, j - 1);
    if j == 255 {
        assert(eval_from(nw, x, 255) == 0);
        assert(eval_from(prev, x, 254) == gf_add(prev[254], gf_mul(x, 0)));
        assert(gf_mul(pw, 0) == 0);
    } else {
        lemma_eval_gen_step_from(prev, i, x, j + 1);
        lemma_eval_range(prev, x, j + 1);
        let e1 = eval_from(prev, x, j + 1);
        let e0 = eval_from(prev, x, j);
        let em = eval_from(prev, x, j - 1);
        lemma_gf_mul_range(pw, e1);
        lemma_gf_mul_range(x, e1);
        lemma_gf_mul_range(x, e0);
        assert(nw[j] == gf_add(gf_mul(prev[j], pw), prev[j - 1]));
        assert(eval_from(nw, x, j) == gf_add(nw[j], gf_mul(x, eval_from(nw, x, j + 1))));
        // distribute x over the tail, then regroup the four summands
        lemma_gf_mul_distributes(x, gf_mul(pw, e1), e0);
        assert(gf_mul(x, gf_mul(pw, e1)) == gf_mul(pw, gf_mul(x, e1)));
        assert(eval_from(nw, x, j) == gf_add(
            gf_add(gf_mul(prev[j], pw), prev[j - 1]),
            gf_add(gf_mul(pw, gf_mul(x, e1)), gf_mul(x, e0)),
        ));
        // regroup: (a + b) + (c + d) == (a + c) + (b + d)
        let a = gf_mul(prev[j], pw);
        let b = prev[j - 1];
        let c = gf_mul(pw, gf_mul(x, e1));
        let d = gf_mul(x, e0);
        assert(gf_add(gf_add(a, b), gf_add(c, d)) == gf_add(gf_add(a, c), gf_add(b, d))) by {
            assert(((a ^ b) ^ (c ^ d)) == ((a ^ c) ^ (b ^ d))) by (bit_vector);
        }
        // the first pair is alpha^i times the old tail value
        lemma_gf_mul_range(x, e1);
        lemma_gf_mul_distributes(pw, prev[j], gf_mul(x, e1));
        assert(gf_add(a, c) == gf_mul(pw, gf_add(prev[j], gf_mul(x, e1))));
        assert(gf_add(prev[j], gf_mul(x, e1)) == e0);
        // the second pair is the old value one slot lower
        assert(gf_add(b, d) == em);
    }
}

/// Multiplying a polynomial by (x + alpha^i) through the synthetic step
/// multiplies its value at any point by (x + alpha^i).
proof fn lemma_eval_gen_step(prev: Seq<u32>, i: nat, x: u32)
    requires
        prev.len() == 255,
        forall|k: int| 0 <= k < 255 ==> prev[k] <= 255,
        prev[254] == 0,
        x <= 255,
        i < 255,
    ensures
        poly_eval(gen_step(prev, i), x) == gf_mul(
            poly_eval(prev, x),
            gf_add(x, pow_alpha(i)),
        ),
{
    lemma_gf_add_algebra();
    lemma_gf_mul_algebra();
    lemma_pow_alpha_range(i);
    let pw = pow_alpha(i);
    let nw = gen_step(prev, i);
    lemma_eval_gen_step_from(prev, i, x, 1);
    let e1 = eval_from(prev, x, 1);
    let e0 = eval_from(prev, x, 0);
    lemma_eval_range(prev, x, 0);
    lemma_eval_range(prev, x, 1);
    lemma_gf_mul_range(pw, e1);
    lemma_gf_mul_range(x, e1);
    assert(nw[0] == gf_add(gf_mul(prev[0], pw), 0));
    lemma_gf_add_zero(gf_mul(prev[0], pw));
    assert(eval_from(nw, x, 0) == gf_add(
        gf_mul(prev[0], pw),
        gf_mul(x, gf_add(gf_mul(pw, e1), e0)),
    ));
    lemma_gf_mul_distributes(x, gf_mul(pw, e1), e0);
    assert(gf_mul(x, gf_mul(pw, e1)) == gf_mul(pw, gf_mul(x, e1)));
    let a = gf_mul(prev[0], pw);
    let c = gf_mul(pw, gf_mul(x, e1));
    let d = gf_mul(x, e0);
    assert(gf_add(a, gf_add(c, d)) == gf_add(gf_add(a, c), d)) by {
        assert((a ^ (c ^ d)) == ((a ^ c) ^ d)) by (bit_vector);
    }
    lemma_gf_mul_distributes(pw, prev[0], gf_mul(x, e1));
    assert(gf_add(a, c) == gf_mul(pw, gf_add(prev[0], gf_mul(x, e1))));
    assert(gf_add(prev[0], gf_mul(x, e1)) == e0);
    // e0 * alpha^i + e0 * x == e0 * (x + alpha^i)
    lemma_gf_mul_distributes(e0, pw, x);
    assert(gf_add(gf_mul(pw, e0), gf_mul(x, e0)) == gf_mul(e0, gf_add(pw, x)));
    assert(gf_add(pw, x) == gf_add(x, pw));
}

/// Root property of the generator polynomial: for every i below n, alpha^i
/// is a root of the generator polynomial for n codewords, since the
/// construction multiplies in the factor (x + alpha^i).
pub proof fn lemma_generator_root(n: nat, i: nat)
    requires
        1 <= n <= 254,
        i < n,
    ensures
        poly_eval(generator_vals(n), pow_alpha(i)) == 0,
    decreases n,
{
    lemma_gf_add_algebra();
    lemma_gf_mul_algebra();
    lemma_pow_alpha_range(i);
    let x = pow_alpha(i);
    if n == 1 {
        let p = generator_vals(1);
        assert(pow_alpha(0) == 1);
        lemma_eval_zero_suffix(p, x, 2);
        assert(p[1] == 1 && p[0] == 1);
        assert(eval_from(p, x, 1) == gf_add(1, gf_mul(x, 0)));
        lemma_gf_add_zero(1);
        assert(eval_from(p, x, 0) == gf_add(1, gf_mul(1, 1)));
        assert(gf_add(1, 1) == 0);
    } else {
        lemma_generator_vals_shape((n - 1) as nat);
        let prev = generator_vals((n - 1) as nat);
        assert(prev[254] == 0);
        lemma_eval_gen_step(prev, (n - 1) as nat, x);
        lemma_eval_range(prev, x, 0);
        if i == n - 1 {
            assert(gf_add(x, pow_alpha((n - 1) as nat)) == 0);
            assert(gf_mul(poly_eval(prev, x), 0) == 0);
        } else {
            lemma_generator_root((n - 1) as nat, i);
            assert(poly_eval(prev, x) == 0);
            assert(gf_mul(0, gf_add(x, pow_alpha((n - 1) as nat))) == 0);
        }
    }
}

} // verus!
