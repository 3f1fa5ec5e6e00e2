//! Conversions between physical units and the chip's register encodings.
//!
//! Every conversion is total. A physical value beyond the range of an
//! encoding saturates to the nearest end of that range.

use vstd::arithmetic::power2::{lemma2_to64, lemma_pow2_adds, lemma_pow2_pos, lemma_pow2_unfold, pow2};
use vstd::prelude::*;

use crate::lowlevel::FXOSC;

verus! {

/// Largest frequency word (24 bits).
pub const MAX_FREQUENCY_WORD: u64 = 0xFF_FFFF;

/// Largest carrier frequency (Hz) whose frequency word does not saturate.
pub const MAX_FREQUENCY_HZ: u64 = 6_655_999_801;

/// Offset (dB) between the chip's RSSI scale and dBm.
pub const RSSI_OFFSET: i16 = 74;

/// `round(hz * 2^16 / FXOSC)`, saturated to 24 bits.
pub open spec fn frequency_word(hz: int) -> int {
    let w = (hz * 65536 + FXOSC / 2) / (FXOSC as int);
    if w > MAX_FREQUENCY_WORD {
        MAX_FREQUENCY_WORD as int
    } else {
        w
    }
}

/// The carrier frequency (Hz, rounded down) that a frequency word selects.
pub open spec fn frequency_of_word(word: int) -> int {
    word * FXOSC / 65536
}

/// Bytes `(FREQ0, FREQ1, FREQ2)` of a frequency word, least significant first.
pub open spec fn word_bytes(word: int) -> (u8, u8, u8) {
    ((word % 256) as u8, ((word / 256) % 256) as u8, ((word / 65536) % 256) as u8)
}

/// Converts a carrier frequency (Hz) to the register values `(FREQ0, FREQ1, FREQ2)`.
pub fn from_frequency(hz: u64) -> (r: (u8, u8, u8))
    ensures
        r == word_bytes(frequency_word(hz as int)),
{
    let word: u64 = if hz > 7_000_000_000 {
        assert(hz * 65536 + FXOSC / 2 >= (MAX_FREQUENCY_WORD + 1) * FXOSC);
        MAX_FREQUENCY_WORD
    } else {
        let w = (hz * 65536 + FXOSC / 2) / FXOSC;
        if w > MAX_FREQUENCY_WORD {
            MAX_FREQUENCY_WORD
        } else {
            w
        }
    };
    ((word % 256) as u8, ((word / 256) % 256) as u8, ((word / 65536) % 256) as u8)
}

/// Within the tuning range, the frequency word is the nearest one: decoding
/// it gives back the requested frequency within one step of `FXOSC / 2^16` Hz.
pub proof fn lemma_frequency_round_trip(hz: u64)
    requires
        hz <= MAX_FREQUENCY_HZ,
    ensures
        frequency_word(hz as int) * FXOSC <= hz * 65536 + FXOSC / 2,
        hz * 65536 < frequency_word(hz as int) * FXOSC + FXOSC / 2,
        hz - FXOSC / 65536 <= frequency_of_word(frequency_word(hz as int)) <= hz + FXOSC / 65536,
        word_bytes(frequency_word(hz as int)).2 * 65536 + word_bytes(frequency_word(hz as int)).1
            * 256 + word_bytes(frequency_word(hz as int)).0 == frequency_word(hz as int),
{
    let w = (hz * 65536 + FXOSC / 2) / (FXOSC as int);
    assert(w <= MAX_FREQUENCY_WORD);
    assert(frequency_word(hz as int) == w);
}

/// `(base + m) * 2^e * FXOSC`: the value that mantissa `m` and exponent `e`
/// encode, scaled by the power of two in the chip's formula.
pub open spec fn scaled_value(base: int, m: int, e: nat) -> int {
    (base + m) * (pow2(e) * FXOSC)
}

proof fn lemma_pow2_le(e: nat, n: nat)
    requires
        e <= n,
    ensures
        1 <= pow2(e) <= pow2(n),
{
    lemma_pow2_adds(e, (n - e) as nat);
    lemma_pow2_pos(e);
    lemma_pow2_pos((n - e) as nat);
    let a = pow2(e);
    let b = pow2((n - e) as nat);
    assert(a <= a * b) by (nonlinear_arith)
        requires
            a >= 1,
            b >= 1,
    ;
}

/// `(m, e)` is an encoding with `m < base` and `e <= emax`, and the smallest
/// one whose value reaches `target`; the largest encoding if none does.
pub open spec fn smallest_reaching(target: int, base: int, emax: nat, m: int, e: nat) -> bool {
    &&& 0 <= m < base
    &&& e <= emax
    &&& if scaled_value(base, base - 1, emax) >= target {
        &&& scaled_value(base, m, e) >= target
        &&& forall|m2: int, e2: nat|
            0 <= m2 < base && e2 <= emax && #[trigger] scaled_value(base, m2, e2) >= target
                ==> scaled_value(base, m, e) <= scaled_value(base, m2, e2)
    } else {
        m == base - 1 && e == emax
    }
}

/// Data rate (baud) encoded by `DRATE_M = m`, `DRATE_E = e`, scaled by `2^28`.
pub open spec fn scaled_drate(m: int, e: nat) -> int {
    scaled_value(256, m, e)
}

proof fn lemma_scaled_mono_m(base: int, m1: int, m2: int, e: nat)
    requires
        m1 <= m2,
    ensures
        scaled_value(base, m1, e) <= scaled_value(base, m2, e),
{
    lemma_pow2_pos(e);
    let p = pow2(e) * FXOSC;
    assert((base + m1) * p <= (base + m2) * p) by (nonlinear_arith)
        requires
            m1 <= m2,
            p >= 0,
    ;
}

/// An encoding with a larger exponent is above every encoding with a smaller one.
proof fn lemma_scaled_mono_e(base: int, m1: int, e1: nat, m2: int, e2: nat)
    requires
        base >= 1,
        0 <= m1 < base,
        0 <= m2 < base,
        e1 < e2,
    ensures
        scaled_value(base, m1, e1) < scaled_value(base, m2, e2),
{
    lemma_pow2_adds(e1, (e2 - e1) as nat);
    lemma_pow2_pos(e1);
    let d = (e2 - e1) as nat;
    lemma_pow2_unfold(d);
    lemma_pow2_pos((d - 1) as nat);
    let low = pow2(e1);
    let q = pow2(d);
    assert(q >= 2);
    assert(pow2(e2) == low * q);
    assert((base + m1) * (low * FXOSC) < (base + m2) * ((low * q) * FXOSC)) by (nonlinear_arith)
        requires
            0 <= m1 < base,
            0 <= m2,
            low >= 1,
            q >= 2,
    ;
}

/// The smallest encoding `(m, e)`, with `m < base` and `e <= emax`, whose
/// scaled value reaches `target`.
fn smallest_encoding(target: u64, base: u64, emax: u64) -> (r: (u64, u64))
    requires
        1 <= base <= 256,
        emax <= 15,
        target <= scaled_value(base as int, base - 1, emax as nat),
    ensures
        smallest_reaching(target as int, base as int, emax as nat, r.0 as int, r.1 as nat),
{
    proof {
        lemma_pow2_le(emax as nat, 15);
        lemma2_to64();
        assert(target <= 511 * (32768 * FXOSC)) by (nonlinear_arith)
            requires
                target <= (base + (base - 1)) * (pow2(emax as nat) * FXOSC),
                pow2(emax as nat) <= 32768,
                1 <= base <= 256,
        ;
    }
    let mut e: u64 = 0;
    let mut unit: u64 = FXOSC;
    let mut top: u64 = (2 * base - 1) * FXOSC;
    while e < emax && top < target
        invariant
            1 <= base <= 256,
            emax <= 15,
            e <= emax,
            unit == pow2(e as nat) * FXOSC,
            unit <= 32768 * FXOSC,
            top == scaled_value(base as int, base - 1, e as nat),
            target <= 511 * (32768 * FXOSC),
            target <= scaled_value(base as int, base - 1, emax as nat),
            forall|e2: nat| e2 < e ==> #[trigger] scaled_value(base as int, base - 1, e2) < target,
        decreases emax - e,
    {
        proof {
            lemma_pow2_unfold((e + 1) as nat);
            lemma_pow2_le((e + 1) as nat, 15);
            lemma2_to64();
            assert(2 * top <= 511 * (32768 * FXOSC)) by (nonlinear_arith)
                requires
                    top == (base + (base - 1)) * unit,
                    2 * unit <= 32768 * FXOSC,
                    1 <= base <= 256,
            ;
        }
        e = e + 1;
        unit = unit * 2;
        top = top * 2;
        assert(top == scaled_value(base as int, base - 1, e as nat)) by (nonlinear_arith)
            requires
                top == 2 * ((base + (base - 1)) * (pow2((e - 1) as nat) * FXOSC)),
                pow2(e as nat) == 2 * pow2((e - 1) as nat),
        ;
    }
    assert(scaled_value(base as int, base - 1, e as nat) >= target);
    assert((2 * base - 1) * unit >= target);
    let need = (target + unit - 1) / unit;
    let m = if need > base {
        need - base
    } else {
        0
    };
    proof {
        lemma_smallest_encoding(target as int, base as int, emax as nat, e as nat, unit as int, need as int, m as int);
    }
    (m, e)
}

proof fn lemma_smallest_encoding(target: int, base: int, emax: nat, e: nat, unit: int, need: int, m: int)
    requires
        1 <= base,
        e <= emax,
        target >= 0,
        unit == pow2(e) * FXOSC,
        need == (target + unit - 1) / unit,
        m == if need > base { need - base } else { 0 },
        target <= scaled_value(base, base - 1, emax),
        (2 * base - 1) * unit >= target,
        forall|e2: nat| e2 < e ==> #[trigger] scaled_value(base, base - 1, e2) < target,
    ensures
        smallest_reaching(target, base, emax, m, e),
{
    lemma_pow2_pos(e);
    assert(unit >= 1) by (nonlinear_arith)
        requires
            unit == pow2(e) * FXOSC,
            pow2(e) >= 1,
    ;
    // need is the ceiling of target / unit.
    vstd::arithmetic::div_mod::lemma_fundamental_div_mod(target + unit - 1, unit);
    vstd::arithmetic::div_mod::lemma_mod_pos_bound(target + unit - 1, unit);
    let rem = (target + unit - 1) % unit;
    assert(need * unit >= target && (need - 1) * unit < target) by (nonlinear_arith)
        requires
            target + unit - 1 == unit * need + rem,
            0 <= rem < unit,
    ;
    assert(need <= 2 * base - 1) by (nonlinear_arith)
        requires
            (need - 1) * unit < target,
            (2 * base - 1) * unit >= target,
            unit >= 1,
    ;
    assert((base + m) * unit >= target) by (nonlinear_arith)
        requires
            base + m >= need,
            need * unit >= target,
            unit >= 1,
    ;
    assert forall|m2: int, e2: nat|
        0 <= m2 < base && e2 <= emax && #[trigger] scaled_value(base, m2, e2) >= target implies scaled_value(
        base,
        m,
        e,
    ) <= scaled_value(base, m2, e2) by {
        if e2 < e {
            lemma_scaled_mono_m(base, m2, base - 1, e2);
        } else if e2 == e {
            assert(base + m2 >= need) by (nonlinear_arith)
                requires
                    (base + m2) * unit >= target,
                    (need - 1) * unit < target,
                    unit >= 1,
            ;
            lemma_scaled_mono_m(base, m, m2, e);
        } else {
            lemma_scaled_mono_e(base, m, e, m2, e2);
        }
    }
}

/// Converts a data rate (baud) to `(DRATE_M, DRATE_E)`: the slowest encoded
/// rate that is at least `baud`, or the fastest encoding when `baud` is above
/// every encoded rate. Within the encodable range the encoded rate exceeds
/// `baud` by less than 1/256 of itself.
pub fn from_drate(baud: u64) -> (r: (u8, u8))
    ensures
        r.1 < 16,
        smallest_reaching(baud * pow2(28), 256, 15, r.0 as int, r.1 as nat),
        scaled_drate(0, 0) <= baud * pow2(28) <= scaled_drate(255, 15) ==> 256 * (scaled_drate(
            r.0 as int,
            r.1 as nat,
        ) - baud * pow2(28)) < scaled_drate(r.0 as int, r.1 as nat),
{
    proof {
        lemma2_to64();
    }
    if baud > 1_621_826 {
        proof {
            assert(scaled_value(256, 255, 15) == 435355648000000);
            assert(baud * pow2(28) > 435355648000000);
        }
        return (255, 15);
    }
    let target = baud * 268_435_456;
    proof {
        assert(scaled_value(256, 255, 15) == 435355648000000);
    }
    let (m, e) = smallest_encoding(target, 256, 15);
    proof {
        if scaled_drate(0, 0) <= target <= scaled_drate(255, 15) {
            lemma_close_to_target(target as int, 256, 15, m as int, e as nat);
        }
    }
    (m as u8, e as u8)
}

/// Converts a frequency deviation (Hz) to `(DEVIATION_M, DEVIATION_E)`: the
/// smallest encoded deviation that is at least `deviation`, or the largest
/// encoding when `deviation` is above every encoded one.
pub fn from_deviation(deviation: u64) -> (r: (u8, u8))
    ensures
        r.0 < 8,
        r.1 < 8,
        smallest_reaching(deviation * pow2(17), 8, 7, r.0 as int, r.1 as nat),
{
    proof {
        lemma2_to64();
    }
    if deviation > 380_859 {
        proof {
            assert(scaled_value(8, 7, 7) == 49920000000);
            assert(deviation * pow2(17) > 49920000000);
        }
        return (7, 7);
    }
    let target = deviation * 131_072;
    proof {
        assert(scaled_value(8, 7, 7) == 49920000000);
    }
    let (m, e) = smallest_encoding(target, 8, 7);
    (m as u8, e as u8)
}

/// The smallest encoding reaching a target in range overshoots it by less
/// than `1 / base` of its own value.
proof fn lemma_close_to_target(target: int, base: int, emax: nat, m: int, e: nat)
    requires
        1 <= base,
        scaled_value(base, 0, 0) <= target <= scaled_value(base, base - 1, emax),
        smallest_reaching(target, base, emax, m, e),
    ensures
        base * (scaled_value(base, m, e) - target) < scaled_value(base, m, e),
{
    lemma_pow2_pos(e);
    let unit = pow2(e) * FXOSC;
    assert(unit >= 1) by (nonlinear_arith)
        requires
            unit == pow2(e) * FXOSC,
            pow2(e) >= 1,
    ;
    let s = scaled_value(base, m, e);
    assert(s == (base + m) * unit);
    if m > 0 {
        // (m - 1, e) does not reach the target, or it would be the smaller one.
        let below = scaled_value(base, m - 1, e);
        assert(below == (base + (m - 1)) * unit);
        assert(below < s) by (nonlinear_arith)
            requires
                below == (base + (m - 1)) * unit,
                s == (base + m) * unit,
                unit >= 1,
        ;
        assert(below < target);
        assert(base * (s - target) < s) by (nonlinear_arith)
            requires
                below == (base + (m - 1)) * unit,
                s == (base + m) * unit,
                below < target,
                m > 0,
                base >= 1,
                unit >= 1,
        ;
    } else if e > 0 {
        let e1 = (e - 1) as nat;
        lemma_pow2_unfold(e);
        lemma_pow2_pos(e1);
        let half = pow2(e1) * FXOSC;
        assert(unit == 2 * half) by (nonlinear_arith)
            requires
                unit == pow2(e) * FXOSC,
                pow2(e) == 2 * pow2(e1),
                half == pow2(e1) * FXOSC,
        ;
        let below = scaled_value(base, base - 1, e1);
        assert(below == (base + (base - 1)) * half);
        assert(half >= 1) by (nonlinear_arith)
            requires
                half == pow2(e1) * FXOSC,
                pow2(e1) >= 1,
        ;
        assert(below < s) by (nonlinear_arith)
            requires
                below == (base + (base - 1)) * half,
                s == (base + m) * unit,
                m == 0,
                unit == 2 * half,
                half >= 1,
        ;
        assert(below < target);
        assert(base * (s - target) < s) by (nonlinear_arith)
            requires
                below == (base + (base - 1)) * half,
                s == (base + m) * unit,
                m == 0,
                below < target,
                unit == 2 * half,
                base >= 1,
                half >= 1,
        ;
    } else {
        assert(s == scaled_value(base, 0, 0));
        assert(s > 0) by (nonlinear_arith)
            requires
                s == (base + m) * unit,
                m == 0,
                base >= 1,
                unit >= 1,
        ;
        assert(s >= target);
        assert(base * (s - target) == 0) by (nonlinear_arith)
            requires
                s == target,
        ;
    }
}

/// Channel bandwidth divisor `(4 + m) * 2^e`: the bandwidth is
/// `FXOSC / (8 * (4 + m) * 2^e)`.
pub open spec fn chanbw_divisor(m: int, e: nat) -> int {
    (4 + m) * pow2(e)
}

/// Encoding `(m, e)` gives a bandwidth of at least `bandwidth` Hz.
pub open spec fn chanbw_covers(bandwidth: int, m: int, e: nat) -> bool {
    8 * bandwidth * chanbw_divisor(m, e) <= FXOSC
}

/// Converts a channel bandwidth (Hz) to `(CHANBW_M, CHANBW_E)`: the narrowest
/// encoded bandwidth that is at least `bandwidth`, or the widest encoding
/// when `bandwidth` is above every encoded one.
pub fn from_chanbw(bandwidth: u64) -> (r: (u8, u8))
    ensures
        r.0 < 4,
        r.1 < 4,
        if chanbw_covers(bandwidth as int, 0, 0) {
            &&& chanbw_covers(bandwidth as int, r.0 as int, r.1 as nat)
            &&& forall|m2: int, e2: nat|
                0 <= m2 < 4 && e2 < 4 && #[trigger] chanbw_covers(bandwidth as int, m2, e2)
                    ==> chanbw_divisor(m2, e2) <= chanbw_divisor(r.0 as int, r.1 as nat)
        } else {
            r.0 == 0 && r.1 == 0
        },
{
    proof {
        lemma2_to64();
    }
    if bandwidth > 812_500 {
        proof {
            assert(chanbw_divisor(0, 0) == 4);
        }
        return (0, 0);
    }
    let mut best_m: u64 = 0;
    let mut best_e: u64 = 0;
    let mut best_d: u64 = 4;
    let mut e: u64 = 0;
    let mut scale: u64 = 1;
    while e < 4
        invariant
            pow2(3) == 8,
            bandwidth <= 812_500,
            e <= 4,
            scale == pow2(e as nat),
            best_m < 4,
            best_e < 4,
            best_d == chanbw_divisor(best_m as int, best_e as nat),
            chanbw_covers(bandwidth as int, best_m as int, best_e as nat),
            forall|m2: int, e2: nat|
                0 <= m2 < 4 && e2 < e && #[trigger] chanbw_covers(bandwidth as int, m2, e2)
                    ==> chanbw_divisor(m2, e2) <= best_d,
        decreases 4 - e,
    {
        proof {
            lemma_pow2_le(e as nat, 3);
        }
        let mut m: u64 = 0;
        while m < 4
            invariant
                bandwidth <= 812_500,
                e < 4,
                m <= 4,
                scale == pow2(e as nat),
                scale <= 8,
                best_m < 4,
                best_e < 4,
                best_d == chanbw_divisor(best_m as int, best_e as nat),
                chanbw_covers(bandwidth as int, best_m as int, best_e as nat),
                forall|m2: int, e2: nat|
                    0 <= m2 < 4 && (e2 < e || (e2 == e && m2 < m)) && #[trigger] chanbw_covers(
                        bandwidth as int,
                        m2,
                        e2,
                    ) ==> chanbw_divisor(m2, e2) <= best_d,
            decreases 4 - m,
        {
            assert((4 + m) * scale <= 56) by (nonlinear_arith)
                requires
                    m < 4,
                    scale <= 8,
            ;
            let d = (4 + m) * scale;
            assert(8 * bandwidth * d <= 8 * 812_500 * 56) by (nonlinear_arith)
                requires
                    bandwidth <= 812_500,
                    d <= 56,
            ;
            if 8 * bandwidth * d <= FXOSC && d > best_d {
                best_m = m;
                best_e = e;
                best_d = d;
            }
            m = m + 1;
        }
        proof {
            lemma_pow2_unfold((e + 1) as nat);
        }
        e = e + 1;
        scale = scale * 2;
    }
    (best_m as u8, best_e as u8)
}

/// `floor(hz * 2^10 / FXOSC)`, saturated to the 5-bit FREQ_IF field.
pub open spec fn freq_if_value(hz: int) -> int {
    let v = hz * 1024 / (FXOSC as int);
    if v > 31 {
        31
    } else {
        v
    }
}

/// Converts an intermediate frequency (Hz) to the FREQ_IF field value.
pub fn from_freq_if(hz: u64) -> (r: u8)
    ensures
        r == freq_if_value(hz as int),
{
    if hz >= 812_500 {
        31
    } else {
        let v = hz * 1024 / FXOSC;
        if v > 31 {
            31
        } else {
            v as u8
        }
    }
}

/// The RSSI register read as a two's complement number.
pub open spec fn rssi_signed(raw: u8) -> int {
    if raw >= 128 {
        raw - 256
    } else {
        raw as int
    }
}

/// Signal strength in dBm for a raw RSSI value: the two's complement
/// reading halved, truncated toward zero as integer division does, minus
/// the offset; that is `(raw - 256) / 2 - offset` from 128 up and
/// `raw / 2 - offset` below.
pub open spec fn rssi_dbm(raw: u8) -> int {
    if raw >= 128 {
        -((256 - raw) / 2) - RSSI_OFFSET
    } else {
        raw / 2 - RSSI_OFFSET
    }
}

/// Converts a raw RSSI register value to dBm.
pub fn from_rssi_to_rssi_dbm(rssi: u8) -> (r: i16)
    ensures
        r == rssi_dbm(rssi),
{
    if rssi >= 128 {
        let half = ((256u16 - rssi as u16) / 2) as i16;
        -half - RSSI_OFFSET
    } else {
        (rssi / 2) as i16 - RSSI_OFFSET
    }
}

/// RSSI is monotonic in the signed register value: a weaker reading never
/// maps above a stronger one, so no negative reading maps above a
/// non-negative one. In the raw byte order it is monotonic within each of
/// the two segments `0..128` and `128..256`.
pub proof fn lemma_rssi_monotonic(a: u8, b: u8)
    ensures
        rssi_signed(a) <= rssi_signed(b) ==> rssi_dbm(a) <= rssi_dbm(b),
        a <= b && (a < 128 <==> b < 128) ==> rssi_dbm(a) <= rssi_dbm(b),
        a >= 128 && b < 128 ==> rssi_dbm(a) <= rssi_dbm(b),
{
}

} // verus!
