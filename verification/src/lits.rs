use vstd::prelude::*;
use vstd::string::StrSliceExecFns;
use vstd::string::StringExecFns;

use crate::token::{Ident, LitFloat, LitInt, Span};

verus! {

/// The numeric value of a lowercase hex digit, or 16 for any other
/// character.
pub open spec fn hex_val(c: char) -> nat {
    if '0' <= c && c <= '9' {
        ((c as int) - ('0' as int)) as nat
    } else if 'a' <= c && c <= 'f' {
        ((c as int) - ('a' as int) + 10) as nat
    } else {
        16
    }
}

pub open spec fn is_hex(c: char) -> bool {
    hex_val(c) < 16
}

/// The lowercase hex digit spelling a value below 16.
pub open spec fn hex_char(d: nat) -> char {
    if d == 0 {
        '0'
    } else if d == 1 {
        '1'
    } else if d == 2 {
        '2'
    } else if d == 3 {
        '3'
    } else if d == 4 {
        '4'
    } else if d == 5 {
        '5'
    } else if d == 6 {
        '6'
    } else if d == 7 {
        '7'
    } else if d == 8 {
        '8'
    } else if d == 9 {
        '9'
    } else if d == 10 {
        'a'
    } else if d == 11 {
        'b'
    } else if d == 12 {
        'c'
    } else if d == 13 {
        'd'
    } else if d == 14 {
        'e'
    } else {
        'f'
    }
}

pub open spec fn pow16(n: nat) -> nat
    decreases n,
{
    if n == 0 {
        1
    } else {
        16 * pow16((n - 1) as nat)
    }
}

/// The value of a little-endian sequence of hex digits: the digit at index
/// `i` carries weight `16^i`.
pub open spec fn nat_of_hex(s: Seq<char>) -> nat
    decreases s.len(),
{
    if s.len() == 0 {
        0
    } else {
        hex_val(s[0]) + 16 * nat_of_hex(s.subrange(1, s.len() as int))
    }
}

proof fn lemma_pow16_pos(n: nat)
    ensures
        pow16(n) >= 1,
    decreases n,
{
    if n > 0 {
        lemma_pow16_pos((n - 1) as nat);
    }
}

proof fn lemma_nat_of_hex_push(s: Seq<char>, d: char)
    ensures
        nat_of_hex(s.push(d)) == nat_of_hex(s) + hex_val(d) * pow16(s.len()),
    decreases s.len(),
{
    if s.len() == 0 {
        assert(s.push(d)[0] == d);
        assert(s.push(d).subrange(1, 1) =~= Seq::<char>::empty());
        assert(nat_of_hex(Seq::<char>::empty()) == 0);
        assert(nat_of_hex(s.push(d)) == hex_val(d));
        assert(pow16(0) == 1);
    } else {
        let t = s.push(d);
        assert(t[0] == s[0]);
        assert(t.subrange(1, t.len() as int) =~= s.subrange(1, s.len() as int).push(d));
        lemma_nat_of_hex_push(s.subrange(1, s.len() as int), d);
        let rest = s.subrange(1, s.len() as int);
        assert(nat_of_hex(t) == hex_val(s[0]) + 16 * (nat_of_hex(rest) + hex_val(d) * pow16(rest.len())));
        assert(16 * (nat_of_hex(rest) + hex_val(d) * pow16(rest.len())) == 16 * nat_of_hex(rest)
            + 16 * (hex_val(d) * pow16(rest.len()))) by (nonlinear_arith);
        assert(16 * (hex_val(d) * pow16(rest.len())) == hex_val(d) * (16 * pow16(rest.len())))
            by (nonlinear_arith);
        assert(pow16(s.len()) == 16 * pow16(rest.len()));
    }
}

proof fn lemma_nat_of_hex_upper(s: Seq<char>)
    requires
        forall|i: int| 0 <= i < s.len() ==> is_hex(#[trigger] s[i]),
    ensures
        nat_of_hex(s) < pow16(s.len()),
    decreases s.len(),
{
    if s.len() == 0 {
    } else {
        let rest = s.subrange(1, s.len() as int);
        lemma_nat_of_hex_upper(rest);
        assert(hex_val(s[0]) <= 15);
        assert(nat_of_hex(s) == hex_val(s[0]) + 16 * nat_of_hex(rest));
        assert(nat_of_hex(rest) < pow16(rest.len()));
        assert(16 * nat_of_hex(rest) <= 16 * (pow16(rest.len()) - 1)) by (nonlinear_arith)
            requires
                nat_of_hex(rest) <= pow16(rest.len()) - 1,
        ;
        assert(pow16(s.len()) == 16 * pow16(rest.len()));
    }
}

proof fn lemma_nat_of_hex_lower(s: Seq<char>)
    requires
        s.len() > 0,
        forall|i: int| 0 <= i < s.len() ==> is_hex(#[trigger] s[i]),
        hex_val(s.last()) != 0,
    ensures
        nat_of_hex(s) >= pow16((s.len() - 1) as nat),
    decreases s.len(),
{
    if s.len() == 1 {
        assert(nat_of_hex(s) == hex_val(s[0]) + 16 * nat_of_hex(s.subrange(1, 1)));
        assert(s.subrange(1, 1) =~= Seq::<char>::empty());
    } else {
        let rest = s.subrange(1, s.len() as int);
        assert(rest.last() == s.last());
        lemma_nat_of_hex_lower(rest);
        assert(nat_of_hex(s) == hex_val(s[0]) + 16 * nat_of_hex(rest));
        assert(16 * nat_of_hex(rest) >= 16 * pow16((rest.len() - 1) as nat)) by (nonlinear_arith)
            requires
                nat_of_hex(rest) >= pow16((rest.len() - 1) as nat),
        ;
        assert(pow16((s.len() - 1) as nat) == 16 * pow16((s.len() - 2) as nat));
    }
}

proof fn lemma_pow16_64()
    ensures
        pow16(16) == 0x1_0000_0000_0000_0000,
{
    reveal_with_fuel(pow16, 17);
}

/// An arbitrary-precision natural number. The digits are held little-endian
/// in base 16, one character per digit, with no leading zero: the zero value
/// has no digits at all and every value has exactly one representation.
#[derive(Debug)]
pub struct Natural {
    pub digits: String,
}

impl View for Natural {
    type V = nat;

    open spec fn view(&self) -> nat {
        nat_of_hex(self.digits@)
    }
}

fn append_hex_digit(acc: &mut String, d: u32)
    requires
        d < 16,
    ensures
        final(acc)@ == old(acc)@.push(hex_char(d as nat)),
{
    let ghost pre = acc@;
    if d == 0 {
        acc.append("0");
        proof {
            reveal_strlit("0");
        }
    } else if d == 1 {
        acc.append("1");
        proof {
            reveal_strlit("1");
        }
    } else if d == 2 {
        acc.append("2");
        proof {
            reveal_strlit("2");
        }
    } else if d == 3 {
        acc.append("3");
        proof {
            reveal_strlit("3");
        }
    } else if d == 4 {
        acc.append("4");
        proof {
            reveal_strlit("4");
        }
    } else if d == 5 {
        acc.append("5");
        proof {
            reveal_strlit("5");
        }
    } else if d == 6 {
        acc.append("6");
        proof {
            reveal_strlit("6");
        }
    } else if d == 7 {
        acc.append("7");
        proof {
            reveal_strlit("7");
        }
    } else if d == 8 {
        acc.append("8");
        proof {
            reveal_strlit("8");
        }
    } else if d == 9 {
        acc.append("9");
        proof {
            reveal_strlit("9");
        }
    } else if d == 10 {
        acc.append("a");
        proof {
            reveal_strlit("a");
        }
    } else if d == 11 {
        acc.append("b");
        proof {
            reveal_strlit("b");
        }
    } else if d == 12 {
        acc.append("c");
        proof {
            reveal_strlit("c");
        }
    } else if d == 13 {
        acc.append("d");
        proof {
            reveal_strlit("d");
        }
    } else if d == 14 {
        acc.append("e");
        proof {
            reveal_strlit("e");
        }
    } else {
        acc.append("f");
        proof {
            reveal_strlit("f");
        }
    }
    proof {
        assert(acc@ =~= pre.push(hex_char(d as nat)));
    }
}

fn hex_digit_val(c: char) -> (r: u32)
    requires
        is_hex(c),
    ensures
        r as nat == hex_val(c),
{
    if c >= '0' && c <= '9' {
        (c as u32) - ('0' as u32)
    } else {
        (c as u32) - ('a' as u32) + 10
    }
}

impl Natural {
    /// The representation invariant: hex digits only, most significant digit
    /// (the last one) nonzero.
    pub open spec fn wf(&self) -> bool {
        &&& (forall|i: int| 0 <= i < self.digits@.len() ==> is_hex(#[trigger] self.digits@[i]))
        &&& (self.digits@.len() == 0 || hex_val(self.digits@.last()) != 0)
    }

    /// Zero.
    pub fn new() -> (r: Natural)
        ensures
            r@ == 0,
            r.wf(),
    {
        Natural { digits: String::new() }
    }

    /// An exact copy; spelled out so that its effect is specified.
    pub fn dup(&self) -> (r: Natural)
        ensures
            r == *self,
    {
        Natural { digits: self.digits.clone() }
    }

    /// Replaces the value `v` by `v * base + digit`: one step of reading a
    /// number digit by digit in any base up to 36.
    pub fn mul_add(&mut self, base: u32, digit: u32)
        requires
            old(self).wf(),
            2 <= base <= 36,
            digit < base,
        ensures
            final(self).wf(),
            final(self)@ == old(self)@ * base + digit,
    {
        let ghost src = self.digits@;
        let ghost target: nat = (nat_of_hex(src) * base + digit) as nat;
        let n = self.digits.unicode_len();
        let mut out = String::new();
        let mut carry: u32 = digit;
        let mut i: usize = 0;
        proof {
            assert(src.subrange(0, 0) =~= Seq::<char>::empty());
            assert(nat_of_hex(Seq::<char>::empty()) == 0);
            assert(pow16(0) == 1);
        }
        while i < n
            invariant
                n == src.len(),
                self.digits@ == src,
                old(self).wf(),
                2 <= base <= 36,
                i <= n,
                out@.len() == i,
                carry <= 36,
                forall|j: int| 0 <= j < out@.len() ==> is_hex(#[trigger] out@[j]),
                nat_of_hex(out@) + carry * pow16(i as nat) == nat_of_hex(src.subrange(0, i as int))
                    * base + digit,
                (i == n && carry == 0 && n > 0) ==> hex_val(out@.last()) != 0,
            decreases n - i,
        {
            let c = self.digits.as_str().get_char(i);
            assert(is_hex(c));
            let dv = hex_digit_val(c);
            proof {
                assert(dv * base + carry <= 540 + 36) by (nonlinear_arith)
                    requires
                        dv <= 15,
                        base <= 36,
                        carry <= 36,
                ;
            }
            let t = dv * base + carry;
            let ghost out_pre = out@;
            let ghost carry_pre = carry as nat;
            append_hex_digit(&mut out, t % 16);
            carry = t / 16;
            i += 1;
            proof {
                let ii = (i - 1) as nat;
                let p = pow16(ii);
                let a = nat_of_hex(src.subrange(0, i as int));
                let b = nat_of_hex(src.subrange(0, ii as int));
                let h = hex_val(src[ii as int]);
                lemma_nat_of_hex_push(out_pre, hex_char((t % 16) as nat));
                assert(hex_val(hex_char((t % 16) as nat)) == (t % 16) as nat);
                assert(nat_of_hex(out@) == nat_of_hex(out_pre) + (t % 16) * p);
                assert((t % 16) + 16 * (t / 16) == t);
                assert(pow16(ii + 1) == 16 * p);
                assert(carry * pow16(ii + 1) == (t / 16) * (16 * p));
                assert((t / 16) * (16 * p) == (16 * (t / 16)) * p) by (nonlinear_arith);
                assert(((t % 16) as nat) * p + (16 * (t / 16)) * p == t * p) by (nonlinear_arith)
                    requires
                        (t % 16) + 16 * (t / 16) == t,
                ;
                assert(nat_of_hex(out@) + carry * pow16(ii + 1) == nat_of_hex(out_pre) + t * p);
                // the processed source prefix grew by one digit
                assert(src.subrange(0, i as int).drop_last() =~= src.subrange(0, ii as int));
                assert(src.subrange(0, i as int) =~= src.subrange(0, ii as int).push(
                    src[ii as int],
                ));
                lemma_nat_of_hex_push(src.subrange(0, ii as int), src[ii as int]);
                assert(a == b + h * p);
                assert(dv as nat == h);
                assert(t * p == (h * base) * p + carry_pre * p) by (nonlinear_arith)
                    requires
                        t == h * base + carry_pre,
                ;
                assert(a * base == b * base + (h * base) * p) by (nonlinear_arith)
                    requires
                        a == b + h * p,
                ;
                assert(nat_of_hex(out_pre) + carry_pre * p == b * base + digit);
                assert(nat_of_hex(out@) + carry * pow16(ii + 1) == b * base + digit + (h * base)
                    * p);
                assert(nat_of_hex(out@) + carry * pow16(i as nat) == a * base + digit);
                // last-digit case: when the loop ends with no carry the final
                // pushed digit came from a nonzero source digit
                if i == n && carry == 0 {
                    assert(t < 16);
                    assert(hex_val(src.last()) != 0);
                    assert(dv >= 1);
                    assert(t >= 2) by (nonlinear_arith)
                        requires
                            t == dv * base + carry_pre,
                            dv >= 1,
                            base >= 2,
                    ;
                    assert(out@.last() == hex_char((t % 16) as nat));
                }
            }
        }
        proof {
            assert(src.subrange(0, n as int) =~= src);
        }
        while carry > 0
            invariant
                carry <= 36,
                forall|j: int| 0 <= j < out@.len() ==> is_hex(#[trigger] out@[j]),
                nat_of_hex(out@) + carry * pow16(out@.len()) == target,
                carry == 0 ==> (out@.len() == 0 || hex_val(out@.last()) != 0),
            decreases carry,
        {
            let ghost out_pre = out@;
            let ghost carry_pre = carry as nat;
            let d = carry % 16;
            append_hex_digit(&mut out, d);
            carry = carry / 16;
            proof {
                lemma_nat_of_hex_push(out_pre, hex_char(d as nat));
                assert(hex_val(hex_char(d as nat)) == d as nat);
                assert(nat_of_hex(out@) == nat_of_hex(out_pre) + d * pow16(out_pre.len()));
                assert(d + 16 * (carry_pre / 16) == carry_pre);
                assert(carry * pow16(out@.len()) == (carry_pre / 16) * (16 * pow16(out_pre.len())));
                assert((carry_pre / 16) * (16 * pow16(out_pre.len())) == (16 * (carry_pre / 16))
                    * pow16(out_pre.len())) by (nonlinear_arith);
                assert(nat_of_hex(out@) + carry * pow16(out@.len()) == nat_of_hex(out_pre) + (d + 16
                    * (carry_pre / 16)) * pow16(out_pre.len())) by (nonlinear_arith)
                    requires
                        nat_of_hex(out@) == nat_of_hex(out_pre) + d * pow16(out_pre.len()),
                        carry * pow16(out@.len()) == (16 * (carry_pre / 16)) * pow16(out_pre.len()),
                ;
                if carry == 0 {
                    assert(carry_pre < 16);
                    assert(d == carry_pre);
                    assert(d != 0);
                    assert(out@.last() == hex_char(d as nat));
                }
            }
        }
        proof {
            lemma_pow16_pos(out@.len());
        }
        self.digits = out;
    }

    /// The value as a machine word, where it fits.
    pub fn to_u64(&self) -> (r: Option<u64>)
        requires
            self.wf(),
        ensures
            r is Some <==> self@ <= u64::MAX,
            r is Some ==> r.unwrap() as nat == self@,
    {
        let n = self.digits.unicode_len();
        if n > 16 {
            proof {
                lemma_nat_of_hex_lower(self.digits@);
                lemma_pow16_64();
                assert(pow16((self.digits@.len() - 1) as nat) >= pow16(16)) by {
                    lemma_pow16_mono(16, (self.digits@.len() - 1) as nat);
                }
            }
            return None;
        }
        let mut v: u64 = 0;
        let mut i: usize = n;
        proof {
            assert(self.digits@.skip(n as int) =~= Seq::<char>::empty());
        }
        while i > 0
            invariant
                self.wf(),
                n == self.digits@.len(),
                n <= 16,
                i <= n,
                v as nat == nat_of_hex(self.digits@.skip(i as int)),
            decreases i,
        {
            i -= 1;
            let c = self.digits.as_str().get_char(i);
            assert(is_hex(c));
            let dv = hex_digit_val(c);
            proof {
                let tail = self.digits@.skip(i + 1);
                lemma_nat_of_hex_upper(tail);
                lemma_pow16_mono(tail.len(), 15);
                lemma_pow16_64();
                assert(pow16(15) * 16 == pow16(16));
                assert(v as nat <= pow16(15) - 1);
                assert(16 * (v as nat) + 15 < pow16(16)) by (nonlinear_arith)
                    requires
                        v as nat <= pow16(15) - 1,
                        pow16(15) * 16 == pow16(16),
                ;
            }
            let nv = v * 16 + dv as u64;
            proof {
                let s = self.digits@;
                assert(s.skip(i as int)[0] == s[i as int]);
                assert(s.skip(i as int).subrange(1, s.skip(i as int).len() as int) =~= s.skip(
                    i + 1,
                ));
                assert(nat_of_hex(s.skip(i as int)) == hex_val(s[i as int]) + 16 * nat_of_hex(
                    s.skip(i + 1),
                ));
            }
            v = nv;
        }
        proof {
            assert(self.digits@.skip(0) =~= self.digits@);
        }
        Some(v)
    }
}

proof fn lemma_pow16_mono(a: nat, b: nat)
    requires
        a <= b,
    ensures
        pow16(a) <= pow16(b),
    decreases b,
{
    if a < b {
        lemma_pow16_mono(a, (b - 1) as nat);
        lemma_pow16_pos((b - 1) as nat);
        assert(pow16(b) == 16 * pow16((b - 1) as nat));
    }
}

proof fn lemma_hex_val_injective(c1: char, c2: char)
    requires
        is_hex(c1),
        is_hex(c2),
        hex_val(c1) == hex_val(c2),
    ensures
        c1 == c2,
{
    assert(c1 as int == c2 as int);
}

proof fn lemma_value_determines_digits(a: Seq<char>, b: Seq<char>)
    requires
        forall|i: int| 0 <= i < a.len() ==> is_hex(#[trigger] a[i]),
        forall|i: int| 0 <= i < b.len() ==> is_hex(#[trigger] b[i]),
        a.len() == 0 || hex_val(a.last()) != 0,
        b.len() == 0 || hex_val(b.last()) != 0,
        nat_of_hex(a) == nat_of_hex(b),
    ensures
        a == b,
    decreases a.len(),
{
    if a.len() == 0 {
        assert(nat_of_hex(a) == 0);
        if b.len() > 0 {
            lemma_nat_of_hex_lower(b);
            lemma_pow16_pos((b.len() - 1) as nat);
        }
        assert(a =~= b);
    } else if b.len() == 0 {
        assert(nat_of_hex(b) == 0);
        lemma_nat_of_hex_lower(a);
        lemma_pow16_pos((a.len() - 1) as nat);
        assert(a =~= b);
    } else {
        let ra = a.subrange(1, a.len() as int);
        let rb = b.subrange(1, b.len() as int);
        assert(hex_val(a[0]) + 16 * nat_of_hex(ra) == hex_val(b[0]) + 16 * nat_of_hex(rb));
        assert(hex_val(a[0]) < 16 && hex_val(b[0]) < 16);
        assert(hex_val(a[0]) == hex_val(b[0]) && nat_of_hex(ra) == nat_of_hex(rb));
        lemma_hex_val_injective(a[0], b[0]);
        if ra.len() > 0 {
            assert(ra.last() == a.last());
        }
        if rb.len() > 0 {
            assert(rb.last() == b.last());
        }
        lemma_value_determines_digits(ra, rb);
        assert(a =~= seq![a[0]] + ra);
        assert(b =~= seq![b[0]] + rb);
        assert(a =~= b);
    }
}

/// Law: the digit representation is canonical — two well-formed naturals
/// with the same value have identical digits, so `==` on the digits means
/// `==` on the values.
pub proof fn lemma_natural_canonical(a: Natural, b: Natural)
    requires
        a.wf(),
        b.wf(),
    ensures
        (a@ == b@) <==> (a.digits@ == b.digits@),
{
    if a@ == b@ {
        lemma_value_determines_digits(a.digits@, b.digits@);
    }
}

/// Two naturals are equal when they spell the same digits; for well-formed
/// values that is exactly value equality (`lemma_natural_canonical`).
impl PartialEq for Natural {
    fn eq(&self, other: &Natural) -> (r: bool) {
        self.digits == other.digits
    }
}

impl vstd::std_specs::cmp::PartialEqSpecImpl for Natural {
    open spec fn obeys_eq_spec() -> bool {
        true
    }

    open spec fn eq_spec(&self, other: &Natural) -> bool {
        self.digits@ == other.digits@
    }
}

/// The exact value of a float literal: a decimal mantissa scaled by a power
/// of ten, to be read at the stated precision in bits.
#[derive(Debug)]
pub struct FloatVal {
    pub mantissa: Natural,
    pub exp10: i64,
    pub precision: u32,
}

impl FloatVal {
    pub fn dup(&self) -> (r: FloatVal)
        ensures
            r == *self,
    {
        FloatVal { mantissa: self.mantissa.dup(), exp10: self.exp10, precision: self.precision }
    }
}

/// The digit value of a character in bases up to 36 (`0-9`, then letters in
/// either case), or 99 for a character that is a digit in no base.
pub open spec fn base_digit_val(c: char) -> nat {
    if '0' <= c && c <= '9' {
        ((c as int) - ('0' as int)) as nat
    } else if 'a' <= c && c <= 'z' {
        ((c as int) - ('a' as int) + 10) as nat
    } else if 'A' <= c && c <= 'Z' {
        ((c as int) - ('A' as int) + 10) as nat
    } else {
        99
    }
}

pub open spec fn is_base_digit(c: char, base: nat) -> bool {
    base_digit_val(c) < base
}

pub open spec fn is_digit_or_sep(c: char, base: nat) -> bool {
    c == '_' || is_base_digit(c, base)
}

/// A well-formed digit run: non-empty, beginning with a digit, and holding
/// only digits of the base and `_` separators.
pub open spec fn digits_ok(s: Seq<char>, base: nat) -> bool {
    &&& s.len() > 0
    &&& is_base_digit(s[0], base)
    &&& forall|i: int| 0 <= i < s.len() ==> is_digit_or_sep(#[trigger] s[i], base)
}

/// The number a digit run spells, reading left to right and skipping `_`.
pub open spec fn digits_val(s: Seq<char>, base: nat) -> nat
    decreases s.len(),
{
    if s.len() == 0 {
        0
    } else if s.last() == '_' {
        digits_val(s.drop_last(), base)
    } else {
        digits_val(s.drop_last(), base) * base + base_digit_val(s.last())
    }
}

/// How many actual digits (not separators) a run holds.
pub open spec fn digit_count(s: Seq<char>) -> nat
    decreases s.len(),
{
    if s.len() == 0 {
        0
    } else if s.last() == '_' {
        digit_count(s.drop_last())
    } else {
        digit_count(s.drop_last()) + 1
    }
}

/// The first position at or after `i` that is no digit-or-separator of the
/// base, or the end of the text.
pub open spec fn scan_digits_end(s: Seq<char>, i: int, base: nat) -> int
    decreases s.len() - i
        when 0 <= i <= s.len()
{
    if i >= s.len() {
        i
    } else if is_digit_or_sep(s[i], base) {
        scan_digits_end(s, i + 1, base)
    } else {
        i
    }
}

/// The first position at or after `i` that is no plain decimal digit.
pub open spec fn scan_dec_end(s: Seq<char>, i: int) -> int
    decreases s.len() - i
        when 0 <= i <= s.len()
{
    if i >= s.len() {
        i
    } else if '0' <= s[i] && s[i] <= '9' {
        scan_dec_end(s, i + 1)
    } else {
        i
    }
}

proof fn lemma_scan_digits(s: Seq<char>, i: int, base: nat)
    requires
        0 <= i <= s.len(),
    ensures
        i <= scan_digits_end(s, i, base) <= s.len(),
        forall|j: int|
            i <= j < scan_digits_end(s, i, base) ==> is_digit_or_sep(#[trigger] s[j], base),
        scan_digits_end(s, i, base) < s.len() ==> !is_digit_or_sep(
            s[scan_digits_end(s, i, base)],
            base,
        ),
    decreases s.len() - i,
{
    if i < s.len() && is_digit_or_sep(s[i], base) {
        lemma_scan_digits(s, i + 1, base);
    }
}

proof fn lemma_scan_dec(s: Seq<char>, i: int)
    requires
        0 <= i <= s.len(),
    ensures
        i <= scan_dec_end(s, i) <= s.len(),
        forall|j: int|
            i <= j < scan_dec_end(s, i) ==> '0' <= #[trigger] s[j] && s[j] <= '9',
        scan_dec_end(s, i) < s.len() ==> !('0' <= s[scan_dec_end(s, i)] && s[scan_dec_end(s, i)]
            <= '9'),
    decreases s.len() - i,
{
    if i < s.len() && '0' <= s[i] && s[i] <= '9' {
        lemma_scan_dec(s, i + 1);
    }
}

fn scan_digits(text: &str, i: usize, base: u32) -> (r: usize)
    requires
        i <= text@.len(),
    ensures
        r == scan_digits_end(text@, i as int, base as nat),
        i <= r <= text@.len(),
    decreases text@.len() - i,
{
    let n = text.unicode_len();
    if i >= n {
        i
    } else {
        let c = text.get_char(i);
        if c == '_' || base_digit(c) < base {
            scan_digits(text, i + 1, base)
        } else {
            i
        }
    }
}

fn scan_dec(text: &str, i: usize) -> (r: usize)
    requires
        i <= text@.len(),
    ensures
        r == scan_dec_end(text@, i as int),
        i <= r <= text@.len(),
    decreases text@.len() - i,
{
    let n = text.unicode_len();
    if i >= n {
        i
    } else {
        let c = text.get_char(i);
        if '0' <= c && c <= '9' {
            scan_dec(text, i + 1)
        } else {
            i
        }
    }
}

fn base_digit(c: char) -> (r: u32)
    ensures
        r as nat == base_digit_val(c),
{
    if c >= '0' && c <= '9' {
        (c as u32) - ('0' as u32)
    } else if c >= 'a' && c <= 'z' {
        (c as u32) - ('a' as u32) + 10
    } else if c >= 'A' && c <= 'Z' {
        (c as u32) - ('A' as u32) + 10
    } else {
        99
    }
}

// ---- the integer-literal grammar ----

/// Whether the text opens with one of the base prefixes `0b`, `0o`, `0d`,
/// `0x`.
pub open spec fn int_is_prefixed(s: Seq<char>) -> bool {
    s.len() >= 2 && s[0] == '0' && (s[1] == 'b' || s[1] == 'o' || s[1] == 'd' || s[1] == 'x')
}

pub open spec fn int_prefix_base(s: Seq<char>) -> nat {
    if s[1] == 'b' {
        2
    } else if s[1] == 'o' {
        8
    } else if s[1] == 'd' {
        10
    } else {
        16
    }
}

/// Whether the text is a radix-form literal `N#digits`: a run of decimal
/// digits, then `#`.
pub open spec fn int_is_radix(s: Seq<char>) -> bool {
    &&& !int_is_prefixed(s)
    &&& 1 <= scan_dec_end(s, 0)
    &&& scan_dec_end(s, 0) < s.len()
    &&& s[scan_dec_end(s, 0)] == '#'
}

/// The radix is spelled with at most two decimal digits and lies in 2..=36.
pub open spec fn int_radix_ok(s: Seq<char>) -> bool {
    &&& scan_dec_end(s, 0) <= 2
    &&& 2 <= digits_val(s.subrange(0, scan_dec_end(s, 0)), 10) <= 36
}

pub open spec fn int_base(s: Seq<char>) -> nat {
    if int_is_prefixed(s) {
        int_prefix_base(s)
    } else if int_is_radix(s) {
        digits_val(s.subrange(0, scan_dec_end(s, 0)), 10)
    } else {
        10
    }
}

pub open spec fn int_body_start(s: Seq<char>) -> int {
    if int_is_prefixed(s) {
        2
    } else if int_is_radix(s) {
        scan_dec_end(s, 0) + 1
    } else {
        0
    }
}

pub open spec fn int_body_end(s: Seq<char>) -> int {
    scan_digits_end(s, int_body_start(s), int_base(s))
}

pub open spec fn int_body(s: Seq<char>) -> Seq<char> {
    s.subrange(int_body_start(s), int_body_end(s))
}

pub open spec fn int_suffix(s: Seq<char>) -> Seq<char> {
    s.skip(int_body_end(s))
}

/// A type suffix: `i` or `u`, then one or more decimal digits.
pub open spec fn is_int_suffix(t: Seq<char>) -> bool {
    &&& t.len() >= 2
    &&& (t[0] == 'i' || t[0] == 'u')
    &&& forall|j: int| 1 <= j < t.len() ==> '0' <= #[trigger] t[j] && t[j] <= '9'
}

/// The whole integer-literal grammar: an optional base prefix or radix
/// marker, a well-formed digit run, and an optional type suffix.
pub open spec fn int_lit_wf(s: Seq<char>) -> bool {
    &&& (int_is_radix(s) ==> int_radix_ok(s))
    &&& digits_ok(int_body(s), int_base(s))
    &&& (int_suffix(s).len() == 0 || is_int_suffix(int_suffix(s)))
}

pub open spec fn int_lit_val(s: Seq<char>) -> nat {
    digits_val(int_body(s), int_base(s))
}

/// Which failure a malformed integer literal reports.
pub open spec fn int_lit_err(s: Seq<char>) -> LitError {
    if int_is_radix(s) && !int_radix_ok(s) {
        LitError::BadRadix
    } else if !digits_ok(int_body(s), int_base(s)) {
        LitError::BadDigits
    } else {
        LitError::BadSuffix
    }
}

/// A literal's text did not match the numeric grammar.
#[derive(Clone, Copy, PartialEq, Eq, Structural, Debug)]
pub enum LitError {
    /// The radix of an `N#...` literal is not two decimal digits or fewer
    /// spelling a number in 2..=36.
    BadRadix,
    /// A digit run is empty, starts with a separator, or holds a character
    /// that is no digit of the literal's base; or a number does not fit the
    /// grammar at all.
    BadDigits,
    /// Trailing characters that form no valid type suffix.
    BadSuffix,
}

/// Parses the text of an integer literal: plain decimal, `0b`/`0o`/`0d`/`0x`
/// prefixed, or radix form `N#digits`, with `_` separators and an optional
/// `i`/`u` type suffix. Returns the parsed value together with the verbatim
/// text and the literal's span, or says exactly which part of the grammar
/// the text missed.
pub fn parse_int_literal(text: &str) -> (r: Result<LitInt, LitError>)
    ensures
        r is Ok <==> int_lit_wf(text@),
        r matches Ok(li) ==> li.raw@ == text@,
        r matches Ok(li) ==> li.span.0 == 0 && li.span.1 == text@.len(),
        r matches Ok(li) ==> li.val.wf() && li.val@ == int_lit_val(text@),
        r matches Ok(li) ==> (match li.suffix {
            Some(id) => int_suffix(text@).len() > 0 && id.inner@ == int_suffix(text@)
                && id.span.0 == int_body_end(text@) && id.span.1 == text@.len(),
            None => int_suffix(text@).len() == 0,
        }),
        r matches Err(e) ==> e == int_lit_err(text@),
{
    let ghost s = text@;
    let n = text.unicode_len();
    let mut base: u32 = 10;
    let mut start: usize = 0;
    if n >= 2 && text.get_char(0) == '0' && (text.get_char(1) == 'b' || text.get_char(1) == 'o'
        || text.get_char(1) == 'd' || text.get_char(1) == 'x') {
        let c1 = text.get_char(1);
        base = if c1 == 'b' {
            2
        } else if c1 == 'o' {
            8
        } else if c1 == 'd' {
            10
        } else {
            16
        };
        start = 2;
        proof {
            assert(int_is_prefixed(s));
            assert(base as nat == int_base(s));
            assert(start as int == int_body_start(s));
        }
    } else {
        let d = scan_dec(text, 0);
        if d >= 1 && d < n && text.get_char(d) == '#' {
            proof {
                assert(int_is_radix(s));
                lemma_scan_dec(s, 0);
            }
            if d > 2 {
                proof {
                    assert(!int_radix_ok(s));
                    assert(!int_lit_wf(s));
                }
                return Err(LitError::BadRadix);
            }
            let c0 = text.get_char(0);
            let mut rr: u32 = base_digit(c0);
            proof {
                assert('0' <= s[0] && s[0] <= '9');
                assert(rr <= 9);
                assert(s.subrange(0, 1).drop_last() =~= Seq::<char>::empty());
                assert(digits_val(Seq::<char>::empty(), 10) == 0);
                assert(s.subrange(0, 1).last() == s[0]);
                assert(s.subrange(0, 1)[0] == s[0]);
                assert(s[0] != '_');
                assert(digits_val(s.subrange(0, 1), 10) == base_digit_val(s[0]));
            }
            if d == 2 {
                let c1 = text.get_char(1);
                proof {
                    assert('0' <= s[1] && s[1] <= '9');
                    assert(base_digit_val(s[1]) <= 9);
                }
                rr = rr * 10 + base_digit(c1);
                proof {
                    assert(s.subrange(0, 2).drop_last() =~= s.subrange(0, 1));
                    assert(s.subrange(0, 2).last() == s[1]);
                    assert(s[1] != '_');
                    assert(digits_val(s.subrange(0, 2), 10) == digits_val(s.subrange(0, 1), 10)
                        * 10 + base_digit_val(s[1]));
                }
            }
            proof {
                assert(rr as nat == digits_val(s.subrange(0, d as int), 10));
            }
            if rr < 2 || rr > 36 {
                proof {
                    assert(!int_radix_ok(s));
                    assert(!int_lit_wf(s));
                }
                return Err(LitError::BadRadix);
            }
            base = rr;
            start = d + 1;
            proof {
                assert(int_radix_ok(s));
                assert(base as nat == int_base(s));
                assert(start as int == int_body_start(s));
            }
        } else {
            proof {
                assert(!int_is_prefixed(s));
                assert(!int_is_radix(s));
                assert(base as nat == int_base(s));
                assert(start as int == int_body_start(s));
            }
        }
    }
    if start >= n {
        proof {
            assert(int_body_end(s) == start);
            assert(int_body(s).len() == 0);
            assert(!digits_ok(int_body(s), int_base(s)));
            assert(int_lit_err(s) == LitError::BadDigits);
        }
        return Err(LitError::BadDigits);
    }
    let c0 = text.get_char(start);
    if base_digit(c0) >= base {
        proof {
            lemma_scan_digits(s, start as int, base as nat);
            let body = int_body(s);
            if body.len() > 0 {
                assert(body[0] == s[start as int]);
                assert(!is_base_digit(body[0], base as nat));
            }
            assert(!digits_ok(int_body(s), int_base(s)));
            assert(int_lit_err(s) == LitError::BadDigits);
        }
        return Err(LitError::BadDigits);
    }
    let be = scan_digits(text, start, base);
    proof {
        lemma_scan_digits(s, start as int, base as nat);
        assert(is_digit_or_sep(s[start as int], base as nat));
        assert(be > start);
        assert(int_body(s)[0] == s[start as int]);
        assert forall|j: int| 0 <= j < int_body(s).len() implies is_digit_or_sep(
            #[trigger] int_body(s)[j],
            base as nat,
        ) by {
            assert(int_body(s)[j] == s[int_body_start(s) + j]);
        }
        assert(digits_ok(int_body(s), int_base(s)));
    }
    let mut val = Natural::new();
    let mut i = start;
    proof {
        assert(s.subrange(start as int, start as int) =~= Seq::<char>::empty());
        assert(digits_val(Seq::<char>::empty(), base as nat) == 0);
    }
    while i < be
        invariant
            s == text@,
            n == s.len(),
            start <= i <= be,
            be <= n,
            be == int_body_end(s),
            start as int == int_body_start(s),
            base as nat == int_base(s),
            2 <= base <= 36,
            forall|j: int| start <= j < be ==> is_digit_or_sep(#[trigger] s[j], base as nat),
            val.wf(),
            val@ == digits_val(s.subrange(start as int, i as int), base as nat),
        decreases be - i,
    {
        let c = text.get_char(i);
        if c == '_' {
            proof {
                assert(s.subrange(start as int, i + 1).drop_last() =~= s.subrange(
                    start as int,
                    i as int,
                ));
                assert(s.subrange(start as int, i + 1).last() == s[i as int]);
            }
        } else {
            let dv = base_digit(c);
            proof {
                assert(is_digit_or_sep(s[i as int], base as nat));
                assert(dv < base);
            }
            val.mul_add(base, dv);
            proof {
                assert(s.subrange(start as int, i + 1).drop_last() =~= s.subrange(
                    start as int,
                    i as int,
                ));
                assert(s.subrange(start as int, i + 1).last() == s[i as int]);
            }
        }
        i += 1;
    }
    proof {
        assert(s.subrange(start as int, be as int) == int_body(s));
        assert(val@ == int_lit_val(s));
    }
    let suffix: Option<Ident>;
    if be == n {
        proof {
            assert(int_suffix(s).len() == 0);
        }
        suffix = None;
    } else {
        let cs = text.get_char(be);
        proof {
            assert(int_suffix(s)[0] == s[be as int]);
        }
        if !(cs == 'i' || cs == 'u') {
            proof {
                assert(!is_int_suffix(int_suffix(s)));
                assert(int_suffix(s).len() > 0);
                assert(!int_lit_wf(s));
                assert(int_lit_err(s) == LitError::BadSuffix);
            }
            return Err(LitError::BadSuffix);
        }
        if be + 1 >= n {
            proof {
                assert(int_suffix(s).len() < 2);
                assert(!is_int_suffix(int_suffix(s)));
                assert(!int_lit_wf(s));
                assert(int_lit_err(s) == LitError::BadSuffix);
            }
            return Err(LitError::BadSuffix);
        }
        let mut j = be + 1;
        while j < n
            invariant
                s == text@,
                n == s.len(),
                be + 1 <= j <= n,
                be == int_body_end(s),
                base as nat == int_base(s),
                int_is_radix(s) ==> int_radix_ok(s),
                digits_ok(int_body(s), int_base(s)),
                s[be as int] == 'i' || s[be as int] == 'u',
                forall|k: int| be + 1 <= k < j ==> '0' <= #[trigger] s[k] && s[k] <= '9',
            decreases n - j,
        {
            let c = text.get_char(j);
            if !('0' <= c && c <= '9') {
                proof {
                    assert(int_suffix(s)[j - be] == s[j as int]);
                    assert(!is_int_suffix(int_suffix(s)));
                    assert(int_suffix(s).len() > 0);
                    assert(!int_lit_wf(s));
                    assert(int_lit_err(s) == LitError::BadSuffix);
                }
                return Err(LitError::BadSuffix);
            }
            j += 1;
        }
        let sfx = text.substring_char(be, n);
        suffix = Some(Ident { inner: sfx.to_owned(), span: Span(be, n) });
        proof {
            assert(sfx@ =~= int_suffix(s));
            assert forall|k: int| 1 <= k < int_suffix(s).len() implies '0' <= #[trigger] int_suffix(
                s,
            )[k] && int_suffix(s)[k] <= '9' by {
                assert(int_suffix(s)[k] == s[be + k]);
            }
            assert(is_int_suffix(int_suffix(s)));
        }
    }
    proof {
        assert(int_lit_wf(s));
    }
    Ok(LitInt { val, suffix, raw: text.to_owned(), span: Span(0, n) })
}

// ---- the float-literal grammar ----

pub open spec fn pow10(n: nat) -> nat
    decreases n,
{
    if n == 0 {
        1
    } else {
        10 * pow10((n - 1) as nat)
    }
}

proof fn lemma_dec_val_upper(t: Seq<char>)
    requires
        forall|i: int| 0 <= i < t.len() ==> '0' <= #[trigger] t[i] && t[i] <= '9',
    ensures
        digits_val(t, 10) < pow10(t.len()),
    decreases t.len(),
{
    if t.len() == 0 {
    } else {
        lemma_dec_val_upper(t.drop_last());
        assert(t.last() != '_');
        assert(base_digit_val(t.last()) <= 9);
        let v = digits_val(t.drop_last(), 10);
        assert(v <= pow10((t.len() - 1) as nat) - 1);
        assert(v * 10 <= (pow10((t.len() - 1) as nat) - 1) * 10) by (nonlinear_arith)
            requires
                v <= pow10((t.len() - 1) as nat) - 1,
        ;
        assert(pow10(t.len()) == 10 * pow10((t.len() - 1) as nat));
    }
}

proof fn lemma_pow10_18()
    ensures
        pow10(18) == 0x0de0_b6b3_a764_0000,
{
    reveal_with_fuel(pow10, 19);
}

proof fn lemma_pow10_9()
    ensures
        pow10(9) == 1_000_000_000,
{
    reveal_with_fuel(pow10, 10);
}

proof fn lemma_pow10_mono(a: nat, b: nat)
    requires
        a <= b,
    ensures
        pow10(a) <= pow10(b),
    decreases b,
{
    if a < b {
        lemma_pow10_mono(a, (b - 1) as nat);
        lemma_pow10_pos((b - 1) as nat);
    }
}

proof fn lemma_pow10_pos(n: nat)
    ensures
        pow10(n) >= 1,
    decreases n,
{
    if n > 0 {
        lemma_pow10_pos((n - 1) as nat);
    }
}

pub open spec fn float_int_end(s: Seq<char>) -> int {
    scan_digits_end(s, 0, 10)
}

pub open spec fn float_has_frac(s: Seq<char>) -> bool {
    float_int_end(s) < s.len() && s[float_int_end(s)] == '.'
}

pub open spec fn float_frac_end(s: Seq<char>) -> int {
    scan_digits_end(s, float_int_end(s) + 1, 10)
}

pub open spec fn float_pos1(s: Seq<char>) -> int {
    if float_has_frac(s) {
        float_frac_end(s)
    } else {
        float_int_end(s)
    }
}

pub open spec fn float_has_exp(s: Seq<char>) -> bool {
    float_pos1(s) < s.len() && s[float_pos1(s)] == 'e'
}

pub open spec fn float_exp_signed(s: Seq<char>) -> bool {
    float_has_exp(s) && float_pos1(s) + 1 < s.len() && (s[float_pos1(s) + 1] == '+' || s[float_pos1(
        s,
    ) + 1] == '-')
}

pub open spec fn float_exp_neg(s: Seq<char>) -> bool {
    float_exp_signed(s) && s[float_pos1(s) + 1] == '-'
}

pub open spec fn float_exp_start(s: Seq<char>) -> int {
    float_pos1(s) + 1 + (if float_exp_signed(s) {
        1int
    } else {
        0int
    })
}

pub open spec fn float_exp_end(s: Seq<char>) -> int {
    scan_dec_end(s, float_exp_start(s))
}

pub open spec fn float_pos2(s: Seq<char>) -> int {
    if float_has_exp(s) {
        float_exp_end(s)
    } else {
        float_pos1(s)
    }
}

pub open spec fn float_has_prec(s: Seq<char>) -> bool {
    float_pos2(s) < s.len() && s[float_pos2(s)] == 'f'
}

pub open spec fn float_prec_start(s: Seq<char>) -> int {
    float_pos2(s) + 1
}

pub open spec fn float_prec_end(s: Seq<char>) -> int {
    scan_dec_end(s, float_prec_start(s))
}

pub open spec fn float_pos3(s: Seq<char>) -> int {
    if float_has_prec(s) {
        float_prec_end(s)
    } else {
        float_pos2(s)
    }
}

pub open spec fn float_frac_digits(s: Seq<char>) -> Seq<char> {
    if float_has_frac(s) {
        s.subrange(float_int_end(s) + 1, float_frac_end(s))
    } else {
        Seq::<char>::empty()
    }
}

/// The whole float-literal grammar: a decimal digit run, then at least one
/// of a `.fraction`, an `e` exponent (optionally signed, at most eighteen
/// digits), and an `f` precision (at most nine digits), ending the text.
pub open spec fn float_lit_wf(s: Seq<char>) -> bool {
    &&& digits_ok(s.subrange(0, float_int_end(s)), 10)
    &&& (float_has_frac(s) ==> digits_ok(float_frac_digits(s), 10))
    &&& (float_has_exp(s) ==> float_exp_end(s) > float_exp_start(s) && float_exp_end(s)
        - float_exp_start(s) <= 18)
    &&& (float_has_prec(s) ==> float_prec_end(s) > float_prec_start(s) && float_prec_end(s)
        - float_prec_start(s) <= 9)
    &&& float_pos3(s) == s.len()
    &&& (float_has_frac(s) || float_has_exp(s) || float_has_prec(s))
}

/// The mantissa: the integer and fraction digits read as one decimal number.
pub open spec fn float_mantissa(s: Seq<char>) -> nat {
    digits_val(s.subrange(0, float_int_end(s)) + float_frac_digits(s), 10)
}

/// The power of ten the mantissa is scaled by: the exponent written after
/// `e`, minus one for each fraction digit.
pub open spec fn float_exp10(s: Seq<char>) -> int {
    (if float_has_exp(s) {
        if float_exp_neg(s) {
            -(digits_val(s.subrange(float_exp_start(s), float_exp_end(s)), 10) as int)
        } else {
            digits_val(s.subrange(float_exp_start(s), float_exp_end(s)), 10) as int
        }
    } else {
        0int
    }) - digit_count(float_frac_digits(s))
}

/// The precision in bits named by the `f` part, or 64 when none is written.
pub open spec fn float_precision(s: Seq<char>) -> nat {
    if float_has_prec(s) {
        digits_val(s.subrange(float_prec_start(s), float_prec_end(s)), 10)
    } else {
        64
    }
}

/// Which failure a malformed float literal reports.
pub open spec fn float_lit_err(s: Seq<char>) -> LitError {
    if !digits_ok(s.subrange(0, float_int_end(s)), 10) {
        LitError::BadDigits
    } else if float_has_frac(s) && !digits_ok(float_frac_digits(s), 10) {
        LitError::BadDigits
    } else if float_has_exp(s) && !(float_exp_end(s) > float_exp_start(s) && float_exp_end(s)
        - float_exp_start(s) <= 18) {
        LitError::BadDigits
    } else if float_has_prec(s) && !(float_prec_end(s) > float_prec_start(s) && float_prec_end(s)
        - float_prec_start(s) <= 9) {
        LitError::BadSuffix
    } else if float_pos3(s) != s.len() {
        LitError::BadSuffix
    } else {
        LitError::BadDigits
    }
}

/// Parses the text of a float literal: decimal digits with an optional
/// fraction, an optional signed decimal exponent after `e`, and an optional
/// precision in bits after `f` (64 when absent). Returns the value held
/// exactly as mantissa and power of ten together with the verbatim text and
/// the literal's span, or says which part of the grammar the text missed.
pub fn parse_float_literal(text: &str) -> (r: Result<LitFloat, LitError>)
    requires
        text@.len() <= 0x1000_0000,
    ensures
        r is Ok <==> float_lit_wf(text@),
        r matches Ok(lf) ==> lf.raw@ == text@,
        r matches Ok(lf) ==> lf.span.0 == 0 && lf.span.1 == text@.len(),
        r matches Ok(lf) ==> lf.suffix is None,
        r matches Ok(lf) ==> lf.val.mantissa.wf() && lf.val.mantissa@ == float_mantissa(text@),
        r matches Ok(lf) ==> lf.val.exp10 as int == float_exp10(text@),
        r matches Ok(lf) ==> lf.val.precision as nat == float_precision(text@),
        r matches Err(e) ==> e == float_lit_err(text@),
{
    let ghost s = text@;
    let n = text.unicode_len();
    let ie = scan_digits(text, 0, 10);
    proof {
        lemma_scan_digits(s, 0, 10);
    }
    if n == 0 {
        proof {
            assert(!digits_ok(s.subrange(0, float_int_end(s)), 10));
        }
        return Err(LitError::BadDigits);
    }
    let c0 = text.get_char(0);
    if base_digit(c0) >= 10 {
        proof {
            let body = s.subrange(0, float_int_end(s));
            if body.len() > 0 {
                assert(body[0] == s[0]);
            }
            assert(!digits_ok(body, 10));
        }
        return Err(LitError::BadDigits);
    }
    proof {
        assert(is_digit_or_sep(s[0], 10));
        assert(ie > 0);
        assert(s.subrange(0, ie as int)[0] == s[0]);
        assert forall|j: int| 0 <= j < s.subrange(0, ie as int).len() implies is_digit_or_sep(
            #[trigger] s.subrange(0, ie as int)[j],
            10,
        ) by {
            assert(s.subrange(0, ie as int)[j] == s[j]);
        }
        assert(digits_ok(s.subrange(0, float_int_end(s)), 10));
    }
    let has_frac = ie < n && text.get_char(ie) == '.';
    let fe = if has_frac {
        scan_digits(text, ie + 1, 10)
    } else {
        ie
    };
    if has_frac {
        proof {
            lemma_scan_digits(s, ie + 1, 10);
        }
        if ie + 1 >= n {
            proof {
                assert(float_frac_digits(s).len() == 0);
                assert(!digits_ok(float_frac_digits(s), 10));
            }
            return Err(LitError::BadDigits);
        }
        let cf = text.get_char(ie + 1);
        if base_digit(cf) >= 10 {
            proof {
                let body = float_frac_digits(s);
                if body.len() > 0 {
                    assert(body[0] == s[ie + 1]);
                }
                assert(!digits_ok(body, 10));
            }
            return Err(LitError::BadDigits);
        }
        proof {
            assert(is_digit_or_sep(s[ie + 1], 10));
            assert(fe > ie + 1);
            assert(float_frac_digits(s)[0] == s[ie + 1]);
            assert forall|j: int| 0 <= j < float_frac_digits(s).len() implies is_digit_or_sep(
                #[trigger] float_frac_digits(s)[j],
                10,
            ) by {
                assert(float_frac_digits(s)[j] == s[ie + 1 + j]);
            }
            assert(digits_ok(float_frac_digits(s), 10));
        }
    }
    let pos1 = if has_frac {
        fe
    } else {
        ie
    };
    proof {
        assert(pos1 as int == float_pos1(s));
    }
    let has_exp = pos1 < n && text.get_char(pos1) == 'e';
    let exp_signed = has_exp && pos1 + 1 < n && (text.get_char(pos1 + 1) == '+' || text.get_char(
        pos1 + 1,
    ) == '-');
    let exp_neg = exp_signed && text.get_char(pos1 + 1) == '-';
    let es = if exp_signed {
        pos1 + 2
    } else {
        pos1 + 1
    };
    let ee = if has_exp {
        scan_dec(text, es)
    } else {
        pos1
    };
    if has_exp {
        proof {
            assert(es as int == float_exp_start(s));
            lemma_scan_dec(s, es as int);
        }
        if ee <= es || ee - es > 18 {
            proof {
                assert(!(float_exp_end(s) > float_exp_start(s) && float_exp_end(s)
                    - float_exp_start(s) <= 18));
            }
            return Err(LitError::BadDigits);
        }
    }
    let pos2 = if has_exp {
        ee
    } else {
        pos1
    };
    proof {
        assert(pos2 as int == float_pos2(s));
    }
    let has_prec = pos2 < n && text.get_char(pos2) == 'f';
    let ps = pos2 + 1;
    let pe = if has_prec {
        scan_dec(text, ps)
    } else {
        pos2
    };
    if has_prec {
        proof {
            lemma_scan_dec(s, ps as int);
        }
        if pe <= ps || pe - ps > 9 {
            proof {
                assert(!(float_prec_end(s) > float_prec_start(s) && float_prec_end(s)
                    - float_prec_start(s) <= 9));
            }
            return Err(LitError::BadSuffix);
        }
    }
    let pos3 = if has_prec {
        pe
    } else {
        pos2
    };
    proof {
        assert(pos3 as int == float_pos3(s));
    }
    if pos3 != n {
        return Err(LitError::BadSuffix);
    }
    if !(has_frac || has_exp || has_prec) {
        return Err(LitError::BadDigits);
    }
    // mantissa: the integer digits, then the fraction digits
    let ghost intpart = s.subrange(0, ie as int);
    let ghost fracpart = float_frac_digits(s);
    let mut mantissa = Natural::new();
    let mut i: usize = 0;
    proof {
        assert(s.subrange(0, 0) =~= Seq::<char>::empty());
        assert(digits_val(Seq::<char>::empty(), 10) == 0);
    }
    while i < ie
        invariant
            s == text@,
            n == s.len(),
            i <= ie,
            ie <= n,
            ie as int == float_int_end(s),
            forall|j: int| 0 <= j < ie ==> is_digit_or_sep(#[trigger] s[j], 10),
            mantissa.wf(),
            mantissa@ == digits_val(s.subrange(0, i as int), 10),
        decreases ie - i,
    {
        let c = text.get_char(i);
        if c == '_' {
            proof {
                assert(s.subrange(0, i + 1).drop_last() =~= s.subrange(0, i as int));
                assert(s.subrange(0, i + 1).last() == s[i as int]);
            }
        } else {
            let dv = base_digit(c);
            proof {
                assert(is_digit_or_sep(s[i as int], 10));
            }
            mantissa.mul_add(10, dv);
            proof {
                assert(s.subrange(0, i + 1).drop_last() =~= s.subrange(0, i as int));
                assert(s.subrange(0, i + 1).last() == s[i as int]);
            }
        }
        i += 1;
    }
    let mut frac_cnt: usize = 0;
    proof {
        assert(s.subrange(0, ie as int) == intpart);
        if has_frac {
            assert(intpart + s.subrange(ie + 1, ie + 1) =~= intpart);
            assert(digit_count(s.subrange(ie + 1, ie + 1)) == 0) by {
                assert(s.subrange(ie + 1, ie + 1) =~= Seq::<char>::empty());
            }
        } else {
            assert(intpart + fracpart =~= intpart);
            assert(float_mantissa(s) == digits_val(intpart, 10));
        }
    }
    if has_frac {
        let mut j = ie + 1;
        while j < fe
            invariant
                s == text@,
                n == s.len(),
                has_frac,
                ie as int == float_int_end(s),
                float_has_frac(s),
                ie + 1 <= j <= fe,
                fe <= n,
                fe as int == float_frac_end(s),
                intpart == s.subrange(0, ie as int),
                forall|k: int| ie + 1 <= k < fe ==> is_digit_or_sep(#[trigger] s[k], 10),
                mantissa.wf(),
                mantissa@ == digits_val(intpart + s.subrange(ie + 1, j as int), 10),
                frac_cnt == digit_count(s.subrange(ie + 1, j as int)),
                frac_cnt <= j,
            decreases fe - j,
        {
            let c = text.get_char(j);
            if c == '_' {
                proof {
                    assert((intpart + s.subrange(ie + 1, j + 1)).drop_last() =~= intpart
                        + s.subrange(ie + 1, j as int));
                    assert((intpart + s.subrange(ie + 1, j + 1)).last() == s[j as int]);
                    assert(s.subrange(ie + 1, j + 1).drop_last() =~= s.subrange(ie + 1, j as int));
                    assert(s.subrange(ie + 1, j + 1).last() == s[j as int]);
                }
            } else {
                let dv = base_digit(c);
                proof {
                    assert(is_digit_or_sep(s[j as int], 10));
                }
                mantissa.mul_add(10, dv);
                frac_cnt += 1;
                proof {
                    assert((intpart + s.subrange(ie + 1, j + 1)).drop_last() =~= intpart
                        + s.subrange(ie + 1, j as int));
                    assert((intpart + s.subrange(ie + 1, j + 1)).last() == s[j as int]);
                    assert(s.subrange(ie + 1, j + 1).drop_last() =~= s.subrange(ie + 1, j as int));
                    assert(s.subrange(ie + 1, j + 1).last() == s[j as int]);
                }
            }
            j += 1;
        }
        proof {
            assert(s.subrange(ie + 1, fe as int) == fracpart);
            assert(mantissa@ == float_mantissa(s));
            assert(frac_cnt == digit_count(fracpart));
        }
    }
    // exponent value
    let mut ev: u64 = 0;
    if has_exp {
        let mut k = es;
        proof {
            assert(s.subrange(es as int, es as int) =~= Seq::<char>::empty());
            assert(digits_val(Seq::<char>::empty(), 10) == 0);
            lemma_scan_dec(s, es as int);
        }
        while k < ee
            invariant
                s == text@,
                n == s.len(),
                has_exp,
                es <= k <= ee,
                ee <= n,
                ee - es <= 18,
                es as int == float_exp_start(s),
                ee as int == float_exp_end(s),
                forall|t: int| es <= t < ee ==> '0' <= #[trigger] s[t] && s[t] <= '9',
                ev == digits_val(s.subrange(es as int, k as int), 10),
            decreases ee - k,
        {
            let c = text.get_char(k);
            let dv = base_digit(c);
            proof {
                assert('0' <= s[k as int] && s[k as int] <= '9');
                assert(dv <= 9);
                assert forall|t: int| 0 <= t < s.subrange(es as int, k as int).len()
                    implies '0' <= #[trigger] s.subrange(es as int, k as int)[t] && s.subrange(
                    es as int,
                    k as int,
                )[t] <= '9' by {
                    assert(s.subrange(es as int, k as int)[t] == s[es + t]);
                }
                lemma_dec_val_upper(s.subrange(es as int, k as int));
                lemma_pow10_mono((k - es) as nat, 17);
                lemma_pow10_18();
                assert(pow10(17) * 10 == pow10(18));
                assert(ev as nat <= pow10(17) - 1);
                assert(10 * (ev as nat) + 9 < pow10(18)) by (nonlinear_arith)
                    requires
                        ev as nat <= pow10(17) - 1,
                        pow10(17) * 10 == pow10(18),
                ;
            }
            ev = ev * 10 + dv as u64;
            proof {
                assert(s.subrange(es as int, k + 1).drop_last() =~= s.subrange(
                    es as int,
                    k as int,
                ));
                assert(s.subrange(es as int, k + 1).last() == s[k as int]);
                assert(s[k as int] != '_');
            }
            k += 1;
        }
        proof {
            lemma_dec_val_upper(s.subrange(es as int, ee as int));
            lemma_pow10_mono((ee - es) as nat, 18);
            lemma_pow10_18();
        }
    }
    // precision
    let mut prec: u32 = 64;
    if has_prec {
        let mut k = ps;
        prec = 0;
        proof {
            assert(s.subrange(ps as int, ps as int) =~= Seq::<char>::empty());
            assert(digits_val(Seq::<char>::empty(), 10) == 0);
            lemma_scan_dec(s, ps as int);
        }
        while k < pe
            invariant
                s == text@,
                n == s.len(),
                has_prec,
                ps <= k <= pe,
                pe <= n,
                pe - ps <= 9,
                ps as int == float_prec_start(s),
                pe as int == float_prec_end(s),
                forall|t: int| ps <= t < pe ==> '0' <= #[trigger] s[t] && s[t] <= '9',
                prec == digits_val(s.subrange(ps as int, k as int), 10),
            decreases pe - k,
        {
            let c = text.get_char(k);
            let dv = base_digit(c);
            proof {
                assert('0' <= s[k as int] && s[k as int] <= '9');
                assert(dv <= 9);
                assert forall|t: int| 0 <= t < s.subrange(ps as int, k as int).len()
                    implies '0' <= #[trigger] s.subrange(ps as int, k as int)[t] && s.subrange(
                    ps as int,
                    k as int,
                )[t] <= '9' by {
                    assert(s.subrange(ps as int, k as int)[t] == s[ps + t]);
                }
                lemma_dec_val_upper(s.subrange(ps as int, k as int));
                lemma_pow10_mono((k - ps) as nat, 8);
                lemma_pow10_9();
                assert(pow10(8) * 10 == pow10(9));
                assert(prec as nat <= pow10(8) - 1);
                assert(10 * (prec as nat) + 9 < pow10(9)) by (nonlinear_arith)
                    requires
                        prec as nat <= pow10(8) - 1,
                        pow10(8) * 10 == pow10(9),
                ;
            }
            prec = prec * 10 + dv;
            proof {
                assert(s.subrange(ps as int, k + 1).drop_last() =~= s.subrange(
                    ps as int,
                    k as int,
                ));
                assert(s.subrange(ps as int, k + 1).last() == s[k as int]);
                assert(s[k as int] != '_');
            }
            k += 1;
        }
    }
    let exp_base: i64 = if has_exp {
        if exp_neg {
            -(ev as i64)
        } else {
            ev as i64
        }
    } else {
        0
    };
    let exp10: i64 = exp_base - (frac_cnt as i64);
    proof {
        assert(exp10 as int == float_exp10(s));
        assert(float_lit_wf(s));
    }
    Ok(
        LitFloat {
            val: FloatVal { mantissa, exp10, precision: prec },
            suffix: None,
            raw: text.to_owned(),
            span: Span(0, n),
        },
    )
}

} // verus!
