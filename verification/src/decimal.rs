use vstd::prelude::*;
use vstd::string::StringExecFns;

verus! {

/// A fixed-point number for display: `value` scaled down by ten to the
/// power `decimals`.
#[derive(Clone, Copy, Debug, Default)]
pub struct Decimal {
    pub value: i128,
    pub decimals: u32,
}

/// The character of the decimal digit `d`.
pub open spec fn digit_char(d: int) -> char {
    (48 + d) as char
}

/// The decimal digits of `n`, most significant first, without leading
/// zeros (zero is written "0").
pub open spec fn dec_digits(n: nat) -> Seq<char>
    decreases n,
{
    if n < 10 {
        seq![digit_char(n as int)]
    } else {
        dec_digits(n / 10).push(digit_char((n % 10) as int))
    }
}

/// How an integer is written in decimal: a minus sign before the digits of
/// a negative one.
pub open spec fn int_text(v: int) -> Seq<char> {
    if v < 0 {
        seq!['-'] + dec_digits((-v) as nat)
    } else {
        dec_digits(v as nat)
    }
}

pub open spec fn zeros(n: nat) -> Seq<char> {
    Seq::new(n, |i: int| '0')
}

/// The text of a decimal: the written integer with a point inserted
/// `decimals` places from its end; when it has no more characters than
/// that, it is padded with zeros on the left and "0." goes in front. The
/// sign takes a place like a digit, so -5 with two decimals reads "0.-5".
pub open spec fn decimal_text(value: int, decimals: nat) -> Seq<char> {
    let s = int_text(value);
    if s.len() <= decimals {
        seq!['0', '.'] + zeros((decimals - s.len()) as nat) + s
    } else {
        s.subrange(0, s.len() - decimals) + seq!['.'] + s.subrange(s.len() - decimals, s.len() as int)
    }
}

/// The digits of `rev`, stored least significant first, as characters in
/// reading order.
pub open spec fn rev_chars(rev: Seq<u8>) -> Seq<char> {
    Seq::new(rev.len(), |i: int| digit_char(rev[rev.len() - 1 - i] as int))
}

/// The one-character text of a character that a decimal can hold.
fn char_str(c: char) -> (s: &'static str)
    requires
        c == '0' || c == '1' || c == '2' || c == '3' || c == '4' || c == '5' || c == '6' || c == '7' || c == '8'
            || c == '9' || c == '-' || c == '.',
    ensures
        s@ == seq![c],
{
    proof {
        reveal_strlit("0");
        reveal_strlit("1");
        reveal_strlit("2");
        reveal_strlit("3");
        reveal_strlit("4");
        reveal_strlit("5");
        reveal_strlit("6");
        reveal_strlit("7");
        reveal_strlit("8");
        reveal_strlit("9");
        reveal_strlit("-");
        reveal_strlit(".");
    }
    match c {
        '0' => "0",
        '1' => "1",
        '2' => "2",
        '3' => "3",
        '4' => "4",
        '5' => "5",
        '6' => "6",
        '7' => "7",
        '8' => "8",
        '9' => "9",
        '-' => "-",
        _ => ".",
    }
}

/// Whether `c` is a digit, the sign or the point.
pub open spec fn text_char(c: char) -> bool {
    c == '0' || c == '1' || c == '2' || c == '3' || c == '4' || c == '5' || c == '6' || c == '7' || c == '8'
        || c == '9' || c == '-' || c == '.'
}

proof fn lemma_digit_char(d: int)
    requires
        0 <= d < 10,
    ensures
        text_char(digit_char(d)),
{
}

proof fn lemma_dec_digits_chars(n: nat)
    ensures
        forall|i: int| 0 <= i < dec_digits(n).len() ==> text_char(#[trigger] dec_digits(n)[i]),
    decreases n,
{
    if n < 10 {
        lemma_digit_char(n as int);
    } else {
        lemma_dec_digits_chars(n / 10);
        lemma_digit_char((n % 10) as int);
        let d = dec_digits(n / 10);
        assert forall|i: int| 0 <= i < dec_digits(n).len() implies text_char(#[trigger] dec_digits(n)[i]) by {
            if i < d.len() {
                assert(dec_digits(n)[i] == d[i]);
            }
        }
    }
}

/// The number that a string of decimal digits stands for.
pub open spec fn digits_value(s: Seq<char>) -> int
    decreases s.len(),
{
    if s.len() == 0 {
        0
    } else {
        digits_value(s.drop_last()) * 10 + (s.last() as int - 48)
    }
}

/// The integer that a written integer stands for: digits, with a leading
/// minus sign for a negative one.
pub open spec fn read_int(s: Seq<char>) -> int {
    if s.len() > 0 && s[0] == '-' { -digits_value(s.skip(1)) } else { digits_value(s) }
}

/// Where the point of the text of a decimal with `len` written characters
/// and `decimals` decimals stands.
pub open spec fn point_index(len: nat, decimals: nat) -> int {
    if len <= decimals { 1 } else { len - decimals }
}

proof fn lemma_digit_facts(d: int)
    requires
        0 <= d < 10,
    ensures
        digit_char(d) as int == 48 + d,
        digit_char(d) != '.',
        digit_char(d) != '-',
{
}

proof fn lemma_dec_digits_value(n: nat)
    ensures
        digits_value(dec_digits(n)) == n,
        dec_digits(n).len() > 0,
        forall|i: int| 0 <= i < dec_digits(n).len() ==> #[trigger] dec_digits(n)[i] != '.' && dec_digits(n)[i] != '-',
    decreases n,
{
    if n < 10 {
        lemma_digit_facts(n as int);
        assert(dec_digits(n).drop_last() =~= Seq::<char>::empty());
        assert(digits_value(Seq::<char>::empty()) == 0);
        assert(dec_digits(n).last() == digit_char(n as int));
    } else {
        lemma_dec_digits_value(n / 10);
        lemma_digit_facts((n % 10) as int);
        let d = dec_digits(n / 10);
        assert(dec_digits(n).drop_last() =~= d);
        assert(n == (n / 10) * 10 + n % 10) by (nonlinear_arith);
        assert(dec_digits(n).last() == digit_char((n % 10) as int));
        assert(digits_value(dec_digits(n)) == digits_value(d) * 10 + (n % 10));
        assert forall|i: int| 0 <= i < dec_digits(n).len() implies #[trigger] dec_digits(n)[i] != '.' && dec_digits(n)[i] != '-' by {
            if i < d.len() {
                assert(dec_digits(n)[i] == d[i]);
            }
        }
    }
}

proof fn lemma_zeros_value(n: nat, s: Seq<char>)
    ensures
        digits_value(zeros(n) + s) == digits_value(s),
    decreases s.len(), n,
{
    if s.len() == 0 {
        assert(zeros(n) + s =~= zeros(n));
        if n > 0 {
            assert(zeros(n).drop_last() =~= zeros((n - 1) as nat));
            lemma_zeros_value((n - 1) as nat, s);
            assert(zeros((n - 1) as nat) + s =~= zeros((n - 1) as nat));
        }
    } else {
        assert((zeros(n) + s).drop_last() =~= zeros(n) + s.drop_last());
        lemma_zeros_value(n, s.drop_last());
    }
}

/// Law: the text of a decimal has exactly one point, with exactly
/// `decimals` characters after it, and without its point it reads back as
/// the value; except for a negative value with no more written characters
/// than decimals, whose sign lands after the point.
pub proof fn law_decimal_text(value: int, decimals: nat)
    requires
        value >= 0 || int_text(value).len() > decimals,
    ensures
        ({
            let t = decimal_text(value, decimals);
            let k = point_index(int_text(value).len(), decimals);
            &&& 0 <= k < t.len()
            &&& t[k] == '.'
            &&& forall|i: int| 0 <= i < t.len() && i != k ==> #[trigger] t[i] != '.'
            &&& t.len() - k - 1 == decimals
            &&& read_int(t.take(k) + t.skip(k + 1)) == value
        }),
{
    let s = int_text(value);
    let t = decimal_text(value, decimals);
    let k = point_index(s.len(), decimals);
    let m: nat = if value < 0 { (-value) as nat } else { value as nat };
    lemma_dec_digits_value(m);
    let ds = dec_digits(m);
    assert forall|i: int| 0 <= i < s.len() implies #[trigger] s[i] != '.' by {
        if value < 0 && i > 0 {
            assert(s[i] == ds[i - 1]);
        }
    }
    if s.len() <= decimals {
        assert(value >= 0);
        let z = zeros((decimals - s.len()) as nat);
        assert(t =~= seq!['0', '.'] + z + s);
        assert forall|i: int| 0 <= i < t.len() && i != k implies #[trigger] t[i] != '.' by {
            if i >= 2 + z.len() {
                assert(t[i] == s[i - 2 - z.len()]);
            } else if i >= 2 {
                assert(t[i] == z[i - 2]);
            }
        }
        let w = t.take(k) + t.skip(k + 1);
        assert(w =~= zeros((decimals - s.len() + 1) as nat) + s);
        lemma_zeros_value((decimals - s.len() + 1) as nat, s);
        assert(w[0] == '0');
    } else {
        let cut = s.len() - decimals;
        assert(t =~= s.subrange(0, cut) + seq!['.'] + s.subrange(cut, s.len() as int));
        assert forall|i: int| 0 <= i < t.len() && i != k implies #[trigger] t[i] != '.' by {
            if i < cut {
                assert(t[i] == s[i]);
            } else {
                assert(t[i] == s[i - 1]);
            }
        }
        let w = t.take(k) + t.skip(k + 1);
        assert(w =~= s);
        if value < 0 {
            assert(s.skip(1) =~= ds);
        } else {
            assert(s[0] == ds[0]);
        }
    }
}

/// The digits of `n`, least significant first.
fn digits_of(n0: u128) -> (rev: Vec<u8>)
    ensures
        rev_chars(rev@) == dec_digits(n0 as nat),
        forall|i: int| 0 <= i < rev@.len() ==> rev@[i] < 10,
{
    let mut rev: Vec<u8> = Vec::new();
    let mut n = n0;
    loop
        invariant_except_break
            n > 0 || rev@.len() == 0,
            rev@.len() == 0 ==> n == n0,
            rev@.len() > 0 ==> dec_digits(n0 as nat) == dec_digits(n as nat) + rev_chars(rev@),
            forall|i: int| 0 <= i < rev@.len() ==> rev@[i] < 10,
        invariant
            forall|i: int| 0 <= i < rev@.len() ==> rev@[i] < 10,
        ensures
            rev_chars(rev@) == dec_digits(n0 as nat),
        decreases n,
    {
        let d = (n % 10) as u8;
        let ghost before = rev@;
        rev.push(d);
        proof {
            assert(rev_chars(rev@) =~= seq![digit_char(d as int)] + rev_chars(before));
        }
        if n < 10 {
            proof {
                if before.len() > 0 {
                    assert(dec_digits(n as nat) =~= seq![digit_char(n as int)]);
                    assert(dec_digits(n0 as nat) =~= rev_chars(rev@));
                } else {
                    assert(rev_chars(rev@) =~= seq![digit_char(n as int)]);
                }
            }
            break;
        }
        proof {
            let m = (n / 10) as nat;
            assert(dec_digits(n as nat) == dec_digits(m).push(digit_char((n % 10) as int)));
            if before.len() > 0 {
                assert(dec_digits(n as nat) + rev_chars(before) =~= dec_digits(m) + rev_chars(rev@));
            } else {
                assert(dec_digits(n as nat) =~= dec_digits(m) + rev_chars(rev@));
            }
        }
        n = n / 10;
    }
    rev
}

/// The characters of `value` written in decimal.
fn int_chars(value: i128) -> (t: Vec<char>)
    ensures
        t@ == int_text(value as int),
        forall|i: int| 0 <= i < t@.len() ==> text_char(#[trigger] t@[i]),
{
    let neg = value < 0;
    let magnitude: u128 = if !neg {
        value as u128
    } else if value == i128::MIN {
        0x8000_0000_0000_0000_0000_0000_0000_0000u128
    } else {
        (-value) as u128
    };
    let rev = digits_of(magnitude);
    let mut text: Vec<char> = Vec::new();
    if neg {
        text.push('-');
    }
    let ghost head = text@;
    let mut k: usize = rev.len();
    while k > 0
        invariant
            k <= rev@.len(),
            text@ == head + rev_chars(rev@).subrange(0, rev@.len() - k),
            forall|i: int| 0 <= i < rev@.len() ==> rev@[i] < 10,
        decreases k,
    {
        k = k - 1;
        let c = ((48u8 + rev[k]) as char);
        proof {
            assert(rev_chars(rev@)[rev@.len() - 1 - k] == c);
            assert(rev_chars(rev@).subrange(0, rev@.len() - k) =~= rev_chars(rev@).subrange(0, rev@.len() - 1 - k).push(c));
        }
        text.push(c);
    }
    proof {
        assert(rev_chars(rev@).subrange(0, rev@.len() as int) =~= rev_chars(rev@));
        if neg {
            assert(text@ =~= seq!['-'] + dec_digits(magnitude as nat));
        } else {
            assert(text@ =~= dec_digits(magnitude as nat));
        }
        lemma_dec_digits_chars(magnitude as nat);
        assert forall|i: int| 0 <= i < text@.len() implies text_char(#[trigger] text@[i]) by {
            if neg && i > 0 {
                assert(text@[i] == dec_digits(magnitude as nat)[i - 1]);
            }
        }
    }
    text
}

/// Appends `src[from..to]` to `out`.
fn push_chars(out: &mut Vec<char>, src: &Vec<char>, from: usize, to: usize)
    requires
        from <= to <= src@.len(),
    ensures
        final(out)@ == old(out)@ + src@.subrange(from as int, to as int),
{
    let ghost pre = out@;
    let mut i = from;
    while i < to
        invariant
            from <= i <= to,
            to <= src@.len(),
            out@ == pre + src@.subrange(from as int, i as int),
        decreases to - i,
    {
        out.push(src[i]);
        proof { assert(src@.subrange(from as int, i + 1) =~= src@.subrange(from as int, i as int).push(src@[i as int])); }
        i = i + 1;
    }
}

/// The string of the characters `cs`.
fn chars_to_string(cs: &Vec<char>) -> (s: String)
    requires
        forall|i: int| 0 <= i < cs@.len() ==> text_char(#[trigger] cs@[i]),
    ensures
        s@ == cs@,
{
    let mut s = String::new();
    let mut j: usize = 0;
    while j < cs.len()
        invariant
            j <= cs@.len(),
            s@ == cs@.subrange(0, j as int),
            forall|i: int| 0 <= i < cs@.len() ==> text_char(#[trigger] cs@[i]),
        decreases cs@.len() - j,
    {
        s.append(char_str(cs[j]));
        proof { assert(cs@.subrange(0, j + 1) =~= cs@.subrange(0, j as int) + seq![cs@[j as int]]); }
        j = j + 1;
    }
    proof { assert(cs@.subrange(0, cs@.len() as int) =~= cs@); }
    s
}

impl Decimal {
    pub fn new(value: i128, decimals: u32) -> (d: Self)
        ensures
            d.value == value,
            d.decimals == decimals,
    {
        Decimal { value, decimals }
    }

    /// The text of the decimal (see `decimal_text`).
    pub fn to_string(&self) -> (s: String)
        ensures
            s@ == decimal_text(self.value as int, self.decimals as nat),
    {
        let text = int_chars(self.value);
        let len = text.len();
        let dec = self.decimals as usize;
        let mut out: Vec<char> = Vec::new();
        if len <= dec {
            out.push('0');
            out.push('.');
            let mut z: usize = 0;
            while z < dec - len
                invariant
                    z <= dec - len,
                    out@ == seq!['0', '.'] + zeros(z as nat),
                decreases dec - len - z,
            {
                out.push('0');
                proof { assert(seq!['0', '.'] + zeros((z + 1) as nat) =~= (seq!['0', '.'] + zeros(z as nat)).push('0')); }
                z = z + 1;
            }
            push_chars(&mut out, &text, 0, len);
            proof {
                assert(text@.subrange(0, len as int) =~= text@);
                assert forall|i: int| 0 <= i < out@.len() implies text_char(#[trigger] out@[i]) by {
                    if i >= 2 + (dec - len) {
                        assert(out@[i] == text@[i - 2 - (dec - len)]);
                    }
                }
            }
        } else {
            let cut = len - dec;
            push_chars(&mut out, &text, 0, cut);
            out.push('.');
            push_chars(&mut out, &text, cut, len);
            proof {
                assert forall|i: int| 0 <= i < out@.len() implies text_char(#[trigger] out@[i]) by {
                    if i < cut {
                        assert(out@[i] == text@[i]);
                    } else if i > cut {
                        assert(out@[i] == text@[i - 1]);
                    }
                }
            }
        }
        proof { assert(out@ =~= decimal_text(self.value as int, self.decimals as nat)); }
        chars_to_string(&out)
    }
}

} // verus!
