//! Small string helpers with exact contracts over `Seq<char>`.
use vstd::prelude::*;
use vstd::string::StringExecFns;
use vstd::string::StringSliceAdditionalSpecFns;

verus! {

broadcast use vstd::utf8::encode_utf8_decode_utf8;

/// Whether two string slices hold the same characters.
pub fn str_eq(a: &str, b: &str) -> (res: bool)
    ensures
        res == (a@ == b@),
{
    let ab = a.as_bytes();
    let bb = b.as_bytes();
    if ab.len() != bb.len() {
        proof {
            assert(a@ != b@);
        }
        return false;
    }
    let n = ab.len();
    let mut i: usize = 0;
    while i < n
        invariant
            n == ab@.len(),
            n == bb@.len(),
            i <= n,
            ab@ == a.spec_bytes(),
            bb@ == b.spec_bytes(),
            forall|j: int| 0 <= j < i ==> ab@[j] == bb@[j],
        decreases n - i,
    {
        if ab[i] != bb[i] {
            proof {
                assert(a.spec_bytes() != b.spec_bytes());
            }
            return false;
        }
        i = i + 1;
    }
    proof {
        assert(ab@ =~= bb@);
        assert(a@ == vstd::utf8::decode_utf8(a.spec_bytes()));
        assert(b@ == vstd::utf8::decode_utf8(b.spec_bytes()));
    }
    true
}

/// The character of a decimal digit.
pub open spec fn digit_char(d: nat) -> char {
    ((48 + d) as u32) as char
}

/// The decimal text of a natural number, without leading zeros.
pub open spec fn decimal(n: nat) -> Seq<char>
    decreases n,
{
    if n < 10 {
        seq![digit_char(n)]
    } else {
        decimal(n / 10).push(digit_char(n % 10))
    }
}

/// The text of one decimal digit.
fn digit_str(d: u64) -> (res: &'static str)
    requires
        d < 10,
    ensures
        res@ == seq![digit_char(d as nat)],
{
    proof {
        reveal_strlit("0");
        reveal_strlit("1");
        reveal_strlit("2");
        reveal_strlit("3");
        reveal_strlit("4");
        reveal_strlit("5");
        reveal_strlit("6");
        reveal_strlit("7");
        reveal_strlit("8");
        reveal_strlit("9");
    }
    let r = if d == 0 {
        "0"
    } else if d == 1 {
        "1"
    } else if d == 2 {
        "2"
    } else if d == 3 {
        "3"
    } else if d == 4 {
        "4"
    } else if d == 5 {
        "5"
    } else if d == 6 {
        "6"
    } else if d == 7 {
        "7"
    } else if d == 8 {
        "8"
    } else {
        "9"
    };
    assert(r@ =~= seq![digit_char(d as nat)]);
    r
}

/// Appends the decimal text of `n`.
pub fn push_decimal(out: &mut String, n: u64)
    ensures
        final(out)@ == old(out)@ + decimal(n as nat),
    decreases n,
{
    if n >= 10 {
        push_decimal(out, n / 10);
    }
    out.append(digit_str(n % 10));
    proof {
        if n >= 10 {
            assert(decimal(n as nat) == decimal((n / 10) as nat).push(digit_char((n % 10) as nat)));
        }
        assert(old(out)@ + decimal(n as nat) =~= out@) by {
            if n < 10 {
                assert(decimal(n as nat) == seq![digit_char(n as nat)]);
            }
        }
    }
}

/// Unicode's `White_Space` property, which `char::is_whitespace` tests.
pub open spec fn is_white_space(c: char) -> bool {
    let u = c as u32;
    ||| 0x9 <= u <= 0xd
    ||| u == 0x20
    ||| u == 0x85
    ||| u == 0xa0
    ||| u == 0x1680
    ||| 0x2000 <= u <= 0x200a
    ||| u == 0x2028
    ||| u == 0x2029
    ||| u == 0x202f
    ||| u == 0x205f
    ||| u == 0x3000
}

/// The text without its leading white space.
pub open spec fn trim_start_of(s: Seq<char>) -> Seq<char>
    decreases s.len(),
{
    if s.len() > 0 && is_white_space(s[0]) {
        trim_start_of(s.drop_first())
    } else {
        s
    }
}

/// The text without its trailing white space.
pub open spec fn trim_end_of(s: Seq<char>) -> Seq<char>
    decreases s.len(),
{
    if s.len() > 0 && is_white_space(s.last()) {
        trim_end_of(s.drop_last())
    } else {
        s
    }
}

/// The text without leading and trailing white space.
pub open spec fn trim_of(s: Seq<char>) -> Seq<char> {
    trim_end_of(trim_start_of(s))
}

/// Whether every character is white space.
pub open spec fn is_blank(s: Seq<char>) -> bool {
    forall|i: int| 0 <= i < s.len() ==> is_white_space(#[trigger] s[i])
}

/// `str::trim`, which removes leading and trailing characters for which
/// `char::is_whitespace` holds, that is those with Unicode's `White_Space`
/// property.
#[verifier::external_body]
pub(crate) fn trim(s: &str) -> (res: &str)
    ensures
        res@ == trim_of(s@),
{
    s.trim()
}

proof fn lemma_trim_start_blank(s: Seq<char>)
    ensures
        trim_start_of(s).len() == 0 <==> is_blank(s),
    decreases s.len(),
{
    if s.len() > 0 && is_white_space(s[0]) {
        lemma_trim_start_blank(s.drop_first());
        if is_blank(s.drop_first()) {
            assert forall|i: int| 0 <= i < s.len() implies is_white_space(#[trigger] s[i]) by {
                if i > 0 {
                    assert(s[i] == s.drop_first()[i - 1]);
                }
            }
        }
        if is_blank(s) {
            assert forall|i: int| 0 <= i < s.drop_first().len() implies is_white_space(
                #[trigger] s.drop_first()[i],
            ) by {
                assert(s.drop_first()[i] == s[i + 1]);
            }
        }
    } else if s.len() > 0 {
        assert(!is_white_space(s[0]));
    }
}

proof fn lemma_trim_end_empty(s: Seq<char>)
    ensures
        trim_end_of(s).len() == 0 <==> is_blank(s),
    decreases s.len(),
{
    if s.len() > 0 && is_white_space(s.last()) {
        lemma_trim_end_empty(s.drop_last());
        if is_blank(s.drop_last()) {
            assert forall|i: int| 0 <= i < s.len() implies is_white_space(#[trigger] s[i]) by {
                if i < s.len() - 1 {
                    assert(s[i] == s.drop_last()[i]);
                }
            }
        }
        if is_blank(s) {
            assert forall|i: int| 0 <= i < s.drop_last().len() implies is_white_space(
                #[trigger] s.drop_last()[i],
            ) by {
                assert(s.drop_last()[i] == s[i]);
            }
        }
    } else if s.len() > 0 {
        assert(!is_white_space(s[s.len() - 1]));
    }
}

/// Trimming leaves nothing exactly when the text is all white space.
pub proof fn lemma_trim_empty_iff_blank(s: Seq<char>)
    ensures
        trim_of(s).len() == 0 <==> is_blank(s),
{
    lemma_trim_start_blank(s);
    lemma_trim_end_empty(trim_start_of(s));
    if trim_start_of(s).len() != 0 {
        assert(!is_blank(trim_start_of(s))) by {
            lemma_trim_start_nonblank_head(s);
        }
    }
}

proof fn lemma_trim_start_nonblank_head(s: Seq<char>)
    requires
        trim_start_of(s).len() != 0,
    ensures
        !is_white_space(trim_start_of(s)[0]),
    decreases s.len(),
{
    if s.len() > 0 && is_white_space(s[0]) {
        lemma_trim_start_nonblank_head(s.drop_first());
    }
}

/// The number that a text of decimal digits denotes.
pub open spec fn digits_value(s: Seq<char>) -> nat
    decreases s.len(),
{
    if s.len() == 0 {
        0
    } else {
        digits_value(s.drop_last()) * 10 + ((s.last() as u32) - 48) as nat
    }
}

/// Decimal text can be read back: it denotes the number it was made from.
pub proof fn lemma_decimal_value(n: nat)
    ensures
        digits_value(decimal(n)) == n,
    decreases n,
{
    let d = n % 10;
    assert((digit_char(d) as u32) == 48 + d);
    if n >= 10 {
        lemma_decimal_value(n / 10);
        assert(decimal(n).drop_last() =~= decimal(n / 10));
        assert(decimal(n).last() == digit_char(d));
        assert((n / 10) * 10 + n % 10 == n) by (nonlinear_arith);
        assert(digits_value(decimal(n)) == digits_value(decimal(n / 10)) * 10 + d);
    } else {
        assert(decimal(n).drop_last() =~= Seq::<char>::empty());
        assert(decimal(n).last() == digit_char(n));
        assert(d == n);
        assert(digits_value(decimal(n)) == digits_value(Seq::<char>::empty()) * 10 + d);
    }
}

/// Decimal text is built digit by digit: one digit for a number below ten,
/// and otherwise the text of the number without its last digit followed by
/// that digit; every character is one of `0`..`9`.
pub proof fn lemma_decimal_digits(n: nat)
    ensures
        n < 10 ==> decimal(n) == seq![((48 + n) as u32) as char],
        n >= 10 ==> decimal(n) == decimal(n / 10).push(((48 + n % 10) as u32) as char),
        forall|i: int| 0 <= i < decimal(n).len() ==> 48 <= #[trigger] (decimal(n)[i] as u32) <= 57,
        n >= 10 ==> decimal(n)[0] != '0',
    decreases n,
{
    if n >= 10 {
        lemma_decimal_digits(n / 10);
        let prev = decimal(n / 10);
        assert forall|i: int| 0 <= i < decimal(n).len() implies 48 <= #[trigger] (decimal(n)[i] as u32) <= 57 by {
            if i < prev.len() {
                assert(decimal(n)[i] == prev[i]);
            } else {
                assert(decimal(n)[i] == digit_char(n % 10));
            }
        }
        assert(decimal(n)[0] == prev[0]);
        if n / 10 < 10 {
            assert(prev[0] == digit_char(n / 10));
            assert((digit_char(n / 10) as u32) == 48 + n / 10);
        }
    } else {
        assert((digit_char(n) as u32) == 48 + n);
    }
}

/// A character of White_Space in front is removed.
pub proof fn lemma_trim_drops_leading_space(c: char, s: Seq<char>)
    requires
        is_white_space(c),
    ensures
        trim_of(seq![c] + s) == trim_of(s),
{
    assert((seq![c] + s).drop_first() =~= s);
}

/// Text that neither begins nor ends with White_Space is left as it is.
pub proof fn lemma_trim_keeps_text(s: Seq<char>)
    requires
        s.len() > 0,
        !is_white_space(s[0]),
        !is_white_space(s.last()),
    ensures
        trim_of(s) == s,
{
}

proof fn lemma_trim_start_push(s: Seq<char>, c: char)
    ensures
        is_blank(s) ==> trim_start_of(s.push(c)) == trim_start_of(seq![c]),
        !is_blank(s) ==> trim_start_of(s.push(c)) == trim_start_of(s).push(c),
    decreases s.len(),
{
    if s.len() == 0 {
        assert(s.push(c) =~= seq![c]);
    } else {
        assert(s.push(c)[0] == s[0]);
        assert(s.push(c).drop_first() =~= s.drop_first().push(c));
        lemma_trim_start_push(s.drop_first(), c);
        if is_white_space(s[0]) {
            if is_blank(s) {
                assert forall|i: int| 0 <= i < s.drop_first().len() implies is_white_space(
                    #[trigger] s.drop_first()[i],
                ) by {
                    assert(s.drop_first()[i] == s[i + 1]);
                }
            } else {
                let k = choose|k: int| 0 <= k < s.len() && !is_white_space(s[k]);
                assert(s.drop_first()[k - 1] == s[k]);
            }
        } else {
            assert(!is_blank(s));
        }
    }
}

/// A character of White_Space at the end is removed.
pub proof fn lemma_trim_drops_trailing_space(s: Seq<char>, c: char)
    requires
        is_white_space(c),
    ensures
        trim_of(s.push(c)) == trim_of(s),
{
    lemma_trim_start_push(s, c);
    lemma_trim_start_blank(s);
    if is_blank(s) {
        assert(seq![c].drop_first() =~= Seq::<char>::empty());
        assert(trim_start_of(seq![c]) == trim_start_of(Seq::<char>::empty()));
    } else {
        assert(trim_start_of(s).push(c).drop_last() =~= trim_start_of(s));
    }
}

} // verus!
