//! Verified helpers over `&str` and `String`.
//!
//! Everything here is ordinary character-at-a-time logic on top of the
//! string primitives that vstd specifies (`unicode_len`, `get_char`,
//! `substring_char`, `append`).

use vstd::prelude::*;

verus! {

/// Character-wise equality of two string slices.
pub fn str_eq(a: &str, b: &str) -> (r: bool)
    ensures
        r == (a@ == b@),
{
    let alen = a.unicode_len();
    let blen = b.unicode_len();
    if alen != blen {
        assert(a@ != b@) by {
            assert(a@.len() != b@.len());
        }
        return false;
    }
    let mut i: usize = 0;
    while i < alen
        invariant
            alen == a@.len(),
            alen == b@.len(),
            i <= alen,
            forall|j: int| 0 <= j < i ==> a@[j] == b@[j],
        decreases alen - i,
    {
        if a.get_char(i) != b.get_char(i) {
            return false;
        }
        i += 1;
    }
    proof {
        assert(a@ =~= b@);
    }
    true
}

/// The Unicode white-space characters, as `trim` strips them from
/// either end of a line.
pub open spec fn is_ws(c: char) -> bool {
    ||| c == ' '
    ||| c == '\t'
    ||| c == '\n'
    ||| c == '\r'
    ||| c == '\u{000B}'
    ||| c == '\u{000C}'
    ||| c == '\u{0085}'
    ||| c == '\u{00A0}'
    ||| c == '\u{1680}'
    ||| c == '\u{2000}'
    ||| c == '\u{2001}'
    ||| c == '\u{2002}'
    ||| c == '\u{2003}'
    ||| c == '\u{2004}'
    ||| c == '\u{2005}'
    ||| c == '\u{2006}'
    ||| c == '\u{2007}'
    ||| c == '\u{2008}'
    ||| c == '\u{2009}'
    ||| c == '\u{200A}'
    ||| c == '\u{2028}'
    ||| c == '\u{2029}'
    ||| c == '\u{202F}'
    ||| c == '\u{205F}'
    ||| c == '\u{3000}'
}

/// `s` with its leading whitespace removed.
pub open spec fn trim_start_spec(s: Seq<char>) -> Seq<char>
    decreases s.len(),
{
    if s.len() > 0 && is_ws(s[0]) {
        trim_start_spec(s.drop_first())
    } else {
        s
    }
}

/// `s` with its trailing whitespace removed.
pub open spec fn trim_end_spec(s: Seq<char>) -> Seq<char>
    decreases s.len(),
{
    if s.len() > 0 && is_ws(s.last()) {
        trim_end_spec(s.drop_last())
    } else {
        s
    }
}

/// `s` with whitespace removed from both ends.
pub open spec fn trim_spec(s: Seq<char>) -> Seq<char> {
    trim_end_spec(trim_start_spec(s))
}

fn is_ws_char(c: char) -> (r: bool)
    ensures
        r == is_ws(c),
{
    c == ' ' || c == '\t' || c == '\n' || c == '\r' || c == '\u{000B}' || c == '\u{000C}' || c == '\u{0085}' || c == '\u{00A0}' || c == '\u{1680}' || c == '\u{2000}' || c == '\u{2001}' || c == '\u{2002}' || c == '\u{2003}' || c == '\u{2004}' || c == '\u{2005}' || c == '\u{2006}' || c == '\u{2007}' || c == '\u{2008}' || c == '\u{2009}' || c == '\u{200A}' || c == '\u{2028}' || c == '\u{2029}' || c == '\u{202F}' || c == '\u{205F}' || c == '\u{3000}'
}

proof fn lemma_trim_start_skip(s: Seq<char>, a: int)
    requires
        0 <= a <= s.len(),
        forall|j: int| 0 <= j < a ==> is_ws(s[j]),
    ensures
        trim_start_spec(s) == trim_start_spec(s.skip(a)),
    decreases a,
{
    if a > 0 {
        assert(s.len() > 0 && is_ws(s[0]));
        assert(s.drop_first() =~= s.skip(1));
        lemma_trim_start_skip(s.skip(1), a - 1);
        assert(s.skip(1).skip(a - 1) =~= s.skip(a));
    } else {
        assert(s.skip(0) =~= s);
    }
}

proof fn lemma_trim_end_take(s: Seq<char>, b: int)
    requires
        0 <= b <= s.len(),
        forall|j: int| b <= j < s.len() ==> is_ws(s[j]),
    ensures
        trim_end_spec(s) == trim_end_spec(s.take(b)),
    decreases s.len() - b,
{
    if b < s.len() {
        assert(s.len() > 0 && is_ws(s.last()));
        assert(s.drop_last() =~= s.take(s.len() - 1));
        lemma_trim_end_take(s.take(s.len() - 1), b);
        assert(s.take(s.len() - 1).take(b) =~= s.take(b));
    } else {
        assert(s.take(s.len() as int) =~= s);
    }
}

/// Strip whitespace from both ends of `s`.
pub fn trim(s: &str) -> (r: String)
    ensures
        r@ == trim_spec(s@),
{
    let len = s.unicode_len();
    let mut a: usize = 0;
    while a < len && is_ws_char(s.get_char(a))
        invariant
            len == s@.len(),
            a <= len,
            forall|j: int| 0 <= j < a ==> is_ws(s@[j]),
        decreases len - a,
    {
        a += 1;
    }
    proof {
        lemma_trim_start_skip(s@, a as int);
    }
    if a == len {
        proof {
            assert(s@.skip(a as int) =~= Seq::<char>::empty());
        }
        return String::new();
    }
    // s@[a] is the first non-whitespace character.
    proof {
        assert(trim_start_spec(s@.skip(a as int)) == s@.skip(a as int)) by {
            assert(s@.skip(a as int)[0] == s@[a as int]);
        }
    }
    let mut b: usize = len;
    while b > a + 1 && is_ws_char(s.get_char(b - 1))
        invariant
            len == s@.len(),
            a < b <= len,
            forall|j: int| b <= j < len ==> is_ws(s@[j]),
        decreases b,
    {
        b -= 1;
    }
    // Either b == a + 1 or s@[b - 1] is not whitespace; in both cases the
    // tail scan is finished because s@[a] is not whitespace.
    proof {
        let tail = s@.skip(a as int);
        lemma_trim_end_take(tail, b - a);
        assert(tail.take(b - a) =~= s@.subrange(a as int, b as int));
        let core = s@.subrange(a as int, b as int);
        assert(core.last() == s@[b - 1]);
        if b == a + 1 {
            assert(core.last() == s@[a as int]);
        }
        assert(trim_end_spec(core) == core);
    }
    let piece = s.substring_char(a, b);
    String::from_str(piece)
}

/// True when `t` is one non-empty line: no embedded newline.
pub open spec fn single_line(t: Seq<char>) -> bool {
    t.len() > 0 && forall|i: int| 0 <= i < t.len() ==> t[i] != '\n'
}

/// Decide `single_line` on a trimmed string.
pub fn is_single_line(t: &str) -> (r: bool)
    ensures
        r == single_line(t@),
{
    let len = t.unicode_len();
    if len == 0 {
        return false;
    }
    let mut i: usize = 0;
    while i < len
        invariant
            len == t@.len(),
            i <= len,
            forall|j: int| 0 <= j < i ==> t@[j] != '\n',
        decreases len - i,
    {
        if t.get_char(i) == '\n' {
            return false;
        }
        i += 1;
    }
    true
}

/// The tokens of `parts` joined by `sep`.
pub open spec fn join_spec(parts: Seq<Seq<char>>, sep: Seq<char>) -> Seq<char>
    decreases parts.len(),
{
    if parts.len() == 0 {
        Seq::empty()
    } else if parts.len() == 1 {
        parts[0]
    } else {
        parts[0] + sep + join_spec(parts.drop_first(), sep)
    }
}

/// Appending one more token to a join adds one separator and the token.
pub proof fn lemma_join_snoc(parts: Seq<Seq<char>>, x: Seq<char>, sep: Seq<char>)
    ensures
        join_spec(parts.push(x), sep) == if parts.len() == 0 {
            x
        } else {
            join_spec(parts, sep) + sep + x
        },
    decreases parts.len(),
{
    let whole = parts.push(x);
    if parts.len() == 0 {
        assert(whole.len() == 1);
        assert(join_spec(whole, sep) == whole[0]);
        assert(whole[0] == x);
    } else {
        assert(whole.len() >= 2);
        assert(whole.drop_first() =~= parts.drop_first().push(x));
        lemma_join_snoc(parts.drop_first(), x, sep);
        if parts.len() == 1 {
            assert(parts.drop_first().len() == 0);
            assert(join_spec(whole, sep) == whole[0] + sep + x);
            assert(whole[0] == parts[0]);
            assert(join_spec(parts, sep) == parts[0]);
        } else {
            assert(join_spec(whole, sep) == whole[0] + sep + (join_spec(
                parts.drop_first(),
                sep,
            ) + sep + x));
            assert(whole[0] == parts[0]);
            assert(parts[0] + sep + (join_spec(parts.drop_first(), sep) + sep + x) =~= (parts[0]
                + sep + join_spec(parts.drop_first(), sep)) + sep + x);
        }
    }
}

/// Join the strings of `parts` with the separator `sep`.
pub fn join_with(parts: &Vec<String>, sep: &str) -> (r: String)
    ensures
        r@ == join_spec(parts.deep_view(), sep@),
{
    let ghost pv = parts.deep_view();
    let mut r = String::new();
    let mut i: usize = 0;
    while i < parts.len()
        invariant
            pv == parts.deep_view(),
            pv.len() == parts.len(),
            forall|j: int| 0 <= j < pv.len() ==> pv[j] == parts@[j]@,
            i <= parts.len(),
            r@ == join_spec(pv.take(i as int), sep@),
        decreases parts.len() - i,
    {
        if i > 0 {
            r.append(sep);
        }
        r.append(parts[i].as_str());
        proof {
            lemma_join_snoc(pv.take(i as int), pv[i as int], sep@);
            assert(pv.take(i as int).push(pv[i as int]) =~= pv.take(i + 1));
        }
        i += 1;
    }
    proof {
        assert(pv.take(parts.len() as int) =~= pv);
    }
    r
}

/// The decimal digit characters, as a value-to-character map.
pub open spec fn digit_char(d: int) -> char {
    if d == 0 {
        '0'
    } else if d == 1 {
        '1'
    } else if d == 2 {
        '2'
    } else if d == 3 {
        '3'
    } else if d == 4 {
        '4'
    } else if d == 5 {
        '5'
    } else if d == 6 {
        '6'
    } else if d == 7 {
        '7'
    } else if d == 8 {
        '8'
    } else {
        '9'
    }
}

/// The decimal rendering of `n`, most significant digit first.
pub open spec fn dec_str(n: nat) -> Seq<char>
    decreases n,
{
    if n < 10 {
        seq![digit_char(n as int)]
    } else {
        dec_str(n / 10).push(digit_char((n % 10) as int))
    }
}

/// The value a decimal digit string denotes.
pub open spec fn dec_val(s: Seq<char>) -> nat
    decreases s.len(),
{
    if s.len() == 0 {
        0
    } else {
        dec_val(s.drop_last()) * 10 + char_digit(s.last())
    }
}

/// The inverse of `digit_char` on the ten digit characters.
pub open spec fn char_digit(c: char) -> nat {
    if c == '0' {
        0
    } else if c == '1' {
        1
    } else if c == '2' {
        2
    } else if c == '3' {
        3
    } else if c == '4' {
        4
    } else if c == '5' {
        5
    } else if c == '6' {
        6
    } else if c == '7' {
        7
    } else if c == '8' {
        8
    } else {
        9
    }
}

/// Reading back the decimal rendering of `n` gives `n`.
pub proof fn lemma_dec_str_val(n: nat)
    ensures
        dec_val(dec_str(n)) == n,
    decreases n,
{
    if n < 10 {
        let s = dec_str(n);
        assert(s.len() == 1);
        assert(s.drop_last() =~= Seq::<char>::empty());
        assert(dec_val(s.drop_last()) == 0);
        assert(s.last() == digit_char(n as int));
        assert(dec_val(s) == 0 * 10 + char_digit(digit_char(n as int)));
    } else {
        lemma_dec_str_val(n / 10);
        let s = dec_str(n);
        assert(s.drop_last() =~= dec_str(n / 10));
        assert(s.last() == digit_char((n % 10) as int));
        assert(char_digit(digit_char((n % 10) as int)) == n % 10);
        assert(dec_val(s) == (n / 10) * 10 + n % 10);
        assert((n / 10) * 10 + n % 10 == n) by (nonlinear_arith);
    }
}

/// Distinct numbers have distinct decimal renderings: the names that a
/// monotonic counter hands out never collide.
pub proof fn lemma_dec_str_injective(a: nat, b: nat)
    requires
        a != b,
    ensures
        dec_str(a) != dec_str(b),
{
    lemma_dec_str_val(a);
    lemma_dec_str_val(b);
}

fn digit_str(d: u64) -> (r: &'static str)
    requires
        d < 10,
    ensures
        r@ =~= seq![digit_char(d as int)],
{
    if d == 0 {
        proof {
            reveal_strlit("0");
        }
        "0"
    } else if d == 1 {
        proof {
            reveal_strlit("1");
        }
        "1"
    } else if d == 2 {
        proof {
            reveal_strlit("2");
        }
        "2"
    } else if d == 3 {
        proof {
            reveal_strlit("3");
        }
        "3"
    } else if d == 4 {
        proof {
            reveal_strlit("4");
        }
        "4"
    } else if d == 5 {
        proof {
            reveal_strlit("5");
        }
        "5"
    } else if d == 6 {
        proof {
            reveal_strlit("6");
        }
        "6"
    } else if d == 7 {
        proof {
            reveal_strlit("7");
        }
        "7"
    } else if d == 8 {
        proof {
            reveal_strlit("8");
        }
        "8"
    } else {
        proof {
            reveal_strlit("9");
        }
        "9"
    }
}

/// Render `n` in decimal.
pub fn u64_to_string(n: u64) -> (r: String)
    ensures
        r@ == dec_str(n as nat),
    decreases n,
{
    if n < 10 {
        String::from_str(digit_str(n))
    } else {
        let mut r = u64_to_string(n / 10);
        r.append(digit_str(n % 10));
        proof {
            assert(r@ =~= dec_str((n / 10) as nat).push(digit_char((n % 10) as int)));
        }
        r
    }
}

} // verus!
