//! Text helpers: Unicode whitespace trimming and decimal rendering.

use vstd::prelude::*;

verus! {

/// The Unicode `White_Space` property, the set that `str::trim` strips.
pub open spec fn is_white_space(c: char) -> bool {
    let u = c as u32;
    ||| 0x09 <= u <= 0x0d
    ||| u == 0x20
    ||| u == 0x85
    ||| u == 0xa0
    ||| u == 0x1680
    ||| 0x2000 <= u <= 0x200a
    ||| u == 0x2028
    ||| u == 0x2029
    ||| u == 0x202f
    ||| u == 0x205f
    ||| u == 0x3000
}

/// `s` with its leading white space removed.
pub open spec fn trim_start(s: Seq<char>) -> Seq<char>
    decreases s.len(),
{
    if s.len() > 0 && is_white_space(s[0]) {
        trim_start(s.drop_first())
    } else {
        s
    }
}

/// `s` with its trailing white space removed.
pub open spec fn trim_end(s: Seq<char>) -> Seq<char>
    decreases s.len(),
{
    if s.len() > 0 && is_white_space(s.last()) {
        trim_end(s.drop_last())
    } else {
        s
    }
}

/// `s` with both its leading and its trailing white space removed.
pub open spec fn trimmed(s: Seq<char>) -> Seq<char> {
    trim_end(trim_start(s))
}

/// Neither end of `s` is white space.
pub open spec fn is_trimmed(s: Seq<char>) -> bool {
    s.len() > 0 ==> !is_white_space(s[0]) && !is_white_space(s.last())
}

/// Trimming the end keeps a prefix of the text, with the same first
/// character when anything is left, and leaves no white space at the end.
pub proof fn lemma_trim_end_shape(s: Seq<char>)
    ensures
        trim_end(s).len() <= s.len(),
        trim_end(s) == s.subrange(0, trim_end(s).len() as int),
        trim_end(s).len() > 0 ==> !is_white_space(trim_end(s).last()),
    decreases s.len(),
{
    if s.len() > 0 && is_white_space(s.last()) {
        lemma_trim_end_shape(s.drop_last());
        assert(s.drop_last().subrange(0, trim_end(s).len() as int)
            =~= s.subrange(0, trim_end(s).len() as int));
    } else {
        assert(s.subrange(0, s.len() as int) =~= s);
    }
}

/// Trimming the start leaves no white space at the start.
pub proof fn lemma_trim_start_shape(s: Seq<char>)
    ensures
        trim_start(s).len() > 0 ==> !is_white_space(trim_start(s)[0]),
    decreases s.len(),
{
    if s.len() > 0 && is_white_space(s[0]) {
        lemma_trim_start_shape(s.drop_first());
    }
}

/// Text without white space at either end is its own trimmed form.
pub proof fn lemma_trimmed_fixed_point(s: Seq<char>)
    requires
        is_trimmed(s),
    ensures
        trimmed(s) == s,
{
}

/// The trimmed form of any text has no white space at either end.
pub proof fn lemma_trimmed_is_trimmed(s: Seq<char>)
    ensures
        is_trimmed(trimmed(s)),
{
    lemma_trim_start_shape(s);
    lemma_trim_end_shape(trim_start(s));
    let t = trimmed(s);
    if t.len() > 0 {
        assert(t[0] == trim_start(s).subrange(0, t.len() as int)[0]);
    }
}

/// When the first `k` characters are white space and the next one is not
/// (or there is none), trimming the start drops exactly those `k`.
proof fn lemma_trim_start_at(s: Seq<char>, k: int)
    requires
        0 <= k <= s.len(),
        forall|j: int| 0 <= j < k ==> is_white_space(#[trigger] s[j]),
        k == s.len() || !is_white_space(s[k]),
    ensures
        trim_start(s) == s.subrange(k, s.len() as int),
    decreases k,
{
    if k == 0 {
        assert(s.subrange(0, s.len() as int) =~= s);
    } else {
        let t = s.drop_first();
        assert forall|j: int| 0 <= j < k - 1 implies is_white_space(#[trigger] t[j]) by {
            assert(t[j] == s[j + 1]);
        }
        lemma_trim_start_at(t, k - 1);
        assert(t.subrange(k - 1, t.len() as int) =~= s.subrange(k, s.len() as int));
    }
}

/// When the characters from `e` on are white space and the one before `e`
/// is not (or there is none), trimming the end keeps exactly the first `e`.
proof fn lemma_trim_end_at(s: Seq<char>, e: int)
    requires
        0 <= e <= s.len(),
        forall|j: int| e <= j < s.len() ==> is_white_space(#[trigger] s[j]),
        e == 0 || !is_white_space(s[e - 1]),
    ensures
        trim_end(s) == s.subrange(0, e),
    decreases s.len() - e,
{
    if e == s.len() {
        if s.len() > 0 {
            assert(!is_white_space(s.last()));
        }
        assert(s.subrange(0, e) =~= s);
    } else {
        let t = s.drop_last();
        assert(is_white_space(s.last()));
        assert forall|j: int| e <= j < t.len() implies is_white_space(#[trigger] t[j]) by {
            assert(t[j] == s[j]);
        }
        lemma_trim_end_at(t, e);
        assert(t.subrange(0, e) =~= s.subrange(0, e));
    }
}

/// Whether `c` has the Unicode `White_Space` property.
pub fn is_white_space_char(c: char) -> (b: bool)
    ensures
        b == is_white_space(c),
{
    let u: u32 = c as u32;
    (0x09 <= u && u <= 0x0d) || u == 0x20 || u == 0x85 || u == 0xa0 || u == 0x1680
        || (0x2000 <= u && u <= 0x200a) || u == 0x2028 || u == 0x2029 || u == 0x202f
        || u == 0x205f || u == 0x3000
}

/// The slice of `s` without leading and trailing characters of the
/// Unicode `White_Space` property, as `str::trim` gives it.
pub fn trim(s: &str) -> (r: &str)
    ensures
        r@ == trimmed(s@),
{
    broadcast use vstd::string::group_string_axioms;

    let n: usize = s.unicode_len();
    let mut i: usize = 0;
    let mut found: bool = false;
    let mut first: usize = 0;
    let mut end: usize = 0;
    for c in it: s.chars()
        invariant
            n == s@.len(),
            it.seq() == s@,
            i == it.index(),
            i <= n,
            !found ==> end == 0 && forall|j: int| 0 <= j < i ==> is_white_space(#[trigger] s@[j]),
            found ==> {
                &&& first < end <= i
                &&& !is_white_space(s@[first as int])
                &&& !is_white_space(s@[end - 1])
                &&& forall|j: int| 0 <= j < first ==> is_white_space(#[trigger] s@[j])
                &&& forall|j: int| end <= j < i ==> is_white_space(#[trigger] s@[j])
            },
    {
        assert(c == s@[i as int]);
        if !is_white_space_char(c) {
            if !found {
                found = true;
                first = i;
            }
            end = i + 1;
        }
        i = i + 1;
    }
    if found {
        proof {
            lemma_trim_start_at(s@, first as int);
            let t = s@.subrange(first as int, s@.len() as int);
            assert forall|j: int| end - first <= j < t.len() implies is_white_space(#[trigger] t[j]) by {
                assert(t[j] == s@[first + j]);
            }
            assert(t[end - first - 1] == s@[end - 1]);
            lemma_trim_end_at(t, end - first);
            assert(t.subrange(0, end - first) =~= s@.subrange(first as int, end as int));
        }
        s.substring_char(first, end)
    } else {
        proof {
            lemma_trim_start_at(s@, s@.len() as int);
        }
        s.substring_char(0, 0)
    }
}

/// A non-empty text that starts with a character that is not white space
/// keeps something when its end is trimmed.
proof fn lemma_trim_end_keeps_visible_start(s: Seq<char>)
    requires
        s.len() > 0,
        !is_white_space(s[0]),
    ensures
        trim_end(s).len() > 0,
    decreases s.len(),
{
    if is_white_space(s.last()) {
        lemma_trim_end_keeps_visible_start(s.drop_last());
    }
}

/// Trimming the start leaves nothing exactly when every character is white
/// space.
proof fn lemma_trim_start_empty_iff_blank(s: Seq<char>)
    ensures
        trim_start(s).len() == 0 <==> forall|j: int| 0 <= j < s.len() ==> is_white_space(#[trigger] s[j]),
    decreases s.len(),
{
    if s.len() > 0 {
        lemma_trim_start_empty_iff_blank(s.drop_first());
        if is_white_space(s[0]) {
            if forall|j: int| 0 <= j < s.drop_first().len() ==> is_white_space(#[trigger] s.drop_first()[j]) {
                assert forall|j: int| 0 <= j < s.len() implies is_white_space(#[trigger] s[j]) by {
                    if j > 0 {
                        assert(s[j] == s.drop_first()[j - 1]);
                    }
                }
            } else {
                let j = choose|j: int| 0 <= j < s.drop_first().len() && !is_white_space(#[trigger] s.drop_first()[j]);
                assert(s[j + 1] == s.drop_first()[j]);
            }
        } else {
            assert(!is_white_space(s[0]));
        }
    }
}

/// Trimming leaves nothing exactly when every character is white space.
pub proof fn lemma_trimmed_empty_iff_blank(s: Seq<char>)
    ensures
        trimmed(s).len() == 0 <==> forall|j: int| 0 <= j < s.len() ==> is_white_space(#[trigger] s[j]),
{
    lemma_trim_start_empty_iff_blank(s);
    lemma_trim_start_shape(s);
    if trim_start(s).len() > 0 {
        lemma_trim_end_keeps_visible_start(trim_start(s));
    }
}

/// The white space that trimming removes is exactly the Unicode
/// `White_Space` set: tab, line feed, vertical tab, form feed, carriage
/// return, space, next line, no-break space, ogham space mark, the spaces
/// from en quad to hair space, line and paragraph separators, narrow
/// no-break space, medium mathematical space and ideographic space.
pub proof fn law_white_space_is_the_unicode_set(c: char)
    ensures
        is_white_space(c) <==> (
            c == '\t' || c == '\n' || c == '\u{b}' || c == '\u{c}' || c == '\r' || c == ' '
            || c == '\u{85}' || c == '\u{a0}' || c == '\u{1680}'
            || c == '\u{2000}' || c == '\u{2001}' || c == '\u{2002}' || c == '\u{2003}'
            || c == '\u{2004}' || c == '\u{2005}' || c == '\u{2006}' || c == '\u{2007}'
            || c == '\u{2008}' || c == '\u{2009}' || c == '\u{200a}'
            || c == '\u{2028}' || c == '\u{2029}' || c == '\u{202f}' || c == '\u{205f}'
            || c == '\u{3000}'),
{
}

/// No printable ASCII character (letters, digits, punctuation) is white
/// space.
pub proof fn law_printable_ascii_is_not_white_space(c: char)
    requires
        0x21 <= c as u32 <= 0x7e,
    ensures
        !is_white_space(c),
{
}

/// A text that begins and ends with printable ASCII characters is left as
/// it is by trimming.
pub proof fn law_trim_keeps_printable_ends(s: Seq<char>)
    requires
        s.len() > 0,
        0x21 <= s[0] as u32 <= 0x7e,
        0x21 <= s.last() as u32 <= 0x7e,
    ensures
        trimmed(s) == s,
{
    lemma_trimmed_fixed_point(s);
}

/// The number that a text of decimal digits stands for.
pub open spec fn numeral_value(s: Seq<char>) -> int
    decreases s.len(),
{
    if s.len() == 0 {
        0
    } else {
        numeral_value(s.drop_last()) * 10 + (s.last() as int - '0' as int)
    }
}

/// The decimal numeral of `n` is made of the digits `0`..`9`, starts with
/// `0` only when it is `"0"`, and reads back as `n`.
pub proof fn law_decimal_reads_back(n: nat)
    ensures
        decimal(n).len() > 0,
        forall|i: int| 0 <= i < decimal(n).len() ==> '0' <= #[trigger] decimal(n)[i] <= '9',
        decimal(n)[0] == '0' ==> n == 0,
        decimal(n) == seq!['0'] <==> n == 0,
        numeral_value(decimal(n)) == n,
    decreases n,
{
    if n >= 10 {
        law_decimal_reads_back(n / 10);
        let p = decimal(n / 10);
        assert(decimal(n).drop_last() =~= p);
        assert(decimal(n)[0] == p[0]);
        assert forall|i: int| 0 <= i < decimal(n).len() implies '0' <= #[trigger] decimal(n)[i] <= '9' by {
            if i < p.len() {
                assert(decimal(n)[i] == p[i]);
            }
        }
        assert(n == (n / 10) * 10 + n % 10);
        assert(decimal(n).last() as int == 48 + n % 10);
        assert(numeral_value(decimal(n)) == numeral_value(p) * 10 + (n % 10));
        if decimal(n) == seq!['0'] {
            assert(decimal(n).len() == 1);
        }
    } else {
        assert(decimal(n).drop_last() =~= Seq::<char>::empty());
        assert(decimal(n).last() as int == 48 + n);
        assert(numeral_value(Seq::<char>::empty()) == 0);
        assert(numeral_value(decimal(n)) == numeral_value(decimal(n).drop_last()) * 10 + n);
    }
}

/// The ASCII digit for `d`, for `d < 10`.
pub open spec fn digit_char(d: nat) -> char {
    (48 + d) as char
}

/// The decimal numeral of `n`: no sign, no leading zeros, `"0"` for zero.
pub open spec fn decimal(n: nat) -> Seq<char>
    decreases n,
{
    if n < 10 {
        seq![digit_char(n)]
    } else {
        decimal(n / 10).push(digit_char(n % 10))
    }
}

/// The one-character text of the ASCII digit for `d`.
fn digit_str(d: u8) -> (r: &'static str)
    requires
        d < 10,
    ensures
        r@ == seq![digit_char(d as nat)],
{
    proof {
        reveal_strlit("0");
        reveal_strlit("1");
        reveal_strlit("2");
        reveal_strlit("3");
        reveal_strlit("4");
        reveal_strlit("5");
        reveal_strlit("6");
        reveal_strlit("7");
        reveal_strlit("8");
        reveal_strlit("9");
    }
    match d {
        0 => "0",
        1 => "1",
        2 => "2",
        3 => "3",
        4 => "4",
        5 => "5",
        6 => "6",
        7 => "7",
        8 => "8",
        _ => "9",
    }
}

/// Appends the decimal numeral of `n` to `s`, as `Display` for integers writes it.
pub fn push_decimal(s: &mut String, n: u64)
    ensures
        final(s)@ == old(s)@ + decimal(n as nat),
    decreases n,
{
    if n >= 10 {
        push_decimal(s, n / 10);
    }
    let d: u8 = (n % 10) as u8;
    s.append(digit_str(d));
    assert(s@ =~= old(s)@ + decimal(n as nat));
}

} // verus!
