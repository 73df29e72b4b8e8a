//! Verified text utilities: character classes, substring search, digit and
//! word runs, decimal parsing and decimal rendering. The line classifier is
//! built on these.

use vstd::prelude::*;
use vstd::string::StrSliceExecFns;
use vstd::string::StringExecFns;

verus! {

/// Decimal digit.
pub open spec fn is_digit(c: char) -> bool {
    '0' <= c && c <= '9'
}

/// Word character: an ASCII letter, a digit, or an underscore.
pub open spec fn is_word_char(c: char) -> bool {
    ('a' <= c && c <= 'z') || ('A' <= c && c <= 'Z') || is_digit(c) || c == '_'
}

/// Numeric value of one digit character.
pub open spec fn digit_val(c: char) -> int {
    c as u32 - '0' as u32
}

/// Value of a digit sequence read as a decimal number.
pub open spec fn dec_val(s: Seq<char>) -> int
    decreases s.len(),
{
    if s.len() == 0 {
        0
    } else {
        dec_val(s.drop_last()) * 10 + digit_val(s.last())
    }
}

/// The digit character for a value between 0 and 9.
pub open spec fn digit_char(d: int) -> char {
    (('0' as u32 + d) as u32) as char
}

/// Decimal representation of a natural number, most significant digit first.
pub open spec fn dec_rep(n: nat) -> Seq<char>
    decreases n,
{
    if n < 10 {
        seq![digit_char(n as int)]
    } else {
        dec_rep(n / 10) + seq![digit_char((n % 10) as int)]
    }
}

/// The needle occurs in the haystack at position `i`.
pub open spec fn match_at(hay: Seq<char>, needle: Seq<char>, i: int) -> bool {
    &&& 0 <= i
    &&& i + needle.len() <= hay.len()
    &&& hay.subrange(i, i + needle.len()) == needle
}

/// Position of the first occurrence of the needle at or after `from`.
pub open spec fn find_from(hay: Seq<char>, needle: Seq<char>, from: int) -> Option<int>
    recommends
        0 <= from,
    decreases hay.len() - from + 1,
{
    if from < 0 || from > hay.len() {
        None::<int>
    } else if from + needle.len() > hay.len() {
        None::<int>
    } else if match_at(hay, needle, from) {
        Some(from)
    } else {
        find_from(hay, needle, from + 1)
    }
}

/// End of the run of digit characters that starts at `from`.
pub open spec fn digit_run_end(hay: Seq<char>, from: int) -> int
    recommends
        0 <= from <= hay.len(),
    decreases hay.len() - from,
{
    if from < 0 || from >= hay.len() {
        from
    } else if !is_digit(hay[from]) {
        from
    } else {
        digit_run_end(hay, from + 1)
    }
}

/// End of the run of word characters that starts at `from`.
pub open spec fn word_run_end(hay: Seq<char>, from: int) -> int
    recommends
        0 <= from <= hay.len(),
    decreases hay.len() - from,
{
    if from < 0 || from >= hay.len() {
        from
    } else if !is_word_char(hay[from]) {
        from
    } else {
        word_run_end(hay, from + 1)
    }
}

/// Exec mirror of the view of a string slice: its characters, in order.
pub fn chars_vec(s: &str) -> (v: Vec<char>)
    ensures
        v@ == s@,
{
    let n = s.unicode_len();
    let mut v: Vec<char> = Vec::new();
    let mut i: usize = 0;
    while i < n
        invariant
            i <= n,
            n == s@.len(),
            v@.len() == i,
            forall|j: int| 0 <= j < i ==> v@[j] == s@[j],
        decreases n - i,
    {
        let c = s.get_char(i);
        v.push(c);
        i += 1;
    }
    proof {
        assert(v@ =~= s@);
    }
    v
}

/// The needle matches the haystack exactly at position `i`.
pub fn lit_at(hay: &Vec<char>, needle: &Vec<char>, i: usize) -> (r: bool)
    ensures
        r == match_at(hay@, needle@, i as int),
{
    let hlen = hay.len();
    if i > hlen || needle.len() > hlen - i {
        return false;
    }
    let mut j: usize = 0;
    while j < needle.len()
        invariant
            hlen == hay@.len(),
            i + needle@.len() <= hay@.len(),
            j <= needle@.len(),
            forall|k: int| 0 <= k < j ==> hay@[i + k] == needle@[k],
        decreases needle@.len() - j,
    {
        if hay[i + j] != needle[j] {
            proof {
                assert(match_at(hay@, needle@, i as int) ==> hay@.subrange(
                    i as int,
                    i + needle@.len(),
                )[j as int] == needle@[j as int]);
            }
            return false;
        }
        j += 1;
    }
    proof {
        assert(hay@.subrange(i as int, i + needle@.len()) =~= needle@);
    }
    true
}

/// Exact equality of two character vectors, stated over their views.
pub fn chars_eq(a: &Vec<char>, b: &Vec<char>) -> (r: bool)
    ensures
        r == (a@ == b@),
{
    if a.len() != b.len() {
        proof {
            assert(a@ != b@) by {
                if a@ == b@ {
                    assert(a@.len() == b@.len());
                }
            }
        }
        return false;
    }
    let r = lit_at(a, b, 0);
    proof {
        assert(a@.subrange(0, b@.len() as int) =~= a@);
        if r {
            assert(a@ == b@);
        } else if a@ == b@ {
            assert(match_at(a@, b@, 0));
        }
    }
    r
}

/// Whether a character vector holds exactly the characters of a string slice.
pub fn chars_eq_str(a: &Vec<char>, s: &str) -> (r: bool)
    ensures
        r == (a@ == s@),
{
    let l = chars_vec(s);
    chars_eq(a, &l)
}

proof fn lemma_find_from_skip(hay: Seq<char>, needle: Seq<char>, from: int, cur: int)
    requires
        0 <= from <= cur <= hay.len(),
        forall|p: int| from <= p < cur ==> !match_at(hay, needle, p),
    ensures
        find_from(hay, needle, from) == find_from(hay, needle, cur),
    decreases cur - from,
{
    if from < cur {
        lemma_find_from_skip(hay, needle, from + 1, cur);
    }
}

/// First occurrence of the needle at or after `from`, if any.
pub fn find(hay: &Vec<char>, needle: &Vec<char>, from: usize) -> (r: Option<usize>)
    requires
        from <= hay@.len(),
    ensures
        match r {
            Some(i) => find_from(hay@, needle@, from as int) == Some(i as int) && from <= i
                && i + needle@.len() <= hay@.len(),
            None => find_from(hay@, needle@, from as int) is None,
        },
{
    if needle.len() == 0 {
        proof {
            assert(hay@.subrange(from as int, from as int) =~= needle@);
        }
        return Some(from);
    }
    if needle.len() > hay.len() || from > hay.len() - needle.len() {
        proof {
            lemma_find_from_none_past(hay@, needle@, from as int);
        }
        return None;
    }
    let last = hay.len() - needle.len();
    let mut cur = from;
    while cur <= last
        invariant
            from <= cur <= last + 1,
            last + needle@.len() == hay@.len(),
            1 <= needle@.len() <= hay@.len(),
            hay@.len() <= usize::MAX,
            forall|p: int| from <= p < cur ==> !match_at(hay@, needle@, p),
        decreases last + 1 - cur,
    {
        if lit_at(hay, needle, cur) {
            proof {
                lemma_find_from_skip(hay@, needle@, from as int, cur as int);
            }
            return Some(cur);
        }
        cur += 1;
    }
    proof {
        lemma_find_from_skip(hay@, needle@, from as int, cur as int);
    }
    None
}

proof fn lemma_find_from_none_past(hay: Seq<char>, needle: Seq<char>, from: int)
    requires
        from + needle.len() > hay.len(),
        0 <= from,
    ensures
        find_from(hay, needle, from) is None,
{
}

/// Exec test for a digit character.
pub fn digit_exec(c: char) -> (r: bool)
    ensures
        r == is_digit(c),
{
    '0' <= c && c <= '9'
}

/// Exec test for a word character.
pub fn word_char_exec(c: char) -> (r: bool)
    ensures
        r == is_word_char(c),
{
    ('a' <= c && c <= 'z') || ('A' <= c && c <= 'Z') || ('0' <= c && c <= '9') || c == '_'
}

/// End of the digit run that starts at `from`.
pub fn scan_digits(hay: &Vec<char>, from: usize) -> (end: usize)
    requires
        from <= hay@.len(),
    ensures
        end == digit_run_end(hay@, from as int),
        from <= end <= hay@.len(),
        forall|k: int| from <= k < end ==> is_digit(hay@[k]),
        end < hay@.len() ==> !is_digit(hay@[end as int]),
{
    let mut cur = from;
    while cur < hay.len() && digit_exec(hay[cur])
        invariant
            from <= cur <= hay@.len(),
            digit_run_end(hay@, from as int) == digit_run_end(hay@, cur as int),
            forall|k: int| from <= k < cur ==> is_digit(hay@[k]),
        decreases hay@.len() - cur,
    {
        cur += 1;
    }
    cur
}

/// End of the word-character run that starts at `from`.
pub fn scan_word(hay: &Vec<char>, from: usize) -> (end: usize)
    requires
        from <= hay@.len(),
    ensures
        end == word_run_end(hay@, from as int),
        from <= end <= hay@.len(),
        forall|k: int| from <= k < end ==> is_word_char(hay@[k]),
        end < hay@.len() ==> !is_word_char(hay@[end as int]),
{
    let mut cur = from;
    while cur < hay.len() && word_char_exec(hay[cur])
        invariant
            from <= cur <= hay@.len(),
            word_run_end(hay@, from as int) == word_run_end(hay@, cur as int),
            forall|k: int| from <= k < cur ==> is_word_char(hay@[k]),
        decreases hay@.len() - cur,
    {
        cur += 1;
    }
    cur
}

/// Every digit sequence has a nonnegative value.
pub proof fn lemma_dec_val_nonneg(s: Seq<char>)
    requires
        forall|k: int| 0 <= k < s.len() ==> is_digit(s[k]),
    ensures
        dec_val(s) >= 0,
    decreases s.len(),
{
    if s.len() > 0 {
        lemma_dec_val_nonneg(s.drop_last());
    }
}

/// Extending a digit sequence on the right never lowers its value.
pub proof fn lemma_dec_val_prefix(s: Seq<char>, i: int)
    requires
        0 <= i <= s.len(),
        forall|k: int| 0 <= k < s.len() ==> is_digit(s[k]),
    ensures
        dec_val(s) >= dec_val(s.subrange(0, i)),
    decreases s.len() - i,
{
    if i < s.len() {
        lemma_dec_val_prefix(s, i + 1);
        let t = s.subrange(0, i + 1);
        assert(t.drop_last() =~= s.subrange(0, i));
        lemma_dec_val_nonneg(s.subrange(0, i));
        assert(dec_val(t) == dec_val(s.subrange(0, i)) * 10 + digit_val(s[i]));
    } else {
        assert(s.subrange(0, i) =~= s);
    }
}

/// Decimal value of the digits in `hay[from..end]`, when it fits in an `i64`.
pub fn parse_num(hay: &Vec<char>, from: usize, end: usize) -> (r: Option<i64>)
    requires
        from <= end <= hay@.len(),
        forall|k: int| from <= k < end ==> is_digit(hay@[k]),
    ensures
        match r {
            Some(v) => v as int == dec_val(hay@.subrange(from as int, end as int)) && v >= 0,
            None => dec_val(hay@.subrange(from as int, end as int)) > i64::MAX,
        },
{
    let mut v: i64 = 0;
    let mut cur = from;
    while cur < end
        invariant
            from <= cur <= end <= hay@.len(),
            forall|k: int| from <= k < end ==> is_digit(hay@[k]),
            v >= 0,
            v as int == dec_val(hay@.subrange(from as int, cur as int)),
        decreases end - cur,
    {
        let c = hay[cur];
        proof {
            assert(is_digit(hay@[cur as int]));
        }
        let d: i64 = (c as u32 - '0' as u32) as i64;
        let step = match v.checked_mul(10) {
            Some(m) => m.checked_add(d),
            None => None,
        };
        proof {
            let full = hay@.subrange(from as int, end as int);
            let next = hay@.subrange(from as int, cur as int + 1);
            assert(next.drop_last() =~= hay@.subrange(from as int, cur as int));
            assert(dec_val(next) == v as int * 10 + digit_val(hay@[cur as int]));
        }
        match step {
            Some(nv) => {
                v = nv;
            },
            None => {
                proof {
                    let full = hay@.subrange(from as int, end as int);
                    let next = hay@.subrange(from as int, cur as int + 1);
                    assert(forall|k: int| 0 <= k < full.len() ==> is_digit(full[k]));
                    assert(next =~= full.subrange(0, cur - from + 1));
                    lemma_dec_val_prefix(full, cur - from + 1);
                }
                return None;
            },
        }
        cur += 1;
    }
    proof {
        assert(hay@.subrange(from as int, cur as int) =~= hay@.subrange(from as int, end as int));
    }
    Some(v)
}

/// The one-character string for a digit value.
fn digit_str(d: u64) -> (r: &'static str)
    requires
        d < 10,
    ensures
        r@ =~= seq![digit_char(d as int)],
{
    proof {
        reveal_strlit("0");
        reveal_strlit("1");
        reveal_strlit("2");
        reveal_strlit("3");
        reveal_strlit("4");
        reveal_strlit("5");
        reveal_strlit("6");
        reveal_strlit("7");
        reveal_strlit("8");
        reveal_strlit("9");
    }
    if d == 0 {
        "0"
    } else if d == 1 {
        "1"
    } else if d == 2 {
        "2"
    } else if d == 3 {
        "3"
    } else if d == 4 {
        "4"
    } else if d == 5 {
        "5"
    } else if d == 6 {
        "6"
    } else if d == 7 {
        "7"
    } else if d == 8 {
        "8"
    } else {
        "9"
    }
}

/// Decimal rendering of a number, most significant digit first.
pub fn u64_to_string(n: u64) -> (r: String)
    ensures
        r@ == dec_rep(n as nat),
    decreases n,
{
    if n < 10 {
        String::from_str(digit_str(n))
    } else {
        let mut s = u64_to_string(n / 10);
        s.append(digit_str(n % 10));
        s
    }
}

/// Decimal representation of a signed number: a minus sign and the
/// magnitude, or just the digits.
pub open spec fn dec_rep_i64(n: int) -> Seq<char> {
    if n < 0 {
        seq!['-'] + dec_rep((-n) as nat)
    } else {
        dec_rep(n as nat)
    }
}

/// Decimal rendering of a signed number.
pub fn i64_to_string(n: i64) -> (r: String)
    ensures
        r@ == dec_rep_i64(n as int),
{
    if n >= 0 {
        u64_to_string(n as u64)
    } else {
        let m = (-(n as i128)) as u64;
        let mut s = String::from_str("-");
        proof {
            reveal_strlit("-");
            assert("-"@ =~= seq!['-']);
        }
        let digits = u64_to_string(m);
        s.append(digits.as_str());
        s
    }
}

} // verus!
