//! Character-sequence helpers: equality, splitting on a separator and
//! decimal numerals. The classification rules are stated over these.

use vstd::prelude::*;
use vstd::string::StrSliceExecFns;

verus! {

/// Splits a character sequence on a separator. The result always holds one
/// segment more than the sequence holds separators; segments keep their
/// order and contain no separator.
pub open spec fn split_on(s: Seq<char>, sep: char) -> Seq<Seq<char>>
    decreases s.len(),
{
    if s.len() == 0 {
        seq![Seq::<char>::empty()]
    } else {
        let init = split_on(s.drop_last(), sep);
        if s.last() == sep {
            init.push(Seq::<char>::empty())
        } else {
            init.update(init.len() - 1, init.last().push(s.last()))
        }
    }
}

/// A split result is never empty.
pub proof fn lemma_split_on_nonempty(s: Seq<char>, sep: char)
    ensures
        split_on(s, sep).len() >= 1,
    decreases s.len(),
{
    if s.len() > 0 {
        lemma_split_on_nonempty(s.drop_last(), sep);
    }
}

/// Whether a character is a decimal digit.
pub open spec fn is_digit(c: char) -> bool {
    48 <= c as u32 <= 57
}

/// Whether every character of the sequence is a decimal digit.
pub open spec fn all_digits(s: Seq<char>) -> bool {
    forall|i: int| 0 <= i < s.len() ==> is_digit(#[trigger] s[i])
}

/// The value of a sequence of decimal digits, most significant first.
pub open spec fn digits_val(s: Seq<char>) -> int
    decreases s.len(),
{
    if s.len() == 0 {
        0
    } else {
        digits_val(s.drop_last()) * 10 + (s.last() as u32 - 48)
    }
}

/// A digit string's value never falls when more digits are appended.
pub proof fn lemma_digits_val_prefix_mono(s: Seq<char>, i: int)
    requires
        all_digits(s),
        0 <= i <= s.len(),
    ensures
        0 <= digits_val(s.subrange(0, i)) <= digits_val(s),
    decreases s.len() - i,
{
    if i == s.len() {
        assert(s.subrange(0, i) =~= s);
        lemma_digits_val_nonneg(s);
    } else {
        lemma_digits_val_prefix_mono(s, i + 1);
        let t = s.subrange(0, i + 1);
        assert(t.drop_last() =~= s.subrange(0, i));
        lemma_digits_val_nonneg(s.subrange(0, i));
    }
}

/// The value of a digit string is not negative.
pub proof fn lemma_digits_val_nonneg(s: Seq<char>)
    requires
        all_digits(s),
    ensures
        digits_val(s) >= 0,
    decreases s.len(),
{
    if s.len() > 0 {
        assert(all_digits(s.drop_last()));
        lemma_digits_val_nonneg(s.drop_last());
    }
}

/// The digits of a numeral, with one optional leading plus sign stripped.
pub open spec fn numeral_body(s: Seq<char>) -> Seq<char> {
    if s.len() > 0 && s[0] == '+' {
        s.drop_first()
    } else {
        s
    }
}

/// Whether a sequence is a decimal numeral no larger than the given bound:
/// an optional plus sign followed by at least one digit.
pub open spec fn is_numeral_up_to(s: Seq<char>, bound: int) -> bool {
    let body = numeral_body(s);
    body.len() > 0 && all_digits(body) && digits_val(body) <= bound
}

/// The value of a decimal numeral.
pub open spec fn numeral_val(s: Seq<char>) -> int {
    digits_val(numeral_body(s))
}

/// Compares two strings by content.
pub fn str_eq(a: &str, b: &str) -> (r: bool)
    ensures
        r == (a@ == b@),
{
    let na = a.unicode_len();
    let nb = b.unicode_len();
    if na != nb {
        return false;
    }
    let mut i: usize = 0;
    while i < na
        invariant
            na == a@.len() == b@.len(),
            0 <= i <= na,
            forall|j: int| 0 <= j < i ==> a@[j] == b@[j],
        decreases na - i,
    {
        if a.get_char(i) != b.get_char(i) {
            return false;
        }
        i += 1;
    }
    proof {
        assert(a@ =~= b@);
    }
    true
}

/// Compares a character vector with a string by content.
pub fn chars_eq_str(v: &Vec<char>, s: &str) -> (r: bool)
    ensures
        r == (v@ == s@),
{
    let n = s.unicode_len();
    if v.len() != n {
        return false;
    }
    let mut i: usize = 0;
    while i < n
        invariant
            n == v@.len() == s@.len(),
            0 <= i <= n,
            forall|j: int| 0 <= j < i ==> v@[j] == s@[j],
        decreases n - i,
    {
        if v[i] != s.get_char(i) {
            return false;
        }
        i += 1;
    }
    proof {
        assert(v@ =~= s@);
    }
    true
}

/// The characters of a string, in order.
pub fn str_chars(s: &str) -> (r: Vec<char>)
    ensures
        r@ == s@,
{
    let n = s.unicode_len();
    let mut r: Vec<char> = Vec::new();
    let mut i: usize = 0;
    proof {
        assert(r@ =~= s@.subrange(0, 0));
    }
    while i < n
        invariant
            n == s@.len(),
            0 <= i <= n,
            r@ == s@.subrange(0, i as int),
        decreases n - i,
    {
        let c = s.get_char(i);
        r.push(c);
        proof {
            assert(r@ =~= s@.subrange(0, i + 1));
        }
        i += 1;
    }
    proof {
        assert(r@ =~= s@);
    }
    r
}

/// Splits a string on a separator character.
pub fn split_str(s: &str, sep: char) -> (r: Vec<Vec<char>>)
    ensures
        r.deep_view() == split_on(s@, sep),
{
    let n = s.unicode_len();
    let mut done: Vec<Vec<char>> = Vec::new();
    let mut cur: Vec<char> = Vec::new();
    let mut i: usize = 0;
    proof {
        assert(s@.subrange(0, 0) =~= Seq::<char>::empty());
        assert(done.deep_view().push(cur@) =~~= split_on(s@.subrange(0, 0), sep));
    }
    while i < n
        invariant
            n == s@.len(),
            0 <= i <= n,
            done.deep_view().push(cur@) == split_on(s@.subrange(0, i as int), sep),
        decreases n - i,
    {
        let c = s.get_char(i);
        proof {
            assert(s@.subrange(0, i + 1).drop_last() =~= s@.subrange(0, i as int));
            lemma_split_on_nonempty(s@.subrange(0, i as int), sep);
        }
        if c == sep {
            done.push(cur);
            cur = Vec::new();
            proof {
                assert(done.deep_view().push(cur@) =~~= split_on(s@.subrange(0, i + 1), sep));
            }
        } else {
            cur.push(c);
            proof {
                let parts = split_on(s@.subrange(0, i as int), sep);
                assert(done.deep_view().push(cur@) =~~= parts.update(
                    parts.len() - 1,
                    parts.last().push(c),
                ));
            }
        }
        i += 1;
    }
    proof {
        assert(s@.subrange(0, n as int) =~= s@);
    }
    let ghost before = done.deep_view();
    done.push(cur);
    proof {
        assert(done.deep_view() =~~= before.push(cur@));
    }
    done
}

/// Parses a vector of characters as a decimal number of at most the given
/// bound; `None` exactly on inputs that are no such numeral.
pub fn parse_bounded(s: &Vec<char>, bound: u32) -> (r: Option<u32>)
    ensures
        match r {
            Some(v) => is_numeral_up_to(s@, bound as int) && v == numeral_val(s@) && v <= bound,
            None => !is_numeral_up_to(s@, bound as int),
        },
{
    let n = s.len();
    let start: usize = if n > 0 && s[0] == '+' {
        1
    } else {
        0
    };
    let ghost body = numeral_body(s@);
    proof {
        assert(body =~= s@.subrange(start as int, n as int));
    }
    if n == start {
        return None;
    }
    let mut v: u64 = 0;
    let mut i: usize = start;
    while i < n
        invariant
            start <= i <= n,
            n == s@.len(),
            body == numeral_body(s@),
            body == s@.subrange(start as int, n as int),
            all_digits(body.subrange(0, i - start)),
            v == digits_val(body.subrange(0, i - start)),
            v <= bound,
            bound <= u32::MAX,
        decreases n - i,
    {
        let c = s[i];
        let u = c as u32;
        proof {
            assert(body.subrange(0, i + 1 - start).drop_last() =~= body.subrange(0, i - start));
            assert(body[i - start] == s@[i as int]);
        }
        if u < 48 || u > 57 {
            proof {
                assert(body[i - start] == c);
                assert(!is_digit(c));
                assert(!all_digits(body));
            }
            return None;
        }
        let d: u64 = (u - 48) as u64;
        let next: u64 = v * 10 + d;
        proof {
            let t = body.subrange(0, i + 1 - start);
            assert(t.last() == c);
            assert(all_digits(t));
            assert(digits_val(t) == v * 10 + d);
        }
        if next > bound as u64 {
            proof {
                let t = body.subrange(0, i + 1 - start);
                if all_digits(body) && digits_val(body) <= bound {
                    lemma_digits_val_prefix_mono(body, i + 1 - start);
                    assert(digits_val(t) <= digits_val(body));
                    assert(false);
                }
            }
            return None;
        }
        v = next;
        proof {
            assert(v == digits_val(body.subrange(0, i + 1 - start)));
        }
        i += 1;
    }
    proof {
        assert(body.subrange(0, n - start) =~= body);
        assert(all_digits(body));
        assert(v == digits_val(body));
    }
    Some(v as u32)
}


/// Whether a character is ASCII whitespace.
pub open spec fn is_space(c: char) -> bool {
    c == ' ' || c == '\t' || c == '\n' || c == '\r'
}

/// The sequence with leading and trailing whitespace removed.
pub open spec fn trimmed(s: Seq<char>) -> Seq<char>
    decreases s.len(),
{
    if s.len() == 0 {
        s
    } else if is_space(s[0]) {
        trimmed(s.drop_first())
    } else if is_space(s.last()) {
        trimmed(s.drop_last())
    } else {
        s
    }
}

/// Trimming is the subrange between the outermost non-whitespace characters.
pub proof fn lemma_trimmed_range(s: Seq<char>, a: int, b: int)
    requires
        0 <= a <= b <= s.len(),
        forall|i: int| 0 <= i < a ==> is_space(#[trigger] s[i]),
        forall|i: int| b <= i < s.len() ==> is_space(#[trigger] s[i]),
        a < b ==> !is_space(s[a]) && !is_space(s[b - 1]),
    ensures
        trimmed(s) == s.subrange(a, b),
    decreases s.len(),
{
    if s.len() == 0 {
        assert(trimmed(s) =~= s.subrange(a, b));
    } else if a > 0 {
        assert(is_space(s[0]));
        let t = s.drop_first();
        assert(forall|i: int| 0 <= i < a - 1 ==> is_space(#[trigger] t[i]));
        assert(forall|i: int| b - 1 <= i < t.len() ==> is_space(#[trigger] t[i]));
        lemma_trimmed_range(t, a - 1, b - 1);
        assert(t.subrange(a - 1, b - 1) =~= s.subrange(a, b));
    } else if b < s.len() {
        assert(is_space(s.last()));
        if a == b {
            assert(is_space(s[0]));
            let t = s.drop_first();
            assert(forall|i: int| 0 <= i < t.len() ==> is_space(#[trigger] t[i]));
            lemma_trimmed_range(t, 0, 0);
            assert(t.subrange(0, 0) =~= s.subrange(a, b));
        } else {
            let t = s.drop_last();
            assert(forall|i: int| b <= i < t.len() ==> is_space(#[trigger] t[i]));
            lemma_trimmed_range(t, a, b);
            assert(t.subrange(a, b) =~= s.subrange(a, b));
        }
    } else {
        if a == b {
            assert(s.len() == 0);
        } else {
            assert(!is_space(s[0]));
            assert(!is_space(s.last()));
            assert(trimmed(s) == s);
            assert(s.subrange(a, b) =~= s);
        }
    }
}

/// The lower-case code of a character: letters fold, everything else is
/// itself.
pub open spec fn lower_code(c: char) -> u32 {
    if 65 <= c as u32 && (c as u32) <= 90 {
        (c as u32 + 32) as u32
    } else {
        c as u32
    }
}

/// Whether two sequences are equal once letter case is folded away.
pub open spec fn eq_ignore_case(a: Seq<char>, b: Seq<char>) -> bool {
    a.len() == b.len() && forall|i: int|
        0 <= i < a.len() ==> lower_code(#[trigger] a[i]) == lower_code(b[i])
}

} // verus!
