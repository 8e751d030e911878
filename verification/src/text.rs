//! Character-level helpers shared by the domain validators: the Unicode
//! whitespace test and whitespace trimming, each with a mathematical
//! definition and a verified executable counterpart.

use vstd::prelude::*;

verus! {

/// The characters with the Unicode `White_Space` property; the set that
/// `str::trim` and `char::is_whitespace` go by.
pub open spec fn is_whitespace_char(c: char) -> bool {
    ||| c == ' '
    ||| c == '\t'
    ||| c == '\n'
    ||| c == '\r'
    ||| c == '\u{000B}'
    ||| c == '\u{000C}'
    ||| c == '\u{0085}'
    ||| c == '\u{00A0}'
    ||| c == '\u{1680}'
    ||| ('\u{2000}' <= c && c <= '\u{200A}')
    ||| c == '\u{2028}'
    ||| c == '\u{2029}'
    ||| c == '\u{202F}'
    ||| c == '\u{205F}'
    ||| c == '\u{3000}'
}

/// Decides `is_whitespace_char` executably.
pub fn is_whitespace(c: char) -> (r: bool)
    ensures
        r == is_whitespace_char(c),
{
    c == ' ' || c == '\t' || c == '\n' || c == '\r' || c == '\u{000B}' || c == '\u{000C}'
        || c == '\u{0085}' || c == '\u{00A0}' || c == '\u{1680}' || ('\u{2000}' <= c && c
        <= '\u{200A}') || c == '\u{2028}' || c == '\u{2029}' || c == '\u{202F}' || c == '\u{205F}'
        || c == '\u{3000}'
}

/// The sequence with the leading whitespace removed.
pub open spec fn trim_front(s: Seq<char>) -> Seq<char>
    decreases s.len(),
{
    if s.len() > 0 && is_whitespace_char(s[0]) {
        trim_front(s.drop_first())
    } else {
        s
    }
}

/// The sequence with the trailing whitespace removed.
pub open spec fn trim_back(s: Seq<char>) -> Seq<char>
    decreases s.len(),
{
    if s.len() > 0 && is_whitespace_char(s.last()) {
        trim_back(s.drop_last())
    } else {
        s
    }
}

/// The sequence with both leading and trailing whitespace removed: what
/// `str::trim` leaves.
pub open spec fn trimmed(s: Seq<char>) -> Seq<char> {
    trim_back(trim_front(s))
}

/// `trim_front` removes exactly the maximal whitespace prefix: if the first
/// `k` characters are whitespace and the one after them (if any) is not, the
/// rest of the sequence is what remains.
proof fn lemma_trim_front_at(s: Seq<char>, k: int)
    requires
        0 <= k <= s.len(),
        forall|i: int| 0 <= i < k ==> is_whitespace_char(s[i]),
        k < s.len() ==> !is_whitespace_char(s[k]),
    ensures
        trim_front(s) == s.subrange(k, s.len() as int),
    decreases k,
{
    if k == 0 {
        assert(s.subrange(0, s.len() as int) =~= s);
    } else {
        lemma_trim_front_at(s.drop_first(), k - 1);
        assert(s.drop_first().subrange(k - 1, s.drop_first().len() as int) =~= s.subrange(
            k,
            s.len() as int,
        ));
    }
}

/// `trim_back` removes exactly the maximal whitespace suffix: if every
/// character from position `k` on is whitespace and the one before `k`
/// (if any) is not, the first `k` characters are what remains.
proof fn lemma_trim_back_at(s: Seq<char>, k: int)
    requires
        0 <= k <= s.len(),
        forall|i: int| k <= i < s.len() ==> is_whitespace_char(s[i]),
        k > 0 ==> !is_whitespace_char(s[k - 1]),
    ensures
        trim_back(s) == s.subrange(0, k),
    decreases s.len() - k,
{
    if k == s.len() {
        assert(s.subrange(0, s.len() as int) =~= s);
    } else {
        lemma_trim_back_at(s.drop_last(), k);
        assert(s.drop_last().subrange(0, k) =~= s.subrange(0, k));
    }
}

/// Every character of `trim_front(s)` is a character of `s`; a non-whitespace
/// character of `s` survives, at an index shifted by the removed prefix.
proof fn lemma_trim_front_keeps_char(s: Seq<char>, i: int)
    requires
        0 <= i < s.len(),
        !is_whitespace_char(s[i]),
    ensures
        exists|j: int| 0 <= j <= i && j < trim_front(s).len() && trim_front(s)[j] == s[i],
    decreases s.len(),
{
    if s.len() > 0 && is_whitespace_char(s[0]) {
        lemma_trim_front_keeps_char(s.drop_first(), i - 1);
        let j = choose|j: int|
            0 <= j <= i - 1 && j < trim_front(s.drop_first()).len() && trim_front(s.drop_first())[j]
                == s.drop_first()[i - 1];
        assert(trim_front(s)[j] == s[i]);
    } else {
        assert(trim_front(s)[i] == s[i]);
    }
}

/// Every non-whitespace character of `s` survives `trim_back`.
proof fn lemma_trim_back_keeps_char(s: Seq<char>, i: int)
    requires
        0 <= i < s.len(),
        !is_whitespace_char(s[i]),
    ensures
        exists|j: int| 0 <= j < trim_back(s).len() && trim_back(s)[j] == s[i],
    decreases s.len(),
{
    if s.len() > 0 && is_whitespace_char(s.last()) {
        assert(s.drop_last()[i] == s[i]);
        lemma_trim_back_keeps_char(s.drop_last(), i);
        let j = choose|j: int|
            0 <= j < trim_back(s.drop_last()).len() && trim_back(s.drop_last())[j]
                == s.drop_last()[i];
        assert(trim_back(s)[j] == s[i]);
    } else {
        assert(trim_back(s)[i] == s[i]);
    }
}

/// Every non-whitespace character of `s` survives full trimming.
pub proof fn lemma_trimmed_keeps_char(s: Seq<char>, i: int)
    requires
        0 <= i < s.len(),
        !is_whitespace_char(s[i]),
    ensures
        exists|j: int| 0 <= j < trimmed(s).len() && trimmed(s)[j] == s[i],
{
    lemma_trim_front_keeps_char(s, i);
    let j = choose|j: int|
        0 <= j <= i && j < trim_front(s).len() && trim_front(s)[j] == s[i];
    lemma_trim_back_keeps_char(trim_front(s), j);
    let k = choose|k: int|
        0 <= k < trim_back(trim_front(s)).len() && trim_back(trim_front(s))[k] == trim_front(s)[j];
    assert(trimmed(s)[k] == s[i]);
}

/// Every character of `trimmed(s)` is a character of `s`.
pub proof fn lemma_trimmed_chars_from_source(s: Seq<char>, j: int)
    requires
        0 <= j < trimmed(s).len(),
    ensures
        exists|i: int| 0 <= i < s.len() && s[i] == trimmed(s)[j],
{
    lemma_trim_front_is_suffix(s);
    let k = choose|k: int|
        0 <= k <= s.len() && trim_front(s) == s.subrange(k, s.len() as int);
    lemma_trim_back_is_prefix(trim_front(s));
    let m = choose|m: int|
        0 <= m <= trim_front(s).len() && trim_back(trim_front(s)) == trim_front(s).subrange(0, m);
    assert(trimmed(s)[j] == s[k + j]);
}

/// `trim_front(s)` is a suffix of `s`.
proof fn lemma_trim_front_is_suffix(s: Seq<char>)
    ensures
        exists|k: int| 0 <= k <= s.len() && trim_front(s) == s.subrange(k, s.len() as int),
    decreases s.len(),
{
    if s.len() > 0 && is_whitespace_char(s[0]) {
        lemma_trim_front_is_suffix(s.drop_first());
        let k = choose|k: int|
            0 <= k <= s.drop_first().len() && trim_front(s.drop_first()) == s.drop_first().subrange(
                k,
                s.drop_first().len() as int,
            );
        assert(s.drop_first().subrange(k, s.drop_first().len() as int) =~= s.subrange(
            k + 1,
            s.len() as int,
        ));
    } else {
        assert(s.subrange(0, s.len() as int) =~= s);
    }
}

/// `trim_back(s)` is a prefix of `s`.
proof fn lemma_trim_back_is_prefix(s: Seq<char>)
    ensures
        exists|m: int| 0 <= m <= s.len() && trim_back(s) == s.subrange(0, m),
    decreases s.len(),
{
    if s.len() > 0 && is_whitespace_char(s.last()) {
        lemma_trim_back_is_prefix(s.drop_last());
        let m = choose|m: int|
            0 <= m <= s.drop_last().len() && trim_back(s.drop_last()) == s.drop_last().subrange(
                0,
                m,
            );
        assert(s.drop_last().subrange(0, m) =~= s.subrange(0, m));
    } else {
        assert(s.subrange(0, s.len() as int) =~= s);
    }
}

/// What `trim_front` leaves never starts with whitespace.
proof fn lemma_trim_front_first_not_ws(s: Seq<char>)
    ensures
        trim_front(s).len() > 0 ==> !is_whitespace_char(trim_front(s)[0]),
    decreases s.len(),
{
    if s.len() > 0 && is_whitespace_char(s[0]) {
        lemma_trim_front_first_not_ws(s.drop_first());
    }
}

/// What `trim_back` leaves never ends with whitespace.
proof fn lemma_trim_back_last_not_ws(s: Seq<char>)
    ensures
        trim_back(s).len() > 0 ==> !is_whitespace_char(trim_back(s).last()),
    decreases s.len(),
{
    if s.len() > 0 && is_whitespace_char(s.last()) {
        lemma_trim_back_last_not_ws(s.drop_last());
    }
}

/// `trim_back` keeps the first character, whenever it leaves anything.
proof fn lemma_trim_back_keeps_first(s: Seq<char>)
    ensures
        trim_back(s).len() > 0 ==> trim_back(s)[0] == s[0],
    decreases s.len(),
{
    if s.len() > 0 && is_whitespace_char(s.last()) {
        lemma_trim_back_keeps_first(s.drop_last());
    }
}

/// Trimming is idempotent: a trimmed value trims to itself.
pub proof fn lemma_trimmed_idempotent(s: Seq<char>)
    ensures
        trimmed(trimmed(s)) == trimmed(s),
{
    let t = trimmed(s);
    if t.len() > 0 {
        lemma_trim_front_first_not_ws(s);
        lemma_trim_back_keeps_first(trim_front(s));
        lemma_trim_back_last_not_ws(trim_front(s));
        assert(!is_whitespace_char(t[0]));
        assert(trim_front(t) == t);
        assert(trim_back(t) == t);
    }
}

/// A sequence of whitespace alone trims to the empty sequence.
pub proof fn lemma_all_whitespace_trims_empty(s: Seq<char>)
    requires
        forall|i: int| 0 <= i < s.len() ==> is_whitespace_char(s[i]),
    ensures
        trimmed(s).len() == 0,
{
    lemma_trim_front_at(s, s.len() as int);
    assert(trim_front(s) =~= Seq::<char>::empty());
}

/// Removes leading and trailing whitespace, as `str::trim` does, and returns
/// the result as an owned string.
#[verifier::loop_isolation(false)]
pub fn trim_chars(s: &str) -> (r: String)
    ensures
        r@ == trimmed(s@),
{
    let n = s.unicode_len();
    let mut start: usize = 0;
    while start < n && is_whitespace(s.get_char(start))
        invariant
            0 <= start <= n,
            n == s@.len(),
            forall|i: int| 0 <= i < start ==> is_whitespace_char(s@[i]),
        decreases n - start,
    {
        start = start + 1;
    }
    let mut end: usize = n;
    while end > start && is_whitespace(s.get_char(end - 1))
        invariant
            start <= end <= n,
            n == s@.len(),
            forall|i: int| 0 <= i < start ==> is_whitespace_char(s@[i]),
            start < n ==> !is_whitespace_char(s@[start as int]),
            forall|i: int| end <= i < n ==> is_whitespace_char(s@[i]),
        decreases end,
    {
        end = end - 1;
    }
    proof {
        lemma_trim_front_at(s@, start as int);
        let t = s@.subrange(start as int, n as int);
        lemma_trim_back_at(t, end - start);
        assert(t.subrange(0, end - start) =~= s@.subrange(start as int, end as int));
    }
    let piece = s.substring_char(start, end);
    String::from_str(piece)
}

} // verus!
