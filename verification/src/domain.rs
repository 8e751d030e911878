//! The validated domain values: a subscriber's name and email address, and
//! the pair of them ready to be persisted. Each wrapper is constructed only
//! through its `parse` function, so every live value has passed validation.

use vstd::prelude::*;

use crate::text::{
    is_whitespace, is_whitespace_char, lemma_all_whitespace_trims_empty, lemma_trimmed_chars_from_source,
    lemma_trimmed_idempotent, lemma_trimmed_keeps_char, trim_chars, trimmed,
};

verus! {

/// The longest a subscriber name may be, counted in characters of the
/// trimmed value.
pub const SUBSCRIBER_NAME_MAX_CHARS: usize = 256;

/// Which field of the submitted form a validation failure is about.
#[derive(Clone, Copy, Debug, PartialEq, Eq, Structural)]
pub enum SubscriberField {
    Name,
    Email,
}

/// A rejected submission value: the field that failed and a human-readable
/// reason.
#[derive(Debug)]
pub struct ValidationError {
    pub field: SubscriberField,
    pub reason: String,
}

/// The characters a subscriber name may not contain.
pub open spec fn forbidden_name_char(c: char) -> bool {
    ||| c == '/'
    ||| c == '('
    ||| c == ')'
    ||| c == '"'
    ||| c == '<'
    ||| c == '>'
    ||| c == '\\'
    ||| c == '{'
    ||| c == '}'
}

/// Decides `forbidden_name_char` executably.
fn is_forbidden_name_char(c: char) -> (r: bool)
    ensures
        r == forbidden_name_char(c),
{
    c == '/' || c == '(' || c == ')' || c == '"' || c == '<' || c == '>' || c == '\\' || c == '{'
        || c == '}'
}

/// Whether some character of `s` is forbidden in a subscriber name.
pub open spec fn has_forbidden_name_char(s: Seq<char>) -> bool {
    exists|i: int| 0 <= i < s.len() && forbidden_name_char(s[i])
}

/// A string is acceptable as a subscriber name when its trimmed value is
/// non-empty, at most `SUBSCRIBER_NAME_MAX_CHARS` characters long, and free
/// of forbidden characters.
pub open spec fn valid_subscriber_name(s: Seq<char>) -> bool {
    &&& trimmed(s).len() > 0
    &&& trimmed(s).len() <= SUBSCRIBER_NAME_MAX_CHARS
    &&& !has_forbidden_name_char(trimmed(s))
}

/// The reason a name is rejected: the first violated rule decides, checked
/// in the order emptiness, length, forbidden characters.
pub open spec fn name_rejection_reason(s: Seq<char>) -> Seq<char> {
    if trimmed(s).len() == 0 {
        "subscriber name is empty or whitespace-only"@
    } else if trimmed(s).len() > SUBSCRIBER_NAME_MAX_CHARS {
        "subscriber name is longer than 256 characters"@
    } else {
        "subscriber name contains a forbidden character"@
    }
}

/// A subscriber's display name, validated and stored in trimmed form.
pub struct SubscriberName {
    name: String,
}

impl View for SubscriberName {
    type V = Seq<char>;

    closed spec fn view(&self) -> Seq<char> {
        self.name@
    }
}

impl SubscriberName {
    /// Every live `SubscriberName` holds a non-empty value within the length
    /// bound, free of forbidden characters, and already trimmed.
    pub open spec fn wf(&self) -> bool {
        &&& 0 < self@.len() <= SUBSCRIBER_NAME_MAX_CHARS
        &&& !has_forbidden_name_char(self@)
        &&& trimmed(self@) == self@
    }

    /// Validates `s` as a subscriber name. Succeeds exactly on valid input
    /// and then holds the trimmed value; fails with the reason of the first
    /// violated rule otherwise.
    #[verifier::loop_isolation(false)]
    pub fn parse(s: String) -> (r: Result<SubscriberName, ValidationError>)
        ensures
            match r {
                Ok(name) => valid_subscriber_name(s@) && name@ == trimmed(s@) && name.wf(),
                Err(e) => !valid_subscriber_name(s@) && e.field == SubscriberField::Name
                    && e.reason@ == name_rejection_reason(s@),
            },
    {
        let t = trim_chars(s.as_str());
        let n = t.as_str().unicode_len();
        if n == 0 {
            return Err(ValidationError {
                field: SubscriberField::Name,
                reason: String::from_str("subscriber name is empty or whitespace-only"),
            });
        }
        if n > SUBSCRIBER_NAME_MAX_CHARS {
            return Err(ValidationError {
                field: SubscriberField::Name,
                reason: String::from_str("subscriber name is longer than 256 characters"),
            });
        }
        let mut i: usize = 0;
        while i < n
            invariant
                0 <= i <= n,
                n == t@.len(),
                forall|j: int| 0 <= j < i ==> !forbidden_name_char(t@[j]),
            decreases n - i,
        {
            let c = t.as_str().get_char(i);
            if is_forbidden_name_char(c) {
                proof {
                    assert(forbidden_name_char(trimmed(s@)[i as int]));
                }
                return Err(ValidationError {
                    field: SubscriberField::Name,
                    reason: String::from_str("subscriber name contains a forbidden character"),
                });
            }
            i = i + 1;
        }
        proof {
            lemma_trimmed_idempotent(s@);
        }
        Ok(SubscriberName { name: t })
    }

    /// The validated value.
    pub fn as_str(&self) -> (r: &str)
        ensures
            r@ == self@,
    {
        self.name.as_str()
    }
}

/// Whether `s` contains the character `c`.
pub open spec fn contains_char(s: Seq<char>, c: char) -> bool {
    exists|i: int| 0 <= i < s.len() && s[i] == c
}

/// How many times `c` occurs in `s`.
pub open spec fn count_char(s: Seq<char>, c: char) -> int
    decreases s.len(),
{
    if s.len() == 0 {
        0
    } else {
        count_char(s.drop_last(), c) + if s.last() == c {
            1int
        } else {
            0int
        }
    }
}

/// The index of the first occurrence of `c` in `s`, or -1 when there is none.
pub open spec fn find_char(s: Seq<char>, c: char) -> int
    decreases s.len(),
{
    if s.len() == 0 {
        -1
    } else if s[0] == c {
        0
    } else {
        let r = find_char(s.drop_first(), c);
        if r < 0 {
            -1
        } else {
            r + 1
        }
    }
}

/// Whether some character of `s` is whitespace.
pub open spec fn has_whitespace_char(s: Seq<char>) -> bool {
    exists|i: int| 0 <= i < s.len() && is_whitespace_char(s[i])
}

/// A string is acceptable as a subscriber email when it has exactly one `@`,
/// a non-empty local part before it, a non-empty domain after it that
/// contains a `.`, and no whitespace anywhere.
pub open spec fn valid_subscriber_email(s: Seq<char>) -> bool {
    let at = find_char(s, '@');
    &&& count_char(s, '@') == 1
    &&& at > 0
    &&& at + 1 < s.len()
    &&& contains_char(s.subrange(at + 1, s.len() as int), '.')
    &&& !has_whitespace_char(s)
}

/// The reason an email is rejected.
pub open spec fn email_rejection_reason() -> Seq<char> {
    "subscriber email is not a valid email address"@
}

/// A subscriber's email address, validated and stored as submitted.
pub struct SubscriberEmail {
    email: String,
}

impl View for SubscriberEmail {
    type V = Seq<char>;

    closed spec fn view(&self) -> Seq<char> {
        self.email@
    }
}

/// Appending one character changes `count_char` by one exactly when the
/// character matches.
proof fn lemma_count_char_push(s: Seq<char>, x: char, c: char)
    ensures
        count_char(s.push(x), c) == count_char(s, c) + if x == c {
            1int
        } else {
            0int
        },
{
    assert(s.push(x).drop_last() =~= s);
}

/// Appending one character leaves an earlier first occurrence in place, and
/// otherwise introduces one exactly when the new character matches.
proof fn lemma_find_char_push(s: Seq<char>, x: char, c: char)
    ensures
        find_char(s, c) >= 0 ==> find_char(s.push(x), c) == find_char(s, c),
        find_char(s, c) < 0 && x == c ==> find_char(s.push(x), c) == s.len(),
        find_char(s, c) < 0 && x != c ==> find_char(s.push(x), c) < 0,
    decreases s.len(),
{
    if s.len() == 0 {
        assert(find_char(s, c) == -1);
        assert(s.push(x)[0] == x);
        if x == c {
            assert(find_char(s.push(x), c) == 0);
        } else {
            assert(s.push(x).drop_first() =~= Seq::<char>::empty());
            assert(find_char(s.push(x).drop_first(), c) == -1);
            assert(find_char(s.push(x), c) == -1);
        }
    } else if s[0] == c {
        assert(s.push(x)[0] == c);
        assert(find_char(s, c) == 0);
        assert(find_char(s.push(x), c) == 0);
    } else {
        assert(s.push(x)[0] == s[0]);
        lemma_find_char_push(s.drop_first(), x, c);
        assert(s.push(x).drop_first() =~= s.drop_first().push(x));
        assert(s.drop_first().len() == s.len() - 1);
        if find_char(s, c) < 0 && x != c {
            assert(find_char(s.drop_first(), c) < 0);
            assert(find_char(s.drop_first().push(x), c) < 0);
            assert(find_char(s.push(x), c) == -1);
        }
    }
}

/// Where the first occurrence lies: `find_char` returns -1 exactly when `c`
/// does not occur, and otherwise the least index holding `c`.
pub proof fn lemma_find_char_spec(s: Seq<char>, c: char)
    ensures
        find_char(s, c) == -1 <==> !contains_char(s, c),
        contains_char(s, c) ==> 0 <= find_char(s, c) < s.len() && s[find_char(s, c)] == c
            && forall|j: int| 0 <= j < find_char(s, c) ==> s[j] != c,
    decreases s.len(),
{
    if s.len() == 0 {
    } else if s[0] == c {
    } else {
        lemma_find_char_spec(s.drop_first(), c);
        if contains_char(s, c) {
            let i = choose|i: int| 0 <= i < s.len() && s[i] == c;
            assert(s.drop_first()[i - 1] == c);
        }
        if contains_char(s.drop_first(), c) {
            let r = find_char(s.drop_first(), c);
            assert(s[r + 1] == c);
            assert forall|j: int| 0 <= j < find_char(s, c) implies s[j] != c by {
                if j >= 1 {
                    assert(s[j] == s.drop_first()[j - 1]);
                }
            }
        }
    }
}

/// `count_char` is zero exactly when the character does not occur.
pub proof fn lemma_count_char_zero(s: Seq<char>, c: char)
    ensures
        count_char(s, c) == 0 <==> !contains_char(s, c),
        count_char(s, c) >= 0,
    decreases s.len(),
{
    if s.len() == 0 {
    } else {
        lemma_count_char_zero(s.drop_last(), c);
        if s.last() != c && contains_char(s, c) {
            let i = choose|i: int| 0 <= i < s.len() && s[i] == c;
            assert(s.drop_last()[i] == c);
        }
        if contains_char(s.drop_last(), c) {
            let i = choose|i: int| 0 <= i < s.drop_last().len() && s.drop_last()[i] == c;
            assert(s[i] == c);
        }
    }
}

impl SubscriberEmail {
    /// Every live `SubscriberEmail` satisfies the email grammar check.
    pub open spec fn wf(&self) -> bool {
        valid_subscriber_email(self@)
    }

    /// Validates `s` as a subscriber email address. Succeeds exactly on
    /// valid input and then holds the value as submitted.
    #[verifier::loop_isolation(false)]
    pub fn parse(s: String) -> (r: Result<SubscriberEmail, ValidationError>)
        ensures
            match r {
                Ok(email) => valid_subscriber_email(s@) && email@ == s@ && email.wf(),
                Err(e) => !valid_subscriber_email(s@) && e.field == SubscriberField::Email
                    && e.reason@ == email_rejection_reason(),
            },
    {
        let n = s.as_str().unicode_len();
        let mut i: usize = 0;
        let mut at_count: usize = 0;
        let mut at_pos: usize = 0;
        let mut seen_ws = false;
        while i < n
            invariant
                0 <= i <= n,
                n == s@.len(),
                at_count <= i,
                at_count == count_char(s@.subrange(0, i as int), '@'),
                at_count > 0 ==> at_pos < i && at_pos == find_char(s@.subrange(0, i as int), '@'),
                at_count == 0 ==> find_char(s@.subrange(0, i as int), '@') == -1,
                seen_ws == has_whitespace_char(s@.subrange(0, i as int)),
            decreases n - i,
        {
            let c = s.as_str().get_char(i);
            proof {
                let prefix = s@.subrange(0, i as int);
                lemma_count_char_push(prefix, c, '@');
                lemma_find_char_push(prefix, c, '@');
                assert(s@.subrange(0, i + 1) =~= prefix.push(c));
                if is_whitespace_char(c) {
                    assert(s@.subrange(0, i + 1)[i as int] == c);
                }
            }
            if c == '@' {
                if at_count == 0 {
                    at_pos = i;
                }
                at_count = at_count + 1;
            }
            if is_whitespace(c) {
                seen_ws = true;
            }
            i = i + 1;
        }
        proof {
            assert(s@.subrange(0, n as int) =~= s@);
        }
        if at_count == 1 && at_pos > 0 && at_pos + 1 < n && !seen_ws {
            let mut j: usize = at_pos + 1;
            let ghost domain = s@.subrange(at_pos + 1, n as int);
            while j < n
                invariant
                    at_pos + 1 <= j <= n,
                    n == s@.len(),
                    domain == s@.subrange(at_pos + 1, n as int),
                    forall|k: int| at_pos + 1 <= k < j ==> s@[k] != '.',
                decreases n - j,
            {
                if s.as_str().get_char(j) == '.' {
                    proof {
                        assert(domain[j - (at_pos + 1)] == '.');
                        assert(contains_char(domain, '.'));
                        assert(find_char(s@, '@') == at_pos as int);
                    }
                    return Ok(SubscriberEmail { email: s });
                }
                j = j + 1;
            }
            proof {
                if contains_char(domain, '.') {
                    let k = choose|k: int| 0 <= k < domain.len() && domain[k] == '.';
                    assert(s@[at_pos + 1 + k] == '.');
                }
            }
            Err(ValidationError {
                field: SubscriberField::Email,
                reason: String::from_str("subscriber email is not a valid email address"),
            })
        } else {
            Err(ValidationError {
                field: SubscriberField::Email,
                reason: String::from_str("subscriber email is not a valid email address"),
            })
        }
    }

    /// The validated value.
    pub fn as_str(&self) -> (r: &str)
        ensures
            r@ == self@,
    {
        self.email.as_str()
    }
}

/// A subscriber ready to be persisted: both fields have passed validation.
pub struct NewSubscriber {
    pub email: SubscriberEmail,
    pub name: SubscriberName,
}

/// A name consisting only of whitespace, the empty string included, is never
/// a valid subscriber name.
pub proof fn lemma_whitespace_only_name_rejected(s: Seq<char>)
    requires
        forall|i: int| 0 <= i < s.len() ==> is_whitespace_char(s[i]),
    ensures
        !valid_subscriber_name(s),
{
    lemma_all_whitespace_trims_empty(s);
}

/// A name whose trimmed value is longer than the length bound is never valid.
pub proof fn lemma_overlong_name_rejected(s: Seq<char>)
    requires
        trimmed(s).len() > SUBSCRIBER_NAME_MAX_CHARS,
    ensures
        !valid_subscriber_name(s),
{
}

/// A name containing any forbidden character is never valid, wherever the
/// character stands.
pub proof fn lemma_forbidden_char_name_rejected(s: Seq<char>, i: int)
    requires
        0 <= i < s.len(),
        forbidden_name_char(s[i]),
    ensures
        !valid_subscriber_name(s),
{
    lemma_trimmed_keeps_char(s, i);
}

/// A name that is non-empty once trimmed, within the length bound, and free
/// of forbidden characters is valid (and `parse` then returns its trimmed
/// value).
pub proof fn lemma_well_formed_name_accepted(s: Seq<char>)
    requires
        trimmed(s).len() > 0,
        trimmed(s).len() <= SUBSCRIBER_NAME_MAX_CHARS,
        !has_forbidden_name_char(s),
    ensures
        valid_subscriber_name(s),
{
    if has_forbidden_name_char(trimmed(s)) {
        let j = choose|j: int| 0 <= j < trimmed(s).len() && forbidden_name_char(trimmed(s)[j]);
        lemma_trimmed_chars_from_source(s, j);
    }
}

/// A string without an `@`, or with an empty local part or domain, or with a
/// domain that lacks a `.`, is never a valid subscriber email.
pub proof fn lemma_malformed_email_rejected(s: Seq<char>)
    requires
        ({
            ||| !contains_char(s, '@')
            ||| find_char(s, '@') == 0
            ||| find_char(s, '@') == s.len() - 1
            ||| (contains_char(s, '@') && !contains_char(
                s.subrange(find_char(s, '@') + 1, s.len() as int),
                '.',
            ))
        }),
    ensures
        !valid_subscriber_email(s),
{
    lemma_find_char_spec(s, '@');
    lemma_count_char_zero(s, '@');
}

} // verus!
