//! Content-level grammars for the scalar views.
//!
//! Each grammar is a spec predicate over a character sequence together
//! with an executable checker proved equivalent to it. The grammars
//! are deliberately syntactic plausibility checks: they separate a
//! well-formed string from a malformed one without reproducing every
//! corner of the underlying standards.

use vstd::prelude::*;

verus! {

pub open spec fn is_digit(c: char) -> bool {
    48 <= c as int <= 57
}

pub open spec fn is_alpha(c: char) -> bool {
    (65 <= c as int <= 90) || (97 <= c as int <= 122)
}

pub open spec fn is_alnum(c: char) -> bool {
    is_digit(c) || is_alpha(c)
}

/// The numeric value of the two digits at `i` and `i + 1`.
pub open spec fn num2(s: Seq<char>, i: int) -> int {
    (s[i] as int - 48) * 10 + (s[i + 1] as int - 48)
}

fn digit(c: char) -> (r: bool)
    ensures
        r == is_digit(c),
{
    let u = c as u32;
    48 <= u && u <= 57
}

fn alpha(c: char) -> (r: bool)
    ensures
        r == is_alpha(c),
{
    let u = c as u32;
    (65 <= u && u <= 90) || (97 <= u && u <= 122)
}

fn alnum(c: char) -> (r: bool)
    ensures
        r == is_alnum(c),
{
    digit(c) || alpha(c)
}

/// A character an IRI reference may contain: no spaces, no controls,
/// none of the delimiters that never occur in one.
pub open spec fn iri_char(c: char) -> bool {
    &&& c as int > 32
    &&& c as int != 127
    &&& c != '<'
    &&& c != '>'
    &&& c != '"'
    &&& c != '{'
    &&& c != '}'
    &&& c != '|'
    &&& c != '\\'
    &&& c != '^'
    &&& c != '`'
}

/// A syntactically plausible IRI reference: nonempty and free of
/// spaces, control characters and delimiters. Relative references
/// carry no scheme, so no colon is demanded.
pub open spec fn iri_plausible(s: Seq<char>) -> bool {
    &&& s.len() >= 1
    &&& forall|i: int| 0 <= i < s.len() ==> iri_char(s[i])
}

fn iri_char_check(c: char) -> (r: bool)
    ensures
        r == iri_char(c),
{
    let u = c as u32;
    u > 32 && u != 127 && c != '<' && c != '>' && c != '"' && c != '{' && c != '}' && c != '|'
        && c != '\\' && c != '^' && c != '`'
}

pub fn iri_check(s: &str) -> (r: bool)
    ensures
        r == iri_plausible(s@),
{
    let n = s.unicode_len();
    if n == 0 {
        return false;
    }
    let mut i: usize = 0;
    while i < n
        invariant
            n == s@.len(),
            0 <= i <= n,
            forall|j: int| 0 <= j < i ==> iri_char(s@[j]),
        decreases n - i,
    {
        if !iri_char_check(s.get_char(i)) {
            return false;
        }
        i += 1;
    }
    true
}

/// The fixed-position date-time grammar: `YYYY-MM-DDThh:mm:ss`
/// followed by `Z` or by a `+hh:mm` / `-hh:mm` offset, with the
/// month, day, time and offset fields in range.
pub open spec fn datetime_ok(s: Seq<char>) -> bool {
    &&& (s.len() == 20 || s.len() == 25)
    &&& is_digit(s[0])
    &&& is_digit(s[1])
    &&& is_digit(s[2])
    &&& is_digit(s[3])
    &&& s[4] == '-'
    &&& is_digit(s[5])
    &&& is_digit(s[6])
    &&& s[7] == '-'
    &&& is_digit(s[8])
    &&& is_digit(s[9])
    &&& s[10] == 'T'
    &&& is_digit(s[11])
    &&& is_digit(s[12])
    &&& s[13] == ':'
    &&& is_digit(s[14])
    &&& is_digit(s[15])
    &&& s[16] == ':'
    &&& is_digit(s[17])
    &&& is_digit(s[18])
    &&& 1 <= num2(s, 5) <= 12
    &&& 1 <= num2(s, 8) <= 31
    &&& num2(s, 11) <= 23
    &&& num2(s, 14) <= 59
    &&& num2(s, 17) <= 59
    &&& if s.len() == 20 {
        s[19] == 'Z'
    } else {
        &&& (s[19] == '+' || s[19] == '-')
        &&& is_digit(s[20])
        &&& is_digit(s[21])
        &&& s[22] == ':'
        &&& is_digit(s[23])
        &&& is_digit(s[24])
        &&& num2(s, 20) <= 23
        &&& num2(s, 23) <= 59
    }
}

/// The numeric value of the two digits at `i` and `i + 1`.
fn two_digits(s: &str, i: usize) -> (v: u32)
    requires
        i + 1 < s@.len(),
        s@.len() <= usize::MAX,
        is_digit(s@[i as int]),
        is_digit(s@[i as int + 1]),
    ensures
        v == num2(s@, i as int),
{
    (s.get_char(i) as u32 - 48) * 10 + (s.get_char(i + 1) as u32 - 48)
}

pub fn datetime_check(s: &str) -> (r: bool)
    ensures
        r == datetime_ok(s@),
{
    let n = s.unicode_len();
    if n != 20 && n != 25 {
        return false;
    }
    if !(digit(s.get_char(0)) && digit(s.get_char(1)) && digit(s.get_char(2)) && digit(
        s.get_char(3),
    ) && s.get_char(4) == '-' && digit(s.get_char(5)) && digit(s.get_char(6)) && s.get_char(7)
        == '-' && digit(s.get_char(8)) && digit(s.get_char(9)) && s.get_char(10) == 'T' && digit(
        s.get_char(11),
    ) && digit(s.get_char(12)) && s.get_char(13) == ':' && digit(s.get_char(14)) && digit(
        s.get_char(15),
    ) && s.get_char(16) == ':' && digit(s.get_char(17)) && digit(s.get_char(18))) {
        return false;
    }
    let month = two_digits(s, 5);
    let day = two_digits(s, 8);
    let hour = two_digits(s, 11);
    let minute = two_digits(s, 14);
    let second = two_digits(s, 17);
    if !(1 <= month && month <= 12 && 1 <= day && day <= 31 && hour <= 23 && minute <= 59 && second
        <= 59) {
        return false;
    }
    if n == 20 {
        s.get_char(19) == 'Z'
    } else {
        let sign = s.get_char(19);
        if !((sign == '+' || sign == '-') && digit(s.get_char(20)) && digit(s.get_char(21))
            && s.get_char(22) == ':' && digit(s.get_char(23)) && digit(s.get_char(24))) {
            return false;
        }
        two_digits(s, 20) <= 23 && two_digits(s, 23) <= 59
    }
}

/// A designator that may close a duration component.
pub open spec fn dur_designator(c: char) -> bool {
    c == 'Y' || c == 'M' || c == 'W' || c == 'D' || c == 'H' || c == 'S'
}

/// The duration grammar: `P` followed by digit groups each closed by
/// a designator, with at most one `T` separator standing after `P` or
/// after a designator, and a designator closing the string.
pub open spec fn duration_ok(s: Seq<char>) -> bool {
    &&& s.len() >= 3
    &&& s[0] == 'P'
    &&& dur_designator(s[s.len() - 1])
    &&& forall|i: int| 1 <= i < s.len() ==> is_digit(s[i]) || dur_designator(s[i]) || s[i] == 'T'
    &&& forall|i: int| 1 <= i < s.len() && dur_designator(s[i]) ==> is_digit(s[i - 1])
    &&& forall|i: int|
        1 <= i < s.len() ==> ((#[trigger] s[i]) == 'T' ==> (s[i - 1] == 'P' || dur_designator(
            s[i - 1],
        )))
    &&& forall|i: int, j: int|
        1 <= i < j < s.len() ==> !((#[trigger] s[i]) == 'T' && (#[trigger] s[j]) == 'T')
}

fn designator(c: char) -> (r: bool)
    ensures
        r == dur_designator(c),
{
    c == 'Y' || c == 'M' || c == 'W' || c == 'D' || c == 'H' || c == 'S'
}

pub fn duration_check(s: &str) -> (r: bool)
    ensures
        r == duration_ok(s@),
{
    let n = s.unicode_len();
    if n < 3 {
        return false;
    }
    if s.get_char(0) != 'P' {
        return false;
    }
    let mut seen_t = false;
    let mut prev: char = 'P';
    let mut i: usize = 1;
    while i < n
        invariant
            n == s@.len(),
            n >= 3,
            s@[0] == 'P',
            1 <= i <= n,
            prev == s@[i - 1],
            forall|j: int| 1 <= j < i ==> is_digit(s@[j]) || dur_designator(s@[j]) || s@[j] == 'T',
            forall|j: int| 1 <= j < i && dur_designator(s@[j]) ==> is_digit(s@[j - 1]),
            forall|j: int|
                1 <= j < i ==> ((#[trigger] s@[j]) == 'T' ==> (s@[j - 1] == 'P' || dur_designator(
                    s@[j - 1],
                ))),
            seen_t <==> exists|j: int| 1 <= j < i && (#[trigger] s@[j]) == 'T',
            forall|j: int, k: int|
                1 <= j < k < i ==> !((#[trigger] s@[j]) == 'T' && (#[trigger] s@[k]) == 'T'),
        decreases n - i,
    {
        let c = s.get_char(i);
        if designator(c) {
            if !digit(prev) {
                return false;
            }
        } else if c == 'T' {
            if seen_t {
                proof {
                    let j = choose|j: int| 1 <= j < i && (#[trigger] s@[j]) == 'T';
                    assert(s@[j] == 'T' && s@[i as int] == 'T');
                    assert(!duration_ok(s@));
                }
                return false;
            }
            if !(prev == 'P' || designator(prev)) {
                return false;
            }
            seen_t = true;
        } else if !digit(c) {
            return false;
        }
        prev = c;
        i += 1;
    }
    designator(prev)
}

/// A character a media-type token may contain.
pub open spec fn token_char(c: char) -> bool {
    is_alnum(c) || c == '-' || c == '+' || c == '.' || c == '_'
}

/// Where the media type splits into type and subtype: a single slash
/// with a nonempty token on either side.
pub open spec fn mediatype_split_at(s: Seq<char>, k: int) -> bool {
    &&& 1 <= k < s.len() - 1
    &&& s[k] == '/'
    &&& forall|i: int| 0 <= i < s.len() && i != k ==> token_char(s[i])
}

/// The media-type grammar: `type/subtype`, both sides nonempty tokens.
pub open spec fn mediatype_ok(s: Seq<char>) -> bool {
    exists|k: int| mediatype_split_at(s, k)
}

fn token_char_check(c: char) -> (r: bool)
    ensures
        r == token_char(c),
{
    alnum(c) || c == '-' || c == '+' || c == '.' || c == '_'
}

pub fn mediatype_check(s: &str) -> (r: bool)
    ensures
        r == mediatype_ok(s@),
{
    let n = s.unicode_len();
    if n < 3 {
        return false;
    }
    let mut fs: usize = 0;
    let mut found = false;
    let mut i: usize = 0;
    while i < n && !found
        invariant
            n == s@.len(),
            0 <= i <= n,
            !found ==> forall|j: int| 0 <= j < i ==> s@[j] != '/',
            found ==> fs == i && i < n && s@[fs as int] == '/' && forall|j: int|
                0 <= j < fs ==> s@[j] != '/',
        decreases n - i, (if found {
            0int
        } else {
            1int
        }),
    {
        if s.get_char(i) == '/' {
            fs = i;
            found = true;
        } else {
            i += 1;
        }
    }
    if !found {
        proof {
            assert forall|k: int| !mediatype_split_at(s@, k) by {
                if 1 <= k < s@.len() - 1 {
                    assert(s@[k] != '/');
                }
            }
        }
        return false;
    }
    if fs < 1 || fs >= n - 1 {
        proof {
            assert forall|k: int| !mediatype_split_at(s@, k) by {
                if mediatype_split_at(s@, k) {
                    if k != fs {
                        assert(token_char(s@[fs as int]));
                        assert(false);
                    }
                }
            }
        }
        return false;
    }
    let mut i: usize = 0;
    while i < n
        invariant
            n == s@.len(),
            0 <= i <= n,
            1 <= fs < n - 1,
            s@[fs as int] == '/',
            forall|j: int| 0 <= j < fs ==> s@[j] != '/',
            forall|j: int| 0 <= j < i && j != fs ==> token_char(s@[j]),
        decreases n - i,
    {
        if i != fs && !token_char_check(s.get_char(i)) {
            proof {
                assert forall|k: int| !mediatype_split_at(s@, k) by {
                    if mediatype_split_at(s@, k) {
                        if k != fs {
                            assert(token_char(s@[fs as int]));
                            assert(false);
                        }
                        assert(token_char(s@[i as int]));
                        assert(false);
                    }
                }
            }
            return false;
        }
        i += 1;
    }
    proof {
        assert(mediatype_split_at(s@, fs as int));
    }
    true
}

/// The language-tag grammar: an alphabetic first character, then
/// alphanumeric characters and single hyphens, closing alphanumeric.
pub open spec fn langtag_ok(s: Seq<char>) -> bool {
    &&& s.len() >= 1
    &&& is_alpha(s[0])
    &&& is_alnum(s[s.len() - 1])
    &&& forall|i: int| 0 <= i < s.len() ==> is_alnum(s[i]) || s[i] == '-'
    &&& forall|i: int| 1 <= i < s.len() ==> !((#[trigger] s[i]) == '-' && s[i - 1] == '-')
}

pub fn langtag_check(s: &str) -> (r: bool)
    ensures
        r == langtag_ok(s@),
{
    let n = s.unicode_len();
    if n == 0 {
        return false;
    }
    let first = s.get_char(0);
    if !alpha(first) {
        return false;
    }
    let mut prev: char = first;
    let mut i: usize = 1;
    while i < n
        invariant
            n == s@.len(),
            n >= 1,
            is_alpha(s@[0]),
            1 <= i <= n,
            prev == s@[i - 1],
            forall|j: int| 0 <= j < i ==> is_alnum(s@[j]) || s@[j] == '-',
            forall|j: int| 1 <= j < i ==> !((#[trigger] s@[j]) == '-' && s@[j - 1] == '-'),
        decreases n - i,
    {
        let c = s.get_char(i);
        if c == '-' {
            if prev == '-' {
                return false;
            }
        } else if !alnum(c) {
            return false;
        }
        prev = c;
        i += 1;
    }
    alnum(prev)
}

} // verus!
