//! Character-level text policy used by the renderer: the whitespace
//! predicate, whitespace-only detection, and the newline-collapsing /
//! trimming step applied to text nodes in single-line output.

use vstd::prelude::*;

verus! {

/// The Unicode `White_Space` code points, the set that `str::trim`
/// and whitespace-only checks go by.
pub open spec fn is_ws_char(c: char) -> bool {
    ||| c == '\u{0009}'
    ||| c == '\u{000A}'
    ||| c == '\u{000B}'
    ||| c == '\u{000C}'
    ||| c == '\u{000D}'
    ||| c == '\u{0020}'
    ||| c == '\u{0085}'
    ||| c == '\u{00A0}'
    ||| c == '\u{1680}'
    ||| c == '\u{2000}'
    ||| c == '\u{2001}'
    ||| c == '\u{2002}'
    ||| c == '\u{2003}'
    ||| c == '\u{2004}'
    ||| c == '\u{2005}'
    ||| c == '\u{2006}'
    ||| c == '\u{2007}'
    ||| c == '\u{2008}'
    ||| c == '\u{2009}'
    ||| c == '\u{200A}'
    ||| c == '\u{2028}'
    ||| c == '\u{2029}'
    ||| c == '\u{202F}'
    ||| c == '\u{205F}'
    ||| c == '\u{3000}'
}

pub fn ws_char(c: char) -> (r: bool)
    ensures
        r == is_ws_char(c),
{
    match c {
        '\u{0009}' | '\u{000A}' | '\u{000B}' | '\u{000C}' | '\u{000D}' | '\u{0020}'
        | '\u{0085}' | '\u{00A0}' | '\u{1680}' | '\u{2000}' | '\u{2001}' | '\u{2002}'
        | '\u{2003}' | '\u{2004}' | '\u{2005}' | '\u{2006}' | '\u{2007}' | '\u{2008}'
        | '\u{2009}' | '\u{200A}' | '\u{2028}' | '\u{2029}' | '\u{202F}' | '\u{205F}'
        | '\u{3000}' => true,
        _ => false,
    }
}

/// A string is blank when every character is whitespace; trimming such
/// a string leaves nothing, so the renderer suppresses it.
pub open spec fn all_ws(s: Seq<char>) -> bool {
    forall|i: int| 0 <= i < s.len() ==> is_ws_char(s[i])
}

pub fn vec_all_ws(v: &Vec<char>) -> (r: bool)
    ensures
        r == all_ws(v@),
{
    let n = v.len();
    let mut i: usize = 0;
    while i < n
        invariant
            n == v@.len(),
            0 <= i <= n,
            forall|j: int| 0 <= j < i ==> is_ws_char(v@[j]),
        decreases n - i,
    {
        if !ws_char(v[i]) {
            return false;
        }
        i += 1;
    }
    true
}

/// Every newline replaced by a single space; the length is kept.
pub open spec fn collapse_nl(s: Seq<char>) -> Seq<char> {
    Seq::new(s.len(), |i: int| if s[i] == '\n' { ' ' } else { s[i] })
}

/// Leading whitespace removed, as `str::trim_start` does.
pub open spec fn trim_start(s: Seq<char>) -> Seq<char>
    decreases s.len(),
{
    if s.len() > 0 && is_ws_char(s[0]) {
        trim_start(s.drop_first())
    } else {
        s
    }
}

/// Trailing whitespace removed, as `str::trim_end` does.
pub open spec fn trim_end(s: Seq<char>) -> Seq<char>
    decreases s.len(),
{
    if s.len() > 0 && is_ws_char(s.last()) {
        trim_end(s.drop_last())
    } else {
        s
    }
}

/// Leading and trailing whitespace removed, as `str::trim` does.
pub open spec fn trim(s: Seq<char>) -> Seq<char> {
    trim_end(trim_start(s))
}

/// The single-line form of a text node: newlines collapsed to spaces,
/// then the ends trimmed.
pub open spec fn collapsed_trimmed(s: Seq<char>) -> Seq<char> {
    trim(collapse_nl(s))
}

pub fn collapse_and_trim(v: &Vec<char>) -> (r: Vec<char>)
    ensures
        r@ == collapsed_trimmed(v@),
{
    let n = v.len();
    let mut c: Vec<char> = Vec::new();
    let mut k: usize = 0;
    while k < n
        invariant
            n == v@.len(),
            0 <= k <= n,
            c@.len() == k,
            forall|j: int| 0 <= j < k ==> c@[j] == collapse_nl(v@)[j],
        decreases n - k,
    {
        if v[k] == '\n' {
            c.push(' ');
        } else {
            c.push(v[k]);
        }
        k += 1;
    }
    assert(c@ =~= collapse_nl(v@));
    let ghost full: Seq<char> = c@;

    let mut i: usize = 0;
    assert(full.subrange(0, n as int) =~= full);
    while i < n && ws_char(c[i])
        invariant
            n == full.len(),
            c@ == full,
            0 <= i <= n,
            trim_start(full) == trim_start(full.subrange(i as int, n as int)),
        decreases n - i,
    {
        assert(full.subrange(i as int, n as int).drop_first() =~= full.subrange(
            i + 1,
            n as int,
        ));
        i += 1;
    }
    assert(trim_start(full) =~= full.subrange(i as int, n as int));

    let mut j: usize = n;
    while j > i && ws_char(c[j - 1])
        invariant
            n == full.len(),
            c@ == full,
            0 <= i <= j <= n,
            trim_start(full) == full.subrange(i as int, n as int),
            trim_end(full.subrange(i as int, n as int)) == trim_end(
                full.subrange(i as int, j as int),
            ),
        decreases j,
    {
        assert(full.subrange(i as int, j as int).drop_last() =~= full.subrange(
            i as int,
            j - 1,
        ));
        j -= 1;
    }
    assert(trim_end(full.subrange(i as int, j as int)) =~= full.subrange(i as int, j as int));

    let mut r: Vec<char> = Vec::new();
    let mut k2: usize = i;
    while k2 < j
        invariant
            n == full.len(),
            c@ == full,
            0 <= i <= k2 <= j <= n,
            r@ =~= full.subrange(i as int, k2 as int),
        decreases j - k2,
    {
        r.push(c[k2]);
        assert(r@ =~= full.subrange(i as int, k2 + 1));
        k2 += 1;
    }
    assert(r@ =~= trim(collapse_nl(v@)));
    r
}

/// `sub` occurs inside `sup` as a contiguous run of characters.
pub open spec fn contains_seq(sup: Seq<char>, sub: Seq<char>) -> bool {
    exists|k: int|
        0 <= k && k + sub.len() <= sup.len() && #[trigger] sup.subrange(k, k + sub.len())
            == sub
}

/// Relies on `str::chars`: it yields the characters of the string in order.
#[verifier::external_body]
pub fn chars_of(s: &str) -> (r: Vec<char>)
    ensures
        r@ == s@,
{
    s.chars().collect()
}

/// Relies on `String`'s `FromIterator` impl: collecting characters joins
/// them in order into a string with exactly those characters.
#[verifier::external_body]
pub fn string_of(v: &Vec<char>) -> (r: String)
    ensures
        r@ == v@,
{
    v.iter().collect()
}

} // verus!
