//! String primitives of the token grammar, over the character view of `str`.

use vstd::prelude::*;
use vstd::std_specs::iter::IteratorSpec;
use vstd::string::StrSliceExecFns;
use crate::model::text_or_empty;

verus! {

/// `i` is the first position of `s` that holds `x`.
pub open spec fn is_first<T>(s: Seq<T>, x: T, i: int) -> bool {
    &&& 0 <= i < s.len()
    &&& s[i] == x
    &&& forall|j: int| 0 <= j < i ==> s[j] != x
}

/// The first position of `s` that holds `x`, if any does.
pub open spec fn first_index<T>(s: Seq<T>, x: T) -> Option<int> {
    if exists|i: int| is_first(s, x, i) {
        Some(choose|i: int| is_first(s, x, i))
    } else {
        None
    }
}

/// A first occurrence is the only one: whoever exhibits it knows `first_index`.
pub proof fn lemma_first_index_found<T>(s: Seq<T>, x: T, i: int)
    requires
        is_first(s, x, i),
    ensures
        first_index(s, x) == Some(i),
{
    let k = choose|k: int| is_first(s, x, k);
    assert(is_first(s, x, k));
    if k < i {
        assert(s[k] != x);
    } else if i < k {
        assert(s[i] != x);
    }
}

/// Without any occurrence there is no first one.
pub proof fn lemma_first_index_absent<T>(s: Seq<T>, x: T)
    requires
        forall|j: int| 0 <= j < s.len() ==> s[j] != x,
    ensures
        first_index(s, x) is None,
{
}

/// What `first_index` returns, unfolded: a position is returned exactly when it
/// is the first occurrence, and nothing is returned exactly when `x` is absent.
pub proof fn lemma_first_index<T>(s: Seq<T>, x: T)
    ensures
        match first_index(s, x) {
            Some(i) => is_first(s, x, i),
            None => forall|j: int| 0 <= j < s.len() ==> s[j] != x,
        },
{
    if first_index(s, x) is None {
        assert forall|j: int| 0 <= j < s.len() implies s[j] != x by {
            if s[j] == x {
                lemma_some_occurrence_has_first(s, x, j);
            }
        }
    }
}

proof fn lemma_some_occurrence_has_first<T>(s: Seq<T>, x: T, j: int)
    requires
        0 <= j < s.len(),
        s[j] == x,
    ensures
        exists|i: int| is_first(s, x, i),
    decreases j,
{
    if exists|k: int| 0 <= k < j && s[k] == x {
        let k = choose|k: int| 0 <= k < j && s[k] == x;
        lemma_some_occurrence_has_first(s, x, k);
    } else {
        assert(is_first(s, x, j));
    }
}

/// An index, or its absence, as a mathematical integer.
pub open spec fn index_spec(found: Option<usize>) -> Option<int> {
    match found {
        Some(i) => Some(i as int),
        None => None,
    }
}

/// A token of the long form starts with two dashes.
pub open spec fn is_long_form(token: Seq<char>) -> bool {
    token.len() >= 2 && token[0] == '-' && token[1] == '-'
}

/// A token that starts with a dash.
pub open spec fn starts_with_dash(token: Seq<char>) -> bool {
    token.len() >= 1 && token[0] == '-'
}

/// A token of the short form starts with exactly one dash.
pub open spec fn is_short_form(token: Seq<char>) -> bool {
    starts_with_dash(token) && !is_long_form(token)
}

/// A bare token starts with no dash at all.
pub open spec fn is_bare(token: Seq<char>) -> bool {
    !starts_with_dash(token)
}

/// A `name=value` text cut at its first `=`: the name before it, which holds no
/// `=`, and the value after it, which may hold more of them.
pub open spec fn split_at_equals(text: Seq<char>) -> Option<(Seq<char>, Seq<char>)> {
    match first_index(text, '=') {
        Some(p) => Some((text.take(p), text.skip(p + 1))),
        None => None,
    }
}

/// The tokens of a command line, each as its characters.
pub open spec fn token_seq(args: Seq<&str>) -> Seq<Seq<char>> {
    Seq::new(args.len(), |i: int| args[i]@)
}

/// Whether two strings hold the same characters.
pub fn str_eq(a: &str, b: &str) -> (same: bool)
    ensures
        same == (a@ == b@),
{
    broadcast use vstd::string::group_string_axioms;

    let mut left = a.chars();
    let mut right = b.chars();
    let ghost mut k: int = 0;
    loop
        invariant
            left.obeys_prophetic_iter_laws(),
            right.obeys_prophetic_iter_laws(),
            0 <= k <= a@.len(),
            k <= b@.len(),
            left.remaining() == a@.skip(k),
            right.remaining() == b@.skip(k),
            a@.take(k) == b@.take(k),
        decreases a@.len() - k,
    {
        let x = left.next();
        let y = right.next();
        match (x, y) {
            (Some(p), Some(q)) => {
                if p != q {
                    return false;
                }
                proof {
                    assert(a@.take(k + 1) =~= a@.take(k).push(a@[k]));
                    assert(b@.take(k + 1) =~= b@.take(k).push(b@[k]));
                    k = k + 1;
                }
            },
            (None, None) => {
                proof {
                    assert(a@.take(k) =~= a@);
                    assert(b@.take(k) =~= b@);
                }
                return true;
            },
            _ => {
                return false;
            },
        }
    }
}

/// The position of the first `c` in `s`.
pub fn find_char(s: &str, c: char) -> (found: Option<usize>)
    ensures
        index_spec(found) == first_index(s@, c),
{
    broadcast use vstd::string::group_string_axioms;

    let n: usize = s.unicode_len();
    let mut rest = s.chars();
    let mut i: usize = 0;
    while i < n
        invariant
            n == s@.len(),
            rest.obeys_prophetic_iter_laws(),
            i <= n,
            rest.remaining() == s@.skip(i as int),
            forall|j: int| 0 <= j < i ==> s@[j] != c,
        decreases n - i,
    {
        let x = rest.next();
        if x == Some(c) {
            proof {
                lemma_first_index_found(s@, c, i as int);
            }
            return Some(i);
        }
        i = i + 1;
    }
    proof {
        lemma_first_index_absent(s@, c);
    }
    None
}

/// Whether `token` starts with two dashes.
pub fn is_long_name(token: &str) -> (long: bool)
    ensures
        long == is_long_form(token@),
{
    broadcast use vstd::string::group_string_axioms;

    let mut rest = token.chars();
    let first = rest.next();
    let second = rest.next();
    first == Some('-') && second == Some('-')
}

/// Whether `token` starts with a dash. A token of the long form does too: test
/// for that form first.
pub fn is_short_name(token: &str) -> (dashed: bool)
    ensures
        dashed == starts_with_dash(token@),
{
    broadcast use vstd::string::group_string_axioms;

    let mut rest = token.chars();
    let first = rest.next();
    first == Some('-')
}

/// `token` without its first `n` characters.
pub fn strip_prefix<'t>(token: &'t str, n: usize) -> (body: &'t str)
    requires
        n <= token@.len(),
    ensures
        body@ == token@.skip(n as int),
{
    let len: usize = token.unicode_len();
    token.substring_char(n, len)
}

/// Cuts `name=value` at the first `=`. Returns nothing when `arg` holds no `=`.
pub fn split_parameter<'t>(arg: &'t str) -> (parts: Option<(&'t str, &'t str)>)
    ensures
        match split_at_equals(arg@) {
            Some((name, value)) => parts matches Some((n, v)) && n@ == name && v@ == value,
            None => parts is None,
        },
{
    match find_char(arg, '=') {
        Some(equals_pos) => {
            let len: usize = arg.unicode_len();
            let name = arg.substring_char(0, equals_pos);
            let value = arg.substring_char(equals_pos + 1, len);
            Some((name, value))
        },
        None => None,
    }
}

/// The value that a parameter stores for the text given on the command line:
/// the text itself, character for character.
pub fn format_parameter_value(value: &str) -> (stored: String)
    ensures
        stored@ == value@,
{
    value.to_owned()
}

/// The characters of a text that may not have been given.
pub open spec fn text_spec(given: Option<&str>) -> Option<Seq<char>> {
    match given {
        Some(text) => Some(text@),
        None => None,
    }
}

/// The text that was given, or the empty text.
pub fn given_or_empty<'a>(given: Option<&'a str>) -> (text: &'a str)
    ensures
        text@ == text_or_empty(text_spec(given)),
{
    match given {
        Some(text) => text,
        None => {
            proof {
                reveal_strlit("");
                assert(""@ =~= Seq::<char>::empty());
            }
            ""
        },
    }
}

} // verus!
