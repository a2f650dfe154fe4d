//! Small verified utilities on strings and character sequences: decimal
//! rendering of integers, path prefix stripping and joining, lexicographic
//! comparison, concatenation, and byte-level substring search.

use vstd::prelude::*;

verus! {

/// Relies on `String::push`: appends exactly the given character.
pub assume_specification[ String::push ](s: &mut String, c: char)
    ensures
        final(s)@ == old(s)@.push(c),
;

// ---------------------------------------------------------------------------
// Decimal rendering of integers
// ---------------------------------------------------------------------------

/// The character for a single decimal digit.
pub open spec fn spec_digit_char(d: int) -> char {
    if d == 0 {
        '0'
    } else if d == 1 {
        '1'
    } else if d == 2 {
        '2'
    } else if d == 3 {
        '3'
    } else if d == 4 {
        '4'
    } else if d == 5 {
        '5'
    } else if d == 6 {
        '6'
    } else if d == 7 {
        '7'
    } else if d == 8 {
        '8'
    } else {
        '9'
    }
}

/// The decimal digits of a natural number, most significant first.
pub open spec fn spec_nat_digits(n: nat) -> Seq<char>
    decreases n,
{
    if n < 10 {
        seq![spec_digit_char(n as int)]
    } else {
        spec_nat_digits(n / 10).push(spec_digit_char((n % 10) as int))
    }
}

/// The decimal rendering of an integer, with a leading `-` when negative.
pub open spec fn spec_int_string(i: int) -> Seq<char> {
    if i < 0 {
        seq!['-'] + spec_nat_digits((-i) as nat)
    } else {
        spec_nat_digits(i as nat)
    }
}

fn digit_char(d: u64) -> (c: char)
    requires
        d < 10,
    ensures
        c == spec_digit_char(d as int),
{
    if d == 0 {
        '0'
    } else if d == 1 {
        '1'
    } else if d == 2 {
        '2'
    } else if d == 3 {
        '3'
    } else if d == 4 {
        '4'
    } else if d == 5 {
        '5'
    } else if d == 6 {
        '6'
    } else if d == 7 {
        '7'
    } else if d == 8 {
        '8'
    } else {
        '9'
    }
}

/// Renders a natural number in decimal.
pub fn u64_to_string(n: u64) -> (r: String)
    ensures
        r@ == spec_nat_digits(n as nat),
{
    let mut digits: Vec<char> = Vec::new();
    let mut m: u64 = n;
    while m >= 10
        invariant
            spec_nat_digits(n as nat) == spec_nat_digits(m as nat) + digits@.reverse(),
        decreases m,
    {
        let c = digit_char(m % 10);
        digits.push(c);
        proof {
            assert(digits@.reverse() =~= seq![c] + digits@.drop_last().reverse());
            assert(spec_nat_digits(m as nat) == spec_nat_digits((m / 10) as nat).push(
                spec_digit_char((m % 10) as int),
            ));
            assert(spec_nat_digits((m / 10) as nat).push(spec_digit_char((m % 10) as int))
                + digits@.drop_last().reverse() =~= spec_nat_digits((m / 10) as nat) + digits@.reverse());
        }
        m = m / 10;
    }
    let c = digit_char(m);
    digits.push(c);
    proof {
        assert(spec_nat_digits(m as nat) =~= seq![c]);
        assert(spec_nat_digits(n as nat) =~= digits@.reverse());
    }
    let mut s = String::new();
    let mut i: usize = digits.len();
    while i > 0
        invariant
            i <= digits.len(),
            s@ =~= digits@.reverse().take((digits.len() - i) as int),
        decreases i,
    {
        i = i - 1;
        s.push(digits[i]);
        proof {
            let rev = digits@.reverse();
            let k = (digits@.len() - 1 - i) as int;
            assert(rev[k] == digits@[i as int]);
            assert(rev.take(k + 1) =~= rev.take(k).push(rev[k]));
        }
    }
    proof {
        assert(digits@.reverse().take(digits@.len() as int) =~= digits@.reverse());
    }
    s
}

/// Renders a signed integer in decimal.
pub fn i64_to_string(n: i64) -> (r: String)
    ensures
        r@ == spec_int_string(n as int),
{
    if n < 0 {
        let mut s = String::new();
        s.push('-');
        let wide: i128 = -(n as i128);
        let magnitude: u64 = wide as u64;
        proof {
            assert(magnitude == -(n as int));
        }
        let digits = u64_to_string(magnitude);
        s.append(digits.as_str());
        proof {
            assert(s@ =~= spec_int_string(n as int));
        }
        s
    } else {
        let r = u64_to_string(n as u64);
        r
    }
}

// ---------------------------------------------------------------------------
// Path prefix stripping and joining
// ---------------------------------------------------------------------------

/// The remainder of `path` after removing the leading directory `prefix`:
/// the whole of `path` equal to `prefix` leaves an empty remainder, a longer
/// `path` must continue with a `/` separator, and anything else is no match.
pub open spec fn spec_strip_prefix(path: Seq<char>, prefix: Seq<char>) -> Option<Seq<char>> {
    if path == prefix {
        Some(Seq::<char>::empty())
    } else if path.len() > prefix.len() && path.take(prefix.len() as int) == prefix && path[prefix.len() as int]
        == '/' {
        Some(path.skip(prefix.len() as int + 1))
    } else {
        None
    }
}

/// Strips a leading directory prefix from a path, as
/// [`spec_strip_prefix`] describes.
pub fn strip_path_prefix(path: &str, prefix: &str) -> (r: Option<String>)
    ensures
        match r {
            Some(rest) => spec_strip_prefix(path@, prefix@) == Some(rest@),
            None => spec_strip_prefix(path@, prefix@) is None,
        },
{
    let path_len = path.unicode_len();
    let prefix_len = prefix.unicode_len();
    if path_len < prefix_len {
        return None;
    }
    let mut i: usize = 0;
    while i < prefix_len
        invariant
            i <= prefix_len,
            prefix_len == prefix@.len(),
            path_len == path@.len(),
            prefix_len <= path_len,
            forall|k: int| 0 <= k < i ==> path@[k] == prefix@[k],
        decreases prefix_len - i,
    {
        if path.get_char(i) != prefix.get_char(i) {
            proof {
                assert(path@.take(prefix@.len() as int) != prefix@) by {
                    assert(path@.take(prefix@.len() as int)[i as int] != prefix@[i as int]);
                }
                assert(path@ != prefix@) by {
                    assert(path@ == prefix@ ==> path@[i as int] == prefix@[i as int]);
                }
            }
            return None;
        }
        i = i + 1;
    }
    proof {
        assert(path@.take(prefix@.len() as int) =~= prefix@);
    }
    if path_len == prefix_len {
        proof {
            assert(path@ =~= prefix@);
        }
        return Some(String::new());
    }
    if path.get_char(prefix_len) != '/' {
        proof {
            assert(path@ != prefix@) by {
                assert(path@.len() != prefix@.len());
            }
        }
        return None;
    }
    proof {
        assert(path@ != prefix@) by {
            assert(path@.len() != prefix@.len());
        }
    }
    let rest = path.substring_char(prefix_len + 1, path_len);
    proof {
        assert(rest@ =~= path@.skip(prefix@.len() as int + 1));
    }
    Some(rest.to_owned())
}

/// The path obtained by interpreting `rel` against the directory `base`:
/// an absolute `rel` stands alone, any other is placed under `base`.
pub open spec fn spec_join_path(base: Seq<char>, rel: Seq<char>) -> Seq<char> {
    if rel.len() > 0 && rel[0] == '/' {
        rel
    } else {
        base + seq!['/'] + rel
    }
}

/// Joins a relative path onto a base directory, as [`spec_join_path`]
/// describes.
pub fn join_path(base: &str, rel: &str) -> (r: String)
    ensures
        r@ == spec_join_path(base@, rel@),
{
    let rel_len = rel.unicode_len();
    if rel_len > 0 && rel.get_char(0) == '/' {
        return rel.to_owned();
    }
    let mut s = base.to_owned();
    s.push('/');
    s.append(rel);
    proof {
        assert(s@ =~= base@ + seq!['/'] + rel@);
    }
    s
}

// ---------------------------------------------------------------------------
// Lexicographic order on character sequences
// ---------------------------------------------------------------------------

/// Lexicographic "less than or equal" on character sequences, comparing
/// characters by their scalar values.
pub open spec fn lex_leq(a: Seq<char>, b: Seq<char>) -> bool
    decreases a.len(),
{
    if a.len() == 0 {
        true
    } else if b.len() == 0 {
        false
    } else if (a[0] as int) < (b[0] as int) {
        true
    } else if (b[0] as int) < (a[0] as int) {
        false
    } else {
        lex_leq(a.drop_first(), b.drop_first())
    }
}

/// Any two character sequences are ordered one way or the other.
pub proof fn lemma_lex_leq_total(a: Seq<char>, b: Seq<char>)
    ensures
        lex_leq(a, b) || lex_leq(b, a),
    decreases a.len(),
{
    if a.len() == 0 || b.len() == 0 {
    } else if (a[0] as int) < (b[0] as int) || (b[0] as int) < (a[0] as int) {
    } else {
        lemma_lex_leq_total(a.drop_first(), b.drop_first());
    }
}

/// Sequences ordered both ways are equal.
pub proof fn lemma_lex_leq_antisymmetric(a: Seq<char>, b: Seq<char>)
    requires
        lex_leq(a, b),
        lex_leq(b, a),
    ensures
        a == b,
    decreases a.len(),
{
    if a.len() == 0 {
        assert(b.len() == 0);
        assert(a =~= b);
    } else {
        assert((a[0] as int) == (b[0] as int));
        assert(a[0] == b[0]);
        lemma_lex_leq_antisymmetric(a.drop_first(), b.drop_first());
        assert(a =~= seq![a[0]] + a.drop_first());
        assert(b =~= seq![b[0]] + b.drop_first());
    }
}

/// The lexicographic order is transitive.
pub proof fn lemma_lex_leq_transitive(a: Seq<char>, b: Seq<char>, c: Seq<char>)
    requires
        lex_leq(a, b),
        lex_leq(b, c),
    ensures
        lex_leq(a, c),
    decreases a.len(),
{
    if a.len() == 0 || b.len() == 0 || c.len() == 0 {
    } else if (a[0] as int) < (b[0] as int) {
    } else if (b[0] as int) < (c[0] as int) {
    } else {
        lemma_lex_leq_transitive(a.drop_first(), b.drop_first(), c.drop_first());
    }
}

/// Compares two strings lexicographically by characters, as [`lex_leq`]
/// describes.
pub fn str_lex_leq(a: &str, b: &str) -> (r: bool)
    ensures
        r == lex_leq(a@, b@),
{
    let a_len = a.unicode_len();
    let b_len = b.unicode_len();
    let mut i: usize = 0;
    proof {
        assert(a@.skip(0) =~= a@);
        assert(b@.skip(0) =~= b@);
    }
    loop
        invariant
            i <= a_len,
            i <= b_len,
            a_len == a@.len(),
            b_len == b@.len(),
            lex_leq(a@, b@) == lex_leq(a@.skip(i as int), b@.skip(i as int)),
        decreases a_len - i,
    {
        if i == a_len {
            proof {
                assert(a@.skip(i as int).len() == 0);
            }
            return true;
        }
        if i == b_len {
            proof {
                assert(b@.skip(i as int).len() == 0);
                assert(a@.skip(i as int).len() > 0);
            }
            return false;
        }
        let ca = a.get_char(i);
        let cb = b.get_char(i);
        proof {
            assert(a@.skip(i as int)[0] == ca);
            assert(b@.skip(i as int)[0] == cb);
        }
        if (ca as u32) < (cb as u32) {
            return true;
        }
        if (cb as u32) < (ca as u32) {
            return false;
        }
        proof {
            assert(a@.skip(i as int).drop_first() =~= a@.skip(i as int + 1));
            assert(b@.skip(i as int).drop_first() =~= b@.skip(i as int + 1));
        }
        i = i + 1;
    }
}

// ---------------------------------------------------------------------------
// Concatenation and joining
// ---------------------------------------------------------------------------

/// The concatenation of a sequence of character sequences, in order.
pub open spec fn spec_concat_seqs(ls: Seq<Seq<char>>) -> Seq<char>
    decreases ls.len(),
{
    if ls.len() == 0 {
        Seq::<char>::empty()
    } else {
        spec_concat_seqs(ls.drop_last()) + ls.last()
    }
}

/// Concatenates a list of lines into one string, in order and with nothing
/// between them.
pub fn concat_lines(lines: &Vec<String>) -> (r: String)
    ensures
        r@ == spec_concat_seqs(lines.deep_view()),
{
    let mut s = String::new();
    let n = lines.len();
    let mut i: usize = 0;
    while i < n
        invariant
            i <= n,
            n == lines@.len(),
            s@ == spec_concat_seqs(lines.deep_view().take(i as int)),
        decreases n - i,
    {
        s.append(lines[i].as_str());
        proof {
            let dv = lines.deep_view();
            assert(dv.take(i as int + 1).drop_last() =~= dv.take(i as int));
            assert(dv.take(i as int + 1).last() == dv[i as int]);
        }
        i = i + 1;
    }
    proof {
        assert(lines.deep_view().take(lines.deep_view().len() as int) =~= lines.deep_view());
    }
    s
}

/// The elements of `parts` joined with a single space between neighbours.
pub open spec fn spec_join_spaces(parts: Seq<Seq<char>>) -> Seq<char>
    decreases parts.len(),
{
    if parts.len() == 0 {
        Seq::<char>::empty()
    } else if parts.len() == 1 {
        parts[0]
    } else {
        spec_join_spaces(parts.drop_last()) + seq![' '] + parts.last()
    }
}

/// Joins strings with single spaces, as [`spec_join_spaces`] describes.
pub fn join_with_spaces(parts: &Vec<String>) -> (r: String)
    ensures
        r@ == spec_join_spaces(parts.deep_view()),
{
    let mut s = String::new();
    let n = parts.len();
    let mut i: usize = 0;
    while i < n
        invariant
            i <= n,
            n == parts@.len(),
            s@ == spec_join_spaces(parts.deep_view().take(i as int)),
        decreases n - i,
    {
        if i > 0 {
            s.push(' ');
        }
        s.append(parts[i].as_str());
        proof {
            let dv = parts.deep_view();
            assert(dv.take(i as int + 1).drop_last() =~= dv.take(i as int));
            assert(dv.take(i as int + 1).last() == dv[i as int]);
            if i == 0 {
                assert(s@ =~= spec_join_spaces(dv.take(1)));
            }
        }
        i = i + 1;
    }
    proof {
        assert(parts.deep_view().take(parts.deep_view().len() as int) =~= parts.deep_view());
    }
    s
}

// ---------------------------------------------------------------------------
// Byte-level substring search
// ---------------------------------------------------------------------------

/// Whether `needle` occurs in `haystack` starting at position `i`.
pub open spec fn spec_occurs_at(haystack: Seq<u8>, needle: Seq<u8>, i: int) -> bool {
    0 <= i && i + needle.len() <= haystack.len() && haystack.subrange(i, i + needle.len() as int)
        == needle
}

/// Whether `needle` occurs anywhere in `haystack`.
pub open spec fn spec_contains_bytes(haystack: Seq<u8>, needle: Seq<u8>) -> bool {
    exists|i: int| spec_occurs_at(haystack, needle, i)
}

/// Checks whether `needle` occurs in `haystack` at position `i`.
fn occurs_at(haystack: &[u8], needle: &[u8], i: usize) -> (r: bool)
    requires
        i + needle@.len() <= haystack@.len(),
    ensures
        r == spec_occurs_at(haystack@, needle@, i as int),
{
    let h_len = haystack.len();
    let n_len = needle.len();
    let mut j: usize = 0;
    while j < n_len
        invariant
            i + n_len <= h_len,
            h_len == haystack@.len(),
            n_len == needle@.len(),
            j <= n_len,
            forall|k: int| 0 <= k < j ==> haystack@[i + k] == needle@[k],
        decreases n_len - j,
    {
        if haystack[i + j] != needle[j] {
            proof {
                assert(haystack@.subrange(i as int, i + needle@.len() as int)[j as int]
                    != needle@[j as int]);
            }
            return false;
        }
        j = j + 1;
    }
    proof {
        assert(haystack@.subrange(i as int, i + needle@.len() as int) =~= needle@);
    }
    true
}

/// Searches for a byte subsequence, as [`spec_contains_bytes`] describes.
pub fn contains_bytes(haystack: &[u8], needle: &[u8]) -> (r: bool)
    ensures
        r == spec_contains_bytes(haystack@, needle@),
{
    let h_len = haystack.len();
    let n_len = needle.len();
    if n_len > h_len {
        proof {
            assert(forall|i: int| !spec_occurs_at(haystack@, needle@, i));
        }
        return false;
    }
    if n_len == 0 {
        proof {
            assert(haystack@.subrange(0, 0) =~= needle@);
            assert(spec_occurs_at(haystack@, needle@, 0));
        }
        return true;
    }
    let mut i: usize = 0;
    while i <= h_len - n_len
        invariant
            0 < n_len <= h_len,
            h_len == haystack@.len(),
            n_len == needle@.len(),
            i <= h_len - n_len + 1,
            forall|k: int| 0 <= k < i ==> !spec_occurs_at(haystack@, needle@, k),
        decreases h_len - n_len + 1 - i,
    {
        if occurs_at(haystack, needle, i) {
            return true;
        }
        i = i + 1;
    }
    proof {
        assert(forall|k: int| !spec_occurs_at(haystack@, needle@, k));
    }
    false
}

} // verus!
