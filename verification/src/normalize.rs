//! Account-identifier normalization.
//!
//! The identity provider embeds a canonical form of the configured account
//! identifier into the token claims: the identifier is uppercased and
//! truncated at the first delimiter, where the delimiter is `-` for
//! identifiers that contain the marker `.global` and `.` otherwise.

use vstd::prelude::*;

verus! {

/// The sequence of characters that `char::to_uppercase` yields for one
/// character; left abstract because the full Unicode mapping is not restated
/// here.
pub uninterp spec fn upper_char_of(c: char) -> Seq<char>;

/// The uppercase mapping of a whole character sequence: each character mapped
/// by `upper_char_of`, the results concatenated in order.
pub open spec fn upper_of(s: Seq<char>) -> Seq<char>
    decreases s.len(),
{
    if s.len() == 0 {
        Seq::<char>::empty()
    } else {
        upper_char_of(s[0]) + upper_of(s.skip(1))
    }
}

/// The character is a fixed point of the uppercase mapping.
pub open spec fn upper_fixed_char(c: char) -> bool {
    upper_char_of(c) == seq![c]
}

/// Every character of the sequence is a fixed point of the uppercase mapping.
pub open spec fn upper_fixed(s: Seq<char>) -> bool {
    forall|i: int| 0 <= i < s.len() ==> upper_fixed_char(#[trigger] s[i])
}

/// Relies on `char::to_uppercase`: the unconditional Unicode uppercase
/// mapping of one character, yielding one or more characters. Unicode case
/// mapping is idempotent, so every yielded character maps to itself.
#[verifier::external_body]
fn upper_char(c: char) -> (r: String)
    ensures
        r@ == upper_char_of(c),
        r@.len() >= 1,
        upper_fixed(r@),
{
    c.to_uppercase().collect()
}

proof fn lemma_upper_of_snoc(s: Seq<char>, c: char)
    ensures
        upper_of(s.push(c)) == upper_of(s) + upper_char_of(c),
    decreases s.len(),
{
    reveal_with_fuel(upper_of, 3);
    if s.len() == 0 {
        assert(s.push(c)[0] == c);
        assert(s.push(c).skip(1) =~= Seq::<char>::empty());
        assert(upper_of(s.push(c)) =~= upper_of(s) + upper_char_of(c));
    } else {
        assert(s.push(c)[0] == s[0]);
        assert(s.push(c).skip(1) =~= s.skip(1).push(c));
        lemma_upper_of_snoc(s.skip(1), c);
        assert(upper_of(s.push(c)) =~= upper_of(s) + upper_char_of(c));
    }
}

/// A sequence whose characters are all fixed points of the uppercase mapping
/// is its own uppercase form.
pub proof fn lemma_upper_fixed_identity(s: Seq<char>)
    requires
        upper_fixed(s),
    ensures
        upper_of(s) == s,
    decreases s.len(),
{
    if s.len() == 0 {
        assert(upper_of(s) =~= s);
    } else {
        assert(upper_fixed(s.skip(1)));
        lemma_upper_fixed_identity(s.skip(1));
        assert(upper_char_of(s[0]) == seq![s[0]]);
        assert(upper_of(s) =~= s);
    }
}

/// Collects the characters of a string slice into a vector.
fn chars_of(s: &str) -> (r: Vec<char>)
    ensures
        r@ == s@,
{
    let n: usize = s.unicode_len();
    let mut out: Vec<char> = Vec::new();
    let mut i: usize = 0;
    while i < n
        invariant
            n == s@.len(),
            i <= n,
            out@ == s@.take(i as int),
        decreases n - i,
    {
        let c = s.get_char(i);
        out.push(c);
        proof {
            assert(s@.take(i as int).push(c) =~= s@.take(i + 1 as int));
        }
        i = i + 1;
    }
    proof {
        assert(s@.take(n as int) =~= s@);
    }
    out
}

/// Uppercases a string: the Unicode uppercase mapping of every character, in
/// order.
pub fn to_upper(s: &str) -> (r: String)
    ensures
        r@ == upper_of(s@),
        upper_fixed(r@),
        r@.len() >= s@.len(),
{
    let n: usize = s.unicode_len();
    let mut out = String::new();
    let mut i: usize = 0;
    while i < n
        invariant
            n == s@.len(),
            i <= n,
            out@ == upper_of(s@.take(i as int)),
            upper_fixed(out@),
            out@.len() >= i,
        decreases n - i,
    {
        let c = s.get_char(i);
        let u = upper_char(c);
        let ghost prev = out@;
        out.append(u.as_str());
        proof {
            lemma_upper_of_snoc(s@.take(i as int), c);
            assert(s@.take(i as int).push(c) =~= s@.take(i + 1 as int));
            assert forall|j: int| 0 <= j < out@.len() implies upper_fixed_char(
                #[trigger] out@[j],
            ) by {
                if j < prev.len() {
                    assert(out@[j] == prev[j]);
                } else {
                    assert(out@[j] == u@[j - prev.len()]);
                }
            }
        }
        i = i + 1;
    }
    proof {
        assert(s@.take(n as int) =~= s@);
    }
    out
}

/// Index of the first occurrence of `c` in `s`; the length of `s` when `c`
/// does not occur.
pub open spec fn first_index_of(s: Seq<char>, c: char) -> int
    decreases s.len(),
{
    if s.len() == 0 {
        0
    } else if s[0] == c {
        0
    } else {
        1 + first_index_of(s.skip(1), c)
    }
}

pub proof fn lemma_first_index_of(s: Seq<char>, c: char)
    ensures
        0 <= first_index_of(s, c) <= s.len(),
        first_index_of(s, c) < s.len() ==> s[first_index_of(s, c)] == c,
        forall|j: int| 0 <= j < first_index_of(s, c) ==> s[j] != c,
    decreases s.len(),
{
    if s.len() == 0 {
    } else if s[0] == c {
    } else {
        lemma_first_index_of(s.skip(1), c);
        assert forall|j: int| 0 <= j < first_index_of(s, c) implies s[j] != c by {
            if j > 0 {
                assert(s.skip(1)[j - 1] == s[j]);
            }
        }
    }
}

/// Finds the index of the first occurrence of `c`, or the length of the
/// vector when `c` does not occur.
fn find_char(cs: &Vec<char>, c: char) -> (r: usize)
    ensures
        r == first_index_of(cs@, c),
{
    proof {
        lemma_first_index_of(cs@, c);
    }
    let n: usize = cs.len();
    let mut i: usize = 0;
    while i < n
        invariant
            n == cs@.len(),
            i <= n,
            forall|j: int| 0 <= j < i ==> cs@[j] != c,
            first_index_of(cs@, c) >= i,
        decreases n - i,
    {
        if cs[i] == c {
            proof {
                lemma_first_index_of(cs@, c);
                assert(first_index_of(cs@, c) <= i);
            }
            return i;
        }
        proof {
            lemma_first_index_of(cs@, c);
            if first_index_of(cs@, c) == i {
                assert(cs@[i as int] == c);
            }
        }
        i = i + 1;
    }
    proof {
        lemma_first_index_of(cs@, c);
        if first_index_of(cs@, c) < n {
            assert(cs@[first_index_of(cs@, c)] == c);
        }
    }
    n
}

/// The marker whose presence switches the truncation delimiter from `.` to
/// `-`.
pub open spec fn global_marker() -> Seq<char> {
    seq!['.', 'g', 'l', 'o', 'b', 'a', 'l']
}

/// The marker occurs as a contiguous substring starting at `i`.
pub open spec fn global_marker_at(s: Seq<char>, i: int) -> bool {
    0 <= i && i + 7 <= s.len() && s.subrange(i, i + 7) == global_marker()
}

/// The marker occurs somewhere in the sequence.
pub open spec fn has_global_marker(s: Seq<char>) -> bool {
    exists|i: int| global_marker_at(s, i)
}

/// Scans for the `.global` marker.
fn find_global_marker(cs: &Vec<char>) -> (r: bool)
    ensures
        r == has_global_marker(cs@),
{
    let n: usize = cs.len();
    if n < 7 {
        proof {
            assert forall|i: int| !global_marker_at(cs@, i) by {}
        }
        return false;
    }
    let mut i: usize = 0;
    while i <= n - 7
        invariant
            n == cs@.len(),
            7 <= n,
            i <= n - 7 + 1,
            forall|j: int| 0 <= j < i ==> !global_marker_at(cs@, j),
        decreases n - i,
    {
        let hit = cs[i] == '.' && cs[i + 1] == 'g' && cs[i + 2] == 'l' && cs[i + 3] == 'o'
            && cs[i + 4] == 'b' && cs[i + 5] == 'a' && cs[i + 6] == 'l';
        if hit {
            proof {
                assert(cs@.subrange(i as int, i + 7 as int) =~= global_marker());
                assert(global_marker_at(cs@, i as int));
            }
            return true;
        }
        proof {
            let ghost sub = cs@.subrange(i as int, i + 7 as int);
            assert(sub[0] == cs@[i as int] && sub[1] == cs@[i + 1 as int] && sub[2] == cs@[i
                + 2 as int] && sub[3] == cs@[i + 3 as int] && sub[4] == cs@[i + 4 as int] && sub[5]
                == cs@[i + 5 as int] && sub[6] == cs@[i + 6 as int]);
            assert(!global_marker_at(cs@, i as int));
        }
        i = i + 1;
    }
    proof {
        assert forall|j: int| !global_marker_at(cs@, j) by {}
    }
    false
}

/// The character count at which the uppercased identifier is truncated:
/// the first `-` when the raw identifier contains `.global`, the first `.`
/// otherwise; the full length when the delimiter is absent.
pub open spec fn split_index_of(s: Seq<char>) -> int {
    if has_global_marker(s) {
        first_index_of(s, '-')
    } else {
        first_index_of(s, '.')
    }
}

/// The normalized form of a raw account identifier: the uppercased input
/// truncated to `split_index_of` characters.
pub open spec fn normalize_spec(s: Seq<char>) -> Seq<char> {
    upper_of(s).take(split_index_of(s))
}

/// The sequence contains neither of the delimiter characters.
pub open spec fn delimiter_free(s: Seq<char>) -> bool {
    forall|i: int| 0 <= i < s.len() ==> s[i] != '.' && s[i] != '-'
}

/// A delimiter-free sequence cannot contain the `.global` marker.
pub proof fn lemma_delimiter_free_no_marker(s: Seq<char>)
    requires
        delimiter_free(s),
    ensures
        !has_global_marker(s),
{
    assert forall|i: int| !global_marker_at(s, i) by {
        if 0 <= i && i + 7 <= s.len() {
            assert(s.subrange(i, i + 7)[0] == s[i]);
            assert(s[i] != '.');
            assert(global_marker()[0] == '.');
        }
    }
}

/// A delimiter-free sequence has no first delimiter index short of its
/// length.
pub proof fn lemma_delimiter_free_first_index(s: Seq<char>, c: char)
    requires
        forall|i: int| 0 <= i < s.len() ==> s[i] != c,
    ensures
        first_index_of(s, c) == s.len(),
{
    lemma_first_index_of(s, c);
    if first_index_of(s, c) < s.len() {
        assert(s[first_index_of(s, c)] == c);
    }
}

/// Re-normalizing a delimiter-free normalized identifier gives it back
/// unchanged.
pub proof fn lemma_normalize_idempotent(s: Seq<char>)
    requires
        delimiter_free(s),
        upper_fixed(s),
    ensures
        normalize_spec(s) == s,
{
    lemma_delimiter_free_no_marker(s);
    lemma_delimiter_free_first_index(s, '.');
    lemma_upper_fixed_identity(s);
    assert(normalize_spec(s) =~= s);
}

/// Normalizes a raw account identifier: uppercase it and truncate it at the
/// first delimiter, where the delimiter is `-` when the raw identifier
/// contains `.global` and `.` otherwise, and the full length stands in when
/// the delimiter is absent.
///
/// Re-applying the function to its own output gives the output back
/// unchanged whenever that output contains no further delimiter.
pub fn normalize_account_identifier(raw_account: &str) -> (r: String)
    ensures
        r@ == normalize_spec(raw_account@),
        delimiter_free(r@) ==> normalize_spec(r@) == r@,
{
    let cs = chars_of(raw_account);
    let has_g = find_global_marker(&cs);
    let split: usize = if has_g {
        find_char(&cs, '-')
    } else {
        find_char(&cs, '.')
    };
    proof {
        if has_g {
            lemma_first_index_of(cs@, '-');
        } else {
            lemma_first_index_of(cs@, '.');
        }
    }
    let upper = to_upper(raw_account);
    let prefix = upper.as_str().substring_char(0, split);
    let r = String::from_str(prefix);
    proof {
        assert(r@ =~= normalize_spec(raw_account@));
        if delimiter_free(r@) {
            assert(upper_fixed(r@)) by {
                assert forall|i: int| 0 <= i < r@.len() implies upper_fixed_char(
                    #[trigger] r@[i],
                ) by {
                    assert(r@[i] == upper@[i]);
                }
            }
            lemma_normalize_idempotent(r@);
        }
    }
    r
}

} // verus!
