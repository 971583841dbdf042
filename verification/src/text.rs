//! Verified text utilities for the command-output parsing the device layer
//! does: trimming, whitespace tokenising, substring search and line
//! splitting, each specified over sequences of characters.

use vstd::prelude::*;

verus! {

/// True when the character counts as blank space for trimming and
/// tokenising: the Unicode white-space characters, the set Rust's own
/// character classification accepts.
pub open spec fn is_space(c: char) -> bool {
    let u = c as u32;
    (0x09 <= u && u <= 0x0d) || u == 0x20 || u == 0x85 || u == 0xa0 || u == 0x1680 || (0x2000 <= u
        && u <= 0x200a) || u == 0x2028 || u == 0x2029 || u == 0x202f || u == 0x205f || u == 0x3000
}

/// Executable test matching [`is_space`].
pub fn char_is_space(c: char) -> (r: bool)
    ensures
        r == is_space(c),
{
    let u = c as u32;
    (0x09 <= u && u <= 0x0d) || u == 0x20 || u == 0x85 || u == 0xa0 || u == 0x1680 || (0x2000 <= u
        && u <= 0x200a) || u == 0x2028 || u == 0x2029 || u == 0x202f || u == 0x205f || u == 0x3000
}

/// The sequence with its leading blank space removed.
pub open spec fn trim_start_spec(s: Seq<char>) -> Seq<char>
    decreases s.len(),
{
    if s.len() > 0 && is_space(s[0]) {
        trim_start_spec(s.drop_first())
    } else {
        s
    }
}

/// The sequence with its trailing blank space removed.
pub open spec fn trim_end_spec(s: Seq<char>) -> Seq<char>
    decreases s.len(),
{
    if s.len() > 0 && is_space(s.last()) {
        trim_end_spec(s.drop_last())
    } else {
        s
    }
}

/// The sequence with blank space removed at both ends.
pub open spec fn trimmed(s: Seq<char>) -> Seq<char> {
    trim_end_spec(trim_start_spec(s))
}

/// Returns the string with blank space removed at both ends.
pub fn trim_str(s: &str) -> (r: String)
    ensures
        r@ == trimmed(s@),
{
    let n = s.unicode_len();
    let mut start: usize = 0;
    proof {
        assert(s@.subrange(0, n as int) =~= s@);
    }
    while start < n && char_is_space(s.get_char(start))
        invariant
            0 <= start <= n,
            n == s@.len(),
            trim_start_spec(s@) == trim_start_spec(s@.subrange(start as int, n as int)),
        decreases n - start,
    {
        proof {
            let sub = s@.subrange(start as int, n as int);
            assert(sub.drop_first() =~= s@.subrange(start as int + 1, n as int));
        }
        start = start + 1;
    }
    proof {
        assert(trim_start_spec(s@) == s@.subrange(start as int, n as int));
    }
    let mut end: usize = n;
    while end > start && char_is_space(s.get_char(end - 1))
        invariant
            start <= end <= n,
            n == s@.len(),
            trim_start_spec(s@) == s@.subrange(start as int, n as int),
            trim_end_spec(s@.subrange(start as int, n as int)) == trim_end_spec(
                s@.subrange(start as int, end as int),
            ),
        decreases end,
    {
        proof {
            let sub = s@.subrange(start as int, end as int);
            assert(sub.last() == s@[end - 1]);
            assert(sub.drop_last() =~= s@.subrange(start as int, end as int - 1));
        }
        end = end - 1;
    }
    proof {
        assert(trim_end_spec(s@.subrange(start as int, n as int)) == s@.subrange(
            start as int,
            end as int,
        ));
    }
    let piece = s.substring_char(start, end);
    String::from_str(piece)
}

/// The longest run of non-blank characters at the head of the sequence.
pub open spec fn token_spec(s: Seq<char>) -> Seq<char>
    decreases s.len(),
{
    if s.len() == 0 || is_space(s[0]) {
        Seq::empty()
    } else {
        seq![s[0]] + token_spec(s.drop_first())
    }
}

/// The first whitespace-delimited token of the sequence; empty when the
/// sequence holds nothing but blank space.
pub open spec fn first_token(s: Seq<char>) -> Seq<char> {
    token_spec(trim_start_spec(s))
}

/// Returns the first whitespace-delimited token of the string, or `None`
/// when the string holds no token at all.
pub fn first_token_str(s: &str) -> (r: Option<String>)
    ensures
        match r {
            Some(t) => t@ == first_token(s@) && first_token(s@).len() > 0,
            None => first_token(s@).len() == 0,
        },
{
    let n = s.unicode_len();
    let mut start: usize = 0;
    proof {
        assert(s@.subrange(0, n as int) =~= s@);
    }
    while start < n && char_is_space(s.get_char(start))
        invariant
            0 <= start <= n,
            n == s@.len(),
            trim_start_spec(s@) == trim_start_spec(s@.subrange(start as int, n as int)),
        decreases n - start,
    {
        proof {
            let sub = s@.subrange(start as int, n as int);
            assert(sub.drop_first() =~= s@.subrange(start as int + 1, n as int));
        }
        start = start + 1;
    }
    proof {
        assert(trim_start_spec(s@) == s@.subrange(start as int, n as int));
    }
    if start == n {
        proof {
            assert(s@.subrange(start as int, n as int) =~= Seq::<char>::empty());
        }
        return None;
    }
    let mut end: usize = start;
    proof {
        assert(s@.subrange(start as int, start as int) =~= Seq::<char>::empty());
        assert(Seq::<char>::empty() + token_spec(s@.subrange(start as int, n as int))
            =~= token_spec(s@.subrange(start as int, n as int)));
    }
    while end < n && !char_is_space(s.get_char(end))
        invariant
            start <= end <= n,
            n == s@.len(),
            token_spec(s@.subrange(start as int, n as int)) == s@.subrange(
                start as int,
                end as int,
            ) + token_spec(s@.subrange(end as int, n as int)),
        decreases n - end,
    {
        proof {
            let tail = s@.subrange(end as int, n as int);
            assert(tail[0] == s@[end as int]);
            assert(tail.drop_first() =~= s@.subrange(end as int + 1, n as int));
            assert(token_spec(tail) == seq![s@[end as int]] + token_spec(
                s@.subrange(end as int + 1, n as int),
            ));
            assert(s@.subrange(start as int, end as int) + (seq![s@[end as int]] + token_spec(
                s@.subrange(end as int + 1, n as int),
            )) =~= s@.subrange(start as int, end as int + 1) + token_spec(
                s@.subrange(end as int + 1, n as int),
            ));
        }
        end = end + 1;
    }
    proof {
        if end == n {
            assert(s@.subrange(end as int, n as int) =~= Seq::<char>::empty());
            assert(token_spec(Seq::<char>::empty()) =~= Seq::<char>::empty());
        } else {
            assert(s@.subrange(end as int, n as int)[0] == s@[end as int]);
        }
        assert(s@.subrange(start as int, end as int) + Seq::<char>::empty() =~= s@.subrange(
            start as int,
            end as int,
        ));
        assert(first_token(s@) == s@.subrange(start as int, end as int));
        assert(s@.subrange(start as int, n as int)[0] == s@[start as int]);
        assert(first_token(s@).len() > 0);
    }
    let piece = s.substring_char(start, end);
    Some(String::from_str(piece))
}

/// True when `needle` occurs at offset `i` of `hay`.
pub open spec fn contains_at(hay: Seq<char>, needle: Seq<char>, i: int) -> bool {
    0 <= i && i + needle.len() <= hay.len() && hay.subrange(i, i + needle.len() as int) == needle
}

/// True when `needle` occurs somewhere inside `hay`.
pub open spec fn has_substring(hay: Seq<char>, needle: Seq<char>) -> bool {
    exists|i: int| contains_at(hay, needle, i)
}

/// Compares `needle` against `hay` at offset `i`.
fn match_at(hay: &str, needle: &str, i: usize, n: usize, m: usize) -> (r: bool)
    requires
        n == hay@.len(),
        m == needle@.len(),
        i + m <= n,
    ensures
        r == contains_at(hay@, needle@, i as int),
{
    let mut j: usize = 0;
    while j < m
        invariant
            0 <= j <= m,
            n == hay@.len(),
            m == needle@.len(),
            i + m <= n,
            forall|l: int| 0 <= l < j ==> hay@[i + l] == needle@[l],
        decreases m - j,
    {
        if hay.get_char(i + j) != needle.get_char(j) {
            proof {
                if contains_at(hay@, needle@, i as int) {
                    assert(hay@.subrange(i as int, i as int + m as int)[j as int] == needle@[
                        j as int
                    ]);
                }
            }
            return false;
        }
        j = j + 1;
    }
    proof {
        assert(hay@.subrange(i as int, i as int + m as int) =~= needle@);
    }
    true
}

/// True when `needle` occurs somewhere inside `hay`, per [`has_substring`].
pub fn contains_str(hay: &str, needle: &str) -> (r: bool)
    ensures
        r == has_substring(hay@, needle@),
{
    let n = hay.unicode_len();
    let m = needle.unicode_len();
    if m == 0 {
        proof {
            assert(hay@.subrange(0, 0) =~= needle@);
            assert(contains_at(hay@, needle@, 0));
        }
        return true;
    }
    if m > n {
        proof {
            if has_substring(hay@, needle@) {
                let i = choose|i: int| contains_at(hay@, needle@, i);
                assert(false);
            }
        }
        return false;
    }
    let mut i: usize = 0;
    while i <= n - m
        invariant
            0 <= i <= n - m + 1,
            1 <= m <= n,
            n == hay@.len(),
            m == needle@.len(),
            forall|k: int| 0 <= k < i ==> !contains_at(hay@, needle@, k),
        decreases n - i,
    {
        if match_at(hay, needle, i, n, m) {
            return true;
        }
        i = i + 1;
    }
    proof {
        if has_substring(hay@, needle@) {
            let k = choose|k: int| contains_at(hay@, needle@, k);
            assert(k + m <= n);
            assert(k < i);
            assert(false);
        }
    }
    false
}

/// The lines of the sequence: the segments between line feeds, in order,
/// the line feeds themselves removed.  A sequence with no line feed is one
/// line, so the result always holds at least one segment.
pub open spec fn lines_of(s: Seq<char>) -> Seq<Seq<char>>
    decreases s.len(),
{
    if s.len() == 0 {
        seq![Seq::<char>::empty()]
    } else if s[0] == '\n' {
        seq![Seq::<char>::empty()] + lines_of(s.drop_first())
    } else {
        let rest = lines_of(s.drop_first());
        seq![seq![s[0]] + rest[0]] + rest.drop_first()
    }
}

/// Every sequence splits into at least one line.
pub proof fn lemma_lines_of_len(s: Seq<char>)
    ensures
        lines_of(s).len() >= 1,
    decreases s.len(),
{
    if s.len() == 0 {
    } else {
        lemma_lines_of_len(s.drop_first());
    }
}

/// Splitting off the first line: when the first `k` characters hold no
/// line feed, they are the head line (followed by the lines after the
/// line feed at `k`, when there is one).
pub proof fn lemma_lines_split(s: Seq<char>, k: int)
    requires
        0 <= k <= s.len(),
        forall|i: int| 0 <= i < k ==> s[i] != '\n',
    ensures
        k == s.len() ==> lines_of(s) =~~= seq![s],
        k < s.len() && s[k] == '\n' ==> lines_of(s) =~~= seq![s.subrange(0, k)] + lines_of(
            s.subrange(k + 1, s.len() as int),
        ),
    decreases k,
{
    lemma_lines_of_len(s);
    if k == 0 {
        if k == s.len() {
            assert(lines_of(s) =~~= seq![s]);
        } else if s[0] == '\n' {
            assert(s.subrange(0, 0) =~= Seq::<char>::empty());
            assert(s.subrange(1, s.len() as int) =~= s.drop_first());
            assert(lines_of(s) =~~= seq![s.subrange(0, 0)] + lines_of(
                s.subrange(1, s.len() as int),
            ));
        }
    } else {
        let t = s.drop_first();
        assert(forall|i: int| 0 <= i < k - 1 ==> t[i] != '\n');
        lemma_lines_split(t, k - 1);
        lemma_lines_of_len(t);
        let rest = lines_of(t);
        if k == s.len() {
            assert(rest =~~= seq![t]);
            assert(seq![s[0]] + rest[0] =~= s);
            assert(rest.drop_first() =~~= Seq::<Seq<char>>::empty());
            assert(lines_of(s) =~~= seq![s]);
        } else if s[k] == '\n' {
            assert(t[k - 1] == '\n');
            assert(rest =~~= seq![t.subrange(0, k - 1)] + lines_of(
                t.subrange(k, t.len() as int),
            ));
            assert(rest[0] =~= t.subrange(0, k - 1));
            assert(seq![s[0]] + t.subrange(0, k - 1) =~= s.subrange(0, k));
            assert(rest.drop_first() =~~= lines_of(t.subrange(k, t.len() as int)));
            assert(t.subrange(k, t.len() as int) =~= s.subrange(k + 1, s.len() as int));
            assert(lines_of(s) =~~= seq![s.subrange(0, k)] + lines_of(
                s.subrange(k + 1, s.len() as int),
            ));
        }
    }
}

/// Splits the string into its lines, per [`lines_of`].
pub fn lines_str(s: &str) -> (r: Vec<String>)
    ensures
        r@.len() == lines_of(s@).len(),
        forall|i: int| 0 <= i < r@.len() ==> r@[i]@ == lines_of(s@)[i],
{
    let n = s.unicode_len();
    let mut result: Vec<String> = Vec::new();
    let mut start: usize = 0;
    let mut i: usize = 0;
    proof {
        lemma_lines_of_len(s@);
        assert(s@.subrange(0, n as int) =~= s@);
    }
    while i < n
        invariant
            0 <= start <= i <= n,
            n == s@.len(),
            forall|j: int| start <= j < i ==> s@[j] != '\n',
            result@.len() + lines_of(s@.subrange(start as int, n as int)).len() == lines_of(
                s@,
            ).len(),
            forall|j: int| 0 <= j < result@.len() ==> result@[j]@ == lines_of(s@)[j],
            forall|j: int|
                0 <= j < lines_of(s@.subrange(start as int, n as int)).len() ==> lines_of(
                    s@.subrange(start as int, n as int),
                )[j] == lines_of(s@)[result@.len() + j],
        decreases n - i,
    {
        let c = s.get_char(i);
        if c == '\n' {
            let piece = String::from_str(s.substring_char(start, i));
            proof {
                let sub = s@.subrange(start as int, n as int);
                assert(forall|j: int| 0 <= j < i - start ==> sub[j] != '\n');
                assert(sub[i - start] == '\n');
                lemma_lines_split(sub, i - start);
                assert(sub.subrange(0, i - start) =~= s@.subrange(start as int, i as int));
                assert(sub.subrange(i - start + 1, sub.len() as int) =~= s@.subrange(
                    i as int + 1,
                    n as int,
                ));
                lemma_lines_of_len(s@.subrange(i as int + 1, n as int));
                let tail = lines_of(s@.subrange(i as int + 1, n as int));
                assert(lines_of(sub).len() == 1 + tail.len());
                assert(lines_of(sub)[0] == s@.subrange(start as int, i as int));
                assert(forall|j: int| 0 <= j < tail.len() ==> tail[j] == lines_of(sub)[j + 1]);
            }
            result.push(piece);
            start = i + 1;
        }
        i = i + 1;
    }
    let piece = String::from_str(s.substring_char(start, n));
    proof {
        let sub = s@.subrange(start as int, n as int);
        lemma_lines_split(sub, n - start);
        assert(lines_of(sub) =~~= seq![sub]);
        assert(lines_of(sub).len() == 1);
        assert(lines_of(sub)[0] == sub);
        assert(lines_of(s@)[result@.len() as int] == sub);
    }
    result.push(piece);
    proof {
        assert(forall|i: int| 0 <= i < result@.len() ==> result@[i]@ == lines_of(s@)[i]);
    }
    result
}

} // verus!
