//! Notebook names: what counts as one, and how a raw argument becomes one.

use vstd::prelude::*;

verus! {

/// Why a raw argument is not a notebook name.
#[derive(Debug, Clone, Copy, PartialEq, Eq)]
pub enum NameError {
    /// Nothing is left once the surrounding white space is taken away.
    Empty,
    /// The name would reach outside the flat root directory.
    ContainsSeparator,
}

/// The characters with the Unicode property `White_Space`.
pub open spec fn is_whitespace(c: char) -> bool {
    let u = c as u32;
    ||| 0x09 <= u <= 0x0D
    ||| u == 0x20
    ||| u == 0x85
    ||| u == 0xA0
    ||| u == 0x1680
    ||| 0x2000 <= u <= 0x200A
    ||| u == 0x2028
    ||| u == 0x2029
    ||| u == 0x202F
    ||| u == 0x205F
    ||| u == 0x3000
}

/// The characters that part one path component from the next.
pub open spec fn is_separator(c: char) -> bool {
    c == '/' || c == '\\'
}

/// Whether `s` holds white space and nothing else.
pub open spec fn is_blank(s: Seq<char>) -> bool {
    forall|i: int| 0 <= i < s.len() ==> is_whitespace(#[trigger] s[i])
}

/// Whether some character of `s` is a path separator.
pub open spec fn has_separator(s: Seq<char>) -> bool {
    exists|i: int| 0 <= i < s.len() && is_separator(#[trigger] s[i])
}

/// `s` without its leading white space.
pub open spec fn trim_start(s: Seq<char>) -> Seq<char>
    decreases s.len(),
{
    if s.len() > 0 && is_whitespace(s[0]) {
        trim_start(s.drop_first())
    } else {
        s
    }
}

/// `s` without its trailing white space.
pub open spec fn trim_end(s: Seq<char>) -> Seq<char>
    decreases s.len(),
{
    if s.len() > 0 && is_whitespace(s.last()) {
        trim_end(s.drop_last())
    } else {
        s
    }
}

/// `s` without the white space at either end.
pub open spec fn trimmed(s: Seq<char>) -> Seq<char> {
    trim_end(trim_start(s))
}

/// A notebook name: something other than white space, and no path
/// separator.
pub open spec fn valid_name(s: Seq<char>) -> bool {
    !is_blank(s) && !has_separator(s)
}

/// Dropping leading white space from `s` gives the same as from `s[k..]`
/// when everything in between is white space.
proof fn lemma_trim_start_skip(s: Seq<char>, k: int)
    requires
        0 <= k <= s.len(),
        forall|i: int| 0 <= i < k ==> is_whitespace(#[trigger] s[i]),
    ensures
        trim_start(s) == trim_start(s.subrange(k, s.len() as int)),
    decreases k,
{
    if k == 0 {
        assert(s.subrange(0, s.len() as int) =~= s);
    } else {
        let t = s.drop_first();
        lemma_trim_start_skip(t, k - 1);
        assert(t.subrange(k - 1, t.len() as int) =~= s.subrange(k, s.len() as int));
    }
}

/// Dropping trailing white space from `s` gives the same as from `s[..k]`
/// when everything from `k` on is white space.
proof fn lemma_trim_end_take(s: Seq<char>, k: int)
    requires
        0 <= k <= s.len(),
        forall|i: int| k <= i < s.len() ==> is_whitespace(#[trigger] s[i]),
    ensures
        trim_end(s) == trim_end(s.subrange(0, k)),
    decreases s.len() - k,
{
    if k == s.len() {
        assert(s.subrange(0, k) =~= s);
    } else {
        let t = s.drop_last();
        lemma_trim_end_take(t, k);
        assert(t.subrange(0, k) =~= s.subrange(0, k));
    }
}

/// Where the leading white space of `s` ends.
proof fn lemma_trim_start_bound(s: Seq<char>) -> (k: int)
    ensures
        0 <= k <= s.len(),
        trim_start(s) == s.subrange(k, s.len() as int),
        forall|i: int| 0 <= i < k ==> is_whitespace(#[trigger] s[i]),
        k < s.len() ==> !is_whitespace(s[k]),
    decreases s.len(),
{
    if s.len() > 0 && is_whitespace(s[0]) {
        let t = s.drop_first();
        let k = lemma_trim_start_bound(t);
        assert(t.subrange(k, t.len() as int) =~= s.subrange(k + 1, s.len() as int));
        assert forall|i: int| 0 <= i < k + 1 implies is_whitespace(#[trigger] s[i]) by {
            if i > 0 {
                assert(s[i] == t[i - 1]);
            }
        }
        k + 1
    } else {
        assert(s.subrange(0, s.len() as int) =~= s);
        0
    }
}

/// Where the trailing white space of `s` begins.
proof fn lemma_trim_end_bound(s: Seq<char>) -> (k: int)
    ensures
        0 <= k <= s.len(),
        trim_end(s) == s.subrange(0, k),
        forall|i: int| k <= i < s.len() ==> is_whitespace(#[trigger] s[i]),
        k > 0 ==> !is_whitespace(s[k - 1]),
    decreases s.len(),
{
    if s.len() > 0 && is_whitespace(s.last()) {
        let t = s.drop_last();
        let k = lemma_trim_end_bound(t);
        assert(t.subrange(0, k) =~= s.subrange(0, k));
        assert forall|i: int| k <= i < s.len() implies is_whitespace(#[trigger] s[i]) by {
            if i < t.len() {
                assert(s[i] == t[i]);
            }
        }
        k
    } else {
        assert(s.subrange(0, s.len() as int) =~= s);
        s.len() as int
    }
}

/// Trimming keeps one stretch of `s`: everything outside it is white space,
/// and unless it is empty it begins and ends with something else.
pub proof fn lemma_trimmed_is_stretch(s: Seq<char>) -> (b: (int, int))
    ensures
        0 <= b.0 <= b.1 <= s.len(),
        trimmed(s) == s.subrange(b.0, b.1),
        forall|i: int| 0 <= i < b.0 ==> is_whitespace(#[trigger] s[i]),
        forall|i: int| b.1 <= i < s.len() ==> is_whitespace(#[trigger] s[i]),
        b.0 < b.1 ==> !is_whitespace(s[b.0]) && !is_whitespace(s[b.1 - 1]),
{
    let from = lemma_trim_start_bound(s);
    let rest = s.subrange(from, s.len() as int);
    let k = lemma_trim_end_bound(rest);
    assert(rest.subrange(0, k) =~= s.subrange(from, from + k));
    assert forall|i: int| from + k <= i < s.len() implies is_whitespace(#[trigger] s[i]) by {
        assert(s[i] == rest[i - from]);
    }
    if k > 0 {
        assert(rest[k - 1] == s[from + k - 1]);
    }
    (from, from + k)
}

/// Trimming leaves nothing exactly when there was only white space.
pub proof fn lemma_trimmed_empty_iff_blank(s: Seq<char>)
    ensures
        trimmed(s).len() == 0 <==> is_blank(s),
{
    let b = lemma_trimmed_is_stretch(s);
    if b.0 == b.1 {
        assert forall|i: int| 0 <= i < s.len() implies is_whitespace(#[trigger] s[i]) by {
            if i < b.0 {
            } else {
            }
        }
    }
}

/// A trimmed text is a name exactly when the text it came from is one, and
/// trimming it again changes nothing.
pub proof fn lemma_trimmed_name(s: Seq<char>)
    ensures
        valid_name(trimmed(s)) <==> valid_name(s),
        has_separator(trimmed(s)) <==> has_separator(s),
        trimmed(trimmed(s)) == trimmed(s),
{
    let t = trimmed(s);
    let b = lemma_trimmed_is_stretch(s);
    lemma_trimmed_empty_iff_blank(s);
    if has_separator(t) {
        let i = choose|i: int| 0 <= i < t.len() && is_separator(#[trigger] t[i]);
        assert(is_separator(s[b.0 + i]));
    }
    if has_separator(s) {
        let i = choose|i: int| 0 <= i < s.len() && is_separator(#[trigger] s[i]);
        assert(!is_whitespace(s[i]));
        assert(b.0 <= i < b.1);
        assert(is_separator(t[i - b.0]));
    }
    if b.0 < b.1 {
        assert(t[0] == s[b.0]);
        assert(t.last() == s[b.1 - 1]);
        assert(!is_blank(t));
    } else {
        assert(is_blank(t));
    }
    assert(trim_start(t) == t);
    assert(trim_end(t) == t);
}

/// Whether `c` is white space.
pub fn char_is_whitespace(c: char) -> (r: bool)
    ensures
        r == is_whitespace(c),
{
    let u: u32 = c as u32;
    (0x09 <= u && u <= 0x0D) || u == 0x20 || u == 0x85 || u == 0xA0 || u == 0x1680 || (0x2000 <= u
        && u <= 0x200A) || u == 0x2028 || u == 0x2029 || u == 0x202F || u == 0x205F || u == 0x3000
}

/// `s` without the white space at either end.
pub fn trim(s: &str) -> (r: String)
    ensures
        r@ == trimmed(s@),
{
    let n = s.unicode_len();
    let mut start: usize = 0;
    while start < n && char_is_whitespace(s.get_char(start))
        invariant
            start <= n == s@.len(),
            forall|i: int| 0 <= i < start ==> is_whitespace(#[trigger] s@[i]),
        decreases n - start,
    {
        start += 1;
    }
    let mut end: usize = n;
    while end > start && char_is_whitespace(s.get_char(end - 1))
        invariant
            start <= end <= n == s@.len(),
            forall|i: int| end <= i < n ==> is_whitespace(#[trigger] s@[i]),
        decreases end,
    {
        end -= 1;
    }
    proof {
        let rest = s@.subrange(start as int, n as int);
        let kept = s@.subrange(start as int, end as int);
        lemma_trim_start_skip(s@, start as int);
        assert(trim_start(rest) == rest);
        lemma_trim_end_take(rest, end - start);
        assert(rest.subrange(0, end - start) =~= kept);
        assert(trim_end(kept) == kept) by {
            if kept.len() > 0 {
                assert(kept.last() == s@[end - 1]);
            }
        }
    }
    s.substring_char(start, end).to_owned()
}

/// Whether `s` holds a path separator.
pub fn contains_separator(s: &str) -> (r: bool)
    ensures
        r == has_separator(s@),
{
    let n = s.unicode_len();
    let mut i: usize = 0;
    while i < n
        invariant
            i <= n == s@.len(),
            forall|j: int| 0 <= j < i ==> !is_separator(#[trigger] s@[j]),
        decreases n - i,
    {
        let c = s.get_char(i);
        if c == '/' || c == '\\' {
            return true;
        }
        i += 1;
    }
    false
}

/// Whether `s` can name a notebook.
pub fn is_valid_name(s: &str) -> (r: bool)
    ensures
        r == valid_name(s@),
{
    let n = s.unicode_len();
    let mut seen_other = false;
    let mut i: usize = 0;
    while i < n
        invariant
            i <= n == s@.len(),
            seen_other <==> exists|j: int| 0 <= j < i && !is_whitespace(#[trigger] s@[j]),
            forall|j: int| 0 <= j < i ==> !is_separator(#[trigger] s@[j]),
        decreases n - i,
    {
        let c = s.get_char(i);
        if c == '/' || c == '\\' {
            return false;
        }
        if !char_is_whitespace(c) {
            seen_other = true;
        }
        i += 1;
    }
    seen_other
}

/// Turns a raw argument into a notebook name: the argument without the white
/// space around it. An argument of white space alone is refused, and so is
/// one that holds a path separator.
pub fn parse_name(raw: &str) -> (r: Result<String, NameError>)
    ensures
        match r {
            Ok(name) => name@ == trimmed(raw@) && valid_name(name@) && valid_name(raw@),
            Err(NameError::Empty) => is_blank(raw@),
            Err(NameError::ContainsSeparator) => !is_blank(raw@) && has_separator(raw@),
        },
{
    let name = trim(raw);
    proof {
        lemma_trimmed_empty_iff_blank(raw@);
        lemma_trimmed_name(raw@);
    }
    if name.as_str().is_empty() {
        return Err(NameError::Empty);
    }
    if contains_separator(name.as_str()) {
        return Err(NameError::ContainsSeparator);
    }
    Ok(name)
}

} // verus!
