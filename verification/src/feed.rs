//! The release feed reader: a parser for the JSON document that the release
//! feed answers with — an array of release objects, each carrying a string
//! field `tag_name` with the release's version tag.
//!
//! Parsing is total and never panics: any input that does not match the
//! expected shape yields `None`, which the resolver treats as "could not
//! determine" (fail-soft).  Fields other than `tag_name` are skipped, with
//! arbitrary nesting; a `tag_name` value must be a plain string without
//! escape sequences, and each entry must carry exactly one.

use vstd::prelude::*;
use vstd::string::StrSliceExecFns;
use vstd::string::StringExecFns;

verus! {

/// JSON insignificant whitespace.
pub open spec fn is_json_ws(c: char) -> bool {
    c == ' ' || c == '\t' || c == '\n' || c == '\r'
}

/// A character that may make up a scalar token (a number, `true`, `false`,
/// `null`).  The scan is deliberately coarse: any nonempty run of such
/// characters is skipped, since the feed reader never reads scalar values.
pub open spec fn is_token_char(c: char) -> bool {
    ('0' <= c && c <= '9') || ('a' <= c && c <= 'z') || ('A' <= c && c <= 'Z') || c == '.' || c
        == '+' || c == '-'
}

/// The first position at or after `i` holding no whitespace, or the end.
pub open spec fn skip_ws_spec(s: Seq<char>, i: int) -> int
    decreases s.len() - i,
{
    if 0 <= i < s.len() && is_json_ws(s[i]) {
        skip_ws_spec(s, i + 1)
    } else {
        i
    }
}

/// The position just after the closing quote of a string whose contents
/// start at `i` (the opening quote stands at `i - 1`).  A backslash skips
/// the character after it.  `None` when the string never closes.
pub open spec fn string_end_spec(s: Seq<char>, i: int) -> Option<int>
    decreases s.len() - i,
{
    if !(0 <= i < s.len()) {
        None
    } else if s[i] == '"' {
        Some(i + 1)
    } else if s[i] == '\\' {
        if i + 2 <= s.len() {
            string_end_spec(s, i + 2)
        } else {
            None
        }
    } else {
        string_end_spec(s, i + 1)
    }
}

/// The first position at or after `i` holding no scalar-token character.
pub open spec fn token_end_spec(s: Seq<char>, i: int) -> int
    decreases s.len() - i,
{
    if 0 <= i < s.len() && is_token_char(s[i]) {
        token_end_spec(s, i + 1)
    } else {
        i
    }
}

/// The position just after the JSON value starting at `i` (no leading
/// whitespace), or `None` when no value starts there.
pub open spec fn skip_value_spec(s: Seq<char>, i: int) -> Option<int>
    decreases s.len() - i, 0int,
{
    if !(0 <= i < s.len()) {
        None
    } else if s[i] == '"' {
        string_end_spec(s, i + 1)
    } else if s[i] == '[' {
        skip_elements_spec(s, i + 1, true)
    } else if s[i] == '{' {
        skip_members_spec(s, i + 1, true)
    } else if is_token_char(s[i]) {
        Some(token_end_spec(s, i + 1))
    } else {
        None
    }
}

/// Continues past the elements of an array whose `[`, or the comma after
/// the previous element, ends just before `i`; yields the position after
/// the closing `]`.
pub open spec fn skip_elements_spec(s: Seq<char>, i: int, first: bool) -> Option<int>
    decreases s.len() - i, 1int,
{
    if !(0 <= i <= s.len()) {
        None
    } else {
        let j = skip_ws_spec(s, i);
        if !(i <= j < s.len()) {
            None
        } else if first && s[j] == ']' {
            Some(j + 1)
        } else {
            match skip_value_spec(s, j) {
                None => None,
                Some(k) => {
                    if !(j < k <= s.len()) {
                        None
                    } else {
                        let m = skip_ws_spec(s, k);
                        if !(k <= m < s.len()) {
                            None
                        } else if s[m] == ']' {
                            Some(m + 1)
                        } else if s[m] == ',' {
                            skip_elements_spec(s, m + 1, false)
                        } else {
                            None
                        }
                    }
                },
            }
        }
    }
}

/// Continues past the members of an object whose `{`, or the comma after
/// the previous member, ends just before `i`; yields the position after
/// the closing `}`.
pub open spec fn skip_members_spec(s: Seq<char>, i: int, first: bool) -> Option<int>
    decreases s.len() - i, 1int,
{
    if !(0 <= i <= s.len()) {
        None
    } else {
        let j = skip_ws_spec(s, i);
        if !(i <= j < s.len()) {
            None
        } else if first && s[j] == '}' {
            Some(j + 1)
        } else if s[j] != '"' {
            None
        } else {
            match string_end_spec(s, j + 1) {
                None => None,
                Some(ke) => {
                    if !(j + 1 < ke <= s.len()) {
                        None
                    } else {
                        let c = skip_ws_spec(s, ke);
                        if !(ke <= c < s.len()) {
                            None
                        } else if s[c] != ':' {
                            None
                        } else {
                            let v = skip_ws_spec(s, c + 1);
                            if !(c + 1 <= v <= s.len()) {
                                None
                            } else {
                                match skip_value_spec(s, v) {
                                    None => None,
                                    Some(k) => {
                                        if !(v < k <= s.len()) {
                                            None
                                        } else {
                                            let m = skip_ws_spec(s, k);
                                            if !(k <= m < s.len()) {
                                                None
                                            } else if s[m] == '}' {
                                                Some(m + 1)
                                            } else if s[m] == ',' {
                                                skip_members_spec(s, m + 1, false)
                                            } else {
                                                None
                                            }
                                        }
                                    },
                                }
                            }
                        }
                    }
                },
            }
        }
    }
}

/// Whether the range `[lo, hi)` of `s` holds a backslash, that is, whether
/// the string contents there carry an escape sequence.
pub open spec fn has_backslash(s: Seq<char>, lo: int, hi: int) -> bool {
    exists|k: int| lo <= k < hi && s[k] == '\\'
}

/// Parses the members of a release object whose `{`, or the comma after the
/// previous member, ends just before `i`.  `tag` accumulates the `tag_name`
/// value seen so far.  Yields the tag and the position after the closing
/// `}`; `None` when the object is malformed, carries no `tag_name`, carries
/// it twice, or its `tag_name` value is no plain string.
pub open spec fn parse_entry_spec(s: Seq<char>, i: int, tag: Option<Seq<char>>, first: bool) -> Option<
    (Seq<char>, int),
>
    decreases s.len() - i, 2int,
{
    if !(0 <= i <= s.len()) {
        None
    } else {
        let j = skip_ws_spec(s, i);
        if !(i <= j < s.len()) {
            None
        } else if first && s[j] == '}' {
            match tag {
                Some(t) => Some((t, j + 1)),
                None => None,
            }
        } else if s[j] != '"' {
            None
        } else {
            match string_end_spec(s, j + 1) {
                None => None,
                Some(ke) => {
                    if !(j + 1 < ke <= s.len()) {
                        None
                    } else {
                        let key = s.subrange(j + 1, ke - 1);
                        let c = skip_ws_spec(s, ke);
                        if !(ke <= c < s.len()) {
                            None
                        } else if s[c] != ':' {
                            None
                        } else {
                            let v = skip_ws_spec(s, c + 1);
                            if !(i < v && c + 1 <= v <= s.len()) {
                                None
                            } else {
                                parse_entry_value_spec(s, key, v, tag)
                            }
                        }
                    }
                },
            }
        }
    }
}

/// The member-value step of `parse_entry_spec`: reads the value starting at
/// `v`, capturing it when the key is `tag_name`, skipping it otherwise,
/// then continues with the rest of the object.
pub open spec fn parse_entry_value_spec(
    s: Seq<char>,
    key: Seq<char>,
    v: int,
    tag: Option<Seq<char>>,
) -> Option<(Seq<char>, int)>
    decreases s.len() - v, 1int,
{
    if !(0 <= v <= s.len()) {
        None
    } else if key == "tag_name"@ {
        if tag is Some {
            None
        } else if !(v < s.len() && s[v] == '"') {
            None
        } else {
            match string_end_spec(s, v + 1) {
                None => None,
                Some(ve) => {
                    if !(v + 1 < ve <= s.len()) {
                        None
                    } else if has_backslash(s, v + 1, ve - 1) {
                        None
                    } else {
                        parse_entry_rest_spec(s, Some(s.subrange(v + 1, ve - 1)), ve)
                    }
                },
            }
        }
    } else {
        match skip_value_spec(s, v) {
            None => None,
            Some(k) => {
                if !(v < k <= s.len()) {
                    None
                } else {
                    parse_entry_rest_spec(s, tag, k)
                }
            },
        }
    }
}

/// The member-separator step of `parse_entry_spec`: after a member's value
/// ends at `k`, either the object closes or a comma introduces the next
/// member.
pub open spec fn parse_entry_rest_spec(s: Seq<char>, tag: Option<Seq<char>>, k: int) -> Option<
    (Seq<char>, int),
>
    decreases s.len() - k, 0int,
{
    if !(0 <= k <= s.len()) {
        None
    } else {
        let m = skip_ws_spec(s, k);
        if !(k <= m < s.len()) {
            None
        } else if s[m] == '}' {
            match tag {
                Some(t) => Some((t, m + 1)),
                None => None,
            }
        } else if s[m] == ',' {
            parse_entry_spec(s, m + 1, tag, false)
        } else {
            None
        }
    }
}

/// Parses the entries of the feed array whose `[`, or the comma after the
/// previous entry, ends just before `i`.  Each entry must be a release
/// object with a `tag_name`; `acc` accumulates the tags in feed order.
pub open spec fn parse_entries_spec(s: Seq<char>, i: int, acc: Seq<Seq<char>>, first: bool) -> Option<
    (Seq<Seq<char>>, int),
>
    decreases s.len() - i,
{
    if !(0 <= i <= s.len()) {
        None
    } else {
        let j = skip_ws_spec(s, i);
        if !(i <= j < s.len()) {
            None
        } else if first && s[j] == ']' {
            Some((acc, j + 1))
        } else if s[j] != '{' {
            None
        } else {
            match parse_entry_spec(s, j + 1, None, true) {
                None => None,
                Some((tag, k)) => {
                    if !(j + 1 < k <= s.len()) {
                        None
                    } else {
                        let m = skip_ws_spec(s, k);
                        if !(k <= m < s.len()) {
                            None
                        } else if s[m] == ']' {
                            Some((acc.push(tag), m + 1))
                        } else if s[m] == ',' {
                            parse_entries_spec(s, m + 1, acc.push(tag), false)
                        } else {
                            None
                        }
                    }
                },
            }
        }
    }
}

/// The tag accumulator of the executable entry parser, as the spec-level
/// parser sees it.
pub open spec fn tag_view(tag: Option<String>) -> Option<Seq<char>> {
    match tag {
        Some(t) => Some(t@),
        None => None,
    }
}

/// The version tags carried by a release feed document, in feed order, or
/// `None` when the document is not an array of release objects each
/// carrying one plain-string `tag_name` (with nothing but whitespace after
/// the array).
pub open spec fn parse_feed_spec(s: Seq<char>) -> Option<Seq<Seq<char>>> {
    let i = skip_ws_spec(s, 0);
    if !(0 <= i < s.len()) {
        None
    } else if s[i] != '[' {
        None
    } else {
        match parse_entries_spec(s, i + 1, Seq::empty(), true) {
            None => None,
            Some((tags, k)) => {
                if !(0 <= k <= s.len()) {
                    None
                } else if skip_ws_spec(s, k) == s.len() {
                    Some(tags)
                } else {
                    None
                }
            },
        }
    }
}

fn skip_ws(s: &str, n: usize, i: usize) -> (r: usize)
    requires
        n == s@.len(),
        i <= n,
    ensures
        r == skip_ws_spec(s@, i as int),
        i <= r <= n,
    decreases n - i,
{
    if i < n {
        let c = s.get_char(i);
        if c == ' ' || c == '\t' || c == '\n' || c == '\r' {
            return skip_ws(s, n, i + 1);
        }
    }
    i
}

fn string_end(s: &str, n: usize, i: usize) -> (r: Option<usize>)
    requires
        n == s@.len(),
        i <= n,
    ensures
        match r {
            Some(k) => string_end_spec(s@, i as int) == Some(k as int) && i < k <= n,
            None => string_end_spec(s@, i as int) is None,
        },
    decreases n - i,
{
    if i >= n {
        return None;
    }
    let c = s.get_char(i);
    if c == '"' {
        Some(i + 1)
    } else if c == '\\' {
        if n - i >= 2 {
            string_end(s, n, i + 2)
        } else {
            None
        }
    } else {
        string_end(s, n, i + 1)
    }
}

fn token_end(s: &str, n: usize, i: usize) -> (r: usize)
    requires
        n == s@.len(),
        i <= n,
    ensures
        r == token_end_spec(s@, i as int),
        i <= r <= n,
    decreases n - i,
{
    if i < n {
        let c = s.get_char(i);
        if ('0' <= c && c <= '9') || ('a' <= c && c <= 'z') || ('A' <= c && c <= 'Z') || c == '.'
            || c == '+' || c == '-' {
            return token_end(s, n, i + 1);
        }
    }
    i
}

fn skip_value(s: &str, n: usize, i: usize) -> (r: Option<usize>)
    requires
        n == s@.len(),
        i <= n,
    ensures
        match r {
            Some(k) => skip_value_spec(s@, i as int) == Some(k as int) && i < k <= n,
            None => skip_value_spec(s@, i as int) is None,
        },
    decreases n - i, 0int,
{
    if i >= n {
        return None;
    }
    let c = s.get_char(i);
    if c == '"' {
        string_end(s, n, i + 1)
    } else if c == '[' {
        skip_elements(s, n, i + 1, true)
    } else if c == '{' {
        skip_members(s, n, i + 1, true)
    } else if ('0' <= c && c <= '9') || ('a' <= c && c <= 'z') || ('A' <= c && c <= 'Z') || c == '.'
        || c == '+' || c == '-' {
        Some(token_end(s, n, i + 1))
    } else {
        None
    }
}

fn skip_elements(s: &str, n: usize, i: usize, first: bool) -> (r: Option<usize>)
    requires
        n == s@.len(),
        i <= n,
    ensures
        match r {
            Some(k) => skip_elements_spec(s@, i as int, first) == Some(k as int) && i < k <= n,
            None => skip_elements_spec(s@, i as int, first) is None,
        },
    decreases n - i, 1int,
{
    let j = skip_ws(s, n, i);
    if j >= n {
        return None;
    }
    let cj = s.get_char(j);
    if first && cj == ']' {
        return Some(j + 1);
    }
    match skip_value(s, n, j) {
        None => None,
        Some(k) => {
            let m = skip_ws(s, n, k);
            if m >= n {
                return None;
            }
            let cm = s.get_char(m);
            if cm == ']' {
                Some(m + 1)
            } else if cm == ',' {
                skip_elements(s, n, m + 1, false)
            } else {
                None
            }
        },
    }
}

fn skip_members(s: &str, n: usize, i: usize, first: bool) -> (r: Option<usize>)
    requires
        n == s@.len(),
        i <= n,
    ensures
        match r {
            Some(k) => skip_members_spec(s@, i as int, first) == Some(k as int) && i < k <= n,
            None => skip_members_spec(s@, i as int, first) is None,
        },
    decreases n - i, 1int,
{
    let j = skip_ws(s, n, i);
    if j >= n {
        return None;
    }
    let cj = s.get_char(j);
    if first && cj == '}' {
        return Some(j + 1);
    }
    if cj != '"' {
        return None;
    }
    let ke = match string_end(s, n, j + 1) {
        None => {
            return None;
        },
        Some(ke) => ke,
    };
    let c = skip_ws(s, n, ke);
    if c >= n {
        return None;
    }
    if s.get_char(c) != ':' {
        return None;
    }
    let v = skip_ws(s, n, c + 1);
    match skip_value(s, n, v) {
        None => None,
        Some(k) => {
            let m = skip_ws(s, n, k);
            if m >= n {
                return None;
            }
            let cm = s.get_char(m);
            if cm == '}' {
                Some(m + 1)
            } else if cm == ',' {
                skip_members(s, n, m + 1, false)
            } else {
                None
            }
        },
    }
}

fn is_tag_name_key(s: &str, n: usize, lo: usize, hi: usize) -> (r: bool)
    requires
        n == s@.len(),
        lo <= hi <= n,
    ensures
        r == (s@.subrange(lo as int, hi as int) == "tag_name"@),
{
    proof {
        reveal_strlit("tag_name");
    }
    if hi - lo != 8 {
        proof {
            assert(s@.subrange(lo as int, hi as int).len() == hi - lo);
        }
        return false;
    }
    let key: &str = "tag_name";
    let mut q: usize = 0;
    while q < 8
        invariant
            n == s@.len(),
            lo + 8 == hi,
            hi <= n,
            q <= 8,
            key@ == "tag_name"@,
            key@.len() == 8,
            forall|t: int| 0 <= t < q ==> s@[lo + t] == key@[t],
        decreases 8 - q,
    {
        if s.get_char(lo + q) != key.get_char(q) {
            proof {
                assert(s@.subrange(lo as int, hi as int)[q as int] != "tag_name"@[q as int]);
            }
            return false;
        }
        q = q + 1;
    }
    proof {
        assert(s@.subrange(lo as int, hi as int) =~= "tag_name"@);
    }
    true
}

fn range_has_backslash(s: &str, n: usize, lo: usize, hi: usize) -> (r: bool)
    requires
        n == s@.len(),
        lo <= hi <= n,
    ensures
        r == has_backslash(s@, lo as int, hi as int),
{
    let mut q: usize = lo;
    while q < hi
        invariant
            n == s@.len(),
            lo <= q <= hi <= n,
            forall|t: int| lo <= t < q ==> s@[t] != '\\',
        decreases hi - q,
    {
        if s.get_char(q) == '\\' {
            return true;
        }
        q = q + 1;
    }
    false
}

fn parse_entry(s: &str, n: usize, i: usize, tag: Option<String>, first: bool) -> (r: Option<
    (String, usize),
>)
    requires
        n == s@.len(),
        i <= n,
    ensures
        match r {
            Some(p) => parse_entry_spec(s@, i as int, tag_view(tag), first) == Some(
                (p.0@, p.1 as int),
            ) && i < p.1 <= n,
            None => parse_entry_spec(s@, i as int, tag_view(tag), first) is None,
        },
    decreases n - i, 2int,
{
    let j = skip_ws(s, n, i);
    if j >= n {
        return None;
    }
    let cj = s.get_char(j);
    if first && cj == '}' {
        return match tag {
            Some(t) => Some((t, j + 1)),
            None => None,
        };
    }
    if cj != '"' {
        return None;
    }
    let ke = match string_end(s, n, j + 1) {
        None => {
            return None;
        },
        Some(ke) => ke,
    };
    let keyok = is_tag_name_key(s, n, j + 1, ke - 1);
    let c = skip_ws(s, n, ke);
    if c >= n {
        return None;
    }
    if s.get_char(c) != ':' {
        return None;
    }
    let v = skip_ws(s, n, c + 1);
    if keyok {
        if tag.is_some() {
            return None;
        }
        if v >= n {
            return None;
        }
        if s.get_char(v) != '"' {
            return None;
        }
        let ve = match string_end(s, n, v + 1) {
            None => {
                return None;
            },
            Some(ve) => ve,
        };
        if range_has_backslash(s, n, v + 1, ve - 1) {
            return None;
        }
        let content = s.substring_char(v + 1, ve - 1);
        let captured = String::from_str(content);
        parse_entry_rest(s, n, Some(captured), ve)
    } else {
        match skip_value(s, n, v) {
            None => None,
            Some(k) => parse_entry_rest(s, n, tag, k),
        }
    }
}

fn parse_entry_rest(s: &str, n: usize, tag: Option<String>, k: usize) -> (r: Option<
    (String, usize),
>)
    requires
        n == s@.len(),
        k <= n,
    ensures
        match r {
            Some(p) => parse_entry_rest_spec(s@, tag_view(tag), k as int) == Some(
                (p.0@, p.1 as int),
            ) && k < p.1 <= n,
            None => parse_entry_rest_spec(s@, tag_view(tag), k as int) is None,
        },
    decreases n - k, 0int,
{
    let m = skip_ws(s, n, k);
    if m >= n {
        return None;
    }
    let cm = s.get_char(m);
    if cm == '}' {
        match tag {
            Some(t) => Some((t, m + 1)),
            None => None,
        }
    } else if cm == ',' {
        parse_entry(s, n, m + 1, tag, false)
    } else {
        None
    }
}

fn parse_entries(s: &str, n: usize, i: usize, acc: Vec<String>, first: bool) -> (r: Option<
    (Vec<String>, usize),
>)
    requires
        n == s@.len(),
        i <= n,
    ensures
        match r {
            Some(p) => parse_entries_spec(s@, i as int, acc.deep_view(), first) == Some(
                (p.0.deep_view(), p.1 as int),
            ) && i < p.1 <= n,
            None => parse_entries_spec(s@, i as int, acc.deep_view(), first) is None,
        },
    decreases n - i,
{
    let j = skip_ws(s, n, i);
    if j >= n {
        return None;
    }
    let cj = s.get_char(j);
    if first && cj == ']' {
        return Some((acc, j + 1));
    }
    if cj != '{' {
        return None;
    }
    match parse_entry(s, n, j + 1, None, true) {
        None => None,
        Some((t, k)) => {
            let m = skip_ws(s, n, k);
            if m >= n {
                return None;
            }
            let cm = s.get_char(m);
            if cm == ']' || cm == ',' {
                let ghost old_acc = acc.deep_view();
                let mut grown = acc;
                grown.push(t);
                proof {
                    assert forall|x: int| 0 <= x < grown.deep_view().len() implies grown.deep_view()[x]
                        == old_acc.push(t@)[x] by {
                        if x < old_acc.len() {
                            assert(grown@[x] == grown@.subrange(0, grown@.len() - 1)[x]);
                        }
                    }
                    assert(grown.deep_view() =~= old_acc.push(t@));
                }
                if cm == ']' {
                    Some((grown, m + 1))
                } else {
                    parse_entries(s, n, m + 1, grown, false)
                }
            } else {
                None
            }
        },
    }
}

/// Reads the version tags out of a release feed document, in feed order:
/// the executable counterpart of `parse_feed_spec`, returning `None` on any
/// input that is not a well-shaped feed.
pub fn parse_feed(body: &str) -> (tags: Option<Vec<String>>)
    ensures
        match tags {
            Some(ts) => parse_feed_spec(body@) == Some(ts.deep_view()),
            None => parse_feed_spec(body@) is None,
        },
{
    let n = body.unicode_len();
    let i = skip_ws(body, n, 0);
    if i >= n {
        return None;
    }
    if body.get_char(i) != '[' {
        return None;
    }
    let empty: Vec<String> = Vec::new();
    proof {
        assert(empty.deep_view() =~= Seq::<Seq<char>>::empty());
    }
    match parse_entries(body, n, i + 1, empty, true) {
        None => None,
        Some((ts, k)) => {
            if skip_ws(body, n, k) == n {
                Some(ts)
            } else {
                None
            }
        },
    }
}

} // verus!
