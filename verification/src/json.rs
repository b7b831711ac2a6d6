//! Extremely small JSON helpers tailored to the core's payloads.
//!
//! These helpers are not a general purpose parser; they assume well-formed
//! JSON with double quoted keys and primitive values, and every one of them is
//! specified to the exact character.

use vstd::prelude::*;
use crate::fixed::{parse_fixed, parse_fixed_spec};
use crate::text::{chars_of, chars_to_string};

verus! {

/// The escape expansion of one character.
pub open spec fn escape_char(c: char) -> Seq<char> {
    if c == '\\' {
        seq!['\\', '\\']
    } else if c == '"' {
        seq!['\\', '"']
    } else if c == '\n' {
        seq!['\\', 'n']
    } else if c == '\r' {
        seq!['\\', 'r']
    } else if c == '\t' {
        seq!['\\', 't']
    } else {
        seq![c]
    }
}

/// The escape expansion of a whole string.
pub open spec fn escape_seq(s: Seq<char>) -> Seq<char>
    decreases s.len(),
{
    if s.len() == 0 {
        Seq::empty()
    } else {
        escape_char(s.first()) + escape_seq(s.drop_first())
    }
}

/// Escaping distributes over pushing one character at the back.
pub proof fn lemma_escape_seq_snoc(s: Seq<char>, c: char)
    ensures
        escape_seq(s.push(c)) == escape_seq(s) + escape_char(c),
    decreases s.len(),
{
    if s.len() == 0 {
        assert(s.push(c).first() == c);
        assert(s.push(c).drop_first() =~= s);
        assert(escape_seq(s) == Seq::<char>::empty());
        assert(escape_seq(s.push(c)) == escape_char(c) + escape_seq(s));
        assert(escape_seq(s.push(c)) =~= escape_seq(s) + escape_char(c));
    } else {
        assert(s.push(c).first() == s.first());
        assert(s.push(c).drop_first() =~= s.drop_first().push(c));
        lemma_escape_seq_snoc(s.drop_first(), c);
        assert(escape_seq(s.push(c)) =~= escape_seq(s) + escape_char(c));
    }
}

/// Append the escape expansion of one character.
fn push_escaped_char(out: &mut Vec<char>, c: char)
    ensures
        final(out)@ == old(out)@ + escape_char(c),
{
    if c == '\\' {
        out.push('\\');
        out.push('\\');
    } else if c == '"' {
        out.push('\\');
        out.push('"');
    } else if c == '\n' {
        out.push('\\');
        out.push('n');
    } else if c == '\r' {
        out.push('\\');
        out.push('r');
    } else if c == '\t' {
        out.push('\\');
        out.push('t');
    } else {
        out.push(c);
    }
    proof {
        assert(out@ =~= old(out)@ + escape_char(c));
    }
}

/// Append the escape expansion of a whole character vector.
pub fn push_escaped(out: &mut Vec<char>, s: &Vec<char>)
    ensures
        final(out)@ == old(out)@ + escape_seq(s@),
{
    let mut i: usize = 0;
    while i < s.len()
        invariant
            i <= s@.len(),
            out@ == old(out)@ + escape_seq(s@.take(i as int)),
        decreases s@.len() - i,
    {
        push_escaped_char(out, s[i]);
        proof {
            assert(s@.take(i + 1) =~= s@.take(i as int).push(s@[i as int]));
            lemma_escape_seq_snoc(s@.take(i as int), s@[i as int]);
        }
        i = i + 1;
    }
    proof {
        assert(s@.take(s@.len() as int) =~= s@);
    }
}

/// Escape a string so it can be embedded into JSON output.
pub fn escape(input: &str) -> (r: String)
    ensures
        r@ == escape_seq(input@),
{
    let chars = chars_of(input);
    let mut out: Vec<char> = Vec::new();
    push_escaped(&mut out, &chars);
    chars_to_string(&out)
}

/// Whether the pattern occurs in `s` starting at position `i`.
pub open spec fn matches_at(s: Seq<char>, pat: Seq<char>, i: int) -> bool {
    0 <= i && i + pat.len() <= s.len() && s.subrange(i, i + pat.len()) == pat
}

/// The first position at or after `i` where the pattern occurs.
pub open spec fn first_match_from(s: Seq<char>, pat: Seq<char>, i: int) -> Option<int>
    decreases s.len() - i,
{
    if pat.len() == 0 || i + pat.len() > s.len() {
        None
    } else if matches_at(s, pat, i) {
        Some(i)
    } else {
        first_match_from(s, pat, i + 1)
    }
}

/// Whether the pattern occurs at position `i`, as executable code.
fn check_match(s: &Vec<char>, pat: &Vec<char>, i: usize) -> (r: bool)
    requires
        i + pat@.len() <= s@.len(),
    ensures
        r == matches_at(s@, pat@, i as int),
{
    let n: usize = s.len();
    let mut j: usize = 0;
    while j < pat.len()
        invariant
            i + pat@.len() <= s@.len(),
            s@.len() == n,
            j <= pat@.len(),
            forall|k: int| 0 <= k < j ==> s@[i + k] == pat@[k],
        decreases pat@.len() - j,
    {
        if s[i + j] != pat[j] {
            proof {
                assert(s@.subrange(i as int, i + pat@.len())[j as int] == s@[i + j]);
            }
            return false;
        }
        j = j + 1;
    }
    proof {
        assert(s@.subrange(i as int, i + pat@.len()) =~= pat@);
    }
    true
}

/// Find the first occurrence of the pattern at or after `start`.
fn find_from(s: &Vec<char>, pat: &Vec<char>, start: usize) -> (r: Option<usize>)
    requires
        pat@.len() >= 1,
    ensures
        match r {
            Some(i) => first_match_from(s@, pat@, start as int) == Some(i as int) && i + pat@.len()
                <= s@.len(),
            None => first_match_from(s@, pat@, start as int) is None,
        },
{
    if pat.len() > s.len() || start > s.len() - pat.len() {
        return None;
    }
    let last: usize = s.len() - pat.len();
    let mut i: usize = start;
    while i <= last
        invariant
            start <= i <= last + 1,
            1 <= pat@.len() <= s@.len(),
            last == s@.len() - pat@.len(),
            last < usize::MAX,
            first_match_from(s@, pat@, start as int) == first_match_from(s@, pat@, i as int),
        decreases last + 1 - i,
    {
        if check_match(s, pat, i) {
            return Some(i);
        }
        i = i + 1;
    }
    None
}

/// Where the value text for a quoted key begins: just past the closing quote.
pub open spec fn locate_key_spec(source: Seq<char>, key: Seq<char>) -> Option<int> {
    match first_match_from(source, seq!['"'] + key + seq!['"'], 0) {
        Some(i) => Some(i + key.len() + 2),
        None => None,
    }
}

/// Find a quoted key and return the position just past its closing quote.
fn locate_key(source: &Vec<char>, key: &Vec<char>) -> (r: Option<usize>)
    ensures
        match r {
            Some(i) => locate_key_spec(source@, key@) == Some(i as int) && i <= source@.len(),
            None => locate_key_spec(source@, key@) is None,
        },
{
    let mut pat: Vec<char> = Vec::new();
    pat.push('"');
    let mut k: usize = 0;
    while k < key.len()
        invariant
            k <= key@.len(),
            pat@ == seq!['"'] + key@.take(k as int),
        decreases key@.len() - k,
    {
        pat.push(key[k]);
        proof {
            assert(seq!['"'] + key@.take(k + 1) =~= (seq!['"'] + key@.take(k as int)).push(
                key@[k as int],
            ));
        }
        k = k + 1;
    }
    proof {
        assert(key@.take(key@.len() as int) =~= key@);
    }
    pat.push('"');
    proof {
        assert(pat@ =~= seq!['"'] + key@ + seq!['"']);
    }
    let n: usize = source.len();
    match find_from(source, &pat, 0) {
        Some(i) => {
            proof {
                assert(i + key@.len() + 2 <= n);
            }
            Some(i + key.len() + 2)
        },
        None => None,
    }
}

/// Whether a character counts as skippable whitespace.
pub open spec fn is_ws(c: char) -> bool {
    c == ' ' || c == '\t' || c == '\n' || c == '\r'
}

/// The first position at or after `i` holding a non-whitespace character.
pub open spec fn skip_ws_spec(s: Seq<char>, i: int) -> int
    decreases s.len() - i,
{
    if 0 <= i < s.len() && is_ws(s[i]) {
        skip_ws_spec(s, i + 1)
    } else {
        i
    }
}

/// Advance past whitespace, as executable code.
pub(crate) fn skip_ws(s: &Vec<char>, start: usize) -> (r: usize)
    requires
        start <= s@.len(),
    ensures
        r == skip_ws_spec(s@, start as int),
        start <= r <= s@.len(),
{
    let mut i: usize = start;
    while i < s.len() && (s[i] == ' ' || s[i] == '\t' || s[i] == '\n' || s[i] == '\r')
        invariant
            start <= i <= s@.len(),
            skip_ws_spec(s@, start as int) == skip_ws_spec(s@, i as int),
        decreases s@.len() - i,
    {
        i = i + 1;
    }
    i
}

/// The first position at or after `i` holding the given character.
pub open spec fn find_char_spec(s: Seq<char>, i: int, c: char) -> Option<int>
    decreases s.len() - i,
{
    if i >= s.len() {
        None
    } else if 0 <= i && s[i] == c {
        Some(i)
    } else {
        find_char_spec(s, i + 1, c)
    }
}

/// Find the given character at or after `start`, as executable code.
fn find_char(s: &Vec<char>, start: usize, c: char) -> (r: Option<usize>)
    requires
        start <= s@.len(),
    ensures
        match r {
            Some(i) => find_char_spec(s@, start as int, c) == Some(i as int) && start <= i
                < s@.len(),
            None => find_char_spec(s@, start as int, c) is None,
        },
{
    let mut i: usize = start;
    while i < s.len()
        invariant
            start <= i <= s@.len(),
            find_char_spec(s@, start as int, c) == find_char_spec(s@, i as int, c),
        decreases s@.len() - i,
    {
        if s[i] == c {
            return Some(i);
        }
        i = i + 1;
    }
    None
}

/// Where a key's value text begins: past the colon and any whitespace.
pub open spec fn value_start_spec(source: Seq<char>, key: Seq<char>) -> Option<int> {
    match locate_key_spec(source, key) {
        Some(after) => match find_char_spec(source, after, ':') {
            Some(colon) => Some(skip_ws_spec(source, colon + 1)),
            None => None,
        },
        None => None,
    }
}

/// Find where a key's value text begins, as executable code.
fn value_start(source: &Vec<char>, key: &Vec<char>) -> (r: Option<usize>)
    ensures
        match r {
            Some(i) => value_start_spec(source@, key@) == Some(i as int) && i <= source@.len(),
            None => value_start_spec(source@, key@) is None,
        },
{
    let n: usize = source.len();
    match locate_key(source, key) {
        Some(after) => match find_char(source, after, ':') {
            Some(colon) => {
                proof {
                    assert(colon < n);
                }
                Some(skip_ws(source, colon + 1))
            },
            None => None,
        },
        None => None,
    }
}

/// The boolean value recorded for a key, if any.
pub open spec fn extract_bool_spec(source: Seq<char>, key: Seq<char>) -> Option<bool> {
    match value_start_spec(source, key) {
        Some(i) => if matches_at(source, seq!['t', 'r', 'u', 'e'], i) {
            Some(true)
        } else if matches_at(source, seq!['f', 'a', 'l', 's', 'e'], i) {
            Some(false)
        } else {
            None
        },
        None => None,
    }
}

/// Extract a boolean value for the provided key.
pub fn extract_bool_chars(source: &Vec<char>, key: &Vec<char>) -> (r: Option<bool>)
    ensures
        r == extract_bool_spec(source@, key@),
{
    let i = match value_start(source, key) {
        Some(i) => i,
        None => {
            return None;
        },
    };
    let mut tpat: Vec<char> = Vec::new();
    tpat.push('t');
    tpat.push('r');
    tpat.push('u');
    tpat.push('e');
    proof {
        assert(tpat@ =~= seq!['t', 'r', 'u', 'e']);
    }
    if source.len() - i >= 4 && check_match(source, &tpat, i) {
        return Some(true);
    }
    let mut fpat: Vec<char> = Vec::new();
    fpat.push('f');
    fpat.push('a');
    fpat.push('l');
    fpat.push('s');
    fpat.push('e');
    proof {
        assert(fpat@ =~= seq!['f', 'a', 'l', 's', 'e']);
    }
    if source.len() - i >= 5 && check_match(source, &fpat, i) {
        return Some(false);
    }
    None
}

/// Extract a boolean value for the provided key.
pub fn extract_bool(source: &str, key: &str) -> (r: Option<bool>)
    ensures
        r == extract_bool_spec(source@, key@),
{
    let s = chars_of(source);
    let k = chars_of(key);
    extract_bool_chars(&s, &k)
}

/// The numeric token recorded for a key, parsed to nanos, if any.
pub open spec fn num_token_end(s: Seq<char>, i: int) -> int
    decreases s.len() - i,
{
    if 0 <= i < s.len() && (crate::fixed::is_digit(s[i]) || s[i] == '.' || s[i] == '-' || s[i]
        == '+' || s[i] == 'e' || s[i] == 'E') {
        num_token_end(s, i + 1)
    } else {
        i
    }
}

/// The fixed-point value recorded for a key, if any.
pub open spec fn extract_number_spec(source: Seq<char>, key: Seq<char>) -> Option<i64> {
    match value_start_spec(source, key) {
        Some(i) => {
            let end = num_token_end(source, i);
            if end == i {
                None
            } else {
                parse_fixed_spec(source.subrange(i, end))
            }
        },
        None => None,
    }
}

/// Extract a fixed-point number (in nanos) for the provided key.
pub fn extract_number_chars(source: &Vec<char>, key: &Vec<char>) -> (r: Option<i64>)
    ensures
        r == extract_number_spec(source@, key@),
{
    let start = match value_start(source, key) {
        Some(i) => i,
        None => {
            return None;
        },
    };
    let mut end: usize = start;
    while end < source.len() && (
        (source[end] >= '0' && source[end] <= '9') || source[end] == '.' || source[end] == '-'
            || source[end] == '+' || source[end] == 'e' || source[end] == 'E')
        invariant
            start <= end <= source@.len(),
            num_token_end(source@, start as int) == num_token_end(source@, end as int),
        decreases source@.len() - end,
    {
        end = end + 1;
    }
    if end == start {
        return None;
    }
    let mut tok: Vec<char> = Vec::new();
    let mut j: usize = start;
    while j < end
        invariant
            start <= j <= end <= source@.len(),
            tok@ == source@.subrange(start as int, j as int),
        decreases end - j,
    {
        tok.push(source[j]);
        proof {
            assert(source@.subrange(start as int, j + 1) =~= source@.subrange(
                start as int,
                j as int,
            ).push(source@[j as int]));
        }
        j = j + 1;
    }
    parse_fixed(&tok)
}

/// Extract a fixed-point number (in nanos) for the provided key.
pub fn extract_number(source: &str, key: &str) -> (r: Option<i64>)
    ensures
        r == extract_number_spec(source@, key@),
{
    let s = chars_of(source);
    let k = chars_of(key);
    extract_number_chars(&s, &k)
}

} // verus!

verus! {

/// What a backslash escape inside a JSON string denotes.
pub open spec fn unescape_char(c: char) -> char {
    if c == 'n' {
        '\n'
    } else if c == 'r' {
        '\r'
    } else if c == 't' {
        '\t'
    } else {
        c
    }
}

/// Read a quoted string's body from position `i` up to its closing quote.
pub open spec fn read_string_spec(s: Seq<char>, i: int, out: Seq<char>) -> Option<Seq<char>>
    decreases s.len() - i,
{
    if i < 0 || i >= s.len() {
        None
    } else if s[i] == '\\' {
        if i + 1 < s.len() {
            read_string_spec(s, i + 2, out.push(unescape_char(s[i + 1])))
        } else {
            None
        }
    } else if s[i] == '"' {
        Some(out)
    } else {
        read_string_spec(s, i + 1, out.push(s[i]))
    }
}

/// The string value recorded for a key, unescaped, if any.
pub open spec fn extract_string_spec(source: Seq<char>, key: Seq<char>) -> Option<Seq<char>> {
    match value_start_spec(source, key) {
        Some(i) => if i < source.len() && source[i] == '"' {
            read_string_spec(source, i + 1, Seq::empty())
        } else {
            None
        },
        None => None,
    }
}

/// Extract a string value (without surrounding quotes) for the provided key.
pub fn extract_string_chars(source: &Vec<char>, key: &Vec<char>) -> (r: Option<Vec<char>>)
    ensures
        match r {
            Some(v) => extract_string_spec(source@, key@) == Some(v@),
            None => extract_string_spec(source@, key@) is None,
        },
{
    let n: usize = source.len();
    let start = match value_start(source, key) {
        Some(i) => i,
        None => {
            return None;
        },
    };
    if start >= n || source[start] != '"' {
        return None;
    }
    let mut out: Vec<char> = Vec::new();
    let mut i: usize = start + 1;
    loop
        invariant
            n == source@.len(),
            i <= n,
            extract_string_spec(source@, key@) == read_string_spec(source@, i as int, out@),
        decreases n - i,
    {
        if i >= n {
            return None;
        }
        let c: char = source[i];
        if c == '\\' {
            if i + 1 < n {
                out.push(unescape_exec(source[i + 1]));
                i = i + 2;
            } else {
                return None;
            }
        } else if c == '"' {
            return Some(out);
        } else {
            out.push(c);
            i = i + 1;
        }
    }
}

/// What a backslash escape denotes, as executable code.
fn unescape_exec(c: char) -> (r: char)
    ensures
        r == unescape_char(c),
{
    if c == 'n' {
        '\n'
    } else if c == 'r' {
        '\r'
    } else if c == 't' {
        '\t'
    } else {
        c
    }
}

/// Extract a string value (without surrounding quotes) for the provided key.
pub fn extract_string(source: &str, key: &str) -> (r: Option<String>)
    ensures
        r.deep_view() == extract_string_spec(source@, key@),
{
    let s = chars_of(source);
    let k = chars_of(key);
    match extract_string_chars(&s, &k) {
        Some(v) => Some(chars_to_string(&v)),
        None => None,
    }
}

/// Scan for the matching close of an object or array opened at `start`.
pub open spec fn scan_object_spec(
    s: Seq<char>,
    i: int,
    start: int,
    depth: int,
    in_str: bool,
    esc: bool,
) -> Option<Seq<char>>
    decreases s.len() - i,
{
    if i < 0 || i >= s.len() {
        None
    } else if esc {
        scan_object_spec(s, i + 1, start, depth, in_str, false)
    } else if s[i] == '\\' && in_str {
        scan_object_spec(s, i + 1, start, depth, in_str, true)
    } else if s[i] == '"' {
        scan_object_spec(s, i + 1, start, depth, !in_str, false)
    } else if (s[i] == '{' || s[i] == '[') && !in_str {
        scan_object_spec(s, i + 1, start, depth + 1, in_str, false)
    } else if (s[i] == '}' || s[i] == ']') && !in_str {
        if depth == 1 {
            Some(s.subrange(start, i + 1))
        } else {
            scan_object_spec(s, i + 1, start, depth - 1, in_str, false)
        }
    } else {
        scan_object_spec(s, i + 1, start, depth, in_str, false)
    }
}

/// The JSON object (braces included) recorded for a key, if any.
pub open spec fn extract_object_spec(source: Seq<char>, key: Seq<char>) -> Option<Seq<char>> {
    match locate_key_spec(source, key) {
        Some(after) => match find_char_spec(source, after, '{') {
            Some(b) => scan_object_spec(source, b, b, 0, false, false),
            None => None,
        },
        None => None,
    }
}

/// Extract a JSON object (including braces) for the provided key.
pub fn extract_object_chars(source: &Vec<char>, key: &Vec<char>) -> (r: Option<Vec<char>>)
    ensures
        match r {
            Some(v) => extract_object_spec(source@, key@) == Some(v@),
            None => extract_object_spec(source@, key@) is None,
        },
{
    let n: usize = source.len();
    let after = match locate_key(source, key) {
        Some(a) => a,
        None => {
            return None;
        },
    };
    let brace = match find_char(source, after, '{') {
        Some(b) => b,
        None => {
            return None;
        },
    };
    let mut i: usize = brace;
    let mut depth: i128 = 0;
    let mut in_str: bool = false;
    let mut esc: bool = false;
    loop
        invariant
            n == source@.len(),
            brace <= i <= n,
            -(i as int) <= depth <= i as int,
            extract_object_spec(source@, key@) == scan_object_spec(
                source@,
                i as int,
                brace as int,
                depth as int,
                in_str,
                esc,
            ),
        decreases n - i,
    {
        if i >= n {
            return None;
        }
        let c: char = source[i];
        if esc {
            esc = false;
        } else if c == '\\' && in_str {
            esc = true;
        } else if c == '"' {
            in_str = !in_str;
        } else if (c == '{' || c == '[') && !in_str {
            depth = depth + 1;
        } else if (c == '}' || c == ']') && !in_str {
            if depth == 1 {
                let mut out: Vec<char> = Vec::new();
                let mut j: usize = brace;
                while j <= i
                    invariant
                        brace <= j <= i + 1,
                        i < n == source@.len(),
                        out@ == source@.subrange(brace as int, j as int),
                    decreases i + 1 - j,
                {
                    out.push(source[j]);
                    proof {
                        assert(source@.subrange(brace as int, j + 1) =~= source@.subrange(
                            brace as int,
                            j as int,
                        ).push(source@[j as int]));
                    }
                    j = j + 1;
                }
                return Some(out);
            }
            depth = depth - 1;
        }
        i = i + 1;
    }
}

/// Extract a JSON object (including braces) for the provided key.
pub fn extract_object(source: &str, key: &str) -> (r: Option<String>)
    ensures
        r.deep_view() == extract_object_spec(source@, key@),
{
    let s = chars_of(source);
    let k = chars_of(key);
    match extract_object_chars(&s, &k) {
        Some(v) => Some(chars_to_string(&v)),
        None => None,
    }
}

} // verus!

verus! {

/// The scanner state while collecting top-level keys.
pub ghost struct KeyScan {
    /// Nesting depth of braces and brackets.
    pub depth: int,
    /// Whether the scanner is inside a quoted string.
    pub in_str: bool,
    /// Whether the previous character was a backslash inside a string.
    pub esc: bool,
    /// Characters of the quoted string being read.
    pub current: Seq<char>,
    /// Whether the quoted string being read counts as a key.
    pub reading: bool,
    /// Whether a string opening here would stand in key position: true right
    /// after the object opens and after each depth-1 comma, false once a
    /// depth-1 colon or a value has gone by.
    pub key_pos: bool,
    /// The keys collected so far.
    pub keys: Seq<Seq<char>>,
}

/// One step of the top-level key scanner. Only a quoted string that opens in
/// key position at depth 1 is collected, so member keys are listed and string
/// values never are.
pub open spec fn key_step(st: KeyScan, c: char) -> KeyScan {
    if st.esc {
        KeyScan {
            esc: false,
            current: if st.in_str && st.reading {
                st.current.push(c)
            } else {
                st.current
            },
            ..st
        }
    } else if c == '\\' && st.in_str {
        KeyScan { esc: true, ..st }
    } else if c == '"' {
        if st.in_str {
            KeyScan {
                keys: if st.reading && st.depth == 1 {
                    st.keys.push(st.current)
                } else {
                    st.keys
                },
                in_str: false,
                current: Seq::empty(),
                key_pos: false,
                ..st
            }
        } else if st.depth == 1 {
            KeyScan { reading: st.key_pos, in_str: true, ..st }
        } else {
            st
        }
    } else if (c == '{' || c == '[') && !st.in_str {
        KeyScan {
            depth: st.depth + 1,
            reading: if st.depth + 1 == 1 {
                false
            } else {
                st.reading
            },
            key_pos: if st.depth + 1 == 1 {
                true
            } else {
                st.key_pos
            },
            ..st
        }
    } else if (c == '}' || c == ']') && !st.in_str {
        KeyScan {
            depth: if st.depth > 0 {
                st.depth - 1
            } else {
                st.depth
            },
            key_pos: false,
            ..st
        }
    } else if c == ':' && !st.in_str && st.depth == 1 {
        KeyScan { reading: false, key_pos: false, ..st }
    } else if c == ',' && !st.in_str && st.depth == 1 {
        KeyScan { reading: false, key_pos: true, ..st }
    } else {
        KeyScan {
            current: if st.in_str && st.reading {
                st.current.push(c)
            } else {
                st.current
            },
            ..st
        }
    }
}

/// Run the key scanner from position `i` to the end of the text.
pub open spec fn key_scan(s: Seq<char>, i: int, st: KeyScan) -> Seq<Seq<char>>
    decreases s.len() - i,
{
    if i < 0 || i >= s.len() {
        st.keys
    } else {
        key_scan(s, i + 1, key_step(st, s[i]))
    }
}

/// The depth-1 member keys of a JSON object text, in order of appearance;
/// nested keys and the contents of string values are never listed.
pub open spec fn top_level_keys_spec(source: Seq<char>) -> Seq<Seq<char>> {
    key_scan(
        source,
        0,
        KeyScan {
            depth: 0,
            in_str: false,
            esc: false,
            current: Seq::empty(),
            reading: false,
            key_pos: false,
            keys: Seq::empty(),
        },
    )
}

/// Copy a character vector.
fn copy_chars(v: &Vec<char>) -> (r: Vec<char>)
    ensures
        r@ == v@,
{
    let mut r: Vec<char> = Vec::new();
    let mut i: usize = 0;
    while i < v.len()
        invariant
            i <= v@.len(),
            r@ == v@.take(i as int),
        decreases v@.len() - i,
    {
        r.push(v[i]);
        proof {
            assert(v@.take(i + 1) =~= v@.take(i as int).push(v@[i as int]));
        }
        i = i + 1;
    }
    proof {
        assert(v@.take(v@.len() as int) =~= v@);
    }
    r
}

/// Collect top-level keys from a JSON object text.
pub fn top_level_keys_chars(source: &Vec<char>) -> (r: Vec<Vec<char>>)
    ensures
        r.deep_view() == top_level_keys_spec(source@),
{
    let n: usize = source.len();
    let mut depth: i128 = 0;
    let mut in_str: bool = false;
    let mut esc: bool = false;
    let mut current: Vec<char> = Vec::new();
    let mut reading: bool = false;
    let mut key_pos: bool = false;
    let mut keys: Vec<Vec<char>> = Vec::new();
    let mut i: usize = 0;
    proof {
        assert(current@ =~= Seq::<char>::empty());
        assert(keys.deep_view() =~~= Seq::<Seq<char>>::empty());
    }
    while i < n
        invariant
            n == source@.len(),
            i <= n,
            0 <= depth <= i as int,
            top_level_keys_spec(source@) == key_scan(
                source@,
                i as int,
                KeyScan {
                    depth: depth as int,
                    in_str,
                    esc,
                    current: current@,
                    reading,
                    key_pos,
                    keys: keys.deep_view(),
                },
            ),
        decreases n - i,
    {
        let c: char = source[i];
        let ghost st = KeyScan {
            depth: depth as int,
            in_str,
            esc,
            current: current@,
            reading,
            key_pos,
            keys: keys.deep_view(),
        };
        if esc {
            if in_str && reading {
                current.push(c);
            }
            esc = false;
        } else if c == '\\' && in_str {
            esc = true;
        } else if c == '"' {
            if in_str {
                if reading && depth == 1 {
                    let copied = copy_chars(&current);
                    keys.push(copied);
                }
                in_str = false;
                current = Vec::new();
                key_pos = false;
            } else if depth == 1 {
                reading = key_pos;
                in_str = true;
            }
        } else if (c == '{' || c == '[') && !in_str {
            depth = depth + 1;
            if depth == 1 {
                reading = false;
                key_pos = true;
            }
        } else if (c == '}' || c == ']') && !in_str {
            if depth > 0 {
                depth = depth - 1;
            }
            key_pos = false;
        } else if c == ':' && !in_str && depth == 1 {
            reading = false;
            key_pos = false;
        } else if c == ',' && !in_str && depth == 1 {
            reading = false;
            key_pos = true;
        } else {
            if in_str && reading {
                current.push(c);
            }
        }
        proof {
            assert(keys.deep_view() =~~= key_step(st, c).keys);
            assert(current@ =~= key_step(st, c).current);
            assert(KeyScan {
                depth: depth as int,
                in_str,
                esc,
                current: current@,
                reading,
                key_pos,
                keys: keys.deep_view(),
            } == key_step(st, c));
        }
        i = i + 1;
    }
    keys
}

/// Collect top-level keys from a JSON object text.
pub fn top_level_keys(source: &str) -> (r: Vec<String>)
    ensures
        r.deep_view() == top_level_keys_spec(source@),
{
    let s = chars_of(source);
    let keys = top_level_keys_chars(&s);
    let mut out: Vec<String> = Vec::new();
    let mut i: usize = 0;
    while i < keys.len()
        invariant
            i <= keys@.len(),
            keys@.len() == keys.deep_view().len(),
            out.deep_view() == keys.deep_view().take(i as int),
        decreases keys@.len() - i,
    {
        out.push(chars_to_string(&keys[i]));
        proof {
            assert(keys.deep_view().take(i + 1) =~= keys.deep_view().take(i as int).push(
                keys.deep_view()[i as int],
            ));
            assert(out.deep_view() =~~= keys.deep_view().take(i + 1));
        }
        i = i + 1;
    }
    proof {
        assert(keys.deep_view().take(keys.deep_view().len() as int) =~= keys.deep_view());
    }
    out
}

/// The rendering of the items of a string array, from item `i` on.
pub open spec fn join_from(items: Seq<Seq<char>>, i: int) -> Seq<char>
    decreases items.len() - i,
{
    if i < 0 || i >= items.len() {
        Seq::empty()
    } else {
        (if i > 0 {
            seq![',']
        } else {
            Seq::empty()
        }) + seq!['"'] + escape_seq(items[i]) + seq!['"'] + join_from(items, i + 1)
    }
}

/// The JSON array rendering of a sequence of strings, elements escaped.
pub open spec fn build_string_array_spec(items: Seq<Seq<char>>) -> Seq<char> {
    seq!['['] + join_from(items, 0) + seq![']']
}

/// Build a JSON array from string elements, escaping each.
pub fn build_string_array(items: &Vec<String>) -> (r: String)
    ensures
        r@ == build_string_array_spec(items.deep_view()),
{
    let mut out: Vec<char> = Vec::new();
    out.push('[');
    let ghost iv = items.deep_view();
    let mut i: usize = 0;
    while i < items.len()
        invariant
            iv == items.deep_view(),
            i <= iv.len(),
            iv.len() == items@.len(),
            seq!['['] + join_from(iv, 0) =~= out@ + join_from(iv, i as int),
        decreases iv.len() - i,
    {
        if i > 0 {
            out.push(',');
        }
        out.push('"');
        let item = chars_of(items[i].as_str());
        proof {
            assert(item@ == iv[i as int]);
        }
        push_escaped(&mut out, &item);
        out.push('"');
        i = i + 1;
    }
    out.push(']');
    proof {
        assert(out@ =~= seq!['['] + join_from(iv, 0) + seq![']']);
    }
    chars_to_string(&out)
}

} // verus!
