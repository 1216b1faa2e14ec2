//! Extraction of the class name from Java source text.
//!
//! The source file of a Java submission must be named after its public class,
//! so the adapter scans the code line by line: on the first line that contains
//! the text `public class`, the whitespace-delimited token right after the
//! `class` token is taken, with brace and space characters stripped from both
//! ends. The scan is purely textual; it does not parse the language.

use vstd::prelude::*;
use vstd::slice::slice_subrange;
use vstd::slice::slice_to_vec;
use vstd::string::StrSliceExecFns;
use vstd::string::StringExecFns;
use crate::text::chars_of;

verus! {

/// ASCII whitespace: the token separators recognised within a line.
pub open spec fn is_space(c: char) -> bool {
    c == ' ' || c == '\t' || c == '\n' || c == '\r' || c == '\x0b' || c == '\x0c'
}

/// Characters stripped from both ends of the extracted identifier: braces
/// and spaces.
pub open spec fn is_trim_char(c: char) -> bool {
    c == '{' || c == '}' || c == ' '
}

/// The first position at or after `i` holding a non-space character, or the
/// length of `s` if there is none.
pub open spec fn tok_start(s: Seq<char>, i: int) -> int
    decreases s.len() - i,
{
    if i < 0 || i >= s.len() {
        s.len() as int
    } else if is_space(s[i]) {
        tok_start(s, i + 1)
    } else {
        i
    }
}

/// The first position at or after `i` holding a space character, or the
/// length of `s` if there is none.
pub open spec fn tok_end(s: Seq<char>, i: int) -> int
    decreases s.len() - i,
{
    if i < 0 || i >= s.len() {
        s.len() as int
    } else if is_space(s[i]) {
        i
    } else {
        tok_end(s, i + 1)
    }
}

/// The first position at or after `i` holding a newline, or the length of `s`
/// if there is none.
pub open spec fn line_break(s: Seq<char>, i: int) -> int
    decreases s.len() - i,
{
    if i < 0 || i >= s.len() {
        s.len() as int
    } else if s[i] == '\n' {
        i
    } else {
        line_break(s, i + 1)
    }
}

/// The first position at or after `i` holding a character that trimming
/// keeps, or the length of `s` if there is none.
pub open spec fn trim_start(s: Seq<char>, i: int) -> int
    decreases s.len() - i,
{
    if i < 0 || i >= s.len() {
        s.len() as int
    } else if is_trim_char(s[i]) {
        trim_start(s, i + 1)
    } else {
        i
    }
}

/// One past the last position before `i` holding a character that trimming
/// keeps, or 0 if there is none.
pub open spec fn trim_end(s: Seq<char>, i: int) -> int
    decreases i,
{
    if i <= 0 || i > s.len() {
        0
    } else if is_trim_char(s[i - 1]) {
        trim_end(s, i - 1)
    } else {
        i
    }
}

/// `s` with brace and space characters stripped from both ends.
pub open spec fn spec_trim(s: Seq<char>) -> Seq<char> {
    let a = trim_start(s, 0);
    let b = trim_end(s, s.len() as int);
    if a < b {
        s.subrange(a, b)
    } else {
        Seq::empty()
    }
}

/// `needle` occurs in `hay` starting at position `i`.
pub open spec fn contains_at(hay: Seq<char>, needle: Seq<char>, i: int) -> bool {
    0 <= i && i + needle.len() <= hay.len() && hay.subrange(i, i + needle.len()) == needle
}

/// `needle` occurs somewhere in `hay`.
pub open spec fn seq_contains(hay: Seq<char>, needle: Seq<char>) -> bool {
    exists|i: int| contains_at(hay, needle, i)
}

pub proof fn lemma_tok_start_bounds(s: Seq<char>, i: int)
    requires
        0 <= i <= s.len(),
    ensures
        i <= tok_start(s, i) <= s.len(),
        tok_start(s, i) < s.len() ==> !is_space(s[tok_start(s, i)]),
    decreases s.len() - i,
{
    if i < s.len() && is_space(s[i]) {
        lemma_tok_start_bounds(s, i + 1);
    }
}

pub proof fn lemma_tok_end_bounds(s: Seq<char>, i: int)
    requires
        0 <= i <= s.len(),
    ensures
        i <= tok_end(s, i) <= s.len(),
        i < s.len() && !is_space(s[i]) ==> tok_end(s, i) >= i + 1,
    decreases s.len() - i,
{
    if i < s.len() && !is_space(s[i]) {
        lemma_tok_end_bounds(s, i + 1);
    }
}

pub proof fn lemma_line_break_bounds(s: Seq<char>, i: int)
    requires
        0 <= i <= s.len(),
    ensures
        i <= line_break(s, i) <= s.len(),
    decreases s.len() - i,
{
    if i < s.len() && s[i] != '\n' {
        lemma_line_break_bounds(s, i + 1);
    }
}

/// The start of the first whitespace-delimited token at or after `i` that
/// equals `class`, or -1 if there is none.
pub open spec fn class_tok_start(s: Seq<char>, i: int) -> int
    decreases s.len() - i,
    via class_tok_start_decreases
{
    let a = tok_start(s, i);
    if a >= s.len() {
        -1
    } else {
        let b = tok_end(s, a);
        if s.subrange(a, b) == "class"@ {
            a
        } else {
            class_tok_start(s, b)
        }
    }
}

#[via_fn]
proof fn class_tok_start_decreases(s: Seq<char>, i: int) {
    if 0 <= i <= s.len() {
        lemma_tok_start_bounds(s, i);
        let a = tok_start(s, i);
        if a < s.len() {
            lemma_tok_end_bounds(s, a);
        }
    }
}

/// The identifier extracted from one line: defined when the line contains the
/// text `public class` and holds a token `class` that a further token
/// follows.
pub open spec fn line_class_name(line: Seq<char>) -> Option<Seq<char>> {
    if !seq_contains(line, "public class"@) {
        None
    } else {
        let a = class_tok_start(line, 0);
        if a < 0 {
            None
        } else {
            let c = tok_start(line, tok_end(line, a));
            if c >= line.len() {
                None
            } else {
                Some(spec_trim(line.subrange(c, tok_end(line, c))))
            }
        }
    }
}

/// The class name extracted from the lines of `s` starting at position `i`:
/// the answer of the first line, at or after `i`, whose own extraction is
/// defined.
pub open spec fn extract_from(s: Seq<char>, i: int) -> Option<Seq<char>>
    decreases s.len() - i,
    via extract_from_decreases
{
    if i < 0 || i > s.len() {
        None
    } else {
        let e = line_break(s, i);
        let r = line_class_name(s.subrange(i, e));
        if r is Some {
            r
        } else if e >= s.len() {
            None
        } else {
            extract_from(s, e + 1)
        }
    }
}

#[via_fn]
proof fn extract_from_decreases(s: Seq<char>, i: int) {
    if 0 <= i <= s.len() {
        lemma_line_break_bounds(s, i);
    }
}

/// The class name the adapter uses for a Java submission, if the textual scan
/// finds one.
pub open spec fn spec_extract_java_class_name(s: Seq<char>) -> Option<Seq<char>> {
    extract_from(s, 0)
}

fn is_space_char(c: char) -> (r: bool)
    ensures
        r == is_space(c),
{
    c == ' ' || c == '\t' || c == '\n' || c == '\r' || c == '\x0b' || c == '\x0c'
}

fn is_trim_char_exec(c: char) -> (r: bool)
    ensures
        r == is_trim_char(c),
{
    c == '{' || c == '}' || c == ' '
}

fn scan_tok_start(cs: &Vec<char>, i: usize) -> (r: usize)
    requires
        i <= cs@.len(),
    ensures
        r as int == tok_start(cs@, i as int),
        i <= r <= cs@.len(),
{
    let n: usize = cs.len();
    let mut j: usize = i;
    while j < n
        invariant
            i <= j <= n,
            n == cs@.len(),
            tok_start(cs@, i as int) == tok_start(cs@, j as int),
        decreases n - j,
    {
        if !is_space_char(cs[j]) {
            return j;
        }
        j = j + 1;
    }
    n
}

fn scan_tok_end(cs: &Vec<char>, i: usize) -> (r: usize)
    requires
        i <= cs@.len(),
    ensures
        r as int == tok_end(cs@, i as int),
        i <= r <= cs@.len(),
{
    let n: usize = cs.len();
    let mut j: usize = i;
    while j < n
        invariant
            i <= j <= n,
            n == cs@.len(),
            tok_end(cs@, i as int) == tok_end(cs@, j as int),
        decreases n - j,
    {
        if is_space_char(cs[j]) {
            return j;
        }
        j = j + 1;
    }
    n
}

fn scan_line_break(cs: &Vec<char>, i: usize) -> (r: usize)
    requires
        i <= cs@.len(),
    ensures
        r as int == line_break(cs@, i as int),
        i <= r <= cs@.len(),
{
    let n: usize = cs.len();
    let mut j: usize = i;
    while j < n
        invariant
            i <= j <= n,
            n == cs@.len(),
            line_break(cs@, i as int) == line_break(cs@, j as int),
        decreases n - j,
    {
        if cs[j] == '\n' {
            return j;
        }
        j = j + 1;
    }
    n
}

fn scan_trim_start(cs: &Vec<char>, i: usize) -> (r: usize)
    requires
        i <= cs@.len(),
    ensures
        r as int == trim_start(cs@, i as int),
        i <= r <= cs@.len(),
{
    let n: usize = cs.len();
    let mut j: usize = i;
    while j < n
        invariant
            i <= j <= n,
            n == cs@.len(),
            trim_start(cs@, i as int) == trim_start(cs@, j as int),
        decreases n - j,
    {
        if !is_trim_char_exec(cs[j]) {
            return j;
        }
        j = j + 1;
    }
    n
}

fn scan_trim_end(cs: &Vec<char>) -> (r: usize)
    ensures
        r as int == trim_end(cs@, cs@.len() as int),
        r <= cs@.len(),
{
    let mut j: usize = cs.len();
    loop
        invariant
            j <= cs@.len(),
            trim_end(cs@, cs@.len() as int) == trim_end(cs@, j as int),
        decreases j,
    {
        if j == 0 {
            return 0;
        }
        if !is_trim_char_exec(cs[j - 1]) {
            return j;
        }
        j = j - 1;
    }
}

fn range_matches(cs: &Vec<char>, a: usize, b: usize, pat: &Vec<char>) -> (r: bool)
    requires
        a <= b <= cs@.len(),
    ensures
        r == (cs@.subrange(a as int, b as int) == pat@),
{
    let m: usize = pat.len();
    if b - a != m {
        proof {
            assert(cs@.subrange(a as int, b as int).len() != pat@.len());
        }
        return false;
    }
    let mut k: usize = 0;
    while k < m
        invariant
            k <= m,
            m == pat@.len(),
            a <= b <= cs@.len(),
            b - a == m,
            forall|t: int| 0 <= t < k ==> cs@[a + t] == pat@[t],
        decreases m - k,
    {
        if cs[a + k] != pat[k] {
            proof {
                assert(cs@.subrange(a as int, b as int)[k as int] == cs@[a + k]);
            }
            return false;
        }
        k = k + 1;
    }
    proof {
        assert(cs@.subrange(a as int, b as int) =~= pat@);
    }
    true
}

fn vec_contains(hay: &Vec<char>, pat: &Vec<char>) -> (r: bool)
    ensures
        r == seq_contains(hay@, pat@),
{
    let n: usize = hay.len();
    let m: usize = pat.len();
    if m == 0 {
        proof {
            assert(hay@.subrange(0, 0) =~= pat@);
            assert(contains_at(hay@, pat@, 0));
        }
        return true;
    }
    if m > n {
        proof {
            assert(!seq_contains(hay@, pat@)) by {
                if seq_contains(hay@, pat@) {
                    let i = choose|i: int| contains_at(hay@, pat@, i);
                    assert(i + pat@.len() <= hay@.len());
                }
            }
        }
        return false;
    }
    let mut i: usize = 0;
    while i <= n - m
        invariant
            1 <= m <= n,
            n == hay@.len(),
            m == pat@.len(),
            i <= n - m + 1,
            forall|t: int| 0 <= t < i ==> !contains_at(hay@, pat@, t),
        decreases n - m - i + 1,
    {
        if range_matches(hay, i, i + m, pat) {
            proof {
                assert(contains_at(hay@, pat@, i as int));
            }
            return true;
        }
        proof {
            assert(!contains_at(hay@, pat@, i as int));
        }
        i = i + 1;
    }
    proof {
        assert(!seq_contains(hay@, pat@)) by {
            if seq_contains(hay@, pat@) {
                let t = choose|t: int| contains_at(hay@, pat@, t);
                assert(0 <= t && t + m <= n);
                assert(!contains_at(hay@, pat@, t));
            }
        }
    }
    false
}

fn scan_class_tok(line: &Vec<char>, pat_class: &Vec<char>) -> (r: Option<usize>)
    requires
        pat_class@ == "class"@,
    ensures
        match r {
            Some(a) => class_tok_start(line@, 0) == a as int && a < line@.len(),
            None => class_tok_start(line@, 0) == -1,
        },
{
    let n: usize = line.len();
    let mut i: usize = 0;
    loop
        invariant
            i <= n,
            n == line@.len(),
            pat_class@ == "class"@,
            class_tok_start(line@, 0) == class_tok_start(line@, i as int),
        decreases n - i,
    {
        let a = scan_tok_start(line, i);
        if a >= n {
            return None;
        }
        let b = scan_tok_end(line, a);
        if range_matches(line, a, b, pat_class) {
            return Some(a);
        }
        proof {
            lemma_tok_start_bounds(line@, i as int);
            lemma_tok_end_bounds(line@, a as int);
        }
        i = b;
    }
}

/// Scans Java source text for the public class name: on the first line that
/// contains the text `public class`, the token right after the `class` token,
/// trimmed of braces and spaces. `None` when no line yields a name.
pub fn extract_java_class_name(code: &str) -> (r: Option<String>)
    ensures
        match r {
            Some(name) => spec_extract_java_class_name(code@) == Some(name@),
            None => spec_extract_java_class_name(code@) is None,
        },
{
    let cs: Vec<char> = chars_of(code);
    let pat_pc: Vec<char> = chars_of("public class");
    let pat_class: Vec<char> = chars_of("class");
    let n: usize = cs.len();
    let mut i: usize = 0;
    loop
        invariant
            i <= n,
            n == cs@.len(),
            cs@ == code@,
            pat_pc@ == "public class"@,
            pat_class@ == "class"@,
            spec_extract_java_class_name(code@) == extract_from(cs@, i as int),
        decreases n - i,
    {
        let e = scan_line_break(&cs, i);
        let line: Vec<char> = slice_to_vec(slice_subrange(cs.as_slice(), i, e));
        proof {
            assert(line@ == cs@.subrange(i as int, e as int));
        }
        if vec_contains(&line, &pat_pc) {
            if let Some(a) = scan_class_tok(&line, &pat_class) {
                proof {
                    lemma_tok_end_bounds(line@, a as int);
                }
                let b = scan_tok_end(&line, a);
                let c = scan_tok_start(&line, b);
                if c < line.len() {
                    let d = scan_tok_end(&line, c);
                    let tok: Vec<char> = slice_to_vec(slice_subrange(line.as_slice(), c, d));
                    proof {
                        assert(tok@ == line@.subrange(c as int, d as int));
                    }
                    let ts = scan_trim_start(&tok, 0);
                    let te = scan_trim_end(&tok);
                    if ts < te {
                        let name = code.substring_char(i + c + ts, i + c + te);
                        proof {
                            assert(name@ =~= tok@.subrange(ts as int, te as int));
                            assert(line_class_name(line@) == Some(spec_trim(tok@)));
                            assert(spec_trim(tok@) == tok@.subrange(ts as int, te as int));
                        }
                        return Some(String::from_str(name));
                    } else {
                        proof {
                            assert(line_class_name(line@) == Some(spec_trim(tok@)));
                            assert(spec_trim(tok@) =~= Seq::<char>::empty());
                        }
                        let empty = String::new();
                        return Some(empty);
                    }
                }
            }
        }
        proof {
            assert(line_class_name(line@) is None);
        }
        if e >= n {
            return None;
        }
        i = e + 1;
    }
}

} // verus!
