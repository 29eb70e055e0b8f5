//! Finding the system-audio monitor source in the listing that
//! `pactl list sources` prints.
use crate::text::chars_of;
use vstd::prelude::*;
use vstd::string::StrSliceExecFns;

verus! {

/// Unicode white space, the characters `char::is_whitespace` accepts.
pub open spec fn is_ws(c: char) -> bool {
    ('\u{9}' <= c && c <= '\u{d}') || c == ' ' || c == '\u{85}' || c == '\u{a0}' || c
        == '\u{1680}' || ('\u{2000}' <= c && c <= '\u{200a}') || c == '\u{2028}' || c == '\u{2029}'
        || c == '\u{202f}' || c == '\u{205f}' || c == '\u{3000}'
}

fn is_whitespace(c: char) -> (r: bool)
    ensures
        r == is_ws(c),
{
    ('\u{9}' <= c && c <= '\u{d}') || c == ' ' || c == '\u{85}' || c == '\u{a0}' || c
        == '\u{1680}' || ('\u{2000}' <= c && c <= '\u{200a}') || c == '\u{2028}' || c == '\u{2029}'
        || c == '\u{202f}' || c == '\u{205f}' || c == '\u{3000}'
}

/// The first index from `i` on that is not white space (or the end).
pub open spec fn skip_ws(s: Seq<char>, i: int) -> int
    decreases s.len() - i,
{
    if 0 <= i < s.len() && is_ws(s[i]) {
        skip_ws(s, i + 1)
    } else {
        i
    }
}

/// The first index from `i` on that is white space (or the end).
pub open spec fn skip_word(s: Seq<char>, i: int) -> int
    decreases s.len() - i,
{
    if 0 <= i < s.len() && !is_ws(s[i]) {
        skip_word(s, i + 1)
    } else {
        i
    }
}

/// The first index from `i` on that ends a line (or the end).
pub open spec fn line_end(s: Seq<char>, i: int) -> int
    decreases s.len() - i,
{
    if 0 <= i < s.len() && s[i] != '\n' {
        line_end(s, i + 1)
    } else {
        i
    }
}

/// The second white-space-separated word of `line`, if it has one.
pub open spec fn second_word(line: Seq<char>) -> Option<Seq<char>> {
    let a = skip_ws(line, 0);
    let b = skip_word(line, a);
    let c = skip_ws(line, b);
    if c < line.len() {
        Some(line.subrange(c, skip_word(line, c)))
    } else {
        None
    }
}

/// Whether `line`, leading white space aside, starts with `Name:`.
pub open spec fn is_name_line(line: Seq<char>) -> bool {
    let a = skip_ws(line, 0);
    a + 5 <= line.len() && line.subrange(a, a + 5) == "Name:"@
}

pub open spec fn contains(s: Seq<char>, w: Seq<char>) -> bool {
    exists|i: int| 0 <= i && i + w.len() <= s.len() && #[trigger] s.subrange(i, i + w.len()) == w
}

/// Why no monitor source was found.
#[derive(Debug, Clone, Copy, PartialEq, Eq, Structural)]
pub enum MonitorError {
    /// A `Name:` line with no name after it.
    Unparsable,
    /// No source's name holds `monitor`.
    NotFound,
}

/// The answer for the listing `s` from the line starting at `start` on:
/// the name on the first `Name:` line whose name holds `monitor`; an error
/// at a `Name:` line without a name, or at the end.
pub open spec fn monitor_from(s: Seq<char>, start: int) -> Result<Seq<char>, MonitorError>
    decreases s.len() - start,
{
    let e = line_end(s, start);
    let line = s.subrange(start, e);
    let next = if 0 <= start <= e && e < s.len() {
        monitor_from(s, e + 1)
    } else {
        Err(MonitorError::NotFound)
    };
    if is_name_line(line) {
        match second_word(line) {
            None => Err(MonitorError::Unparsable),
            Some(w) => if contains(w, "monitor"@) {
                Ok(w)
            } else {
                next
            },
        }
    } else {
        next
    }
}

proof fn lemma_skip_bounds(s: Seq<char>, i: int)
    requires
        0 <= i <= s.len(),
    ensures
        i <= skip_ws(s, i) <= s.len(),
        i <= skip_word(s, i) <= s.len(),
        i <= line_end(s, i) <= s.len(),
    decreases s.len() - i,
{
    if i < s.len() {
        lemma_skip_bounds(s, i + 1);
    }
}

fn skip_ws_exec(s: &Vec<char>, i: usize) -> (r: usize)
    requires
        i <= s@.len(),
    ensures
        r == skip_ws(s@, i as int),
{
    let mut k = i;
    while k < s.len() && is_whitespace(s[k])
        invariant
            i <= k <= s@.len(),
            skip_ws(s@, k as int) == skip_ws(s@, i as int),
        decreases s@.len() - k,
    {
        k += 1;
    }
    k
}

fn skip_word_exec(s: &Vec<char>, i: usize) -> (r: usize)
    requires
        i <= s@.len(),
    ensures
        r == skip_word(s@, i as int),
{
    let mut k = i;
    while k < s.len() && !is_whitespace(s[k])
        invariant
            i <= k <= s@.len(),
            skip_word(s@, k as int) == skip_word(s@, i as int),
        decreases s@.len() - k,
    {
        k += 1;
    }
    k
}

fn line_end_exec(s: &Vec<char>, i: usize) -> (r: usize)
    requires
        i <= s@.len(),
    ensures
        r == line_end(s@, i as int),
{
    let mut k = i;
    while k < s.len() && s[k] != '\n'
        invariant
            i <= k <= s@.len(),
            line_end(s@, k as int) == line_end(s@, i as int),
        decreases s@.len() - k,
    {
        k += 1;
    }
    k
}

fn copy_range(s: &Vec<char>, from: usize, to: usize) -> (r: Vec<char>)
    requires
        from <= to <= s@.len(),
    ensures
        r@ == s@.subrange(from as int, to as int),
{
    let mut out: Vec<char> = Vec::new();
    let mut k = from;
    while k < to
        invariant
            from <= k <= to,
            to <= s@.len(),
            out@ == s@.subrange(from as int, k as int),
        decreases to - k,
    {
        out.push(s[k]);
        k += 1;
        assert(out@ =~= s@.subrange(from as int, k as int));
    }
    out
}

fn matches_at(s: &Vec<char>, i: usize, w: &Vec<char>) -> (r: bool)
    requires
        i + w@.len() <= s@.len(),
    ensures
        r == (s@.subrange(i as int, i + w@.len()) == w@),
{
    let n = s.len();
    let mut k: usize = 0;
    while k < w.len()
        invariant
            n == s@.len(),
            i + w@.len() <= s@.len(),
            0 <= k <= w@.len(),
            forall|j: int| 0 <= j < k ==> s@[i + j] == w@[j],
        decreases w@.len() - k,
    {
        assert(i + k < n);
        if s[i + k] != w[k] {
            assert(s@.subrange(i as int, i + w@.len())[k as int] != w@[k as int]);
            return false;
        }
        k += 1;
    }
    assert(s@.subrange(i as int, i + w@.len()) =~= w@);
    true
}

fn contains_exec(s: &Vec<char>, w: &Vec<char>) -> (r: bool)
    ensures
        r == contains(s@, w@),
{
    if w.len() > s.len() {
        return false;
    }
    let last = s.len() - w.len();
    let mut i: usize = 0;
    loop
        invariant
            last + w@.len() == s@.len(),
            0 <= i <= last,
            forall|j: int| 0 <= j < i ==> #[trigger] s@.subrange(j, j + w@.len()) != w@,
        decreases last - i,
    {
        if matches_at(s, i, w) {
            return true;
        }
        if i == last {
            return false;
        }
        i += 1;
    }
}

/// The name of the first source in the listing `output` of `pactl list
/// sources` whose name holds `monitor`.
pub fn pulseaudio_monitor_name(output: &str) -> (r: Result<String, MonitorError>)
    ensures
        r matches Ok(name) ==> monitor_from(output@, 0) == Ok::<Seq<char>, MonitorError>(name@),
        r matches Err(e) ==> monitor_from(output@, 0) == Err::<Seq<char>, MonitorError>(e),
{
    let cs = chars_of(output);
    let name_tag = chars_of("Name:");
    let monitor = chars_of("monitor");
    proof {
        reveal_strlit("Name:");
        reveal_strlit("monitor");
    }
    let n = cs.len();
    let mut start: usize = 0;
    loop
        invariant
            cs@ == output@,
            n == cs@.len(),
            name_tag@ == "Name:"@,
            monitor@ == "monitor"@,
            name_tag@.len() == 5,
            0 <= start <= n,
            monitor_from(cs@, start as int) == monitor_from(cs@, 0),
        decreases n - start,
    {
        let e = line_end_exec(&cs, start);
        proof {
            lemma_skip_bounds(cs@, start as int);
        }
        let line = copy_range(&cs, start, e);
        let a = skip_ws_exec(&line, 0);
        proof {
            lemma_skip_bounds(line@, 0);
        }
        let named = line.len() - a >= 5 && matches_at(&line, a, &name_tag);
        if named {
            let b = skip_word_exec(&line, a);
            proof {
                lemma_skip_bounds(line@, a as int);
            }
            let c = skip_ws_exec(&line, b);
            proof {
                lemma_skip_bounds(line@, b as int);
            }
            if c >= line.len() {
                return Err(MonitorError::Unparsable);
            }
            let d = skip_word_exec(&line, c);
            proof {
                lemma_skip_bounds(line@, c as int);
            }
            let word = copy_range(&line, c, d);
            if contains_exec(&word, &monitor) {
                let name = output.substring_char(start + c, start + d).to_owned();
                proof {
                    assert(line@ == cs@.subrange(start as int, e as int));
                    assert(is_name_line(line@));
                    assert(second_word(line@) == Some(word@));
                    assert(name@ =~= word@);
                }
                return Ok(name);
            }
        }
        if e >= n {
            return Err(MonitorError::NotFound);
        }
        start = e + 1;
    }
}

} // verus!
