use crate::env::{opt_view, strings_view};
use crate::error::CondaError;
use vstd::prelude::*;

verus! {

/// Unicode's White_Space property, the one `char::is_whitespace` tests.
pub open spec fn is_space(c: char) -> bool {
    ('\u{9}' <= c <= '\u{d}') || c == ' ' || c == '\u{85}' || c == '\u{a0}' || c == '\u{1680}'
        || ('\u{2000}' <= c <= '\u{200a}') || c == '\u{2028}' || c == '\u{2029}' || c
        == '\u{202f}' || c == '\u{205f}' || c == '\u{3000}'
}

fn is_space_char(c: char) -> (r: bool)
    ensures
        r == is_space(c),
{
    ('\u{9}' <= c && c <= '\u{d}') || c == ' ' || c == '\u{85}' || c == '\u{a0}' || c
        == '\u{1680}' || ('\u{2000}' <= c && c <= '\u{200a}') || c == '\u{2028}' || c
        == '\u{2029}' || c == '\u{202f}' || c == '\u{205f}' || c == '\u{3000}'
}

/// The position of the first line feed in `s` at or after `i`, or the
/// length of `s` when there is none.
pub open spec fn next_newline(s: Seq<char>, i: int) -> int
    decreases s.len() - i,
{
    if i >= s.len() {
        s.len() as int
    } else if s[i] == '\n' {
        i
    } else {
        next_newline(s, i + 1)
    }
}

/// The lines of `s` from position `i` on: the pieces between line feeds,
/// with no empty piece after a final line feed. A carriage return before
/// the line feed stays in its line; it is white space, so that the words of
/// the line are those of the line without it.
pub open spec fn lines_from(s: Seq<char>, i: int) -> Seq<Seq<char>>
    decreases s.len() - i,
    via lines_from_decreases
{
    if i >= s.len() {
        Seq::empty()
    } else {
        let e = next_newline(s, i);
        if e >= s.len() {
            seq![s.subrange(i, e)]
        } else {
            seq![s.subrange(i, e)] + lines_from(s, e + 1)
        }
    }
}

#[via_fn]
proof fn lines_from_decreases(s: Seq<char>, i: int) {
    if i < s.len() {
        lemma_next_newline_bounds(s, i);
    }
}

/// The position of the first character at or after `i` that is not white
/// space, or the length of `l`.
pub open spec fn skip_space(l: Seq<char>, i: int) -> int
    decreases l.len() - i,
{
    if i < l.len() && is_space(l[i]) {
        skip_space(l, i + 1)
    } else {
        i
    }
}

/// The position of the first white-space character at or after `i`, or the
/// length of `l`.
pub open spec fn skip_word(l: Seq<char>, i: int) -> int
    decreases l.len() - i,
{
    if i < l.len() && !is_space(l[i]) {
        skip_word(l, i + 1)
    } else {
        i
    }
}

/// The environment named by one line of the listing: the line's first
/// white-space separated word, where the line has at least two words and
/// the first is not `#`.
pub open spec fn line_entry(l: Seq<char>) -> Option<Seq<char>> {
    let a = skip_space(l, 0);
    let b = skip_word(l, a);
    let c = skip_space(l, b);
    if c < l.len() && l.subrange(a, b) != "#"@ {
        Some(l.subrange(a, b))
    } else {
        None
    }
}

/// An optional name as a sequence of zero or one names.
pub open spec fn entry_seq(o: Option<Seq<char>>) -> Seq<Seq<char>> {
    match o {
        Some(n) => seq![n],
        None => Seq::empty(),
    }
}

/// The environment names of the lines `ls`, in order.
pub open spec fn names_in(ls: Seq<Seq<char>>) -> Seq<Seq<char>>
    decreases ls.len(),
{
    if ls.len() == 0 {
        Seq::empty()
    } else {
        entry_seq(line_entry(ls[0])) + names_in(ls.drop_first())
    }
}

/// The environment names of a listing.
pub open spec fn listed_names(s: Seq<char>) -> Seq<Seq<char>> {
    names_in(lines_from(s, 0))
}

proof fn lemma_next_newline_bounds(s: Seq<char>, i: int)
    requires
        i <= s.len(),
    ensures
        i <= next_newline(s, i) <= s.len(),
    decreases s.len() - i,
{
    if i < s.len() && s[i] != '\n' {
        lemma_next_newline_bounds(s, i + 1);
    }
}

proof fn lemma_skip_bounds(l: Seq<char>, i: int)
    requires
        0 <= i <= l.len(),
    ensures
        i <= skip_space(l, i) <= l.len(),
        i <= skip_word(l, i) <= l.len(),
    decreases l.len() - i,
{
    if i < l.len() {
        lemma_skip_bounds(l, i + 1);
    }
}

fn find_newline(s: &str, from: usize, len: usize) -> (r: usize)
    requires
        len == s@.len(),
        from <= len,
    ensures
        r == next_newline(s@, from as int),
        from <= r <= len,
{
    let mut i: usize = from;
    while i < len && s.get_char(i) != '\n'
        invariant
            from <= i <= len,
            len == s@.len(),
            next_newline(s@, i as int) == next_newline(s@, from as int),
        decreases len - i,
    {
        i = i + 1;
    }
    i
}

fn skip_space_at(l: &str, from: usize, len: usize) -> (r: usize)
    requires
        len == l@.len(),
        from <= len,
    ensures
        r == skip_space(l@, from as int),
        from <= r <= len,
{
    let mut i: usize = from;
    while i < len && is_space_char(l.get_char(i))
        invariant
            from <= i <= len,
            len == l@.len(),
            skip_space(l@, i as int) == skip_space(l@, from as int),
        decreases len - i,
    {
        i = i + 1;
    }
    i
}

fn skip_word_at(l: &str, from: usize, len: usize) -> (r: usize)
    requires
        len == l@.len(),
        from <= len,
    ensures
        r == skip_word(l@, from as int),
        from <= r <= len,
{
    let mut i: usize = from;
    while i < len && !is_space_char(l.get_char(i))
        invariant
            from <= i <= len,
            len == l@.len(),
            skip_word(l@, i as int) == skip_word(l@, from as int),
        decreases len - i,
    {
        i = i + 1;
    }
    i
}

fn entry_of_line(l: &str) -> (r: Option<String>)
    ensures
        opt_view(r) == line_entry(l@),
{
    let len = l.unicode_len();
    let a = skip_space_at(l, 0, len);
    let b = skip_word_at(l, a, len);
    let c = skip_space_at(l, b, len);
    if c < len {
        let word = l.substring_char(a, b).to_owned();
        let hash = String::from_str("#");
        if word == hash {
            None
        } else {
            Some(word)
        }
    } else {
        None
    }
}

/// Reads the output of the environment listing: for each line with at
/// least two words whose first word is not `#`, that first word, in the
/// order of the lines.
pub fn conda_env_list(stdout: &str) -> (r: Vec<String>)
    ensures
        strings_view(r@) == listed_names(stdout@),
{
    let len = stdout.unicode_len();
    let mut out: Vec<String> = Vec::new();
    let mut i: usize = 0;
    while i < len
        invariant
            i <= len,
            len == stdout@.len(),
            strings_view(out@) + names_in(lines_from(stdout@, i as int)) == listed_names(
                stdout@,
            ),
        decreases len - i,
    {
        let e = find_newline(stdout, i, len);
        let line = stdout.substring_char(i, e);
        let entry = entry_of_line(line);
        let next: usize = if e < len {
            e + 1
        } else {
            len
        };
        proof {
            let s = stdout@;
            let ls = lines_from(s, i as int);
            assert(ls.drop_first() =~= lines_from(s, next as int));
            assert(ls[0] == line@);
        }
        match entry {
            Some(n) => {
                let ghost before = strings_view(out@);
                out.push(n);
                proof {
                    assert(strings_view(out@) =~= before + seq![n@]);
                }
            },
            None => {},
        }
        proof {
            let s = stdout@;
            assert(strings_view(out@) + names_in(lines_from(s, next as int)) =~= listed_names(
                s,
            ));
        }
        i = next;
    }
    proof {
        assert(strings_view(out@) =~= listed_names(stdout@));
    }
    out
}

pub(crate) fn copy_strings(v: &Vec<String>) -> (r: Vec<String>)
    ensures
        strings_view(r@) == strings_view(v@),
{
    let mut r: Vec<String> = Vec::new();
    let mut i: usize = 0;
    while i < v.len()
        invariant
            i <= v.len(),
            r@.len() == i,
            forall|k: int| 0 <= k < i ==> (#[trigger] r@[k])@ == v@[k]@,
        decreases v.len() - i,
    {
        r.push(v[i].clone());
        i = i + 1;
    }
    proof {
        assert(strings_view(r@) =~= strings_view(v@));
    }
    r
}

/// Whether `env_name` is one of the listed environment names.
pub fn env_exists(env_name: &str, available: &Vec<String>) -> (r: bool)
    ensures
        r == strings_view(available@).contains(env_name@),
{
    let mut i: usize = 0;
    while i < available.len()
        invariant
            i <= available.len(),
            forall|k: int| 0 <= k < i ==> available@[k]@ != env_name@,
        decreases available.len() - i,
    {
        let name = String::from_str(env_name);
        if available[i] == name {
            proof {
                assert(strings_view(available@)[i as int] == env_name@);
            }
            return true;
        }
        i = i + 1;
    }
    proof {
        if strings_view(available@).contains(env_name@) {
            let k = choose|k: int|
                0 <= k < strings_view(available@).len() && strings_view(available@)[k]
                    == env_name@;
            assert(available@[k]@ == env_name@);
        }
    }
    false
}

/// The error for an unknown environment: the requested name and the full
/// listing, in its order.
pub fn env_not_found(env_name: &str, available: &Vec<String>) -> (e: CondaError)
    ensures
        e matches CondaError::EnvNotFound(n, l) && n@ == env_name@ && strings_view(l@)
            == strings_view(available@),
{
    CondaError::EnvNotFound(String::from_str(env_name), copy_strings(available))
}

} // verus!
