//! The layout list: which lines of the list file name a layout, and where a
//! layout's file is read from.
use vstd::prelude::*;
use crate::matcher::string_views;

verus! {

/// Whether `c` has the Unicode `White_Space` property, the characters that
/// `char::is_whitespace` accepts.
pub open spec fn is_white_space(c: char) -> bool {
    let u = c as u32;
    (0x09 <= u <= 0x0d) || u == 0x20 || u == 0x85 || u == 0xa0 || u == 0x1680 || (0x2000 <= u
        <= 0x200a) || u == 0x2028 || u == 0x2029 || u == 0x202f || u == 0x205f || u == 0x3000
}

pub fn white_space(c: char) -> (r: bool)
    ensures
        r == is_white_space(c),
{
    let u = c as u32;
    (0x09 <= u && u <= 0x0d) || u == 0x20 || u == 0x85 || u == 0xa0 || u == 0x1680 || (0x2000 <= u
        && u <= 0x200a) || u == 0x2028 || u == 0x2029 || u == 0x202f || u == 0x205f || u == 0x3000
}

/// The first character of `s` that is not white space, if any.
pub open spec fn first_non_blank(s: Seq<char>) -> Option<char>
    decreases s.len(),
{
    if s.len() == 0 {
        None
    } else if is_white_space(s[0]) {
        first_non_blank(s.drop_first())
    } else {
        Some(s[0])
    }
}

/// A line names a layout unless it is blank or, after its leading white
/// space, starts with `#`.
pub open spec fn is_layout_line(s: Seq<char>) -> bool {
    match first_non_blank(s) {
        None => false,
        Some(c) => c != '#',
    }
}

/// Whether the line `line` names a layout.
pub fn layout_line(line: &str) -> (r: bool)
    ensures
        r == is_layout_line(line@),
{
    let n = line.unicode_len();
    let mut i: usize = 0;
    assert(line@.subrange(0, n as int) =~= line@);
    while i < n
        invariant
            n == line@.len(),
            i <= n,
            forall|j: int| 0 <= j < i ==> is_white_space(#[trigger] line@[j]),
            first_non_blank(line@) == first_non_blank(line@.subrange(i as int, n as int)),
        decreases n - i,
    {
        let c = line.get_char(i);
        if !white_space(c) {
            assert(line@.subrange(i as int, n as int)[0] == c);
            return c != '#';
        }
        assert(line@.subrange(i as int, n as int).drop_first() =~= line@.subrange(
            i as int + 1,
            n as int,
        ));
        i = i + 1;
    }
    false
}

/// The lines of the layout list that name a layout, in their order.
pub fn filter_layout_lines(lines: &Vec<String>) -> (r: Vec<String>)
    ensures
        string_views(r@) == string_views(lines@).filter(|s: Seq<char>| is_layout_line(s)),
{
    let ghost pred = |s: Seq<char>| is_layout_line(s);
    let mut out: Vec<String> = Vec::new();
    let mut i: usize = 0;
    while i < lines.len()
        invariant
            i <= lines.len(),
            pred == (|s: Seq<char>| is_layout_line(s)),
            string_views(out@) == string_views(lines@.subrange(0, i as int)).filter(pred),
        decreases lines.len() - i,
    {
        let keep = layout_line(lines[i].as_str());
        proof {
            let prefix = lines@.subrange(0, i as int);
            let next = lines@.subrange(0, i as int + 1);
            assert(next =~= prefix.push(lines@[i as int]));
            assert(string_views(next) =~= string_views(prefix).push(lines@[i as int]@));
            assert(string_views(next).drop_last() =~= string_views(prefix));
            reveal(Seq::filter);
        }
        let ghost before = out@;
        if keep {
            let l = lines[i].clone();
            out.push(l);
            assert(string_views(out@) =~= string_views(before).push(l@));
        }
        i = i + 1;
    }
    assert(lines@.subrange(0, lines@.len() as int) =~= lines@);
    out
}

/// The path a layout is read from: the candidate under the host's mount.
pub open spec fn layout_file_path(candidate: Seq<char>) -> Seq<char> {
    "/host/"@ + candidate
}

pub fn layout_path(candidate: &str) -> (r: String)
    ensures
        r@ == layout_file_path(candidate@),
{
    let root = String::from_str("/host/");
    root.concat(candidate)
}

/// Whether a configuration value turns replace mode on: only `"true"` does.
pub open spec fn is_enabled_value(v: Option<Seq<char>>) -> bool {
    v == Some("true"@)
}

pub fn enabled_value(v: Option<&String>) -> (r: bool)
    ensures
        r == is_enabled_value(
            match v {
                Some(s) => Some(s@),
                None => None,
            },
        ),
{
    match v {
        Some(s) => {
            let t = String::from_str("true");
            *s == t
        },
        None => false,
    }
}

} // verus!
