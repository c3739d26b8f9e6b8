//! The control-input command: one line of text, trimmed of surrounding
//! whitespace, means "skip" exactly when it is the literal word `skip`.

use vstd::prelude::*;

verus! {

/// The whitespace characters the control input may carry around a command:
/// spaces, tabs, and line endings.
pub open spec fn spec_is_space(c: char) -> bool {
    c == ' ' || c == '\t' || c == '\n' || c == '\r'
}

fn is_space_char(c: char) -> (r: bool)
    ensures
        r == spec_is_space(c),
{
    c == ' ' || c == '\t' || c == '\n' || c == '\r'
}

/// The line with its leading whitespace removed.
pub open spec fn spec_trim_front(s: Seq<char>) -> Seq<char>
    decreases s.len(),
{
    if s.len() > 0 && spec_is_space(s.first()) {
        spec_trim_front(s.drop_first())
    } else {
        s
    }
}

/// The line with its trailing whitespace removed.
pub open spec fn spec_trim_back(s: Seq<char>) -> Seq<char>
    decreases s.len(),
{
    if s.len() > 0 && spec_is_space(s.last()) {
        spec_trim_back(s.drop_last())
    } else {
        s
    }
}

/// The line with surrounding whitespace removed.
pub open spec fn spec_trim(s: Seq<char>) -> Seq<char> {
    spec_trim_back(spec_trim_front(s))
}

fn trim_front<'a>(s: &'a str) -> (r: &'a str)
    ensures
        r@ == spec_trim_front(s@),
    decreases s@.len(),
{
    let n = s.unicode_len();
    if n > 0 && is_space_char(s.get_char(0)) {
        let rest = s.substring_char(1, n);
        proof {
            assert(rest@ =~= s@.drop_first());
        }
        trim_front(rest)
    } else {
        s
    }
}

fn trim_back<'a>(s: &'a str) -> (r: &'a str)
    ensures
        r@ == spec_trim_back(s@),
    decreases s@.len(),
{
    let n = s.unicode_len();
    if n > 0 && is_space_char(s.get_char(n - 1)) {
        let rest = s.substring_char(0, n - 1);
        proof {
            assert(rest@ =~= s@.drop_last());
        }
        trim_back(rest)
    } else {
        s
    }
}

/// Removes the whitespace around a control line.
pub fn trim_line<'a>(s: &'a str) -> (r: &'a str)
    ensures
        r@ == spec_trim(s@),
{
    trim_back(trim_front(s))
}

/// Whether a control line commands a skip: after trimming surrounding
/// whitespace it is exactly the word `skip`. Every other line is a no-op.
pub open spec fn spec_is_skip_command(s: Seq<char>) -> bool {
    spec_trim(s) == seq!['s', 'k', 'i', 'p']
}

/// Recognizes the `skip` command on the control input.
pub fn is_skip_command(line: &str) -> (r: bool)
    ensures
        r == spec_is_skip_command(line@),
{
    let t = trim_line(line);
    let n = t.unicode_len();
    let r = n == 4 && t.get_char(0) == 's' && t.get_char(1) == 'k' && t.get_char(2) == 'i'
        && t.get_char(3) == 'p';
    proof {
        if r {
            assert(t@ =~= seq!['s', 'k', 'i', 'p']);
        }
        if t@ == seq!['s', 'k', 'i', 'p'] {
            assert(t@.len() == 4);
            assert(t@[0] == 's' && t@[1] == 'k' && t@[2] == 'i' && t@[3] == 'p');
        }
    }
    r
}

} // verus!
