use vstd::prelude::*;
use vstd::string::*;

use crate::text::{chars_of, contains_in, has_infix, text_equals};

verus! {

/// A line without the carriage return that may end it.
pub open spec fn strip_cr(l: Seq<char>) -> Seq<char> {
    if l.len() > 0 && l.last() == '\r' {
        l.drop_last()
    } else {
        l
    }
}

/// The first line of `t` at or after the line that starts at `start` (with
/// `i` scanning it) that mentions `PRETTY_NAME`.
pub open spec fn pretty_line(t: Seq<char>, start: int, i: int) -> Option<Seq<char>>
    decreases t.len() - i,
{
    if i >= t.len() {
        let line = strip_cr(t.subrange(start, t.len() as int));
        if has_infix(line, "PRETTY_NAME"@) {
            Some(line)
        } else {
            None
        }
    } else if t[i] == '\n' {
        let line = strip_cr(t.subrange(start, i));
        if has_infix(line, "PRETTY_NAME"@) {
            Some(line)
        } else {
            pretty_line(t, i + 1, i + 1)
        }
    } else {
        pretty_line(t, start, i + 1)
    }
}

/// Index of the first `"` at or after `i`.
pub open spec fn first_quote(s: Seq<char>, i: int) -> Option<int>
    decreases s.len() - i,
{
    if i < 0 || i >= s.len() {
        None
    } else if s[i] == '"' {
        Some(i)
    } else {
        first_quote(s, i + 1)
    }
}

/// Index of the first character at or after `i` that is not `"`.
pub open spec fn skip_quotes(s: Seq<char>, i: int) -> int
    decreases s.len() - i,
{
    if i < 0 || i >= s.len() || s[i] != '"' {
        i
    } else {
        skip_quotes(s, i + 1)
    }
}

/// End of `s[lo .. j]` once the `"` characters that end it are dropped.
pub open spec fn back_quotes(s: Seq<char>, lo: int, j: int) -> int
    decreases j - lo,
{
    if j <= lo || j > s.len() || s[j - 1] != '"' {
        j
    } else {
        back_quotes(s, lo, j - 1)
    }
}

/// The part of `line` from its first `"` on, without the `"` characters at
/// either end.
pub open spec fn quoted_value(line: Seq<char>) -> Option<Seq<char>> {
    match first_quote(line, 0) {
        None => None,
        Some(q) => {
            let v = line.subrange(q, line.len() as int);
            let a = skip_quotes(v, 0);
            Some(v.subrange(a, back_quotes(v, a, v.len() as int)))
        },
    }
}

/// The distribution's pretty name in the text of an os-release file.
pub open spec fn pretty_name_of(os_release: Seq<char>) -> Option<Seq<char>> {
    match pretty_line(os_release, 0, 0) {
        Some(line) => quoted_value(line),
        None => None,
    }
}

/// The distributions this tool supports, by pretty name.
pub open spec fn is_supported_os(name: Seq<char>) -> bool {
    ||| name == "Ubuntu 22.04.1 LTS"@
    ||| name == "Red Hat Enterprise Linux 8.7 (Ootpa)"@
    ||| name == "CentOS Stream 9"@
}

/// Finds the range of the first line of `t` that mentions `PRETTY_NAME`,
/// without a closing carriage return.
fn find_pretty_line(t: &Vec<char>) -> (r: Option<(usize, usize)>)
    ensures
        match r {
            Some((a, b)) => a <= b <= t.len() && pretty_line(t@, 0, 0) == Some(
                t@.subrange(a as int, b as int),
            ),
            None => pretty_line(t@, 0, 0) is None,
        },
{
    let key = chars_of("PRETTY_NAME");
    let mut start: usize = 0;
    let mut i: usize = 0;
    while i < t.len()
        invariant
            start <= i <= t.len(),
            key@ == "PRETTY_NAME"@,
            pretty_line(t@, 0, 0) == pretty_line(t@, start as int, i as int),
        decreases t.len() - i,
    {
        if t[i] == '\n' {
            let mut e = i;
            if e > start && t[e - 1] == '\r' {
                e = e - 1;
            }
            assert(t@.subrange(start as int, e as int) == strip_cr(t@.subrange(start as int, i as int)));
            if contains_in(t, start, e, &key) {
                return Some((start, e));
            }
            start = i + 1;
        }
        i = i + 1;
    }
    let mut e = t.len();
    if e > start && t[e - 1] == '\r' {
        e = e - 1;
    }
    assert(t@.subrange(start as int, e as int) == strip_cr(t@.subrange(start as int, t@.len() as int)));
    if contains_in(t, start, e, &key) {
        Some((start, e))
    } else {
        None
    }
}

/// Reads the pretty name of the distribution from the text of an os-release
/// file: the first line that mentions `PRETTY_NAME`, from its first `"` on,
/// with the `"` characters at either end removed. `None` when there is no
/// such line or the line holds no `"`.
pub fn get_os_pretty_name(os_release: &str) -> (r: Option<String>)
    ensures
        match r {
            Some(name) => pretty_name_of(os_release@) == Some(name@),
            None => pretty_name_of(os_release@) is None,
        },
{
    let t = chars_of(os_release);
    let (lo, hi) = match find_pretty_line(&t) {
        Some(range) => range,
        None => return None,
    };
    let ghost line = t@.subrange(lo as int, hi as int);
    let mut q = lo;
    while q < hi && t[q] != '"'
        invariant
            lo <= q <= hi <= t.len(),
            line == t@.subrange(lo as int, hi as int),
            first_quote(line, 0) == first_quote(line, q - lo),
        decreases hi - q,
    {
        q = q + 1;
    }
    if q == hi {
        return None;
    }
    let ghost v = line.subrange(q - lo, line.len() as int);
    assert(v =~= t@.subrange(q as int, hi as int));
    let mut a = q;
    while a < hi && t[a] == '"'
        invariant
            q <= a <= hi <= t.len(),
            v == t@.subrange(q as int, hi as int),
            skip_quotes(v, 0) == skip_quotes(v, a - q),
        decreases hi - a,
    {
        a = a + 1;
    }
    let mut b = hi;
    while b > a && t[b - 1] == '"'
        invariant
            q <= a <= b <= hi <= t.len(),
            v == t@.subrange(q as int, hi as int),
            back_quotes(v, a - q, hi - q) == back_quotes(v, a - q, b - q),
        decreases b - a,
    {
        b = b - 1;
    }
    assert(t@.subrange(a as int, b as int) =~= v.subrange(a - q, b - q));
    let name = String::from_str(os_release.substring_char(a, b));
    Some(name)
}

/// Whether `pretty_name` is one of the supported distributions.
pub fn check_os(pretty_name: &str) -> (r: bool)
    ensures
        r == is_supported_os(pretty_name@),
{
    text_equals(pretty_name, "Ubuntu 22.04.1 LTS") || text_equals(
        pretty_name,
        "Red Hat Enterprise Linux 8.7 (Ootpa)",
    ) || text_equals(pretty_name, "CentOS Stream 9")
}

/// The supported distributions, by pretty name, in the order they are listed.
pub fn supported_oses() -> (r: Vec<&'static str>)
    ensures
        r@.len() == 3,
        forall|i: int| 0 <= i < 3 ==> is_supported_os(#[trigger] r@[i]@),
        forall|n: Seq<char>| is_supported_os(n) ==> exists|i: int| 0 <= i < 3 && #[trigger] r@[i]@ == n,
{
    let r = vec!["Ubuntu 22.04.1 LTS", "Red Hat Enterprise Linux 8.7 (Ootpa)", "CentOS Stream 9"];
    assert(r@[0]@ == "Ubuntu 22.04.1 LTS"@);
    assert(r@[1]@ == "Red Hat Enterprise Linux 8.7 (Ootpa)"@);
    assert(r@[2]@ == "CentOS Stream 9"@);
    r
}

} // verus!
