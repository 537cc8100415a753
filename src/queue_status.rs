use vstd::prelude::*;

use crate::text::{ends_with, has_prefix, has_suffix, starts_with};

verus! {

/// The characters that Unicode classes as white space.
pub open spec fn is_white(c: char) -> bool {
    let u = c as u32;
    (0x9 <= u && u <= 0xd) || u == 0x20 || u == 0x85 || u == 0xa0 || u == 0x1680 || (0x2000 <= u
        && u <= 0x200a) || u == 0x2028 || u == 0x2029 || u == 0x202f || u == 0x205f || u == 0x3000
}

/// `l` without leading white space.
pub open spec fn trim_start(l: Seq<char>) -> Seq<char>
    decreases l.len(),
{
    if l.len() > 0 && is_white(l[0]) {
        trim_start(l.drop_first())
    } else {
        l
    }
}

/// `l` without trailing white space.
pub open spec fn trim_end(l: Seq<char>) -> Seq<char>
    decreases l.len(),
{
    if l.len() > 0 && is_white(l.last()) {
        trim_end(l.drop_last())
    } else {
        l
    }
}

/// `l` without leading and trailing white space.
pub open spec fn trimmed(l: Seq<char>) -> Seq<char> {
    trim_end(trim_start(l))
}

/// The index of the first white space in `t` at or after `i`, or the length of `t`.
pub open spec fn token_end(t: Seq<char>, i: int) -> int
    decreases t.len() - i,
{
    if i < 0 || i >= t.len() || is_white(t[i]) {
        i
    } else {
        token_end(t, i + 1)
    }
}

/// The first word of a text that starts with no white space.
pub open spec fn first_token(t: Seq<char>) -> Seq<char> {
    t.subrange(0, token_end(t, 0))
}

/// A line of the queue listing that describes a job: not blank, not a header, and its first
/// word ends like an ordinal (`1st`, `2nd`, `3rd`, `4th`, ...).
pub open spec fn is_job_line(l: Seq<char>) -> bool {
    let t = trimmed(l);
    let w = first_token(t);
    &&& t.len() > 0
    &&& !has_prefix(t, "Printer:"@)
    &&& !has_prefix(t, "Queue:"@)
    &&& !has_prefix(t, "Rank"@)
    &&& (has_suffix(w, "st"@) || has_suffix(w, "nd"@) || has_suffix(w, "rd"@) || has_suffix(w, "th"@))
}

/// How many characters the line of `s` that starts at `i` has before its line feed.
pub open spec fn line_len(s: Seq<char>, i: int) -> nat
    decreases s.len() - i,
{
    if i < 0 || i >= s.len() || s[i] == '\n' {
        0
    } else {
        1 + line_len(s, i + 1)
    }
}

/// The index of the first line feed in `s` at or after `i`, or the length of `s`.
pub open spec fn line_end(s: Seq<char>, i: int) -> int {
    i + line_len(s, i)
}

/// The line of `s` that starts at `i`, without its line ending (`\n` or `\r\n`).
pub open spec fn line_at(s: Seq<char>, i: int) -> Seq<char> {
    let e = line_end(s, i);
    if e < s.len() && e > i && s[e - 1] == '\r' {
        s.subrange(i, e - 1)
    } else {
        s.subrange(i, e)
    }
}

/// The job lines of `s` from the line that starts at `i` on, verbatim and in order.
pub open spec fn job_lines_from(s: Seq<char>, i: int) -> Seq<Seq<char>>
    decreases s.len() - i,
{
    if i < 0 || i >= s.len() {
        Seq::empty()
    } else {
        let next = i + line_len(s, i) + 1;
        let rest = if next <= s.len() {
            job_lines_from(s, next)
        } else {
            Seq::empty()
        };
        if is_job_line(line_at(s, i)) {
            seq![line_at(s, i)] + rest
        } else {
            rest
        }
    }
}

/// The job lines of a queue listing.
pub open spec fn queue_jobs(s: Seq<char>) -> Seq<Seq<char>> {
    job_lines_from(s, 0)
}

pub open spec fn string_views(v: Seq<String>) -> Seq<Seq<char>> {
    v.map_values(|x: String| x@)
}

fn is_white_char(c: char) -> (r: bool)
    ensures
        r == is_white(c),
{
    let u = c as u32;
    (0x9 <= u && u <= 0xd) || u == 0x20 || u == 0x85 || u == 0xa0 || u == 0x1680 || (0x2000 <= u
        && u <= 0x200a) || u == 0x2028 || u == 0x2029 || u == 0x202f || u == 0x205f || u == 0x3000
}

/// `l` without leading and trailing white space.
pub fn trim(l: &str) -> (r: &str)
    ensures
        r@ == trimmed(l@),
{
    let mut cur: &str = l;
    while cur.unicode_len() > 0 && is_white_char(cur.get_char(0))
        invariant
            trim_start(cur@) == trim_start(l@),
        decreases cur@.len(),
    {
        let ghost prev = cur@;
        let n = cur.unicode_len();
        cur = cur.substring_char(1, n);
        assert(cur@ =~= prev.drop_first());
    }
    let ghost start = cur@;
    while cur.unicode_len() > 0 && is_white_char(cur.get_char(cur.unicode_len() - 1))
        invariant
            trim_start(start) == trim_start(l@),
            trim_end(cur@) == trim_end(start),
        decreases cur@.len(),
    {
        let ghost prev = cur@;
        let n = cur.unicode_len();
        cur = cur.substring_char(0, n - 1);
        assert(cur@ =~= prev.drop_last());
    }
    cur
}

/// Whether `l` is a job line of a queue listing.
pub fn is_job_line_exec(l: &str) -> (r: bool)
    ensures
        r == is_job_line(l@),
{
    let t = trim(l);
    let n = t.unicode_len();
    if n == 0 {
        return false;
    }
    if starts_with(t, "Printer:") || starts_with(t, "Queue:") || starts_with(t, "Rank") {
        return false;
    }
    let mut j: usize = 0;
    while j < n && !is_white_char(t.get_char(j))
        invariant
            n == t@.len(),
            j <= n,
            token_end(t@, j as int) == token_end(t@, 0),
        decreases n - j,
    {
        j = j + 1;
    }
    let w = t.substring_char(0, j);
    ends_with(w, "st") || ends_with(w, "nd") || ends_with(w, "rd") || ends_with(w, "th")
}

/// The lines of a queue listing that describe jobs, verbatim and in their order.
pub fn parse_queue_status(output: &str) -> (r: Vec<String>)
    ensures
        string_views(r@) == queue_jobs(output@),
{
    let ghost s = output@;
    let n = output.unicode_len();
    let mut jobs: Vec<String> = Vec::new();
    let mut i: usize = 0;
    while i < n
        invariant
            n == s.len(),
            s == output@,
            i <= n,
            string_views(jobs@) + job_lines_from(s, i as int) == queue_jobs(s),
        decreases n - i,
    {
        let mut e: usize = i;
        while e < n && output.get_char(e) != '\n'
            invariant
                n == s.len(),
                s == output@,
                i <= e <= n,
                e + line_len(s, e as int) == i + line_len(s, i as int),
            decreases n - e,
        {
            e = e + 1;
        }
        let stop = if e < n && e > i && output.get_char(e - 1) == '\r' {
            e - 1
        } else {
            e
        };
        let line = output.substring_char(i, stop);
        let keep = is_job_line_exec(line);
        let ghost old_jobs = jobs@;
        assert(e < n ==> s[e as int] == '\n');
        if keep {
            jobs.push(String::from_str(line));
        }
        proof {
            assert(line@ == line_at(s, i as int));
            let rest = job_lines_from(s, e + 1);
            if keep {
                assert(string_views(jobs@) =~= string_views(old_jobs) + seq![line@]);
                assert(string_views(old_jobs) + (seq![line@] + rest) =~= string_views(jobs@) + rest);
            } else {
                assert(string_views(jobs@) =~= string_views(old_jobs));
            }
        }
        i = if e < n { e + 1 } else { e };
    }
    assert(string_views(jobs@) + job_lines_from(s, i as int) =~= string_views(jobs@));
    jobs
}

} // verus!
