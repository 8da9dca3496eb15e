//! Screening of command strings before they are handed to a shell: a verified
//! substring search, and the scan for shell metacharacters that the runner
//! refuses to execute.

use vstd::prelude::*;

verus! {

/// `sub` occurs in `s` as a contiguous substring starting at position `i`.
pub open spec fn occurs_at(s: Seq<char>, sub: Seq<char>, i: int) -> bool {
    &&& 0 <= i
    &&& i + sub.len() <= s.len()
    &&& forall|j: int| 0 <= j < sub.len() ==> s[i + j] == sub[j]
}

/// `sub` occurs somewhere in `s` as a contiguous substring.
pub open spec fn contains_seq(s: Seq<char>, sub: Seq<char>) -> bool {
    exists|i: int| occurs_at(s, sub, i)
}

/// Whether `sub` occurs in `s` starting exactly at position `i`.
fn match_at(s: &str, sub: &str, i: usize) -> (r: bool)
    requires
        i + sub@.len() <= s@.len(),
        s@.len() <= usize::MAX,
    ensures
        r == occurs_at(s@, sub@, i as int),
{
    let m = sub.unicode_len();
    let mut j: usize = 0;
    while j < m
        invariant
            i + sub@.len() <= s@.len(),
            s@.len() <= usize::MAX,
            m == sub@.len(),
            0 <= j <= m,
            forall|q: int| 0 <= q < j ==> s@[i + q] == sub@[q],
        decreases m - j,
    {
        if s.get_char(i + j) != sub.get_char(j) {
            proof {
                if occurs_at(s@, sub@, i as int) {
                    assert(s@[i + j] == sub@[j as int]);
                }
            }
            return false;
        }
        j = j + 1;
    }
    true
}

/// Whether `sub` occurs anywhere in `s`. The empty string occurs in every
/// string.
pub fn contains_substring(s: &str, sub: &str) -> (r: bool)
    ensures
        r == contains_seq(s@, sub@),
{
    let n = s.unicode_len();
    let m = sub.unicode_len();
    if m > n {
        proof {
            if contains_seq(s@, sub@) {
                let i = choose|i: int| occurs_at(s@, sub@, i);
                assert(i + sub@.len() <= s@.len());
            }
        }
        return false;
    }
    let mut i: usize = 0;
    while i <= n - m
        invariant
            n == s@.len(),
            m == sub@.len(),
            m <= n,
            0 <= i <= n - m + 1,
            forall|p: int| 0 <= p < i ==> !occurs_at(s@, sub@, p),
        decreases n - m - i + 1,
    {
        if match_at(s, sub, i) {
            return true;
        }
        i = i + 1;
    }
    proof {
        if contains_seq(s@, sub@) {
            let p = choose|p: int| occurs_at(s@, sub@, p);
            assert(p + sub@.len() <= s@.len());
            assert(!occurs_at(s@, sub@, p));
        }
    }
    false
}

/// The command holds a character or digraph with a special meaning to a
/// shell: separators, redirections, substitutions, globs, expansions or
/// grouping. A command that carries one of these could reach outside the
/// check it is meant to perform.
pub open spec fn has_dangerous_chars(s: Seq<char>) -> bool {
    ||| contains_seq(s, "/"@)
    ||| contains_seq(s, "./"@)
    ||| contains_seq(s, ";"@)
    ||| contains_seq(s, "&"@)
    ||| contains_seq(s, "|"@)
    ||| contains_seq(s, "`"@)
    ||| contains_seq(s, "$("@)
    ||| contains_seq(s, "${"@)
    ||| contains_seq(s, ">"@)
    ||| contains_seq(s, "<"@)
    ||| contains_seq(s, ">>"@)
    ||| contains_seq(s, "<<"@)
    ||| contains_seq(s, "*"@)
    ||| contains_seq(s, "?"@)
    ||| contains_seq(s, "["@)
    ||| contains_seq(s, "]"@)
    ||| contains_seq(s, "~"@)
    ||| contains_seq(s, "^"@)
    ||| contains_seq(s, "!"@)
    ||| contains_seq(s, "\\"@)
    ||| contains_seq(s, "||"@)
    ||| contains_seq(s, "&&"@)
    ||| contains_seq(s, "("@)
    ||| contains_seq(s, ")"@)
    ||| contains_seq(s, "#"@)
}

/// Scan a command string for shell metacharacters before it is handed to a
/// shell: true exactly when some dangerous character or digraph occurs in it.
pub fn contains_dangerous_chars(command: &str) -> (r: bool)
    ensures
        r == has_dangerous_chars(command@),
{
    contains_substring(command, "/") || contains_substring(command, "./") || contains_substring(
        command,
        ";",
    ) || contains_substring(command, "&") || contains_substring(command, "|")
        || contains_substring(command, "`") || contains_substring(command, "$(")
        || contains_substring(command, "${") || contains_substring(command, ">")
        || contains_substring(command, "<") || contains_substring(command, ">>")
        || contains_substring(command, "<<") || contains_substring(command, "*")
        || contains_substring(command, "?") || contains_substring(command, "[")
        || contains_substring(command, "]") || contains_substring(command, "~")
        || contains_substring(command, "^") || contains_substring(command, "!")
        || contains_substring(command, "\\") || contains_substring(command, "||")
        || contains_substring(command, "&&") || contains_substring(command, "(")
        || contains_substring(command, ")") || contains_substring(command, "#")
}

} // verus!
