//! Finds instance identifiers in the command lines of running processes.

use crate::ora_sql::types::owned_text_of;
use regex::Regex;
use vstd::prelude::*;
use vstd::string::*;

verus! {

/// `regex::Regex`, a compiled pattern; nothing is known of what it holds.
#[verifier::external_type_specification]
#[verifier::external_body]
pub struct ExRegex(regex::Regex);

/// `regex::Error`, the reason why a pattern did not compile; nothing is
/// known of what it holds.
#[verifier::external_type_specification]
#[verifier::external_body]
pub struct ExRegexError(regex::Error);

/// Whether `Regex::new` accepts `pattern`.
pub uninterp spec fn compiles(pattern: Seq<char>) -> bool;

/// The text that capture group `index` holds after the leftmost match of
/// `pattern` in `text`; `None` where the pattern does not match, has no such
/// group, or the group took no part in the match.
pub uninterp spec fn captured_group(pattern: Seq<char>, text: Seq<char>, index: nat) -> Option<
    Seq<char>,
>;

/// The pattern that is used where the caller gives none: the prefixes of
/// the names of process monitors, anchored at the start.
pub const SID_MASK: &'static str = "^(asm_pmon_|ora_pmon_|xe_pmon_|db_pmon_)";

/// The capture group that holds the instance identifier.
pub const SID_GROUP: usize = 2;

/// A scan pattern that compiled. Only compiling makes one, so the compiled
/// form always belongs to the text beside it.
pub struct SidPattern {
    source: String,
    regex: Regex,
}

impl SidPattern {
    /// The pattern as it was written.
    pub closed spec fn text(&self) -> Seq<char> {
        self.source@
    }
}

/// Why a scan could not start.
#[derive(Debug)]
pub enum ScanError {
    /// The pattern is no regular expression that can be compiled; the text
    /// says why.
    InvalidPattern(String),
}

impl ScanError {
    /// The reason, as text.
    pub fn message(&self) -> (r: String)
        ensures
            match *self {
                ScanError::InvalidPattern(m) => r@ == m@,
            },
    {
        match self {
            ScanError::InvalidPattern(m) => m.clone(),
        }
    }
}

/// Calls `Regex::new`. It succeeds exactly on the patterns that `compiles`
/// names, and the compiled pattern remembers the text it was made from.
#[verifier::external_body]
fn compile(pattern: &str) -> (r: Result<SidPattern, regex::Error>)
    ensures
        r.is_ok() == compiles(pattern@),
        r matches Ok(p) ==> p.text() == pattern@,
{
    match Regex::new(pattern) {
        Ok(regex) => Ok(SidPattern { source: pattern.to_string(), regex }),
        Err(e) => Err(e),
    }
}

/// Calls `to_string` of `regex::Error`, which describes the syntax error or
/// names the size limit that was passed. Nothing is claimed of the text.
#[verifier::external_body]
fn error_text(e: &regex::Error) -> (r: String) {
    e.to_string()
}

/// Calls `Regex::captures`, then `Captures::get` and `Match::as_str`: the
/// text of one capture group of the leftmost match, as `captured_group`
/// names it.
#[verifier::external_body]
fn capture_group(pattern: &SidPattern, text: &str, index: usize) -> (r: Option<String>)
    ensures
        owned_text_of(r) == captured_group(pattern.text(), text@, index as nat),
{
    let captures = pattern.regex.captures(text)?;
    let group = captures.get(index)?;
    Some(group.as_str().to_string())
}

/// The identifier in what a capture group holds: the captured text, unless
/// it is empty.
pub open spec fn sid_of(captured: Option<Seq<char>>) -> Option<Seq<char>> {
    match captured {
        Some(text) => if text.len() > 0 {
            Some(text)
        } else {
            None
        },
        None => None,
    }
}

/// The identifier in what a capture group holds: the captured text, unless
/// it is empty.
pub fn sid_of_capture(captured: Option<String>) -> (r: Option<String>)
    ensures
        owned_text_of(r) == sid_of(owned_text_of(captured)),
{
    match captured {
        Some(text) => if text.as_str().is_empty() {
            None
        } else {
            Some(text)
        },
        None => None,
    }
}

/// `k` is where the last word of `arg` begins: no space stands from `k` on,
/// and `k` is the start of `arg` or follows a space.
pub open spec fn is_token_start(arg: Seq<char>, k: int) -> bool {
    &&& 0 <= k <= arg.len()
    &&& k == 0 || arg[k - 1] == ' '
    &&& forall|j: int| k <= j < arg.len() ==> arg[j] != ' '
}

/// Where the last word of `arg` begins.
pub open spec fn token_start(arg: Seq<char>) -> int {
    choose|k: int| is_token_start(arg, k)
}

/// What follows the last space of `arg`; all of `arg` where it has none.
pub open spec fn trailing_text(arg: Seq<char>) -> Seq<char> {
    arg.subrange(token_start(arg), arg.len() as int)
}

/// The last word of a text begins at one place only.
pub proof fn lemma_token_start_unique(arg: Seq<char>, a: int, b: int)
    requires
        is_token_start(arg, a),
        is_token_start(arg, b),
    ensures
        a == b,
{
    if a < b {
        assert(arg[b - 1] == ' ');
    } else if b < a {
        assert(arg[a - 1] == ' ');
    }
}

/// What follows the last space of `arg`.
pub fn trailing_token(arg: &str) -> (r: String)
    ensures
        r@ == trailing_text(arg@),
        is_token_start(arg@, token_start(arg@)),
{
    let len = arg.unicode_len();
    let mut start = len;
    while start > 0 && arg.get_char(start - 1) != ' '
        invariant
            start <= len,
            len == arg@.len(),
            forall|j: int| start <= j < len ==> arg@[j] != ' ',
        decreases start,
    {
        start -= 1;
    }
    proof {
        assert(is_token_start(arg@, start as int));
        lemma_token_start_unique(arg@, start as int, token_start(arg@));
    }
    String::from_str(arg.substring_char(start, len))
}

/// The set of the texts in `v`.
pub open spec fn texts(v: Seq<String>) -> Set<Seq<char>> {
    Set::new(|s: Seq<char>| exists|i: int| 0 <= i < v.len() && #[trigger] v[i]@ == s)
}

/// No text occurs twice in `v`.
pub open spec fn distinct_texts(v: Seq<String>) -> bool {
    forall|i: int, j: int| 0 <= i < j < v.len() ==> v[i]@ != v[j]@
}

/// Adds `sid` at the end of `found` unless `found` holds that text already.
pub fn insert_sid(found: &mut Vec<String>, sid: String)
    requires
        distinct_texts(old(found)@),
    ensures
        distinct_texts(final(found)@),
        texts(old(found)@).contains(sid@) ==> final(found)@ == old(found)@,
        !texts(old(found)@).contains(sid@) ==> final(found)@ == old(found)@.push(sid),
        texts(final(found)@) == texts(old(found)@).insert(sid@),
{
    let mut i: usize = 0;
    while i < found.len()
        invariant
            i <= found.len(),
            *found == *old(found),
            distinct_texts(found@),
            forall|j: int| 0 <= j < i ==> found@[j]@ != sid@,
        decreases found.len() - i,
    {
        if found[i] == sid {
            assert(texts(found@).contains(sid@));
            assert(texts(found@).insert(sid@) =~= texts(found@));
            return ;
        }
        i += 1;
    }
    let ghost before = found@;
    found.push(sid);
    proof {
        assert(!texts(before).contains(sid@));
        assert forall|s: Seq<char>| texts(found@).contains(s) <==> texts(before).insert(
            sid@,
        ).contains(s) by {
            if texts(found@).contains(s) {
                let k = choose|k: int| 0 <= k < found@.len() && #[trigger] found@[k]@ == s;
                if k < before.len() {
                    assert(before[k]@ == s);
                }
            }
            if texts(before).insert(sid@).contains(s) {
                if s == sid@ {
                    assert(found@[before.len() as int]@ == s);
                } else {
                    let k = choose|k: int| 0 <= k < before.len() && #[trigger] before[k]@ == s;
                    assert(found@[k]@ == s);
                }
            }
        }
        assert(texts(found@) =~= texts(before).insert(sid@));
    }
}

/// The identifier that a process shows under `pattern`: what the second
/// capture group holds in the last word of the last argument of its command
/// line, unless that is empty. A process without a command line shows none.
pub open spec fn process_sid(pattern: Seq<char>, cmd: Vec<String>) -> Option<Seq<char>> {
    if cmd@.len() == 0 {
        None
    } else {
        sid_of(captured_group(pattern, trailing_text(cmd@.last()@), SID_GROUP as nat))
    }
}

/// The identifiers that the first `n` processes show under `pattern`.
pub open spec fn found_sids(pattern: Seq<char>, processes: Seq<Vec<String>>, n: int) -> Set<
    Seq<char>,
> {
    Set::new(
        |s: Seq<char>|
            exists|p: int| 0 <= p < n && #[trigger] process_sid(pattern, processes[p]) == Some(s),
    )
}

/// One more process adds the identifier it shows, if it shows one.
pub proof fn lemma_found_sids_step(pattern: Seq<char>, processes: Seq<Vec<String>>, n: int)
    requires
        0 <= n < processes.len(),
    ensures
        found_sids(pattern, processes, n + 1) == match process_sid(pattern, processes[n]) {
            Some(s) => found_sids(pattern, processes, n).insert(s),
            None => found_sids(pattern, processes, n),
        },
{
    let next = found_sids(pattern, processes, n + 1);
    let before = found_sids(pattern, processes, n);
    let expected = match process_sid(pattern, processes[n]) {
        Some(s) => before.insert(s),
        None => before,
    };
    assert forall|s: Seq<char>| next.contains(s) <==> expected.contains(s) by {
        if next.contains(s) {
            let p = choose|p: int|
                0 <= p < n + 1 && #[trigger] process_sid(pattern, processes[p]) == Some(s);
            if p < n {
                assert(before.contains(s));
            }
        }
        if expected.contains(s) {
            if before.contains(s) {
                let p = choose|p: int|
                    0 <= p < n && #[trigger] process_sid(pattern, processes[p]) == Some(s);
                assert(process_sid(pattern, processes[p]) == Some(s));
            } else {
                assert(process_sid(pattern, processes[n]) == Some(s));
            }
        }
    }
    assert(next =~= expected);
}

/// No identifier that is found is empty.
pub proof fn lemma_found_sids_not_empty(pattern: Seq<char>, processes: Seq<Vec<String>>, n: int)
    ensures
        !found_sids(pattern, processes, n).contains(Seq::<char>::empty()),
{
}

/// No process, no identifier.
pub proof fn lemma_found_sids_none(pattern: Seq<char>, processes: Seq<Vec<String>>)
    ensures
        found_sids(pattern, processes, 0) == Set::<Seq<char>>::empty(),
{
    assert(found_sids(pattern, processes, 0) =~= Set::<Seq<char>>::empty());
}

/// Collects the identifiers that the given command lines show under a
/// compiled pattern, each once and none of them empty.
pub fn scan_processes(pattern: &SidPattern, processes: &Vec<Vec<String>>) -> (sids: Vec<String>)
    ensures
        distinct_texts(sids@),
        !texts(sids@).contains(Seq::<char>::empty()),
        texts(sids@) == found_sids(pattern.text(), processes@, processes@.len() as int),
{
    let mut sids: Vec<String> = Vec::new();
    let mut p: usize = 0;
    proof {
        lemma_found_sids_none(pattern.text(), processes@);
        assert(texts(sids@) =~= Set::<Seq<char>>::empty());
    }
    while p < processes.len()
        invariant
            p <= processes.len(),
            distinct_texts(sids@),
            texts(sids@) == found_sids(pattern.text(), processes@, p as int),
        decreases processes.len() - p,
    {
        proof {
            lemma_found_sids_step(pattern.text(), processes@, p as int);
        }
        let cmd = &processes[p];
        if cmd.len() > 0 {
            let token = trailing_token(cmd[cmd.len() - 1].as_str());
            match sid_of_capture(capture_group(pattern, token.as_str(), SID_GROUP)) {
                Some(sid) => {
                    insert_sid(&mut sids, sid);
                },
                None => {},
            }
        }
        p += 1;
    }
    proof {
        lemma_found_sids_not_empty(pattern.text(), processes@, processes@.len() as int);
    }
    sids
}

/// The pattern of a scan: the one given, else `SID_MASK`.
pub open spec fn scan_pattern(match_string: Option<&str>) -> Seq<char> {
    match match_string {
        Some(p) => p@,
        None => SID_MASK@,
    }
}

/// Compiles the pattern of a scan. Fails where the pattern does not
/// compile, and only there.
pub fn compile_scan_pattern(match_string: Option<&str>) -> (r: Result<SidPattern, ScanError>)
    ensures
        r.is_ok() == compiles(scan_pattern(match_string)),
        r matches Ok(pattern) ==> pattern.text() == scan_pattern(match_string),
{
    let source = match match_string {
        Some(p) => p,
        None => SID_MASK,
    };
    match compile(source) {
        Ok(pattern) => Ok(pattern),
        Err(e) => Err(ScanError::InvalidPattern(error_text(&e))),
    }
}

/// The instance identifiers that the processes with the given command
/// lines show under `match_string`, or under `SID_MASK` where none is
/// given. Fails where the pattern does not compile, and only there.
pub fn find_sids_by_processes(match_string: Option<&str>, processes: &Vec<Vec<String>>) -> (r:
    Result<Vec<String>, ScanError>)
    ensures
        r.is_ok() == compiles(scan_pattern(match_string)),
        r matches Ok(sids) ==> distinct_texts(sids@) && !texts(sids@).contains(
            Seq::<char>::empty(),
        ) && texts(sids@) == found_sids(
            scan_pattern(match_string),
            processes@,
            processes@.len() as int,
        ),
{
    match compile_scan_pattern(match_string) {
        Ok(pattern) => Ok(scan_processes(&pattern, processes)),
        Err(e) => Err(e),
    }
}

} // verus!
