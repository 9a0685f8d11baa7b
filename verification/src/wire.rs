//! The serial response dialect.
//!
//! A response line from the instrument may start with a `Chameleon>` prompt,
//! may repeat the sent token (echo), and ends in a carriage return and line
//! feed. This module turns a raw line into the residual value text, following
//! the discovered `prompt_on` and `echo_on` flags: strip the prompt, strip
//! the echoed token, trim, and report instrument-side rejections.

use vstd::prelude::*;
use crate::CoherentError;

verus! {

pub open spec fn spec_prompt() -> Seq<char> {
    "Chameleon>"@
}

pub open spec fn spec_not_executed() -> Seq<char> {
    "COMMAND NOT EXECUTED"@
}

/// Whether a character counts as trimmable whitespace.
pub open spec fn spec_is_space(c: char) -> bool {
    c == ' ' || c == '\t' || c == '\r' || c == '\n'
}

pub open spec fn spec_contains_char(s: Seq<char>, c: char) -> bool {
    exists|i: int| 0 <= i < s.len() && s[i] == c
}

/// Whether `s` holds the character `c` anywhere.
pub fn contains_char(s: &str, c: char) -> (r: bool)
    ensures
        r == spec_contains_char(s@, c),
{
    let n = s.unicode_len();
    let mut i: usize = 0;
    while i < n
        invariant
            0 <= i <= n,
            n == s@.len(),
            forall|j: int| 0 <= j < i ==> s@[j] != c,
        decreases n - i,
    {
        if s.get_char(i) == c {
            return true;
        }
        i += 1;
    }
    false
}

/// What remains of `h` after its first occurrence of `n`, if `n` occurs.
pub open spec fn spec_after_first(h: Seq<char>, n: Seq<char>) -> Option<Seq<char>>
    decreases h.len(),
{
    if h.len() < n.len() {
        None
    } else if h.subrange(0, n.len() as int) == n {
        Some(h.skip(n.len() as int))
    } else if h.len() == 0 {
        None
    } else {
        spec_after_first(h.drop_first(), n)
    }
}

/// `n` matched against `h` at position `i`.
pub open spec fn spec_match_at(h: Seq<char>, n: Seq<char>, i: int) -> bool {
    0 <= i && i + n.len() <= h.len() && h.subrange(i, i + n.len()) == n
}

/// When `n`'s first occurrence in `h` is at `i`, [`spec_after_first`] gives
/// everything after that occurrence.
proof fn lemma_after_first_at(h: Seq<char>, n: Seq<char>, i: int)
    requires
        spec_match_at(h, n, i),
        forall|j: int| 0 <= j < i ==> !spec_match_at(h, n, j),
    ensures
        spec_after_first(h, n) == Some(h.skip(i + n.len())),
    decreases h.len(),
{
    if i == 0 {
        assert(h.subrange(0, n.len() as int) == n);
    } else {
        assert(!spec_match_at(h, n, 0));
        assert(h.subrange(0, n.len() as int) != n);
        let d = h.drop_first();
        assert forall|j: int| 0 <= j < i - 1 implies !spec_match_at(d, n, j) by {
            if spec_match_at(d, n, j) {
                assert(d.subrange(j, j + n.len()) =~= h.subrange(j + 1, j + 1 + n.len()));
                assert(spec_match_at(h, n, j + 1));
            }
        }
        assert(d.subrange(i - 1, i - 1 + n.len()) =~= h.subrange(i, i + n.len()));
        lemma_after_first_at(d, n, i - 1);
        assert(d.skip(i - 1 + n.len()) =~= h.skip(i + n.len()));
    }
}

/// When `n` occurs nowhere in `h`, [`spec_after_first`] gives nothing.
proof fn lemma_after_first_none(h: Seq<char>, n: Seq<char>)
    requires
        forall|j: int| 0 <= j ==> !spec_match_at(h, n, j),
    ensures
        spec_after_first(h, n) is None,
    decreases h.len(),
{
    if h.len() >= n.len() {
        assert(!spec_match_at(h, n, 0));
        assert(h.subrange(0, n.len() as int) != n);
        if h.len() > 0 {
            let d = h.drop_first();
            assert forall|j: int| 0 <= j implies !spec_match_at(d, n, j) by {
                if spec_match_at(d, n, j) {
                    assert(d.subrange(j, j + n.len()) =~= h.subrange(j + 1, j + 1 + n.len()));
                    assert(spec_match_at(h, n, j + 1));
                }
            }
            lemma_after_first_none(d, n);
        }
    }
}

/// Whether `n` matches `h` at position `i`.
fn match_at(h: &str, n: &str, i: usize) -> (r: bool)
    requires
        i + n@.len() <= h@.len(),
    ensures
        r == spec_match_at(h@, n@, i as int),
{
    let lh = h.unicode_len();
    let ln = n.unicode_len();
    let mut k: usize = 0;
    while k < ln
        invariant
            0 <= k <= ln,
            ln == n@.len(),
            lh == h@.len(),
            i + ln <= lh,
            forall|j: int| 0 <= j < k ==> h@[i + j] == n@[j],
        decreases ln - k,
    {
        if h.get_char(i + k) != n.get_char(k) {
            proof {
                assert(h@.subrange(i as int, i + n@.len())[k as int] == h@[i + k]);
            }
            return false;
        }
        k += 1;
    }
    proof {
        assert(h@.subrange(i as int, i + n@.len()) =~= n@);
    }
    true
}

/// The text after the first occurrence of `n` in `h`, exactly as
/// [`spec_after_first`] describes.
#[verifier::loop_isolation(false)]
pub fn after_first<'a>(h: &'a str, n: &str) -> (r: Option<&'a str>)
    ensures
        match r {
            Some(t) => spec_after_first(h@, n@) == Some(t@),
            None => spec_after_first(h@, n@) is None,
        },
{
    let lh = h.unicode_len();
    let ln = n.unicode_len();
    if ln > lh {
        proof {
            lemma_after_first_none(h@, n@);
        }
        return None;
    }
    if ln == 0 {
        proof {
            assert(h@.subrange(0, 0) =~= n@);
            assert(spec_match_at(h@, n@, 0));
            lemma_after_first_at(h@, n@, 0);
            assert(h@.skip(0) =~= h@);
        }
        return Some(h);
    }
    let mut i: usize = 0;
    while i <= lh - ln
        invariant
            0 <= i <= lh - ln + 1,
            1 <= ln <= lh,
            forall|j: int| 0 <= j < i ==> !spec_match_at(h@, n@, j),
        decreases lh - i,
    {
        if match_at(h, n, i) {
            proof {
                lemma_after_first_at(h@, n@, i as int);
            }
            return Some(h.substring_char(i + ln, lh));
        }
        i += 1;
    }
    proof {
        assert forall|j: int| 0 <= j implies !spec_match_at(h@, n@, j) by {
            if j < i {
            } else {
                assert(j + n@.len() > h@.len());
            }
        }
        lemma_after_first_none(h@, n@);
    }
    None
}

/// Whether `h` holds `n` anywhere.
pub fn contains_str(h: &str, n: &str) -> (r: bool)
    ensures
        r == (spec_after_first(h@, n@) is Some),
{
    match after_first(h, n) {
        Some(_) => true,
        None => false,
    }
}

/// A string with leading whitespace removed.
pub open spec fn spec_trim_start(s: Seq<char>) -> Seq<char>
    decreases s.len(),
{
    if s.len() > 0 && spec_is_space(s[0]) {
        spec_trim_start(s.drop_first())
    } else {
        s
    }
}

/// A string with trailing whitespace removed.
pub open spec fn spec_trim_end(s: Seq<char>) -> Seq<char>
    decreases s.len(),
{
    if s.len() > 0 && spec_is_space(s.last()) {
        spec_trim_end(s.drop_last())
    } else {
        s
    }
}

/// A string with whitespace removed from both ends.
pub open spec fn spec_trim(s: Seq<char>) -> Seq<char> {
    spec_trim_end(spec_trim_start(s))
}

proof fn lemma_trim_start_skip(s: Seq<char>, a: int)
    requires
        0 <= a <= s.len(),
        forall|j: int| 0 <= j < a ==> spec_is_space(#[trigger] s[j]),
        a == s.len() || !spec_is_space(s[a]),
    ensures
        spec_trim_start(s) == s.skip(a),
    decreases a,
{
    if a == 0 {
        assert(s.skip(0) =~= s);
    } else {
        let d = s.drop_first();
        lemma_trim_start_skip(d, a - 1);
        assert(d.skip(a - 1) =~= s.skip(a));
    }
}

proof fn lemma_trim_end_take(s: Seq<char>, b: int)
    requires
        0 <= b <= s.len(),
        forall|j: int| b <= j < s.len() ==> spec_is_space(#[trigger] s[j]),
        b == 0 || !spec_is_space(s[b - 1]),
    ensures
        spec_trim_end(s) == s.take(b),
    decreases s.len(),
{
    if b == s.len() {
        assert(s.take(b) =~= s);
    } else {
        let d = s.drop_last();
        assert(d =~= s.take(s.len() - 1));
        lemma_trim_end_take(d, b);
        assert(d.take(b) =~= s.take(b));
    }
}

/// Whether the character is trimmable whitespace.
fn is_space_char(c: char) -> (r: bool)
    ensures
        r == spec_is_space(c),
{
    c == ' ' || c == '\t' || c == '\r' || c == '\n'
}

/// Trim whitespace from both ends, exactly as [`spec_trim`] describes.
#[verifier::loop_isolation(false)]
pub fn trim_str<'a>(s: &'a str) -> (r: &'a str)
    ensures
        r@ == spec_trim(s@),
{
    let n = s.unicode_len();
    let mut a: usize = 0;
    while a < n && is_space_char(s.get_char(a))
        invariant
            0 <= a <= n,
            forall|j: int| 0 <= j < a ==> spec_is_space(#[trigger] s@[j]),
        decreases n - a,
    {
        a += 1;
    }
    proof {
        lemma_trim_start_skip(s@, a as int);
    }
    let mut b: usize = n;
    while b > a && is_space_char(s.get_char(b - 1))
        invariant
            a <= b <= n,
            forall|j: int| b <= j < n ==> spec_is_space(#[trigger] s@[j]),
        decreases b,
    {
        b -= 1;
    }
    let r = s.substring_char(a, b);
    proof {
        let t = s@.skip(a as int);
        assert(forall|j: int| b - a <= j < t.len() ==> spec_is_space(#[trigger] t[j]));
        if b > a {
            assert(!spec_is_space(t[b - a - 1]));
        }
        lemma_trim_end_take(t, b - a);
        assert(t.take(b - a) =~= s@.subrange(a as int, b as int));
    }
    r
}

/// The outcome of applying the response-line policy: either the residual
/// value text, or the way the line failed to follow the dialect.
pub enum ResponseOutcome {
    /// The trimmed text left after prompt and echo removal.
    Residual(Seq<char>),
    /// The instrument answered `COMMAND NOT EXECUTED`.
    NotExecuted,
    /// A prompt was expected but the line holds none.
    NoPrompt,
    /// An echo of the sent token was expected but the line holds none.
    NoEcho,
}

/// The response-line policy: a literal `COMMAND NOT EXECUTED` anywhere wins;
/// then, with `prompt_on`, everything up to and including the first
/// `Chameleon>` is dropped; then, with `echo_on`, everything up to and
/// including the first `<token> ` is dropped; the rest is trimmed.
pub open spec fn spec_parse_response(
    echo_on: bool,
    prompt_on: bool,
    token: Seq<char>,
    line: Seq<char>,
) -> ResponseOutcome {
    if spec_after_first(line, spec_not_executed()) is Some {
        ResponseOutcome::NotExecuted
    } else {
        let l1 = if prompt_on {
            spec_after_first(line, spec_prompt())
        } else {
            Some(line)
        };
        match l1 {
            None => ResponseOutcome::NoPrompt,
            Some(l1) => {
                let l2 = if echo_on {
                    spec_after_first(l1, token + seq![' '])
                } else {
                    Some(l1)
                };
                match l2 {
                    None => ResponseOutcome::NoEcho,
                    Some(l2) => ResponseOutcome::Residual(spec_trim(l2)),
                }
            },
        }
    }
}

/// Apply the response-line policy and hand back the residual text.
fn response_residual<'a>(
    echo_on: bool,
    prompt_on: bool,
    token: &str,
    line: &'a str,
) -> (r: Result<&'a str, CoherentError>)
    ensures
        match r {
            Ok(res) => spec_parse_response(echo_on, prompt_on, token@, line@)
                == ResponseOutcome::Residual(res@),
            Err(e) => match spec_parse_response(echo_on, prompt_on, token@, line@) {
                ResponseOutcome::Residual(_) => false,
                ResponseOutcome::NotExecuted => e == CoherentError::CommandNotExecutedError,
                ResponseOutcome::NoPrompt => e matches CoherentError::InvalidResponseError(raw)
                    && raw@ == line@,
                ResponseOutcome::NoEcho => e matches CoherentError::InvalidResponseError(raw)
                    && raw@ == line@,
            },
        },
{
    if contains_str(line, "COMMAND NOT EXECUTED") {
        return Err(CoherentError::CommandNotExecutedError);
    }
    let l1: &str = if prompt_on {
        match after_first(line, "Chameleon>") {
            Some(t) => t,
            None => {
                return Err(CoherentError::InvalidResponseError(line.to_owned()));
            },
        }
    } else {
        line
    };
    let l2: &str = if echo_on {
        let mut sep = token.to_owned();
        sep.append(" ");
        proof {
            reveal_strlit(" ");
            assert(sep@ =~= token@ + seq![' ']);
        }
        match after_first(l1, sep.as_str()) {
            Some(t) => t,
            None => {
                return Err(CoherentError::InvalidResponseError(line.to_owned()));
            },
        }
    } else {
        l1
    };
    Ok(trim_str(l2))
}

/// Read the instrument's answer to a command. Commands expect no residual:
/// leftover text means the instrument rejected the arguments.
pub fn parse_command_response(
    echo_on: bool,
    prompt_on: bool,
    token: &str,
    line: &str,
) -> (r: Result<(), CoherentError>)
    ensures
        match spec_parse_response(echo_on, prompt_on, token@, line@) {
            ResponseOutcome::Residual(res) => if res.len() == 0 {
                r is Ok
            } else {
                r matches Err(CoherentError::InvalidArgumentsError(t)) && t@ == res
            },
            ResponseOutcome::NotExecuted => r == Err::<(), _>(
                CoherentError::CommandNotExecutedError,
            ),
            ResponseOutcome::NoPrompt => r matches Err(CoherentError::InvalidResponseError(raw))
                && raw@ == line@,
            ResponseOutcome::NoEcho => r matches Err(CoherentError::InvalidResponseError(raw))
                && raw@ == line@,
        },
{
    match response_residual(echo_on, prompt_on, token, line) {
        Ok(res) => {
            if res.unicode_len() == 0 {
                proof {
                    assert(spec_parse_response(echo_on, prompt_on, token@, line@)
                        matches ResponseOutcome::Residual(t) ==> t =~= res@);
                }
                Ok(())
            } else {
                Err(CoherentError::InvalidArgumentsError(res.to_owned()))
            }
        },
        Err(e) => Err(e),
    }
}

/// Read the instrument's answer to a query: the trimmed residual text, to be
/// handed to the query's typed parser.
pub fn parse_query_response(
    echo_on: bool,
    prompt_on: bool,
    token: &str,
    line: &str,
) -> (r: Result<String, CoherentError>)
    ensures
        match spec_parse_response(echo_on, prompt_on, token@, line@) {
            ResponseOutcome::Residual(res) => r matches Ok(t) && t@ == res,
            ResponseOutcome::NotExecuted => r == Err::<String, _>(
                CoherentError::CommandNotExecutedError,
            ),
            ResponseOutcome::NoPrompt => r matches Err(CoherentError::InvalidResponseError(raw))
                && raw@ == line@,
            ResponseOutcome::NoEcho => r matches Err(CoherentError::InvalidResponseError(raw))
                && raw@ == line@,
        },
{
    match response_residual(echo_on, prompt_on, token, line) {
        Ok(res) => Ok(res.to_owned()),
        Err(e) => Err(e),
    }
}

/// What the first probe line (`?E` response) discovers at open time:
/// `echo_on` when the line holds `E 1`, `prompt_on` when it holds
/// `Chameleon`. A line without a carriage return and line feed is no
/// complete response at all.
pub fn interpret_probe(line: &str) -> (r: Result<(bool, bool), CoherentError>)
    ensures
        match r {
            Ok((echo_on, prompt_on)) => {
                &&& spec_after_first(line@, "\r\n"@) is Some
                &&& echo_on == (spec_after_first(line@, "E 1"@) is Some)
                &&& prompt_on == (spec_after_first(line@, "Chameleon"@) is Some)
            },
            Err(e) => spec_after_first(line@, "\r\n"@) is None && (e matches
                CoherentError::InvalidResponseError(raw) && raw@ == line@),
        },
{
    if !contains_str(line, "\r\n") {
        return Err(CoherentError::InvalidResponseError(line.to_owned()));
    }
    let echo_on = contains_str(line, "E 1");
    let prompt_on = contains_str(line, "Chameleon");
    Ok((echo_on, prompt_on))
}

/// Read the serial number out of the second probe line (the `?SN`
/// response) at open time: the line must be complete; with echo on,
/// everything up to and including `?SN ` is dropped; the rest is trimmed
/// and stored as the serial number.
pub fn parse_serial_response(echo_on: bool, line: &str) -> (r: Result<String, CoherentError>)
    ensures
        match r {
            Ok(s) => spec_after_first(line@, "\r\n"@) is Some && (if echo_on {
                spec_after_first(line@, "?SN "@) matches Some(t) && s@ == spec_trim(t)
            } else {
                s@ == spec_trim(line@)
            }),
            Err(e) => {
                &&& e matches CoherentError::InvalidResponseError(raw) && raw@ == line@
                &&& (spec_after_first(line@, "\r\n"@) is None || (echo_on && spec_after_first(
                    line@,
                    "?SN "@,
                ) is None))
            },
        },
{
    if !contains_str(line, "\r\n") {
        return Err(CoherentError::InvalidResponseError(line.to_owned()));
    }
    let tail: &str = if echo_on {
        match after_first(line, "?SN ") {
            Some(t) => t,
            None => {
                return Err(CoherentError::InvalidResponseError(line.to_owned()));
            },
        }
    } else {
        line
    };
    Ok(trim_str(tail).to_owned())
}

} // verus!
