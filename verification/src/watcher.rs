//! The log watcher: turns the tunnel client's output lines into a one-shot
//! readiness signal with the discovered endpoint URL, and flags lines that
//! carry the known error marker.
//!
//! A line announces the endpoint when it contains a URL of the form
//! `https://<label>.example-tunnel.com`, where the label is one or more
//! letters, digits or hyphens. The first such line per tunnel lifetime wins:
//! the watch's flag moves from false to true exactly once, however many
//! matching lines later arrive from either output stream.

use crate::text::{contains_str, occurs_at, spec_contains, spec_occurs_at};
use vstd::prelude::*;

verus! {

/// The URL scheme every endpoint announcement starts with.
pub open spec fn spec_scheme() -> Seq<char> {
    "https://"@
}

/// The fixed tunnel domain, with its leading dot, that ends every endpoint
/// announcement.
pub open spec fn spec_domain_suffix() -> Seq<char> {
    ".example-tunnel.com"@
}

/// The marker token whose presence makes a line an error report.
pub open spec fn spec_error_marker() -> Seq<char> {
    "QuickTunnel"@
}

/// A character the tunnel hostname label may hold: an ASCII letter, a digit
/// or a hyphen.
pub open spec fn spec_url_char(c: char) -> bool {
    ||| 'a' as u32 <= c as u32 && c as u32 <= 'z' as u32
    ||| 'A' as u32 <= c as u32 && c as u32 <= 'Z' as u32
    ||| '0' as u32 <= c as u32 && c as u32 <= '9' as u32
    ||| c as u32 == '-' as u32
}

/// An endpoint URL stands in `s` starting at `i`, with its domain suffix
/// starting at `j`: the scheme at `i`, then a non-empty run of label
/// characters up to `j`, then the domain suffix at `j`. The URL itself is
/// `s[i .. j + suffix length)`.
pub open spec fn spec_match_at(s: Seq<char>, i: int, j: int) -> bool {
    &&& spec_occurs_at(s, spec_scheme(), i)
    &&& i + spec_scheme().len() < j
    &&& forall|k: int| i + spec_scheme().len() <= k < j ==> spec_url_char(s[k])
    &&& spec_occurs_at(s, spec_domain_suffix(), j)
}

/// The line contains an endpoint URL.
pub open spec fn spec_has_endpoint(s: Seq<char>) -> bool {
    exists|i: int, j: int| spec_match_at(s, i, j)
}

/// `u` is the endpoint URL whose match starts leftmost in `s`.
pub open spec fn spec_leftmost_endpoint(s: Seq<char>, u: Seq<char>) -> bool {
    exists|i: int, j: int|
        {
            &&& spec_match_at(s, i, j)
            &&& u == s.subrange(i, j + spec_domain_suffix().len() as int)
            &&& forall|i2: int, j2: int| spec_match_at(s, i2, j2) ==> i <= i2
        }
}

/// For one match start there is only one match end: the suffix's leading dot
/// is no label character, so the label cannot stop at two places.
pub proof fn lemma_match_end_unique(s: Seq<char>, i: int, j1: int, j2: int)
    requires
        spec_match_at(s, i, j1),
        spec_match_at(s, i, j2),
    ensures
        j1 == j2,
{
    reveal_strlit(".example-tunnel.com");
    if j1 < j2 {
        assert(s.subrange(j1, j1 + spec_domain_suffix().len() as int)[0] == s[j1]);
        assert(spec_url_char(s[j1]));
    }
    if j2 < j1 {
        assert(s.subrange(j2, j2 + spec_domain_suffix().len() as int)[0] == s[j2]);
        assert(spec_url_char(s[j2]));
    }
}

/// Whether a character may stand in the tunnel hostname label.
pub fn url_char(c: char) -> (r: bool)
    ensures
        r == spec_url_char(c),
{
    let u = c as u32;
    ('a' as u32 <= u && u <= 'z' as u32) || ('A' as u32 <= u && u <= 'Z' as u32) || ('0' as u32
        <= u && u <= '9' as u32) || u == '-' as u32
}

/// Looks for an endpoint URL starting exactly at `i`; returns the position
/// where its domain suffix starts, if one stands there.
fn try_match_at(line: &str, i: usize) -> (r: Option<usize>)
    ensures
        match r {
            Some(j) => spec_match_at(line@, i as int, j as int),
            None => forall|j2: int| !spec_match_at(line@, i as int, j2),
        },
{
    proof {
        reveal_strlit("https://");
        reveal_strlit(".example-tunnel.com");
    }
    let n = line.unicode_len();
    if !occurs_at(line, "https://", i) {
        return None;
    }
    let mut j: usize = i + 8;
    while j < n && url_char(line.get_char(j))
        invariant
            n == line@.len(),
            i + 8 <= j <= n,
            forall|k: int| i + 8 <= k < j ==> spec_url_char(line@[k]),
        decreases n - j,
    {
        j = j + 1;
    }
    if j == i + 8 {
        assert forall|j2: int| !spec_match_at(line@, i as int, j2) by {
            if spec_match_at(line@, i as int, j2) {
                assert(spec_url_char(line@[i + 8]));
            }
        }
        return None;
    }
    if occurs_at(line, ".example-tunnel.com", j) {
        assert(spec_match_at(line@, i as int, j as int));
        Some(j)
    } else {
        assert forall|j2: int| !spec_match_at(line@, i as int, j2) by {
            if spec_match_at(line@, i as int, j2) {
                if j2 < j {
                    assert(line@.subrange(j2, j2 + spec_domain_suffix().len() as int)[0] == line@[
                        j2]);
                    assert(spec_url_char(line@[j2]));
                } else if j2 > j {
                    assert(spec_url_char(line@[j as int]));
                }
            }
        }
        None
    }
}

/// Scans a log line for the endpoint URL pattern and hands back the leftmost
/// URL it holds, if any.
pub fn find_endpoint(line: &str) -> (r: Option<String>)
    ensures
        r is Some <==> spec_has_endpoint(line@),
        match r {
            Some(u) => spec_leftmost_endpoint(line@, u@),
            None => true,
        },
{
    proof {
        reveal_strlit("https://");
        reveal_strlit(".example-tunnel.com");
    }
    let n = line.unicode_len();
    let mut i: usize = 0;
    loop
        invariant
            n == line@.len(),
            i <= n,
            forall|i2: int, j2: int| 0 <= i2 < i ==> !spec_match_at(line@, i2, j2),
        decreases n - i,
    {
        if i >= n {
            assert forall|i2: int, j2: int| !spec_match_at(line@, i2, j2) by {
                if spec_match_at(line@, i2, j2) {
                    assert(i2 + spec_scheme().len() <= n);
                }
            }
            return None;
        }
        match try_match_at(line, i) {
            Some(j) => {
                proof {
                    reveal_strlit("https://");
                    reveal_strlit(".example-tunnel.com");
                }
                assert(j + 19 <= n);
                let sub = line.substring_char(i, j + 19);
                let u = String::from_str(sub);
                assert(spec_leftmost_endpoint(line@, u@));
                return Some(u);
            },
            None => {
                i = i + 1;
            },
        }
    }
}

/// Whether a line carries the known error marker.
pub fn line_is_error(line: &str) -> (r: bool)
    ensures
        r == spec_contains(line@, spec_error_marker()),
{
    contains_str(line, "QuickTunnel")
}

/// What one log line produced: a one-shot connection announcement with the
/// discovered URL, and whether the line is an error report. A line may be
/// both.
pub struct LineOutcome {
    /// The discovered endpoint URL, on the first matching line only.
    pub connected: Option<String>,
    /// The line carries the error marker.
    pub error: bool,
}

/// The shared watch state both output streams' readers feed: the one-shot
/// readiness flag and the discovered endpoint.
pub struct TunnelWatch {
    /// Whether the endpoint announcement has already been seen this tunnel
    /// lifetime.
    pub fired: bool,
    /// The discovered endpoint URL.
    pub url: Option<String>,
}

impl TunnelWatch {
    /// The discovered URL is only ever present once the flag has fired.
    pub open spec fn wf(self) -> bool {
        self.url is Some ==> self.fired
    }

    /// A fresh watch: nothing seen, no endpoint.
    pub fn new() -> (w: TunnelWatch)
        ensures
            !w.fired,
            w.url is None,
            w.wf(),
    {
        TunnelWatch { fired: false, url: None }
    }

    /// Clears the watch for the next tunnel lifetime: the flag and the
    /// discovered endpoint are both dropped.
    pub fn reset(&mut self)
        ensures
            !final(self).fired,
            final(self).url is None,
            final(self).wf(),
    {
        self.fired = false;
        self.url = None;
    }

    /// Feeds one log line from either output stream. The first line that
    /// carries an endpoint URL fires the flag, stores the URL and announces
    /// the connection; every later match is discarded. A line with the error
    /// marker is flagged whether or not it also announced the endpoint.
    pub fn process_line(&mut self, line: &str) -> (out: LineOutcome)
        requires
            old(self).wf(),
        ensures
            final(self).wf(),
            final(self).fired == spec_fired_step(old(self).fired, line@),
            out.connected is Some <==> spec_announces(old(self).fired, line@),
            out.error == spec_contains(line@, spec_error_marker()),
            match out.connected {
                Some(u) => spec_leftmost_endpoint(line@, u@) && final(self).url == out.connected,
                None => final(self).url == old(self).url,
            },
    {
        let error = line_is_error(line);
        if !self.fired {
            match find_endpoint(line) {
                Some(u) => {
                    self.fired = true;
                    self.url = Some(u.clone());
                    LineOutcome { connected: Some(u), error }
                },
                None => LineOutcome { connected: None, error },
            }
        } else {
            LineOutcome { connected: None, error }
        }
    }
}

/// The flag after one line, as [`TunnelWatch::process_line`] ensures it: it
/// holds afterwards exactly when it held before or the line carries an
/// endpoint URL.
pub open spec fn spec_fired_step(fired: bool, line: Seq<char>) -> bool {
    fired || spec_has_endpoint(line)
}

/// Whether one line announces the connection, as
/// [`TunnelWatch::process_line`] ensures it: only a match on a not-yet-fired
/// watch does.
pub open spec fn spec_announces(fired: bool, line: Seq<char>) -> bool {
    !fired && spec_has_endpoint(line)
}

/// The watch's flag after a sequence of lines is fed through
/// [`TunnelWatch::process_line`], starting from a given flag value.
pub open spec fn spec_fired_after(fired: bool, lines: Seq<Seq<char>>) -> bool
    decreases lines.len(),
{
    if lines.len() == 0 {
        fired
    } else {
        spec_fired_after(spec_fired_step(fired, lines[0]), lines.drop_first())
    }
}

/// How many connection announcements a sequence of lines fed through
/// [`TunnelWatch::process_line`] produces, starting from a given flag value.
pub open spec fn spec_connected_count(fired: bool, lines: Seq<Seq<char>>) -> nat
    decreases lines.len(),
{
    if lines.len() == 0 {
        0
    } else {
        (if spec_announces(fired, lines[0]) {
            1nat
        } else {
            0nat
        }) + spec_connected_count(spec_fired_step(fired, lines[0]), lines.drop_first())
    }
}

/// Once the flag has fired, no later line announces the connection again,
/// whatever the lines hold.
pub proof fn lemma_no_connected_after_fired(lines: Seq<Seq<char>>)
    ensures
        spec_connected_count(true, lines) == 0,
    decreases lines.len(),
{
    if lines.len() > 0 {
        lemma_no_connected_after_fired(lines.drop_first());
    }
}

/// A fresh watch fed any sequence of lines — in particular, any interleaving
/// of the two output streams' lines — announces the connection exactly once
/// if some line carries an endpoint URL, and never otherwise. The flag moves
/// from false to true at most once per tunnel lifetime.
pub proof fn lemma_connected_exactly_once(lines: Seq<Seq<char>>)
    ensures
        spec_connected_count(false, lines) == if exists|k: int|
            0 <= k < lines.len() && spec_has_endpoint(lines[k]) {
            1nat
        } else {
            0nat
        },
        spec_fired_after(false, lines) == exists|k: int|
            0 <= k < lines.len() && spec_has_endpoint(lines[k]),
    decreases lines.len(),
{
    if lines.len() > 0 {
        let rest = lines.drop_first();
        if spec_has_endpoint(lines[0]) {
            lemma_no_connected_after_fired(rest);
            lemma_fired_stays_fired(rest);
            assert(0 <= 0 < lines.len() && spec_has_endpoint(lines[0]));
        } else {
            lemma_connected_exactly_once(rest);
            assert forall|k: int| 0 <= k < lines.len() && spec_has_endpoint(lines[k]) implies (
            exists|k2: int| 0 <= k2 < rest.len() && spec_has_endpoint(rest[k2])) by {
                assert(rest[k - 1] == lines[k]);
            }
            assert forall|k2: int| 0 <= k2 < rest.len() && spec_has_endpoint(rest[k2]) implies (
            exists|k: int| 0 <= k < lines.len() && spec_has_endpoint(lines[k])) by {
                assert(lines[k2 + 1] == rest[k2]);
            }
        }
    }
}

/// A fired flag stays fired, whatever lines follow.
pub proof fn lemma_fired_stays_fired(lines: Seq<Seq<char>>)
    ensures
        spec_fired_after(true, lines),
    decreases lines.len(),
{
    if lines.len() > 0 {
        lemma_fired_stays_fired(lines.drop_first());
    }
}

} // verus!
