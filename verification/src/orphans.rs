//! Orphan cleanup logic: resolving the port-inspection tool, building the
//! command lines that find and kill leftover workers from a prior run, and
//! parsing the inspection tool's output into the process ids to kill.
//!
//! Running the commands is the caller's part; whether a candidate path
//! exists on disk is handed in, and the raw command output is handed back
//! here to parse. Every failure along this path is best-effort: it is
//! logged by the caller and never fatal.

use crate::launcher::DeployMode;
use crate::text::{spec_dec, u64_to_dec};
use vstd::prelude::*;

verus! {

/// Resolves the path of the port-inspection tool (`lsof`). The two fixed
/// candidate locations are probed in order — `/usr/sbin/lsof`, then
/// `/usr/bin/lsof` — and the first that exists wins; the existence answers
/// are handed in, in that order. `None` means the tool is unavailable and
/// the port cleanup is skipped.
pub fn resolve_lsof_path(sbin_exists: bool, bin_exists: bool) -> (r: Option<String>)
    ensures
        r is Some <==> (sbin_exists || bin_exists),
        r matches Some(p) ==> p@ == if sbin_exists {
            "/usr/sbin/lsof"@
        } else {
            "/usr/bin/lsof"@
        },
{
    if sbin_exists {
        Some(String::from_str("/usr/sbin/lsof"))
    } else if bin_exists {
        Some(String::from_str("/usr/bin/lsof"))
    } else {
        None
    }
}

/// The arguments that make the port-inspection tool print, one per line,
/// the process ids of TCP listeners on the given port.
pub fn lsof_listener_args(port: u16) -> (v: Vec<String>)
    ensures
        v@.len() == 2,
        v@[0]@ == "-tiTCP:"@ + spec_dec(port as nat),
        v@[1]@ == "-sTCP:LISTEN"@,
{
    let port_dec = u64_to_dec(port as u64);
    let mut v: Vec<String> = Vec::new();
    v.push(String::from_str("-tiTCP:").concat(port_dec.as_str()));
    v.push(String::from_str("-sTCP:LISTEN"));
    v
}

/// The arguments that make `kill` forcibly terminate one process, given the
/// process id exactly as the inspection tool printed it.
pub fn kill_force_args(pid_line: &str) -> (v: Vec<String>)
    ensures
        v@.len() == 2,
        v@[0]@ == "-9"@,
        v@[1]@ == pid_line@,
{
    let mut v: Vec<String> = Vec::new();
    v.push(String::from_str("-9"));
    v.push(String::from_str(pid_line));
    v
}

/// The arguments that make `pkill` terminate a worker's descendant
/// processes, which every stop attempts before killing the worker itself.
pub fn pkill_descendants_args(pid: u32) -> (v: Vec<String>)
    ensures
        v@.len() == 2,
        v@[0]@ == "-P"@,
        v@[1]@ == spec_dec(pid as nat),
{
    let mut v: Vec<String> = Vec::new();
    v.push(String::from_str("-P"));
    v.push(u64_to_dec(pid as u64));
    v
}

/// The process-name patterns of leftover workers from a prior run, for
/// best-effort termination by name match: the tunnel client always, and in
/// development mode also the dev-server task.
pub fn orphan_patterns(mode: DeployMode) -> (v: Vec<String>)
    ensures
        v@.len() == match mode {
            DeployMode::Packaged => 1int,
            DeployMode::Development => 2int,
        },
        v@[0]@ == "cloudflared tunnel"@,
        mode is Development ==> v@[1]@ == "npm run dev:server"@,
{
    let mut v: Vec<String> = Vec::new();
    v.push(String::from_str("cloudflared tunnel"));
    if let DeployMode::Development = mode {
        v.push(String::from_str("npm run dev:server"));
    }
    v
}

/// The text split at newlines: every newline ends a line, and the trailing
/// text after the last newline is a line only if it is non-empty.
pub open spec fn spec_lines(s: Seq<char>) -> Seq<Seq<char>>
    decreases s.len(),
{
    if s.len() == 0 {
        Seq::empty()
    } else if s[0] == '\n' {
        seq![Seq::<char>::empty()] + spec_lines(s.drop_first())
    } else {
        let rest = spec_lines(s.drop_first());
        if rest.len() == 0 {
            seq![seq![s[0]]]
        } else {
            seq![seq![s[0]] + rest[0]] + rest.drop_first()
        }
    }
}

/// A character that is only spacing on an output line.
pub open spec fn spec_is_space(c: char) -> bool {
    c == ' ' || c == '\t' || c == '\r'
}

/// A line with nothing but spacing on it.
pub open spec fn spec_blank(l: Seq<char>) -> bool {
    forall|k: int| 0 <= k < l.len() ==> spec_is_space(l[k])
}

/// The inspection tool's output reduced to the process ids to kill: its
/// non-blank lines, in order.
pub open spec fn spec_pid_lines(s: Seq<char>) -> Seq<Seq<char>> {
    spec_lines(s).filter(|l: Seq<char>| !spec_blank(l))
}

/// Whether a line holds nothing but spacing.
pub fn is_blank(l: &str) -> (r: bool)
    ensures
        r == spec_blank(l@),
{
    let n = l.unicode_len();
    let mut i: usize = 0;
    while i < n
        invariant
            n == l@.len(),
            i <= n,
            forall|k: int| 0 <= k < i ==> spec_is_space(l@[k]),
        decreases n - i,
    {
        let c = l.get_char(i);
        if !(c == ' ' || c == '\t' || c == '\r') {
            return false;
        }
        i = i + 1;
    }
    true
}

/// Splits text into its lines.
pub fn split_lines(s: &str) -> (v: Vec<String>)
    ensures
        v@.map_values(|l: String| l@) == spec_lines(s@),
    decreases s@.len(),
{
    let n = s.unicode_len();
    if n == 0 {
        let v: Vec<String> = Vec::new();
        assert(v@.map_values(|l: String| l@) =~= spec_lines(s@));
        return v;
    }
    let tail = s.substring_char(1, n);
    proof {
        assert(tail@ =~= s@.drop_first());
    }
    let mut rest = split_lines(tail);
    if s.get_char(0) == '\n' {
        rest.insert(0, String::new());
        assert(rest@.map_values(|l: String| l@) =~= spec_lines(s@));
        rest
    } else {
        let head_char = s.substring_char(0, 1);
        proof {
            assert(head_char@ =~= seq![s@[0]]);
        }
        if rest.len() == 0 {
            let mut v: Vec<String> = Vec::new();
            v.push(String::from_str(head_char));
            assert(v@.map_values(|l: String| l@) =~= spec_lines(s@));
            v
        } else {
            let old_first = rest.remove(0);
            let first = String::from_str(head_char).concat(old_first.as_str());
            rest.insert(0, first);
            assert(rest@.map_values(|l: String| l@) =~= spec_lines(s@));
            rest
        }
    }
}

/// Parses the inspection tool's raw output into the process ids to kill:
/// its non-blank lines, in order, exactly as printed.
pub fn listener_pids(output: &str) -> (v: Vec<String>)
    ensures
        v@.map_values(|p: String| p@) == spec_pid_lines(output@),
{
    let lines = split_lines(output);
    let mut v: Vec<String> = Vec::new();
    let mut i: usize = 0;
    proof {
        reveal(Seq::filter);
        assert(lines@.subrange(0, 0).map_values(|l: String| l@) =~= Seq::<Seq<char>>::empty());
        assert(v@.map_values(|p: String| p@) =~= Seq::<Seq<char>>::empty());
    }
    while i < lines.len()
        invariant
            i <= lines@.len(),
            v@.map_values(|p: String| p@) == lines@.subrange(0, i as int).map_values(
                |l: String| l@,
            ).filter(|l: Seq<char>| !spec_blank(l)),
        decreases lines@.len() - i,
    {
        proof {
            reveal(Seq::filter);
            assert(lines@.subrange(0, i + 1).map_values(|l: String| l@).drop_last()
                =~= lines@.subrange(0, i as int).map_values(|l: String| l@));
            assert(lines@.subrange(0, i + 1).map_values(|l: String| l@).last() == lines@[
                i as int]@);
        }
        if !is_blank(lines[i].as_str()) {
            let p = lines[i].clone();
            v.push(p);
        }
        i = i + 1;
    }
    proof {
        assert(lines@.subrange(0, lines@.len() as int) =~= lines@);
    }
    v
}

} // verus!
