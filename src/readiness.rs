use vstd::prelude::*;

use crate::text::{
    decimal, decimal_text, has_prefix, is_whitespace, is_ws, matches_at, same_text, starts_with,
};

verus! {

/// First position at or after `i` that holds no white space (or the end).
pub open spec fn word_start(s: Seq<char>, i: int) -> int
    decreases s.len() - i,
{
    if i < 0 || i >= s.len() || !is_ws(s[i]) {
        i
    } else {
        word_start(s, i + 1)
    }
}

/// First position at or after `i` that holds white space (or the end).
pub open spec fn word_end(s: Seq<char>, i: int) -> int
    decreases s.len() - i,
{
    if i < 0 || i >= s.len() || is_ws(s[i]) {
        i
    } else {
        word_end(s, i + 1)
    }
}

/// The value of the first white-space separated word at or after `i` that
/// begins with `role=`, without that prefix.
pub open spec fn role_word_from(s: Seq<char>, i: int) -> Option<Seq<char>>
    decreases s.len() - i,
{
    let a = word_start(s, i);
    let b = word_end(s, a);
    if i < 0 || a < i || a >= s.len() || b <= a || b > s.len() {
        None
    } else if has_prefix(s.subrange(a, b), "role="@) {
        Some(s.subrange(a + 5, b))
    } else {
        role_word_from(s, b)
    }
}

/// The role a readiness line announces: the line begins with `READY ` and the
/// role is the value of its first word of the form `role=<value>`.
pub open spec fn ready_role(line: Seq<char>) -> Option<Seq<char>> {
    if has_prefix(line, "READY "@) {
        role_word_from(line, 0)
    } else {
        None
    }
}

/// The readiness line a role writes once it is fully initialised.
pub open spec fn ready_line(role: Seq<char>, sip: Seq<char>, codec: Seq<char>, ptime_ms: nat) -> Seq<
    char,
> {
    "READY role="@ + role + " sip="@ + sip + " codec="@ + codec + " ptime="@ + decimal(ptime_ms)
        + "ms"@
}

proof fn lemma_word_start_bounds(s: Seq<char>, i: int)
    requires
        0 <= i <= s.len(),
    ensures
        i <= word_start(s, i) <= s.len(),
    decreases s.len() - i,
{
    if i < s.len() && is_ws(s[i]) {
        lemma_word_start_bounds(s, i + 1);
    }
}

proof fn lemma_word_end_bounds(s: Seq<char>, i: int)
    requires
        0 <= i <= s.len(),
    ensures
        i <= word_end(s, i) <= s.len(),
    decreases s.len() - i,
{
    if i < s.len() && !is_ws(s[i]) {
        lemma_word_end_bounds(s, i + 1);
    }
}

/// The role announced by a readiness line, or `None` when the line is not a
/// readiness line or names no role.
pub fn parse_ready_role(line: &str) -> (r: Option<&str>)
    ensures
        match ready_role(line@) {
            None => r is None,
            Some(v) => r matches Some(x) && x@ == v,
        },
{
    let prefix = "READY ";
    if !starts_with(line, prefix) {
        return None;
    }
    let n = line.unicode_len();
    let mut i: usize = 0;
    while i < n
        invariant
            n == line@.len(),
            i <= n,
            has_prefix(line@, prefix@),
            ready_role(line@) == role_word_from(line@, i as int),
        decreases n - i,
    {
        let mut a: usize = i;
        while a < n && is_whitespace(line.get_char(a))
            invariant
                n == line@.len(),
                i <= a <= n,
                word_start(line@, i as int) == word_start(line@, a as int),
            decreases n - a,
        {
            a = a + 1;
        }
        if a >= n {
            return None;
        }
        let mut b: usize = a;
        while b < n && !is_whitespace(line.get_char(b))
            invariant
                n == line@.len(),
                a <= b <= n,
                word_end(line@, a as int) == word_end(line@, b as int),
            decreases n - b,
        {
            b = b + 1;
        }
        let key = "role=";
        proof {
            reveal_strlit("role=");
            lemma_word_start_bounds(line@, i as int);
            lemma_word_end_bounds(line@, a as int + 1);
            assert(word_start(line@, a as int) == a);
            assert(word_end(line@, a as int) == word_end(line@, a + 1));
            assert(word_end(line@, b as int) == b);
        }
        let ghost w = line@.subrange(a as int, b as int);
        if b - a >= 5 && matches_at(line, key, a) {
            proof {
                assert(w.subrange(0, 5) =~= line@.subrange(a as int, a + 5));
            }
            let v = line.substring_char(a + 5, b);
            return Some(v);
        }
        proof {
            if b - a >= 5 {
                assert(w.subrange(0, 5) =~= line@.subrange(a as int, a + 5));
            }
        }
        i = b;
    }
    proof {
        lemma_word_start_bounds(line@, n as int);
    }
    None
}

/// The readiness line for a role, its SIP address, its codec and its
/// packetisation time.
pub fn ready_line_text(role: &str, sip: &str, codec: &str, ptime_ms: u32) -> (r: String)
    ensures
        r@ == ready_line(role@, sip@, codec@, ptime_ms as nat),
{
    let mut s = String::from_str("READY role=");
    s.append(role);
    s.append(" sip=");
    s.append(sip);
    s.append(" codec=");
    s.append(codec);
    s.append(" ptime=");
    let d = decimal_text(ptime_ms as u64);
    s.append(d.as_str());
    s.append("ms");
    s
}

proof fn lemma_word_end_run(s: Seq<char>, i: int, j: int)
    requires
        0 <= i <= j <= s.len(),
        forall|k: int| i <= k < j ==> !is_ws(#[trigger] s[k]),
        j == s.len() || is_ws(s[j]),
    ensures
        word_end(s, i) == j,
    decreases j - i,
{
    if i < j {
        lemma_word_end_run(s, i + 1, j);
    }
}

/// The readiness line a role writes is read back as that role, whatever its
/// address, codec and packet time, provided the role name holds no white
/// space.
pub proof fn lemma_ready_line_round_trip(role: Seq<char>, sip: Seq<char>, codec: Seq<char>, ptime_ms: nat)
    requires
        forall|k: int| 0 <= k < role.len() ==> !is_ws(#[trigger] role[k]),
    ensures
        ready_role(ready_line(role, sip, codec, ptime_ms)) == Some(role),
{
    reveal_strlit("READY role=");
    reveal_strlit(" sip=");
    reveal_strlit("READY ");
    reveal_strlit("role=");
    let line = ready_line(role, sip, codec, ptime_ms);
    let head = "READY role="@ + role;
    let tail = " sip="@ + sip + " codec="@ + codec + " ptime="@ + decimal(ptime_ms) + "ms"@;
    assert(line =~= head + tail);
    let n = role.len() as int;
    assert(tail[0] == ' ');
    assert(line[11 + n] == ' ');
    assert forall|k: int| 0 <= k < 11 + n implies line[k] == head[k] by {}
    assert(line.subrange(0, 6) =~= "READY "@);
    assert forall|k: int| 0 <= k < 5 implies !is_ws(#[trigger] line[k]) by {}
    lemma_word_end_run(line, 0, 5);
    assert(word_start(line, 0) == 0);
    assert(line.subrange(0, 5)[0] != "role="@[0]);
    assert(word_start(line, 5) == word_start(line, 6));
    assert(word_start(line, 6) == 6);
    assert forall|k: int| 6 <= k < 11 + n implies !is_ws(#[trigger] line[k]) by {
        if k >= 11 {
            assert(line[k] == role[k - 11]);
        }
    }
    lemma_word_end_run(line, 6, 11 + n);
    assert(line.subrange(6, 11 + n).subrange(0, 5) =~= "role="@);
    assert(line.subrange(11, 11 + n) =~= role);
    assert(has_prefix(line, "READY "@));
    assert(!has_prefix(line.subrange(0, 5), "role="@));
    assert(role_word_from(line, 0) == role_word_from(line, 5));
    assert(has_prefix(line.subrange(6, 11 + n), "role="@));
    assert(role_word_from(line, 5) == Some(line.subrange(11, 11 + n)));
}

/// Whether `role` occurs among the roles seen so far.
pub open spec fn role_seen(seen: Seq<String>, role: Seq<char>) -> bool {
    exists|j: int| 0 <= j < seen.len() && #[trigger] seen[j]@ == role
}

/// Whether every expected role occurs among the roles seen so far.
pub open spec fn all_seen(expected: Seq<String>, seen: Seq<String>) -> bool {
    forall|i: int| 0 <= i < expected.len() ==> role_seen(seen, #[trigger] expected[i]@)
}

/// Decision of the readiness gate.
#[derive(Debug, Clone, Copy, PartialEq, Eq, Structural)]
pub enum ReadyWait {
    /// Every expected role reported ready.
    Satisfied,
    /// The wait elapsed first; the orchestrator proceeds anyway.
    TimedOut,
    /// Keep collecting readiness reports.
    KeepWaiting,
}

/// Whether `role` is among `seen`.
fn seen_role(seen: &Vec<String>, role: &String) -> (r: bool)
    ensures
        r == role_seen(seen@, role@),
{
    let mut j: usize = 0;
    while j < seen.len()
        invariant
            j <= seen@.len(),
            forall|k: int| 0 <= k < j ==> #[trigger] seen@[k]@ != role@,
        decreases seen.len() - j,
    {
        if same_text(seen[j].as_str(), role.as_str()) {
            return true;
        }
        j = j + 1;
    }
    false
}

/// The readiness gate: a best-effort barrier that is passed once every
/// expected role has reported ready, or once `ready_ms` have elapsed,
/// whichever comes first.
pub fn wait_for_ready(expected: &Vec<String>, seen: &Vec<String>, elapsed_ms: u64, ready_ms: u64) -> (r:
    ReadyWait)
    ensures
        all_seen(expected@, seen@) ==> r == ReadyWait::Satisfied,
        !all_seen(expected@, seen@) && elapsed_ms >= ready_ms ==> r == ReadyWait::TimedOut,
        !all_seen(expected@, seen@) && elapsed_ms < ready_ms ==> r == ReadyWait::KeepWaiting,
{
    let mut i: usize = 0;
    while i < expected.len()
        invariant
            i <= expected@.len(),
            forall|k: int| 0 <= k < i ==> role_seen(seen@, #[trigger] expected@[k]@),
        decreases expected.len() - i,
    {
        if !seen_role(seen, &expected[i]) {
            assert(!role_seen(seen@, expected@[i as int]@));
            if elapsed_ms >= ready_ms {
                return ReadyWait::TimedOut;
            } else {
                return ReadyWait::KeepWaiting;
            }
        }
        i = i + 1;
    }
    ReadyWait::Satisfied
}

} // verus!
