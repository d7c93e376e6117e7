//! The time resolver: per-thread enable/disable state, the one-time
//! auto-detection step, and the read-with-fallback rule that turns a
//! timestamp file's content into a duration.
//!
//! The resolver itself performs no input or output. The caller that owns a
//! thread's state hands in the surrounding facts as plain values — the
//! environment variable's value, the thread's name, the bytes found at the
//! configured path — and the functions here make every decision and are
//! verified against the state machine below.
//!
//! State machine, per thread: the initial state is `Undecided`. The first
//! `time_source` call on an undecided state runs auto-detection exactly
//! once and moves to `Enabled` (with the detected path) or `Disabled`;
//! both are left again only by an explicit `enable` or `disable` call,
//! never by auto-detection.

use vstd::prelude::*;

use crate::duration::Duration;
use crate::parse::{all_digits, dec_val, parse_spec, trim};

verus! {

/// A thread's faketime record: not yet decided, decided off, or decided on
/// with the timestamp file to read.
#[derive(Debug, PartialEq, Eq)]
pub enum ThreadTimeState {
    Undecided,
    Disabled,
    Enabled { path: String },
}

/// The mathematical value of a `ThreadTimeState`: the path as a character
/// sequence.
pub enum StateView {
    Undecided,
    Disabled,
    Enabled(Seq<char>),
}

impl View for ThreadTimeState {
    type V = StateView;

    open spec fn view(&self) -> StateView {
        match self {
            ThreadTimeState::Undecided => StateView::Undecided,
            ThreadTimeState::Disabled => StateView::Disabled,
            ThreadTimeState::Enabled { path } => StateView::Enabled(path@),
        }
    }
}

/// Where a thread's time comes from on one query: a timestamp file, or the
/// real clock.
#[derive(Debug, PartialEq, Eq)]
pub enum TimeSource {
    Fake { path: String },
    Real,
}

/// The thread-name convention: a name beginning with this prefix carries a
/// timestamp file path in its remainder.
pub open spec fn faketime_prefix() -> Seq<char> {
    seq!['F', 'A', 'K', 'E', 'T', 'I', 'M', 'E', '=']
}

pub open spec fn opt_chars(o: Option<String>) -> Option<Seq<char>> {
    match o {
        Some(s) => Some(s@),
        None => None,
    }
}

pub open spec fn content_view(o: Option<Vec<u8>>) -> Option<Seq<u8>> {
    match o {
        Some(c) => Some(c@),
        None => None,
    }
}

/// Auto-detection: the environment variable's value, when present, names
/// the timestamp file; otherwise a thread name starting with the prefix
/// carries the path in its remainder; otherwise no source is detected.
pub open spec fn spec_detect(env_value: Option<Seq<char>>, thread_name: Option<Seq<char>>) -> Option<
    Seq<char>,
> {
    match env_value {
        Some(p) => Some(p),
        None => match thread_name {
            Some(n) => if n.len() >= 9 && n.subrange(0, 9) == faketime_prefix() {
                Some(n.subrange(9, n.len() as int))
            } else {
                None
            },
            None => None,
        },
    }
}

/// The state after one time query: auto-detection decides an undecided
/// state exactly once; a decided state never moves by itself.
pub open spec fn spec_step(
    s: StateView,
    env_value: Option<Seq<char>>,
    thread_name: Option<Seq<char>>,
) -> StateView {
    match s {
        StateView::Undecided => match spec_detect(env_value, thread_name) {
            Some(p) => StateView::Enabled(p),
            None => StateView::Disabled,
        },
        _ => s,
    }
}

/// The source consulted on one time query: the enabled state's file, or
/// the real clock.
pub open spec fn spec_source(
    s: StateView,
    env_value: Option<Seq<char>>,
    thread_name: Option<Seq<char>>,
) -> Option<Seq<char>> {
    match spec_step(s, env_value, thread_name) {
        StateView::Enabled(p) => Some(p),
        _ => None,
    }
}

/// Unconditionally switches the thread's state to `Enabled` with the given
/// timestamp file, overriding any earlier decision.
pub fn enable(state: &mut ThreadTimeState, path: String)
    ensures
        final(state)@ == StateView::Enabled(path@),
{
    *state = ThreadTimeState::Enabled { path };
}

/// Unconditionally switches the thread's state to `Disabled`; later time
/// queries use the real clock until `enable` is called.
pub fn disable(state: &mut ThreadTimeState)
    ensures
        final(state)@ == StateView::Disabled,
{
    *state = ThreadTimeState::Disabled;
}

fn prefix_char(i: usize) -> (c: char)
    requires
        i < 9,
    ensures
        c == faketime_prefix()[i as int],
{
    if i == 0 {
        'F'
    } else if i == 1 {
        'A'
    } else if i == 2 {
        'K'
    } else if i == 3 {
        'E'
    } else if i == 4 {
        'T'
    } else if i == 5 {
        'I'
    } else if i == 6 {
        'M'
    } else if i == 7 {
        'E'
    } else {
        '='
    }
}

/// The thread-name rule of auto-detection: the path after the prefix, when
/// the name begins with it.
fn name_suffix(name: &String) -> (r: Option<String>)
    ensures
        match r {
            Some(p) => spec_detect(None, Some(name@)) == Some(p@),
            None => spec_detect(None, Some(name@)) is None,
        },
{
    let s = name.as_str();
    let n: usize = s.unicode_len();
    if n < 9 {
        return None;
    }
    let mut i: usize = 0;
    let mut ok = true;
    while i < 9
        invariant
            i <= 9,
            name@.len() >= 9,
            s@ == name@,
            ok <==> (forall|j: int| 0 <= j < i ==> name@[j] == faketime_prefix()[j]),
        decreases 9 - i,
    {
        let c = s.get_char(i);
        if c != prefix_char(i) {
            ok = false;
        }
        i += 1;
    }
    if ok {
        proof {
            assert(name@.subrange(0, 9) =~= faketime_prefix());
        }
        let rest = s.substring_char(9, n);
        Some(rest.to_owned())
    } else {
        proof {
            let j = choose|j: int| 0 <= j < 9 && name@[j] != faketime_prefix()[j];
            assert(name@.subrange(0, 9)[j] == name@[j]);
        }
        None
    }
}

/// Decides where the calling thread's time comes from on this query, and
/// runs auto-detection when the state is still undecided. The returned
/// source and the new state follow `spec_source` and `spec_step` exactly;
/// in particular a decided state is never changed here.
pub fn time_source(
    state: &mut ThreadTimeState,
    env_value: Option<String>,
    thread_name: Option<String>,
) -> (src: TimeSource)
    ensures
        final(state)@ == spec_step(old(state)@, opt_chars(env_value), opt_chars(thread_name)),
        match src {
            TimeSource::Fake { path } => spec_source(
                old(state)@,
                opt_chars(env_value),
                opt_chars(thread_name),
            ) == Some(path@),
            TimeSource::Real => spec_source(
                old(state)@,
                opt_chars(env_value),
                opt_chars(thread_name),
            ) is None,
        },
{
    match &*state {
        ThreadTimeState::Enabled { path } => TimeSource::Fake { path: path.clone() },
        ThreadTimeState::Disabled => TimeSource::Real,
        ThreadTimeState::Undecided => {
            let detected: Option<String> = match env_value {
                Some(p) => Some(p),
                None => match thread_name {
                    Some(name) => name_suffix(&name),
                    None => None,
                },
            };
            match detected {
                Some(p) => {
                    let path = p.clone();
                    *state = ThreadTimeState::Enabled { path };
                    TimeSource::Fake { path: p }
                },
                None => {
                    *state = ThreadTimeState::Disabled;
                    TimeSource::Real
                },
            }
        },
    }
}

/// What one resolution returns: the parsed milliseconds when the file's
/// content is valid, the real clock's value otherwise.
pub open spec fn spec_resolve(content: Option<Seq<u8>>, system_time: Duration) -> Duration {
    match content {
        Some(c) => match parse_spec(c) {
            Some(m) => Duration::spec_from_millis(m),
            None => system_time,
        },
        None => system_time,
    }
}

/// Read-with-fallback: turns the bytes found at the configured path — or
/// `None` when the file could not be read — into a duration, falling back
/// to the given real-clock value on any invalid content.
pub fn read_or_system(content: Option<Vec<u8>>, system_time: Duration) -> (r: Duration)
    requires
        system_time.wf(),
    ensures
        r == spec_resolve(content_view(content), system_time),
        r.wf(),
{
    match content {
        Some(c) => match crate::parse::parse_millis(&c) {
            Some(m) => Duration::from_millis(m),
            None => system_time,
        },
        None => system_time,
    }
}

/// Law: a state that has left `Undecided` is stable — no later time query
/// re-runs auto-detection, whatever the environment variable or the thread
/// name say by then.
pub proof fn lemma_decided_state_is_stable(
    s: StateView,
    env_value: Option<Seq<char>>,
    thread_name: Option<Seq<char>>,
)
    requires
        s !is Undecided,
    ensures
        spec_step(s, env_value, thread_name) == s,
{
}

/// Law: after an explicit `enable` with some path, every later time query
/// reads that path — the same source whatever the environment holds — and
/// leaves the state as it is.
pub proof fn lemma_enable_is_sticky(
    path: Seq<char>,
    env1: Option<Seq<char>>,
    name1: Option<Seq<char>>,
    env2: Option<Seq<char>>,
    name2: Option<Seq<char>>,
)
    ensures
        spec_step(StateView::Enabled(path), env1, name1) == StateView::Enabled(path),
        spec_source(StateView::Enabled(path), env1, name1) == Some(path),
        spec_source(StateView::Enabled(path), env1, name1) == spec_source(
            StateView::Enabled(path),
            env2,
            name2,
        ),
{
}

/// Law: resolution is idempotent — against an unchanged, valid file the
/// resolved duration is the same on every call, whatever the real clock
/// reads meanwhile. The mock layer injects no drift.
pub proof fn lemma_resolve_idempotent(content: Seq<u8>, sys1: Duration, sys2: Duration)
    requires
        parse_spec(content) is Some,
    ensures
        spec_resolve(Some(content), sys1) == spec_resolve(Some(content), sys2),
{
}

/// Law: publishing `m` milliseconds and resolving against that content
/// yields the duration whose whole seconds are `m / 1000` and whose
/// sub-second milliseconds are `m % 1000`. The hypotheses are exactly what
/// `format_millis(m)` ensures of the published bytes, with any surrounding
/// whitespace tolerated.
pub proof fn lemma_publish_then_resolve(content: Seq<u8>, m: u64, sys: Duration)
    requires
        trim(content).len() > 0,
        all_digits(trim(content)),
        dec_val(trim(content)) == m,
    ensures
        spec_resolve(Some(content), sys) == Duration::spec_from_millis(m),
        Duration::spec_from_millis(m).spec_secs() == m / 1000,
        Duration::spec_from_millis(m).spec_nanos() / 1_000_000 == m % 1000,
{
    crate::parse::lemma_millis_roundtrip(content, m);
    Duration::lemma_from_millis_components(m);
}

} // verus!
