use vstd::prelude::*;
use crate::backend::{BackendState, BuilderState, built_backend, fresh_backend, default_path, MAX_SIZE,
    BUFFER_SIZE, CHANNEL_SIZE};
use crate::clock::{is_ascii_digit, stamp_at, rfc3339_text_of};
use crate::rotation::{file_stem_of, extension_of, with_file_name_of, rotation_target};
use crate::log::{RegistryState, registry_after_start, registry_after_shutdown, joins_worker, dispatches};
use crate::text::{line_text, entry_len, utf8_len, rotated_name, decimal, digit_char, default_extension};
use vstd::utf8::encode_utf8;
use crate::worker::{
    ActionView, CommandView, EventView, NextView, PhaseView, WorkerView, accepts, reaches_limit, worker_step,
};

verus! {

/// The line that the worker in phase `p` still has to hand out for writing.
pub open spec fn carried_line(p: PhaseView) -> Option<Seq<char>> {
    match p {
        PhaseView::Inspecting { next: NextView::Rotate { line, .. }, .. } => Some(line),
        PhaseView::Flushing { next: NextView::Rotate { line, .. } } => Some(line),
        PhaseView::Measuring { next: NextView::Rotate { line, .. } } => Some(line),
        PhaseView::RotateFlushing { line, .. } => Some(line),
        PhaseView::ReadingClock { line, .. } => Some(line),
        PhaseView::Renaming { line, .. } => Some(line),
        PhaseView::Opening { line, .. } => Some(line),
        _ => None,
    }
}

/// An upper bound on the answered requests left before the worker in phase
/// `p` is done with its command.
pub open spec fn remaining_steps(p: PhaseView) -> nat {
    let rotation: nat = 9;
    match p {
        PhaseView::Ready => 0,
        PhaseView::Stopped => 0,
        PhaseView::Measuring { next } => 1 + if next is Rotate { rotation } else { 0 },
        PhaseView::Flushing { next } => 2 + if next is Rotate { rotation } else { 0 },
        PhaseView::Inspecting { next, .. } => 3 + if next is Rotate { rotation } else { 0 },
        PhaseView::Writing { .. } => 4,
        PhaseView::Opening { .. } => 5,
        PhaseView::Renaming { .. } => 6,
        PhaseView::ReadingClock { .. } => 7,
        PhaseView::RotateFlushing { .. } => 8,
    }
}

/// The worker's states and requests over a run of events, `ts` being the
/// timestamp of any message that starts in the run.
pub open spec fn run(w: WorkerView, es: Seq<EventView>, ts: Seq<char>) -> (WorkerView, Seq<ActionView>)
    decreases es.len(),
{
    if es.len() == 0 {
        (w, Seq::empty())
    } else {
        let (w1, a) = worker_step(w, es[0], ts);
        let (wn, rest) = run(w1, es.drop_first(), ts);
        (wn, seq![a] + rest)
    }
}

/// The lines that a sequence of requests hands out for writing, in order.
pub open spec fn lines_written(acts: Seq<ActionView>) -> Seq<Seq<char>>
    decreases acts.len(),
{
    if acts.len() == 0 {
        Seq::empty()
    } else {
        let rest = lines_written(acts.drop_first());
        match acts[0] {
            ActionView::WriteLine(l) => seq![l] + rest,
            _ => rest,
        }
    }
}

/// Whether a run answers each request it meets and brings one command to
/// its end: it ends with the worker waiting for a command or stopped, and
/// not before.
pub open spec fn finishes(w: WorkerView, es: Seq<EventView>, ts: Seq<char>) -> bool
    decreases es.len(),
{
    es.len() > 0 && accepts(w.phase, es[0]) && {
        let (w1, a) = worker_step(w, es[0], ts);
        if es.len() == 1 {
            w1.phase is Ready || w1.phase is Stopped
        } else {
            !(w1.phase is Ready) && !(w1.phase is Stopped) && finishes(w1, es.drop_first(), ts)
        }
    }
}

/// Whether a run answers each request it meets and finishes one command,
/// leaving the worker waiting for the next one.
pub open spec fn completes(w: WorkerView, es: Seq<EventView>, ts: Seq<char>) -> bool {
    finishes(w, es, ts) && run(w, es, ts).0.phase is Ready
}

pub open spec fn option_seq(o: Option<Seq<char>>) -> Seq<Seq<char>> {
    match o {
        Some(l) => seq![l],
        None => Seq::empty(),
    }
}

/// A message is stamped and framed as `[ts]: msg` with a newline, counted
/// as that line's byte length, and the file is rotated first exactly when
/// the line makes it reach its size limit; otherwise the line is written at
/// once, and the file's count with it stays below the limit.
pub proof fn law_message_start(b: BackendState, msg: Seq<char>, ts: Seq<char>)
    ensures
        ({
            let w = (WorkerView { backend: b, phase: PhaseView::Ready });
            let (w2, a) = worker_step(w, EventView::Command(CommandView::Message(msg)), ts);
            let line = line_text(ts, msg);
            &&& w2.backend == b
            &&& entry_len(line) == utf8_len(line) as usize as u64
            &&& reaches_limit(b, entry_len(line)) ==> (a == ActionView::InspectBuffer
                && carried_line(w2.phase) == Some(line))
            &&& !reaches_limit(b, entry_len(line)) ==> (a == ActionView::WriteLine(line)
                && w2.phase == (PhaseView::Writing { line, len: entry_len(line) })
                && b.file_size + entry_len(line) < b.max_size)
        }),
{
}

/// Commands other than a message write nothing when they start.
pub proof fn law_other_commands_write_nothing(b: BackendState, c: CommandView, ts: Seq<char>)
    requires
        !(c is Message),
    ensures
        ({
            let (w2, a) = worker_step((WorkerView { backend: b, phase: PhaseView::Ready }), EventView::Command(c), ts);
            &&& !(a is WriteLine)
            &&& carried_line(w2.phase) is None
            &&& w2.backend == b
        }),
{
}

/// A line is neither lost nor handed out twice: on every answered request
/// (outside a command's start) the worker either hands out the line it
/// carries, and then carries none, or keeps carrying what it carried.
pub proof fn law_line_conserved(w: WorkerView, e: EventView, ts: Seq<char>)
    requires
        accepts(w.phase, e),
        !(w.phase is Ready),
    ensures
        ({
            let (w2, a) = worker_step(w, e, ts);
            match a {
                ActionView::WriteLine(x) => carried_line(w.phase) == Some(x) && carried_line(w2.phase) is None,
                _ => carried_line(w2.phase) == carried_line(w.phase),
            }
        }),
{
}

/// Each answered request brings the worker closer to the end of its
/// command, so that a command is done within thirteen answered requests.
pub proof fn law_progress(w: WorkerView, e: EventView, ts: Seq<char>)
    requires
        accepts(w.phase, e),
    ensures
        ({
            let (w2, a) = worker_step(w, e, ts);
            &&& (!(w.phase is Ready) && !(w.phase is Stopped)) ==> remaining_steps(w2.phase) < remaining_steps(w.phase)
            &&& remaining_steps(w2.phase) <= 12
            &&& (remaining_steps(w2.phase) == 0 <==> (w2.phase is Ready || w2.phase is Stopped))
        }),
{
}

proof fn lemma_run_writes_carried(w: WorkerView, es: Seq<EventView>, ts: Seq<char>)
    requires
        !(w.phase is Ready),
        finishes(w, es, ts),
    ensures
        lines_written(run(w, es, ts).1) == option_seq(carried_line(w.phase)),
    decreases es.len(),
{
    let (w1, a) = worker_step(w, es[0], ts);
    law_line_conserved(w, es[0], ts);
    let rest = run(w1, es.drop_first(), ts).1;
    assert(run(w, es, ts).1 == seq![a] + rest);
    assert((seq![a] + rest).drop_first() =~= rest);
    if es.len() == 1 {
        assert(es.drop_first().len() == 0);
        assert(rest == Seq::<ActionView>::empty());
        assert(lines_written(rest) == Seq::<Seq<char>>::empty());
    } else {
        lemma_run_writes_carried(w1, es.drop_first(), ts);
    }
    match a {
        ActionView::WriteLine(x) => {
            assert(lines_written(seq![a] + rest) =~= seq![x] + lines_written(rest));
        },
        _ => {
            assert(lines_written(seq![a] + rest) =~= lines_written(rest));
        },
    }
}

/// Every message is written exactly once: a run that handles a message
/// command to its end, answering each request, hands out exactly one line
/// for writing, `[ts]: msg` and a newline, whether or not the file was
/// rotated and whatever the file operations reported.
pub proof fn law_message_written_once(b: BackendState, msg: Seq<char>, es: Seq<EventView>, ts: Seq<char>)
    requires
        es.len() > 0,
        es[0] == EventView::Command(CommandView::Message(msg)),
        completes((WorkerView { backend: b, phase: PhaseView::Ready }), es, ts),
    ensures
        lines_written(run((WorkerView { backend: b, phase: PhaseView::Ready }), es, ts).1)
            == seq![line_text(ts, msg)],
{
    let w = WorkerView { backend: b, phase: PhaseView::Ready };
    let (w1, a) = worker_step(w, es[0], ts);
    law_message_start(b, msg, ts);
    assert(!(w1.phase is Ready));
    assert(es.len() > 1);
    lemma_run_writes_carried(w1, es.drop_first(), ts);
    let rest = run(w1, es.drop_first(), ts).1;
    assert(run(w, es, ts).1 == seq![a] + rest);
    assert((seq![a] + rest).drop_first() =~= rest);
    match a {
        ActionView::WriteLine(x) => {
            assert(lines_written(seq![a] + rest) =~= seq![x] + lines_written(rest));
            assert(seq![x] + Seq::<Seq<char>>::empty() =~= seq![line_text(ts, msg)]);
        },
        _ => {
            assert(lines_written(seq![a] + rest) =~= lines_written(rest));
        },
    }
}

/// The configuration (path, size limit, buffer and channel sizes) changes
/// only when an update is installed; the rotation counter changes only when
/// a rotation completes (the new file opened), by one (wrapping), and the
/// file's count then restarts at zero.
pub proof fn law_configuration_and_counter(w: WorkerView, e: EventView, ts: Seq<char>)
    ensures
        ({
            let (w2, a) = worker_step(w, e, ts);
            let b = w.backend;
            let b2 = w2.backend;
            let rotated = w.phase is Opening && e == EventView::Opened(true);
            &&& a != ActionView::InstallUpdate ==> {
                &&& b2.path == b.path
                &&& b2.max_size == b.max_size
                &&& b2.buffer_size == b.buffer_size
                &&& b2.channel_size == b.channel_size
                &&& b2.file_counter == if rotated { b.file_counter.wrapping_add(1) } else { b.file_counter }
                &&& rotated ==> b2.file_size == 0
            }
        }),
{
}

/// A rotation is counted only where the old file was renamed away: the
/// worker comes to open a new file only from a successful rename, and only
/// there is the counter raised.
pub proof fn law_rotation_needs_rename(w: WorkerView, e: EventView, ts: Seq<char>)
    ensures
        ({
            let (w2, a) = worker_step(w, e, ts);
            &&& (w2.phase is Opening && !(w.phase is Opening)) ==> (w.phase is Renaming && e == EventView::Renamed(true))
            &&& (a != ActionView::InstallUpdate && w2.backend.file_counter != w.backend.file_counter)
                ==> (w.phase is Opening && e == EventView::Opened(true))
        }),
{
}

/// The file's count grows by each written entry's length (saturating), and
/// is otherwise taken from the file's length after a flush or reset by a
/// rotation.
pub proof fn law_file_size(w: WorkerView, e: EventView, ts: Seq<char>)
    ensures
        ({
            let (w2, a) = worker_step(w, e, ts);
            &&& w.phase matches PhaseView::Writing { len, .. } ==> (e == EventView::Written
                ==> w2.backend.file_size == w.backend.file_size.saturating_add(len))
            &&& w.phase matches PhaseView::Measuring { next } ==> (!(next is Install)
                ==> (e matches EventView::FileLength(Some(n)) ==> w2.backend.file_size == n))
            &&& (a != ActionView::InstallUpdate && !(w.phase is Writing) && !(w.phase is Measuring)
                && !(w.phase is Opening)) ==> w2.backend.file_size == w.backend.file_size
        }),
{
}

/// After a line is written the buffer is flushed exactly when it is full
/// (holds at least its capacity) and holds something; the command is then
/// done.
pub proof fn law_flush_when_full(b: BackendState, line: Seq<char>, len: u64, buffered: usize, capacity: usize, ts: Seq<char>)
    ensures
        ({
            let (w1, a1) = worker_step((WorkerView { backend: b, phase: PhaseView::Writing { line, len } }),
                EventView::Written, ts);
            let (w2, a2) = worker_step(w1, (EventView::Buffered { len: buffered, capacity }), ts);
            &&& a1 == ActionView::InspectBuffer
            &&& (a2 == ActionView::FlushWriter) == (buffered >= capacity && buffered > 0)
            &&& a2 != ActionView::FlushWriter ==> (a2 == ActionView::Idle && w2.phase is Ready)
        }),
{
}

/// A stopped worker stays stopped and asks for nothing more.
pub proof fn law_stopped_is_final(w: WorkerView, e: EventView, ts: Seq<char>)
    requires
        w.phase is Stopped,
    ensures
        worker_step(w, e, ts) == (w, ActionView::Exit),
{
}

/// Terminating flushes what is buffered before stopping: the worker first
/// asks for the buffer, flushes it if it holds bytes, and stops only then.
pub proof fn law_terminate_flushes_first(b: BackendState, len: usize, capacity: usize, ts: Seq<char>)
    ensures
        ({
            let (w1, a1) = worker_step((WorkerView { backend: b, phase: PhaseView::Ready }),
                EventView::Command(CommandView::Terminate), ts);
            let (w2, a2) = worker_step(w1, (EventView::Buffered { len, capacity }), ts);
            &&& a1 == ActionView::InspectBuffer
            &&& len > 0 ==> (a2 == ActionView::FlushWriter && !(w2.phase is Stopped))
            &&& len == 0 ==> (a2 == ActionView::Exit && w2.phase is Stopped)
        }),
{
}

/// An update flushes the old backend before the new one takes over, and
/// the new one is then held unchanged.
pub proof fn law_update_installs(b: BackendState, nb: BackendState, ts: Seq<char>)
    ensures
        ({
            let (w1, a1) = worker_step((WorkerView { backend: b, phase: PhaseView::Ready }),
                EventView::Command(CommandView::Update(nb)), ts);
            let (w2, a2) = worker_step(w1, (EventView::Buffered { len: 0, capacity: 0 }), ts);
            &&& a1 == ActionView::InspectBuffer
            &&& w1.backend == b
            &&& a2 == ActionView::InstallUpdate
            &&& w2 == (WorkerView { backend: nb, phase: PhaseView::Ready })
        }),
{
}

/// A builder with no settings builds the default backend.
pub proof fn law_builder_defaults()
    ensures
        built_backend((BuilderState { path: None, max_size: None, buffer_size: None, channel_size: None }))
            == fresh_backend(default_path(), MAX_SIZE, BUFFER_SIZE, CHANNEL_SIZE),
{
}

/// Only the first start installs the logger's sender and worker handle; a
/// later start changes nothing of what is installed.
pub proof fn law_first_start_wins(r: RegistryState)
    ensures
        registry_after_start(r).sender_installed,
        registry_after_start(r).receiver_installed,
        registry_after_start(registry_after_start(r)) == registry_after_start(r),
{
}

/// Shutting down twice (with the same outcome of taking the handle's lock,
/// which stays poisoned once poisoned) has the effect of shutting down once:
/// the second shutdown joins nothing and changes nothing.
pub proof fn law_shutdown_idempotent(r: RegistryState, lock_acquired: bool)
    ensures
        !joins_worker(registry_after_shutdown(r, lock_acquired), lock_acquired),
        registry_after_shutdown(registry_after_shutdown(r, lock_acquired), lock_acquired)
            == registry_after_shutdown(r, lock_acquired),
{
}

/// The worker is joined at most once: after a shutdown that joined it, no
/// later shutdown joins again, whatever the lock gives.
pub proof fn law_shutdown_joins_once(r: RegistryState, first_lock: bool, later_lock: bool)
    requires
        joins_worker(r, first_lock),
    ensures
        !joins_worker(registry_after_shutdown(r, first_lock), later_lock),
{
}

/// Logging does not restart after a shutdown: a start after a start and a
/// shutdown installs neither a sender nor a worker handle, and changes
/// nothing.
pub proof fn law_no_restart_after_shutdown(r: RegistryState, lock_acquired: bool)
    ensures
        ({
            let stopped = registry_after_shutdown(registry_after_start(r), lock_acquired);
            &&& stopped.sender_installed
            &&& stopped.receiver_installed
            &&& registry_after_start(stopped) == stopped
        }),
{
}

/// The value of a digit character.
pub open spec fn digit_value(c: char) -> int {
    (c as u32) as int - ('0' as u32) as int
}

/// The number that a sequence of decimal digits denotes.
pub open spec fn decimal_value(s: Seq<char>) -> int
    decreases s.len(),
{
    if s.len() == 0 {
        0
    } else {
        decimal_value(s.drop_last()) * 10 + digit_value(s.last())
    }
}

proof fn lemma_digit(d: nat)
    requires
        d < 10,
    ensures
        digit_value(digit_char(d)) == d,
        is_ascii_digit(digit_char(d)),
{
    let digits = seq!['0', '1', '2', '3', '4', '5', '6', '7', '8', '9'];
    assert(digit_char(d) == digits[d as int]);
    if d == 0 { assert(digits[0] == '0'); }
    else if d == 1 { assert(digits[1] == '1'); }
    else if d == 2 { assert(digits[2] == '2'); }
    else if d == 3 { assert(digits[3] == '3'); }
    else if d == 4 { assert(digits[4] == '4'); }
    else if d == 5 { assert(digits[5] == '5'); }
    else if d == 6 { assert(digits[6] == '6'); }
    else if d == 7 { assert(digits[7] == '7'); }
    else if d == 8 { assert(digits[8] == '8'); }
    else { assert(digits[9] == '9'); }
}

/// The decimal notation of `n` is a non-empty run of digits that denotes `n`.
pub proof fn lemma_decimal(n: nat)
    ensures
        decimal(n).len() > 0,
        decimal_value(decimal(n)) == n,
        forall|i: int| 0 <= i < decimal(n).len() ==> #[trigger] is_ascii_digit(decimal(n)[i]),
    decreases n,
{
    if n < 10 {
        lemma_digit(n);
        assert(decimal(n).drop_last() =~= Seq::<char>::empty());
        assert(decimal(n).last() == digit_char(n));
        assert(decimal_value(Seq::<char>::empty()) == 0);
        assert(decimal_value(decimal(n)) == decimal_value(decimal(n).drop_last()) * 10 + digit_value(
            decimal(n).last(),
        ));
    } else {
        lemma_decimal(n / 10);
        lemma_digit(n % 10);
        assert(decimal(n).drop_last() =~= decimal(n / 10));
        assert(decimal(n).last() == digit_char(n % 10));
        assert(decimal_value(decimal(n)) == decimal_value(decimal(n).drop_last()) * 10 + digit_value(
            decimal(n).last(),
        ));
        assert forall|i: int| 0 <= i < decimal(n).len() implies #[trigger] is_ascii_digit(decimal(n)[i]) by {
            if i < decimal(n / 10).len() {
                assert(decimal(n)[i] == decimal(n / 10)[i]);
            }
        }
    }
}

proof fn lemma_split_at_dash(
    p: Seq<char>,
    d1: Seq<char>,
    e1: Seq<char>,
    d2: Seq<char>,
    e2: Seq<char>,
    q: Seq<char>,
)
    requires
        forall|i: int| 0 <= i < d1.len() ==> #[trigger] is_ascii_digit(d1[i]),
        forall|i: int| 0 <= i < d2.len() ==> #[trigger] is_ascii_digit(d2[i]),
        p + d1 + seq!['-'] + e1 + q == p + d2 + seq!['-'] + e2 + q,
    ensures
        d1 == d2,
        e1 == e2,
{
    let t1 = p + d1 + seq!['-'] + e1 + q;
    let t2 = p + d2 + seq!['-'] + e2 + q;
    let k = p.len() as int;
    assert(!is_ascii_digit('-'));
    if d1.len() < d2.len() {
        assert(t1[k + d1.len()] == '-');
        assert(t2[k + d1.len()] == d2[d1.len() as int]);
        assert(is_ascii_digit(d2[d1.len() as int]));
        assert(false);
    }
    if d2.len() < d1.len() {
        assert(t2[k + d2.len()] == '-');
        assert(t1[k + d2.len()] == d1[d2.len() as int]);
        assert(is_ascii_digit(d1[d2.len() as int]));
        assert(false);
    }
    assert(d1 =~= t1.subrange(k, k + d1.len()));
    assert(d2 =~= t2.subrange(k, k + d2.len()));
    assert(d1.len() == d2.len());
    assert(t1.len() == p.len() + d1.len() + 1 + e1.len() + q.len());
    assert(t2.len() == p.len() + d2.len() + 1 + e2.len() + q.len());
    assert(e1.len() == e2.len());
    let j = k + d1.len() + 1;
    assert(e1 =~= t1.subrange(j, j + e1.len()));
    assert(e2 =~= t2.subrange(j, j + e2.len()));
}

proof fn lemma_decimal_injective(a: nat, b: nat)
    requires
        decimal(a) == decimal(b),
    ensures
        a == b,
{
    lemma_decimal(a);
    lemma_decimal(b);
}

/// The text after the stem of a rotated name.
spec fn ext_text(ext: Option<Seq<char>>) -> Seq<char> {
    match ext {
        Some(e) => e,
        None => default_extension(),
    }
}

/// Rotated file names are unique: for one log file (one stem and
/// extension), two rotations get the same name exactly when they have the
/// same clock reading and the same counter.
pub proof fn law_rotated_names_unique(stem: Seq<char>, ext: Option<Seq<char>>, n1: nat, c1: nat, n2: nat, c2: nat)
    ensures
        (rotated_name(stem, ext, n1, c1) == rotated_name(stem, ext, n2, c2)) <==> (n1 == n2 && c1 == c2),
{
    if rotated_name(stem, ext, n1, c1) == rotated_name(stem, ext, n2, c2) {
        let p = stem + seq!['-'];
        let q = seq!['.'] + ext_text(ext);
        lemma_decimal(n1);
        lemma_decimal(n2);
        lemma_decimal(c1);
        lemma_decimal(c2);
        assert(rotated_name(stem, ext, n1, c1) =~= p + decimal(n1) + seq!['-'] + decimal(c1) + q);
        assert(rotated_name(stem, ext, n2, c2) =~= p + decimal(n2) + seq!['-'] + decimal(c2) + q);
        lemma_split_at_dash(p, decimal(n1), decimal(c1), decimal(n2), decimal(c2), q);
        lemma_decimal_injective(n1, n2);
        lemma_decimal_injective(c1, c2);
    }
}

/// The name that a file's stem and extension make up.
pub open spec fn live_name(stem: Seq<char>, ext: Option<Seq<char>>) -> Seq<char> {
    match ext {
        Some(e) => stem + seq!['.'] + e,
        None => stem,
    }
}

/// A rotated name never equals the name of the live file it comes from.
pub proof fn law_rotated_name_differs_from_live(stem: Seq<char>, ext: Option<Seq<char>>, nanos: nat, counter: nat)
    ensures
        rotated_name(stem, ext, nanos, counter) != live_name(stem, ext),
{
    let r = rotated_name(stem, ext, nanos, counter);
    lemma_decimal(nanos);
    assert(r[stem.len() as int] == '-');
    match ext {
        Some(e) => {
            assert(live_name(stem, ext)[stem.len() as int] == '.');
        },
        None => {
            assert(r.len() > stem.len());
        },
    }
}

proof fn lemma_lines_concat(a: Seq<ActionView>, b: Seq<ActionView>)
    ensures
        lines_written(a + b) == lines_written(a) + lines_written(b),
    decreases a.len(),
{
    if a.len() == 0 {
        assert(a + b =~= b);
        assert(lines_written(a) + lines_written(b) =~= lines_written(b));
    } else {
        lemma_lines_concat(a.drop_first(), b);
        assert((a + b).drop_first() =~= a.drop_first() + b);
        assert((a + b)[0] == a[0]);
        match a[0] {
            ActionView::WriteLine(l) => {
                assert(lines_written(a + b) =~= seq![l] + lines_written(a.drop_first() + b));
                assert(seq![l] + (lines_written(a.drop_first()) + lines_written(b))
                    =~= (seq![l] + lines_written(a.drop_first())) + lines_written(b));
            },
            _ => {},
        }
    }
}

/// The lines that one command hands out: its line for a message, none for
/// another command.
pub open spec fn command_lines(e: EventView, ts: Seq<char>) -> Seq<Seq<char>> {
    match e {
        EventView::Command(CommandView::Message(m)) => seq![line_text(ts, m)],
        _ => Seq::empty(),
    }
}

proof fn lemma_command_lines(w: WorkerView, es: Seq<EventView>, ts: Seq<char>)
    requires
        w.phase is Ready,
        completes(w, es, ts),
    ensures
        lines_written(run(w, es, ts).1) == command_lines(es[0], ts),
{
    match es[0] {
        EventView::Command(CommandView::Message(m)) => {
            law_message_written_once(w.backend, m, es, ts);
        },
        EventView::Command(c) => {
            let (w1, a) = worker_step(w, es[0], ts);
            law_other_commands_write_nothing(w.backend, c, ts);
            assert(es.len() > 1);
            lemma_run_writes_carried(w1, es.drop_first(), ts);
            let rest = run(w1, es.drop_first(), ts).1;
            assert(run(w, es, ts).1 == seq![a] + rest);
            assert((seq![a] + rest).drop_first() =~= rest);
            assert(lines_written(seq![a] + rest) =~= lines_written(rest));
        },
        _ => {},
    }
}

/// Runs of several commands in a row, each handled to its end; `tss[i]` is
/// the timestamp of the `i`-th command.
pub open spec fn run_all(w: WorkerView, runs: Seq<Seq<EventView>>, tss: Seq<Seq<char>>) -> (WorkerView, Seq<ActionView>)
    decreases runs.len(),
{
    if runs.len() == 0 || tss.len() == 0 {
        (w, Seq::empty())
    } else {
        let (w1, a1) = run(w, runs[0], tss[0]);
        let (wn, rest) = run_all(w1, runs.drop_first(), tss.drop_first());
        (wn, a1 + rest)
    }
}

/// Whether each run handles one command to its end, from where the one
/// before left the worker.
pub open spec fn handles_all(w: WorkerView, runs: Seq<Seq<EventView>>, tss: Seq<Seq<char>>) -> bool
    decreases runs.len(),
{
    runs.len() == tss.len() && (runs.len() == 0 || (completes(w, runs[0], tss[0])
        && handles_all(run(w, runs[0], tss[0]).0, runs.drop_first(), tss.drop_first())))
}

/// The lines that a series of commands should produce: one per message, in
/// the order of the messages.
pub open spec fn expected_lines(runs: Seq<Seq<EventView>>, tss: Seq<Seq<char>>) -> Seq<Seq<char>>
    decreases runs.len(),
{
    if runs.len() == 0 || tss.len() == 0 {
        Seq::empty()
    } else {
        command_lines(runs[0][0], tss[0]) + expected_lines(runs.drop_first(), tss.drop_first())
    }
}

/// Over any number of commands handled one after another, the worker hands
/// out exactly one line per message, in the order of the messages, none
/// lost and none twice, across any rotations and whatever the file
/// operations report.
pub proof fn law_commands_in_order(w: WorkerView, runs: Seq<Seq<EventView>>, tss: Seq<Seq<char>>)
    requires
        w.phase is Ready,
        handles_all(w, runs, tss),
    ensures
        lines_written(run_all(w, runs, tss).1) == expected_lines(runs, tss),
    decreases runs.len(),
{
    if runs.len() > 0 {
        let (w1, a1) = run(w, runs[0], tss[0]);
        lemma_command_lines(w, runs[0], tss[0]);
        law_commands_in_order(w1, runs.drop_first(), tss.drop_first());
        let rest = run_all(w1, runs.drop_first(), tss.drop_first()).1;
        lemma_lines_concat(a1, rest);
    } else {
        assert(lines_written(Seq::<ActionView>::empty()) =~= Seq::<Seq<char>>::empty());
    }
}


/// Whether the worker in phase `p` is on its way to stopping.
pub open spec fn exiting(p: PhaseView) -> bool {
    match p {
        PhaseView::Inspecting { next: NextView::Exit, .. } => true,
        PhaseView::Flushing { next: NextView::Exit } => true,
        PhaseView::Measuring { next: NextView::Exit } => true,
        PhaseView::Stopped => true,
        _ => false,
    }
}

proof fn lemma_finishes_exiting(w: WorkerView, es: Seq<EventView>, ts: Seq<char>)
    requires
        exiting(w.phase),
        finishes(w, es, ts),
    ensures
        run(w, es, ts).0.phase is Stopped,
    decreases es.len(),
{
    let (w1, a) = worker_step(w, es[0], ts);
    assert(exiting(w1.phase));
    assert(run(w, es, ts).0 == run(w1, es.drop_first(), ts).0);
    if es.len() > 1 {
        lemma_finishes_exiting(w1, es.drop_first(), ts);
    } else {
        assert(es.drop_first().len() == 0);
        assert(run(w1, es.drop_first(), ts).0 == w1);
    }
}

/// Terminating writes no line and ends with the worker stopped, whatever the
/// flush reports.
pub proof fn law_terminate_writes_nothing(b: BackendState, es: Seq<EventView>, ts: Seq<char>)
    requires
        es.len() > 0,
        es[0] == EventView::Command(CommandView::Terminate),
        finishes((WorkerView { backend: b, phase: PhaseView::Ready }), es, ts),
    ensures
        lines_written(run((WorkerView { backend: b, phase: PhaseView::Ready }), es, ts).1) == Seq::<Seq<char>>::empty(),
        run((WorkerView { backend: b, phase: PhaseView::Ready }), es, ts).0.phase is Stopped,
{
    let w = WorkerView { backend: b, phase: PhaseView::Ready };
    let (w1, a) = worker_step(w, es[0], ts);
    assert(es.len() > 1);
    lemma_run_writes_carried(w1, es.drop_first(), ts);
    lemma_finishes_exiting(w1, es.drop_first(), ts);
    let rest = run(w1, es.drop_first(), ts).1;
    assert(run(w, es, ts).1 == seq![a] + rest);
    assert((seq![a] + rest).drop_first() =~= rest);
    assert(lines_written(seq![a] + rest) =~= lines_written(rest));
}

proof fn lemma_handles_all_ends_ready(w: WorkerView, runs: Seq<Seq<EventView>>, tss: Seq<Seq<char>>)
    requires
        w.phase is Ready,
        handles_all(w, runs, tss),
    ensures
        run_all(w, runs, tss).0.phase is Ready,
    decreases runs.len(),
{
    if runs.len() > 0 {
        let (w1, a1) = run(w, runs[0], tss[0]);
        lemma_handles_all_ends_ready(w1, runs.drop_first(), tss.drop_first());
    }
}

/// Messages followed by a shutdown: when the worker handles any number of
/// commands one after another and then a `Terminate`, it hands out exactly
/// one line per message, in order, none lost and none twice across any
/// rotations, and ends stopped.
pub proof fn law_messages_then_terminate(
    w: WorkerView,
    runs: Seq<Seq<EventView>>,
    tss: Seq<Seq<char>>,
    fin: Seq<EventView>,
    ts: Seq<char>,
)
    requires
        w.phase is Ready,
        handles_all(w, runs, tss),
        fin.len() > 0,
        fin[0] == EventView::Command(CommandView::Terminate),
        finishes(run_all(w, runs, tss).0, fin, ts),
    ensures
        ({
            let (wn, acts) = run_all(w, runs, tss);
            let (wf, last) = run(wn, fin, ts);
            &&& lines_written(acts + last) == expected_lines(runs, tss)
            &&& wf.phase is Stopped
        }),
{
    let (wn, acts) = run_all(w, runs, tss);
    law_commands_in_order(w, runs, tss);
    lemma_handles_all_ends_ready(w, runs, tss);
    assert(wn == (WorkerView { backend: wn.backend, phase: PhaseView::Ready }));
    law_terminate_writes_nothing(wn.backend, fin, ts);
    let last = run(wn, fin, ts).1;
    lemma_lines_concat(acts, last);
    assert(lines_written(acts) + Seq::<Seq<char>>::empty() =~= lines_written(acts));
}

/// Whether every file operation that event `e` reports on succeeded, and
/// the file's reported length is what the worker counted (nothing else
/// writes to it); no update is sent.
pub open spec fn all_io_succeeds(w: WorkerView, e: EventView) -> bool {
    &&& accepts(w.phase, e)
    &&& match e {
        EventView::Command(c) => !(c is Update),
        EventView::Flushed(ok) => ok,
        EventView::Renamed(ok) => ok,
        EventView::Opened(ok) => ok,
        EventView::Clock(c) => c is Some,
        EventView::FileLength(n) => n == Some(w.backend.file_size),
        _ => true,
    }
}

/// The number of lines in the current file after event `e`, where `lines`
/// were there before: one more once a line is written, none once a new file
/// is opened.
pub open spec fn lines_after(w: WorkerView, e: EventView, lines: nat) -> nat {
    if w.phase is Writing && e == EventView::Written {
        lines + 1
    } else if w.phase is Opening && e == EventView::Opened(true) {
        0
    } else {
        lines
    }
}

/// Whether the worker in phase `p` is about to install an update.
pub open spec fn installing(p: PhaseView) -> bool {
    match p {
        PhaseView::Inspecting { next: NextView::Install(_), .. } => true,
        PhaseView::Flushing { next: NextView::Install(_) } => true,
        PhaseView::Measuring { next: NextView::Install(_) } => true,
        _ => false,
    }
}

/// The current file, holding `lines` lines, stays below the size limit once
/// it holds two or more; a line about to be written into a file that
/// already holds one keeps it below the limit; and no update is pending.
pub open spec fn within_limit(w: WorkerView, lines: nat) -> bool {
    &&& !installing(w.phase)
    &&& lines >= 2 ==> w.backend.file_size < w.backend.max_size
    &&& w.phase matches PhaseView::Writing { len, .. } ==> (lines == 0 || w.backend.file_size + len
        < w.backend.max_size)
}

/// One step of `within_limit`: where all file operations succeed and the
/// log file's path has a file stem (so that it can be rotated), a step keeps
/// every file that holds two or more lines below the size limit.
pub proof fn law_size_limit_step(w: WorkerView, e: EventView, ts: Seq<char>, lines: nat)
    requires
        within_limit(w, lines),
        all_io_succeeds(w, e),
        file_stem_of(w.backend.path) is Some,
    ensures
        within_limit(worker_step(w, e, ts).0, lines_after(w, e, lines)),
        worker_step(w, e, ts).0.backend.path == w.backend.path,
{
}

/// Runs where all file operations succeed, with the lines of the current
/// file counted along.
pub open spec fn succeeding_run(w: WorkerView, es: Seq<EventView>, ts: Seq<char>, lines: nat) -> (WorkerView, nat)
    decreases es.len(),
{
    if es.len() == 0 {
        (w, lines)
    } else {
        succeeding_run(worker_step(w, es[0], ts).0, es.drop_first(), ts, lines_after(w, es[0], lines))
    }
}

pub open spec fn all_succeed(w: WorkerView, es: Seq<EventView>, ts: Seq<char>) -> bool
    decreases es.len(),
{
    es.len() == 0 || (all_io_succeeds(w, es[0]) && all_succeed(worker_step(w, es[0], ts).0, es.drop_first(), ts))
}

/// No file with two or more lines reaches the size limit: starting on an
/// empty file, as long as all file operations succeed (and the path can be
/// rotated), the current file stays below `max_size` whenever it holds two
/// or more lines. Files that rotation moves away were the current file when
/// moved, so the same holds of them.
pub proof fn law_files_below_limit(w: WorkerView, es: Seq<EventView>, ts: Seq<char>, lines: nat)
    requires
        within_limit(w, lines),
        file_stem_of(w.backend.path) is Some,
        all_succeed(w, es, ts),
    ensures
        within_limit(succeeding_run(w, es, ts, lines).0, succeeding_run(w, es, ts, lines).1),
    decreases es.len(),
{
    if es.len() > 0 {
        law_size_limit_step(w, es[0], ts, lines);
        law_files_below_limit(worker_step(w, es[0], ts).0, es.drop_first(), ts, lines_after(w, es[0], lines));
    }
}

/// A new worker on an empty file starts within the limit.
pub proof fn law_fresh_worker_within_limit(b: BackendState)
    ensures
        within_limit((WorkerView { backend: b, phase: PhaseView::Ready }), 0),
{
}


/// A message is written into the current file exactly when its line, added
/// to what the file holds, stays below the size limit; otherwise the file is
/// rotated first. The line is `[ts]: msg` and a newline, counted by its
/// UTF-8 bytes.
pub proof fn law_rotation_exactly_at_limit(b: BackendState, msg: Seq<char>, ts: Seq<char>)
    ensures
        ({
            let line = seq!['['] + ts + seq![']', ':', ' '] + msg + seq!['\n'];
            let len = (encode_utf8(line).len() as usize) as u64;
            let (w2, a) = worker_step((WorkerView { backend: b, phase: PhaseView::Ready }),
                EventView::Command(CommandView::Message(msg)), ts);
            &&& (a == ActionView::WriteLine(line)) <==> (b.file_size + len < b.max_size)
            &&& (a == ActionView::InspectBuffer) <==> (b.file_size + len >= b.max_size)
            &&& w2.backend == b
        }),
{
    let line = seq!['['] + ts + seq![']', ':', ' '] + msg + seq!['\n'];
    assert(line_text(ts, msg) == line);
}

/// The stamp of an entry is the RFC 3339 text of the clock reading itself
/// for every reading of the years 0 to 9999, and `0000-00-00 00:00:00`
/// for any other reading.
pub proof fn law_stamp_is_reading(nanos: i128)
    ensures
        -62167219200000000000 <= nanos <= 253402300799999999999 ==> stamp_at(nanos) == rfc3339_text_of(nanos),
        !(-62167219200000000000 <= nanos <= 253402300799999999999) ==> stamp_at(nanos) == seq![
            '0', '0', '0', '0', '-', '0', '0', '-', '0', '0', ' ', '0', '0', ':', '0', '0', ':', '0', '0',
        ],
{
}

/// A written line holds the whole timestamp and the whole message: `[`,
/// the timestamp, `]: `, the message and a newline, nothing cut or added.
pub proof fn law_line_holds_whole_message(ts: Seq<char>, msg: Seq<char>)
    ensures
        ({
            let l = line_text(ts, msg);
            let t = ts.len() as int;
            let m = msg.len() as int;
            &&& l.len() == t + m + 5
            &&& l[0] == '['
            &&& l.subrange(1, 1 + t) == ts
            &&& l[1 + t] == ']' && l[2 + t] == ':' && l[3 + t] == ' '
            &&& l.subrange(4 + t, 4 + t + m) == msg
            &&& l[4 + t + m] == '\n'
        }),
{
    let l = line_text(ts, msg);
    let t = ts.len() as int;
    let m = msg.len() as int;
    assert(l.subrange(1, 1 + t) =~= ts);
    assert(l.subrange(4 + t, 4 + t + m) =~= msg);
}

/// An entry is counted by the UTF-8 bytes of its line.
pub proof fn law_entry_counts_line_bytes(line: Seq<char>)
    ensures
        entry_len(line) == (encode_utf8(line).len() as usize) as u64,
        utf8_len(line) == encode_utf8(line).len(),
{
}

/// The builder keeps every setting it is given, and the defaults (`log.log`,
/// 10 MiB, a 64 KiB buffer, 1024 commands) stand only for those left out; a
/// built backend has made no rotation and counted nothing.
pub proof fn law_builder_keeps_settings(b: BuilderState)
    ensures
        ({
            let r = built_backend(b);
            &&& b.path matches Some(p) ==> r.path == p
            &&& b.path is None ==> r.path == seq!['l', 'o', 'g', '.', 'l', 'o', 'g']
            &&& b.max_size matches Some(m) ==> r.max_size == m
            &&& b.max_size is None ==> r.max_size == 10485760
            &&& b.buffer_size matches Some(s) ==> r.buffer_size == s
            &&& b.buffer_size is None ==> r.buffer_size == 65536
            &&& b.channel_size matches Some(s) ==> r.channel_size == s
            &&& b.channel_size is None ==> r.channel_size == 1024
            &&& r.file_counter == 0
            &&& r.file_size == 0
        }),
{
}

/// The default backend writes to `log.log`, rotates at 10 MiB, buffers
/// 64 KiB, queues 1024 commands, and starts with no rotation and nothing
/// counted.
pub proof fn law_default_backend()
    ensures
        ({
            let r = fresh_backend(default_path(), MAX_SIZE, BUFFER_SIZE, CHANNEL_SIZE);
            &&& r.path == seq!['l', 'o', 'g', '.', 'l', 'o', 'g']
            &&& r.max_size == 10485760
            &&& r.buffer_size == 65536
            &&& r.channel_size == 1024
            &&& r.file_counter == 0
            &&& r.file_size == 0
        }),
{
}

/// The rotated file lies beside the log file: where the path has a stem and
/// the clock was read, the target is the log file's path with its file name
/// replaced by the rotated name; without a stem or a clock reading there is
/// no target.
pub proof fn law_rotation_target_beside_log(path: Seq<char>, stem: Seq<char>, clock: Option<u128>, counter: usize)
    ensures
        file_stem_of(path) == Some(stem) && clock is Some ==> rotation_target(path, clock, counter) == Some(
            with_file_name_of(path, rotated_name(stem, extension_of(path), clock.unwrap() as nat, counter as nat)),
        ),
        (file_stem_of(path) is None || clock is None) ==> rotation_target(path, clock, counter) is None,
{
}

/// A rotated name is the stem, `-`, the clock reading in decimal digits,
/// `-`, the counter in decimal digits, `.` and the extension (`log` where
/// the file has none).
pub proof fn law_rotated_name_parts(stem: Seq<char>, ext: Option<Seq<char>>, nanos: nat, counter: nat)
    ensures
        exists|d1: Seq<char>, d2: Seq<char>| {
            &&& d1.len() > 0 && d2.len() > 0
            &&& (forall|i: int| 0 <= i < d1.len() ==> #[trigger] is_ascii_digit(d1[i]))
            &&& (forall|i: int| 0 <= i < d2.len() ==> #[trigger] is_ascii_digit(d2[i]))
            &&& decimal_value(d1) == nanos
            &&& decimal_value(d2) == counter
            &&& rotated_name(stem, ext, nanos, counter) == stem + seq!['-'] + d1 + seq!['-'] + d2 + seq!['.']
                + match ext {
                Some(e) => e,
                None => seq!['l', 'o', 'g'],
            }
        },
{
    lemma_decimal(nanos);
    lemma_decimal(counter);
    let d1 = decimal(nanos);
    let d2 = decimal(counter);
    assert(default_extension() == seq!['l', 'o', 'g']);
    assert(rotated_name(stem, ext, nanos, counter) == stem + seq!['-'] + d1 + seq!['-'] + d2 + seq!['.']
        + match ext {
        Some(e) => e,
        None => seq!['l', 'o', 'g'],
    });
}


/// When the clock has been read in a rotation, the old file is renamed to
/// the rotated name for the clock reading and the rotation counter as it
/// stands (before this rotation is counted), beside the log file; where the
/// path has no stem or the clock no reading, the rotation is given up and
/// the line is written to the current file, nothing counted.
pub proof fn law_rename_target(b: BackendState, line: Seq<char>, len: u64, clock: Option<u128>, ts: Seq<char>)
    ensures
        ({
            let (w2, a) = worker_step((WorkerView { backend: b, phase: PhaseView::ReadingClock { line, len } }),
                EventView::Clock(clock), ts);
            &&& w2.backend == b
            &&& (file_stem_of(b.path) is Some && clock is Some) ==> a == ActionView::Rename(
                with_file_name_of(b.path, rotated_name(file_stem_of(b.path).unwrap(), extension_of(b.path),
                    clock.unwrap() as nat, b.file_counter as nat)),
            )
            &&& (file_stem_of(b.path) is None || clock is None) ==> (a == ActionView::WriteLine(line)
                && w2.phase == (PhaseView::Writing { line, len }))
        }),
{
}

/// Messages reach the logger's channel only once it has been started, and
/// always from then on (also after a shutdown, when nothing is written any
/// more); a fresh registry drops them.
pub proof fn law_dispatch_after_start(r: RegistryState, lock_acquired: bool)
    ensures
        !dispatches((RegistryState { sender_installed: false, receiver_installed: false, worker_joinable: false })),
        dispatches(registry_after_start(r)),
        dispatches(registry_after_shutdown(registry_after_start(r), lock_acquired)),
        dispatches(r) == r.sender_installed,
{
}

/// The first start leaves a worker to join: a shutdown after it joins the
/// worker exactly when the lock on its handle is taken.
pub proof fn law_start_then_shutdown_joins(r: RegistryState, lock_acquired: bool)
    requires
        !r.receiver_installed,
    ensures
        joins_worker(registry_after_start(r), lock_acquired) == lock_acquired,
        !registry_after_shutdown(registry_after_start(r), true).worker_joinable,
{
}


/// `Flush`, `Terminate` and `Update` each flush the buffer when it holds
/// bytes (whatever its capacity), then read the file's length and take it
/// as the file's count, and only then finish: the worker waits for the next
/// command after `Flush`, stops after `Terminate`, and holds the new backend
/// after `Update`.
pub proof fn law_commands_flush_buffer(
    b: BackendState,
    c: CommandView,
    buffered: usize,
    capacity: usize,
    ok: bool,
    disk_len: u64,
    ts: Seq<char>,
)
    requires
        c is Flush || c is Terminate || c is Update,
    ensures
        ({
            let (w1, a1) = worker_step((WorkerView { backend: b, phase: PhaseView::Ready }), EventView::Command(c), ts);
            let (w2, a2) = worker_step(w1, (EventView::Buffered { len: buffered, capacity }), ts);
            let (w3, a3) = worker_step(w2, EventView::Flushed(ok), ts);
            let (w4, a4) = worker_step(w3, EventView::FileLength(Some(disk_len)), ts);
            &&& a1 == ActionView::InspectBuffer
            &&& (a2 == ActionView::FlushWriter) <==> buffered > 0
            &&& buffered > 0 ==> {
                &&& a3 == ActionView::ReadFileLength
                &&& c is Flush ==> (a4 == ActionView::Idle && w4 == (WorkerView {
                    backend: BackendState { file_size: disk_len, ..b },
                    phase: PhaseView::Ready,
                }))
                &&& c is Terminate ==> (a4 == ActionView::Exit && w4.phase is Stopped)
                &&& c matches CommandView::Update(nb) ==> (a4 == ActionView::InstallUpdate && w4 == (WorkerView {
                    backend: nb,
                    phase: PhaseView::Ready,
                }))
            }
            &&& buffered == 0 ==> {
                &&& c is Flush ==> (a2 == ActionView::Idle && w2 == (WorkerView { backend: b, phase: PhaseView::Ready }))
                &&& c is Terminate ==> (a2 == ActionView::Exit && w2.phase is Stopped)
                &&& c matches CommandView::Update(nb) ==> (a2 == ActionView::InstallUpdate && w2 == (WorkerView {
                    backend: nb,
                    phase: PhaseView::Ready,
                }))
            }
        }),
{
}

} // verus!
