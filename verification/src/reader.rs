//! Decisions of the transcript reader: the adaptive settle window that waits
//! for a transcript write to finish, size-regression (truncation) detection,
//! and the line-by-line summary of the bytes read.
//!
//! The reader's file-system work (size probes, sleeping, reading) is done by
//! the caller; this module decides what to do next and what the read yields.
use vstd::prelude::*;

use std::time::Duration;

use crate::probe::{
    aggregate, first_drift, json_line_shape, outcome_views, parse_line_shape, probe_line,
    probe_spec,
};
use crate::source::{ProbeOutcome, ProbeView, ReadVerdict, TurnDigest, TurnRead};
use crate::text::{decimal, default_hash, hash_bytes, hex_padded, push_decimal, push_hex_padded,
    push_str};

verus! {

/// Bound on the total settle wait, in milliseconds.
pub const DEFAULT_SETTLE_BOUND_MS: u64 = 2000;

/// Floor of the poll interval, in milliseconds.
pub const BASE_POLL_INTERVAL_MS: u64 = 50;

/// Consecutive unchanged size polls needed before a write counts as finished.
pub const STABLE_POLLS_REQUIRED: u32 = 3;

/// The `Duration` of `ms` milliseconds.
pub uninterp spec fn millis_duration(ms: u64) -> Duration;

/// `std::time::Duration::from_millis`.
#[verifier::external_body]
pub(crate) fn duration_from_millis(ms: u64) -> (d: Duration)
    ensures
        d == millis_duration(ms),
{
    Duration::from_millis(ms)
}

/// Poll interval for a file of `size_bytes` bytes, in milliseconds:
/// half a millisecond per whole KiB, at least 50.
pub open spec fn poll_interval_ms_spec(size_bytes: u64) -> u64 {
    let scaled = size_bytes / 1024 / 2;
    if scaled < BASE_POLL_INTERVAL_MS {
        BASE_POLL_INTERVAL_MS
    } else {
        scaled
    }
}

/// Poll interval for a file of `size_bytes` bytes, in milliseconds.
pub fn poll_interval_ms(size_bytes: u64) -> (ms: u64)
    ensures
        ms == poll_interval_ms_spec(size_bytes),
{
    let scaled = size_bytes / 1024 / 2;
    if scaled < BASE_POLL_INTERVAL_MS {
        BASE_POLL_INTERVAL_MS
    } else {
        scaled
    }
}

/// Poll law: a larger file never polls faster.
pub proof fn lemma_poll_interval_monotone(a: u64, b: u64)
    requires
        a <= b,
    ensures
        poll_interval_ms_spec(a) <= poll_interval_ms_spec(b),
{
    assert(a / 1024 <= b / 1024) by (nonlinear_arith)
        requires
            a <= b,
    ;
    assert(a / 1024 / 2 <= b / 1024 / 2) by (nonlinear_arith)
        requires
            a / 1024 <= b / 1024,
    ;
}

/// Poll interval for a file of `size_bytes` bytes: half a millisecond per
/// whole KiB, at least 50 ms.
pub fn poll_interval_for_size(size_bytes: u64) -> (d: Duration)
    ensures
        d == millis_duration(poll_interval_ms_spec(size_bytes)),
{
    duration_from_millis(poll_interval_ms(size_bytes))
}

/// How a settle window ended.
#[derive(Debug, Clone, Copy, PartialEq, Eq)]
pub enum SettleOutcome {
    /// The size held still for the required polls; read up to `size`.
    Stable { size: u64 },
    /// The bound ran out first; read up to `size`, the size at the bound.
    AtBound { size: u64 },
}

impl SettleOutcome {
    /// The size to read up to.
    pub open spec fn size_of(self) -> u64 {
        match self {
            SettleOutcome::Stable { size } => size,
            SettleOutcome::AtBound { size } => size,
        }
    }
}

/// Progress of a settle window.
#[derive(Debug, Clone, Copy, PartialEq, Eq)]
pub struct SettleState {
    /// Time slept so far, in milliseconds.
    pub elapsed_ms: u64,
    /// The size last observed.
    pub current_size: u64,
    /// Consecutive polls that saw `current_size` unchanged.
    pub stable_polls: u32,
}

/// What the settle window asks for next.
#[derive(Debug, Clone, Copy, PartialEq, Eq)]
pub enum SettleAction {
    /// Sleep `ms` milliseconds, then observe the size again.
    Sleep { ms: u64 },
    /// The window is over.
    Finish(SettleOutcome),
}

/// The window after one more size observation.
#[derive(Debug, Clone, Copy, PartialEq, Eq)]
pub enum SettleProgress {
    /// Keep polling from this state.
    Continue(SettleState),
    /// The window is over.
    Finish(SettleOutcome),
}

/// The start of a settle window: a caller that already knows the file's
/// stable size passes it as `hint`, and the window ends at once, stable at
/// that size, without probing the file; with no hint the file must be
/// polled.
pub fn settle_start(hint: Option<u64>) -> (r: Option<SettleOutcome>)
    ensures
        hint matches Some(n) ==> r == Some(SettleOutcome::Stable { size: n }),
        hint is None ==> r is None,
{
    match hint {
        Some(size) => Some(SettleOutcome::Stable { size }),
        None => None,
    }
}

/// A settle window over a file first observed at `size` bytes.
pub fn settle_begin(size: u64) -> (s: SettleState)
    ensures
        s == (SettleState { elapsed_ms: 0, current_size: size, stable_polls: 0 }),
{
    SettleState { elapsed_ms: 0, current_size: size, stable_polls: 0 }
}

/// The next sleep: the size-scaled poll interval, cut to what is left of the
/// bound; when nothing is left, the window ends at the bound.
pub open spec fn settle_next_spec(state: SettleState, bound_ms: u64) -> SettleAction {
    let left = if state.elapsed_ms >= bound_ms {
        0
    } else {
        (bound_ms - state.elapsed_ms) as u64
    };
    let interval = poll_interval_ms_spec(state.current_size);
    let ms = if interval < left {
        interval
    } else {
        left
    };
    if ms == 0 {
        SettleAction::Finish(SettleOutcome::AtBound { size: state.current_size })
    } else {
        SettleAction::Sleep { ms }
    }
}

/// Poll law: the poll interval is one millisecond per 2 KiB of file, and
/// never under 50 ms.
pub proof fn lemma_poll_interval_scales(size_bytes: u64)
    ensures
        size_bytes / 2048 >= 50 ==> poll_interval_ms_spec(size_bytes) == size_bytes / 2048,
        size_bytes / 2048 < 50 ==> poll_interval_ms_spec(size_bytes) == 50,
{
    assert(size_bytes / 1024 / 2 == size_bytes / 2048) by (nonlinear_arith);
}

/// Settle law: while time is left, the window sleeps the size-scaled poll
/// interval of the size last seen (one millisecond per 2 KiB, at least
/// 50 ms), cut to the time left; once the bound is spent it ends at the
/// bound with that size.
pub proof fn lemma_settle_sleeps_scaled_interval(state: SettleState, bound_ms: u64)
    ensures
        ({
            let interval: int = if state.current_size / 2048 < 50 {
                50
            } else {
                (state.current_size / 2048) as int
            };
            let left: int = bound_ms - state.elapsed_ms;
            state.elapsed_ms < bound_ms ==> settle_next_spec(state, bound_ms) == SettleAction::Sleep {
                ms: (if interval < left {
                    interval
                } else {
                    left
                }) as u64,
            }
        }),
        state.elapsed_ms >= bound_ms ==> settle_next_spec(state, bound_ms) == SettleAction::Finish(
            SettleOutcome::AtBound { size: state.current_size },
        ),
{
    lemma_poll_interval_scales(state.current_size);
}

/// Decide the next step of a settle window (see [`settle_next_spec`]).
pub fn settle_next(state: &SettleState, bound_ms: u64) -> (a: SettleAction)
    ensures
        a == settle_next_spec(*state, bound_ms),
        a matches SettleAction::Sleep { ms } ==> 0 < ms && state.elapsed_ms + ms <= bound_ms,
{
    let left = bound_ms.saturating_sub(state.elapsed_ms);
    let interval = poll_interval_ms(state.current_size);
    let ms = if interval < left {
        interval
    } else {
        left
    };
    if ms == 0 {
        SettleAction::Finish(SettleOutcome::AtBound { size: state.current_size })
    } else {
        SettleAction::Sleep { ms }
    }
}

/// The window after sleeping `slept_ms` and observing `new_size`: an unchanged
/// size adds a stable poll and ends the window once enough are seen; a changed
/// size restarts the count from the new size; past the bound the window ends
/// at the bound with the size last seen.
pub open spec fn settle_observe_spec(
    state: SettleState,
    slept_ms: u64,
    new_size: u64,
    bound_ms: u64,
) -> SettleProgress {
    let elapsed = if state.elapsed_ms + slept_ms > u64::MAX {
        u64::MAX
    } else {
        (state.elapsed_ms + slept_ms) as u64
    };
    if new_size == state.current_size {
        let polls = if state.stable_polls == u32::MAX {
            u32::MAX
        } else {
            (state.stable_polls + 1) as u32
        };
        if polls >= STABLE_POLLS_REQUIRED {
            SettleProgress::Finish(SettleOutcome::Stable { size: state.current_size })
        } else if elapsed >= bound_ms {
            SettleProgress::Finish(SettleOutcome::AtBound { size: state.current_size })
        } else {
            SettleProgress::Continue(
                SettleState { elapsed_ms: elapsed, current_size: state.current_size, stable_polls: polls },
            )
        }
    } else if elapsed >= bound_ms {
        SettleProgress::Finish(SettleOutcome::AtBound { size: new_size })
    } else {
        SettleProgress::Continue(
            SettleState { elapsed_ms: elapsed, current_size: new_size, stable_polls: 0 },
        )
    }
}

/// Apply one size observation to a settle window (see
/// [`settle_observe_spec`]).
pub fn settle_observe(state: &SettleState, slept_ms: u64, new_size: u64, bound_ms: u64) -> (p:
    SettleProgress)
    ensures
        p == settle_observe_spec(*state, slept_ms, new_size, bound_ms),
{
    let elapsed = state.elapsed_ms.saturating_add(slept_ms);
    if new_size == state.current_size {
        let polls = state.stable_polls.saturating_add(1);
        if polls >= STABLE_POLLS_REQUIRED {
            return SettleProgress::Finish(SettleOutcome::Stable { size: state.current_size });
        }
        if elapsed >= bound_ms {
            return SettleProgress::Finish(SettleOutcome::AtBound { size: state.current_size });
        }
        SettleProgress::Continue(
            SettleState { elapsed_ms: elapsed, current_size: state.current_size, stable_polls: polls },
        )
    } else {
        if elapsed >= bound_ms {
            return SettleProgress::Finish(SettleOutcome::AtBound { size: new_size });
        }
        SettleProgress::Continue(
            SettleState { elapsed_ms: elapsed, current_size: new_size, stable_polls: 0 },
        )
    }
}

/// Settle law: a window that sleeps only what [`settle_next`] asks never
/// sleeps past its bound, and every round that goes on has slept at least
/// one more millisecond, so the window ends within `bound_ms` rounds.
pub proof fn lemma_settle_bounded(state: SettleState, bound_ms: u64, new_size: u64)
    requires
        state.elapsed_ms <= bound_ms,
    ensures
        settle_next_spec(state, bound_ms) matches SettleAction::Sleep { ms } ==> ({
            let p = settle_observe_spec(state, ms, new_size, bound_ms);
            p matches SettleProgress::Continue(s) ==> state.elapsed_ms < s.elapsed_ms < bound_ms
        }),
{
}

/// Settle law: each observation before the bound either counts one more
/// stable poll (same size; the window ends stable at the third) or restarts
/// the count at the new size; the time slept is added to the elapsed time.
pub proof fn lemma_settle_observe_counts(
    state: SettleState,
    slept_ms: u64,
    new_size: u64,
    bound_ms: u64,
)
    requires
        state.elapsed_ms + slept_ms < bound_ms,
        state.stable_polls < 3,
    ensures
        new_size == state.current_size && state.stable_polls + 1 >= 3 ==> settle_observe_spec(
            state,
            slept_ms,
            new_size,
            bound_ms,
        ) == SettleProgress::Finish(SettleOutcome::Stable { size: new_size }),
        new_size == state.current_size && state.stable_polls + 1 < 3 ==> settle_observe_spec(
            state,
            slept_ms,
            new_size,
            bound_ms,
        ) == SettleProgress::Continue(
            SettleState {
                elapsed_ms: (state.elapsed_ms + slept_ms) as u64,
                current_size: new_size,
                stable_polls: (state.stable_polls + 1) as u32,
            },
        ),
        new_size != state.current_size ==> settle_observe_spec(state, slept_ms, new_size, bound_ms)
            == SettleProgress::Continue(
            SettleState {
                elapsed_ms: (state.elapsed_ms + slept_ms) as u64,
                current_size: new_size,
                stable_polls: 0,
            },
        ),
{
}

/// Settle law: the window ends stable only after the required number of
/// consecutive unchanged polls, at the size they saw.
pub proof fn lemma_settle_stable_needs_polls(
    state: SettleState,
    slept_ms: u64,
    new_size: u64,
    bound_ms: u64,
)
    ensures
        settle_observe_spec(state, slept_ms, new_size, bound_ms) matches SettleProgress::Finish(
            SettleOutcome::Stable { size },
        ) ==> new_size == state.current_size && size == new_size && state.stable_polls + 1
            >= STABLE_POLLS_REQUIRED,
{
}

/// The digest text of a truncated read.
pub open spec fn truncated_digest() -> Seq<char> {
    "degraded:truncated"@
}

/// The result a size regression yields: when the transcript is now shorter
/// than the offset read before, a match (no probe runs on a truncated file)
/// with a `Truncated` read at the current size and a degraded digest;
/// otherwise there is no regression.
pub fn truncation_read(current_size: u64, last_read_offset: Option<u64>) -> (r: Option<
    (ProbeOutcome, TurnRead),
>)
    ensures
        r is Some <==> (last_read_offset matches Some(prior) && current_size < prior),
        r matches Some((probe, t)) ==> probe is Matched && t.verdict == ReadVerdict::Truncated
            && t.read_offset == current_size && t.digest@ == truncated_digest(),
{
    match last_read_offset {
        Some(prior) => {
            if current_size < prior {
                proof {
                    reveal_strlit("degraded:truncated");
                }
                Some(
                    (
                        ProbeOutcome::Matched,
                        TurnRead {
                            digest: TurnDigest::new("degraded:truncated"),
                            verdict: ReadVerdict::Truncated,
                            read_offset: current_size,
                        },
                    ),
                )
            } else {
                None
            }
        },
        None => None,
    }
}

/// The pieces of `s` between newline bytes (like `split` on `b'\n'`): one
/// more piece than there are newlines.
pub open spec fn split_lines(s: Seq<u8>) -> Seq<Seq<u8>>
    decreases s.len(),
{
    if s.len() == 0 {
        seq![Seq::<u8>::empty()]
    } else {
        let p = split_lines(s.drop_last());
        if s.last() == 10 {
            p.push(Seq::<u8>::empty())
        } else {
            p.update(p.len() - 1, p.last().push(s.last()))
        }
    }
}

/// Running count of a line walk.
pub struct LineTally {
    /// Probe outcome of each non-empty line, in order.
    pub outcomes: Seq<ProbeView>,
    /// Number of non-empty lines that were JSON.
    pub lines: u64,
    /// Bytes of the non-empty lines, one newline each included (saturating).
    pub bytes: u64,
}

/// `a + b`, held at `u64::MAX`.
pub open spec fn sat_add(a: u64, b: int) -> u64 {
    if a + b > u64::MAX {
        u64::MAX
    } else {
        (a + b) as u64
    }
}

/// The drift reason for a line that is not JSON.
pub open spec fn malformed_detail(line_no: int) -> Seq<char> {
    "malformed JSON line "@ + decimal(line_no as nat)
}

/// One more piece, the `line_no`-th, added to a tally: empty pieces are
/// skipped; a JSON line adds its probe outcome and counts as a line; a line
/// that is not JSON adds a drift naming its number.
pub open spec fn tally_step(t: LineTally, piece: Seq<u8>, line_no: int) -> LineTally {
    if piece.len() == 0 {
        t
    } else {
        let bytes = sat_add(t.bytes, piece.len() as int + 1);
        match json_line_shape(piece) {
            Some(shape) => LineTally {
                outcomes: t.outcomes.push(probe_spec(shape)),
                lines: sat_add(t.lines, 1),
                bytes,
            },
            None => LineTally {
                outcomes: t.outcomes.push(ProbeView::Drift(malformed_detail(line_no))),
                lines: t.lines,
                bytes,
            },
        }
    }
}

/// The tally of a sequence of pieces; the `k`-th piece (from 1) is line `k`.
pub open spec fn tally(pieces: Seq<Seq<u8>>) -> LineTally
    decreases pieces.len(),
{
    if pieces.len() == 0 {
        LineTally { outcomes: Seq::empty(), lines: 0, bytes: 0 }
    } else {
        tally_step(tally(pieces.drop_last()), pieces.last(), pieces.len() as int)
    }
}

/// The digest prefix: a tag and the 16-digit hexadecimal content hash.
pub open spec fn hash_digest(content: Seq<u8>) -> Seq<char> {
    "sha1-placeholder:"@ + hex_padded(default_hash(content) as nat, 16)
}

/// The digest text of a settled read of `content`.
pub open spec fn settled_digest(content: Seq<u8>) -> Seq<char> {
    let t = tally(split_lines(content));
    hash_digest(content) + "|lines="@ + decimal(t.lines as nat) + "|bytes="@ + decimal(
        t.bytes as nat,
    )
}

/// The digest of `bytes`: a tag and their 16-digit hexadecimal content hash.
pub fn digest_of(bytes: &[u8]) -> (d: TurnDigest)
    ensures
        d@ == hash_digest(bytes@),
{
    let mut s = "sha1-placeholder:".to_owned();
    proof {
        reveal_strlit("sha1-placeholder:");
    }
    push_hex_padded(&mut s, hash_bytes(bytes), 16);
    TurnDigest::from_string(s)
}

fn malformed_line_detail(line_no: u64) -> (s: String)
    ensures
        s@ == malformed_detail(line_no as int),
{
    let mut s = "malformed JSON line ".to_owned();
    proof {
        reveal_strlit("malformed JSON line ");
    }
    push_decimal(&mut s, line_no);
    s
}

/// Walk the newline-separated lines of `content`: the probe outcome of each
/// non-empty line (a drift for one that is not JSON), the number of JSON
/// lines, and the bytes of the non-empty lines with their newlines.
pub fn tally_lines(content: &[u8]) -> (r: (Vec<ProbeOutcome>, u64, u64))
    requires
        content@.len() < u64::MAX,
    ensures
        outcome_views(r.0@) == tally(split_lines(content@)).outcomes,
        r.1 == tally(split_lines(content@)).lines,
        r.2 == tally(split_lines(content@)).bytes,
{
    let mut outcomes: Vec<ProbeOutcome> = Vec::new();
    let mut lines: u64 = 0;
    let mut bytes: u64 = 0;
    let mut start: usize = 0;
    let mut piece_no: u64 = 0;
    let ghost mut done: Seq<Seq<u8>> = Seq::empty();
    let mut i: usize = 0;
    assert(content@.take(0) =~= Seq::<u8>::empty());
    assert(content@.subrange(0, 0) =~= Seq::<u8>::empty());
    while i < content.len()
        invariant
            content@.len() < u64::MAX,
            start <= i <= content@.len(),
            piece_no == done.len(),
            piece_no <= i,
            split_lines(content@.take(i as int)) == done.push(content@.subrange(start as int, i as int)),
            outcome_views(outcomes@) == tally(done).outcomes,
            lines == tally(done).lines,
            bytes == tally(done).bytes,
        decreases content@.len() - i,
    {
        let ghost prefix = content@.take(i as int);
        let ghost next = content@.take(i + 1);
        assert(next.drop_last() =~= prefix);
        assert(next.last() == content@[i as int]);
        if content[i] == 10 {
            let piece = &content[start..i];
            piece_no = piece_no + 1;
            self::count_piece(piece, piece_no, &mut outcomes, &mut lines, &mut bytes);
            proof {
                let d2 = done.push(content@.subrange(start as int, i as int));
                assert(d2.drop_last() =~= done);
                done = d2;
                assert(content@.subrange(i + 1, i + 1) =~= Seq::<u8>::empty());
            }
            start = i + 1;
        } else {
            proof {
                assert(content@.subrange(start as int, i + 1) =~= content@.subrange(
                    start as int,
                    i as int,
                ).push(content@[i as int]));
                assert(done.push(content@.subrange(start as int, i as int)).update(
                    done.len() as int,
                    content@.subrange(start as int, i + 1),
                ) =~= done.push(content@.subrange(start as int, i + 1)));
            }
        }
        i = i + 1;
    }
    assert(content@.take(content@.len() as int) =~= content@);
    let piece = &content[start..content.len()];
    piece_no = piece_no + 1;
    self::count_piece(piece, piece_no, &mut outcomes, &mut lines, &mut bytes);
    proof {
        let all = done.push(content@.subrange(start as int, content@.len() as int));
        assert(all.drop_last() =~= done);
    }
    (outcomes, lines, bytes)
}

/// Add one piece, line number `line_no`, to a running tally.
fn count_piece(
    piece: &[u8],
    line_no: u64,
    outcomes: &mut Vec<ProbeOutcome>,
    lines: &mut u64,
    bytes: &mut u64,
)
    requires
        piece@.len() < u64::MAX,
    ensures
        ({
            let t = tally_step(
                LineTally { outcomes: outcome_views(old(outcomes)@), lines: *old(lines), bytes: *old(bytes) },
                piece@,
                line_no as int,
            );
            &&& outcome_views(final(outcomes)@) == t.outcomes
            &&& *final(lines) == t.lines
            &&& *final(bytes) == t.bytes
        }),
{
    if piece.len() == 0 {
        return ;
    }
    let with_newline = (piece.len() as u64) + 1;
    *bytes = bytes.saturating_add(with_newline);
    let ghost before = old(outcomes)@;
    match parse_line_shape(piece) {
        Some(shape) => {
            let o = probe_line(&shape);
            outcomes.push(o);
            *lines = lines.saturating_add(1);
        },
        None => {
            outcomes.push(ProbeOutcome::Drift { detail: malformed_line_detail(line_no) });
        },
    }
    assert(outcome_views(outcomes@) =~= outcome_views(before).push(outcomes@.last()@));
}

/// The result of a settled read of `bytes`, read up to the settled size: the
/// first drift among the lines (or a match), and a read at the settled size
/// whose digest carries the content hash and the line and byte counts, with
/// verdict `Settled` or `SettledAtBound` after how the window ended.
pub fn summarize_read(bytes: &[u8], settled: SettleOutcome) -> (r: (ProbeOutcome, TurnRead))
    requires
        bytes@.len() < u64::MAX,
    ensures
        ({
            let size = settled.size_of();
            let content = if bytes@.len() <= size {
                bytes@
            } else {
                bytes@.take(size as int)
            };
            &&& r.0@ == first_drift(tally(split_lines(content)).outcomes)
            &&& r.1.read_offset == size
            &&& r.1.verdict == (if settled is Stable {
                ReadVerdict::Settled
            } else {
                ReadVerdict::SettledAtBound
            })
            &&& r.1.digest@ == settled_digest(content)
        }),
{
    let size = match settled {
        SettleOutcome::Stable { size } => size,
        SettleOutcome::AtBound { size } => size,
    };
    let end = if (bytes.len() as u64) <= size {
        bytes.len()
    } else {
        size as usize
    };
    let content = &bytes[0..end];
    assert(content@ =~= (if bytes@.len() <= size {
        bytes@
    } else {
        bytes@.take(size as int)
    }));
    let (outcomes, lines, byte_count) = tally_lines(content);
    let probe = aggregate(outcomes.as_slice());
    let head = digest_of(content);
    let mut text = head.as_str().to_owned();
    push_str(&mut text, "|lines=");
    proof {
        reveal_strlit("|lines=");
    }
    push_decimal(&mut text, lines);
    push_str(&mut text, "|bytes=");
    proof {
        reveal_strlit("|bytes=");
    }
    push_decimal(&mut text, byte_count);
    let verdict = match settled {
        SettleOutcome::Stable { .. } => ReadVerdict::Settled,
        SettleOutcome::AtBound { .. } => ReadVerdict::SettledAtBound,
    };
    let read = TurnRead { digest: TurnDigest::from_string(text), verdict, read_offset: size };
    (probe, read)
}

} // verus!
