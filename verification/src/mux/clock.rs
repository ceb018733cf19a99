//! The presentation clock of a multiplexer: timestamps that never go back.

use vstd::prelude::*;

verus! {

/// Ticks by which a timestamp may trail the last one before the timebase is shifted.
pub const PTS_TOLERANCE: u64 = 900;

/// Whether a timestamp of `raw_pts` ticks, on a timebase moved by `offset`,
/// trails the last timestamp by more than the tolerance, so that the
/// timebase has to move.
pub open spec fn shift_needed(raw_pts: u64, offset: u64, last: Option<u64>) -> bool {
    match last {
        Some(before) => raw_pts.saturating_add(offset).saturating_add(PTS_TOLERANCE) < before,
        None => false,
    }
}

/// The offset in force for a timestamp of `raw_pts` ticks: after a shift,
/// the one that puts it `PTS_TOLERANCE` ticks after the last timestamp.
pub open spec fn corrected_offset(raw_pts: u64, offset: u64, last: Option<u64>) -> u64 {
    match last {
        Some(before) if shift_needed(raw_pts, offset, last) => before.saturating_add(
            PTS_TOLERANCE,
        ).saturating_sub(raw_pts),
        _ => offset,
    }
}

/// The presentation timestamp for `raw_pts` ticks: the ticks on the
/// corrected timebase, or one tick after the last timestamp where that
/// would not be later.
pub open spec fn corrected_pts(raw_pts: u64, offset: u64, last: Option<u64>) -> u64 {
    let corrected = raw_pts.saturating_add(corrected_offset(raw_pts, offset, last));
    match last {
        Some(before) if corrected <= before => before.saturating_add(1),
        _ => corrected,
    }
}

/// A corrected timestamp is later than the one before it, unless that one
/// is the largest value that the clock can hold.
pub proof fn lemma_corrected_pts_advances(raw_pts: u64, offset: u64, last: u64)
    requires
        last < u64::MAX,
    ensures
        corrected_pts(raw_pts, offset, Some(last)) > last,
{
}

/// Hands out the presentation timestamp for `raw_pts` ticks, moves the
/// timebase where the ticks trail the last timestamp by more than
/// `PTS_TOLERANCE`, and remembers the timestamp as the last one.
pub fn correct_pts(raw_pts: u64, offset: &mut u64, last: &mut Option<u64>) -> (pts: u64)
    ensures
        pts == corrected_pts(raw_pts, *old(offset), *old(last)),
        *final(offset) == corrected_offset(raw_pts, *old(offset), *old(last)),
        *final(last) == Some(pts),
        match *old(last) {
            Some(before) => pts > before || before == u64::MAX,
            None => true,
        },
{
    let mut pts: u64 = raw_pts.saturating_add(*offset);

    if let Some(before) = *last {
        if pts.saturating_add(PTS_TOLERANCE) < before {
            *offset = before.saturating_add(PTS_TOLERANCE).saturating_sub(raw_pts);
            pts = raw_pts.saturating_add(*offset);
        }
        if pts <= before {
            pts = before.saturating_add(1);
        }
    }
    *last = Some(pts);
    pts
}

} // verus!
