//! The clip editor of the Motion Photo page: where start, end and cover land when one
//! of them is moved, and the size limit's stepper.
//!
//! Times are spans from the start of the video. A clip is at most ten seconds long and
//! at least a tenth of a second (or the whole video, when that is shorter); the cover
//! frame stays inside the clip, a microsecond before its end at the latest.

use vstd::prelude::*;

use crate::chars::{chars_of, string_of};
use crate::time::{max_nanos, TimeSpan};

verus! {

/// The longest clip, in nanoseconds.
pub const MAX_MOTION_DURATION_NANOS: u128 = 10_000_000_000;

/// The shortest clip, in nanoseconds, when the video is at least that long.
pub const MIN_MOTION_DURATION_NANOS: u128 = 100_000_000;

/// How far before the end of the clip the cover frame may go at the latest, in
/// nanoseconds.
pub const COVER_END_MARGIN_NANOS: u128 = 1_000;

/// The smallest and largest Motion Photo size limit, in megabytes.
pub const MOTION_MAX_SIZE_MB_MIN: u32 = 1;

pub const MOTION_MAX_SIZE_MB_MAX: u32 = 1024;

/// Which of the three times the user moved.
#[derive(Debug, Clone, Copy, PartialEq, Eq)]
pub enum MotionTimeControl {
    Start,
    End,
    Cover,
}

pub open spec fn min_of(a: int, b: int) -> int {
    if a <= b {
        a
    } else {
        b
    }
}

pub open spec fn max_of(a: int, b: int) -> int {
    if a >= b {
        a
    } else {
        b
    }
}

/// `x` brought into `[lo, hi]`, checked against `lo` first.
pub open spec fn clamp(x: int, lo: int, hi: int) -> int {
    if x < lo {
        lo
    } else if x > hi {
        hi
    } else {
        x
    }
}

/// The shortest clip a video of length `timeline` allows.
pub open spec fn minimum_span(timeline: int) -> int {
    min_of(MIN_MOTION_DURATION_NANOS as int, timeline)
}

/// A clip `[start, end)` that the editor can hold for a video of length `timeline`.
pub open spec fn valid_clip(timeline: int, start: int, end: int) -> bool {
    &&& 0 <= start
    &&& start + minimum_span(timeline) <= end
    &&& end <= timeline
    &&& end - start <= MAX_MOTION_DURATION_NANOS
}

/// Start and end after `control` was moved to `requested`: moving the start drags the
/// end along when the clip would get too short, and the end is pulled in to keep the
/// clip within ten seconds; moving the end works the other way round.
pub open spec fn moved_range(
    control: MotionTimeControl,
    requested: int,
    timeline: int,
    start: int,
    end: int,
) -> (int, int) {
    let minimum = minimum_span(timeline);
    let wanted = min_of(requested, timeline);
    let span = clamp(end - start, minimum, MAX_MOTION_DURATION_NANOS as int);
    match control {
        MotionTimeControl::Start => {
            let new_start = min_of(wanted, timeline - minimum);
            let dragged = if end < new_start + minimum {
                min_of(new_start + span, timeline)
            } else {
                end
            };
            (new_start, min_of(dragged, new_start + MAX_MOTION_DURATION_NANOS))
        },
        MotionTimeControl::End => {
            let new_end = max_of(wanted, minimum);
            let dragged = if start > new_end - minimum {
                max_of(new_end - span, 0)
            } else {
                start
            };
            (max_of(dragged, new_end - MAX_MOTION_DURATION_NANOS), new_end)
        },
        MotionTimeControl::Cover => (start, end),
    }
}

/// Start, end and cover after `control` was moved to `requested` (a span from the start
/// of a video of length `timeline`).
pub open spec fn spec_updated_motion_times(
    control: MotionTimeControl,
    requested: int,
    timeline: int,
    start: int,
    end: int,
    cover: int,
) -> (int, int, int) {
    let (new_start, new_end) = moved_range(control, requested, timeline, start, end);
    let wanted_cover = if control == MotionTimeControl::Cover {
        min_of(requested, timeline)
    } else {
        cover
    };
    (
        new_start,
        new_end,
        clamp(
            wanted_cover,
            new_start,
            max_of(new_end - COVER_END_MARGIN_NANOS, new_start),
        ),
    )
}

/// Moves one of the clip's times to `requested`, and gives the start, end and cover
/// that follow.
pub fn updated_motion_times(
    control: MotionTimeControl,
    requested: TimeSpan,
    timeline: TimeSpan,
    current_start: TimeSpan,
    current_end: TimeSpan,
    current_cover: TimeSpan,
) -> (r: (TimeSpan, TimeSpan, TimeSpan))
    ensures
        (r.0@ as int, r.1@ as int, r.2@ as int) == spec_updated_motion_times(
            control,
            requested@ as int,
            timeline@ as int,
            current_start@ as int,
            current_end@ as int,
            current_cover@ as int,
        ),
{
    let t = timeline.as_nanos();
    let s = current_start.as_nanos();
    let e = current_end.as_nanos();
    let minimum = if MIN_MOTION_DURATION_NANOS <= t {
        MIN_MOTION_DURATION_NANOS
    } else {
        t
    };
    let r = requested.as_nanos();
    let wanted = if r <= t {
        r
    } else {
        t
    };
    let span = if e < s || e - s < minimum {
        minimum
    } else if e - s > MAX_MOTION_DURATION_NANOS {
        MAX_MOTION_DURATION_NANOS
    } else {
        e - s
    };
    assert(span as int == clamp(e - s, minimum as int, MAX_MOTION_DURATION_NANOS as int));
    let (new_start, new_end): (u128, u128) = match control {
        MotionTimeControl::Start => {
            let new_start = if wanted <= t - minimum {
                wanted
            } else {
                t - minimum
            };
            let dragged = if e < new_start + minimum {
                if new_start + span <= t {
                    new_start + span
                } else {
                    t
                }
            } else {
                e
            };
            let new_end = if dragged <= new_start + MAX_MOTION_DURATION_NANOS {
                dragged
            } else {
                new_start + MAX_MOTION_DURATION_NANOS
            };
            (new_start, new_end)
        },
        MotionTimeControl::End => {
            let new_end = if wanted >= minimum {
                wanted
            } else {
                minimum
            };
            let dragged = if s > new_end - minimum {
                if new_end >= span {
                    new_end - span
                } else {
                    0
                }
            } else {
                s
            };
            let new_start = if new_end < MAX_MOTION_DURATION_NANOS || dragged >= new_end
                - MAX_MOTION_DURATION_NANOS {
                dragged
            } else {
                new_end - MAX_MOTION_DURATION_NANOS
            };
            (new_start, new_end)
        },
        MotionTimeControl::Cover => (s, e),
    };
    assert((new_start as int, new_end as int) == moved_range(
        control,
        r as int,
        t as int,
        s as int,
        e as int,
    ));
    let wanted_cover = match control {
        MotionTimeControl::Cover => wanted,
        _ => current_cover.as_nanos(),
    };
    let latest = if new_end >= new_start + COVER_END_MARGIN_NANOS {
        new_end - COVER_END_MARGIN_NANOS
    } else {
        new_start
    };
    let cover = if wanted_cover < new_start {
        new_start
    } else if wanted_cover > latest {
        latest
    } else {
        wanted_cover
    };
    assert(new_start <= max_nanos() && new_end <= max_nanos() && cover <= max_nanos());
    (
        TimeSpan::from_nanos(new_start).unwrap(),
        TimeSpan::from_nanos(new_end).unwrap(),
        TimeSpan::from_nanos(cover).unwrap(),
    )
}

/// The clip a newly chosen video of length `duration` starts with: its first ten
/// seconds at most, the cover in the middle; `None` when the video is empty.
pub fn initial_motion_times(duration: TimeSpan) -> (r: Option<(TimeSpan, TimeSpan, TimeSpan)>)
    ensures
        ({
            let end = min_of(duration@ as int, MAX_MOTION_DURATION_NANOS as int);
            &&& end == 0 ==> r is None
            &&& end > 0 ==> (r matches Some((s, e, c)) && s@ == 0 && e@ == end && c@ == end / 2)
        }),
{
    let d = duration.as_nanos();
    let end = if d <= MAX_MOTION_DURATION_NANOS {
        d
    } else {
        MAX_MOTION_DURATION_NANOS
    };
    if end == 0 {
        None
    } else {
        Some(
            (
                TimeSpan::zero(),
                TimeSpan::from_nanos(end).unwrap(),
                TimeSpan::from_nanos(end / 2).unwrap(),
            ),
        )
    }
}

/// The size limit, in megabytes, after a step of `delta` from `mb`: kept within 1 to
/// 1024.
pub fn adjusted_motion_max_size(mb: u32, delta: i32) -> (r: u32)
    requires
        mb <= i32::MAX,
        i32::MIN <= mb + delta <= i32::MAX,
    ensures
        r == clamp(
            mb + delta,
            MOTION_MAX_SIZE_MB_MIN as int,
            MOTION_MAX_SIZE_MB_MAX as int,
        ),
{
    let stepped = mb as i32 + delta;
    if stepped < MOTION_MAX_SIZE_MB_MIN as i32 {
        MOTION_MAX_SIZE_MB_MIN
    } else if stepped > MOTION_MAX_SIZE_MB_MAX as i32 {
        MOTION_MAX_SIZE_MB_MAX
    } else {
        stepped as u32
    }
}

/// A size limit given in megabytes, in bytes.
pub fn motion_max_size_bytes(mb: u32) -> (r: u64)
    ensures
        r == mb * 1024 * 1024,
{
    mb as u64 * 1024 * 1024
}

/// Whether the Motion Photo export may start: a video and FFmpeg are chosen, and no
/// export is running.
pub fn can_export_motion_photo(has_video: bool, has_ffmpeg: bool, exporting: bool) -> (b: bool)
    ensures
        b == (has_video && has_ffmpeg && !exporting),
{
    has_video && has_ffmpeg && !exporting
}

/// The label of the export button.
pub fn motion_export_label(exporting: bool) -> (s: &'static str)
    ensures
        s@ == if exporting {
            "正在导出…"@
        } else {
            "导出 Motion Photo…"@
        },
{
    if exporting {
        "正在导出…"
    } else {
        "导出 Motion Photo…"
    }
}

/// The name a Motion Photo is saved under: the video's stem (`video` when it has none
/// usable) followed by `_motion_photo.jpg`.
pub fn motion_photo_file_name(stem: Option<&str>) -> (r: String)
    ensures
        r@ == match stem {
            Some(s) => s@ + "_motion_photo.jpg"@,
            None => "video"@ + "_motion_photo.jpg"@,
        },
{
    let mut name: Vec<char> = match stem {
        Some(s) => chars_of(s),
        None => chars_of("video"),
    };
    let suffix = chars_of("_motion_photo.jpg");
    let ghost start = name@;
    let mut k: usize = 0;
    while k < suffix.len()
        invariant
            k <= suffix@.len(),
            suffix@ == "_motion_photo.jpg"@,
            name@ == start + suffix@.take(k as int),
        decreases suffix@.len() - k,
    {
        name.push(suffix[k]);
        k = k + 1;
        assert(name@ == start + suffix@.take(k as int));
    }
    assert(suffix@.take(suffix@.len() as int) == suffix@);
    string_of(name.as_slice())
}

/// A new video's first clip is one the editor can hold, with the cover inside it.
pub proof fn lemma_initial_clip_is_valid(duration: nat)
    requires
        duration > 0,
    ensures
        ({
            let end = min_of(duration as int, MAX_MOTION_DURATION_NANOS as int);
            &&& valid_clip(duration as int, 0, end)
            &&& 0 <= end / 2 < end
        }),
{
}

/// From any clip inside the video, moving the start or the end gives a clip the editor
/// can hold (within the video, at least the minimum span and at most ten seconds long),
/// moving the cover keeps the clip, and the cover always ends up inside the clip.
pub proof fn lemma_moves_keep_a_valid_clip(
    control: MotionTimeControl,
    requested: nat,
    timeline: nat,
    start: nat,
    end: nat,
    cover: nat,
)
    requires
        start < end <= timeline,
    ensures
        ({
            let (s, e, c) = spec_updated_motion_times(
                control,
                requested as int,
                timeline as int,
                start as int,
                end as int,
                cover as int,
            );
            &&& control != MotionTimeControl::Cover ==> valid_clip(timeline as int, s, e)
            &&& control == MotionTimeControl::Cover ==> s == start && e == end
            &&& s <= c < e
        }),
{
}

/// Whatever clip it starts from, moving the start or the end never leaves a clip longer
/// than ten seconds.
pub proof fn lemma_moved_clip_is_at_most_ten_seconds(
    control: MotionTimeControl,
    requested: nat,
    timeline: nat,
    start: nat,
    end: nat,
)
    requires
        control != MotionTimeControl::Cover,
    ensures
        ({
            let (s, e) = moved_range(control, requested as int, timeline as int, start as int, end as int);
            e - s <= MAX_MOTION_DURATION_NANOS
        }),
{
}

/// A time that the editor can take as it is lands exactly where it was asked: the start
/// anywhere that leaves room for the shortest clip, the end anywhere from the shortest
/// clip to the end of the video, the cover anywhere inside the clip.
pub proof fn lemma_requested_time_is_taken(
    control: MotionTimeControl,
    requested: nat,
    timeline: nat,
    start: nat,
    end: nat,
    cover: nat,
)
    requires
        valid_clip(timeline as int, start as int, end as int),
    ensures
        ({
            let (s, e, c) = spec_updated_motion_times(
                control,
                requested as int,
                timeline as int,
                start as int,
                end as int,
                cover as int,
            );
            &&& control == MotionTimeControl::Start && requested + minimum_span(timeline as int)
                <= timeline ==> s == requested
            &&& control == MotionTimeControl::End && minimum_span(timeline as int) <= requested
                <= timeline ==> e == requested
            &&& control == MotionTimeControl::Cover && start <= requested && requested
                + COVER_END_MARGIN_NANOS <= end ==> c == requested
        }),
{
}

/// Moving the start or the end leaves the chosen cover frame where it was whenever it
/// still lies inside the new clip, a microsecond before its end at the latest; a cover
/// that falls outside is brought to the nearest time the clip allows.
pub proof fn lemma_cover_stays_while_inside_the_clip(
    control: MotionTimeControl,
    requested: nat,
    timeline: nat,
    start: nat,
    end: nat,
    cover: nat,
)
    requires
        control != MotionTimeControl::Cover,
    ensures
        ({
            let (s, e, c) = spec_updated_motion_times(
                control,
                requested as int,
                timeline as int,
                start as int,
                end as int,
                cover as int,
            );
            &&& s <= cover && cover + COVER_END_MARGIN_NANOS <= e ==> c == cover
            &&& cover < s ==> c == s
            &&& s + COVER_END_MARGIN_NANOS <= e && cover + COVER_END_MARGIN_NANOS > e ==> c == e
                - COVER_END_MARGIN_NANOS
        }),
{
}

} // verus!
