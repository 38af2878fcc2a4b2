//! What each operation does, told by what goes in and what comes out: by characters,
//! positions, nanoseconds and fields.
use vstd::prelude::*;

use crate::clock::{
    CivilTime, clip_name_text, clip_path_text, screenshot_name_text, screenshot_path_text,
    stamp_text,
};
use crate::detect::{
    all_texts_ascii, ascii_detected_game, ascii_lowercase_all, detected_game, first_game,
    lowercase_all, names_target, none_empty,
};
use crate::encode::{EncodePlan, ExportAction, ExportEvent, ExportPhase, encode_view, export_next};
use crate::quality::VideoQuality;
use crate::replay::{
    FrameView, StoredFrame, eviction_drops_an_expired_prefix, picture_views, pictures, recorded,
};
use crate::stamps::{numerals_read_back, value};
use crate::text::{
    all_ascii, ascii_lowercase, contains_text, decimal, ends_in, lowercase, occurs_at, trimmed,
    white_space, without_leading, without_trailing,
};

verus! {

// ---- Text

/// A text is found wherever it stands.
pub proof fn a_text_is_found_where_it_stands(
    before: Seq<char>,
    needle: Seq<char>,
    after: Seq<char>,
)
    ensures
        contains_text(before + needle + after, needle),
        ends_in(before + needle, needle),
{
    let text = before + needle + after;
    let at = before.len() as int;
    assert(text.subrange(at, at + needle.len()) =~= needle);
    assert(occurs_at(text, needle, at));
    assert((before + needle).subrange(at, at + needle.len()) =~= needle);
}

/// A text that is found stands somewhere, character by character.
pub proof fn a_text_that_is_found_stands_somewhere(text: Seq<char>, needle: Seq<char>) -> (k: int)
    requires
        contains_text(text, needle),
    ensures
        0 <= k,
        k + needle.len() <= text.len(),
        forall|i: int| 0 <= i < needle.len() ==> text[k + i] == #[trigger] needle[i],
{
    let k = choose|k: int| #[trigger] occurs_at(text, needle, k);
    assert forall|i: int| 0 <= i < needle.len() implies text[k + i] == #[trigger] needle[i] by {
        assert(text.subrange(k, k + needle.len())[i] == text[k + i]);
    }
    k
}

/// A text ends in another exactly if its last characters are those of the other.
pub proof fn the_end_of_a_text_is_its_last_characters(text: Seq<char>, suffix: Seq<char>)
    ensures
        ends_in(text, suffix) <==> suffix.len() <= text.len() && forall|i: int|
            0 <= i < suffix.len() ==> text[text.len() - suffix.len() + i] == #[trigger] suffix[i],
{
    let at = text.len() - suffix.len();
    if ends_in(text, suffix) {
        assert forall|i: int| 0 <= i < suffix.len() implies text[at + i] == #[trigger] suffix[i] by {
            assert(text.subrange(at, at + suffix.len())[i] == text[at + i]);
        }
    } else if suffix.len() <= text.len() && forall|i: int|
        0 <= i < suffix.len() ==> text[at + i] == #[trigger] suffix[i] {
        assert(text.subrange(at, at + suffix.len()) =~= suffix);
    }
}

/// The code point is one of Unicode's white space.
pub open spec fn white_code(code: int) -> bool {
    9 <= code <= 13 || code == 32 || code == 133 || code == 160 || code == 5760 || 8192 <= code
        <= 8202 || code == 8232 || code == 8233 || code == 8239 || code == 8287 || code == 12288
}

/// White space is the tab to the carriage return, the space, and Unicode's further spaces and
/// separators; nothing else is.
pub proof fn white_space_is_unicodes(c: char)
    ensures
        white_space(c) <==> {
            let code = c as int;
            ||| 0x9 <= code <= 0xd
            ||| code == 0x20 || code == 0x85 || code == 0xa0 || code == 0x1680
            ||| 0x2000 <= code <= 0x200a
            ||| code == 0x2028 || code == 0x2029 || code == 0x202f || code == 0x205f
            ||| code == 0x3000
        },
{
}

/// Trimming cuts a beginning and an end off that are white space throughout, and what is left
/// neither begins nor ends in white space.
pub proof fn trimming_cuts_white_space_only(text: Seq<char>) -> (ends: (Seq<char>, Seq<char>))
    ensures
        text == ends.0 + trimmed(text) + ends.1,
        forall|i: int| 0 <= i < ends.0.len() ==> white_code(#[trigger] ends.0[i] as int),
        forall|i: int| 0 <= i < ends.1.len() ==> white_code(#[trigger] ends.1[i] as int),
        trimmed(text).len() > 0 ==> !white_code(trimmed(text)[0] as int) && !white_code(
            trimmed(text).last() as int,
        ),
{
    let front = cut_front(text);
    let rest = without_leading(text);
    let back = cut_back(rest);
    assert(text =~= front + trimmed(text) + back);
    (front, back)
}

proof fn cut_front(text: Seq<char>) -> (front: Seq<char>)
    ensures
        text == front + without_leading(text),
        forall|i: int| 0 <= i < front.len() ==> white_code(#[trigger] front[i] as int),
        without_leading(text).len() > 0 ==> !white_code(without_leading(text)[0] as int),
    decreases text.len(),
{
    if text.len() > 0 && white_code(text[0] as int) {
        let front = cut_front(text.drop_first());
        let longer = seq![text[0]] + front;
        assert(without_leading(text) == without_leading(text.drop_first()));
        assert(text =~= seq![text[0]] + text.drop_first());
        assert(text =~= longer + without_leading(text));
        longer
    } else {
        assert(text =~= Seq::<char>::empty() + without_leading(text));
        Seq::empty()
    }
}

proof fn cut_back(text: Seq<char>) -> (back: Seq<char>)
    ensures
        text == without_trailing(text) + back,
        forall|i: int| 0 <= i < back.len() ==> white_code(#[trigger] back[i] as int),
        without_trailing(text).len() > 0 ==> !white_code(without_trailing(text).last() as int),
        without_trailing(text).len() > 0 ==> without_trailing(text)[0] == text[0],
    decreases text.len(),
{
    if text.len() > 0 && white_code(text.last() as int) {
        let back = cut_back(text.drop_last());
        let longer = back.push(text.last());
        assert(without_trailing(text) == without_trailing(text.drop_last()));
        assert(text =~= text.drop_last().push(text.last()));
        assert(text =~= without_trailing(text) + longer);
        longer
    } else {
        assert(text =~= without_trailing(text) + Seq::<char>::empty());
        Seq::empty()
    }
}

/// Lowercasing by ASCII moves the code points of `A` to `Z` up by 32, each in its place, and
/// leaves every other character.
pub proof fn ascii_letters_are_lowered_in_place(text: Seq<char>)
    ensures
        ascii_lowercase(text).len() == text.len(),
        forall|i: int|
            0 <= i < text.len() ==> {
                let code = #[trigger] text[i] as int;
                ascii_lowercase(text)[i] as int == if 65 <= code <= 90 {
                    code + 32
                } else {
                    code
                }
            },
{
}

/// A numeral consists of digits, has no needless zero in front, and has the value it was
/// written for.
pub proof fn numerals_are_decimal(n: nat)
    ensures
        value(decimal(n)) == n,
        decimal(n).len() > 0,
        forall|i: int| 0 <= i < decimal(n).len() ==> 48 <= #[trigger] decimal(n)[i] as int <= 57,
        n > 0 ==> decimal(n)[0] as int != 48,
        n < 10 ==> decimal(n).len() == 1,
        decimal(n).last() as int == 48 + n % 10,
        n >= 10 ==> decimal(n).drop_last() == decimal(n / 10),
    decreases n,
{
    numerals_read_back(n);
    if n >= 10 {
        numerals_are_decimal(n / 10);
        assert(decimal(n)[0] == decimal(n / 10)[0]);
        assert(decimal(n).drop_last() =~= decimal(n / 10));
    }
}

/// A text is ASCII exactly if its code points are all below 128; and so of several texts.
pub proof fn ascii_is_below_128(text: Seq<char>, all: Seq<Seq<char>>)
    ensures
        all_ascii(text) <==> forall|i: int| 0 <= i < text.len() ==> #[trigger] text[i] as int <= 127,
        all_texts_ascii(all) <==> forall|j: int, i: int|
            0 <= j < all.len() && 0 <= i < all[j].len() ==> #[trigger] all[j][i] as int <= 127,
        none_empty(all) <==> forall|j: int| 0 <= j < all.len() ==> #[trigger] all[j].len() != 0,
{
    if forall|j: int, i: int|
        0 <= j < all.len() && 0 <= i < all[j].len() ==> #[trigger] all[j][i] as int <= 127 {
        assert forall|j: int| 0 <= j < all.len() implies all_ascii(#[trigger] all[j]) by {
            assert(forall|i: int| 0 <= i < all[j].len() ==> #[trigger] all[j][i] as int <= 127);
        }
    }
}

// ---- The replay buffer

/// Recording a frame drops frames at the front only: those that lie more than `secs` seconds
/// before it in nanoseconds, up to the first that does not. All others stay in their places,
/// and the frame comes last.
pub proof fn recording_drops_by_the_nanosecond(
    frames: Seq<FrameView>,
    frame: FrameView,
    secs: u64,
) -> (dropped: int)
    ensures
        0 <= dropped <= frames.len(),
        recorded(frames, frame, secs).len() == frames.len() + 1 - dropped,
        recorded(frames, frame, secs).last() == frame,
        forall|i: int|
            dropped <= i < frames.len() ==> recorded(frames, frame, secs)[i - dropped]
                == #[trigger] frames[i],
        forall|i: int|
            0 <= i < dropped ==> frame.timestamp - #[trigger] frames[i].timestamp > secs
                * 1_000_000_000,
        dropped < frames.len() ==> frame.timestamp - frames[dropped].timestamp <= secs
            * 1_000_000_000,
{
    let all = frames.push(frame);
    let dropped = eviction_drops_an_expired_prefix(all, frame.timestamp, secs);
    assert(all[frames.len() as int] == frame);
    assert forall|i: int| 0 <= i < dropped implies frame.timestamp
        - #[trigger] frames[i].timestamp > secs * 1_000_000_000 by {
        assert(all[i] == if i < frames.len() { frames[i] } else { frame });
    }
    if dropped < frames.len() {
        assert(all[dropped] == frames[dropped]);
    }
    dropped
}

/// Where frames come in in the order of their time stamps, a frame is in the buffer after a
/// recording exactly if it is at most `secs` times a billion nanoseconds older than the frame
/// recorded; that frame is in it too, and nothing else is.
pub proof fn recording_keeps_exactly_the_last_seconds(
    frames: Seq<FrameView>,
    frame: FrameView,
    secs: u64,
)
    requires
        forall|i: int, j: int|
            0 <= i <= j < frames.len() ==> frames[i].timestamp <= frames[j].timestamp,
        forall|i: int| 0 <= i < frames.len() ==> #[trigger] frames[i].timestamp <= frame.timestamp,
    ensures
        forall|i: int|
            0 <= i < frames.len() ==> (recorded(frames, frame, secs).contains(#[trigger] frames[i])
                <==> frame.timestamp - frames[i].timestamp <= secs * 1_000_000_000),
        recorded(frames, frame, secs).contains(frame),
        forall|k: int|
            0 <= k < recorded(frames, frame, secs).len() ==> {
                let f = #[trigger] recorded(frames, frame, secs)[k];
                (f == frame || frames.contains(f)) && frame.timestamp - f.timestamp <= secs
                    * 1_000_000_000
            },
{
    let result = recorded(frames, frame, secs);
    let dropped = recording_drops_by_the_nanosecond(frames, frame, secs);
    assert(result[result.len() - 1] == frame);
    assert forall|k: int| 0 <= k < result.len() implies {
        let f = #[trigger] result[k];
        (f == frame || frames.contains(f)) && frame.timestamp - f.timestamp <= secs * 1_000_000_000
    } by {
        if k < result.len() - 1 {
            assert(result[k] == frames[k + dropped]);
            assert(frames[dropped].timestamp <= frames[k + dropped].timestamp);
        }
    }
    assert forall|i: int| 0 <= i < frames.len() implies (result.contains(#[trigger] frames[i])
        <==> frame.timestamp - frames[i].timestamp <= secs * 1_000_000_000) by {
        if i >= dropped {
            assert(result[i - dropped] == frames[i]);
        } else if result.contains(frames[i]) {
            let k = result.index_of(frames[i]);
            assert(result[k] == frames[i]);
        }
    }
}

/// A longer replay keeps at least what a shorter one keeps.
pub proof fn a_longer_replay_keeps_more(
    frames: Seq<FrameView>,
    frame: FrameView,
    shorter: u64,
    longer: u64,
)
    requires
        shorter <= longer,
    ensures
        recorded(frames, frame, shorter).len() <= recorded(frames, frame, longer).len(),
{
    let a = recording_drops_by_the_nanosecond(frames, frame, shorter);
    let b = recording_drops_by_the_nanosecond(frames, frame, longer);
    if a < b {
        assert(frame.timestamp - frames[a].timestamp > longer * 1_000_000_000);
        assert(shorter * 1_000_000_000 <= longer * 1_000_000_000);
    }
}

/// A frame is told by its time stamp, its size and its bytes.
pub proof fn frames_are_seen_whole(frame: StoredFrame)
    ensures
        frame@.timestamp == frame.timestamp,
        frame@.width == frame.width,
        frame@.height == frame.height,
        frame@.pixels == frame.pixels@,
{
}

/// Copies of frames keep number, order, sizes and bytes.
pub proof fn pictures_are_copied_one_by_one(
    frames: Seq<FrameView>,
    copies: Seq<(u32, u32, Vec<u8>)>,
)
    ensures
        pictures(frames).len() == frames.len(),
        forall|i: int|
            0 <= i < frames.len() ==> pictures(frames)[i] == (
                #[trigger] frames[i].width,
                frames[i].height,
                frames[i].pixels,
            ),
        picture_views(copies).len() == copies.len(),
        forall|i: int|
            0 <= i < copies.len() ==> picture_views(copies)[i] == (
                #[trigger] copies[i].0,
                copies[i].1,
                copies[i].2@,
            ),
{
}

// ---- Exporting a clip

/// The rate factors of the quality profiles.
pub proof fn profiles_have_their_rate_factors(quality: VideoQuality)
    ensures
        quality is Low ==> quality.crf() == "28"@,
        quality is Medium ==> quality.crf() == "23"@,
        quality is High ==> quality.crf() == "18"@,
{
}

/// Every frame goes into the clip, in its place and with all its bytes.
pub proof fn every_frame_goes_into_the_clip(
    frames: Seq<(u32, u32, Seq<u8>)>,
    fps: u32,
    crf: Seq<char>,
    time: CivilTime,
)
    ensures
        encode_view(frames, fps, crf, time).chunks.len() == frames.len(),
        forall|i: int|
            0 <= i < frames.len() ==> encode_view(frames, fps, crf, time).chunks[i]
                == #[trigger] frames[i].2,
{
}

/// FFmpeg is told the size of the first frame, the capture rate, the rate factor and the
/// path, each in its place among the fixed arguments.
pub proof fn ffmpeg_is_told_what_to_do(
    frames: Seq<(u32, u32, Seq<u8>)>,
    fps: u32,
    crf: Seq<char>,
    time: CivilTime,
)
    requires
        frames.len() > 0,
    ensures
        ({
            let plan = encode_view(frames, fps, crf, time);
            let args = plan.args;
            &&& args.len() == 20
            &&& args[0] == "-y"@ && args[1] == "-f"@ && args[2] == "rawvideo"@
            &&& args[3] == "-pix_fmt"@ && args[4] == "rgba"@
            &&& args[5] == "-s"@
            &&& args[6] == decimal(frames[0].0 as nat) + "x"@ + decimal(frames[0].1 as nat)
            &&& args[7] == "-r"@ && args[8] == decimal(fps as nat)
            &&& args[9] == "-i"@ && args[10] == "-"@
            &&& args[11] == "-c:v"@ && args[12] == "libx264"@
            &&& args[13] == "-preset"@ && args[14] == "ultrafast"@
            &&& args[15] == "-crf"@ && args[16] == crf
            &&& args[17] == "-pix_fmt"@ && args[18] == "yuv420p"@
            &&& args[19] == plan.output
            &&& plan.output == "captures/clip_"@ + stamp_text(time) + ".mp4"@
        }),
{
}

/// A plan is told by its arguments, its path and its bytes, one by one.
pub proof fn plans_are_seen_whole(plan: EncodePlan)
    ensures
        plan@.output == plan.output@,
        plan@.args.len() == plan.args@.len(),
        forall|i: int| 0 <= i < plan.args@.len() ==> plan@.args[i] == #[trigger] plan.args@[i]@,
        plan@.chunks.len() == plan.chunks@.len(),
        forall|i: int|
            0 <= i < plan.chunks@.len() ==> plan@.chunks[i] == #[trigger] plan.chunks@[i]@,
{
}

/// What an export asks for after each event, in each phase.
pub proof fn export_goes_step_by_step(k: usize, chunks: usize)
    ensures
        chunks > 0 ==> export_next(ExportPhase::Starting, ExportEvent::Started, chunks) == (
            ExportPhase::Writing(0),
            ExportAction::Write(0),
        ),
        chunks == 0 ==> export_next(ExportPhase::Starting, ExportEvent::Started, chunks) == (
            ExportPhase::Closing,
            ExportAction::Close,
        ),
        export_next(ExportPhase::Starting, ExportEvent::StartedWithoutInput, chunks) == (
            ExportPhase::Waiting,
            ExportAction::Wait,
        ),
        export_next(ExportPhase::Starting, ExportEvent::StartFailed, chunks) == (
            ExportPhase::Done,
            ExportAction::Stop,
        ),
        k + 1 < chunks ==> export_next(ExportPhase::Writing(k), ExportEvent::Written, chunks) == (
            ExportPhase::Writing((k + 1) as usize),
            ExportAction::Write((k + 1) as usize),
        ),
        k + 1 >= chunks ==> export_next(ExportPhase::Writing(k), ExportEvent::Written, chunks) == (
            ExportPhase::Closing,
            ExportAction::Close,
        ),
        export_next(ExportPhase::Writing(k), ExportEvent::WriteFailed, chunks) == (
            ExportPhase::Closing,
            ExportAction::Close,
        ),
        export_next(ExportPhase::Closing, ExportEvent::Closed, chunks) == (
            ExportPhase::Waiting,
            ExportAction::Wait,
        ),
        export_next(ExportPhase::Waiting, ExportEvent::Waited, chunks) == (
            ExportPhase::Done,
            ExportAction::Report,
        ),
{
}

/// An event that does not belong to the phase of an export is ignored.
pub proof fn an_export_ignores_other_events(phase: ExportPhase, event: ExportEvent, chunks: usize)
    requires
        event is Started || event is StartedWithoutInput || event is StartFailed ==> !(phase
            is Starting),
        event is Written || event is WriteFailed ==> !(phase is Writing),
        event is Closed ==> !(phase is Closing),
        event is Waited ==> !(phase is Waiting),
    ensures
        export_next(phase, event, chunks) == (phase, ExportAction::Ignored),
{
}

// ---- File names

/// The paths of clips and screenshots: a fixed beginning, the stamp, and the extension.
pub proof fn paths_hold_the_stamp(time: CivilTime)
    ensures
        clip_path_text(time) == "captures/clip_"@ + stamp_text(time) + ".mp4"@,
        screenshot_path_text(time) == "captures/screenshot_"@ + stamp_text(time) + ".png"@,
        clip_name_text(time) == "clip_"@ + stamp_text(time) + ".mp4"@,
        screenshot_name_text(time) == "screenshot_"@ + stamp_text(time) + ".png"@,
{
}

/// The times that exist: every second of every day of the calendar, in the years that chrono
/// represents.
pub proof fn every_second_of_the_calendar_is_valid(time: CivilTime)
    requires
        -262143 <= time.year <= 262142,
        time.hour < 24 && time.minute < 60 && time.second < 60,
    ensures
        time.valid() <==> {
            let (y, m, d) = (time.year as int, time.month as int, time.day as int);
            ||| (m == 1 || m == 3 || m == 5 || m == 7 || m == 8 || m == 10 || m == 12) && 1 <= d
                <= 31
            ||| (m == 4 || m == 6 || m == 9 || m == 11) && 1 <= d <= 30
            ||| m == 2 && 1 <= d <= 28
            ||| m == 2 && d == 29 && y % 4 == 0 && y % 100 != 0
            ||| m == 2 && d == 29 && y % 400 == 0
        },
{
}

// ---- Detecting games

/// The characters are the same letter, or the same character.
pub open spec fn same_letter(a: char, b: char) -> bool {
    ||| a == b
    ||| 65 <= a as int <= 90 && b as int == a as int + 32
    ||| 65 <= b as int <= 90 && a as int == b as int + 32
}

/// Where a target stands at any place of a process's name, letter for letter without regard
/// to case, a game is detected.
pub proof fn a_target_anywhere_in_a_name_is_a_game(
    processes: Seq<Seq<char>>,
    targets: Seq<Seq<char>>,
    p: int,
    t: int,
    k: int,
)
    requires
        0 <= p < processes.len(),
        0 <= t < targets.len(),
        0 <= k,
        k + targets[t].len() <= processes[p].len(),
        forall|i: int|
            0 <= i < targets[t].len() ==> same_letter(processes[p][k + i], #[trigger] targets[t][i]),
    ensures
        ascii_detected_game(processes, targets) is Some,
{
    let names = ascii_lowercase_all(processes);
    let lowered = ascii_lowercase_all(targets);
    assert(names[p] == ascii_lowercase(processes[p]));
    assert(lowered[t] == ascii_lowercase(targets[t]));
    assert(names[p].subrange(k, k + lowered[t].len()) =~= lowered[t]) by {
        assert forall|i: int| 0 <= i < targets[t].len() implies names[p][k + i]
            == #[trigger] lowered[t][i] by {
            assert(same_letter(processes[p][k + i], targets[t][i]));
        }
    }
    a_name_with_a_target_is_found(processes, names, lowered, p, t, k);
}

/// A game that is detected is one of the processes, as it stands; a target stands in its name,
/// letter for letter without regard to case, and in no name before it does a target stand.
pub proof fn a_detected_game_holds_a_target(
    processes: Seq<Seq<char>>,
    targets: Seq<Seq<char>>,
) -> (place: (int, int, int))
    requires
        ascii_detected_game(processes, targets) is Some,
    ensures
        0 <= place.0 < processes.len(),
        ascii_detected_game(processes, targets) == Some(processes[place.0]),
        0 <= place.1 < targets.len(),
        0 <= place.2,
        place.2 + targets[place.1].len() <= processes[place.0].len(),
        forall|i: int|
            0 <= i < targets[place.1].len() ==> same_letter(
                processes[place.0][place.2 + i],
                #[trigger] targets[place.1][i],
            ),
        forall|q: int, u: int, j: int|
            0 <= q < place.0 && 0 <= u < targets.len() && 0 <= j ==> !#[trigger] stands_at_letter(
                processes[q],
                targets[u],
                j,
            ),
{
    let names = ascii_lowercase_all(processes);
    let lowered = ascii_lowercase_all(targets);
    let (p, t, k) = a_found_name_holds_a_target(processes, names, lowered);
    assert(names[p] == ascii_lowercase(processes[p]));
    assert(lowered[t] == ascii_lowercase(targets[t]));
    assert forall|i: int| 0 <= i < targets[t].len() implies same_letter(
        processes[p][k + i],
        #[trigger] targets[t][i],
    ) by {
        assert(names[p].subrange(k, k + lowered[t].len())[i] == lowered[t][i]);
        assert(names[p][k + i] == lowered[t][i]);
    }
    assert forall|q: int, u: int, j: int|
        0 <= q < p && 0 <= u < targets.len() && 0 <= j implies !#[trigger] stands_at_letter(
        processes[q],
        targets[u],
        j,
    ) by {
        if stands_at_letter(processes[q], targets[u], j) {
            assert(names[q] == ascii_lowercase(processes[q]));
            assert(lowered[u] == ascii_lowercase(targets[u]));
            assert(names[q].subrange(j, j + lowered[u].len()) =~= lowered[u]) by {
                assert forall|i: int| 0 <= i < targets[u].len() implies names[q][j + i]
                    == #[trigger] lowered[u][i] by {
                    assert(same_letter(processes[q][j + i], targets[u][i]));
                }
            }
            assert(names[q].subrange(j, j + lowered[u].len()) != lowered[u]);
        }
    }
    (p, t, k)
}

/// The target stands in the name at this place, letter for letter without regard to case.
pub open spec fn stands_at_letter(name: Seq<char>, target: Seq<char>, at: int) -> bool {
    &&& at + target.len() <= name.len()
    &&& forall|i: int| 0 <= i < target.len() ==> same_letter(name[at + i], #[trigger] target[i])
}

/// The same of all texts: where the lowercase of a target stands at any place of the lowercase
/// of a process's name, a game is detected; and what is detected is the first such process.
pub proof fn a_lowercase_target_anywhere_is_a_game(
    processes: Seq<Seq<char>>,
    targets: Seq<Seq<char>>,
    p: int,
    t: int,
    k: int,
)
    requires
        0 <= p < processes.len(),
        0 <= t < targets.len(),
        0 <= k,
        k + lowercase(targets[t]).len() <= lowercase(processes[p]).len(),
        lowercase(processes[p]).subrange(k, k + lowercase(targets[t]).len()) == lowercase(
            targets[t],
        ),
    ensures
        detected_game(processes, targets) is Some,
{
    let names = lowercase_all(processes);
    let lowered = lowercase_all(targets);
    assert(names[p] == lowercase(processes[p]));
    assert(lowered[t] == lowercase(targets[t]));
    a_name_with_a_target_is_found(processes, names, lowered, p, t, k);
}

/// A game that is detected is one of the processes, as it stands, with the lowercase of a
/// target at some place of the lowercase of its name, and the first of that kind.
pub proof fn a_detected_game_holds_a_lowercase_target(
    processes: Seq<Seq<char>>,
    targets: Seq<Seq<char>>,
) -> (place: (int, int, int))
    requires
        detected_game(processes, targets) is Some,
    ensures
        0 <= place.0 < processes.len(),
        detected_game(processes, targets) == Some(processes[place.0]),
        0 <= place.1 < targets.len(),
        0 <= place.2,
        place.2 + lowercase(targets[place.1]).len() <= lowercase(processes[place.0]).len(),
        lowercase(processes[place.0]).subrange(
            place.2,
            place.2 + lowercase(targets[place.1]).len(),
        ) == lowercase(targets[place.1]),
        forall|q: int, u: int, j: int, e: int|
            0 <= q < place.0 && 0 <= u < targets.len() && 0 <= j && e == j + lowercase(
                targets[u],
            ).len() && e <= lowercase(processes[q]).len() ==> #[trigger] lowercase(
                processes[q],
            ).subrange(j, e) != #[trigger] lowercase(targets[u]),
{
    let names = lowercase_all(processes);
    let lowered = lowercase_all(targets);
    let (p, t, k) = a_found_name_holds_a_target(processes, names, lowered);
    assert(names[p] == lowercase(processes[p]));
    assert(lowered[t] == lowercase(targets[t]));
    assert forall|q: int, u: int, j: int, e: int|
        0 <= q < p && 0 <= u < targets.len() && 0 <= j && e == j + lowercase(targets[u]).len() && e
            <= lowercase(processes[q]).len() implies #[trigger] lowercase(processes[q]).subrange(
        j,
        e,
    ) != #[trigger] lowercase(targets[u]) by {
        assert(names[q] == lowercase(processes[q]));
        assert(lowered[u] == lowercase(targets[u]));
        assert(names[q].subrange(j, j + lowered[u].len()) != lowered[u]);
    }
    (p, t, k)
}

proof fn a_name_with_a_target_is_found(
    processes: Seq<Seq<char>>,
    names: Seq<Seq<char>>,
    targets: Seq<Seq<char>>,
    p: int,
    t: int,
    k: int,
)
    requires
        processes.len() == names.len(),
        0 <= p < names.len(),
        0 <= t < targets.len(),
        0 <= k,
        k + targets[t].len() <= names[p].len(),
        names[p].subrange(k, k + targets[t].len()) == targets[t],
    ensures
        first_game(processes, names, targets) is Some,
    decreases p,
{
    if p == 0 {
        assert(occurs_at(names[0], targets[t], k));
        assert(contains_text(names[0], targets[t]));
        assert(names_target(names.first(), targets));
    } else {
        assert(names.drop_first()[p - 1] == names[p]);
        a_name_with_a_target_is_found(
            processes.drop_first(),
            names.drop_first(),
            targets,
            p - 1,
            t,
            k,
        );
    }
}

proof fn a_found_name_holds_a_target(
    processes: Seq<Seq<char>>,
    names: Seq<Seq<char>>,
    targets: Seq<Seq<char>>,
) -> (place: (int, int, int))
    requires
        processes.len() == names.len(),
        first_game(processes, names, targets) is Some,
    ensures
        0 <= place.0 < processes.len(),
        first_game(processes, names, targets) == Some(processes[place.0]),
        0 <= place.1 < targets.len(),
        0 <= place.2,
        place.2 + targets[place.1].len() <= names[place.0].len(),
        names[place.0].subrange(place.2, place.2 + targets[place.1].len()) == targets[place.1],
        forall|q: int, u: int, j: int, e: int|
            0 <= q < place.0 && 0 <= u < targets.len() && 0 <= j && e == j + targets[u].len() && e
                <= names[q].len() ==> #[trigger] names[q].subrange(j, e) != #[trigger] targets[u],
    decreases processes.len(),
{
    if names_target(names.first(), targets) {
        let t = choose|t: int|
            0 <= t < targets.len() && contains_text(names.first(), #[trigger] targets[t]);
        let k = choose|k: int| #[trigger] occurs_at(names.first(), targets[t], k);
        (0, t, k)
    } else {
        let rest = names.drop_first();
        let (p, t, k) = a_found_name_holds_a_target(processes.drop_first(), rest, targets);
        assert forall|q: int, u: int, j: int, e: int|
            0 <= q < p + 1 && 0 <= u < targets.len() && 0 <= j && e == j + targets[u].len() && e
                <= names[q].len() implies #[trigger] names[q].subrange(j, e)
            != #[trigger] targets[u] by {
            if q == 0 {
                if names[0].subrange(j, e) == targets[u] {
                    assert(occurs_at(names[0], targets[u], j));
                    assert(contains_text(names[0], targets[u]));
                }
            } else {
                assert(rest[q - 1] == names[q]);
                assert(rest[q - 1].subrange(j, e) != targets[u]);
            }
        }
        (p + 1, t, k)
    }
}

} // verus!
