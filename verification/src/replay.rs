//! The replay buffer: raw frames in memory, kept for a bounded time.
use std::collections::VecDeque;
use vstd::prelude::*;

use crate::operations::recording_drops_by_the_nanosecond;

verus! {

/// A captured frame.
pub struct StoredFrame {
    /// When it was captured, in nanoseconds of a monotonic clock.
    pub timestamp: u128,
    pub width: u32,
    pub height: u32,
    /// The raw RGBA bytes.
    pub pixels: Vec<u8>,
}

/// What a [`StoredFrame`] holds.
#[verifier::ext_equal]
pub struct FrameView {
    pub timestamp: int,
    pub width: u32,
    pub height: u32,
    pub pixels: Seq<u8>,
}

impl View for StoredFrame {
    type V = FrameView;

    open spec fn view(&self) -> FrameView {
        FrameView {
            timestamp: self.timestamp as int,
            width: self.width,
            height: self.height,
            pixels: self.pixels@,
        }
    }
}

/// How long before `now` the frame was captured; nothing if it was captured later.
pub open spec fn age(frame: FrameView, now: int) -> int {
    if frame.timestamp <= now {
        now - frame.timestamp
    } else {
        0
    }
}

/// The frame is more than `secs` seconds old.
pub open spec fn expired(frame: FrameView, now: int, secs: u64) -> bool {
    age(frame, now) > secs * 1_000_000_000
}

/// `frames` without the expired frames it starts with.
pub open spec fn evicted(frames: Seq<FrameView>, now: int, secs: u64) -> Seq<FrameView>
    decreases frames.len(),
{
    if frames.len() > 0 && expired(frames.first(), now, secs) {
        evicted(frames.drop_first(), now, secs)
    } else {
        frames
    }
}

/// The buffer after `frame` was recorded: it is appended, and the oldest frames leave
/// while they are older than `secs` seconds at the time of its capture.
pub open spec fn recorded(frames: Seq<FrameView>, frame: FrameView, secs: u64) -> Seq<FrameView> {
    evicted(frames.push(frame), frame.timestamp, secs)
}

/// Width, height and bytes of each frame.
pub open spec fn pictures(frames: Seq<FrameView>) -> Seq<(u32, u32, Seq<u8>)> {
    frames.map_values(|frame: FrameView| (frame.width, frame.height, frame.pixels))
}

/// The contents of exported frames.
pub open spec fn picture_views(frames: Seq<(u32, u32, Vec<u8>)>) -> Seq<(u32, u32, Seq<u8>)> {
    frames.map_values(|frame: (u32, u32, Vec<u8>)| (frame.0, frame.1, frame.2@))
}

/// The frames of the last seconds, oldest first.
pub struct ReplayBuffer {
    frames: VecDeque<StoredFrame>,
}

impl View for ReplayBuffer {
    type V = Seq<FrameView>;

    closed spec fn view(&self) -> Seq<FrameView> {
        self.frames@.map_values(|frame: StoredFrame| frame@)
    }
}

impl ReplayBuffer {
    /// Returns an empty buffer.
    pub fn new() -> (buffer: Self)
        ensures
            buffer@ == Seq::<FrameView>::empty(),
    {
        ReplayBuffer { frames: VecDeque::new() }
    }

    /// The number of frames held.
    pub fn len(&self) -> (n: usize)
        ensures
            n == self@.len(),
    {
        self.frames.len()
    }

    /// Whether the oldest frame is more than `secs` seconds old at `now`.
    fn front_expired(&self, now: u128, secs: u64) -> (old: bool)
        requires
            self@.len() > 0,
        ensures
            old == expired(self@.first(), now as int, secs),
            old <==> now - self@[0].timestamp > secs * 1_000_000_000,
    {
        let captured: u128 = self.frames[0].timestamp;
        let age: u128 = if captured <= now {
            now - captured
        } else {
            0
        };
        age > secs as u128 * 1_000_000_000
    }

    /// Appends a frame that was just captured, and drops the frames at the front that are
    /// more than `secs` seconds older.
    pub fn record(&mut self, frame: StoredFrame, secs: u64)
        ensures
            final(self)@ == recorded(old(self)@, frame@, secs),
            exists|dropped: int| #![trigger old(self)@.push(frame@).skip(dropped)]
                {
                    let frames = old(self)@;
                    &&& 0 <= dropped <= frames.len()
                    &&& final(self)@ == frames.push(frame@).skip(dropped)
                    &&& forall|i: int|
                        0 <= i < dropped ==> frame.timestamp - #[trigger] frames[i].timestamp > secs
                            * 1_000_000_000
                    &&& dropped < frames.len() ==> frame.timestamp - frames[dropped].timestamp
                        <= secs * 1_000_000_000
                },
    {
        let now: u128 = frame.timestamp;
        let ghost newest = frame@;
        let ghost appended = self@.push(newest);
        self.frames.push_back(frame);
        assert(self@ =~= appended);
        while self.frames.len() > 0 && self.front_expired(now, secs)
            invariant
                evicted(self@, now as int, secs) == evicted(appended, now as int, secs),
            decreases self@.len(),
        {
            let ghost before = self@;
            self.frames.pop_front();
            assert(self@ =~= before.drop_first());
        }
        proof {
            let frames = old(self)@;
            let dropped = recording_drops_by_the_nanosecond(frames, newest, secs);
            assert(recorded(frames, newest, secs) =~= appended.skip(dropped)) by {
                assert forall|k: int| 0 <= k < appended.skip(dropped).len() implies recorded(
                    frames,
                    newest,
                    secs,
                )[k] == #[trigger] appended.skip(dropped)[k] by {
                    if k + dropped < frames.len() {
                        assert(recorded(frames, newest, secs)[(k + dropped) - dropped] == frames[k
                            + dropped]);
                    }
                }
            }
        }
    }

    /// Drops all frames.
    pub fn clear(&mut self)
        ensures
            final(self)@ == Seq::<FrameView>::empty(),
    {
        self.frames.clear();
        assert(self@ =~= Seq::<FrameView>::empty());
    }

    /// Copies the frames out, oldest first.
    pub fn export(&self) -> (frames: Vec<(u32, u32, Vec<u8>)>)
        ensures
            picture_views(frames@) == pictures(self@),
            frames@.len() == self@.len(),
            forall|i: int|
                0 <= i < self@.len() ==> (#[trigger] frames@[i]).0 == self@[i].width && frames@[i].1
                    == self@[i].height && frames@[i].2@ == self@[i].pixels,
    {
        let mut frames: Vec<(u32, u32, Vec<u8>)> = Vec::new();
        let mut i: usize = 0;
        while i < self.frames.len()
            invariant
                i <= self@.len(),
                picture_views(frames@) == pictures(self@.take(i as int)),
            decreases self@.len() - i,
        {
            let frame = &self.frames[i];
            let pixels = frame.pixels.clone();
            assert(pixels@ =~= frame.pixels@);
            let ghost before = frames@;
            frames.push((frame.width, frame.height, pixels));
            assert(self@.take(i + 1) =~= self@.take(i as int).push(self@[i as int]));
            assert(pictures(self@.take(i + 1)) =~= pictures(self@.take(i as int)).push(
                (frame.width, frame.height, frame.pixels@),
            ));
            assert(picture_views(frames@) =~= picture_views(before).push(
                (frame.width, frame.height, frame.pixels@),
            ));
            i += 1;
        }
        assert(self@.take(i as int) =~= self@);
        proof {
            assert(picture_views(frames@).len() == pictures(self@).len());
            assert forall|k: int| 0 <= k < self@.len() implies (#[trigger] frames@[k]).0
                == self@[k].width && frames@[k].1 == self@[k].height && frames@[k].2@
                == self@[k].pixels by {
                assert(picture_views(frames@)[k] == pictures(self@)[k]);
            }
        }
        frames
    }
}

/// The frames are in the order of their capture.
pub open spec fn in_capture_order(frames: Seq<FrameView>) -> bool {
    forall|i: int, j: int|
        0 <= i <= j < frames.len() ==> frames[i].timestamp <= frames[j].timestamp
}

/// Eviction only drops frames at the front, all of them expired, and stops at the first
/// that is not.
pub proof fn eviction_drops_an_expired_prefix(
    frames: Seq<FrameView>,
    now: int,
    secs: u64,
) -> (dropped: int)
    ensures
        0 <= dropped <= frames.len(),
        evicted(frames, now, secs) == frames.skip(dropped),
        forall|i: int| 0 <= i < dropped ==> expired(#[trigger] frames[i], now, secs),
        dropped < frames.len() ==> !expired(frames[dropped], now, secs),
    decreases frames.len(),
{
    if frames.len() > 0 && expired(frames.first(), now, secs) {
        let rest = frames.drop_first();
        let dropped = eviction_drops_an_expired_prefix(rest, now, secs) + 1;
        assert(rest.skip(dropped - 1) =~= frames.skip(dropped));
        assert forall|i: int| 0 <= i < dropped implies expired(#[trigger] frames[i], now, secs) by {
            if i > 0 {
                assert(frames[i] == rest[i - 1]);
            }
        }
        dropped
    } else {
        assert(frames.skip(0) =~= frames);
        0
    }
}

/// The frame that was recorded last is never dropped: it ends the buffer.
pub proof fn newest_frame_is_kept(frames: Seq<FrameView>, frame: FrameView, secs: u64)
    ensures
        recorded(frames, frame, secs).len() > 0,
        recorded(frames, frame, secs).last() == frame,
{
    let all = frames.push(frame);
    let dropped = eviction_drops_an_expired_prefix(all, frame.timestamp, secs);
    assert(all[frames.len() as int] == frame);
    assert(!expired(frame, frame.timestamp, secs));
    assert(dropped <= frames.len());
}

/// Where frames are recorded in the order of their capture, the buffer then holds exactly
/// the frames of the last `secs` seconds, still in that order.
pub proof fn buffer_holds_the_last_seconds(frames: Seq<FrameView>, frame: FrameView, secs: u64)
    requires
        in_capture_order(frames.push(frame)),
    ensures
        recorded(frames, frame, secs) == frames.push(frame).filter(
            |f: FrameView| !expired(f, frame.timestamp, secs),
        ),
        in_capture_order(recorded(frames, frame, secs)),
{
    let all = frames.push(frame);
    let now = frame.timestamp;
    let keep = |f: FrameView| !expired(f, now, secs);
    let dropped = eviction_drops_an_expired_prefix(all, now, secs);
    let gone = all.take(dropped);
    let kept = all.skip(dropped);
    assert(all =~= gone + kept);
    assert forall|i: int| 0 <= i < gone.len() implies !keep(#[trigger] gone[i]) by {
        assert(gone[i] == all[i]);
    }
    assert forall|i: int| 0 <= i < kept.len() implies keep(#[trigger] kept[i]) by {
        assert(kept[i] == all[dropped + i]);
        assert(all[dropped].timestamp <= all[dropped + i].timestamp);
        assert(all[dropped + i].timestamp <= all[frames.len() as int].timestamp);
    }
    filter_none(gone, keep);
    filter_all(kept, keep);
    Seq::filter_distributes_over_add(gone, kept, keep);
    assert(gone.filter(keep) + kept.filter(keep) =~= kept);
}

/// A filter that accepts everything changes nothing.
pub(crate) proof fn filter_all<A>(s: Seq<A>, keep: spec_fn(A) -> bool)
    requires
        forall|i: int| 0 <= i < s.len() ==> keep(#[trigger] s[i]),
    ensures
        s.filter(keep) == s,
    decreases s.len(),
{
    reveal(Seq::filter);
    if s.len() > 0 {
        filter_all(s.drop_last(), keep);
        assert(keep(s[s.len() - 1]));
        assert(s.drop_last().push(s.last()) =~= s);
    } else {
        assert(s.filter(keep) =~= s);
    }
}

/// A filter that accepts nothing leaves nothing.
pub(crate) proof fn filter_none<A>(s: Seq<A>, keep: spec_fn(A) -> bool)
    requires
        forall|i: int| 0 <= i < s.len() ==> !keep(#[trigger] s[i]),
    ensures
        s.filter(keep) == Seq::<A>::empty(),
    decreases s.len(),
{
    reveal(Seq::filter);
    if s.len() > 0 {
        filter_none(s.drop_last(), keep);
        assert(!keep(s[s.len() - 1]));
    } else {
        assert(s.filter(keep) =~= Seq::<A>::empty());
    }
}

} // verus!
