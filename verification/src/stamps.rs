//! What the names of capture files tell.
use vstd::prelude::*;

use crate::clock::{
    CivilTime, clip_name_text, clip_path_text, padded, screenshot_name_text, screenshot_path_text,
    stamp_text, year_text,
};
use crate::gallery::{
    ItemView, bytes_less, bytes_order_is_strict_and_total, capture_label, listing,
    listing_is_descending,
};
use crate::text::{decimal, digit};

verus! {

/// The number that a numeral stands for.
pub open spec fn value(numeral: Seq<char>) -> int
    decreases numeral.len(),
{
    if numeral.len() == 0 {
        0
    } else {
        value(numeral.drop_last()) * 10 + (numeral.last() as int - 48)
    }
}

/// A numeral reads back as the number it was written for, and holds digits only.
pub proof fn numerals_read_back(n: nat)
    ensures
        value(decimal(n)) == n,
        decimal(n).len() > 0,
        forall|i: int| 0 <= i < decimal(n).len() ==> '0' <= #[trigger] decimal(n)[i] <= '9',
    decreases n,
{
    reveal_with_fuel(value, 2);
    if n >= 10 {
        numerals_read_back(n / 10);
        let shorter = decimal(n / 10);
        assert(decimal(n).drop_last() =~= shorter);
        assert(decimal(n).last() == digit(n % 10));
        assert forall|i: int| 0 <= i < decimal(n).len() implies '0' <= #[trigger] decimal(n)[i]
            <= '9' by {
            if i < shorter.len() {
                assert(decimal(n)[i] == shorter[i]);
            }
        }
    } else {
        assert(decimal(n).drop_last() =~= Seq::<char>::empty());
    }
}

/// `k` zeros.
spec fn zeros(k: nat) -> Seq<char> {
    Seq::new(k, |i: int| '0')
}

proof fn leading_zeros_do_not_count(k: nat, numeral: Seq<char>)
    ensures
        value(zeros(k) + numeral) == value(numeral),
    decreases k + numeral.len(),
{
    let all = zeros(k) + numeral;
    if numeral.len() > 0 {
        leading_zeros_do_not_count(k, numeral.drop_last());
        assert(all.drop_last() =~= zeros(k) + numeral.drop_last());
    } else if k > 0 {
        leading_zeros_do_not_count((k - 1) as nat, numeral);
        assert(all.drop_last() =~= zeros((k - 1) as nat) + numeral);
        assert(all.last() == '0');
    } else {
        assert(all =~= numeral);
    }
}

/// A numeral filled up with zeros reads back too.
proof fn padded_reads_back(n: nat, width: nat)
    ensures
        value(padded(n, width)) == n,
        padded(n, width).len() > 0,
        padded(n, width).len() >= width,
        forall|i: int|
            0 <= i < padded(n, width).len() ==> '0' <= #[trigger] padded(n, width)[i] <= '9',
{
    numerals_read_back(n);
    let numeral = decimal(n);
    if numeral.len() < width {
        let k = (width - numeral.len()) as nat;
        leading_zeros_do_not_count(k, numeral);
        assert(padded(n, width) =~= zeros(k) + numeral);
        assert forall|i: int| 0 <= i < padded(n, width).len() implies '0' <= #[trigger] padded(
            n,
            width,
        )[i] <= '9' by {
            if i >= k {
                assert(padded(n, width)[i] == numeral[i - k]);
            }
        }
    }
}

/// Two digits.
#[verifier::opaque]
spec fn two(n: nat) -> Seq<char> {
    seq![digit(n / 10), digit(n % 10)]
}

proof fn two_digits_read_back(n: nat, m: nat)
    requires
        n < 100,
        m < 100,
        two(n) == two(m),
    ensures
        n == m,
{
    reveal(two);
    assert(two(n)[0] == two(m)[0] && two(n)[1] == two(m)[1]);
}

proof fn padded_two(n: nat)
    requires
        n < 100,
    ensures
        padded(n, 2) == two(n),
        two(n).len() == 2,
{
    reveal(two);
    reveal_with_fuel(decimal, 3);
    assert(padded(n, 2) =~= two(n));
}

proof fn padded_four(n: nat)
    requires
        n < 10000,
    ensures
        padded(n, 4) == two(n / 100) + two(n % 100),
        two(n / 100).len() == 2,
        two(n % 100).len() == 2,
{
    reveal(two);
    reveal_with_fuel(decimal, 5);
    assert(n / 10 / 10 == n / 100 && n / 100 / 10 == n / 1000);
    assert(padded(n, 4) =~= two(n / 100) + two(n % 100));
}

/// Month and day.
spec fn date_part(time: CivilTime) -> Seq<char> {
    two(time.month as nat) + two(time.day as nat)
}

/// Hour, minute and second.
spec fn clock_part(time: CivilTime) -> Seq<char> {
    two(time.hour as nat) + two(time.minute as nat) + two(time.second as nat)
}

/// The stamp behind the year.
spec fn below_year(time: CivilTime) -> Seq<char> {
    date_part(time) + seq!['_'] + clock_part(time)
}

proof fn stamp_parts(time: CivilTime)
    requires
        time.valid(),
    ensures
        stamp_text(time) == year_text(time.year as int) + below_year(time),
        below_year(time).len() == 11,
        two(time.month as nat).len() == 2,
        two(time.day as nat).len() == 2,
        two(time.hour as nat).len() == 2,
        two(time.minute as nat).len() == 2,
        two(time.second as nat).len() == 2,
{
    padded_two(time.month as nat);
    padded_two(time.day as nat);
    padded_two(time.hour as nat);
    padded_two(time.minute as nat);
    padded_two(time.second as nat);
    assert(stamp_text(time) =~= year_text(time.year as int) + below_year(time));
}

proof fn years_read_back(a: int, b: int)
    requires
        year_text(a) == year_text(b),
    ensures
        a == b,
{
    let mag_a = (if a < 0 { -a } else { a }) as nat;
    let mag_b = (if b < 0 { -b } else { b }) as nat;
    padded_reads_back(mag_a, 4);
    padded_reads_back(mag_b, 4);
    let first_a = year_text(a)[0];
    let first_b = year_text(b)[0];
    assert(first_a == if a < 0 { '-' } else if a > 9999 { '+' } else { padded(mag_a, 4)[0] });
    assert(first_b == if b < 0 { '-' } else if b > 9999 { '+' } else { padded(mag_b, 4)[0] });
    assert('0' <= padded(mag_a, 4)[0] && '0' <= padded(mag_b, 4)[0]);
    if 0 <= a <= 9999 {
        assert(year_text(b) == padded(mag_b, 4));
    } else {
        assert(year_text(a).drop_first() =~= padded(mag_a, 4));
        assert(year_text(b).drop_first() =~= padded(mag_b, 4));
    }
}

/// Captures of different seconds have different time stamps.
pub proof fn stamps_tell_seconds_apart(a: CivilTime, b: CivilTime)
    requires
        a.valid(),
        b.valid(),
        stamp_text(a) == stamp_text(b),
    ensures
        a == b,
{
    stamp_parts(a);
    stamp_parts(b);
    let stamp = stamp_text(a);
    let n = stamp.len() - 11;
    assert(stamp.take(n) =~= year_text(a.year as int));
    assert(stamp.take(n) =~= year_text(b.year as int));
    years_read_back(a.year as int, b.year as int);
    let rest = stamp.skip(n);
    assert(rest =~= below_year(a));
    assert(rest =~= below_year(b));
    below_year_reads_back(a, b);
}

proof fn below_year_reads_back(a: CivilTime, b: CivilTime)
    requires
        a.valid(),
        b.valid(),
        below_year(a) == below_year(b),
    ensures
        a.month == b.month,
        a.day == b.day,
        a.hour == b.hour,
        a.minute == b.minute,
        a.second == b.second,
{
    stamp_parts(a);
    stamp_parts(b);
    let rest = below_year(a);
    assert(rest.subrange(0, 2) =~= two(a.month as nat));
    assert(rest.subrange(0, 2) =~= two(b.month as nat));
    assert(rest.subrange(2, 4) =~= two(a.day as nat));
    assert(rest.subrange(2, 4) =~= two(b.day as nat));
    assert(rest.subrange(5, 7) =~= two(a.hour as nat));
    assert(rest.subrange(5, 7) =~= two(b.hour as nat));
    assert(rest.subrange(7, 9) =~= two(a.minute as nat));
    assert(rest.subrange(7, 9) =~= two(b.minute as nat));
    assert(rest.subrange(9, 11) =~= two(a.second as nat));
    assert(rest.subrange(9, 11) =~= two(b.second as nat));
    two_digits_read_back(a.month as nat, b.month as nat);
    two_digits_read_back(a.day as nat, b.day as nat);
    two_digits_read_back(a.hour as nat, b.hour as nat);
    two_digits_read_back(a.minute as nat, b.minute as nat);
    two_digits_read_back(a.second as nat, b.second as nat);
}

/// The time can be read in its stamp, digit by digit: the last six digits are the clock, the
/// underscore stands before them, the four digits before it are month and day, and what comes
/// before is the year, for the years that are written without a sign.
pub proof fn stamps_can_be_read(time: CivilTime)
    requires
        time.valid(),
    ensures
        ({
            let stamp = stamp_text(time);
            let n = stamp.len() - 11;
            &&& n >= 4
            &&& value(stamp.subrange(n, n + 2)) == time.month
            &&& value(stamp.subrange(n + 2, n + 4)) == time.day
            &&& stamp[n + 4] == '_'
            &&& value(stamp.subrange(n + 5, n + 7)) == time.hour
            &&& value(stamp.subrange(n + 7, n + 9)) == time.minute
            &&& value(stamp.subrange(n + 9, n + 11)) == time.second
            &&& 0 <= time.year <= 9999 ==> n == 4 && value(stamp.subrange(0, 4)) == time.year
            &&& time.year > 9999 ==> stamp[0] == '+' && value(stamp.subrange(1, n)) == time.year
            &&& time.year < 0 ==> stamp[0] == '-' && value(stamp.subrange(1, n)) == -time.year
        }),
{
    stamp_parts(time);
    padded_two(time.month as nat);
    padded_two(time.day as nat);
    padded_two(time.hour as nat);
    padded_two(time.minute as nat);
    padded_two(time.second as nat);
    padded_reads_back(time.month as nat, 2);
    padded_reads_back(time.day as nat, 2);
    padded_reads_back(time.hour as nat, 2);
    padded_reads_back(time.minute as nat, 2);
    padded_reads_back(time.second as nat, 2);
    let year = time.year as int;
    let mag = (if year < 0 { -year } else { year }) as nat;
    padded_reads_back(mag, 4);
    let stamp = stamp_text(time);
    let n = stamp.len() - 11;
    assert(n == year_text(year).len());
    assert(stamp.subrange(n, n + 2) =~= two(time.month as nat));
    assert(stamp.subrange(n + 2, n + 4) =~= two(time.day as nat));
    assert(stamp.subrange(n + 5, n + 7) =~= two(time.hour as nat));
    assert(stamp.subrange(n + 7, n + 9) =~= two(time.minute as nat));
    assert(stamp.subrange(n + 9, n + 11) =~= two(time.second as nat));
    if 0 <= year <= 9999 {
        padded_four(mag);
        assert(stamp.subrange(0, 4) =~= padded(mag, 4));
    } else {
        assert(stamp.subrange(1, n) =~= padded(mag, 4));
    }
}

/// Captures go into the captures directory, under their names.
pub proof fn captures_go_into_the_directory(time: CivilTime)
    ensures
        clip_path_text(time) == "captures/"@ + clip_name_text(time),
        screenshot_path_text(time) == "captures/"@ + screenshot_name_text(time),
{
    reveal_strlit("captures/");
    reveal_strlit("captures/clip_");
    reveal_strlit("clip_");
    reveal_strlit("captures/screenshot_");
    reveal_strlit("screenshot_");
    assert("captures/clip_"@ =~= "captures/"@ + "clip_"@);
    assert("captures/screenshot_"@ =~= "captures/"@ + "screenshot_"@);
    assert(clip_path_text(time) =~= "captures/"@ + clip_name_text(time));
    assert(screenshot_path_text(time) =~= "captures/"@ + screenshot_name_text(time));
}

/// No two captures of different seconds, and no clip and screenshot, share a path.
pub proof fn captures_do_not_collide(a: CivilTime, b: CivilTime)
    requires
        a.valid(),
        b.valid(),
    ensures
        clip_path_text(a) == clip_path_text(b) ==> a == b,
        screenshot_path_text(a) == screenshot_path_text(b) ==> a == b,
        clip_path_text(a) != screenshot_path_text(b),
{
    reveal_strlit("captures/clip_");
    reveal_strlit("captures/screenshot_");
    reveal_strlit(".mp4");
    reveal_strlit(".png");
    let clip_a = clip_path_text(a);
    let clip_b = clip_path_text(b);
    let shot_a = screenshot_path_text(a);
    let shot_b = screenshot_path_text(b);
    assert(clip_a[9] == 'c' && shot_b[9] == 's');
    if clip_a == clip_b {
        assert(clip_a.subrange(14, clip_a.len() - 4) =~= stamp_text(a));
        assert(clip_b.subrange(14, clip_b.len() - 4) =~= stamp_text(b));
        stamps_tell_seconds_apart(a, b);
    }
    if shot_a == shot_b {
        assert(shot_a.subrange(20, shot_a.len() - 4) =~= stamp_text(a));
        assert(shot_b.subrange(20, shot_b.len() - 4) =~= stamp_text(b));
        stamps_tell_seconds_apart(a, b);
    }
}

/// The library labels the clips as clips and the screenshots as images.
pub proof fn captures_get_their_label(time: CivilTime)
    ensures
        capture_label(clip_name_text(time)) == "🎬 [MP4 Clip] "@ + clip_name_text(time),
        capture_label(screenshot_name_text(time)) == "🖼 [Image] "@ + screenshot_name_text(time),
{
    reveal_strlit(".mp4");
    reveal_strlit(".png");
    let clip = clip_name_text(time);
    let shot = screenshot_name_text(time);
    assert(clip.subrange(clip.len() - 4, clip.len() as int) =~= ".mp4"@);
    assert(shot.subrange(shot.len() - 4, shot.len() as int) =~= ".png"@);
    assert(".mp4"@[1] != ".png"@[1]);
}

/// `a` is earlier than `b`.
pub open spec fn earlier(a: CivilTime, b: CivilTime) -> bool {
    ||| a.year < b.year
    ||| a.year == b.year && a.month < b.month
    ||| a.year == b.year && a.month == b.month && a.day < b.day
    ||| a.year == b.year && a.month == b.month && a.day == b.day && a.hour < b.hour
    ||| a.year == b.year && a.month == b.month && a.day == b.day && a.hour == b.hour && a.minute
        < b.minute
    ||| a.year == b.year && a.month == b.month && a.day == b.day && a.hour == b.hour && a.minute
        == b.minute && a.second < b.second
}

/// The bytes of a text of ASCII characters.
pub open spec fn ascii_bytes(text: Seq<char>) -> Seq<u8> {
    text.map_values(|c: char| c as u8)
}

/// The order of two texts is decided at the first place where they differ.
proof fn decided_at(a: Seq<u8>, b: Seq<u8>, at: int)
    requires
        0 <= at < a.len(),
        at < b.len(),
        forall|i: int| 0 <= i < at ==> #[trigger] a[i] == b[i],
        a[at] < b[at],
    ensures
        bytes_less(a, b),
    decreases at,
{
    if at > 0 {
        assert(a[0] == b[0]);
        let a1 = a.drop_first();
        let b1 = b.drop_first();
        assert forall|i: int| 0 <= i < at - 1 implies #[trigger] a1[i] == b1[i] by {
            assert(a[i + 1] == b[i + 1]);
        }
        decided_at(a1, b1, at - 1);
    }
}

/// Of two texts that begin alike, the one that goes on with the lesser number of two digits
/// comes first.
proof fn decided_by_two(
    start: Seq<char>,
    n: nat,
    m: nat,
    end_a: Seq<char>,
    end_b: Seq<char>,
)
    requires
        n < m < 100,
    ensures
        bytes_less(ascii_bytes(start + two(n) + end_a), ascii_bytes(start + two(m) + end_b)),
{
    reveal(two);
    let x = ascii_bytes(start + two(n) + end_a);
    let y = ascii_bytes(start + two(m) + end_b);
    let at = start.len() as int;
    assert(x[at] == digit(n / 10) as u8 && y[at] == digit(m / 10) as u8);
    assert(x[at + 1] == digit(n % 10) as u8 && y[at + 1] == digit(m % 10) as u8);
    if n / 10 < m / 10 {
        decided_at(x, y, at);
    } else {
        decided_at(x, y, at + 1);
    }
}

/// Stamps of one year and one day, with the same text around them, are ordered by the clock.
proof fn decided_by_clock(start: Seq<char>, end: Seq<char>, a: CivilTime, b: CivilTime)
    requires
        a.valid(),
        b.valid(),
        a.hour < b.hour || a.hour == b.hour && (a.minute < b.minute || a.minute == b.minute
            && a.second < b.second),
    ensures
        bytes_less(
            ascii_bytes(start + clock_part(a) + end),
            ascii_bytes(start + clock_part(b) + end),
        ),
{
    let h = two(a.hour as nat);
    let m = two(a.minute as nat);
    let x = start + clock_part(a) + end;
    let y = start + clock_part(b) + end;
    if a.hour < b.hour {
        let xe = m + two(a.second as nat) + end;
        let ye = two(b.minute as nat) + two(b.second as nat) + end;
        decided_by_two(start, a.hour as nat, b.hour as nat, xe, ye);
        assert(x =~= start + h + xe);
        assert(y =~= start + two(b.hour as nat) + ye);
    } else if a.minute < b.minute {
        let xe = two(a.second as nat) + end;
        let ye = two(b.second as nat) + end;
        decided_by_two(start + h, a.minute as nat, b.minute as nat, xe, ye);
        assert(x =~= start + h + m + xe);
        assert(y =~= start + h + two(b.minute as nat) + ye);
    } else {
        decided_by_two(start + h + m, a.second as nat, b.second as nat, end, end);
        assert(x =~= start + h + m + two(a.second as nat) + end);
        assert(y =~= start + h + m + two(b.second as nat) + end);
    }
}

/// Stamps of one year, with the same text around them, are ordered by what follows the year.
#[verifier::spinoff_prover]
proof fn decided_below_year(start: Seq<char>, end: Seq<char>, a: CivilTime, b: CivilTime)
    requires
        a.valid(),
        b.valid(),
        a.year == b.year,
        earlier(a, b),
    ensures
        bytes_less(
            ascii_bytes(start + below_year(a) + end),
            ascii_bytes(start + below_year(b) + end),
        ),
{
    let x = start + below_year(a) + end;
    let y = start + below_year(b) + end;
    let line = seq!['_'];
    if a.month < b.month {
        let xe = two(a.day as nat) + line + clock_part(a) + end;
        let ye = two(b.day as nat) + line + clock_part(b) + end;
        decided_by_two(start, a.month as nat, b.month as nat, xe, ye);
        assert(x =~= start + two(a.month as nat) + xe);
        assert(y =~= start + two(b.month as nat) + ye);
    } else if a.day < b.day {
        let s = start + two(a.month as nat);
        let xe = line + clock_part(a) + end;
        let ye = line + clock_part(b) + end;
        decided_by_two(s, a.day as nat, b.day as nat, xe, ye);
        assert(x =~= s + two(a.day as nat) + xe);
        assert(y =~= s + two(b.day as nat) + ye);
    } else {
        let s = start + date_part(a) + line;
        decided_by_clock(s, end, a, b);
        assert(x =~= s + clock_part(a) + end);
        assert(y =~= s + clock_part(b) + end);
    }
}

/// Names with the same text around their stamps are ordered by their stamps.
#[verifier::spinoff_prover]
proof fn stamped_names_are_chronological(
    start: Seq<char>,
    end: Seq<char>,
    a: CivilTime,
    b: CivilTime,
)
    requires
        a.valid(),
        b.valid(),
        0 <= a.year <= 9999,
        0 <= b.year <= 9999,
        earlier(a, b),
    ensures
        bytes_less(
            ascii_bytes(start + stamp_text(a) + end),
            ascii_bytes(start + stamp_text(b) + end),
        ),
{
    stamp_parts(a);
    stamp_parts(b);
    let x = start + stamp_text(a) + end;
    let y = start + stamp_text(b) + end;
    if a.year == b.year {
        let s = start + year_text(a.year as int);
        decided_below_year(s, end, a, b);
        assert(x =~= s + below_year(a) + end);
        assert(y =~= s + below_year(b) + end);
    } else {
        padded_four(a.year as nat);
        padded_four(b.year as nat);
        let century_a = a.year as nat / 100;
        let century_b = b.year as nat / 100;
        let year_a = a.year as nat % 100;
        let year_b = b.year as nat % 100;
        if century_a < century_b {
            let xe = two(year_a) + below_year(a) + end;
            let ye = two(year_b) + below_year(b) + end;
            decided_by_two(start, century_a, century_b, xe, ye);
            assert(x =~= start + two(century_a) + xe);
            assert(y =~= start + two(century_b) + ye);
        } else {
            let s = start + two(century_a);
            let xe = below_year(a) + end;
            let ye = below_year(b) + end;
            decided_by_two(s, year_a, year_b, xe, ye);
            assert(x =~= s + two(year_a) + xe);
            assert(y =~= s + two(year_b) + ye);
        }
    }
}

/// The names of clips, and the names of screenshots, are in the order of their times, for
/// the years that are written without a sign.
pub proof fn names_are_chronological(a: CivilTime, b: CivilTime)
    requires
        a.valid(),
        b.valid(),
        0 <= a.year <= 9999,
        0 <= b.year <= 9999,
        earlier(a, b),
    ensures
        bytes_less(ascii_bytes(clip_name_text(a)), ascii_bytes(clip_name_text(b))),
        bytes_less(ascii_bytes(screenshot_name_text(a)), ascii_bytes(screenshot_name_text(b))),
{
    stamped_names_are_chronological("clip_"@, ".mp4"@, a, b);
    stamped_names_are_chronological("screenshot_"@, ".png"@, a, b);
}

/// The library lists a newer clip before an older one, and a newer screenshot before an
/// older one, for the years that are written without a sign.
pub proof fn library_lists_newest_first(
    entries: Seq<ItemView>,
    i: int,
    j: int,
    a: CivilTime,
    b: CivilTime,
)
    requires
        a.valid(),
        b.valid(),
        0 <= a.year <= 9999,
        0 <= b.year <= 9999,
        0 <= i < listing(entries).len(),
        0 <= j < listing(entries).len(),
        earlier(a, b),
        ({
            ||| listing(entries)[i].name == ascii_bytes(clip_name_text(a)) && listing(
                entries,
            )[j].name == ascii_bytes(clip_name_text(b))
            ||| listing(entries)[i].name == ascii_bytes(screenshot_name_text(a)) && listing(
                entries,
            )[j].name == ascii_bytes(screenshot_name_text(b))
        }),
    ensures
        j < i,
{
    names_are_chronological(a, b);
    listing_is_descending(entries);
    let older = listing(entries)[i].name;
    let newer = listing(entries)[j].name;
    bytes_order_is_strict_and_total(older, newer, older);
    assert(i < j ==> !bytes_less(listing(entries)[i].name, listing(entries)[j].name));
}

} // verus!
