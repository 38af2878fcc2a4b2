use lightsnip::clock::{clip_path_at, screenshot_path, screenshot_path_at, CivilTime};

fn at(year: i32, month: u32, day: u32, hour: u32, minute: u32, second: u32) -> CivilTime {
    CivilTime { year, month, day, hour, minute, second }
}

#[test]
fn paths_carry_the_time() {
    let time = at(2024, 2, 29, 7, 5, 9);
    assert_eq!(screenshot_path_at(&time), "captures/screenshot_20240229_070509.png");
    assert_eq!(clip_path_at(&time), "captures/clip_20240229_070509.mp4");
    let end = at(1999, 12, 31, 23, 59, 59);
    assert_eq!(clip_path_at(&end), "captures/clip_19991231_235959.mp4");
}

#[test]
fn years_out_of_four_digits() {
    assert_eq!(clip_path_at(&at(0, 1, 1, 0, 0, 0)), "captures/clip_00000101_000000.mp4");
    assert_eq!(clip_path_at(&at(33, 4, 3, 15, 0, 0)), "captures/clip_00330403_150000.mp4");
    assert_eq!(clip_path_at(&at(9999, 1, 1, 0, 0, 0)), "captures/clip_99990101_000000.mp4");
    assert_eq!(clip_path_at(&at(10000, 1, 1, 0, 0, 0)), "captures/clip_+100000101_000000.mp4");
    assert_eq!(clip_path_at(&at(262142, 12, 31, 0, 0, 0)), "captures/clip_+2621421231_000000.mp4");
    assert_eq!(clip_path_at(&at(-5, 1, 1, 0, 0, 0)), "captures/clip_-00050101_000000.mp4");
    assert_eq!(clip_path_at(&at(-262143, 1, 1, 0, 0, 0)), "captures/clip_-2621430101_000000.mp4");
}

#[test]
fn leap_days() {
    assert_eq!(clip_path_at(&at(2000, 2, 29, 0, 0, 0)), "captures/clip_20000229_000000.mp4");
    assert_eq!(clip_path_at(&at(-4, 2, 29, 0, 0, 0)), "captures/clip_-00040229_000000.mp4");
}

#[test]
fn current_screenshot_lies_between_two_looks_at_the_clock() {
    let stamp = || format!("{}", chrono::Local::now().format("%Y%m%d_%H%M%S"));
    let before = format!("captures/screenshot_{}.png", stamp());
    let path = screenshot_path();
    let after = format!("captures/screenshot_{}.png", stamp());
    assert!(before <= path);
    assert!(path <= after);
}

#[test]
fn seconds_are_told_apart() {
    let a = at(2024, 1, 1, 0, 0, 0);
    let b = at(2024, 1, 1, 0, 0, 1);
    assert_ne!(clip_path_at(&a), clip_path_at(&b));
    assert_ne!(screenshot_path_at(&a), screenshot_path_at(&b));
    assert_ne!(clip_path_at(&a), screenshot_path_at(&a));
    assert!(clip_path_at(&a) < clip_path_at(&b));
    assert!(clip_path_at(&at(2023, 12, 31, 23, 59, 59)) < clip_path_at(&a));
}
