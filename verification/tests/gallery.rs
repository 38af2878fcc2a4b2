use lightsnip::gallery::{arrange, LibraryItem};

fn item(slot: usize, name: &str) -> LibraryItem {
    LibraryItem { slot, name: name.as_bytes().to_vec(), file_name: name.to_string() }
}

fn listed(names: &[&str]) -> Vec<String> {
    let entries = names.iter().enumerate().map(|(i, n)| item(i, n)).collect();
    arrange(entries).iter().map(|i| i.file_name.clone()).collect()
}

#[test]
fn names_are_listed_in_descending_order() {
    assert_eq!(
        listed(&["clip_20240101_000000.mp4", "screenshot_20230101_000000.png", "clip_20250101_000000.mp4"]),
        vec!["screenshot_20230101_000000.png", "clip_20250101_000000.mp4", "clip_20240101_000000.mp4"]
    );
    assert_eq!(listed(&["a", "ab", "b", "", "B"]), vec!["b", "ab", "a", "B", ""]);
    assert!(listed(&[]).is_empty());
}

#[test]
fn bytes_are_compared_unsigned() {
    let entries = vec![
        LibraryItem { slot: 0, name: vec![0x7f], file_name: String::new() },
        LibraryItem { slot: 1, name: vec![0xff, 0x00], file_name: String::new() },
        LibraryItem { slot: 2, name: vec![0xff], file_name: String::new() },
    ];
    let slots: Vec<usize> = arrange(entries).iter().map(|i| i.slot).collect();
    assert_eq!(slots, vec![1, 2, 0]);
}

#[test]
fn equal_names_keep_their_order() {
    let entries = vec![item(0, "x"), item(1, "y"), item(2, "x"), item(3, "y"), item(4, "x")];
    let slots: Vec<usize> = arrange(entries).iter().map(|i| i.slot).collect();
    assert_eq!(slots, vec![1, 3, 0, 2, 4]);
}

#[test]
fn the_order_of_the_scan_does_not_matter() {
    let names = ["c", "a", "d", "b", "e"];
    let mut reversed = names;
    reversed.reverse();
    assert_eq!(listed(&names), listed(&reversed));
    assert_eq!(listed(&names), vec!["e", "d", "c", "b", "a"]);
    let slots = |names: &[&str]| -> Vec<usize> {
        let entries = names.iter().enumerate().map(|(i, n)| item(i, n)).collect();
        arrange(entries).iter().map(|i| i.slot).collect()
    };
    assert_eq!(slots(&names), vec![4, 2, 0, 3, 1]);
    assert_eq!(slots(&reversed), vec![0, 2, 4, 1, 3]);
}

#[test]
fn the_order_is_that_of_the_paths() {
    let mut names: Vec<String> = Vec::new();
    for i in 0..200u32 {
        let n = i * 7919 % 211;
        names.push(format!("clip_{}{}", n, if n % 3 == 0 { ".mp4" } else { "-é.png" }));
    }
    let mut paths: Vec<std::path::PathBuf> =
        names.iter().map(|n| std::path::Path::new("captures").join(n)).collect();
    paths.sort_by(|a, b| b.cmp(a));
    let refs: Vec<&str> = names.iter().map(|n| n.as_str()).collect();
    let ours: Vec<std::path::PathBuf> =
        listed(&refs).iter().map(|n| std::path::Path::new("captures").join(n)).collect();
    assert_eq!(ours, paths);
}

#[test]
fn listing_twice_is_listing_once() {
    let once = arrange(vec![item(0, "b"), item(1, "c"), item(2, "a")]);
    let names: Vec<String> = once.iter().map(|i| i.file_name.clone()).collect();
    let twice: Vec<String> = arrange(once).iter().map(|i| i.file_name.clone()).collect();
    assert_eq!(names, twice);
}

#[test]
fn labels_tell_clips_from_images() {
    assert_eq!(item(0, "clip_1.mp4").label(), "🎬 [MP4 Clip] clip_1.mp4");
    assert_eq!(item(0, "screenshot_1.png").label(), "🖼 [Image] screenshot_1.png");
    assert_eq!(item(0, "clip.MP4").label(), "🖼 [Image] clip.MP4");
    assert_eq!(item(0, "").label(), "🖼 [Image] ");
}
