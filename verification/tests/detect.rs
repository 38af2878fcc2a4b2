use lightsnip::detect::{find_game, find_named};

fn strings(texts: &[&str]) -> Vec<String> {
    texts.iter().map(|t| t.to_string()).collect()
}

#[test]
fn the_first_named_is_found() {
    let names = strings(&["init", "javaw.exe", "cs2.exe"]);
    assert_eq!(find_named(&names, &strings(&["cs2", "java"])), Some(1));
    assert_eq!(find_named(&names, &strings(&["cs2"])), Some(2));
    assert_eq!(find_named(&names, &strings(&["Java"])), None);
    assert_eq!(find_named(&names, &Vec::new()), None);
    assert_eq!(find_named(&Vec::new(), &strings(&["a"])), None);
}

#[test]
fn case_does_not_matter() {
    let targets = strings(&["VALORANT-Win64-Shipping.exe", "minecraft"]);
    assert_eq!(
        find_game(&strings(&["bash", "valorant-win64-shipping.EXE"]), &targets),
        Some("valorant-win64-shipping.EXE".to_string())
    );
    assert_eq!(
        find_game(&strings(&["bash", "Minecraft Launcher"]), &targets),
        Some("Minecraft Launcher".to_string())
    );
    assert_eq!(find_game(&strings(&["bash", "mine craft"]), &targets), None);
}

#[test]
fn case_does_not_matter_beyond_ascii() {
    assert_eq!(
        find_game(&strings(&["ÄPFEL.exe"]), &strings(&["äpfel"])),
        Some("ÄPFEL.exe".to_string())
    );
    assert_eq!(
        find_game(&strings(&["äpfel.exe"]), &strings(&["ÄPFEL"])),
        Some("äpfel.exe".to_string())
    );
}

#[test]
fn ascii_letters_become_small_and_nothing_else_changes() {
    for byte in 0..128u8 {
        let c = (byte as char).to_string();
        for other in 0..128u8 {
            let d = (other as char).to_string();
            let same = byte.to_ascii_lowercase() == other.to_ascii_lowercase();
            let found = find_game(&vec![c.clone()], &vec![d]);
            assert_eq!(found, if same { Some(c.clone()) } else { None });
        }
    }
}

#[test]
fn the_first_process_wins_over_the_first_target() {
    let targets = strings(&["cs2", "sober"]);
    assert_eq!(
        find_game(&strings(&["Sober", "cs2.exe"]), &targets),
        Some("Sober".to_string())
    );
}

#[test]
fn a_further_target_hides_nothing() {
    let processes = strings(&["sober"]);
    let mut targets = strings(&["sober"]);
    assert_eq!(find_game(&processes, &targets), Some("sober".to_string()));
    targets.push("other".to_string());
    assert_eq!(find_game(&processes, &targets), Some("sober".to_string()));
}

#[test]
fn nameless_processes_are_no_games() {
    let targets = strings(&["sober", "Σ", "İ"]);
    assert_eq!(find_game(&strings(&["", "bash"]), &targets), None);
    assert_eq!(find_game(&strings(&["", "sober"]), &targets), Some("sober".to_string()));
}

#[test]
fn no_character_is_lost_in_lowercase() {
    for code in 0..=0x10ffffu32 {
        if let Some(c) = char::from_u32(code) {
            let target = vec![c.to_string()];
            assert_eq!(find_game(&vec![String::new()], &target), None);
        }
    }
}
