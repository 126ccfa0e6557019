use manufacturers::notes::{note_entry, note_of_args, notes_usage, timestamped_entry};

#[test]
fn an_entry_frames_the_note_with_its_timestamp() {
    assert_eq!(
        note_entry("2024-01-02 03:04:05", "buy milk"),
        "<!-- 2024-01-02 03:04:05 -->\nbuy milk\n\n"
    );
}

#[test]
fn a_timestamped_entry_carries_the_note() {
    let entry = timestamped_entry("buy milk");
    assert!(entry.starts_with("<!-- "));
    assert!(entry.contains(" -->\nbuy milk\n\n"));
}

#[test]
fn the_note_is_the_only_argument() {
    let args = vec!["notes".to_string(), "buy milk".to_string()];
    assert_eq!(note_of_args(&args), Some("buy milk".to_string()));
    assert_eq!(note_of_args(&vec!["notes".to_string()]), None);
    let too_many = vec!["notes".to_string(), "a".to_string(), "b".to_string()];
    assert_eq!(note_of_args(&too_many), None);
}

#[test]
fn the_notes_usage_line_is_fixed() {
    assert_eq!(notes_usage(), "Usage: notes your_note_goes_here");
}
