use presence_sync::detector::{
    album_identity, has_metadata_changed, judge, should_publish, MediaSnapshot, Reason,
    TrackedState, Verdict,
};

fn snapshot(title: &str, artist: &str, album: &str, position: u64, playing: bool) -> MediaSnapshot {
    MediaSnapshot {
        title: title.to_string(),
        artist: artist.to_string(),
        album: album.to_string(),
        album_artist: artist.to_string(),
        position,
        position_known: true,
        duration: 240,
        is_playing: playing,
        track_url: String::new(),
        art_url: String::new(),
        source_id: "Player".to_string(),
    }
}

fn state_after(cur: &MediaSnapshot) -> TrackedState {
    let mut state = TrackedState::new();
    state.observe(cur);
    state.remember(cur);
    state.settle(true);
    state
}

#[test]
fn fresh_state_is_empty() {
    let s = TrackedState::new();
    assert_eq!(s.title, "");
    assert_eq!(s.album, "");
    assert_eq!(s.artist, "");
    assert_eq!(s.album_artist, "");
    assert_eq!(s.album_id, "");
    assert_eq!(s.position, 0);
    assert!(!s.is_playing);
    assert!(!s.interrupted);
    assert!(!s.activity_set);
}

#[test]
fn album_identity_joins_artist_and_album() {
    assert_eq!(album_identity("Band", "Record"), "Band - Record");
    assert_eq!(album_identity("", ""), " - ");
}

#[test]
fn identical_snapshot_is_not_published() {
    let cur = snapshot("Song", "Band", "Record", 120, true);
    let state = state_after(&cur);
    assert_eq!(should_publish(&state, &cur, false), Verdict::Unchanged);
    let later = snapshot("Song", "Band", "Record", 130, true);
    assert_eq!(should_publish(&state, &later, false), Verdict::Unchanged);
}

#[test]
fn position_regression_is_published_and_position_follows() {
    let mut state = state_after(&snapshot("Song", "Band", "Record", 120, true));
    assert_eq!(state.position, 120);
    let replay = snapshot("Song", "Band", "Record", 3, true);
    assert_eq!(state.observe(&replay), Verdict::Publish(Reason::PositionRegressed));
    assert_eq!(state.position, 3);
}

#[test]
fn position_follows_even_without_publish() {
    let mut state = state_after(&snapshot("Song", "Band", "Record", 120, true));
    let later = snapshot("Song", "Band", "Record", 130, true);
    assert_eq!(state.observe(&later), Verdict::Unchanged);
    assert_eq!(state.position, 130);
    let back = snapshot("Song", "Band", "Record", 125, true);
    assert_eq!(state.observe(&back), Verdict::Publish(Reason::PositionRegressed));
    assert_eq!(state.position, 125);
}

#[test]
fn placeholder_snapshot_is_rejected_without_mutation() {
    let mut state = state_after(&snapshot("Song", "Band", "Record", 120, true));
    let unknown = snapshot("Unknown Title", "Unknown Artist", "Unknown Album", 5, false);
    assert_eq!(state.observe(&unknown), Verdict::Unusable);
    assert_eq!(state.title, "Song");
    assert_eq!(state.artist, "Band");
    assert_eq!(state.album, "Record");
    assert_eq!(state.album_id, "Band - Record");
    assert_eq!(state.position, 120);
    assert!(state.is_playing);
    assert!(!state.interrupted);
    assert!(state.activity_set);
}

#[test]
fn placeholders_are_told_whatever_their_case() {
    let state = TrackedState::new();
    let upper = snapshot("UNKNOWN TITLE", "UNKNOWN ARTIST", "UNKNOWN ALBUM", 0, true);
    assert_eq!(should_publish(&state, &upper, true), Verdict::Unusable);
    let lower = snapshot("unknown title", "unknown artist", "unknown album", 0, true);
    assert_eq!(should_publish(&state, &lower, true), Verdict::Unusable);
}

#[test]
fn one_known_field_makes_a_snapshot_usable() {
    let state = TrackedState::new();
    let cur = snapshot("Unknown Title", "Unknown Artist", "Record", 0, true);
    assert_eq!(should_publish(&state, &cur, false), Verdict::Publish(Reason::MetadataChanged));
}

#[test]
fn empty_artist_or_title_is_rejected() {
    let state = TrackedState::new();
    assert_eq!(should_publish(&state, &snapshot("Song", "", "Record", 0, true), true), Verdict::Unusable);
    assert_eq!(should_publish(&state, &snapshot("", "Band", "Record", 0, true), true), Verdict::Unusable);
    assert_eq!(
        should_publish(&state, &snapshot("Song", "Band", "", 0, true), false),
        Verdict::Publish(Reason::MetadataChanged)
    );
}

#[test]
fn each_field_counts_as_a_change() {
    let base = snapshot("Song", "Band", "Record", 10, true);
    let state = state_after(&base);
    assert!(!has_metadata_changed(&state, &base));
    assert!(has_metadata_changed(&state, &snapshot("Song 2", "Band", "Record", 10, true)));
    assert!(has_metadata_changed(&state, &snapshot("Song", "Band", "Record 2", 10, true)));
    assert!(has_metadata_changed(&state, &snapshot("Song", "Band", "Record", 10, false)));
    let mut other_artist = snapshot("Song", "Band", "Record", 10, true);
    other_artist.artist = "Singer".to_string();
    assert!(has_metadata_changed(&state, &other_artist));
    let mut other_album_artist = snapshot("Song", "Band", "Record", 10, true);
    other_album_artist.album_artist = "Various".to_string();
    assert!(has_metadata_changed(&state, &other_album_artist));
    assert!(has_metadata_changed(&state, &snapshot("song", "Band", "Record", 10, true)));
}

#[test]
fn a_change_is_named_before_a_regression() {
    let state = state_after(&snapshot("Song", "Band", "Record", 120, true));
    let next = snapshot("Other", "Band", "Record", 3, true);
    assert_eq!(should_publish(&state, &next, true), Verdict::Publish(Reason::MetadataChanged));
}

#[test]
fn interruption_forces_one_publish() {
    let cur = snapshot("Song", "Band", "Record", 120, true);
    let mut state = state_after(&cur);
    assert_eq!(should_publish(&state, &cur, true), Verdict::Publish(Reason::Interrupted));
    state.settle(false);
    assert!(state.interrupted);
    assert!(!state.activity_set);
    assert_eq!(state.observe(&cur), Verdict::Publish(Reason::Interrupted));
    state.remember(&cur);
    state.settle(true);
    assert!(!state.interrupted);
    assert!(state.activity_set);
    assert_eq!(state.observe(&cur), Verdict::Unchanged);
}

#[test]
fn judge_works_on_the_lowered_texts_it_is_given() {
    let state = TrackedState::new();
    let cur = snapshot("Song", "Band", "Record", 0, true);
    assert_eq!(
        judge(&state, &cur, false, "unknown artist", "unknown album", "unknown title"),
        Verdict::Unusable
    );
    assert_eq!(
        judge(&state, &cur, false, "Unknown Artist", "unknown album", "unknown title"),
        Verdict::Publish(Reason::MetadataChanged)
    );
}

#[test]
fn remember_takes_the_snapshot_down() {
    let mut state = TrackedState::new();
    let mut cur = snapshot("Song", "Band", "Record", 42, true);
    cur.album_artist = "Various".to_string();
    state.remember(&cur);
    assert_eq!(state.title, "Song");
    assert_eq!(state.artist, "Band");
    assert_eq!(state.album, "Record");
    assert_eq!(state.album_artist, "Various");
    assert_eq!(state.album_id, "Various - Record");
    assert!(state.is_playing);
    assert_eq!(state.position, 0);
}
