use pickledb::{PickleDb, PickleDbDumpPolicy, SerializationMethod};
use presence_sync::artwork::{
    fallback_url, next_stage, plan_first, plan_from_secondary, plan_next, strip_release_suffix,
    strip_suffix, write_kept, ArtworkResolver, CacheStore, LookupOutcome, Request, ResolveStep,
    ResolverConfig, Stage,
};

fn store(enabled: bool) -> CacheStore {
    let db = PickleDb::new(
        "presence_sync_test_cache.db",
        PickleDbDumpPolicy::NeverDump,
        SerializationMethod::Json,
    );
    CacheStore::new(db, enabled)
}

fn all_open() -> ResolverConfig {
    ResolverConfig { primary_enabled: true, secondary_enabled: true, native_art_allowed: true }
}

fn request(album: &str, art_url: &str) -> Request {
    Request {
        album_id: format!("Artist - {}", album),
        album: album.to_string(),
        album_artist: "Artist".to_string(),
        art_url: art_url.to_string(),
    }
}

fn shape(step: &ResolveStep) -> (u8, String, String) {
    match step {
        ResolveStep::QueryPrimary { artist, album } => (1, artist.clone(), album.clone()),
        ResolveStep::QuerySecondary { artist, album } => (2, artist.clone(), album.clone()),
        ResolveStep::Done { url } => (0, url.clone(), String::new()),
    }
}

fn primary(album: &str) -> (u8, String, String) {
    (1, "Artist".to_string(), album.to_string())
}

fn secondary(album: &str) -> (u8, String, String) {
    (2, "Artist".to_string(), album.to_string())
}

fn done(url: &str) -> (u8, String, String) {
    (0, url.to_string(), String::new())
}

fn found(url: &str) -> LookupOutcome {
    LookupOutcome::Found(url.to_string())
}

#[test]
fn cache_returns_what_it_was_given() {
    let mut cache = store(true);
    assert!(cache.is_enabled());
    assert_eq!(cache.lookup("Artist - Album"), None);
    assert!(cache.record("Artist - Album", &"https://example.com/a.png".to_string()));
    assert_eq!(cache.lookup("Artist - Album"), Some("https://example.com/a.png".to_string()));
    assert_eq!(cache.lookup("Artist - Other"), None);
    assert!(cache.record("Artist - Album", &"missing-cover".to_string()));
    assert_eq!(cache.lookup("Artist - Album"), Some("missing-cover".to_string()));
}

#[test]
fn cache_reads_only_text_entries() {
    let mut db = PickleDb::new(
        "presence_sync_test_cache.db",
        PickleDbDumpPolicy::NeverDump,
        SerializationMethod::Json,
    );
    db.set("number", &7).unwrap();
    db.set("text", &"seven".to_string()).unwrap();
    let cache = CacheStore::new(db, true);
    assert_eq!(cache.lookup("number"), None);
    assert_eq!(cache.lookup("text"), Some("seven".to_string()));
}

#[test]
fn a_write_is_kept_exactly_on_success() {
    assert!(write_kept(&Ok(())));
    let failure = PickleDb::load(
        "presence_sync_test_no_such_dir/no_such_file.db",
        PickleDbDumpPolicy::NeverDump,
        SerializationMethod::Json,
    )
    .map(|_| ());
    assert!(failure.is_err());
    assert!(!write_kept(&failure));
}

#[test]
fn fresh_cache_is_empty() {
    let mut cache = CacheStore::fresh("presence_sync_test_cache.db", true);
    assert!(cache.is_enabled());
    assert_eq!(cache.lookup("Artist - Album"), None);
    assert!(cache.record("Artist - Album", &"u".to_string()));
    assert_eq!(cache.lookup("Artist - Album"), Some("u".to_string()));
    assert!(!CacheStore::fresh("presence_sync_test_cache.db", false).is_enabled());
}

#[test]
fn resolver_tells_when_the_cache_took_an_entry() {
    let mut r = ArtworkResolver::new(store(true), all_open());
    assert!(!r.wrote);
    r.begin(request("Album", ""));
    assert!(!r.wrote);
    r.advance(found("https://example.com/a.png"));
    assert!(r.wrote);
    r.begin(request("Album", ""));
    assert!(!r.wrote);
    let mut off = ArtworkResolver::new(store(false), all_open());
    off.begin(request("Album", ""));
    off.advance(found("https://example.com/a.png"));
    assert!(!off.wrote);
}

#[test]
fn disabled_cache_is_neither_read_nor_written() {
    let mut db = PickleDb::new(
        "presence_sync_test_cache.db",
        PickleDbDumpPolicy::NeverDump,
        SerializationMethod::Json,
    );
    db.set("Artist - Album", &"https://example.com/a.png".to_string()).unwrap();
    let mut cache = CacheStore::new(db, false);
    assert!(!cache.is_enabled());
    assert_eq!(cache.lookup("Artist - Album"), None);
    assert!(!cache.record("Artist - Other", &"x".to_string()));
    assert_eq!(cache.lookup("Artist - Other"), None);
}

#[test]
fn release_suffix_is_stripped() {
    assert_eq!(strip_release_suffix("Title - EP"), Some("Title".to_string()));
    assert_eq!(strip_release_suffix("Title - Single"), Some("Title".to_string()));
    assert_eq!(strip_release_suffix("Artist - Title - EP"), Some("Artist - Title".to_string()));
    assert_eq!(strip_release_suffix("Title"), None);
    assert_eq!(strip_release_suffix("Title - ep"), None);
    assert_eq!(strip_release_suffix(" - EP"), None);
    assert_eq!(strip_release_suffix(" - Single"), None);
    assert_eq!(strip_release_suffix(""), None);
    assert_eq!(strip_release_suffix("Título - EP"), Some("Título".to_string()));
    assert_eq!(strip_release_suffix("A - Single - EP"), Some("A - Single".to_string()));
}

#[test]
fn strip_suffix_needs_more_than_the_suffix() {
    assert_eq!(strip_suffix("abc", "c"), Some("ab".to_string()));
    assert_eq!(strip_suffix("abc", "abc"), None);
    assert_eq!(strip_suffix("abc", "d"), None);
    assert_eq!(strip_suffix("abc", ""), Some("abc".to_string()));
    assert_eq!(strip_suffix("", ""), None);
}

#[test]
fn native_fallback_needs_a_remote_address_and_permission() {
    assert_eq!(fallback_url("https://example.com/a.png", true), "https://example.com/a.png");
    assert_eq!(fallback_url("http://example.com/a.png", true), "http://example.com/a.png");
    assert_eq!(fallback_url("https://example.com/a.png", false), "missing-cover");
    assert_eq!(fallback_url("file:///tmp/a.png", true), "missing-cover");
    assert_eq!(fallback_url("", true), "missing-cover");
}

#[test]
fn failed_resolution_asks_each_provider_once_and_is_cached() {
    let mut r = ArtworkResolver::new(store(true), all_open());
    assert!(!r.is_waiting());
    let mut primary_calls = 0;
    let mut secondary_calls = 0;
    for _ in 0..2 {
        let mut step = r.begin(request("Album", ""));
        loop {
            match step {
                ResolveStep::QueryPrimary { .. } => {
                    primary_calls += 1;
                    step = r.advance(LookupOutcome::NotFound);
                }
                ResolveStep::QuerySecondary { .. } => {
                    secondary_calls += 1;
                    step = r.advance(LookupOutcome::Failed);
                }
                ResolveStep::Done { url } => {
                    assert_eq!(url, "missing-cover");
                    break;
                }
            }
        }
        assert!(!r.is_waiting());
        assert_eq!(r.cover, "missing-cover");
    }
    assert_eq!(primary_calls, 1);
    assert_eq!(secondary_calls, 1);
    assert_eq!(r.store.lookup("Artist - Album"), Some("missing-cover".to_string()));
}

#[test]
fn release_suffix_is_retried_before_the_fallback_provider() {
    let mut r = ArtworkResolver::new(store(true), all_open());
    let step = r.begin(request("Artist - Title - EP", ""));
    assert_eq!(shape(&step), primary("Artist - Title - EP"));
    assert_eq!(r.stage, Stage::Primary);
    let step = r.advance(LookupOutcome::NotFound);
    assert_eq!(shape(&step), primary("Artist - Title"));
    assert_eq!(r.stage, Stage::PrimaryStripped);
    let step = r.advance(LookupOutcome::NotFound);
    assert_eq!(shape(&step), secondary("Artist - Title - EP"));
    assert_eq!(r.stage, Stage::Secondary);
    let step = r.advance(found("https://example.com/ep.png"));
    assert_eq!(shape(&step), done("https://example.com/ep.png"));
    assert_eq!(r.stage, Stage::Idle);
    assert_eq!(
        r.store.lookup("Artist - Artist - Title - EP"),
        Some("https://example.com/ep.png".to_string())
    );
}

#[test]
fn retry_succeeds_with_the_stripped_name() {
    let mut r = ArtworkResolver::new(store(true), all_open());
    let step = r.begin(request("Title - Single", ""));
    assert_eq!(shape(&step), primary("Title - Single"));
    let step = r.advance(LookupOutcome::Failed);
    assert_eq!(shape(&step), primary("Title"));
    let step = r.advance(found("https://example.com/s.png"));
    assert_eq!(shape(&step), done("https://example.com/s.png"));
    assert_eq!(r.cover, "https://example.com/s.png");
}

#[test]
fn white_space_around_the_album_is_ignored_for_the_suffix() {
    let mut r = ArtworkResolver::new(store(false), all_open());
    let step = r.begin(request("  Title - EP \t", ""));
    assert_eq!(shape(&step), primary("  Title - EP \t"));
    let step = r.advance(LookupOutcome::NotFound);
    assert_eq!(shape(&step), primary("Title"));
}

#[test]
fn album_without_suffix_goes_straight_to_the_fallback_provider() {
    let mut r = ArtworkResolver::new(store(true), all_open());
    let step = r.begin(request("Album", ""));
    assert_eq!(shape(&step), primary("Album"));
    let step = r.advance(LookupOutcome::NotFound);
    assert_eq!(shape(&step), secondary("Album"));
}

#[test]
fn first_usable_address_ends_the_resolution() {
    let mut r = ArtworkResolver::new(store(true), all_open());
    r.begin(request("Album", "https://example.com/native.png"));
    let step = r.advance(found("https://example.com/a.png"));
    assert_eq!(shape(&step), done("https://example.com/a.png"));
    assert_eq!(r.store.lookup("Artist - Album"), Some("https://example.com/a.png".to_string()));
    let again = r.begin(request("Album", ""));
    assert_eq!(shape(&again), done("https://example.com/a.png"));
}

#[test]
fn empty_or_placeholder_answers_count_as_failures() {
    let mut r = ArtworkResolver::new(store(true), all_open());
    r.begin(request("Album", ""));
    let step = r.advance(found(""));
    assert_eq!(shape(&step), secondary("Album"));
    let step = r.advance(found("missing-cover"));
    assert_eq!(shape(&step), done("missing-cover"));
}

#[test]
fn native_artwork_is_the_last_resort_and_is_cached() {
    let mut r = ArtworkResolver::new(store(true), all_open());
    r.begin(request("Album", "https://example.com/native.png"));
    r.advance(LookupOutcome::NotFound);
    let step = r.advance(LookupOutcome::NotFound);
    assert_eq!(shape(&step), done("https://example.com/native.png"));
    assert_eq!(r.store.lookup("Artist - Album"), Some("https://example.com/native.png".to_string()));
}

#[test]
fn native_artwork_is_not_used_where_it_is_not_allowed() {
    let cfg = ResolverConfig { native_art_allowed: false, ..all_open() };
    let mut r = ArtworkResolver::new(store(true), cfg);
    r.begin(request("Album", "https://example.com/native.png"));
    r.advance(LookupOutcome::NotFound);
    let step = r.advance(LookupOutcome::NotFound);
    assert_eq!(shape(&step), done("missing-cover"));
}

#[test]
fn closed_steps_are_skipped() {
    let no_primary = ResolverConfig { primary_enabled: false, ..all_open() };
    let mut r = ArtworkResolver::new(store(true), no_primary);
    let step = r.begin(request("Title - EP", ""));
    assert_eq!(shape(&step), secondary("Title - EP"));
    let no_secondary = ResolverConfig { secondary_enabled: false, ..all_open() };
    let mut r = ArtworkResolver::new(store(true), no_secondary);
    r.begin(request("Album", "https://example.com/native.png"));
    let step = r.advance(LookupOutcome::NotFound);
    assert_eq!(shape(&step), done("https://example.com/native.png"));
    let none = ResolverConfig { primary_enabled: false, secondary_enabled: false, native_art_allowed: true };
    let mut r = ArtworkResolver::new(store(true), none);
    let step = r.begin(request("Album", ""));
    assert_eq!(shape(&step), done("missing-cover"));
    assert!(!r.is_waiting());
    assert_eq!(r.store.lookup("Artist - Album"), Some("missing-cover".to_string()));
}

#[test]
fn resolution_without_cache_asks_again() {
    let mut r = ArtworkResolver::new(store(false), all_open());
    r.begin(request("Album", ""));
    r.advance(found("https://example.com/a.png"));
    let step = r.begin(request("Album", ""));
    assert_eq!(shape(&step), primary("Album"));
}

#[test]
fn planning_follows_the_chain() {
    let req = request("Title - EP", "https://example.com/native.png");
    let cfg = all_open();
    assert_eq!(shape(&plan_first(Some("cached".to_string()), &req, cfg)), done("cached"));
    assert_eq!(shape(&plan_first(None, &req, cfg)), primary("Title - EP"));
    assert_eq!(shape(&plan_from_secondary(&req, cfg)), secondary("Title - EP"));
    assert_eq!(
        shape(&plan_next(Stage::Primary, &req, cfg, LookupOutcome::NotFound, "Title - EP")),
        primary("Title")
    );
    assert_eq!(
        shape(&plan_next(Stage::Primary, &req, cfg, LookupOutcome::NotFound, "Title")),
        secondary("Title - EP")
    );
    assert_eq!(
        shape(&plan_next(Stage::PrimaryStripped, &req, cfg, LookupOutcome::Failed, "Title - EP")),
        secondary("Title - EP")
    );
    assert_eq!(
        shape(&plan_next(Stage::Secondary, &req, cfg, LookupOutcome::Failed, "Title - EP")),
        done("https://example.com/native.png")
    );
    assert_eq!(
        shape(&plan_next(Stage::Secondary, &req, cfg, found("u"), "Title - EP")),
        done("u")
    );
}

#[test]
fn stages_follow_the_steps() {
    let q1 = ResolveStep::QueryPrimary { artist: String::new(), album: String::new() };
    let q2 = ResolveStep::QuerySecondary { artist: String::new(), album: String::new() };
    let end = ResolveStep::Done { url: String::new() };
    assert_eq!(next_stage(Stage::Idle, &q1), Stage::Primary);
    assert_eq!(next_stage(Stage::Primary, &q1), Stage::PrimaryStripped);
    assert_eq!(next_stage(Stage::Primary, &q2), Stage::Secondary);
    assert_eq!(next_stage(Stage::PrimaryStripped, &q2), Stage::Secondary);
    assert_eq!(next_stage(Stage::Secondary, &end), Stage::Idle);
    assert_eq!(next_stage(Stage::Idle, &end), Stage::Idle);
}

#[test]
fn enabled_cache_keeps_every_entry() {
    let mut cache = store(true);
    for (key, value) in [("a", "1"), ("a", "2"), ("", ""), ("ключ", "значение \"x\"\n")] {
        assert!(cache.record(key, &value.to_string()));
        assert_eq!(cache.lookup(key), Some(value.to_string()));
    }
}
