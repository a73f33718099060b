use pickledb::{PickleDb, PickleDbDumpPolicy, SerializationMethod};
use presence_sync::artwork::{ArtworkResolver, CacheStore, LookupOutcome, ResolverConfig};
use presence_sync::detector::MediaSnapshot;
use presence_sync::engine::{
    choose_source, effective_interval, is_listed, player_at, track, Command, Discovery, Engine,
    Event, LoopSettings, Message, Notifier, Phase, Reaction, SourceNotice, DEFAULT_INTERVAL,
    MIN_INTERVAL,
};
use presence_sync::publisher::{
    ButtonKind, ConnectAction, ConnectNotice, NamingMode, Payload, PresenceConfig, SmallImageMode,
};
use presence_sync::selector::{PlaybackStatus, PlayerInfo, TrackMeta};

fn list(items: &[&str]) -> Vec<String> {
    items.iter().map(|s| s.to_string()).collect()
}

fn settings(allowlist: &[&str]) -> LoopSettings {
    LoopSettings {
        allowlist: list(allowlist),
        only_when_playing: false,
        video_players: list(&["Video"]),
        force_player_name: String::new(),
        force_player_id: String::new(),
        probe_others: false,
    }
}

fn config(small_image: SmallImageMode) -> PresenceConfig {
    PresenceConfig {
        naming: NamingMode::Artist,
        small_image,
        buttons: vec![ButtonKind::Search],
        hide_album_name: false,
        native_art_allowed: true,
        lastfm_name: String::new(),
        listenbrainz_name: String::new(),
        lastfm_avatar: String::new(),
    }
}

fn resolver(primary: bool, secondary: bool) -> ArtworkResolver {
    let db = PickleDb::new(
        "presence_sync_test_engine.db",
        PickleDbDumpPolicy::NeverDump,
        SerializationMethod::Json,
    );
    ArtworkResolver::new(
        CacheStore::new(db, true),
        ResolverConfig { primary_enabled: primary, secondary_enabled: secondary, native_art_allowed: true },
    )
}

fn engine(settings: LoopSettings) -> Engine {
    Engine::new(settings, config(SmallImageMode::Player), resolver(false, false))
}

fn player(id: &str, status: PlaybackStatus) -> PlayerInfo {
    PlayerInfo {
        bus_name: id.to_string(),
        identity: id.to_string(),
        icon_id: id.to_lowercase(),
        status: Some(status),
        metadata: Some(TrackMeta {
            title: Some("Song".to_string()),
            artists: Some(vec!["Band".to_string()]),
        }),
    }
}

fn snapshot(source: &str, playing: bool) -> MediaSnapshot {
    MediaSnapshot {
        title: "Song".to_string(),
        artist: "Band".to_string(),
        album: "Record".to_string(),
        album_artist: "Band".to_string(),
        position: 10,
        position_known: true,
        duration: 200,
        is_playing: playing,
        track_url: String::new(),
        art_url: String::new(),
        source_id: source.to_string(),
    }
}

fn poll(e: &mut Engine, cur: MediaSnapshot) -> Reaction {
    e.step(Event::Snapshot { snapshot: Some(cur), now: 1000 }).unwrap()
}

fn payload(r: Reaction) -> Payload {
    match r.next {
        Command::Publish { payload } => payload,
        other => panic!("no payload but {:?}", other),
    }
}

fn is_poll(r: &Reaction) -> bool {
    matches!(r.next, Command::Poll)
}

fn is_discover(r: &Reaction, all: bool) -> bool {
    matches!(r.next, Command::Discover { list_all } if list_all == all)
}

fn track_a(e: &mut Engine) {
    let found = Discovery::Listed(vec![
        player("A", PlaybackStatus::Playing),
        player("B", PlaybackStatus::Paused),
    ]);
    let r = e.step(Event::Discovered(found)).unwrap();
    assert!(matches!(
        r.next,
        Command::Connect { action: ConnectAction::Connect, is_video: false, player: 0 }
    ));
    let r = e.step(Event::Opened(true)).unwrap();
    assert!(is_poll(&r));
    assert_eq!(r.sleeps, 0);
}

#[test]
fn interval_has_a_floor_and_a_default() {
    assert_eq!(MIN_INTERVAL, 5);
    assert_eq!(DEFAULT_INTERVAL, 10);
    assert_eq!(effective_interval(None), 10);
    assert_eq!(effective_interval(Some(0)), 5);
    assert_eq!(effective_interval(Some(4)), 5);
    assert_eq!(effective_interval(Some(5)), 5);
    assert_eq!(effective_interval(Some(60)), 60);
}

#[test]
fn notifier_tells_each_condition_once() {
    let mut n = Notifier::new();
    assert_eq!(n.source, SourceNotice::Unknown);
    assert!(!n.provider_reached());
    assert!(n.provider_unreachable());
    assert!(!n.provider_unreachable());
    assert!(n.provider_reached());
    assert!(!n.provider_reached());
    assert!(n.search_ended(false));
    assert!(!n.search_ended(false));
    assert!(n.search_ended(true));
    assert!(!n.search_ended(true));
    assert!(n.search_ended(false));
}

#[test]
fn listed_names_are_found() {
    let names = list(&["mpv", "VLC"]);
    assert!(is_listed(&names, "VLC"));
    assert!(!is_listed(&names, "vlc"));
    assert!(!is_listed(&Vec::new(), "VLC"));
}

#[test]
fn tracking_applies_forced_names_and_the_video_list() {
    let mut s = settings(&[]);
    let p = player("Video", PlaybackStatus::Playing);
    let t = track(&p, &s);
    assert_eq!(t.bus_name, "Video");
    assert_eq!(t.identity.player_name, "Video");
    assert_eq!(t.identity.player_id, "video");
    assert!(t.identity.is_video);
    s.force_player_name = "Shown".to_string();
    s.force_player_id = "icon".to_string();
    let t = track(&p, &s);
    assert_eq!(t.identity.player_name, "Shown");
    assert_eq!(t.identity.player_id, "icon");
    assert!(t.identity.is_video);
    assert!(!track(&player("Audio", PlaybackStatus::Playing), &s).identity.is_video);
}

#[test]
fn active_source_is_passed_through() {
    let allowlist = list(&["Nothing"]);
    let active = Discovery::Active(Some(player("A", PlaybackStatus::Stopped)));
    assert_eq!(choose_source(&active, &allowlist), Some(0));
    assert_eq!(player_at(&active, 0).map(|p| p.bus_name.clone()), Some("A".to_string()));
    assert!(player_at(&active, 1).is_none());
    assert_eq!(choose_source(&Discovery::Active(None), &allowlist), None);
    assert_eq!(choose_source(&Discovery::Unreachable, &allowlist), None);
    assert!(player_at(&Discovery::Unreachable, 0).is_none());
    let listed = Discovery::Listed(vec![player("A", PlaybackStatus::Playing)]);
    assert_eq!(choose_source(&listed, &allowlist), None);
    assert_eq!(choose_source(&listed, &list(&["A"])), Some(0));
    assert!(player_at(&listed, 1).is_none());
}

#[test]
fn loop_starts_by_asking_for_sources() {
    let e = engine(settings(&["A"]));
    assert_eq!(e.phase, Phase::Acquiring);
    assert!(matches!(e.first_command(), Command::Discover { list_all: true }));
    let e = engine(settings(&[]));
    assert!(matches!(e.first_command(), Command::Discover { list_all: false }));
}

#[test]
fn unreachable_provider_is_told_once_and_its_recovery_once() {
    let mut e = engine(settings(&[]));
    let r = e.step(Event::Discovered(Discovery::Unreachable)).unwrap();
    assert_eq!(r.messages, vec![Message::ProviderUnreachable]);
    assert_eq!(r.sleeps, 1);
    assert!(!r.clear_presence);
    assert!(is_discover(&r, false));
    let r = e.step(Event::Discovered(Discovery::Unreachable)).unwrap();
    assert_eq!(r.messages, vec![]);
    assert_eq!(e.phase, Phase::Acquiring);
    let r = e.step(Event::Discovered(Discovery::Active(None))).unwrap();
    assert_eq!(r.messages, vec![Message::ProviderReached, Message::NoSource]);
    let r = e.step(Event::Discovered(Discovery::Active(None))).unwrap();
    assert_eq!(r.messages, vec![]);
}

#[test]
fn missing_source_interrupts_and_is_told_once() {
    let mut e = engine(settings(&["A"]));
    let r = e.step(Event::Discovered(Discovery::Listed(vec![]))).unwrap();
    assert_eq!(r.messages, vec![Message::NoAllowlistedSource]);
    assert_eq!(r.sleeps, 1);
    assert!(!r.clear_presence);
    assert!(is_discover(&r, true));
    assert!(e.session.interrupted);
    let r = e.step(Event::Discovered(Discovery::Listed(vec![player("B", PlaybackStatus::Playing)])));
    assert_eq!(r.unwrap().messages, vec![]);
}

#[test]
fn end_to_end_selection_and_publishing() {
    let mut e = Engine::new(settings(&["A", "B"]), config(SmallImageMode::Player), resolver(false, false));
    let found = Discovery::Listed(vec![
        player("A", PlaybackStatus::Playing),
        player("B", PlaybackStatus::Paused),
    ]);
    let r = e.step(Event::Discovered(found)).unwrap();
    assert_eq!(r.messages, vec![Message::SourceFound]);
    assert!(matches!(
        r.next,
        Command::Connect { action: ConnectAction::Connect, is_video: false, player: 0 }
    ));
    assert_eq!(e.source.as_ref().map(|s| s.bus_name.clone()), Some("A".to_string()));
    let r = e.step(Event::Opened(true)).unwrap();
    assert_eq!(r.messages, vec![Message::Sink(ConnectNotice::Connected)]);
    assert!(is_poll(&r));

    let first = payload(poll(&mut e, snapshot("A", true)));
    assert_eq!(first.small.map(|c| (c.image, c.text)), Some(("a".to_string(), "A".to_string())));
    let r = e.step(Event::Sent(true)).unwrap();
    assert_eq!(r.messages, vec![Message::Published]);
    assert_eq!(r.sleeps, 1);
    assert!(is_poll(&r));
    assert!(e.session.activity_set);

    let r = poll(&mut e, snapshot("A", true));
    assert!(is_poll(&r));
    assert_eq!(r.sleeps, 1);
    assert_eq!(r.messages, vec![]);
    assert_eq!(e.phase, Phase::Polling);

    let third = payload(poll(&mut e, snapshot("A", false)));
    assert_eq!(
        third.small.map(|c| (c.image, c.text)),
        Some(("paused".to_string(), "paused".to_string()))
    );
    assert_eq!(third.timestamps.start, Some(990));
    assert_eq!(third.timestamps.end, None);
    e.step(Event::Sent(true)).unwrap();
    let r = poll(&mut e, snapshot("A", false));
    assert!(is_poll(&r));
}

#[test]
fn failed_opening_returns_to_the_search() {
    let mut e = engine(settings(&[]));
    e.step(Event::Discovered(Discovery::Active(Some(player("A", PlaybackStatus::Playing))))).unwrap();
    assert_eq!(e.phase, Phase::Connecting);
    let r = e.step(Event::Opened(false)).unwrap();
    assert_eq!(r.messages, vec![Message::Sink(ConnectNotice::CouldNotConnect)]);
    assert_eq!(r.sleeps, 1);
    assert!(is_discover(&r, false));
    assert_eq!(e.phase, Phase::Acquiring);
    let r = e.step(Event::Discovered(Discovery::Active(Some(player("A", PlaybackStatus::Playing))))).unwrap();
    assert_eq!(r.messages, vec![]);
    assert!(matches!(r.next, Command::Connect { action: ConnectAction::Connect, .. }));
    let r = e.step(Event::Opened(false)).unwrap();
    assert_eq!(r.messages, vec![]);
}

#[test]
fn unreadable_snapshot_clears_and_returns_to_the_search() {
    let mut e = engine(settings(&["A", "B"]));
    track_a(&mut e);
    payload(poll(&mut e, snapshot("A", true)));
    e.step(Event::Sent(true)).unwrap();
    let r = e.step(Event::Snapshot { snapshot: None, now: 1000 }).unwrap();
    assert_eq!(r.messages, vec![Message::SnapshotUnreadable]);
    assert!(r.clear_presence);
    assert_eq!(r.sleeps, 1);
    assert!(is_discover(&r, true));
    assert!(!e.session.activity_set);
    assert_eq!(e.phase, Phase::Acquiring);
    let r = e.step(Event::Discovered(Discovery::Listed(vec![]))).unwrap();
    assert!(!r.clear_presence);
}

#[test]
fn reopened_sink_forces_a_refresh() {
    let mut e = engine(settings(&["A", "B"]));
    track_a(&mut e);
    payload(poll(&mut e, snapshot("A", true)));
    e.step(Event::Sent(true)).unwrap();
    e.step(Event::Snapshot { snapshot: None, now: 1000 }).unwrap();
    let r = e.step(Event::Discovered(Discovery::Listed(vec![player("A", PlaybackStatus::Playing)]))).unwrap();
    assert!(matches!(r.next, Command::Connect { action: ConnectAction::Reconnect, .. }));
    let r = e.step(Event::Opened(true)).unwrap();
    assert_eq!(r.messages, vec![]);
    assert!(e.session.interrupted);
    payload(poll(&mut e, snapshot("A", true)));
}

#[test]
fn failed_publish_closes_the_sink() {
    let mut e = engine(settings(&["A", "B"]));
    track_a(&mut e);
    payload(poll(&mut e, snapshot("A", true)));
    let r = e.step(Event::Sent(false)).unwrap();
    assert_eq!(r.messages, vec![Message::PublishFailed]);
    assert!(r.close_sink);
    assert!(!r.clear_presence);
    assert_eq!(r.sleeps, 1);
    assert!(is_discover(&r, true));
    assert!(e.session.interrupted);
    assert!(!e.session.activity_set);
    assert_eq!(e.phase, Phase::Acquiring);
}

#[test]
fn paused_source_is_cleared_where_only_playing_is_shown() {
    let mut s = settings(&["A", "B"]);
    s.only_when_playing = true;
    let mut e = engine(s);
    track_a(&mut e);
    payload(poll(&mut e, snapshot("A", true)));
    e.step(Event::Sent(true)).unwrap();
    let r = poll(&mut e, snapshot("A", false));
    assert!(r.clear_presence);
    assert!(is_poll(&r));
    assert_eq!(r.sleeps, 1);
    assert_eq!(e.phase, Phase::Polling);
    assert!(e.session.interrupted);
    let r = poll(&mut e, snapshot("A", false));
    assert!(!r.clear_presence);
    payload(poll(&mut e, snapshot("A", true)));
}

#[test]
fn paused_source_is_left_for_another_that_plays() {
    let mut s = settings(&["A", "B"]);
    s.probe_others = true;
    let mut e = engine(s);
    track_a(&mut e);
    let r = poll(&mut e, snapshot("A", false));
    assert!(matches!(r.next, Command::Probe));
    assert_eq!(r.sleeps, 0);
    assert_eq!(e.phase, Phase::Probing);
    let others = vec![player("A", PlaybackStatus::Paused), player("B", PlaybackStatus::Playing)];
    let r = e.step(Event::Probed(others)).unwrap();
    assert_eq!(r.sleeps, 2);
    assert!(is_discover(&r, true));
    assert!(!r.clear_presence);
    assert_eq!(e.phase, Phase::Acquiring);
}

#[test]
fn paused_source_is_kept_while_no_other_plays() {
    let mut s = settings(&["A", "B"]);
    s.probe_others = true;
    let mut e = engine(s);
    track_a(&mut e);
    poll(&mut e, snapshot("A", false));
    let others = vec![player("A", PlaybackStatus::Paused), player("B", PlaybackStatus::Paused)];
    let p = payload(e.step(Event::Probed(others)).unwrap());
    assert_eq!(p.details, "Song");
    assert_eq!(e.phase, Phase::Publishing);
}

#[test]
fn artwork_is_resolved_when_the_album_changes() {
    let mut e = Engine::new(settings(&["A", "B"]), config(SmallImageMode::Status), resolver(true, true));
    track_a(&mut e);
    let r = poll(&mut e, snapshot("A", true));
    match &r.next {
        Command::QueryPrimary { artist, album } => {
            assert_eq!(artist, "Band");
            assert_eq!(album, "Record");
        }
        other => panic!("no query but {:?}", other),
    }
    assert_eq!(r.sleeps, 0);
    assert_eq!(e.phase, Phase::Resolving);
    let r = e.step(Event::LookedUp(LookupOutcome::NotFound)).unwrap();
    assert!(matches!(r.next, Command::QuerySecondary { .. }));
    assert!(!r.persist_cache);
    let found = LookupOutcome::Found("https://example.com/a.png".to_string());
    let r = e.step(Event::LookedUp(found)).unwrap();
    assert!(r.persist_cache);
    let p = payload(r);
    assert_eq!(p.large_image, "https://example.com/a.png");
    assert_eq!(p.timestamps.start, Some(990));
    e.step(Event::Sent(true)).unwrap();
    assert_eq!(e.session.album_id, "Band - Record");

    let mut next_song = snapshot("A", true);
    next_song.title = "Other Song".to_string();
    let r = poll(&mut e, next_song);
    assert!(!r.persist_cache);
    let p = payload(r);
    assert_eq!(p.details, "Other Song");
    assert_eq!(p.large_image, "https://example.com/a.png");
}

#[test]
fn cached_artwork_is_used_without_a_query() {
    let db = PickleDb::new(
        "presence_sync_test_engine.db",
        PickleDbDumpPolicy::NeverDump,
        SerializationMethod::Json,
    );
    let mut cache = CacheStore::new(db, true);
    assert!(cache.record("Band - Record", &"https://example.com/kept.png".to_string()));
    let resolver = ArtworkResolver::new(
        cache,
        ResolverConfig { primary_enabled: true, secondary_enabled: true, native_art_allowed: true },
    );
    let mut e = Engine::new(settings(&["A", "B"]), config(SmallImageMode::Status), resolver);
    track_a(&mut e);
    let r = poll(&mut e, snapshot("A", true));
    assert!(!r.persist_cache);
    assert_eq!(payload(r).large_image, "https://example.com/kept.png");
}

#[test]
fn unusable_snapshot_is_skipped() {
    let mut e = engine(settings(&["A", "B"]));
    track_a(&mut e);
    let mut cur = snapshot("A", true);
    cur.artist = String::new();
    let r = poll(&mut e, cur);
    assert!(is_poll(&r));
    assert_eq!(r.sleeps, 1);
    assert!(!r.clear_presence);
    assert_eq!(e.session.position, 0);
    assert_eq!(e.phase, Phase::Polling);
}

#[test]
fn source_of_the_other_kind_is_given_up() {
    let mut e = engine(settings(&["A", "B"]));
    track_a(&mut e);
    let r = poll(&mut e, snapshot("Video", true));
    assert!(is_discover(&r, true));
    assert_eq!(r.sleeps, 1);
    assert_eq!(r.messages, vec![]);
    assert_eq!(e.phase, Phase::Acquiring);
}

#[test]
fn events_that_answer_nothing_are_refused() {
    let mut e = engine(settings(&["A", "B"]));
    assert!(e.step(Event::Opened(true)).is_none());
    assert!(e.step(Event::Sent(true)).is_none());
    assert!(e.step(Event::Probed(vec![])).is_none());
    assert!(e.step(Event::LookedUp(LookupOutcome::NotFound)).is_none());
    assert!(e.step(Event::Snapshot { snapshot: None, now: 0 }).is_none());
    assert_eq!(e.phase, Phase::Acquiring);
    track_a(&mut e);
    assert!(e.step(Event::Discovered(Discovery::Unreachable)).is_none());
    assert!(e.step(Event::Snapshot { snapshot: Some(snapshot("A", true)), now: 5 }).is_none());
    assert_eq!(e.phase, Phase::Polling);
    assert_eq!(e.session.position, 0);
    assert!(e.step(Event::Snapshot { snapshot: Some(snapshot("A", true)), now: 10 }).is_some());
}

#[test]
fn paused_source_is_published_once_with_the_paused_icon() {
    for mode in [
        SmallImageMode::Player,
        SmallImageMode::LastfmAvatar,
        SmallImageMode::Status,
        SmallImageMode::Hidden,
    ] {
        let mut s = settings(&["A", "B"]);
        s.probe_others = true;
        let mut e = Engine::new(s, config(mode), resolver(false, false));
        track_a(&mut e);
        payload(poll(&mut e, snapshot("A", true)));
        e.step(Event::Sent(true)).unwrap();
        assert!(is_poll(&poll(&mut e, snapshot("A", true))));

        let r = poll(&mut e, snapshot("A", false));
        assert!(matches!(r.next, Command::Probe));
        let others = vec![player("A", PlaybackStatus::Paused), player("B", PlaybackStatus::Paused)];
        let p = payload(e.step(Event::Probed(others)).unwrap());
        assert_eq!(
            p.small.map(|c| (c.image, c.text)),
            Some(("paused".to_string(), "paused".to_string()))
        );
        let r = e.step(Event::Sent(true)).unwrap();
        assert!(is_poll(&r));
        assert!(!e.session.is_playing);
        assert!(!e.session.interrupted);
        assert!(e.session.activity_set);

        let r = poll(&mut e, snapshot("A", false));
        assert!(matches!(r.next, Command::Probe));
        let others = vec![player("A", PlaybackStatus::Paused), player("B", PlaybackStatus::Paused)];
        let r = e.step(Event::Probed(others)).unwrap();
        assert!(is_poll(&r));
        assert_eq!(r.sleeps, 1);
    }
}

#[test]
fn failed_resolution_is_stored_and_not_repeated() {
    let mut e = Engine::new(settings(&["A", "B"]), config(SmallImageMode::Status), resolver(true, true));
    track_a(&mut e);
    let r = poll(&mut e, snapshot("A", true));
    assert!(matches!(r.next, Command::QueryPrimary { .. }));
    let r = e.step(Event::LookedUp(LookupOutcome::NotFound)).unwrap();
    assert!(matches!(r.next, Command::QuerySecondary { .. }));
    let r = e.step(Event::LookedUp(LookupOutcome::Failed)).unwrap();
    assert!(r.persist_cache);
    assert_eq!(payload(r).large_image, "missing-cover");
    assert_eq!(e.resolver.store.lookup("Band - Record"), Some("missing-cover".to_string()));
    e.step(Event::Sent(true)).unwrap();

    let mut other = snapshot("A", true);
    other.album = "Other".to_string();
    let r = poll(&mut e, other);
    assert!(matches!(r.next, Command::QueryPrimary { .. }));
    e.step(Event::LookedUp(LookupOutcome::Found("https://example.com/o.png".to_string()))).unwrap();
    e.step(Event::Sent(true)).unwrap();

    let r = poll(&mut e, snapshot("A", true));
    assert!(!r.persist_cache);
    assert_eq!(payload(r).large_image, "missing-cover");
}
