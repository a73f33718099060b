//! Deciding whether an observed snapshot warrants a new presence update.

use vstd::prelude::*;
use vstd::string::StringExecFns;
use crate::text::{lowercase, lowercase_of, same_text};

verus! {

/// One point-in-time read of a source's playback metadata.
#[derive(Debug)]
pub struct MediaSnapshot {
    pub title: String,
    pub artist: String,
    pub album: String,
    pub album_artist: String,
    /// Elapsed seconds; meaningful only where `position_known` is set.
    pub position: u64,
    pub position_known: bool,
    /// Total seconds; 0 where the source does not tell.
    pub duration: u64,
    pub is_playing: bool,
    pub track_url: String,
    pub art_url: String,
    pub source_id: String,
}

/// Mathematical model of a `MediaSnapshot`.
pub struct SnapshotView {
    pub title: Seq<char>,
    pub artist: Seq<char>,
    pub album: Seq<char>,
    pub album_artist: Seq<char>,
    pub position: nat,
    pub position_known: bool,
    pub duration: nat,
    pub is_playing: bool,
    pub track_url: Seq<char>,
    pub art_url: Seq<char>,
    pub source_id: Seq<char>,
}

impl View for MediaSnapshot {
    type V = SnapshotView;

    open spec fn view(&self) -> SnapshotView {
        SnapshotView {
            title: self.title@,
            artist: self.artist@,
            album: self.album@,
            album_artist: self.album_artist@,
            position: self.position as nat,
            position_known: self.position_known,
            duration: self.duration as nat,
            is_playing: self.is_playing,
            track_url: self.track_url@,
            art_url: self.art_url@,
            source_id: self.source_id@,
        }
    }
}

/// What the session remembers between polls: the fields that were last
/// published, the position that was last seen, and two flags.
#[derive(Debug)]
pub struct TrackedState {
    pub title: String,
    pub album: String,
    pub artist: String,
    pub album_artist: String,
    pub album_id: String,
    pub position: u64,
    pub is_playing: bool,
    /// The last cycle ended without an update, so the next viable one
    /// publishes even if nothing differs.
    pub interrupted: bool,
    /// The sink shows a presence at the moment.
    pub activity_set: bool,
}

/// Mathematical model of a `TrackedState`.
pub struct TrackedView {
    pub title: Seq<char>,
    pub album: Seq<char>,
    pub artist: Seq<char>,
    pub album_artist: Seq<char>,
    pub album_id: Seq<char>,
    pub position: nat,
    pub is_playing: bool,
    pub interrupted: bool,
    pub activity_set: bool,
}

impl View for TrackedState {
    type V = TrackedView;

    open spec fn view(&self) -> TrackedView {
        TrackedView {
            title: self.title@,
            album: self.album@,
            artist: self.artist@,
            album_artist: self.album_artist@,
            album_id: self.album_id@,
            position: self.position as nat,
            is_playing: self.is_playing,
            interrupted: self.interrupted,
            activity_set: self.activity_set,
        }
    }
}

/// The state of a session that has published nothing yet.
pub open spec fn fresh_state() -> TrackedView {
    TrackedView {
        title: Seq::empty(),
        album: Seq::empty(),
        artist: Seq::empty(),
        album_artist: Seq::empty(),
        album_id: Seq::empty(),
        position: 0,
        is_playing: false,
        interrupted: false,
        activity_set: false,
    }
}

impl TrackedState {
    /// The state of a session that has published nothing yet.
    pub fn new() -> (s: TrackedState)
        ensures
            s@ == fresh_state(),
    {
        TrackedState {
            title: String::new(),
            album: String::new(),
            artist: String::new(),
            album_artist: String::new(),
            album_id: String::new(),
            position: 0,
            is_playing: false,
            interrupted: false,
            activity_set: false,
        }
    }
}

/// The key under which an album's artwork is kept: album artist, `" - "`,
/// album.
pub open spec fn album_identity_of(album_artist: Seq<char>, album: Seq<char>) -> Seq<char> {
    album_artist + " - "@ + album
}

/// The key under which an album's artwork is kept.
pub fn album_identity(album_artist: &str, album: &str) -> (id: String)
    ensures
        id@ == album_identity_of(album_artist@, album@),
{
    String::from_str(album_artist).concat(" - ").concat(album)
}

/// Why a snapshot is worth publishing.
#[derive(Clone, Copy, Debug, PartialEq, Eq, Structural)]
pub enum Reason {
    /// A published field differs from the snapshot's.
    MetadataChanged,
    /// The same track was restarted or sought backwards.
    PositionRegressed,
    /// The cycle before ended without an update.
    Interrupted,
}

/// What to do with a snapshot.
#[derive(Clone, Copy, Debug, PartialEq, Eq, Structural)]
pub enum Verdict {
    /// The snapshot names no track: skip the cycle and touch nothing.
    Unusable,
    /// Nothing differs from what the sink shows.
    Unchanged,
    /// Publish, for the reason given.
    Publish(Reason),
}

/// Artist, album and title all read as placeholders once lower-cased.
pub open spec fn all_placeholders(
    lower_artist: Seq<char>,
    lower_album: Seq<char>,
    lower_title: Seq<char>,
) -> bool {
    &&& lower_artist == "unknown artist"@
    &&& lower_album == "unknown album"@
    &&& lower_title == "unknown title"@
}

/// The snapshot names no track: its three core fields are placeholders, or
/// its artist or title is empty.
pub open spec fn unusable_given(
    cur: SnapshotView,
    lower_artist: Seq<char>,
    lower_album: Seq<char>,
    lower_title: Seq<char>,
) -> bool {
    all_placeholders(lower_artist, lower_album, lower_title) || cur.artist.len() == 0
        || cur.title.len() == 0
}

/// One of title, album, artist, album artist and play state differs from
/// what was published last.
pub open spec fn metadata_changed(prev: TrackedView, cur: SnapshotView) -> bool {
    ||| cur.title != prev.title
    ||| cur.album != prev.album
    ||| cur.artist != prev.artist
    ||| cur.album_artist != prev.album_artist
    ||| cur.is_playing != prev.is_playing
}

/// The position went back while nothing else changed.
pub open spec fn position_regressed(prev: TrackedView, cur: SnapshotView) -> bool {
    cur.position < prev.position && !metadata_changed(prev, cur)
}

/// The verdict on `cur`, given its artist, album and title in lower case.
pub open spec fn verdict_given(
    prev: TrackedView,
    cur: SnapshotView,
    interrupted: bool,
    lower_artist: Seq<char>,
    lower_album: Seq<char>,
    lower_title: Seq<char>,
) -> Verdict {
    if unusable_given(cur, lower_artist, lower_album, lower_title) {
        Verdict::Unusable
    } else if metadata_changed(prev, cur) {
        Verdict::Publish(Reason::MetadataChanged)
    } else if position_regressed(prev, cur) {
        Verdict::Publish(Reason::PositionRegressed)
    } else if interrupted {
        Verdict::Publish(Reason::Interrupted)
    } else {
        Verdict::Unchanged
    }
}

/// The verdict on `cur` after `prev`.
pub open spec fn verdict_of(prev: TrackedView, cur: SnapshotView, interrupted: bool) -> Verdict {
    verdict_given(
        prev,
        cur,
        interrupted,
        lowercase_of(cur.artist),
        lowercase_of(cur.album),
        lowercase_of(cur.title),
    )
}

/// Does the snapshot differ from what was published last?
pub fn has_metadata_changed(prev: &TrackedState, cur: &MediaSnapshot) -> (b: bool)
    ensures
        b == metadata_changed(prev@, cur@),
{
    cur.title != prev.title || cur.album != prev.album || cur.artist != prev.artist
        || cur.album_artist != prev.album_artist || cur.is_playing != prev.is_playing
}

/// The verdict on `cur` after `prev`, given the snapshot's artist, album and
/// title in lower case.
pub fn judge(
    prev: &TrackedState,
    cur: &MediaSnapshot,
    interrupted: bool,
    lower_artist: &str,
    lower_album: &str,
    lower_title: &str,
) -> (v: Verdict)
    ensures
        v == verdict_given(prev@, cur@, interrupted, lower_artist@, lower_album@, lower_title@),
{
    if same_text(lower_artist, "unknown artist") && same_text(lower_album, "unknown album")
        && same_text(lower_title, "unknown title") {
        return Verdict::Unusable;
    }
    if cur.artist.as_str().is_empty() || cur.title.as_str().is_empty() {
        return Verdict::Unusable;
    }
    if has_metadata_changed(prev, cur) {
        Verdict::Publish(Reason::MetadataChanged)
    } else if cur.position < prev.position {
        Verdict::Publish(Reason::PositionRegressed)
    } else if interrupted {
        Verdict::Publish(Reason::Interrupted)
    } else {
        Verdict::Unchanged
    }
}

/// The verdict on `cur` after `prev`: unusable snapshots are told apart
/// first, then a change of metadata, a regression of the position, and an
/// interruption are looked for, in this order.
pub fn should_publish(prev: &TrackedState, cur: &MediaSnapshot, interrupted: bool) -> (v: Verdict)
    ensures
        v == verdict_of(prev@, cur@, interrupted),
{
    let lower_artist = lowercase(cur.artist.as_str());
    let lower_album = lowercase(cur.album.as_str());
    let lower_title = lowercase(cur.title.as_str());
    judge(
        prev,
        cur,
        interrupted,
        lower_artist.as_str(),
        lower_album.as_str(),
        lower_title.as_str(),
    )
}

/// The state after a poll: the position follows the snapshot whatever the
/// verdict, unless the snapshot is unusable, which changes nothing.
pub open spec fn after_poll(prev: TrackedView, cur: SnapshotView, v: Verdict) -> TrackedView {
    if v is Unusable {
        prev
    } else {
        TrackedView { position: cur.position, ..prev }
    }
}

/// The state once `cur` is taken down as the snapshot to publish.
pub open spec fn remembered(prev: TrackedView, cur: SnapshotView) -> TrackedView {
    TrackedView {
        title: cur.title,
        album: cur.album,
        artist: cur.artist,
        album_artist: cur.album_artist,
        album_id: album_identity_of(cur.album_artist, cur.album),
        is_playing: cur.is_playing,
        ..prev
    }
}

/// The state once the sink has answered a publish: shown and settled on
/// success, not shown and interrupted on failure.
pub open spec fn settled(prev: TrackedView, ok: bool) -> TrackedView {
    TrackedView { interrupted: !ok, activity_set: ok, ..prev }
}

impl TrackedState {
    /// Judges `cur` and takes its position down, so that a regression is
    /// measured between consecutive polls.
    pub fn observe(&mut self, cur: &MediaSnapshot) -> (v: Verdict)
        ensures
            v == verdict_of(old(self)@, cur@, old(self).interrupted),
            final(self)@ == after_poll(old(self)@, cur@, v),
    {
        let v = should_publish(self, cur, self.interrupted);
        match v {
            Verdict::Unusable => {},
            _ => {
                self.position = cur.position;
            },
        }
        v
    }

    /// Takes `cur` down as the snapshot that is about to be published.
    pub fn remember(&mut self, cur: &MediaSnapshot)
        ensures
            final(self)@ == remembered(old(self)@, cur@),
    {
        self.title = cur.title.clone();
        self.album = cur.album.clone();
        self.artist = cur.artist.clone();
        self.album_artist = cur.album_artist.clone();
        self.album_id = album_identity(cur.album_artist.as_str(), cur.album.as_str());
        self.is_playing = cur.is_playing;
    }

    /// Takes down how the sink answered a publish.
    pub fn settle(&mut self, ok: bool)
        ensures
            final(self)@ == settled(old(self)@, ok),
    {
        self.interrupted = !ok;
        self.activity_set = ok;
    }
}

/// A usable snapshot that repeats every published field, with a position
/// that did not go back, is not published while nothing was interrupted.
pub proof fn lemma_identical_is_unchanged(prev: TrackedView, cur: SnapshotView)
    requires
        !metadata_changed(prev, cur),
        cur.position >= prev.position,
        verdict_of(prev, cur, false) != Verdict::Unusable,
    ensures
        verdict_of(prev, cur, false) == Verdict::Unchanged,
{
}

/// A usable snapshot whose position went back with no other change is
/// published as a replay, and the stored position follows the snapshot.
pub proof fn lemma_regression_publishes(prev: TrackedView, cur: SnapshotView, interrupted: bool)
    requires
        !metadata_changed(prev, cur),
        cur.position < prev.position,
        verdict_of(prev, cur, interrupted) != Verdict::Unusable,
    ensures
        verdict_of(prev, cur, interrupted) == Verdict::Publish(Reason::PositionRegressed),
        after_poll(prev, cur, verdict_of(prev, cur, interrupted)).position == cur.position,
{
}

/// The stored position follows every usable snapshot, whatever the verdict.
pub proof fn lemma_position_follows(prev: TrackedView, cur: SnapshotView, interrupted: bool)
    ensures
        verdict_of(prev, cur, interrupted) != Verdict::Unusable ==> after_poll(
            prev,
            cur,
            verdict_of(prev, cur, interrupted),
        ).position == cur.position,
{
}

/// A snapshot whose artist, album and title are all placeholders is
/// rejected whatever was published before, and leaves the state as it was.
pub proof fn lemma_placeholders_rejected(
    prev: TrackedView,
    cur: SnapshotView,
    interrupted: bool,
    lower_artist: Seq<char>,
    lower_album: Seq<char>,
    lower_title: Seq<char>,
)
    requires
        all_placeholders(lower_artist, lower_album, lower_title),
    ensures
        verdict_given(prev, cur, interrupted, lower_artist, lower_album, lower_title)
            == Verdict::Unusable,
        after_poll(prev, cur, Verdict::Unusable) == prev,
{
}

/// Once a snapshot was published with success, the same snapshot polled
/// again is not published a second time.
pub proof fn lemma_republish_suppressed(prev: TrackedView, cur: SnapshotView)
    requires
        verdict_of(prev, cur, prev.interrupted) is Publish,
    ensures
        ({
            let v = verdict_of(prev, cur, prev.interrupted);
            let shown = settled(remembered(after_poll(prev, cur, v), cur), true);
            verdict_of(shown, cur, shown.interrupted) == Verdict::Unchanged
        }),
{
}

} // verus!
