//! Mapping a snapshot to the payload that the presence sink shows, and the
//! connection life cycle towards the sink.

use vstd::prelude::*;
use vstd::string::StringExecFns;
use vstd::string::StrSliceExecFns;
use crate::detector::{MediaSnapshot, SnapshotView, TrackedState, TrackedView};
use crate::text::{contains, lowercase, lowercase_of, occurs_in, same_text};

verus! {

/// What the state line of a payload holds.
#[derive(Clone, Copy, Debug, PartialEq, Eq, Structural)]
pub enum NamingMode {
    /// The artist's name as it is; the sink's status shows the state line.
    Artist,
    /// `by: ` and the artist's name; the sink's status shows the details.
    Track,
    /// `by: ` and the artist's name; the sink's status shows the
    /// application's name.
    Hidden,
    /// What every other label means: `by: ` and the artist's name; the
    /// sink's status shows the state line.
    Unrecognised,
}

/// Which line of the payload the sink's status shows.
#[derive(Clone, Copy, Debug, PartialEq, Eq, Structural)]
pub enum StatusDisplay {
    Name,
    State,
    Details,
}

/// What the small image next to the cover shows.
#[derive(Clone, Copy, Debug, PartialEq, Eq, Structural)]
pub enum SmallImageMode {
    Player,
    LastfmAvatar,
    Status,
    Hidden,
}

/// The kinds of action button that can be configured.
#[derive(Clone, Copy, Debug, PartialEq, Eq, Structural)]
pub enum ButtonKind {
    /// Search for the song.
    Search,
    /// The user's Last.fm profile.
    Lastfm,
    /// The user's ListenBrainz profile.
    Listenbrainz,
    /// The link that the source gives for the track.
    SourceLink,
    /// The project's own page.
    Project,
}

/// Whether the presence reads as listening or as watching.
#[derive(Clone, Copy, Debug, PartialEq, Eq, Structural)]
pub enum ActivityKind {
    Listening,
    Watching,
}

/// The naming mode that a configuration label stands for: every label
/// but `artist`, `track` and `none` is unrecognised.
pub open spec fn naming_mode_of(label: Seq<char>) -> NamingMode {
    if label == "artist"@ {
        NamingMode::Artist
    } else if label == "track"@ {
        NamingMode::Track
    } else if label == "none"@ {
        NamingMode::Hidden
    } else {
        NamingMode::Unrecognised
    }
}

/// The small-image mode that a configuration label stands for: every label
/// but `player`, `lastfmAvatar` and `none` means the play state.
pub open spec fn small_image_mode_of(label: Seq<char>) -> SmallImageMode {
    if label == "player"@ {
        SmallImageMode::Player
    } else if label == "lastfmAvatar"@ {
        SmallImageMode::LastfmAvatar
    } else if label == "none"@ {
        SmallImageMode::Hidden
    } else {
        SmallImageMode::Status
    }
}

/// The button kind that a configuration label stands for.
pub open spec fn button_kind_of(label: Seq<char>) -> Option<ButtonKind> {
    if label == "yt"@ {
        Some(ButtonKind::Search)
    } else if label == "lastfm"@ {
        Some(ButtonKind::Lastfm)
    } else if label == "listenbrainz"@ {
        Some(ButtonKind::Listenbrainz)
    } else if label == "mprisUrl"@ {
        Some(ButtonKind::SourceLink)
    } else if label == "shamelessAd"@ {
        Some(ButtonKind::Project)
    } else {
        None
    }
}

impl NamingMode {
    /// Reads a naming mode from its configuration label.
    pub fn from_label(label: &str) -> (m: NamingMode)
        ensures
            m == naming_mode_of(label@),
    {
        if same_text(label, "artist") {
            NamingMode::Artist
        } else if same_text(label, "track") {
            NamingMode::Track
        } else if same_text(label, "none") {
            NamingMode::Hidden
        } else {
            NamingMode::Unrecognised
        }
    }

    /// The line of the payload that the sink's status shows in this mode.
    pub open spec fn display(self) -> StatusDisplay {
        match self {
            NamingMode::Artist => StatusDisplay::State,
            NamingMode::Track => StatusDisplay::Details,
            NamingMode::Hidden => StatusDisplay::Name,
            NamingMode::Unrecognised => StatusDisplay::State,
        }
    }

    /// The line of the payload that the sink's status shows in this mode.
    pub fn status_display(self) -> (d: StatusDisplay)
        ensures
            d == self.display(),
    {
        match self {
            NamingMode::Artist => StatusDisplay::State,
            NamingMode::Track => StatusDisplay::Details,
            NamingMode::Hidden => StatusDisplay::Name,
            NamingMode::Unrecognised => StatusDisplay::State,
        }
    }
}

impl SmallImageMode {
    /// Reads a small-image mode from its configuration label.
    pub fn from_label(label: &str) -> (m: SmallImageMode)
        ensures
            m == small_image_mode_of(label@),
    {
        if same_text(label, "player") {
            SmallImageMode::Player
        } else if same_text(label, "lastfmAvatar") {
            SmallImageMode::LastfmAvatar
        } else if same_text(label, "none") {
            SmallImageMode::Hidden
        } else {
            SmallImageMode::Status
        }
    }
}

impl ButtonKind {
    /// Reads a button kind from its configuration label.
    pub fn from_label(label: &str) -> (k: Option<ButtonKind>)
        ensures
            k == button_kind_of(label@),
    {
        if same_text(label, "yt") {
            Some(ButtonKind::Search)
        } else if same_text(label, "lastfm") {
            Some(ButtonKind::Lastfm)
        } else if same_text(label, "listenbrainz") {
            Some(ButtonKind::Listenbrainz)
        } else if same_text(label, "mprisUrl") {
            Some(ButtonKind::SourceLink)
        } else if same_text(label, "shamelessAd") {
            Some(ButtonKind::Project)
        } else {
            None
        }
    }
}

/// What `url_escape::encode_component` returns for the text `s`.
pub uninterp spec fn component_encoded(s: Seq<char>) -> Seq<char>;

/// Calls `url_escape::encode_component`, which percent-encodes every byte of
/// the text that may not stand in a URL component. The result depends on the
/// characters of `text` alone; the contract only names it.
#[verifier::external_body]
pub(crate) fn encode_component(text: &str) -> (r: String)
    ensures
        r@ == component_encoded(text@),
{
    url_escape::encode_component(text).into_owned()
}

/// A line as the sink takes it: the sink refuses lines of fewer than two
/// characters, so a blank is added to a shorter one.
pub open spec fn padded_of(s: Seq<char>) -> Seq<char> {
    if s.len() > 1 {
        s
    } else {
        s + " "@
    }
}

/// The line `s`, with a blank added where it has fewer than two characters.
pub fn padded(s: &str) -> (r: String)
    ensures
        r@ == padded_of(s@),
{
    if s.unicode_len() > 1 {
        String::from_str(s)
    } else {
        String::from_str(s).concat(" ")
    }
}

/// The state line for `artist` in the given naming mode.
pub open spec fn state_line_of(artist: Seq<char>, naming: NamingMode) -> Seq<char> {
    match naming {
        NamingMode::Artist => padded_of(artist),
        _ => "by: "@ + artist,
    }
}

/// The state line for `artist` in the given naming mode.
pub fn state_line(artist: &str, naming: NamingMode) -> (r: String)
    ensures
        r@ == state_line_of(artist@, naming),
{
    match naming {
        NamingMode::Artist => padded(artist),
        _ => String::from_str("by: ").concat(artist),
    }
}

/// A state line that only says that the artist is unknown is left out on a
/// video source. `lower_line` is the state line in lower case.
pub open spec fn state_shown(lower_line: Seq<char>, is_video: bool) -> bool {
    !(is_video && (lower_line == "unknown artist"@ || lower_line == "by: unknown artist"@))
}

/// Is the state line, given in lower case, shown at all?
pub fn is_state_shown(lower_line: &str, is_video: bool) -> (b: bool)
    ensures
        b == state_shown(lower_line@, is_video),
{
    !(is_video && (same_text(lower_line, "unknown artist") || same_text(
        lower_line,
        "by: unknown artist",
    )))
}

/// What the user configured about the payload.
#[derive(Debug)]
pub struct PresenceConfig {
    pub naming: NamingMode,
    pub small_image: SmallImageMode,
    /// The buttons asked for, in order of preference.
    pub buttons: Vec<ButtonKind>,
    pub hide_album_name: bool,
    /// Artwork that the source itself names may be shown.
    pub native_art_allowed: bool,
    /// The user's name at Last.fm; empty where none is configured.
    pub lastfm_name: String,
    /// The user's name at ListenBrainz; empty where none is configured.
    pub listenbrainz_name: String,
    /// The address of the user's Last.fm avatar; empty where none is known.
    pub lastfm_avatar: String,
}

/// Mathematical model of a `PresenceConfig`.
pub struct ConfigView {
    pub naming: NamingMode,
    pub small_image: SmallImageMode,
    pub buttons: Seq<ButtonKind>,
    pub hide_album_name: bool,
    pub native_art_allowed: bool,
    pub lastfm_name: Seq<char>,
    pub listenbrainz_name: Seq<char>,
    pub lastfm_avatar: Seq<char>,
}

impl View for PresenceConfig {
    type V = ConfigView;

    open spec fn view(&self) -> ConfigView {
        ConfigView {
            naming: self.naming,
            small_image: self.small_image,
            buttons: self.buttons@,
            hide_album_name: self.hide_album_name,
            native_art_allowed: self.native_art_allowed,
            lastfm_name: self.lastfm_name@,
            listenbrainz_name: self.listenbrainz_name@,
            lastfm_avatar: self.lastfm_avatar@,
        }
    }
}

/// The tracked source as the payload names it.
#[derive(Debug)]
pub struct SourceIdentity {
    /// The name of the source's icon at the sink.
    pub player_id: String,
    /// The source's name for people.
    pub player_name: String,
    /// The source plays video, so the presence reads as watching.
    pub is_video: bool,
}

/// Mathematical model of a `SourceIdentity`.
pub struct IdentityView {
    pub player_id: Seq<char>,
    pub player_name: Seq<char>,
    pub is_video: bool,
}

impl View for SourceIdentity {
    type V = IdentityView;

    open spec fn view(&self) -> IdentityView {
        IdentityView {
            player_id: self.player_id@,
            player_name: self.player_name@,
            is_video: self.is_video,
        }
    }
}

/// An image with the caption shown over it.
#[derive(Debug)]
pub struct CaptionedImage {
    pub image: String,
    pub text: String,
}

/// Mathematical model of a `CaptionedImage`.
pub struct CaptionedView {
    pub image: Seq<char>,
    pub text: Seq<char>,
}

impl View for CaptionedImage {
    type V = CaptionedView;

    open spec fn view(&self) -> CaptionedView {
        CaptionedView { image: self.image@, text: self.text@ }
    }
}

/// The model of an image that may be absent.
pub open spec fn captioned_view(c: Option<CaptionedImage>) -> Option<CaptionedView> {
    match c {
        Some(i) => Some(i@),
        None => None,
    }
}

/// The name of the placeholder shown where no artwork was found.
pub open spec fn missing_cover() -> Seq<char> {
    "missing-cover"@
}

/// Does `url` stand for "no artwork": is it empty or the placeholder?
pub open spec fn lacks_artwork(url: Seq<char>) -> bool {
    url.len() == 0 || url == missing_cover()
}

/// Does `url` stand for "no artwork"?
pub fn is_missing(url: &str) -> (b: bool)
    ensures
        b == lacks_artwork(url@),
{
    url.is_empty() || same_text(url, "missing-cover")
}

/// The large image: the artwork, or the placeholder where there is none.
pub open spec fn large_image_of(artwork: Seq<char>) -> Seq<char> {
    if lacks_artwork(artwork) {
        missing_cover()
    } else {
        artwork
    }
}

/// The large image: the artwork, or the placeholder where there is none.
pub fn large_image(artwork: &str) -> (r: String)
    ensures
        r@ == large_image_of(artwork@),
{
    if is_missing(artwork) {
        String::from_str("missing-cover")
    } else {
        String::from_str(artwork)
    }
}

/// The word for the play state.
pub open spec fn status_text_of(is_playing: bool) -> Seq<char> {
    if is_playing {
        "playing"@
    } else {
        "paused"@
    }
}

/// The word for the play state.
pub fn status_text(is_playing: bool) -> (r: String)
    ensures
        r@ == status_text_of(is_playing),
{
    if is_playing {
        String::from_str("playing")
    } else {
        String::from_str("paused")
    }
}

/// The caption of the avatar: the user's name and ` on Last.fm`, or nothing
/// where no name is configured.
pub open spec fn avatar_caption_of(lastfm_name: Seq<char>) -> Seq<char> {
    if lastfm_name.len() > 0 {
        lastfm_name + " on Last.fm"@
    } else {
        Seq::empty()
    }
}

/// The small image. While playback is not active it is the play state
/// whatever was configured. Otherwise it follows the mode: the source's
/// icon (or the video site's where the artwork comes from it and the
/// source's own artwork is allowed), the avatar where one is known, the play
/// state, or nothing.
pub open spec fn small_image_of(
    cfg: ConfigView,
    source: IdentityView,
    is_playing: bool,
    large: Seq<char>,
) -> Option<CaptionedView> {
    if !is_playing {
        Some(CaptionedView { image: status_text_of(false), text: status_text_of(false) })
    } else {
        match cfg.small_image {
            SmallImageMode::Player => if cfg.native_art_allowed && occurs_in(large, "ytimg.com/"@) {
                Some(CaptionedView { image: "youtube"@, text: "YouTube"@ })
            } else {
                Some(CaptionedView { image: source.player_id, text: source.player_name })
            },
            SmallImageMode::LastfmAvatar => if cfg.lastfm_avatar.len() > 0 {
                Some(
                    CaptionedView {
                        image: cfg.lastfm_avatar,
                        text: avatar_caption_of(cfg.lastfm_name),
                    },
                )
            } else {
                None
            },
            SmallImageMode::Hidden => None,
            SmallImageMode::Status => Some(
                CaptionedView { image: status_text_of(true), text: status_text_of(true) },
            ),
        }
    }
}

/// The small image for a payload whose large image is `large`.
pub fn small_image(
    cfg: &PresenceConfig,
    source: &SourceIdentity,
    is_playing: bool,
    large: &str,
) -> (r: Option<CaptionedImage>)
    ensures
        captioned_view(r) == small_image_of(cfg@, source@, is_playing, large@),
{
    if !is_playing {
        return Some(CaptionedImage { image: status_text(false), text: status_text(false) });
    }
    match cfg.small_image {
        SmallImageMode::Player => {
            if cfg.native_art_allowed && contains(large, "ytimg.com/") {
                Some(
                    CaptionedImage {
                        image: String::from_str("youtube"),
                        text: String::from_str("YouTube"),
                    },
                )
            } else {
                Some(
                    CaptionedImage {
                        image: source.player_id.clone(),
                        text: source.player_name.clone(),
                    },
                )
            }
        },
        SmallImageMode::LastfmAvatar => {
            if !cfg.lastfm_avatar.as_str().is_empty() {
                let caption = if !cfg.lastfm_name.as_str().is_empty() {
                    cfg.lastfm_name.clone().concat(" on Last.fm")
                } else {
                    String::new()
                };
                Some(CaptionedImage { image: cfg.lastfm_avatar.clone(), text: caption })
            } else {
                None
            }
        },
        SmallImageMode::Hidden => None,
        SmallImageMode::Status => Some(
            CaptionedImage { image: status_text(true), text: status_text(true) },
        ),
    }
}

/// The times that the sink counts from and to, in seconds since the epoch.
#[derive(Clone, Copy, Debug, PartialEq, Eq)]
pub struct Timestamps {
    pub start: Option<i64>,
    pub end: Option<i64>,
}

/// The source tells where in the track it is and how long the track is.
pub open spec fn has_progress(cur: SnapshotView) -> bool {
    cur.position_known && cur.duration > 0
}

/// The times of a payload made at `now` can be written as signed 64-bit
/// seconds, and the track did not start before the epoch.
pub open spec fn timestamps_fit(now: nat, cur: SnapshotView) -> bool {
    &&& now <= i64::MAX
    &&& has_progress(cur) ==> cur.position <= now && now - cur.position + cur.duration <= i64::MAX
}

/// The times of a payload made at `now`. Where the source tells its
/// progress, the start is `now` less the position, and while it plays the
/// end is the start plus the duration. Where it does not, only an end is
/// given, equal to `now`: an anchor for the time elapsed.
pub open spec fn timestamps_of(now: nat, cur: SnapshotView) -> Timestamps {
    if has_progress(cur) {
        Timestamps {
            start: Some((now - cur.position) as i64),
            end: if cur.is_playing {
                Some((now - cur.position + cur.duration) as i64)
            } else {
                None
            },
        }
    } else {
        Timestamps { start: None, end: Some(now as i64) }
    }
}

/// Can the times of a payload made at `now` be written down?
pub fn timestamps_representable(now: u64, cur: &MediaSnapshot) -> (b: bool)
    ensures
        b == timestamps_fit(now as nat, cur@),
{
    let max: u64 = 0x7fff_ffff_ffff_ffff;
    if now > max {
        return false;
    }
    if cur.position_known && cur.duration > 0 {
        cur.position <= now && cur.duration <= max - (now - cur.position)
    } else {
        true
    }
}

/// The times of a payload made at `now`.
pub fn timestamps(now: u64, cur: &MediaSnapshot) -> (t: Timestamps)
    requires
        timestamps_fit(now as nat, cur@),
    ensures
        t == timestamps_of(now as nat, cur@),
{
    if cur.position_known && cur.duration > 0 {
        let start: u64 = now - cur.position;
        let end = if cur.is_playing {
            Some((start + cur.duration) as i64)
        } else {
            None
        };
        Timestamps { start: Some(start as i64), end }
    } else {
        Timestamps { start: None, end: Some(now as i64) }
    }
}

/// A button of this kind can be made: a profile button needs the profile's
/// name, the others need nothing.
pub open spec fn kind_eligible(kind: ButtonKind, cfg: ConfigView) -> bool {
    match kind {
        ButtonKind::Lastfm => cfg.lastfm_name.len() > 0,
        ButtonKind::Listenbrainz => cfg.listenbrainz_name.len() > 0,
        _ => true,
    }
}

/// Can a button of this kind be made?
pub fn is_kind_eligible(kind: ButtonKind, cfg: &PresenceConfig) -> (b: bool)
    ensures
        b == kind_eligible(kind, cfg@),
{
    match kind {
        ButtonKind::Lastfm => !cfg.lastfm_name.as_str().is_empty(),
        ButtonKind::Listenbrainz => !cfg.listenbrainz_name.as_str().is_empty(),
        _ => true,
    }
}

/// `i` is the position of the first configured kind that can be made.
pub open spec fn is_first_pick(cfg: ConfigView, i: int) -> bool {
    &&& 0 <= i < cfg.buttons.len()
    &&& kind_eligible(cfg.buttons[i], cfg)
    &&& forall|k: int| 0 <= k < i ==> !kind_eligible(#[trigger] cfg.buttons[k], cfg)
}

/// A kind that can stand second after the kind at `i`: it can be made and
/// is another kind.
pub open spec fn fits_second(cfg: ConfigView, i: int, kind: ButtonKind) -> bool {
    kind_eligible(kind, cfg) && kind != cfg.buttons[i]
}

/// `j` is the position of the first kind after `i` that can stand second.
pub open spec fn is_second_pick(cfg: ConfigView, i: int, j: int) -> bool {
    &&& 0 <= i < j < cfg.buttons.len()
    &&& fits_second(cfg, i, cfg.buttons[j])
    &&& forall|k: int| i < k < j ==> !fits_second(cfg, i, #[trigger] cfg.buttons[k])
}

/// The kinds of the buttons shown, at most two: the first configured kind
/// that can be made, then the first after it that can be made and is not
/// the same kind.
pub open spec fn picked_kinds(cfg: ConfigView) -> Seq<ButtonKind> {
    if exists|i: int| is_first_pick(cfg, i) {
        let i = choose|i: int| is_first_pick(cfg, i);
        if exists|j: int| is_second_pick(cfg, i, j) {
            let j = choose|j: int| is_second_pick(cfg, i, j);
            seq![cfg.buttons[i], cfg.buttons[j]]
        } else {
            seq![cfg.buttons[i]]
        }
    } else {
        Seq::empty()
    }
}

/// There is at most one first pick.
pub proof fn lemma_first_pick_unique(cfg: ConfigView, a: int, b: int)
    requires
        is_first_pick(cfg, a),
        is_first_pick(cfg, b),
    ensures
        a == b,
{
    if a < b {
        assert(!kind_eligible(cfg.buttons[a], cfg));
    } else if b < a {
        assert(!kind_eligible(cfg.buttons[b], cfg));
    }
}

/// There is at most one second pick after a given first.
pub proof fn lemma_second_pick_unique(cfg: ConfigView, i: int, a: int, b: int)
    requires
        is_second_pick(cfg, i, a),
        is_second_pick(cfg, i, b),
    ensures
        a == b,
{
    if a < b {
        assert(!fits_second(cfg, i, cfg.buttons[a]));
    } else if b < a {
        assert(!fits_second(cfg, i, cfg.buttons[b]));
    }
}

/// The kinds of the buttons to show.
pub fn pick_buttons(cfg: &PresenceConfig) -> (kinds: Vec<ButtonKind>)
    ensures
        kinds@ == picked_kinds(cfg@),
        kinds.len() <= 2,
{
    let mut kinds: Vec<ButtonKind> = Vec::new();
    let n: usize = cfg.buttons.len();
    let mut i: usize = 0;
    while i < n && !is_kind_eligible(cfg.buttons[i], cfg)
        invariant
            n == cfg.buttons.len(),
            i <= n,
            forall|k: int| 0 <= k < i ==> !kind_eligible(#[trigger] cfg@.buttons[k], cfg@),
        decreases n - i,
    {
        i += 1;
    }
    if i == n {
        assert forall|k: int| !is_first_pick(cfg@, k) by {}
        assert(kinds@ =~= picked_kinds(cfg@));
        return kinds;
    }
    let first: ButtonKind = cfg.buttons[i];
    proof {
        assert(is_first_pick(cfg@, i as int));
        lemma_first_pick_unique(cfg@, i as int, choose|k: int| is_first_pick(cfg@, k));
    }
    kinds.push(first);
    let mut j: usize = i + 1;
    while j < n && !(is_kind_eligible(cfg.buttons[j], cfg) && cfg.buttons[j] != first)
        invariant
            n == cfg.buttons.len(),
            i < j <= n,
            first == cfg@.buttons[i as int],
            forall|k: int| i < k < j ==> !fits_second(cfg@, i as int, #[trigger] cfg@.buttons[k]),
        decreases n - j,
    {
        j += 1;
    }
    if j == n {
        assert forall|k: int| !is_second_pick(cfg@, i as int, k) by {}
        assert(kinds@ =~= picked_kinds(cfg@));
        return kinds;
    }
    proof {
        assert(is_second_pick(cfg@, i as int, j as int));
        lemma_second_pick_unique(
            cfg@,
            i as int,
            j as int,
            choose|k: int| is_second_pick(cfg@, i as int, k),
        );
    }
    kinds.push(cfg.buttons[j]);
    assert(kinds@ =~= picked_kinds(cfg@));
    kinds
}

/// An action button: what it says and where it leads.
#[derive(Debug)]
pub struct Button {
    pub label: String,
    pub url: String,
}

/// Mathematical model of a `Button`.
pub struct ButtonView {
    pub label: Seq<char>,
    pub url: Seq<char>,
}

impl View for Button {
    type V = ButtonView;

    open spec fn view(&self) -> ButtonView {
        ButtonView { label: self.label@, url: self.url@ }
    }
}

/// The models of a sequence of buttons.
pub open spec fn button_views(v: Seq<Button>) -> Seq<ButtonView> {
    Seq::new(v.len(), |i: int| v[i]@)
}

/// The addresses that buttons and the details line lead to.
#[derive(Debug)]
pub struct Links {
    pub search: String,
    pub lastfm: String,
    pub listenbrainz: String,
}

/// Mathematical model of `Links`.
pub struct LinksView {
    pub search: Seq<char>,
    pub lastfm: Seq<char>,
    pub listenbrainz: Seq<char>,
}

impl View for Links {
    type V = LinksView;

    open spec fn view(&self) -> LinksView {
        LinksView { search: self.search@, lastfm: self.lastfm@, listenbrainz: self.listenbrainz@ }
    }
}

/// What a song is searched by: artist, `" - "`, title.
pub open spec fn song_name_of(cur: SnapshotView) -> Seq<char> {
    cur.artist + " - "@ + cur.title
}

/// The addresses made from the song's name and the two profile names, each
/// already encoded for use in an address.
pub open spec fn links_given(
    enc_song: Seq<char>,
    enc_lastfm: Seq<char>,
    enc_listenbrainz: Seq<char>,
) -> LinksView {
    LinksView {
        search: "https://www.youtube.com/results?search_query="@ + enc_song,
        lastfm: "https://www.last.fm/user/"@ + enc_lastfm,
        listenbrainz: "https://listenbrainz.org/user/"@ + enc_listenbrainz + "/"@,
    }
}

impl Links {
    /// The addresses made from three encoded texts.
    pub fn from_encoded(enc_song: &str, enc_lastfm: &str, enc_listenbrainz: &str) -> (l: Links)
        ensures
            l@ == links_given(enc_song@, enc_lastfm@, enc_listenbrainz@),
    {
        Links {
            search: String::from_str("https://www.youtube.com/results?search_query=").concat(
                enc_song,
            ),
            lastfm: String::from_str("https://www.last.fm/user/").concat(enc_lastfm),
            listenbrainz: String::from_str("https://listenbrainz.org/user/").concat(
                enc_listenbrainz,
            ).concat("/"),
        }
    }
}

/// The button that searches for the song.
pub open spec fn search_button(links: LinksView) -> ButtonView {
    ButtonView { label: "Search this song on YouTube"@, url: links.search }
}

/// The button of the given kind. A source link without an address from the
/// source becomes a search button.
pub open spec fn button_of(
    kind: ButtonKind,
    links: LinksView,
    track_url: Seq<char>,
    is_video: bool,
) -> ButtonView {
    match kind {
        ButtonKind::Search => search_button(links),
        ButtonKind::Lastfm => ButtonView { label: "Last.fm profile"@, url: links.lastfm },
        ButtonKind::Listenbrainz => ButtonView {
            label: "Listenbrainz profile"@,
            url: links.listenbrainz,
        },
        ButtonKind::SourceLink => if track_url.len() == 0 {
            search_button(links)
        } else if is_video {
            ButtonView { label: "Watch Now"@, url: track_url }
        } else {
            ButtonView { label: "Play Now"@, url: track_url }
        },
        ButtonKind::Project => ButtonView {
            label: "Get This RPC"@,
            url: "https://github.com/patryk-ku/music-discord-rpc"@,
        },
    }
}

/// The buttons of the given kinds, in their order.
pub open spec fn buttons_of(
    kinds: Seq<ButtonKind>,
    links: LinksView,
    track_url: Seq<char>,
    is_video: bool,
) -> Seq<ButtonView> {
    Seq::new(kinds.len(), |i: int| button_of(kinds[i], links, track_url, is_video))
}

/// Makes the button of the given kind.
pub fn render_button(
    kind: ButtonKind,
    links: &Links,
    track_url: &str,
    is_video: bool,
) -> (b: Button)
    ensures
        b@ == button_of(kind, links@, track_url@, is_video),
{
    match kind {
        ButtonKind::Search => Button {
            label: String::from_str("Search this song on YouTube"),
            url: links.search.clone(),
        },
        ButtonKind::Lastfm => Button {
            label: String::from_str("Last.fm profile"),
            url: links.lastfm.clone(),
        },
        ButtonKind::Listenbrainz => Button {
            label: String::from_str("Listenbrainz profile"),
            url: links.listenbrainz.clone(),
        },
        ButtonKind::SourceLink => {
            if track_url.is_empty() {
                Button {
                    label: String::from_str("Search this song on YouTube"),
                    url: links.search.clone(),
                }
            } else if is_video {
                Button { label: String::from_str("Watch Now"), url: String::from_str(track_url) }
            } else {
                Button { label: String::from_str("Play Now"), url: String::from_str(track_url) }
            }
        },
        ButtonKind::Project => Button {
            label: String::from_str("Get This RPC"),
            url: String::from_str("https://github.com/patryk-ku/music-discord-rpc"),
        },
    }
}

/// Makes the buttons of the given kinds, in their order.
pub fn render_buttons(
    kinds: &Vec<ButtonKind>,
    links: &Links,
    track_url: &str,
    is_video: bool,
) -> (out: Vec<Button>)
    ensures
        button_views(out@) == buttons_of(kinds@, links@, track_url@, is_video),
{
    let mut out: Vec<Button> = Vec::new();
    let mut i: usize = 0;
    while i < kinds.len()
        invariant
            i <= kinds.len(),
            out.len() == i,
            forall|k: int|
                0 <= k < i ==> (#[trigger] out@[k])@ == button_of(
                    kinds@[k],
                    links@,
                    track_url@,
                    is_video,
                ),
        decreases kinds.len() - i,
    {
        out.push(render_button(kinds[i], links, track_url, is_video));
        i += 1;
    }
    assert(button_views(out@) =~= buttons_of(kinds@, links@, track_url@, is_video));
    out
}

/// What is sent to the sink for one snapshot.
#[derive(Debug)]
pub struct Payload {
    pub details: String,
    pub details_url: String,
    pub state: Option<String>,
    pub large_image: String,
    pub large_text: Option<String>,
    pub small: Option<CaptionedImage>,
    pub kind: ActivityKind,
    pub display: StatusDisplay,
    pub timestamps: Timestamps,
    pub buttons: Vec<Button>,
}

/// Mathematical model of a `Payload`.
pub struct PayloadView {
    pub details: Seq<char>,
    pub details_url: Seq<char>,
    pub state: Option<Seq<char>>,
    pub large_image: Seq<char>,
    pub large_text: Option<Seq<char>>,
    pub small: Option<CaptionedView>,
    pub kind: ActivityKind,
    pub display: StatusDisplay,
    pub timestamps: Timestamps,
    pub buttons: Seq<ButtonView>,
}

/// The text of a string that may be absent.
pub open spec fn text_view(o: Option<String>) -> Option<Seq<char>> {
    match o {
        Some(s) => Some(s@),
        None => None,
    }
}

impl View for Payload {
    type V = PayloadView;

    open spec fn view(&self) -> PayloadView {
        PayloadView {
            details: self.details@,
            details_url: self.details_url@,
            state: text_view(self.state),
            large_image: self.large_image@,
            large_text: text_view(self.large_text),
            small: captioned_view(self.small),
            kind: self.kind,
            display: self.display,
            timestamps: self.timestamps,
            buttons: button_views(self.buttons@),
        }
    }
}

/// The payload for the snapshot `cur` of `source`, made at `now` with the
/// artwork `artwork`, given the state line in lower case and the song's
/// name and the two profile names encoded for use in an address.
pub open spec fn payload_given(
    cur: SnapshotView,
    source: IdentityView,
    cfg: ConfigView,
    artwork: Seq<char>,
    now: nat,
    lower_line: Seq<char>,
    enc_song: Seq<char>,
    enc_lastfm: Seq<char>,
    enc_listenbrainz: Seq<char>,
) -> PayloadView {
    let links = links_given(enc_song, enc_lastfm, enc_listenbrainz);
    let large = large_image_of(artwork);
    PayloadView {
        details: padded_of(cur.title),
        details_url: links.search,
        state: if state_shown(lower_line, source.is_video) {
            Some(state_line_of(cur.artist, cfg.naming))
        } else {
            None
        },
        large_image: large,
        large_text: if cfg.hide_album_name {
            None
        } else {
            Some("album: "@ + cur.album)
        },
        small: small_image_of(cfg, source, cur.is_playing, large),
        kind: if source.is_video {
            ActivityKind::Watching
        } else {
            ActivityKind::Listening
        },
        display: cfg.naming.display(),
        timestamps: timestamps_of(now, cur),
        buttons: buttons_of(picked_kinds(cfg), links, cur.track_url, source.is_video),
    }
}

/// The payload for the snapshot `cur` of `source`, made at `now` with the
/// artwork `artwork`.
pub open spec fn payload_of(
    cur: SnapshotView,
    source: IdentityView,
    cfg: ConfigView,
    artwork: Seq<char>,
    now: nat,
) -> PayloadView {
    payload_given(
        cur,
        source,
        cfg,
        artwork,
        now,
        lowercase_of(state_line_of(cur.artist, cfg.naming)),
        component_encoded(song_name_of(cur)),
        component_encoded(cfg.lastfm_name),
        component_encoded(cfg.listenbrainz_name),
    )
}

/// Builds the payload from the snapshot and from four texts computed from
/// it beforehand: the state line in lower case, and the song's name and the
/// two profile names encoded for use in an address.
pub fn assemble(
    cur: &MediaSnapshot,
    source: &SourceIdentity,
    cfg: &PresenceConfig,
    artwork: &str,
    now: u64,
    lower_line: &str,
    enc_song: &str,
    enc_lastfm: &str,
    enc_listenbrainz: &str,
) -> (p: Payload)
    requires
        timestamps_fit(now as nat, cur@),
    ensures
        p@ == payload_given(
            cur@,
            source@,
            cfg@,
            artwork@,
            now as nat,
            lower_line@,
            enc_song@,
            enc_lastfm@,
            enc_listenbrainz@,
        ),
{
    let links = Links::from_encoded(enc_song, enc_lastfm, enc_listenbrainz);
    let large = large_image(artwork);
    let state = if is_state_shown(lower_line, source.is_video) {
        Some(state_line(cur.artist.as_str(), cfg.naming))
    } else {
        None
    };
    let large_text = if cfg.hide_album_name {
        None
    } else {
        Some(String::from_str("album: ").concat(cur.album.as_str()))
    };
    let small = small_image(cfg, source, cur.is_playing, large.as_str());
    let kinds = pick_buttons(cfg);
    let buttons = render_buttons(&kinds, &links, cur.track_url.as_str(), source.is_video);
    Payload {
        details: padded(cur.title.as_str()),
        details_url: links.search.clone(),
        state,
        large_image: large,
        large_text,
        small,
        kind: if source.is_video {
            ActivityKind::Watching
        } else {
            ActivityKind::Listening
        },
        display: cfg.naming.status_display(),
        timestamps: timestamps(now, cur),
        buttons,
    }
}

/// What a song is searched by: artist, `" - "`, title.
pub fn song_name(cur: &MediaSnapshot) -> (r: String)
    ensures
        r@ == song_name_of(cur@),
{
    cur.artist.clone().concat(" - ").concat(cur.title.as_str())
}

/// Builds the payload for the snapshot `cur` of `source`, made at `now`
/// with the artwork `artwork`.
pub fn build_payload(
    cur: &MediaSnapshot,
    source: &SourceIdentity,
    cfg: &PresenceConfig,
    artwork: &str,
    now: u64,
) -> (p: Payload)
    requires
        timestamps_fit(now as nat, cur@),
    ensures
        p@ == payload_of(cur@, source@, cfg@, artwork@, now as nat),
{
    let line = state_line(cur.artist.as_str(), cfg.naming);
    let lower_line = lowercase(line.as_str());
    let song = song_name(cur);
    let enc_song = encode_component(song.as_str());
    let enc_lastfm = encode_component(cfg.lastfm_name.as_str());
    let enc_listenbrainz = encode_component(cfg.listenbrainz_name.as_str());
    assemble(
        cur,
        source,
        cfg,
        artwork,
        now,
        lower_line.as_str(),
        enc_song.as_str(),
        enc_lastfm.as_str(),
        enc_listenbrainz.as_str(),
    )
}

/// Builds the payload where its times can be written down, and tells where
/// they cannot.
pub fn try_build_payload(
    cur: &MediaSnapshot,
    source: &SourceIdentity,
    cfg: &PresenceConfig,
    artwork: &str,
    now: u64,
) -> (r: Option<Payload>)
    ensures
        r.is_some() == timestamps_fit(now as nat, cur@),
        r matches Some(p) ==> p@ == payload_of(cur@, source@, cfg@, artwork@, now as nat),
{
    if timestamps_representable(now, cur) {
        Some(build_payload(cur, source, cfg, artwork, now))
    } else {
        None
    }
}

/// While playback is not active the small image is the paused icon,
/// whatever mode was configured.
pub proof fn lemma_paused_shows_status(
    cur: SnapshotView,
    source: IdentityView,
    cfg: ConfigView,
    artwork: Seq<char>,
    now: nat,
)
    requires
        !cur.is_playing,
    ensures
        payload_of(cur, source, cfg, artwork, now).small == Some(
            CaptionedView { image: "paused"@, text: "paused"@ },
        ),
{
}

/// No payload carries more than two buttons, and two buttons are never of
/// the same configured kind.
pub proof fn lemma_buttons_bounded(cfg: ConfigView)
    ensures
        picked_kinds(cfg).len() <= 2,
        picked_kinds(cfg).len() == 2 ==> picked_kinds(cfg)[0] != picked_kinds(cfg)[1],
        forall|k: int|
            0 <= k < picked_kinds(cfg).len() ==> kind_eligible(
                #[trigger] picked_kinds(cfg)[k],
                cfg,
            ),
{
    if exists|i: int| is_first_pick(cfg, i) {
        let i = choose|i: int| is_first_pick(cfg, i);
        if exists|j: int| is_second_pick(cfg, i, j) {
            let j = choose|j: int| is_second_pick(cfg, i, j);
            assert(fits_second(cfg, i, cfg.buttons[j]));
        }
    }
}

/// Whether the transport to the sink is up.
#[derive(Clone, Copy, Debug, PartialEq, Eq, Structural)]
pub enum SinkState {
    Disconnected,
    Connected,
}

/// How the transport is to be opened.
#[derive(Clone, Copy, Debug, PartialEq, Eq, Structural)]
pub enum ConnectAction {
    /// The first opening of this presence identity.
    Connect,
    /// Every later one.
    Reconnect,
}

/// What the user is told after an attempt to open the transport.
#[derive(Clone, Copy, Debug, PartialEq, Eq, Structural)]
pub enum ConnectNotice {
    Silent,
    Connected,
    Reconnected,
    CouldNotConnect,
    CouldNotReconnect,
}

/// The connection to the sink: its state, which of the two presence
/// identities were opened before, and whether a failure was reported that
/// no success has followed yet.
#[derive(Clone, Copy, Debug, PartialEq, Eq, Structural)]
pub struct PresencePublisher {
    pub state: SinkState,
    pub audio_opened: bool,
    pub video_opened: bool,
    pub failure_notified: bool,
}

impl PresencePublisher {
    /// Was the identity for this kind of source opened before?
    pub open spec fn opened(self, is_video: bool) -> bool {
        if is_video {
            self.video_opened
        } else {
            self.audio_opened
        }
    }

    /// How the transport is to be opened for this kind of source.
    pub open spec fn action_for(self, is_video: bool) -> ConnectAction {
        if self.opened(is_video) {
            ConnectAction::Reconnect
        } else {
            ConnectAction::Connect
        }
    }

    /// What the user is told after an attempt: a success of the first
    /// opening always, a success of a later one only after a reported
    /// failure, and a failure only once in a row.
    pub open spec fn notice_after(self, is_video: bool, ok: bool) -> ConnectNotice {
        match (self.action_for(is_video), ok) {
            (ConnectAction::Connect, true) => ConnectNotice::Connected,
            (ConnectAction::Reconnect, true) => if self.failure_notified {
                ConnectNotice::Reconnected
            } else {
                ConnectNotice::Silent
            },
            (ConnectAction::Connect, false) => if self.failure_notified {
                ConnectNotice::Silent
            } else {
                ConnectNotice::CouldNotConnect
            },
            (ConnectAction::Reconnect, false) => if self.failure_notified {
                ConnectNotice::Silent
            } else {
                ConnectNotice::CouldNotReconnect
            },
        }
    }

    /// The connection after an attempt to open it.
    pub open spec fn after_attempt(self, is_video: bool, ok: bool) -> PresencePublisher {
        if ok {
            PresencePublisher {
                state: SinkState::Connected,
                audio_opened: self.audio_opened || !is_video,
                video_opened: self.video_opened || is_video,
                failure_notified: false,
            }
        } else {
            PresencePublisher {
                state: SinkState::Disconnected,
                failure_notified: true,
                ..self
            }
        }
    }

    /// A connection that was never opened.
    pub fn new() -> (p: PresencePublisher)
        ensures
            p == (PresencePublisher {
                state: SinkState::Disconnected,
                audio_opened: false,
                video_opened: false,
                failure_notified: false,
            }),
    {
        PresencePublisher {
            state: SinkState::Disconnected,
            audio_opened: false,
            video_opened: false,
            failure_notified: false,
        }
    }

    /// How the transport is to be opened for this kind of source.
    pub fn connect_action(&self, is_video: bool) -> (a: ConnectAction)
        ensures
            a == self.action_for(is_video),
    {
        let opened = if is_video {
            self.video_opened
        } else {
            self.audio_opened
        };
        if opened {
            ConnectAction::Reconnect
        } else {
            ConnectAction::Connect
        }
    }

    /// Takes down how an attempt to open the transport ended, and says what
    /// the user is told.
    pub fn connect_result(&mut self, is_video: bool, ok: bool) -> (n: ConnectNotice)
        ensures
            n == old(self).notice_after(is_video, ok),
            *final(self) == old(self).after_attempt(is_video, ok),
    {
        let action = self.connect_action(is_video);
        let notified = self.failure_notified;
        if ok {
            self.state = SinkState::Connected;
            if is_video {
                self.video_opened = true;
            } else {
                self.audio_opened = true;
            }
            self.failure_notified = false;
            match action {
                ConnectAction::Connect => ConnectNotice::Connected,
                ConnectAction::Reconnect => if notified {
                    ConnectNotice::Reconnected
                } else {
                    ConnectNotice::Silent
                },
            }
        } else {
            self.state = SinkState::Disconnected;
            self.failure_notified = true;
            if notified {
                ConnectNotice::Silent
            } else {
                match action {
                    ConnectAction::Connect => ConnectNotice::CouldNotConnect,
                    ConnectAction::Reconnect => ConnectNotice::CouldNotReconnect,
                }
            }
        }
    }

    /// The transport failed: the handle is given up, and the next cycle
    /// opens it anew.
    pub fn transport_failed(&mut self)
        ensures
            *final(self) == (PresencePublisher { state: SinkState::Disconnected, ..*old(self) }),
    {
        self.state = SinkState::Disconnected;
    }

    /// Forgets a reported failure, so that the next one is reported again.
    pub fn forget_failure(&mut self)
        ensures
            *final(self) == (PresencePublisher { failure_notified: false, ..*old(self) }),
    {
        self.failure_notified = false;
    }
}

/// The session once the presence is cleared.
pub open spec fn cleared(s: TrackedView) -> TrackedView {
    TrackedView { activity_set: false, ..s }
}

/// Clears the presence: says whether the sink is to be told (only where it
/// shows a presence), and takes down that it shows none.
pub fn clear(session: &mut TrackedState) -> (tell_sink: bool)
    ensures
        tell_sink == old(session).activity_set,
        final(session)@ == cleared(old(session)@),
{
    let shown = session.activity_set;
    session.activity_set = false;
    shown
}

/// Clearing twice in a row tells the sink at most once: after a clear the
/// session shows no presence, so the next clear tells the sink nothing.
pub proof fn lemma_clear_idempotent(s: TrackedView)
    ensures
        !cleared(s).activity_set,
        cleared(cleared(s)) == cleared(s),
{
}

/// A reconnection is announced only after a failure was announced: the
/// notice of a success is `Reconnected` only where a failure was reported
/// that no success has followed, and every failure that is not reported
/// follows one that was.
pub proof fn lemma_reconnect_notice_edge(p: PresencePublisher, is_video: bool, ok: bool)
    ensures
        p.notice_after(is_video, ok) == ConnectNotice::Reconnected ==> p.failure_notified && ok,
        !ok ==> p.after_attempt(is_video, ok).failure_notified,
        !ok && p.failure_notified ==> p.notice_after(is_video, ok) == ConnectNotice::Silent,
        ok ==> !p.after_attempt(is_video, ok).failure_notified,
{
}

} // verus!
