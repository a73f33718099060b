//! The reconciliation loop as a machine: it takes what the outside world
//! answered and says what to do next. The caller performs the request and
//! hands the answer back.

use vstd::prelude::*;
use crate::artwork::{
    ArtworkResolver, LookupOutcome, Request, ResolveStep, Stage, StepView, first_step,
    stage_after, step_after, store_follows, stripped_album, writes,
};
use crate::detector::{
    MediaSnapshot, SnapshotView, TrackedState, TrackedView, Verdict, after_poll,
    album_identity, album_identity_of, metadata_changed, remembered, settled, verdict_of,
};
use crate::publisher::{
    ConnectAction, ConnectNotice, Payload, PresenceConfig, PresencePublisher, SinkState,
    SourceIdentity, IdentityView, build_payload, clear, cleared, payload_of, timestamps_fit,
};
use crate::selector::{
    PlayerInfo, PlayerView, candidates_of, eligible, is_selection, player_views, select,
    should_reselect, texts, worth_switching_to,
};
use crate::text::{same_text, trimmed_of};

verus! {

/// What the user was last told about the search for a source.
#[derive(Clone, Copy, Debug, PartialEq, Eq, Structural)]
pub enum SourceNotice {
    /// Nothing yet.
    Unknown,
    /// That a source was found.
    Found,
    /// That none was found.
    Missing,
}

/// The notices about the provider and the source. Each is given when its
/// condition sets in and not again while the condition lasts.
#[derive(Clone, Copy, Debug, PartialEq, Eq, Structural)]
pub struct Notifier {
    /// The user was told that the provider cannot be reached.
    pub provider_down: bool,
    pub source: SourceNotice,
}

impl Notifier {
    /// The notifier once the user knows that the provider cannot be
    /// reached.
    pub open spec fn after_unreachable(self) -> Notifier {
        Notifier { provider_down: true, ..self }
    }

    /// The notifier once the provider has answered.
    pub open spec fn after_reached(self) -> Notifier {
        Notifier { provider_down: false, ..self }
    }

    /// The notifier once the user knows how the search for a source ended.
    pub open spec fn after_search(self, found: bool) -> Notifier {
        Notifier {
            source: if found {
                SourceNotice::Found
            } else {
                SourceNotice::Missing
            },
            ..self
        }
    }

    /// Is the user told how the search for a source ended? Only where the
    /// last search ended otherwise.
    pub open spec fn tells_search(self, found: bool) -> bool {
        if found {
            self.source != SourceNotice::Found
        } else {
            self.source != SourceNotice::Missing
        }
    }

    /// A notifier that has told nothing yet.
    pub fn new() -> (n: Notifier)
        ensures
            n == (Notifier { provider_down: false, source: SourceNotice::Unknown }),
    {
        Notifier { provider_down: false, source: SourceNotice::Unknown }
    }

    /// The provider cannot be reached: tell the user unless that was told.
    pub fn provider_unreachable(&mut self) -> (tell: bool)
        ensures
            tell == !old(self).provider_down,
            *final(self) == old(self).after_unreachable(),
    {
        let tell = !self.provider_down;
        self.provider_down = true;
        tell
    }

    /// The provider answered: tell the user if its failure was told.
    pub fn provider_reached(&mut self) -> (tell: bool)
        ensures
            tell == old(self).provider_down,
            *final(self) == old(self).after_reached(),
    {
        let tell = self.provider_down;
        self.provider_down = false;
        tell
    }

    /// The search for a source ended: tell the user unless the last search
    /// ended the same way.
    pub fn search_ended(&mut self, found: bool) -> (tell: bool)
        ensures
            tell == old(self).tells_search(found),
            *final(self) == old(self).after_search(found),
    {
        let now = if found {
            SourceNotice::Found
        } else {
            SourceNotice::Missing
        };
        let tell = self.source != now;
        self.source = now;
        tell
    }
}

/// No notice is repeated while its condition lasts: a second failure of the
/// provider in a row tells nothing, its recovery is told once, and a search
/// that ends as the one before tells nothing.
pub proof fn lemma_notices_are_edge_triggered(n: Notifier, found: bool)
    ensures
        n.after_unreachable().provider_down,
        n.after_unreachable().after_unreachable() == n.after_unreachable(),
        !n.after_reached().provider_down,
        !n.after_search(found).tells_search(found),
        n.after_search(found).tells_search(!found),
{
}

/// The shortest interval between two polls, in seconds.
pub const MIN_INTERVAL: u64 = 5;

/// The interval used where none is configured, in seconds.
pub const DEFAULT_INTERVAL: u64 = 10;

/// The interval between polls: what was configured, but not under the
/// floor; the default where nothing was configured.
pub open spec fn interval_of(configured: Option<u64>) -> u64 {
    match configured {
        Some(secs) => if secs < MIN_INTERVAL {
            MIN_INTERVAL
        } else {
            secs
        },
        None => DEFAULT_INTERVAL,
    }
}

/// The interval between polls, in seconds.
pub fn effective_interval(configured: Option<u64>) -> (secs: u64)
    ensures
        secs == interval_of(configured),
        secs >= MIN_INTERVAL,
{
    match configured {
        Some(secs) => if secs < MIN_INTERVAL {
            MIN_INTERVAL
        } else {
            secs
        },
        None => DEFAULT_INTERVAL,
    }
}

/// What the user configured about the loop.
#[derive(Debug)]
pub struct LoopSettings {
    /// The patterns of the sources that may be tracked; empty where any
    /// source may.
    pub allowlist: Vec<String>,
    /// Show a presence only while the source plays.
    pub only_when_playing: bool,
    /// The names of the sources that play video.
    pub video_players: Vec<String>,
    /// Shown in place of the source's name; empty where the source's own
    /// name is shown.
    pub force_player_name: String,
    /// Used in place of the source's icon; empty where the source's own
    /// icon is used.
    pub force_player_id: String,
    /// While the tracked source does not play, look whether another one
    /// does.
    pub probe_others: bool,
}

/// Does `name` stand among `names`?
pub fn is_listed(names: &Vec<String>, name: &str) -> (b: bool)
    ensures
        b == texts(names@).contains(name@),
{
    let mut i: usize = 0;
    while i < names.len()
        invariant
            i <= names.len(),
            forall|k: int| 0 <= k < i ==> texts(names@)[k] != name@,
        decreases names.len() - i,
    {
        assert(texts(names@)[i as int] == names@[i as int]@);
        if same_text(names[i].as_str(), name) {
            return true;
        }
        i += 1;
    }
    false
}

/// The source that is tracked: its stable identifier, and how the payload
/// names it.
#[derive(Debug)]
pub struct TrackedSource {
    pub bus_name: String,
    pub identity: SourceIdentity,
}

/// Mathematical model of a `TrackedSource`.
pub struct TrackedSourceView {
    pub bus_name: Seq<char>,
    pub identity: IdentityView,
}

impl View for TrackedSource {
    type V = TrackedSourceView;

    open spec fn view(&self) -> TrackedSourceView {
        TrackedSourceView { bus_name: self.bus_name@, identity: self.identity@ }
    }
}

/// The model of a tracked source that may be absent.
pub open spec fn tracked_view(t: Option<TrackedSource>) -> Option<TrackedSourceView> {
    match t {
        Some(s) => Some(s@),
        None => None,
    }
}

/// How a player is tracked under `settings`: it plays video if its name
/// stands among the video sources, and a forced name or icon replaces its
/// own.
pub open spec fn tracked_as(p: PlayerView, settings: LoopSettings) -> TrackedSourceView {
    TrackedSourceView {
        bus_name: p.bus_name,
        identity: IdentityView {
            player_id: if settings.force_player_id@.len() > 0 {
                settings.force_player_id@
            } else {
                p.icon_id
            },
            player_name: if settings.force_player_name@.len() > 0 {
                settings.force_player_name@
            } else {
                p.identity
            },
            is_video: texts(settings.video_players@).contains(p.identity),
        },
    }
}

/// How a player is tracked under `settings`.
pub fn track(player: &PlayerInfo, settings: &LoopSettings) -> (t: TrackedSource)
    ensures
        t@ == tracked_as(player@, *settings),
{
    let player_id = if !settings.force_player_id.as_str().is_empty() {
        settings.force_player_id.clone()
    } else {
        player.icon_id.clone()
    };
    let player_name = if !settings.force_player_name.as_str().is_empty() {
        settings.force_player_name.clone()
    } else {
        player.identity.clone()
    };
    let is_video = is_listed(&settings.video_players, player.identity.as_str());
    TrackedSource {
        bus_name: player.bus_name.clone(),
        identity: SourceIdentity { player_id, player_name, is_video },
    }
}

/// What the provider answered when asked for sources.
#[derive(Debug)]
pub enum Discovery {
    /// The provider could not be reached.
    Unreachable,
    /// The source that the provider itself holds to be active, if any.
    Active(Option<PlayerInfo>),
    /// All sources that the provider knows; none where it could not list
    /// them.
    Listed(Vec<PlayerInfo>),
}

/// The players that a discovery brought.
pub open spec fn discovered(d: Discovery) -> Seq<PlayerView> {
    match d {
        Discovery::Unreachable => Seq::empty(),
        Discovery::Active(p) => match p {
            Some(player) => seq![player@],
            None => Seq::empty(),
        },
        Discovery::Listed(players) => player_views(players@),
    }
}

/// The position of the source to track among the discovered players. The
/// provider's own active source is taken as it is; among listed sources
/// the allowlist selects.
pub open spec fn choice_of(d: Discovery, allowlist: Seq<Seq<char>>) -> Option<int> {
    match d {
        Discovery::Unreachable => None,
        Discovery::Active(p) => if p is Some {
            Some(0)
        } else {
            None
        },
        Discovery::Listed(players) => {
            let cands = candidates_of(player_views(players@), allowlist);
            if exists|i: int| is_selection(cands, i) {
                Some(choose|i: int| is_selection(cands, i))
            } else {
                None
            }
        },
    }
}

/// The position of the source to track among the discovered players.
pub fn choose_source(d: &Discovery, allowlist: &Vec<String>) -> (chosen: Option<usize>)
    ensures
        match chosen {
            Some(i) => choice_of(*d, texts(allowlist@)) == Some(i as int) && i < discovered(
                *d,
            ).len(),
            None => choice_of(*d, texts(allowlist@)).is_none(),
        },
{
    match d {
        Discovery::Unreachable => None,
        Discovery::Active(p) => match p {
            Some(_) => Some(0),
            None => None,
        },
        Discovery::Listed(players) => {
            let chosen = select(players, allowlist);
            proof {
                let cands = candidates_of(player_views(players@), texts(allowlist@));
                match chosen {
                    Some(i) => {
                        let c = choose|k: int| is_selection(cands, k);
                        crate::selector::lemma_selection_unique(cands, i as int, c);
                    },
                    None => {
                        assert forall|k: int| !is_selection(cands, k) by {
                            if 0 <= k < cands.len() {
                                assert(!eligible(cands[k]));
                            }
                        }
                    },
                }
            }
            chosen
        },
    }
}

/// The discovered player at position `i`, if there is one.
pub fn player_at(d: &Discovery, i: usize) -> (p: Option<&PlayerInfo>)
    ensures
        p.is_some() == (i < discovered(*d).len()),
        p matches Some(player) ==> player@ == discovered(*d)[i as int],
{
    match d {
        Discovery::Unreachable => None,
        Discovery::Active(p) => match p {
            Some(player) => if i == 0 {
                Some(player)
            } else {
                None
            },
            None => None,
        },
        Discovery::Listed(players) => if i < players.len() {
            Some(&players[i])
        } else {
            None
        },
    }
}

/// What the user is told.
#[derive(Clone, Copy, Debug, PartialEq, Eq, Structural)]
pub enum Message {
    ProviderUnreachable,
    ProviderReached,
    SourceFound,
    /// No source at all was found.
    NoSource,
    /// No source was found that the allowlist admits.
    NoAllowlistedSource,
    /// How an attempt to open the sink ended.
    Sink(ConnectNotice),
    SnapshotUnreadable,
    Published,
    PublishFailed,
}

/// The message `m` where `tell` holds, none otherwise.
pub open spec fn said(tell: bool, m: Message) -> Seq<Message> {
    if tell {
        seq![m]
    } else {
        Seq::empty()
    }
}

/// Adds the message `m` to `messages` where `tell` holds.
pub fn say(messages: &mut Vec<Message>, tell: bool, m: Message)
    ensures
        final(messages)@ == old(messages)@ + said(tell, m),
{
    if tell {
        messages.push(m);
        assert(final(messages)@ =~= old(messages)@ + said(tell, m));
    } else {
        assert(final(messages)@ =~= old(messages)@ + said(tell, m));
    }
}

/// What the caller is to do next; it answers with the matching event.
#[derive(Debug)]
pub enum Command {
    /// Ask the provider for sources: for all of them, or for the one it
    /// holds to be active.
    Discover { list_all: bool },
    /// Open the sink for the discovered player at position `player`.
    Connect { action: ConnectAction, is_video: bool, player: usize },
    /// Read a snapshot of the tracked source.
    Poll,
    /// List all sources, to see whether another one plays.
    Probe,
    /// Ask the primary lookup provider.
    QueryPrimary { artist: String, album: String },
    /// Ask the fallback lookup provider.
    QuerySecondary { artist: String, album: String },
    /// Send the payload to the sink.
    Publish { payload: Payload },
}

/// Mathematical model of a `Command`.
pub enum CommandView {
    Discover { list_all: bool },
    Connect { action: ConnectAction, is_video: bool, player: int },
    Poll,
    Probe,
    QueryPrimary { artist: Seq<char>, album: Seq<char> },
    QuerySecondary { artist: Seq<char>, album: Seq<char> },
    Publish { payload: crate::publisher::PayloadView },
}

impl View for Command {
    type V = CommandView;

    open spec fn view(&self) -> CommandView {
        match self {
            Command::Discover { list_all } => CommandView::Discover { list_all: *list_all },
            Command::Connect { action, is_video, player } => CommandView::Connect {
                action: *action,
                is_video: *is_video,
                player: *player as int,
            },
            Command::Poll => CommandView::Poll,
            Command::Probe => CommandView::Probe,
            Command::QueryPrimary { artist, album } => CommandView::QueryPrimary {
                artist: artist@,
                album: album@,
            },
            Command::QuerySecondary { artist, album } => CommandView::QuerySecondary {
                artist: artist@,
                album: album@,
            },
            Command::Publish { payload } => CommandView::Publish { payload: payload@ },
        }
    }
}

/// What the machine answers to an event: what the user is told, what is
/// done to the sink, how many intervals to sleep, and what to do then.
#[derive(Debug)]
pub struct Reaction {
    pub messages: Vec<Message>,
    /// Clear the presence at the sink.
    pub clear_presence: bool,
    /// Close the transport to the sink.
    pub close_sink: bool,
    /// The cache took a new entry: write the store out.
    pub persist_cache: bool,
    /// The number of polling intervals to sleep before `next`.
    pub sleeps: u8,
    pub next: Command,
}

/// Mathematical model of a `Reaction`.
pub struct ReactionView {
    pub messages: Seq<Message>,
    pub clear_presence: bool,
    pub close_sink: bool,
    pub persist_cache: bool,
    pub sleeps: int,
    pub next: CommandView,
}

impl View for Reaction {
    type V = ReactionView;

    open spec fn view(&self) -> ReactionView {
        ReactionView {
            messages: self.messages@,
            clear_presence: self.clear_presence,
            close_sink: self.close_sink,
            persist_cache: self.persist_cache,
            sleeps: self.sleeps as int,
            next: self.next@,
        }
    }
}

/// Where the loop stands: which answer it waits for.
#[derive(Clone, Copy, Debug, PartialEq, Eq, Structural)]
pub enum Phase {
    /// For the sources that the provider knows.
    Acquiring,
    /// For the sink to be opened.
    Connecting,
    /// For a snapshot of the tracked source.
    Polling,
    /// For the list of sources, to see whether another one plays.
    Probing,
    /// For a lookup provider's answer.
    Resolving,
    /// For the sink's answer to a payload.
    Publishing,
}

/// A snapshot that is held while the loop waits for something else, with
/// the time at which it was read.
#[derive(Debug)]
pub struct Pending {
    pub snapshot: MediaSnapshot,
    pub now: u64,
}

/// The reconciliation loop.
pub struct Engine {
    pub settings: LoopSettings,
    pub config: PresenceConfig,
    pub session: TrackedState,
    pub publisher: PresencePublisher,
    pub resolver: ArtworkResolver,
    pub notifier: Notifier,
    pub phase: Phase,
    pub source: Option<TrackedSource>,
    pub pending: Option<Pending>,
}

impl Engine {
    /// The loop is consistent: past acquisition a source is tracked; a
    /// snapshot is held exactly while the loop probes or resolves, and its
    /// times can be written down; a lookup is open exactly while the loop
    /// resolves; the cache does not write its store out.
    pub open spec fn wf(&self) -> bool {
        &&& self.phase != Phase::Acquiring ==> self.source is Some
        &&& (self.phase == Phase::Probing || self.phase == Phase::Resolving)
            <==> self.pending is Some
        &&& self.pending matches Some(p) ==> timestamps_fit(p.now as nat, p.snapshot@)
        &&& self.phase == Phase::Resolving <==> self.resolver.stage != Stage::Idle
        &&& self.resolver.store.wf()
    }

    /// Are all sources to be listed? Only an allowlist needs them.
    pub open spec fn lists_all(&self) -> bool {
        self.settings.allowlist@.len() > 0
    }

    /// The command that asks the provider for sources.
    pub open spec fn discover(&self) -> CommandView {
        CommandView::Discover { list_all: self.lists_all() }
    }

    /// A loop at its start: nothing tracked, nothing published, the sink
    /// never opened.
    pub fn new(
        settings: LoopSettings,
        config: PresenceConfig,
        resolver: ArtworkResolver,
    ) -> (e: Engine)
        requires
            resolver.stage == Stage::Idle,
            resolver.store.wf(),
        ensures
            e.wf(),
            e.phase == Phase::Acquiring,
            e.settings == settings,
            e.config == config,
            e.resolver == resolver,
            e.session@ == crate::detector::fresh_state(),
            e.source is None,
            e.pending is None,
            e.publisher == (PresencePublisher {
                state: SinkState::Disconnected,
                audio_opened: false,
                video_opened: false,
                failure_notified: false,
            }),
            e.notifier == (Notifier { provider_down: false, source: SourceNotice::Unknown }),
    {
        Engine {
            settings,
            config,
            session: TrackedState::new(),
            publisher: PresencePublisher::new(),
            resolver,
            notifier: Notifier::new(),
            phase: Phase::Acquiring,
            source: None,
            pending: None,
        }
    }

    /// The first command of the loop, and the one that every return to
    /// acquisition leads to.
    pub fn first_command(&self) -> (c: Command)
        ensures
            c@ == self.discover(),
    {
        Command::Discover { list_all: self.settings.allowlist.len() > 0 }
    }
}

/// The loop has taken what the provider answered to the search for
/// sources.
pub open spec fn discovery_handled(
    pre: Engine,
    post: Engine,
    discovery: Discovery,
    r: ReactionView,
) -> bool {
    &&& post.settings == pre.settings
    &&& post.config == pre.config
    &&& post.resolver == pre.resolver
    &&& discovery is Unreachable ==> {
        &&& r == ReactionView {
            messages: said(!pre.notifier.provider_down, Message::ProviderUnreachable),
            clear_presence: false,
            close_sink: false,
            persist_cache: false,
            sleeps: 1,
            next: pre.discover(),
        }
        &&& post.notifier == pre.notifier.after_unreachable()
        &&& post.phase == Phase::Acquiring
        &&& post.session == pre.session
        &&& post.publisher == pre.publisher
        &&& post.source == pre.source
    }
    &&& !(discovery is Unreachable) && choice_of(
        discovery,
        texts(pre.settings.allowlist@),
    ) is None ==> {
        let tell = pre.notifier.tells_search(false);
        &&& r == ReactionView {
            messages: said(pre.notifier.provider_down, Message::ProviderReached)
                + said(
                tell,
                if pre.lists_all() {
                    Message::NoAllowlistedSource
                } else {
                    Message::NoSource
                },
            ),
            clear_presence: pre.session.activity_set,
            close_sink: false,
            persist_cache: false,
            sleeps: 1,
            next: pre.discover(),
        }
        &&& post.notifier == pre.notifier.after_reached().after_search(false)
        &&& post.phase == Phase::Acquiring
        &&& post.session@ == cleared(
            TrackedView { interrupted: true, ..pre.session@ },
        )
        &&& post.publisher == if tell {
            PresencePublisher { failure_notified: false, ..pre.publisher }
        } else {
            pre.publisher
        }
        &&& post.source == pre.source
    }
    &&& choice_of(discovery, texts(pre.settings.allowlist@)) matches Some(i) ==> {
        let src = tracked_as(discovered(discovery)[i], pre.settings);
        &&& r == ReactionView {
            messages: said(pre.notifier.provider_down, Message::ProviderReached)
                + said(pre.notifier.tells_search(true), Message::SourceFound),
            clear_presence: false,
            close_sink: false,
            persist_cache: false,
            sleeps: 0,
            next: CommandView::Connect {
                action: pre.publisher.action_for(src.identity.is_video),
                is_video: src.identity.is_video,
                player: i,
            },
        }
        &&& post.notifier == pre.notifier.after_reached().after_search(true)
        &&& post.phase == Phase::Connecting
        &&& tracked_view(post.source) == Some(src)
        &&& post.session == pre.session
        &&& post.publisher == pre.publisher
    }
}

impl Engine {
    /// The provider answered the search for sources. Where it could not be
    /// reached, or no source is to be tracked, the search is repeated after
    /// one interval; no source also interrupts the session and clears the
    /// presence. Where a source is chosen, it is tracked from now on and
    /// the sink is to be opened for it.
    pub fn on_discovery(&mut self, discovery: Discovery) -> (r: Reaction)
        requires
            old(self).wf(),
            old(self).phase == Phase::Acquiring,
        ensures
            final(self).wf(),
            discovery_handled(*old(self), *final(self), discovery, r@),
    {
        let mut messages: Vec<Message> = Vec::new();
        let list_all = self.settings.allowlist.len() > 0;
        if let Discovery::Unreachable = discovery {
            let tell = self.notifier.provider_unreachable();
            say(&mut messages, tell, Message::ProviderUnreachable);
            return Reaction {
                messages,
                clear_presence: false,
                close_sink: false,
                persist_cache: false,
                sleeps: 1,
                next: Command::Discover { list_all },
            };
        }
        let recovered = self.notifier.provider_reached();
        say(&mut messages, recovered, Message::ProviderReached);
        let chosen = choose_source(&discovery, &self.settings.allowlist);
        let found: Option<&PlayerInfo> = match chosen {
            Some(i) => player_at(&discovery, i),
            None => None,
        };
        match (chosen, found) {
            (Some(i), Some(player)) => {
                let tell = self.notifier.search_ended(true);
                say(&mut messages, tell, Message::SourceFound);
                let src = track(player, &self.settings);
                let is_video = src.identity.is_video;
                let action = self.publisher.connect_action(is_video);
                self.source = Some(src);
                self.phase = Phase::Connecting;
                Reaction {
                    messages,
                    clear_presence: false,
                    close_sink: false,
                    persist_cache: false,
                    sleeps: 0,
                    next: Command::Connect { action, is_video, player: i },
                }
            },
            _ => {
                let tell = self.notifier.search_ended(false);
                let m = if list_all {
                    Message::NoAllowlistedSource
                } else {
                    Message::NoSource
                };
                say(&mut messages, tell, m);
                if tell {
                    self.publisher.forget_failure();
                }
                self.session.interrupted = true;
                let clear_presence = clear(&mut self.session);
                Reaction {
                    messages,
                    clear_presence,
                    close_sink: false,
                    persist_cache: false,
                    sleeps: 1,
                    next: Command::Discover { list_all },
                }
            },
        }
    }
}

/// The loop has taken the sink's answer to the attempt to open it.
pub open spec fn connect_handled(pre: Engine, post: Engine, ok: bool, r: ReactionView) -> bool {
    &&& post.settings == pre.settings
    &&& post.config == pre.config
    &&& post.resolver == pre.resolver
    &&& post.notifier == pre.notifier
    &&& post.source == pre.source
    &&& ({
        let is_video = pre.source->0.identity.is_video;
        let notice = pre.publisher.notice_after(is_video, ok);
        &&& post.publisher == pre.publisher.after_attempt(is_video, ok)
        &&& r == ReactionView {
            messages: said(notice != ConnectNotice::Silent, Message::Sink(notice)),
            clear_presence: false,
            close_sink: false,
            persist_cache: false,
            sleeps: if ok {
                0
            } else {
                1
            },
            next: if ok {
                CommandView::Poll
            } else {
                pre.discover()
            },
        }
        &&& post.phase == if ok {
            Phase::Polling
        } else {
            Phase::Acquiring
        }
        &&& post.session@ == if ok && pre.publisher.action_for(is_video)
            == ConnectAction::Reconnect {
            TrackedView { interrupted: true, ..pre.session@ }
        } else {
            pre.session@
        }
    })
}

/// The loop has taken the sink's answer to a payload.
pub open spec fn publish_handled(pre: Engine, post: Engine, ok: bool, r: ReactionView) -> bool {
    &&& post.settings == pre.settings
    &&& post.config == pre.config
    &&& post.resolver == pre.resolver
    &&& post.notifier == pre.notifier
    &&& post.source == pre.source
    &&& post.session@ == settled(pre.session@, ok)
    &&& post.publisher == if ok {
        pre.publisher
    } else {
        PresencePublisher { state: SinkState::Disconnected, ..pre.publisher }
    }
    &&& post.phase == if ok {
        Phase::Polling
    } else {
        Phase::Acquiring
    }
    &&& r == (ReactionView {
        messages: seq![
            if ok {
                Message::Published
            } else {
                Message::PublishFailed
            },
        ],
        clear_presence: false,
        close_sink: !ok,
        persist_cache: false,
        sleeps: 1,
        next: if ok {
            CommandView::Poll
        } else {
            pre.discover()
        },
    })
}

impl Engine {
    /// The sink answered the attempt to open it. On success the loop polls
    /// the source, and a reopened sink shows nothing of the session, so the
    /// session counts as interrupted. On failure the search for a source is
    /// repeated after one interval.
    pub fn on_connect_result(&mut self, ok: bool) -> (r: Reaction)
        requires
            old(self).wf(),
            old(self).phase == Phase::Connecting,
        ensures
            final(self).wf(),
            connect_handled(*old(self), *final(self), ok, r@),
    {
        let is_video = match &self.source {
            Some(src) => src.identity.is_video,
            None => false,
        };
        let action = self.publisher.connect_action(is_video);
        let notice = self.publisher.connect_result(is_video, ok);
        let mut messages: Vec<Message> = Vec::new();
        say(&mut messages, notice != ConnectNotice::Silent, Message::Sink(notice));
        if ok {
            if action == ConnectAction::Reconnect {
                self.session.interrupted = true;
            }
            self.phase = Phase::Polling;
            Reaction {
                messages,
                clear_presence: false,
                close_sink: false,
                persist_cache: false,
                sleeps: 0,
                next: Command::Poll,
            }
        } else {
            self.phase = Phase::Acquiring;
            let next = self.first_command();
            Reaction {
                messages,
                clear_presence: false,
                close_sink: false,
                persist_cache: false,
                sleeps: 1,
                next,
            }
        }
    }

    /// The sink answered a payload. On success the session is settled and
    /// shown. On failure it is interrupted and not shown, the transport is
    /// closed, and the search for a source is repeated. Either way one
    /// interval passes first.
    pub fn on_publish_result(&mut self, ok: bool) -> (r: Reaction)
        requires
            old(self).wf(),
            old(self).phase == Phase::Publishing,
        ensures
            final(self).wf(),
            publish_handled(*old(self), *final(self), ok, r@),
    {
        self.session.settle(ok);
        let mut messages: Vec<Message> = Vec::new();
        if ok {
            messages.push(Message::Published);
            self.phase = Phase::Polling;
            Reaction {
                messages,
                clear_presence: false,
                close_sink: false,
                persist_cache: false,
                sleeps: 1,
                next: Command::Poll,
            }
        } else {
            messages.push(Message::PublishFailed);
            self.publisher.transport_failed();
            self.phase = Phase::Acquiring;
            let next = self.first_command();
            Reaction {
                messages,
                clear_presence: false,
                close_sink: true,
                persist_cache: false,
                sleeps: 1,
                next,
            }
        }
    }
}

/// The reaction that only lets one interval pass and polls again.
pub open spec fn poll_again() -> ReactionView {
    ReactionView {
        messages: Seq::empty(),
        clear_presence: false,
        close_sink: false,
        persist_cache: false,
        sleeps: 1,
        next: CommandView::Poll,
    }
}

/// The reaction that asks for `next` at once and does nothing else.
pub open spec fn at_once(next: CommandView) -> ReactionView {
    ReactionView {
        messages: Seq::empty(),
        clear_presence: false,
        close_sink: false,
        persist_cache: false,
        sleeps: 0,
        next,
    }
}

/// The command that carries out a step of a resolution that has not ended.
pub open spec fn query_of(step: StepView) -> CommandView {
    match step {
        StepView::QueryPrimary { artist, album } => CommandView::QueryPrimary { artist, album },
        StepView::QuerySecondary { artist, album } => CommandView::QuerySecondary {
            artist,
            album,
        },
        StepView::Done { .. } => CommandView::Poll,
    }
}

/// What a resolution for the snapshot's album is asked for.
pub open spec fn resolution_request(cur: SnapshotView) -> crate::artwork::RequestView {
    crate::artwork::RequestView {
        album_id: album_identity_of(cur.album_artist, cur.album),
        album: cur.album,
        album_artist: cur.album_artist,
        art_url: cur.art_url,
    }
}

/// Nothing but the session, the resolver, the phase and the held snapshot
/// differs between `pre` and `post`.
pub open spec fn same_surroundings(pre: Engine, post: Engine) -> bool {
    &&& post.settings == pre.settings
    &&& post.config == pre.config
    &&& post.publisher == pre.publisher
    &&& post.notifier == pre.notifier
    &&& post.source == pre.source
}

/// The loop sends the snapshot `cur` to the sink with the artwork
/// `artwork`: the session, which was `polled` before, takes the snapshot
/// down, and the payload goes out at once. Where the cache took the
/// artwork as a new entry (`wrote`), the store is to be written out.
pub open spec fn shown(
    pre: Engine,
    post: Engine,
    polled: TrackedView,
    cur: SnapshotView,
    now: nat,
    artwork: Seq<char>,
    wrote: bool,
    r: ReactionView,
) -> bool {
    &&& r == ReactionView {
        persist_cache: wrote,
        ..at_once(
            CommandView::Publish {
                payload: payload_of(cur, pre.source->0.identity@, pre.config@, artwork, now),
            },
        )
    }
    &&& post.phase == Phase::Publishing
    &&& post.pending is None
    &&& post.session@ == remembered(polled, cur)
}

/// The resolver has taken the step `step` of a resolution for `album_id`;
/// `from_cache` tells whether the step's address came from the cache.
pub open spec fn resolver_follows(
    pre: ArtworkResolver,
    post: ArtworkResolver,
    from: Stage,
    album_id: Seq<char>,
    step: StepView,
    from_cache: bool,
) -> bool {
    &&& post.config == pre.config
    &&& post.stage == stage_after(from, step)
    &&& step matches StepView::Done { url } ==> post.cover@ == url
    &&& !(step is Done) ==> post.cover == pre.cover
    &&& post.wrote == writes(pre.store, step, from_cache)
    &&& store_follows(pre.store, post.store, album_id, step, post.wrote)
}

/// The loop has judged the snapshot `cur`, read at `now`. A snapshot that
/// is unusable or changes nothing lets one interval pass. One that is
/// worth publishing goes out with the artwork of the last resolution where
/// the album is the one published last; otherwise a resolution starts,
/// and the snapshot goes out once that has ended, which may be at once.
pub open spec fn evaluated(
    pre: Engine,
    post: Engine,
    cur: MediaSnapshot,
    now: u64,
    r: ReactionView,
) -> bool {
    let v = verdict_of(pre.session@, cur@, pre.session.interrupted);
    let polled = after_poll(pre.session@, cur@, v);
    let req = resolution_request(cur@);
    &&& same_surroundings(pre, post)
    &&& if !(v is Publish) {
        &&& r == poll_again()
        &&& post.phase == Phase::Polling
        &&& post.pending is None
        &&& post.session@ == polled
        &&& post.resolver == pre.resolver
    } else if req.album_id == polled.album_id {
        &&& post.resolver == pre.resolver
        &&& shown(pre, post, polled, cur@, now as nat, pre.resolver.cover@, false, r)
    } else {
        let step = first_step(pre.resolver.store.cached(req.album_id), req, pre.resolver.config);
        &&& resolver_follows(
            pre.resolver,
            post.resolver,
            Stage::Idle,
            req.album_id,
            step,
            pre.resolver.store.cached(req.album_id) is Some,
        )
        &&& post.resolver.request@ == req
        &&& match step {
            StepView::Done { url } => shown(
                pre,
                post,
                polled,
                cur@,
                now as nat,
                url,
                post.resolver.wrote,
                r,
            ),
            _ => {
                &&& r == at_once(query_of(step))
                &&& post.phase == Phase::Resolving
                &&& post.pending == Some(Pending { snapshot: cur, now })
                &&& post.session@ == polled
            },
        }
    }
}

impl Engine {
    /// Sends the snapshot to the sink with the artwork of the last
    /// resolution.
    fn publish_now(&mut self, cur: MediaSnapshot, now: u64, wrote: bool) -> (r: Reaction)
        requires
            old(self).source is Some,
            old(self).resolver.stage == Stage::Idle,
            old(self).resolver.store.wf(),
            timestamps_fit(now as nat, cur@),
        ensures
            final(self).wf(),
            same_surroundings(*old(self), *final(self)),
            final(self).resolver == old(self).resolver,
            shown(
                *old(self),
                *final(self),
                old(self).session@,
                cur@,
                now as nat,
                old(self).resolver.cover@,
                wrote,
                r@,
            ),
    {
        self.session.remember(&cur);
        self.pending = None;
        self.phase = Phase::Publishing;
        let next = match &self.source {
            Some(src) => Command::Publish {
                payload: build_payload(
                    &cur,
                    &src.identity,
                    &self.config,
                    self.resolver.cover.as_str(),
                    now,
                ),
            },
            None => Command::Poll,
        };
        Reaction {
            messages: Vec::new(),
            clear_presence: false,
            close_sink: false,
            persist_cache: wrote,
            sleeps: 0,
            next,
        }
    }

    /// Judges the snapshot and goes on accordingly.
    fn evaluate(&mut self, cur: MediaSnapshot, now: u64) -> (r: Reaction)
        requires
            old(self).source is Some,
            old(self).resolver.stage == Stage::Idle,
            old(self).resolver.store.wf(),
            timestamps_fit(now as nat, cur@),
        ensures
            final(self).wf(),
            evaluated(*old(self), *final(self), cur, now, r@),
    {
        let v = self.session.observe(&cur);
        self.pending = None;
        match v {
            Verdict::Publish(_) => {
                let id = album_identity(cur.album_artist.as_str(), cur.album.as_str());
                if id == self.session.album_id {
                    return self.publish_now(cur, now, false);
                }
                let req = Request {
                    album_id: id,
                    album: cur.album.clone(),
                    album_artist: cur.album_artist.clone(),
                    art_url: cur.art_url.clone(),
                };
                let step = self.resolver.begin(req);
                let next = match step {
                    ResolveStep::Done { .. } => {
                        let wrote = self.resolver.wrote;
                        return self.publish_now(cur, now, wrote);
                    },
                    ResolveStep::QueryPrimary { artist, album } => Command::QueryPrimary {
                        artist,
                        album,
                    },
                    ResolveStep::QuerySecondary { artist, album } => Command::QuerySecondary {
                        artist,
                        album,
                    },
                };
                self.pending = Some(Pending { snapshot: cur, now });
                self.phase = Phase::Resolving;
                Reaction {
                    messages: Vec::new(),
                    clear_presence: false,
                    close_sink: false,
                    persist_cache: false,
                    sleeps: 0,
                    next,
                }
            },
            _ => {
                self.phase = Phase::Polling;
                Reaction {
                    messages: Vec::new(),
                    clear_presence: false,
                    close_sink: false,
                    persist_cache: false,
                    sleeps: 1,
                    next: Command::Poll,
                }
            },
        }
    }
}

/// The loop with its session marked as interrupted.
pub open spec fn interrupted(e: Engine) -> Engine {
    Engine { session: TrackedState { interrupted: true, ..e.session }, ..e }
}

/// The loop gives the source up: the presence is cleared, `messages` are
/// told, and after one interval the search for a source is repeated.
pub open spec fn gave_up(
    pre: Engine,
    post: Engine,
    messages: Seq<Message>,
    r: ReactionView,
) -> bool {
    &&& same_surroundings(pre, post)
    &&& post.resolver == pre.resolver
    &&& r == ReactionView {
        messages,
        clear_presence: pre.session.activity_set,
        close_sink: false,
        persist_cache: false,
        sleeps: 1,
        next: pre.discover(),
    }
    &&& post.phase == Phase::Acquiring
    &&& post.pending is None
    &&& post.session@ == cleared(pre.session@)
}

/// Does the snapshot come from a source of the other kind than the one the
/// sink was opened for?
pub open spec fn kind_switched(e: Engine, cur: SnapshotView) -> bool {
    texts(e.settings.video_players@).contains(cur.source_id) != e.source->0.identity.is_video
}

/// Is another source worth switching to, among `players`?
pub open spec fn other_plays(e: Engine, players: Seq<PlayerInfo>) -> bool {
    exists|i: int|
        0 <= i < players.len() && worth_switching_to(
            #[trigger] player_views(players)[i],
            texts(e.settings.allowlist@),
            e.source->0.bus_name@,
        )
}

/// The loop has taken a lookup provider's answer.
pub open spec fn lookup_handled(
    pre: Engine,
    post: Engine,
    outcome: LookupOutcome,
    r: ReactionView,
) -> bool {
    &&& same_surroundings(pre, post)
    &&& post.resolver.request == pre.resolver.request
    &&& ({
        let step = step_after(
            pre.resolver.stage,
            pre.resolver.request@,
            pre.resolver.config,
            crate::artwork::usable_url(outcome),
            stripped_album(trimmed_of(pre.resolver.request@.album)),
        );
        &&& resolver_follows(
            pre.resolver,
            post.resolver,
            pre.resolver.stage,
            pre.resolver.request@.album_id,
            step,
            false,
        )
        &&& match step {
            StepView::Done { url } => shown(
                pre,
                post,
                pre.session@,
                pre.pending->0.snapshot@,
                pre.pending->0.now as nat,
                url,
                post.resolver.wrote,
                r,
            ),
            _ => {
                &&& r == at_once(query_of(step))
                &&& post.phase == Phase::Resolving
                &&& post.pending == pre.pending
                &&& post.session == pre.session
            },
        }
    })
}

/// The loop has taken the list of sources that it asked for while the
/// tracked source does not play.
pub open spec fn probe_handled(
    pre: Engine,
    post: Engine,
    players: Vec<PlayerInfo>,
    r: ReactionView,
) -> bool {
    &&& other_plays(pre, players@) ==> {
        &&& same_surroundings(pre, post)
        &&& post.resolver == pre.resolver
        &&& post.session == pre.session
        &&& post.phase == Phase::Acquiring
        &&& post.pending is None
        &&& r == ReactionView {
            messages: Seq::empty(),
            clear_presence: false,
            close_sink: false,
            persist_cache: false,
            sleeps: 2,
            next: pre.discover(),
        }
    }
    &&& !other_plays(pre, players@) ==> evaluated(
        pre,
        post,
        pre.pending->0.snapshot,
        pre.pending->0.now,
        r,
    )
}

impl Engine {
    /// Gives the source up.
    fn give_up(&mut self, messages: Vec<Message>) -> (r: Reaction)
        requires
            old(self).resolver.stage == Stage::Idle,
            old(self).resolver.store.wf(),
        ensures
            final(self).wf(),
            gave_up(*old(self), *final(self), messages@, r@),
    {
        let clear_presence = clear(&mut self.session);
        self.phase = Phase::Acquiring;
        self.pending = None;
        let next = self.first_command();
        Reaction {
            messages,
            clear_presence,
            close_sink: false,
            persist_cache: false,
            sleeps: 1,
            next,
        }
    }

    /// A lookup provider answered. The resolution goes on with the next
    /// query, or it has ended and the held snapshot goes out with the
    /// address that it ended with.
    pub fn on_lookup(&mut self, outcome: LookupOutcome) -> (r: Reaction)
        requires
            old(self).wf(),
            old(self).phase == Phase::Resolving,
        ensures
            final(self).wf(),
            lookup_handled(*old(self), *final(self), outcome, r@),
    {
        let step = self.resolver.advance(outcome);
        let next = match step {
            ResolveStep::Done { .. } => {
                let wrote = self.resolver.wrote;
                return match self.pending.take() {
                    Some(held) => self.publish_now(held.snapshot, held.now, wrote),
                    None => self.give_up(Vec::new()),
                };
            },
            ResolveStep::QueryPrimary { artist, album } => Command::QueryPrimary { artist, album },
            ResolveStep::QuerySecondary { artist, album } => Command::QuerySecondary {
                artist,
                album,
            },
        };
        Reaction {
            messages: Vec::new(),
            clear_presence: false,
            close_sink: false,
            persist_cache: false,
            sleeps: 0,
            next,
        }
    }

    /// The provider listed the sources while the tracked one does not
    /// play. Where another one is worth switching to, the search for a
    /// source is repeated after two intervals; otherwise the held snapshot
    /// is judged.
    pub fn on_probe(&mut self, players: Vec<PlayerInfo>) -> (r: Reaction)
        requires
            old(self).wf(),
            old(self).phase == Phase::Probing,
        ensures
            final(self).wf(),
            probe_handled(*old(self), *final(self), players, r@),
    {
        let switch = match &self.source {
            Some(src) => should_reselect(&players, &self.settings.allowlist, src.bus_name.as_str()),
            None => false,
        };
        match self.pending.take() {
            Some(held) => {
                if switch {
                    self.phase = Phase::Acquiring;
                    let next = self.first_command();
                    Reaction {
                        messages: Vec::new(),
                        clear_presence: false,
                        close_sink: false,
                        persist_cache: false,
                        sleeps: 2,
                        next,
                    }
                } else {
                    self.evaluate(held.snapshot, held.now)
                }
            },
            None => self.give_up(Vec::new()),
        }
    }
}

/// The loop has taken the source's answer to a poll.
pub open spec fn snapshot_handled(
    pre: Engine,
    post: Engine,
    snapshot: Option<MediaSnapshot>,
    now: u64,
    r: ReactionView,
) -> bool {
    &&& snapshot is None ==> gave_up(
        pre,
        post,
        seq![Message::SnapshotUnreadable],
        r,
    )
    &&& snapshot matches Some(cur) ==> {
        if kind_switched(pre, cur@) {
            gave_up(pre, post, Seq::empty(), r)
        } else if cur.is_playing {
            evaluated(pre, post, cur, now, r)
        } else if pre.settings.only_when_playing {
            &&& same_surroundings(pre, post)
            &&& post.resolver == pre.resolver
            &&& post.phase == Phase::Polling
            &&& post.pending is None
            &&& post.session@ == cleared(interrupted(pre).session@)
            &&& r == ReactionView {
                clear_presence: pre.session.activity_set,
                ..poll_again()
            }
        } else if pre.settings.probe_others {
            &&& same_surroundings(pre, post)
            &&& post.resolver == pre.resolver
            &&& post.phase == Phase::Probing
            &&& post.pending == Some(Pending { snapshot: cur, now })
            &&& post.session == pre.session
            &&& r == at_once(CommandView::Probe)
        } else {
            evaluated(pre, post, cur, now, r)
        }
    }
}

impl Engine {
    /// The source answered a poll, at the time `now`. A snapshot that
    /// could not be read, or that comes from a source of the other kind,
    /// gives the source up. While the source does not play: where a
    /// presence is shown only while playing, it is cleared and the session
    /// counts as interrupted; otherwise the other sources are looked at
    /// first, where that is configured. In every other case the snapshot
    /// is judged.
    pub fn on_snapshot(&mut self, snapshot: Option<MediaSnapshot>, now: u64) -> (r: Reaction)
        requires
            old(self).wf(),
            old(self).phase == Phase::Polling,
            snapshot matches Some(cur) ==> timestamps_fit(now as nat, cur@),
        ensures
            final(self).wf(),
            snapshot_handled(*old(self), *final(self), snapshot, now, r@),
    {
        let cur = match snapshot {
            Some(cur) => cur,
            None => {
                let mut messages: Vec<Message> = Vec::new();
                messages.push(Message::SnapshotUnreadable);
                return self.give_up(messages);
            },
        };
        let was_video = match &self.source {
            Some(src) => src.identity.is_video,
            None => false,
        };
        if is_listed(&self.settings.video_players, cur.source_id.as_str()) != was_video {
            return self.give_up(Vec::new());
        }
        if cur.is_playing {
            return self.evaluate(cur, now);
        }
        if self.settings.only_when_playing {
            self.session.interrupted = true;
            let clear_presence = clear(&mut self.session);
            Reaction {
                messages: Vec::new(),
                clear_presence,
                close_sink: false,
                persist_cache: false,
                sleeps: 1,
                next: Command::Poll,
            }
        } else if self.settings.probe_others {
            self.pending = Some(Pending { snapshot: cur, now });
            self.phase = Phase::Probing;
            Reaction {
                messages: Vec::new(),
                clear_presence: false,
                close_sink: false,
                persist_cache: false,
                sleeps: 0,
                next: Command::Probe,
            }
        } else {
            self.evaluate(cur, now)
        }
    }
}

/// What the outside world answered to a command.
#[derive(Debug)]
pub enum Event {
    /// To `Discover`.
    Discovered(Discovery),
    /// To `Connect`: whether the sink was opened.
    Opened(bool),
    /// To `Poll`: the snapshot, or nothing where it could not be read, and
    /// the time of the reading in seconds since the epoch.
    Snapshot { snapshot: Option<MediaSnapshot>, now: u64 },
    /// To `Probe`: the sources that the provider knows; none where it could
    /// not list them.
    Probed(Vec<PlayerInfo>),
    /// To `QueryPrimary` and `QuerySecondary`.
    LookedUp(LookupOutcome),
    /// To `Publish`: whether the sink took the payload.
    Sent(bool),
}

/// Does the event answer the command that is open in `phase`?
pub open spec fn answers(phase: Phase, event: Event) -> bool {
    match event {
        Event::Discovered(_) => phase == Phase::Acquiring,
        Event::Opened(_) => phase == Phase::Connecting,
        Event::Snapshot { .. } => phase == Phase::Polling,
        Event::Probed(_) => phase == Phase::Probing,
        Event::LookedUp(_) => phase == Phase::Resolving,
        Event::Sent(_) => phase == Phase::Publishing,
    }
}

/// Can the loop take the event? It must answer the open command, and the
/// times of a snapshot must be such that they can be written down.
pub open spec fn acceptable(e: Engine, event: Event) -> bool {
    &&& answers(e.phase, event)
    &&& event matches Event::Snapshot { snapshot: Some(cur), now } ==> timestamps_fit(
        now as nat,
        cur@,
    )
}

/// The loop has taken the event.
pub open spec fn handled(pre: Engine, post: Engine, event: Event, r: ReactionView) -> bool {
    match event {
        Event::Discovered(discovery) => discovery_handled(pre, post, discovery, r),
        Event::Opened(ok) => connect_handled(pre, post, ok, r),
        Event::Snapshot { snapshot, now } => snapshot_handled(pre, post, snapshot, now, r),
        Event::Probed(players) => probe_handled(pre, post, players, r),
        Event::LookedUp(outcome) => lookup_handled(pre, post, outcome, r),
        Event::Sent(ok) => publish_handled(pre, post, ok, r),
    }
}

impl Engine {
    /// Takes an event and says what to do next. An event that the loop
    /// cannot take is refused: nothing is returned and nothing changes.
    pub fn step(&mut self, event: Event) -> (r: Option<Reaction>)
        requires
            old(self).wf(),
        ensures
            final(self).wf(),
            r.is_some() == acceptable(*old(self), event),
            r matches Some(reaction) ==> handled(*old(self), *final(self), event, reaction@),
            r is None ==> *final(self) == *old(self),
    {
        match event {
            Event::Discovered(discovery) => {
                if self.phase == Phase::Acquiring {
                    Some(self.on_discovery(discovery))
                } else {
                    None
                }
            },
            Event::Opened(ok) => {
                if self.phase == Phase::Connecting {
                    Some(self.on_connect_result(ok))
                } else {
                    None
                }
            },
            Event::Snapshot { snapshot, now } => {
                let fits = match &snapshot {
                    Some(cur) => crate::publisher::timestamps_representable(now, cur),
                    None => true,
                };
                if self.phase == Phase::Polling && fits {
                    Some(self.on_snapshot(snapshot, now))
                } else {
                    None
                }
            },
            Event::Probed(players) => {
                if self.phase == Phase::Probing {
                    Some(self.on_probe(players))
                } else {
                    None
                }
            },
            Event::LookedUp(outcome) => {
                if self.phase == Phase::Resolving {
                    Some(self.on_lookup(outcome))
                } else {
                    None
                }
            },
            Event::Sent(ok) => {
                if self.phase == Phase::Publishing {
                    Some(self.on_publish_result(ok))
                } else {
                    None
                }
            },
        }
    }
}

/// The session shows a presence exactly if the sink took the last payload
/// and the presence was not cleared since: only the sink's answer to a
/// payload sets the flag, only a clearing resets it, and the sink is told
/// to clear only what it shows.
pub proof fn lemma_presence_flag(pre: Engine, post: Engine, event: Event, r: ReactionView)
    requires
        pre.wf(),
        acceptable(pre, event),
        handled(pre, post, event, r),
    ensures
        r.clear_presence ==> pre.session.activity_set,
        post.session.activity_set == match event {
            Event::Sent(ok) => ok,
            _ => pre.session.activity_set && !r.clear_presence,
        },
{
}

/// After a reaction that clears the presence, no event but the sink's
/// taking a new payload makes the loop clear it again.
pub proof fn lemma_no_second_clear(
    pre: Engine,
    mid: Engine,
    post: Engine,
    first: Event,
    second: Event,
    r1: ReactionView,
    r2: ReactionView,
)
    requires
        pre.wf(),
        mid.wf(),
        acceptable(pre, first),
        handled(pre, mid, first, r1),
        acceptable(mid, second),
        handled(mid, post, second, r2),
        r1.clear_presence,
    ensures
        !r2.clear_presence,
{
    lemma_presence_flag(pre, mid, first, r1);
    lemma_presence_flag(mid, post, second, r2);
}

/// The store is to be written out exactly after a reaction during which
/// the cache took a new entry: the address that the resolution ended with,
/// under the album it was asked for. Every other reaction leaves the
/// entries as they were.
pub proof fn lemma_cache_written(pre: Engine, post: Engine, event: Event, r: ReactionView)
    requires
        pre.wf(),
        acceptable(pre, event),
        handled(pre, post, event, r),
    ensures
        post.resolver.store.entries() == if r.persist_cache {
            pre.resolver.store.entries().insert(
                post.resolver.request@.album_id,
                post.resolver.cover@,
            )
        } else {
            pre.resolver.store.entries()
        },
        r.persist_cache ==> pre.resolver.store.enabled && r.next is Publish,
{
}

/// The snapshot repeats what the session last published, but for the play
/// state, which went from playing to paused; its album is the one that the
/// artwork was last resolved for, and it names a track.
pub open spec fn paused_since_published(session: TrackedView, cur: SnapshotView) -> bool {
    &&& session.is_playing
    &&& !cur.is_playing
    &&& cur.title == session.title
    &&& cur.album == session.album
    &&& cur.artist == session.artist
    &&& cur.album_artist == session.album_artist
    &&& session.album_id == album_identity_of(cur.album_artist, cur.album)
    &&& verdict_of(session, cur, session.interrupted) != Verdict::Unusable
}

/// The reaction that sends the snapshot `cur` out with the artwork of the
/// last resolution.
pub open spec fn publishes(e: Engine, cur: SnapshotView, now: nat) -> ReactionView {
    at_once(
        CommandView::Publish {
            payload: payload_of(cur, e.source->0.identity@, e.config@, e.resolver.cover@, now),
        },
    )
}

/// A tracked source that stops playing is published at once, with the
/// paused icon whatever small image is configured, and no provider is
/// asked for artwork.
pub proof fn lemma_pause_is_published(
    pre: Engine,
    post: Engine,
    cur: MediaSnapshot,
    now: u64,
    r: ReactionView,
)
    requires
        paused_since_published(pre.session@, cur@),
        evaluated(pre, post, cur, now, r),
    ensures
        r == publishes(pre, cur@, now as nat),
        r.next->payload.small == Some(
            crate::publisher::CaptionedView { image: "paused"@, text: "paused"@ },
        ),
        post.phase == Phase::Publishing,
        post.resolver == pre.resolver,
        !post.session@.is_playing,
        post.session@.activity_set == pre.session@.activity_set,
        post.session@.interrupted == pre.session@.interrupted,
{
    crate::publisher::lemma_paused_shows_status(
        cur@,
        pre.source->0.identity@,
        pre.config@,
        pre.resolver.cover@,
        now as nat,
    );
}

/// A paused source is not left for another source that does not play:
/// the cycle in which the tracked source is found paused looks at the
/// other sources, stays with the tracked one, publishes once with the
/// paused icon, and leaves the session paused, settled and shown once the
/// sink has taken the payload.
pub proof fn lemma_pause_cycle(
    polling: Engine,
    probing: Engine,
    publishing: Engine,
    done: Engine,
    cur: MediaSnapshot,
    now: u64,
    players: Vec<PlayerInfo>,
    r1: ReactionView,
    r2: ReactionView,
    r3: ReactionView,
)
    requires
        polling.wf(),
        polling.phase == Phase::Polling,
        !polling.settings.only_when_playing,
        polling.settings.probe_others,
        !kind_switched(polling, cur@),
        paused_since_published(polling.session@, cur@),
        forall|i: int|
            0 <= i < players.len() ==> crate::selector::priority_of(
                (#[trigger] player_views(players@)[i]).status,
            ) != 0,
        snapshot_handled(polling, probing, Some(cur), now, r1),
        probe_handled(probing, publishing, players, r2),
        publish_handled(publishing, done, true, r3),
    ensures
        r1 == at_once(CommandView::Probe),
        r2 == publishes(polling, cur@, now as nat),
        r2.next->payload.small == Some(
            crate::publisher::CaptionedView { image: "paused"@, text: "paused"@ },
        ),
        r3.next == CommandView::Poll,
        done.phase == Phase::Polling,
        !done.session@.is_playing,
        !done.session@.interrupted,
        done.session@.activity_set,
{
    assert(!other_plays(probing, players@));
    lemma_pause_is_published(probing, publishing, cur, now, r2);
}

/// The same cycle where the other sources are not looked at.
pub proof fn lemma_pause_cycle_without_probe(
    polling: Engine,
    publishing: Engine,
    done: Engine,
    cur: MediaSnapshot,
    now: u64,
    r1: ReactionView,
    r2: ReactionView,
)
    requires
        polling.wf(),
        polling.phase == Phase::Polling,
        !polling.settings.only_when_playing,
        !polling.settings.probe_others,
        !kind_switched(polling, cur@),
        paused_since_published(polling.session@, cur@),
        snapshot_handled(polling, publishing, Some(cur), now, r1),
        publish_handled(publishing, done, true, r2),
    ensures
        r1 == publishes(polling, cur@, now as nat),
        r1.next->payload.small == Some(
            crate::publisher::CaptionedView { image: "paused"@, text: "paused"@ },
        ),
        r2.next == CommandView::Poll,
        done.phase == Phase::Polling,
        !done.session@.is_playing,
        !done.session@.interrupted,
        done.session@.activity_set,
{
    lemma_pause_is_published(polling, publishing, cur, now, r1);
}

/// A snapshot that repeats what the sink shows is not published again: it
/// only lets one interval pass.
pub proof fn lemma_shown_snapshot_is_not_republished(
    pre: Engine,
    post: Engine,
    cur: MediaSnapshot,
    now: u64,
    r: ReactionView,
)
    requires
        !pre.session@.interrupted,
        !metadata_changed(pre.session@, cur@),
        cur@.position >= pre.session@.position,
        evaluated(pre, post, cur, now, r),
    ensures
        r == poll_again(),
        post.phase == Phase::Polling,
        post.resolver == pre.resolver,
{
}

} // verus!
