//! Choosing the one media source to track among those that were discovered.

use vstd::prelude::*;
use crate::text::{blanks_to_underscores, lowercase, lowercase_of, underscored};
use crate::text::{chars_match_at, same_text, text_less, text_lt, to_chars};
use crate::text::{lemma_text_order_total, lemma_text_lt_transitive};

verus! {

/// What a source is doing at the moment it is looked at.
#[derive(Clone, Copy, Debug, PartialEq, Eq, Structural)]
pub enum PlaybackStatus {
    Playing,
    Paused,
    Stopped,
}

/// The part of a source's track metadata that selection looks at.
#[derive(Debug)]
pub struct TrackMeta {
    pub title: Option<String>,
    pub artists: Option<Vec<String>>,
}

/// Mathematical model of a `TrackMeta`.
pub struct TrackMetaView {
    pub title: Option<Seq<char>>,
    pub artists: Option<Seq<Seq<char>>>,
}

/// The texts held by a sequence of strings.
pub open spec fn texts(v: Seq<String>) -> Seq<Seq<char>> {
    Seq::new(v.len(), |i: int| v[i]@)
}

impl View for TrackMeta {
    type V = TrackMetaView;

    open spec fn view(&self) -> TrackMetaView {
        TrackMetaView {
            title: match self.title {
                Some(t) => Some(t@),
                None => None,
            },
            artists: match self.artists {
                Some(a) => Some(texts(a@)),
                None => None,
            },
        }
    }
}

/// One discoverable source as the provider reports it. `status` and
/// `metadata` are `None` where the provider could not read them.
#[derive(Debug)]
pub struct PlayerInfo {
    pub bus_name: String,
    pub identity: String,
    /// The name of the source's icon at the sink.
    pub icon_id: String,
    pub status: Option<PlaybackStatus>,
    pub metadata: Option<TrackMeta>,
}

/// Mathematical model of a `PlayerInfo`.
pub struct PlayerView {
    pub bus_name: Seq<char>,
    pub identity: Seq<char>,
    pub icon_id: Seq<char>,
    pub status: Option<PlaybackStatus>,
    pub metadata: Option<TrackMetaView>,
}

impl View for PlayerInfo {
    type V = PlayerView;

    open spec fn view(&self) -> PlayerView {
        PlayerView {
            bus_name: self.bus_name@,
            identity: self.identity@,
            icon_id: self.icon_id@,
            status: self.status,
            metadata: match self.metadata {
                Some(m) => Some(m@),
                None => None,
            },
        }
    }
}

/// The name of a source's icon at the sink: the source's name in lower
/// case, with underscores for blanks.
pub open spec fn icon_of(name: Seq<char>) -> Seq<char> {
    blanks_to_underscores(lowercase_of(name))
}

/// The name of a source's icon at the sink.
pub fn icon_id(name: &str) -> (r: String)
    ensures
        r@ == icon_of(name@),
{
    let lower = lowercase(name);
    underscored(lower.as_str())
}

/// The models of a sequence of players.
pub open spec fn player_views(v: Seq<PlayerInfo>) -> Seq<PlayerView> {
    Seq::new(v.len(), |i: int| v[i]@)
}

/// A pattern that ends in `*` matches every name that starts with what
/// stands before the `*`; any other pattern matches the equal name only.
pub open spec fn pattern_matches(name: Seq<char>, pattern: Seq<char>) -> bool {
    if pattern.len() > 0 && pattern.last() == '*' {
        pattern.drop_last().is_prefix_of(name)
    } else {
        name == pattern
    }
}

/// A pattern made of a prefix and a final `*` matches exactly the names
/// that start with the prefix; a pattern that does not end in `*` matches
/// exactly the name equal to it.
pub proof fn lemma_star_means_prefix(prefix: Seq<char>, pattern: Seq<char>, name: Seq<char>)
    ensures
        pattern_matches(name, prefix.push('*')) == prefix.is_prefix_of(name),
        pattern.len() == 0 || pattern.last() != '*' ==> pattern_matches(name, pattern) == (name
            == pattern),
{
    assert(prefix.push('*').drop_last() =~= prefix);
}

/// Does `player_name` match the allowlist entry `pattern`?
pub fn matches_allowlist(player_name: &str, pattern: &str) -> (b: bool)
    ensures
        b == pattern_matches(player_name@, pattern@),
{
    let name = to_chars(player_name);
    let mut pat = to_chars(pattern);
    let n: usize = pat.len();
    if n > 0 && pat[n - 1] == '*' {
        pat.pop();
        assert(pat@ =~= pattern@.drop_last());
        chars_match_at(&name, &pat, 0)
    } else {
        if name.len() != n {
            return false;
        }
        let r = chars_match_at(&name, &pat, 0);
        assert(name@.subrange(0, name@.len() as int) =~= name@);
        r
    }
}

/// The player matches `pattern` by its display name or by its bus name.
pub open spec fn player_matches(p: PlayerView, pattern: Seq<char>) -> bool {
    pattern_matches(p.identity, pattern) || pattern_matches(p.bus_name, pattern)
}

/// Some entry of the allowlist matches the player.
pub open spec fn allowlisted(p: PlayerView, allowlist: Seq<Seq<char>>) -> bool {
    exists|i: int| 0 <= i < allowlist.len() && player_matches(p, #[trigger] allowlist[i])
}

/// `r` is the position of the first allowlist entry that matches the player.
pub open spec fn is_rank(p: PlayerView, allowlist: Seq<Seq<char>>, r: int) -> bool {
    &&& 0 <= r < allowlist.len()
    &&& player_matches(p, allowlist[r])
    &&& forall|j: int| 0 <= j < r ==> !player_matches(p, #[trigger] allowlist[j])
}

/// The position of the first allowlist entry that matches the player, if
/// any does.
pub open spec fn rank_of(p: PlayerView, allowlist: Seq<Seq<char>>) -> Option<int> {
    if exists|r: int| is_rank(p, allowlist, r) {
        Some(choose|r: int| is_rank(p, allowlist, r))
    } else {
        None
    }
}

/// A player has at most one rank.
pub proof fn lemma_rank_unique(p: PlayerView, allowlist: Seq<Seq<char>>, r1: int, r2: int)
    requires
        is_rank(p, allowlist, r1),
        is_rank(p, allowlist, r2),
    ensures
        r1 == r2,
{
    if r1 < r2 {
        assert(!player_matches(p, allowlist[r1]));
    } else if r2 < r1 {
        assert(!player_matches(p, allowlist[r2]));
    }
}

/// The position of the first allowlist entry that matches the player.
pub fn allowlist_position(player: &PlayerInfo, allowlist: &Vec<String>) -> (pos: Option<usize>)
    ensures
        match pos {
            Some(r) => is_rank(player@, texts(allowlist@), r as int),
            None => !allowlisted(player@, texts(allowlist@)),
        },
        pos.is_some() == allowlisted(player@, texts(allowlist@)),
        match pos {
            Some(r) => rank_of(player@, texts(allowlist@)) == Some(r as int),
            None => rank_of(player@, texts(allowlist@)).is_none(),
        },
{
    let ghost al = texts(allowlist@);
    let mut i: usize = 0;
    while i < allowlist.len()
        invariant
            i <= allowlist.len(),
            al == texts(allowlist@),
            forall|j: int| 0 <= j < i ==> !player_matches(player@, #[trigger] al[j]),
        decreases allowlist.len() - i,
    {
        let pattern: &str = allowlist[i].as_str();
        assert(al[i as int] == pattern@);
        if matches_allowlist(player.identity.as_str(), pattern) || matches_allowlist(
            player.bus_name.as_str(),
            pattern,
        ) {
            proof {
                assert(is_rank(player@, al, i as int));
                let c = choose|r: int| is_rank(player@, al, r);
                lemma_rank_unique(player@, al, c, i as int);
            }
            return Some(i);
        }
        i += 1;
    }
    proof {
        assert forall|r: int| !is_rank(player@, al, r) by {}
    }
    None
}

/// Is the player matched by some entry of the allowlist?
pub fn is_player_allowlisted(player: &PlayerInfo, allowlist: &Vec<String>) -> (b: bool)
    ensures
        b == allowlisted(player@, texts(allowlist@)),
{
    allowlist_position(player, allowlist).is_some()
}

/// Playing sources come first, paused ones second, all others last.
pub open spec fn priority_of(status: Option<PlaybackStatus>) -> int {
    match status {
        Some(PlaybackStatus::Playing) => 0,
        Some(PlaybackStatus::Paused) => 1,
        _ => 2,
    }
}

/// The playback priority of a player: 0 playing, 1 paused, 2 otherwise.
pub fn get_playback_priority(player: &PlayerInfo) -> (p: u8)
    ensures
        p == priority_of(player@.status),
{
    match player.status {
        Some(PlaybackStatus::Playing) => 0,
        Some(PlaybackStatus::Paused) => 1,
        _ => 2,
    }
}

/// The metadata names a title and a first artist, neither of them empty.
pub open spec fn valid_metadata(m: TrackMetaView) -> bool {
    &&& m.title is Some
    &&& m.title->0.len() > 0
    &&& m.artists is Some
    &&& m.artists->0.len() > 0
    &&& m.artists->0[0].len() > 0
}

/// Does the metadata name a title and a first artist, neither of them empty?
pub fn has_valid_metadata(meta: &TrackMeta) -> (b: bool)
    ensures
        b == valid_metadata(meta@),
{
    let has_title = match &meta.title {
        Some(t) => !t.as_str().is_empty(),
        None => false,
    };
    let has_artist = match &meta.artists {
        Some(a) => {
            if a.len() > 0 {
                assert(texts(a@)[0] == a@[0]@);
                !a[0].as_str().is_empty()
            } else {
                false
            }
        },
        None => false,
    };
    has_title && has_artist
}

/// 0 for metadata that could be read and is valid, 1 otherwise.
pub open spec fn quality_of(metadata: Option<TrackMetaView>) -> int {
    if metadata is Some && valid_metadata(metadata->0) {
        0
    } else {
        1
    }
}

/// The metadata quality of a player: 0 valid, 1 otherwise.
pub fn metadata_quality(player: &PlayerInfo) -> (q: u8)
    ensures
        q == quality_of(player@.metadata),
{
    match &player.metadata {
        Some(m) => if has_valid_metadata(m) {
            0
        } else {
            1
        },
        None => 1,
    }
}

/// The bus name of the aggregator that only forwards to other sources.
pub open spec fn proxy_bus_name() -> Seq<char> {
    "org.mpris.MediaPlayer2.playerctld"@
}

/// Is `bus_name` the aggregator's, which is never tracked itself?
pub fn is_proxy(bus_name: &str) -> (b: bool)
    ensures
        b == (bus_name@ == proxy_bus_name()),
{
    same_text(bus_name, "org.mpris.MediaPlayer2.playerctld")
}

/// A source as selection ranks it.
#[derive(Debug)]
pub struct SourceCandidate {
    pub id: String,
    pub display_name: String,
    pub playback_priority: u8,
    pub metadata_quality: u8,
    pub allowlist_rank: Option<usize>,
}

/// Mathematical model of a `SourceCandidate`.
pub struct CandidateView {
    pub id: Seq<char>,
    pub display_name: Seq<char>,
    pub playback_priority: int,
    pub metadata_quality: int,
    pub allowlist_rank: Option<int>,
}

impl View for SourceCandidate {
    type V = CandidateView;

    open spec fn view(&self) -> CandidateView {
        CandidateView {
            id: self.id@,
            display_name: self.display_name@,
            playback_priority: self.playback_priority as int,
            metadata_quality: self.metadata_quality as int,
            allowlist_rank: match self.allowlist_rank {
                Some(r) => Some(r as int),
                None => None,
            },
        }
    }
}

/// The models of a sequence of candidates.
pub open spec fn candidate_views(v: Seq<SourceCandidate>) -> Seq<CandidateView> {
    Seq::new(v.len(), |i: int| v[i]@)
}

/// How selection ranks the player `p` under `allowlist`.
pub open spec fn candidate_of(p: PlayerView, allowlist: Seq<Seq<char>>) -> CandidateView {
    CandidateView {
        id: p.bus_name,
        display_name: p.identity,
        playback_priority: priority_of(p.status),
        metadata_quality: quality_of(p.metadata),
        allowlist_rank: rank_of(p, allowlist),
    }
}

/// How selection ranks each of `players` under `allowlist`.
pub open spec fn candidates_of(players: Seq<PlayerView>, allowlist: Seq<Seq<char>>) -> Seq<
    CandidateView,
> {
    Seq::new(players.len(), |i: int| candidate_of(players[i], allowlist))
}

impl SourceCandidate {
    /// Ranks one player under the allowlist.
    pub fn observe(player: &PlayerInfo, allowlist: &Vec<String>) -> (c: SourceCandidate)
        ensures
            c@ == candidate_of(player@, texts(allowlist@)),
    {
        SourceCandidate {
            id: player.bus_name.clone(),
            display_name: player.identity.clone(),
            playback_priority: get_playback_priority(player),
            metadata_quality: metadata_quality(player),
            allowlist_rank: allowlist_position(player, allowlist),
        }
    }
}

/// A candidate can be chosen if the allowlist matches it and it is not the
/// aggregator.
pub open spec fn eligible(c: CandidateView) -> bool {
    c.allowlist_rank is Some && c.id != proxy_bus_name()
}

/// The order of selection between two ranked candidates: by playback
/// priority, then allowlist rank, then metadata quality, then id.
pub open spec fn key_lt(a: CandidateView, b: CandidateView) -> bool {
    let ra = a.allowlist_rank->0;
    let rb = b.allowlist_rank->0;
    if a.playback_priority != b.playback_priority {
        a.playback_priority < b.playback_priority
    } else if ra != rb {
        ra < rb
    } else if a.metadata_quality != b.metadata_quality {
        a.metadata_quality < b.metadata_quality
    } else {
        text_lt(a.id, b.id)
    }
}

/// Candidate `i` is the one to track: it is eligible, no eligible candidate
/// comes before it in the order of selection, and those that stand before it
/// in the list come strictly after it in that order.
pub open spec fn is_selection(cands: Seq<CandidateView>, i: int) -> bool {
    &&& 0 <= i < cands.len()
    &&& eligible(cands[i])
    &&& forall|j: int|
        0 <= j < cands.len() && eligible(#[trigger] cands[j]) ==> !key_lt(cands[j], cands[i])
    &&& forall|j: int| 0 <= j < i && eligible(#[trigger] cands[j]) ==> key_lt(cands[i], cands[j])
}

/// Does `a` come strictly before `b` in the order of selection?
pub fn key_less(a: &SourceCandidate, b: &SourceCandidate) -> (r: bool)
    requires
        a.allowlist_rank is Some,
        b.allowlist_rank is Some,
    ensures
        r == key_lt(a@, b@),
{
    let ra: usize = match a.allowlist_rank { Some(r) => r, None => 0 };
    let rb: usize = match b.allowlist_rank { Some(r) => r, None => 0 };
    if a.playback_priority != b.playback_priority {
        a.playback_priority < b.playback_priority
    } else if ra != rb {
        ra < rb
    } else if a.metadata_quality != b.metadata_quality {
        a.metadata_quality < b.metadata_quality
    } else {
        text_less(a.id.as_str(), b.id.as_str())
    }
}

/// Two candidates that the order of selection cannot tell apart.
pub open spec fn same_key(a: CandidateView, b: CandidateView) -> bool {
    &&& a.playback_priority == b.playback_priority
    &&& a.allowlist_rank == b.allowlist_rank
    &&& a.metadata_quality == b.metadata_quality
    &&& a.id == b.id
}

/// Of two ranked candidates one comes first, unless their keys are equal.
pub proof fn lemma_key_order_total(a: CandidateView, b: CandidateView)
    requires
        a.allowlist_rank is Some,
        b.allowlist_rank is Some,
    ensures
        key_lt(a, b) || key_lt(b, a) || same_key(a, b),
        !(key_lt(a, b) && key_lt(b, a)),
        same_key(a, b) ==> !key_lt(a, b),
{
    lemma_text_order_total(a.id, b.id);
}

/// The order of selection is transitive.
pub proof fn lemma_key_lt_transitive(a: CandidateView, b: CandidateView, c: CandidateView)
    requires
        key_lt(a, b),
        key_lt(b, c),
    ensures
        key_lt(a, c),
{
    if same_key_but_id(a, b) && same_key_but_id(b, c) {
        lemma_text_lt_transitive(a.id, b.id, c.id);
    }
}

/// Two candidates that differ at most in their ids.
pub open spec fn same_key_but_id(a: CandidateView, b: CandidateView) -> bool {
    &&& a.playback_priority == b.playback_priority
    &&& a.allowlist_rank->0 == b.allowlist_rank->0
    &&& a.metadata_quality == b.metadata_quality
}

/// Selection is deterministic: a list of candidates has at most one
/// selection, also where several candidates tie.
pub proof fn lemma_selection_unique(cands: Seq<CandidateView>, i: int, j: int)
    requires
        is_selection(cands, i),
        is_selection(cands, j),
    ensures
        i == j,
{
    if i < j {
        assert(key_lt(cands[j], cands[i]));
    } else if j < i {
        assert(key_lt(cands[i], cands[j]));
    }
}

/// Playback priority dominates: a selection is never beaten on priority by
/// another eligible candidate, whatever the allowlist ranks are.
pub proof fn lemma_priority_dominates(cands: Seq<CandidateView>, i: int, j: int)
    requires
        is_selection(cands, i),
        0 <= j < cands.len(),
        eligible(cands[j]),
    ensures
        cands[i].playback_priority <= cands[j].playback_priority,
{
    assert(!key_lt(cands[j], cands[i]));
}

/// Is the candidate one that may be chosen?
pub fn is_eligible(c: &SourceCandidate) -> (b: bool)
    ensures
        b == eligible(c@),
{
    c.allowlist_rank.is_some() && !is_proxy(c.id.as_str())
}

/// The candidate to track: the least eligible one in the order of
/// selection, and of several equal ones the first in the list.
pub fn pick(cands: &Vec<SourceCandidate>) -> (chosen: Option<usize>)
    ensures
        match chosen {
            Some(i) => is_selection(candidate_views(cands@), i as int),
            None => forall|j: int|
                0 <= j < cands.len() ==> !eligible(#[trigger] candidate_views(cands@)[j]),
        },
{
    let ghost cv = candidate_views(cands@);
    let mut best: Option<usize> = None;
    let mut j: usize = 0;
    while j < cands.len()
        invariant
            j <= cands.len(),
            cv == candidate_views(cands@),
            match best {
                Some(i) => {
                    &&& i < j
                    &&& eligible(cv[i as int])
                    &&& forall|k: int|
                        0 <= k < j && eligible(#[trigger] cv[k]) ==> !key_lt(cv[k], cv[i as int])
                    &&& forall|k: int|
                        0 <= k < i && eligible(#[trigger] cv[k]) ==> key_lt(cv[i as int], cv[k])
                },
                None => forall|k: int| 0 <= k < j ==> !eligible(#[trigger] cv[k]),
            },
        decreases cands.len() - j,
    {
        assert(cv[j as int] == cands@[j as int]@);
        if is_eligible(&cands[j]) {
            match best {
                None => {
                    proof {
                        lemma_key_order_total(cv[j as int], cv[j as int]);
                    }
                    best = Some(j);
                },
                Some(i) => {
                    assert(cv[i as int] == cands@[i as int]@);
                    if key_less(&cands[j], &cands[i]) {
                        proof {
                            assert forall|k: int|
                                0 <= k < j + 1 && eligible(#[trigger] cv[k]) implies !key_lt(
                                cv[k],
                                cv[j as int],
                            ) by {
                                if k < j {
                                    if key_lt(cv[k], cv[j as int]) {
                                        lemma_key_lt_transitive(cv[k], cv[j as int], cv[i as int]);
                                    }
                                } else {
                                    lemma_key_order_total(cv[j as int], cv[j as int]);
                                }
                            }
                            assert forall|k: int|
                                0 <= k < j && eligible(#[trigger] cv[k]) implies key_lt(
                                cv[j as int],
                                cv[k],
                            ) by {
                                lemma_key_order_total(cv[j as int], cv[k]);
                                if key_lt(cv[k], cv[j as int]) {
                                    lemma_key_lt_transitive(cv[k], cv[j as int], cv[i as int]);
                                }
                            }
                        }
                        best = Some(j);
                    }
                },
            }
        }
        j += 1;
    }
    best
}

/// The player to track among `players`, by its position in the list: each
/// player is ranked under `allowlist`, and the selection among the ranked
/// candidates is returned. With no eligible player there is none.
pub fn select(players: &Vec<PlayerInfo>, allowlist: &Vec<String>) -> (chosen: Option<usize>)
    ensures
        match chosen {
            Some(i) => is_selection(
                candidates_of(player_views(players@), texts(allowlist@)),
                i as int,
            ),
            None => forall|j: int|
                0 <= j < players.len() ==> !eligible(
                    #[trigger] candidates_of(player_views(players@), texts(allowlist@))[j],
                ),
        },
{
    let ghost want = candidates_of(player_views(players@), texts(allowlist@));
    let mut cands: Vec<SourceCandidate> = Vec::new();
    let mut i: usize = 0;
    while i < players.len()
        invariant
            i <= players.len(),
            cands.len() == i,
            want == candidates_of(player_views(players@), texts(allowlist@)),
            forall|k: int| 0 <= k < i ==> (#[trigger] cands@[k])@ == want[k],
        decreases players.len() - i,
    {
        let c = SourceCandidate::observe(&players[i], allowlist);
        assert(player_views(players@)[i as int] == players@[i as int]@);
        cands.push(c);
        i += 1;
    }
    assert(candidate_views(cands@) =~= want);
    pick(&cands)
}

/// Another source is worth switching to while the tracked one is not
/// playing: it is neither the aggregator nor the tracked source, the
/// allowlist (if there is one) matches it, it is playing, and its metadata
/// is valid.
pub open spec fn worth_switching_to(
    p: PlayerView,
    allowlist: Seq<Seq<char>>,
    current: Seq<char>,
) -> bool {
    &&& p.bus_name != proxy_bus_name()
    &&& p.bus_name != current
    &&& allowlist.len() > 0 ==> allowlisted(p, allowlist)
    &&& priority_of(p.status) == 0
    &&& quality_of(p.metadata) == 0
}

/// Is some player other than the tracked one worth switching to?
pub fn should_reselect(
    players: &Vec<PlayerInfo>,
    allowlist: &Vec<String>,
    current: &str,
) -> (b: bool)
    ensures
        b == exists|i: int|
            0 <= i < players.len() && worth_switching_to(
                #[trigger] player_views(players@)[i],
                texts(allowlist@),
                current@,
            ),
{
    let ghost pv = player_views(players@);
    let mut i: usize = 0;
    while i < players.len()
        invariant
            i <= players.len(),
            pv == player_views(players@),
            forall|k: int|
                0 <= k < i ==> !worth_switching_to(#[trigger] pv[k], texts(allowlist@), current@),
        decreases players.len() - i,
    {
        let p = &players[i];
        assert(pv[i as int] == p@);
        let bus: &str = p.bus_name.as_str();
        if !is_proxy(bus) && !same_text(bus, current) && (allowlist.len() == 0
            || is_player_allowlisted(p, allowlist)) && get_playback_priority(p) == 0
            && metadata_quality(p) == 0 {
            return true;
        }
        i += 1;
    }
    false
}

} // verus!
