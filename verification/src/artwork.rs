//! Resolving the artwork of an album: the cache first, then a chain of
//! lookup providers, then the source's own artwork.

use vstd::prelude::*;
use vstd::string::StringExecFns;
use vstd::string::StrSliceExecFns;
use crate::publisher::{is_missing, lacks_artwork, missing_cover};
use crate::text::{ends_with, starts_with, trimmed, trimmed_of};

verus! {

/// `pickledb::PickleDb`, the key-value store that keeps the cache. Nothing
/// is known of a value of it but what the items below say.
#[verifier::external_type_specification]
#[verifier::external_body]
pub struct ExPickleDb(pickledb::PickleDb);

/// `pickledb::error::Error`, what a failed write to the store returns.
#[verifier::external_type_specification]
#[verifier::external_body]
pub struct ExPickleError(pickledb::error::Error);

/// The text entries of a store: each key whose value reads back as a
/// string, with that string.
pub uninterp spec fn store_entries(db: pickledb::PickleDb) -> Map<Seq<char>, Seq<char>>;

/// The store was made with a policy under which setting an entry also
/// writes the store out to its file.
pub uninterp spec fn store_dumps_on_write(db: pickledb::PickleDb) -> bool;

/// The entries of an empty store.
pub open spec fn no_entries() -> Map<Seq<char>, Seq<char>> {
    Map::empty()
}

/// Calls `PickleDb::new` with the policy `DumpUponRequest` and JSON
/// values. The call only builds the value: the new store is empty and
/// never writes itself out when an entry is set.
#[verifier::external_body]
fn new_store(path: &str) -> (db: pickledb::PickleDb)
    ensures
        store_entries(db) == no_entries(),
        !store_dumps_on_write(db),
{
    pickledb::PickleDb::new(
        path,
        pickledb::PickleDbDumpPolicy::DumpUponRequest,
        pickledb::SerializationMethod::Json,
    )
}

/// Calls `PickleDb::get` for a string value. It returns the value kept
/// under `key` where there is one that reads back as a string, and nothing
/// otherwise; the store is left as it is.
#[verifier::external_body]
fn store_get(db: &pickledb::PickleDb, key: &str) -> (r: Option<String>)
    ensures
        r.is_some() == store_entries(*db).dom().contains(key@),
        r matches Some(v) ==> v@ == store_entries(*db)[key@],
{
    db.get::<String>(key)
}

/// Calls `PickleDb::set` with a string value, on a store that does not
/// write itself out. For such a store the call reaches no file: it turns
/// the string into JSON, which cannot fail for a string, and puts it into
/// the map. So the call succeeds, the value stands under `key`, every
/// other entry is as before, and the store's policy is not touched.
#[verifier::external_body]
fn store_set(db: &mut pickledb::PickleDb, key: &str, value: &String) -> (r: Result<
    (),
    pickledb::error::Error,
>)
    requires
        !store_dumps_on_write(*old(db)),
    ensures
        r is Ok,
        store_entries(*final(db)) == store_entries(*old(db)).insert(key@, value@),
        !store_dumps_on_write(*final(db)),
{
    db.set(key, value)
}

/// What a write to the store came to: the entry is kept exactly where the
/// store returned success.
pub fn write_kept(outcome: &Result<(), pickledb::error::Error>) -> (kept: bool)
    ensures
        kept == (outcome is Ok),
{
    match outcome {
        Ok(_) => true,
        Err(_) => false,
    }
}

/// The artwork cache: a store of addresses by album identity, and whether
/// it is in use. A cache that is not in use is neither read nor written.
/// The cache never writes the store out; that is left to its owner.
pub struct CacheStore {
    pub db: pickledb::PickleDb,
    pub enabled: bool,
}

impl CacheStore {
    /// The store does not write itself out when an entry is set.
    pub open spec fn wf(&self) -> bool {
        !store_dumps_on_write(self.db)
    }

    /// The addresses kept, by album identity.
    pub open spec fn entries(&self) -> Map<Seq<char>, Seq<char>> {
        store_entries(self.db)
    }

    /// What a lookup of `album_id` finds.
    pub open spec fn cached(&self, album_id: Seq<char>) -> Option<Seq<char>> {
        if self.enabled && self.entries().dom().contains(album_id) {
            Some(self.entries()[album_id])
        } else {
            None
        }
    }

    /// A cache over the store `db`, which must not write itself out when
    /// an entry is set.
    pub fn new(db: pickledb::PickleDb, enabled: bool) -> (c: CacheStore)
        requires
            !store_dumps_on_write(db),
        ensures
            c.wf(),
            c.db == db,
            c.enabled == enabled,
    {
        CacheStore { db, enabled }
    }

    /// A cache over a new, empty store that would be written to `path`.
    pub fn fresh(path: &str, enabled: bool) -> (c: CacheStore)
        ensures
            c.wf(),
            c.entries() == no_entries(),
            c.enabled == enabled,
    {
        CacheStore { db: new_store(path), enabled }
    }

    /// Is the cache in use?
    pub fn is_enabled(&self) -> (b: bool)
        ensures
            b == self.enabled,
    {
        self.enabled
    }

    /// The address kept for `album_id`, if the cache is in use and holds
    /// one.
    pub fn lookup(&self, album_id: &str) -> (r: Option<String>)
        ensures
            crate::publisher::text_view(r) == self.cached(album_id@),
    {
        if self.enabled {
            store_get(&self.db, album_id)
        } else {
            None
        }
    }

    /// Keeps `url` for `album_id` if the cache is in use, and says whether
    /// it is kept now: a cache in use keeps every entry it is given, one
    /// that is not in use keeps nothing and stays as it was.
    pub fn record(&mut self, album_id: &str, url: &String) -> (kept: bool)
        requires
            old(self).wf(),
        ensures
            final(self).wf(),
            final(self).enabled == old(self).enabled,
            kept == old(self).enabled,
            final(self).entries() == if kept {
                old(self).entries().insert(album_id@, url@)
            } else {
                old(self).entries()
            },
    {
        if self.enabled {
            let outcome = store_set(&mut self.db, album_id, url);
            write_kept(&outcome)
        } else {
            false
        }
    }
}

/// What a lookup provider answered.
#[derive(Debug)]
pub enum LookupOutcome {
    /// The provider named an address.
    Found(String),
    /// The provider knows no artwork for the album.
    NotFound,
    /// The provider could not be asked.
    Failed,
}

/// The address that an answer gives, if it gives one that stands for
/// artwork.
pub open spec fn usable_url(outcome: LookupOutcome) -> Option<Seq<char>> {
    match outcome {
        LookupOutcome::Found(url) => if lacks_artwork(url@) {
            None
        } else {
            Some(url@)
        },
        _ => None,
    }
}

/// Which steps of the chain are open.
#[derive(Clone, Copy, Debug, PartialEq, Eq, Structural)]
pub struct ResolverConfig {
    /// The primary provider can be asked: a credential for it is at hand.
    pub primary_enabled: bool,
    /// The fallback provider may be asked.
    pub secondary_enabled: bool,
    /// Artwork that the source itself names may be used.
    pub native_art_allowed: bool,
}

/// Where in the chain a resolution stands.
#[derive(Clone, Copy, Debug, PartialEq, Eq, Structural)]
pub enum Stage {
    /// No query is open.
    Idle,
    /// The primary provider was asked for the album as it is named.
    Primary,
    /// The primary provider was asked for the album without its release
    /// suffix.
    PrimaryStripped,
    /// The fallback provider was asked.
    Secondary,
}

/// What a resolution is asked for.
#[derive(Debug)]
pub struct Request {
    pub album_id: String,
    pub album: String,
    pub album_artist: String,
    /// The artwork that the source itself names; may be empty.
    pub art_url: String,
}

/// Mathematical model of a `Request`.
pub struct RequestView {
    pub album_id: Seq<char>,
    pub album: Seq<char>,
    pub album_artist: Seq<char>,
    pub art_url: Seq<char>,
}

impl View for Request {
    type V = RequestView;

    open spec fn view(&self) -> RequestView {
        RequestView {
            album_id: self.album_id@,
            album: self.album@,
            album_artist: self.album_artist@,
            art_url: self.art_url@,
        }
    }
}

/// What the resolver wants done next.
#[derive(Debug)]
pub enum ResolveStep {
    /// Ask the primary provider.
    QueryPrimary { artist: String, album: String },
    /// Ask the fallback provider.
    QuerySecondary { artist: String, album: String },
    /// The resolution has ended with this address.
    Done { url: String },
}

/// Mathematical model of a `ResolveStep`.
pub enum StepView {
    QueryPrimary { artist: Seq<char>, album: Seq<char> },
    QuerySecondary { artist: Seq<char>, album: Seq<char> },
    Done { url: Seq<char> },
}

impl View for ResolveStep {
    type V = StepView;

    open spec fn view(&self) -> StepView {
        match self {
            ResolveStep::QueryPrimary { artist, album } => StepView::QueryPrimary {
                artist: artist@,
                album: album@,
            },
            ResolveStep::QuerySecondary { artist, album } => StepView::QuerySecondary {
                artist: artist@,
                album: album@,
            },
            ResolveStep::Done { url } => StepView::Done { url: url@ },
        }
    }
}

/// `s` without `suffix` at its end, where it ends with it and more than
/// the suffix is there.
pub open spec fn without_suffix(s: Seq<char>, suffix: Seq<char>) -> Option<Seq<char>> {
    if suffix.is_suffix_of(s) && s.len() > suffix.len() {
        Some(s.subrange(0, s.len() - suffix.len()))
    } else {
        None
    }
}

/// The album's name without its release suffix, ` - EP` or ` - Single`,
/// where it has one and a name is left.
pub open spec fn stripped_album(album: Seq<char>) -> Option<Seq<char>> {
    if " - EP"@.is_suffix_of(album) {
        without_suffix(album, " - EP"@)
    } else {
        without_suffix(album, " - Single"@)
    }
}

/// `s` without `suffix` at its end, where it ends with it and more than
/// the suffix is there.
pub fn strip_suffix(s: &str, suffix: &str) -> (r: Option<String>)
    ensures
        crate::publisher::text_view(r) == without_suffix(s@, suffix@),
{
    if ends_with(s, suffix) {
        let n: usize = s.unicode_len();
        let m: usize = suffix.unicode_len();
        if n > m {
            Some(String::from_str(s.substring_char(0, n - m)))
        } else {
            None
        }
    } else {
        None
    }
}

/// The album's name without its release suffix, where it has one and a
/// name is left.
pub fn strip_release_suffix(album: &str) -> (r: Option<String>)
    ensures
        crate::publisher::text_view(r) == stripped_album(album@),
{
    if ends_with(album, " - EP") {
        strip_suffix(album, " - EP")
    } else {
        strip_suffix(album, " - Single")
    }
}

/// What is shown when every lookup failed: the source's own artwork where
/// it is allowed and is a remote address, else the placeholder.
pub open spec fn native_fallback(art_url: Seq<char>, allowed: bool) -> Seq<char> {
    if allowed && "http"@.is_prefix_of(art_url) {
        art_url
    } else {
        missing_cover()
    }
}

/// What is shown when every lookup failed.
pub fn fallback_url(art_url: &str, allowed: bool) -> (r: String)
    ensures
        r@ == native_fallback(art_url@, allowed),
{
    if allowed && starts_with(art_url, "http") {
        String::from_str(art_url)
    } else {
        String::from_str("missing-cover")
    }
}

/// The chain from the fallback provider on: ask it where it may be asked,
/// else end with what the source itself names.
pub open spec fn from_secondary(req: RequestView, cfg: ResolverConfig) -> StepView {
    if cfg.secondary_enabled {
        StepView::QuerySecondary { artist: req.album_artist, album: req.album }
    } else {
        StepView::Done { url: native_fallback(req.art_url, cfg.native_art_allowed) }
    }
}

/// The chain from the primary provider on: ask it where it can be asked,
/// else go on with the fallback provider.
pub open spec fn from_primary(req: RequestView, cfg: ResolverConfig) -> StepView {
    if cfg.primary_enabled {
        StepView::QueryPrimary { artist: req.album_artist, album: req.album }
    } else {
        from_secondary(req, cfg)
    }
}

/// The first step of a resolution: an address found in the cache ends it
/// at once, without any query.
pub open spec fn first_step(
    cached: Option<Seq<char>>,
    req: RequestView,
    cfg: ResolverConfig,
) -> StepView {
    match cached {
        Some(url) => StepView::Done { url },
        None => from_primary(req, cfg),
    }
}

/// The step after an answer. `found` is the address that the answer gives,
/// if any; `stripped` is the album's name without its release suffix, if it
/// has one. An address ends the resolution. Without one, the primary
/// provider is asked once more for the stripped name where there is one,
/// then the fallback provider is asked, then the source's own artwork or
/// the placeholder is taken.
pub open spec fn step_after(
    stage: Stage,
    req: RequestView,
    cfg: ResolverConfig,
    found: Option<Seq<char>>,
    stripped: Option<Seq<char>>,
) -> StepView {
    match found {
        Some(url) => StepView::Done { url },
        None => match stage {
            Stage::Primary => match stripped {
                Some(name) => StepView::QueryPrimary { artist: req.album_artist, album: name },
                None => from_secondary(req, cfg),
            },
            Stage::PrimaryStripped => from_secondary(req, cfg),
            _ => StepView::Done { url: native_fallback(req.art_url, cfg.native_art_allowed) },
        },
    }
}

/// The stage that a step leads to from `stage`.
pub open spec fn stage_after(stage: Stage, step: StepView) -> Stage {
    match step {
        StepView::Done { .. } => Stage::Idle,
        StepView::QuerySecondary { .. } => Stage::Secondary,
        StepView::QueryPrimary { .. } => if stage == Stage::Primary {
            Stage::PrimaryStripped
        } else {
            Stage::Primary
        },
    }
}

/// The chain from the fallback provider on.
pub fn plan_from_secondary(req: &Request, cfg: ResolverConfig) -> (step: ResolveStep)
    ensures
        step@ == from_secondary(req@, cfg),
{
    if cfg.secondary_enabled {
        ResolveStep::QuerySecondary { artist: req.album_artist.clone(), album: req.album.clone() }
    } else {
        ResolveStep::Done { url: fallback_url(req.art_url.as_str(), cfg.native_art_allowed) }
    }
}

/// The first step of a resolution, given what the cache holds for the
/// album.
pub fn plan_first(
    cached: Option<String>,
    req: &Request,
    cfg: ResolverConfig,
) -> (step: ResolveStep)
    ensures
        step@ == first_step(crate::publisher::text_view(cached), req@, cfg),
{
    match cached {
        Some(url) => ResolveStep::Done { url },
        None => {
            if cfg.primary_enabled {
                ResolveStep::QueryPrimary {
                    artist: req.album_artist.clone(),
                    album: req.album.clone(),
                }
            } else {
                plan_from_secondary(req, cfg)
            }
        },
    }
}

/// The step after the answer `outcome`, given the album's name without
/// white space around it.
pub fn plan_next(
    stage: Stage,
    req: &Request,
    cfg: ResolverConfig,
    outcome: LookupOutcome,
    trimmed_album: &str,
) -> (step: ResolveStep)
    ensures
        step@ == step_after(stage, req@, cfg, usable_url(outcome), stripped_album(trimmed_album@)),
{
    match outcome {
        LookupOutcome::Found(url) => {
            if !is_missing(url.as_str()) {
                return ResolveStep::Done { url };
            }
        },
        _ => {},
    }
    match stage {
        Stage::Primary => match strip_release_suffix(trimmed_album) {
            Some(name) => ResolveStep::QueryPrimary {
                artist: req.album_artist.clone(),
                album: name,
            },
            None => plan_from_secondary(req, cfg),
        },
        Stage::PrimaryStripped => plan_from_secondary(req, cfg),
        _ => ResolveStep::Done { url: fallback_url(req.art_url.as_str(), cfg.native_art_allowed) },
    }
}

/// The stage that a step leads to from `stage`.
pub fn next_stage(stage: Stage, step: &ResolveStep) -> (s: Stage)
    ensures
        s == stage_after(stage, step@),
{
    match step {
        ResolveStep::Done { .. } => Stage::Idle,
        ResolveStep::QuerySecondary { .. } => Stage::Secondary,
        ResolveStep::QueryPrimary { .. } => match stage {
            Stage::Primary => Stage::PrimaryStripped,
            _ => Stage::Primary,
        },
    }
}

/// Does a step write to the cache? The end of a resolution does, in a
/// cache that is in use, unless the address came from the cache itself.
pub open spec fn writes(store: CacheStore, step: StepView, from_cache: bool) -> bool {
    step is Done && !from_cache && store.enabled
}

/// How the cache differs after a step for the album `album_id`: where the
/// step wrote (`wrote`), the address that the resolution ended with stands
/// under the album; otherwise the entries are as they were.
pub open spec fn store_follows(
    before: CacheStore,
    after: CacheStore,
    album_id: Seq<char>,
    step: StepView,
    wrote: bool,
) -> bool {
    &&& after.wf()
    &&& after.enabled == before.enabled
    &&& wrote ==> before.enabled && step is Done
    &&& after.entries() == if wrote {
        before.entries().insert(album_id, step->url)
    } else {
        before.entries()
    }
}

/// The resolver: the cache, which steps are open, the resolution under
/// way, the address that the last resolution ended with, and whether the
/// last step wrote to the cache.
pub struct ArtworkResolver {
    pub store: CacheStore,
    pub config: ResolverConfig,
    pub stage: Stage,
    pub request: Request,
    pub cover: String,
    pub wrote: bool,
}

impl ArtworkResolver {
    /// A resolver that has resolved nothing yet.
    pub fn new(store: CacheStore, config: ResolverConfig) -> (r: ArtworkResolver)
        ensures
            r.store == store,
            r.config == config,
            r.stage == Stage::Idle,
            r.cover@.len() == 0,
            !r.wrote,
            r.request@ == (RequestView {
                album_id: Seq::empty(),
                album: Seq::empty(),
                album_artist: Seq::empty(),
                art_url: Seq::empty(),
            }),
    {
        ArtworkResolver {
            store,
            config,
            stage: Stage::Idle,
            request: Request {
                album_id: String::new(),
                album: String::new(),
                album_artist: String::new(),
                art_url: String::new(),
            },
            cover: String::new(),
            wrote: false,
        }
    }

    /// Is a query open, so that an answer is awaited?
    pub fn is_waiting(&self) -> (b: bool)
        ensures
            b == (self.stage != Stage::Idle),
    {
        match self.stage {
            Stage::Idle => false,
            _ => true,
        }
    }

    /// Takes a step down: the stage it leads to and, where it ends the
    /// resolution, its address, which is also written to the cache unless
    /// it came from there.
    fn conclude(&mut self, step: &ResolveStep, from_cache: bool)
        requires
            old(self).store.wf(),
        ensures
            final(self).stage == stage_after(old(self).stage, step@),
            final(self).config == old(self).config,
            final(self).request == old(self).request,
            step@ matches StepView::Done { url } ==> final(self).cover@ == url,
            !(step@ is Done) ==> final(self).cover == old(self).cover,
            final(self).wrote == writes(old(self).store, step@, from_cache),
            store_follows(
                old(self).store,
                final(self).store,
                old(self).request@.album_id,
                step@,
                final(self).wrote,
            ),
    {
        self.stage = next_stage(self.stage, step);
        self.wrote = false;
        match step {
            ResolveStep::Done { url } => {
                self.cover = url.clone();
                if !from_cache {
                    self.wrote = self.store.record(self.request.album_id.as_str(), url);
                }
            },
            _ => {},
        }
    }

    /// Starts a resolution. What the cache holds for the album ends it at
    /// once; otherwise the first open step of the chain is returned.
    pub fn begin(&mut self, req: Request) -> (step: ResolveStep)
        requires
            old(self).store.wf(),
        ensures
            step@ == first_step(
                old(self).store.cached(req@.album_id),
                req@,
                old(self).config,
            ),
            final(self).stage == stage_after(Stage::Idle, step@),
            final(self).request == req,
            final(self).config == old(self).config,
            step@ matches StepView::Done { url } ==> final(self).cover@ == url,
            !(step@ is Done) ==> final(self).cover == old(self).cover,
            final(self).wrote == writes(
                old(self).store,
                step@,
                old(self).store.cached(req@.album_id) is Some,
            ),
            store_follows(
                old(self).store,
                final(self).store,
                req@.album_id,
                step@,
                final(self).wrote,
            ),
    {
        let cached = self.store.lookup(req.album_id.as_str());
        let from_cache = cached.is_some();
        let step = plan_first(cached, &req, self.config);
        self.request = req;
        self.stage = Stage::Idle;
        self.conclude(&step, from_cache);
        step
    }

    /// Goes on after a provider's answer to the open query.
    pub fn advance(&mut self, outcome: LookupOutcome) -> (step: ResolveStep)
        requires
            old(self).store.wf(),
            old(self).stage != Stage::Idle,
        ensures
            step@ == step_after(
                old(self).stage,
                old(self).request@,
                old(self).config,
                usable_url(outcome),
                stripped_album(trimmed_of(old(self).request@.album)),
            ),
            final(self).stage == stage_after(old(self).stage, step@),
            final(self).request == old(self).request,
            final(self).config == old(self).config,
            step@ matches StepView::Done { url } ==> final(self).cover@ == url,
            !(step@ is Done) ==> final(self).cover == old(self).cover,
            final(self).wrote == writes(old(self).store, step@, false),
            store_follows(
                old(self).store,
                final(self).store,
                old(self).request@.album_id,
                step@,
                final(self).wrote,
            ),
    {
        let trimmed_album = trimmed(self.request.album.as_str());
        let step = plan_next(
            self.stage,
            &self.request,
            self.config,
            outcome,
            trimmed_album.as_str(),
        );
        self.conclude(&step, false);
        step
    }
}

/// Every outcome of a resolution, the placeholder for "no artwork" like
/// any address, is stored under the album in a cache that is in use, and
/// ends the next resolution for the same album at once: no provider is
/// asked a second time.
pub proof fn lemma_outcome_is_stored_and_reused(
    before: CacheStore,
    after: CacheStore,
    step: StepView,
    from_cache: bool,
    req: RequestView,
    cfg: ResolverConfig,
)
    requires
        before.enabled,
        step is Done,
        from_cache ==> before.cached(req.album_id) == Some(step->url),
        store_follows(
            before,
            after,
            req.album_id,
            step,
            writes(before, step, from_cache),
        ),
    ensures
        after.cached(req.album_id) == Some(step->url),
        first_step(after.cached(req.album_id), req, cfg) == step,
        stage_after(Stage::Idle, first_step(after.cached(req.album_id), req, cfg)) == Stage::Idle,
{
}

/// An album that no provider knows, with no release suffix and no entry
/// in the cache, is resolved by asking the primary provider once, then the
/// fallback provider once; the resolution ends with the source's own
/// artwork or the placeholder, and that outcome is stored. The next
/// resolution for the album ends at once with the same outcome.
pub proof fn lemma_failed_resolution_is_cached(
    before: CacheStore,
    after: CacheStore,
    req: RequestView,
    cfg: ResolverConfig,
)
    requires
        cfg.primary_enabled,
        cfg.secondary_enabled,
        before.enabled,
        before.cached(req.album_id) is None,
        stripped_album(trimmed_of(req.album)) is None,
        ({
            let end = StepView::Done { url: native_fallback(req.art_url, cfg.native_art_allowed) };
            store_follows(before, after, req.album_id, end, writes(before, end, false))
        }),
    ensures
        ({
            let outcome = native_fallback(req.art_url, cfg.native_art_allowed);
            let stripped = stripped_album(trimmed_of(req.album));
            &&& first_step(before.cached(req.album_id), req, cfg) == (StepView::QueryPrimary {
                artist: req.album_artist,
                album: req.album,
            })
            &&& step_after(Stage::Primary, req, cfg, None, stripped) == (StepView::QuerySecondary {
                artist: req.album_artist,
                album: req.album,
            })
            &&& step_after(Stage::Secondary, req, cfg, None, stripped) == (StepView::Done {
                url: outcome,
            })
            &&& after.cached(req.album_id) == Some(outcome)
            &&& first_step(after.cached(req.album_id), req, cfg) == (StepView::Done {
                url: outcome,
            })
        }),
{
}

/// An album's name that ends with a release suffix loses exactly the
/// suffix.
pub proof fn lemma_release_suffix_stripped(base: Seq<char>)
    requires
        base.len() > 0,
    ensures
        stripped_album(base + " - EP"@) == Some(base),
        stripped_album(base + " - Single"@) == Some(base),
{
    reveal_strlit(" - EP");
    reveal_strlit(" - Single");
    let ep = " - EP"@;
    let single = " - Single"@;
    let a = base + ep;
    let b = base + single;
    assert(a.subrange(a.len() - ep.len(), a.len() as int) =~= ep);
    assert(a.subrange(0, a.len() - ep.len()) =~= base);
    assert(b.subrange(b.len() - single.len(), b.len() as int) =~= single);
    assert(b.subrange(0, b.len() - single.len()) =~= base);
    assert(!ep.is_suffix_of(b)) by {
        let tail = b.subrange(b.len() - ep.len(), b.len() as int);
        assert(tail[4] == b[b.len() - 1]);
        assert(b[b.len() - 1] == single[8]);
        assert(ep[4] == 'P');
        assert(single[8] == 'e');
    }
}

/// When the primary provider has no artwork for an album whose name ends
/// with a release suffix, it is asked once more for the name without the
/// suffix, before the fallback provider is asked; and if that fails too,
/// the chain goes on from the fallback provider.
pub proof fn lemma_suffix_retry_comes_first(req: RequestView, cfg: ResolverConfig, base: Seq<char>)
    requires
        base.len() > 0,
    ensures
        ({
            let retry = step_after(
                Stage::Primary,
                req,
                cfg,
                None,
                stripped_album(base + " - EP"@),
            );
            &&& retry == (StepView::QueryPrimary { artist: req.album_artist, album: base })
            &&& stage_after(Stage::Primary, retry) == Stage::PrimaryStripped
            &&& step_after(
                Stage::PrimaryStripped,
                req,
                cfg,
                None,
                stripped_album(base + " - EP"@),
            ) == from_secondary(req, cfg)
        }),
{
    lemma_release_suffix_stripped(base);
}

} // verus!
