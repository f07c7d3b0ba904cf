use vstd::prelude::*;

verus! {

/// Name of the release asset that holds the compressed catalog.
pub const REGISTRY_ASSET: &'static str = "registry.json.zip";

/// Name of the catalog document inside that asset.
pub const REGISTRY_FILE: &'static str = "registry.json";

/// Why the catalog could not be loaded. Each of them ends the program
/// before the browser starts.
#[derive(Clone, Copy, Debug, PartialEq, Eq, Structural)]
pub enum LoadError {
    /// The refresh failed: network, missing asset or malformed archive.
    Acquisition,
    /// The cache file could not be read.
    CacheRead,
    /// The cache file is not a list of package records.
    Parse,
}

/// A downloadable file of a release.
#[derive(Debug)]
pub struct Asset {
    pub name: String,
    pub browser_download_url: String,
}

/// A published release of the remote catalog.
#[derive(Debug)]
pub struct Release {
    pub tag_name: String,
    pub assets: Vec<Asset>,
}

/// `i` is the first asset called `name`.
pub open spec fn is_first_named(assets: Seq<Asset>, name: Seq<char>, i: int) -> bool {
    &&& 0 <= i < assets.len()
    &&& assets[i].name@ == name
    &&& forall|j: int| 0 <= j < i ==> (#[trigger] assets[j]).name@ != name
}

/// The download address of the first asset of `release` that holds the
/// compressed catalog; an acquisition error when the release has none.
pub fn registry_asset_url(release: &Release) -> (r: Result<String, LoadError>)
    ensures
        match r {
            Ok(url) => exists|i: int|
                is_first_named(release.assets@, REGISTRY_ASSET@, i)
                    && url@ == (#[trigger] release.assets@[i]).browser_download_url@,
            Err(e) => e == LoadError::Acquisition && forall|i: int|
                0 <= i < release.assets@.len() ==> (#[trigger] release.assets@[i]).name@
                    != REGISTRY_ASSET@,
        },
{
    let wanted = REGISTRY_ASSET.to_owned();
    let mut i: usize = 0;
    while i < release.assets.len()
        invariant
            i <= release.assets@.len(),
            wanted@ == REGISTRY_ASSET@,
            forall|j: int| 0 <= j < i ==> (#[trigger] release.assets@[j]).name@ != REGISTRY_ASSET@,
        decreases release.assets@.len() - i,
    {
        let asset = &release.assets[i];
        if asset.name.eq(&wanted) {
            let url = asset.browser_download_url.clone();
            assert(is_first_named(release.assets@, REGISTRY_ASSET@, i as int));
            return Ok(url);
        }
        i = i + 1;
    }
    Err(LoadError::Acquisition)
}

/// The text of the entry called `name` in the zip archive `archive`; none
/// when the archive is malformed, has no such entry, or the entry is not
/// UTF-8 text.
pub uninterp spec fn zip_entry_text(archive: Seq<u8>, name: Seq<char>) -> Option<Seq<char>>;

/// The text held by an optional string.
pub open spec fn text_of(r: Option<String>) -> Option<Seq<char>> {
    match r {
        Some(s) => Some(s@),
        None => None,
    }
}

/// Relies on zip's `ZipArchive::new` and `ZipArchive::by_name`, read out with
/// `Read::read_to_string`: the text of one entry of an in-memory archive,
/// which depends on the bytes and the name alone.
#[verifier::external_body]
fn read_zip_entry(archive: &[u8], name: &str) -> (r: Option<String>)
    ensures
        text_of(r) == zip_entry_text(archive@, name@),
{
    let mut zip = zip::ZipArchive::new(std::io::Cursor::new(archive)).ok()?;
    let mut entry = zip.by_name(name).ok()?;
    let mut text = String::new();
    std::io::Read::read_to_string(&mut entry, &mut text).ok()?;
    Some(text)
}

/// The catalog document held in a downloaded release asset; an acquisition
/// error when the archive cannot be read or lacks the document.
pub fn extract_registry(archive: &Vec<u8>) -> (r: Result<String, LoadError>)
    ensures
        match zip_entry_text(archive@, REGISTRY_FILE@) {
            Some(text) => r is Ok && r->Ok_0@ == text,
            None => r == Err::<String, LoadError>(LoadError::Acquisition),
        },
{
    match read_zip_entry(archive.as_slice(), REGISTRY_FILE) {
        Some(text) => Ok(text),
        None => Err(LoadError::Acquisition),
    }
}

/// Where loading the catalog stands.
#[derive(Clone, Copy, Debug, PartialEq, Eq, Structural)]
pub enum LoadPhase {
    /// Nothing done yet: the cache is to be probed.
    Start,
    /// The cache was missing and a refresh is under way.
    Refreshing,
    /// The cache file is being read and parsed.
    Reading,
    /// The snapshot is loaded and the browser runs.
    Browsing,
    /// Loading failed; the program ends without touching the terminal.
    Aborted(LoadError),
}

/// What the outside world reports back to the loader.
#[derive(Clone, Copy, Debug, PartialEq, Eq, Structural)]
pub enum LoadEvent {
    /// The cache file was looked for.
    CacheChecked { exists: bool },
    /// The refresh finished: the document was fetched, extracted and
    /// written to the cache, or something on the way failed.
    Refreshed { ok: bool },
    /// The cache file could not be read.
    CacheUnreadable,
    /// The cache file was read but holds no valid list of records.
    ParseFailed,
    /// The cache file was read and parsed.
    Parsed,
}

/// What the loader asks the outside world to do next.
#[derive(Clone, Copy, Debug, PartialEq, Eq, Structural)]
pub enum LoadAction {
    /// Fetch the remote catalog and write it to the cache.
    Refresh,
    /// Read and parse the cache file.
    ReadCache,
    /// Take over the terminal and run the browser.
    Browse,
    /// End the program with this error.
    Abort(LoadError),
    /// The event does not fit the phase: nothing to do.
    Wait,
}

/// The loading policy: the cache is fetched once, only when it is missing;
/// any failure on the way is fatal; the browser starts only on a parsed
/// snapshot.
pub open spec fn load_transition(phase: LoadPhase, event: LoadEvent) -> (LoadPhase, LoadAction) {
    match (phase, event) {
        (LoadPhase::Start, LoadEvent::CacheChecked { exists: true }) => (
            LoadPhase::Reading,
            LoadAction::ReadCache,
        ),
        (LoadPhase::Start, LoadEvent::CacheChecked { exists: false }) => (
            LoadPhase::Refreshing,
            LoadAction::Refresh,
        ),
        (LoadPhase::Refreshing, LoadEvent::Refreshed { ok: true }) => (
            LoadPhase::Reading,
            LoadAction::ReadCache,
        ),
        (LoadPhase::Refreshing, LoadEvent::Refreshed { ok: false }) => (
            LoadPhase::Aborted(LoadError::Acquisition),
            LoadAction::Abort(LoadError::Acquisition),
        ),
        (LoadPhase::Reading, LoadEvent::CacheUnreadable) => (
            LoadPhase::Aborted(LoadError::CacheRead),
            LoadAction::Abort(LoadError::CacheRead),
        ),
        (LoadPhase::Reading, LoadEvent::ParseFailed) => (
            LoadPhase::Aborted(LoadError::Parse),
            LoadAction::Abort(LoadError::Parse),
        ),
        (LoadPhase::Reading, LoadEvent::Parsed) => (LoadPhase::Browsing, LoadAction::Browse),
        _ => (phase, LoadAction::Wait),
    }
}

/// Advances the loader by one event.
pub fn load_step(phase: LoadPhase, event: LoadEvent) -> (r: (LoadPhase, LoadAction))
    ensures
        r == load_transition(phase, event),
{
    match (phase, event) {
        (LoadPhase::Start, LoadEvent::CacheChecked { exists }) => {
            if exists {
                (LoadPhase::Reading, LoadAction::ReadCache)
            } else {
                (LoadPhase::Refreshing, LoadAction::Refresh)
            }
        },
        (LoadPhase::Refreshing, LoadEvent::Refreshed { ok }) => {
            if ok {
                (LoadPhase::Reading, LoadAction::ReadCache)
            } else {
                (LoadPhase::Aborted(LoadError::Acquisition), LoadAction::Abort(LoadError::Acquisition))
            }
        },
        (LoadPhase::Reading, LoadEvent::CacheUnreadable) => {
            (LoadPhase::Aborted(LoadError::CacheRead), LoadAction::Abort(LoadError::CacheRead))
        },
        (LoadPhase::Reading, LoadEvent::ParseFailed) => {
            (LoadPhase::Aborted(LoadError::Parse), LoadAction::Abort(LoadError::Parse))
        },
        (LoadPhase::Reading, LoadEvent::Parsed) => (LoadPhase::Browsing, LoadAction::Browse),
        _ => (phase, LoadAction::Wait),
    }
}

/// The phase reached and the actions asked for along `events`, from `phase` on.
pub open spec fn load_run(phase: LoadPhase, events: Seq<LoadEvent>) -> (LoadPhase, Seq<LoadAction>)
    decreases events.len(),
{
    if events.len() == 0 {
        (phase, Seq::empty())
    } else {
        let (next, action) = load_transition(phase, events[0]);
        let (last, rest) = load_run(next, events.drop_first());
        (last, seq![action] + rest)
    }
}

/// Number of refreshes among `actions`.
pub open spec fn refresh_count(actions: Seq<LoadAction>) -> nat
    decreases actions.len(),
{
    if actions.len() == 0 {
        0
    } else {
        (if actions[0] == LoadAction::Refresh {
            1nat
        } else {
            0nat
        }) + refresh_count(actions.drop_first())
    }
}

/// No phase but `Start` leads to a refresh.
proof fn lemma_no_refresh_after_start(phase: LoadPhase, events: Seq<LoadEvent>)
    requires
        phase != LoadPhase::Start,
    ensures
        refresh_count(load_run(phase, events).1) == 0,
    decreases events.len(),
{
    if events.len() > 0 {
        let next = load_transition(phase, events[0]).0;
        lemma_no_refresh_after_start(next, events.drop_first());
        let actions = load_run(phase, events).1;
        assert(actions.drop_first() =~= load_run(next, events.drop_first()).1);
    }
}

/// Whatever the outside world reports, a load fetches the catalog at most once.
pub proof fn lemma_refresh_at_most_once(events: Seq<LoadEvent>)
    ensures
        refresh_count(load_run(LoadPhase::Start, events).1) <= 1,
    decreases events.len(),
{
    if events.len() > 0 {
        let next = load_transition(LoadPhase::Start, events[0]).0;
        if next != LoadPhase::Start {
            lemma_no_refresh_after_start(next, events.drop_first());
        } else {
            lemma_refresh_at_most_once(events.drop_first());
        }
        let actions = load_run(LoadPhase::Start, events).1;
        assert(actions.drop_first() =~= load_run(next, events.drop_first()).1);
    }
}

/// An aborted load stays aborted with its error and asks for nothing more:
/// in particular it never starts the browser.
pub proof fn lemma_aborted_is_final(e: LoadError, events: Seq<LoadEvent>)
    ensures
        load_run(LoadPhase::Aborted(e), events).0 == LoadPhase::Aborted(e),
        load_run(LoadPhase::Aborted(e), events).1.len() == events.len(),
        forall|i: int|
            0 <= i < events.len() ==> #[trigger] load_run(LoadPhase::Aborted(e), events).1[i]
                == LoadAction::Wait,
    decreases events.len(),
{
    if events.len() > 0 {
        lemma_aborted_is_final(e, events.drop_first());
        let actions = load_run(LoadPhase::Aborted(e), events).1;
        assert forall|i: int| 0 <= i < events.len() implies #[trigger] actions[i]
            == LoadAction::Wait by {
            if i > 0 {
                assert(actions[i] == load_run(LoadPhase::Aborted(e), events.drop_first()).1[i - 1]);
            }
        }
    }
}

} // verus!
