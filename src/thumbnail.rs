use vstd::prelude::*;
use image::ImageFormat;
use crate::cache::{cache_path_of, opt_view, try_get_cache_path};
use crate::engine::ThumbnailProcessor;
use crate::error::{thumbnail_error_of, ReadImageError, ReadThumbnailError};
use crate::format::{format_mime, mime_of, requested_format, resolve_format};
use crate::engine::thumbnail_of;
use crate::path::{contains_parent_component, has_parent_component, resolved, store_key_of, EntryKind};

verus! {

/// A thumbnail ready to be sent: its encoded bytes and their MIME type.
pub struct Thumbnail {
    bytes: Vec<u8>,
    mime: String,
}

impl Thumbnail {
    pub closed spec fn bytes_view(&self) -> Seq<u8> {
        self.bytes@
    }

    pub closed spec fn mime_view(&self) -> Seq<char> {
        self.mime@
    }

    pub fn new(bytes: Vec<u8>, mime: String) -> (r: Thumbnail)
        ensures
            r.bytes_view() == bytes@,
            r.mime_view() == mime@,
    {
        Thumbnail { bytes, mime }
    }

    pub fn get_mime(&self) -> (r: String)
        ensures
            r@ == self.mime_view(),
    {
        self.mime.clone()
    }

    pub fn get_bytes(&self) -> (r: &Vec<u8>)
        ensures
            r@ == self.bytes_view(),
    {
        &self.bytes
    }

    pub fn into_parts(self) -> (r: (Vec<u8>, String))
        ensures
            r.0@ == self.bytes_view(),
            r.1@ == self.mime_view(),
    {
        (self.bytes, self.mime)
    }
}

/// Where a thumbnail request stands.
#[derive(PartialEq, Eq, Structural, Clone, Copy, Debug)]
pub enum Stage {
    /// Waiting for the cache file's content, if there is one.
    LookupCache,
    /// Waiting for the original from the image source.
    FetchOriginal,
    /// Waiting for the thumbnail engine.
    Generate,
    /// Waiting for the best-effort cache write.
    PersistCache,
    /// The reply has been given.
    Done,
}

/// What the caller observed while carrying out the last action.
pub enum Event {
    /// The cache file's bytes, or `None` when it is absent or unreadable.
    CacheLookedUp(Option<Vec<u8>>),
    OriginalFetched(Result<Vec<u8>, ReadImageError>),
    Generated(Result<Vec<u8>, ReadThumbnailError>),
    /// Whether the cache write succeeded; either way the request succeeds.
    CacheWritten(bool),
}

/// What the caller has to do next.
pub enum Action {
    /// Read the cache file at `path`, if it exists.
    ReadCache { path: String },
    /// Fetch the original named `identity` from the image source.
    FetchOriginal { identity: String },
    /// Run `processor.process_image(&original)` on the worker pool.
    Generate { original: Vec<u8>, processor: ThumbnailProcessor },
    /// Write `bytes` to `path`, creating directories as needed, through a temporary file.
    WriteCache { path: String, bytes: Vec<u8> },
    /// Answer the request.
    Reply(Result<Thumbnail, ReadThumbnailError>),
}

pub enum EventView {
    CacheLookedUp(Option<Seq<u8>>),
    OriginalFetched(Result<Seq<u8>, ReadImageError>),
    Generated(Result<Seq<u8>, ReadThumbnailError>),
    CacheWritten(bool),
}

pub enum ActionView {
    ReadCache(Seq<char>),
    FetchOriginal(Seq<char>),
    Generate(Seq<u8>, u32, ImageFormat),
    WriteCache(Seq<char>, Seq<u8>),
    Reply(Result<(Seq<u8>, Seq<char>), ReadThumbnailError>),
}

pub struct JobView {
    pub identity: Seq<char>,
    pub largest_side: u32,
    pub format: ImageFormat,
    pub cache_path: Option<Seq<char>>,
    pub stage: Stage,
    pub generated: Seq<u8>,
}

impl View for Event {
    type V = EventView;

    open spec fn view(&self) -> EventView {
        match self {
            Event::CacheLookedUp(c) => EventView::CacheLookedUp(
                match c {
                    Some(b) => Some(b@),
                    None => None,
                },
            ),
            Event::OriginalFetched(o) => EventView::OriginalFetched(
                match o {
                    Ok(b) => Ok(b@),
                    Err(e) => Err(*e),
                },
            ),
            Event::Generated(g) => EventView::Generated(
                match g {
                    Ok(b) => Ok(b@),
                    Err(e) => Err(*e),
                },
            ),
            Event::CacheWritten(w) => EventView::CacheWritten(*w),
        }
    }
}

impl View for Action {
    type V = ActionView;

    open spec fn view(&self) -> ActionView {
        match self {
            Action::ReadCache { path } => ActionView::ReadCache(path@),
            Action::FetchOriginal { identity } => ActionView::FetchOriginal(identity@),
            Action::Generate { original, processor } => ActionView::Generate(
                original@,
                processor.largest_side,
                processor.requested_format,
            ),
            Action::WriteCache { path, bytes } => ActionView::WriteCache(path@, bytes@),
            Action::Reply(r) => ActionView::Reply(
                match r {
                    Ok(t) => Ok((t.bytes_view(), t.mime_view())),
                    Err(e) => Err(*e),
                },
            ),
        }
    }
}

/// The reply that carries `bytes` as a thumbnail of `job`'s format.
pub open spec fn success(job: JobView, bytes: Seq<u8>) -> ActionView {
    ActionView::Reply(Ok((bytes, format_mime(job.format))))
}

pub open spec fn finished(job: JobView) -> JobView {
    JobView { stage: Stage::Done, ..job }
}

/// The first stage and action of a request for the thumbnail of `identity`, at most
/// `largest_side` on its larger side, in the format named by `extension`.
pub open spec fn start(
    cache_directory: Option<Seq<char>>,
    identity: Seq<char>,
    largest_side: u32,
    extension: Seq<char>,
) -> (JobView, ActionView) {
    let format = requested_format(extension);
    let cache_path = cache_path_of(cache_directory, identity, format, largest_side);
    let job = JobView {
        identity,
        largest_side,
        format,
        cache_path,
        stage: Stage::LookupCache,
        generated: Seq::empty(),
    };
    if has_parent_component(identity) {
        (finished(job), ActionView::Reply(Err(ReadThumbnailError::ForbiddenPath)))
    } else {
        match cache_path {
            Some(p) => (job, ActionView::ReadCache(p)),
            None => (
                JobView { stage: Stage::FetchOriginal, ..job },
                ActionView::FetchOriginal(identity),
            ),
        }
    }
}

/// Whether `event` answers the action that `job` is waiting on.
pub open spec fn accepts(job: JobView, event: EventView) -> bool {
    match (job.stage, event) {
        (Stage::LookupCache, EventView::CacheLookedUp(_)) => true,
        (Stage::FetchOriginal, EventView::OriginalFetched(_)) => true,
        (Stage::Generate, EventView::Generated(_)) => true,
        (Stage::PersistCache, EventView::CacheWritten(_)) => true,
        _ => false,
    }
}

/// The next stage and action after `event`.
pub open spec fn step(job: JobView, event: EventView) -> (JobView, ActionView) {
    match event {
        EventView::CacheLookedUp(Some(bytes)) => (finished(job), success(job, bytes)),
        EventView::CacheLookedUp(None) => (
            JobView { stage: Stage::FetchOriginal, ..job },
            ActionView::FetchOriginal(job.identity),
        ),
        EventView::OriginalFetched(Err(e)) => (
            finished(job),
            ActionView::Reply(Err(thumbnail_error_of(e))),
        ),
        EventView::OriginalFetched(Ok(original)) => (
            JobView { stage: Stage::Generate, ..job },
            ActionView::Generate(original, job.largest_side, job.format),
        ),
        EventView::Generated(Err(e)) => (finished(job), ActionView::Reply(Err(e))),
        EventView::Generated(Ok(bytes)) => match job.cache_path {
            Some(p) => (
                JobView { stage: Stage::PersistCache, generated: bytes, ..job },
                ActionView::WriteCache(p, bytes),
            ),
            None => (finished(job), success(job, bytes)),
        },
        EventView::CacheWritten(_) => (finished(job), success(job, job.generated)),
    }
}

/// A copy of `v`.
fn copy_bytes(v: &Vec<u8>) -> (r: Vec<u8>)
    ensures
        r@ == v@,
{
    let mut r: Vec<u8> = Vec::with_capacity(v.len());
    let mut i: usize = 0;
    while i < v.len()
        invariant
            i <= v.len(),
            r@ == v@.subrange(0, i as int),
        decreases v.len() - i,
    {
        r.push(v[i]);
        i = i + 1;
        assert(r@ =~= v@.subrange(0, i as int));
    }
    assert(v@.subrange(0, v.len() as int) =~= v@);
    r
}

/// One thumbnail request, from cache lookup to reply. It decides; the caller does the
/// I/O that each `Action` asks for and reports back with an `Event`. A cache-write
/// failure never changes the reply.
pub struct ThumbnailJob {
    identity: String,
    largest_side: u32,
    format: ImageFormat,
    cache_path: Option<String>,
    stage: Stage,
    generated: Vec<u8>,
}

impl View for ThumbnailJob {
    type V = JobView;

    closed spec fn view(&self) -> JobView {
        JobView {
            identity: self.identity@,
            largest_side: self.largest_side,
            format: self.format,
            cache_path: opt_view(self.cache_path),
            stage: self.stage,
            generated: self.generated@,
        }
    }
}

impl ThumbnailJob {
    /// Starts a request. An identity with a `..` component is refused at once, before
    /// the cache is consulted; an unknown format falls back to JPEG.
    pub fn new(
        cache_directory: &Option<String>,
        identity: &str,
        largest_side: u32,
        requested_extension: &str,
    ) -> (r: (ThumbnailJob, Action))
        ensures
            (r.0@, r.1@) == start(
                opt_view(*cache_directory),
                identity@,
                largest_side,
                requested_extension@,
            ),
            has_parent_component(identity@) ==> r.1@ == ActionView::Reply(
                Err(ReadThumbnailError::ForbiddenPath),
            ),
    {
        let format = resolve_format(requested_extension);
        let cache_path = try_get_cache_path(cache_directory, identity, format, largest_side);
        let mut job = ThumbnailJob {
            identity: String::from_str(identity),
            largest_side,
            format,
            cache_path,
            stage: Stage::LookupCache,
            generated: Vec::new(),
        };
        assert(job@.generated =~= Seq::<u8>::empty());
        if contains_parent_component(identity) {
            job.stage = Stage::Done;
            return (job, Action::Reply(Err(ReadThumbnailError::ForbiddenPath)));
        }
        match &job.cache_path {
            Some(p) => {
                let path = p.clone();
                (job, Action::ReadCache { path })
            },
            None => {
                job.stage = Stage::FetchOriginal;
                let identity = job.identity.clone();
                (job, Action::FetchOriginal { identity })
            },
        }
    }

    pub fn stage(&self) -> (r: Stage)
        ensures
            r == self@.stage,
    {
        self.stage
    }

    /// Whether `event` answers the action this request waits on.
    pub fn accepts(&self, event: &Event) -> (r: bool)
        ensures
            r == accepts(self@, event@),
    {
        match (self.stage, event) {
            (Stage::LookupCache, Event::CacheLookedUp(_)) => true,
            (Stage::FetchOriginal, Event::OriginalFetched(_)) => true,
            (Stage::Generate, Event::Generated(_)) => true,
            (Stage::PersistCache, Event::CacheWritten(_)) => true,
            _ => false,
        }
    }

    fn reply_with(&self, bytes: Vec<u8>) -> (r: Action)
        ensures
            r@ == success(self@, bytes@),
    {
        let mime = mime_of(self.format);
        Action::Reply(Ok(Thumbnail::new(bytes, mime)))
    }

    /// Takes the outcome of the last action and says what to do next.
    pub fn advance(&mut self, event: Event) -> (r: Action)
        requires
            accepts(old(self)@, event@),
        ensures
            (final(self)@, r@) == step(old(self)@, event@),
    {
        match event {
            Event::CacheLookedUp(Some(bytes)) => {
                self.stage = Stage::Done;
                self.reply_with(bytes)
            },
            Event::CacheLookedUp(None) => {
                self.stage = Stage::FetchOriginal;
                Action::FetchOriginal { identity: self.identity.clone() }
            },
            Event::OriginalFetched(Err(e)) => {
                self.stage = Stage::Done;
                Action::Reply(Err(ReadThumbnailError::from(e)))
            },
            Event::OriginalFetched(Ok(original)) => {
                self.stage = Stage::Generate;
                let processor = ThumbnailProcessor {
                    requested_format: self.format,
                    largest_side: self.largest_side,
                };
                Action::Generate { original, processor }
            },
            Event::Generated(Err(e)) => {
                self.stage = Stage::Done;
                Action::Reply(Err(e))
            },
            Event::Generated(Ok(bytes)) => {
                match &self.cache_path {
                    Some(p) => {
                        let path = p.clone();
                        let copy = copy_bytes(&bytes);
                        self.generated = bytes;
                        self.stage = Stage::PersistCache;
                        Action::WriteCache { path, bytes: copy }
                    },
                    None => {
                        self.stage = Stage::Done;
                        self.reply_with(bytes)
                    },
                }
            },
            Event::CacheWritten(_) => {
                self.stage = Stage::Done;
                let bytes = copy_bytes(&self.generated);
                self.reply_with(bytes)
            },
        }
    }
}

/// An identity with a `..` component is refused with `ForbiddenPath` everywhere: by a
/// local root whatever the filesystem holds, by a remote store, and by a thumbnail
/// request before the cache is consulted.
pub proof fn lemma_parent_component_forbidden(
    root: Seq<char>,
    entry: EntryKind,
    cache_directory: Option<Seq<char>>,
    identity: Seq<char>,
    largest_side: u32,
    extension: Seq<char>,
)
    requires
        has_parent_component(identity),
    ensures
        resolved(root, identity, entry) == Err::<Seq<char>, ReadImageError>(
            ReadImageError::ForbiddenPath,
        ),
        store_key_of(identity) == Err::<Seq<char>, ReadImageError>(ReadImageError::ForbiddenPath),
        start(cache_directory, identity, largest_side, extension).1 == ActionView::Reply(
            Err(ReadThumbnailError::ForbiddenPath),
        ),
        start(cache_directory, identity, largest_side, extension).0.stage == Stage::Done,
{
}

/// Asking twice for the same thumbnail gives the same bytes. The first request misses
/// the cache, generates the thumbnail of the original and writes it to the cache path;
/// the second finds those bytes there and replies with them, without fetching.
pub proof fn lemma_repeat_request_hits_cache(
    cache_directory: Option<Seq<char>>,
    identity: Seq<char>,
    largest_side: u32,
    extension: Seq<char>,
    original: Seq<u8>,
    written: bool,
)
    requires
        start(cache_directory, identity, largest_side, extension).1 is ReadCache,
        thumbnail_of(original, largest_side, requested_format(extension)) is Ok,
    ensures
        ({
            let (j0, a0) = start(cache_directory, identity, largest_side, extension);
            let generated = thumbnail_of(original, largest_side, j0.format)->Ok_0;
            let (j1, a1) = step(j0, EventView::CacheLookedUp(None));
            let (j2, a2) = step(j1, EventView::OriginalFetched(Ok(original)));
            let (j3, a3) = step(j2, EventView::Generated(Ok(generated)));
            let (j4, a4) = step(j3, EventView::CacheWritten(written));
            let (k1, b1) = step(j0, EventView::CacheLookedUp(Some(generated)));
            &&& a1 == ActionView::FetchOriginal(identity)
            &&& a2 == ActionView::Generate(original, largest_side, j0.format)
            &&& a3 == ActionView::WriteCache(a0->ReadCache_0, generated)
            &&& a4 == success(j0, generated)
            &&& b1 == a4
            &&& j4.stage == Stage::Done
            &&& k1.stage == Stage::Done
        }),
{
}

/// The cache is only an optimisation: on a miss, a request with a cache directory
/// replies exactly as the same request without one, whatever the cache write did.
pub proof fn lemma_cache_does_not_change_reply(
    cache_directory: Seq<char>,
    identity: Seq<char>,
    largest_side: u32,
    extension: Seq<char>,
    original: Result<Seq<u8>, ReadImageError>,
    generated: Result<Seq<u8>, ReadThumbnailError>,
    written: bool,
)
    requires
        start(Some(cache_directory), identity, largest_side, extension).1 is ReadCache,
    ensures
        ({
            let (c0, _) = start(Some(cache_directory), identity, largest_side, extension);
            let (c1, _) = step(c0, EventView::CacheLookedUp(None));
            let (c2, x2) = step(c1, EventView::OriginalFetched(original));
            let (c3, x3) = step(c2, EventView::Generated(generated));
            let (_, x4) = step(c3, EventView::CacheWritten(written));
            let (n0, y0) = start(None, identity, largest_side, extension);
            let (n1, y1) = step(n0, EventView::OriginalFetched(original));
            let (_, y2) = step(n1, EventView::Generated(generated));
            &&& y0 == ActionView::FetchOriginal(identity)
            &&& x2 == y1
            &&& (original is Err ==> x2 is Reply)
            &&& (original is Ok && generated is Err ==> x3 == y2)
            &&& (original is Ok && generated is Ok ==> x4 == y2)
        }),
{
}

} // verus!
