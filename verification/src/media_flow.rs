//! The event media page's decisions: picking, clearing and uploading files,
//! the media tabs, deleting an item, and the answers to the page's
//! requests. The requests themselves are made by the caller.
use vstd::prelude::*;
use crate::json::opt_view;
use crate::eventmgmt::{
    select_valid_files, kept_files, lemma_kept_files_valid, file_kind_error, selection_errors, tab_media_kind, texts, FileCandidate,
    ManagedEvent, MediaAsset, MediaKind, MediaTab, PendingFile, UploadBytes, EVENT_FETCH_FALLBACK,
    EVENT_LOAD_ERROR, MAX_DOCUMENT_FILES, MAX_IMAGE_FILES, MAX_SIZE_MB, UPLOAD_ACTION,
};

verus! {

/// Everything the media page holds between two steps.
pub struct MediaState {
    pub loading: bool,
    pub error: Option<String>,
    pub event: Option<ManagedEvent>,
    pub tab: MediaTab,
    pub media: Vec<MediaAsset>,
    pub media_loading: bool,
    pub media_error: Option<String>,
    pub pending_images: Vec<PendingFile>,
    pub pending_docs: Vec<PendingFile>,
    /// The contents of the picked images, as far as they have been read.
    pub image_files: Vec<UploadBytes>,
    /// The contents of the picked documents, as far as they have been read.
    pub doc_files: Vec<UploadBytes>,
    pub upload_errors: Vec<String>,
    pub action_loading: Option<String>,
    pub selected_media: Option<MediaAsset>,
    /// The number of the latest media request; older answers are dropped.
    pub fetch_gen: u32,
}

pub struct MediaStateView {
    pub loading: bool,
    pub error: Option<Seq<char>>,
    pub event: Option<ManagedEvent>,
    pub tab: MediaTab,
    pub media: Seq<MediaAsset>,
    pub media_loading: bool,
    pub media_error: Option<Seq<char>>,
    pub pending_images: Seq<PendingFile>,
    pub pending_docs: Seq<PendingFile>,
    pub image_files: Seq<UploadBytes>,
    pub doc_files: Seq<UploadBytes>,
    pub upload_errors: Seq<Seq<char>>,
    pub action_loading: Option<Seq<char>>,
    pub selected_media: Option<MediaAsset>,
    pub fetch_gen: u32,
}

impl View for MediaState {
    type V = MediaStateView;

    open spec fn view(&self) -> MediaStateView {
        MediaStateView {
            loading: self.loading,
            error: opt_view(self.error),
            event: self.event,
            tab: self.tab,
            media: self.media@,
            media_loading: self.media_loading,
            media_error: opt_view(self.media_error),
            pending_images: self.pending_images@,
            pending_docs: self.pending_docs@,
            image_files: self.image_files@,
            doc_files: self.doc_files@,
            upload_errors: texts(self.upload_errors@),
            action_loading: opt_view(self.action_loading),
            selected_media: self.selected_media,
            fetch_gen: self.fetch_gen,
        }
    }
}

/// What happens on the media page: a click, a pick, or an answer.
pub enum MediaInput {
    Tab(MediaTab),
    Pick(MediaKind, Vec<FileCandidate>),
    FilesRead(MediaKind, Vec<UploadBytes>),
    Clear(MediaKind),
    Upload(MediaKind),
    /// The answer to an upload, with the tab it was started from.
    UploadFinished(MediaKind, MediaTab, Result<(), String>),
    DeleteMedia(String),
    MediaDeleted(Result<(), String>),
    MediaLoaded(u32, Result<Vec<MediaAsset>, String>),
    EventLoaded(Result<ManagedEvent, String>),
    OpenLightbox(MediaAsset),
    CloseLightbox,
}

/// The request a step starts, if any.
pub enum MediaEffect {
    Nothing,
    /// Load the event and its media (of the given kind, or all) under the
    /// given number.
    LoadPage(u32, Option<MediaKind>),
    /// Load the media again under the given number.
    FetchMedia(u32, Option<MediaKind>),
    /// Read the contents of the picked files with these names.
    ReadFiles(MediaKind, Vec<String>),
    /// Upload the files; the tab goes back with the answer.
    Upload(MediaKind, Vec<UploadBytes>, MediaTab),
    DeleteMedia(String),
}

pub enum MediaEffectView {
    Nothing,
    LoadPage(u32, Option<MediaKind>),
    FetchMedia(u32, Option<MediaKind>),
    ReadFiles(MediaKind, Seq<Seq<char>>),
    Upload(MediaKind, Seq<UploadBytes>, MediaTab),
    DeleteMedia(Seq<char>),
}

impl View for MediaEffect {
    type V = MediaEffectView;

    open spec fn view(&self) -> MediaEffectView {
        match self {
            MediaEffect::Nothing => MediaEffectView::Nothing,
            MediaEffect::LoadPage(g, k) => MediaEffectView::LoadPage(*g, *k),
            MediaEffect::FetchMedia(g, k) => MediaEffectView::FetchMedia(*g, *k),
            MediaEffect::ReadFiles(k, names) => MediaEffectView::ReadFiles(*k, texts(names@)),
            MediaEffect::Upload(k, files, t) => MediaEffectView::Upload(*k, files@, *t),
            MediaEffect::DeleteMedia(id) => MediaEffectView::DeleteMedia(id@),
        }
    }
}

/// The kind of media a tab shows: all, images or documents.
pub open spec fn tab_kind(t: MediaTab) -> Option<MediaKind> {
    match t {
        MediaTab::All => None,
        MediaTab::Images => Some(MediaKind::Image),
        MediaTab::Documents => Some(MediaKind::Document),
    }
}

/// The number after `g`, wrapping round at the top.
pub open spec fn next_media_gen(g: u32) -> u32 {
    if g == u32::MAX {
        0
    } else {
        (g + 1) as u32
    }
}

/// The page as it opens: the event and all its media loading.
pub open spec fn media_opening() -> MediaStateView {
    MediaStateView {
        loading: true,
        error: None,
        event: None,
        tab: MediaTab::All,
        media: Seq::empty(),
        media_loading: true,
        media_error: None,
        pending_images: Seq::empty(),
        pending_docs: Seq::empty(),
        image_files: Seq::empty(),
        doc_files: Seq::empty(),
        upload_errors: Seq::empty(),
        action_loading: None,
        selected_media: None,
        fetch_gen: 1,
    }
}

/// The files of a kind waiting to be uploaded.
pub open spec fn pending_of(s: MediaStateView, k: MediaKind) -> Seq<PendingFile> {
    match k {
        MediaKind::Image => s.pending_images,
        MediaKind::Document => s.pending_docs,
    }
}

/// The read contents of the picked files of a kind.
pub open spec fn files_of(s: MediaStateView, k: MediaKind) -> Seq<UploadBytes> {
    match k {
        MediaKind::Image => s.image_files,
        MediaKind::Document => s.doc_files,
    }
}

pub open spec fn with_pending(s: MediaStateView, k: MediaKind, p: Seq<PendingFile>) -> MediaStateView {
    match k {
        MediaKind::Image => MediaStateView { pending_images: p, ..s },
        MediaKind::Document => MediaStateView { pending_docs: p, ..s },
    }
}

pub open spec fn with_files(s: MediaStateView, k: MediaKind, f: Seq<UploadBytes>) -> MediaStateView {
    match k {
        MediaKind::Image => MediaStateView { image_files: f, ..s },
        MediaKind::Document => MediaStateView { doc_files: f, ..s },
    }
}

/// How many files of a kind the page takes.
pub open spec fn max_files_of(k: MediaKind) -> u32 {
    match k {
        MediaKind::Image => MAX_IMAGE_FILES,
        MediaKind::Document => MAX_DOCUMENT_FILES,
    }
}

/// A kept file as it waits for upload.
pub open spec fn pending_entry(c: FileCandidate, k: MediaKind) -> PendingFile {
    PendingFile { name: c.name, size: c.size, mime: c.mime, kind: k }
}

/// Starts a media request for the tab: a new number, loading, the error
/// cleared.
pub open spec fn refetch_media(s: MediaStateView, t: MediaTab) -> (MediaStateView, MediaEffectView) {
    let g = next_media_gen(s.fetch_gen);
    (
        MediaStateView { fetch_gen: g, media_loading: true, media_error: None, ..s },
        MediaEffectView::FetchMedia(g, tab_kind(t)),
    )
}

/// The message shown when the event cannot be loaded.
pub open spec fn event_error_text(m: Seq<char>) -> Seq<char> {
    if m == EVENT_FETCH_FALLBACK@ {
        EVENT_LOAD_ERROR@
    } else {
        m
    }
}

/// What one step does to the media page, and the request it starts.
pub open spec fn media_transition(s: MediaStateView, input: MediaInput) -> (MediaStateView, MediaEffectView) {
    match input {
        MediaInput::Tab(t) => refetch_media(MediaStateView { tab: t, ..s }, t),
        MediaInput::Pick(k, cs) => {
            let existing = pending_of(s, k).len() as u32;
            let kept = kept_files(cs@, existing, max_files_of(k), k, MAX_SIZE_MB);
            let errs = selection_errors(cs@, existing, max_files_of(k), k, MAX_SIZE_MB);
            let t = MediaStateView { upload_errors: errs, ..s };
            if kept.len() == 0 {
                (t, MediaEffectView::Nothing)
            } else {
                (
                    with_pending(t, k, pending_of(s, k) + kept.map_values(|c: FileCandidate| pending_entry(c, k))),
                    MediaEffectView::ReadFiles(k, kept.map_values(|c: FileCandidate| c.name@)),
                )
            }
        },
        MediaInput::FilesRead(k, fs) => (with_files(s, k, files_of(s, k) + fs@), MediaEffectView::Nothing),
        MediaInput::Clear(k) => (
            with_files(
                with_pending(MediaStateView { upload_errors: Seq::empty(), ..s }, k, Seq::empty()),
                k,
                Seq::empty(),
            ),
            MediaEffectView::Nothing,
        ),
        MediaInput::Upload(k) => {
            let files = files_of(s, k);
            let t = with_files(s, k, Seq::empty());
            if files.len() == 0 || s.action_loading == Some(UPLOAD_ACTION@) {
                (t, MediaEffectView::Nothing)
            } else {
                (
                    MediaStateView { action_loading: Some(UPLOAD_ACTION@), ..t },
                    MediaEffectView::Upload(k, files, s.tab),
                )
            }
        },
        MediaInput::UploadFinished(k, tab, res) => {
            let idle = MediaStateView { action_loading: None, ..s };
            match res {
                Ok(_) => refetch_media(
                    with_pending(MediaStateView { upload_errors: Seq::empty(), ..idle }, k, Seq::empty()),
                    tab,
                ),
                Err(m) => (
                    MediaStateView { upload_errors: s.upload_errors.push(m@), ..idle },
                    MediaEffectView::Nothing,
                ),
            }
        },
        MediaInput::DeleteMedia(id) => (s, MediaEffectView::DeleteMedia(id@)),
        MediaInput::MediaDeleted(res) => match res {
            Ok(_) => refetch_media(MediaStateView { selected_media: None, ..s }, s.tab),
            Err(m) => (MediaStateView { media_error: Some(m@), ..s }, MediaEffectView::Nothing),
        },
        MediaInput::MediaLoaded(g, res) => if g != s.fetch_gen {
            (s, MediaEffectView::Nothing)
        } else {
            match res {
                Ok(m) => (
                    MediaStateView { media: m@, media_loading: false, ..s },
                    MediaEffectView::Nothing,
                ),
                Err(m) => (
                    MediaStateView { media_error: Some(m@), media_loading: false, ..s },
                    MediaEffectView::Nothing,
                ),
            }
        },
        MediaInput::EventLoaded(res) => match res {
            Ok(e) => (
                MediaStateView { event: Some(e), error: None, loading: false, ..s },
                MediaEffectView::Nothing,
            ),
            Err(m) => (
                MediaStateView {
                    event: None,
                    error: Some(event_error_text(m@)),
                    loading: false,
                    ..s
                },
                MediaEffectView::Nothing,
            ),
        },
        MediaInput::OpenLightbox(a) => (MediaStateView { selected_media: Some(a), ..s }, MediaEffectView::Nothing),
        MediaInput::CloseLightbox => (MediaStateView { selected_media: None, ..s }, MediaEffectView::Nothing),
    }
}

/// The media page as it opens, and the request that loads it.
pub fn media_start() -> (r: (MediaState, MediaEffect))
    ensures
        r.0@ == media_opening(),
        r.1@ == MediaEffectView::LoadPage(1, None),
{
    let s = MediaState {
        loading: true,
        error: None,
        event: None,
        tab: MediaTab::All,
        media: Vec::new(),
        media_loading: true,
        media_error: None,
        pending_images: Vec::new(),
        pending_docs: Vec::new(),
        image_files: Vec::new(),
        doc_files: Vec::new(),
        upload_errors: Vec::new(),
        action_loading: None,
        selected_media: None,
        fetch_gen: 1,
    };
    assert(s@ =~= media_opening()) by {
        assert(s@.upload_errors =~= Seq::<Seq<char>>::empty());
    }
    (s, MediaEffect::LoadPage(1, tab_media_kind(MediaTab::All)))
}

fn begin_media_fetch(s: MediaState, t: MediaTab) -> (r: (MediaState, MediaEffect))
    ensures
        r.0@ == refetch_media(s@, t).0,
        r.1@ == refetch_media(s@, t).1,
{
    let mut s = s;
    s.fetch_gen = if s.fetch_gen == u32::MAX {
        0
    } else {
        s.fetch_gen + 1
    };
    s.media_loading = true;
    s.media_error = None;
    let g = s.fetch_gen;
    (s, MediaEffect::FetchMedia(g, tab_media_kind(t)))
}

fn take_pending(s: &mut MediaState, k: MediaKind) -> (r: Vec<PendingFile>)
    ensures
        r@ == pending_of(old(s)@, k),
        final(s)@ == with_pending(old(s)@, k, Seq::empty()),
{
    let mut out: Vec<PendingFile> = Vec::new();
    match k {
        MediaKind::Image => std::mem::swap(&mut out, &mut s.pending_images),
        MediaKind::Document => std::mem::swap(&mut out, &mut s.pending_docs),
    }
    out
}

fn take_files(s: &mut MediaState, k: MediaKind) -> (r: Vec<UploadBytes>)
    ensures
        r@ == files_of(old(s)@, k),
        final(s)@ == with_files(old(s)@, k, Seq::empty()),
{
    let mut out: Vec<UploadBytes> = Vec::new();
    match k {
        MediaKind::Image => std::mem::swap(&mut out, &mut s.image_files),
        MediaKind::Document => std::mem::swap(&mut out, &mut s.doc_files),
    }
    out
}

fn put_pending(s: &mut MediaState, k: MediaKind, p: Vec<PendingFile>)
    ensures
        final(s)@ == with_pending(old(s)@, k, p@),
{
    match k {
        MediaKind::Image => s.pending_images = p,
        MediaKind::Document => s.pending_docs = p,
    }
}

fn put_files(s: &mut MediaState, k: MediaKind, f: Vec<UploadBytes>)
    ensures
        final(s)@ == with_files(old(s)@, k, f@),
{
    match k {
        MediaKind::Image => s.image_files = f,
        MediaKind::Document => s.doc_files = f,
    }
}

fn is_event_fallback(m: &String) -> (b: bool)
    ensures
        b == (m@ == EVENT_FETCH_FALLBACK@),
{
    crate::text::str_eq(m.as_str(), EVENT_FETCH_FALLBACK)
}

/// Adds the kept files to those waiting, and lists their names.
fn queue_kept(pending: Vec<PendingFile>, kept: Vec<FileCandidate>, k: MediaKind) -> (r: (Vec<PendingFile>, Vec<String>))
    ensures
        r.0@ == pending@ + kept@.map_values(|c: FileCandidate| pending_entry(c, k)),
        texts(r.1@) == kept@.map_values(|c: FileCandidate| c.name@),
{
    let mut out = pending;
    let mut names: Vec<String> = Vec::new();
    let ghost start = out@;
    let n = kept.len();
    let mut i: usize = 0;
    while i < n
        invariant
            n == kept@.len(),
            i <= n,
            out@ == start + kept@.subrange(0, i as int).map_values(|c: FileCandidate| pending_entry(c, k)),
            texts(names@) == kept@.subrange(0, i as int).map_values(|c: FileCandidate| c.name@),
        decreases n - i,
    {
        let c = &kept[i];
        let ghost before = names@;
        names.push(c.name.clone());
        assert(texts(names@) =~= texts(before).push(kept@[i as int].name@));
        out.push(PendingFile { name: c.name.clone(), size: c.size, mime: c.mime.clone(), kind: k });
        assert(kept@.subrange(0, i + 1) =~= kept@.subrange(0, i as int).push(kept@[i as int]));
        assert(out@ =~= start + kept@.subrange(0, i + 1).map_values(|c: FileCandidate| pending_entry(c, k)));
        assert(texts(names@) =~= kept@.subrange(0, i + 1).map_values(|c: FileCandidate| c.name@));
        i = i + 1;
    }
    assert(kept@.subrange(0, n as int) =~= kept@);
    (out, names)
}

/// One step of the media page: the state after `input` and the request to
/// make.
pub fn media_step(state: MediaState, input: MediaInput) -> (r: (MediaState, MediaEffect))
    ensures
        r.0@ == media_transition(state@, input).0,
        r.1@ == media_transition(state@, input).1,
{
    let mut s = state;
    match input {
        MediaInput::Tab(t) => {
            s.tab = t;
            begin_media_fetch(s, t)
        },
        MediaInput::Pick(k, cs) => {
            let max_files = match k {
                MediaKind::Image => MAX_IMAGE_FILES,
                MediaKind::Document => MAX_DOCUMENT_FILES,
            };
            let existing = match k {
                MediaKind::Image => #[verifier::truncate] (s.pending_images.len() as u32),
                MediaKind::Document => #[verifier::truncate] (s.pending_docs.len() as u32),
            };
            let (kept, errors) = select_valid_files(cs.as_slice(), existing, max_files, k, MAX_SIZE_MB);
            s.upload_errors = errors;
            if kept.len() == 0 {
                return (s, MediaEffect::Nothing);
            }
            let pending = take_pending(&mut s, k);
            let (queued, names) = queue_kept(pending, kept, k);
            put_pending(&mut s, k, queued);
            (s, MediaEffect::ReadFiles(k, names))
        },
        MediaInput::FilesRead(k, fs) => {
            let mut files = take_files(&mut s, k);
            let mut more = fs;
            let ghost added = more@;
            files.append(&mut more);
            assert(files@ =~= files_of(state@, k) + added);
            put_files(&mut s, k, files);
            (s, MediaEffect::Nothing)
        },
        MediaInput::Clear(k) => {
            s.upload_errors = Vec::new();
            assert(texts(s.upload_errors@) =~= Seq::<Seq<char>>::empty());
            let _ = take_pending(&mut s, k);
            let _ = take_files(&mut s, k);
            (s, MediaEffect::Nothing)
        },
        MediaInput::Upload(k) => {
            let files = take_files(&mut s, k);
            let busy = match &s.action_loading {
                Some(a) => crate::text::str_eq(a.as_str(), UPLOAD_ACTION),
                None => false,
            };
            if files.len() == 0 || busy {
                (s, MediaEffect::Nothing)
            } else {
                s.action_loading = Some(String::from_str(UPLOAD_ACTION));
                let t = s.tab;
                (s, MediaEffect::Upload(k, files, t))
            }
        },
        MediaInput::UploadFinished(k, tab, res) => {
            s.action_loading = None;
            match res {
                Ok(()) => {
                    s.upload_errors = Vec::new();
                    assert(texts(s.upload_errors@) =~= Seq::<Seq<char>>::empty());
                    let _ = take_pending(&mut s, k);
                    begin_media_fetch(s, tab)
                },
                Err(m) => {
                    let ghost before = s.upload_errors@;
                    s.upload_errors.push(m);
                    assert(texts(s.upload_errors@) =~= texts(before).push(m@));
                    (s, MediaEffect::Nothing)
                },
            }
        },
        MediaInput::DeleteMedia(id) => (s, MediaEffect::DeleteMedia(id)),
        MediaInput::MediaDeleted(res) => match res {
            Ok(()) => {
                s.selected_media = None;
                let t = s.tab;
                begin_media_fetch(s, t)
            },
            Err(m) => {
                s.media_error = Some(m);
                (s, MediaEffect::Nothing)
            },
        },
        MediaInput::MediaLoaded(g, res) => {
            if g != s.fetch_gen {
                return (s, MediaEffect::Nothing);
            }
            match res {
                Ok(m) => s.media = m,
                Err(m) => s.media_error = Some(m),
            }
            s.media_loading = false;
            (s, MediaEffect::Nothing)
        },
        MediaInput::EventLoaded(res) => {
            match res {
                Ok(e) => {
                    s.event = Some(e);
                    s.error = None;
                },
                Err(m) => {
                    s.event = None;
                    if is_event_fallback(&m) {
                        s.error = Some(String::from_str(EVENT_LOAD_ERROR));
                    } else {
                        s.error = Some(m);
                    }
                },
            }
            s.loading = false;
            (s, MediaEffect::Nothing)
        },
        MediaInput::OpenLightbox(a) => {
            s.selected_media = Some(a);
            (s, MediaEffect::Nothing)
        },
        MediaInput::CloseLightbox => {
            s.selected_media = None;
            (s, MediaEffect::Nothing)
        },
    }
}

/// One upload at a time: an upload that starts marks the upload as in
/// flight, and any further upload before its answer starts nothing.
pub proof fn lemma_one_upload_at_a_time(s: MediaStateView, k: MediaKind, k2: MediaKind)
    ensures
        media_transition(s, MediaInput::Upload(k)).1 is Upload ==> {
            let t = media_transition(s, MediaInput::Upload(k)).0;
            &&& t.action_loading == Some(UPLOAD_ACTION@)
            &&& media_transition(t, MediaInput::Upload(k2)).1 is Nothing
        },
{
}

/// An answer to a media request that is no longer the latest changes
/// nothing.
pub proof fn lemma_stale_media_ignored(s: MediaStateView, g: u32, res: Result<Vec<MediaAsset>, String>)
    requires
        g != s.fetch_gen,
    ensures
        media_transition(s, MediaInput::MediaLoaded(g, res)) == (s, MediaEffectView::Nothing),
{
}

/// A pick adds to the waiting files only files that pass validation for
/// their kind, each marked with that kind, and never takes the waiting
/// files past the kind's maximum when they were within it.
pub proof fn lemma_pick_queues_valid_files(s: MediaStateView, k: MediaKind, cs: Vec<FileCandidate>)
    requires
        pending_of(s, k).len() <= max_files_of(k),
    ensures
        ({
            let t = media_transition(s, MediaInput::Pick(k, cs)).0;
            let old_n = pending_of(s, k).len();
            &&& pending_of(t, k).len() <= max_files_of(k)
            &&& pending_of(t, k).subrange(0, old_n as int) == pending_of(s, k)
            &&& forall|j: int|
                old_n <= j < pending_of(t, k).len() ==> {
                    &&& (#[trigger] pending_of(t, k)[j]).kind == k
                    &&& file_kind_error(
                        FileCandidate {
                            name: pending_of(t, k)[j].name,
                            mime: pending_of(t, k)[j].mime,
                            size: pending_of(t, k)[j].size,
                        },
                        k,
                        MAX_SIZE_MB,
                    ).is_none()
                }
        }),
{
    let existing = pending_of(s, k).len() as u32;
    lemma_kept_files_valid(cs@, existing, max_files_of(k), k, MAX_SIZE_MB);
    let kept = kept_files(cs@, existing, max_files_of(k), k, MAX_SIZE_MB);
    let t = media_transition(s, MediaInput::Pick(k, cs)).0;
    let old_n = pending_of(s, k).len();
    if kept.len() > 0 {
        let added = kept.map_values(|c: FileCandidate| pending_entry(c, k));
        assert(pending_of(t, k) == pending_of(s, k) + added);
        assert(pending_of(t, k).subrange(0, old_n as int) =~= pending_of(s, k));
        assert forall|j: int| old_n <= j < pending_of(t, k).len() implies {
            &&& (#[trigger] pending_of(t, k)[j]).kind == k
            &&& file_kind_error(
                FileCandidate {
                    name: pending_of(t, k)[j].name,
                    mime: pending_of(t, k)[j].mime,
                    size: pending_of(t, k)[j].size,
                },
                k,
                MAX_SIZE_MB,
            ).is_none()
        } by {
            let c = kept[j - old_n];
            assert(pending_of(t, k)[j] == added[j - old_n]);
            assert(FileCandidate { name: c.name, mime: c.mime, size: c.size } == c);
        }
    } else {
        assert(pending_of(t, k).subrange(0, old_n as int) =~= pending_of(s, k));
    }
}

} // verus!
