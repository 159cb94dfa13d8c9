use vstd::prelude::*;

use bytes::Bytes;

use crate::models::chunk::{
    Chapter, ChapterView, CharacterSheet, Chunk, ChunkView, DocumentChunk, MutableBufferChunk,
};
use crate::models::document::{Document, DocumentView};
use crate::models::prelude::{bytes_view, ManuscriptError, ManuscriptResult};
use crate::models::settings::DocumentSettings;
use crate::util::{decimal, write_decimal};
use crate::models::prelude::bytes_len;

verus! {

/// The word count and reading time (minutes, seconds) of a chunk's text.
#[derive(Debug, Clone, Copy)]
pub struct BufferStats {
    pub words_count: u64,
    pub reading_time: (u64, u64),
}

impl BufferStats {
    pub fn new(words_count: u64, reading_time: (u64, u64)) -> (r: BufferStats)
        ensures
            r.words_count == words_count,
            r.reading_time == reading_time,
    {
        BufferStats { words_count, reading_time }
    }

    /// The stats as written in traces: words, then minutes and seconds.
    pub open spec fn spec_text(self) -> Seq<char> {
        decimal(self.words_count as nat) + ", "@ + decimal(self.reading_time.0 as nat) + ":"@
            + decimal(self.reading_time.1 as nat)
    }

    /// The stats as written in traces: `words, minutes:seconds`.
    pub fn to_string(&self) -> (r: String)
        ensures
            r@ == self.spec_text(),
    {
        let mut out = String::new();
        write_decimal(self.words_count, &mut out);
        out.append(", ");
        write_decimal(self.reading_time.0, &mut out);
        out.append(":");
        write_decimal(self.reading_time.1, &mut out);
        assert(out@ =~= self.spec_text());
        out
    }
}

/// A change asked of the document manager.
pub enum DocumentAction {
    SetTitle(String),
    AddChapter(Chapter),
    AddCharacterSheet(CharacterSheet),
    SelectChunk(String),
    UpdateChunkBuffer(String, Bytes),
    UpdateChunkBufferStats(String, BufferStats),
    UpdateChunk(String),
}

impl DocumentAction {
    /// The action as written in traces.
    pub open spec fn spec_text(self) -> Seq<char> {
        match self {
            DocumentAction::SetTitle(t) => "DocumentAction::SetTitle("@ + decimal(
                vstd::utf8::encode_utf8(t@).len(),
            ) + " bytes)"@,
            DocumentAction::AddChapter(c) => "DocumentAction::AddChapter(#"@ + c.id@ + ")"@,
            DocumentAction::AddCharacterSheet(c) => "DocumentAction::AddCharacterSheet(#"@ + c.id@
                + ")"@,
            DocumentAction::SelectChunk(id) => "DocumentAction::SelectChunk(#"@ + id@ + ")"@,
            DocumentAction::UpdateChunkBuffer(id, b) => "DocumentAction::UpdateChunkBuffer(#"@ + id@
                + " - "@ + decimal(bytes_view(b).len()) + " bytes)"@,
            DocumentAction::UpdateChunkBufferStats(id, st) => "DocumentAction::UpdateChunkBufferStats(#"@
                + id@ + " - "@ + st.spec_text() + ")"@,
            DocumentAction::UpdateChunk(id) => "DocumentAction::UpdateChunk(#"@ + id@ + ")"@,
        }
    }

    /// The action as written in traces: its name, the identifier of the
    /// chunk it is about, and the size in bytes of the text it carries.
    pub fn to_string(&self) -> (r: String)
        ensures
            r@ == self.spec_text(),
    {
        let mut out = String::new();
        match self {
            DocumentAction::SetTitle(t) => {
                out.append("DocumentAction::SetTitle(");
                let n: usize = t.as_str().as_bytes().len();
                write_decimal(n as u64, &mut out);
                out.append(" bytes)");
                assert(out@ =~= self.spec_text());
            },
            DocumentAction::AddChapter(c) => {
                out.append("DocumentAction::AddChapter(#");
                out.append(c.id.as_str());
                out.append(")");
                assert(out@ =~= self.spec_text());
            },
            DocumentAction::AddCharacterSheet(c) => {
                out.append("DocumentAction::AddCharacterSheet(#");
                out.append(c.id.as_str());
                out.append(")");
                assert(out@ =~= self.spec_text());
            },
            DocumentAction::SelectChunk(id) => {
                out.append("DocumentAction::SelectChunk(#");
                out.append(id.as_str());
                out.append(")");
                assert(out@ =~= self.spec_text());
            },
            DocumentAction::UpdateChunkBuffer(id, b) => {
                out.append("DocumentAction::UpdateChunkBuffer(#");
                out.append(id.as_str());
                out.append(" - ");
                let n: usize = bytes_len(b);
                write_decimal(n as u64, &mut out);
                out.append(" bytes)");
                assert(out@ =~= self.spec_text());
            },
            DocumentAction::UpdateChunkBufferStats(id, st) => {
                out.append("DocumentAction::UpdateChunkBufferStats(#");
                out.append(id.as_str());
                out.append(" - ");
                let text = st.to_string();
                out.append(text.as_str());
                out.append(")");
                assert(out@ =~= self.spec_text());
            },
            DocumentAction::UpdateChunk(id) => {
                out.append("DocumentAction::UpdateChunk(#");
                out.append(id.as_str());
                out.append(")");
                assert(out@ =~= self.spec_text());
            },
        }
        out
    }
}

/// What the document manager announces to the rest of the program.
#[derive(Debug, Clone)]
pub enum DocumentSignal {
    DocumentLoaded,
    DocumentUnloaded,
    TitleSet,
    ChunkAdded(String),
    ChunkRemoved(String),
    ChunkSelected(String),
    ChunkUpdated(String),
    ChunkStatsUpdated(String, u64, u64, u64),
}

/// A signal, its identifiers taken as characters.
pub enum DocumentSignalView {
    DocumentLoaded,
    DocumentUnloaded,
    TitleSet,
    ChunkAdded(Seq<char>),
    ChunkRemoved(Seq<char>),
    ChunkSelected(Seq<char>),
    ChunkUpdated(Seq<char>),
    ChunkStatsUpdated(Seq<char>, u64, u64, u64),
}

impl View for DocumentSignal {
    type V = DocumentSignalView;

    open spec fn view(&self) -> DocumentSignalView {
        match self {
            DocumentSignal::DocumentLoaded => DocumentSignalView::DocumentLoaded,
            DocumentSignal::DocumentUnloaded => DocumentSignalView::DocumentUnloaded,
            DocumentSignal::TitleSet => DocumentSignalView::TitleSet,
            DocumentSignal::ChunkAdded(id) => DocumentSignalView::ChunkAdded(id@),
            DocumentSignal::ChunkRemoved(id) => DocumentSignalView::ChunkRemoved(id@),
            DocumentSignal::ChunkSelected(id) => DocumentSignalView::ChunkSelected(id@),
            DocumentSignal::ChunkUpdated(id) => DocumentSignalView::ChunkUpdated(id@),
            DocumentSignal::ChunkStatsUpdated(id, w, m, s) => DocumentSignalView::ChunkStatsUpdated(
                id@,
                *w,
                *m,
                *s,
            ),
        }
    }
}

/// The views of a sequence of signals.
pub open spec fn signals_view(s: Seq<DocumentSignal>) -> Seq<DocumentSignalView> {
    s.map_values(|x: DocumentSignal| x@)
}

/// The document after its chapter `id`, if it has one, gets `buffer` as its text.
pub open spec fn with_chapter_buffer(d: DocumentView, id: Seq<char>, buffer: Seq<u8>) -> DocumentView {
    if d.chunks.contains_key(id) {
        match d.chunks[id] {
            ChunkView::Chapter(c) => DocumentView {
                chunks: d.chunks.insert(id, ChunkView::Chapter(ChapterView { buffer, ..c })),
                ..d
            },
            _ => d,
        }
    } else {
        d
    }
}

/// The document the manager holds after `action`.
pub open spec fn document_after(doc: Option<DocumentView>, action: DocumentAction) -> Option<
    DocumentView,
> {
    match doc {
        None => None,
        Some(d) => Some(
            match action {
                DocumentAction::SetTitle(t) => DocumentView {
                    manifest: crate::models::chunk::DocumentManifest {
                        title: Some(t),
                        ..d.manifest
                    },
                    ..d
                },
                DocumentAction::AddChapter(c) => DocumentView {
                    chunks: d.chunks.insert(c.id@, ChunkView::Chapter(c@)),
                    ..d
                },
                DocumentAction::AddCharacterSheet(c) => DocumentView {
                    chunks: d.chunks.insert(c.id@, ChunkView::CharacterSheet(c@)),
                    ..d
                },
                DocumentAction::UpdateChunkBuffer(id, b) => with_chapter_buffer(d, id@, bytes_view(b)),
                _ => d,
            },
        ),
    }
}

/// The signals the manager announces for `action`: a title change, an added
/// chunk and an updated buffer are announced whether or not a document is
/// loaded; a selection only when the loaded document has the chunk.
pub open spec fn signals_for(doc: Option<DocumentView>, action: DocumentAction) -> Seq<
    DocumentSignalView,
> {
    match action {
        DocumentAction::SetTitle(_) => seq![DocumentSignalView::TitleSet],
        DocumentAction::AddChapter(c) => seq![DocumentSignalView::ChunkAdded(c.id@)],
        DocumentAction::AddCharacterSheet(c) => seq![DocumentSignalView::ChunkAdded(c.id@)],
        DocumentAction::SelectChunk(id) => if doc matches Some(d) && d.chunks.contains_key(id@) {
            seq![DocumentSignalView::ChunkSelected(id@)]
        } else {
            Seq::empty()
        },
        DocumentAction::UpdateChunkBuffer(id, _) => seq![DocumentSignalView::ChunkUpdated(id@)],
        DocumentAction::UpdateChunkBufferStats(id, stats) => seq![
            DocumentSignalView::ChunkStatsUpdated(
                id@,
                stats.words_count,
                stats.reading_time.0,
                stats.reading_time.1,
            ),
        ],
        DocumentAction::UpdateChunk(_) => Seq::empty(),
    }
}

/// No action opens a document: without one, the manager stays without one,
/// and selecting or re-announcing a chunk never changes the open document.
pub proof fn lemma_actions_keep_document_presence(doc: Option<DocumentView>, action: DocumentAction)
    ensures
        document_after(doc, action) is Some == doc is Some,
        action is SelectChunk || action is UpdateChunk || action is UpdateChunkBufferStats
            ==> document_after(doc, action) == doc,
{
}

/// Updating the text of a chapter replaces it: afterwards the chapter holds
/// exactly the new bytes, whatever it held before, and everything else of it
/// and of the document stays; on a character sheet or a missing chunk the
/// document does not change.
pub proof fn lemma_update_buffer_replaces(d: DocumentView, id: String, b: Bytes)
    ensures
        d.chunks.contains_key(id@) ==> match d.chunks[id@] {
            ChunkView::Chapter(c) => document_after(
            Some(d),
            DocumentAction::UpdateChunkBuffer(id, b),
        ) == Some(
            DocumentView {
                chunks: d.chunks.insert(
                    id@,
                    ChunkView::Chapter(
                        ChapterView {
                            id: c.id,
                            priority: c.priority,
                            include_in_compilation: c.include_in_compilation,
                            accent: c.accent,
                            locked: c.locked,
                            title: c.title,
                            buffer: bytes_view(b),
                            notes: c.notes,
                        },
                    ),
                ),
                manifest: d.manifest,
                settings: d.settings,
            },
        ),
            _ => true,
        },
        !(d.chunks.contains_key(id@) && d.chunks[id@] is Chapter) ==> document_after(
            Some(d),
            DocumentAction::UpdateChunkBuffer(id, b),
        ) == Some(d),
{
}

/// Holds the open document and the path it is stored at, applies the
/// changes asked of it, and queues the signals it announces.
pub struct DocumentManager {
    document: Option<Document>,
    backend_path: Option<String>,
    signals: Vec<DocumentSignal>,
}

impl DocumentManager {
    /// The open document, if any.
    pub closed spec fn spec_document(self) -> Option<DocumentView> {
        match self.document {
            Some(d) => Some(d@),
            None => None,
        }
    }

    /// The path the document is stored at, if any.
    pub closed spec fn spec_backend_path(self) -> Option<Seq<char>> {
        match self.backend_path {
            Some(p) => Some(p@),
            None => None,
        }
    }

    /// The signals announced and not yet taken.
    pub closed spec fn spec_signals(self) -> Seq<DocumentSignalView> {
        signals_view(self.signals@)
    }

    /// A manager with no document, no storage path and no pending signal.
    pub fn new() -> (r: DocumentManager)
        ensures
            r.spec_document() is None,
            r.spec_backend_path() is None,
            r.spec_signals() == Seq::<DocumentSignalView>::empty(),
    {
        let r = DocumentManager { document: None, backend_path: None, signals: Vec::new() };
        assert(r.spec_signals() =~= Seq::<DocumentSignalView>::empty());
        r
    }

    fn emit(&mut self, signal: DocumentSignal)
        ensures
            final(self).spec_signals() == old(self).spec_signals().push(signal@),
            final(self).spec_document() == old(self).spec_document(),
            final(self).spec_backend_path() == old(self).spec_backend_path(),
    {
        self.signals.push(signal);
        assert(signals_view(self.signals@) =~= signals_view(old(self).signals@).push(signal@));
    }

    /// Hands out the signals announced so far, oldest first, and forgets them.
    pub fn take_signals(&mut self) -> (r: Vec<DocumentSignal>)
        ensures
            signals_view(r@) == old(self).spec_signals(),
            final(self).spec_signals() == Seq::<DocumentSignalView>::empty(),
            final(self).spec_document() == old(self).spec_document(),
            final(self).spec_backend_path() == old(self).spec_backend_path(),
    {
        let mut out: Vec<DocumentSignal> = Vec::new();
        std::mem::swap(&mut out, &mut self.signals);
        assert(signals_view(self.signals@) =~= Seq::<DocumentSignalView>::empty());
        out
    }

    /// Applies a change asked of the manager to the open document and
    /// announces it.
    pub fn process_action(&mut self, action: DocumentAction)
        ensures
            final(self).spec_document() == document_after(old(self).spec_document(), action),
            final(self).spec_signals() == old(self).spec_signals() + signals_for(
                old(self).spec_document(),
                action,
            ),
            final(self).spec_backend_path() == old(self).spec_backend_path(),
            (match (old(self).spec_document(), action) {
                (Some(d), DocumentAction::UpdateChunkBuffer(id, b)) => (d.chunks.contains_key(id@)
                    && d.chunks[id@] is Chapter) ==> (match final(self).spec_document() {
                    Some(d2) => d2.chunks.contains_key(id@) && (match d2.chunks[id@] {
                        ChunkView::Chapter(c2) => c2.buffer == bytes_view(b),
                        _ => false,
                    }),
                    None => false,
                }),
                _ => true,
            }),
    {
        let ghost old_doc = self.spec_document();
        let ghost old_signals = self.spec_signals();
        let ghost act = action;
        match action {
            DocumentAction::SetTitle(new_title) => {
                match &mut self.document {
                    Some(document) => {
                        proof {
                            document.lemma_view();
                        }
                        document.set_title(Some(new_title));
                        proof {
                            document.lemma_view();
                        }
                    },
                    None => {},
                }
                self.emit(DocumentSignal::TitleSet);
            },
            DocumentAction::AddChapter(value) => {
                let id = value.id.clone();
                match &mut self.document {
                    Some(document) => {
                        proof {
                            document.lemma_view();
                        }
                        document.add_chunk(Chunk::Chapter(value));
                        proof {
                            document.lemma_view();
                        }
                    },
                    None => {},
                }
                self.emit(DocumentSignal::ChunkAdded(id));
            },
            DocumentAction::AddCharacterSheet(value) => {
                let id = value.id.clone();
                match &mut self.document {
                    Some(document) => {
                        proof {
                            document.lemma_view();
                        }
                        document.add_chunk(Chunk::CharacterSheet(value));
                        proof {
                            document.lemma_view();
                        }
                    },
                    None => {},
                }
                self.emit(DocumentSignal::ChunkAdded(id));
            },
            DocumentAction::SelectChunk(id) => {
                let found: bool = match &self.document {
                    Some(document) => {
                        proof {
                            document.lemma_view();
                        }
                        document.get_chunk_ref(id.as_str()).is_some()
                    },
                    None => false,
                };
                if found {
                    self.emit(DocumentSignal::ChunkSelected(id));
                }
            },
            DocumentAction::UpdateChunkBuffer(id, bytes) => {
                let ghost bv = bytes_view(bytes);
                match &mut self.document {
                    Some(document) => {
                        proof {
                            document.lemma_view();
                        }
                        let ghost before_doc = document@;
                        let set_buffer = move|c: Chunk| -> (r: Chunk)
                            ensures
                                r.spec_id() == c.spec_id(),
                                r@ == match c@ {
                                    ChunkView::Chapter(cv) => ChunkView::Chapter(
                                        ChapterView { buffer: bv, ..cv },
                                    ),
                                    other => other,
                                },
                            {
                                match c {
                                    Chunk::Chapter(mut chapter) => {
                                        chapter.set_buffer(bytes);
                                        Chunk::Chapter(chapter)
                                    },
                                    other => other,
                                }
                            };
                        let found = document.update_chunk_with(id.as_str(), set_buffer);
                        proof {
                            document.lemma_view();
                            if found {
                                let (before, after) = choose|before: Chunk, after: Chunk|
                                    {
                                        &&& before@ == before_doc.chunks[id@]
                                        &&& before.spec_id() == id@
                                        &&& call_ensures(set_buffer, (before,), after)
                                        &&& after.spec_id() == id@
                                        &&& document@.chunks == before_doc.chunks.insert(id@, after@)
                                    };
                            }
                        }
                    },
                    None => {},
                }
                self.emit(DocumentSignal::ChunkUpdated(id));
            },
            DocumentAction::UpdateChunkBufferStats(id, stats) => {
                self.emit(
                    DocumentSignal::ChunkStatsUpdated(
                        id,
                        stats.words_count,
                        stats.reading_time.0,
                        stats.reading_time.1,
                    ),
                );
            },
            DocumentAction::UpdateChunk(_id) => {
                assert(old_signals + Seq::<DocumentSignalView>::empty() =~= old_signals);
            },
        }
    }
}


impl DocumentManager {
    pub fn has_document(&self) -> (r: bool)
        ensures
            r == self.spec_document() is Some,
    {
        self.document.is_some()
    }

    /// The settings of the open document; `NoDocument` when none is open.
    pub fn document_settings(&self) -> (r: Result<DocumentSettings, ManuscriptError>)
        ensures
            match self.spec_document() {
                Some(d) => r == Ok::<DocumentSettings, ManuscriptError>(d.settings),
                None => r matches Err(ManuscriptError::NoDocument),
            },
    {
        match &self.document {
            Some(document) => {
                proof {
                    document.lemma_view();
                }
                Ok(*document.settings())
            },
            None => Err(ManuscriptError::NoDocument),
        }
    }

    /// Runs `f` on the open document and gives back what it returns;
    /// `NoDocument` when none is open.
    pub fn with_document<F, T>(&self, f: F) -> (r: Result<T, ManuscriptError>) where
        F: Fn(&Document) -> Result<T, ManuscriptError>,

        requires
            forall|d: &Document| call_requires(f, (d,)),
        ensures
            match self.document_value() {
                Some(d) => call_ensures(f, (&d,), r),
                None => r matches Err(ManuscriptError::NoDocument),
            },
    {
        match &self.document {
            Some(document) => f(document),
            None => Err(ManuscriptError::NoDocument),
        }
    }

    /// The open document itself, if any.
    pub closed spec fn document_value(self) -> Option<Document> {
        self.document
    }

    /// The open document is the one whose view the manager shows.
    pub proof fn lemma_document_value(self)
        ensures
            match self.document_value() {
                Some(d) => self.spec_document() == Some(d@),
                None => self.spec_document() is None,
            },
    {
    }

    /// Runs `f` on the open document, which it may change, and gives back
    /// what it returns; `DocumentLock` when no document is open.
    pub fn with_document_mut<F, T>(&mut self, f: F) -> (r: Result<T, ManuscriptError>) where
        F: FnOnce(&mut Document) -> Result<T, ManuscriptError>,

        requires
            forall|d: &mut Document| call_requires(f, (d,)),
        ensures
            final(self).spec_document() is Some == old(self).spec_document() is Some,
            old(self).spec_document() is None ==> r matches Err(ManuscriptError::DocumentLock),
            old(self).document_value() matches Some(d) ==> exists|m: &mut Document|
                *m == d && call_ensures(f, (m,), r) && final(self).document_value() == Some(*final(m)),
            final(self).spec_backend_path() == old(self).spec_backend_path(),
            final(self).spec_signals() == old(self).spec_signals(),
    {
        match &mut self.document {
            Some(document) => f(document),
            None => Err(ManuscriptError::DocumentLock),
        }
    }
}


impl DocumentManager {
    /// Opens `document`, replacing any open one, and announces it.
    pub fn set_document(&mut self, document: Document) -> (r: ManuscriptResult<()>)
        ensures
            r is Ok,
            final(self).spec_document() == Some(document@),
            final(self).spec_signals() == old(self).spec_signals().push(
                DocumentSignalView::DocumentLoaded,
            ),
            final(self).spec_backend_path() == old(self).spec_backend_path(),
    {
        self.document = Some(document);
        self.emit(DocumentSignal::DocumentLoaded);
        Ok(())
    }

    /// Closes the open document, if any, forgetting its storage path, and
    /// announces it; with no document open nothing changes.
    pub fn unset_document(&mut self) -> (r: ManuscriptResult<()>)
        ensures
            r is Ok,
            final(self).spec_document() is None,
            old(self).spec_document() is Some ==> {
                &&& final(self).spec_backend_path() is None
                &&& final(self).spec_signals() == old(self).spec_signals().push(
                    DocumentSignalView::DocumentUnloaded,
                )
            },
            old(self).spec_document() is None ==> {
                &&& final(self).spec_backend_path() == old(self).spec_backend_path()
                &&& final(self).spec_signals() == old(self).spec_signals()
            },
    {
        if self.document.is_some() {
            self.document = None;
            self.backend_path = None;
            self.emit(DocumentSignal::DocumentUnloaded);
        }
        Ok(())
    }

    /// Adds a chunk to the open document and announces it; with no document
    /// open nothing changes.
    pub fn add_chunk(&mut self, value: Chunk)
        ensures
            match old(self).spec_document() {
                Some(d) => {
                    &&& final(self).spec_document() == Some(
                        DocumentView { chunks: d.chunks.insert(value.spec_id(), value@), ..d },
                    )
                    &&& final(self).spec_signals() == old(self).spec_signals().push(
                        DocumentSignalView::ChunkAdded(value.spec_id()),
                    )
                },
                None => {
                    &&& final(self).spec_document() is None
                    &&& final(self).spec_signals() == old(self).spec_signals()
                },
            },
            final(self).spec_backend_path() == old(self).spec_backend_path(),
    {
        let id = value.id().to_string();
        match &mut self.document {
            Some(document) => {
                proof {
                    document.lemma_view();
                }
                document.add_chunk(value);
                proof {
                    document.lemma_view();
                }
                self.emit(DocumentSignal::ChunkAdded(id));
            },
            None => {},
        }
    }

    /// Removes the chunk `id` from the open document, announces the removal
    /// (also when the document had no such chunk), and hands the chunk back.
    pub fn remove_chunk(&mut self, id: &String) -> (r: Option<Chunk>)
        ensures
            match old(self).spec_document() {
                Some(d) => {
                    &&& final(self).spec_document() == Some(
                        DocumentView { chunks: d.chunks.remove(id@), ..d },
                    )
                    &&& final(self).spec_signals() == old(self).spec_signals().push(
                        DocumentSignalView::ChunkRemoved(id@),
                    )
                    &&& match r {
                        Some(c) => d.chunks.contains_key(id@) && c@ == d.chunks[id@],
                        None => !d.chunks.contains_key(id@),
                    }
                },
                None => {
                    &&& r is None
                    &&& final(self).spec_document() is None
                    &&& final(self).spec_signals() == old(self).spec_signals()
                },
            },
            final(self).spec_backend_path() == old(self).spec_backend_path(),
    {
        match &mut self.document {
            Some(document) => {
                proof {
                    document.lemma_view();
                }
                let removed = document.remove_chunk(id);
                proof {
                    document.lemma_view();
                }
                self.emit(DocumentSignal::ChunkRemoved(id.clone()));
                removed
            },
            None => None,
        }
    }

    /// Hands the chunk `id` of the open document to `f` and keeps what `f`
    /// gives back in its place, under `id`, announcing the update; `f` keeps
    /// the identifier of the chunk it is given. Nothing changes when no
    /// document is open or it has no such chunk.
    pub fn update_chunk_with<F: FnOnce(Chunk) -> Chunk>(&mut self, id: &String, f: F)
        requires
            forall|c: Chunk| call_requires(f, (c,)),
            forall|c: Chunk, d: Chunk| call_ensures(f, (c,), d) ==> d.spec_id() == c.spec_id(),
        ensures
            match old(self).spec_document() {
                Some(d) => if d.chunks.contains_key(id@) {
                    &&& exists|before: Chunk, after: Chunk|
                        {
                            &&& before@ == d.chunks[id@]
                            &&& call_ensures(f, (before,), after)
                            &&& final(self).spec_document() == Some(
                                DocumentView { chunks: d.chunks.insert(id@, after@), ..d },
                            )
                        }
                    &&& final(self).spec_signals() == old(self).spec_signals().push(
                        DocumentSignalView::ChunkUpdated(id@),
                    )
                } else {
                    &&& final(self).spec_document() == old(self).spec_document()
                    &&& final(self).spec_signals() == old(self).spec_signals()
                },
                None => {
                    &&& final(self).spec_document() is None
                    &&& final(self).spec_signals() == old(self).spec_signals()
                },
            },
            final(self).spec_backend_path() == old(self).spec_backend_path(),
    {
        match &mut self.document {
            Some(document) => {
                proof {
                    document.lemma_view();
                }
                let found = document.update_chunk_with(id.as_str(), f);
                proof {
                    document.lemma_view();
                }
                if found {
                    self.emit(DocumentSignal::ChunkUpdated(id.clone()));
                }
            },
            None => {},
        }
    }

    /// The open document, if any.
    pub fn document_ref(&self) -> (r: Option<&Document>)
        ensures
            match r {
                Some(d) => self.spec_document() == Some(d@),
                None => self.spec_document() is None,
            },
    {
        self.document.as_ref()
    }

    /// The open document, if any, to change in place.
    pub fn document_mut(&mut self) -> (r: Option<&mut Document>)
        ensures
            match r {
                Some(d) => {
                    &&& old(self).spec_document() == Some(d@)
                    &&& final(self).spec_document() == Some(final(d)@)
                },
                None => old(self).spec_document() is None && final(self).spec_document() is None,
            },
            final(self).spec_backend_path() == old(self).spec_backend_path(),
            final(self).spec_signals() == old(self).spec_signals(),
    {
        self.document.as_mut()
    }

    pub fn backend_path(&self) -> (r: &Option<String>)
        ensures
            match *r {
                Some(p) => self.spec_backend_path() == Some(p@),
                None => self.spec_backend_path() is None,
            },
    {
        &self.backend_path
    }

    pub fn backend_path_mut(&mut self) -> (r: &mut Option<String>)
        ensures
            match *r {
                Some(p) => old(self).spec_backend_path() == Some(p@),
                None => old(self).spec_backend_path() is None,
            },
            match *final(r) {
                Some(p) => final(self).spec_backend_path() == Some(p@),
                None => final(self).spec_backend_path() is None,
            },
            final(self).spec_document() == old(self).spec_document(),
            final(self).spec_signals() == old(self).spec_signals(),
    {
        &mut self.backend_path
    }

    pub fn set_backend_path(&mut self, path: String)
        ensures
            final(self).spec_backend_path() == Some(path@),
            final(self).spec_document() == old(self).spec_document(),
            final(self).spec_signals() == old(self).spec_signals(),
    {
        self.backend_path = Some(path);
    }

    pub fn has_backend(&self) -> (r: bool)
        ensures
            r == self.spec_backend_path() is Some,
    {
        self.backend_path.is_some()
    }
}

impl Default for DocumentManager {
    fn default() -> (r: DocumentManager)
        ensures
            r.spec_document() is None,
            r.spec_backend_path() is None,
            r.spec_signals() == Seq::<DocumentSignalView>::empty(),
    {
        Self::new()
    }
}

} // verus!
