use vstd::prelude::*;

use bytes::Bytes;

use super::prelude::{
    bytes_as_slice, bytes_copy_of, bytes_from_string, bytes_new, bytes_view, word_count,
    BufferAnalytics, ChunkType, ManuscriptError, ManuscriptResult, RgbaBits,
};
use crate::util::new_ulid_string;

verus! {

/// The characters of an optional string slice.
pub open spec fn opt_str_view(o: Option<&str>) -> Option<Seq<char>> {
    match o {
        Some(s) => Some(s@),
        None => None,
    }
}

/// The characters of an optional string.
pub open spec fn opt_string_view(o: Option<String>) -> Option<Seq<char>> {
    match o {
        Some(s) => Some(s@),
        None => None,
    }
}

/// A title as a chunk shows it: an empty title counts as no title.
pub open spec fn shown_title(o: Option<String>) -> Option<Seq<char>> {
    match o {
        Some(s) => if s@.len() == 0 {
            None
        } else {
            Some(s@)
        },
        None => None,
    }
}

/// The title of a chunk, or its default title when it has none.
pub open spec fn title_or_default(title: Option<Seq<char>>, default: Seq<char>) -> Seq<char> {
    match title {
        Some(t) => t,
        None => default,
    }
}

/// The behavior common to every part of a manuscript.
pub trait DocumentChunk: Sized {
    spec fn spec_id(&self) -> Seq<char>;

    spec fn spec_title(&self) -> Option<Seq<char>>;

    spec fn spec_default_title(&self) -> Seq<char>;

    spec fn spec_chunk_type(&self) -> ChunkType;

    spec fn spec_priority(&self) -> Option<u64>;

    spec fn spec_locked(&self) -> bool;

    fn id(&self) -> (r: &str)
        ensures
            r@ == self.spec_id(),
    ;

    fn title(&self) -> (r: Option<&str>)
        ensures
            opt_str_view(r) == self.spec_title(),
    ;

    fn default_title(&self) -> (r: &'static str)
        ensures
            r@ == self.spec_default_title(),
    ;

    fn chunk_type(&self) -> (r: ChunkType)
        ensures
            r == self.spec_chunk_type(),
    ;

    spec fn spec_category_name(&self) -> Seq<char>;

    /// The name of the category the chunk belongs to, untranslated: the key
    /// under which the locale's catalog holds its translation.
    fn category_name(&self) -> (r: String)
        ensures
            r@ == self.spec_category_name(),
    ;

    fn priority(&self) -> (r: Option<u64>)
        ensures
            r == self.spec_priority(),
    ;

    fn set_priority(&mut self, value: Option<u64>)
        ensures
            final(self).spec_id() == old(self).spec_id(),
            final(self).spec_chunk_type() == old(self).spec_chunk_type(),
    ;

    fn locked(&self) -> (r: bool)
        ensures
            r == self.spec_locked(),
    ;

    fn set_locked(&mut self, value: bool)
        ensures
            final(self).spec_locked() == value,
            final(self).spec_id() == old(self).spec_id(),
            final(self).spec_chunk_type() == old(self).spec_chunk_type(),
    ;

    fn accent(&self) -> (r: Option<RgbaBits>)
        default_ensures
            r is None,
    {
        None
    }

    fn set_accent(&mut self, value: Option<RgbaBits>) -> (r: ManuscriptResult<()>)
        ensures
            final(self).spec_id() == old(self).spec_id(),
            final(self).spec_chunk_type() == old(self).spec_chunk_type(),
        default_ensures
            r matches Err(ManuscriptError::Reason(msg)) && msg@ == "Not implemented"@,
            *final(self) == *old(self),
    {
        Err(ManuscriptError::Reason("Not implemented"))
    }

    /// The title of the chunk, or its default title when it has none.
    fn safe_title(&self) -> (r: String)
        ensures
            r@ == title_or_default(self.spec_title(), self.spec_default_title()),
    {
        match self.title() {
            Some(t) => t.to_string(),
            None => self.default_title().to_string(),
        }
    }

    /// The heading shown for the chunk: its safe title.
    fn heading(&self) -> (r: String)
        ensures
            r@ == title_or_default(self.spec_title(), self.spec_default_title()),
    {
        self.safe_title()
    }

    fn include_in_compilation(&self) -> (r: bool)
        default_ensures
            r,
    {
        true
    }

    fn set_include_in_compilation(&mut self, value: bool) -> (r: ManuscriptResult<()>)
        ensures
            final(self).spec_id() == old(self).spec_id(),
            final(self).spec_chunk_type() == old(self).spec_chunk_type(),
        default_ensures
            r matches Err(ManuscriptError::Reason(msg)) && msg@ == "Not implemented"@,
            *final(self) == *old(self),
    {
        Err(ManuscriptError::Reason("Not implemented"))
    }
}

/// A chunk whose content is a text buffer.
pub trait BufferChunk: DocumentChunk {
    spec fn spec_buffer(&self) -> Seq<u8>;

    fn buffer(&self) -> (r: &Bytes)
        ensures
            bytes_view(*r) == self.spec_buffer(),
    ;

    /// The tags laid over the buffer; no chunk keeps any yet.
    fn tags_map(&self) -> (r: Vec<super::prelude::TagMark>)
        ensures
            r@.len() == 0,
    {
        Vec::new()
    }

    /// Counts the words in the buffer.
    fn words_count(&self) -> (r: u64)
        ensures
            r == word_count(self.spec_buffer()),
    {
        self.buffer().words_count()
    }
}

/// A chunk whose text buffer can be replaced.
pub trait MutableBufferChunk: BufferChunk {
    fn set_buffer(&mut self, value: Bytes)
        ensures
            final(self).spec_buffer() == bytes_view(value),
            final(self).spec_id() == old(self).spec_id(),
            final(self).spec_chunk_type() == old(self).spec_chunk_type(),
    ;
}

/// A chunk that is written to storage on its own: chapters and character
/// sheets (the manifest is stored apart). Turning such chunks into bytes and
/// back is done at the program's edge.
pub trait SerializableChunk: DocumentChunk {}

// ---------------------------------------------------------------------------
// Manifest
// ---------------------------------------------------------------------------

/// The title, author and lock state of a manuscript.
#[derive(Debug)]
pub struct DocumentManifest {
    pub title: Option<String>,
    pub author: String,
    pub locked: bool,
}

impl DocumentManifest {
    /// An untitled, unlocked manifest written by `author` (the default
    /// manifest takes the author from the user's real name).
    pub fn with_author(author: String) -> (r: DocumentManifest)
        ensures
            r.title is None,
            r.author@ == author@,
            !r.locked,
    {
        DocumentManifest { title: None, author, locked: false }
    }

    pub fn title(&self) -> (r: Option<&String>)
        ensures
            r == match self.title {
                Some(t) => Some(&t),
                None => None::<&String>,
            },
    {
        self.title.as_ref()
    }

    pub fn set_title(&mut self, value: Option<String>)
        ensures
            final(self).title == value,
            final(self).author == old(self).author,
            final(self).locked == old(self).locked,
    {
        self.title = value;
    }
}

impl DocumentChunk for DocumentManifest {
    open spec fn spec_id(&self) -> Seq<char> {
        "manifest"@
    }

    open spec fn spec_title(&self) -> Option<Seq<char>> {
        opt_string_view(self.title)
    }

    open spec fn spec_default_title(&self) -> Seq<char> {
        "Untitled manuscript"@
    }

    open spec fn spec_category_name(&self) -> Seq<char> {
        "Manifest"@
    }

    open spec fn spec_chunk_type(&self) -> ChunkType {
        ChunkType::Manifest
    }

    open spec fn spec_priority(&self) -> Option<u64> {
        Some(100)
    }

    open spec fn spec_locked(&self) -> bool {
        self.locked
    }

    fn id(&self) -> (r: &str) {
        "manifest"
    }

    fn title(&self) -> (r: Option<&str>) {
        match &self.title {
            Some(title) => Some(title.as_str()),
            None => None,
        }
    }

    fn default_title(&self) -> (r: &'static str) {
        "Untitled manuscript"
    }

    fn chunk_type(&self) -> (r: ChunkType) {
        ChunkType::Manifest
    }

    fn category_name(&self) -> (r: String) {
        "Manifest".to_string()
    }

    fn priority(&self) -> (r: Option<u64>) {
        Some(100)
    }

    fn set_priority(&mut self, _value: Option<u64>)
        ensures
            *final(self) == *old(self),
    {
    }

    fn locked(&self) -> (r: bool) {
        self.locked
    }

    fn set_locked(&mut self, value: bool)
        ensures
            final(self).title == old(self).title,
            final(self).author == old(self).author,
    {
        self.locked = value;
    }
}


// ---------------------------------------------------------------------------
// Notes
// ---------------------------------------------------------------------------

/// A note attached to a range of a chapter's text: `len` characters from `offset`.
#[derive(Debug)]
pub struct Note {
    pub id: String,
    pub buffer: Bytes,
    pub offset: i32,
    pub len: i32,
}

impl Note {
    /// The end of the note's range fits an `i32`.
    pub open spec fn wf(self) -> bool {
        i32::MIN <= self.offset + self.len <= i32::MAX
    }

    /// The note's range covers `offset`, ends included.
    pub open spec fn covers(self, offset: i32) -> bool {
        self.offset <= offset && offset <= self.offset + self.len
    }

    pub fn offset_start(&self) -> (r: i32)
        ensures
            r == self.offset,
    {
        self.offset
    }

    pub fn offset_end(&self) -> (r: i32)
        requires
            self.wf(),
        ensures
            r == self.offset + self.len,
    {
        self.offset + self.len
    }

    pub fn offset_len(&self) -> (r: i32)
        ensures
            r == self.len,
    {
        self.len
    }

    pub fn buffer(&self) -> (r: &[u8])
        ensures
            r@ == bytes_view(self.buffer),
    {
        bytes_as_slice(&self.buffer)
    }

    pub fn set_buffer(&mut self, value: Bytes)
        ensures
            final(self).buffer == value,
            final(self).id == old(self).id,
            final(self).offset == old(self).offset,
            final(self).len == old(self).len,
    {
        self.buffer = value;
    }
}

impl Default for Note {
    fn default() -> (r: Note)
        ensures
            r.id@.len() == 0,
            bytes_view(r.buffer).len() == 0,
            r.offset == 0,
            r.len == 0,
    {
        Note { id: String::new(), buffer: bytes_new(), offset: 0, len: 0 }
    }
}

/// The notes of `notes` whose range covers `offset`, in their order.
pub open spec fn notes_covering(notes: Seq<Note>, offset: i32) -> Seq<Note>
    decreases notes.len(),
{
    if notes.len() == 0 {
        Seq::empty()
    } else {
        let rest = notes_covering(notes.drop_last(), offset);
        if notes.last().covers(offset) {
            rest.push(notes.last())
        } else {
            rest
        }
    }
}

/// A note added after the others is found at an offset exactly when its
/// range covers the offset, after the notes found before it.
pub proof fn lemma_notes_covering_push(notes: Seq<Note>, n: Note, offset: i32)
    ensures
        notes_covering(notes.push(n), offset) == if n.covers(offset) {
            notes_covering(notes, offset).push(n)
        } else {
            notes_covering(notes, offset)
        },
{
    assert(notes.push(n).drop_last() =~= notes);
}

/// A note whose range is `from..to` covers every offset from `from` to `to`,
/// and no other.
pub proof fn lemma_note_covers_range(n: Note, from: i32, to: i32, offset: i32)
    requires
        n.offset == from,
        n.len == to - from,
    ensures
        n.covers(offset) <==> from <= offset <= to,
{
}

// ---------------------------------------------------------------------------
// Chapter
// ---------------------------------------------------------------------------

/// A Chapter is a chunk representing the content of a single manuscript chapter
#[derive(Debug)]
pub struct Chapter {
    pub id: String,
    pub priority: u64,
    pub include_in_compilation: bool,
    pub accent: RgbaBits,
    pub locked: bool,
    pub title: Option<String>,
    pub buffer: Bytes,
    pub notes: Vec<Note>,
}

impl Chapter {
    /// Every note's range ends within `i32`.
    pub open spec fn wf(self) -> bool {
        forall|i: int| 0 <= i < self.notes@.len() ==> (#[trigger] self.notes@[i]).wf()
    }

    /// A new, empty chapter with a fresh identifier.
    pub fn new() -> (r: Chapter)
        ensures
            r.id@.len() == 26,
            r.priority == 0,
            r.include_in_compilation,
            r.accent == RgbaBits::transparent_spec(),
            !r.locked,
            r.title is None,
            bytes_view(r.buffer).len() == 0,
            r.notes@.len() == 0,
            r.wf(),
    {
        Self::default()
    }

    pub fn title(&self) -> (r: Option<&String>)
        ensures
            r == match self.title {
                Some(t) => Some(&t),
                None => None::<&String>,
            },
    {
        self.title.as_ref()
    }

    pub fn set_title(&mut self, value: &str)
        ensures
            opt_string_view(final(self).title) == Some(value@),
            final(self).id == old(self).id,
            final(self).buffer == old(self).buffer,
            final(self).notes == old(self).notes,
            final(self).priority == old(self).priority,
            final(self).locked == old(self).locked,
            final(self).include_in_compilation == old(self).include_in_compilation,
            final(self).accent == old(self).accent,
    {
        self.title = Some(value.to_string());
    }

    /// Attaches a note with the given content to the range from `from` to `to`.
    pub fn add_note(&mut self, from: i32, to: i32, content: String)
        requires
            i32::MIN <= to - from <= i32::MAX,
        ensures
            final(self).notes@.len() == old(self).notes@.len() + 1,
            final(self).notes@.drop_last() == old(self).notes@,
            final(self).notes@.last().offset == from,
            final(self).notes@.last().len == to - from,
            bytes_view(final(self).notes@.last().buffer) == vstd::utf8::encode_utf8(content@),
            final(self).notes@.last().id@.len() == 26,
            final(self).id == old(self).id,
            final(self).title == old(self).title,
            final(self).buffer == old(self).buffer,
            final(self).priority == old(self).priority,
            final(self).locked == old(self).locked,
            final(self).include_in_compilation == old(self).include_in_compilation,
            final(self).accent == old(self).accent,
            old(self).wf() ==> final(self).wf(),
    {
        let note = Note {
            id: new_ulid_string(),
            buffer: bytes_from_string(content),
            offset: from,
            len: to - from,
        };
        self.notes.push(note);
        assert(final(self).notes@.drop_last() =~= old(self).notes@);
    }

    /// The notes whose range covers `offset`, in the order they were added.
    pub fn notes_at(&self, offset: i32) -> (r: Vec<&Note>)
        requires
            self.wf(),
        ensures
            r@.map_values(|n: &Note| *n) == notes_covering(self.notes@, offset),
    {
        let mut out: Vec<&Note> = Vec::new();
        let mut i: usize = 0;
        while i < self.notes.len()
            invariant
                self.wf(),
                0 <= i <= self.notes@.len(),
                out@.map_values(|n: &Note| *n) == notes_covering(
                    self.notes@.take(i as int),
                    offset,
                ),
            decreases self.notes@.len() - i,
        {
            let n: &Note = &self.notes[i];
            assert(self.notes@.take(i as int + 1).drop_last() =~= self.notes@.take(i as int));
            assert(self.notes@[i as int].wf());
            if n.offset_start() <= offset && n.offset_end() >= offset {
                out.push(n);
                assert(out@.map_values(|n: &Note| *n) =~= notes_covering(
                    self.notes@.take(i as int),
                    offset,
                ).push(*n));
            }
            i = i + 1;
        }
        assert(self.notes@.take(self.notes@.len() as int) =~= self.notes@);
        out
    }
}

impl Chapter {
    /// The positions, among the chapter's notes, of the notes whose range
    /// covers `offset`, in increasing order. With `note_mut` they give
    /// mutable access to each of those notes.
    pub fn note_positions_at(&self, offset: i32) -> (r: Vec<usize>)
        requires
            self.wf(),
        ensures
            forall|k: int| 0 <= k < r@.len() ==> (#[trigger] r@[k]) < self.notes@.len(),
            forall|k: int, l: int| 0 <= k < l < r@.len() ==> r@[k] < r@[l],
            r@.map_values(|p: usize| self.notes@[p as int]) == notes_covering(self.notes@, offset),
    {
        let mut out: Vec<usize> = Vec::new();
        let mut i: usize = 0;
        while i < self.notes.len()
            invariant
                self.wf(),
                0 <= i <= self.notes@.len(),
                forall|k: int| 0 <= k < out@.len() ==> (#[trigger] out@[k]) < i,
                forall|k: int, l: int| 0 <= k < l < out@.len() ==> out@[k] < out@[l],
                out@.map_values(|p: usize| self.notes@[p as int]) == notes_covering(
                    self.notes@.take(i as int),
                    offset,
                ),
            decreases self.notes@.len() - i,
        {
            assert(self.notes@.take(i as int + 1).drop_last() =~= self.notes@.take(i as int));
            assert(self.notes@[i as int].wf());
            if self.notes[i].offset_start() <= offset && self.notes[i].offset_end() >= offset {
                out.push(i);
                assert(out@.map_values(|p: usize| self.notes@[p as int]) =~= notes_covering(
                    self.notes@.take(i as int),
                    offset,
                ).push(self.notes@[i as int]));
            }
            i = i + 1;
        }
        assert(self.notes@.take(self.notes@.len() as int) =~= self.notes@);
        out
    }

    /// Mutable access to the note at position `i`.
    pub fn note_mut(&mut self, i: usize) -> (r: &mut Note)
        requires
            i < old(self).notes@.len(),
        ensures
            *r == old(self).notes@[i as int],
            final(self).notes@ == old(self).notes@.update(i as int, *final(r)),
            final(self).id == old(self).id,
            final(self).title == old(self).title,
            final(self).buffer == old(self).buffer,
            final(self).priority == old(self).priority,
            final(self).locked == old(self).locked,
            final(self).include_in_compilation == old(self).include_in_compilation,
            final(self).accent == old(self).accent,
    {
        &mut self.notes[i]
    }
}

impl Default for Chapter {
    fn default() -> (r: Chapter)
        ensures
            r.id@.len() == 26,
            r.priority == 0,
            r.include_in_compilation,
            r.accent == RgbaBits::transparent_spec(),
            !r.locked,
            r.title is None,
            bytes_view(r.buffer).len() == 0,
            r.notes@.len() == 0,
            r.wf(),
    {
        Chapter {
            id: new_ulid_string(),
            priority: 0,
            include_in_compilation: true,
            accent: RgbaBits::transparent(),
            locked: false,
            title: None,
            buffer: bytes_new(),
            notes: Vec::new(),
        }
    }
}

impl DocumentChunk for Chapter {
    open spec fn spec_id(&self) -> Seq<char> {
        self.id@
    }

    open spec fn spec_title(&self) -> Option<Seq<char>> {
        shown_title(self.title)
    }

    open spec fn spec_default_title(&self) -> Seq<char> {
        "Untitled chapter"@
    }

    open spec fn spec_category_name(&self) -> Seq<char> {
        "Chapters"@
    }

    open spec fn spec_chunk_type(&self) -> ChunkType {
        ChunkType::Chapter
    }

    open spec fn spec_priority(&self) -> Option<u64> {
        Some(self.priority)
    }

    open spec fn spec_locked(&self) -> bool {
        self.locked
    }

    fn id(&self) -> (r: &str) {
        self.id.as_str()
    }

    fn title(&self) -> (r: Option<&str>) {
        match &self.title {
            Some(title) => {
                if title.as_str().is_empty() {
                    None
                } else {
                    Some(title.as_str())
                }
            },
            None => None,
        }
    }

    fn default_title(&self) -> (r: &'static str) {
        "Untitled chapter"
    }

    fn chunk_type(&self) -> (r: ChunkType) {
        ChunkType::Chapter
    }

    fn category_name(&self) -> (r: String) {
        "Chapters".to_string()
    }

    fn priority(&self) -> (r: Option<u64>) {
        Some(self.priority)
    }

    fn set_priority(&mut self, value: Option<u64>)
        ensures
            final(self).priority == match value {
                Some(p) => p,
                None => 0,
            },
            *final(self) == (Chapter { priority: final(self).priority, ..*old(self) }),
    {
        self.priority = match value {
            Some(p) => p,
            None => 0,
        };
    }

    fn locked(&self) -> (r: bool) {
        self.locked
    }

    fn set_locked(&mut self, value: bool)
        ensures
            *final(self) == (Chapter { locked: value, ..*old(self) }),
    {
        self.locked = value;
    }

    fn include_in_compilation(&self) -> (r: bool)
        ensures
            r == self.include_in_compilation,
    {
        self.include_in_compilation
    }

    fn set_include_in_compilation(&mut self, value: bool) -> (r: ManuscriptResult<()>)
        ensures
            r is Ok,
            *final(self) == (Chapter { include_in_compilation: value, ..*old(self) }),
    {
        self.include_in_compilation = value;
        Ok(())
    }
}

impl SerializableChunk for Chapter {}

impl SerializableChunk for CharacterSheet {}

impl BufferChunk for Chapter {
    open spec fn spec_buffer(&self) -> Seq<u8> {
        bytes_view(self.buffer)
    }

    fn buffer(&self) -> (r: &Bytes) {
        &self.buffer
    }
}

impl MutableBufferChunk for Chapter {
    fn set_buffer(&mut self, value: Bytes)
        ensures
            *final(self) == (Chapter { buffer: value, ..*old(self) }),
    {
        self.buffer = value;
    }
}


// ---------------------------------------------------------------------------
// Character sheet
// ---------------------------------------------------------------------------

/// The gender of a character.
#[derive(Debug, Clone, Copy, PartialEq, Eq, Structural)]
pub enum Gender {
    Male,
    Female,
    Other,
    Unspecified,
}

/// The gender an index stands for: 0 male, 1 female, 2 other, anything else unspecified.
pub open spec fn gender_from_index(idx: int) -> Gender {
    if idx == 0 {
        Gender::Male
    } else if idx == 1 {
        Gender::Female
    } else if idx == 2 {
        Gender::Other
    } else {
        Gender::Unspecified
    }
}

/// The index of a gender: 0 male, 1 female, 2 other, 10 unspecified.
pub open spec fn gender_index(g: Gender) -> int {
    match g {
        Gender::Male => 0,
        Gender::Female => 1,
        Gender::Other => 2,
        Gender::Unspecified => 10,
    }
}

impl From<u64> for Gender {
    fn from(idx: u64) -> (r: Gender)
        ensures
            r == gender_from_index(idx as int),
    {
        match idx {
            0 => Gender::Male,
            1 => Gender::Female,
            2 => Gender::Other,
            _ => Gender::Unspecified,
        }
    }
}

impl vstd::std_specs::convert::FromSpecImpl<u64> for Gender {
    open spec fn obeys_from_spec() -> bool {
        true
    }

    open spec fn from_spec(v: u64) -> Gender {
        gender_from_index(v as int)
    }
}

impl From<u32> for Gender {
    fn from(idx: u32) -> (r: Gender)
        ensures
            r == gender_from_index(idx as int),
    {
        let wide: u64 = idx as u64;
        <Gender as From<u64>>::from(wide)
    }
}

impl vstd::std_specs::convert::FromSpecImpl<u32> for Gender {
    open spec fn obeys_from_spec() -> bool {
        true
    }

    open spec fn from_spec(v: u32) -> Gender {
        gender_from_index(v as int)
    }
}

impl From<Gender> for u64 {
    fn from(source: Gender) -> (r: u64)
        ensures
            r == gender_index(source),
    {
        match source {
            Gender::Male => 0,
            Gender::Female => 1,
            Gender::Other => 2,
            Gender::Unspecified => 10,
        }
    }
}

impl vstd::std_specs::convert::FromSpecImpl<Gender> for u64 {
    open spec fn obeys_from_spec() -> bool {
        true
    }

    open spec fn from_spec(v: Gender) -> u64 {
        gender_index(v) as u64
    }
}

impl From<Gender> for u32 {
    fn from(source: Gender) -> (r: u32)
        ensures
            r == gender_index(source),
    {
        match source {
            Gender::Male => 0,
            Gender::Female => 1,
            Gender::Other => 2,
            Gender::Unspecified => 10,
        }
    }
}

impl vstd::std_specs::convert::FromSpecImpl<Gender> for u32 {
    open spec fn obeys_from_spec() -> bool {
        true
    }

    open spec fn from_spec(v: Gender) -> u32 {
        gender_index(v) as u32
    }
}

impl Default for Gender {
    fn default() -> (r: Gender)
        ensures
            r == Gender::Unspecified,
    {
        Gender::Unspecified
    }
}

/// Turning a gender into its index and back gives the same gender.
pub proof fn lemma_gender_index_roundtrip(g: Gender)
    ensures
        gender_from_index(gender_index(g)) == g,
        0 <= gender_index(g) <= u32::MAX,
{
}

/// A CharacterSheet is a chunk representing the description of a character
#[derive(Debug)]
pub struct CharacterSheet {
    pub id: String,
    pub priority: u64,
    pub include_in_compilation: bool,
    pub accent: RgbaBits,
    pub locked: bool,
    pub name: Option<String>,
    pub gender: Gender,
    pub age: Option<u32>,
    pub role: Option<String>,
    pub physical_traits: Bytes,
    pub psycological_traits: Bytes,
    pub background: Bytes,
}

impl Default for CharacterSheet {
    fn default() -> (r: CharacterSheet)
        ensures
            r.id@.len() == 26,
            r.priority == 0,
            r.include_in_compilation,
            r.accent == RgbaBits::transparent_spec(),
            !r.locked,
            r.name is None,
            r.gender == Gender::Unspecified,
            r.age is None,
            r.role is None,
            bytes_view(r.physical_traits).len() == 0,
            bytes_view(r.psycological_traits).len() == 0,
            bytes_view(r.background).len() == 0,
    {
        CharacterSheet {
            id: new_ulid_string(),
            priority: 0,
            include_in_compilation: true,
            accent: RgbaBits::transparent(),
            locked: false,
            name: None,
            gender: Gender::Unspecified,
            age: None,
            role: None,
            physical_traits: bytes_new(),
            psycological_traits: bytes_new(),
            background: bytes_new(),
        }
    }
}

impl CharacterSheet {
    pub fn name(&self) -> (r: Option<&String>)
        ensures
            r == match self.name {
                Some(t) => Some(&t),
                None => None::<&String>,
            },
    {
        self.name.as_ref()
    }

    pub fn set_name(&mut self, value: Option<String>)
        ensures
            *final(self) == (CharacterSheet { name: value, ..*old(self) }),
    {
        self.name = value;
    }

    pub fn role(&self) -> (r: Option<&String>)
        ensures
            r == match self.role {
                Some(t) => Some(&t),
                None => None::<&String>,
            },
    {
        self.role.as_ref()
    }

    pub fn set_role(&mut self, value: Option<String>)
        ensures
            *final(self) == (CharacterSheet { role: value, ..*old(self) }),
    {
        self.role = value;
    }

    pub fn gender(&self) -> (r: Gender)
        ensures
            r == self.gender,
    {
        self.gender
    }

    pub fn set_gender(&mut self, value: Gender)
        ensures
            *final(self) == (CharacterSheet { gender: value, ..*old(self) }),
    {
        self.gender = value;
    }

    pub fn age(&self) -> (r: Option<u32>)
        ensures
            r == self.age,
    {
        self.age
    }

    pub fn set_age(&mut self, value: Option<u32>)
        ensures
            *final(self) == (CharacterSheet { age: value, ..*old(self) }),
    {
        self.age = value;
    }

    pub fn background(&self) -> (r: &[u8])
        ensures
            r@ == bytes_view(self.background),
    {
        bytes_as_slice(&self.background)
    }

    pub fn set_background(&mut self, value: &[u8])
        ensures
            bytes_view(final(self).background) == value@,
            *final(self) == (CharacterSheet { background: final(self).background, ..*old(self) }),
    {
        self.background = bytes_copy_of(value);
    }

    pub fn set_background_bytes(&mut self, value: Bytes)
        ensures
            *final(self) == (CharacterSheet { background: value, ..*old(self) }),
    {
        self.background = value;
    }

    pub fn physical_traits(&self) -> (r: &[u8])
        ensures
            r@ == bytes_view(self.physical_traits),
    {
        bytes_as_slice(&self.physical_traits)
    }

    pub fn set_physical_traits(&mut self, value: &[u8])
        ensures
            bytes_view(final(self).physical_traits) == value@,
            *final(self) == (CharacterSheet {
                physical_traits: final(self).physical_traits,
                ..*old(self)
            }),
    {
        self.physical_traits = bytes_copy_of(value);
    }

    pub fn set_physical_traits_bytes(&mut self, value: Bytes)
        ensures
            *final(self) == (CharacterSheet { physical_traits: value, ..*old(self) }),
    {
        self.physical_traits = value;
    }

    /// The psychological traits as this model hands them out: the getter
    /// returns the bytes kept for the physical traits.
    pub fn psycological_traits(&self) -> (r: &[u8])
        ensures
            r@ == bytes_view(self.physical_traits),
    {
        bytes_as_slice(&self.physical_traits)
    }

    pub fn set_psycological_traits(&mut self, value: &[u8])
        ensures
            bytes_view(final(self).psycological_traits) == value@,
            *final(self) == (CharacterSheet {
                psycological_traits: final(self).psycological_traits,
                ..*old(self)
            }),
    {
        self.psycological_traits = bytes_copy_of(value);
    }

    pub fn set_psycological_traits_bytes(&mut self, value: Bytes)
        ensures
            *final(self) == (CharacterSheet { psycological_traits: value, ..*old(self) }),
    {
        self.psycological_traits = value;
    }
}

impl DocumentChunk for CharacterSheet {
    open spec fn spec_id(&self) -> Seq<char> {
        self.id@
    }

    open spec fn spec_title(&self) -> Option<Seq<char>> {
        shown_title(self.name)
    }

    open spec fn spec_default_title(&self) -> Seq<char> {
        "Unnamed character"@
    }

    open spec fn spec_category_name(&self) -> Seq<char> {
        "Character sheets"@
    }

    open spec fn spec_chunk_type(&self) -> ChunkType {
        ChunkType::CharacterSheet
    }

    open spec fn spec_priority(&self) -> Option<u64> {
        Some(self.priority)
    }

    open spec fn spec_locked(&self) -> bool {
        self.locked
    }

    fn id(&self) -> (r: &str) {
        self.id.as_str()
    }

    fn title(&self) -> (r: Option<&str>) {
        match &self.name {
            Some(title) => {
                if title.as_str().is_empty() {
                    None
                } else {
                    Some(title.as_str())
                }
            },
            None => None,
        }
    }

    fn default_title(&self) -> (r: &'static str) {
        "Unnamed character"
    }

    fn chunk_type(&self) -> (r: ChunkType) {
        ChunkType::CharacterSheet
    }

    fn category_name(&self) -> (r: String) {
        "Character sheets".to_string()
    }

    fn priority(&self) -> (r: Option<u64>) {
        Some(self.priority)
    }

    fn set_priority(&mut self, value: Option<u64>)
        ensures
            final(self).priority == match value {
                Some(p) => p,
                None => 0,
            },
            *final(self) == (CharacterSheet { priority: final(self).priority, ..*old(self) }),
    {
        self.priority = match value {
            Some(p) => p,
            None => 0,
        };
    }

    fn locked(&self) -> (r: bool) {
        self.locked
    }

    fn set_locked(&mut self, value: bool)
        ensures
            *final(self) == (CharacterSheet { locked: value, ..*old(self) }),
    {
        self.locked = value;
    }

    fn include_in_compilation(&self) -> (r: bool)
        ensures
            r == self.include_in_compilation,
    {
        self.include_in_compilation
    }

    fn set_include_in_compilation(&mut self, value: bool) -> (r: ManuscriptResult<()>)
        ensures
            r is Ok,
            *final(self) == (CharacterSheet { include_in_compilation: value, ..*old(self) }),
    {
        self.include_in_compilation = value;
        Ok(())
    }

    fn accent(&self) -> (r: Option<RgbaBits>)
        ensures
            r == Some(self.accent),
    {
        Some(self.accent)
    }

    /// Sets the accent color; `None` resets it to the default, transparent color.
    fn set_accent(&mut self, value: Option<RgbaBits>) -> (r: ManuscriptResult<()>)
        ensures
            r is Ok,
            *final(self) == (CharacterSheet {
                accent: match value {
                    Some(c) => c,
                    None => RgbaBits::transparent_spec(),
                },
                ..*old(self)
            }),
    {
        self.accent = match value {
            Some(c) => c,
            None => RgbaBits::transparent(),
        };
        Ok(())
    }
}

// ---------------------------------------------------------------------------
// Chunks kept by a document
// ---------------------------------------------------------------------------

/// A chunk kept by a document: a chapter or a character sheet.
#[derive(Debug)]
pub enum Chunk {
    Chapter(Chapter),
    CharacterSheet(CharacterSheet),
}

impl Chunk {
    /// The chunk as a chapter, if it is one.
    pub fn as_chapter(&self) -> (r: Option<&Chapter>)
        ensures
            r == match self {
                Chunk::Chapter(c) => Some(c),
                _ => None::<&Chapter>,
            },
    {
        match self {
            Chunk::Chapter(c) => Some(c),
            _ => None,
        }
    }

    /// The chunk as a character sheet, if it is one.
    pub fn as_character_sheet(&self) -> (r: Option<&CharacterSheet>)
        ensures
            r == match self {
                Chunk::CharacterSheet(c) => Some(c),
                _ => None::<&CharacterSheet>,
            },
    {
        match self {
            Chunk::CharacterSheet(c) => Some(c),
            _ => None,
        }
    }
}

impl DocumentChunk for Chunk {
    open spec fn spec_id(&self) -> Seq<char> {
        match self {
            Chunk::Chapter(c) => c.id@,
            Chunk::CharacterSheet(c) => c.id@,
        }
    }

    open spec fn spec_title(&self) -> Option<Seq<char>> {
        match self {
            Chunk::Chapter(c) => shown_title(c.title),
            Chunk::CharacterSheet(c) => shown_title(c.name),
        }
    }

    open spec fn spec_default_title(&self) -> Seq<char> {
        match self {
            Chunk::Chapter(c) => "Untitled chapter"@,
            Chunk::CharacterSheet(c) => "Unnamed character"@,
        }
    }

    open spec fn spec_category_name(&self) -> Seq<char> {
        match self {
            Chunk::Chapter(c) => "Chapters"@,
            Chunk::CharacterSheet(c) => "Character sheets"@,
        }
    }

    open spec fn spec_chunk_type(&self) -> ChunkType {
        match self {
            Chunk::Chapter(c) => ChunkType::Chapter,
            Chunk::CharacterSheet(c) => ChunkType::CharacterSheet,
        }
    }

    open spec fn spec_priority(&self) -> Option<u64> {
        match self {
            Chunk::Chapter(c) => Some(c.priority),
            Chunk::CharacterSheet(c) => Some(c.priority),
        }
    }

    open spec fn spec_locked(&self) -> bool {
        match self {
            Chunk::Chapter(c) => c.locked,
            Chunk::CharacterSheet(c) => c.locked,
        }
    }

    fn id(&self) -> (r: &str) {
        match self {
            Chunk::Chapter(c) => c.id(),
            Chunk::CharacterSheet(c) => c.id(),
        }
    }

    fn title(&self) -> (r: Option<&str>) {
        match self {
            Chunk::Chapter(c) => DocumentChunk::title(c),
            Chunk::CharacterSheet(c) => DocumentChunk::title(c),
        }
    }

    fn default_title(&self) -> (r: &'static str) {
        match self {
            Chunk::Chapter(c) => c.default_title(),
            Chunk::CharacterSheet(c) => c.default_title(),
        }
    }

    fn chunk_type(&self) -> (r: ChunkType) {
        match self {
            Chunk::Chapter(c) => c.chunk_type(),
            Chunk::CharacterSheet(c) => c.chunk_type(),
        }
    }

    fn category_name(&self) -> (r: String) {
        match self {
            Chunk::Chapter(c) => c.category_name(),
            Chunk::CharacterSheet(c) => c.category_name(),
        }
    }

    fn priority(&self) -> (r: Option<u64>) {
        match self {
            Chunk::Chapter(c) => c.priority(),
            Chunk::CharacterSheet(c) => c.priority(),
        }
    }

    fn set_priority(&mut self, value: Option<u64>)
        ensures
            *final(self) == match *old(self) {
                Chunk::Chapter(c) => Chunk::Chapter(
                    Chapter {
                        priority: match value {
                            Some(p) => p,
                            None => 0,
                        },
                        ..c
                    },
                ),
                Chunk::CharacterSheet(c) => Chunk::CharacterSheet(
                    CharacterSheet {
                        priority: match value {
                            Some(p) => p,
                            None => 0,
                        },
                        ..c
                    },
                ),
            },
    {
        match self {
            Chunk::Chapter(c) => c.set_priority(value),
            Chunk::CharacterSheet(c) => c.set_priority(value),
        }
    }

    fn locked(&self) -> (r: bool) {
        match self {
            Chunk::Chapter(c) => c.locked(),
            Chunk::CharacterSheet(c) => c.locked(),
        }
    }

    fn set_locked(&mut self, value: bool)
        ensures
            *final(self) == match *old(self) {
                Chunk::Chapter(c) => Chunk::Chapter(Chapter { locked: value, ..c }),
                Chunk::CharacterSheet(c) => Chunk::CharacterSheet(CharacterSheet { locked: value, ..c }),
            },
    {
        match self {
            Chunk::Chapter(c) => c.set_locked(value),
            Chunk::CharacterSheet(c) => c.set_locked(value),
        }
    }

    fn accent(&self) -> (r: Option<RgbaBits>)
        ensures
            r == match self {
                Chunk::Chapter(c) => None,
                Chunk::CharacterSheet(c) => Some(c.accent),
            },
    {
        match self {
            Chunk::Chapter(c) => c.accent(),
            Chunk::CharacterSheet(c) => c.accent(),
        }
    }

    fn set_accent(&mut self, value: Option<RgbaBits>) -> (r: ManuscriptResult<()>)
        ensures
            match *old(self) {
                Chunk::Chapter(c) => r is Err && *final(self) == *old(self),
                Chunk::CharacterSheet(c) => r is Ok && *final(self) == Chunk::CharacterSheet(
                    CharacterSheet {
                        accent: match value {
                            Some(a) => a,
                            None => RgbaBits::transparent_spec(),
                        },
                        ..c
                    },
                ),
            },
    {
        match self {
            Chunk::Chapter(c) => c.set_accent(value),
            Chunk::CharacterSheet(c) => c.set_accent(value),
        }
    }

    fn include_in_compilation(&self) -> (r: bool)
        ensures
            r == match self {
                Chunk::Chapter(c) => c.include_in_compilation,
                Chunk::CharacterSheet(c) => c.include_in_compilation,
            },
    {
        match self {
            Chunk::Chapter(c) => c.include_in_compilation(),
            Chunk::CharacterSheet(c) => c.include_in_compilation(),
        }
    }

    fn set_include_in_compilation(&mut self, value: bool) -> (r: ManuscriptResult<()>)
        ensures
            r is Ok,
            *final(self) == match *old(self) {
                Chunk::Chapter(c) => Chunk::Chapter(
                    Chapter { include_in_compilation: value, ..c },
                ),
                Chunk::CharacterSheet(c) => Chunk::CharacterSheet(
                    CharacterSheet { include_in_compilation: value, ..c },
                ),
            },
    {
        match self {
            Chunk::Chapter(c) => c.set_include_in_compilation(value),
            Chunk::CharacterSheet(c) => c.set_include_in_compilation(value),
        }
    }
}


// ---------------------------------------------------------------------------
// Views and copies
// ---------------------------------------------------------------------------

/// An optional string, cloned.
fn clone_opt_string(o: &Option<String>) -> (r: Option<String>)
    ensures
        r == *o,
{
    match o {
        Some(s) => Some(s.clone()),
        None => None,
    }
}

impl Clone for DocumentManifest {
    fn clone(&self) -> (r: DocumentManifest)
        ensures
            r == *self,
    {
        DocumentManifest {
            title: clone_opt_string(&self.title),
            author: self.author.clone(),
            locked: self.locked,
        }
    }
}

/// What a note holds: identifier, text, and the range it is attached to.
pub struct NoteView {
    pub id: Seq<char>,
    pub buffer: Seq<u8>,
    pub offset: i32,
    pub len: i32,
}

impl View for Note {
    type V = NoteView;

    open spec fn view(&self) -> NoteView {
        NoteView { id: self.id@, buffer: bytes_view(self.buffer), offset: self.offset, len: self.len }
    }
}

impl Clone for Note {
    fn clone(&self) -> (r: Note)
        ensures
            r@ == self@,
            r.id == self.id,
            r.offset == self.offset,
            r.len == self.len,
    {
        Note { id: self.id.clone(), buffer: self.buffer.clone(), offset: self.offset, len: self.len }
    }
}

/// The views of a sequence of notes.
pub open spec fn notes_view(s: Seq<Note>) -> Seq<NoteView> {
    s.map_values(|n: Note| n@)
}

/// A copy of a list of notes.
fn clone_notes(notes: &Vec<Note>) -> (r: Vec<Note>)
    ensures
        notes_view(r@) == notes_view(notes@),
        r@.len() == notes@.len(),
        forall|i: int|
            0 <= i < notes@.len() ==> (#[trigger] r@[i]).offset == notes@[i].offset && r@[i].len
                == notes@[i].len,
{
    let mut out: Vec<Note> = Vec::new();
    let mut i: usize = 0;
    while i < notes.len()
        invariant
            0 <= i <= notes@.len(),
            out@.len() == i,
            forall|j: int| 0 <= j < i ==> (#[trigger] out@[j])@ == notes@[j]@,
            forall|j: int|
                0 <= j < i ==> (#[trigger] out@[j]).offset == notes@[j].offset && out@[j].len
                    == notes@[j].len,
        decreases notes@.len() - i,
    {
        out.push(notes[i].clone());
        i = i + 1;
    }
    assert(notes_view(out@) =~= notes_view(notes@));
    out
}

/// What a chapter holds.
pub struct ChapterView {
    pub id: Seq<char>,
    pub priority: u64,
    pub include_in_compilation: bool,
    pub accent: RgbaBits,
    pub locked: bool,
    pub title: Option<Seq<char>>,
    pub buffer: Seq<u8>,
    pub notes: Seq<NoteView>,
}

impl View for Chapter {
    type V = ChapterView;

    open spec fn view(&self) -> ChapterView {
        ChapterView {
            id: self.id@,
            priority: self.priority,
            include_in_compilation: self.include_in_compilation,
            accent: self.accent,
            locked: self.locked,
            title: opt_string_view(self.title),
            buffer: bytes_view(self.buffer),
            notes: notes_view(self.notes@),
        }
    }
}

impl Clone for Chapter {
    fn clone(&self) -> (r: Chapter)
        ensures
            r@ == self@,
            r.id == self.id,
            r.wf() == self.wf(),
    {
        let r = Chapter {
            id: self.id.clone(),
            priority: self.priority,
            include_in_compilation: self.include_in_compilation,
            accent: self.accent,
            locked: self.locked,
            title: clone_opt_string(&self.title),
            buffer: self.buffer.clone(),
            notes: clone_notes(&self.notes),
        };
        assert(r.wf() == self.wf()) by {
            if r.wf() {
                assert forall|i: int| 0 <= i < self.notes@.len() implies (
                #[trigger] self.notes@[i]).wf() by {
                    assert(r.notes@[i].wf());
                }
            }
            if self.wf() {
                assert forall|i: int| 0 <= i < r.notes@.len() implies (#[trigger] r.notes@[i]).wf() by {
                    assert(self.notes@[i].wf());
                }
            }
        }
        r
    }
}

/// What a character sheet holds.
pub struct CharacterSheetView {
    pub id: Seq<char>,
    pub priority: u64,
    pub include_in_compilation: bool,
    pub accent: RgbaBits,
    pub locked: bool,
    pub name: Option<Seq<char>>,
    pub gender: Gender,
    pub age: Option<u32>,
    pub role: Option<Seq<char>>,
    pub physical_traits: Seq<u8>,
    pub psycological_traits: Seq<u8>,
    pub background: Seq<u8>,
}

impl View for CharacterSheet {
    type V = CharacterSheetView;

    open spec fn view(&self) -> CharacterSheetView {
        CharacterSheetView {
            id: self.id@,
            priority: self.priority,
            include_in_compilation: self.include_in_compilation,
            accent: self.accent,
            locked: self.locked,
            name: opt_string_view(self.name),
            gender: self.gender,
            age: self.age,
            role: opt_string_view(self.role),
            physical_traits: bytes_view(self.physical_traits),
            psycological_traits: bytes_view(self.psycological_traits),
            background: bytes_view(self.background),
        }
    }
}

impl Clone for CharacterSheet {
    fn clone(&self) -> (r: CharacterSheet)
        ensures
            r@ == self@,
            r.id == self.id,
    {
        CharacterSheet {
            id: self.id.clone(),
            priority: self.priority,
            include_in_compilation: self.include_in_compilation,
            accent: self.accent,
            locked: self.locked,
            name: clone_opt_string(&self.name),
            gender: self.gender,
            age: self.age,
            role: clone_opt_string(&self.role),
            physical_traits: self.physical_traits.clone(),
            psycological_traits: self.psycological_traits.clone(),
            background: self.background.clone(),
        }
    }
}

/// What a chunk holds.
pub enum ChunkView {
    Chapter(ChapterView),
    CharacterSheet(CharacterSheetView),
}

impl View for Chunk {
    type V = ChunkView;

    open spec fn view(&self) -> ChunkView {
        match self {
            Chunk::Chapter(c) => ChunkView::Chapter(c@),
            Chunk::CharacterSheet(c) => ChunkView::CharacterSheet(c@),
        }
    }
}

impl Clone for Chunk {
    fn clone(&self) -> (r: Chunk)
        ensures
            r@ == self@,
            r.spec_id() == self.spec_id(),
    {
        match self {
            Chunk::Chapter(c) => Chunk::Chapter(c.clone()),
            Chunk::CharacterSheet(c) => Chunk::CharacterSheet(c.clone()),
        }
    }
}

impl ChunkView {
    /// The identifier of the chunk.
    pub open spec fn id(self) -> Seq<char> {
        match self {
            ChunkView::Chapter(c) => c.id,
            ChunkView::CharacterSheet(c) => c.id,
        }
    }

    /// The kind of the chunk.
    pub open spec fn chunk_type(self) -> ChunkType {
        match self {
            ChunkView::Chapter(c) => ChunkType::Chapter,
            ChunkView::CharacterSheet(c) => ChunkType::CharacterSheet,
        }
    }
}

/// Chunks with the same view have the same identifier.
pub proof fn lemma_chunk_view_id(a: Chunk, b: Chunk)
    requires
        a@ == b@,
    ensures
        a.spec_id() == b.spec_id(),
{
    match (a, b) {
        (Chunk::Chapter(x), Chunk::Chapter(y)) => assert(x@.id == y@.id),
        (Chunk::CharacterSheet(x), Chunk::CharacterSheet(y)) => assert(x@.id == y@.id),
        _ => {},
    }
}

} // verus!
