use vstd::prelude::*;

use super::chunk::{
    lemma_chunk_view_id, Chapter, CharacterSheet, Chunk, ChunkView, DocumentChunk,
    DocumentManifest,
};
use super::prelude::ChunkType;
use super::settings::DocumentSettings;
use crate::util::str_eq;

verus! {

// ---------------------------------------------------------------------------
// Chunk sequences and the map of chunks by identifier they stand for.
// ---------------------------------------------------------------------------

/// The chunks of `s` keyed by identifier; where two chunks share an
/// identifier, the later one is kept.
pub open spec fn chunks_map(s: Seq<Chunk>) -> Map<Seq<char>, ChunkView>
    decreases s.len(),
{
    if s.len() == 0 {
        Map::empty()
    } else {
        chunks_map(s.drop_last()).insert(s.last().spec_id(), s.last()@)
    }
}

/// No two chunks of `s` share an identifier.
pub open spec fn unique_ids(s: Seq<Chunk>) -> bool {
    forall|i: int, j: int|
        0 <= i < s.len() && 0 <= j < s.len() && i != j ==> (#[trigger] s[i]).spec_id() != (
        #[trigger] s[j]).spec_id()
}

/// The chunks of `s` that are chapters, in their order.
pub open spec fn chapter_list(s: Seq<Chunk>) -> Seq<Chapter>
    decreases s.len(),
{
    if s.len() == 0 {
        Seq::empty()
    } else {
        match s.last() {
            Chunk::Chapter(c) => chapter_list(s.drop_last()).push(c),
            _ => chapter_list(s.drop_last()),
        }
    }
}

/// The chunks of `s` that are character sheets, in their order.
pub open spec fn sheet_list(s: Seq<Chunk>) -> Seq<CharacterSheet>
    decreases s.len(),
{
    if s.len() == 0 {
        Seq::empty()
    } else {
        match s.last() {
            Chunk::CharacterSheet(c) => sheet_list(s.drop_last()).push(c),
            _ => sheet_list(s.drop_last()),
        }
    }
}

/// Chapters as chunks.
pub open spec fn chapters_as_chunks(s: Seq<Chapter>) -> Seq<Chunk> {
    s.map_values(|c: Chapter| Chunk::Chapter(c))
}

/// Character sheets as chunks.
pub open spec fn sheets_as_chunks(s: Seq<CharacterSheet>) -> Seq<Chunk> {
    s.map_values(|c: CharacterSheet| Chunk::CharacterSheet(c))
}

/// A key is in the map of a chunk sequence exactly when some chunk has it,
/// and its value is one of the chunks with that key.
pub proof fn lemma_chunks_map_keys(s: Seq<Chunk>, k: Seq<char>)
    ensures
        chunks_map(s).contains_key(k) <==> exists|i: int|
            0 <= i < s.len() && (#[trigger] s[i]).spec_id() == k,
        chunks_map(s).contains_key(k) ==> exists|i: int|
            0 <= i < s.len() && (#[trigger] s[i]).spec_id() == k && chunks_map(s)[k] == s[i]@,
    decreases s.len(),
{
    if s.len() > 0 {
        let s0 = s.drop_last();
        lemma_chunks_map_keys(s0, k);
        if s.last().spec_id() == k {
            assert(s[s.len() - 1].spec_id() == k);
        } else {
            if chunks_map(s0).contains_key(k) {
                let i = choose|i: int|
                    0 <= i < s0.len() && (#[trigger] s0[i]).spec_id() == k && chunks_map(s0)[k]
                        == s0[i]@;
                assert(s[i] == s0[i]);
            }
            if exists|i: int| 0 <= i < s.len() && (#[trigger] s[i]).spec_id() == k {
                let i = choose|i: int| 0 <= i < s.len() && (#[trigger] s[i]).spec_id() == k;
                assert(i < s.len() - 1);
                assert(s0[i] == s[i]);
            }
        }
    }
}

/// With unique identifiers, every chunk is found under its own identifier.
pub proof fn lemma_chunks_map_value(s: Seq<Chunk>, i: int)
    requires
        unique_ids(s),
        0 <= i < s.len(),
    ensures
        chunks_map(s).contains_key(s[i].spec_id()),
        chunks_map(s)[s[i].spec_id()] == s[i]@,
    decreases s.len(),
{
    let s0 = s.drop_last();
    if i < s.len() - 1 {
        assert(unique_ids(s0)) by {
            assert forall|a: int, b: int|
                0 <= a < s0.len() && 0 <= b < s0.len() && a != b implies (#[trigger] s0[a]).spec_id()
                != (#[trigger] s0[b]).spec_id() by {
                assert(s0[a] == s[a] && s0[b] == s[b]);
            }
        }
        lemma_chunks_map_value(s0, i);
        assert(s0[i] == s[i]);
        assert(s[i].spec_id() != s[s.len() - 1].spec_id());
    }
}

/// Replacing a chunk by one with the same identifier keeps the identifiers
/// unique and updates the map at that identifier.
pub proof fn lemma_chunks_map_update(s: Seq<Chunk>, i: int, c: Chunk)
    requires
        unique_ids(s),
        0 <= i < s.len(),
        s[i].spec_id() == c.spec_id(),
    ensures
        unique_ids(s.update(i, c)),
        chunks_map(s.update(i, c)) == chunks_map(s).insert(c.spec_id(), c@),
{
    let s2 = s.update(i, c);
    assert(unique_ids(s2)) by {
        assert forall|a: int, b: int|
            0 <= a < s2.len() && 0 <= b < s2.len() && a != b implies (#[trigger] s2[a]).spec_id()
            != (#[trigger] s2[b]).spec_id() by {
            assert(s2[a].spec_id() == s[a].spec_id());
            assert(s2[b].spec_id() == s[b].spec_id());
        }
    }
    let m2 = chunks_map(s2);
    let m1 = chunks_map(s).insert(c.spec_id(), c@);
    assert forall|k: Seq<char>| #[trigger] m2.contains_key(k) <==> m1.contains_key(k) by {
        lemma_chunks_map_keys(s2, k);
        lemma_chunks_map_keys(s, k);
        if exists|j: int| 0 <= j < s.len() && (#[trigger] s[j]).spec_id() == k {
            let j = choose|j: int| 0 <= j < s.len() && (#[trigger] s[j]).spec_id() == k;
            assert(s2[j].spec_id() == k);
        }
        if exists|j: int| 0 <= j < s2.len() && (#[trigger] s2[j]).spec_id() == k {
            let j = choose|j: int| 0 <= j < s2.len() && (#[trigger] s2[j]).spec_id() == k;
            assert(s[j].spec_id() == k);
        }
    }
    assert forall|k: Seq<char>| #[trigger] m2.contains_key(k) implies m2[k] == m1[k] by {
        lemma_chunks_map_keys(s2, k);
        let j = choose|j: int| 0 <= j < s2.len() && (#[trigger] s2[j]).spec_id() == k;
        lemma_chunks_map_value(s2, j);
        if j != i {
            lemma_chunks_map_value(s, j);
            assert(s2[j] == s[j]);
        }
    }
    assert(m2 =~= m1);
}

/// Appending a chunk whose identifier is new keeps the identifiers unique
/// and adds it to the map.
pub proof fn lemma_chunks_map_push(s: Seq<Chunk>, c: Chunk)
    requires
        unique_ids(s),
        forall|j: int| 0 <= j < s.len() ==> (#[trigger] s[j]).spec_id() != c.spec_id(),
    ensures
        unique_ids(s.push(c)),
        chunks_map(s.push(c)) == chunks_map(s).insert(c.spec_id(), c@),
{
    let s2 = s.push(c);
    assert(s2.drop_last() =~= s);
    assert(unique_ids(s2)) by {
        assert forall|a: int, b: int|
            0 <= a < s2.len() && 0 <= b < s2.len() && a != b implies (#[trigger] s2[a]).spec_id()
            != (#[trigger] s2[b]).spec_id() by {
            if a < s.len() {
                assert(s2[a] == s[a]);
            }
            if b < s.len() {
                assert(s2[b] == s[b]);
            }
        }
    }
}

/// Removing the chunk at `i` keeps the identifiers unique and removes its
/// identifier from the map.
pub proof fn lemma_chunks_map_remove(s: Seq<Chunk>, i: int)
    requires
        unique_ids(s),
        0 <= i < s.len(),
    ensures
        unique_ids(s.remove(i)),
        chunks_map(s.remove(i)) == chunks_map(s).remove(s[i].spec_id()),
{
    let s2 = s.remove(i);
    let key = s[i].spec_id();
    assert forall|j: int| 0 <= j < s2.len() implies #[trigger] s2[j] == if j < i {
        s[j]
    } else {
        s[j + 1]
    } by {}
    assert(unique_ids(s2)) by {
        assert forall|a: int, b: int|
            0 <= a < s2.len() && 0 <= b < s2.len() && a != b implies (#[trigger] s2[a]).spec_id()
            != (#[trigger] s2[b]).spec_id() by {
            let a1 = if a < i { a } else { a + 1 };
            let b1 = if b < i { b } else { b + 1 };
            assert(s2[a] == s[a1] && s2[b] == s[b1]);
        }
    }
    let m2 = chunks_map(s2);
    let m1 = chunks_map(s).remove(key);
    assert forall|k: Seq<char>| #[trigger] m2.contains_key(k) <==> m1.contains_key(k) by {
        lemma_chunks_map_keys(s2, k);
        lemma_chunks_map_keys(s, k);
        if exists|j: int| 0 <= j < s2.len() && (#[trigger] s2[j]).spec_id() == k {
            let j = choose|j: int| 0 <= j < s2.len() && (#[trigger] s2[j]).spec_id() == k;
            let j1 = if j < i { j } else { j + 1 };
            assert(s[j1].spec_id() == k);
            assert(j1 != i);
        }
        if k != key && exists|j: int| 0 <= j < s.len() && (#[trigger] s[j]).spec_id() == k {
            let j = choose|j: int| 0 <= j < s.len() && (#[trigger] s[j]).spec_id() == k;
            assert(j != i);
            let j2 = if j < i { j } else { j - 1 };
            assert(s2[j2].spec_id() == k);
        }
    }
    assert forall|k: Seq<char>| #[trigger] m2.contains_key(k) implies m2[k] == m1[k] by {
        lemma_chunks_map_keys(s2, k);
        let j = choose|j: int| 0 <= j < s2.len() && (#[trigger] s2[j]).spec_id() == k;
        let j1 = if j < i { j } else { j + 1 };
        lemma_chunks_map_value(s2, j);
        lemma_chunks_map_value(s, j1);
    }
    assert(m2 =~= m1);
}

// ---------------------------------------------------------------------------
// Document
// ---------------------------------------------------------------------------

/// A manuscript: its manifest, its settings and its chunks, each chunk kept
/// under its own identifier.
#[derive(Debug)]
pub struct Document {
    manifest: DocumentManifest,
    settings: DocumentSettings,
    chunks: Vec<Chunk>,
}

/// What a document holds: manifest, settings, and its chunks by identifier.
#[verifier::ext_equal]
pub struct DocumentView {
    pub manifest: DocumentManifest,
    pub settings: DocumentSettings,
    pub chunks: Map<Seq<char>, ChunkView>,
}

impl View for Document {
    type V = DocumentView;

    closed spec fn view(&self) -> DocumentView {
        DocumentView { manifest: self.manifest, settings: self.settings, chunks: chunks_map(self.chunks@) }
    }
}

impl Document {
    /// The view of a document is made of its manifest, settings and chunks.
    pub proof fn lemma_view(self)
        ensures
            self@ == (DocumentView {
                manifest: self.spec_manifest(),
                settings: self.spec_settings(),
                chunks: self.spec_chunks(),
            }),
    {
    }

    /// No two chunks of the document share an identifier; every document
    /// keeps this invariant.
    #[verifier::type_invariant]
    pub closed spec fn wf(self) -> bool {
        unique_ids(self.chunks@)
    }

    /// The chunks of the document, keyed by identifier.
    pub closed spec fn spec_chunks(self) -> Map<Seq<char>, ChunkView> {
        chunks_map(self.chunks@)
    }

    /// The chunks in the order the document keeps them.
    pub closed spec fn spec_chunk_seq(self) -> Seq<Chunk> {
        self.chunks@
    }

    pub closed spec fn spec_manifest(self) -> DocumentManifest {
        self.manifest
    }

    pub closed spec fn spec_settings(self) -> DocumentSettings {
        self.settings
    }

    /// A document with the given manifest and settings and no chunk.
    pub fn new(manifest: DocumentManifest, settings: DocumentSettings) -> (r: Document)
        ensures
            r.spec_manifest() == manifest,
            r.spec_settings() == settings,
            r.spec_chunks() == Map::<Seq<char>, ChunkView>::empty(),
    {
        Document { manifest, settings, chunks: Vec::new() }
    }

    /// The position of the chunk with identifier `id`, if any.
    fn position_of(&self, id: &str) -> (r: Option<usize>)
        ensures
            match r {
                Some(i) => i < self.chunks@.len() && self.chunks@[i as int].spec_id() == id@,
                None => forall|j: int|
                    0 <= j < self.chunks@.len() ==> (#[trigger] self.chunks@[j]).spec_id() != id@,
            },
    {
        let mut i: usize = 0;
        while i < self.chunks.len()
            invariant
                0 <= i <= self.chunks@.len(),
                forall|j: int| 0 <= j < i ==> (#[trigger] self.chunks@[j]).spec_id() != id@,
            decreases self.chunks@.len() - i,
        {
            if str_eq(self.chunks[i].id(), id) {
                return Some(i);
            }
            i = i + 1;
        }
        None
    }

    pub fn title(&self) -> (r: Option<&String>)
        ensures
            r == match self.spec_manifest().title {
                Some(t) => Some(&t),
                None => None::<&String>,
            },
    {
        self.manifest.title()
    }

    pub fn set_title(&mut self, value: Option<String>)
        ensures
            final(self).spec_manifest() == (DocumentManifest {
                title: value,
                ..old(self).spec_manifest()
            }),
            final(self).spec_settings() == old(self).spec_settings(),
            final(self).spec_chunk_seq() == old(self).spec_chunk_seq(),
            final(self).spec_chunks() == old(self).spec_chunks(),
    {
        proof {
            use_type_invariant(&*self);
        }
        let mut manifest = self.manifest.clone();
        manifest.set_title(value);
        self.manifest = manifest;
    }

    pub fn settings(&self) -> (r: &DocumentSettings)
        ensures
            *r == self.spec_settings(),
    {
        &self.settings
    }

    pub fn manifest(&self) -> (r: &DocumentManifest)
        ensures
            *r == self.spec_manifest(),
    {
        &self.manifest
    }

    /// Adds a chunk; a chunk already kept under the same identifier is replaced.
    pub fn add_chunk(&mut self, value: Chunk)
        ensures
            final(self).spec_chunks() == old(self).spec_chunks().insert(value.spec_id(), value@),
            final(self).spec_manifest() == old(self).spec_manifest(),
            final(self).spec_settings() == old(self).spec_settings(),
    {
        proof {
            use_type_invariant(&*self);
        }
        let pos = self.position_of(value.id());
        let mut chunks: Vec<Chunk> = Vec::new();
        std::mem::swap(&mut chunks, &mut self.chunks);
        match pos {
            Some(i) => {
                proof {
                    lemma_chunks_map_update(chunks@, i as int, value);
                }
                chunks.set(i, value);
            },
            None => {
                proof {
                    lemma_chunks_map_push(chunks@, value);
                }
                chunks.push(value);
            },
        }
        self.chunks = chunks;
    }

    /// Removes the chunk with identifier `id` and hands it back.
    pub fn remove_chunk(&mut self, id: &String) -> (r: Option<Chunk>)
        ensures
            match r {
                Some(c) => old(self).spec_chunks().contains_key(id@) && c@ == old(
                    self,
                ).spec_chunks()[id@] && c.spec_id() == id@,
                None => !old(self).spec_chunks().contains_key(id@),
            },
            final(self).spec_chunks() == old(self).spec_chunks().remove(id@),
            final(self).spec_manifest() == old(self).spec_manifest(),
            final(self).spec_settings() == old(self).spec_settings(),
    {
        proof {
            use_type_invariant(&*self);
        }
        let pos = self.position_of(id.as_str());
        proof {
            lemma_chunks_map_keys(self.chunks@, id@);
        }
        match pos {
            Some(i) => {
                proof {
                    lemma_chunks_map_remove(self.chunks@, i as int);
                    lemma_chunks_map_value(self.chunks@, i as int);
                }
                let mut chunks: Vec<Chunk> = Vec::new();
                std::mem::swap(&mut chunks, &mut self.chunks);
                let removed = chunks.remove(i);
                self.chunks = chunks;
                Some(removed)
            },
            None => {
                assert(old(self).spec_chunks().remove(id@) =~= old(self).spec_chunks());
                None
            },
        }
    }

    /// The chunk with identifier `id`, if the document has one.
    pub fn get_chunk_ref(&self, id: &str) -> (r: Option<&Chunk>)
        ensures
            match r {
                Some(c) => self.spec_chunks().contains_key(id@) && c@ == self.spec_chunks()[id@]
                    && c.spec_id() == id@,
                None => !self.spec_chunks().contains_key(id@),
            },
    {
        proof {
            use_type_invariant(self);
        }
        let pos = self.position_of(id);
        proof {
            lemma_chunks_map_keys(self.chunks@, id@);
        }
        match pos {
            Some(i) => {
                proof {
                    lemma_chunks_map_value(self.chunks@, i as int);
                }
                Some(&self.chunks[i])
            },
            None => None,
        }
    }

    /// Hands the chunk with identifier `id`, if there is one, to `f`, and
    /// keeps the chunk `f` gives back in its place, under `id`; `f` keeps the
    /// identifier of the chunk it is given. Tells whether there was such a
    /// chunk; the other chunks stay as they were.
    pub fn update_chunk_with<F: FnOnce(Chunk) -> Chunk>(&mut self, id: &str, f: F) -> (r: bool)
        requires
            forall|c: Chunk| call_requires(f, (c,)),
            forall|c: Chunk, d: Chunk| call_ensures(f, (c,), d) ==> d.spec_id() == c.spec_id(),
        ensures
            r == old(self).spec_chunks().contains_key(id@),
            final(self).spec_manifest() == old(self).spec_manifest(),
            final(self).spec_settings() == old(self).spec_settings(),
            !r ==> final(self).spec_chunks() == old(self).spec_chunks(),
            r ==> exists|before: Chunk, after: Chunk|
                {
                    &&& before@ == old(self).spec_chunks()[id@]
                    &&& before.spec_id() == id@
                    &&& call_ensures(f, (before,), after)
                    &&& after.spec_id() == id@
                    &&& final(self).spec_chunks() == old(self).spec_chunks().insert(id@, after@)
                },
    {
        proof {
            use_type_invariant(&*self);
        }
        let pos = self.position_of(id);
        proof {
            lemma_chunks_map_keys(self.chunks@, id@);
        }
        match pos {
            Some(i) => {
                proof {
                    lemma_chunks_map_remove(self.chunks@, i as int);
                    lemma_chunks_map_value(self.chunks@, i as int);
                }
                let mut chunks: Vec<Chunk> = Vec::new();
                std::mem::swap(&mut chunks, &mut self.chunks);
                let before = chunks.remove(i);
                self.chunks = chunks;
                let ghost b = before;
                let after = f(before);
                proof {
                    assert(after.spec_id() == id@);
                    assert(old(self).spec_chunks().remove(id@).insert(id@, after@) =~= old(
                        self,
                    ).spec_chunks().insert(id@, after@));
                }
                self.add_chunk(after);
                true
            },
            None => false,
        }
    }

    /// All the chunks of the document, each once.
    pub fn chunks(&self) -> (r: Vec<&Chunk>)
        ensures
            unique_ids(r@.map_values(|c: &Chunk| *c)),
            forall|i: int|
                0 <= i < r@.len() ==> self.spec_chunks().contains_key(r@[i].spec_id())
                    && self.spec_chunks()[r@[i].spec_id()] == r@[i]@,
            forall|k: Seq<char>|
                self.spec_chunks().contains_key(k) ==> exists|i: int|
                    0 <= i < r@.len() && (#[trigger] r@[i]).spec_id() == k,
    {
        proof {
            use_type_invariant(self);
        }
        let mut out: Vec<&Chunk> = Vec::new();
        let mut i: usize = 0;
        while i < self.chunks.len()
            invariant
                self.wf(),
                0 <= i <= self.chunks@.len(),
                out@.len() == i,
                forall|j: int| 0 <= j < i ==> *(#[trigger] out@[j]) == self.chunks@[j],
            decreases self.chunks@.len() - i,
        {
            out.push(&self.chunks[i]);
            i = i + 1;
        }
        proof {
            let s = self.chunks@;
            assert(out@.map_values(|c: &Chunk| *c) =~= s);
            assert forall|j: int| 0 <= j < out@.len() implies self.spec_chunks().contains_key(
                out@[j].spec_id(),
            ) && self.spec_chunks()[out@[j].spec_id()] == out@[j]@ by {
                lemma_chunks_map_value(s, j);
            }
            assert forall|k: Seq<char>| self.spec_chunks().contains_key(k) implies exists|j: int|
                0 <= j < out@.len() && (#[trigger] out@[j]).spec_id() == k by {
                lemma_chunks_map_keys(s, k);
                let j = choose|j: int| 0 <= j < s.len() && (#[trigger] s[j]).spec_id() == k;
                assert(out@[j].spec_id() == k);
            }
        }
        out
    }
}

impl Document {
    /// The chunks of the document of the given type, each once.
    pub fn chunks_by_type_ref(&self, ty: ChunkType) -> (r: Vec<&Chunk>)
        ensures
            unique_ids(r@.map_values(|c: &Chunk| *c)),
            forall|i: int|
                0 <= i < r@.len() ==> (#[trigger] r@[i]).spec_chunk_type() == ty
                    && self.spec_chunks().contains_key(r@[i].spec_id()) && self.spec_chunks()[r@[
                    i].spec_id()] == r@[i]@,
            forall|k: Seq<char>|
                self.spec_chunks().contains_key(k) && self.spec_chunks()[k].chunk_type() == ty
                    ==> exists|i: int| 0 <= i < r@.len() && (#[trigger] r@[i]).spec_id() == k,
    {
        proof {
            use_type_invariant(self);
        }
        let mut out: Vec<&Chunk> = Vec::new();
        let ghost mut pos: Seq<int> = Seq::empty();
        let mut i: usize = 0;
        while i < self.chunks.len()
            invariant
                self.wf(),
                0 <= i <= self.chunks@.len(),
                pos.len() == out@.len(),
                forall|k: int| 0 <= k < pos.len() ==> 0 <= #[trigger] pos[k] < i,
                forall|k: int, l: int| 0 <= k < l < pos.len() ==> pos[k] < pos[l],
                forall|k: int|
                    0 <= k < pos.len() ==> *(#[trigger] out@[k]) == self.chunks@[pos[k]]
                        && out@[k].spec_chunk_type() == ty,
                forall|j: int|
                    0 <= j < i && (#[trigger] self.chunks@[j]).spec_chunk_type() == ty ==> exists|
                        k: int,
                    | 0 <= k < pos.len() && pos[k] == j,
            decreases self.chunks@.len() - i,
        {
            let ghost old_pos = pos;
            if self.chunks[i].chunk_type() == ty {
                out.push(&self.chunks[i]);
                proof {
                    pos = pos.push(i as int);
                }
            }
            proof {
                assert forall|j: int|
                    0 <= j < i + 1 && (#[trigger] self.chunks@[j]).spec_chunk_type()
                        == ty implies exists|k: int| 0 <= k < pos.len() && pos[k] == j by {
                    if j == i {
                        assert(pos[pos.len() - 1] == j);
                    } else {
                        let k = choose|k: int| 0 <= k < old_pos.len() && old_pos[k] == j;
                        assert(pos[k] == old_pos[k]);
                    }
                }
            }
            i = i + 1;
        }
        proof {
            let s = self.chunks@;
            let v = out@.map_values(|c: &Chunk| *c);
            assert forall|a: int, b: int|
                0 <= a < v.len() && 0 <= b < v.len() && a != b implies (#[trigger] v[a]).spec_id()
                != (#[trigger] v[b]).spec_id() by {
                assert(v[a] == s[pos[a]] && v[b] == s[pos[b]]);
                assert(pos[a] != pos[b]) by {
                    if a < b {
                        assert(pos[a] < pos[b]);
                    } else {
                        assert(pos[b] < pos[a]);
                    }
                }
            }
            assert forall|k: int| 0 <= k < out@.len() implies self.spec_chunks().contains_key(
                out@[k].spec_id(),
            ) && self.spec_chunks()[out@[k].spec_id()] == out@[k]@ by {
                lemma_chunks_map_value(s, pos[k]);
            }
            assert forall|key: Seq<char>|
                self.spec_chunks().contains_key(key) && self.spec_chunks()[key].chunk_type()
                    == ty implies exists|k: int|
                0 <= k < out@.len() && (#[trigger] out@[k]).spec_id() == key by {
                lemma_chunks_map_keys(s, key);
                let j = choose|j: int| 0 <= j < s.len() && (#[trigger] s[j]).spec_id() == key;
                lemma_chunks_map_value(s, j);
                assert(s[j].spec_chunk_type() == s[j]@.chunk_type());
                let k = choose|k: int| 0 <= k < pos.len() && pos[k] == j;
                assert(out@[k].spec_id() == key);
            }
        }
        out
    }

    /// The chunks of the document of the given type, each once.
    pub fn chunks_by_type(&mut self, ty: ChunkType) -> (r: Vec<&Chunk>)
        ensures
            unique_ids(r@.map_values(|c: &Chunk| *c)),
            forall|i: int|
                0 <= i < r@.len() ==> (#[trigger] r@[i]).spec_chunk_type() == ty
                    && old(self).spec_chunks().contains_key(r@[i].spec_id()) && old(
                    self,
                ).spec_chunks()[r@[i].spec_id()] == r@[i]@,
            forall|k: Seq<char>|
                old(self).spec_chunks().contains_key(k) && old(self).spec_chunks()[k].chunk_type()
                    == ty ==> exists|i: int| 0 <= i < r@.len() && (#[trigger] r@[i]).spec_id() == k,
    {
        self.chunks_by_type_ref(ty)
    }
}

impl Clone for Document {
    fn clone(&self) -> (r: Document)
        ensures
            r.spec_manifest() == self.spec_manifest(),
            r.spec_settings() == self.spec_settings(),
            r.spec_chunks() == self.spec_chunks(),
    {
        proof {
            use_type_invariant(self);
        }
        let mut chunks: Vec<Chunk> = Vec::new();
        let mut i: usize = 0;
        while i < self.chunks.len()
            invariant
                unique_ids(self.chunks@),
                0 <= i <= self.chunks@.len(),
                chunks@.len() == i,
                forall|j: int|
                    0 <= j < i ==> (#[trigger] chunks@[j])@ == self.chunks@[j]@ && chunks@[j].spec_id()
                        == self.chunks@[j].spec_id(),
                unique_ids(chunks@),
                chunks_map(chunks@) == chunks_map(self.chunks@.take(i as int)),
            decreases self.chunks@.len() - i,
        {
            let c = self.chunks[i].clone();
            proof {
                assert(self.chunks@.take(i as int + 1).drop_last() =~= self.chunks@.take(i as int));
                assert(chunks@.push(c).drop_last() =~= chunks@);
                assert forall|a: int, b: int|
                    0 <= a < chunks@.push(c).len() && 0 <= b < chunks@.push(c).len() && a != b implies (
                    #[trigger] chunks@.push(c)[a]).spec_id() != (#[trigger] chunks@.push(c)[b]).spec_id() by {
                    assert(chunks@.push(c)[a].spec_id() == self.chunks@[a].spec_id());
                    assert(chunks@.push(c)[b].spec_id() == self.chunks@[b].spec_id());
                }
            }
            chunks.push(c);
            i = i + 1;
        }
        assert(self.chunks@.take(self.chunks@.len() as int) =~= self.chunks@);
        Document { manifest: self.manifest.clone(), settings: self.settings, chunks }
    }
}

/// A chunk added to a document is found under its identifier, and the other
/// chunks are found as before.
pub proof fn lemma_add_then_get(
    before: Map<Seq<char>, ChunkView>,
    after: Map<Seq<char>, ChunkView>,
    c: Chunk,
    k: Seq<char>,
)
    requires
        after == before.insert(c.spec_id(), c@),
    ensures
        after.contains_key(c.spec_id()) && after[c.spec_id()] == c@,
        k != c.spec_id() ==> (after.contains_key(k) == before.contains_key(k) && (
        before.contains_key(k) ==> after[k] == before[k])),
{
}

/// Removing a chunk that was just added under a new identifier gives the
/// document its former chunks back.
pub proof fn lemma_add_then_remove(
    before: Map<Seq<char>, ChunkView>,
    added: Map<Seq<char>, ChunkView>,
    removed: Map<Seq<char>, ChunkView>,
    c: Chunk,
)
    requires
        !before.contains_key(c.spec_id()),
        added == before.insert(c.spec_id(), c@),
        removed == added.remove(c.spec_id()),
    ensures
        removed == before,
{
    assert(removed =~= before);
}

/// After a removal the identifier is no longer found, and the other chunks
/// are found as before.
pub proof fn lemma_remove_then_get(
    before: Map<Seq<char>, ChunkView>,
    after: Map<Seq<char>, ChunkView>,
    id: Seq<char>,
    k: Seq<char>,
)
    requires
        after == before.remove(id),
    ensures
        !after.contains_key(id),
        k != id ==> (after.contains_key(k) == before.contains_key(k) && (before.contains_key(k)
            ==> after[k] == before[k])),
{
}

// ---------------------------------------------------------------------------
// The form of a document that is written to and read from storage.
// ---------------------------------------------------------------------------

/// A document laid out for storage: its manifest and settings, then its
/// chapters and its character sheets as two lists.
pub struct SerializableDocument {
    pub manifest: DocumentManifest,
    pub settings: DocumentSettings,
    pub chapters: Vec<Chapter>,
    pub character_sheets: Vec<CharacterSheet>,
}

impl SerializableDocument {
    /// The chapters, then the character sheets, as chunks.
    pub open spec fn spec_all_chunks(self) -> Seq<Chunk> {
        chapters_as_chunks(self.chapters@) + sheets_as_chunks(self.character_sheets@)
    }

    /// The lists hold exactly the chunks of `m`: every listed chunk is the one
    /// `m` keeps under its identifier, and every identifier of `m` is listed.
    pub open spec fn lists_chunks_of(self, m: Map<Seq<char>, ChunkView>) -> bool {
        &&& forall|i: int|
            0 <= i < self.spec_all_chunks().len() ==> m.contains_key(
                (#[trigger] self.spec_all_chunks()[i]).spec_id(),
            ) && m[self.spec_all_chunks()[i].spec_id()] == self.spec_all_chunks()[i]@
        &&& forall|k: Seq<char>|
            m.contains_key(k) ==> exists|i: int|
                0 <= i < self.spec_all_chunks().len() && (#[trigger] self.spec_all_chunks()[i]).spec_id()
                    == k
    }

    /// Lays out a document for storage.
    pub fn new(source: &Document) -> (r: SerializableDocument)
        ensures
            r.manifest == source.spec_manifest(),
            r.settings == source.spec_settings(),
            r.lists_chunks_of(source.spec_chunks()),
            unique_ids(r.spec_all_chunks()),
    {
        proof {
            use_type_invariant(source);
        }
        let manifest = source.manifest.clone();
        let settings = source.settings;
        let mut chapters: Vec<Chapter> = Vec::new();
        let mut character_sheets: Vec<CharacterSheet> = Vec::new();
        let ghost s = source.chunks@;
        let ghost mut cpos: Seq<int> = Seq::empty();
        let ghost mut spos: Seq<int> = Seq::empty();
        let mut i: usize = 0;
        while i < source.chunks.len()
            invariant
                s == source.chunks@,
                unique_ids(s),
                0 <= i <= s.len(),
                cpos.len() == chapters@.len(),
                spos.len() == character_sheets@.len(),
                forall|k: int|
                    0 <= k < cpos.len() ==> 0 <= #[trigger] cpos[k] < i && s[cpos[k]]@
                        == ChunkView::Chapter(chapters@[k]@),
                forall|k: int|
                    0 <= k < spos.len() ==> 0 <= #[trigger] spos[k] < i && s[spos[k]]@
                        == ChunkView::CharacterSheet(character_sheets@[k]@),
                forall|k: int, l: int| 0 <= k < l < cpos.len() ==> cpos[k] < cpos[l],
                forall|k: int, l: int| 0 <= k < l < spos.len() ==> spos[k] < spos[l],
                forall|k: int|
                    #![trigger chapters@[k]]
                    0 <= k < chapters@.len() ==> exists|j: int|
                        0 <= j < i && (#[trigger] s[j])@ == ChunkView::Chapter(chapters@[k]@),
                forall|k: int|
                    #![trigger character_sheets@[k]]
                    0 <= k < character_sheets@.len() ==> exists|j: int|
                        0 <= j < i && (#[trigger] s[j])@ == ChunkView::CharacterSheet(
                            character_sheets@[k]@,
                        ),
                forall|j: int|
                    0 <= j < i ==> match #[trigger] s[j] {
                        Chunk::Chapter(_) => exists|k: int|
                            0 <= k < chapters@.len() && s[j]@ == ChunkView::Chapter(
                                chapters@[k]@,
                            ),
                        Chunk::CharacterSheet(_) => exists|k: int|
                            0 <= k < character_sheets@.len() && s[j]@
                                == ChunkView::CharacterSheet(character_sheets@[k]@),
                    },
            decreases s.len() - i,
        {
            let ghost old_ch = chapters@;
            let ghost old_sh = character_sheets@;
            match &source.chunks[i] {
                Chunk::Chapter(c) => {
                    chapters.push(c.clone());
                    proof {
                        cpos = cpos.push(i as int);
                    }
                },
                Chunk::CharacterSheet(c) => {
                    character_sheets.push(c.clone());
                    proof {
                        spos = spos.push(i as int);
                    }
                },
            }
            proof {
                assert forall|k: int|
                    #![trigger chapters@[k]]
                    0 <= k < chapters@.len() implies exists|j: int|
                    0 <= j < i + 1 && (#[trigger] s[j])@ == ChunkView::Chapter(chapters@[k]@) by {
                    if k < old_ch.len() {
                        assert(chapters@[k] == old_ch[k]);
                    } else {
                        assert(s[i as int]@ == ChunkView::Chapter(chapters@[k]@));
                    }
                }
                assert forall|k: int|
                    #![trigger character_sheets@[k]]
                    0 <= k < character_sheets@.len() implies exists|j: int|
                    0 <= j < i + 1 && (#[trigger] s[j])@ == ChunkView::CharacterSheet(
                        character_sheets@[k]@,
                    ) by {
                    if k < old_sh.len() {
                        assert(character_sheets@[k] == old_sh[k]);
                    } else {
                        assert(s[i as int]@ == ChunkView::CharacterSheet(character_sheets@[k]@));
                    }
                }
                assert forall|j: int| 0 <= j < i + 1 implies match #[trigger] s[j] {
                    Chunk::Chapter(_) => exists|k: int|
                        0 <= k < chapters@.len() && s[j]@ == ChunkView::Chapter(chapters@[k]@),
                    Chunk::CharacterSheet(_) => exists|k: int|
                        0 <= k < character_sheets@.len() && s[j]@ == ChunkView::CharacterSheet(
                            character_sheets@[k]@,
                        ),
                } by {
                    if j < i {
                        match s[j] {
                            Chunk::Chapter(_) => {
                                let k = choose|k: int|
                                    0 <= k < old_ch.len() && s[j]@ == ChunkView::Chapter(
                                        old_ch[k]@,
                                    );
                                assert(chapters@[k] == old_ch[k]);
                            },
                            Chunk::CharacterSheet(_) => {
                                let k = choose|k: int|
                                    0 <= k < old_sh.len() && s[j]@ == ChunkView::CharacterSheet(
                                        old_sh[k]@,
                                    );
                                assert(character_sheets@[k] == old_sh[k]);
                            },
                        }
                    } else {
                        match s[j] {
                            Chunk::Chapter(_) => {
                                assert(s[j]@ == ChunkView::Chapter(
                                    chapters@[chapters@.len() - 1]@,
                                ));
                            },
                            Chunk::CharacterSheet(_) => {
                                assert(s[j]@ == ChunkView::CharacterSheet(
                                    character_sheets@[character_sheets@.len() - 1]@,
                                ));
                            },
                        }
                    }
                }
            }
            i = i + 1;
        }
        let r = SerializableDocument { manifest, settings, chapters, character_sheets };
        proof {
            let all = r.spec_all_chunks();
            let nc = chapters@.len() as int;
            let m = source.spec_chunks();
            let pos = cpos + spos;
            assert forall|a: int| 0 <= a < all.len() implies 0 <= #[trigger] pos[a] < s.len()
                && s[pos[a]]@ == all[a]@ by {
                if a < nc {
                    assert(pos[a] == cpos[a]);
                } else {
                    assert(pos[a] == spos[a - nc]);
                }
            }
            assert forall|a: int, b: int|
                0 <= a < all.len() && 0 <= b < all.len() && a != b implies (#[trigger] all[a]).spec_id()
                != (#[trigger] all[b]).spec_id() by {
                assert(0 <= pos[a] < s.len() && s[pos[a]]@ == all[a]@);
                assert(0 <= pos[b] < s.len() && s[pos[b]]@ == all[b]@);
                assert(pos[a] != pos[b]) by {
                    if a < nc && b < nc {
                        if a < b {
                            assert(cpos[a] < cpos[b]);
                        } else {
                            assert(cpos[b] < cpos[a]);
                        }
                    } else if a >= nc && b >= nc {
                        if a < b {
                            assert(spos[a - nc] < spos[b - nc]);
                        } else {
                            assert(spos[b - nc] < spos[a - nc]);
                        }
                    } else if a < nc {
                        assert(s[pos[a]]@ is Chapter);
                        assert(s[pos[b]]@ is CharacterSheet);
                    } else {
                        assert(s[pos[a]]@ is CharacterSheet);
                        assert(s[pos[b]]@ is Chapter);
                    }
                }
                lemma_chunk_view_id(s[pos[a]], all[a]);
                lemma_chunk_view_id(s[pos[b]], all[b]);
            }
            assert forall|a: int| 0 <= a < all.len() implies m.contains_key(
                (#[trigger] all[a]).spec_id(),
            ) && m[all[a].spec_id()] == all[a]@ by {
                let j = if a < nc {
                    choose|j: int| 0 <= j < s.len() && (#[trigger] s[j])@ == ChunkView::Chapter(chapters@[a]@)
                } else {
                    choose|j: int|
                        0 <= j < s.len() && (#[trigger] s[j])@ == ChunkView::CharacterSheet(
                            character_sheets@[a - nc]@,
                        )
                };
                assert(s[j]@ == all[a]@);
                lemma_chunk_view_id(s[j], all[a]);
                lemma_chunks_map_value(s, j);
            }
            assert forall|key: Seq<char>| m.contains_key(key) implies exists|a: int|
                0 <= a < all.len() && (#[trigger] all[a]).spec_id() == key by {
                lemma_chunks_map_keys(s, key);
                let j = choose|j: int| 0 <= j < s.len() && (#[trigger] s[j]).spec_id() == key;
                match s[j] {
                    Chunk::Chapter(_) => {
                        let k = choose|k: int|
                            0 <= k < chapters@.len() && s[j]@ == ChunkView::Chapter(chapters@[k]@);
                        assert(all[k]@ == s[j]@);
                        lemma_chunk_view_id(s[j], all[k]);
                    },
                    Chunk::CharacterSheet(_) => {
                        let k = choose|k: int|
                            0 <= k < character_sheets@.len() && s[j]@ == ChunkView::CharacterSheet(
                                character_sheets@[k]@,
                            );
                        assert(all[nc + k]@ == s[j]@);
                        lemma_chunk_view_id(s[j], all[nc + k]);
                    },
                }
            }
        }
        r
    }

    pub fn chapters(&self) -> (r: &Vec<Chapter>)
        ensures
            r == &self.chapters,
    {
        &self.chapters
    }
}

impl From<SerializableDocument> for Document {
    /// Rebuilds a document from its stored form: its manifest and settings,
    /// then each chapter and each character sheet added in turn.
    fn from(source: SerializableDocument) -> (r: Document)
        ensures
            r.spec_manifest() == source.manifest,
            r.spec_settings() == source.settings,
            r.spec_chunks() == chunks_map(source.spec_all_chunks()),
    {
        let mut document = Document::new(source.manifest, source.settings);
        let ghost ch = chapters_as_chunks(source.chapters@);
        let mut i: usize = 0;
        while i < source.chapters.len()
            invariant
                document.spec_manifest() == source.manifest,
                document.spec_settings() == source.settings,
                ch == chapters_as_chunks(source.chapters@),
                0 <= i <= source.chapters@.len(),
                document.spec_chunks() == chunks_map(ch.take(i as int)),
            decreases source.chapters@.len() - i,
        {
            let c = source.chapters[i].clone();
            let chunk = Chunk::Chapter(c);
            proof {
                assert(ch.take(i as int + 1).drop_last() =~= ch.take(i as int));
                assert(ch.take(i as int + 1).last()@ == chunk@);
                lemma_chunk_view_id(ch[i as int], chunk);
            }
            document.add_chunk(chunk);
            i = i + 1;
        }
        assert(ch.take(ch.len() as int) =~= ch);
        let ghost sh = sheets_as_chunks(source.character_sheets@);
        let mut j: usize = 0;
        while j < source.character_sheets.len()
            invariant
                document.spec_manifest() == source.manifest,
                document.spec_settings() == source.settings,
                ch == chapters_as_chunks(source.chapters@),
                sh == sheets_as_chunks(source.character_sheets@),
                0 <= j <= source.character_sheets@.len(),
                document.spec_chunks() == chunks_map(ch + sh.take(j as int)),
            decreases source.character_sheets@.len() - j,
        {
            let c = source.character_sheets[j].clone();
            let chunk = Chunk::CharacterSheet(c);
            proof {
                assert((ch + sh.take(j as int + 1)).drop_last() =~= ch + sh.take(j as int));
                assert((ch + sh.take(j as int + 1)).last()@ == chunk@);
                lemma_chunk_view_id(sh[j as int], chunk);
            }
            document.add_chunk(chunk);
            j = j + 1;
        }
        assert(sh.take(sh.len() as int) =~= sh);
        document
    }
}

impl vstd::std_specs::convert::FromSpecImpl<SerializableDocument> for Document {
    /// The conversion is described by the `ensures` of `from` itself, over
    /// the views of the document; no single spec value stands for it.
    open spec fn obeys_from_spec() -> bool {
        false
    }

    open spec fn from_spec(v: SerializableDocument) -> Document {
        vstd::pervasive::arbitrary()
    }
}

/// Storing a document and reading it back gives the same chunks: when the
/// lists of a stored form hold exactly the chunks of a map, rebuilding from
/// them gives that map back.
pub proof fn lemma_storage_roundtrip(source: SerializableDocument, m: Map<Seq<char>, ChunkView>)
    requires
        source.lists_chunks_of(m),
    ensures
        chunks_map(source.spec_all_chunks()) == m,
{
    let all = source.spec_all_chunks();
    let r = chunks_map(all);
    assert forall|k: Seq<char>| #[trigger] r.contains_key(k) <==> m.contains_key(k) by {
        lemma_chunks_map_keys(all, k);
    }
    assert forall|k: Seq<char>| #[trigger] r.contains_key(k) implies r[k] == m[k] by {
        lemma_chunks_map_keys(all, k);
    }
    assert(r =~= m);
}


/// The SHA-256 digest of the UTF-8 bytes of a text, written as lowercase hexadecimal.
pub uninterp spec fn sha256_hex(input: Seq<char>) -> Seq<char>;

/// `sha256::digest` on a `String`: the hexadecimal SHA-256 digest of its
/// UTF-8 bytes (`hex::encode` of the 32-byte hash, so 64 lowercase
/// hexadecimal digits).
#[verifier::external_body]
fn sha256_digest(input: String) -> (r: String)
    ensures
        r@ == sha256_hex(input@),
        r@.len() == 64,
        forall|i: int|
            0 <= i < r@.len() ==> ('0' <= #[trigger] r@[i] <= '9' || 'a' <= r@[i] <= 'f'),
{
    sha256::digest(input)
}

/// `String::from_utf8`, on bytes that are valid UTF-8: the text they encode.
#[verifier::external_body]
fn string_from_utf8(bytes: Vec<u8>) -> (r: String)
    requires
        vstd::utf8::valid_utf8(bytes@),
    ensures
        r@ == vstd::utf8::decode_utf8(bytes@),
{
    String::from_utf8(bytes).unwrap()
}

impl Document {
    /// Pairs the stored form of a document with its digest: the SHA-256 of
    /// the text the bytes encode, which must be valid UTF-8.
    pub fn with_digest(serialized: Vec<u8>) -> (r: (Vec<u8>, String))
        requires
            vstd::utf8::valid_utf8(serialized@),
        ensures
            r.0@ == serialized@,
            r.1@ == sha256_hex(vstd::utf8::decode_utf8(serialized@)),
    {
        let text = string_from_utf8(vstd::slice::slice_to_vec(serialized.as_slice()));
        let digest = sha256_digest(text);
        (serialized, digest)
    }
}

} // verus!
