use bytes::Bytes;

use manuscript::models::document::SerializableDocument;
use manuscript::models::{
    Chapter, CharacterSheet, Chunk, ChunkType, Document, DocumentChunk, DocumentManifest,
    DocumentSettings, MutableBufferChunk, TextMetricSize,
};

fn empty_document() -> Document {
    Document::new(DocumentManifest::with_author(String::from("Author")), DocumentSettings::default())
}

fn make_test_document_1() -> Document {
    let mut doc = empty_document();
    doc.add_chunk(Chunk::Chapter(Chapter::default()));
    doc.add_chunk(Chunk::Chapter(Chapter::default()));
    doc.add_chunk(Chunk::Chapter(Chapter::default()));
    doc.add_chunk(Chunk::CharacterSheet(CharacterSheet::default()));
    assert_eq!(doc.chunks().len(), 4);
    doc
}

#[test]
fn new_document_is_empty() {
    let doc = empty_document();
    assert!(doc.chunks().is_empty());
    assert!(doc.title().is_none());
    assert_eq!(doc.manifest().author, "Author");
    assert_eq!(doc.settings().line_height(), TextMetricSize::Narrow);
}

#[test]
fn document_title_goes_to_manifest() {
    let mut doc = make_test_document_1();
    doc.set_title(Some(String::from("A title")));
    assert_eq!(doc.title().unwrap(), "A title");
    assert_eq!(doc.manifest().title().unwrap(), "A title");
    assert_eq!(doc.chunks().len(), 4);
    doc.set_title(None);
    assert!(doc.title().is_none());
}

#[test]
fn added_chunk_is_found_by_id() {
    let mut doc = make_test_document_1();
    let mut c = Chapter::default();
    c.set_title("Found");
    let id = c.id().to_string();
    doc.add_chunk(Chunk::Chapter(c));
    assert_eq!(doc.chunks().len(), 5);
    let found = doc.get_chunk_ref(&id).unwrap();
    assert_eq!(found.id(), id);
    assert_eq!(found.title(), Some("Found"));
    assert!(doc.get_chunk_ref("not-an-id").is_none());
}

#[test]
fn adding_same_id_replaces_chunk() {
    let mut doc = empty_document();
    let mut c = Chapter::default();
    let id = c.id().to_string();
    c.set_title("First");
    doc.add_chunk(Chunk::Chapter(c));
    let mut again = Chapter::default();
    again.id = id.clone();
    again.set_title("Second");
    doc.add_chunk(Chunk::Chapter(again));
    assert_eq!(doc.chunks().len(), 1);
    assert_eq!(doc.get_chunk_ref(&id).unwrap().title(), Some("Second"));
}

#[test]
fn removed_chunk_is_handed_back() {
    let mut doc = make_test_document_1();
    let c = Chapter::default();
    let id = c.id().to_string();
    doc.add_chunk(Chunk::Chapter(c));
    let removed = doc.remove_chunk(&id).unwrap();
    assert_eq!(removed.id(), id);
    assert_eq!(doc.chunks().len(), 4);
    assert!(doc.get_chunk_ref(&id).is_none());
    assert!(doc.remove_chunk(&id).is_none());
    assert_eq!(doc.chunks().len(), 4);
}

#[test]
fn add_then_remove_restores_ids() {
    let mut doc = make_test_document_1();
    let mut before: Vec<String> = doc.chunks().iter().map(|c| c.id().to_string()).collect();
    before.sort();
    let c = CharacterSheet::default();
    let id = c.id().to_string();
    doc.add_chunk(Chunk::CharacterSheet(c));
    doc.remove_chunk(&id);
    let mut after: Vec<String> = doc.chunks().iter().map(|c| c.id().to_string()).collect();
    after.sort();
    assert_eq!(before, after);
}

#[test]
fn chunks_by_type_filters() {
    let mut doc = make_test_document_1();
    let chapters = doc.chunks_by_type_ref(ChunkType::Chapter);
    assert_eq!(chapters.len(), 3);
    assert!(chapters.iter().all(|c| c.chunk_type() == ChunkType::Chapter));
    assert_eq!(doc.chunks_by_type_ref(ChunkType::CharacterSheet).len(), 1);
    assert_eq!(doc.chunks_by_type_ref(ChunkType::Manifest).len(), 0);
    assert_eq!(doc.chunks_by_type(ChunkType::CharacterSheet).len(), 1);
}

#[test]
fn update_chunk_with_replaces_buffer() {
    let mut doc = make_test_document_1();
    let c = Chapter::default();
    let id = c.id().to_string();
    doc.add_chunk(Chunk::Chapter(c));
    let found = doc.update_chunk_with(&id, |chunk| match chunk {
        Chunk::Chapter(mut ch) => {
            ch.set_buffer(Bytes::from("new text"));
            Chunk::Chapter(ch)
        }
        other => other,
    });
    assert!(found);
    let chapter = doc.get_chunk_ref(&id).unwrap().as_chapter().unwrap();
    assert_eq!(&chapter.buffer[..], b"new text");
    assert!(!doc.update_chunk_with("missing", |chunk| chunk));
    assert_eq!(doc.chunks().len(), 5);
}

#[test]
fn cloned_document_keeps_chunks() {
    let doc = make_test_document_1();
    let copy = doc.clone();
    assert_eq!(copy.chunks().len(), 4);
    for c in doc.chunks() {
        assert!(copy.get_chunk_ref(c.id()).is_some());
    }
}

#[test]
fn stored_form_lists_chapters_and_sheets() {
    let doc = make_test_document_1();
    let stored = SerializableDocument::new(&doc);
    assert_eq!(stored.chapters().len(), 3);
    assert_eq!(stored.character_sheets.len(), 1);
    assert_eq!(stored.manifest.author, "Author");
}

#[test]
fn deserialize_from_stored_form() {
    let mut doc = make_test_document_1();
    let mut chapter_with_content = Chapter::default();
    let chapter_with_content_id = chapter_with_content.id().to_string();
    chapter_with_content.set_title("Test title");
    chapter_with_content.set_buffer(Bytes::from(String::from("Test content")));
    doc.add_chunk(Chunk::Chapter(chapter_with_content));

    let all_ids: Vec<String> = doc.chunks().iter().map(|c| c.id().to_string()).collect();
    let stored = SerializableDocument::new(&doc);
    let restored = Document::from(stored);
    assert_eq!(restored.chunks().len(), 5);

    for id in all_ids {
        assert!(restored.get_chunk_ref(&id).is_some());
    }

    let chap = restored.get_chunk_ref(chapter_with_content_id.as_str());
    assert!(chap.is_some());
    assert!(chap.unwrap().title().is_some());
    assert!(chap.unwrap().title().unwrap().eq("Test title"));

    let chap = chap.unwrap().as_chapter();
    let expected_bytes = String::from("Test content").into_bytes();
    let actual_bytes = chap.unwrap().buffer.to_vec();
    assert_eq!(expected_bytes, actual_bytes);
}

#[test]
fn digest_of_stored_bytes() {
    let (bytes, digest) = Document::with_digest(b"hello".to_vec());
    assert_eq!(bytes, b"hello".to_vec());
    assert_eq!(digest, "2cf24dba5fb0a30e26e83b2ac5b9e29e1b161e5c1fa7425e73043362938b9824");
    let (_, empty_digest) = Document::with_digest(Vec::new());
    assert_eq!(
        empty_digest,
        "e3b0c44298fc1c149afbf4c8996fb92427ae41e4649b934ca495991b7852b855"
    );
}

#[test]
fn stored_form_lists_each_chunk_once() {
    let doc = make_test_document_1();
    let stored = SerializableDocument::new(&doc);
    let mut ids: Vec<String> = stored.chapters.iter().map(|c| c.id.clone()).collect();
    ids.extend(stored.character_sheets.iter().map(|c| c.id.clone()));
    let total = ids.len();
    ids.sort();
    ids.dedup();
    assert_eq!(ids.len(), total);
    assert_eq!(total, 4);
}

#[test]
fn update_keeps_chunk_under_its_id() {
    let mut doc = make_test_document_1();
    let c = Chapter::default();
    let id = c.id().to_string();
    doc.add_chunk(Chunk::Chapter(c));
    assert!(doc.update_chunk_with(&id, |chunk| match chunk {
        Chunk::Chapter(mut ch) => {
            ch.set_title("Kept");
            Chunk::Chapter(ch)
        }
        other => other,
    }));
    assert_eq!(doc.chunks().len(), 5);
    assert_eq!(doc.get_chunk_ref(&id).unwrap().title(), Some("Kept"));
}
