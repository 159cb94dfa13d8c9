use bytes::Bytes;

use manuscript::models::{
    Chapter, CharacterSheet, Chunk, Document, DocumentChunk, DocumentManifest, DocumentSettings,
    ManuscriptError, TextMetricSize,
};
use manuscript::services::document_manager::{
    BufferStats, DocumentAction, DocumentManager, DocumentSignal,
};

fn document() -> Document {
    Document::new(DocumentManifest::with_author(String::from("A")), DocumentSettings::default())
}

#[test]
fn new_manager_is_empty() {
    let mut m = DocumentManager::new();
    assert!(!m.has_document());
    assert!(!m.has_backend());
    assert!(m.backend_path().is_none());
    assert!(m.document_ref().is_none());
    assert!(m.take_signals().is_empty());
    assert!(matches!(m.document_settings(), Err(ManuscriptError::NoDocument)));
    assert!(matches!(
        m.with_document(|d| Ok(d.chunks().len())),
        Err(ManuscriptError::NoDocument)
    ));
    assert!(matches!(
        m.with_document_mut(|d| Ok(d.chunks().len())),
        Err(ManuscriptError::DocumentLock)
    ));
    assert!(DocumentManager::default().document_ref().is_none());
}

#[test]
fn loading_and_unloading_are_announced() {
    let mut m = DocumentManager::new();
    m.set_backend_path(String::from("/tmp/book.manuscript"));
    assert!(m.has_backend());
    assert!(m.set_document(document()).is_ok());
    assert!(m.has_document());
    assert!(m.unset_document().is_ok());
    assert!(!m.has_document());
    assert!(!m.has_backend());
    let signals = m.take_signals();
    assert_eq!(signals.len(), 2);
    assert!(matches!(signals[0], DocumentSignal::DocumentLoaded));
    assert!(matches!(signals[1], DocumentSignal::DocumentUnloaded));
    assert!(m.unset_document().is_ok());
    assert!(m.take_signals().is_empty());
}

#[test]
fn actions_without_document_still_announce() {
    let mut m = DocumentManager::new();
    m.process_action(DocumentAction::SetTitle(String::from("T")));
    let c = Chapter::new();
    let id = c.id().to_string();
    m.process_action(DocumentAction::AddChapter(c));
    m.process_action(DocumentAction::SelectChunk(id.clone()));
    m.process_action(DocumentAction::UpdateChunk(id.clone()));
    assert!(!m.has_document());
    let signals = m.take_signals();
    assert_eq!(signals.len(), 2);
    assert!(matches!(signals[0], DocumentSignal::TitleSet));
    assert!(matches!(&signals[1], DocumentSignal::ChunkAdded(x) if *x == id));
}

#[test]
fn actions_change_the_open_document() {
    let mut m = DocumentManager::new();
    m.set_document(document()).unwrap();
    m.take_signals();

    m.process_action(DocumentAction::SetTitle(String::from("My novel")));
    let chapter = Chapter::new();
    let chapter_id = chapter.id().to_string();
    m.process_action(DocumentAction::AddChapter(chapter));
    let sheet = CharacterSheet::default();
    let sheet_id = sheet.id().to_string();
    m.process_action(DocumentAction::AddCharacterSheet(sheet));
    m.process_action(DocumentAction::SelectChunk(chapter_id.clone()));
    m.process_action(DocumentAction::SelectChunk(String::from("missing")));
    m.process_action(DocumentAction::UpdateChunkBuffer(
        chapter_id.clone(),
        Bytes::from("hello world"),
    ));
    m.process_action(DocumentAction::UpdateChunkBufferStats(
        chapter_id.clone(),
        BufferStats::new(2, (0, 1)),
    ));

    let doc = m.document_ref().unwrap();
    assert_eq!(doc.title().unwrap(), "My novel");
    assert_eq!(doc.chunks().len(), 2);
    let ch = doc.get_chunk_ref(&chapter_id).unwrap().as_chapter().unwrap();
    assert_eq!(&ch.buffer[..], b"hello world");
    assert!(doc.get_chunk_ref(&sheet_id).unwrap().as_character_sheet().is_some());

    let signals = m.take_signals();
    assert_eq!(signals.len(), 6);
    assert!(matches!(signals[0], DocumentSignal::TitleSet));
    assert!(matches!(&signals[1], DocumentSignal::ChunkAdded(x) if *x == chapter_id));
    assert!(matches!(&signals[2], DocumentSignal::ChunkAdded(x) if *x == sheet_id));
    assert!(matches!(&signals[3], DocumentSignal::ChunkSelected(x) if *x == chapter_id));
    assert!(matches!(&signals[4], DocumentSignal::ChunkUpdated(x) if *x == chapter_id));
    assert!(matches!(
        &signals[5],
        DocumentSignal::ChunkStatsUpdated(x, 2, 0, 1) if *x == chapter_id
    ));
}

#[test]
fn updating_a_sheet_buffer_leaves_it_unchanged() {
    let mut m = DocumentManager::new();
    m.set_document(document()).unwrap();
    let mut sheet = CharacterSheet::default();
    sheet.set_background(b"kept");
    let id = sheet.id().to_string();
    m.process_action(DocumentAction::AddCharacterSheet(sheet));
    m.process_action(DocumentAction::UpdateChunkBuffer(id.clone(), Bytes::from("ignored")));
    let doc = m.document_ref().unwrap();
    let s = doc.get_chunk_ref(&id).unwrap().as_character_sheet().unwrap();
    assert_eq!(s.background(), b"kept");
}

#[test]
fn manager_add_remove_and_update() {
    let mut m = DocumentManager::new();
    let lone = Chapter::new();
    m.add_chunk(Chunk::Chapter(lone));
    assert!(m.take_signals().is_empty());

    m.set_document(document()).unwrap();
    m.take_signals();
    let c = Chapter::new();
    let id = c.id().to_string();
    m.add_chunk(Chunk::Chapter(c));
    m.update_chunk_with(&id, |chunk| match chunk {
        Chunk::Chapter(mut ch) => {
            ch.set_title("Renamed");
            Chunk::Chapter(ch)
        }
        other => other,
    });
    m.update_chunk_with(&String::from("missing"), |chunk| chunk);
    assert_eq!(
        m.document_ref().unwrap().get_chunk_ref(&id).unwrap().title(),
        Some("Renamed")
    );
    let removed = m.remove_chunk(&id).unwrap();
    assert_eq!(removed.id(), id);
    assert!(m.remove_chunk(&id).is_none());
    let signals = m.take_signals();
    assert_eq!(signals.len(), 4);
    assert!(matches!(&signals[0], DocumentSignal::ChunkAdded(x) if *x == id));
    assert!(matches!(&signals[1], DocumentSignal::ChunkUpdated(x) if *x == id));
    assert!(matches!(&signals[2], DocumentSignal::ChunkRemoved(x) if *x == id));
    assert!(matches!(&signals[3], DocumentSignal::ChunkRemoved(x) if *x == id));
}

#[test]
fn manager_document_access() {
    let mut m = DocumentManager::new();
    let mut settings = DocumentSettings::default();
    settings.set_line_height(TextMetricSize::Wide);
    m.set_document(Document::new(DocumentManifest::with_author(String::from("B")), settings))
        .unwrap();
    assert_eq!(m.document_settings().unwrap().line_height(), TextMetricSize::Wide);
    assert_eq!(m.with_document(|d| Ok(d.manifest().author.clone())).unwrap(), "B");
    let n = m
        .with_document_mut(|d| {
            d.set_title(Some(String::from("Changed")));
            Ok(1u32)
        })
        .unwrap();
    assert_eq!(n, 1);
    assert_eq!(m.document_ref().unwrap().title().unwrap(), "Changed");
    m.document_mut().unwrap().set_title(None);
    assert!(m.document_ref().unwrap().title().is_none());
    *m.backend_path_mut() = Some(String::from("/x"));
    assert_eq!(m.backend_path().as_deref(), Some("/x"));
}

#[test]
fn stats_and_actions_trace_text() {
    let stats = BufferStats::new(1234, (6, 10));
    assert_eq!(stats.to_string(), "1234, 6:10");
    assert_eq!(BufferStats::new(0, (0, 0)).to_string(), "0, 0:0");
    assert_eq!(
        DocumentAction::SetTitle(String::from("Città")).to_string(),
        "DocumentAction::SetTitle(6 bytes)"
    );
    assert_eq!(
        DocumentAction::SelectChunk(String::from("abc")).to_string(),
        "DocumentAction::SelectChunk(#abc)"
    );
    assert_eq!(
        DocumentAction::UpdateChunkBuffer(String::from("x"), Bytes::from("hello")).to_string(),
        "DocumentAction::UpdateChunkBuffer(#x - 5 bytes)"
    );
    assert_eq!(
        DocumentAction::UpdateChunkBufferStats(String::from("x"), BufferStats::new(20, (0, 6)))
            .to_string(),
        "DocumentAction::UpdateChunkBufferStats(#x - 20, 0:6)"
    );
    assert_eq!(
        DocumentAction::UpdateChunk(String::from("y")).to_string(),
        "DocumentAction::UpdateChunk(#y)"
    );
    let c = Chapter::new();
    let expected = format!("DocumentAction::AddChapter(#{})", c.id());
    assert_eq!(DocumentAction::AddChapter(c).to_string(), expected);
    let s = CharacterSheet::default();
    let expected = format!("DocumentAction::AddCharacterSheet(#{})", s.id());
    assert_eq!(DocumentAction::AddCharacterSheet(s).to_string(), expected);
}
