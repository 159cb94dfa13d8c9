use bytes::Bytes;

use manuscript::models::chunk::Gender;
use manuscript::models::prelude::BufferAnalytics;
use manuscript::models::{
    BufferChunk, Chapter, CharacterSheet, Chunk, ChunkType, DocumentChunk, DocumentManifest,
    DocumentSettings, ManuscriptError, MutableBufferChunk, Note, RgbaBits, TagMark,
    TextMetricSize,
};

fn is_crockford(c: char) -> bool {
    c.is_ascii_digit() || (c.is_ascii_uppercase() && !matches!(c, 'I' | 'L' | 'O' | 'U'))
}

#[test]
fn metric_size_codes_round_trip() {
    for code in 0u8..=2 {
        assert_eq!(TextMetricSize::from_code(code).code(), code);
    }
    assert_eq!(TextMetricSize::from_code(0), TextMetricSize::Narrow);
    assert_eq!(TextMetricSize::from_code(1), TextMetricSize::Medium);
    assert_eq!(TextMetricSize::from_code(2), TextMetricSize::Wide);
    assert_eq!(TextMetricSize::Wide.code(), 2);
}

#[test]
fn metric_size_names_round_trip() {
    for size in [TextMetricSize::Narrow, TextMetricSize::Medium, TextMetricSize::Wide] {
        assert_eq!(TextMetricSize::from_name(size.name()), size);
    }
    assert_eq!(TextMetricSize::Narrow.name(), "Narrow");
    assert_eq!(TextMetricSize::Medium.name(), "Medium");
    assert_eq!(TextMetricSize::Wide.name(), "Wide");
    assert_eq!(TextMetricSize::from_name("Medium"), TextMetricSize::Medium);
}

#[test]
fn metric_size_selection_index() {
    assert_eq!(TextMetricSize::Narrow.selected_index(), 0);
    assert_eq!(TextMetricSize::Medium.selected_index(), 1);
    assert_eq!(TextMetricSize::Wide.selected_index(), 2);
    assert_eq!(TextMetricSize::from_selected_index(1), TextMetricSize::Medium);
    assert_eq!(TextMetricSize::default(), TextMetricSize::Narrow);
}

#[test]
fn settings_default_and_setters() {
    let mut settings = DocumentSettings::default();
    assert_eq!(settings.line_height(), TextMetricSize::Narrow);
    assert_eq!(settings.paragraph_spacing(), TextMetricSize::Narrow);
    settings.set_line_height(TextMetricSize::Wide);
    settings.set_paragraph_spacing(TextMetricSize::Medium);
    assert_eq!(settings.line_height(), TextMetricSize::Wide);
    assert_eq!(settings.paragraph_spacing(), TextMetricSize::Medium);
}

#[test]
fn words_count_plain_text() {
    assert_eq!(Bytes::from("hello world").words_count(), 2);
    assert_eq!(Bytes::from("  several   spaced\twords\nhere  ").words_count(), 4);
}

#[test]
fn words_count_empty_and_separators() {
    assert_eq!(Bytes::new().words_count(), 0);
    assert_eq!(Bytes::from(" \n\t\r#").words_count(), 0);
}

#[test]
fn words_count_hash_separates_words() {
    assert_eq!(Bytes::from("# Title\nbody").words_count(), 2);
    assert_eq!(Bytes::from("a#b").words_count(), 2);
    assert_eq!(Bytes::from("##heading").words_count(), 1);
}

#[test]
fn words_count_join_law() {
    let a = "one two";
    let b = "three";
    let joined = format!("{} {}", a, b);
    assert_eq!(
        Bytes::from(joined).words_count(),
        Bytes::from(a).words_count() + Bytes::from(b).words_count()
    );
}

#[test]
fn gender_index_conversions() {
    assert_eq!(Gender::from(0u64), Gender::Male);
    assert_eq!(Gender::from(1u64), Gender::Female);
    assert_eq!(Gender::from(2u32), Gender::Other);
    assert_eq!(Gender::from(10u32), Gender::Unspecified);
    assert_eq!(Gender::from(7u64), Gender::Unspecified);
    assert_eq!(u64::from(Gender::Male), 0);
    assert_eq!(u32::from(Gender::Female), 1);
    assert_eq!(u32::from(Gender::Other), 2);
    assert_eq!(u64::from(Gender::Unspecified), 10);
    for g in [Gender::Male, Gender::Female, Gender::Other, Gender::Unspecified] {
        assert_eq!(Gender::from(u64::from(g)), g);
    }
    assert_eq!(Gender::default(), Gender::Unspecified);
}

#[test]
fn chunk_type_descriptions() {
    assert_eq!(ChunkType::Manifest.to_string(), "Manifest");
    assert_eq!(ChunkType::Chapter.to_string(), "Chapter");
    assert_eq!(ChunkType::CharacterSheet.to_string(), "Character Sheet");
}

#[test]
fn manifest_basics() {
    let mut manifest = DocumentManifest::with_author(String::from("Jane"));
    assert_eq!(manifest.author, "Jane");
    assert!(manifest.title().is_none());
    assert_eq!(manifest.id(), "manifest");
    assert_eq!(manifest.priority(), Some(100));
    assert_eq!(manifest.chunk_type(), ChunkType::Manifest);
    assert_eq!(manifest.safe_title(), "Untitled manuscript");
    manifest.set_title(Some(String::from("My book")));
    assert_eq!(manifest.title().unwrap(), "My book");
    assert_eq!(manifest.safe_title(), "My book");
    manifest.set_locked(true);
    assert!(manifest.locked());
    assert!(matches!(manifest.set_accent(None), Err(ManuscriptError::Reason("Not implemented"))));
    assert!(manifest.accent().is_none());
}

#[test]
fn chapter_new_has_fresh_identifier() {
    let a = Chapter::new();
    let b = Chapter::default();
    assert_eq!(a.id().len(), 26);
    assert!(a.id().chars().all(is_crockford));
    assert_ne!(a.id(), b.id());
    assert_eq!(a.priority(), Some(0));
    assert!(a.include_in_compilation());
    assert!(!a.locked());
    assert_eq!(a.accent, RgbaBits::default());
    assert!(a.notes.is_empty());
    assert_eq!(a.buffer().len(), 0);
}

#[test]
fn chapter_titles() {
    let mut c = Chapter::new();
    assert_eq!(DocumentChunk::title(&c), None);
    assert_eq!(c.safe_title(), "Untitled chapter");
    assert_eq!(c.heading(), "Untitled chapter");
    c.set_title("");
    assert_eq!(DocumentChunk::title(&c), None);
    assert_eq!(c.safe_title(), "Untitled chapter");
    c.set_title("Test title");
    assert_eq!(DocumentChunk::title(&c), Some("Test title"));
    assert_eq!(c.title().unwrap(), "Test title");
    assert_eq!(c.heading(), "Test title");
    assert_eq!(c.default_title(), "Untitled chapter");
    assert_eq!(c.chunk_type(), ChunkType::Chapter);
}

#[test]
fn chapter_buffer_and_flags() {
    let mut c = Chapter::new();
    c.set_buffer(Bytes::from("Test content here"));
    assert_eq!(&c.buffer()[..], b"Test content here");
    assert_eq!(BufferChunk::words_count(&c), 3);
    assert!(c.tags_map().is_empty());
    c.set_priority(Some(7));
    assert_eq!(c.priority(), Some(7));
    c.set_priority(None);
    assert_eq!(c.priority(), Some(0));
    assert!(c.set_include_in_compilation(false).is_ok());
    assert!(!c.include_in_compilation());
    c.set_locked(true);
    assert!(c.locked());
    assert!(matches!(
        c.set_accent(Some(RgbaBits { red: 1, green: 2, blue: 3, alpha: 4 })),
        Err(ManuscriptError::Reason("Not implemented"))
    ));
    assert_eq!(c.accent, RgbaBits::transparent());
    assert!(DocumentChunk::accent(&c).is_none());
}

#[test]
fn chapter_notes_by_offset() {
    let mut c = Chapter::new();
    c.add_note(0, 10, String::from("first"));
    c.add_note(5, 20, String::from("second"));
    c.add_note(30, 40, String::from("third"));
    assert_eq!(c.notes.len(), 3);
    assert_eq!(c.notes[1].offset_start(), 5);
    assert_eq!(c.notes[1].offset_len(), 15);
    assert_eq!(c.notes[1].offset_end(), 20);
    assert_eq!(c.notes[0].buffer(), b"first");
    assert_eq!(c.notes[2].id.len(), 26);

    let at7: Vec<&[u8]> = c.notes_at(7).iter().map(|n| n.buffer()).collect();
    assert_eq!(at7, vec![&b"first"[..], &b"second"[..]]);
    let at10: Vec<&[u8]> = c.notes_at(10).iter().map(|n| n.buffer()).collect();
    assert_eq!(at10, vec![&b"first"[..], &b"second"[..]]);
    let at21 = c.notes_at(21);
    assert!(at21.is_empty());
    let at40: Vec<&[u8]> = c.notes_at(40).iter().map(|n| n.buffer()).collect();
    assert_eq!(at40, vec![&b"third"[..]]);

    assert_eq!(c.note_positions_at(15), vec![1]);
    assert_eq!(c.note_positions_at(0), vec![0]);
}

#[test]
fn chapter_note_mut_changes_one_note() {
    let mut c = Chapter::new();
    c.add_note(0, 4, String::from("a"));
    c.add_note(2, 8, String::from("b"));
    for p in c.note_positions_at(3) {
        c.note_mut(p).set_buffer(Bytes::from("edited"));
    }
    assert_eq!(c.notes[0].buffer(), b"edited");
    assert_eq!(c.notes[1].buffer(), b"edited");
    c.note_mut(1).set_buffer(Bytes::from("b2"));
    assert_eq!(c.notes[0].buffer(), b"edited");
    assert_eq!(c.notes[1].buffer(), b"b2");
    assert_eq!(c.notes[1].offset, 2);
    assert_eq!(c.notes[1].len, 6);
}

#[test]
fn note_default_is_empty() {
    let n = Note::default();
    assert!(n.id.is_empty());
    assert_eq!(n.offset_start(), 0);
    assert_eq!(n.offset_len(), 0);
    assert_eq!(n.offset_end(), 0);
    assert!(n.buffer().is_empty());
}

#[test]
fn character_sheet_defaults_and_titles() {
    let mut s = CharacterSheet::default();
    assert_eq!(s.id().len(), 26);
    assert!(s.id().chars().all(is_crockford));
    assert_eq!(s.gender(), Gender::Unspecified);
    assert_eq!(s.age(), None);
    assert!(s.name().is_none());
    assert!(s.role().is_none());
    assert_eq!(s.safe_title(), "Unnamed character");
    assert_eq!(s.chunk_type(), ChunkType::CharacterSheet);
    s.set_name(Some(String::new()));
    assert_eq!(DocumentChunk::title(&s), None);
    s.set_name(Some(String::from("Ada")));
    assert_eq!(DocumentChunk::title(&s), Some("Ada"));
    assert_eq!(s.heading(), "Ada");
    s.set_role(Some(String::from("hero")));
    assert_eq!(s.role().unwrap(), "hero");
    s.set_gender(Gender::Female);
    s.set_age(Some(36));
    assert_eq!(s.gender(), Gender::Female);
    assert_eq!(s.age(), Some(36));
}

#[test]
fn character_sheet_traits_and_background() {
    let mut s = CharacterSheet::default();
    s.set_background(b"born at sea");
    s.set_physical_traits(b"tall");
    s.set_psycological_traits(b"calm");
    assert_eq!(s.background(), b"born at sea");
    assert_eq!(s.physical_traits(), b"tall");
    // the psychological getter hands out the bytes kept for the physical traits
    assert_eq!(s.psycological_traits(), b"tall");
    assert_eq!(&s.psycological_traits[..], b"calm");
    s.set_background_bytes(Bytes::from("new background"));
    assert_eq!(s.background(), b"new background");
    s.set_physical_traits_bytes(Bytes::from("short"));
    assert_eq!(s.physical_traits(), b"short");
    s.set_psycological_traits_bytes(Bytes::from("bold"));
    assert_eq!(&s.psycological_traits[..], b"bold");
}

#[test]
fn character_sheet_accent() {
    let mut s = CharacterSheet::default();
    assert_eq!(s.accent(), Some(RgbaBits::transparent()));
    let c = RgbaBits { red: 10, green: 20, blue: 30, alpha: 40 };
    assert!(s.set_accent(Some(c)).is_ok());
    assert_eq!(s.accent(), Some(c));
    assert!(s.set_accent(None).is_ok());
    assert_eq!(s.accent(), Some(RgbaBits::transparent()));
}

#[test]
fn chunk_dispatches_to_its_variant() {
    let chapter = Chapter::new();
    let id = chapter.id().to_string();
    let mut chunk = Chunk::Chapter(chapter);
    assert_eq!(chunk.id(), id);
    assert_eq!(chunk.chunk_type(), ChunkType::Chapter);
    assert!(chunk.as_chapter().is_some());
    assert!(chunk.as_character_sheet().is_none());
    assert!(chunk.set_accent(None).is_err());
    chunk.set_priority(Some(3));
    assert_eq!(chunk.priority(), Some(3));

    let mut sheet = Chunk::CharacterSheet(CharacterSheet::default());
    assert_eq!(sheet.chunk_type(), ChunkType::CharacterSheet);
    assert_eq!(sheet.safe_title(), "Unnamed character");
    let c = RgbaBits { red: 1, green: 1, blue: 1, alpha: 1 };
    assert!(sheet.set_accent(Some(c)).is_ok());
    assert_eq!(sheet.accent(), Some(c));
    assert!(sheet.set_include_in_compilation(false).is_ok());
    assert!(!sheet.include_in_compilation());
}

#[test]
fn tag_mark_and_color_defaults() {
    let mark = TagMark(1, 5, String::from("bold"));
    assert_eq!(mark.0, 1);
    assert_eq!(mark.1, 5);
    assert_eq!(mark.2, "bold");
    let t = RgbaBits::default();
    assert_eq!((t.red, t.green, t.blue, t.alpha), (0, 0, 0, 0));
}

#[test]
fn metric_size_std_conversions() {
    assert_eq!(u8::from(TextMetricSize::Medium), 1);
    assert_eq!(u8::from(&TextMetricSize::Wide), 2);
    let name: &str = TextMetricSize::Narrow.into();
    assert_eq!(name, "Narrow");
}

#[test]
fn category_names_are_untranslated_keys() {
    assert_eq!(DocumentManifest::with_author(String::new()).category_name(), "Manifest");
    assert_eq!(Chapter::new().category_name(), "Chapters");
    assert_eq!(CharacterSheet::default().category_name(), "Character sheets");
    assert_eq!(Chunk::Chapter(Chapter::new()).category_name(), "Chapters");
    assert_eq!(Chunk::CharacterSheet(CharacterSheet::default()).category_name(), "Character sheets");
}
