pub mod analyst;
pub mod document_manager;
pub mod i18n;
pub mod rich_text_serde;
