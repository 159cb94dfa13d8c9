pub mod editors;
pub mod progress_indicator;
