pub mod text_metrics;
