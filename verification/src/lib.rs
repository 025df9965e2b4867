pub mod report;
pub mod report_builder;
