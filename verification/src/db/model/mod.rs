//! What the statements and the queries mean: the tables as sequences of rows, the
//! effect of each statement on them, what each query gives back of them, and the
//! laws that the commands keep.
pub mod answers;
pub mod asked;
pub mod cache;
pub mod catalog_reads;
pub mod columns;
pub mod files;
pub mod jobs;
pub mod listed;
pub mod meaning;
pub mod metadata;
pub mod read_back;
pub mod reads;
pub mod search;
pub mod stored;
pub mod table_reads;
pub mod tags;
pub mod transcripts;
pub mod triggers;
pub mod volumes;
