//! A library that renders an already-parsed word-processing document model
//! (paragraphs, runs, tables, named styles, numbering definitions, embedded
//! media) as Markdown text.
//!
//! The rendering engine — cascading style resolution, adjacent-run
//! coalescing, list-numbering state, and table layout — is verified: every
//! public operation carries a contract that pins its output down as a
//! function of the document value.

pub mod block;
pub mod document;
pub mod laws;
pub mod media;
pub mod numbering;
pub mod paragraph;
pub mod strutil;
pub mod style;
pub mod table;

pub use block::TextBlock;
pub use block::TextType;
pub use document::MarkdownContent;
pub use document::MarkdownDocument;
pub use document::MarkdownTableType;
pub use media::get_mime_type;
pub use media::image_data_uri;
pub use paragraph::MarkdownParagraph;
pub use strutil::decimal_string;
pub use strutil::str_eq;
pub use style::BlockStyle;
pub use style::MarkdownNumbering;
pub use style::ParagraphStyle;
pub use table::max_lengths_per_column;
pub use table::pad_left;
pub use table::render_table;
pub use table::table_row_to_markdown;
