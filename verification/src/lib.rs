//! Filter-list configuration for an ad-blocking proxy: the built-in catalogue
//! of default filter lists, the local file name under which each list is
//! cached, and the merge of fetched filter contents with user-defined filters.

pub mod cache;
pub mod contents;
pub mod file_name;
pub mod filter;
pub mod group;
pub mod order;
pub mod sources;
pub mod url_text;

pub use cache::{contents_action, filter_directory_name, CachedRead, ContentsAction};
pub use contents::{collect_filters_content, sorted_distinct};
pub use file_name::{calc_filter_filename, calculate_sha256_hex};
pub use filter::{DefaultFilter, DefaultFilters, Filter};
pub use group::FilterGroup;
pub use order::{compare_bytes, compare_str, Order};
pub use sources::{FilterSource, CECL_FILTER_SOURCES};
