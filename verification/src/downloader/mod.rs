pub mod download_post;
pub mod fetch_pages;
pub mod get_posts_from_page;
pub mod index;
pub mod info;
pub mod media;
pub mod page_status;
pub mod print;
pub mod queue;
pub mod transfer;

pub use index::Downloader;
pub use info::DownloaderInfo;
pub use page_status::PageStatus;
pub use page_status::StatusBar;
