//! The engine of a bulk downloader for a paginated content site.
//!
//! Given the address of a creator or of a single post, a run lists the posts, reads the
//! files of each post, and transfers them with a fixed number of workers, resuming partial
//! files and waiting out the failures that pass.
//!
//! This library decides; it does not touch the network, the disk or the clock. Each of its
//! state machines says what to do next and takes back what happened:
//!
//! - [`link`]: the address that the user names and the requests that follow from it;
//! - [`downloader::fetch_pages`]: the walk over the pages of a listing;
//! - [`downloader::get_posts_from_page`]: the files of a post;
//! - [`downloader::download_post`]: the files of one post, taken one after the other;
//! - [`downloader::transfer`]: the transfer of one file;
//! - [`downloader::queue`] and [`downloader::info`]: what the workers share;
//! - [`downloader::print`] and [`utils::log`]: what a run shows and writes down.
//!
//! [`web`] and [`document`] hold what is taken on trust from the `url` and `json` crates.
pub mod declare;
pub mod document;
pub mod downloader;
pub mod link;
pub mod text;
pub mod utils;
pub mod web;
