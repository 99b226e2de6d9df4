//! Mirroring of a package repository that is published as a "simple" HTML
//! index: one index page whose anchors name the packages, and one page per
//! package whose anchors name the files to download.
//!
//! The library holds the decisions of a mirror run and proves them. It never
//! touches the network or the file system itself: the flows in [`index`],
//! [`download`] and [`mirror`] say which request comes next and take its
//! outcome as an event, so that a thin driver can perform the requests.

pub mod decode;
pub mod download;
pub mod enumerate;
pub mod error;
pub mod html;
pub mod index;
pub mod layout;
pub mod links;
pub mod mirror;
pub mod resolve;
pub mod world;
