//! Verified core of `mihomoctl`, a terminal client for the Clash and Mihomo
//! external controller API.
//!
//! The library holds the decisions the client makes: which controller a
//! server is, which API operations it offers and which HTTP and WebSocket
//! addresses they use, how the pages, lists, popups and the proxy tree
//! react to keys, searches and reports, how rules match addresses against
//! networks, how connections are ordered, and the text of the rows, panels
//! and popups that the pages show.
#![allow(unused_imports)]

pub mod api;
pub mod api_page;
pub mod api_plan;
pub mod con_sort;
pub mod config_page;
pub mod controller;
pub mod endpoint;
pub mod event;
pub mod footer;
pub mod group_rows;
pub mod interval;
pub mod json;
pub mod kind;
pub mod list;
pub mod logs;
pub mod model;
pub mod netaddr;
pub mod path;
pub mod popup;
pub mod proxy;
pub mod results;
pub mod row_text;
pub mod scroll;
pub mod session;
pub mod status;
pub mod text;
pub mod tui;
pub mod worker;
