//! Verified core of PraiseChords: text normalisation, access rules, search and
//! setlist logic of a worship-song chord library.

pub mod text;
pub mod numbers;
pub mod youtube;
pub mod tokens;
pub mod access;
pub mod songs;
pub mod codes;
pub mod search;
pub mod setlists;
pub mod config;
pub mod users;
pub mod pages;
pub mod session;
