//! Catdex: the request-handling core of a small cat catalogue.
//!
//! The service lists cats, takes a new cat from a web form with an image,
//! keeps the records in a relational store and shows a page for each cat.
//! This crate holds its decisions as verified functions on plain values:
//!
//! - `models`: the records, `Cat` and `NewCat`;
//! - `error`: what can go wrong, and the HTTP status of each error;
//! - `response`: the responses that the handlers give;
//! - `store`: the storage gateway, from statements to results;
//! - `table`: an in-memory table with the store's contract;
//! - `upload`: the upload pipeline, from the add form to a stored image and
//!   a row;
//! - `json`, `renderer`: the data of the pages and their rendering with
//!   Handlebars;
//! - `includes`: the test that keeps templates from including one another;
//! - `path_param`: the id in the path of a detail request;
//! - `handlers`: the four request handlers;
//! - `startup`: loading the templates when the service starts.
//!
//! Talking to the network, the file system and the database is left to the
//! program that embeds the crate: a handler says what to ask for, the program
//! asks, and the handler turns the answer into the response.

pub mod error;
pub mod handlers;
pub mod includes;
pub mod json;
pub mod models;
pub mod path_param;
pub mod renderer;
pub mod response;
pub mod startup;
pub mod store;
pub mod table;
pub mod text;
pub mod upload;
