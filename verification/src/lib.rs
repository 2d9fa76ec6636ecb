//! The decision core of a messaging space: services, their directory, the sessions between
//! nodes and the requests that travel over them.

pub mod address;
pub mod auth;
pub mod capabilities;
pub mod control;
pub mod directory_client;
pub mod endpoints;
pub mod error;
pub mod formats;
pub mod handler;
pub mod hosting;
pub mod id_map;
pub mod info_record;
pub mod integers;
pub mod laws;
pub mod message;
pub mod messaging;
pub mod meta;
pub mod name_map;
pub mod node;
pub mod object;
pub mod object_trait;
pub mod os;
pub mod payload;
pub mod server;
pub mod service;
pub mod service_directory;
pub mod services;
pub mod session;
pub mod signal;
pub mod store;
pub mod target;
pub mod target_text;
pub mod text;
pub mod unique_id;
pub mod value;
pub mod wire;
