//! Verified core of a NATS-backed messaging provider and its companion
//! stores.
//!
//! The heart of the library is the messaging provider's logic: resolving a
//! connection configuration from a default and a per-tenant override
//! ([`config`]), planning the connection ([`connect`]), the bookkeeping of
//! tenant connections and their subscription tasks ([`connections`]), the
//! bounded-concurrency dispatch of delivered messages ([`dispatch`]), the
//! request-waiter bridge that routes locally produced replies to in-flight
//! service requests ([`services`]), and the publish/request decision logic
//! ([`messaging`]).  Around it stand the decision and interpretation rules
//! of the blob, key-value and graph stores ([`blobstore`], [`blobview`],
//! [`s3`], [`settings`], [`vault`], [`kvstore`], [`kvcache`], [`graph`]).
//!
//! All I/O — the broker connection itself, the async receive loops, files,
//! stores — lives outside the library and talks to it through plain values.

pub mod blobstore;
pub mod blobview;
pub mod config;
pub mod connect;
pub mod connections;
pub mod dispatch;
pub mod errors;
pub mod graph;
pub mod json;
pub mod kvcache;
pub mod kvstore;
pub mod messaging;
pub mod s3;
pub mod services;
pub mod settings;
pub mod strutil;
pub mod values;
pub mod vault;
