//! A streaming market-data client for Binance-style futures venues: it
//! builds the subscription URL for a candlestick topic, decodes each inbound
//! JSON frame into a typed event, and drives a cooperative read loop that
//! hands every decoded event to a caller-supplied handler.
//!
//! The network itself stays behind small ports (`Connector`, `FrameSource`,
//! `StopFlag`, `EventHandler` in [`tools`]); scripted implementations of the
//! same ports let the whole client run, and be tested, without a socket.

pub mod decode;
pub mod errors;
pub mod exchange;
pub mod json;
pub mod model;
pub mod strategy;
pub mod tools;
