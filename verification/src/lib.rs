//! Command/response exchange engine for an ESP8266-style serial Wi-Fi modem.
//!
//! The modem speaks a textual AT command protocol over a byte-oriented link.
//! This crate provides the pieces of that protocol that are pure computation:
//! the command catalog and its wire encoding, the classifier that maps a raw
//! reply line to a response kind, the line framer that cuts the byte stream
//! into reply lines and length-prefixed data frames, and the exchange engine
//! that decides how to react to each classified reply.  Reading and writing
//! the actual serial port is left to the caller, who feeds bytes in and
//! carries actions out.

#![allow(non_camel_case_types)]

pub mod classify;
pub mod commands;
pub mod encoder;
pub mod engine;
pub mod framer;
pub mod laws;
pub mod ops;
