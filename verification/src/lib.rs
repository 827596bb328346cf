//! A small chat service: sign-up and login with Argon2 password hashes and
//! session tokens, an in-memory block of recent messages, and the client side
//! that reads the server's answers.
//!
//! - `service`: the status, cause and emitter texts of replies, and `HTTP_TELL`.
//! - `json_object`: JSON objects of string fields, as replies carry them.
//! - `reply`: HTTP replies (status and body).
//! - `token`: session tokens (random bytes in URL-safe base64).
//! - `password`: Argon2 password hashing and checking.
//! - `text`: text helpers (byte length, substring search).
//! - `message_block`: the server's in-memory messages.
//! - `handlers`: the server's answers to sign-up, login, send, pull.
//! - `client`: what the chat client makes of the server's answers.
//! - `chat`: the chat view's profile and message feed.
#![allow(non_camel_case_types)]
#![allow(non_snake_case)]

pub mod chat;
pub mod client;
pub mod handlers;
pub mod json_object;
pub mod message_block;
pub mod password;
pub mod reply;
pub mod service;
pub mod text;
pub mod token;
