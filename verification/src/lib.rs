//! A single-use loopback callback endpoint for browser-mediated login.
//!
//! A command-line program that wants to act for a user sends the user's
//! browser to a login page, together with a nonce, the public half of an
//! ephemeral key-agreement key and the public key of its session. It then
//! listens on the loopback interface for the one callback in which the
//! page hands back, encrypted to the ephemeral key, the user's public key
//! and what else belongs to the session.
//!
//! This library is that endpoint without its socket: it frames requests
//! ([`http`]), builds the responses with their CORS headers ([`cors`]),
//! opens the sealed payload ([`crypto`], [`payload`], [`json`]), holds it
//! against what was sent out, derives the user's principal ([`identity`]),
//! and keeps the state that lets exactly one nonce-valid request through
//! to decryption ([`callback`]). Beside it stand the plain rules of the
//! program around it: how an agent is set up ([`agent`]), where the
//! keyring keeps identities ([`keyring`]), what a new memory costs and is
//! called ([`approval`]), what the origin of a URL is ([`origin`]), and
//! what the command line means ([`cli`]).
//!
//! # The callback on the wire
//!
//! `OPTIONS /callback` is the preflight. `POST /callback` carries a JSON
//! object with the string `nonce` and three arrays of bytes:
//! `ephemeral_public_key`, the sender's public key on the curve of the
//! listener's key; `iv`, twelve bytes; and `ciphertext`, the payload
//! sealed with AES-256-GCM, tag last, no associated data, under the key
//! that HKDF-SHA-256 (empty salt, info `kinic-cli login callback`) derives
//! from the shared secret of the key agreement. The payload is a JSON
//! object with the arrays of bytes `session_public_key` and
//! `user_public_key` and the string `derivation_origin`; further fields
//! are handed on by name, each with its value as JSON.
pub mod agent;
pub mod approval;
pub mod callback;
pub mod cli;
pub mod cors;
pub mod crypto;
pub mod error;
pub mod http;
pub mod identity;
pub mod json;
pub mod keyring;
pub mod origin;
pub mod payload;
pub mod text;
