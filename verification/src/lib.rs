//! The rules of a two-player pong game: paddles, ball, scoring, the match
//! and its character select, and where each piece is drawn on screen.
pub mod config;
pub mod geometry;
pub mod paddle;
pub mod ball;
pub mod scoring;
pub mod game;
pub mod input;
pub mod cues;
pub mod chance;
pub mod session;
pub mod layout;
