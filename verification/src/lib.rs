//! Real-time activity pipeline for a motion sensor: classification of raw
//! readings, the fallback controller that substitutes stored history while the
//! sensor is silent, and the bounded history that seeds new observers.

pub mod activity;
pub mod clock;
pub mod classifier;
pub mod text;
pub mod fallback;
pub mod backfill;
pub mod history;
pub mod config;
pub mod auth;
pub mod fhir_analytics;
pub mod login;
pub mod signup;
pub mod storage;
pub mod source;
