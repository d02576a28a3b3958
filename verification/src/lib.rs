//! The core of a mailing-list service: raw name and email strings are
//! validated into domain values, a subscription workflow orders the three
//! steps one submission takes — validate, persist, dispatch a confirmation —
//! and an email-dispatch client prepares the provider's wire call and judges
//! its result. The side effects themselves (the HTTP edge, the database
//! write, the outbound call) are the caller's; the workflow hands them out
//! as plain values and hears back how they went.

pub mod domain;
pub mod email_client;
pub mod json;
pub mod subscription;
