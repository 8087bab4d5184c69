//! Request construction for the IBM MQ REST messaging interface.
//!
//! An endpoint descriptor names one queue on one queue manager together
//! with the credentials to reach it. From it this library derives what a
//! single HTTP call needs: the URL of the queue's message resource, the
//! `Authorization`, `Content-type` and CSRF token headers, the verb and the
//! optional body. Sending the call and reading the descriptor from disk are
//! left to the caller.

pub mod dispatch;
pub mod encoding;
pub mod report;
pub mod structures;
pub mod types;
