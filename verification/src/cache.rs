//! The decisions of the cache store. The store itself works on files and
//! on the network; what is decided here is which of those steps comes next
//! after what the last one reported.

use vstd::prelude::*;

use crate::error::CacheError;
use crate::freshness::{is_stale, LocalTimestamp};

verus! {

/// What the store reports back after a step.
#[derive(Debug, PartialEq, Eq)]
pub enum CacheEvent {
    /// Nothing has been done yet.
    Started,
    /// No cached document exists.
    Absent,
    /// A cached document exists; it was last written at `last_modified`,
    /// and it is `now`.
    Present { now: LocalTimestamp, last_modified: LocalTimestamp },
    /// The remote source returned the document.
    Fetched(String),
    /// The remote source could not be reached, refused, or sent a body that
    /// is no text.
    FetchFailed,
    /// The document has been written to the cache.
    Stored,
    /// The cache directory or the cached file could not be written.
    StoreFailed,
    /// The cached document has been read.
    Loaded(String),
    /// The cached document could not be read.
    LoadFailed,
}

/// What the store has to do next.
#[derive(Debug, PartialEq, Eq)]
pub enum CacheAction {
    /// Look for the cached document and the time it was last written.
    Probe,
    /// Fetch the document from the remote source.
    Fetch,
    /// Write the document to the cache in place of what is there.
    Store(String),
    /// Read the cached document.
    Load,
    /// Hand the document to the caller.
    Return(String),
    /// Give up.
    Fail(CacheError),
}

/// The mathematical value of a [`CacheEvent`].
pub enum Report {
    Started,
    Absent,
    Present { now: LocalTimestamp, last_modified: LocalTimestamp },
    Fetched(Seq<char>),
    FetchFailed,
    Stored,
    StoreFailed,
    Loaded(Seq<char>),
    LoadFailed,
}

/// The mathematical value of a [`CacheAction`].
pub enum Order {
    Probe,
    Fetch,
    Store(Seq<char>),
    Load,
    Return(Seq<char>),
    Fail(CacheError),
}

impl View for CacheEvent {
    type V = Report;

    open spec fn view(&self) -> Report {
        match self {
            CacheEvent::Started => Report::Started,
            CacheEvent::Absent => Report::Absent,
            CacheEvent::Present { now, last_modified } => Report::Present {
                now: *now,
                last_modified: *last_modified,
            },
            CacheEvent::Fetched(document) => Report::Fetched(document@),
            CacheEvent::FetchFailed => Report::FetchFailed,
            CacheEvent::Stored => Report::Stored,
            CacheEvent::StoreFailed => Report::StoreFailed,
            CacheEvent::Loaded(document) => Report::Loaded(document@),
            CacheEvent::LoadFailed => Report::LoadFailed,
        }
    }
}

impl View for CacheAction {
    type V = Order;

    open spec fn view(&self) -> Order {
        match self {
            CacheAction::Probe => Order::Probe,
            CacheAction::Fetch => Order::Fetch,
            CacheAction::Store(document) => Order::Store(document@),
            CacheAction::Load => Order::Load,
            CacheAction::Return(document) => Order::Return(document@),
            CacheAction::Fail(error) => Order::Fail(*error),
        }
    }
}

/// The step that follows a report.
///
/// The store first looks for the cached document. One that is missing, or
/// stale, is fetched and written; then, as after finding a fresh one, the
/// cached document is read and handed on. Each failure ends the run with
/// its own error.
pub open spec fn order_after(report: Report) -> Order {
    match report {
        Report::Started => Order::Probe,
        Report::Absent => Order::Fetch,
        Report::Present { now, last_modified } => if now.same_month_as(last_modified) {
            Order::Load
        } else {
            Order::Fetch
        },
        Report::Fetched(document) => Order::Store(document),
        Report::FetchFailed => Order::Fail(CacheError::Network),
        Report::Stored => Order::Load,
        Report::StoreFailed => Order::Fail(CacheError::CacheWrite),
        Report::Loaded(document) => Order::Return(document),
        Report::LoadFailed => Order::Fail(CacheError::CacheRead),
    }
}

/// Decides the store's next step from what the last one reported.
pub fn next_action(event: CacheEvent) -> (action: CacheAction)
    ensures
        action@ == order_after(event@),
{
    match event {
        CacheEvent::Started => CacheAction::Probe,
        CacheEvent::Absent => CacheAction::Fetch,
        CacheEvent::Present { now, last_modified } => if is_stale(now, last_modified) {
            CacheAction::Fetch
        } else {
            CacheAction::Load
        },
        CacheEvent::Fetched(document) => CacheAction::Store(document),
        CacheEvent::FetchFailed => CacheAction::Fail(CacheError::Network),
        CacheEvent::Stored => CacheAction::Load,
        CacheEvent::StoreFailed => CacheAction::Fail(CacheError::CacheWrite),
        CacheEvent::Loaded(document) => CacheAction::Return(document),
        CacheEvent::LoadFailed => CacheAction::Fail(CacheError::CacheRead),
    }
}

} // verus!
