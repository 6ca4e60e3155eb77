//! What a session asks of the serial link, and what the link answers.
//!
//! The crate never touches a port. A session hands out one `Action` at a
//! time; whoever owns the port performs it and hands back the `Event` that
//! tells how it went.

use vstd::prelude::*;
use crate::error::Error;

verus! {

/// One thing to do on the serial link.
#[derive(Debug)]
pub enum Action {
    /// Write all of these bytes.
    Write(Vec<u8>),
    /// Wait until everything written has been sent.
    Flush,
    /// Read exactly this many bytes.
    Read(usize),
    /// Drive the RTS line.
    SetRts(bool),
    /// Drive the DTR line.
    SetDtr(bool),
    /// Wait this many milliseconds.
    Sleep(u64),
    /// Change the baud rate, in bits per second.
    SetBaud(usize),
    /// Change the read timeout, in milliseconds.
    SetTimeout(u64),
    /// Report the read timeout.
    GetTimeout,
    /// Append these bytes to the output of a dump.
    Output(Vec<u8>),
}

/// What an `Action` stands for.
pub enum ActionView {
    Write(Seq<u8>),
    Flush,
    Read(usize),
    SetRts(bool),
    SetDtr(bool),
    Sleep(u64),
    SetBaud(usize),
    SetTimeout(u64),
    GetTimeout,
    Output(Seq<u8>),
}

impl View for Action {
    type V = ActionView;

    open spec fn view(&self) -> ActionView {
        match self {
            Action::Write(bytes) => ActionView::Write(bytes@),
            Action::Flush => ActionView::Flush,
            Action::Read(n) => ActionView::Read(*n),
            Action::SetRts(level) => ActionView::SetRts(*level),
            Action::SetDtr(level) => ActionView::SetDtr(*level),
            Action::Sleep(ms) => ActionView::Sleep(*ms),
            Action::SetBaud(speed) => ActionView::SetBaud(*speed),
            Action::SetTimeout(ms) => ActionView::SetTimeout(*ms),
            Action::GetTimeout => ActionView::GetTimeout,
            Action::Output(bytes) => ActionView::Output(bytes@),
        }
    }
}

/// How the action last asked for went.
#[derive(Debug)]
pub enum Event {
    /// It was done and has nothing to report.
    Done,
    /// The bytes that were read.
    Data(Vec<u8>),
    /// The read timeout, in milliseconds.
    Timeout(u64),
    /// It failed; the error says whether the port (`Error::Serial`) or a
    /// read or write (`Error::IO`) failed.
    Failed(Error),
}

/// What an `Event` stands for.
pub enum EventView {
    Done,
    Data(Seq<u8>),
    Timeout(u64),
    Failed(Error),
}

impl View for Event {
    type V = EventView;

    open spec fn view(&self) -> EventView {
        match self {
            Event::Done => EventView::Done,
            Event::Data(bytes) => EventView::Data(bytes@),
            Event::Timeout(ms) => EventView::Timeout(*ms),
            Event::Failed(e) => EventView::Failed(*e),
        }
    }
}

/// What a session wants next: an action performed, or nothing more.
#[derive(Debug)]
pub enum Poll<T> {
    /// Perform this action and report how it went.
    Do(Action),
    /// The operation has ended with this result.
    Ready(T),
}

/// What a `Poll` stands for.
pub enum PollView<T> {
    Do(ActionView),
    Ready(T),
}

} // verus!
