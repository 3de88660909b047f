//! The exchange between a procedure of this library and the program that
//! drives it.
//!
//! The procedures here never touch the filesystem and never start a process.
//! Each is a step function: it names the next [`Request`], the driver carries
//! the request out and reports what came of it as an [`Event`], and the step
//! function answers with a [`Step`], which either names the stage that the
//! procedure has reached or says how it ended.

use vstd::prelude::*;
use crate::cmd::{Script, ScriptView, ShellError};

verus! {

/// What was found at a path.
#[derive(Debug, Clone, Copy, PartialEq, Eq, Structural)]
pub enum PathKind {
    /// Neither a regular file nor a directory could be seen there.
    Absent,
    /// A regular file.
    File,
    /// A directory.
    Directory,
}

/// What a procedure asks its driver to do.
#[derive(Debug, Clone, PartialEq, Eq)]
pub enum Request {
    /// Look at the path and report what is there, as [`Event::Found`].
    Inspect(String),
    /// Run the script and report how it ended, as [`Event::Exited`].
    Run(Script),
}

/// The mathematical model of a [`Request`].
pub enum RequestView {
    Inspect(Seq<char>),
    Run(ScriptView),
}

impl View for Request {
    type V = RequestView;

    open spec fn view(&self) -> RequestView {
        match self {
            Request::Inspect(path) => RequestView::Inspect(path@),
            Request::Run(script) => RequestView::Run(script@),
        }
    }
}

/// What the driver reports back.
#[derive(Debug)]
pub enum Event {
    /// The answer to [`Request::Inspect`].
    Found(PathKind),
    /// The answer to [`Request::Run`].
    Exited(Result<(), ShellError>),
}

/// The answer of a step function.
#[derive(Debug)]
pub enum Step<S, E> {
    /// The procedure goes on, at this stage.
    Continue(S),
    /// The procedure has ended, with this result.
    Done(Result<(), E>),
}

impl<S: View, E: View> View for Step<S, E> {
    type V = Step<S::V, E::V>;

    open spec fn view(&self) -> Step<S::V, E::V> {
        match self {
            Step::Continue(stage) => Step::Continue(stage@),
            Step::Done(Ok(())) => Step::Done(Ok(())),
            Step::Done(Err(e)) => Step::Done(Err(e@)),
        }
    }
}

/// A whole run of a procedure, as a model: the requests it made, in order,
/// and the result it ended with.
pub struct Record<E> {
    pub requests: Seq<RequestView>,
    pub result: Result<(), E>,
}

impl<E> Record<E> {
    /// The record of a run that made `request` first and then went on as
    /// `self` records.
    pub open spec fn after(self, request: RequestView) -> Record<E> {
        Record { requests: seq![request] + self.requests, result: self.result }
    }
}

} // verus!
