//! Why an interaction could not be decoded or routed.
//!
//! The errors nest as the decoding does: a leaf cause for one argument, the
//! argument it belongs to, the command that argument belongs to.

use crate::option::OptionKind;
use vstd::prelude::*;

verus! {

/// Why one argument could not be decoded.
#[derive(Debug, Clone, PartialEq, Eq)]
pub enum ArgFromInteractionError {
    /// The option declares another kind than the argument expects.
    InvalidType { expected: OptionKind, got: OptionKind },
    /// The option declares the expected kind, but its payload is no value of
    /// that kind.
    InvalidValueForType { expected: OptionKind, got: serde_json::Value, message: Option<String> },
    /// A required argument was not sent, or was sent without a payload.
    FieldNotFound,
}

/// What an `ArgFromInteractionError` holds, as mathematical values.
pub enum ArgErrorView {
    InvalidType { expected: OptionKind, got: OptionKind },
    InvalidValueForType { expected: OptionKind, got: serde_json::Value, message: Option<Seq<char>> },
    FieldNotFound,
}

impl View for ArgFromInteractionError {
    type V = ArgErrorView;

    open spec fn view(&self) -> ArgErrorView {
        match *self {
            ArgFromInteractionError::InvalidType { expected, got } => ArgErrorView::InvalidType {
                expected,
                got,
            },
            ArgFromInteractionError::InvalidValueForType { expected, got, message } => {
                ArgErrorView::InvalidValueForType { expected, got, message: message.deep_view() }
            },
            ArgFromInteractionError::FieldNotFound => ArgErrorView::FieldNotFound,
        }
    }
}

/// Why a command's arguments could not be decoded.
#[derive(Debug, Clone, PartialEq, Eq)]
pub enum CmdFromInteractionError {
    /// The argument called `name` failed with `source`.
    Arg { source: ArgFromInteractionError, name: String },
}

/// What a `CmdFromInteractionError` holds, as mathematical values.
pub enum CmdErrorView {
    Arg { source: ArgErrorView, name: Seq<char> },
}

impl View for CmdFromInteractionError {
    type V = CmdErrorView;

    open spec fn view(&self) -> CmdErrorView {
        match *self {
            CmdFromInteractionError::Arg { source, name } => CmdErrorView::Arg {
                source: source@,
                name: name@,
            },
        }
    }
}

/// Why a command interaction could not be routed and decoded.
#[derive(Debug, Clone, PartialEq, Eq)]
pub enum CmdsFromInteractionError {
    /// The command called `name` was found, and decoding it failed with
    /// `source`.
    Cmd { source: CmdFromInteractionError, name: String },
    /// No registered command is called `name`.
    UnknownCmd { name: String },
}

/// What a `CmdsFromInteractionError` holds, as mathematical values.
pub enum CmdsErrorView {
    Cmd { source: CmdErrorView, name: Seq<char> },
    UnknownCmd { name: Seq<char> },
}

impl View for CmdsFromInteractionError {
    type V = CmdsErrorView;

    open spec fn view(&self) -> CmdsErrorView {
        match *self {
            CmdsFromInteractionError::Cmd { source, name } => CmdsErrorView::Cmd {
                source: source@,
                name: name@,
            },
            CmdsFromInteractionError::UnknownCmd { name } => CmdsErrorView::UnknownCmd {
                name: name@,
            },
        }
    }
}

/// Why a component interaction could not be routed.
#[derive(Debug, Clone, PartialEq, Eq)]
pub enum ComponentsFromInteractionError {
    /// No registered component goes by `id`.
    UnknownComponent { id: String },
}

/// What a `ComponentsFromInteractionError` holds, as mathematical values.
pub enum ComponentsErrorView {
    UnknownComponent { id: Seq<char> },
}

impl View for ComponentsFromInteractionError {
    type V = ComponentsErrorView;

    open spec fn view(&self) -> ComponentsErrorView {
        match *self {
            ComponentsFromInteractionError::UnknownComponent { id } => {
                ComponentsErrorView::UnknownComponent { id: id@ }
            },
        }
    }
}

} // verus!
