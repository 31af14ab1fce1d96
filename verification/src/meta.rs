//! The descriptors under which commands are registered with the platform.

use crate::option::OptionKind;
use vstd::prelude::*;

verus! {

/// The dispatch kind of a command.
#[derive(Debug, Clone, Copy, PartialEq, Eq, Structural, Hash)]
pub enum SlashCmdType {
    /// Slash command
    ChatInput,
}

impl SlashCmdType {
    /// The number that the platform registers for this kind of command.
    pub open spec fn spec_discriminant(self) -> u8 {
        match self {
            SlashCmdType::ChatInput => 1,
        }
    }

    /// The number under which this kind is serialised for registration.
    #[verifier::when_used_as_spec(spec_discriminant)]
    pub fn discriminant(self) -> (n: u8)
        ensures
            n == self.spec_discriminant(),
    {
        match self {
            SlashCmdType::ChatInput => 1,
        }
    }
}

/// One of the values that an argument with a closed enumeration accepts.
#[derive(Debug, Clone, PartialEq, Eq)]
pub struct OptionChoice {
    pub name: String,
    pub value: serde_json::Value,
}

/// What an `OptionChoice` holds, as mathematical values.
pub struct OptionChoiceView {
    pub name: Seq<char>,
    pub value: serde_json::Value,
}

impl View for OptionChoice {
    type V = OptionChoiceView;

    open spec fn view(&self) -> OptionChoiceView {
        OptionChoiceView { name: self.name@, value: self.value }
    }
}

impl DeepView for OptionChoice {
    type V = OptionChoiceView;

    open spec fn deep_view(&self) -> OptionChoiceView {
        self@
    }
}

/// The descriptor of one argument of a command.
#[derive(Debug, Clone, PartialEq, Eq)]
pub struct SlashArgMeta {
    pub name: String,
    pub description: String,
    pub kind: OptionKind,
    pub required: bool,
    pub choices: Vec<OptionChoice>,
}

/// What a `SlashArgMeta` holds, as mathematical values.
pub struct SlashArgMetaView {
    pub name: Seq<char>,
    pub description: Seq<char>,
    pub kind: OptionKind,
    pub required: bool,
    pub choices: Seq<OptionChoiceView>,
}

impl View for SlashArgMeta {
    type V = SlashArgMetaView;

    open spec fn view(&self) -> SlashArgMetaView {
        SlashArgMetaView {
            name: self.name@,
            description: self.description@,
            kind: self.kind,
            required: self.required,
            choices: self.choices.deep_view(),
        }
    }
}

impl DeepView for SlashArgMeta {
    type V = SlashArgMetaView;

    open spec fn deep_view(&self) -> SlashArgMetaView {
        self@
    }
}

/// The descriptor of a command.
#[derive(Debug, Clone, PartialEq, Eq)]
pub struct SlashCmdMeta {
    pub name: String,
    pub description: String,
    pub kind: SlashCmdType,
    pub options: Vec<SlashArgMeta>,
}

/// What a `SlashCmdMeta` holds, as mathematical values.
pub struct SlashCmdMetaView {
    pub name: Seq<char>,
    pub description: Seq<char>,
    pub kind: SlashCmdType,
    pub options: Seq<SlashArgMetaView>,
}

impl View for SlashCmdMeta {
    type V = SlashCmdMetaView;

    open spec fn view(&self) -> SlashCmdMetaView {
        SlashCmdMetaView {
            name: self.name@,
            description: self.description@,
            kind: self.kind,
            options: self.options.deep_view(),
        }
    }
}

impl DeepView for SlashCmdMeta {
    type V = SlashCmdMetaView;

    open spec fn deep_view(&self) -> SlashCmdMetaView {
        self@
    }
}

} // verus!
