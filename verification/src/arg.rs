//! Argument types: how one option becomes one typed value.

use crate::error::{ArgErrorView, ArgFromInteractionError};
use crate::json::json_text;
use crate::meta::{OptionChoice, OptionChoiceView};
use crate::option::{DataOption, DataOptionView, OptionKind};
use vstd::prelude::*;

verus! {

/// The type of an argument. It says which options the argument accepts, what
/// they decode to, and how the argument is described for registration.
#[derive(Debug, PartialEq, Eq)]
pub enum SlashArg {
    /// A text argument, which must be sent.
    String,
    /// An argument of the inner type that may be left out.
    Optional(Box<SlashArg>),
}

/// The typed value of a decoded argument.
#[derive(Debug, PartialEq, Eq)]
pub enum ArgValue {
    /// The value of a `SlashArg::String`.
    String(String),
    /// The value of a `SlashArg::Optional`: the inner value when the option
    /// was sent, `None` when it was left out.
    Optional(Option<Box<ArgValue>>),
}

/// What an `ArgValue` holds, as mathematical values.
pub enum ArgValueView {
    String(Seq<char>),
    Optional(Option<Box<ArgValueView>>),
}

impl View for ArgValue {
    type V = ArgValueView;

    open spec fn view(&self) -> ArgValueView
        decreases self,
    {
        match self {
            ArgValue::String(s) => ArgValueView::String(s@),
            ArgValue::Optional(None) => ArgValueView::Optional(None),
            ArgValue::Optional(Some(inner)) => ArgValueView::Optional(Some(Box::new((**inner)@))),
        }
    }
}

impl DeepView for ArgValue {
    type V = ArgValueView;

    open spec fn deep_view(&self) -> ArgValueView {
        self@
    }
}

impl Clone for SlashArg {
    fn clone(&self) -> (copy: Self)
        ensures
            copy == *self,
        decreases self,
    {
        match self {
            SlashArg::String => SlashArg::String,
            SlashArg::Optional(inner) => SlashArg::Optional(Box::new((**inner).clone())),
        }
    }
}

impl Clone for ArgValue {
    fn clone(&self) -> (copy: Self)
        ensures
            copy@ == self@,
        decreases self,
    {
        match self {
            ArgValue::String(s) => ArgValue::String(s.clone()),
            ArgValue::Optional(None) => ArgValue::Optional(None),
            ArgValue::Optional(Some(inner)) => ArgValue::Optional(
                Some(Box::new((**inner).clone())),
            ),
        }
    }
}

/// The outcome of decoding one argument, as mathematical values.
pub open spec fn arg_result_view(r: Result<ArgValue, ArgFromInteractionError>) -> Result<
    ArgValueView,
    ArgErrorView,
> {
    match r {
        Ok(v) => Ok(v@),
        Err(e) => Err(e@),
    }
}

impl SlashArg {
    /// The wire-level kind that an option must declare to be accepted. An
    /// optional argument expects the kind of its inner type.
    pub open spec fn kind(self) -> OptionKind
        decreases self,
    {
        match self {
            SlashArg::String => OptionKind::String,
            SlashArg::Optional(inner) => inner.kind(),
        }
    }

    /// Whether the argument must be sent.
    pub open spec fn required(self) -> bool {
        self is String
    }

    /// The values that the argument publishes as its closed enumeration. An
    /// optional argument publishes those of its inner type.
    pub open spec fn choices(self) -> Seq<OptionChoiceView>
        decreases self,
    {
        match self {
            SlashArg::String => Seq::empty(),
            SlashArg::Optional(inner) => inner.choices(),
        }
    }

    /// Whether the argument takes `arg`, the option found for it or `None`
    /// where none was sent. An argument that may be left out takes the
    /// absence of an option; every argument takes an option that declares the
    /// kind it expects and carries a JSON string.
    pub open spec fn accepts(self, arg: Option<DataOptionView>) -> bool {
        match arg {
            None => !self.required(),
            Some(o) => {
                &&& o.kind == self.kind()
                &&& o.value matches Some(payload)
                &&& json_text(payload) is Some
            },
        }
    }

    /// What a text argument makes of a payload, given the text that the
    /// payload holds: that text, or the payload itself as an invalid value.
    pub open spec fn text_or_invalid(text: Option<Seq<char>>, payload: serde_json::Value) -> Result<
        ArgValueView,
        ArgErrorView,
    > {
        match text {
            Some(t) => Ok(ArgValueView::String(t)),
            None => Err(
                ArgErrorView::InvalidValueForType {
                    expected: OptionKind::String,
                    got: payload,
                    message: None,
                },
            ),
        }
    }

    /// What decoding makes of `arg`, the option found for the argument, or
    /// `None` where none was sent.
    ///
    /// A text argument fails with `FieldNotFound` where the option or its
    /// payload is missing, with `InvalidType` where the option declares
    /// another kind than `String`, and with `InvalidValueForType` where the
    /// payload is no JSON string. An optional argument is `Optional(None)`
    /// where no option was sent, and otherwise whatever its inner type makes
    /// of the option.
    pub open spec fn parse(self, arg: Option<DataOptionView>) -> Result<ArgValueView, ArgErrorView>
        decreases self,
    {
        match self {
            SlashArg::String => match arg {
                None => Err(ArgErrorView::FieldNotFound),
                Some(o) => if o.kind != OptionKind::String {
                    Err(ArgErrorView::InvalidType { expected: OptionKind::String, got: o.kind })
                } else {
                    match o.value {
                        None => Err(ArgErrorView::FieldNotFound),
                        Some(payload) => Self::text_or_invalid(json_text(payload), payload),
                    }
                },
            },
            SlashArg::Optional(inner) => match arg {
                None => Ok(ArgValueView::Optional(None)),
                Some(o) => match inner.parse(Some(o)) {
                    Ok(v) => Ok(ArgValueView::Optional(Some(Box::new(v)))),
                    Err(e) => Err(e),
                },
            },
        }
    }

    /// Makes the value of a text argument from the text that `payload` was
    /// found to hold. A payload that holds none is returned in the error.
    pub fn string_from_text(text: Option<&str>, payload: &serde_json::Value) -> (r: Result<
        ArgValue,
        ArgFromInteractionError,
    >)
        ensures
            arg_result_view(r) == Self::text_or_invalid(text.deep_view(), *payload),
    {
        match text {
            Some(t) => Ok(ArgValue::String(t.to_owned())),
            None => Err(
                ArgFromInteractionError::InvalidValueForType {
                    expected: OptionKind::String,
                    got: payload.clone(),
                    message: None,
                },
            ),
        }
    }

    /// Decodes the option found for the argument, or its absence.
    pub fn arg_parse(&self, arg: Option<&DataOption>) -> (r: Result<
        ArgValue,
        ArgFromInteractionError,
    >)
        ensures
            arg_result_view(r) == self.parse(arg.deep_view()),
        decreases self,
    {
        match self {
            SlashArg::String => match arg {
                Some(o) => {
                    if o.kind == OptionKind::String {
                        match &o.value {
                            Some(payload) => Self::string_from_text(payload.as_str(), payload),
                            None => Err(ArgFromInteractionError::FieldNotFound),
                        }
                    } else {
                        Err(
                            ArgFromInteractionError::InvalidType {
                                expected: OptionKind::String,
                                got: o.kind,
                            },
                        )
                    }
                },
                None => Err(ArgFromInteractionError::FieldNotFound),
            },
            SlashArg::Optional(inner) => match arg {
                Some(o) => match inner.arg_parse(Some(o)) {
                    Ok(v) => Ok(ArgValue::Optional(Some(Box::new(v)))),
                    Err(e) => Err(e),
                },
                None => Ok(ArgValue::Optional(None)),
            },
        }
    }

    /// The wire-level kind under which the argument is registered.
    pub fn arg_discord_type(&self) -> (kind: OptionKind)
        ensures
            kind == self.kind(),
        decreases self,
    {
        match self {
            SlashArg::String => OptionKind::String,
            SlashArg::Optional(inner) => inner.arg_discord_type(),
        }
    }

    /// Whether the argument is registered as required.
    pub fn arg_required(&self) -> (required: bool)
        ensures
            required == self.required(),
    {
        match self {
            SlashArg::String => true,
            SlashArg::Optional(_) => false,
        }
    }

    /// The choices under which the argument is registered.
    pub fn arg_choices(&self) -> (choices: Vec<OptionChoice>)
        ensures
            choices.deep_view() == self.choices(),
        decreases self,
    {
        match self {
            SlashArg::String => Vec::new(),
            SlashArg::Optional(inner) => inner.arg_choices(),
        }
    }
}

/// A required argument that was not sent fails with `FieldNotFound`.
pub proof fn absent_required_is_not_found(arg: SlashArg)
    requires
        arg.required(),
    ensures
        arg.parse(None) == Err::<ArgValueView, ArgErrorView>(ArgErrorView::FieldNotFound),
{
}

/// An optional argument that was not sent decodes to the empty value,
/// whatever its inner type.
pub proof fn absent_optional_is_empty(inner: SlashArg)
    ensures
        !SlashArg::Optional(Box::new(inner)).required(),
        SlashArg::Optional(Box::new(inner)).parse(None) == Ok::<ArgValueView, ArgErrorView>(
            ArgValueView::Optional(None),
        ),
{
}

/// An option that declares another kind than the argument expects fails
/// with `InvalidType`, which names both kinds.
pub proof fn kind_mismatch_is_invalid_type(arg: SlashArg, option: DataOptionView)
    requires
        option.kind != arg.kind(),
    ensures
        arg.parse(Some(option)) == Err::<ArgValueView, ArgErrorView>(
            ArgErrorView::InvalidType { expected: arg.kind(), got: option.kind },
        ),
    decreases arg,
{
    match arg {
        SlashArg::String => {},
        SlashArg::Optional(inner) => {
            kind_mismatch_is_invalid_type(*inner, option);
        },
    }
}

/// Decoding succeeds on exactly what the argument accepts.
pub proof fn parse_succeeds_iff_accepted(arg: SlashArg, option: Option<DataOptionView>)
    ensures
        arg.parse(option) is Ok <==> arg.accepts(option),
    decreases arg,
{
    match arg {
        SlashArg::String => {},
        SlashArg::Optional(inner) => {
            if option is Some {
                parse_succeeds_iff_accepted(*inner, option);
            }
        },
    }
}

/// Optionality is a pure wrapper: the optional argument is registered under
/// the kind and the choices of its inner type, and decodes an option that was
/// sent as its inner type does.
pub proof fn optional_forwards_to_inner(inner: SlashArg, option: DataOptionView)
    ensures
        SlashArg::Optional(Box::new(inner)).kind() == inner.kind(),
        SlashArg::Optional(Box::new(inner)).choices() == inner.choices(),
        SlashArg::Optional(Box::new(inner)).parse(Some(option)) == match inner.parse(Some(option)) {
            Ok(v) => Ok::<ArgValueView, ArgErrorView>(ArgValueView::Optional(Some(Box::new(v)))),
            Err(e) => Err(e),
        },
{
}

} // verus!
