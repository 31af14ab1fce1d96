use serde_json::Value;
use slashery::arg::{ArgValue, SlashArg};
use slashery::command::{SlashArgDef, SlashArgs, SlashCmd};
use slashery::error::{ArgFromInteractionError, CmdFromInteractionError};
use slashery::meta::{SlashArgMeta, SlashCmdMeta, SlashCmdType};
use slashery::option::{DataOption, OptionKind};

fn text(name: &str, value: &str) -> DataOption {
    DataOption {
        name: name.to_string(),
        kind: OptionKind::String,
        value: Some(Value::String(value.to_string())),
    }
}

fn def(name: &str, description: &str, ty: SlashArg) -> SlashArgDef {
    SlashArgDef { name: name.to_string(), description: description.to_string(), ty }
}

fn optional(inner: SlashArg) -> SlashArg {
    SlashArg::Optional(Box::new(inner))
}

fn remind() -> SlashCmd {
    SlashCmd {
        name: "remind".to_string(),
        description: "Set a reminder".to_string(),
        kind: SlashCmdType::ChatInput,
        args: SlashArgs {
            args: vec![
                def("what", "What to remind of", SlashArg::String),
                def("when", "When to remind", SlashArg::String),
                def("note", "A note to add", optional(SlashArg::String)),
            ],
        },
    }
}

#[test]
fn args_decode_in_declaration_order() {
    let sent = vec![text("when", "noon"), text("note", "bring cake"), text("what", "party")];
    assert_eq!(
        remind().args.from_interaction(&sent),
        Ok(vec![
            ArgValue::String("party".to_string()),
            ArgValue::String("noon".to_string()),
            ArgValue::Optional(Some(Box::new(ArgValue::String("bring cake".to_string())))),
        ])
    );
}

#[test]
fn optional_arg_left_out_decodes_to_empty() {
    let sent = vec![text("what", "party"), text("when", "noon")];
    assert_eq!(
        remind().args.from_interaction(&sent),
        Ok(vec![
            ArgValue::String("party".to_string()),
            ArgValue::String("noon".to_string()),
            ArgValue::Optional(None),
        ])
    );
}

#[test]
fn no_declared_args_decode_to_an_empty_record() {
    let none = SlashArgs { args: vec![] };
    assert_eq!(none.from_interaction(&[]), Ok(vec![]));
    assert_eq!(none.from_interaction(&[text("stray", "x")]), Ok(vec![]));
}

#[test]
fn options_that_no_arg_declares_are_ignored() {
    let sent = vec![text("what", "party"), text("stray", "x"), text("when", "noon")];
    assert_eq!(
        remind().args.from_interaction(&sent),
        Ok(vec![
            ArgValue::String("party".to_string()),
            ArgValue::String("noon".to_string()),
            ArgValue::Optional(None),
        ])
    );
}

#[test]
fn repeated_option_name_decodes_the_last() {
    let sent = vec![text("what", "first"), text("when", "noon"), text("what", "last")];
    assert_eq!(
        remind().args.from_interaction(&sent),
        Ok(vec![
            ArgValue::String("last".to_string()),
            ArgValue::String("noon".to_string()),
            ArgValue::Optional(None),
        ])
    );
}

#[test]
fn missing_required_arg_is_reported_under_its_name() {
    let sent = vec![text("what", "party")];
    assert_eq!(
        remind().args.from_interaction(&sent),
        Err(CmdFromInteractionError::Arg {
            source: ArgFromInteractionError::FieldNotFound,
            name: "when".to_string(),
        })
    );
}

#[test]
fn decoding_stops_at_the_first_arg_that_fails() {
    let number = DataOption {
        name: "what".to_string(),
        kind: OptionKind::Integer,
        value: Some(Value::from(7u64)),
    };
    let flag = DataOption {
        name: "note".to_string(),
        kind: OptionKind::String,
        value: Some(Value::Bool(true)),
    };
    assert_eq!(
        remind().args.from_interaction(&[flag.clone(), number]),
        Err(CmdFromInteractionError::Arg {
            source: ArgFromInteractionError::InvalidType {
                expected: OptionKind::String,
                got: OptionKind::Integer,
            },
            name: "what".to_string(),
        })
    );
    assert_eq!(
        remind().args.from_interaction(&[flag, text("what", "party"), text("when", "noon")]),
        Err(CmdFromInteractionError::Arg {
            source: ArgFromInteractionError::InvalidValueForType {
                expected: OptionKind::String,
                got: Value::Bool(true),
                message: None,
            },
            name: "note".to_string(),
        })
    );
}

#[test]
fn args_of_one_name_take_the_same_option() {
    let twice = SlashArgs {
        args: vec![def("who", "", SlashArg::String), def("who", "", optional(SlashArg::String))],
    };
    assert_eq!(
        twice.from_interaction(&[text("who", "world")]),
        Ok(vec![
            ArgValue::String("world".to_string()),
            ArgValue::Optional(Some(Box::new(ArgValue::String("world".to_string())))),
        ])
    );
}

#[test]
fn command_meta_describes_name_kind_and_args() {
    let expected = SlashCmdMeta {
        name: "remind".to_string(),
        description: "Set a reminder".to_string(),
        kind: SlashCmdType::ChatInput,
        options: vec![
            SlashArgMeta {
                name: "what".to_string(),
                description: "What to remind of".to_string(),
                kind: OptionKind::String,
                required: true,
                choices: vec![],
            },
            SlashArgMeta {
                name: "when".to_string(),
                description: "When to remind".to_string(),
                kind: OptionKind::String,
                required: true,
                choices: vec![],
            },
            SlashArgMeta {
                name: "note".to_string(),
                description: "A note to add".to_string(),
                kind: OptionKind::String,
                required: false,
                choices: vec![],
            },
        ],
    };
    assert_eq!(remind().meta(), expected);
    assert_eq!(remind().args.args_meta(), expected.options);
    assert_eq!(remind().name(), "remind".to_string());
}

#[test]
fn command_meta_is_the_same_on_every_call() {
    let cmd = remind();
    let first = cmd.meta();
    let second = cmd.meta();
    assert_eq!(first, second);
    assert_eq!(cmd.args.args_meta(), cmd.args.args_meta());
    assert_eq!(cmd, remind());
}

#[test]
fn command_without_args_has_no_options_in_its_meta() {
    let ping = SlashCmd {
        name: "ping".to_string(),
        description: String::new(),
        kind: SlashCmdType::ChatInput,
        args: SlashArgs { args: vec![] },
    };
    assert_eq!(
        ping.meta(),
        SlashCmdMeta {
            name: "ping".to_string(),
            description: String::new(),
            kind: SlashCmdType::ChatInput,
            options: vec![],
        }
    );
}
