use serde_json::Value;
use slashery::arg::{ArgValue, SlashArg};
use slashery::command::{SlashArgDef, SlashArgs, SlashCmd};
use slashery::commands::{ParsedCmd, SlashCmds};
use slashery::error::{ArgFromInteractionError, CmdFromInteractionError, CmdsFromInteractionError};
use slashery::meta::{SlashArgMeta, SlashCmdMeta, SlashCmdType};
use slashery::option::{CommandInteraction, DataOption, OptionKind};

fn text(name: &str, value: &str) -> DataOption {
    DataOption {
        name: name.to_string(),
        kind: OptionKind::String,
        value: Some(Value::String(value.to_string())),
    }
}

fn cmd(name: &str, args: Vec<(&str, SlashArg)>) -> SlashCmd {
    SlashCmd {
        name: name.to_string(),
        description: String::new(),
        kind: SlashCmdType::ChatInput,
        args: SlashArgs {
            args: args
                .into_iter()
                .map(|(name, ty)| SlashArgDef {
                    name: name.to_string(),
                    description: String::new(),
                    ty,
                })
                .collect(),
        },
    }
}

fn invoke(name: &str, options: Vec<DataOption>) -> CommandInteraction {
    CommandInteraction { name: name.to_string(), options }
}

fn greet_only() -> SlashCmds {
    SlashCmds { cmds: vec![cmd("greet", vec![("who", SlashArg::String)])] }
}

fn three() -> SlashCmds {
    SlashCmds {
        cmds: vec![
            cmd("ping", vec![]),
            cmd("greet", vec![("who", SlashArg::String)]),
            cmd("part", vec![("why", SlashArg::Optional(Box::new(SlashArg::String)))]),
        ],
    }
}

#[test]
fn greet_decodes_to_its_record() {
    assert_eq!(
        greet_only().from_interaction(&invoke("greet", vec![text("who", "world")])),
        Ok(ParsedCmd { index: 0, args: vec![ArgValue::String("world".to_string())] })
    );
}

#[test]
fn greet_without_options_names_the_missing_arg_and_the_command() {
    assert_eq!(
        greet_only().from_interaction(&invoke("greet", vec![])),
        Err(CmdsFromInteractionError::Cmd {
            source: CmdFromInteractionError::Arg {
                source: ArgFromInteractionError::FieldNotFound,
                name: "who".to_string(),
            },
            name: "greet".to_string(),
        })
    );
}

#[test]
fn greet_meta_is_its_schema() {
    assert_eq!(
        greet_only().meta(),
        vec![SlashCmdMeta {
            name: "greet".to_string(),
            description: String::new(),
            kind: SlashCmdType::ChatInput,
            options: vec![SlashArgMeta {
                name: "who".to_string(),
                description: String::new(),
                kind: OptionKind::String,
                required: true,
                choices: vec![],
            }],
        }]
    );
}

#[test]
fn dispatch_equals_decoding_the_command_directly() {
    let set = three();
    let sent = vec![text("who", "world")];
    let direct = set.cmds[1].args.from_interaction(&sent).unwrap();
    assert_eq!(
        set.from_interaction(&invoke("greet", sent)),
        Ok(ParsedCmd { index: 1, args: direct })
    );
    let direct = set.cmds[2].args.from_interaction(&[]).unwrap();
    assert_eq!(direct, vec![ArgValue::Optional(None)]);
    assert_eq!(set.from_interaction(&invoke("part", vec![])), Ok(ParsedCmd { index: 2, args: direct }));
    assert_eq!(set.from_interaction(&invoke("ping", vec![])), Ok(ParsedCmd { index: 0, args: vec![] }));
}

#[test]
fn dispatch_reports_the_direct_decode_error_under_the_command_name() {
    let set = three();
    let sent = vec![DataOption { name: "why".to_string(), kind: OptionKind::Boolean, value: None }];
    let direct = set.cmds[2].args.from_interaction(&sent).unwrap_err();
    assert_eq!(
        direct,
        CmdFromInteractionError::Arg {
            source: ArgFromInteractionError::InvalidType {
                expected: OptionKind::String,
                got: OptionKind::Boolean,
            },
            name: "why".to_string(),
        }
    );
    assert_eq!(
        set.from_interaction(&invoke("part", sent)),
        Err(CmdsFromInteractionError::Cmd { source: direct, name: "part".to_string() })
    );
}

#[test]
fn unknown_name_is_unknown_cmd() {
    assert_eq!(
        three().from_interaction(&invoke("dance", vec![text("who", "world")])),
        Err(CmdsFromInteractionError::UnknownCmd { name: "dance".to_string() })
    );
}

#[test]
fn names_match_exactly_and_by_case() {
    for name in ["Greet", "GREET", "gree", "greet ", " greet", "greeter", ""] {
        assert_eq!(
            three().from_interaction(&invoke(name, vec![text("who", "world")])),
            Err(CmdsFromInteractionError::UnknownCmd { name: name.to_string() })
        );
    }
}

#[test]
fn empty_set_knows_no_command() {
    let none = SlashCmds { cmds: vec![] };
    assert_eq!(
        none.from_interaction(&invoke("greet", vec![])),
        Err(CmdsFromInteractionError::UnknownCmd { name: "greet".to_string() })
    );
    assert_eq!(none.meta(), vec![]);
}

#[test]
fn first_of_two_commands_of_one_name_wins() {
    let set = SlashCmds {
        cmds: vec![cmd("greet", vec![("who", SlashArg::String)]), cmd("greet", vec![])],
    };
    assert_eq!(
        set.from_interaction(&invoke("greet", vec![])),
        Err(CmdsFromInteractionError::Cmd {
            source: CmdFromInteractionError::Arg {
                source: ArgFromInteractionError::FieldNotFound,
                name: "who".to_string(),
            },
            name: "greet".to_string(),
        })
    );
    let swapped = SlashCmds {
        cmds: vec![cmd("greet", vec![]), cmd("greet", vec![("who", SlashArg::String)])],
    };
    assert_eq!(
        swapped.from_interaction(&invoke("greet", vec![])),
        Ok(ParsedCmd { index: 0, args: vec![] })
    );
}

#[test]
fn set_meta_lists_every_command_in_registration_order() {
    let set = three();
    let metas = set.meta();
    assert_eq!(metas.len(), 3);
    assert_eq!(metas[0], set.cmds[0].meta());
    assert_eq!(metas[1], set.cmds[1].meta());
    assert_eq!(metas[2], set.cmds[2].meta());
    assert_eq!(metas[0].name, "ping");
    assert_eq!(metas[1].name, "greet");
    assert_eq!(metas[2].name, "part");
    assert!(!metas[2].options[0].required);
    assert_eq!(metas, set.meta());
}
