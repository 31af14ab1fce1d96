//! The command dispatcher: a closed, ordered set of commands.

use crate::arg::{ArgValue, ArgValueView};
use crate::command::{
    all_accepted, decode_args, decode_succeeds_iff_all_accepted, SlashCmd, SlashCmdView,
};
use crate::error::{CmdErrorView, CmdsErrorView, CmdsFromInteractionError};
use crate::meta::{SlashCmdMeta, SlashCmdMetaView};
use crate::option::{CommandInteraction, CommandInteractionView};
use crate::scan::{first_hit, first_hit_at, first_hit_is_first, first_hit_none, is_first_hit};
use vstd::prelude::*;

verus! {

/// A decoded command interaction: which of the registered commands was
/// invoked, by its place in the set, and the values of its arguments in the
/// order in which the command declares them.
#[derive(Debug, Clone, PartialEq, Eq)]
pub struct ParsedCmd {
    pub index: usize,
    pub args: Vec<ArgValue>,
}

/// What a `ParsedCmd` holds, as mathematical values.
pub struct ParsedCmdView {
    pub index: int,
    pub args: Seq<ArgValueView>,
}

impl View for ParsedCmd {
    type V = ParsedCmdView;

    open spec fn view(&self) -> ParsedCmdView {
        ParsedCmdView { index: self.index as int, args: self.args.deep_view() }
    }
}

/// For each command of `cmds`, whether it is called `name`. Names match by
/// exact equality.
pub open spec fn named(cmds: Seq<SlashCmdView>, name: Seq<char>) -> Seq<bool> {
    Seq::new(cmds.len(), |i: int| cmds[i].name == name)
}

/// The descriptors of `cmds`, in their order.
pub open spec fn cmds_meta(cmds: Seq<SlashCmdView>) -> Seq<SlashCmdMetaView> {
    Seq::new(cmds.len(), |i: int| cmds[i].meta())
}

/// What dispatch makes of `interaction`: the first command of `cmds` that is
/// called as the interaction is decodes its options, and its error is
/// reported under the command's name; where no command is called so, the
/// interaction's name is reported as unknown.
pub open spec fn dispatch(cmds: Seq<SlashCmdView>, interaction: CommandInteractionView) -> Result<
    ParsedCmdView,
    CmdsErrorView,
> {
    match first_hit(named(cmds, interaction.name)) {
        None => Err(CmdsErrorView::UnknownCmd { name: interaction.name }),
        Some(i) => match decode_args(cmds[i].args, interaction.options) {
            Ok(values) => Ok(ParsedCmdView { index: i, args: values }),
            Err(e) => Err(CmdsErrorView::Cmd { source: e, name: cmds[i].name }),
        },
    }
}

/// The outcome of a dispatch, as mathematical values.
pub open spec fn dispatch_result_view(r: Result<ParsedCmd, CmdsFromInteractionError>) -> Result<
    ParsedCmdView,
    CmdsErrorView,
> {
    match r {
        Ok(parsed) => Ok(parsed@),
        Err(e) => Err(e@),
    }
}

/// A closed set of commands, in registration order.
#[derive(Debug, Clone, PartialEq, Eq)]
pub struct SlashCmds {
    pub cmds: Vec<SlashCmd>,
}

impl View for SlashCmds {
    type V = Seq<SlashCmdView>;

    open spec fn view(&self) -> Seq<SlashCmdView> {
        self.cmds.deep_view()
    }
}

impl SlashCmds {
    /// The descriptors of all commands of the set, in registration order.
    pub fn meta(&self) -> (metas: Vec<SlashCmdMeta>)
        ensures
            metas.deep_view() == cmds_meta(self@),
    {
        let mut metas: Vec<SlashCmdMeta> = Vec::new();
        let mut i: usize = 0;
        while i < self.cmds.len()
            invariant
                i <= self.cmds.len(),
                metas.len() == i,
                forall|j: int| 0 <= j < i ==> (#[trigger] metas[j])@ == self.cmds[j]@.meta(),
            decreases self.cmds.len() - i,
        {
            metas.push(self.cmds[i].meta());
            i = i + 1;
        }
        assert(metas.deep_view() =~= cmds_meta(self@));
        metas
    }

    /// Routes a command interaction to the first command of the set that is
    /// called as the interaction is, and decodes the interaction's options as
    /// that command's arguments.
    pub fn from_interaction(&self, interaction: &CommandInteraction) -> (r: Result<
        ParsedCmd,
        CmdsFromInteractionError,
    >)
        ensures
            dispatch_result_view(r) == dispatch(self@, interaction@),
    {
        let ghost hits = named(self@, interaction@.name);
        let mut i: usize = 0;
        while i < self.cmds.len()
            invariant
                i <= self.cmds.len(),
                hits == named(self@, interaction@.name),
                forall|j: int| 0 <= j < i ==> !hits[j],
            decreases self.cmds.len() - i,
        {
            let cmd = &self.cmds[i];
            if interaction.name == cmd.name {
                proof {
                    first_hit_at(hits, i as int);
                }
                return match cmd.args.from_interaction(interaction.options.as_slice()) {
                    Ok(args) => Ok(ParsedCmd { index: i, args }),
                    Err(source) => Err(CmdsFromInteractionError::Cmd { source, name: cmd.name() }),
                };
            }
            i = i + 1;
        }
        proof {
            first_hit_none(hits);
        }
        Err(CmdsFromInteractionError::UnknownCmd { name: interaction.name.clone() })
    }
}

/// An interaction whose name no command of the set bears is reported as
/// unknown under that name, and nothing else is.
pub proof fn unknown_name_is_unknown_cmd(cmds: Seq<SlashCmdView>, interaction: CommandInteractionView)
    ensures
        (forall|i: int| 0 <= i < cmds.len() ==> (#[trigger] cmds[i]).name != interaction.name)
            <==> dispatch(cmds, interaction) == Err::<ParsedCmdView, CmdsErrorView>(
            CmdsErrorView::UnknownCmd { name: interaction.name },
        ),
        dispatch(cmds, interaction) is Err && dispatch(cmds, interaction)->Err_0 is UnknownCmd
            ==> dispatch(cmds, interaction)->Err_0->UnknownCmd_name == interaction.name,
{
    let hits = named(cmds, interaction.name);
    first_hit_is_first(hits);
    if forall|i: int| 0 <= i < cmds.len() ==> (#[trigger] cmds[i]).name != interaction.name {
        assert forall|j: int| 0 <= j < hits.len() implies !hits[j] by {
            assert(cmds[j].name != interaction.name);
        }
    }
    if first_hit(hits) is None {
        assert forall|i: int| 0 <= i < cmds.len() implies (#[trigger] cmds[i]).name
            != interaction.name by {
            assert(!hits[i]);
        }
    }
}

/// Dispatch on an interaction that bears the name of the command at `i`,
/// which no earlier command bears, is what decoding that command directly
/// makes of the interaction's options: its values under the place `i`, or
/// its error under the command's name.
pub proof fn dispatch_is_direct_decode(
    cmds: Seq<SlashCmdView>,
    interaction: CommandInteractionView,
    i: int,
)
    requires
        is_first_hit(named(cmds, interaction.name), i),
    ensures
        dispatch(cmds, interaction) == match decode_args(cmds[i].args, interaction.options) {
            Ok(values) => Ok::<ParsedCmdView, CmdsErrorView>(
                ParsedCmdView { index: i, args: values },
            ),
            Err(e) => Err(CmdsErrorView::Cmd { source: e, name: interaction.name }),
        },
{
    first_hit_at(named(cmds, interaction.name), i);
}

/// Dispatch on an interaction that bears the name of the command at `i`,
/// which no earlier command bears, and whose options that command's
/// arguments all accept, succeeds with the values that decoding that command
/// directly gives.
pub proof fn dispatch_of_accepted_interaction(
    cmds: Seq<SlashCmdView>,
    interaction: CommandInteractionView,
    i: int,
)
    requires
        is_first_hit(named(cmds, interaction.name), i),
        all_accepted(cmds[i].args, interaction.options),
    ensures
        dispatch(cmds, interaction) is Ok,
        dispatch(cmds, interaction)->Ok_0.index == i,
        decode_args(cmds[i].args, interaction.options) == Ok::<Seq<ArgValueView>, CmdErrorView>(
            dispatch(cmds, interaction)->Ok_0.args,
        ),
{
    first_hit_at(named(cmds, interaction.name), i);
    decode_succeeds_iff_all_accepted(cmds[i].args, interaction.options);
}

/// Whether no two commands of `cmds` bear the same name.
pub open spec fn distinct_names(cmds: Seq<SlashCmdView>) -> bool {
    forall|i: int, j: int|
        0 <= i < j < cmds.len() ==> (#[trigger] cmds[i]).name != (#[trigger] cmds[j]).name
}

/// In a set of distinctly named commands no command shadows another: an
/// interaction that bears a command's name is dispatched to that command.
pub proof fn distinct_names_reach_every_cmd(
    cmds: Seq<SlashCmdView>,
    interaction: CommandInteractionView,
    i: int,
)
    requires
        distinct_names(cmds),
        0 <= i < cmds.len(),
        cmds[i].name == interaction.name,
    ensures
        is_first_hit(named(cmds, interaction.name), i),
{
    assert forall|j: int| 0 <= j < i implies !named(cmds, interaction.name)[j] by {
        assert(cmds[j].name != cmds[i].name);
    }
}

} // verus!
