//! Commands: a name, a description and an ordered list of named arguments.

use crate::arg::{parse_succeeds_iff_accepted, ArgValue, ArgValueView, SlashArg};
use crate::error::{CmdErrorView, CmdFromInteractionError};
use crate::meta::{SlashArgMeta, SlashArgMetaView, SlashCmdMeta, SlashCmdMetaView, SlashCmdType};
use crate::option::{find_option, lookup, DataOption, DataOptionView};
use vstd::prelude::*;

verus! {

/// One declared argument of a command.
#[derive(Debug, Clone, PartialEq, Eq)]
pub struct SlashArgDef {
    pub name: String,
    pub description: String,
    pub ty: SlashArg,
}

/// What a `SlashArgDef` holds, as mathematical values.
pub struct SlashArgDefView {
    pub name: Seq<char>,
    pub description: Seq<char>,
    pub ty: SlashArg,
}

impl View for SlashArgDef {
    type V = SlashArgDefView;

    open spec fn view(&self) -> SlashArgDefView {
        SlashArgDefView { name: self.name@, description: self.description@, ty: self.ty }
    }
}

impl DeepView for SlashArgDef {
    type V = SlashArgDefView;

    open spec fn deep_view(&self) -> SlashArgDefView {
        self@
    }
}

impl SlashArgDefView {
    /// The descriptor of the argument: its name and description, and what
    /// its type says of kind, required-ness and choices.
    pub open spec fn meta(self) -> SlashArgMetaView {
        SlashArgMetaView {
            name: self.name,
            description: self.description,
            kind: self.ty.kind(),
            required: self.ty.required(),
            choices: self.ty.choices(),
        }
    }

    /// What decoding makes of the argument, given the options that were
    /// sent: the value that its type makes of the option of its name, or the
    /// type's error under the argument's name.
    pub open spec fn decode(self, options: Seq<DataOptionView>) -> Result<
        ArgValueView,
        CmdErrorView,
    > {
        match self.ty.parse(lookup(options, self.name)) {
            Ok(v) => Ok(v),
            Err(e) => Err(CmdErrorView::Arg { source: e, name: self.name }),
        }
    }
}

/// The descriptors of `defs`, in their order.
pub open spec fn args_meta(defs: Seq<SlashArgDefView>) -> Seq<SlashArgMetaView> {
    Seq::new(defs.len(), |i: int| defs[i].meta())
}

/// What decoding makes of `options` for the arguments `defs`: the values of
/// all arguments in their order, or the error of the first argument, in
/// that order, that fails.
pub open spec fn decode_args(defs: Seq<SlashArgDefView>, options: Seq<DataOptionView>) -> Result<
    Seq<ArgValueView>,
    CmdErrorView,
>
    decreases defs.len(),
{
    if defs.len() == 0 {
        Ok(Seq::empty())
    } else {
        match decode_args(defs.drop_last(), options) {
            Err(e) => Err(e),
            Ok(values) => match defs.last().decode(options) {
                Ok(v) => Ok(values.push(v)),
                Err(e) => Err(e),
            },
        }
    }
}

/// The outcome of decoding a command's arguments, as mathematical values.
pub open spec fn args_result_view(r: Result<Vec<ArgValue>, CmdFromInteractionError>) -> Result<
    Seq<ArgValueView>,
    CmdErrorView,
> {
    match r {
        Ok(values) => Ok(values.deep_view()),
        Err(e) => Err(e@),
    }
}

/// Decoding is fail-fast and in order. It succeeds exactly when every
/// argument decodes, and then holds each argument's value at the argument's
/// place; it fails with the error of the first argument that fails.
pub proof fn decode_args_is_first_failure(defs: Seq<SlashArgDefView>, options: Seq<DataOptionView>)
    ensures
        match decode_args(defs, options) {
            Ok(values) => {
                &&& values.len() == defs.len()
                &&& forall|i: int|
                    0 <= i < defs.len() ==> (#[trigger] defs[i]).decode(options) == Ok::<
                        ArgValueView,
                        CmdErrorView,
                    >(values[i])
            },
            Err(e) => exists|i: int|
                {
                    &&& 0 <= i < defs.len()
                    &&& (#[trigger] defs[i]).decode(options) == Err::<ArgValueView, CmdErrorView>(e)
                    &&& forall|j: int| 0 <= j < i ==> (#[trigger] defs[j]).decode(options) is Ok
                },
        },
    decreases defs.len(),
{
    if defs.len() > 0 {
        let front = defs.drop_last();
        decode_args_is_first_failure(front, options);
        match decode_args(front, options) {
            Err(e) => {
                let i = choose|i: int|
                    {
                        &&& 0 <= i < front.len()
                        &&& (#[trigger] front[i]).decode(options) == Err::<
                            ArgValueView,
                            CmdErrorView,
                        >(e)
                        &&& forall|j: int|
                            0 <= j < i ==> (#[trigger] front[j]).decode(options) is Ok
                    };
                assert(defs[i] == front[i]);
                assert forall|j: int| 0 <= j < i implies (#[trigger] defs[j]).decode(
                    options,
                ) is Ok by {
                    assert(defs[j] == front[j]);
                }
            },
            Ok(values) => {
                let last = defs.len() - 1;
                match defs.last().decode(options) {
                    Ok(v) => {
                        assert forall|i: int| 0 <= i < defs.len() implies (#[trigger] defs[i]).decode(
                            options,
                        ) == Ok::<ArgValueView, CmdErrorView>(values.push(v)[i]) by {
                            if i < last {
                                assert(defs[i] == front[i]);
                            }
                        }
                    },
                    Err(e) => {
                        assert(defs[last].decode(options) == Err::<ArgValueView, CmdErrorView>(e));
                        assert forall|j: int| 0 <= j < last implies (#[trigger] defs[j]).decode(
                            options,
                        ) is Ok by {
                            assert(defs[j] == front[j]);
                        }
                    },
                }
            },
        }
    }
}

/// Whether every argument of `defs` takes what `options` holds for it.
pub open spec fn all_accepted(defs: Seq<SlashArgDefView>, options: Seq<DataOptionView>) -> bool {
    forall|i: int|
        0 <= i < defs.len() ==> (#[trigger] defs[i]).ty.accepts(lookup(options, defs[i].name))
}

/// Decoding a command's arguments succeeds exactly where each argument takes
/// what was sent for it: every required argument was sent, and every option
/// sent for an argument declares the argument's kind and carries a JSON string.
pub proof fn decode_succeeds_iff_all_accepted(
    defs: Seq<SlashArgDefView>,
    options: Seq<DataOptionView>,
)
    ensures
        decode_args(defs, options) is Ok <==> all_accepted(defs, options),
{
    decode_args_is_first_failure(defs, options);
    assert forall|i: int| 0 <= i < defs.len() implies ((#[trigger] defs[i]).decode(options) is Ok
        <==> defs[i].ty.accepts(lookup(options, defs[i].name))) by {
        parse_succeeds_iff_accepted(defs[i].ty, lookup(options, defs[i].name));
    }
}

/// Once the arguments up to `k` have failed, the rest cannot mend it.
proof fn lemma_failure_persists(defs: Seq<SlashArgDefView>, options: Seq<DataOptionView>, k: int)
    requires
        0 <= k <= defs.len(),
        decode_args(defs.take(k), options) is Err,
    ensures
        decode_args(defs, options) == decode_args(defs.take(k), options),
    decreases defs.len(),
{
    if k == defs.len() {
        assert(defs.take(k) == defs);
    } else {
        assert(defs.drop_last().take(k) == defs.take(k));
        lemma_failure_persists(defs.drop_last(), options, k);
    }
}

/// The ordered list of the arguments that a command declares.
#[derive(Debug, Clone, PartialEq, Eq)]
pub struct SlashArgs {
    pub args: Vec<SlashArgDef>,
}

impl View for SlashArgs {
    type V = Seq<SlashArgDefView>;

    open spec fn view(&self) -> Seq<SlashArgDefView> {
        self.args.deep_view()
    }
}

impl SlashArgs {
    /// The descriptors of the declared arguments, in their order.
    pub fn args_meta(&self) -> (metas: Vec<SlashArgMeta>)
        ensures
            metas.deep_view() == args_meta(self@),
    {
        let mut metas: Vec<SlashArgMeta> = Vec::new();
        let mut i: usize = 0;
        while i < self.args.len()
            invariant
                i <= self.args.len(),
                metas.len() == i,
                forall|j: int| 0 <= j < i ==> (#[trigger] metas[j])@ == self.args[j]@.meta(),
            decreases self.args.len() - i,
        {
            let def = &self.args[i];
            metas.push(
                SlashArgMeta {
                    name: def.name.clone(),
                    description: def.description.clone(),
                    kind: def.ty.arg_discord_type(),
                    required: def.ty.arg_required(),
                    choices: def.ty.arg_choices(),
                },
            );
            i = i + 1;
        }
        assert(metas.deep_view() =~= args_meta(self@));
        metas
    }

    /// Decodes the options that were sent into the values of the declared
    /// arguments, in the arguments' order. Each argument takes the option of
    /// its name, the last one where a name is repeated. The first argument
    /// that fails ends the decoding with its error.
    pub fn from_interaction(&self, opts: &[DataOption]) -> (r: Result<
        Vec<ArgValue>,
        CmdFromInteractionError,
    >)
        ensures
            args_result_view(r) == decode_args(self@, opts.deep_view()),
    {
        let mut values: Vec<ArgValue> = Vec::new();
        let mut i: usize = 0;
        assert(values.deep_view() =~= Seq::empty());
        while i < self.args.len()
            invariant
                i <= self.args.len(),
                decode_args(self@.take(i as int), opts.deep_view()) == Ok::<
                    Seq<ArgValueView>,
                    CmdErrorView,
                >(values.deep_view()),
            decreases self.args.len() - i,
        {
            let def = &self.args[i];
            let ghost before = values.deep_view();
            proof {
                assert(self@.take(i + 1).drop_last() == self@.take(i as int));
                assert(self@.take(i + 1).last() == def@);
            }
            match def.ty.arg_parse(find_option(opts, &def.name)) {
                Ok(v) => {
                    values.push(v);
                    assert(values.deep_view() =~= before.push(v@));
                },
                Err(source) => {
                    proof {
                        lemma_failure_persists(self@, opts.deep_view(), i + 1);
                    }
                    return Err(CmdFromInteractionError::Arg { source, name: def.name.clone() });
                },
            }
            i = i + 1;
        }
        assert(self@.take(i as int) == self@);
        Ok(values)
    }
}

/// A command: the name it is invoked by, how it is described, its dispatch
/// kind and the arguments it declares.
#[derive(Debug, Clone, PartialEq, Eq)]
pub struct SlashCmd {
    pub name: String,
    pub description: String,
    pub kind: SlashCmdType,
    pub args: SlashArgs,
}

/// What a `SlashCmd` holds, as mathematical values.
pub struct SlashCmdView {
    pub name: Seq<char>,
    pub description: Seq<char>,
    pub kind: SlashCmdType,
    pub args: Seq<SlashArgDefView>,
}

impl SlashCmdView {
    /// The descriptor of the command: its own name, description and kind,
    /// and the descriptors of its arguments in their order.
    pub open spec fn meta(self) -> SlashCmdMetaView {
        SlashCmdMetaView {
            name: self.name,
            description: self.description,
            kind: self.kind,
            options: args_meta(self.args),
        }
    }
}

impl View for SlashCmd {
    type V = SlashCmdView;

    open spec fn view(&self) -> SlashCmdView {
        SlashCmdView {
            name: self.name@,
            description: self.description@,
            kind: self.kind,
            args: self.args@,
        }
    }
}

impl DeepView for SlashCmd {
    type V = SlashCmdView;

    open spec fn deep_view(&self) -> SlashCmdView {
        self@
    }
}

impl SlashCmd {
    /// The name that the command is invoked by.
    pub fn name(&self) -> (name: String)
        ensures
            name@ == self@.name,
    {
        self.name.clone()
    }

    /// The descriptor under which the command is registered.
    pub fn meta(&self) -> (meta: SlashCmdMeta)
        ensures
            meta@ == self@.meta(),
    {
        SlashCmdMeta {
            name: self.name.clone(),
            description: self.description.clone(),
            kind: self.kind,
            options: self.args.args_meta(),
        }
    }
}

} // verus!
