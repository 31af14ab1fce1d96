//! The options of an interaction as they are received.

use vstd::prelude::*;

verus! {

/// The wire-level kind that an option declares for its value.
#[derive(Debug, Clone, Copy, PartialEq, Eq, Structural, Hash)]
pub enum OptionKind {
    SubCommand,
    SubCommandGroup,
    String,
    Integer,
    Boolean,
    User,
    Channel,
    Role,
    Mentionable,
    Number,
    Attachment,
    Unknown,
}

impl OptionKind {
    /// The number that the platform registers for this kind.
    pub open spec fn spec_discriminant(self) -> u8 {
        match self {
            OptionKind::SubCommand => 1,
            OptionKind::SubCommandGroup => 2,
            OptionKind::String => 3,
            OptionKind::Integer => 4,
            OptionKind::Boolean => 5,
            OptionKind::User => 6,
            OptionKind::Channel => 7,
            OptionKind::Role => 8,
            OptionKind::Mentionable => 9,
            OptionKind::Number => 10,
            OptionKind::Attachment => 11,
            OptionKind::Unknown => 255,
        }
    }

    /// The number under which this kind is serialised for registration.
    #[verifier::when_used_as_spec(spec_discriminant)]
    pub fn discriminant(self) -> (n: u8)
        ensures
            n == self.spec_discriminant(),
    {
        match self {
            OptionKind::SubCommand => 1,
            OptionKind::SubCommandGroup => 2,
            OptionKind::String => 3,
            OptionKind::Integer => 4,
            OptionKind::Boolean => 5,
            OptionKind::User => 6,
            OptionKind::Channel => 7,
            OptionKind::Role => 8,
            OptionKind::Mentionable => 9,
            OptionKind::Number => 10,
            OptionKind::Attachment => 11,
            OptionKind::Unknown => 255,
        }
    }
}

/// One received option: its name, the kind it declares, and its payload.
#[derive(Debug, Clone, PartialEq, Eq)]
pub struct DataOption {
    pub name: String,
    pub kind: OptionKind,
    pub value: Option<serde_json::Value>,
}

/// What a `DataOption` holds, as mathematical values.
pub struct DataOptionView {
    pub name: Seq<char>,
    pub kind: OptionKind,
    pub value: Option<serde_json::Value>,
}

impl View for DataOption {
    type V = DataOptionView;

    open spec fn view(&self) -> DataOptionView {
        DataOptionView { name: self.name@, kind: self.kind, value: self.value }
    }
}

impl DeepView for DataOption {
    type V = DataOptionView;

    open spec fn deep_view(&self) -> DataOptionView {
        self@
    }
}

/// A command as it was invoked: the name given and the options sent with it.
#[derive(Debug, Clone, PartialEq, Eq)]
pub struct CommandInteraction {
    pub name: String,
    pub options: Vec<DataOption>,
}

/// What a `CommandInteraction` holds, as mathematical values.
pub struct CommandInteractionView {
    pub name: Seq<char>,
    pub options: Seq<DataOptionView>,
}

impl View for CommandInteraction {
    type V = CommandInteractionView;

    open spec fn view(&self) -> CommandInteractionView {
        CommandInteractionView { name: self.name@, options: self.options.deep_view() }
    }
}

/// A component as it was activated: the custom id it carries.
#[derive(Debug, Clone, PartialEq, Eq)]
pub struct ComponentInteraction {
    pub custom_id: String,
}

impl View for ComponentInteraction {
    type V = Seq<char>;

    open spec fn view(&self) -> Seq<char> {
        self.custom_id@
    }
}

/// The last option of `options` that is named `name`, if there is one.
pub open spec fn lookup(options: Seq<DataOptionView>, name: Seq<char>) -> Option<DataOptionView>
    decreases options.len(),
{
    if options.len() == 0 {
        None
    } else if options.last().name == name {
        Some(options.last())
    } else {
        lookup(options.drop_last(), name)
    }
}

/// Where a name is repeated the last option of that name wins: `lookup`
/// finds an option of the name that no option of the name follows, and finds
/// nothing only where no option bears the name.
pub proof fn lookup_is_last_of_name(options: Seq<DataOptionView>, name: Seq<char>)
    ensures
        match lookup(options, name) {
            Some(found) => exists|i: int|
                {
                    &&& 0 <= i < options.len()
                    &&& #[trigger] options[i] == found
                    &&& found.name == name
                    &&& forall|j: int| i < j < options.len() ==> (#[trigger] options[j]).name != name
                },
            None => forall|i: int| 0 <= i < options.len() ==> (#[trigger] options[i]).name != name,
        },
    decreases options.len(),
{
    if options.len() > 0 {
        let last = options.len() - 1;
        let front = options.drop_last();
        if options.last().name == name {
            assert(options[last] == options.last());
        } else {
            lookup_is_last_of_name(front, name);
            match lookup(front, name) {
                Some(found) => {
                    let i = choose|i: int|
                        {
                            &&& 0 <= i < front.len()
                            &&& #[trigger] front[i] == found
                            &&& found.name == name
                            &&& forall|j: int|
                                i < j < front.len() ==> (#[trigger] front[j]).name != name
                        };
                    assert(options[i] == found);
                    assert forall|j: int| i < j < options.len() implies (#[trigger] options[j]).name
                        != name by {
                        if j < last {
                            assert(front[j] == options[j]);
                        }
                    }
                },
                None => {
                    assert forall|i: int| 0 <= i < options.len() implies (#[trigger] options[i]).name
                        != name by {
                        if i < last {
                            assert(front[i] == options[i]);
                        }
                    }
                },
            }
        }
    }
}

/// Finds the option named `name`. Where transport repeats a name, the last
/// option of that name wins.
pub fn find_option<'a>(options: &'a [DataOption], name: &String) -> (found: Option<&'a DataOption>)
    ensures
        found.deep_view() == lookup(options.deep_view(), name@),
{
    let mut found: Option<&'a DataOption> = None;
    let mut i: usize = 0;
    while i < options.len()
        invariant
            i <= options.len(),
            found.deep_view() == lookup(options.deep_view().take(i as int), name@),
        decreases options.len() - i,
    {
        let ghost seen = options.deep_view().take(i as int);
        let ghost next = options.deep_view().take(i + 1);
        assert(next.drop_last() == seen);
        assert(next.last() == options[i as int]@);
        if options[i].name == *name {
            found = Some(&options[i]);
        }
        i = i + 1;
    }
    assert(options.deep_view().take(i as int) == options.deep_view());
    found
}

} // verus!
