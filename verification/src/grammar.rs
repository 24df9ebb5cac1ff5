//! The argument grammar: which flags and sub-commands exist.
//!
//! The grammar is plain data. It is what the parser is built from, what the
//! help text is made from, and where the validator takes from which flags
//! are required and how they are written; nothing else says which flags
//! exist.

use crate::text::str_eq;
use vstd::prelude::*;
use vstd::string::*;

verus! {

/// A flag that takes one value, such as `--ris4 <FILE>`.
#[derive(Debug, Clone, Copy, PartialEq, Eq)]
pub struct Flag {
    /// The name under which the value is found after parsing.
    pub name: &'static str,
    /// The short form, written after one hyphen.
    pub short: char,
    /// The long form, written after two hyphens.
    pub long: &'static str,
    /// The placeholder for the value in the help text.
    pub value_name: &'static str,
    /// The help text.
    pub help: &'static str,
    /// Whether a command line without the flag is refused. The validator
    /// refuses it; the parser is told of no required flag.
    pub required: bool,
}

/// A [`Flag`] with its texts as character sequences.
pub struct FlagView {
    pub name: Seq<char>,
    pub short: char,
    pub long: Seq<char>,
    pub value_name: Seq<char>,
    pub help: Seq<char>,
    pub required: bool,
}

impl FlagView {
    /// The short and the long form are written without their hyphens.
    pub open spec fn wf(self) -> bool {
        &&& self.short != '-'
        &&& self.long.len() > 0 ==> self.long[0] != '-'
    }

    /// No name, short form or long form is shared with `other`.
    pub open spec fn apart_from(self, other: FlagView) -> bool {
        &&& self.name != other.name
        &&& self.short != other.short
        &&& self.long != other.long
    }

    /// The same flag, not required.
    pub open spec fn optional(self) -> FlagView {
        FlagView { required: false, ..self }
    }
}

impl View for Flag {
    type V = FlagView;

    open spec fn view(&self) -> FlagView {
        FlagView {
            name: self.name@,
            short: self.short,
            long: self.long@,
            value_name: self.value_name@,
            help: self.help@,
            required: self.required,
        }
    }
}

/// The views of a list of flags, in order.
pub open spec fn flags_view(flags: Seq<Flag>) -> Seq<FlagView> {
    flags.map_values(|flag: Flag| flag@)
}

/// The same flags, none of them required.
pub open spec fn all_optional(flags: Seq<FlagView>) -> Seq<FlagView> {
    flags.map_values(|flag: FlagView| flag.optional())
}

/// Every flag is well formed and any two of them are apart.
pub open spec fn flags_wf(flags: Seq<FlagView>) -> bool {
    &&& forall|i: int| 0 <= i < flags.len() ==> (#[trigger] flags[i]).wf()
    &&& forall|i: int, j: int|
        0 <= i < j < flags.len() ==> (#[trigger] flags[i]).apart_from(#[trigger] flags[j])
}

/// A command as the parser sees it: the program itself or one of its
/// sub-commands.
pub struct CommandView {
    pub name: Seq<char>,
    pub version: Option<Seq<char>>,
    pub about: Option<Seq<char>>,
    /// Whether an argument vector starts with the first argument rather than
    /// with the name of the program.
    pub no_binary_name: bool,
    /// Whether there is no `--version`, here and in the sub-commands.
    pub no_version_flag: bool,
    pub flags: Seq<FlagView>,
    pub subcommands: Seq<CommandView>,
}

impl CommandView {
    /// A command of that name about which nothing else has been said.
    pub open spec fn named(name: Seq<char>) -> CommandView {
        CommandView {
            name,
            version: None,
            about: None,
            no_binary_name: false,
            no_version_flag: false,
            flags: Seq::empty(),
            subcommands: Seq::empty(),
        }
    }

    /// The same command with none of its own flags required.
    pub open spec fn with_optional_flags(self) -> CommandView {
        CommandView { flags: all_optional(self.flags), ..self }
    }

    /// The command as it is handed to the parser: the same command with no
    /// flag required, neither of its own nor of a sub-command. The parser
    /// matches; what is required is asked for after it, by the validator.
    pub open spec fn relaxed(self) -> CommandView {
        CommandView {
            flags: all_optional(self.flags),
            subcommands: self.subcommands.map_values(
                |subcommand: CommandView| subcommand.with_optional_flags(),
            ),
            ..self
        }
    }

    /// The flags of the command, and those of each of its sub-commands, are
    /// well formed.
    pub open spec fn wf(self) -> bool {
        &&& flags_wf(self.flags)
        &&& forall|i: int|
            0 <= i < self.subcommands.len() ==> flags_wf((#[trigger] self.subcommands[i]).flags)
    }
}

/// A sub-command with its own flags.
#[derive(Debug, Clone, PartialEq, Eq)]
pub struct Subcommand {
    /// The word that selects the sub-command.
    pub name: &'static str,
    /// What the sub-command does, for the help text.
    pub about: &'static str,
    /// The flags that may follow the sub-command's name.
    pub flags: Vec<Flag>,
}

impl View for Subcommand {
    type V = CommandView;

    open spec fn view(&self) -> CommandView {
        CommandView {
            name: self.name@,
            version: None,
            about: Some(self.about@),
            no_binary_name: false,
            no_version_flag: false,
            flags: flags_view(self.flags@),
            subcommands: Seq::empty(),
        }
    }
}

/// The views of a list of sub-commands, in order.
pub open spec fn subcommands_view(subcommands: Seq<Subcommand>) -> Seq<CommandView> {
    subcommands.map_values(|subcommand: Subcommand| subcommand@)
}

/// The whole flag surface of a program.
#[derive(Debug, Clone, PartialEq, Eq)]
pub struct Grammar {
    /// The name of the program, for the help text.
    pub name: &'static str,
    /// The version, for the help text and `--version`.
    pub version: &'static str,
    /// What the program does, for the help text.
    pub about: &'static str,
    /// Whether an argument vector starts with the first argument rather than
    /// with the name of the program.
    pub no_binary_name: bool,
    /// Whether there is no `--version`, here and in the sub-commands. The
    /// version is shown at the head of the help text either way.
    pub no_version_flag: bool,
    /// The flags that precede the sub-command's name.
    pub flags: Vec<Flag>,
    /// The sub-commands.
    pub subcommands: Vec<Subcommand>,
}

impl View for Grammar {
    type V = CommandView;

    open spec fn view(&self) -> CommandView {
        CommandView {
            name: self.name@,
            version: Some(self.version@),
            about: Some(self.about@),
            no_binary_name: self.no_binary_name,
            no_version_flag: self.no_version_flag,
            flags: flags_view(self.flags@),
            subcommands: subcommands_view(self.subcommands@),
        }
    }
}

/// A flag of the grammar below, by its parts.
pub open spec fn flag_view(
    name: Seq<char>,
    short: char,
    value_name: Seq<char>,
    help: Seq<char>,
    required: bool,
) -> FlagView {
    FlagView { name, short, long: name, value_name, help, required }
}

/// The three flags that every invocation must give.
pub open spec fn global_flags() -> Seq<FlagView> {
    seq![
        flag_view("ris4"@, '4', "FILE"@, "RIS dump v4."@, true),
        flag_view("ris6"@, '6', "FILE"@, "RIS dump v6."@, true),
        flag_view("vrps"@, 'v', "FILE"@, "Validated ROAs Payloads CSV file."@, true),
    ]
}

/// The flags of the sub-command `world`.
pub open spec fn world_flags() -> Seq<FlagView> {
    seq![
        flag_view(
            "stats"@,
            's',
            "FILE"@,
            "Delegation stats (NRO extended delegated stats format)."@,
            true,
        ),
        flag_view(
            "format"@,
            'f',
            "json | html | text"@,
            "Specify output format, defaults to json"@,
            false,
        ),
    ]
}

/// The flags of the sub-command `resources`.
pub open spec fn resources_flags() -> Seq<FlagView> {
    seq![
        flag_view(
            "ips"@,
            'i',
            "comma separated prefixes/ranges"@,
            "Optional scope for invalid report. Default: all"@,
            false,
        ),
        flag_view(
            "asns"@,
            'a',
            "comma separated ASNs / ASN ranges"@,
            "Optional scope for invalid report. Default: all"@,
            false,
        ),
        flag_view(
            "format"@,
            'f',
            "json | text"@,
            "Specify output format, defaults to json"@,
            false,
        ),
    ]
}

/// The sub-command `world`.
pub open spec fn world_command() -> CommandView {
    CommandView {
        about: Some("Report ROA quality on a per country basis"@),
        flags: world_flags(),
        ..CommandView::named("world"@)
    }
}

/// The sub-command `resources`.
pub open spec fn resources_command() -> CommandView {
    CommandView {
        about: Some("Report ROA quality on a resource basis"@),
        flags: resources_flags(),
        ..CommandView::named("resources"@)
    }
}

/// The grammar of this program: three required global flags, then one of the
/// sub-commands `world` and `resources` with its own flags. Argument vectors
/// do not hold the program's name, and there is no `--version`.
pub open spec fn cli_view() -> CommandView {
    CommandView {
        version: Some("0.1b"@),
        about: Some("Analyse ROA quality vs BGP"@),
        no_binary_name: true,
        no_version_flag: true,
        flags: global_flags(),
        subcommands: seq![world_command(), resources_command()],
        ..CommandView::named("NLnet Labs RRDP Server"@)
    }
}

/// The grammar of this program is well formed.
pub proof fn lemma_cli_wf()
    ensures
        cli_view().wf(),
{
    reveal_strlit("ris4");
    reveal_strlit("ris6");
    reveal_strlit("vrps");
    reveal_strlit("stats");
    reveal_strlit("format");
    reveal_strlit("ips");
    reveal_strlit("asns");
    assert(flags_wf(global_flags())) by {
        assert("ris4"@[3] != "ris6"@[3]);
        assert("ris4"@[0] != "vrps"@[0]);
        assert("ris6"@[0] != "vrps"@[0]);
    }
    assert(flags_wf(world_flags())) by {
        assert("stats"@[0] != "format"@[0]);
    }
    assert(flags_wf(resources_flags())) by {
        assert("ips"@[0] != "asns"@[0]);
        assert("ips"@[0] != "format"@[0]);
        assert("asns"@[0] != "format"@[0]);
    }
}

/// Whether every flag is well formed and any two of them are apart.
fn flags_well_formed(flags: &Vec<Flag>) -> (ok: bool)
    ensures
        ok == flags_wf(flags_view(flags@)),
{
    let ghost all = flags_view(flags@);
    let mut i: usize = 0;
    while i < flags.len()
        invariant
            i <= flags.len(),
            all == flags_view(flags@),
            forall|k: int| 0 <= k < i ==> (#[trigger] all[k]).wf(),
            forall|a: int, b: int|
                0 <= a < b < i ==> (#[trigger] all[a]).apart_from(#[trigger] all[b]),
        decreases flags.len() - i,
    {
        assert(all[i as int] == flags[i as int]@);
        if !flags[i].is_well_formed() {
            return false;
        }
        let mut j: usize = 0;
        while j < i
            invariant
                j <= i,
                i < flags.len(),
                all == flags_view(flags@),
                forall|a: int| 0 <= a < j ==> (#[trigger] all[a]).apart_from(all[i as int]),
            decreases i - j,
        {
            assert(all[j as int] == flags[j as int]@);
            assert(all[i as int] == flags[i as int]@);
            if !flags[j].is_apart_from(&flags[i]) {
                return false;
            }
            j += 1;
        }
        i += 1;
    }
    true
}

impl Flag {
    /// Whether the short and the long form are written without their
    /// hyphens.
    pub fn is_well_formed(&self) -> (ok: bool)
        ensures
            ok == self@.wf(),
    {
        self.short != '-' && (self.long.unicode_len() == 0 || self.long.get_char(0) != '-')
    }

    /// Whether no name, short form or long form is shared with `other`.
    pub fn is_apart_from(&self, other: &Flag) -> (ok: bool)
        ensures
            ok == self@.apart_from(other@),
    {
        !str_eq(self.name, other.name) && self.short != other.short && !str_eq(
            self.long,
            other.long,
        )
    }

    /// The same flag, not required.
    pub fn optional(&self) -> (flag: Flag)
        ensures
            flag@ == self@.optional(),
    {
        Flag {
            name: self.name,
            short: self.short,
            long: self.long,
            value_name: self.value_name,
            help: self.help,
            required: false,
        }
    }

    /// A flag whose long form is its name.
    pub fn new(
        name: &'static str,
        short: char,
        value_name: &'static str,
        help: &'static str,
        required: bool,
    ) -> (flag: Flag)
        ensures
            flag@ == flag_view(name@, short, value_name@, help@, required),
    {
        Flag { name, short, long: name, value_name, help, required }
    }
}

impl Grammar {
    /// Whether the grammar is well formed: whether a parser can be built
    /// from it.
    pub fn is_well_formed(&self) -> (ok: bool)
        ensures
            ok == self@.wf(),
    {
        if !flags_well_formed(&self.flags) {
            return false;
        }
        let ghost all = subcommands_view(self.subcommands@);
        let mut i: usize = 0;
        while i < self.subcommands.len()
            invariant
                i <= self.subcommands.len(),
                all == subcommands_view(self.subcommands@),
                forall|k: int| 0 <= k < i ==> flags_wf((#[trigger] all[k]).flags),
            decreases self.subcommands.len() - i,
        {
            assert(all[i as int] == self.subcommands[i as int]@);
            if !flags_well_formed(&self.subcommands[i].flags) {
                return false;
            }
            i += 1;
        }
        true
    }

    /// The grammar of this program.
    pub fn cli() -> (grammar: Grammar)
        ensures
            grammar@ == cli_view(),
            grammar@.wf(),
    {
        let mut flags: Vec<Flag> = Vec::new();
        flags.push(Flag::new("ris4", '4', "FILE", "RIS dump v4.", true));
        flags.push(Flag::new("ris6", '6', "FILE", "RIS dump v6.", true));
        flags.push(Flag::new("vrps", 'v', "FILE", "Validated ROAs Payloads CSV file.", true));

        let mut world: Vec<Flag> = Vec::new();
        world.push(
            Flag::new(
                "stats",
                's',
                "FILE",
                "Delegation stats (NRO extended delegated stats format).",
                true,
            ),
        );
        world.push(
            Flag::new(
                "format",
                'f',
                "json | html | text",
                "Specify output format, defaults to json",
                false,
            ),
        );

        let mut resources: Vec<Flag> = Vec::new();
        resources.push(
            Flag::new(
                "ips",
                'i',
                "comma separated prefixes/ranges",
                "Optional scope for invalid report. Default: all",
                false,
            ),
        );
        resources.push(
            Flag::new(
                "asns",
                'a',
                "comma separated ASNs / ASN ranges",
                "Optional scope for invalid report. Default: all",
                false,
            ),
        );
        resources.push(
            Flag::new(
                "format",
                'f',
                "json | text",
                "Specify output format, defaults to json",
                false,
            ),
        );

        let mut subcommands: Vec<Subcommand> = Vec::new();
        subcommands.push(
            Subcommand {
                name: "world",
                about: "Report ROA quality on a per country basis",
                flags: world,
            },
        );
        subcommands.push(
            Subcommand {
                name: "resources",
                about: "Report ROA quality on a resource basis",
                flags: resources,
            },
        );

        let grammar = Grammar {
            name: "NLnet Labs RRDP Server",
            version: "0.1b",
            about: "Analyse ROA quality vs BGP",
            no_binary_name: true,
            no_version_flag: true,
            flags,
            subcommands,
        };
        proof {
            assert(flags_view(grammar.flags@) =~= global_flags());
            assert(flags_view(grammar.subcommands@[0].flags@) =~= world_flags());
            assert(flags_view(grammar.subcommands@[1].flags@) =~= resources_flags());
            assert(subcommands_view(grammar.subcommands@) =~= seq![
                world_command(),
                resources_command(),
            ]);
            lemma_cli_wf();
        }
        grammar
    }
}

} // verus!
