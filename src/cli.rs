//! The command-line grammar of the tool.
//!
//! `envfetch <command> [options] [arguments] [-- process]`: each command
//! takes its own positional arguments, at most one boolean flag and at most
//! one option with a value; what follows the first `--` is the process to
//! run (or, for `export`, the names to export).
use vstd::prelude::*;
use crate::models::{
    AddArgs, Cli, Commands, DeleteArgs, ExportArgs, GetArgs, LoadArgs, PrintArgs, SetArgs,
};
use crate::state::opt_view;

verus! {

/// Why a command line was not accepted.
#[derive(Debug, Clone, Copy, PartialEq, Eq, Structural)]
pub enum CliError {
    /// No command was named.
    MissingCommand,
    /// The command is not one of the tool's.
    UnknownCommand,
    /// An option that the command does not take.
    UnknownOption,
    /// An option that takes a value came last.
    MissingValue,
    /// Fewer arguments than the command needs.
    MissingArgument,
    /// More arguments than the command takes.
    UnexpectedArgument,
    /// Neither `--global` nor a process after `--`.
    MissingProcess,
    /// `--help` or `-h` was given.
    HelpRequested,
    /// `--version` or `-V` was given in place of a command.
    VersionRequested,
}

/// A command with its arguments as character sequences.
pub enum CommandView {
    Interactive,
    Get { key: Seq<char>, no_similar_names: bool },
    SetVar { key: Seq<char>, value: Seq<char>, global: bool, process: Option<Seq<char>> },
    Add { key: Seq<char>, value: Seq<char>, global: bool, process: Option<Seq<char>> },
    Delete { key: Seq<char>, global: bool, process: Option<Seq<char>> },
    Load { global: bool, process: Option<Seq<char>>, file: Seq<char> },
    Print { format: Option<Seq<char>> },
    InitConfig,
    Export { file_name: Seq<char>, keys: Seq<Seq<char>> },
}

pub open spec fn strings_view(s: Seq<String>) -> Seq<Seq<char>> {
    s.map_values(|t: String| t@)
}

pub open spec fn args_view(a: Seq<&str>) -> Seq<Seq<char>> {
    a.map_values(|t: &str| t@)
}

impl View for Commands {
    type V = CommandView;

    open spec fn view(&self) -> CommandView {
        match *self {
            Commands::Interactive => CommandView::Interactive,
            Commands::Get(a) => CommandView::Get { key: a.key@, no_similar_names: a.no_similar_names },
            Commands::SetVar(a) => CommandView::SetVar {
                key: a.key@,
                value: a.value@,
                global: a.global,
                process: opt_view(a.process),
            },
            Commands::Add(a) => CommandView::Add {
                key: a.key@,
                value: a.value@,
                global: a.global,
                process: opt_view(a.process),
            },
            Commands::Delete(a) => CommandView::Delete {
                key: a.key@,
                global: a.global,
                process: opt_view(a.process),
            },
            Commands::Load(a) => CommandView::Load {
                global: a.global,
                process: opt_view(a.process),
                file: a.file@,
            },
            Commands::Print(a) => CommandView::Print { format: opt_view(a.format) },
            Commands::InitConfig => CommandView::InitConfig,
            Commands::Export(a) => CommandView::Export {
                file_name: a.file_name@,
                keys: strings_view(a.keys@),
            },
        }
    }
}

/// The options that one command takes: a flag and an option with a value,
/// each by a long and a short name. An empty name stands for none.
pub struct OptionNames {
    pub flag_long: Seq<char>,
    pub flag_short: Seq<char>,
    pub value_long: Seq<char>,
    pub value_short: Seq<char>,
}

/// What the options part of a command line held.
pub struct Scanned {
    pub flag: bool,
    pub value: Option<Seq<char>>,
    pub positionals: Seq<Seq<char>>,
}

pub open spec fn is_help(t: Seq<char>) -> bool {
    t == "--help"@ || t == "-h"@
}

/// `t` is the option known by `long` or by `short`.
pub open spec fn names(t: Seq<char>, long: Seq<char>, short: Seq<char>) -> bool {
    (long.len() > 0 && t == long) || (short.len() > 0 && t == short)
}

/// `t` has the shape of an option: a dash and at least one more character.
pub open spec fn option_like(t: Seq<char>) -> bool {
    t.len() > 1 && t[0] == '-'
}

/// Reads the options part `ts` from left to right into `acc`. A flag sets
/// `flag`; an option with a value takes the next word (the last one given
/// wins); any other word shaped like an option is refused; the rest are
/// positional arguments, in order.
pub open spec fn scan(ts: Seq<Seq<char>>, o: OptionNames, acc: Scanned) -> Result<
    Scanned,
    CliError,
>
    decreases ts.len(),
{
    if ts.len() == 0 {
        Ok(acc)
    } else {
        let t = ts[0];
        if is_help(t) {
            Err(CliError::HelpRequested)
        } else if names(t, o.flag_long, o.flag_short) {
            scan(ts.drop_first(), o, Scanned { flag: true, ..acc })
        } else if names(t, o.value_long, o.value_short) {
            if ts.len() < 2 {
                Err(CliError::MissingValue)
            } else {
                scan(ts.subrange(2, ts.len() as int), o, Scanned { value: Some(ts[1]), ..acc })
            }
        } else if option_like(t) {
            Err(CliError::UnknownOption)
        } else {
            scan(ts.drop_first(), o, Scanned { positionals: acc.positionals.push(t), ..acc })
        }
    }
}

pub open spec fn no_options() -> Scanned {
    Scanned { flag: false, value: None, positionals: Seq::empty() }
}

/// The index of the first `--` in `s`, or its length where there is none.
pub open spec fn first_dashes(s: Seq<Seq<char>>) -> nat
    decreases s.len(),
{
    if s.len() == 0 {
        0
    } else if s[0] == "--"@ {
        0
    } else {
        1 + first_dashes(s.drop_first())
    }
}

/// Exactly `n` positional arguments.
pub open spec fn arity(p: Seq<Seq<char>>, n: nat) -> Result<(), CliError> {
    if p.len() < n {
        Err(CliError::MissingArgument)
    } else if p.len() > n {
        Err(CliError::UnexpectedArgument)
    } else {
        Ok(())
    }
}

/// The process given after `--`: none, or exactly one word.
pub open spec fn process_of(trail: Seq<Seq<char>>, global: bool) -> Result<
    Option<Seq<char>>,
    CliError,
> {
    if trail.len() > 1 {
        Err(CliError::UnexpectedArgument)
    } else if trail.len() == 0 && !global {
        Err(CliError::MissingProcess)
    } else if trail.len() == 0 {
        Ok(None)
    } else {
        Ok(Some(trail[0]))
    }
}

pub open spec fn global_names() -> OptionNames {
    OptionNames {
        flag_long: "--global"@,
        flag_short: "-g"@,
        value_long: Seq::empty(),
        value_short: Seq::empty(),
    }
}

pub open spec fn empty_names() -> OptionNames {
    OptionNames {
        flag_long: Seq::empty(),
        flag_short: Seq::empty(),
        value_long: Seq::empty(),
        value_short: Seq::empty(),
    }
}

/// The options of each command, by the command's name.
pub open spec fn options_of(name: Seq<char>) -> OptionNames {
    if name == "get"@ {
        OptionNames {
            flag_long: "--no-similar-names"@,
            flag_short: "-s"@,
            value_long: Seq::empty(),
            value_short: Seq::empty(),
        }
    } else if name == "set"@ || name == "add"@ || name == "delete"@ {
        global_names()
    } else if name == "load"@ {
        OptionNames {
            flag_long: "--global"@,
            flag_short: "-g"@,
            value_long: "--file"@,
            value_short: "-f"@,
        }
    } else if name == "print"@ {
        OptionNames {
            flag_long: Seq::empty(),
            flag_short: Seq::empty(),
            value_long: "--format"@,
            value_short: "-f"@,
        }
    } else {
        empty_names()
    }
}

/// A command that takes `n` positional arguments and nothing after `--`.
pub open spec fn plain_command(s: Scanned, trail: Seq<Seq<char>>, n: nat) -> Result<(), CliError> {
    if arity(s.positionals, n) is Err {
        arity(s.positionals, n)
    } else if trail.len() > 0 {
        Err(CliError::UnexpectedArgument)
    } else {
        Ok(())
    }
}

/// The command that a command line names, once its options are read.
pub open spec fn command_of(name: Seq<char>, s: Scanned, trail: Seq<Seq<char>>) -> Result<
    CommandView,
    CliError,
> {
    let p = s.positionals;
    if name == "interactive"@ {
        match plain_command(s, trail, 0) {
            Ok(_) => Ok(CommandView::Interactive),
            Err(e) => Err(e),
        }
    } else if name == "init-config"@ {
        match plain_command(s, trail, 0) {
            Ok(_) => Ok(CommandView::InitConfig),
            Err(e) => Err(e),
        }
    } else if name == "get"@ {
        match plain_command(s, trail, 1) {
            Ok(_) => Ok(CommandView::Get { key: p[0], no_similar_names: s.flag }),
            Err(e) => Err(e),
        }
    } else if name == "print"@ {
        match plain_command(s, trail, 0) {
            Ok(_) => Ok(CommandView::Print { format: s.value }),
            Err(e) => Err(e),
        }
    } else if name == "set"@ || name == "add"@ {
        match arity(p, 2) {
            Err(e) => Err(e),
            Ok(_) => match process_of(trail, s.flag) {
                Err(e) => Err(e),
                Ok(process) => if name == "set"@ {
                    Ok(CommandView::SetVar { key: p[0], value: p[1], global: s.flag, process })
                } else {
                    Ok(CommandView::Add { key: p[0], value: p[1], global: s.flag, process })
                },
            },
        }
    } else if name == "delete"@ {
        match arity(p, 1) {
            Err(e) => Err(e),
            Ok(_) => match process_of(trail, s.flag) {
                Err(e) => Err(e),
                Ok(process) => Ok(CommandView::Delete { key: p[0], global: s.flag, process }),
            },
        }
    } else if name == "load"@ {
        match arity(p, 0) {
            Err(e) => Err(e),
            Ok(_) => match process_of(trail, s.flag) {
                Err(e) => Err(e),
                Ok(process) => Ok(
                    CommandView::Load {
                        global: s.flag,
                        process,
                        file: match s.value {
                            Some(f) => f,
                            None => ".env"@,
                        },
                    },
                ),
            },
        }
    } else if name == "export"@ {
        match arity(p, 1) {
            Err(e) => Err(e),
            Ok(_) => if trail.len() == 0 {
                Err(CliError::MissingArgument)
            } else {
                Ok(CommandView::Export { file_name: p[0], keys: trail })
            },
        }
    } else {
        Err(CliError::UnknownCommand)
    }
}

/// What a whole command line (the program's name first) means.
pub open spec fn parse_spec(args: Seq<Seq<char>>) -> Result<CommandView, CliError> {
    if args.len() < 2 {
        Err(CliError::MissingCommand)
    } else {
        let name = args[1];
        let rest = args.subrange(2, args.len() as int);
        let d = first_dashes(rest);
        let before = rest.subrange(0, d as int);
        let trail = if d < rest.len() {
            rest.subrange((d + 1) as int, rest.len() as int)
        } else {
            Seq::empty()
        };
        if is_help(name) {
            Err(CliError::HelpRequested)
        } else if name == "--version"@ || name == "-V"@ {
            Err(CliError::VersionRequested)
        } else {
            match scan(before, options_of(name), no_options()) {
                Err(e) => Err(e),
                Ok(s) => command_of(name, s, trail),
            }
        }
    }
}

/// Whether two texts hold the same characters.
fn same_text(a: &str, b: &str) -> (r: bool)
    ensures
        r == (a@ == b@),
{
    let n = a.unicode_len();
    let m = b.unicode_len();
    if n != m {
        return false;
    }
    let mut i: usize = 0;
    while i < n
        invariant
            n == a@.len(),
            m == b@.len(),
            n == m,
            i <= n,
            forall|j: int| 0 <= j < i ==> a@[j] == b@[j],
        decreases n - i,
    {
        if a.get_char(i) != b.get_char(i) {
            return false;
        }
        i = i + 1;
    }
    assert(a@ =~= b@);
    true
}

/// `t` is the option known by `long` or by `short`.
fn is_named(t: &str, long: &str, short: &str) -> (r: bool)
    ensures
        r == names(t@, long@, short@),
{
    (long.unicode_len() > 0 && same_text(t, long)) || (short.unicode_len() > 0 && same_text(
        t,
        short,
    ))
}

/// The options part of a command line, read.
struct ScanOut {
    flag: bool,
    value: Option<String>,
    positionals: Vec<String>,
}

spec fn scanned_view(s: ScanOut) -> Scanned {
    Scanned { flag: s.flag, value: opt_view(s.value), positionals: strings_view(s.positionals@) }
}

/// The option names of the command `name`.
fn option_names(name: &str) -> (r: (&'static str, &'static str, &'static str, &'static str))
    ensures
        (OptionNames {
            flag_long: r.0@,
            flag_short: r.1@,
            value_long: r.2@,
            value_short: r.3@,
        }) == options_of(name@),
{
    proof {
        reveal_strlit("");
        assert(""@ =~= Seq::<char>::empty());
    }
    if same_text(name, "get") {
        ("--no-similar-names", "-s", "", "")
    } else if same_text(name, "set") || same_text(name, "add") || same_text(name, "delete") {
        ("--global", "-g", "", "")
    } else if same_text(name, "load") {
        ("--global", "-g", "--file", "-f")
    } else if same_text(name, "print") {
        ("", "", "--format", "-f")
    } else {
        ("", "", "", "")
    }
}

/// Reads the words `args[start..end]` as the options part of a command line.
fn scan_words(
    args: &[&str],
    start: usize,
    end: usize,
    names_of: (&str, &str, &str, &str),
) -> (r: Result<ScanOut, CliError>)
    requires
        start <= end <= args@.len(),
    ensures
        ({
            let o = OptionNames {
                flag_long: names_of.0@,
                flag_short: names_of.1@,
                value_long: names_of.2@,
                value_short: names_of.3@,
            };
            let sp = scan(args_view(args@).subrange(start as int, end as int), o, no_options());
            match r {
                Ok(s) => sp == Result::<Scanned, CliError>::Ok(scanned_view(s)),
                Err(e) => sp == Result::<Scanned, CliError>::Err(e),
            }
        }),
{
    let ghost o = OptionNames {
        flag_long: names_of.0@,
        flag_short: names_of.1@,
        value_long: names_of.2@,
        value_short: names_of.3@,
    };
    let ghost ts = args_view(args@);
    let mut flag = false;
    let mut value: Option<String> = None;
    let mut pos: Vec<String> = Vec::new();
    let mut i: usize = start;
    assert(strings_view(pos@) =~= Seq::<Seq<char>>::empty());
    while i < end
        invariant
            start <= i <= end,
            end <= args@.len(),
            ts == args_view(args@),
            o == (OptionNames {
                flag_long: names_of.0@,
                flag_short: names_of.1@,
                value_long: names_of.2@,
                value_short: names_of.3@,
            }),
            scan(ts.subrange(start as int, end as int), o, no_options()) == scan(
                ts.subrange(i as int, end as int),
                o,
                Scanned { flag, value: opt_view(value), positionals: strings_view(pos@) },
            ),
        decreases end - i,
    {
        let t = args[i];
        let ghost here = ts.subrange(i as int, end as int);
        assert(here[0] == t@);
        assert(here.drop_first() =~= ts.subrange(i + 1, end as int));
        if same_text(t, "--help") || same_text(t, "-h") {
            return Err(CliError::HelpRequested);
        }
        if is_named(t, names_of.0, names_of.1) {
            flag = true;
            i = i + 1;
        } else if is_named(t, names_of.2, names_of.3) {
            if i + 1 >= end {
                return Err(CliError::MissingValue);
            }
            assert(here[1] == args@[i + 1]@);
            assert(here.subrange(2, here.len() as int) =~= ts.subrange(i + 2, end as int));
            value = Some(String::from_str(args[i + 1]));
            i = i + 2;
        } else if t.unicode_len() > 1 && t.get_char(0) == '-' {
            return Err(CliError::UnknownOption);
        } else {
            let ghost before = pos@;
            pos.push(String::from_str(t));
            assert(strings_view(pos@) =~= strings_view(before).push(t@));
            i = i + 1;
        }
    }
    Ok(ScanOut { flag, value, positionals: pos })
}

/// The index of the first `--` in `args[start..]`, or the length of `args`.
fn find_dashes(args: &[&str], start: usize) -> (d: usize)
    requires
        start <= args@.len(),
    ensures
        start <= d <= args@.len(),
        d - start == first_dashes(args_view(args@).subrange(start as int, args@.len() as int)),
{
    let n = args.len();
    let ghost ts = args_view(args@);
    let mut i: usize = start;
    while i < n && !same_text(args[i], "--")
        invariant
            start <= i <= n,
            n == args@.len(),
            ts == args_view(args@),
            first_dashes(ts.subrange(start as int, n as int)) == (i - start) + first_dashes(
                ts.subrange(i as int, n as int),
            ),
        decreases n - i,
    {
        assert(ts.subrange(i as int, n as int).drop_first() =~= ts.subrange(i + 1, n as int));
        i = i + 1;
    }
    i
}

/// The words `args[from..to]`, as strings.
fn words(args: &[&str], from: usize, to: usize) -> (r: Vec<String>)
    requires
        from <= to <= args@.len(),
    ensures
        strings_view(r@) == args_view(args@).subrange(from as int, to as int),
{
    let mut out: Vec<String> = Vec::new();
    let mut i: usize = from;
    while i < to
        invariant
            from <= i <= to,
            to <= args@.len(),
            strings_view(out@) == args_view(args@).subrange(from as int, i as int),
        decreases to - i,
    {
        let ghost before = out@;
        out.push(String::from_str(args[i]));
        assert(strings_view(out@) =~= strings_view(before).push(args@[i as int]@));
        assert(strings_view(out@) =~= args_view(args@).subrange(from as int, i + 1));
        i = i + 1;
    }
    out
}

/// Checks that `p` holds exactly `n` arguments.
fn check_arity(p: &Vec<String>, n: usize) -> (r: Result<(), CliError>)
    ensures
        r == arity(strings_view(p@), n as nat),
{
    if p.len() < n {
        Err(CliError::MissingArgument)
    } else if p.len() > n {
        Err(CliError::UnexpectedArgument)
    } else {
        Ok(())
    }
}

/// The process after `--`, from the words `args[from..]`.
fn process_after(args: &[&str], from: usize, global: bool) -> (r: Result<Option<String>, CliError>)
    requires
        from <= args@.len(),
    ensures
        ({
            let sp = process_of(args_view(args@).subrange(from as int, args@.len() as int), global);
            match r {
                Ok(p) => sp == Result::<Option<Seq<char>>, CliError>::Ok(opt_view(p)),
                Err(e) => sp == Result::<Option<Seq<char>>, CliError>::Err(e),
            }
        }),
{
    let n = args.len();
    if n - from > 1 {
        Err(CliError::UnexpectedArgument)
    } else if n == from && !global {
        Err(CliError::MissingProcess)
    } else if n == from {
        Ok(None)
    } else {
        Ok(Some(String::from_str(args[from])))
    }
}

/// Parses a command line, the program's name first.
pub fn parse_command(args: &[&str]) -> (r: Result<Commands, CliError>)
    ensures
        match r {
            Ok(c) => parse_spec(args_view(args@)) == Result::<CommandView, CliError>::Ok(c@),
            Err(e) => parse_spec(args_view(args@)) == Result::<CommandView, CliError>::Err(e),
        },
{
    let n = args.len();
    if n < 2 {
        return Err(CliError::MissingCommand);
    }
    let ghost ts = args_view(args@);
    let ghost rest = ts.subrange(2, n as int);
    let name = args[1];
    let d = find_dashes(args, 2);
    let tstart = if d < n {
        d + 1
    } else {
        n
    };
    let ghost trail = if d < n {
        rest.subrange(d - 2 + 1, rest.len() as int)
    } else {
        Seq::empty()
    };
    assert(rest.subrange(0, d - 2) =~= ts.subrange(2, d as int));
    assert(trail =~= ts.subrange(tstart as int, n as int));
    if same_text(name, "--help") || same_text(name, "-h") {
        return Err(CliError::HelpRequested);
    }
    if same_text(name, "--version") || same_text(name, "-V") {
        return Err(CliError::VersionRequested);
    }
    let names_of = option_names(name);
    let s = match scan_words(args, 2, d, names_of) {
        Ok(s) => s,
        Err(e) => {
            return Err(e);
        },
    };
    build_command(name, s, args, tstart)
}

/// The command `name`, from its read options `s` and the words
/// `args[tstart..]` that followed `--`.
#[verifier::rlimit(40)]
fn build_command(name: &str, s: ScanOut, args: &[&str], tstart: usize) -> (r: Result<
    Commands,
    CliError,
>)
    requires
        tstart <= args@.len(),
    ensures
        ({
            let sp = command_of(
                name@,
                scanned_view(s),
                args_view(args@).subrange(tstart as int, args@.len() as int),
            );
            match r {
                Ok(c) => sp == Result::<CommandView, CliError>::Ok(c@),
                Err(e) => sp == Result::<CommandView, CliError>::Err(e),
            }
        }),
{
    let n = args.len();
    let no_trail = tstart == n;
    if same_text(name, "interactive") {
        plain_words(&s.positionals, 0, no_trail)?;
        Ok(Commands::Interactive)
    } else if same_text(name, "init-config") {
        plain_words(&s.positionals, 0, no_trail)?;
        Ok(Commands::InitConfig)
    } else if same_text(name, "get") {
        plain_words(&s.positionals, 1, no_trail)?;
        Ok(Commands::Get(GetArgs { key: s.positionals[0].clone(), no_similar_names: s.flag }))
    } else if same_text(name, "print") {
        plain_words(&s.positionals, 0, no_trail)?;
        Ok(Commands::Print(PrintArgs { format: s.value }))
    } else if same_text(name, "set") || same_text(name, "add") {
        check_arity(&s.positionals, 2)?;
        let process = process_after(args, tstart, s.flag)?;
        let key = s.positionals[0].clone();
        let value = s.positionals[1].clone();
        if same_text(name, "set") {
            Ok(Commands::SetVar(SetArgs { key, value, global: s.flag, process }))
        } else {
            Ok(Commands::Add(AddArgs { key, value, global: s.flag, process }))
        }
    } else if same_text(name, "delete") {
        check_arity(&s.positionals, 1)?;
        let process = process_after(args, tstart, s.flag)?;
        Ok(Commands::Delete(DeleteArgs { key: s.positionals[0].clone(), global: s.flag, process }))
    } else if same_text(name, "load") {
        check_arity(&s.positionals, 0)?;
        let process = process_after(args, tstart, s.flag)?;
        let file = match s.value {
            Some(f) => f,
            None => String::from_str(".env"),
        };
        Ok(Commands::Load(LoadArgs { global: s.flag, process, file }))
    } else if same_text(name, "export") {
        check_arity(&s.positionals, 1)?;
        if no_trail {
            return Err(CliError::MissingArgument);
        }
        let keys = words(args, tstart, n);
        Ok(Commands::Export(ExportArgs { file_name: s.positionals[0].clone(), keys }))
    } else {
        Err(CliError::UnknownCommand)
    }
}

/// Checks a command that takes `n` arguments and nothing after `--`.
fn plain_words(p: &Vec<String>, n: usize, no_trail: bool) -> (r: Result<(), CliError>)
    ensures
        forall|trail: Seq<Seq<char>>|
            (trail.len() == 0) == no_trail ==> r == plain_command(
                Scanned { flag: false, value: None, positionals: strings_view(p@) },
                trail,
                n as nat,
            ),
{
    check_arity(p, n)?;
    if !no_trail {
        return Err(CliError::UnexpectedArgument);
    }
    Ok(())
}

impl Cli {
    /// Parses a command line, the program's name first.
    pub fn parse_from(args: &[&str]) -> (r: Result<Cli, CliError>)
        ensures
            match r {
                Ok(c) => parse_spec(args_view(args@)) == Result::<CommandView, CliError>::Ok(c.command@),
                Err(e) => parse_spec(args_view(args@)) == Result::<CommandView, CliError>::Err(e),
            },
    {
        match parse_command(args) {
            Ok(command) => Ok(Cli { command }),
            Err(e) => Err(e),
        }
    }
}

} // verus!
