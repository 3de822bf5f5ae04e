//! The command line: its options, the answers to its prompts, and the names of the files written.

use vstd::prelude::*;

use crate::text::{
    chars_of, decimal, is_digit, law_numbers_are_read_back, parse_unsigned, parsed_unsigned,
    same_text, texts, trim, trimmed,
};

verus! {

/// The anisette server where none is named.
pub const DEFAULT_ANISETTE_URL: &'static str = "https://ani.sidestore.io";

/// The port of the API where none is named, or where what is named is no port.
pub const DEFAULT_PORT: u16 = 5301;

/// The tag that the log lines of a run from the command line carry.
pub const CLI_TAG: &'static str = "cli";

/// What the command line asks for.
pub struct Options {
    pub apple_id: String,
    pub anisette_url: String,
    pub output_dir: String,
    pub debug: bool,
    pub serve: bool,
    pub port: u16,
}

/// What the command line asks for.
pub struct OptionsView {
    pub apple_id: Seq<char>,
    pub anisette_url: Seq<char>,
    pub output_dir: Seq<char>,
    pub debug: bool,
    pub serve: bool,
    pub port: u16,
}

impl View for Options {
    type V = OptionsView;

    open spec fn view(&self) -> OptionsView {
        OptionsView {
            apple_id: self.apple_id@,
            anisette_url: self.anisette_url@,
            output_dir: self.output_dir@,
            debug: self.debug,
            serve: self.serve,
            port: self.port,
        }
    }
}

/// What the arguments come to.
pub enum Command {
    /// Run with these options.
    Run(Options),
    /// Print the usage.
    Help,
    /// An argument that is none of the options.
    Unknown(String),
    /// An option at the end of the arguments that wants a value.
    MissingValue(String),
}

/// What the arguments come to.
pub enum CommandView {
    Run(OptionsView),
    Help,
    Unknown(Seq<char>),
    MissingValue(Seq<char>),
}

impl View for Command {
    type V = CommandView;

    open spec fn view(&self) -> CommandView {
        match self {
            Command::Run(options) => CommandView::Run(options@),
            Command::Help => CommandView::Help,
            Command::Unknown(arg) => CommandView::Unknown(arg@),
            Command::MissingValue(arg) => CommandView::MissingValue(arg@),
        }
    }
}

/// What holds where the arguments say nothing else.
pub open spec fn defaults() -> OptionsView {
    OptionsView {
        apple_id: Seq::empty(),
        anisette_url: DEFAULT_ANISETTE_URL@,
        output_dir: "."@,
        debug: false,
        serve: false,
        port: DEFAULT_PORT,
    }
}

/// Whether an option is followed by its value.
pub open spec fn takes_value(arg: Seq<char>) -> bool {
    ||| arg == "--apple-id"@
    ||| arg == "--anisette-url"@
    ||| arg == "--output-dir"@
    ||| arg == "--port"@
}

/// The port that a text names, or the default where it names none.
pub open spec fn port_of(text: Seq<char>) -> u16 {
    match parsed_unsigned(text, u16::MAX as nat) {
        Some(n) => n as u16,
        None => DEFAULT_PORT,
    }
}

/// The options, once one of those that take a value was read.
pub open spec fn with_value(o: OptionsView, arg: Seq<char>, value: Seq<char>) -> OptionsView {
    if arg == "--apple-id"@ {
        OptionsView { apple_id: value, ..o }
    } else if arg == "--anisette-url"@ {
        OptionsView { anisette_url: value, ..o }
    } else if arg == "--output-dir"@ {
        OptionsView { output_dir: value, ..o }
    } else {
        OptionsView { port: port_of(value), ..o }
    }
}

/// What the arguments from position `i` on come to, given the options read before: the first one
/// that asks for the usage, or that is no option, ends the reading.
pub open spec fn read_from(args: Seq<Seq<char>>, i: int, o: OptionsView) -> CommandView
    decreases args.len() - i,
{
    if i < 0 || i >= args.len() {
        CommandView::Run(o)
    } else if takes_value(args[i]) {
        if i + 1 < args.len() {
            read_from(args, i + 2, with_value(o, args[i], args[i + 1]))
        } else {
            CommandView::MissingValue(args[i])
        }
    } else if args[i] == "--debug"@ {
        read_from(args, i + 1, OptionsView { debug: true, ..o })
    } else if args[i] == "--serve"@ {
        read_from(args, i + 1, OptionsView { serve: true, ..o })
    } else if args[i] == "--help"@ || args[i] == "-h"@ {
        CommandView::Help
    } else {
        CommandView::Unknown(args[i])
    }
}

fn is_value_option(arg: &str) -> (r: bool)
    ensures
        r == takes_value(arg@),
{
    same_text(arg, "--apple-id") || same_text(arg, "--anisette-url") || same_text(
        arg,
        "--output-dir",
    ) || same_text(arg, "--port")
}

/// The port that a text names, or the default where it names none.
pub fn parse_port(text: &str) -> (r: u16)
    ensures
        r == port_of(text@),
{
    match parse_unsigned(text, u16::MAX as u64) {
        Some(n) => n as u16,
        None => DEFAULT_PORT,
    }
}

fn set_value(o: &mut Options, arg: &str, value: &String)
    requires
        takes_value(arg@),
    ensures
        final(o)@ == with_value(old(o)@, arg@, value@),
{
    if same_text(arg, "--apple-id") {
        o.apple_id = value.clone();
    } else if same_text(arg, "--anisette-url") {
        o.anisette_url = value.clone();
    } else if same_text(arg, "--output-dir") {
        o.output_dir = value.clone();
    } else {
        o.port = parse_port(value.as_str());
    }
}

/// Reads the arguments, the first of which is the name of the program.
pub fn parse_args(args: &Vec<String>) -> (r: Command)
    ensures
        r@ == read_from(texts(args@), 1, defaults()),
{
    let mut o = Options {
        apple_id: String::new(),
        anisette_url: DEFAULT_ANISETTE_URL.to_string(),
        output_dir: ".".to_string(),
        debug: false,
        serve: false,
        port: DEFAULT_PORT,
    };
    let ghost list = texts(args@);
    let mut i: usize = 1;
    while i < args.len()
        invariant
            1 <= i,
            list == texts(args@),
            read_from(list, 1, defaults()) == read_from(list, i as int, o@),
        decreases args.len() - i,
    {
        let arg = args[i].as_str();
        assert(list[i as int] == arg@);
        if is_value_option(arg) {
            if args.len() - i < 2 {
                return Command::MissingValue(arg.to_string());
            }
            assert(list[i + 1] == args@[i + 1]@);
            set_value(&mut o, arg, &args[i + 1]);
            i += 2;
        } else if same_text(arg, "--debug") {
            o.debug = true;
            i += 1;
        } else if same_text(arg, "--serve") {
            o.serve = true;
            i += 1;
        } else if same_text(arg, "--help") || same_text(arg, "-h") {
            return Command::Help;
        } else {
            return Command::Unknown(arg.to_string());
        }
    }
    Command::Run(o)
}

/// The device that needs no question: the only one.
pub fn only_device(devices: usize) -> (r: Option<usize>)
    ensures
        r == (if devices == 1 {
            Some(0usize)
        } else {
            None
        }),
{
    if devices == 1 {
        Some(0)
    } else {
        None
    }
}

/// The device that a typed answer picks: the number in it, or the first device where it is none.
pub open spec fn answered_device(input: Seq<char>) -> nat {
    match parsed_unsigned(trimmed(input), usize::MAX as nat) {
        Some(n) => n,
        None => 0,
    }
}

/// The device that a typed answer picks.
pub fn typed_device(input: &str) -> (r: usize)
    ensures
        r == answered_device(input@),
{
    match parse_unsigned(trim(input).as_str(), usize::MAX as u64) {
        Some(n) => n as usize,
        None => 0,
    }
}

/// What `char::is_alphanumeric` says of a character.
pub uninterp spec fn alphanumeric(c: char) -> bool;

/// Whether a character is an ASCII letter or digit.
pub open spec fn ascii_alphanumeric(c: char) -> bool {
    is_digit(c) || 0x41 <= c as u32 <= 0x5a || 0x61 <= c as u32 <= 0x7a
}

/// `char::is_alphanumeric` of std: whether Unicode counts the character as a letter or a number.
/// Of the ASCII characters, only the letters and the digits are.
pub assume_specification[ char::is_alphanumeric ](c: char) -> (r: bool)
    ensures
        r == alphanumeric(c),
        c as u32 <= 0x7f ==> r == ascii_alphanumeric(c),
;

/// The name of an accessory with every character replaced that is neither a letter, nor a number,
/// nor a hyphen, nor an underscore.
pub open spec fn safe_stem(name: Seq<char>) -> Seq<char> {
    name.map_values(|c: char| if alphanumeric(c) || c == '-' || c == '_' { c } else { '_' })
}

/// Whether a character may stand in a file name that the tool makes: of the ASCII characters, only
/// letters, digits, hyphens and underscores may.
pub open spec fn harmless(c: char) -> bool {
    c as u32 > 0x7f || ascii_alphanumeric(c) || c == '-' || c == '_'
}

/// The name of the file that an accessory is written to. Whatever its name holds, the file stays
/// in the directory that was asked for: no separator and no dot comes from the name.
pub fn file_name(name: &str) -> (r: String)
    ensures
        r@ == safe_stem(name@) + ".plist"@,
        forall|i: int| 0 <= i < name@.len() ==> harmless(#[trigger] r@[i]),
{
    let chars = chars_of(name);
    let mut out = String::new();
    for i in 0..chars.len()
        invariant
            chars@ == name@,
            out@ == safe_stem(name@).take(i as int),
            forall|k: int| 0 <= k < i ==> harmless(#[trigger] out@[k]),
    {
        let c = chars[i];
        let kept = if c.is_alphanumeric() || c == '-' || c == '_' {
            c
        } else {
            '_'
        };
        let ghost before = out@;
        out.push(kept);
        assert(out@ =~= safe_stem(name@).take(i + 1));
        assert forall|k: int| 0 <= k < i + 1 implies harmless(#[trigger] out@[k]) by {
            if k < i {
                assert(out@[k] == before[k]);
            }
        }
    }
    assert(safe_stem(name@).take(name@.len() as int) =~= safe_stem(name@));
    let ghost stem = out@;
    out.append(".plist");
    assert forall|i: int| 0 <= i < name@.len() implies harmless(#[trigger] out@[i]) by {
        assert(out@[i] == stem[i]);
    }
    out
}

/// The options are told apart by how they are written.
proof fn lemma_option_names()
    ensures
        "--apple-id"@.len() == 10,
        "--anisette-url"@.len() == 14,
        "--output-dir"@.len() == 12,
        "--port"@.len() == 6 && "--port"@[2] == 'p',
        "--debug"@.len() == 7 && "--debug"@[2] == 'd',
        "--serve"@.len() == 7 && "--serve"@[2] == 's',
        "--help"@.len() == 6 && "--help"@[2] == 'h',
        "-h"@.len() == 2,
{
    reveal_strlit("--apple-id");
    reveal_strlit("--anisette-url");
    reveal_strlit("--output-dir");
    reveal_strlit("--port");
    reveal_strlit("--debug");
    reveal_strlit("--serve");
    reveal_strlit("--help");
    reveal_strlit("-h");
}

/// What more arguments lead to goes by what those before them came to.
proof fn lemma_read_on(args: Seq<Seq<char>>, more: Seq<Seq<char>>, i: int, o: OptionsView)
    requires
        0 <= i <= args.len(),
    ensures
        match read_from(args, i, o) {
            CommandView::Run(p) => read_from(args + more, i, o) == read_from(
                args + more,
                args.len() as int,
                p,
            ),
            CommandView::MissingValue(_) => true,
            ended => read_from(args + more, i, o) == ended,
        },
    decreases args.len() - i,
{
    let all = args + more;
    if i < args.len() {
        assert(all[i] == args[i]);
        if takes_value(args[i]) {
            if i + 1 < args.len() {
                assert(all[i + 1] == args[i + 1]);
                lemma_read_on(args, more, i + 2, with_value(o, args[i], args[i + 1]));
            }
        } else if args[i] == "--debug"@ {
            lemma_read_on(args, more, i + 1, OptionsView { debug: true, ..o });
        } else if args[i] == "--serve"@ {
            lemma_read_on(args, more, i + 1, OptionsView { serve: true, ..o });
        }
    }
}

/// Without options the usual ones hold: no Apple ID, the public anisette server, the current
/// directory, and no server, whose port would be 5301.
pub proof fn law_the_usual_options(args: Seq<Seq<char>>)
    requires
        args.len() <= 1,
    ensures
        read_from(args, 1, defaults()) matches CommandView::Run(o) && {
            &&& o.apple_id.len() == 0
            &&& o.anisette_url == "https://ani.sidestore.io"@
            &&& o.output_dir == "."@
            &&& !o.debug
            &&& !o.serve
            &&& o.port == 5301
        },
{
}

/// Each option sets what it names, to the value after it where it takes one, and leaves the rest as
/// it was: a later one takes the place of an earlier one. An option without its value, one that is
/// none, and a question for the usage end the reading.
pub proof fn law_each_option_sets_what_it_names(
    args: Seq<Seq<char>>,
    arg: Seq<char>,
    value: Seq<char>,
)
    requires
        args.len() >= 1,
    ensures
        read_from(args, 1, defaults()) matches CommandView::Run(o) ==> {
            let then = |more: Seq<Seq<char>>| read_from(args + more, 1, defaults());
            &&& then(seq!["--apple-id"@, value]) == CommandView::Run(
                OptionsView {
                    apple_id: value,
                    anisette_url: o.anisette_url,
                    output_dir: o.output_dir,
                    debug: o.debug,
                    serve: o.serve,
                    port: o.port,
                },
            )
            &&& then(seq!["--anisette-url"@, value]) == CommandView::Run(
                OptionsView {
                    apple_id: o.apple_id,
                    anisette_url: value,
                    output_dir: o.output_dir,
                    debug: o.debug,
                    serve: o.serve,
                    port: o.port,
                },
            )
            &&& then(seq!["--output-dir"@, value]) == CommandView::Run(
                OptionsView {
                    apple_id: o.apple_id,
                    anisette_url: o.anisette_url,
                    output_dir: value,
                    debug: o.debug,
                    serve: o.serve,
                    port: o.port,
                },
            )
            &&& then(seq!["--port"@, value]) == CommandView::Run(
                OptionsView {
                    apple_id: o.apple_id,
                    anisette_url: o.anisette_url,
                    output_dir: o.output_dir,
                    debug: o.debug,
                    serve: o.serve,
                    port: port_of(value),
                },
            )
            &&& then(seq!["--debug"@]) == CommandView::Run(
                OptionsView {
                    apple_id: o.apple_id,
                    anisette_url: o.anisette_url,
                    output_dir: o.output_dir,
                    debug: true,
                    serve: o.serve,
                    port: o.port,
                },
            )
            &&& then(seq!["--serve"@]) == CommandView::Run(
                OptionsView {
                    apple_id: o.apple_id,
                    anisette_url: o.anisette_url,
                    output_dir: o.output_dir,
                    debug: o.debug,
                    serve: true,
                    port: o.port,
                },
            )
            &&& then(seq!["--help"@]) is Help
            &&& then(seq!["-h"@]) is Help
            &&& arg == "--apple-id"@ || arg == "--anisette-url"@ || arg == "--output-dir"@ || arg
                == "--port"@ ==> then(seq![arg]) == CommandView::MissingValue(arg)
            &&& arg != "--apple-id"@ && arg != "--anisette-url"@ && arg != "--output-dir"@ && arg
                != "--port"@ && arg != "--debug"@ && arg != "--serve"@ && arg != "--help"@ && arg
                != "-h"@ ==> then(seq![arg]) == CommandView::Unknown(arg)
        },
        read_from(args, 1, defaults()) is Help || read_from(args, 1, defaults()) is Unknown
            ==> read_from(args + seq![arg], 1, defaults()) == read_from(args, 1, defaults())
            && read_from(args + seq![arg, value], 1, defaults()) == read_from(args, 1, defaults()),
{
    lemma_option_names();
    reveal_with_fuel(read_from, 3);
    lemma_read_on(args, seq!["--apple-id"@, value], 1, defaults());
    lemma_read_on(args, seq!["--anisette-url"@, value], 1, defaults());
    lemma_read_on(args, seq!["--output-dir"@, value], 1, defaults());
    lemma_read_on(args, seq!["--port"@, value], 1, defaults());
    lemma_read_on(args, seq!["--debug"@], 1, defaults());
    lemma_read_on(args, seq!["--serve"@], 1, defaults());
    lemma_read_on(args, seq!["--help"@], 1, defaults());
    lemma_read_on(args, seq!["-h"@], 1, defaults());
    lemma_read_on(args, seq![arg], 1, defaults());
    lemma_read_on(args, seq![arg, value], 1, defaults());
}

/// A port that was written is the port; anything that is none, or that is too large for one, is the
/// usual port.
pub proof fn law_a_port_is_the_number_written(text: Seq<char>, n: nat)
    ensures
        n <= 65535 ==> port_of(decimal(n)) == n,
        n > 65535 ==> port_of(decimal(n)) == 5301,
        match parsed_unsigned(text, 65535) {
            Some(m) => port_of(text) == m,
            None => port_of(text) == 5301,
        },
{
    law_numbers_are_read_back(text, n, 65535);
}

/// An answer picks the device whose number it is, white space aside; any other picks the first.
pub proof fn law_an_answer_picks_its_number(input: Seq<char>, n: nat)
    ensures
        trimmed(input) == decimal(n) && n <= usize::MAX ==> answered_device(input) == n,
        parsed_unsigned(trimmed(input), usize::MAX as nat) is None ==> answered_device(input) == 0,
        parsed_unsigned(trimmed(input), usize::MAX as nat) matches Some(m) ==> answered_device(
            input,
        ) == m,
{
    law_numbers_are_read_back(input, n, usize::MAX as nat);
}

/// The stem of a file keeps the length of the name and each of its letters, numbers, hyphens and
/// underscores in its place; every other character becomes an underscore.
pub proof fn law_the_stem_keeps_what_is_safe(name: Seq<char>)
    ensures
        safe_stem(name).len() == name.len(),
        forall|i: int|
            0 <= i < name.len() ==> {
                let kept = alphanumeric(name[i]) || name[i] == '-' || name[i] == '_';
                &&& kept ==> #[trigger] safe_stem(name)[i] == name[i]
                &&& !kept ==> safe_stem(name)[i] == '_'
            },
{
}

/// Of the ASCII characters the letters, the digits, the hyphen and the underscore may stand in a
/// file name, and no other.
pub proof fn law_harmless_characters(c: char)
    ensures
        ({
            let n = c as int;
            let letter = 0x41 <= n <= 0x5a || 0x61 <= n <= 0x7a;
            let number = 0x30 <= n <= 0x39;
            &&& ascii_alphanumeric(c) <==> letter || number
            &&& harmless(c) <==> n >= 0x80 || letter || number || n == 0x2d || n == 0x5f
        }),
{
}

/// What the arguments come to is seen as what it is, with every option.
pub proof fn law_a_command_is_seen_in_full(command: Command, o: Options)
    ensures
        match command {
            Command::Run(options) => command@ == CommandView::Run(options@),
            Command::Help => command@ is Help,
            Command::Unknown(arg) => command@ == CommandView::Unknown(arg@),
            Command::MissingValue(arg) => command@ == CommandView::MissingValue(arg@),
        },
        o@.apple_id == o.apple_id@,
        o@.anisette_url == o.anisette_url@,
        o@.output_dir == o.output_dir@,
        o@.debug == o.debug,
        o@.serve == o.serve,
        o@.port == o.port,
        CLI_TAG@ == "cli"@,
{
}

} // verus!
