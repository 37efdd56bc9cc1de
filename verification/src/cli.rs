//! The command line of the server: flags, extra headers and the address.

use vstd::prelude::*;
use vstd::utf8::is_ascii_chars;

use crate::text::{
    chars_of, contains_char, decimal_of, parse_u32, parse_u32_of, prepend_to_first,
    replace_first_char, replace_first_of, same_text, split_chars, split_of, string_of, views,
};

verus! {

/// The settings of a run.
pub struct Settings {
    /// Where to listen, as `host:port`.
    pub address: String,
    /// The folder to serve, relative to the working directory.
    pub path: String,
    /// Extra header lines for each response, each introduced by `\r\n`.
    pub headers: String,
    /// Whether pages reload when a served file changes.
    pub reload: bool,
}

/// The settings of a run, as character sequences.
pub struct SettingsModel {
    pub address: Seq<char>,
    pub path: Seq<char>,
    pub headers: Seq<char>,
    pub reload: bool,
}

impl View for Settings {
    type V = SettingsModel;

    open spec fn view(&self) -> SettingsModel {
        SettingsModel {
            address: self.address@,
            path: self.path@,
            headers: self.headers@,
            reload: self.reload,
        }
    }
}

/// What the command line asks for.
pub enum Command {
    /// Serve with these settings.
    Serve(Settings),
    /// Print the help text.
    Help,
    /// Report a flag that is not known.
    Unrecognized(String),
    /// `--address` came last, without a value.
    MissingAddress,
    /// `--path` came last, without a value.
    MissingPath,
    /// `--header` came last, without a value.
    MissingHeader,
    /// A `--header` value holds neither `:` nor `=`.
    HeaderWithoutSeparator,
    /// A `--header` value holds a line break or a character outside ASCII.
    HeaderNotPlain,
}

/// What the command line asks for, as character sequences.
pub enum CommandModel {
    Serve(SettingsModel),
    Help,
    Unrecognized(Seq<char>),
    MissingAddress,
    MissingPath,
    MissingHeader,
    HeaderWithoutSeparator,
    HeaderNotPlain,
}

impl View for Command {
    type V = CommandModel;

    open spec fn view(&self) -> CommandModel {
        match self {
            Command::Serve(s) => CommandModel::Serve(s@),
            Command::Help => CommandModel::Help,
            Command::Unrecognized(a) => CommandModel::Unrecognized(a@),
            Command::MissingAddress => CommandModel::MissingAddress,
            Command::MissingPath => CommandModel::MissingPath,
            Command::MissingHeader => CommandModel::MissingHeader,
            Command::HeaderWithoutSeparator => CommandModel::HeaderWithoutSeparator,
            Command::HeaderNotPlain => CommandModel::HeaderNotPlain,
        }
    }
}

/// The settings before any flag: `localhost:8080`, the working directory,
/// no extra headers, reloading on.
pub open spec fn default_settings() -> SettingsModel {
    SettingsModel {
        address: "localhost:8080"@,
        path: Seq::<char>::empty(),
        headers: Seq::<char>::empty(),
        reload: true,
    }
}

/// A `--header` value as it is sent: `name=value` becomes `name:value` (the
/// first `=` only) when there is no `:`; it must then be plain ASCII
/// without line breaks.
pub open spec fn header_value_of(h: Seq<char>) -> Result<Seq<char>, CommandModel> {
    let separated = if h.contains(':') {
        Ok(h)
    } else if h.contains('=') {
        Ok(replace_first_of(h, '=', ':'))
    } else {
        Err(CommandModel::HeaderWithoutSeparator)
    };
    match separated {
        Ok(v) => if v.contains('\r') || v.contains('\n') || !is_ascii_chars(v) {
            Err(CommandModel::HeaderNotPlain)
        } else {
            Ok(v)
        },
        Err(e) => Err(e),
    }
}

/// What the flags `args` ask for, read from the left, starting from the
/// settings `s`.
pub open spec fn command_from(args: Seq<Seq<char>>, s: SettingsModel) -> CommandModel
    decreases args.len(),
{
    if args.len() == 0 {
        CommandModel::Serve(s)
    } else {
        let a = args[0];
        let rest = args.drop_first();
        if a == "--address"@ {
            if rest.len() == 0 {
                CommandModel::MissingAddress
            } else {
                command_from(rest.drop_first(), SettingsModel { address: rest[0], ..s })
            }
        } else if a == "--reload"@ || a == "--refresh"@ {
            command_from(rest, SettingsModel { reload: true, ..s })
        } else if a == "--noreload"@ || a == "--norefresh"@ {
            command_from(rest, SettingsModel { reload: false, ..s })
        } else if a == "--path"@ {
            if rest.len() == 0 {
                CommandModel::MissingPath
            } else {
                command_from(rest.drop_first(), SettingsModel { path: rest[0], ..s })
            }
        } else if a == "--header"@ {
            if rest.len() == 0 {
                CommandModel::MissingHeader
            } else {
                match header_value_of(rest[0]) {
                    Ok(h) => command_from(
                        rest.drop_first(),
                        SettingsModel { headers: s.headers + seq!['\r', '\n'] + h, ..s },
                    ),
                    Err(e) => e,
                }
            }
        } else if a == "--help"@ {
            CommandModel::Help
        } else {
            CommandModel::Unrecognized(a)
        }
    }
}

/// The character sequences of a list of strings.
pub open spec fn string_views(v: Seq<String>) -> Seq<Seq<char>> {
    v.map_values(|x: String| x@)
}

/// Checks a `--header` value and puts it in the form in which it is sent.
pub fn header_value(h: &str) -> (r: Result<String, Command>)
    ensures
        match r {
            Ok(v) => header_value_of(h@) == Ok::<Seq<char>, CommandModel>(v@),
            Err(e) => header_value_of(h@) == Err::<Seq<char>, CommandModel>(e@),
        },
{
    let chars = chars_of(h);
    let value = if contains_char(chars.as_slice(), ':') {
        chars
    } else if contains_char(chars.as_slice(), '=') {
        replace_first_char(chars.as_slice(), '=', ':')
    } else {
        return Err(Command::HeaderWithoutSeparator);
    };
    let text = string_of(value.as_slice());
    if contains_char(value.as_slice(), '\r') || contains_char(value.as_slice(), '\n')
        || !text.as_str().is_ascii() {
        return Err(Command::HeaderNotPlain);
    }
    Ok(text)
}

/// Reads the command line (without the program's name).
pub fn parse_args(args: &Vec<String>) -> (command: Command)
    ensures
        command@ == command_from(string_views(args@), default_settings()),
{
    let mut settings = Settings {
        address: String::from_str("localhost:8080"),
        path: String::new(),
        headers: String::new(),
        reload: true,
    };
    let ghost all = string_views(args@);
    let n = args.len();
    let mut i: usize = 0;
    proof {
        assert(all.skip(0) =~= all);
    }
    while i < n
        invariant
            n == args@.len(),
            all == string_views(args@),
            0 <= i <= n,
            command_from(all.skip(i as int), settings@) == command_from(all, default_settings()),
        decreases n - i,
    {
        let ghost tail = all.skip(i as int);
        proof {
            assert(tail[0] == args@[i as int]@);
            assert(tail.drop_first() =~= all.skip(i + 1));
        }
        let arg = args[i].as_str();
        if same_text(arg, "--address") {
            if i + 1 == n {
                return Command::MissingAddress;
            }
            proof {
                assert(tail.drop_first()[0] == args@[i + 1]@);
                assert(tail.drop_first().drop_first() =~= all.skip(i + 2));
            }
            settings.address = args[i + 1].clone();
            i = i + 2;
        } else if same_text(arg, "--reload") || same_text(arg, "--refresh") {
            settings.reload = true;
            i = i + 1;
        } else if same_text(arg, "--noreload") || same_text(arg, "--norefresh") {
            settings.reload = false;
            i = i + 1;
        } else if same_text(arg, "--path") {
            if i + 1 == n {
                return Command::MissingPath;
            }
            proof {
                assert(tail.drop_first()[0] == args@[i + 1]@);
                assert(tail.drop_first().drop_first() =~= all.skip(i + 2));
            }
            settings.path = args[i + 1].clone();
            i = i + 2;
        } else if same_text(arg, "--header") {
            if i + 1 == n {
                return Command::MissingHeader;
            }
            proof {
                assert(tail.drop_first()[0] == args@[i + 1]@);
                assert(tail.drop_first().drop_first() =~= all.skip(i + 2));
            }
            match header_value(args[i + 1].as_str()) {
                Ok(h) => {
                    let ghost before = settings.headers@;
                    settings.headers.append("\r\n");
                    settings.headers.append(h.as_str());
                    proof {
                        reveal_strlit("\r\n");
                        assert(settings.headers@ =~= before + seq!['\r', '\n'] + h@);
                    }
                },
                Err(e) => {
                    return e;
                },
            }
            i = i + 2;
        } else if same_text(arg, "--help") {
            return Command::Help;
        } else {
            return Command::Unrecognized(args[i].clone());
        }
    }
    proof {
        assert(all.skip(n as int) =~= Seq::<Seq<char>>::empty());
    }
    Command::Serve(settings)
}

/// The host part of an address: everything before the first `:`.
pub open spec fn host_of(address: Seq<char>) -> Seq<char> {
    split_of(address, seq![':'])[0]
}

/// The port of an address: the field after the first `:` read as a
/// number, 8080 when there is no `:`, and `None` when that field is not a
/// number.
pub open spec fn port_of(address: Seq<char>) -> Option<u32> {
    let parts = split_of(address, seq![':']);
    if parts.len() > 1 {
        parse_u32_of(parts[1])
    } else {
        Some(8080)
    }
}

/// Splits an address into its host and its port.
pub fn split_address(address: &str) -> (r: (String, Option<u32>))
    ensures
        r.0@ == host_of(address@),
        r.1 == port_of(address@),
{
    let chars = chars_of(address);
    let colon = vec![':'];
    assert(colon@ =~= seq![':']);
    let parts = split_chars(chars.as_slice(), colon.as_slice());
    proof {
        crate::text::lemma_split_nonempty(address@, seq![':']);
        assert(views(parts@).len() == parts@.len());
        assert(views(parts@)[0] == parts@[0]@);
    }
    let host = string_of(parts[0].as_slice());
    if parts.len() > 1 {
        proof {
            assert(views(parts@)[1] == parts@[1]@);
        }
        (host, parse_u32(parts[1].as_slice()))
    } else {
        (host, Some(8080))
    }
}

/// A piece of text without the separator is not split.
proof fn lemma_split_without_separator(s: Seq<char>, c: char)
    requires
        !s.contains(c),
    ensures
        split_of(s, seq![c]) == seq![s],
    decreases s.len(),
{
    if s.len() > 0 {
        assert(s.drop_first().contains(c) ==> s.contains(c)) by {
            if s.drop_first().contains(c) {
                let i = choose|i: int| 0 <= i < s.drop_first().len() && s.drop_first()[i] == c;
                assert(s[i + 1] == c);
            }
        }
        lemma_split_without_separator(s.drop_first(), c);
        assert(s[0] != c);
        assert(s.take(1)[0] == s[0]);
        assert(!crate::text::starts_with(s, seq![c]));
        assert(seq![s[0]] + s.drop_first() =~= s);
    } else {
        assert(s =~= Seq::<char>::empty());
    }
}

/// Splitting at the first separator: the text before it, then the pieces
/// of the text after it.
proof fn lemma_split_at_first_separator(a: Seq<char>, c: char, b: Seq<char>)
    requires
        !a.contains(c),
    ensures
        split_of(a + seq![c] + b, seq![c]) == seq![a] + split_of(b, seq![c]),
    decreases a.len(),
{
    let s = a + seq![c] + b;
    if a.len() == 0 {
        assert(s.take(1) =~= seq![c]);
        assert(s.skip(1) =~= b);
        assert(a =~= Seq::<char>::empty());
    } else {
        assert(a.drop_first().contains(c) ==> a.contains(c)) by {
            if a.drop_first().contains(c) {
                let i = choose|i: int| 0 <= i < a.drop_first().len() && a.drop_first()[i] == c;
                assert(a[i + 1] == c);
            }
        }
        assert(s.drop_first() =~= a.drop_first() + seq![c] + b);
        lemma_split_at_first_separator(a.drop_first(), c, b);
        assert(s[0] == a[0]);
        assert(a[0] != c);
        assert(s.take(1)[0] == a[0]);
        assert(!crate::text::starts_with(s, seq![c]));
        assert(seq![a[0]] + a.drop_first() =~= a);
        assert(prepend_to_first(seq![s[0]], seq![a.drop_first()] + split_of(b, seq![c]))
            =~= seq![a] + split_of(b, seq![c]));
    }
}

/// The address the server listens on reads back, through `split_address`,
/// as the host and port it was made from (for a host without `:`).
pub proof fn lemma_address_round_trip(host: Seq<char>, port: u32)
    requires
        !host.contains(':'),
    ensures
        host_of(crate::http::listen_address_of(host, port)) == host,
        port_of(crate::http::listen_address_of(host, port)) == Some(port),
{
    let digits = decimal_of(port as nat);
    crate::text::lemma_decimal_digits(port as nat);
    crate::text::lemma_decimal_round_trip(port);
    assert(!digits.contains(':')) by {
        if digits.contains(':') {
            let i = choose|i: int| 0 <= i < digits.len() && digits[i] == ':';
            assert(crate::text::is_digit(digits[i]));
        }
    }
    lemma_split_without_separator(digits, ':');
    lemma_split_at_first_separator(host, ':', digits);
}

/// The settings of a command that serves.
pub open spec fn served_settings(c: CommandModel) -> SettingsModel
    recommends
        c is Serve,
{
    match c {
        CommandModel::Serve(t) => t,
        _ => default_settings(),
    }
}

/// Flags are read left to right: once a list of flags has been read into
/// settings to serve with, the flags after it are read from those settings.
pub proof fn lemma_flags_read_in_order(args: Seq<Seq<char>>, more: Seq<Seq<char>>, s: SettingsModel)
    requires
        command_from(args, s) is Serve,
    ensures
        command_from(args + more, s) == command_from(more, served_settings(command_from(args, s))),
    decreases args.len(),
{
    if args.len() == 0 {
        assert(args + more =~= more);
    } else {
        let a = args[0];
        let rest = args.drop_first();
        assert((args + more)[0] == a);
        assert((args + more).drop_first() =~= rest + more);
        if rest.len() > 0 {
            assert((rest + more)[0] == rest[0]);
            assert((rest + more).drop_first() =~= rest.drop_first() + more);
        }
        if a == "--address"@ {
            lemma_flags_read_in_order(rest.drop_first(), more, SettingsModel { address: rest[0], ..s });
        } else if a == "--reload"@ || a == "--refresh"@ {
            lemma_flags_read_in_order(rest, more, SettingsModel { reload: true, ..s });
        } else if a == "--noreload"@ || a == "--norefresh"@ {
            lemma_flags_read_in_order(rest, more, SettingsModel { reload: false, ..s });
        } else if a == "--path"@ {
            lemma_flags_read_in_order(rest.drop_first(), more, SettingsModel { path: rest[0], ..s });
        } else if a == "--header"@ {
            match header_value_of(rest[0]) {
                Ok(h) => {
                    lemma_flags_read_in_order(
                        rest.drop_first(),
                        more,
                        SettingsModel { headers: s.headers + seq!['\r', '\n'] + h, ..s },
                    );
                },
                Err(e) => {},
            }
        }
    }
}

/// `--noreload` and `--norefresh` turn reloading off, `--reload` and
/// `--refresh` turn it on; each changes nothing else, and the flags after it
/// are read as usual.
pub proof fn lemma_reload_flags(rest: Seq<Seq<char>>, s: SettingsModel)
    ensures
        command_from(seq!["--noreload"@] + rest, s) == command_from(
            rest,
            SettingsModel { reload: false, ..s },
        ),
        command_from(seq!["--norefresh"@] + rest, s) == command_from(
            rest,
            SettingsModel { reload: false, ..s },
        ),
        command_from(seq!["--reload"@] + rest, s) == command_from(
            rest,
            SettingsModel { reload: true, ..s },
        ),
        command_from(seq!["--refresh"@] + rest, s) == command_from(
            rest,
            SettingsModel { reload: true, ..s },
        ),
{
    reveal_strlit("--address");
    reveal_strlit("--reload");
    reveal_strlit("--refresh");
    reveal_strlit("--noreload");
    reveal_strlit("--norefresh");
    reveal_strlit("--path");
    reveal_strlit("--header");
    reveal_strlit("--help");
    assert((seq!["--noreload"@] + rest).drop_first() =~= rest);
    assert((seq!["--norefresh"@] + rest).drop_first() =~= rest);
    assert((seq!["--reload"@] + rest).drop_first() =~= rest);
    assert((seq!["--refresh"@] + rest).drop_first() =~= rest);
    assert("--address"@.len() == 9 && "--address"@[2] == 'a');
    assert("--reload"@.len() == 8 && "--reload"@[2] == 'r');
    assert("--refresh"@.len() == 9 && "--refresh"@[2] == 'r');
    assert("--noreload"@.len() == 10 && "--noreload"@[2] == 'n');
    assert("--norefresh"@.len() == 11 && "--norefresh"@[2] == 'n');
    assert("--path"@.len() == 6 && "--path"@[2] == 'p');
    assert("--header"@.len() == 8 && "--header"@[2] == 'h');
    assert("--help"@.len() == 6 && "--help"@[2] == 'h');
}

/// The last reload flag decides: after any flags that give settings to
/// serve with, a final `--noreload` or `--norefresh` serves with the same
/// settings but reloading off, and a final `--reload` or `--refresh` with
/// reloading on.
pub proof fn lemma_last_reload_flag_decides(args: Seq<Seq<char>>, s: SettingsModel)
    requires
        command_from(args, s) is Serve,
    ensures
        ({
            let t = served_settings(command_from(args, s));
            &&& command_from(args.push("--noreload"@), s) == CommandModel::Serve(
                SettingsModel { reload: false, ..t },
            )
            &&& command_from(args.push("--norefresh"@), s) == CommandModel::Serve(
                SettingsModel { reload: false, ..t },
            )
            &&& command_from(args.push("--reload"@), s) == CommandModel::Serve(
                SettingsModel { reload: true, ..t },
            )
            &&& command_from(args.push("--refresh"@), s) == CommandModel::Serve(
                SettingsModel { reload: true, ..t },
            )
        }),
{
    let t = served_settings(command_from(args, s));
    let none = Seq::<Seq<char>>::empty();
    lemma_reload_flags(none, t);
    assert(seq!["--noreload"@] + none =~= seq!["--noreload"@]);
    assert(seq!["--norefresh"@] + none =~= seq!["--norefresh"@]);
    assert(seq!["--reload"@] + none =~= seq!["--reload"@]);
    assert(seq!["--refresh"@] + none =~= seq!["--refresh"@]);
    lemma_flags_read_in_order(args, seq!["--noreload"@], s);
    lemma_flags_read_in_order(args, seq!["--norefresh"@], s);
    lemma_flags_read_in_order(args, seq!["--reload"@], s);
    lemma_flags_read_in_order(args, seq!["--refresh"@], s);
    assert(args.push("--noreload"@) =~= args + seq!["--noreload"@]);
    assert(args.push("--norefresh"@) =~= args + seq!["--norefresh"@]);
    assert(args.push("--reload"@) =~= args + seq!["--reload"@]);
    assert(args.push("--refresh"@) =~= args + seq!["--refresh"@]);
}

/// The first piece of a split is the text before the first separator.
proof fn lemma_first_piece(s: Seq<char>, c: char)
    ensures
        split_of(s, seq![c])[0].len() <= s.len(),
        s.take(split_of(s, seq![c])[0].len() as int) == split_of(s, seq![c])[0],
        !split_of(s, seq![c])[0].contains(c),
        split_of(s, seq![c])[0].len() < s.len() ==> s[split_of(s, seq![c])[0].len() as int] == c,
    decreases s.len(),
{
    crate::text::lemma_split_nonempty(s, seq![c]);
    if s.len() == 0 {
        assert(s.take(0) =~= Seq::<char>::empty());
    } else if crate::text::starts_with(s, seq![c]) {
        assert(s.take(1)[0] == s[0]);
        assert(s.take(0) =~= Seq::<char>::empty());
    } else {
        let rest = s.drop_first();
        lemma_first_piece(rest, c);
        crate::text::lemma_split_nonempty(rest, seq![c]);
        let p = split_of(rest, seq![c])[0];
        assert(split_of(s, seq![c])[0] == seq![s[0]] + p);
        assert(s.take(1)[0] == s[0]);
        if s[0] == c {
            assert(s.take(1) =~= seq![c]);
        }
        assert(s[0] != c);
        assert(s.take(p.len() + 1int) =~= seq![s[0]] + rest.take(p.len() as int));
        assert(!(seq![s[0]] + p).contains(c)) by {
            if (seq![s[0]] + p).contains(c) {
                let i = choose|i: int| 0 <= i < (seq![s[0]] + p).len() && (seq![s[0]] + p)[i] == c;
                assert(i > 0);
                assert(p[i - 1] == c);
            }
        }
        if p.len() < rest.len() {
            assert(s[p.len() + 1int] == rest[p.len() as int]);
        }
    }
}

/// The host is the text of the address before its first `:`, the whole
/// address when it has none; an address without `:` serves on port 8080.
pub proof fn lemma_host_before_first_colon(address: Seq<char>)
    ensures
        host_of(address).len() <= address.len(),
        address.take(host_of(address).len() as int) == host_of(address),
        !host_of(address).contains(':'),
        host_of(address).len() < address.len() ==> address[host_of(address).len() as int] == ':',
        !address.contains(':') ==> host_of(address) == address && port_of(address) == Some(8080u32),
{
    lemma_first_piece(address, ':');
    if !address.contains(':') {
        let h = host_of(address);
        if h.len() < address.len() {
            assert(address[h.len() as int] == ':');
        }
        assert(address.take(address.len() as int) =~= address);
        lemma_split_without_separator(address, ':');
    }
}

/// The characters that tell the flags apart.
proof fn lemma_flag_names()
    ensures
        "--address"@ != "--reload"@ && "--address"@ != "--refresh"@ && "--address"@ != "--noreload"@
            && "--address"@ != "--norefresh"@ && "--address"@ != "--path"@ && "--address"@ != "--header"@
            && "--address"@ != "--help"@,
        "--path"@ != "--reload"@ && "--path"@ != "--refresh"@ && "--path"@ != "--noreload"@
            && "--path"@ != "--norefresh"@ && "--path"@ != "--header"@ && "--path"@ != "--help"@,
        "--header"@ != "--reload"@ && "--header"@ != "--refresh"@ && "--header"@ != "--noreload"@
            && "--header"@ != "--norefresh"@ && "--header"@ != "--help"@,
        "--help"@ != "--reload"@ && "--help"@ != "--refresh"@ && "--help"@ != "--noreload"@
            && "--help"@ != "--norefresh"@,
{
    reveal_strlit("--address");
    reveal_strlit("--reload");
    reveal_strlit("--refresh");
    reveal_strlit("--noreload");
    reveal_strlit("--norefresh");
    reveal_strlit("--path");
    reveal_strlit("--header");
    reveal_strlit("--help");
    assert("--address"@.len() == 9 && "--address"@[2] == 'a');
    assert("--reload"@.len() == 8 && "--reload"@[2] == 'r');
    assert("--refresh"@.len() == 9 && "--refresh"@[2] == 'r');
    assert("--noreload"@.len() == 10 && "--noreload"@[2] == 'n');
    assert("--norefresh"@.len() == 11 && "--norefresh"@[2] == 'n');
    assert("--path"@.len() == 6 && "--path"@[2] == 'p');
    assert("--header"@.len() == 8 && "--header"@[2] == 'h');
    assert("--help"@.len() == 6 && "--help"@[2] == 'h');
}

/// `--address v` and `--path v` set the address or the folder to `v` and
/// nothing else; without a value they are refused; `--help` asks for help
/// whatever follows it.
pub proof fn lemma_value_flags(v: Seq<char>, rest: Seq<Seq<char>>, s: SettingsModel)
    ensures
        command_from(seq!["--address"@, v] + rest, s) == command_from(
            rest,
            SettingsModel { address: v, ..s },
        ),
        command_from(seq!["--path"@, v] + rest, s) == command_from(
            rest,
            SettingsModel { path: v, ..s },
        ),
        command_from(seq!["--address"@], s) == CommandModel::MissingAddress,
        command_from(seq!["--path"@], s) == CommandModel::MissingPath,
        command_from(seq!["--header"@], s) == CommandModel::MissingHeader,
        command_from(seq!["--help"@] + rest, s) == CommandModel::Help,
{
    lemma_flag_names();
    let a = seq!["--address"@, v] + rest;
    assert(a.drop_first()[0] == v);
    assert(a.drop_first().drop_first() =~= rest);
    let p = seq!["--path"@, v] + rest;
    assert(p.drop_first()[0] == v);
    assert(p.drop_first().drop_first() =~= rest);
    assert(seq!["--address"@].drop_first().len() == 0);
    assert(seq!["--path"@].drop_first().len() == 0);
    assert(seq!["--header"@].drop_first().len() == 0);
    assert((seq!["--help"@] + rest)[0] == "--help"@);
}

/// A `--header` value is sent as given when it holds a `:`; otherwise its
/// first `=` (and only that) becomes `:`. It is refused without `:` or `=`,
/// and refused when it holds a line break or a character outside ASCII.
/// What is sent always holds a `:`, no line break, and ASCII only.
pub proof fn lemma_header_value(h: Seq<char>)
    ensures
        header_value_of(h) == Err::<Seq<char>, CommandModel>(CommandModel::HeaderWithoutSeparator)
            <==> (!h.contains(':') && !h.contains('=')),
        header_value_of(h) == Err::<Seq<char>, CommandModel>(CommandModel::HeaderNotPlain) <==> ((
        h.contains(':') || h.contains('=')) && (h.contains('\r') || h.contains('\n')
            || !is_ascii_chars(h))),
        header_value_of(h) is Ok || header_value_of(h) is Err,
        header_value_of(h) matches Ok(v) ==> {
            &&& v.contains(':')
            &&& !v.contains('\r')
            &&& !v.contains('\n')
            &&& is_ascii_chars(v)
            &&& h.contains(':') ==> v == h
            &&& !h.contains(':') ==> exists|k: int|
                0 <= k < h.len() && h[k] == '=' && (forall|j: int| 0 <= j < k ==> h[j] != '=')
                    && #[trigger] h.update(k, ':') == v
        },
{
    crate::text::lemma_replace_first(h, '=', ':');
    if !h.contains(':') && h.contains('=') {
        let k = choose|k: int|
            0 <= k < h.len() && h[k] == '=' && (forall|j: int| 0 <= j < k ==> h[j] != '=')
                && #[trigger] replace_first_of(h, '=', ':') == h.update(k, ':');
        let v = h.update(k, ':');
        assert(v[k] == ':');
        assert(v.contains(':'));
        assert(v.contains('\r') <==> h.contains('\r')) by {
            if v.contains('\r') {
                let i = choose|i: int| 0 <= i < v.len() && v[i] == '\r';
                assert(h[i] == '\r');
            }
            if h.contains('\r') {
                let i = choose|i: int| 0 <= i < h.len() && h[i] == '\r';
                assert(v[i] == '\r');
            }
        }
        assert(v.contains('\n') <==> h.contains('\n')) by {
            if v.contains('\n') {
                let i = choose|i: int| 0 <= i < v.len() && v[i] == '\n';
                assert(h[i] == '\n');
            }
            if h.contains('\n') {
                let i = choose|i: int| 0 <= i < h.len() && h[i] == '\n';
                assert(v[i] == '\n');
            }
        }
        assert(is_ascii_chars(v) <==> is_ascii_chars(h)) by {
            if is_ascii_chars(v) {
                assert forall|i: int| 0 <= i < h.len() implies '\0' <= #[trigger] h[i] <= '\u{7f}' by {
                    if i != k {
                        assert(v[i] == h[i]);
                    }
                }
            }
            if is_ascii_chars(h) {
                assert forall|i: int| 0 <= i < v.len() implies '\0' <= #[trigger] v[i] <= '\u{7f}' by {
                    if i != k {
                        assert(v[i] == h[i]);
                    }
                }
            }
        }
    }
}

} // verus!
