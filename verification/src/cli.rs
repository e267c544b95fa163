//! Command line of the test network node.

use vstd::prelude::*;
use crate::text::{owned, str_eq, chars_of, string_views, decimal, digit_char};

verus! {

/// Settings given on the command line.
pub struct Args {
    /// Run as the registry server.
    pub registry: bool,
    /// Run the proof-based network test.
    pub proof_test: bool,
    /// HTTP port of the registry.
    pub port: u16,
    /// QUIC port of the registry's address discovery (0 disables it).
    pub quic_port: u16,
    /// QUIC port of a node (0 picks one).
    pub bind_port: u16,
    /// Registry to connect to.
    pub registry_url: String,
    /// Most peer connections.
    pub max_peers: usize,
    /// Log only, without the terminal UI.
    pub quiet: bool,
    /// Connect to no external VPS node.
    pub local_only: bool,
    /// Fewest nodes for the proof test.
    pub min_proof_nodes: usize,
    /// Discover peers by epidemic gossip rather than the registry.
    pub gossip_first: bool,
}

/// Mathematical value of [`Args`].
pub struct ArgsView {
    pub registry: bool,
    pub proof_test: bool,
    pub port: u16,
    pub quic_port: u16,
    pub bind_port: u16,
    pub registry_url: Seq<char>,
    pub max_peers: usize,
    pub quiet: bool,
    pub local_only: bool,
    pub min_proof_nodes: usize,
    pub gossip_first: bool,
}

impl View for Args {
    type V = ArgsView;

    open spec fn view(&self) -> ArgsView {
        ArgsView {
            registry: self.registry,
            proof_test: self.proof_test,
            port: self.port,
            quic_port: self.quic_port,
            bind_port: self.bind_port,
            registry_url: self.registry_url@,
            max_peers: self.max_peers,
            quiet: self.quiet,
            local_only: self.local_only,
            min_proof_nodes: self.min_proof_nodes,
            gossip_first: self.gossip_first,
        }
    }
}

/// The settings when nothing is given.
pub open spec fn default_args() -> ArgsView {
    ArgsView {
        registry: false,
        proof_test: false,
        port: 8080,
        quic_port: 9001,
        bind_port: 0,
        registry_url: "https://saorsa-1.saorsalabs.com"@,
        max_peers: 10,
        quiet: false,
        local_only: false,
        min_proof_nodes: 2,
        gossip_first: true,
    }
}

impl Default for Args {
    fn default() -> (a: Self)
        ensures
            a@ == default_args(),
    {
        Args {
            registry: false,
            proof_test: false,
            port: 8080,
            quic_port: 9001,
            bind_port: 0,
            registry_url: owned("https://saorsa-1.saorsalabs.com"),
            max_peers: 10,
            quiet: false,
            local_only: false,
            min_proof_nodes: 2,
            gossip_first: true,
        }
    }
}

/// A decimal digit.
pub open spec fn is_digit(c: char) -> bool {
    '0' <= c && c <= '9'
}

/// Every character is a decimal digit.
pub open spec fn all_digits(s: Seq<char>) -> bool {
    forall|i: int| 0 <= i < s.len() ==> is_digit(#[trigger] s[i])
}

/// `s` without a leading `+`.
pub open spec fn unsigned_body(s: Seq<char>) -> Seq<char> {
    if s.len() > 0 && s[0] == '+' { s.drop_first() } else { s }
}

/// Value of a string of decimal digits.
pub open spec fn digits_value(s: Seq<char>) -> nat
    decreases s.len(),
{
    if s.len() == 0 {
        0
    } else {
        10 * digits_value(s.drop_last()) + (s.last() as nat - '0' as nat) as nat
    }
}

/// What `str::parse` gives for an unsigned integer type whose largest value
/// is `max`: an optional `+`, then one or more decimal digits, whose value
/// must not exceed `max`.
pub open spec fn parsed_unsigned(s: Seq<char>, max: nat) -> Option<nat> {
    let body = unsigned_body(s);
    if body.len() > 0 && all_digits(body) && digits_value(body) <= max {
        Some(digits_value(body))
    } else {
        None
    }
}

/// The value of a prefix of digits grows with the prefix.
proof fn lemma_digits_monotone(s: Seq<char>, i: int)
    requires
        0 <= i <= s.len(),
        forall|k: int| 0 <= k < s.len() ==> is_digit(#[trigger] s[k]),
    ensures
        digits_value(s.take(i)) <= digits_value(s),
    decreases s.len() - i,
{
    if i < s.len() {
        lemma_digits_monotone(s, i + 1);
        assert(s.take(i + 1).drop_last() =~= s.take(i));
    } else {
        assert(s.take(i) =~= s);
    }
}

/// Parses an unsigned integer not above `max` (see [`parsed_unsigned`]).
pub fn parse_unsigned(s: &str, max: u64) -> (r: Option<u64>)
    ensures
        match r {
            Some(v) => parsed_unsigned(s@, max as nat) == Some(v as nat),
            None => parsed_unsigned(s@, max as nat) is None,
        },
{
    let v = chars_of(s);
    let mut start: usize = 0;
    if v.len() > 0 && v[0] == '+' {
        start = 1;
    }
    let ghost body = unsigned_body(s@);
    assert(body =~= v@.subrange(start as int, v@.len() as int));
    if start >= v.len() {
        return None;
    }
    let mut value: u64 = 0;
    let mut i: usize = start;
    while i < v.len()
        invariant
            v@ == s@,
            body == unsigned_body(s@),
            body == v@.subrange(start as int, v@.len() as int),
            start <= i <= v@.len(),
            forall|k: int| start <= k < i ==> is_digit(#[trigger] v@[k]),
            value as nat == digits_value(v@.subrange(start as int, i as int)),
            value <= max,
        decreases v@.len() - i,
    {
        let c = v[i];
        let ghost pre = v@.subrange(start as int, i as int);
        assert(v@.subrange(start as int, i + 1).drop_last() =~= pre);
        if !('0' <= c && c <= '9') {
            proof {
                assert(body[i - start] == c);
                assert(!is_digit(body[i - start]));
                assert(!(forall|k: int| 0 <= k < body.len() ==> is_digit(#[trigger] body[k])));
                assert(!all_digits(body));
            }
            return None;
        }
        let d = (c as u64) - ('0' as u64);
        if d > max || value > (max - d) / 10 {
            proof {
                assert(digits_value(v@.subrange(start as int, i + 1)) == 10 * value + d);
                assert(digits_value(v@.subrange(start as int, i + 1)) > max) by (nonlinear_arith)
                    requires
                        d > max || value > (max - d) / 10,
                        d <= 9,
                        digits_value(v@.subrange(start as int, i + 1)) == 10 * value + d;
                if all_digits(body) {
                    lemma_digits_monotone(body, i + 1 - start);
                    assert(body.take(i + 1 - start) =~= v@.subrange(start as int, i + 1));
                }
            }
            return None;
        }
        assert(10 * value + d <= max) by (nonlinear_arith)
            requires value <= (max - d) / 10, d <= 9, d <= max;
        value = 10 * value + d;
        i = i + 1;
    }
    assert(v@.subrange(start as int, v@.len() as int) =~= body);
    Some(value)
}

/// The decimal notation of a number is all digits, does not begin with
/// `+`, and has that number as its value.
proof fn lemma_decimal_digits(n: nat)
    ensures
        decimal(n).len() > 0,
        all_digits(decimal(n)),
        decimal(n)[0] != '+',
        digits_value(decimal(n)) == n,
    decreases n,
{
    let k = n % 10;
    assert(is_digit(digit_char(k)) && digit_char(k) as nat - '0' as nat == k) by {
        if k == 0 {} else if k == 1 {} else if k == 2 {} else if k == 3 {} else if k == 4 {}
        else if k == 5 {} else if k == 6 {} else if k == 7 {} else if k == 8 {} else {}
    }
    if n < 10 {
        let d = decimal(n);
        assert(k == n);
        assert(d.drop_last() =~= Seq::<char>::empty());
        assert(digits_value(d.drop_last()) == 0);
        assert(d.last() == digit_char(k));
    } else {
        lemma_decimal_digits(n / 10);
        let d = decimal(n);
        assert(d.drop_last() =~= decimal(n / 10));
        assert(d.last() == digit_char(k));
        assert(digits_value(d) == 10 * (n / 10) + k);
        assert forall|i: int| 0 <= i < d.len() implies is_digit(#[trigger] d[i]) by {
            if i < d.len() - 1 {
                assert(d[i] == decimal(n / 10)[i]);
            }
        }
    }
}

/// A number written in decimal, with or without a leading `+`, reads back
/// as itself when it is at most `max`, and is refused when it is larger.
pub proof fn lemma_parse_decimal(n: nat, max: nat)
    ensures
        parsed_unsigned(decimal(n), max) == if n <= max { Some(n) } else { None::<nat> },
        parsed_unsigned(seq!['+'] + decimal(n), max) == if n <= max { Some(n) } else { None::<nat> },
{
    lemma_decimal_digits(n);
    assert(unsigned_body(decimal(n)) == decimal(n));
    assert((seq!['+'] + decimal(n)).drop_first() =~= decimal(n));
}

/// What the command line asks for.
pub enum ParsedArgs {
    /// Run with these settings.
    Run(Args),
    /// Print the help.
    Help,
    /// An argument that is not understood.
    Unknown(String),
}

/// Mathematical value of [`ParsedArgs`].
pub enum ParsedArgsView {
    Run(ArgsView),
    Help,
    Unknown(Seq<char>),
}

impl View for ParsedArgs {
    type V = ParsedArgsView;

    open spec fn view(&self) -> ParsedArgsView {
        match self {
            ParsedArgs::Run(a) => ParsedArgsView::Run(a@),
            ParsedArgs::Help => ParsedArgsView::Help,
            ParsedArgs::Unknown(s) => ParsedArgsView::Unknown(s@),
        }
    }
}

/// The value after option `i` of `argv` as a number not above `max`, if
/// there is one that parses.
pub open spec fn number_after(argv: Seq<Seq<char>>, i: int, max: nat) -> Option<nat> {
    if i + 1 < argv.len() { parsed_unsigned(argv[i + 1], max) } else { None }
}

/// Reading `argv` from position `i` on, with settings `a` so far. An option
/// that takes a value consumes the next argument, if any, whether or not it
/// parses; a value that does not parse leaves the setting as it was.
pub open spec fn parse_from(argv: Seq<Seq<char>>, i: int, a: ArgsView) -> ParsedArgsView
    decreases argv.len() - i,
{
    if i < 0 || i >= argv.len() {
        ParsedArgsView::Run(a)
    } else {
        let arg = argv[i];
        let skip = if i + 1 < argv.len() { 2int } else { 1int };
        if arg == "--registry"@ {
            parse_from(argv, i + 1, ArgsView { registry: true, ..a })
        } else if arg == "--port"@ {
            parse_from(argv, i + skip, match number_after(argv, i, u16::MAX as nat) {
                Some(p) => ArgsView { port: p as u16, ..a },
                None => a,
            })
        } else if arg == "--registry-url"@ {
            parse_from(argv, i + skip, if i + 1 < argv.len() { ArgsView { registry_url: argv[i + 1], ..a } } else { a })
        } else if arg == "--max-peers"@ {
            parse_from(argv, i + skip, match number_after(argv, i, usize::MAX as nat) {
                Some(m) => ArgsView { max_peers: m as usize, ..a },
                None => a,
            })
        } else if arg == "--bind-port"@ {
            parse_from(argv, i + skip, match number_after(argv, i, u16::MAX as nat) {
                Some(p) => ArgsView { bind_port: p as u16, ..a },
                None => a,
            })
        } else if arg == "--quic-port"@ {
            parse_from(argv, i + skip, match number_after(argv, i, u16::MAX as nat) {
                Some(p) => ArgsView { quic_port: p as u16, ..a },
                None => a,
            })
        } else if arg == "-q"@ || arg == "--quiet"@ {
            parse_from(argv, i + 1, ArgsView { quiet: true, ..a })
        } else if arg == "--local-only"@ {
            parse_from(argv, i + 1, ArgsView { local_only: true, ..a })
        } else if arg == "--proof-test"@ {
            parse_from(argv, i + 1, ArgsView { proof_test: true, ..a })
        } else if arg == "--gossip-first"@ {
            parse_from(argv, i + 1, ArgsView { gossip_first: true, ..a })
        } else if arg == "--no-gossip-first"@ {
            parse_from(argv, i + 1, ArgsView { gossip_first: false, ..a })
        } else if arg == "--min-proof-nodes"@ {
            parse_from(argv, i + skip, match number_after(argv, i, usize::MAX as nat) {
                Some(n) => ArgsView { min_proof_nodes: n as usize, ..a },
                None => a,
            })
        } else if arg == "-h"@ || arg == "--help"@ {
            ParsedArgsView::Help
        } else {
            ParsedArgsView::Unknown(arg)
        }
    }
}

/// The arguments that name an option, in the order in which they are tried.
pub open spec fn option_names() -> Seq<Seq<char>> {
    seq![
        "--registry"@,
        "--port"@,
        "--registry-url"@,
        "--max-peers"@,
        "--bind-port"@,
        "--quic-port"@,
        "-q"@,
        "--quiet"@,
        "--local-only"@,
        "--proof-test"@,
        "--gossip-first"@,
        "--no-gossip-first"@,
        "--min-proof-nodes"@,
        "-h"@,
        "--help"@,
    ]
}

/// The length of each option name and a character that tells apart the
/// names of one length.
proof fn lemma_option_names()
    ensures
        "--registry"@.len() == 10 && "--registry"@[2] == 'r',
        "--port"@.len() == 6 && "--port"@[2] == 'p',
        "--registry-url"@.len() == 14 && "--registry-url"@[2] == 'r',
        "--max-peers"@.len() == 11 && "--max-peers"@[2] == 'm',
        "--bind-port"@.len() == 11 && "--bind-port"@[2] == 'b',
        "--quic-port"@.len() == 11 && "--quic-port"@[2] == 'q',
        "-q"@.len() == 2 && "-q"@[1] == 'q',
        "--quiet"@.len() == 7 && "--quiet"@[2] == 'q',
        "--local-only"@.len() == 12 && "--local-only"@[2] == 'l',
        "--proof-test"@.len() == 12 && "--proof-test"@[2] == 'p',
        "--gossip-first"@.len() == 14 && "--gossip-first"@[2] == 'g',
        "--no-gossip-first"@.len() == 17 && "--no-gossip-first"@[2] == 'n',
        "--min-proof-nodes"@.len() == 17 && "--min-proof-nodes"@[2] == 'm',
        "-h"@.len() == 2 && "-h"@[1] == 'h',
        "--help"@.len() == 6 && "--help"@[2] == 'h',
{
    reveal_strlit("--registry");
    reveal_strlit("--port");
    reveal_strlit("--registry-url");
    reveal_strlit("--max-peers");
    reveal_strlit("--bind-port");
    reveal_strlit("--quic-port");
    reveal_strlit("-q");
    reveal_strlit("--quiet");
    reveal_strlit("--local-only");
    reveal_strlit("--proof-test");
    reveal_strlit("--gossip-first");
    reveal_strlit("--no-gossip-first");
    reveal_strlit("--min-proof-nodes");
    reveal_strlit("-h");
    reveal_strlit("--help");
}

/// An option that takes a value reads the next argument: a number in range
/// (any text for `--registry-url`) sets that option's setting alone, and
/// every other setting stays as it was; a number that does not parse
/// changes nothing; either way reading goes on after the value. An option
/// that ends the line changes nothing.
pub proof fn lemma_value_options(argv: Seq<Seq<char>>, i: int, a: ArgsView)
    requires
        0 <= i < argv.len(),
    ensures
        argv[i] == "--port"@ && i + 1 < argv.len() ==> parse_from(argv, i, a) == parse_from(argv, i + 2,
            if let Some(n) = parsed_unsigned(argv[i + 1], 65535) { ArgsView { port: n as u16, ..a } } else { a }),
        argv[i] == "--quic-port"@ && i + 1 < argv.len() ==> parse_from(argv, i, a) == parse_from(argv, i + 2,
            if let Some(n) = parsed_unsigned(argv[i + 1], 65535) { ArgsView { quic_port: n as u16, ..a } } else { a }),
        argv[i] == "--bind-port"@ && i + 1 < argv.len() ==> parse_from(argv, i, a) == parse_from(argv, i + 2,
            if let Some(n) = parsed_unsigned(argv[i + 1], 65535) { ArgsView { bind_port: n as u16, ..a } } else { a }),
        argv[i] == "--max-peers"@ && i + 1 < argv.len() ==> parse_from(argv, i, a) == parse_from(argv, i + 2,
            if let Some(n) = parsed_unsigned(argv[i + 1], usize::MAX as nat) { ArgsView { max_peers: n as usize, ..a } } else { a }),
        argv[i] == "--min-proof-nodes"@ && i + 1 < argv.len() ==> parse_from(argv, i, a) == parse_from(argv, i + 2,
            if let Some(n) = parsed_unsigned(argv[i + 1], usize::MAX as nat) { ArgsView { min_proof_nodes: n as usize, ..a } } else { a }),
        argv[i] == "--registry-url"@ && i + 1 < argv.len() ==> parse_from(argv, i, a) == parse_from(argv, i + 2,
            ArgsView { registry_url: argv[i + 1], ..a }),
        i + 1 == argv.len() && (argv[i] == "--port"@ || argv[i] == "--quic-port"@ || argv[i] == "--bind-port"@
            || argv[i] == "--max-peers"@ || argv[i] == "--min-proof-nodes"@ || argv[i] == "--registry-url"@)
            ==> parse_from(argv, i, a) == ParsedArgsView::Run(a),
{
    lemma_option_names();
    if i + 1 == argv.len() {
        assert(parse_from(argv, i + 1, a) == ParsedArgsView::Run(a));
    } else {
        assert(number_after(argv, i, u16::MAX as nat) == parsed_unsigned(argv[i + 1], 65535));
    }
}

/// A flag sets its own setting alone, and reading goes on with the next
/// argument.
pub proof fn lemma_flag_options(argv: Seq<Seq<char>>, i: int, a: ArgsView)
    requires
        0 <= i < argv.len(),
    ensures
        argv[i] == "--registry"@ ==> parse_from(argv, i, a) == parse_from(argv, i + 1, ArgsView { registry: true, ..a }),
        argv[i] == "-q"@ || argv[i] == "--quiet"@ ==> parse_from(argv, i, a) == parse_from(argv, i + 1, ArgsView { quiet: true, ..a }),
        argv[i] == "--local-only"@ ==> parse_from(argv, i, a) == parse_from(argv, i + 1, ArgsView { local_only: true, ..a }),
        argv[i] == "--proof-test"@ ==> parse_from(argv, i, a) == parse_from(argv, i + 1, ArgsView { proof_test: true, ..a }),
        argv[i] == "--gossip-first"@ ==> parse_from(argv, i, a) == parse_from(argv, i + 1, ArgsView { gossip_first: true, ..a }),
        argv[i] == "--no-gossip-first"@ ==> parse_from(argv, i, a) == parse_from(argv, i + 1, ArgsView { gossip_first: false, ..a }),
{
    lemma_option_names();
}

/// `-h` or `--help` asks for the help whatever follows; an argument that
/// names no option is reported as not understood; past the last argument
/// the settings read so far are the result.
pub proof fn lemma_help_unknown_and_end(argv: Seq<Seq<char>>, i: int, a: ArgsView)
    requires
        0 <= i <= argv.len(),
    ensures
        i == argv.len() ==> parse_from(argv, i, a) == ParsedArgsView::Run(a),
        i < argv.len() && (argv[i] == "-h"@ || argv[i] == "--help"@) ==> parse_from(argv, i, a) == ParsedArgsView::Help,
        i < argv.len() && !option_names().contains(argv[i]) ==> parse_from(argv, i, a) == ParsedArgsView::Unknown(argv[i]),
{
    lemma_option_names();
    if i < argv.len() && !option_names().contains(argv[i]) {
        assert(option_names()[0] != argv[i]);
        assert(option_names()[1] != argv[i]);
        assert(option_names()[2] != argv[i]);
        assert(option_names()[3] != argv[i]);
        assert(option_names()[4] != argv[i]);
        assert(option_names()[5] != argv[i]);
        assert(option_names()[6] != argv[i]);
        assert(option_names()[7] != argv[i]);
        assert(option_names()[8] != argv[i]);
        assert(option_names()[9] != argv[i]);
        assert(option_names()[10] != argv[i]);
        assert(option_names()[11] != argv[i]);
        assert(option_names()[12] != argv[i]);
        assert(option_names()[13] != argv[i]);
        assert(option_names()[14] != argv[i]);
    }
}

/// Reads the value after option `i` of `argv` as a number not above `max`.
fn number_at(argv: &[String], i: usize, max: u64) -> (r: Option<u64>)
    requires
        i < argv@.len(),
    ensures
        match r {
            Some(v) => number_after(string_views(argv@), i as int, max as nat) == Some(v as nat),
            None => number_after(string_views(argv@), i as int, max as nat) is None,
        },
{
    if i < argv.len() - 1 {
        assert(string_views(argv@)[i + 1] == argv@[i + 1]@);
        parse_unsigned(argv[i + 1].as_str(), max)
    } else {
        None
    }
}

/// Reads the command line `argv` (without the program name; see
/// [`parse_from`]).
pub fn parse_args(argv: &[String]) -> (r: ParsedArgs)
    ensures
        r@ == parse_from(string_views(argv@), 0, default_args()),
{
    let ghost av = string_views(argv@);
    let mut args = Args::default();
    let mut i: usize = 0;
    let n = argv.len();
    while i < n
        invariant
            n == argv@.len(),
            av == string_views(argv@),
            0 <= i <= n + 1,
            parse_from(av, 0, default_args()) == parse_from(av, i as int, args@),
        decreases n + 1 - i,
    {
        let arg = argv[i].as_str();
        assert(av[i as int] == arg@);
        let skip: usize = if i + 1 < n { 2 } else { 1 };
        if str_eq(arg, "--registry") {
            args.registry = true;
            i = i + 1;
        } else if str_eq(arg, "--port") {
            match number_at(argv, i, 65535) {
                Some(p) => { args.port = p as u16; },
                None => {},
            }
            i = i + skip;
        } else if str_eq(arg, "--registry-url") {
            if i + 1 < n {
                assert(av[i + 1] == argv@[i + 1]@);
                args.registry_url = argv[i + 1].clone();
            }
            i = i + skip;
        } else if str_eq(arg, "--max-peers") {
            match number_at(argv, i, usize::MAX as u64) {
                Some(m) => { args.max_peers = m as usize; },
                None => {},
            }
            i = i + skip;
        } else if str_eq(arg, "--bind-port") {
            match number_at(argv, i, 65535) {
                Some(p) => { args.bind_port = p as u16; },
                None => {},
            }
            i = i + skip;
        } else if str_eq(arg, "--quic-port") {
            match number_at(argv, i, 65535) {
                Some(p) => { args.quic_port = p as u16; },
                None => {},
            }
            i = i + skip;
        } else if str_eq(arg, "-q") || str_eq(arg, "--quiet") {
            args.quiet = true;
            i = i + 1;
        } else if str_eq(arg, "--local-only") {
            args.local_only = true;
            i = i + 1;
        } else if str_eq(arg, "--proof-test") {
            args.proof_test = true;
            i = i + 1;
        } else if str_eq(arg, "--gossip-first") {
            args.gossip_first = true;
            i = i + 1;
        } else if str_eq(arg, "--no-gossip-first") {
            args.gossip_first = false;
            i = i + 1;
        } else if str_eq(arg, "--min-proof-nodes") {
            match number_at(argv, i, usize::MAX as u64) {
                Some(m) => { args.min_proof_nodes = m as usize; },
                None => {},
            }
            i = i + skip;
        } else if str_eq(arg, "-h") || str_eq(arg, "--help") {
            return ParsedArgs::Help;
        } else {
            return ParsedArgs::Unknown(owned(arg));
        }
    }
    ParsedArgs::Run(args)
}

} // verus!
