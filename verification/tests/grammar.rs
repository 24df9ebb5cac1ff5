//! The grammar as data, and the parser that is built from it.

use routing_stats_cli::error::Error;
use routing_stats_cli::grammar::{Flag, Grammar, Subcommand};
use routing_stats_cli::matched::{Matches, SubMatches};
use routing_stats_cli::options::Options;
use routing_stats_cli::parser::{build, parse_args, refused};
use routing_stats_cli::bindings::Refusal;

fn args(words: &[&str]) -> Vec<String> {
    words.iter().map(|word| word.to_string()).collect()
}

/// The text without the colour codes that `clap` adds on a terminal.
fn plain(text: &str) -> String {
    let mut out = String::new();
    let mut chars = text.chars();
    while let Some(c) = chars.next() {
        if c == '\u{1b}' {
            for skipped in chars.by_ref() {
                if skipped == 'm' {
                    break;
                }
            }
        } else {
            out.push(c);
        }
    }
    out
}

fn small() -> Grammar {
    Grammar {
        name: "small",
        version: "1.2.3",
        about: "A small program",
        no_binary_name: false,
        no_version_flag: false,
        flags: vec![Flag::new("input", 'i', "PATH", "The input.", true)],
        subcommands: vec![Subcommand {
            name: "check",
            about: "Checks the input",
            flags: vec![Flag::new("level", 'l', "N", "How hard to look.", false)],
        }],
    }
}

#[test]
fn cli_grammar_global_flags() {
    let grammar = Grammar::cli();
    assert_eq!(grammar.name, "NLnet Labs RRDP Server");
    assert_eq!(grammar.version, "0.1b");
    assert_eq!(grammar.about, "Analyse ROA quality vs BGP");
    assert!(grammar.no_binary_name);
    assert!(grammar.no_version_flag);
    assert_eq!(
        grammar.flags,
        vec![
            Flag {
                name: "ris4",
                short: '4',
                long: "ris4",
                value_name: "FILE",
                help: "RIS dump v4.",
                required: true,
            },
            Flag {
                name: "ris6",
                short: '6',
                long: "ris6",
                value_name: "FILE",
                help: "RIS dump v6.",
                required: true,
            },
            Flag {
                name: "vrps",
                short: 'v',
                long: "vrps",
                value_name: "FILE",
                help: "Validated ROAs Payloads CSV file.",
                required: true,
            },
        ]
    );
}

#[test]
fn cli_grammar_subcommands() {
    let grammar = Grammar::cli();
    assert_eq!(
        grammar.subcommands,
        vec![
            Subcommand {
                name: "world",
                about: "Report ROA quality on a per country basis",
                flags: vec![
                    Flag {
                        name: "stats",
                        short: 's',
                        long: "stats",
                        value_name: "FILE",
                        help: "Delegation stats (NRO extended delegated stats format).",
                        required: true,
                    },
                    Flag {
                        name: "format",
                        short: 'f',
                        long: "format",
                        value_name: "json | html | text",
                        help: "Specify output format, defaults to json",
                        required: false,
                    },
                ],
            },
            Subcommand {
                name: "resources",
                about: "Report ROA quality on a resource basis",
                flags: vec![
                    Flag {
                        name: "ips",
                        short: 'i',
                        long: "ips",
                        value_name: "comma separated prefixes/ranges",
                        help: "Optional scope for invalid report. Default: all",
                        required: false,
                    },
                    Flag {
                        name: "asns",
                        short: 'a',
                        long: "asns",
                        value_name: "comma separated ASNs / ASN ranges",
                        help: "Optional scope for invalid report. Default: all",
                        required: false,
                    },
                    Flag {
                        name: "format",
                        short: 'f',
                        long: "format",
                        value_name: "json | text",
                        help: "Specify output format, defaults to json",
                        required: false,
                    },
                ],
            },
        ]
    );
}

#[test]
fn cli_grammar_is_well_formed() {
    assert!(Grammar::cli().is_well_formed());
    assert!(small().is_well_formed());
}

#[test]
fn flag_new_takes_the_name_for_the_long_form() {
    assert_eq!(
        Flag::new("stats", 's', "FILE", "help", true),
        Flag {
            name: "stats",
            short: 's',
            long: "stats",
            value_name: "FILE",
            help: "help",
            required: true,
        }
    );
}

#[test]
fn flag_with_hyphens_is_not_well_formed() {
    assert!(Flag::new("stats", 's', "FILE", "help", true).is_well_formed());
    assert!(!Flag::new("stats", '-', "FILE", "help", true).is_well_formed());
    assert!(!Flag::new("--stats", 's', "FILE", "help", true).is_well_formed());
    assert!(!Flag::new("-", 's', "FILE", "help", true).is_well_formed());
    assert!(Flag::new("", 's', "FILE", "help", true).is_well_formed());
    assert!(Flag::new("st-ats", 's', "FILE", "help", true).is_well_formed());
}

#[test]
fn flags_that_share_a_form_are_not_apart() {
    let stats = Flag::new("stats", 's', "FILE", "help", true);
    assert!(stats.is_apart_from(&Flag::new("format", 'f', "F", "help", false)));
    assert!(!stats.is_apart_from(&Flag::new("stats", 'x', "F", "help", false)));
    assert!(!stats.is_apart_from(&Flag::new("scope", 's', "F", "help", false)));
    let other = Flag {
        name: "other",
        short: 'o',
        long: "stats",
        value_name: "F",
        help: "help",
        required: false,
    };
    assert!(!stats.is_apart_from(&other));
    assert!(!other.is_apart_from(&stats));
}

#[test]
fn grammar_with_a_repeated_flag_is_not_well_formed() {
    let mut grammar = small();
    grammar.flags.push(Flag::new("input", 'j', "PATH", "Again.", false));
    assert!(!grammar.is_well_formed());

    let mut grammar = small();
    grammar.flags.push(Flag::new("other", 'i', "PATH", "Same short form.", false));
    assert!(!grammar.is_well_formed());

    let mut grammar = small();
    grammar.subcommands[0].flags.push(Flag::new("level", 'm', "N", "Again.", false));
    assert!(!grammar.is_well_formed());

    let mut grammar = small();
    grammar.subcommands[0].flags.push(Flag::new("-x", 'x', "N", "Hyphen.", false));
    assert!(!grammar.is_well_formed());
}

#[test]
fn flags_of_different_commands_may_share_forms() {
    let mut grammar = small();
    grammar.subcommands[0].flags.push(Flag::new("input", 'i', "PATH", "Below.", false));
    grammar.subcommands.push(Subcommand {
        name: "list",
        about: "Lists",
        flags: vec![Flag::new("level", 'l', "N", "How many.", false)],
    });
    assert!(grammar.is_well_formed());
}

#[test]
fn build_describes_the_grammar() {
    let grammar = small();
    assert!(grammar.is_well_formed());
    let app = build(&grammar);
    assert_eq!(app.get_name(), "small");
    let mut help: Vec<u8> = Vec::new();
    app.write_help(&mut help).unwrap();
    let help = plain(&String::from_utf8(help).unwrap());
    assert!(help.contains("small 1.2.3"), "{}", help);
    assert!(help.contains("A small program"), "{}", help);
    assert!(help.contains("-i, --input <PATH>    The input."), "{}", help);
    assert!(help.contains("check    Checks the input"), "{}", help);
}

#[test]
fn built_parser_skips_the_program_name_where_the_grammar_says_so() {
    let grammar = small();
    assert!(grammar.is_well_formed());
    let matches = build(&grammar)
        .get_matches_from_safe(args(&["prog", "--input", "in.txt", "check", "-l", "3"]))
        .expect("the arguments match");
    assert_eq!(matches.value_of("input"), Some("in.txt"));
    let under = matches.subcommand_matches("check").expect("the sub-command was given");
    assert_eq!(under.value_of("level"), Some("3"));

    // Without a program name in front, the first flag is taken for it.
    let refusal = build(&grammar)
        .get_matches_from_safe(args(&["--input", "in.txt", "check"]))
        .expect_err("the arguments do not match");
    assert!(plain(&refusal.message).contains("in.txt"), "{}", refusal.message);
}

#[test]
fn built_parser_takes_the_first_word_where_the_grammar_says_so() {
    let mut grammar = small();
    grammar.no_binary_name = true;
    assert!(grammar.is_well_formed());
    let matches = build(&grammar)
        .get_matches_from_safe(args(&["--input", "in.txt", "check"]))
        .expect("the arguments match");
    assert_eq!(matches.value_of("input"), Some("in.txt"));
    assert_eq!(matches.subcommand_name(), Some("check"));
}

#[test]
fn built_parser_requires_no_flag() {
    let grammar = small();
    assert!(grammar.is_well_formed());
    assert!(grammar.flags[0].required);
    let matches = build(&grammar)
        .get_matches_from_safe(args(&["prog", "check"]))
        .expect("the arguments match");
    assert_eq!(matches.value_of("input"), None);
    assert_eq!(matches.subcommand_name(), Some("check"));
}

#[test]
fn built_parser_has_a_version_flag_unless_the_grammar_says_not() {
    let mut grammar = small();
    grammar.no_version_flag = true;
    let refusal = build(&grammar)
        .get_matches_from_safe(args(&["prog", "--version"]))
        .expect_err("the arguments do not match");
    assert_eq!(refusal.kind, clap::ErrorKind::UnknownArgument);
    let refusal = build(&grammar)
        .get_matches_from_safe(args(&["prog", "check", "--version"]))
        .expect_err("the arguments do not match");
    assert_eq!(refusal.kind, clap::ErrorKind::UnknownArgument);
    let mut help: Vec<u8> = Vec::new();
    build(&small()).write_help(&mut help).unwrap();
    assert!(plain(&String::from_utf8(help).unwrap()).contains("small 1.2.3"));
}

#[test]
fn optional_keeps_all_but_required() {
    let flag = Flag::new("input", 'i', "PATH", "The input.", true);
    assert_eq!(flag.optional(), Flag::new("input", 'i', "PATH", "The input.", false));
    assert_eq!(flag.optional().optional(), flag.optional());
}

#[test]
fn built_parser_takes_optional_flags_as_optional() {
    let grammar = small();
    assert!(grammar.is_well_formed());
    let matches = build(&grammar)
        .get_matches_from_safe(args(&["prog", "-i", "in.txt", "check"]))
        .expect("the arguments match");
    let under = matches.subcommand_matches("check").expect("the sub-command was given");
    assert_eq!(under.value_of("level"), None);
}

#[test]
fn parse_args_keeps_the_matches_of_clap() {
    let argv = args(&[
        "--ris4", "a4.txt", "--ris6", "a6.txt", "--vrps", "v.csv", "world", "--stats", "s.txt",
    ]);
    let matches = parse_args(&argv).expect("the arguments match");
    assert_eq!(matches.value_of("ris4"), Some("a4.txt"));
    assert_eq!(matches.subcommand_name(), Some("world"));
    assert_eq!(Options::from_matches(&matches), Options::create(&argv));
}

#[test]
fn read_takes_what_was_matched() {
    let argv = args(&[
        "--ris4", "a4.txt", "--ris6", "a6.txt", "--vrps", "v.csv", "resources", "--asns", "AS1",
    ]);
    let matches = parse_args(&argv).expect("the arguments match");
    assert_eq!(
        Matches::read(&matches),
        Matches {
            ris4: Some("a4.txt".to_string()),
            ris6: Some("a6.txt".to_string()),
            vrps: Some("v.csv".to_string()),
            subcommand: Some(SubMatches::Resources {
                ips: None,
                asns: Some("AS1".to_string()),
                format: None,
            }),
        }
    );
}

#[test]
fn read_takes_world_with_its_flags() {
    let argv = args(&[
        "--ris4", "a4.txt", "--ris6", "a6.txt", "--vrps", "v.csv", "world", "--stats", "s.txt",
        "-f", "xml",
    ]);
    let matches = parse_args(&argv).expect("the arguments match");
    assert_eq!(
        Matches::read(&matches),
        Matches {
            ris4: Some("a4.txt".to_string()),
            ris6: Some("a6.txt".to_string()),
            vrps: Some("v.csv".to_string()),
            subcommand: Some(SubMatches::World {
                stats: Some("s.txt".to_string()),
                format: Some("xml".to_string()),
            }),
        }
    );
}

#[test]
fn read_without_flags_under_the_subcommand() {
    let argv = args(&[
        "--ris4", "a4.txt", "--ris6", "a6.txt", "--vrps", "v.csv", "resources",
    ]);
    let matches = parse_args(&argv).expect("the arguments match");
    let read = Matches::read(&matches);
    assert_eq!(read.ris4, Some("a4.txt".to_string()));
    assert_eq!(
        read.subcommand,
        Some(SubMatches::Resources { ips: None, asns: None, format: None })
    );
}

#[test]
fn refused_keeps_the_text() {
    assert_eq!(
        refused(Refusal { failure: true, text: "bad".to_string() }),
        Error::WithMessage("bad".to_string())
    );
    assert_eq!(
        refused(Refusal { failure: false, text: "usage".to_string() }),
        Error::Displayed("usage".to_string())
    );
    assert_eq!(
        refused(Refusal { failure: true, text: "error: bad\n\nUSAGE:\n    prog".to_string() }),
        Error::WithMessage("error: bad".to_string())
    );
    assert_eq!(
        refused(Refusal { failure: false, text: "prog 1\n\nUSAGE:\n    prog".to_string() }),
        Error::Displayed("prog 1\n\nUSAGE:\n    prog".to_string())
    );
}
