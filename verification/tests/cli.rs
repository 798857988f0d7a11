use echo_bench::cli::decide;
use echo_bench::cli::interpret;
use echo_bench::cli::usage;
use echo_bench::cli::usage_brief;
use echo_bench::cli::Invocation;
use echo_bench::cli::OptionValues;
use echo_bench::config::BenchConfig;

fn args(list: &[&str]) -> Vec<String> {
    list.iter().map(|arg| String::from(*arg)).collect()
}

fn run_of(list: &[&str]) -> BenchConfig {
    match interpret(&args(list)) {
        Invocation::Run(config) => config,
        other => panic!("expected a run, got {other:?}"),
    }
}

fn message_of(list: &[&str]) -> String {
    match interpret(&args(list)) {
        Invocation::Invalid { message } => message,
        other => panic!("expected a failure, got {other:?}"),
    }
}

fn values() -> OptionValues {
    OptionValues { help: false, address: None, length: None, duration: None, connections: None }
}

#[test]
fn no_arguments_run_with_the_defaults() {
    let config = run_of(&[]);
    assert_eq!(config.address, "127.0.0.1:8901");
    assert_eq!(config.payload_length, 512);
    assert_eq!(config.duration_seconds, 60);
    assert_eq!(config.connection_count, 50);
}

#[test]
fn short_options_set_the_configuration() {
    let config = run_of(&["-a", "10.1.2.3:4000", "-l", "64", "-t", "1", "-c", "1"]);
    assert_eq!(config.address, "10.1.2.3:4000");
    assert_eq!(config.payload_length, 64);
    assert_eq!(config.duration_seconds, 1);
    assert_eq!(config.connection_count, 1);
}

#[test]
fn long_options_set_the_configuration() {
    let config = run_of(&[
        "--address=echo.example:7",
        "--length",
        "1024",
        "--duration=5",
        "--number",
        "200",
    ]);
    assert_eq!(config.address, "echo.example:7");
    assert_eq!(config.payload_length, 1024);
    assert_eq!(config.duration_seconds, 5);
    assert_eq!(config.connection_count, 200);
}

#[test]
fn value_may_follow_a_short_option_directly() {
    let config = run_of(&["-l128", "-c7"]);
    assert_eq!(config.payload_length, 128);
    assert_eq!(config.connection_count, 7);
    assert_eq!(config.duration_seconds, 60);
}

#[test]
fn value_that_is_no_number_gives_the_default() {
    let config = run_of(&["-l", "big", "-t", "1h", "-c", "-3"]);
    assert_eq!(config.payload_length, 512);
    assert_eq!(config.duration_seconds, 60);
    assert_eq!(config.connection_count, 50);
}

#[test]
fn free_arguments_are_ignored() {
    let config = run_of(&["extra", "-l", "8", "more"]);
    assert_eq!(config.payload_length, 8);
}

#[test]
fn help_is_recognised_in_both_forms() {
    assert!(matches!(interpret(&args(&["-h"])), Invocation::Help));
    assert!(matches!(interpret(&args(&["--help"])), Invocation::Help));
}

#[test]
fn help_wins_over_other_options() {
    assert!(matches!(interpret(&args(&["-l", "64", "-h", "-c", "2"])), Invocation::Help));
}

#[test]
fn unknown_option_is_a_failure() {
    assert_eq!(message_of(&["--bogus"]), "Unrecognized option: 'bogus'");
    assert_eq!(message_of(&["-x"]), "Unrecognized option: 'x'");
    assert_eq!(message_of(&["--version"]), "Unrecognized option: 'version'");
}

#[test]
fn missing_value_is_a_failure() {
    assert_eq!(message_of(&["-l"]), "Argument to option 'l' missing");
    assert_eq!(message_of(&["--address"]), "Argument to option 'address' missing");
}

#[test]
fn option_given_twice_is_a_failure() {
    assert_eq!(message_of(&["-l", "1", "--length", "2"]), "Option 'length' given more than once");
    assert_eq!(message_of(&["-h", "-h"]), "Option 'help' given more than once");
}

#[test]
fn value_for_help_is_a_failure() {
    assert_eq!(message_of(&["--help=yes"]), "Option 'help' does not take an argument");
}

#[test]
fn failure_wins_over_help() {
    assert_eq!(message_of(&["-h", "--bogus"]), "Unrecognized option: 'bogus'");
}

#[test]
fn decide_answers_help() {
    let mut given = values();
    given.help = true;
    given.length = Some(String::from("64"));
    assert!(matches!(decide(Ok(given)), Invocation::Help));
}

#[test]
fn decide_resolves_the_values() {
    let mut given = values();
    given.address = Some(String::from("h:1"));
    given.duration = Some(String::from("+9"));
    given.connections = Some(String::from("nine"));
    match decide(Ok(given)) {
        Invocation::Run(config) => {
            assert_eq!(config.address, "h:1");
            assert_eq!(config.payload_length, 512);
            assert_eq!(config.duration_seconds, 9);
            assert_eq!(config.connection_count, 50);
        }
        other => panic!("expected a run, got {other:?}"),
    }
}

#[test]
fn decide_passes_the_message_on() {
    match decide(Err(String::from("no such option"))) {
        Invocation::Invalid { message } => assert_eq!(message, "no such option"),
        other => panic!("expected a failure, got {other:?}"),
    }
}

#[test]
fn usage_brief_names_the_program() {
    assert_eq!(
        usage_brief("echo_bench"),
        "Echo benchmark.\n\nUsage:\n  echo_bench [ -a <address> ] [ -l <length> ] [ -c <number> ] [ -t <duration> ]\n  echo_bench (-h | --help)\n  echo_bench --version"
    );
}

#[test]
fn usage_lists_the_options() {
    let expected = "Echo benchmark.

Usage:
  bench [ -a <address> ] [ -l <length> ] [ -c <number> ] [ -t <duration> ]
  bench (-h | --help)
  bench --version

Options:
    -h, --help          Print this help.
    -a, --address <address>
                        Target echo server address. Default: 127.0.0.1:12345
    -l, --length <length>
                        Test message length. Default: 512
    -t, --duration <duration>
                        Test duration in seconds. Default: 60
    -c, --number <number>
                        Test connection number. Default: 50
";
    assert_eq!(usage("bench"), expected);
}

#[test]
fn usage_is_what_getopts_derives() {
    let mut options = getopts::Options::new();
    options.optflag("h", "help", "Print this help.");
    options.optopt(
        "a",
        "address",
        "Target echo server address. Default: 127.0.0.1:12345",
        "<address>",
    );
    options.optopt("l", "length", "Test message length. Default: 512", "<length>");
    options.optopt("t", "duration", "Test duration in seconds. Default: 60", "<duration>");
    options.optopt("c", "number", "Test connection number. Default: 50", "<number>");
    assert_eq!(usage("./bench"), options.usage(&usage_brief("./bench")));
}

#[test]
fn usage_is_the_first_paragraph_then_the_options() {
    let text = usage("prog");
    let head = format!("{}\n\nOptions:\n", usage_brief("prog"));
    assert!(text.starts_with(&head));
    assert!(text.ends_with("Test connection number. Default: 50\n"));
    assert!(!text.ends_with("\n\n"));
}
