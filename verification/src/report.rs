//! What a run prints: the line for a worker that failed, and the summary.

use vstd::prelude::*;
use crate::aggregate::AggregateResult;
use crate::config::BenchConfig;
use crate::decimal::decimal_text;
use crate::decimal::render_unsigned;

verus! {

/// The summary of a run: the address, then the number of connections, the
/// message length and the duration, an empty line, the number of failed
/// workers, and the mean number of round trips per second. Numbers are
/// written in decimal. The text has five lines and no line end after the
/// last.
pub open spec fn summary_text(
    address: Seq<char>,
    connection_count: nat,
    payload_length: nat,
    duration_seconds: nat,
    total_errors: nat,
    requests_per_second: nat,
) -> Seq<char> {
    "Benchmarking: "@ + address + "\n"@ + decimal_text(connection_count) + " clients, running "@
        + decimal_text(payload_length) + " bytes, "@ + decimal_text(duration_seconds)
        + " sec.\n\nError: "@ + decimal_text(total_errors) + "\nSpeed: "@ + decimal_text(
        requests_per_second,
    ) + " request/sec"@
}

/// Renders the summary of a run from its configuration and its totals.
pub fn render_summary(config: &BenchConfig, result: &AggregateResult) -> (text: String)
    ensures
        text@ == summary_text(
            config.address@,
            config.connection_count as nat,
            config.payload_length as nat,
            config.duration_seconds as nat,
            result.total_errors as nat,
            result.requests_per_second as nat,
        ),
{
    let mut text = String::from_str("Benchmarking: ");
    text.append(config.address.as_str());
    text.append("\n");
    text.append(render_unsigned(config.connection_count as u128).as_str());
    text.append(" clients, running ");
    text.append(render_unsigned(config.payload_length as u128).as_str());
    text.append(" bytes, ");
    text.append(render_unsigned(config.duration_seconds as u128).as_str());
    text.append(" sec.\n\nError: ");
    text.append(render_unsigned(result.total_errors as u128).as_str());
    text.append("\nSpeed: ");
    text.append(render_unsigned(result.requests_per_second).as_str());
    text.append(" request/sec");
    text
}

/// The transfer in which a worker failed.
#[derive(Clone, Copy, Debug, PartialEq, Eq, Structural)]
pub enum Transfer {
    /// Sending the request.
    Write,
    /// Receiving the reply.
    Read,
}

/// The line that tells of a worker's failure: the worker's identifier, the
/// transfer that failed, and the error as the system words it.
pub open spec fn failure_line_text(id: u32, transfer: Transfer, error: Seq<char>) -> Seq<char> {
    "thread "@ + decimal_text(id as nat) + match transfer {
        Transfer::Write => " write error: "@,
        Transfer::Read => " read error: "@,
    } + error
}

/// Renders the line that tells of a worker's failure.
pub fn failure_line(id: u32, transfer: Transfer, error: &str) -> (text: String)
    ensures
        text@ == failure_line_text(id, transfer, error@),
{
    let mut text = String::from_str("thread ");
    text.append(render_unsigned(id as u128).as_str());
    match transfer {
        Transfer::Write => text.append(" write error: "),
        Transfer::Read => text.append(" read error: "),
    }
    text.append(error);
    text
}

} // verus!
