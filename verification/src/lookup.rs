//! The lookup: from what the connection-listing command printed to the
//! process that owns a port.

use crate::error::{result_view, LookupError, LookupFailure};
use crate::platform::{column_layout, layout_for, ColumnLayout, Layout, Platform};
use crate::row::{row_outcome, scan_row, RowScan};
use crate::text::{chars_of, line_end, lines};
use vstd::prelude::*;
use vstd::slice::slice_subrange;
use vstd::string::StrSliceExecFns;
use vstd::utf8::{decode_utf8, valid_utf8};

verus! {

/// How the run of the connection-listing command ended.
#[derive(Debug, Clone, PartialEq, Eq)]
pub enum CommandOutcome {
    /// The command could not be started.
    SpawnFailed,
    /// The command ran to its end. `code` is its exit code, if it had one:
    /// zero means success. `stdout` holds what it printed.
    Exited { code: Option<i32>, stdout: Vec<u8> },
}

/// The text that `String::from_utf8_lossy` makes of `bytes`.
pub uninterp spec fn lossy_text(bytes: Seq<u8>) -> Seq<char>;

/// The text that the command's output is read as: the text that the bytes
/// encode where they are valid UTF-8, and else that of `lossy_text`, in
/// which a replacement character stands for what is not valid.
pub open spec fn decoded_text(bytes: Seq<u8>) -> Seq<char> {
    if valid_utf8(bytes) {
        decode_utf8(bytes)
    } else {
        lossy_text(bytes)
    }
}

/// What the first row that is about `port` says, or that no process uses
/// the port where no row is about it.
pub open spec fn first_match(rows: Seq<Seq<char>>, layout: Layout, port: u16) -> Result<
    u32,
    LookupFailure,
>
    decreases rows.len(),
{
    if rows.len() == 0 {
        Err(LookupFailure::NoProcessForPort { port })
    } else {
        match row_outcome(rows[0], layout, port) {
            Some(found) => found,
            None => first_match(rows.skip(1), layout, port),
        }
    }
}

/// The result of the lookup of `port` on `platform`, given how the
/// platform's command ended.
pub open spec fn lookup(port: u16, platform: Platform, outcome: CommandOutcome) -> Result<
    u32,
    LookupFailure,
> {
    match layout_for(platform) {
        None => Err(LookupFailure::UnsupportedPlatform),
        Some(layout) => match outcome {
            CommandOutcome::SpawnFailed => Err(LookupFailure::CommandExecutionFailed),
            CommandOutcome::Exited { code, stdout } => if code != Some(0i32) {
                Err(LookupFailure::CommandNonZeroExit { code })
            } else {
                first_match(lines(decoded_text(stdout@)), layout, port)
            },
        },
    }
}

/// Calls `String::from_utf8_lossy` and hands the result back as an owned
/// string. Not proved, but taken from the documentation of that function:
/// the result depends on the bytes alone, and where the bytes are valid
/// UTF-8 it is the text that they encode. Of other bytes the contract says
/// no more than that.
#[verifier::external_body]
fn decode_lossy(bytes: &[u8]) -> (text: String)
    ensures
        text@ == lossy_text(bytes@),
        valid_utf8(bytes@) ==> text@ == decode_utf8(bytes@),
{
    String::from_utf8_lossy(bytes).into_owned()
}

/// Searches the table in `text` for the process that owns `port`. The rows
/// are read from the top, and the first row that is about the port decides.
pub fn find_pid(text: &str, layout: ColumnLayout, port: u16) -> (r: Result<u32, LookupError>)
    ensures
        result_view(r) == first_match(lines(text@), layout@, port),
{
    let chars = chars_of(text);
    let all = chars.as_slice();
    let n: usize = all.len();
    let mut pos: usize = 0;
    assert(all@.skip(0) =~= text@);
    while pos < n
        invariant
            n == all@.len(),
            all@ == text@,
            0 <= pos <= n,
            first_match(lines(all@.skip(pos as int)), layout@, port) == first_match(
                lines(text@),
                layout@,
                port,
            ),
        decreases n - pos,
    {
        let end: usize = line_end(all, pos);
        let stop: usize = if end < n && pos < end && all[end - 1] == '\r' {
            end - 1
        } else {
            end
        };
        let line = slice_subrange(all, pos, stop);
        let next: usize = if end < n {
            end + 1
        } else {
            n
        };
        proof {
            let rest = all@.skip(pos as int);
            let rows = lines(rest);
            if end < n {
                assert(rest.skip(end - pos + 1) =~= all@.skip(next as int));
                assert(rows[0] =~= line@);
                assert(rows.skip(1) =~= lines(all@.skip(next as int)));
            } else {
                assert(rows.skip(1) =~= lines(all@.skip(next as int)));
            }
        }
        match scan_row(line, layout, port) {
            RowScan::Skip => {},
            RowScan::Pid(pid) => {
                return Ok(pid);
            },
            RowScan::PidMissing => {
                let line = text.substring_char(pos, stop).to_owned();
                return Err(LookupError::PidColumnMissing { line, offset: layout.pid_offset() });
            },
            RowScan::PidUnreadable { start, end } => {
                let token = text.substring_char(pos + start, pos + end).to_owned();
                assert(token@ =~= line@.subrange(start as int, end as int));
                return Err(LookupError::PidParseError { token });
            },
        }
        pos = next;
    }
    Err(LookupError::NoProcessForPort { port })
}

/// Looks up the process that owns port `p` on `platform`, given how the
/// platform's connection-listing command ended.
///
/// Fails with `UnsupportedPlatform` where no command is known for the
/// platform, whatever `outcome` holds; with `CommandExecutionFailed` where
/// the command did not start; with `CommandNonZeroExit` where it did not
/// end with exit code zero. Otherwise what it printed is decoded, invalid
/// bytes giving replacement characters, and searched as `find_pid` does.
pub fn pid_from_port(p: u16, platform: Platform, outcome: &CommandOutcome) -> (r: Result<
    u32,
    LookupError,
>)
    ensures
        result_view(r) == lookup(p, platform, *outcome),
{
    let layout = match column_layout(platform) {
        Ok(layout) => layout,
        Err(e) => {
            return Err(e);
        },
    };
    match outcome {
        CommandOutcome::SpawnFailed => Err(LookupError::CommandExecutionFailed),
        CommandOutcome::Exited { code, stdout } => {
            match code {
                Some(0) => {},
                _ => {
                    return Err(LookupError::CommandNonZeroExit { code: *code });
                },
            }
            let text = decode_lossy(stdout.as_slice());
            find_pid(text.as_str(), layout, p)
        },
    }
}

} // verus!
