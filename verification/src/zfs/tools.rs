//! What the ZFS command-line tools say about themselves.

use crate::command::{Command, CommandModel, Outcome};
use crate::error::{ErrorModel, InstallerError};
use crate::text::{chars_of, first_break, line_before, slice_of};
use vstd::prelude::*;
use vstd::string::*;

verus! {

/// `zpool version`
pub open spec fn version_command() -> CommandModel {
    CommandModel::bare("zpool"@).with("version"@)
}

/// The first line of `text`, without its line ending: a line feed, or a
/// carriage return and a line feed.
pub open spec fn first_line(text: Seq<char>) -> Seq<char> {
    line_before(text, first_break(text) as int)
}

/// The version that the outcome of `zpool version` gives: the first line
/// of its output, `unknown` where the tool failed or said nothing.
pub open spec fn reported_version(succeeded: bool, stdout: Seq<char>) -> Seq<char> {
    if succeeded && stdout.len() > 0 {
        first_line(stdout)
    } else {
        "unknown"@
    }
}

/// The command whose outcome tells whether ZFS is there, and its version.
pub fn version_query() -> (r: Command)
    ensures
        r@ == version_command(),
{
    Command::new("zpool").arg("version")
}

/// Check if ZFS is available on the system, from the outcome of
/// [`version_query`]: it is when the tool ran and succeeded.
pub fn check_zfs_available(outcome: &Outcome) -> (r: Result<bool, InstallerError>)
    ensures
        r matches Ok(available) && available == (outcome matches Outcome::Exited(output)
            && output.succeeded()),
{
    match outcome {
        Outcome::Exited(output) => Ok(output.success()),
        _ => Ok(false),
    }
}

/// Get ZFS version, from the outcome of [`version_query`].
pub fn get_zfs_version(outcome: &Outcome) -> (r: Result<String, InstallerError>)
    ensures
        match outcome {
            Outcome::Exited(output) => r matches Ok(version) && version@ == reported_version(
                output.succeeded(),
                output.stdout@,
            ),
            Outcome::Failed(message) => r matches Err(e) && e@ == ErrorModel::Io(message@),
            Outcome::Done => r matches Ok(version) && version@ == "unknown"@,
        },
{
    match outcome {
        Outcome::Failed(message) => Err(InstallerError::Io(message.clone())),
        Outcome::Done => Ok(String::from_str("unknown")),
        Outcome::Exited(output) => {
            if !output.success() {
                return Ok(String::from_str("unknown"));
            }
            let chars = chars_of(output.stdout.as_str());
            if chars.len() == 0 {
                return Ok(String::from_str("unknown"));
            }
            let mut end: usize = 0;
            assert(chars@.subrange(0, chars.len() as int) =~= chars@);
            while end < chars.len() && chars[end] != '\n'
                invariant
                    end <= chars.len(),
                    first_break(chars@) == end + first_break(
                        chars@.subrange(end as int, chars.len() as int),
                    ),
                    chars@ == output.stdout@,
                decreases chars.len() - end,
            {
                proof {
                    let rest = chars@.subrange(end as int, chars.len() as int);
                    assert(rest.drop_first() =~= chars@.subrange(end + 1, chars.len() as int));
                }
                end += 1;
            }
            assert(first_break(chars@) == end);
            let stop: usize = if 0 < end && end < chars.len() && chars[end - 1] == '\r' {
                end - 1
            } else {
                end
            };
            Ok(slice_of(output.stdout.as_str(), 0, stop))
        },
    }
}

} // verus!
