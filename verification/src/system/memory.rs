//! Facts about the running system that are read from text.

use crate::command::{Command, CommandModel, Executor, FailurePolicy, Step, StepModel};
use crate::disk::block_device::reading_view;
use crate::error::{ErrorModel, InstallerError};
use crate::text::{
    has_prefix, lines, parse_number, parse_u64, second_word, second_word_of, split_lines,
    starts_with, views, NumberError,
};
use vstd::prelude::*;
use vstd::string::*;

verus! {

/// The memory that the first `MemTotal:` line with a value gives, in the
/// unit in which the line gives it; 0 where there is no such line.
pub open spec fn memory_total(lines: Seq<Seq<char>>) -> Result<nat, NumberError>
    decreases lines.len(),
{
    if lines.len() == 0 {
        Ok(0)
    } else if has_prefix(lines[0], "MemTotal:"@) && second_word(lines[0]) is Some {
        parse_number(second_word(lines[0])->0, u64::MAX as nat)
    } else {
        memory_total(lines.drop_first())
    }
}

/// The system's memory in KB as the memory table `meminfo` gives it, where
/// `meminfo` is the table or the message with which reading it failed.
pub open spec fn memory_reading(meminfo: Result<Seq<char>, Seq<char>>) -> Result<nat, ErrorModel> {
    match meminfo {
        Err(message) => Err(ErrorModel::Io(message)),
        Ok(table) => match memory_total(lines(table)) {
            Ok(kb) => Ok(kb),
            Err(e) => Err(ErrorModel::ParseError(e.message())),
        },
    }
}

/// `sync`: flushes file system buffers.
pub open spec fn sync_command() -> CommandModel {
    CommandModel::bare("sync"@)
}

/// The memory in KB that the memory table `table` gives.
pub fn memory_from_table(table: &str) -> (r: Result<u64, NumberError>)
    ensures
        match r {
            Ok(kb) => memory_total(lines(table@)) == Ok::<nat, NumberError>(kb as nat),
            Err(e) => memory_total(lines(table@)) == Err::<nat, NumberError>(e),
        },
{
    let rows = split_lines(table);
    let ghost all = views(rows@);
    let mut i: usize = 0;
    assert(all.skip(0) =~= all);
    while i < rows.len()
        invariant
            i <= rows.len(),
            all == views(rows@),
            all == lines(table@),
            memory_total(all) == memory_total(all.skip(i as int)),
        decreases rows.len() - i,
    {
        let ghost rest = all.skip(i as int);
        assert(rest[0] == rows@[i as int]@);
        assert(rest.drop_first() =~= all.skip(i + 1));
        if starts_with(rows[i].as_str(), "MemTotal:") {
            match second_word_of(rows[i].as_str()) {
                Some(value) => {
                    return parse_u64(value.as_str());
                },
                None => {},
            }
        }
        i += 1;
    }
    assert(all.skip(rows.len() as int) =~= Seq::empty());
    Ok(0)
}

/// Get system memory in KB, from the kernel's memory table or the message
/// with which reading it failed.
pub fn get_system_memory_kb(meminfo: &Result<String, String>) -> (r: Result<u64, InstallerError>)
    ensures
        match r {
            Ok(kb) => memory_reading(reading_view(meminfo)) == Ok::<nat, ErrorModel>(kb as nat),
            Err(e) => memory_reading(reading_view(meminfo)) == Err::<nat, ErrorModel>(e@),
        },
{
    match meminfo {
        Err(message) => Err(InstallerError::Io(message.clone())),
        Ok(table) => match memory_from_table(table.as_str()) {
            Ok(kb) => Ok(kb),
            Err(e) => Err(InstallerError::ParseError(String::from_str(e.as_str()))),
        },
    }
}

/// Sync filesystems: one step whose exit status does not matter.
pub fn sync(dry_run: bool) -> (r: Step)
    ensures
        r@ == StepModel::run(sync_command(), FailurePolicy::Tolerate, dry_run),
{
    Executor::new(dry_run).run(Command::new("sync"), FailurePolicy::Tolerate)
}

} // verus!
