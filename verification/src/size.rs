//! Byte counts as people write and read them, by way of the `bytesize`
//! crate.

use crate::config::{GIB, KIB, MIB};
use crate::error::{ErrorModel, InstallerError};
use crate::text::{decimal, decimal_string, framed};
use vstd::prelude::*;
use vstd::string::*;

verus! {

/// The text with which `bytesize` shows a count of bytes, in binary units
/// with one decimal place.
pub uninterp spec fn byte_size_text(bytes: u64) -> Seq<char>;

/// What `bytesize` reads from a text such as `512M` or `1.5GiB`: the count
/// of bytes, or its complaint.
pub uninterp spec fn byte_size_parse(text: Seq<char>) -> Result<u64, Seq<char>>;

/// `Display` of `bytesize::ByteSize`, by way of `to_string`, for the count
/// `bytes`. Trusted: the text depends on the count alone and is the one
/// named by [`byte_size_text`].
#[verifier::external_body]
pub(crate) fn format_byte_size(bytes: u64) -> (r: String)
    ensures
        r@ == byte_size_text(bytes),
{
    bytesize::ByteSize(bytes).to_string()
}

/// `FromStr` of `bytesize::ByteSize`. Trusted: the outcome depends on the
/// text alone and is the one named by [`byte_size_parse`]; on failure the
/// crate's message comes back.
#[verifier::external_body]
pub(crate) fn read_byte_size(text: &str) -> (r: Result<u64, String>)
    ensures
        match r {
            Ok(bytes) => byte_size_parse(text@) == Ok::<u64, Seq<char>>(bytes),
            Err(complaint) => byte_size_parse(text@) == Err::<u64, Seq<char>>(complaint@),
        },
{
    match text.parse::<bytesize::ByteSize>() {
        Ok(size) => Ok(size.0),
        Err(complaint) => Err(complaint),
    }
}

/// The unit in which the partitioning tool is given a size: the largest
/// of GiB, MiB and KiB that divides the size; KiB where none does.
pub open spec fn size_unit(size: u64) -> u64 {
    if size % GIB == 0 {
        GIB
    } else if size % MIB == 0 {
        MIB
    } else {
        KIB
    }
}

/// How many units the partitioning tool is given for a size: the fewest
/// that hold the size.
pub open spec fn size_count(size: u64) -> nat {
    let unit = size_unit(size);
    if size % unit == 0 {
        (size / unit) as nat
    } else {
        (size / unit + 1) as nat
    }
}

/// How a unit is written behind a number.
pub open spec fn unit_suffix(unit: u64) -> Seq<char> {
    if unit == GIB {
        "GiB"@
    } else if unit == MIB {
        "MiB"@
    } else {
        "KiB"@
    }
}

/// The bytes that stand behind the size as the partitioning tool is given
/// it.
pub open spec fn planned_bytes(size: u64) -> nat {
    (size_count(size) * size_unit(size)) as nat
}

/// A size as the partitioning tool is given it: `+`, the number of units
/// and the unit.
pub open spec fn size_argument(size: u64) -> Seq<char> {
    "+"@ + decimal(size_count(size)) + unit_suffix(size_unit(size))
}

/// What the partitioning tool is given stands for the size: the units
/// hold the size, and one unit less would not. A size that its unit
/// divides is given exactly, and no size above nothing is given as
/// nothing.
pub proof fn lemma_planned_size(size: u64)
    ensures
        size_count(size) * size_unit(size) >= size,
        size > 0 ==> size_count(size) > 0 && size > (size_count(size) - 1) * size_unit(size),
        size % size_unit(size) == 0 ==> planned_bytes(size) == size,
        size % GIB == 0 || size % MIB == 0 || size % KIB == 0 ==> planned_bytes(size) == size,
        planned_bytes(size) < size + KIB,
{
    let unit = size_unit(size);
    let whole = size / unit;
    assert(size == whole * unit + size % unit) by (nonlinear_arith)
        requires
            unit > 0,
            whole == size / unit,
    ;
    assert((whole + 1) * unit == whole * unit + unit) by (nonlinear_arith);
    assert((whole - 1) * unit == whole * unit - unit) by (nonlinear_arith);
    if size % unit != 0 {
        assert(unit == KIB);
    }
}

/// Writes a size as the partitioning tool is given it: in units that hold
/// the size, of which one less would not.
pub fn partition_size_argument(size: u64) -> (r: String)
    ensures
        r@ == size_argument(size),
        size_count(size) * size_unit(size) >= size,
        size > 0 ==> size_count(size) > 0 && size > (size_count(size) - 1) * size_unit(size),
{
    proof {
        lemma_planned_size(size);
    }
    let unit: u64 = if size % GIB == 0 {
        GIB
    } else if size % MIB == 0 {
        MIB
    } else {
        KIB
    };
    let count: u64 = if size % unit == 0 {
        size / unit
    } else {
        size / unit + 1
    };
    let suffix = if unit == GIB {
        "GiB"
    } else if unit == MIB {
        "MiB"
    } else {
        "KiB"
    };
    framed("+", decimal_string(count).as_str(), suffix)
}

/// What [`parse_size`] makes of a reading of `text`.
pub open spec fn size_reading(text: Seq<char>, parsed: Result<u64, Seq<char>>) -> Result<
    u64,
    ErrorModel,
> {
    match parsed {
        Ok(bytes) => Ok(bytes),
        Err(complaint) => Err(
            ErrorModel::ParseError("Invalid size '"@ + text + "': "@ + complaint),
        ),
    }
}

/// Turns a reading of the size `text` into the size or a parse error that
/// quotes the text.
pub fn size_from_reading(text: &str, parsed: Result<u64, String>) -> (r: Result<
    u64,
    InstallerError,
>)
    ensures
        match r {
            Ok(bytes) => size_reading(text@, view_reading(parsed)) == Ok::<u64, ErrorModel>(bytes),
            Err(e) => size_reading(text@, view_reading(parsed)) == Err::<u64, ErrorModel>(e@),
        },
{
    match parsed {
        Ok(bytes) => Ok(bytes),
        Err(complaint) => {
            let mut msg = framed("Invalid size '", text, "': ");
            msg.append(complaint.as_str());
            Err(InstallerError::ParseError(msg))
        },
    }
}

/// The model of a reading.
pub open spec fn view_reading(parsed: Result<u64, String>) -> Result<u64, Seq<char>> {
    match parsed {
        Ok(bytes) => Ok(bytes),
        Err(complaint) => Err(complaint@),
    }
}

/// Reads a size given by the user, such as `512M`, `1G` or `8GiB`.
pub fn parse_size(text: &str) -> (r: Result<u64, InstallerError>)
    ensures
        match r {
            Ok(bytes) => size_reading(text@, byte_size_parse(text@)) == Ok::<u64, ErrorModel>(
                bytes,
            ),
            Err(e) => size_reading(text@, byte_size_parse(text@)) == Err::<u64, ErrorModel>(e@),
        },
{
    let parsed = read_byte_size(text);
    size_from_reading(text, parsed)
}

} // verus!
