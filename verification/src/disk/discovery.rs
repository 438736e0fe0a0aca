//! Device discovery
//!
//! Decides which of the block devices that the system lists are whole
//! devices worth offering, and resolves the paths a user gave to devices.

use crate::config::GIB;
use crate::disk::block_device::{
    device_models, device_of, BlockDevice, BlockDeviceModel, DeviceAttributes,
};
use crate::error::{ErrorModel, InstallerError};
use crate::order::{arranged, ascending, is_total_order, lemma_arranged, slot};
use crate::text::{
    all_digits, char_is_digit, chars_of, decimal, has_prefix, in_order, is_digit, joined,
    lemma_decimal_digits, lemma_in_order_total, lemma_in_order_transitive, same_text, slice_of,
    starts_with, text_in_order,
};
use vstd::prelude::*;
use vstd::string::*;

verus! {

/// Devices below this size are left out of a scan.
pub const MIN_LISTED_SIZE: u64 = GIB;

/// How many decimal digits `name` ends in.
pub open spec fn trailing_digits(name: Seq<char>) -> nat
    decreases name.len(),
{
    if name.len() > 0 && is_digit(name.last()) {
        1 + trailing_digits(name.drop_last())
    } else {
        0
    }
}

/// `name` looks like the name of a partition: it ends in a number, which
/// on NVMe devices must follow a `p`.
pub open spec fn names_partition(name: Seq<char>) -> bool {
    let digits = trailing_digits(name);
    digits > 0 && (has_prefix(name, "nvme"@) ==> digits < name.len() && name[name.len() - digits
        - 1] == 'p')
}

/// What stands behind a device's name in the name of one of its
/// partitions: a number, or a `p` and a number.
pub open spec fn is_partition_suffix(suffix: Seq<char>) -> bool {
    (suffix.len() > 0 && all_digits(suffix)) || (suffix.len() > 1 && suffix[0] == 'p'
        && all_digits(suffix.drop_first()))
}

/// `name` is the name of a partition of the device named `device`: the
/// device's name and a number behind it, with or without a `p` between
/// them.
pub open spec fn names_partition_of(name: Seq<char>, device: Seq<char>) -> bool {
    device.len() > 0 && has_prefix(name, device) && is_partition_suffix(
        name.skip(device.len() as int),
    )
}

/// `name` is the name of a partition of one of the devices that are
/// listed.
pub open spec fn listed_as_partition(name: Seq<char>, probes: Seq<DeviceProbe>) -> bool {
    exists|j: int|
        0 <= j < probes.len() && names_partition_of(name, (#[trigger] probes[j]).name@)
}

/// A device that is neither an optical drive nor, unless small devices are
/// asked for, smaller than 1 GiB.
pub open spec fn admits(device: BlockDeviceModel, include_small: bool) -> bool {
    (include_small || device.size >= MIN_LISTED_SIZE) && !has_prefix(device.name, "sr"@)
}

/// Where the last part of `path` begins: behind its last slash.
pub open spec fn last_part_start(path: Seq<char>) -> int
    decreases path.len(),
{
    if path.len() == 0 || path.last() == '/' {
        path.len() as int
    } else {
        last_part_start(path.drop_last())
    }
}

/// The base name of a path: its last part, where trailing slashes and
/// parts that are a single dot do not count. A path without parts, or
/// whose last part is `..`, has none.
pub open spec fn base_name(path: Seq<char>) -> Option<Seq<char>>
    decreases path.len(),
{
    if path.len() == 0 {
        None
    } else if path.last() == '/' {
        base_name(path.drop_last())
    } else if path.last() == '.' && (path.len() == 1 || path[path.len() - 2] == '/') {
        base_name(path.drop_last())
    } else {
        let part = path.skip(last_part_start(path));
        if part == seq!['.', '.'] {
            None
        } else {
            Some(part)
        }
    }
}

/// The name of partition `number` of the device named `device`.
pub open spec fn partition_name(device: Seq<char>, number: nat) -> Seq<char> {
    if has_prefix(device, "nvme"@) {
        device + "p"@ + decimal(number)
    } else {
        device + decimal(number)
    }
}

/// A text that ends in digits ends in at least that many digits.
pub proof fn lemma_trailing_digits(head: Seq<char>, digits: Seq<char>)
    requires
        all_digits(digits),
    ensures
        trailing_digits(head + digits) == digits.len() + trailing_digits(head),
    decreases digits.len(),
{
    if digits.len() == 0 {
        assert(head + digits =~= head);
    } else {
        let whole = head + digits;
        assert(whole.last() == digits.last());
        assert(whole.drop_last() =~= head + digits.drop_last());
        assert(all_digits(digits.drop_last())) by {
            assert forall|i: int| 0 <= i < digits.drop_last().len() implies is_digit(
                #[trigger] digits.drop_last()[i],
            ) by {
                assert(digits.drop_last()[i] == digits[i]);
            }
        }
        lemma_trailing_digits(head, digits.drop_last());
    }
}

/// Digits behind a name neither make nor break a prefix that holds no
/// digit.
pub proof fn lemma_prefix_survives_digits(name: Seq<char>, digits: Seq<char>, prefix: Seq<char>)
    requires
        all_digits(digits),
        forall|i: int| 0 <= i < prefix.len() ==> !is_digit(#[trigger] prefix[i]),
    ensures
        has_prefix(name + digits, prefix) == has_prefix(name, prefix),
{
    let whole = name + digits;
    let length = prefix.len() as int;
    if has_prefix(name, prefix) {
        assert(whole.subrange(0, length) =~= name.subrange(0, length));
    }
    if has_prefix(whole, prefix) {
        if name.len() >= prefix.len() {
            assert(whole.subrange(0, length) =~= name.subrange(0, length));
        } else {
            let at = name.len() as int;
            assert(whole.subrange(0, length)[at] == digits[0]);
            assert(is_digit(digits[0]));
            assert(!is_digit(prefix[at]));
        }
    }
}

/// The names that partitions are given are names of partitions.
pub proof fn lemma_partition_names_are_partitions(device: Seq<char>, number: nat)
    ensures
        names_partition(partition_name(device, number)),
{
    reveal_strlit("nvme");
    reveal_strlit("p");
    let digits = decimal(number);
    lemma_decimal_digits(number);
    let name = partition_name(device, number);
    if has_prefix(device, "nvme"@) {
        let head = device + "p"@;
        assert(head.last() == 'p');
        assert(trailing_digits(head) == 0);
        lemma_trailing_digits(head, digits);
        assert(name[name.len() - digits.len() - 1] == head.last());
    } else {
        lemma_trailing_digits(device, digits);
        lemma_prefix_survives_digits(device, digits, "nvme"@);
    }
}

/// One entry of the list of block devices, with what was read of it.
#[derive(Debug)]
pub struct DeviceProbe {
    /// Name of the entry.
    pub name: String,
    /// What was read of the entry's attribute directory.
    pub attributes: DeviceAttributes,
}

/// What listing the system's block devices gave.
#[derive(Debug)]
pub enum BlockListing {
    /// There is no such list on this system.
    Missing,
    /// The list could not be read, with the message of the operating system.
    Unreadable(String),
    /// The entries, in the order in which they were listed.
    Entries(Vec<DeviceProbe>),
}

/// The device that a scan keeps for the `i`-th of the listed entries, if
/// it keeps one: the entry is no partition of another entry and no loop
/// device, it can be read, and it is admitted.
pub open spec fn kept_device(probes: Seq<DeviceProbe>, i: int, include_small: bool) -> Option<
    BlockDeviceModel,
> {
    let probe = probes[i];
    if !listed_as_partition(probe.name@, probes) && !has_prefix(probe.name@, "loop"@) {
        match device_of(probe.name@, &probe.attributes) {
            Ok(device) => if admits(device, include_small) {
                Some(device)
            } else {
                None
            },
            Err(_) => None,
        }
    } else {
        None
    }
}

/// The devices that a scan keeps of the first `count` entries, in the
/// order of the entries.
pub open spec fn kept_devices(probes: Seq<DeviceProbe>, count: nat, include_small: bool) -> Seq<
    BlockDeviceModel,
>
    decreases count,
{
    if count == 0 {
        Seq::empty()
    } else {
        let before = kept_devices(probes, (count - 1) as nat, include_small);
        match kept_device(probes, count - 1, include_small) {
            Some(device) => before.push(device),
            None => before,
        }
    }
}

/// Devices compare by their names, in the order of dictionaries.
pub open spec fn name_order() -> spec_fn(BlockDeviceModel, BlockDeviceModel) -> bool {
    |a: BlockDeviceModel, b: BlockDeviceModel| in_order(a.name, b.name)
}

/// `devices` ordered by name.
pub open spec fn by_name(devices: Seq<BlockDeviceModel>) -> Seq<BlockDeviceModel> {
    arranged(devices, name_order())
}

/// What a scan of `listing` gives.
pub open spec fn scan_result(listing: &BlockListing, include_small: bool) -> Result<
    Seq<BlockDeviceModel>,
    ErrorModel,
> {
    match listing {
        BlockListing::Missing => Err(
            ErrorModel::SystemError("/sys/class/block not found - are you on Linux?"@),
        ),
        BlockListing::Unreadable(message) => Err(ErrorModel::Io(message@)),
        BlockListing::Entries(probes) => Ok(
            by_name(kept_devices(probes@, probes@.len(), include_small)),
        ),
    }
}

/// The attributes read for the `i`-th path, where there are any.
pub open spec fn attributes_at(attributes: Seq<DeviceAttributes>, i: int) -> Option<
    DeviceAttributes,
> {
    if 0 <= i < attributes.len() {
        Some(attributes[i])
    } else {
        None
    }
}

/// The device that the path `path` resolves to, or why it does not
/// resolve: a path without base name names no device, and neither does one
/// for which nothing was read.
pub open spec fn resolved(path: Seq<char>, attributes: Option<DeviceAttributes>) -> Result<
    BlockDeviceModel,
    ErrorModel,
> {
    match base_name(path) {
        None => Err(ErrorModel::DeviceNotFound(path)),
        Some(name) => match attributes {
            Some(attrs) => device_of(name, &attrs),
            None => Err(ErrorModel::DeviceNotFound("/dev/"@ + name)),
        },
    }
}

/// Dictionary order on names is a total order of devices.
pub proof fn lemma_name_order_total()
    ensures
        is_total_order(name_order()),
{
    let leq = name_order();
    assert forall|a: BlockDeviceModel, b: BlockDeviceModel| #[trigger] leq(a, b) || leq(b, a) by {
        lemma_in_order_total(a.name, b.name);
    }
    assert forall|a: BlockDeviceModel, b: BlockDeviceModel, c: BlockDeviceModel| #[trigger]
        leq(a, b) && #[trigger] leq(b, c) implies leq(a, c) by {
        lemma_in_order_transitive(a.name, b.name, c.name);
    }
}

/// The base name of a path, if it has one.
pub fn device_name(path: &str) -> (r: Option<String>)
    ensures
        match r {
            Some(name) => base_name(path@) == Some(name@),
            None => base_name(path@) is None,
        },
{
    let chars = chars_of(path);
    let mut end: usize = chars.len();
    assert(chars@.take(end as int) =~= chars@);
    while end > 0 && (chars[end - 1] == '/' || (chars[end - 1] == '.' && (end == 1 || chars[end
        - 2] == '/')))
        invariant
            end <= chars.len(),
            base_name(chars@) == base_name(chars@.take(end as int)),
        decreases end,
    {
        proof {
            let upto = chars@.take(end as int);
            assert(upto.drop_last() =~= chars@.take(end - 1));
            assert(upto.last() == chars@[end - 1]);
            if end >= 2 {
                assert(upto[upto.len() - 2] == chars@[end - 2]);
            }
        }
        end -= 1;
    }
    let ghost kept = chars@.take(end as int);
    if end == 0 {
        return None;
    }
    proof {
        assert(kept.last() == chars@[end - 1]);
        if end >= 2 {
            assert(kept[kept.len() - 2] == chars@[end - 2]);
        }
    }
    let mut start: usize = end;
    assert(kept.take(start as int) =~= kept);
    while start > 0 && chars[start - 1] != '/'
        invariant
            start <= end <= chars.len(),
            kept == chars@.take(end as int),
            last_part_start(kept) == last_part_start(kept.take(start as int)),
        decreases start,
    {
        proof {
            let upto = kept.take(start as int);
            assert(upto.drop_last() =~= kept.take(start - 1));
            assert(upto.last() == chars@[start - 1]);
        }
        start -= 1;
    }
    proof {
        let upto = kept.take(start as int);
        if start > 0 {
            assert(upto.last() == chars@[start - 1]);
        }
        assert(last_part_start(kept) == start);
        assert(kept.skip(start as int) =~= path@.subrange(start as int, end as int));
    }
    let part = slice_of(path, start, end);
    proof {
        reveal_strlit("..");
        assert(".."@ =~= seq!['.', '.']);
    }
    if same_text(part.as_str(), "..") {
        None
    } else {
        Some(part)
    }
}

/// Puts `device` into the list `sorted`, behind every device whose name
/// does not stand behind its name.
fn insert_by_name(sorted: &mut Vec<BlockDevice>, device: BlockDevice)
    ensures
        device_models(final(sorted)@) == device_models(old(sorted)@).insert(
            slot(device_models(old(sorted)@), device@, name_order()),
            device@,
        ),
{
    let ghost models = device_models(sorted@);
    let ghost item = device@;
    let mut at: usize = sorted.len();
    assert(models.take(at as int) =~= models);
    while at > 0 && !text_in_order(sorted[at - 1].name.as_str(), device.name.as_str())
        invariant
            at <= sorted.len(),
            models == device_models(sorted@),
            item == device@,
            slot(models, item, name_order()) == slot(models.take(at as int), item, name_order()),
        decreases at,
    {
        proof {
            let upto = models.take(at as int);
            assert(upto.last() == sorted@[at - 1]@);
            assert(upto.drop_last() =~= models.take(at - 1));
        }
        at -= 1;
    }
    proof {
        let upto = models.take(at as int);
        if at > 0 {
            assert(upto.last() == sorted@[at - 1]@);
        }
        assert(slot(upto, item, name_order()) == at);
    }
    let ghost before = sorted@;
    sorted.insert(at, device);
    assert(device_models(sorted@) =~= device_models(before).insert(at as int, device@));
}

/// Device discovery manager
#[derive(Debug)]
pub struct DeviceDiscovery {
    /// List devices below 1 GiB too.
    pub include_small: bool,
}

impl DeviceDiscovery {
    /// Create a new device discovery manager
    pub fn new() -> (r: Result<Self, InstallerError>)
        ensures
            r matches Ok(discovery) && !discovery.include_small,
    {
        Ok(DeviceDiscovery { include_small: false })
    }

    /// The same manager, which lists devices below 1 GiB too.
    pub fn with_small_devices(self) -> (r: Self)
        ensures
            r.include_small,
    {
        DeviceDiscovery { include_small: true }
    }

    /// Check if a device name represents a partition
    pub fn is_partition(name: &str) -> (r: bool)
        ensures
            r == names_partition(name@),
    {
        let chars = chars_of(name);
        let mut rest: usize = chars.len();
        assert(chars@.take(rest as int) =~= chars@);
        while rest > 0 && char_is_digit(chars[rest - 1])
            invariant
                rest <= chars.len(),
                trailing_digits(chars@) == (chars.len() - rest) + trailing_digits(
                    chars@.take(rest as int),
                ),
            decreases rest,
        {
            proof {
                let upto = chars@.take(rest as int);
                assert(upto.last() == chars@[rest - 1]);
                assert(upto.drop_last() =~= chars@.take(rest - 1));
            }
            rest -= 1;
        }
        proof {
            let upto = chars@.take(rest as int);
            if rest > 0 {
                assert(upto.last() == chars@[rest - 1]);
            }
            assert(trailing_digits(chars@) == chars.len() - rest);
        }
        if rest == chars.len() {
            return false;
        }
        if starts_with(name, "nvme") {
            rest > 0 && chars[rest - 1] == 'p'
        } else {
            true
        }
    }

    /// Whether `name` is the name of a partition of the device named
    /// `device`.
    pub fn is_partition_of(name: &str, device: &str) -> (r: bool)
        ensures
            r == names_partition_of(name@, device@),
    {
        let chars = chars_of(name);
        let from = device.unicode_len();
        if from == 0 || !starts_with(name, device) || from >= chars.len() {
            return false;
        }
        let ghost suffix = chars@.skip(from as int);
        let first: usize = if chars[from] == 'p' {
            from + 1
        } else {
            from
        };
        if first >= chars.len() {
            assert(!is_digit(suffix[0]));
            return false;
        }
        let ghost digits = chars@.skip(first as int);
        assert(first > from ==> digits =~= suffix.drop_first());
        assert(suffix[0] == chars@[from as int]);
        let mut i: usize = first;
        while i < chars.len()
            invariant
                first <= i <= chars.len(),
                from < chars.len(),
                chars@ == name@,
                from == device@.len(),
                has_prefix(name@, device@),
                suffix == chars@.skip(from as int),
                digits == chars@.skip(first as int),
                first == from && suffix[0] != 'p' && digits == suffix || first == from + 1
                    && suffix[0] == 'p' && digits == suffix.drop_first(),
                forall|j: int| 0 <= j < i - first ==> is_digit(#[trigger] digits[j]),
            decreases chars.len() - i,
        {
            if !char_is_digit(chars[i]) {
                assert(!is_digit(digits[i - first]));
                assert(!is_digit(suffix[0]) || first == from);
                return false;
            }
            i += 1;
        }
        assert(all_digits(digits));
        assert(first > from ==> suffix[0] == 'p');
        assert(first == from ==> suffix[0] != 'p');
        true
    }

    /// Whether `name` is the name of a partition of one of the devices
    /// that are listed.
    pub fn is_listed_partition(name: &str, probes: &Vec<DeviceProbe>) -> (r: bool)
        ensures
            r == listed_as_partition(name@, probes@),
    {
        let mut j: usize = 0;
        while j < probes.len()
            invariant
                j <= probes.len(),
                forall|k: int| 0 <= k < j ==> !names_partition_of(name@, (#[trigger] probes@[k]).name@),
            decreases probes.len() - j,
        {
            if Self::is_partition_of(name, probes[j].name.as_str()) {
                return true;
            }
            j += 1;
        }
        false
    }

    /// Determine if a device should be included in results
    pub fn should_include(device: &BlockDevice) -> (r: bool)
        ensures
            r == admits(device@, false),
    {
        device.size >= MIN_LISTED_SIZE && !starts_with(device.name.as_str(), "sr")
    }

    /// Determine if this manager includes a device in its results.
    pub fn includes(&self, device: &BlockDevice) -> (r: bool)
        ensures
            r == admits(device@, self.include_small),
    {
        (self.include_small || device.size >= MIN_LISTED_SIZE) && !starts_with(
            device.name.as_str(),
            "sr",
        )
    }

    /// Scan for all block devices: of the listed entries, the whole devices
    /// that can be read and are included, ordered by name. An entry whose
    /// name is another entry's name and a number behind it, with or
    /// without a `p` between them, is a partition and no whole device.
    pub fn scan_devices(&self, listing: &BlockListing) -> (r: Result<
        Vec<BlockDevice>,
        InstallerError,
    >)
        ensures
            match r {
                Ok(devices) => scan_result(listing, self.include_small) == Ok::<
                    Seq<BlockDeviceModel>,
                    ErrorModel,
                >(device_models(devices@)) && ascending(device_models(devices@), name_order()),
                Err(e) => scan_result(listing, self.include_small) == Err::<
                    Seq<BlockDeviceModel>,
                    ErrorModel,
                >(e@),
            },
    {
        match listing {
            BlockListing::Missing => Err(
                InstallerError::SystemError(
                    String::from_str("/sys/class/block not found - are you on Linux?"),
                ),
            ),
            BlockListing::Unreadable(message) => Err(InstallerError::Io(message.clone())),
            BlockListing::Entries(probes) => Ok(self.scan_entries(probes)),
        }
    }

    /// The devices that a scan keeps of `probes`, ordered by name.
    pub fn scan_entries(&self, probes: &Vec<DeviceProbe>) -> (r: Vec<BlockDevice>)
        ensures
            device_models(r@) == by_name(
                kept_devices(probes@, probes@.len(), self.include_small),
            ),
            ascending(device_models(r@), name_order()),
    {
        let mut devices: Vec<BlockDevice> = Vec::new();
        assert(device_models(devices@) =~= Seq::empty());
        let mut i: usize = 0;
        while i < probes.len()
            invariant
                i <= probes.len(),
                device_models(devices@) == by_name(
                    kept_devices(probes@, i as nat, self.include_small),
                ),
            decreases probes.len() - i,
        {
            let probe = &probes[i];
            if !Self::is_listed_partition(probe.name.as_str(), probes) && !starts_with(
                probe.name.as_str(),
                "loop",
            ) {
                match BlockDevice::from_name(probe.name.as_str(), &probe.attributes) {
                    Ok(device) => {
                        if self.includes(&device) {
                            proof {
                                let so_far = kept_devices(
                                    probes@,
                                    i as nat,
                                    self.include_small,
                                );
                                assert(so_far.push(device@).drop_last() =~= so_far);
                            }
                            insert_by_name(&mut devices, device);
                        }
                    },
                    Err(_) => {},
                }
            }
            i += 1;
        }
        proof {
            lemma_name_order_total();
            lemma_arranged(
                kept_devices(probes@, probes@.len(), self.include_small),
                name_order(),
            );
        }
        devices
    }

    /// Find a specific device by name, given what was read of it.
    pub fn find_device(&self, name: &str, attributes: &DeviceAttributes) -> (r: Result<
        BlockDevice,
        InstallerError,
    >)
        ensures
            match r {
                Ok(device) => device_of(name@, attributes) == Ok::<BlockDeviceModel, ErrorModel>(
                    device@,
                ),
                Err(e) => device_of(name@, attributes) == Err::<BlockDeviceModel, ErrorModel>(e@),
            },
    {
        BlockDevice::from_name(name, attributes)
    }

    /// Resolves one path to a device, given what was read for it.
    pub fn find_device_by_path(&self, path: &str, attributes: Option<&DeviceAttributes>) -> (r:
        Result<BlockDevice, InstallerError>)
        ensures
            match r {
                Ok(device) => resolved(path@, dereferenced(attributes)) == Ok::<
                    BlockDeviceModel,
                    ErrorModel,
                >(device@),
                Err(e) => resolved(path@, dereferenced(attributes)) == Err::<
                    BlockDeviceModel,
                    ErrorModel,
                >(e@),
            },
    {
        match device_name(path) {
            None => Err(InstallerError::DeviceNotFound(String::from_str(path))),
            Some(name) => match attributes {
                Some(attrs) => BlockDevice::from_name(name.as_str(), attrs),
                None => Err(InstallerError::DeviceNotFound(joined("/dev/", name.as_str()))),
            },
        }
    }

    /// Find devices by path. `attributes` holds, for each path in turn,
    /// what was read of the device that the path's base name names. The
    /// first path that does not resolve decides the error.
    pub fn find_devices_by_path(&self, paths: &[String], attributes: &Vec<DeviceAttributes>) -> (r:
        Result<Vec<BlockDevice>, InstallerError>)
        ensures
            match r {
                Ok(devices) => {
                    &&& devices@.len() == paths@.len()
                    &&& forall|i: int|
                        0 <= i < paths@.len() ==> resolved(
                            (#[trigger] paths@[i])@,
                            attributes_at(attributes@, i),
                        ) == Ok::<BlockDeviceModel, ErrorModel>(devices@[i]@)
                },
                Err(e) => exists|k: int|
                    {
                        &&& 0 <= k < paths@.len()
                        &&& resolved((#[trigger] paths@[k])@, attributes_at(attributes@, k))
                            == Err::<BlockDeviceModel, ErrorModel>(e@)
                        &&& forall|i: int|
                            0 <= i < k ==> resolved(
                                (#[trigger] paths@[i])@,
                                attributes_at(attributes@, i),
                            ) is Ok
                    },
            },
    {
        let mut devices: Vec<BlockDevice> = Vec::new();
        let mut i: usize = 0;
        while i < paths.len()
            invariant
                i <= paths.len(),
                devices@.len() == i,
                forall|j: int|
                    0 <= j < i ==> resolved((#[trigger] paths@[j])@, attributes_at(attributes@, j))
                        == Ok::<BlockDeviceModel, ErrorModel>(devices@[j]@),
            decreases paths.len() - i,
        {
            let read: Option<&DeviceAttributes> = if i < attributes.len() {
                Some(&attributes[i])
            } else {
                None
            };
            match self.find_device_by_path(paths[i].as_str(), read) {
                Ok(device) => {
                    devices.push(device);
                },
                Err(e) => {
                    assert(resolved(paths@[i as int]@, attributes_at(attributes@, i as int))
                        == Err::<BlockDeviceModel, ErrorModel>(e@));
                    return Err(e);
                },
            }
            i += 1;
        }
        Ok(devices)
    }
}

/// The attributes behind an optional reference.
pub open spec fn dereferenced(attributes: Option<&DeviceAttributes>) -> Option<DeviceAttributes> {
    match attributes {
        Some(attrs) => Some(*attrs),
        None => None,
    }
}

} // verus!
