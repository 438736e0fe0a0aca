//! Configuration of one installation run, and the rules it must meet.

use crate::error::{ErrorModel, InstallerError};
use crate::text::{occurs_at, 
    char_is_ascii_alphanumeric, chars_of, decimal, decimal_string, is_ascii_alphanumeric, joined,
};
use vstd::prelude::*;
use vstd::string::*;

verus! {

/// Number of bytes in one kibibyte.
pub const KIB: u64 = 1_024;

/// Number of bytes in one mebibyte.
pub const MIB: u64 = 1_048_576;

/// Number of bytes in one gibibyte.
pub const GIB: u64 = 1_073_741_824;

/// Smallest EFI system partition that is accepted.
pub const MIN_EFI_SIZE: u64 = 100 * MIB;

/// Space kept for the pool on every device, beside EFI and swap.
pub const MIN_POOL_SIZE: u64 = 10 * GIB;

/// Installation mode
#[derive(Debug, Clone, Copy, PartialEq, Eq, Structural)]
pub enum InstallMode {
    /// Fresh installation on empty drives
    New,
    /// Migrate existing system to ZFS
    Existing,
}

impl InstallMode {
    /// Name shown to the user.
    pub open spec fn name(self) -> Seq<char> {
        match self {
            InstallMode::New => "New Installation"@,
            InstallMode::Existing => "Migrate Existing System"@,
        }
    }

    /// Name shown to the user.
    pub fn to_string(&self) -> (r: String)
        ensures
            r@ == self.name(),
    {
        match self {
            InstallMode::New => String::from_str("New Installation"),
            InstallMode::Existing => String::from_str("Migrate Existing System"),
        }
    }
}

/// ZFS RAID level
#[derive(Debug, Clone, Copy, PartialEq, Eq, Structural)]
pub enum RaidLevel {
    /// No redundancy (single device or striped)
    NoRedundancy,
    /// Mirror (RAID1)
    Mirror,
    /// RAIDZ1 (single parity)
    Raidz1,
    /// RAIDZ2 (double parity)
    Raidz2,
    /// RAIDZ3 (triple parity)
    Raidz3,
}

impl RaidLevel {
    /// Position in the order NoRedundancy, Mirror, Raidz1, Raidz2, Raidz3.
    pub open spec fn rank(self) -> nat {
        match self {
            RaidLevel::NoRedundancy => 0,
            RaidLevel::Mirror => 1,
            RaidLevel::Raidz1 => 2,
            RaidLevel::Raidz2 => 3,
            RaidLevel::Raidz3 => 4,
        }
    }

    /// Fewest drives a pool of this level can be built from.
    pub open spec fn required_drives(self) -> nat {
        self.rank() + 1
    }

    /// Keyword that `zpool create` takes for this level, if it takes one.
    pub open spec fn vdev_keyword(self) -> Option<Seq<char>> {
        match self {
            RaidLevel::NoRedundancy => None,
            RaidLevel::Mirror => Some("mirror"@),
            RaidLevel::Raidz1 => Some("raidz1"@),
            RaidLevel::Raidz2 => Some("raidz2"@),
            RaidLevel::Raidz3 => Some("raidz3"@),
        }
    }

    /// Short name, as written in messages.
    pub open spec fn name(self) -> Seq<char> {
        match self {
            RaidLevel::NoRedundancy => "none"@,
            RaidLevel::Mirror => "mirror"@,
            RaidLevel::Raidz1 => "raidz1"@,
            RaidLevel::Raidz2 => "raidz2"@,
            RaidLevel::Raidz3 => "raidz3"@,
        }
    }

    /// One-line explanation of the redundancy.
    pub open spec fn summary(self) -> Seq<char> {
        match self {
            RaidLevel::NoRedundancy => "No redundancy"@,
            RaidLevel::Mirror => "RAID1 - Can lose N-1 drives"@,
            RaidLevel::Raidz1 => "RAID5 equivalent - Can lose 1 drive"@,
            RaidLevel::Raidz2 => "RAID6 equivalent - Can lose 2 drives"@,
            RaidLevel::Raidz3 => "Can lose 3 drives"@,
        }
    }

    /// Get minimum number of drives required for this RAID level
    pub fn min_drives(&self) -> (r: usize)
        ensures
            r == self.required_drives(),
    {
        match self {
            RaidLevel::NoRedundancy => 1,
            RaidLevel::Mirror => 2,
            RaidLevel::Raidz1 => 3,
            RaidLevel::Raidz2 => 4,
            RaidLevel::Raidz3 => 5,
        }
    }

    /// Get the ZFS vdev type string
    pub fn vdev_type(&self) -> (r: Option<&'static str>)
        ensures
            r is Some == self.vdev_keyword() is Some,
            r matches Some(word) ==> self.vdev_keyword() == Some(word@),
    {
        match self {
            RaidLevel::NoRedundancy => None,
            RaidLevel::Mirror => Some("mirror"),
            RaidLevel::Raidz1 => Some("raidz1"),
            RaidLevel::Raidz2 => Some("raidz2"),
            RaidLevel::Raidz3 => Some("raidz3"),
        }
    }

    /// Get description of RAID level
    pub fn description(&self) -> (r: &'static str)
        ensures
            r@ == self.summary(),
    {
        match self {
            RaidLevel::NoRedundancy => "No redundancy",
            RaidLevel::Mirror => "RAID1 - Can lose N-1 drives",
            RaidLevel::Raidz1 => "RAID5 equivalent - Can lose 1 drive",
            RaidLevel::Raidz2 => "RAID6 equivalent - Can lose 2 drives",
            RaidLevel::Raidz3 => "Can lose 3 drives",
        }
    }

    /// Short name, as written in messages.
    pub fn to_string(&self) -> (r: String)
        ensures
            r@ == self.name(),
    {
        match self {
            RaidLevel::NoRedundancy => String::from_str("none"),
            RaidLevel::Mirror => String::from_str("mirror"),
            RaidLevel::Raidz1 => String::from_str("raidz1"),
            RaidLevel::Raidz2 => String::from_str("raidz2"),
            RaidLevel::Raidz3 => String::from_str("raidz3"),
        }
    }
}

/// ZFS compression algorithm
#[derive(Debug, Clone, Copy, PartialEq, Eq, Structural)]
pub enum Compression {
    Off,
    Lz4,
    Zstd,
    Gzip,
    Lzjb,
}

impl Compression {
    /// Value of the `compression` property.
    pub open spec fn name(self) -> Seq<char> {
        match self {
            Compression::Off => "off"@,
            Compression::Lz4 => "lz4"@,
            Compression::Zstd => "zstd"@,
            Compression::Gzip => "gzip"@,
            Compression::Lzjb => "lzjb"@,
        }
    }

    /// Value of the `compression` property.
    pub fn as_str(&self) -> (r: &'static str)
        ensures
            r@ == self.name(),
    {
        match self {
            Compression::Off => "off",
            Compression::Lz4 => "lz4",
            Compression::Zstd => "zstd",
            Compression::Gzip => "gzip",
            Compression::Lzjb => "lzjb",
        }
    }

    /// Value of the `compression` property.
    pub fn to_string(&self) -> (r: String)
        ensures
            r@ == self.name(),
    {
        String::from_str(self.as_str())
    }
}

impl Default for Compression {
    fn default() -> (r: Self)
        ensures
            r == Compression::Zstd,
    {
        Compression::Zstd
    }
}

/// What stands between the messages of several violations.
pub const VIOLATION_SEPARATOR: &'static str = "; ";

/// Several messages as one text: the messages in their order, with a
/// semicolon and a space between them. A single message stands alone.
pub open spec fn joined_messages(messages: Seq<Seq<char>>) -> Seq<char>
    decreases messages.len(),
{
    if messages.len() == 0 {
        Seq::empty()
    } else if messages.len() == 1 {
        messages[0]
    } else {
        joined_messages(messages.drop_last()) + VIOLATION_SEPARATOR@ + messages.last()
    }
}

/// `part` stands somewhere in `text`.
pub open spec fn holds_text(text: Seq<char>, part: Seq<char>) -> bool {
    exists|i: int| occurs_at(text, i, part)
}

/// Messages that are joined to one text all stand in it.
pub proof fn lemma_joined_holds_each(messages: Seq<Seq<char>>, k: int)
    requires
        0 <= k < messages.len(),
    ensures
        holds_text(joined_messages(messages), messages[k]),
    decreases messages.len(),
{
    let whole = joined_messages(messages);
    if messages.len() == 1 {
        assert(whole.subrange(0, whole.len() as int) =~= whole);
        assert(occurs_at(whole, 0, messages[k]));
    } else {
        let head = joined_messages(messages.drop_last());
        let last = messages.last();
        if k == messages.len() - 1 {
            let at = whole.len() - last.len();
            assert(whole.subrange(at, at + last.len()) =~= last);
            assert(occurs_at(whole, at, last));
        } else {
            lemma_joined_holds_each(messages.drop_last(), k);
            let part = messages[k];
            assert(messages.drop_last()[k] == part);
            let at = choose|i: int| occurs_at(head, i, part);
            assert(whole.subrange(at, at + part.len()) =~= head.subrange(at, at + part.len()));
            assert(occurs_at(whole, at, part));
        }
    }
}

/// Joins messages to one text.
pub fn join_messages(messages: &Vec<String>) -> (r: String)
    ensures
        r@ == joined_messages(crate::text::views(messages@)),
{
    let ghost all = crate::text::views(messages@);
    let mut out = String::new();
    if messages.len() == 0 {
        return out;
    }
    out.append(messages[0].as_str());
    assert(all.take(1) =~= seq![all[0]]);
    assert(out@ =~= all[0]);
    let mut i: usize = 1;
    while i < messages.len()
        invariant
            1 <= i <= messages.len(),
            all == crate::text::views(messages@),
            out@ == joined_messages(all.take(i as int)),
        decreases messages.len() - i,
    {
        out.append(VIOLATION_SEPARATOR);
        out.append(messages[i].as_str());
        proof {
            let upto = all.take(i + 1);
            assert(upto.drop_last() =~= all.take(i as int));
            assert(upto.last() == messages@[i as int]@);
        }
        i += 1;
    }
    assert(all.take(messages.len() as int) =~= all);
    out
}

/// Characters a pool name may hold.
pub open spec fn is_pool_name_char(c: char) -> bool {
    is_ascii_alphanumeric(c) || c == '_' || c == '-' || c == '.'
}

/// A pool name is one or more letters, digits, `_`, `-` or `.`.
pub open spec fn is_pool_name(name: Seq<char>) -> bool {
    name.len() > 0 && forall|i: int| 0 <= i < name.len() ==> is_pool_name_char(#[trigger] name[i])
}

/// Whether `name` can name a pool.
pub fn check_pool_name(name: &str) -> (r: bool)
    ensures
        r == is_pool_name(name@),
{
    let chars = chars_of(name);
    if chars.len() == 0 {
        return false;
    }
    let mut i: usize = 0;
    while i < chars.len()
        invariant
            i <= chars.len(),
            chars@ == name@,
            forall|j: int| 0 <= j < i ==> is_pool_name_char(#[trigger] name@[j]),
        decreases chars.len() - i,
    {
        let c = chars[i];
        if !(char_is_ascii_alphanumeric(c) || c == '_' || c == '-' || c == '.') {
            return false;
        }
        i += 1;
    }
    true
}

/// Main installer configuration
#[derive(Debug, Clone)]
pub struct Config {
    /// Installation mode
    pub mode: InstallMode,
    /// ZFS pool name
    pub pool_name: String,
    /// Devices to use for the pool, as device-node paths
    pub devices: Vec<String>,
    /// RAID level
    pub raid_level: RaidLevel,
    /// EFI partition size in bytes
    pub efi_size: u64,
    /// Swap partition size in bytes (0 to disable)
    pub swap_size: u64,
    /// ZFS ashift value (None = auto-detect)
    pub ashift: Option<u8>,
    /// Compression algorithm
    pub compression: Compression,
    /// Hostname for new installation
    pub hostname: Option<String>,
    /// Dry run mode (don't actually make changes)
    pub dry_run: bool,
    /// Force mode (skip confirmations)
    pub force: bool,
    /// Source root for existing mode
    pub source_root: String,
    /// Paths to exclude from existing system migration
    pub exclude_paths: Vec<String>,
    /// Copy home directories in existing mode
    pub copy_home: bool,
    /// Skip pre-flight checks (not recommended)
    pub skip_preflight: bool,
}

impl Default for Config {
    fn default() -> (r: Self)
        ensures
            r.mode == InstallMode::New,
            r.pool_name@ == "zroot"@,
            r.devices@.len() == 0,
            r.raid_level == RaidLevel::NoRedundancy,
            r.efi_size == GIB,
            r.swap_size == 8 * GIB,
            r.ashift is None,
            r.compression == Compression::Zstd,
            r.hostname is None,
            !r.dry_run,
            !r.force,
            r.source_root@ == "/"@,
            r.exclude_paths@.len() == 0,
            r.copy_home,
            !r.skip_preflight,
    {
        Config {
            mode: InstallMode::New,
            pool_name: String::from_str("zroot"),
            devices: Vec::new(),
            raid_level: RaidLevel::NoRedundancy,
            efi_size: GIB,
            swap_size: 8 * GIB,
            ashift: None,
            compression: Compression::Zstd,
            hostname: None,
            dry_run: false,
            force: false,
            source_root: String::from_str("/"),
            exclude_paths: Vec::new(),
            copy_home: true,
            skip_preflight: false,
        }
    }
}

impl Config {
    /// What is wrong with the pool name, if anything.
    pub open spec fn pool_name_violation(&self) -> Option<Seq<char>> {
        if self.pool_name@.len() == 0 {
            Some("Pool name cannot be empty"@)
        } else if !is_pool_name(self.pool_name@) {
            Some(
                "Pool name must contain only alphanumeric characters, underscores, hyphens, and dots"@,
            )
        } else {
            None
        }
    }

    /// What is wrong with the number of devices, if anything.
    pub open spec fn device_count_violation(&self) -> Option<Seq<char>> {
        if self.devices@.len() == 0 {
            Some("At least one device must be selected"@)
        } else if self.devices@.len() < self.raid_level.required_drives() {
            Some(
                "RAID level "@ + self.raid_level.name() + " requires at least "@ + decimal(
                    self.raid_level.required_drives(),
                ) + " device(s), but only "@ + decimal(self.devices@.len()) + " provided"@,
            )
        } else {
            None
        }
    }

    /// What is wrong with the ashift, if anything.
    pub open spec fn ashift_violation(&self) -> Option<Seq<char>> {
        match self.ashift {
            Some(a) if a < 9 || a > 16 => Some(
                "ashift must be between 9 and 16, got "@ + decimal(a as nat),
            ),
            _ => None,
        }
    }

    /// What is wrong with the EFI size, if anything.
    pub open spec fn efi_size_violation(&self) -> Option<Seq<char>> {
        if self.efi_size < MIN_EFI_SIZE {
            Some("EFI partition must be at least 100MB"@)
        } else {
            None
        }
    }

    /// What is wrong with the source root, if anything.
    pub open spec fn source_root_violation(&self, source_root_exists: bool) -> Option<Seq<char>> {
        if self.mode == InstallMode::Existing && !source_root_exists {
            Some("Source root does not exist: "@ + self.source_root@)
        } else {
            None
        }
    }

    /// Every rule that the configuration breaks, in the fixed order pool
    /// name, device count, ashift, EFI size, source root.
    pub open spec fn all_violations(&self, source_root_exists: bool) -> Seq<Seq<char>> {
        listed(self.pool_name_violation()) + listed(self.device_count_violation()) + listed(
            self.ashift_violation(),
        ) + listed(self.efi_size_violation()) + listed(
            self.source_root_violation(source_root_exists),
        )
    }

    /// The configuration meets every rule of the data model.
    pub open spec fn is_valid(&self, source_root_exists: bool) -> bool {
        &&& is_pool_name(self.pool_name@)
        &&& self.devices@.len() >= self.raid_level.required_drives()
        &&& (self.ashift matches Some(a) ==> 9 <= a <= 16)
        &&& self.efi_size >= MIN_EFI_SIZE
        &&& (self.mode == InstallMode::Existing ==> source_root_exists)
    }

    /// The bytes that a device must have: EFI, swap and the pool's minimum.
    pub open spec fn required_bytes(&self) -> int {
        self.efi_size + self.swap_size + MIN_POOL_SIZE
    }

    /// Create a new configuration with defaults
    pub fn new() -> (r: Self)
        ensures
            r.mode == InstallMode::New,
            r.pool_name@ == "zroot"@,
            r.devices@.len() == 0,
            r.raid_level == RaidLevel::NoRedundancy,
            r.efi_size == GIB,
            r.swap_size == 8 * GIB,
            r.ashift is None,
            r.compression == Compression::Zstd,
            r.hostname is None,
            !r.dry_run,
            !r.force,
            r.source_root@ == "/"@,
            r.exclude_paths@.len() == 0,
            r.copy_home,
            !r.skip_preflight,
    {
        Config::default()
    }

    /// Lists every rule that the configuration breaks. `source_root_exists`
    /// says whether the source root was found on disk.
    pub fn violations(&self, source_root_exists: bool) -> (r: Vec<String>)
        ensures
            crate::text::views(r@) == self.all_violations(source_root_exists),
    {
        let mut out: Vec<String> = Vec::new();
        let ghost mut model: Seq<Seq<char>> = Seq::empty();
        assert(crate::text::views(out@) =~= model);

        if self.pool_name.as_str().unicode_len() == 0 {
            out.push(String::from_str("Pool name cannot be empty"));
        } else if !check_pool_name(self.pool_name.as_str()) {
            out.push(
                String::from_str(
                    "Pool name must contain only alphanumeric characters, underscores, hyphens, and dots",
                ),
            );
        }
        proof {
            model = model + listed(self.pool_name_violation());
            assert(crate::text::views(out@) =~= model);
        }

        let count = self.devices.len();
        let needed = self.raid_level.min_drives();
        if count == 0 {
            out.push(String::from_str("At least one device must be selected"));
        } else if count < needed {
            let level = self.raid_level.to_string();
            let mut msg = joined("RAID level ", level.as_str());
            msg.append(" requires at least ");
            msg.append(decimal_string(needed as u64).as_str());
            msg.append(" device(s), but only ");
            msg.append(decimal_string(count as u64).as_str());
            msg.append(" provided");
            out.push(msg);
        }
        proof {
            model = model + listed(self.device_count_violation());
            assert(crate::text::views(out@) =~= model);
        }

        if let Some(a) = self.ashift {
            if a < 9 || a > 16 {
                out.push(
                    joined("ashift must be between 9 and 16, got ", decimal_string(a as u64).as_str()),
                );
            }
        }
        proof {
            model = model + listed(self.ashift_violation());
            assert(crate::text::views(out@) =~= model);
        }

        if self.efi_size < MIN_EFI_SIZE {
            out.push(String::from_str("EFI partition must be at least 100MB"));
        }
        proof {
            model = model + listed(self.efi_size_violation());
            assert(crate::text::views(out@) =~= model);
        }

        if self.mode == InstallMode::Existing && !source_root_exists {
            out.push(joined("Source root does not exist: ", self.source_root.as_str()));
        }
        proof {
            model = model + listed(self.source_root_violation(source_root_exists));
            assert(crate::text::views(out@) =~= model);
        }
        out
    }

    /// Validate the configuration: `Ok` exactly when it is valid, else a
    /// validation error that reports every broken rule, in the fixed
    /// order of the rules. `source_root_exists` says whether the source
    /// root was found on disk.
    pub fn validate(&self, source_root_exists: bool) -> (r: Result<(), InstallerError>)
        ensures
            r is Ok <==> self.is_valid(source_root_exists),
            r is Ok <==> self.all_violations(source_root_exists).len() == 0,
            r matches Err(e) ==> e@ == ErrorModel::ValidationError(
                joined_messages(self.all_violations(source_root_exists)),
            ),
            forall|k: int|
                0 <= k < self.all_violations(source_root_exists).len() ==> holds_text(
                    joined_messages(self.all_violations(source_root_exists)),
                    #[trigger] self.all_violations(source_root_exists)[k],
                ),
            self.efi_size < MIN_EFI_SIZE ==> r is Err && holds_text(
                joined_messages(self.all_violations(source_root_exists)),
                "EFI partition must be at least 100MB"@,
            ),
    {
        proof {
            self.lemma_valid_iff_no_violation(source_root_exists);
            let all = self.all_violations(source_root_exists);
            assert forall|k: int| 0 <= k < all.len() implies holds_text(
                joined_messages(all),
                #[trigger] all[k],
            ) by {
                lemma_joined_holds_each(all, k);
            }
            if self.efi_size < MIN_EFI_SIZE {
                lemma_small_efi_is_rejected(self, source_root_exists);
            }
        }
        let found = self.violations(source_root_exists);
        if found.len() == 0 {
            Ok(())
        } else {
            Err(InstallerError::ValidationError(join_messages(&found)))
        }
    }

    /// Get the total number of partitions that will be created per device
    pub fn partitions_per_device(&self) -> (r: usize)
        ensures
            r == if self.swap_size > 0 {
                3nat
            } else {
                2nat
            },
    {
        if self.swap_size > 0 {
            3
        } else {
            2
        }
    }

    /// The bytes that a device must have, in a type that holds every sum.
    fn required_total(&self) -> (r: u128)
        ensures
            r == self.required_bytes(),
    {
        self.efi_size as u128 + self.swap_size as u128 + MIN_POOL_SIZE as u128
    }

    /// Calculate estimated total size needed per device: EFI, swap and 10
    /// GiB for the pool. A sum beyond `u64::MAX` is given as `u64::MAX`.
    pub fn min_device_size(&self) -> (r: u64)
        ensures
            r == if self.required_bytes() > u64::MAX {
                u64::MAX as int
            } else {
                self.required_bytes()
            },
    {
        let total = self.required_total();
        if total > u64::MAX as u128 {
            u64::MAX
        } else {
            total as u64
        }
    }

    /// Whether a device of `size` bytes is too small for this
    /// configuration.
    pub fn is_too_small(&self, size: u64) -> (r: bool)
        ensures
            r == (size < self.required_bytes()),
    {
        let total = self.required_total();
        (size as u128) < total
    }

    /// A configuration is valid exactly when it breaks no rule.
    pub proof fn lemma_valid_iff_no_violation(&self, source_root_exists: bool)
        ensures
            self.is_valid(source_root_exists) <==> self.all_violations(source_root_exists).len()
                == 0,
    {
    }
}

/// The minimum number of drives never decreases along the order of the
/// RAID levels.
pub proof fn lemma_min_drives_monotone(lower: RaidLevel, higher: RaidLevel)
    requires
        lower.rank() <= higher.rank(),
    ensures
        lower.required_drives() <= higher.required_drives(),
{
}

/// Validation rejects a number of devices below the minimum of the RAID
/// level, and finds no fault with a number at or above it.
pub proof fn lemma_device_count_rule(config: &Config, source_root_exists: bool)
    ensures
        config.devices@.len() < config.raid_level.required_drives() ==> {
            &&& config.device_count_violation() is Some
            &&& !config.is_valid(source_root_exists)
            &&& config.all_violations(source_root_exists).len() > 0
        },
        config.devices@.len() >= config.raid_level.required_drives()
            ==> config.device_count_violation() is None,
{
}

/// Validation finds no fault with a pool name exactly when the name is not
/// empty and holds nothing but letters, digits, `_`, `-` and `.`.
pub proof fn lemma_pool_name_rule(config: &Config)
    ensures
        config.pool_name_violation() is None <==> (config.pool_name@.len() > 0 && forall|i: int|
            0 <= i < config.pool_name@.len() ==> is_pool_name_char(
                #[trigger] config.pool_name@[i],
            )),
{
}

/// An EFI size below 100 MiB is a violation whatever the other fields
/// hold: the configuration is invalid, the violation is among those that
/// are listed, and its message stands in the error that validation
/// gives.
pub proof fn lemma_small_efi_is_rejected(config: &Config, source_root_exists: bool)
    requires
        config.efi_size < MIN_EFI_SIZE,
    ensures
        !config.is_valid(source_root_exists),
        config.all_violations(source_root_exists).contains(
            "EFI partition must be at least 100MB"@,
        ),
        holds_text(
            joined_messages(config.all_violations(source_root_exists)),
            "EFI partition must be at least 100MB"@,
        ),
{
    let before = listed(config.pool_name_violation()) + listed(config.device_count_violation())
        + listed(config.ashift_violation());
    let all = config.all_violations(source_root_exists);
    assert(all[before.len() as int] == "EFI partition must be at least 100MB"@);
    lemma_joined_holds_each(all, before.len() as int);
}

/// The list that holds `item` if there is one, and nothing otherwise.
pub open spec fn listed(item: Option<Seq<char>>) -> Seq<Seq<char>> {
    match item {
        Some(text) => seq![text],
        None => Seq::empty(),
    }
}

} // verus!
