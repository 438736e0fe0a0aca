//! Distribution detection and support

use crate::error::InstallerError;
use crate::text::{
    chars_of, has_prefix, lines, same_text, slice_of, split_lines, starts_with, views,
};
use vstd::prelude::*;
use vstd::string::*;

verus! {

/// Supported Linux distributions
#[derive(Debug, Clone, Copy, PartialEq, Eq, Structural)]
pub enum Distro {
    Fedora,
    Debian,
    Ubuntu,
    MxLinux,
    Arch,
    Unknown,
}

/// Which of the files that mark a distribution were found.
#[derive(Debug, Clone, Copy)]
pub struct ReleaseMarkers {
    /// `/etc/fedora-release`
    pub fedora: bool,
    /// `/etc/debian_version`
    pub debian: bool,
    /// `/etc/arch-release`
    pub arch: bool,
}

/// `text` without every `ID=` that it begins with.
pub open spec fn without_id_prefix(text: Seq<char>) -> Seq<char>
    decreases text.len(),
{
    if has_prefix(text, "ID="@) && "ID="@.len() > 0 {
        without_id_prefix(text.skip("ID="@.len() as int))
    } else {
        text
    }
}

/// `text` without the double quotes at its start.
pub open spec fn without_leading_quotes(text: Seq<char>) -> Seq<char>
    decreases text.len(),
{
    if text.len() > 0 && text[0] == '"' {
        without_leading_quotes(text.drop_first())
    } else {
        text
    }
}

/// `text` without the double quotes at its end.
pub open spec fn without_trailing_quotes(text: Seq<char>) -> Seq<char>
    decreases text.len(),
{
    if text.len() > 0 && text.last() == '"' {
        without_trailing_quotes(text.drop_last())
    } else {
        text
    }
}

/// The identifier that an `ID=` line gives.
pub open spec fn release_id(line: Seq<char>) -> Seq<char> {
    without_trailing_quotes(without_leading_quotes(without_id_prefix(line)))
}

/// The distribution that an identifier stands for.
pub open spec fn distro_of_id(id: Seq<char>) -> Distro {
    if id == "fedora"@ {
        Distro::Fedora
    } else if id == "debian"@ {
        Distro::Debian
    } else if id == "ubuntu"@ {
        Distro::Ubuntu
    } else if id == "mx"@ {
        Distro::MxLinux
    } else if id == "arch"@ {
        Distro::Arch
    } else {
        Distro::Unknown
    }
}

/// The distribution that the first `ID=` line among `lines` names, if
/// there is such a line.
pub open spec fn named_distro(lines: Seq<Seq<char>>) -> Option<Distro>
    decreases lines.len(),
{
    if lines.len() == 0 {
        None
    } else if has_prefix(lines[0], "ID="@) {
        Some(distro_of_id(release_id(lines[0])))
    } else {
        named_distro(lines.drop_first())
    }
}

/// The distribution that the marker files tell of.
pub open spec fn marked_distro(markers: ReleaseMarkers) -> Distro {
    if markers.fedora {
        Distro::Fedora
    } else if markers.debian {
        Distro::Debian
    } else if markers.arch {
        Distro::Arch
    } else {
        Distro::Unknown
    }
}

/// The distribution that runs: the one that the `os-release` file names,
/// else the one that the marker files tell of.
pub open spec fn detected(os_release: Option<Seq<char>>, markers: ReleaseMarkers) -> Distro {
    match os_release {
        Some(content) => match named_distro(lines(content)) {
            Some(distro) => distro,
            None => marked_distro(markers),
        },
        None => marked_distro(markers),
    }
}

/// The views of a list of string slices.
pub open spec fn str_views(items: Seq<&str>) -> Seq<Seq<char>> {
    items.map_values(|s: &str| s@)
}

fn strip_release_id(line: &str) -> (r: String)
    ensures
        r@ == release_id(line@),
{
    let chars = chars_of(line);
    proof {
        reveal_strlit("ID=");
        assert("ID="@ =~= seq!['I', 'D', '=']);
    }
    let mut start: usize = 0;
    assert(chars@.skip(0) =~= chars@);
    while chars.len() - start >= 3 && chars[start] == 'I' && chars[start + 1] == 'D' && chars[start
        + 2] == '='
        invariant
            start <= chars.len(),
            "ID="@ == seq!['I', 'D', '='],
            without_id_prefix(chars@) == without_id_prefix(chars@.skip(start as int)),
        decreases chars.len() - start,
    {
        proof {
            let rest = chars@.skip(start as int);
            assert(rest.subrange(0, 3) =~= seq!['I', 'D', '=']);
            assert(rest.skip(3) =~= chars@.skip(start + 3));
        }
        start += 3;
    }
    proof {
        let rest = chars@.skip(start as int);
        if has_prefix(rest, "ID="@) {
            assert(rest.subrange(0, 3)[0] == 'I');
            assert(rest.subrange(0, 3)[1] == 'D');
            assert(rest.subrange(0, 3)[2] == '=');
        }
        assert(without_id_prefix(chars@) == rest);
    }
    let ghost unprefixed = chars@.skip(start as int);
    let mut from: usize = start;
    while from < chars.len() && chars[from] == '"'
        invariant
            start <= from <= chars.len(),
            without_leading_quotes(unprefixed) == without_leading_quotes(chars@.skip(from as int)),
        decreases chars.len() - from,
    {
        assert(chars@.skip(from as int).drop_first() =~= chars@.skip(from + 1));
        from += 1;
    }
    let ghost unquoted = chars@.skip(from as int);
    assert(without_leading_quotes(unprefixed) == unquoted);
    let mut to: usize = chars.len();
    assert(chars@.subrange(from as int, to as int) =~= unquoted);
    while to > from && chars[to - 1] == '"'
        invariant
            from <= to <= chars.len(),
            without_trailing_quotes(unquoted) == without_trailing_quotes(
                chars@.subrange(from as int, to as int),
            ),
        decreases to,
    {
        assert(chars@.subrange(from as int, to as int).drop_last() =~= chars@.subrange(
            from as int,
            to - 1,
        ));
        to -= 1;
    }
    slice_of(line, from, to)
}

fn distro_from_id(id: &str) -> (r: Distro)
    ensures
        r == distro_of_id(id@),
{
    if same_text(id, "fedora") {
        Distro::Fedora
    } else if same_text(id, "debian") {
        Distro::Debian
    } else if same_text(id, "ubuntu") {
        Distro::Ubuntu
    } else if same_text(id, "mx") {
        Distro::MxLinux
    } else if same_text(id, "arch") {
        Distro::Arch
    } else {
        Distro::Unknown
    }
}

/// The distribution that the `os-release` text `content` names, if it
/// names one.
pub fn distro_named_in(content: &str) -> (r: Option<Distro>)
    ensures
        r == named_distro(lines(content@)),
{
    let rows = split_lines(content);
    let ghost all = views(rows@);
    let mut i: usize = 0;
    assert(all.skip(0) =~= all);
    while i < rows.len()
        invariant
            i <= rows.len(),
            all == views(rows@),
            all == lines(content@),
            named_distro(all) == named_distro(all.skip(i as int)),
        decreases rows.len() - i,
    {
        let ghost rest = all.skip(i as int);
        assert(rest[0] == rows@[i as int]@);
        assert(rest.drop_first() =~= all.skip(i + 1));
        if starts_with(rows[i].as_str(), "ID=") {
            let id = strip_release_id(rows[i].as_str());
            return Some(distro_from_id(id.as_str()));
        }
        i += 1;
    }
    assert(all.skip(rows.len() as int) =~= Seq::empty());
    None
}

fn pair(a: &'static str, b: &'static str) -> (r: Vec<&'static str>)
    ensures
        str_views(r@) == seq![a@, b@],
{
    let mut out: Vec<&'static str> = Vec::new();
    out.push(a);
    out.push(b);
    assert(str_views(out@) =~= seq![a@, b@]);
    out
}

impl Distro {
    /// Name shown to the user.
    pub open spec fn name(self) -> Seq<char> {
        match self {
            Distro::Fedora => "Fedora"@,
            Distro::Debian => "Debian"@,
            Distro::Ubuntu => "Ubuntu"@,
            Distro::MxLinux => "MX Linux"@,
            Distro::Arch => "Arch Linux"@,
            Distro::Unknown => "Unknown"@,
        }
    }

    /// The distribution uses APT.
    pub open spec fn is_debian_family(self) -> bool {
        self == Distro::Debian || self == Distro::Ubuntu || self == Distro::MxLinux
    }

    /// The program that installs packages.
    pub open spec fn manager(self) -> Seq<char> {
        match self {
            Distro::Fedora => "dnf"@,
            Distro::Debian | Distro::Ubuntu | Distro::MxLinux => "apt-get"@,
            Distro::Arch => "pacman"@,
            Distro::Unknown => "unknown"@,
        }
    }

    /// The packages that provide ZFS.
    pub open spec fn zfs_package_names(self) -> Seq<Seq<char>> {
        match self {
            Distro::Fedora => seq!["zfs"@],
            Distro::Debian | Distro::Ubuntu | Distro::MxLinux => seq![
                "zfsutils-linux"@,
                "zfs-dkms"@,
            ],
            Distro::Arch => seq!["zfs-linux"@, "zfs-utils"@],
            Distro::Unknown => Seq::empty(),
        }
    }

    /// The packages that ZFSBootMenu needs.
    pub open spec fn zbm_package_names(self) -> Seq<Seq<char>> {
        match self {
            Distro::Fedora => seq![
                "kernel-devel"@,
                "dracut"@,
                "efibootmgr"@,
                "gdisk"@,
                "util-linux"@,
            ],
            Distro::Debian | Distro::Ubuntu | Distro::MxLinux => seq![
                "dracut-core"@,
                "efibootmgr"@,
                "gdisk"@,
                "util-linux"@,
            ],
            Distro::Arch => seq!["dracut"@, "efibootmgr"@, "gptfdisk"@, "util-linux"@],
            Distro::Unknown => Seq::empty(),
        }
    }

    /// The words that an installation begins with, before the packages.
    pub open spec fn install_words(self) -> Seq<Seq<char>> {
        match self {
            Distro::Fedora => seq!["dnf"@, "install"@, "-y"@],
            Distro::Debian | Distro::Ubuntu | Distro::MxLinux => seq![
                "apt-get"@,
                "install"@,
                "-y"@,
            ],
            Distro::Arch => seq!["pacman"@, "-S"@, "--noconfirm"@],
            Distro::Unknown => seq!["unknown"@],
        }
    }

    /// Name shown to the user.
    pub fn to_string(&self) -> (r: String)
        ensures
            r@ == self.name(),
    {
        match self {
            Distro::Fedora => String::from_str("Fedora"),
            Distro::Debian => String::from_str("Debian"),
            Distro::Ubuntu => String::from_str("Ubuntu"),
            Distro::MxLinux => String::from_str("MX Linux"),
            Distro::Arch => String::from_str("Arch Linux"),
            Distro::Unknown => String::from_str("Unknown"),
        }
    }

    /// Detect the current distribution from the content of the
    /// `os-release` file, where it could be read, and from the marker
    /// files that were found.
    pub fn detect(os_release: Option<&str>, markers: ReleaseMarkers) -> (r: Result<
        Self,
        InstallerError,
    >)
        ensures
            r matches Ok(distro) && distro == detected(
                match os_release {
                    Some(content) => Some(content@),
                    None => None,
                },
                markers,
            ),
    {
        if let Some(content) = os_release {
            if let Some(distro) = distro_named_in(content) {
                return Ok(distro);
            }
        }
        if markers.fedora {
            Ok(Distro::Fedora)
        } else if markers.debian {
            Ok(Distro::Debian)
        } else if markers.arch {
            Ok(Distro::Arch)
        } else {
            Ok(Distro::Unknown)
        }
    }

    /// Check if distribution is supported
    pub fn is_supported(&self) -> (r: bool)
        ensures
            r == (*self != Distro::Unknown),
    {
        match self {
            Distro::Unknown => false,
            _ => true,
        }
    }

    /// Get package manager for this distribution
    pub fn package_manager(&self) -> (r: &'static str)
        ensures
            r@ == self.manager(),
    {
        match self {
            Distro::Fedora => "dnf",
            Distro::Debian | Distro::Ubuntu | Distro::MxLinux => "apt-get",
            Distro::Arch => "pacman",
            Distro::Unknown => "unknown",
        }
    }

    /// Get ZFS package names for this distribution
    pub fn zfs_packages(&self) -> (r: Vec<&'static str>)
        ensures
            str_views(r@) == self.zfs_package_names(),
    {
        match self {
            Distro::Fedora => {
                let mut out: Vec<&'static str> = Vec::new();
                out.push("zfs");
                assert(str_views(out@) =~= seq!["zfs"@]);
                out
            },
            Distro::Debian | Distro::Ubuntu | Distro::MxLinux => pair("zfsutils-linux", "zfs-dkms"),
            Distro::Arch => pair("zfs-linux", "zfs-utils"),
            Distro::Unknown => {
                let out: Vec<&'static str> = Vec::new();
                assert(str_views(out@) =~= Seq::empty());
                out
            },
        }
    }

    /// Get required packages for ZFSBootMenu
    pub fn zbm_packages(&self) -> (r: Vec<&'static str>)
        ensures
            str_views(r@) == self.zbm_package_names(),
    {
        match self {
            Distro::Fedora => {
                let mut out: Vec<&'static str> = Vec::new();
                out.push("kernel-devel");
                out.push("dracut");
                out.push("efibootmgr");
                out.push("gdisk");
                out.push("util-linux");
                assert(str_views(out@) =~= self.zbm_package_names());
                out
            },
            Distro::Debian | Distro::Ubuntu | Distro::MxLinux => {
                let mut out: Vec<&'static str> = Vec::new();
                out.push("dracut-core");
                out.push("efibootmgr");
                out.push("gdisk");
                out.push("util-linux");
                assert(str_views(out@) =~= self.zbm_package_names());
                out
            },
            Distro::Arch => {
                let mut out: Vec<&'static str> = Vec::new();
                out.push("dracut");
                out.push("efibootmgr");
                out.push("gptfdisk");
                out.push("util-linux");
                assert(str_views(out@) =~= self.zbm_package_names());
                out
            },
            Distro::Unknown => {
                let out: Vec<&'static str> = Vec::new();
                assert(str_views(out@) =~= Seq::empty());
                out
            },
        }
    }

    /// Get install command for packages: the package manager, what makes
    /// it install without asking, and the packages.
    pub fn install_command(&self, packages: &[&str]) -> (r: Vec<String>)
        ensures
            views(r@) == self.install_words() + str_views(packages@),
    {
        let mut cmd: Vec<String> = Vec::new();
        cmd.push(String::from_str(self.package_manager()));
        match self {
            Distro::Fedora | Distro::Debian | Distro::Ubuntu | Distro::MxLinux => {
                cmd.push(String::from_str("install"));
                cmd.push(String::from_str("-y"));
            },
            Distro::Arch => {
                cmd.push(String::from_str("-S"));
                cmd.push(String::from_str("--noconfirm"));
            },
            Distro::Unknown => {},
        }
        assert(views(cmd@) =~= self.install_words());
        let ghost head = views(cmd@);
        let ghost wanted = str_views(packages@);
        assert(head + wanted.take(0) =~= head);
        let mut i: usize = 0;
        while i < packages.len()
            invariant
                i <= packages.len(),
                wanted == str_views(packages@),
                views(cmd@) == head + wanted.take(i as int),
            decreases packages.len() - i,
        {
            let ghost before = cmd@;
            cmd.push(String::from_str(packages[i]));
            proof {
                assert(views(cmd@) =~= views(before).push(packages@[i as int]@));
                assert(wanted.take(i + 1) =~= wanted.take(i as int).push(packages@[i as int]@));
                assert(views(cmd@) =~= head + wanted.take(i + 1));
            }
            i += 1;
        }
        assert(wanted.take(packages.len() as int) =~= wanted);
        cmd
    }
}

} // verus!
