//! Package installation management

use crate::command::{
    step_models, Command, CommandModel, Executor, FailurePolicy, Outcome, Step, StepModel,
};
use crate::error::{ErrorModel, InstallerError};
use crate::system::distro::{str_views, Distro};
use crate::text::{framed, views};
use vstd::prelude::*;
use vstd::string::*;

verus! {

/// The command that brings the package database up to date, where the
/// distribution needs one.
pub open spec fn update_command(distro: Distro) -> Option<CommandModel> {
    if distro.is_debian_family() {
        Some(CommandModel::bare("apt-get"@).with("update"@))
    } else if distro == Distro::Arch {
        Some(CommandModel::bare("pacman"@).with("-Sy"@))
    } else {
        None
    }
}

/// The command that installs `packages`.
pub open spec fn install_packages_command(distro: Distro, packages: Seq<Seq<char>>) -> CommandModel {
    CommandModel {
        program: distro.install_words()[0],
        args: distro.install_words().skip(1) + packages,
    }
}

/// The command that asks whether `package` is installed.
pub open spec fn query_package_command(distro: Distro, package: Seq<char>) -> Option<CommandModel> {
    match distro {
        Distro::Fedora => Some(CommandModel::bare("rpm"@).with("-q"@).with(package)),
        Distro::Debian | Distro::Ubuntu | Distro::MxLinux => Some(
            CommandModel::bare("dpkg"@).with("-s"@).with(package),
        ),
        Distro::Arch => Some(CommandModel::bare("pacman"@).with("-Q"@).with(package)),
        Distro::Unknown => None,
    }
}

/// The steps of the package manager that run `command`, where there is one.
pub open spec fn package_steps(command: Option<CommandModel>, simulated: bool) -> Seq<StepModel> {
    match command {
        Some(c) => seq![StepModel::run(c, FailurePolicy::Package, simulated)],
        None => Seq::empty(),
    }
}

/// The steps that install `packages`: none for no packages, else one.
pub open spec fn install_steps(distro: Distro, packages: Seq<Seq<char>>, simulated: bool) -> Seq<
    StepModel,
> {
    if packages.len() == 0 {
        Seq::empty()
    } else {
        package_steps(Some(install_packages_command(distro, packages)), simulated)
    }
}

/// Package installer
#[derive(Debug)]
pub struct PackageInstaller {
    pub distro: Distro,
    pub dry_run: bool,
}

impl PackageInstaller {
    /// Create a new package installer for the distribution that was
    /// detected; there is none for an unknown distribution.
    pub fn new(distro: Distro, dry_run: bool) -> (r: Result<Self, InstallerError>)
        ensures
            match r {
                Ok(installer) => distro != Distro::Unknown && installer.distro == distro
                    && installer.dry_run == dry_run,
                Err(e) => distro == Distro::Unknown && e@ == ErrorModel::Unsupported(
                    "Distribution "@ + distro.name() + " is not supported"@,
                ),
            },
    {
        if !distro.is_supported() {
            let name = distro.to_string();
            return Err(
                InstallerError::Unsupported(
                    framed("Distribution ", name.as_str(), " is not supported"),
                ),
            );
        }
        Ok(PackageInstaller { distro, dry_run })
    }

    fn run(&self, command: Command) -> (r: Step)
        ensures
            r@ == StepModel::run(command@, FailurePolicy::Package, self.dry_run),
    {
        Executor::new(self.dry_run).run(command, FailurePolicy::Package)
    }

    /// Update package database
    pub fn update(&self) -> (r: Vec<Step>)
        ensures
            step_models(r@) == package_steps(update_command(self.distro), self.dry_run),
    {
        let mut steps: Vec<Step> = Vec::new();
        match self.distro {
            Distro::Debian | Distro::Ubuntu | Distro::MxLinux => {
                steps.push(self.run(Command::new("apt-get").arg("update")));
            },
            Distro::Arch => {
                steps.push(self.run(Command::new("pacman").arg("-Sy")));
            },
            _ => {},
        }
        assert(step_models(steps@) =~= package_steps(update_command(self.distro), self.dry_run));
        steps
    }

    /// Install packages
    pub fn install(&self, packages: &[&str]) -> (r: Vec<Step>)
        ensures
            step_models(r@) == install_steps(self.distro, str_views(packages@), self.dry_run),
    {
        let mut steps: Vec<Step> = Vec::new();
        if packages.len() == 0 {
            assert(step_models(steps@) =~= Seq::empty());
            return steps;
        }
        let parts = self.distro.install_command(packages);
        let ghost words = views(parts@);
        assert(words.len() >= 1);
        let mut cmd = Command::new(parts[0].as_str());
        assert(cmd@.args =~= words.subrange(1, 1));
        let mut i: usize = 1;
        while i < parts.len()
            invariant
                1 <= i <= parts.len(),
                words == views(parts@),
                cmd@.program == words[0],
                cmd@.args == words.subrange(1, i as int),
            decreases parts.len() - i,
        {
            cmd = cmd.arg(parts[i].as_str());
            assert(cmd@.args =~= words.subrange(1, i + 1));
            i += 1;
        }
        assert(words.subrange(1, parts.len() as int) =~= self.distro.install_words().skip(1)
            + str_views(packages@));
        steps.push(self.run(cmd));
        assert(step_models(steps@) =~= install_steps(
            self.distro,
            str_views(packages@),
            self.dry_run,
        ));
        steps
    }

    /// Install ZFS packages
    pub fn install_zfs(&self) -> (r: Vec<Step>)
        ensures
            step_models(r@) == install_steps(
                self.distro,
                self.distro.zfs_package_names(),
                self.dry_run,
            ),
    {
        let packages = self.distro.zfs_packages();
        self.install(packages.as_slice())
    }

    /// Install ZFSBootMenu dependencies
    pub fn install_zbm_deps(&self) -> (r: Vec<Step>)
        ensures
            step_models(r@) == install_steps(
                self.distro,
                self.distro.zbm_package_names(),
                self.dry_run,
            ),
    {
        let packages = self.distro.zbm_packages();
        self.install(packages.as_slice())
    }

    /// The command whose outcome tells whether `package` is installed.
    pub fn query_command(&self, package: &str) -> (r: Option<Command>)
        ensures
            match r {
                Some(c) => query_package_command(self.distro, package@) == Some(c@),
                None => query_package_command(self.distro, package@) is None,
            },
    {
        match self.distro {
            Distro::Fedora => Some(Command::new("rpm").arg("-q").arg(package)),
            Distro::Debian | Distro::Ubuntu | Distro::MxLinux => Some(
                Command::new("dpkg").arg("-s").arg(package),
            ),
            Distro::Arch => Some(Command::new("pacman").arg("-Q").arg(package)),
            Distro::Unknown => None,
        }
    }

    /// Check if a package is installed, from the outcome of the command
    /// that asks for it: it is when the query ran and succeeded.
    pub fn is_installed(&self, query: &Outcome) -> (r: bool)
        ensures
            r == (self.distro != Distro::Unknown && (query matches Outcome::Exited(output)
                && output.succeeded())),
    {
        match self.distro {
            Distro::Unknown => false,
            _ => match query {
                Outcome::Exited(output) => output.success(),
                _ => false,
            },
        }
    }
}

} // verus!
