//! systemd-boot configuration

use crate::command::{
    step_models, Command, CommandModel, Executor, FailurePolicy, Step, StepModel,
};
use crate::text::{join_path, path_join};
use vstd::prelude::*;
use vstd::string::*;

verus! {

/// Content of `loader/loader.conf`.
pub const LOADER_CONF: &'static str =
    "default zfsbootmenu.conf\ntimeout 3\nconsole-mode max\neditor no\n";

/// Content of `loader/entries/zfsbootmenu.conf`.
pub const ZBM_ENTRY: &'static str = "title ZFSBootMenu\nefi /EFI/ZBM/zfsbootmenu.EFI\n";

/// `bootctl --path efi install`
pub open spec fn bootctl_command(efi: Seq<char>) -> CommandModel {
    CommandModel::bare("bootctl"@).with("--path"@).with(efi).with("install"@)
}

/// The steps that write the loader's configuration below `efi`.
pub open spec fn configure_steps(efi: Seq<char>, simulated: bool) -> Seq<StepModel> {
    let loader = path_join(efi, "loader"@);
    let entries = path_join(loader, "entries"@);
    seq![
        StepModel::create_directory(entries, simulated),
        StepModel::write_file(path_join(loader, "loader.conf"@), LOADER_CONF@, simulated),
        StepModel::write_file(path_join(entries, "zfsbootmenu.conf"@), ZBM_ENTRY@, simulated),
    ]
}

/// The steps that install systemd-boot below `efi`. The registration with
/// the firmware may fail without harm: its exit status is tolerated.
pub open spec fn systemd_boot_steps(efi: Seq<char>, simulated: bool) -> Seq<StepModel> {
    seq![StepModel::run(bootctl_command(efi), FailurePolicy::Tolerate, simulated)]
        + configure_steps(efi, simulated)
}

/// systemd-boot manager
#[derive(Debug)]
pub struct SystemdBoot {
    pub efi_mountpoint: String,
    pub dry_run: bool,
}

impl SystemdBoot {
    /// Create a new systemd-boot manager
    pub fn new(efi_mountpoint: String, dry_run: bool) -> (r: Self)
        ensures
            r.efi_mountpoint == efi_mountpoint,
            r.dry_run == dry_run,
    {
        SystemdBoot { efi_mountpoint, dry_run }
    }

    /// Install systemd-boot
    pub fn install(&self) -> (r: Vec<Step>)
        ensures
            step_models(r@) == systemd_boot_steps(self.efi_mountpoint@, self.dry_run),
    {
        let mut steps: Vec<Step> = Vec::new();
        let register = Command::new("bootctl").arg("--path").arg(self.efi_mountpoint.as_str()).arg(
            "install",
        );
        steps.push(Executor::new(self.dry_run).run(register, FailurePolicy::Tolerate));
        let ghost first = steps@;
        let mut rest = self.configure();
        let ghost written = rest@;
        steps.append(&mut rest);
        assert(step_models(first + written) =~= step_models(first) + step_models(written));
        assert(step_models(first) =~= seq![
            StepModel::run(
                bootctl_command(self.efi_mountpoint@),
                FailurePolicy::Tolerate,
                self.dry_run,
            ),
        ]);
        steps
    }

    /// Configure systemd-boot
    pub fn configure(&self) -> (r: Vec<Step>)
        ensures
            step_models(r@) == configure_steps(self.efi_mountpoint@, self.dry_run),
    {
        let executor = Executor::new(self.dry_run);
        let loader_dir = join_path(self.efi_mountpoint.as_str(), "loader");
        let entries_dir = join_path(loader_dir.as_str(), "entries");
        let loader_conf = join_path(loader_dir.as_str(), "loader.conf");
        let zbm_entry = join_path(entries_dir.as_str(), "zfsbootmenu.conf");
        let mut steps: Vec<Step> = Vec::new();
        steps.push(executor.create_directory(entries_dir.as_str()));
        steps.push(executor.write_file(loader_conf.as_str(), LOADER_CONF));
        steps.push(executor.write_file(zbm_entry.as_str(), ZBM_ENTRY));
        assert(step_models(steps@) =~= configure_steps(self.efi_mountpoint@, self.dry_run));
        steps
    }
}

} // verus!
