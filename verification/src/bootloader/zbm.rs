//! ZFSBootMenu installation and configuration

use crate::command::{
    step_models, Command, CommandModel, Executor, FailurePolicy, Plan, PlanModel, Step, StepModel,
};
use crate::error::{ErrorModel, InstallerError};
use crate::text::{framed, join_path, path_join};
use vstd::prelude::*;
use vstd::string::*;

verus! {

/// The release of ZFSBootMenu that is installed.
pub const ZBM_VERSION: &'static str = "2.3.0";

/// Configuration of dracut for ZFSBootMenu.
pub const DRACUT_CONF: &'static str =
    "# ZFSBootMenu dracut configuration\nadd_dracutmodules+=\" zfsbootmenu \"\nomit_dracutmodules+=\" network \"\nhostonly=no\ncompress=\"zstd\"\n";

/// Configuration of mkinitcpio for ZFSBootMenu.
pub const MKINITCPIO_CONF: &'static str =
    "# ZFSBootMenu mkinitcpio configuration\nHOOKS=(base udev autodetect modconf block filesystems keyboard fsck zfsbootmenu)\n";

/// Start of ZFSBootMenu's own configuration, up to the boot mount point.
pub const CONFIG_HEAD: &'static str =
    "# ZFSBootMenu configuration\nGlobal:\n  ManageImages: true\n  BootMountPoint: ";

/// ZFSBootMenu's configuration between the boot mount point and the
/// image directory of the components.
pub const CONFIG_COMPONENTS: &'static str =
    "\n  DracutConfDir: /etc/zfsbootmenu/dracut.conf.d\n  PreHooksDir: /etc/zfsbootmenu/hooks.d\n  InitCPIOHookDirs: /etc/zfsbootmenu/initcpio.d\n\nComponents:\n  Enabled: true\n  ImageDir: ";

/// ZFSBootMenu's configuration between the two image directories.
pub const CONFIG_EFI: &'static str =
    "/EFI/ZBM\n  Versions: 3\n  Cmdline: ro quiet loglevel=0\n\nEFI:\n  ImageDir: ";

/// End of ZFSBootMenu's configuration.
pub const CONFIG_TAIL: &'static str =
    "/EFI/ZBM\n  Versions: false\n  Enabled: true\n\nKernel:\n  CommandLine: ro quiet loglevel=4\n";

/// Which tools that build an initramfs were found on the system.
#[derive(Debug, Clone, Copy)]
pub struct InitramfsTools {
    /// `/usr/bin/dracut`
    pub dracut: bool,
    /// `/usr/bin/mkinitcpio`
    pub mkinitcpio: bool,
    /// `/usr/bin/generate-zbm`
    pub generate_zbm: bool,
}

/// Where a release is downloaded from.
pub open spec fn release_url(version: Seq<char>) -> Seq<char> {
    "https://get.zfsbootmenu.org/efi/zfsbootmenu-release-x86_64-v"@ + version + ".EFI"@
}

/// Where a downloaded release is kept.
pub open spec fn release_file(version: Seq<char>) -> Seq<char> {
    "/tmp/zfsbootmenu-v"@ + version + ".EFI"@
}

/// `curl -L -o file url`
pub open spec fn download_command(version: Seq<char>) -> CommandModel {
    CommandModel::bare("curl"@).with("-L"@).with("-o"@).with(release_file(version)).with(
        release_url(version),
    )
}

/// The directory of ZFSBootMenu's images below `efi`.
pub open spec fn image_directory(efi: Seq<char>) -> Seq<char> {
    path_join(path_join(efi, "EFI"@), "ZBM"@)
}

/// ZFSBootMenu's configuration for images kept below `efi`.
pub open spec fn config_text(efi: Seq<char>) -> Seq<char> {
    CONFIG_HEAD@ + efi + CONFIG_COMPONENTS@ + efi + CONFIG_EFI@ + efi + CONFIG_TAIL@
}

/// The steps that write ZFSBootMenu's configuration.
pub open spec fn config_steps(efi: Seq<char>, simulated: bool) -> Seq<StepModel> {
    seq![
        StepModel::create_directory("/etc/zfsbootmenu"@, simulated),
        StepModel::write_file(
            path_join("/etc/zfsbootmenu"@, "config.yaml"@),
            config_text(efi),
            simulated,
        ),
    ]
}

/// The command that builds the image with dracut: `generate-zbm` where it
/// was found, else dracut itself.
pub open spec fn dracut_command(efi: Seq<char>, generate_zbm: bool) -> CommandModel {
    if generate_zbm {
        CommandModel::bare("generate-zbm"@)
    } else {
        CommandModel::bare("dracut"@).with("--force"@).with("--add"@).with("zfsbootmenu"@).with(
            path_join(efi, "EFI/ZBM/vmlinuz.efi"@),
        )
    }
}

/// The steps that build the initramfs with dracut.
pub open spec fn dracut_steps(efi: Seq<char>, generate_zbm: bool, simulated: bool) -> Seq<
    StepModel,
> {
    seq![
        StepModel::create_directory("/etc/dracut.conf.d"@, simulated),
        StepModel::write_file(
            path_join("/etc/dracut.conf.d"@, "zfsbootmenu.conf"@),
            DRACUT_CONF@,
            simulated,
        ),
        StepModel::run(dracut_command(efi, generate_zbm), FailurePolicy::Bootloader, simulated),
    ]
}

/// The steps that build the initramfs with mkinitcpio.
pub open spec fn mkinitcpio_steps(simulated: bool) -> Seq<StepModel> {
    seq![
        StepModel::write_file(
            "/etc/mkinitcpio.conf.d/zfsbootmenu.conf"@,
            MKINITCPIO_CONF@,
            simulated,
        ),
        StepModel::run(
            CommandModel::bare("mkinitcpio"@).with("-P"@),
            FailurePolicy::Bootloader,
            simulated,
        ),
    ]
}

/// The error for a system without a tool that builds an initramfs.
pub open spec fn no_generator() -> ErrorModel {
    ErrorModel::BootloaderError(
        "No supported initramfs generator found (dracut or mkinitcpio)"@,
    )
}

/// How the initramfs is built: with dracut where it was found, else with
/// mkinitcpio, and not at all where neither was.
pub open spec fn initramfs_plan(efi: Seq<char>, tools: InitramfsTools, simulated: bool) -> Result<
    Seq<StepModel>,
    ErrorModel,
> {
    if tools.dracut {
        Ok(dracut_steps(efi, tools.generate_zbm, simulated))
    } else if tools.mkinitcpio {
        Ok(mkinitcpio_steps(simulated))
    } else {
        Err(no_generator())
    }
}

/// The steps that put the release below `efi`.
pub open spec fn image_steps(efi: Seq<char>, simulated: bool) -> Seq<StepModel> {
    seq![
        StepModel::create_directory(image_directory(efi), simulated),
        StepModel::run(download_command(ZBM_VERSION@), FailurePolicy::Bootloader, simulated),
        StepModel::copy_file(
            release_file(ZBM_VERSION@),
            path_join(image_directory(efi), "zfsbootmenu.EFI"@),
            simulated,
        ),
    ]
}

/// The whole installation of ZFSBootMenu: the release, the configuration,
/// the initramfs. Without a tool for the last the plan ends in an error
/// after the first two.
pub open spec fn zbm_plan(efi: Seq<char>, tools: InitramfsTools, simulated: bool) -> PlanModel {
    let fixed = image_steps(efi, simulated) + config_steps(efi, simulated);
    match initramfs_plan(efi, tools, simulated) {
        Ok(steps) => PlanModel { steps: fixed + steps, failure: None },
        Err(e) => PlanModel { steps: fixed, failure: Some(e) },
    }
}

/// ZFSBootMenu installer
#[derive(Debug)]
pub struct ZbmInstaller {
    pub pool_name: String,
    pub efi_mountpoint: String,
    pub dry_run: bool,
}

impl ZbmInstaller {
    /// Create a new ZBM installer
    pub fn new(pool_name: String, efi_mountpoint: String, dry_run: bool) -> (r: Self)
        ensures
            r.pool_name == pool_name,
            r.efi_mountpoint == efi_mountpoint,
            r.dry_run == dry_run,
    {
        ZbmInstaller { pool_name, efi_mountpoint, dry_run }
    }

    /// Download ZFSBootMenu release: the step, and the file that will
    /// hold the release.
    pub fn download_zbm(&self, version: &str) -> (r: (Step, String))
        ensures
            r.0@ == StepModel::run(
                download_command(version@),
                FailurePolicy::Bootloader,
                self.dry_run,
            ),
            r.1@ == release_file(version@),
    {
        let url = framed(
            "https://get.zfsbootmenu.org/efi/zfsbootmenu-release-x86_64-v",
            version,
            ".EFI",
        );
        let temp_path = framed("/tmp/zfsbootmenu-v", version, ".EFI");
        let cmd = Command::new("curl").arg("-L").arg("-o").arg(temp_path.as_str()).arg(
            url.as_str(),
        );
        (Executor::new(self.dry_run).run(cmd, FailurePolicy::Bootloader), temp_path)
    }

    /// Install ZFSBootMenu to EFI partition, with the tools that were
    /// found for building the initramfs.
    pub fn install(&self, tools: InitramfsTools) -> (r: Plan)
        ensures
            r@ == zbm_plan(self.efi_mountpoint@, tools, self.dry_run),
    {
        let executor = Executor::new(self.dry_run);
        let efi_dir = join_path(self.efi_mountpoint.as_str(), "EFI");
        let zbm_dir = join_path(efi_dir.as_str(), "ZBM");
        let dest = join_path(zbm_dir.as_str(), "zfsbootmenu.EFI");
        let mut steps: Vec<Step> = Vec::new();
        steps.push(executor.create_directory(zbm_dir.as_str()));
        let (download, zbm_efi) = self.download_zbm(ZBM_VERSION);
        steps.push(download);
        steps.push(executor.copy_file(zbm_efi.as_str(), dest.as_str()));
        assert(step_models(steps@) =~= image_steps(self.efi_mountpoint@, self.dry_run));

        let mut config = self.generate_config();
        let ghost so_far = steps@;
        let ghost added = config@;
        steps.append(&mut config);
        assert(step_models(so_far + added) =~= step_models(so_far) + step_models(added));

        match self.generate_initramfs(tools) {
            Ok(mut build) => {
                let ghost so_far = steps@;
                let ghost added = build@;
                steps.append(&mut build);
                assert(step_models(so_far + added) =~= step_models(so_far) + step_models(added));
                Plan { steps, failure: None }
            },
            Err(e) => Plan { steps, failure: Some(e) },
        }
    }

    /// Generate ZFSBootMenu configuration
    pub fn generate_config(&self) -> (r: Vec<Step>)
        ensures
            step_models(r@) == config_steps(self.efi_mountpoint@, self.dry_run),
    {
        let executor = Executor::new(self.dry_run);
        let efi = self.efi_mountpoint.as_str();
        let mut content = framed(CONFIG_HEAD, efi, CONFIG_COMPONENTS);
        content.append(efi);
        content.append(CONFIG_EFI);
        content.append(efi);
        content.append(CONFIG_TAIL);
        let config_file = join_path("/etc/zfsbootmenu", "config.yaml");
        let mut steps: Vec<Step> = Vec::new();
        steps.push(executor.create_directory("/etc/zfsbootmenu"));
        steps.push(executor.write_file(config_file.as_str(), content.as_str()));
        assert(step_models(steps@) =~= config_steps(self.efi_mountpoint@, self.dry_run));
        steps
    }

    /// Generate initramfs with ZFS support
    pub fn generate_initramfs(&self, tools: InitramfsTools) -> (r: Result<
        Vec<Step>,
        InstallerError,
    >)
        ensures
            match r {
                Ok(steps) => initramfs_plan(self.efi_mountpoint@, tools, self.dry_run) == Ok::<
                    Seq<StepModel>,
                    ErrorModel,
                >(step_models(steps@)),
                Err(e) => initramfs_plan(self.efi_mountpoint@, tools, self.dry_run) == Err::<
                    Seq<StepModel>,
                    ErrorModel,
                >(e@),
            },
    {
        if tools.dracut {
            Ok(self.generate_dracut(tools.generate_zbm))
        } else if tools.mkinitcpio {
            Ok(self.generate_mkinitcpio())
        } else {
            Err(
                InstallerError::BootloaderError(
                    String::from_str(
                        "No supported initramfs generator found (dracut or mkinitcpio)",
                    ),
                ),
            )
        }
    }

    /// Generate initramfs using dracut
    pub fn generate_dracut(&self, generate_zbm: bool) -> (r: Vec<Step>)
        ensures
            step_models(r@) == dracut_steps(self.efi_mountpoint@, generate_zbm, self.dry_run),
    {
        let executor = Executor::new(self.dry_run);
        let dracut_conf = join_path("/etc/dracut.conf.d", "zfsbootmenu.conf");
        let mut steps: Vec<Step> = Vec::new();
        steps.push(executor.create_directory("/etc/dracut.conf.d"));
        steps.push(executor.write_file(dracut_conf.as_str(), DRACUT_CONF));
        let cmd = if generate_zbm {
            Command::new("generate-zbm")
        } else {
            let image = join_path(self.efi_mountpoint.as_str(), "EFI/ZBM/vmlinuz.efi");
            Command::new("dracut").arg("--force").arg("--add").arg("zfsbootmenu").arg(
                image.as_str(),
            )
        };
        steps.push(executor.run(cmd, FailurePolicy::Bootloader));
        assert(step_models(steps@) =~= dracut_steps(
            self.efi_mountpoint@,
            generate_zbm,
            self.dry_run,
        ));
        steps
    }

    /// Generate initramfs using mkinitcpio
    pub fn generate_mkinitcpio(&self) -> (r: Vec<Step>)
        ensures
            step_models(r@) == mkinitcpio_steps(self.dry_run),
    {
        let executor = Executor::new(self.dry_run);
        let mut steps: Vec<Step> = Vec::new();
        steps.push(
            executor.write_file("/etc/mkinitcpio.conf.d/zfsbootmenu.conf", MKINITCPIO_CONF),
        );
        steps.push(executor.run(Command::new("mkinitcpio").arg("-P"), FailurePolicy::Bootloader));
        assert(step_models(steps@) =~= mkinitcpio_steps(self.dry_run));
        steps
    }
}

} // verus!
