//! ZFS dataset creation and management

use crate::command::{
    step_models, Command, CommandModel, Executor, FailurePolicy, Step, StepModel,
};
use crate::text::framed;
use vstd::prelude::*;
use vstd::string::*;

verus! {

/// Dataset property
#[derive(Debug, Clone)]
pub struct DatasetProperty {
    pub key: String,
    pub value: String,
}

impl View for DatasetProperty {
    type V = (Seq<char>, Seq<char>);

    open spec fn view(&self) -> (Seq<char>, Seq<char>) {
        (self.key@, self.value@)
    }
}

/// The models of a list of properties.
pub open spec fn property_models(properties: Seq<DatasetProperty>) -> Seq<(Seq<char>, Seq<char>)> {
    properties.map_values(|p: DatasetProperty| p@)
}

/// The arguments that set `properties` on creation: `-o key=value` for each.
pub open spec fn property_args(properties: Seq<(Seq<char>, Seq<char>)>) -> Seq<Seq<char>>
    decreases properties.len(),
{
    if properties.len() == 0 {
        Seq::empty()
    } else {
        property_args(properties.drop_last()).push("-o"@).push(
            properties.last().0 + "="@ + properties.last().1,
        )
    }
}

/// `zfs create [-o key=value]... pool/name`
pub open spec fn create_dataset_command(
    pool: Seq<char>,
    name: Seq<char>,
    properties: Seq<(Seq<char>, Seq<char>)>,
) -> CommandModel {
    CommandModel {
        program: "zfs"@,
        args: (seq!["create"@] + property_args(properties)).push(pool + "/"@ + name),
    }
}

/// `zfs snapshot pool/dataset@snapshot`
pub open spec fn snapshot_command(
    pool: Seq<char>,
    dataset: Seq<char>,
    snapshot: Seq<char>,
) -> CommandModel {
    CommandModel::bare("zfs"@).with("snapshot"@).with(pool + "/"@ + dataset + "@"@ + snapshot)
}

/// `zfs mount pool/dataset`
pub open spec fn mount_command(pool: Seq<char>, dataset: Seq<char>) -> CommandModel {
    CommandModel::bare("zfs"@).with("mount"@).with(pool + "/"@ + dataset)
}

/// `zfs unmount pool/dataset`
pub open spec fn unmount_command(pool: Seq<char>, dataset: Seq<char>) -> CommandModel {
    CommandModel::bare("zfs"@).with("unmount"@).with(pool + "/"@ + dataset)
}

/// `zfs set key=value pool/dataset`
pub open spec fn set_property_command(
    pool: Seq<char>,
    dataset: Seq<char>,
    property: (Seq<char>, Seq<char>),
) -> CommandModel {
    CommandModel::bare("zfs"@).with("set"@).with(property.0 + "="@ + property.1).with(
        pool + "/"@ + dataset,
    )
}

/// Number of datasets in the fixed hierarchy.
pub const DATASET_COUNT: usize = 12;

/// Name of the `i`-th dataset of the fixed hierarchy, relative to the pool.
pub open spec fn layout_name(i: int) -> Seq<char> {
    if i == 0 {
        "ROOT"@
    } else if i == 1 {
        "ROOT/default"@
    } else if i == 2 {
        "home"@
    } else if i == 3 {
        "home/root"@
    } else if i == 4 {
        "var"@
    } else if i == 5 {
        "var/log"@
    } else if i == 6 {
        "var/cache"@
    } else if i == 7 {
        "var/tmp"@
    } else if i == 8 {
        "opt"@
    } else if i == 9 {
        "srv"@
    } else if i == 10 {
        "usr"@
    } else {
        "usr/local"@
    }
}

/// Properties of the `i`-th dataset of the fixed hierarchy.
pub open spec fn layout_properties(i: int) -> Seq<(Seq<char>, Seq<char>)> {
    if i == 0 || i == 4 || i == 10 {
        seq![("canmount"@, "off"@), ("mountpoint"@, "none"@)]
    } else if i == 1 {
        seq![("canmount"@, "noauto"@), ("mountpoint"@, "/"@)]
    } else if i == 2 {
        seq![("mountpoint"@, "/home"@)]
    } else if i == 3 {
        seq![("mountpoint"@, "/root"@)]
    } else if i == 5 {
        seq![("mountpoint"@, "/var/log"@), ("acltype"@, "posixacl"@), ("xattr"@, "sa"@)]
    } else if i == 6 {
        seq![("mountpoint"@, "/var/cache"@), ("com.sun:auto-snapshot"@, "false"@)]
    } else if i == 7 {
        seq![("mountpoint"@, "/var/tmp"@), ("com.sun:auto-snapshot"@, "false"@)]
    } else if i == 8 {
        seq![("mountpoint"@, "/opt"@)]
    } else if i == 9 {
        seq![("mountpoint"@, "/srv"@)]
    } else {
        seq![("mountpoint"@, "/usr/local"@)]
    }
}

/// The steps that create the fixed hierarchy in `pool`, parents before
/// children.
pub open spec fn layout_steps(pool: Seq<char>, simulated: bool) -> Seq<StepModel> {
    Seq::new(
        DATASET_COUNT as nat,
        |i: int|
            StepModel::run(
                create_dataset_command(pool, layout_name(i), layout_properties(i)),
                FailurePolicy::Zfs,
                simulated,
            ),
    )
}

fn property(key: &str, value: &str) -> (r: DatasetProperty)
    ensures
        r@ == (key@, value@),
{
    DatasetProperty { key: String::from_str(key), value: String::from_str(value) }
}

fn one(a: DatasetProperty) -> (r: Vec<DatasetProperty>)
    ensures
        property_models(r@) == seq![a@],
{
    let mut out: Vec<DatasetProperty> = Vec::new();
    out.push(a);
    assert(property_models(out@) =~= seq![a@]);
    out
}

fn two(a: DatasetProperty, b: DatasetProperty) -> (r: Vec<DatasetProperty>)
    ensures
        property_models(r@) == seq![a@, b@],
{
    let mut out: Vec<DatasetProperty> = Vec::new();
    out.push(a);
    out.push(b);
    assert(property_models(out@) =~= seq![a@, b@]);
    out
}

fn three(a: DatasetProperty, b: DatasetProperty, c: DatasetProperty) -> (r: Vec<DatasetProperty>)
    ensures
        property_models(r@) == seq![a@, b@, c@],
{
    let mut out: Vec<DatasetProperty> = Vec::new();
    out.push(a);
    out.push(b);
    out.push(c);
    assert(property_models(out@) =~= seq![a@, b@, c@]);
    out
}

/// Name of the `i`-th dataset of the fixed hierarchy.
pub fn layout_entry_name(i: usize) -> (r: &'static str)
    requires
        i < DATASET_COUNT,
    ensures
        r@ == layout_name(i as int),
{
    if i == 0 {
        "ROOT"
    } else if i == 1 {
        "ROOT/default"
    } else if i == 2 {
        "home"
    } else if i == 3 {
        "home/root"
    } else if i == 4 {
        "var"
    } else if i == 5 {
        "var/log"
    } else if i == 6 {
        "var/cache"
    } else if i == 7 {
        "var/tmp"
    } else if i == 8 {
        "opt"
    } else if i == 9 {
        "srv"
    } else if i == 10 {
        "usr"
    } else {
        "usr/local"
    }
}

/// Properties of the `i`-th dataset of the fixed hierarchy.
pub fn layout_entry_properties(i: usize) -> (r: Vec<DatasetProperty>)
    requires
        i < DATASET_COUNT,
    ensures
        property_models(r@) == layout_properties(i as int),
{
    if i == 0 || i == 4 || i == 10 {
        two(property("canmount", "off"), property("mountpoint", "none"))
    } else if i == 1 {
        two(property("canmount", "noauto"), property("mountpoint", "/"))
    } else if i == 2 {
        one(property("mountpoint", "/home"))
    } else if i == 3 {
        one(property("mountpoint", "/root"))
    } else if i == 5 {
        three(
            property("mountpoint", "/var/log"),
            property("acltype", "posixacl"),
            property("xattr", "sa"),
        )
    } else if i == 6 {
        two(property("mountpoint", "/var/cache"), property("com.sun:auto-snapshot", "false"))
    } else if i == 7 {
        two(property("mountpoint", "/var/tmp"), property("com.sun:auto-snapshot", "false"))
    } else if i == 8 {
        one(property("mountpoint", "/opt"))
    } else if i == 9 {
        one(property("mountpoint", "/srv"))
    } else {
        one(property("mountpoint", "/usr/local"))
    }
}

/// ZFS dataset manager
#[derive(Debug)]
pub struct DatasetManager {
    pub pool_name: String,
    pub dry_run: bool,
}

impl DatasetManager {
    /// Create a new dataset manager
    pub fn new(pool_name: String, dry_run: bool) -> (r: Self)
        ensures
            r.pool_name == pool_name,
            r.dry_run == dry_run,
    {
        DatasetManager { pool_name, dry_run }
    }

    /// `pool/dataset`
    fn qualified(&self, dataset: &str) -> (r: String)
        ensures
            r@ == self.pool_name@ + "/"@ + dataset@,
    {
        framed(self.pool_name.as_str(), "/", dataset)
    }

    /// Create a dataset
    pub fn create_dataset(&self, name: &str, properties: &[DatasetProperty]) -> (r: Step)
        ensures
            r@ == StepModel::run(
                create_dataset_command(self.pool_name@, name@, property_models(properties@)),
                FailurePolicy::Zfs,
                self.dry_run,
            ),
    {
        let mut cmd = Command::new("zfs").arg("create");
        let ghost models = property_models(properties@);
        assert(cmd@.args =~= seq!["create"@] + property_args(models.take(0)));
        let mut i: usize = 0;
        while i < properties.len()
            invariant
                i <= properties.len(),
                models == property_models(properties@),
                cmd@.program == "zfs"@,
                cmd@.args == seq!["create"@] + property_args(models.take(i as int)),
            decreases properties.len() - i,
        {
            let assignment = framed(properties[i].key.as_str(), "=", properties[i].value.as_str());
            cmd = cmd.arg("-o").arg(assignment.as_str());
            proof {
                let upto = models.take(i + 1);
                assert(upto.drop_last() =~= models.take(i as int));
                assert(upto.last() == properties@[i as int]@);
                assert(cmd@.args =~= seq!["create"@] + property_args(upto));
            }
            i += 1;
        }
        assert(models.take(properties.len() as int) =~= models);
        let target = self.qualified(name);
        cmd = cmd.arg(target.as_str());
        Executor::new(self.dry_run).run(cmd, FailurePolicy::Zfs)
    }

    /// Create the standard ZBM dataset hierarchy: one step per dataset, in
    /// the order of the fixed table.
    pub fn create_zbm_datasets(&self) -> (r: Vec<Step>)
        ensures
            step_models(r@) == layout_steps(self.pool_name@, self.dry_run),
    {
        let mut steps: Vec<Step> = Vec::new();
        let mut i: usize = 0;
        while i < DATASET_COUNT
            invariant
                i <= DATASET_COUNT,
                steps.len() == i,
                forall|j: int|
                    0 <= j < i ==> (#[trigger] steps@[j])@ == StepModel::run(
                        create_dataset_command(
                            self.pool_name@,
                            layout_name(j),
                            layout_properties(j),
                        ),
                        FailurePolicy::Zfs,
                        self.dry_run,
                    ),
            decreases DATASET_COUNT - i,
        {
            let name = layout_entry_name(i);
            let properties = layout_entry_properties(i);
            let step = self.create_dataset(name, properties.as_slice());
            steps.push(step);
            i += 1;
        }
        assert(step_models(steps@) =~= layout_steps(self.pool_name@, self.dry_run));
        steps
    }

    /// Create a snapshot
    pub fn snapshot(&self, dataset: &str, snapshot_name: &str) -> (r: Step)
        ensures
            r@ == StepModel::run(
                snapshot_command(self.pool_name@, dataset@, snapshot_name@),
                FailurePolicy::Zfs,
                self.dry_run,
            ),
    {
        let mut target = self.qualified(dataset);
        target.append("@");
        target.append(snapshot_name);
        let cmd = Command::new("zfs").arg("snapshot").arg(target.as_str());
        Executor::new(self.dry_run).run(cmd, FailurePolicy::Zfs)
    }

    /// Mount a dataset
    pub fn mount(&self, dataset: &str) -> (r: Step)
        ensures
            r@ == StepModel::run(
                mount_command(self.pool_name@, dataset@),
                FailurePolicy::Zfs,
                self.dry_run,
            ),
    {
        let target = self.qualified(dataset);
        let cmd = Command::new("zfs").arg("mount").arg(target.as_str());
        Executor::new(self.dry_run).run(cmd, FailurePolicy::Zfs)
    }

    /// Unmount a dataset
    pub fn unmount(&self, dataset: &str) -> (r: Step)
        ensures
            r@ == StepModel::run(
                unmount_command(self.pool_name@, dataset@),
                FailurePolicy::Zfs,
                self.dry_run,
            ),
    {
        let target = self.qualified(dataset);
        let cmd = Command::new("zfs").arg("unmount").arg(target.as_str());
        Executor::new(self.dry_run).run(cmd, FailurePolicy::Zfs)
    }

    /// Set a property on a dataset
    pub fn set_property(&self, dataset: &str, property: &DatasetProperty) -> (r: Step)
        ensures
            r@ == StepModel::run(
                set_property_command(self.pool_name@, dataset@, property@),
                FailurePolicy::Zfs,
                self.dry_run,
            ),
    {
        let assignment = framed(property.key.as_str(), "=", property.value.as_str());
        let target = self.qualified(dataset);
        let cmd = Command::new("zfs").arg("set").arg(assignment.as_str()).arg(target.as_str());
        Executor::new(self.dry_run).run(cmd, FailurePolicy::Zfs)
    }
}

} // verus!
