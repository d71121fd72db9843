//! Drivers of package managers: each installs a list of packages by one
//! elevated command.

use crate::package::{names, Package, PackageGroup, PackageGroupView, PackageManagers, PackageView};
use crate::shell::{CommandInvocationView, InvocationLog, Shell, ELEVATION_PROGRAM};
use vstd::prelude::*;

verus! {

/// The arguments of the one command that installs `packages`: the manager's
/// flag, then the name of each package, in order and as often as it is listed.
pub open spec fn batch_arguments_text(flag: Seq<char>, packages: Seq<PackageView>) -> Seq<
    Seq<char>,
> {
    seq![flag] + names(packages)
}

/// The one command by which `manager` installs `packages`. It is elevated.
pub open spec fn batch_invocation(
    manager: PackageManagers,
    packages: Seq<PackageView>,
) -> CommandInvocationView {
    CommandInvocationView {
        command: manager.command_text(),
        arguments: batch_arguments_text(manager.install_flag_text(), packages),
        elevated: true,
    }
}

/// The commands that install `groups`: one for each group, in order.
pub open spec fn group_invocations(groups: Seq<PackageGroupView>) -> Seq<CommandInvocationView> {
    groups.map_values(|group: PackageGroupView| batch_invocation(group.manager, group.packages))
}

/// The command that installs a list of packages is elevated, runs the
/// manager's program, and has as arguments the manager's flag and then the name
/// of each package, in the order of the list.
pub proof fn lemma_batch_names_packages(manager: PackageManagers, packages: Seq<PackageView>)
    ensures
        batch_invocation(manager, packages).elevated,
        batch_invocation(manager, packages).command == manager.command_text(),
        batch_invocation(manager, packages).arguments.len() == packages.len() + 1,
        batch_invocation(manager, packages).arguments[0] == manager.install_flag_text(),
        forall|i: int|
            0 <= i < packages.len() ==> #[trigger] batch_invocation(
                manager,
                packages,
            ).arguments[i + 1] == packages[i].name,
{
}

/// The process that installs a list of packages is the elevation program on
/// the manager's program, its flag, and the names of the packages.
pub proof fn lemma_batch_words(manager: PackageManagers, packages: Seq<PackageView>)
    ensures
        batch_invocation(manager, packages).words() == seq![
            ELEVATION_PROGRAM@,
            manager.command_text(),
            manager.install_flag_text(),
        ] + names(packages),
{
}

/// Lists of packages with the same names are installed by the same command,
/// whatever configuration files the packages have.
pub proof fn lemma_batch_ignores_configs(
    manager: PackageManagers,
    packages: Seq<PackageView>,
    others: Seq<PackageView>,
)
    requires
        names(packages) == names(others),
    ensures
        batch_invocation(manager, packages) == batch_invocation(manager, others),
{
}

/// Each group is installed by a command of its own, which stands where the
/// group stands and is made of that group's manager and packages alone.
pub proof fn lemma_one_batch_per_group(groups: Seq<PackageGroupView>)
    ensures
        group_invocations(groups).len() == groups.len(),
        forall|i: int|
            0 <= i < groups.len() ==> #[trigger] group_invocations(groups)[i] == batch_invocation(
                groups[i].manager,
                groups[i].packages,
            ),
{
}

/// The arguments of the one command that installs `packages`.
pub fn batch_arguments<'a>(flag: &'a str, packages: &'a [Package]) -> (arguments: Vec<&'a str>)
    ensures
        arguments.deep_view() == batch_arguments_text(flag@, packages.deep_view()),
{
    let mut arguments: Vec<&'a str> = Vec::new();
    arguments.push(flag);
    let mut i: usize = 0;
    while i < packages.len()
        invariant
            i <= packages.len(),
            arguments.len() == i + 1,
            arguments[0]@ == flag@,
            forall|k: int| 0 <= k < i ==> arguments[k + 1]@ == packages[k].name@,
        decreases packages.len() - i,
    {
        arguments.push(packages[i].name.as_str());
        i += 1;
    }
    arguments
}

/// Hands `shell` the one command by which `manager` installs `packages`.
pub fn install_batch<S: Shell>(manager: PackageManagers, packages: &[Package], shell: &mut S)
    ensures
        final(shell).invocations() == old(shell).invocations().push(
            batch_invocation(manager, packages.deep_view()),
        ),
{
    let arguments = batch_arguments(manager.install_flag(), packages);
    shell.sudo_run(manager.command(), arguments.as_slice());
}

/// Installs packages through one package manager.
pub trait PackageManager {
    /// The package manager that this driver speaks to.
    spec fn identity(&self) -> PackageManagers;

    /// The commands handed to this driver's shell so far, oldest first.
    spec fn invocations(&self) -> InvocationLog;

    /// Installs `packages`, all by one elevated command.
    fn install(&mut self, packages: &[Package])
        ensures
            final(self).identity() == old(self).identity(),
            final(self).invocations() == old(self).invocations().push(
                batch_invocation(old(self).identity(), packages.deep_view()),
            ),
    ;
}

/// The driver of `pacman`.
pub struct PacMan<S: Shell> {
    pub shell: S,
}

impl<S: Shell> PacMan<S> {
    /// A driver that runs its commands in `shell`.
    pub fn new(shell: S) -> (driver: Self)
        ensures
            driver.shell == shell,
    {
        PacMan { shell }
    }
}

impl<S: Shell> PackageManager for PacMan<S> {
    open spec fn identity(&self) -> PackageManagers {
        PackageManagers::PacMan
    }

    open spec fn invocations(&self) -> InvocationLog {
        self.shell.invocations()
    }

    fn install(&mut self, packages: &[Package]) {
        install_batch(PackageManagers::PacMan, packages, &mut self.shell);
    }
}

/// The driver of `snap`.
pub struct Snap<S: Shell> {
    pub shell: S,
}

impl<S: Shell> Snap<S> {
    /// A driver that runs its commands in `shell`.
    pub fn new(shell: S) -> (driver: Self)
        ensures
            driver.shell == shell,
    {
        Snap { shell }
    }
}

impl<S: Shell> PackageManager for Snap<S> {
    open spec fn identity(&self) -> PackageManagers {
        PackageManagers::Snap
    }

    open spec fn invocations(&self) -> InvocationLog {
        self.shell.invocations()
    }

    fn install(&mut self, packages: &[Package]) {
        install_batch(PackageManagers::Snap, packages, &mut self.shell);
    }
}

/// Installs every group through the driver of its package manager, one group
/// after the other, and hands the shell back.
pub fn install_packages<S: Shell>(groups: &[PackageGroup], shell: S) -> (used: S)
    ensures
        used.invocations() == shell.invocations() + group_invocations(groups.deep_view()),
{
    let mut shell = shell;
    let ghost start = shell.invocations();
    let mut g: usize = 0;
    while g < groups.len()
        invariant
            g <= groups.len(),
            shell.invocations() == start + group_invocations(groups.deep_view().take(g as int)),
        decreases groups.len() - g,
    {
        let group = &groups[g];
        match group.manager {
            PackageManagers::PacMan => {
                let mut driver = PacMan::new(shell);
                driver.install(group.packages.as_slice());
                shell = driver.shell;
            },
            PackageManagers::Snap => {
                let mut driver = Snap::new(shell);
                driver.install(group.packages.as_slice());
                shell = driver.shell;
            },
        }
        g += 1;
    }
    shell
}

} // verus!
