//! Packages, the package managers that own them, and groups of both.

use vstd::prelude::*;

verus! {

/// A named unit that can be installed, with the path of its configuration
/// file below the home directory where it has one.
#[derive(Debug, PartialEq, Eq)]
pub struct Package {
    pub name: String,
    pub config: Option<String>,
}

/// What a [`Package`] says, as plain text.
pub ghost struct PackageView {
    pub name: Seq<char>,
    pub config: Option<Seq<char>>,
}

impl View for Package {
    type V = PackageView;

    open spec fn view(&self) -> PackageView {
        PackageView {
            name: self.name@,
            config: match self.config {
                Some(path) => Some(path@),
                None => None,
            },
        }
    }
}

impl DeepView for Package {
    type V = PackageView;

    open spec fn deep_view(&self) -> PackageView {
        self@
    }
}

impl Clone for Package {
    fn clone(&self) -> (copy: Package)
        ensures
            copy@ == self@,
    {
        let config = match &self.config {
            Some(path) => Some(path.clone()),
            None => None,
        };
        Package { name: self.name.clone(), config }
    }
}

/// The package managers that can own a group of packages.
#[derive(Clone, Copy, PartialEq, Eq, Structural, Debug, Hash)]
pub enum PackageManagers {
    PacMan,
    Snap,
}

impl PackageManagers {
    /// The program of this package manager.
    pub open spec fn command_text(self) -> Seq<char> {
        match self {
            PackageManagers::PacMan => "pacman"@,
            PackageManagers::Snap => "snap"@,
        }
    }

    /// The argument that makes this package manager install what follows it.
    pub open spec fn install_flag_text(self) -> Seq<char> {
        match self {
            PackageManagers::PacMan => "-Syyu"@,
            PackageManagers::Snap => "install"@,
        }
    }

    /// The program of this package manager.
    pub fn command(self) -> (command: &'static str)
        ensures
            command@ == self.command_text(),
    {
        match self {
            PackageManagers::PacMan => "pacman",
            PackageManagers::Snap => "snap",
        }
    }

    /// The argument that makes this package manager install what follows it.
    pub fn install_flag(self) -> (flag: &'static str)
        ensures
            flag@ == self.install_flag_text(),
    {
        match self {
            PackageManagers::PacMan => "-Syyu",
            PackageManagers::Snap => "install",
        }
    }
}

/// The packages that one package manager owns, in the order declared.
#[derive(Debug, PartialEq, Eq)]
pub struct PackageGroup {
    pub manager: PackageManagers,
    pub packages: Vec<Package>,
}

/// What a [`PackageGroup`] says, as plain text.
pub ghost struct PackageGroupView {
    pub manager: PackageManagers,
    pub packages: Seq<PackageView>,
}

impl View for PackageGroup {
    type V = PackageGroupView;

    open spec fn view(&self) -> PackageGroupView {
        PackageGroupView { manager: self.manager, packages: self.packages.deep_view() }
    }
}

impl DeepView for PackageGroup {
    type V = PackageGroupView;

    open spec fn deep_view(&self) -> PackageGroupView {
        self@
    }
}

/// The names of `packages`, in order.
pub open spec fn names(packages: Seq<PackageView>) -> Seq<Seq<char>> {
    packages.map_values(|package: PackageView| package.name)
}

/// The packages of all `groups`, group after group.
pub open spec fn packages_of(groups: Seq<PackageGroupView>) -> Seq<PackageView> {
    groups.map_values(|group: PackageGroupView| group.packages).flatten()
}

/// The packages of all `groups` as one list, group after group.
pub fn all_packages(groups: &[PackageGroup]) -> (packages: Vec<Package>)
    ensures
        packages.deep_view() == packages_of(groups.deep_view()),
{
    let mut packages: Vec<Package> = Vec::new();
    let mut g: usize = 0;
    while g < groups.len()
        invariant
            g <= groups.len(),
            packages.deep_view() == packages_of(groups.deep_view().take(g as int)),
        decreases groups.len() - g,
    {
        let group = &groups[g];
        let ghost before = packages.deep_view();
        let mut i: usize = 0;
        while i < group.packages.len()
            invariant
                i <= group.packages.len(),
                packages.deep_view() == before + group.packages.deep_view().take(i as int),
            decreases group.packages.len() - i,
        {
            let ghost so_far = packages.deep_view();
            packages.push(group.packages[i].clone());
            assert(packages.deep_view() =~= so_far.push(group.packages[i as int]@));
            i += 1;
        }
        proof {
            let seen = groups.deep_view().take(g as int);
            let lists = seen.map_values(|group: PackageGroupView| group.packages);
            assert(groups.deep_view().take(g + 1).map_values(
                |group: PackageGroupView| group.packages,
            ) =~= lists.push(group@.packages));
            lists.lemma_flatten_push(group@.packages);
        }
        g += 1;
    }
    assert(groups.deep_view().take(g as int) =~= groups.deep_view());
    packages
}

} // verus!
