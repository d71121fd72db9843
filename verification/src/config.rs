//! Linking the configuration files of packages into the home directory.
//!
//! The link of a configuration file points to the bare name of the file, not
//! to its whole path: it is meant to lie beside a file of that name.

use crate::filesystem::{Filesystem, SymlinkRequestView};
use crate::package::{Package, PackageView};
use crate::path::{file_name, final_component, join, joined};
use vstd::prelude::*;

verus! {

/// Whether `package` has a configuration file.
pub open spec fn has_config(package: PackageView) -> bool {
    package.config is Some
}

/// The packages among `packages` that have a configuration file.
pub open spec fn configured(packages: Seq<PackageView>) -> Seq<PackageView> {
    packages.filter(|package: PackageView| has_config(package))
}

/// Whether a link can be made for `package`: it has no configuration file, or
/// the path of its configuration file names one.
pub open spec fn linkable(package: PackageView) -> bool {
    package.config matches Some(config) ==> final_component(config) is Some
}

/// Whether a link can be made for each of `packages`.
pub open spec fn all_linkable(packages: Seq<PackageView>) -> bool {
    forall|i: int| 0 <= i < packages.len() ==> linkable(#[trigger] packages[i])
}

/// The link that `package` asks for under `home`, where it has a
/// configuration file: it lies at the file's place under `home` and points to
/// the bare name of the file.
pub open spec fn symlink_request(home: Seq<char>, package: PackageView) -> Option<
    SymlinkRequestView,
>
    recommends
        linkable(package),
{
    match package.config {
        Some(config) => Some(
            SymlinkRequestView {
                source_name: final_component(config).unwrap(),
                destination_path: joined(home, config),
            },
        ),
        None => None,
    }
}

/// The links that `packages` ask for under `home`, in the order of the
/// packages: one for each package that has a configuration file.
pub open spec fn symlink_requests(home: Seq<char>, packages: Seq<PackageView>) -> Seq<
    SymlinkRequestView,
>
    recommends
        all_linkable(packages),
{
    packages.filter_map(|package: PackageView| symlink_request(home, package))
}

/// A package with a configuration file asks for exactly one link, which
/// points to the file's bare name and lies at the file's place under the home
/// directory. A package without one asks for no link.
pub proof fn lemma_one_link_per_config(home: Seq<char>, package: PackageView)
    requires
        linkable(package),
    ensures
        symlink_requests(home, seq![package]) == match package.config {
            Some(config) => seq![
                SymlinkRequestView {
                    source_name: final_component(config).unwrap(),
                    destination_path: joined(home, config),
                },
            ],
            None => Seq::empty(),
        },
{
    Seq::lemma_filter_map_singleton(
        package,
        |package: PackageView| symlink_request(home, package),
    );
}

/// The links of a list of packages are the links of its first part, then
/// those of the rest: each package's link stands where the package stands, and
/// no package adds to or takes from the links of another.
pub proof fn lemma_links_follow_packages(
    home: Seq<char>,
    first: Seq<PackageView>,
    rest: Seq<PackageView>,
)
    ensures
        symlink_requests(home, first + rest) == symlink_requests(home, first) + symlink_requests(
            home,
            rest,
        ),
    decreases rest.len(),
{
    if rest.len() > 0 {
        lemma_links_follow_packages(home, first, rest.drop_last());
        assert((first + rest).drop_last() =~= first + rest.drop_last());
    }
}

/// There are as many links as there are packages with a configuration file.
pub proof fn lemma_link_count(home: Seq<char>, packages: Seq<PackageView>)
    ensures
        symlink_requests(home, packages).len() == configured(packages).len(),
    decreases packages.len(),
{
    reveal(Seq::filter);
    if packages.len() > 0 {
        lemma_link_count(home, packages.drop_last());
    }
}

/// Whether a link can be made for each of `packages`.
pub fn can_link_all(packages: &[Package]) -> (ok: bool)
    ensures
        ok == all_linkable(packages.deep_view()),
{
    let mut i: usize = 0;
    while i < packages.len()
        invariant
            i <= packages.len(),
            forall|k: int| 0 <= k < i ==> linkable(#[trigger] packages.deep_view()[k]),
        decreases packages.len() - i,
    {
        if let Some(config) = &packages[i].config {
            if file_name(config.as_str()).is_none() {
                assert(!linkable(packages.deep_view()[i as int]));
                return false;
            }
        }
        i += 1;
    }
    true
}

/// Links the configuration file of each package into `home`.
///
/// Packages are taken in order. One without a configuration file is passed
/// over; for any other, `filesystem` is asked for one link. The path of each
/// configuration file has to name a file: `can_link_all` tells.
pub fn install_config_files<F: Filesystem>(packages: &[Package], home: &str, filesystem: &mut F)
    requires
        all_linkable(packages.deep_view()),
    ensures
        final(filesystem).links() == old(filesystem).links() + symlink_requests(
            home@,
            packages.deep_view(),
        ),
{
    let ghost start = filesystem.links();
    let ghost all = packages.deep_view();
    let ghost request = |package: PackageView| symlink_request(home@, package);
    let mut i: usize = 0;
    while i < packages.len()
        invariant
            i <= packages.len(),
            all == packages.deep_view(),
            all_linkable(all),
            request == |package: PackageView| symlink_request(home@, package),
            filesystem.links() == start + all.take(i as int).filter_map(request),
        decreases packages.len() - i,
    {
        proof {
            all.lemma_filter_map_take_succ(request, i as int);
        }
        if let Some(config) = &packages[i].config {
            let source = file_name(config.as_str()).unwrap();
            let destination = join(home, config.as_str());
            filesystem.symlink(source.as_str(), destination.as_str());
        }
        i += 1;
    }
    assert(all.take(i as int) =~= all);
}

} // verus!
