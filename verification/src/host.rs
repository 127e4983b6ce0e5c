//! A mathematical model of the host that discovery interrogates, and the
//! definition of what discovery finds on such a host.

use vstd::prelude::*;
use crate::arch::{Arch, arch_subpath};
use crate::path::PathModel;

verus! {

/// A string value of the registry's local-machine hive.
#[derive(Debug, Clone, Copy, PartialEq, Eq, Structural, Hash)]
pub enum RegistryValue {
    KitsRoot10,
    KitsRoot81,
    KitsRoot,
    CurrentInstallFolder,
}

impl RegistryValue {
    /// The registry key under which the value lives.
    pub open spec fn key_path_spec(self) -> Seq<char> {
        match self {
            RegistryValue::CurrentInstallFolder => "SOFTWARE\\Microsoft\\Microsoft SDKs\\Windows"@,
            _ => "SOFTWARE\\Microsoft\\Windows Kits\\Installed Roots"@,
        }
    }

    /// The name of the value under its key.
    pub open spec fn value_name_spec(self) -> Seq<char> {
        match self {
            RegistryValue::KitsRoot10 => "KitsRoot10"@,
            RegistryValue::KitsRoot81 => "KitsRoot81"@,
            RegistryValue::KitsRoot => "KitsRoot"@,
            RegistryValue::CurrentInstallFolder => "CurrentInstallFolder"@,
        }
    }

    /// The registry key under which the value lives.
    pub fn key_path(self) -> (key: &'static str)
        ensures
            key@ == self.key_path_spec(),
    {
        match self {
            RegistryValue::CurrentInstallFolder => "SOFTWARE\\Microsoft\\Microsoft SDKs\\Windows",
            _ => "SOFTWARE\\Microsoft\\Windows Kits\\Installed Roots",
        }
    }

    /// The name of the value under its key.
    pub fn value_name(self) -> (name: &'static str)
        ensures
            name@ == self.value_name_spec(),
    {
        match self {
            RegistryValue::KitsRoot10 => "KitsRoot10",
            RegistryValue::KitsRoot81 => "KitsRoot81",
            RegistryValue::KitsRoot => "KitsRoot",
            RegistryValue::CurrentInstallFolder => "CurrentInstallFolder",
        }
    }
}

/// The probing strategies, in the order in which they are tried.
#[derive(Debug, Clone, Copy, PartialEq, Eq, Structural, Hash)]
pub enum Probe {
    KitsRoot10,
    KitsRoot81,
    KitsRoot,
    LegacySdk,
    KitScan,
    VsInstance,
}

impl Probe {
    /// The position of a probe in the priority order.
    pub open spec fn rank(self) -> nat {
        match self {
            Probe::KitsRoot10 => 0,
            Probe::KitsRoot81 => 1,
            Probe::KitsRoot => 2,
            Probe::LegacySdk => 3,
            Probe::KitScan => 4,
            Probe::VsInstance => 5,
        }
    }

    /// The registry value a probe starts from; the instance probe has none.
    pub open spec fn source(self) -> Option<RegistryValue> {
        match self {
            Probe::KitsRoot10 => Some(RegistryValue::KitsRoot10),
            Probe::KitsRoot81 => Some(RegistryValue::KitsRoot81),
            Probe::KitsRoot => Some(RegistryValue::KitsRoot),
            Probe::LegacySdk => Some(RegistryValue::CurrentInstallFolder),
            Probe::KitScan => Some(RegistryValue::KitsRoot10),
            Probe::VsInstance => None,
        }
    }
}

/// The first of two optional results that is present.
pub open spec fn first_of(a: Option<PathModel>, b: Option<PathModel>) -> Option<PathModel> {
    if a is Some {
        a
    } else {
        b
    }
}

/// The directory of a versioned kit below `bin_root`.
pub open spec fn version_dir(bin_root: Seq<char>, version: Seq<char>, arch: Arch) -> PathModel {
    PathModel::root(bin_root).push(arch_subpath(arch, version + "/x86"@, version + "/x64"@))
}

/// An entry of a directory as the file system reports it.
pub struct EntryModel {
    /// The entry's name, where it can be decoded as text.
    pub name: Option<Seq<char>>,
    /// Whether the entry is a directory, where its type can be told.
    pub is_dir: Option<bool>,
}

impl EntryModel {
    /// An entry stands for an installed version when its name is text and
    /// it is known to be a directory.
    pub open spec fn is_version(self) -> bool {
        self.name is Some && self.is_dir == Some(true)
    }
}

/// The names of the entries that stand for installed versions, in the
/// order of the entries.
pub open spec fn version_names(entries: Seq<EntryModel>) -> Seq<Seq<char>>
    decreases entries.len(),
{
    if entries.len() == 0 {
        Seq::empty()
    } else {
        let before = version_names(entries.drop_last());
        if entries.last().is_version() {
            before.push(entries.last().name->0)
        } else {
            before
        }
    }
}

/// A Windows SDK root as the Visual Studio instance locator reports it.
pub struct SdkRootModel {
    /// The reported path.
    pub root: Seq<char>,
    /// Whether the path ends in a segment that can be read as a version.
    pub has_final_name: bool,
}

/// What the host would answer: registry values, the file system, and the
/// SDK root that the Visual Studio instance locator reports.
pub struct Host {
    /// String values present in the registry.
    pub registry: Map<RegistryValue, Seq<char>>,
    /// Paths that are existing directories.
    pub directories: Set<PathModel>,
    /// Paths at which any file-system entry exists.
    pub entries: Set<PathModel>,
    /// For each readable directory, its entries in the order in which the
    /// file system enumerates them. That order is the host's own: nothing
    /// sorts it.
    pub listings: Map<PathModel, Seq<EntryModel>>,
    /// The Windows SDK root reported by the instance locator, if any.
    pub sdk_root: Option<SdkRootModel>,
}

impl Host {
    /// The string stored under a registry value, if there is one.
    pub open spec fn registry_value(self, value: RegistryValue) -> Option<Seq<char>> {
        if self.registry.contains_key(value) {
            Some(self.registry[value])
        } else {
            None
        }
    }

    /// The entries of a directory, if it can be read.
    pub open spec fn listing(self, dir: PathModel) -> Option<Seq<EntryModel>> {
        if self.listings.contains_key(dir) {
            Some(self.listings[dir])
        } else {
            None
        }
    }

    /// `root` extended by the subpath of `arch`, if that is a directory.
    pub open spec fn try_bin_dir(
        self,
        root: PathModel,
        x86: Seq<char>,
        x64: Seq<char>,
        arch: Arch,
    ) -> Option<PathModel> {
        let dir = root.push(arch_subpath(arch, x86, x64));
        if self.directories.contains(dir) {
            Some(dir)
        } else {
            None
        }
    }

    /// `dir` extended by the tool's file name, if an entry exists there.
    pub open spec fn try_tool(self, dir: PathModel, tool: Seq<char>) -> Option<PathModel> {
        let path = dir.push(tool);
        if self.entries.contains(path) {
            Some(path)
        } else {
            None
        }
    }

    /// The tool inside a candidate directory: the directory must exist and
    /// hold an entry named `tool`.
    pub open spec fn locate(self, dir: PathModel, tool: Seq<char>) -> Option<PathModel> {
        if self.directories.contains(dir) {
            self.try_tool(dir, tool)
        } else {
            None
        }
    }

    /// Root, then architecture directory, then tool.
    pub open spec fn probe(
        self,
        root: PathModel,
        x86: Seq<char>,
        x64: Seq<char>,
        arch: Arch,
        tool: Seq<char>,
    ) -> Option<PathModel> {
        match self.try_bin_dir(root, x86, x64, arch) {
            Some(dir) => self.try_tool(dir, tool),
            None => None,
        }
    }

    /// The Installed-Roots probe for one of the three kit values.
    pub open spec fn kits_probe(self, value: RegistryValue, arch: Arch, tool: Seq<char>) -> Option<
        PathModel,
    > {
        match self.registry_value(value) {
            Some(root) => self.probe(PathModel::root(root), "bin/x86"@, "bin/x64"@, arch, tool),
            None => None,
        }
    }

    /// The probe of the SDKs that precede the kits.
    pub open spec fn legacy_probe(self, arch: Arch, tool: Seq<char>) -> Option<PathModel> {
        match self.registry_value(RegistryValue::CurrentInstallFolder) {
            Some(root) => self.probe(PathModel::root(root), "Bin"@, "Bin/x64"@, arch, tool),
            None => None,
        }
    }

    /// The first version at or after position `from` whose directory holds
    /// the tool.
    pub open spec fn scan_from(
        self,
        bin_root: Seq<char>,
        versions: Seq<Seq<char>>,
        from: nat,
        arch: Arch,
        tool: Seq<char>,
    ) -> Option<PathModel>
        decreases versions.len() - from,
    {
        if from >= versions.len() {
            None
        } else {
            first_of(
                self.locate(version_dir(bin_root, versions[from as int], arch), tool),
                self.scan_from(bin_root, versions, from + 1, arch, tool),
            )
        }
    }

    /// The scan of the versions enumerated below `bin_root`.
    pub open spec fn scan_listed(self, bin_root: Seq<char>, arch: Arch, tool: Seq<char>) -> Option<
        PathModel,
    > {
        match self.listing(PathModel::root(bin_root)) {
            Some(entries) => self.scan_from(bin_root, version_names(entries), 0, arch, tool),
            None => None,
        }
    }

    /// The scan of the multi-version kit.
    pub open spec fn scan_probe(self, arch: Arch, tool: Seq<char>) -> Option<PathModel> {
        match self.registry_value(RegistryValue::KitsRoot10) {
            Some(kit_root) => self.scan_listed(kit_root + "/bin"@, arch, tool),
            None => None,
        }
    }

    /// The second derivation from an SDK root: two levels up, then the
    /// architecture directory below `bin`.
    pub open spec fn vs_plain(self, root: Seq<char>, arch: Arch, tool: Seq<char>) -> Option<
        PathModel,
    > {
        self.probe(PathModel::above(root, 2), "bin/x86"@, "bin/x64"@, arch, tool)
    }

    /// The first derivation from an SDK root: its final segment is a
    /// version; two levels up, `bin`, that version, the architecture. A
    /// root without a final segment gives nothing.
    pub open spec fn vs_versioned(self, sdk: SdkRootModel, arch: Arch, tool: Seq<char>) -> Option<
        PathModel,
    > {
        if sdk.has_final_name {
            self.probe(
                PathModel::above(sdk.root, 2).push("bin"@).push_final_name(),
                "x86"@,
                "x64"@,
                arch,
                tool,
            )
        } else {
            None
        }
    }

    /// The probe through the Visual Studio instance locator.
    pub open spec fn vs_probe(self, arch: Arch, tool: Seq<char>) -> Option<PathModel> {
        match self.sdk_root {
            Some(sdk) => first_of(
                self.vs_versioned(sdk, arch, tool),
                self.vs_plain(sdk.root, arch, tool),
            ),
            None => None,
        }
    }

    /// What one probe finds.
    pub open spec fn probe_at(self, probe: Probe, arch: Arch, tool: Seq<char>) -> Option<
        PathModel,
    > {
        match probe {
            Probe::KitsRoot10 => self.kits_probe(RegistryValue::KitsRoot10, arch, tool),
            Probe::KitsRoot81 => self.kits_probe(RegistryValue::KitsRoot81, arch, tool),
            Probe::KitsRoot => self.kits_probe(RegistryValue::KitsRoot, arch, tool),
            Probe::LegacySdk => self.legacy_probe(arch, tool),
            Probe::KitScan => self.scan_probe(arch, tool),
            Probe::VsInstance => self.vs_probe(arch, tool),
        }
    }

    /// What the probes that come after `probe` find.
    pub open spec fn after(self, probe: Probe, arch: Arch, tool: Seq<char>) -> Option<PathModel> {
        let kits81 = self.kits_probe(RegistryValue::KitsRoot81, arch, tool);
        let kits = self.kits_probe(RegistryValue::KitsRoot, arch, tool);
        let legacy = self.legacy_probe(arch, tool);
        let scan = self.scan_probe(arch, tool);
        let vs = self.vs_probe(arch, tool);
        match probe {
            Probe::KitsRoot10 => first_of(kits81, first_of(kits, first_of(legacy, first_of(scan, vs)))),
            Probe::KitsRoot81 => first_of(kits, first_of(legacy, first_of(scan, vs))),
            Probe::KitsRoot => first_of(legacy, first_of(scan, vs)),
            Probe::LegacySdk => first_of(scan, vs),
            Probe::KitScan => vs,
            Probe::VsInstance => None,
        }
    }

    /// What `probe` and the probes after it find.
    pub open spec fn from_probe(self, probe: Probe, arch: Arch, tool: Seq<char>) -> Option<
        PathModel,
    > {
        first_of(self.probe_at(probe, arch, tool), self.after(probe, arch, tool))
    }

    /// The result of discovery: the first probe, in priority order, that
    /// finds the tool decides; if none does there is no result.
    pub open spec fn discover(self, arch: Arch, tool: Seq<char>) -> Option<PathModel> {
        self.from_probe(Probe::KitsRoot10, arch, tool)
    }
}

/// The architecture directory is found exactly when the subpath selected by
/// the architecture is an existing directory below the root, and it is that
/// directory; the subpath of the other architecture plays no part.
pub proof fn lemma_bin_dir_follows_architecture(
    host: Host,
    root: PathModel,
    x86: Seq<char>,
    x64: Seq<char>,
    other: Seq<char>,
)
    ensures
        host.try_bin_dir(root, x86, x64, Arch::X86) == (if host.directories.contains(
            root.push(x86),
        ) {
            Some(root.push(x86))
        } else {
            None
        }),
        host.try_bin_dir(root, x86, x64, Arch::X64) == (if host.directories.contains(
            root.push(x64),
        ) {
            Some(root.push(x64))
        } else {
            None
        }),
        host.try_bin_dir(root, x86, x64, Arch::X86) == host.try_bin_dir(root, x86, other, Arch::X86),
        host.try_bin_dir(root, x86, x64, Arch::X64) == host.try_bin_dir(root, other, x64, Arch::X64),
{
}

/// Where one of the three Installed-Roots values leads to the tool,
/// discovery returns what the first such value leads to, whatever the
/// probes of lower priority would find.
pub proof fn lemma_installed_roots_take_priority(host: Host, arch: Arch, tool: Seq<char>)
    requires
        host.kits_probe(RegistryValue::KitsRoot10, arch, tool) is Some || host.kits_probe(
            RegistryValue::KitsRoot81,
            arch,
            tool,
        ) is Some || host.kits_probe(RegistryValue::KitsRoot, arch, tool) is Some,
    ensures
        host.discover(arch, tool) == first_of(
            host.kits_probe(RegistryValue::KitsRoot10, arch, tool),
            first_of(
                host.kits_probe(RegistryValue::KitsRoot81, arch, tool),
                host.kits_probe(RegistryValue::KitsRoot, arch, tool),
            ),
        ),
        host.discover(arch, tool) is Some,
{
}

/// Discovery returns what the first probe in priority order finds: a probe
/// decides as soon as every probe before it came back empty.
pub proof fn lemma_first_success_wins(host: Host, probe: Probe, arch: Arch, tool: Seq<char>)
    requires
        host.probe_at(probe, arch, tool) is Some,
        forall|earlier: Probe| #[trigger]
            earlier.rank() < probe.rank() ==> host.probe_at(earlier, arch, tool) is None,
    ensures
        host.discover(arch, tool) == host.probe_at(probe, arch, tool),
{
    assert(Probe::KitsRoot10.rank() == 0);
    assert(Probe::KitsRoot81.rank() == 1);
    assert(Probe::KitsRoot.rank() == 2);
    assert(Probe::LegacySdk.rank() == 3);
    assert(Probe::KitScan.rank() == 4);
}

/// With no registry value to start from and no SDK root reported by the
/// instance locator, discovery has no result.
pub proof fn lemma_empty_sources_exhaust(host: Host, arch: Arch, tool: Seq<char>)
    requires
        forall|value: RegistryValue| host.registry_value(value) is None,
        host.sdk_root is None,
    ensures
        host.discover(arch, tool) is None,
{
    assert(host.registry_value(RegistryValue::KitsRoot10) is None);
    assert(host.registry_value(RegistryValue::KitsRoot81) is None);
    assert(host.registry_value(RegistryValue::KitsRoot) is None);
    assert(host.registry_value(RegistryValue::CurrentInstallFolder) is None);
}

/// Discovery has a result exactly when some probe has one.
pub proof fn lemma_exhausted_iff_every_probe_empty(host: Host, arch: Arch, tool: Seq<char>)
    ensures
        host.discover(arch, tool) is None <==> forall|probe: Probe|
            host.probe_at(probe, arch, tool) is None,
{
    if host.discover(arch, tool) is None {
        assert forall|probe: Probe| host.probe_at(probe, arch, tool) is None by {
            match probe {
                Probe::KitsRoot10 => {},
                Probe::KitsRoot81 => {},
                Probe::KitsRoot => {},
                Probe::LegacySdk => {},
                Probe::KitScan => {},
                Probe::VsInstance => {},
            }
        }
    }
    if forall|probe: Probe| host.probe_at(probe, arch, tool) is None {
        assert(host.probe_at(Probe::KitsRoot10, arch, tool) is None);
        assert(host.probe_at(Probe::KitsRoot81, arch, tool) is None);
        assert(host.probe_at(Probe::KitsRoot, arch, tool) is None);
        assert(host.probe_at(Probe::LegacySdk, arch, tool) is None);
        assert(host.probe_at(Probe::KitScan, arch, tool) is None);
        assert(host.probe_at(Probe::VsInstance, arch, tool) is None);
    }
}

/// The kit scan returns the tool of the first version, in enumeration
/// order, whose directory holds it: versions enumerated later play no part.
pub proof fn lemma_scan_first_match_wins(
    host: Host,
    bin_root: Seq<char>,
    versions: Seq<Seq<char>>,
    from: nat,
    winner: nat,
    arch: Arch,
    tool: Seq<char>,
)
    requires
        from <= winner < versions.len(),
        host.locate(version_dir(bin_root, versions[winner as int], arch), tool) is Some,
        forall|j: int|
            from <= j < winner ==> host.locate(
                version_dir(bin_root, #[trigger] versions[j], arch),
                tool,
            ) is None,
    ensures
        host.scan_from(bin_root, versions, from, arch, tool) == host.locate(
            version_dir(bin_root, versions[winner as int], arch),
            tool,
        ),
    decreases winner - from,
{
    if from < winner {
        assert(host.locate(version_dir(bin_root, versions[from as int], arch), tool) is None);
        lemma_scan_first_match_wins(host, bin_root, versions, from + 1, winner, arch, tool);
    }
}

/// The kit scan has no result exactly when no enumerated version holds
/// the tool.
pub proof fn lemma_scan_empty_iff_no_match(
    host: Host,
    bin_root: Seq<char>,
    versions: Seq<Seq<char>>,
    from: nat,
    arch: Arch,
    tool: Seq<char>,
)
    ensures
        host.scan_from(bin_root, versions, from, arch, tool) is None <==> forall|j: int|
            from <= j < versions.len() ==> host.locate(
                version_dir(bin_root, #[trigger] versions[j], arch),
                tool,
            ) is None,
    decreases versions.len() - from,
{
    if from < versions.len() {
        lemma_scan_empty_iff_no_match(host, bin_root, versions, from + 1, arch, tool);
        if host.scan_from(bin_root, versions, from, arch, tool) is None {
            assert forall|j: int| from <= j < versions.len() implies host.locate(
                version_dir(bin_root, #[trigger] versions[j], arch),
                tool,
            ) is None by {
                if j > from {
                    assert(from + 1 <= j);
                }
            }
        } else if host.locate(version_dir(bin_root, versions[from as int], arch), tool) is None {
            assert(host.scan_from(bin_root, versions, from + 1, arch, tool) is Some);
        }
    }
}

/// Every version that the kit scan tries is the name of an enumerated
/// entry that is known to be a directory.
pub proof fn lemma_versions_are_directories(entries: Seq<EntryModel>, k: int)
    requires
        0 <= k < version_names(entries).len(),
    ensures
        exists|i: int|
            0 <= i < entries.len() && (#[trigger] entries[i]).is_dir == Some(true)
                && entries[i].name == Some(version_names(entries)[k]),
    decreases entries.len(),
{
    if entries.len() > 0 {
        let before = entries.drop_last();
        let last = entries.len() - 1;
        if k < version_names(before).len() {
            lemma_versions_are_directories(before, k);
            let i = choose|i: int|
                0 <= i < before.len() && (#[trigger] before[i]).is_dir == Some(true)
                    && before[i].name == Some(version_names(before)[k]);
            assert(entries[i] == before[i]);
        } else {
            assert(entries[last].is_version());
        }
    }
}

/// Where no enumerated entry is known to be a directory, the kit scan tries
/// nothing and has no result, whatever lies below those entries.
pub proof fn lemma_scan_skips_what_is_no_directory(
    host: Host,
    bin_root: Seq<char>,
    arch: Arch,
    tool: Seq<char>,
)
    requires
        host.listing(PathModel::root(bin_root)) matches Some(entries) && forall|i: int|
            0 <= i < entries.len() ==> (#[trigger] entries[i]).is_dir != Some(true),
    ensures
        host.scan_listed(bin_root, arch, tool) is None,
{
    let entries = host.listing(PathModel::root(bin_root))->0;
    if version_names(entries).len() > 0 {
        lemma_versions_are_directories(entries, 0);
    }
}

/// An SDK root without a final segment is no error: the versioned
/// derivation yields nothing, and the instance probe finds what the second
/// derivation finds.
pub proof fn lemma_root_without_final_name(host: Host, arch: Arch, tool: Seq<char>)
    requires
        host.sdk_root matches Some(sdk) && !sdk.has_final_name,
    ensures
        host.vs_versioned(host.sdk_root->0, arch, tool) is None,
        host.vs_probe(arch, tool) == host.vs_plain((host.sdk_root->0).root, arch, tool),
{
}

} // verus!
