//! The discovery machine as a mathematical object: its states, its
//! transition, the run that the transition gives on a host, and the proof
//! that the run ends with what [`Host::discover`] defines.

use vstd::prelude::*;
use crate::arch::{Arch, arch_subpath};
use crate::path::PathModel;
use crate::host::{
    EntryModel, Host, Probe, RegistryValue, SdkRootModel, first_of, version_dir, version_names,
};

verus! {

/// A question about the host.
pub enum QueryModel {
    RegistryValue(RegistryValue),
    AugmentEnvironment,
    ListDirs(PathModel),
    IsDir(PathModel),
    Exists(PathModel),
    VsSdkRoot,
}

/// The reply to a question.
pub enum AnswerModel {
    Text(Option<Seq<char>>),
    SdkRoot(Option<SdkRootModel>),
    Entries(Option<Seq<EntryModel>>),
    Flag(bool),
    Done,
}

impl Host {
    /// What this host replies to a query.
    pub open spec fn reply(self, query: QueryModel) -> AnswerModel {
        match query {
            QueryModel::RegistryValue(value) => AnswerModel::Text(self.registry_value(value)),
            QueryModel::AugmentEnvironment => AnswerModel::Done,
            QueryModel::ListDirs(dir) => AnswerModel::Entries(self.listing(dir)),
            QueryModel::IsDir(dir) => AnswerModel::Flag(self.directories.contains(dir)),
            QueryModel::Exists(path) => AnswerModel::Flag(self.entries.contains(path)),
            QueryModel::VsSdkRoot => AnswerModel::SdkRoot(self.sdk_root),
        }
    }
}

/// A state of the machine.
pub struct MachineModel {
    /// Architecture of the build target.
    pub arch: Arch,
    /// File name of the tool that is looked for.
    pub tool: Seq<char>,
    /// The probe that is being tried.
    pub probe: Probe,
    /// The query whose answer the machine waits for.
    pub query: QueryModel,
    /// During the kit scan the kit's `bin` directory, during the instance
    /// probe the reported SDK root.
    pub base: Seq<char>,
    /// During the kit scan, the enumerated version directories.
    pub versions: Seq<Seq<char>>,
    /// During the kit scan, the position of the version being tried.
    pub position: nat,
    /// During the instance probe, whether the second derivation is untried.
    pub fallback: bool,
}

/// Where discovery stands after an answer.
pub enum ProgressModel {
    Pending(MachineModel),
    Found(PathModel),
    Exhausted,
}

impl ProgressModel {
    /// A machine that is still pending is well formed.
    pub open spec fn wf(self) -> bool {
        self matches ProgressModel::Pending(machine) ==> machine.wf()
    }

    /// What discovery ends with on `host` from here on.
    pub open spec fn outcome(self, host: Host) -> Option<PathModel> {
        match self {
            ProgressModel::Pending(machine) => machine.outcome(host),
            ProgressModel::Found(path) => Some(path),
            ProgressModel::Exhausted => None,
        }
    }
}

impl MachineModel {
    /// The state in which `probe` asks for its root.
    pub open spec fn begin(arch: Arch, tool: Seq<char>, probe: Probe) -> MachineModel {
        MachineModel {
            arch,
            tool,
            probe,
            query: match probe.source() {
                Some(value) => QueryModel::RegistryValue(value),
                None => QueryModel::VsSdkRoot,
            },
            base: Seq::empty(),
            versions: Seq::empty(),
            position: 0,
            fallback: false,
        }
    }

    /// What follows once `probe` has come back empty: the next probe in
    /// priority order asks for its root, and after the last there is none.
    pub open spec fn after_probe(arch: Arch, tool: Seq<char>, probe: Probe) -> ProgressModel {
        match probe {
            Probe::KitsRoot10 => ProgressModel::Pending(
                MachineModel::begin(arch, tool, Probe::KitsRoot81),
            ),
            Probe::KitsRoot81 => ProgressModel::Pending(
                MachineModel::begin(arch, tool, Probe::KitsRoot),
            ),
            Probe::KitsRoot => ProgressModel::Pending(
                MachineModel::begin(arch, tool, Probe::LegacySdk),
            ),
            Probe::LegacySdk => ProgressModel::Pending(
                MachineModel::begin(arch, tool, Probe::KitScan),
            ),
            Probe::KitScan => ProgressModel::Pending(
                MachineModel::begin(arch, tool, Probe::VsInstance),
            ),
            Probe::VsInstance => ProgressModel::Exhausted,
        }
    }

    /// The kit scan at `position`: the directory of that version is asked
    /// for, or the scan is over where the versions are used up.
    pub open spec fn scan_step(
        arch: Arch,
        tool: Seq<char>,
        base: Seq<char>,
        versions: Seq<Seq<char>>,
        position: nat,
    ) -> ProgressModel {
        if position < versions.len() {
            ProgressModel::Pending(
                MachineModel {
                    arch,
                    tool,
                    probe: Probe::KitScan,
                    query: QueryModel::IsDir(version_dir(base, versions[position as int], arch)),
                    base,
                    versions,
                    position,
                    fallback: false,
                },
            )
        } else {
            MachineModel::after_probe(arch, tool, Probe::KitScan)
        }
    }

    /// What follows once the candidate that is being checked has failed:
    /// the next version of the kit scan, the second derivation of the
    /// instance probe, or else the next probe.
    pub open spec fn next_candidate(self) -> ProgressModel {
        match self.probe {
            Probe::KitScan => MachineModel::scan_step(
                self.arch,
                self.tool,
                self.base,
                self.versions,
                self.position + 1,
            ),
            Probe::VsInstance => if self.fallback {
                ProgressModel::Pending(
                    MachineModel {
                        query: QueryModel::IsDir(
                            PathModel::above(self.base, 2).push(
                                arch_subpath(self.arch, "bin/x86"@, "bin/x64"@),
                            ),
                        ),
                        fallback: false,
                        ..self
                    },
                )
            } else {
                ProgressModel::Exhausted
            },
            probe => MachineModel::after_probe(self.arch, self.tool, probe),
        }
    }

    /// The transition of the machine on an answer to its pending query. An
    /// answer of the wrong shape counts as absence.
    pub open spec fn step(self, answer: AnswerModel) -> ProgressModel {
        match self.query {
            QueryModel::RegistryValue(_) => match answer {
                AnswerModel::Text(Some(root)) => match self.probe {
                    Probe::KitScan => ProgressModel::Pending(
                        MachineModel {
                            query: QueryModel::AugmentEnvironment,
                            base: root + "/bin"@,
                            ..self
                        },
                    ),
                    Probe::LegacySdk => ProgressModel::Pending(
                        MachineModel {
                            query: QueryModel::IsDir(
                                PathModel::root(root).push(
                                    arch_subpath(self.arch, "Bin"@, "Bin/x64"@),
                                ),
                            ),
                            ..self
                        },
                    ),
                    _ => ProgressModel::Pending(
                        MachineModel {
                            query: QueryModel::IsDir(
                                PathModel::root(root).push(
                                    arch_subpath(self.arch, "bin/x86"@, "bin/x64"@),
                                ),
                            ),
                            ..self
                        },
                    ),
                },
                _ => MachineModel::after_probe(self.arch, self.tool, self.probe),
            },
            QueryModel::VsSdkRoot => match answer {
                AnswerModel::SdkRoot(Some(sdk)) => ProgressModel::Pending(
                    if sdk.has_final_name {
                        MachineModel {
                            query: QueryModel::IsDir(
                                PathModel::above(sdk.root, 2).push("bin"@).push_final_name().push(
                                    arch_subpath(self.arch, "x86"@, "x64"@),
                                ),
                            ),
                            base: sdk.root,
                            fallback: true,
                            ..self
                        }
                    } else {
                        MachineModel {
                            query: QueryModel::IsDir(
                                PathModel::above(sdk.root, 2).push(
                                    arch_subpath(self.arch, "bin/x86"@, "bin/x64"@),
                                ),
                            ),
                            base: sdk.root,
                            fallback: false,
                            ..self
                        }
                    },
                ),
                _ => ProgressModel::Exhausted,
            },
            QueryModel::AugmentEnvironment => ProgressModel::Pending(
                MachineModel { query: QueryModel::ListDirs(PathModel::root(self.base)), ..self },
            ),
            QueryModel::ListDirs(_) => match answer {
                AnswerModel::Entries(Some(found)) => MachineModel::scan_step(
                    self.arch,
                    self.tool,
                    self.base,
                    version_names(found),
                    0,
                ),
                _ => MachineModel::after_probe(self.arch, self.tool, Probe::KitScan),
            },
            QueryModel::IsDir(dir) => match answer {
                AnswerModel::Flag(true) => ProgressModel::Pending(
                    MachineModel { query: QueryModel::Exists(dir.push(self.tool)), ..self },
                ),
                _ => self.next_candidate(),
            },
            QueryModel::Exists(path) => match answer {
                AnswerModel::Flag(true) => ProgressModel::Found(path),
                _ => self.next_candidate(),
            },
        }
    }

    /// The pending query fits the probe that is being tried.
    pub open spec fn wf(self) -> bool {
        match self.query {
            QueryModel::RegistryValue(value) => self.probe.source() == Some(value),
            QueryModel::VsSdkRoot => self.probe == Probe::VsInstance,
            QueryModel::AugmentEnvironment => self.probe == Probe::KitScan,
            QueryModel::ListDirs(dir) => self.probe == Probe::KitScan && dir == PathModel::root(
                self.base,
            ),
            QueryModel::IsDir(_) | QueryModel::Exists(_) => self.probe == Probe::KitScan
                ==> self.position < self.versions.len(),
        }
    }

    /// How far the current probe has come: asking for its root, preparing
    /// and listing the kit, then two checks for each candidate in turn.
    pub open spec fn step_rank(self) -> nat {
        let slot: nat = match self.probe {
            Probe::KitScan => self.position,
            Probe::VsInstance => if self.fallback {
                0
            } else {
                1
            },
            _ => 0,
        };
        match self.query {
            QueryModel::RegistryValue(_) | QueryModel::VsSdkRoot => 0,
            QueryModel::AugmentEnvironment => 1,
            QueryModel::ListDirs(_) => 2,
            QueryModel::IsDir(_) => 3 + 2 * slot,
            QueryModel::Exists(_) => 4 + 2 * slot,
        }
    }

    /// `later` is strictly further along than this state: at a later
    /// probe, or further into the same one. While candidates are checked
    /// the enumerated versions, which bound them, stay as they are.
    pub open spec fn precedes(self, later: MachineModel) -> bool {
        ||| self.probe.rank() < later.probe.rank()
        ||| {
            &&& self.probe == later.probe
            &&& self.step_rank() < later.step_rank()
            &&& (self.query is IsDir || self.query is Exists) ==> later.versions == self.versions
        }
    }

    /// The queries that a run can still ask before the current probe is
    /// over, once its candidates are being checked.
    pub open spec fn candidate_steps_left(self) -> nat {
        if 3 <= self.step_rank() <= 7 + 2 * self.versions.len() {
            (7 + 2 * self.versions.len() - self.step_rank()) as nat
        } else {
            0
        }
    }

    /// The queries before the candidates of the current probe.
    pub open spec fn opening_steps_left(self) -> nat {
        if self.step_rank() < 3 {
            (3 - self.step_rank()) as nat
        } else {
            0
        }
    }

    /// What discovery ends with on `host` once the candidate that is being
    /// checked has failed.
    pub open spec fn after_candidate(self, host: Host) -> Option<PathModel> {
        match self.probe {
            Probe::KitScan => first_of(
                host.scan_from(self.base, self.versions, self.position + 1, self.arch, self.tool),
                host.after(Probe::KitScan, self.arch, self.tool),
            ),
            Probe::VsInstance => if self.fallback {
                host.vs_plain(self.base, self.arch, self.tool)
            } else {
                None
            },
            probe => host.after(probe, self.arch, self.tool),
        }
    }

    /// What discovery ends with on `host` from this state on, said by what
    /// the probes find there.
    pub open spec fn outcome(self, host: Host) -> Option<PathModel> {
        match self.query {
            QueryModel::RegistryValue(_) | QueryModel::VsSdkRoot => host.from_probe(
                self.probe,
                self.arch,
                self.tool,
            ),
            QueryModel::AugmentEnvironment | QueryModel::ListDirs(_) => first_of(
                host.scan_listed(self.base, self.arch, self.tool),
                host.after(Probe::KitScan, self.arch, self.tool),
            ),
            QueryModel::IsDir(dir) => first_of(
                host.locate(dir, self.tool),
                self.after_candidate(host),
            ),
            QueryModel::Exists(path) => if host.entries.contains(path) {
                Some(path)
            } else {
                self.after_candidate(host)
            },
        }
    }

    /// The run of the machine on `host`: every query is answered by the
    /// host and the answer fed back, until the tool is found or the probes
    /// are exhausted.
    pub open spec fn run(self, host: Host) -> Option<PathModel>
        decreases 6 - self.probe.rank(), self.opening_steps_left(), self.candidate_steps_left(),
        when self.wf()
        via Self::run_ends
    {
        match self.step(host.reply(self.query)) {
            ProgressModel::Pending(next) => next.run(host),
            ProgressModel::Found(path) => Some(path),
            ProgressModel::Exhausted => None,
        }
    }

    #[via_fn]
    proof fn run_ends(self, host: Host) {
        lemma_step_advances(self, host.reply(self.query));
    }
}

/// A step leaves the machine well formed and strictly further along.
pub proof fn lemma_step_advances(machine: MachineModel, answer: AnswerModel)
    requires
        machine.wf(),
    ensures
        machine.step(answer).wf(),
        machine.step(answer) matches ProgressModel::Pending(next) ==> machine.precedes(next),
{
}

/// The environment is augmented before the kit is listed: a listing is
/// asked for only as the step that follows the request to augment, and
/// that request is made only when the kit scan has just got its root.
pub proof fn lemma_kit_is_listed_after_augmentation(machine: MachineModel, answer: AnswerModel)
    requires
        machine.wf(),
    ensures
        machine.step(answer) matches ProgressModel::Pending(next) ==> {
            &&& next.query is ListDirs <==> machine.query is AugmentEnvironment
            &&& next.query is AugmentEnvironment <==> machine.query is RegistryValue
                && machine.probe == Probe::KitScan && answer matches AnswerModel::Text(Some(_))
        },
{
}

/// A step on the host's own answer does not change what discovery ends
/// with on that host.
pub proof fn lemma_step_keeps_outcome(machine: MachineModel, host: Host)
    requires
        machine.wf(),
    ensures
        machine.step(host.reply(machine.query)).outcome(host) == machine.outcome(host),
{
}

/// The run of a machine on a host ends with the outcome of its state.
pub proof fn lemma_run_ends_with_outcome(machine: MachineModel, host: Host)
    requires
        machine.wf(),
    ensures
        machine.run(host) == machine.outcome(host),
    decreases 6 - machine.probe.rank(), machine.opening_steps_left(), machine.candidate_steps_left(),
{
    lemma_step_advances(machine, host.reply(machine.query));
    lemma_step_keeps_outcome(machine, host);
    match machine.step(host.reply(machine.query)) {
        ProgressModel::Pending(next) => {
            lemma_run_ends_with_outcome(next, host);
        },
        _ => {},
    }
}

/// Driven by a host from its first query on, the machine ends with exactly
/// what discovery is defined to find on that host: the result of the first
/// probe, in priority order, that finds the tool, or nothing.
pub proof fn lemma_run_is_discovery(host: Host, arch: Arch, tool: Seq<char>)
    ensures
        MachineModel::begin(arch, tool, Probe::KitsRoot10).wf(),
        MachineModel::begin(arch, tool, Probe::KitsRoot10).run(host) == host.discover(arch, tool),
{
    lemma_run_ends_with_outcome(MachineModel::begin(arch, tool, Probe::KitsRoot10), host);
}

} // verus!
