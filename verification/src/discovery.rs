//! Discovery as a state machine.
//!
//! The machine never looks at the host. It hands out one [`Query`] at a
//! time; whoever drives it performs the lookup and feeds the [`Answer`] back
//! through [`Discovery::advance`], until the machine reports the tool's
//! location or that every probe came back empty.
//! [`find_windows_sdk_tool_impl`] drives it with a function that answers.

use vstd::prelude::*;
use vstd::string::*;
use crate::arch::{Arch, arch_of, arch_subpath};
use crate::path::{PathModel, ProbePath, text_view};
use crate::host::{EntryModel, Host, Probe, RegistryValue, SdkRootModel, version_names};
use crate::machine::{
    AnswerModel, MachineModel, ProgressModel, QueryModel, lemma_run_is_discovery, lemma_step_advances,
};

verus! {

/// A question about the host.
#[derive(Debug, Clone, PartialEq, Eq)]
pub enum Query {
    /// The string stored under a registry value, if it exists and is a string.
    RegistryValue(RegistryValue),
    /// Not a question: the include path of the native toolchain has to be
    /// put into the environment now, unless that was done before.
    AugmentEnvironment,
    /// The entries of a directory, in the order of their enumeration.
    ListDirs(ProbePath),
    /// Whether the path is an existing directory.
    IsDir(ProbePath),
    /// Whether anything exists at the path.
    Exists(ProbePath),
    /// The Windows SDK root that the Visual Studio instance locator reports.
    VsSdkRoot,
}

/// An entry of a directory as the file system reports it.
#[derive(Debug, Clone, PartialEq, Eq)]
pub struct Entry {
    /// The entry's name, where it can be decoded as text.
    pub name: Option<String>,
    /// Whether the entry is a directory, where its type can be told.
    pub is_dir: Option<bool>,
}

impl View for Entry {
    type V = EntryModel;

    open spec fn view(&self) -> EntryModel {
        EntryModel { name: text_view(self.name), is_dir: self.is_dir }
    }
}

/// Mathematical value of a list of entries.
pub open spec fn entries_view(entries: Vec<Entry>) -> Seq<EntryModel> {
    entries@.map_values(|e: Entry| e@)
}

/// Picks the installed versions out of the entries of a kit's `bin`
/// directory: only entries that are known to be directories and whose name
/// is text are kept; the order is kept.
pub fn get_dirs(entries: &Vec<Entry>) -> (dirs: Vec<String>)
    ensures
        names_view(dirs) == version_names(entries_view(*entries)),
{
    let mut dirs: Vec<String> = Vec::new();
    let mut i: usize = 0;
    proof {
        assert(entries_view(*entries).take(0) =~= Seq::empty());
        assert(names_view(dirs) =~= Seq::empty());
    }
    while i < entries.len()
        invariant
            i <= entries.len(),
            names_view(dirs) == version_names(entries_view(*entries).take(i as int)),
        decreases entries.len() - i,
    {
        let ghost before = names_view(dirs);
        let ghost all = entries_view(*entries);
        proof {
            assert(all.take(i + 1).drop_last() =~= all.take(i as int));
            assert(all.take(i + 1).last() == entries@[i as int]@);
        }
        match (&entries[i].name, entries[i].is_dir) {
            (Some(name), Some(true)) => {
                dirs.push(name.clone());
                proof {
                    assert(names_view(dirs) =~= before.push(name@));
                }
            },
            _ => {},
        }
        i += 1;
    }
    proof {
        assert(entries_view(*entries).take(i as int) =~= entries_view(*entries));
    }
    dirs
}

/// A Windows SDK root as the Visual Studio instance locator reports it.
#[derive(Debug, Clone, PartialEq, Eq)]
pub struct SdkRoot {
    /// The reported path.
    pub root: String,
    /// Whether the path ends in a segment that can be read as a version.
    pub has_final_name: bool,
}

impl View for SdkRoot {
    type V = SdkRootModel;

    open spec fn view(&self) -> SdkRootModel {
        SdkRootModel { root: self.root@, has_final_name: self.has_final_name }
    }
}

/// The host's reply to a [`Query`].
#[derive(Debug, Clone, PartialEq, Eq)]
pub enum Answer {
    /// A string, or its absence.
    Text(Option<String>),
    /// An SDK root, or its absence.
    SdkRoot(Option<SdkRoot>),
    /// The entries of a directory, or nothing where it cannot be read.
    Entries(Option<Vec<Entry>>),
    /// Yes or no.
    Flag(bool),
    /// The requested step was carried out.
    Done,
}

impl View for Query {
    type V = QueryModel;

    open spec fn view(&self) -> QueryModel {
        match self {
            Query::RegistryValue(value) => QueryModel::RegistryValue(*value),
            Query::AugmentEnvironment => QueryModel::AugmentEnvironment,
            Query::ListDirs(dir) => QueryModel::ListDirs(dir@),
            Query::IsDir(dir) => QueryModel::IsDir(dir@),
            Query::Exists(path) => QueryModel::Exists(path@),
            Query::VsSdkRoot => QueryModel::VsSdkRoot,
        }
    }
}

impl View for Answer {
    type V = AnswerModel;

    open spec fn view(&self) -> AnswerModel {
        match self {
            Answer::Text(text) => AnswerModel::Text(text_view(*text)),
            Answer::SdkRoot(sdk) => AnswerModel::SdkRoot(
                match sdk {
                    Some(found) => Some(found@),
                    None => None,
                },
            ),
            Answer::Entries(entries) => AnswerModel::Entries(
                match entries {
                    Some(list) => Some(entries_view(*list)),
                    None => None,
                },
            ),
            Answer::Flag(flag) => AnswerModel::Flag(*flag),
            Answer::Done => AnswerModel::Done,
        }
    }
}

/// Mathematical value of a list of names.
pub open spec fn names_view(names: Vec<String>) -> Seq<Seq<char>> {
    names@.map_values(|s: String| s@)
}

/// Discovery in progress: the probe being tried and the pending query.
#[derive(Debug, Clone, PartialEq, Eq)]
pub struct Discovery {
    /// Architecture of the build target.
    pub arch: Arch,
    /// File name of the tool that is looked for.
    pub tool: String,
    /// The probe that is being tried.
    pub probe: Probe,
    /// The query whose answer the machine waits for.
    pub query: Query,
    /// During the kit scan the kit's `bin` directory, during the instance
    /// probe the reported SDK root.
    pub base: String,
    /// During the kit scan, the enumerated version directories.
    pub versions: Vec<String>,
    /// During the kit scan, the position of the version being tried.
    pub position: usize,
    /// During the instance probe, whether the second derivation is untried.
    pub fallback: bool,
}

/// Where discovery stands after an answer.
#[derive(Debug, Clone, PartialEq, Eq)]
pub enum Progress {
    /// Another query is pending.
    Pending(Discovery),
    /// The tool was found.
    Found(ProbePath),
    /// Every probe came back empty.
    Exhausted,
}

impl View for Discovery {
    type V = MachineModel;

    open spec fn view(&self) -> MachineModel {
        MachineModel {
            arch: self.arch,
            tool: self.tool@,
            probe: self.probe,
            query: self.query@,
            base: self.base@,
            versions: names_view(self.versions),
            position: self.position as nat,
            fallback: self.fallback,
        }
    }
}

impl View for Progress {
    type V = ProgressModel;

    open spec fn view(&self) -> ProgressModel {
        match self {
            Progress::Pending(machine) => ProgressModel::Pending(machine@),
            Progress::Found(path) => ProgressModel::Found(path@),
            Progress::Exhausted => ProgressModel::Exhausted,
        }
    }
}

impl Progress {
    /// A machine that is still pending is well formed.
    pub open spec fn wf(self) -> bool {
        self@.wf()
    }
}

/// The first half of every probe: asks whether `root`, extended by the
/// subpath of the architecture, is an existing directory.
pub fn try_bin_dir(root: ProbePath, x86_bin: &str, x64_bin: &str, arch: Arch) -> (query: Query)
    ensures
        query@ == QueryModel::IsDir(root@.push(arch_subpath(arch, x86_bin@, x64_bin@))),
{
    Query::IsDir(root.push(arch.select(x86_bin, x64_bin)))
}

/// The second half of every probe: asks whether anything exists under the
/// tool's file name inside `dir`.
pub fn try_tool(dir: ProbePath, tool: &str) -> (query: Query)
    ensures
        query@ == QueryModel::Exists(dir@.push(tool@)),
{
    Query::Exists(dir.push(tool))
}

impl Discovery {
    /// The pending query fits the probe that is being tried.
    pub open spec fn wf(self) -> bool {
        self@.wf()
    }

    /// The state in which `probe` is about to ask for its root.
    fn begin(arch: Arch, tool: String, probe: Probe) -> (machine: Discovery)
        ensures
            machine.wf(),
            machine@ == MachineModel::begin(arch, tool@, probe),
            machine.query == (match probe.source() {
                Some(value) => Query::RegistryValue(value),
                None => Query::VsSdkRoot,
            }),
    {
        let query = match probe {
            Probe::KitsRoot10 => Query::RegistryValue(RegistryValue::KitsRoot10),
            Probe::KitsRoot81 => Query::RegistryValue(RegistryValue::KitsRoot81),
            Probe::KitsRoot => Query::RegistryValue(RegistryValue::KitsRoot),
            Probe::LegacySdk => Query::RegistryValue(RegistryValue::CurrentInstallFolder),
            Probe::KitScan => Query::RegistryValue(RegistryValue::KitsRoot10),
            Probe::VsInstance => Query::VsSdkRoot,
        };
        let machine = Discovery {
            arch,
            tool,
            probe,
            query,
            base: String::new(),
            versions: Vec::new(),
            position: 0,
            fallback: false,
        };
        proof {
            assert(machine@.versions =~= Seq::empty());
        }
        machine
    }

    /// Starts discovery of `tool` for `arch`: the first query is the
    /// `KitsRoot10` registry value.
    pub fn start(arch: Arch, tool: &str) -> (machine: Discovery)
        ensures
            machine.wf(),
            machine@ == MachineModel::begin(arch, tool@, Probe::KitsRoot10),
            machine.query == Query::RegistryValue(RegistryValue::KitsRoot10),
    {
        Discovery::begin(arch, tool.to_owned(), Probe::KitsRoot10)
    }

    /// The query whose answer the machine waits for.
    pub fn query(&self) -> (query: &Query)
        ensures
            *query == self.query,
    {
        &self.query
    }

    /// Leaves `probe` behind and turns to the one after it.
    fn skip(arch: Arch, tool: String, probe: Probe) -> (next: Progress)
        ensures
            next.wf(),
            next@ == MachineModel::after_probe(arch, tool@, probe),
    {
        match probe {
            Probe::KitsRoot10 => Progress::Pending(Discovery::begin(arch, tool, Probe::KitsRoot81)),
            Probe::KitsRoot81 => Progress::Pending(Discovery::begin(arch, tool, Probe::KitsRoot)),
            Probe::KitsRoot => Progress::Pending(Discovery::begin(arch, tool, Probe::LegacySdk)),
            Probe::LegacySdk => Progress::Pending(Discovery::begin(arch, tool, Probe::KitScan)),
            Probe::KitScan => Progress::Pending(Discovery::begin(arch, tool, Probe::VsInstance)),
            Probe::VsInstance => Progress::Exhausted,
        }
    }

    /// Turns to the version at `position` of the kit scan, or leaves the
    /// scan behind where the versions are used up.
    fn scan_at(arch: Arch, tool: String, base: String, versions: Vec<String>, position: usize) -> (next:
        Progress)
        ensures
            next.wf(),
            next@ == MachineModel::scan_step(
                arch,
                tool@,
                base@,
                names_view(versions),
                position as nat,
            ),
    {
        if position < versions.len() {
            let x86_bin = versions[position].clone().concat("/x86");
            let x64_bin = versions[position].clone().concat("/x64");
            let query = try_bin_dir(
                ProbePath::root(base.clone()),
                x86_bin.as_str(),
                x64_bin.as_str(),
                arch,
            );
            proof {
                assert(names_view(versions)[position as int] == versions@[position as int]@);
            }
            Progress::Pending(
                Discovery {
                    arch,
                    tool,
                    probe: Probe::KitScan,
                    query,
                    base,
                    versions,
                    position,
                    fallback: false,
                },
            )
        } else {
            Discovery::skip(arch, tool, Probe::KitScan)
        }
    }

    /// Gives up the candidate that is being checked and turns to what
    /// comes after it.
    fn give_up(self) -> (next: Progress)
        ensures
            next@ == self@.next_candidate(),
    {
        match self.probe {
            Probe::KitScan => {
                if self.position < self.versions.len() {
                    Discovery::scan_at(
                        self.arch,
                        self.tool,
                        self.base,
                        self.versions,
                        self.position + 1,
                    )
                } else {
                    Discovery::skip(self.arch, self.tool, Probe::KitScan)
                }
            },
            Probe::VsInstance => {
                if self.fallback {
                    let root = ProbePath::above(self.base.clone(), 2);
                    let query = try_bin_dir(root, "bin/x86", "bin/x64", self.arch);
                    Progress::Pending(Discovery { query, fallback: false, ..self })
                } else {
                    Progress::Exhausted
                }
            },
            _ => Discovery::skip(self.arch, self.tool, self.probe),
        }
    }

    /// Takes the answer to the pending query and decides what comes next.
    ///
    /// The step taken is the one that [`MachineModel::step`] defines; of
    /// that transition it is proved that it keeps the machine well formed,
    /// brings it strictly further along, and, fed with a host's own
    /// answers, ends with what discovery is defined to find on that host.
    /// An answer of the wrong shape counts as absence.
    pub fn advance(self, answer: Answer) -> (next: Progress)
        ensures
            next@ == self@.step(answer@),
            self.wf() ==> next.wf(),
    {
        match self.query {
            Query::RegistryValue(_) => match answer {
                Answer::Text(Some(root)) => match self.probe {
                    Probe::KitScan => {
                        let base = root.concat("/bin");
                        Progress::Pending(
                            Discovery { query: Query::AugmentEnvironment, base, ..self },
                        )
                    },
                    Probe::LegacySdk => {
                        let query = try_bin_dir(ProbePath::root(root), "Bin", "Bin/x64", self.arch);
                        Progress::Pending(Discovery { query, ..self })
                    },
                    _ => {
                        let query = try_bin_dir(
                            ProbePath::root(root),
                            "bin/x86",
                            "bin/x64",
                            self.arch,
                        );
                        Progress::Pending(Discovery { query, ..self })
                    },
                },
                _ => Discovery::skip(self.arch, self.tool, self.probe),
            },
            Query::VsSdkRoot => match answer {
                Answer::SdkRoot(Some(sdk)) => {
                    let above = ProbePath::above(sdk.root.clone(), 2);
                    if sdk.has_final_name {
                        let versioned = above.push("bin").push_final_name();
                        let query = try_bin_dir(versioned, "x86", "x64", self.arch);
                        Progress::Pending(
                            Discovery { query, base: sdk.root, fallback: true, ..self },
                        )
                    } else {
                        let query = try_bin_dir(above, "bin/x86", "bin/x64", self.arch);
                        Progress::Pending(
                            Discovery { query, base: sdk.root, fallback: false, ..self },
                        )
                    }
                },
                _ => Progress::Exhausted,
            },
            Query::AugmentEnvironment => {
                let query = Query::ListDirs(ProbePath::root(self.base.clone()));
                Progress::Pending(Discovery { query, ..self })
            },
            Query::ListDirs(_) => match answer {
                Answer::Entries(Some(found)) => Discovery::scan_at(
                    self.arch,
                    self.tool,
                    self.base,
                    get_dirs(&found),
                    0,
                ),
                _ => Discovery::skip(self.arch, self.tool, Probe::KitScan),
            },
            Query::IsDir(dir) => match answer {
                Answer::Flag(true) => {
                    let query = try_tool(dir, self.tool.as_str());
                    Progress::Pending(Discovery { query, ..self })
                },
                _ => (Discovery { query: Query::IsDir(dir), ..self }).give_up(),
            },
            Query::Exists(path) => match answer {
                Answer::Flag(true) => Progress::Found(path),
                _ => (Discovery { query: Query::Exists(path), ..self }).give_up(),
            },
        }
    }
}

/// Mathematical value of an optional path.
pub open spec fn found_view(found: Option<ProbePath>) -> Option<PathModel> {
    match found {
        Some(path) => Some(path@),
        None => None,
    }
}

/// Every answer that `host` can give is the one that `model` gives.
pub open spec fn faithful<F: Fn(&Query) -> Answer>(host: F, model: Host) -> bool {
    forall|query: &Query, answer: Answer| #[trigger]
        host.ensures((query,), answer) ==> answer@ == model.reply(query@)
}

/// Looks for `tool` for the build target named by the triple `target`:
/// the probes are tried in their priority order, every query is put to
/// `host`, and the first probe that finds the tool decides.
///
/// The search ends whatever `host` answers. Where `host` answers as some
/// model of a host does, the result is what discovery is defined to find
/// on that model.
pub fn find_windows_sdk_tool_impl<F: Fn(&Query) -> Answer>(target: &str, tool: &str, host: F) -> (found:
    Option<ProbePath>)
    requires
        forall|query: &Query| #[trigger] host.requires((query,)),
    ensures
        forall|model: Host| #[trigger]
            faithful(host, model) ==> found_view(found) == model.discover(arch_of(target@), tool@),
{
    let mut machine = Discovery::start(Arch::for_target(target), tool);
    let ghost arch = arch_of(target@);
    proof {
        assert forall|model: Host| #[trigger] faithful(host, model) implies machine@.run(model)
            == model.discover(arch, tool@) by {
            lemma_run_is_discovery(model, arch, tool@);
        }
    }
    loop
        invariant
            machine.wf(),
            arch == arch_of(target@),
            forall|query: &Query| #[trigger] host.requires((query,)),
            forall|model: Host| #[trigger]
                faithful(host, model) ==> machine@.run(model) == model.discover(arch, tool@),
        decreases
                6 - machine.probe.rank(),
                machine@.opening_steps_left(),
                machine@.candidate_steps_left(),
    {
        let ghost before = machine@;
        let answer = host(&machine.query);
        proof {
            lemma_step_advances(before, answer@);
            assert forall|model: Host| #[trigger] faithful(host, model) implies before.run(model)
                == (match before.step(answer@) {
                ProgressModel::Pending(next) => next.run(model),
                ProgressModel::Found(path) => Some(path),
                ProgressModel::Exhausted => None,
            }) by {
                assert(host.ensures((&machine.query,), answer));
                assert(answer@ == model.reply(before.query));
            }
        }
        match machine.advance(answer) {
            Progress::Pending(next) => {
                machine = next;
            },
            Progress::Found(path) => {
                return Some(path);
            },
            Progress::Exhausted => {
                return None;
            },
        }
    }
}

} // verus!
