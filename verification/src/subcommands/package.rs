//! Assembling one redistributable package per configured selection:
//! fetch and unpack the published archive, build each auxiliary tool into
//! an isolated directory and merge it into the package tree, record it in
//! the components ledger, then re-compress the tree.
//!
//! The decisions live here; performing them (network, processes, the
//! filesystem) is the caller's part. A run advances one stage at a time,
//! and any stage that the outside world reports as failed aborts the whole
//! run: nothing after a failure is traversed, moved, recorded or packed.

use vstd::prelude::*;

use crate::config::Config;
use crate::config::ExtendTool;
use crate::config::TargetSelection;
use crate::utils::spec_file_name;
use crate::utils::file_name;
use crate::utils::spec_strip_extension;
use crate::download::extract_dir_name;

verus! {

/// The release channels with published archives; any other channel name
/// resolves to an empty file name.
pub open spec fn spec_valid_channel(channel: Seq<char>) -> bool {
    ||| channel == "nightly"@
    ||| channel == "beta"@
    ||| channel == "stable"@
}

/// The file name of a selection's published archive,
/// `rust-<channel>-<target>.tar.gz`, or empty for an unknown channel.
pub open spec fn spec_package_full_name(sel: &TargetSelection) -> Seq<char> {
    if spec_valid_channel(sel.channel@) {
        "rust-"@ + sel.channel@ + "-"@ + sel.target@ + ".tar.gz"@
    } else {
        Seq::empty()
    }
}

/// Resolves the archive file name for one selection.
pub fn get_package_full_name(target_selection: &TargetSelection) -> (r: String)
    ensures
        r@ == spec_package_full_name(target_selection),
{
    let nightly: String = "nightly".to_owned();
    let beta: String = "beta".to_owned();
    let stable: String = "stable".to_owned();
    if target_selection.channel == nightly || target_selection.channel == beta
        || target_selection.channel == stable {
        let mut name: String = "rust-".to_owned();
        name.append(target_selection.channel.as_str());
        name.append("-");
        name.append(target_selection.target.as_str());
        name.append(".tar.gz");
        name
    } else {
        String::new()
    }
}

/// The fully resolved URL of a selection's archive: the selection's
/// directory on the distribution server joined with the archive file name.
pub open spec fn spec_resolved_package_url(sel: &TargetSelection, dist_server: Seq<char>) -> Seq<
    char,
> {
    sel.spec_package_dir(dist_server) + "/"@ + spec_package_full_name(sel)
}

/// Resolves the download URL for one selection's archive.
pub fn resolve_package_url(target_selection: &TargetSelection, dist_server: &String) -> (r: String)
    ensures
        r@ == spec_resolved_package_url(target_selection, dist_server@),
{
    let mut url = target_selection.package_dir(dist_server);
    url.append("/");
    let name = get_package_full_name(target_selection);
    url.append(name.as_str());
    url
}

/// The name of a tool's isolated build directory: `<name>_<version>`, or
/// the bare name without a version pin.
pub open spec fn spec_tool_folder_name(tool: &ExtendTool) -> Seq<char> {
    match tool.version {
        Some(version) => tool.name@ + "_"@ + version@,
        None => tool.name@,
    }
}

/// Names a tool's isolated build directory.
pub fn get_tool_folder_name(tool: &ExtendTool) -> (r: String)
    ensures
        r@ == spec_tool_folder_name(tool),
{
    match tool.version {
        Some(ref version) => {
            let mut dir = tool.name.clone();
            dir.append("_");
            dir.append(version.as_str());
            dir
        },
        None => tool.name.clone(),
    }
}

/// The identifier recorded in the components ledger for a merged tool:
/// `<name>-<version>`, or the bare name without a version pin.
pub open spec fn spec_component_id(tool: &ExtendTool) -> Seq<char> {
    match tool.version {
        Some(version) => tool.name@ + "-"@ + version@,
        None => tool.name@,
    }
}

/// Names the component a merged tool is recorded as.
pub fn component_id(tool: &ExtendTool) -> (r: String)
    ensures
        r@ == spec_component_id(tool),
{
    match tool.version {
        Some(ref version) => {
            let mut id = tool.name.clone();
            id.append("-");
            id.append(version.as_str());
            id
        },
        None => tool.name.clone(),
    }
}

/// A tool's isolated build directory inside the output directory.
pub open spec fn spec_tool_dir(output_dir: Seq<char>, tool: &ExtendTool) -> Seq<char> {
    output_dir + "/"@ + spec_tool_folder_name(tool)
}

/// Names the isolated directory one tool is built into. Creating it on
/// disk is the caller's part.
pub fn init_package_dir(tool: &ExtendTool, output_dir: &String) -> (r: String)
    ensures
        r@ == spec_tool_dir(output_dir@, tool),
{
    let mut path = output_dir.clone();
    path.append("/");
    let folder = get_tool_folder_name(tool);
    path.append(folder.as_str());
    path
}

/// The package-manager command line that build-installs one tool with the
/// given directory as its install root.
pub fn install_tool_local_directory(tool: &ExtendTool, package_dir: &String) -> (args: Vec<
    String,
>)
    ensures
        args@.len() == 4,
        args@[0]@ == "install"@,
        args@[1]@ == tool.spec_crate_name(),
        args@[2]@ == "--root"@,
        args@[3]@ == package_dir@,
{
    let mut args: Vec<String> = Vec::new();
    args.push("install".to_owned());
    args.push(tool.crate_name());
    args.push("--root".to_owned());
    args.push(package_dir.clone());
    args
}

/// One auxiliary tool's isolated build, fully planned: the directory it
/// installs into and the package-manager command line that fills it. The
/// build must succeed before anything inside the directory is looked at.
pub struct ToolPlan {
    pub tool_dir: String,
    pub cargo_args: Vec<String>,
}

/// Plans one tool's isolated build inside the output directory.
pub fn package_extra_tools(tool: &ExtendTool, output_dir: &String) -> (r: ToolPlan)
    ensures
        r.tool_dir@ == spec_tool_dir(output_dir@, tool),
        r.cargo_args@.len() == 4,
        r.cargo_args@[0]@ == "install"@,
        r.cargo_args@[1]@ == tool.spec_crate_name(),
        r.cargo_args@[2]@ == "--root"@,
        r.cargo_args@[3]@ == spec_tool_dir(output_dir@, tool),
{
    let package_dir = init_package_dir(tool, output_dir);
    let cargo_args = install_tool_local_directory(tool, &package_dir);
    ToolPlan { tool_dir: package_dir, cargo_args }
}

/// Where a finished tool directory lands inside the package tree: the
/// destination joined with the source's final component. The rename
/// itself must fail loudly when the destination name collides or the move
/// crosses storage volumes; only the filesystem can answer that.
pub fn move_folder_dest(from: &String, to: &String) -> (r: String)
    ensures
        r@ == to@ + "/"@ + spec_file_name(from@),
{
    let mut dest = to.clone();
    dest.append("/");
    let name = file_name(from);
    dest.append(name.as_str());
    dest
}

/// The append-only record of the components merged into one package root:
/// one identifier per merged tool, in merge order, never deduplicated.
pub struct ComponentsLedger {
    pub entries: Vec<String>,
}

/// What the ledger file holds: each recorded identifier followed by a
/// newline, in record order.
pub open spec fn spec_ledger_render(ids: Seq<Seq<char>>) -> Seq<char>
    decreases ids.len(),
{
    if ids.len() == 0 {
        Seq::empty()
    } else {
        spec_ledger_render(ids.drop_last()) + ids.last() + "\n"@
    }
}

impl ComponentsLedger {
    /// An empty ledger, as a fresh package root starts with.
    pub fn new() -> (r: ComponentsLedger)
        ensures
            r.entries@.len() == 0,
    {
        ComponentsLedger { entries: Vec::new() }
    }

    /// Renders the ledger file's contents.
    pub fn render(&self) -> (r: String)
        ensures
            r@ == spec_ledger_render(self.entries@.map_values(|e: String| e@)),
    {
        let mut out = String::new();
        let mut i: usize = 0;
        proof {
            assert(self.entries@.map_values(|e: String| e@).take(0) =~= Seq::<Seq<char>>::empty());
        }
        while i < self.entries.len()
            invariant
                i <= self.entries@.len(),
                out@ == spec_ledger_render(self.entries@.map_values(|e: String| e@).take(i as int)),
            decreases self.entries@.len() - i,
        {
            proof {
                let views = self.entries@.map_values(|e: String| e@);
                assert(views.take(i + 1 as int).drop_last() =~= views.take(i as int));
                assert(views.take(i + 1 as int).last() == views[i as int]);
            }
            out.append(self.entries[i].as_str());
            out.append("\n");
            i = i + 1;
        }
        proof {
            let views = self.entries@.map_values(|e: String| e@);
            assert(views.take(views.len() as int) =~= views);
        }
        out
    }
}

/// The ledger file's path inside a package root.
pub fn components_path(package_root: &String) -> (r: String)
    ensures
        r@ == package_root@ + "/components"@,
{
    let mut path = package_root.clone();
    path.append("/components");
    path
}

/// Records one merged component: appends its identifier to the ledger,
/// after — and only after — the tool's subtree is fully moved into place.
/// Identifiers repeat as often as they are appended.
pub fn update_components(ledger: &mut ComponentsLedger, target_file_name: &String)
    ensures
        final(ledger).entries@.map_values(|e: String| e@) == old(ledger).entries@.map_values(
            |e: String| e@,
        ).push(target_file_name@),
{
    ledger.entries.push(target_file_name.clone());
    proof {
        assert(ledger.entries@.map_values(|e: String| e@) =~= old(ledger).entries@.map_values(
            |e: String| e@,
        ).push(target_file_name@));
    }
}

/// The archiver command line that re-compresses the package directory's
/// contents — `-C` into the directory, archiving `.`, so the directory
/// itself adds no path prefix — into the output archive. Once the
/// archiver succeeds, the caller removes the package directory.
pub fn try_package(target_file_name: &String, output_dir: &String, file: &String) -> (args: Vec<
    String,
>)
    ensures
        args@.len() == 5,
        args@[0]@ == "-czvf"@,
        args@[1]@ == output_dir@ + "/"@ + target_file_name@,
        args@[2]@ == "-C"@,
        args@[3]@ == file@,
        args@[4]@ == "."@,
{
    let mut target_file_path = output_dir.clone();
    target_file_path.append("/");
    target_file_path.append(target_file_name.as_str());
    let mut args: Vec<String> = Vec::new();
    args.push("-czvf".to_owned());
    args.push(target_file_path);
    args.push("-C".to_owned());
    args.push(file.clone());
    args.push(".".to_owned());
    args
}

/// The directory one selection's archive unpacks into: the archive file
/// name with its two extension components stripped, inside the output
/// directory.
pub open spec fn spec_extracted_package_dir(output_dir: Seq<char>, sel: &TargetSelection) -> Seq<
    char,
> {
    output_dir + "/"@ + spec_strip_extension(spec_strip_extension(spec_package_full_name(sel)))
}

/// Where the pipeline stands inside one run.
#[derive(Clone, Copy, PartialEq, Eq, Structural, Debug)]
pub enum Phase {
    /// downloading and unpacking the current selection's archive
    Fetching,
    /// building the current tool into its isolated directory
    Building,
    /// moving the built tool directory into the package tree
    Merging,
    /// recording the merged tool in the components ledger
    Recording,
    /// re-compressing the package tree and cleaning up
    Packing,
    /// every selection has been packaged
    Finished,
    /// a stage failed; the run stops here for good
    Aborted,
}

/// The pipeline's position in one run: which selection, which tool, and
/// which stage is pending.
pub struct PipelineState {
    pub config: Config,
    pub output_dir: String,
    pub sel_idx: usize,
    pub tool_idx: usize,
    pub phase: Phase,
}

/// One externally-performed step of the packaging pipeline, fully named:
/// the caller runs it and reports back whether it succeeded.
pub enum PackageAction {
    /// download the archive and unpack it, leaving the package directory
    Fetch { url: String, archive: String, package_dir: String },
    /// build one tool into its isolated directory
    Build { tool_dir: String, cargo_args: Vec<String> },
    /// move the finished tool directory into the package tree
    Merge { from: String, dest: String },
    /// append the merged tool's identifier to the package's ledger file
    Record { components_path: String, component: String },
    /// re-compress the package directory and remove it afterwards
    Pack { tar_args: Vec<String>, remove_dir: String },
}

impl PipelineState {
    /// The positions are meaningful for the phase the pipeline is in.
    pub open spec fn wf(&self) -> bool {
        &&& self.sel_idx <= self.config.target_selections@.len()
        &&& self.tool_idx <= self.config.extra_tools@.len()
        &&& ((self.phase is Fetching || self.phase is Building || self.phase is Merging
            || self.phase is Recording || self.phase is Packing) ==> self.sel_idx
            < self.config.target_selections@.len())
        &&& ((self.phase is Building || self.phase is Merging || self.phase is Recording)
            ==> self.tool_idx < self.config.extra_tools@.len())
    }

    /// The start of a run: fetching the first selection, or already
    /// finished when the config names none.
    pub fn start(config: Config, output_dir: String) -> (r: PipelineState)
        ensures
            r.config == config,
            r.output_dir == output_dir,
            r.sel_idx == 0,
            r.tool_idx == 0,
            r.phase == (if config.target_selections@.len() == 0 {
                Phase::Finished
            } else {
                Phase::Fetching
            }),
            r.wf(),
    {
        let phase = if config.target_selections.len() == 0 {
            Phase::Finished
        } else {
            Phase::Fetching
        };
        PipelineState { config, output_dir, sel_idx: 0, tool_idx: 0, phase }
    }
}

/// How the pipeline advances when the outside world answers one step.
/// Any failure in an active stage aborts the run; otherwise the stages
/// run in order — fetch, then build, merge, record for each tool in turn,
/// then pack — and move on to the next selection.
pub open spec fn spec_advance(state: PipelineState, ok: bool) -> PipelineState {
    match state.phase {
        Phase::Finished => state,
        Phase::Aborted => state,
        _ => if !ok {
            PipelineState { phase: Phase::Aborted, ..state }
        } else {
            match state.phase {
                Phase::Fetching => if state.config.extra_tools@.len() == 0 {
                    PipelineState { phase: Phase::Packing, ..state }
                } else {
                    PipelineState { phase: Phase::Building, tool_idx: 0, ..state }
                },
                Phase::Building => PipelineState { phase: Phase::Merging, ..state },
                Phase::Merging => PipelineState { phase: Phase::Recording, ..state },
                Phase::Recording => if state.tool_idx + 1 < state.config.extra_tools@.len() {
                    PipelineState {
                        phase: Phase::Building,
                        tool_idx: (state.tool_idx + 1) as usize,
                        ..state
                    }
                } else {
                    PipelineState { phase: Phase::Packing, ..state }
                },
                Phase::Packing => if state.sel_idx + 1 < state.config.target_selections@.len() {
                    PipelineState {
                        phase: Phase::Fetching,
                        sel_idx: (state.sel_idx + 1) as usize,
                        tool_idx: 0,
                        ..state
                    }
                } else {
                    PipelineState { phase: Phase::Finished, ..state }
                },
                _ => state,
            }
        },
    }
}

/// Advances the pipeline by one answered step.
pub fn advance(state: PipelineState, ok: bool) -> (r: PipelineState)
    requires
        state.wf(),
    ensures
        r == spec_advance(state, ok),
        r.wf(),
{
    match state.phase {
        Phase::Finished => state,
        Phase::Aborted => state,
        _ => if !ok {
            PipelineState { phase: Phase::Aborted, ..state }
        } else {
            match state.phase {
                Phase::Fetching => if state.config.extra_tools.len() == 0 {
                    PipelineState { phase: Phase::Packing, ..state }
                } else {
                    PipelineState { phase: Phase::Building, tool_idx: 0, ..state }
                },
                Phase::Building => PipelineState { phase: Phase::Merging, ..state },
                Phase::Merging => PipelineState { phase: Phase::Recording, ..state },
                Phase::Recording => {
                    let total = state.config.extra_tools.len();
                    let next_tool = state.tool_idx + 1;
                    if next_tool < total {
                        PipelineState { phase: Phase::Building, tool_idx: next_tool, ..state }
                    } else {
                        PipelineState { phase: Phase::Packing, ..state }
                    }
                },
                Phase::Packing => {
                    let total = state.config.target_selections.len();
                    let next_sel = state.sel_idx + 1;
                    if next_sel < total {
                        PipelineState {
                            phase: Phase::Fetching,
                            sel_idx: next_sel,
                            tool_idx: 0,
                            ..state
                        }
                    } else {
                        PipelineState { phase: Phase::Finished, ..state }
                    }
                },
                _ => state,
            }
        },
    }
}

/// Names the next step the caller must perform, or nothing when the run
/// is finished or aborted.
pub fn next_action(state: &PipelineState) -> (r: Option<PackageAction>)
    requires
        state.wf(),
    ensures
        match state.phase {
            Phase::Fetching => r matches Some(PackageAction::Fetch { url, archive, package_dir })
                && url@ == spec_resolved_package_url(
                &state.config.target_selections@[state.sel_idx as int],
                state.config.rustup_dist_server@,
            ) && archive@ == state.output_dir@ + "/"@ + spec_package_full_name(
                &state.config.target_selections@[state.sel_idx as int],
            ) && package_dir@ == spec_extracted_package_dir(
                state.output_dir@,
                &state.config.target_selections@[state.sel_idx as int],
            ),
            Phase::Building => r matches Some(PackageAction::Build { tool_dir, cargo_args })
                && tool_dir@ == spec_tool_dir(
                state.output_dir@,
                &state.config.extra_tools@[state.tool_idx as int],
            ) && cargo_args@.len() == 4 && cargo_args@[0]@ == "install"@ && cargo_args@[1]@
                == state.config.extra_tools@[state.tool_idx as int].spec_crate_name()
                && cargo_args@[2]@ == "--root"@ && cargo_args@[3]@ == spec_tool_dir(
                state.output_dir@,
                &state.config.extra_tools@[state.tool_idx as int],
            ),
            Phase::Merging => r matches Some(PackageAction::Merge { from, dest }) && from@
                == spec_tool_dir(
                state.output_dir@,
                &state.config.extra_tools@[state.tool_idx as int],
            ) && dest@ == spec_extracted_package_dir(
                state.output_dir@,
                &state.config.target_selections@[state.sel_idx as int],
            ) + "/"@ + spec_file_name(
                spec_tool_dir(state.output_dir@, &state.config.extra_tools@[state.tool_idx as int]),
            ),
            Phase::Recording => r matches Some(PackageAction::Record { components_path, component })
                && components_path@ == spec_extracted_package_dir(
                state.output_dir@,
                &state.config.target_selections@[state.sel_idx as int],
            ) + "/components"@ && component@ == spec_component_id(
                &state.config.extra_tools@[state.tool_idx as int],
            ),
            Phase::Packing => r matches Some(PackageAction::Pack { tar_args, remove_dir })
                && tar_args@.len() == 5 && tar_args@[0]@ == "-czvf"@ && tar_args@[1]@
                == state.output_dir@ + "/"@ + spec_package_full_name(
                &state.config.target_selections@[state.sel_idx as int],
            ) && tar_args@[2]@ == "-C"@ && tar_args@[3]@ == spec_extracted_package_dir(
                state.output_dir@,
                &state.config.target_selections@[state.sel_idx as int],
            ) && tar_args@[4]@ == "."@ && remove_dir@ == spec_extracted_package_dir(
                state.output_dir@,
                &state.config.target_selections@[state.sel_idx as int],
            ),
            Phase::Finished => r is None,
            Phase::Aborted => r is None,
        },
{
    match state.phase {
        Phase::Fetching => {
            let sel = &state.config.target_selections[state.sel_idx];
            let url = resolve_package_url(sel, &state.config.rustup_dist_server);
            let name = get_package_full_name(sel);
            let mut archive = state.output_dir.clone();
            archive.append("/");
            archive.append(name.as_str());
            let dir_name = extract_dir_name(&name);
            let mut package_dir = state.output_dir.clone();
            package_dir.append("/");
            package_dir.append(dir_name.as_str());
            Some(PackageAction::Fetch { url, archive, package_dir })
        },
        Phase::Building => {
            let tool = &state.config.extra_tools[state.tool_idx];
            let plan = package_extra_tools(tool, &state.output_dir);
            Some(PackageAction::Build { tool_dir: plan.tool_dir, cargo_args: plan.cargo_args })
        },
        Phase::Merging => {
            let tool = &state.config.extra_tools[state.tool_idx];
            let sel = &state.config.target_selections[state.sel_idx];
            let from = init_package_dir(tool, &state.output_dir);
            let name = get_package_full_name(sel);
            let dir_name = extract_dir_name(&name);
            let mut package_dir = state.output_dir.clone();
            package_dir.append("/");
            package_dir.append(dir_name.as_str());
            let dest = move_folder_dest(&from, &package_dir);
            Some(PackageAction::Merge { from, dest })
        },
        Phase::Recording => {
            let tool = &state.config.extra_tools[state.tool_idx];
            let sel = &state.config.target_selections[state.sel_idx];
            let name = get_package_full_name(sel);
            let dir_name = extract_dir_name(&name);
            let mut package_dir = state.output_dir.clone();
            package_dir.append("/");
            package_dir.append(dir_name.as_str());
            let path = components_path(&package_dir);
            let component = component_id(tool);
            Some(PackageAction::Record { components_path: path, component })
        },
        Phase::Packing => {
            let sel = &state.config.target_selections[state.sel_idx];
            let name = get_package_full_name(sel);
            let dir_name = extract_dir_name(&name);
            let mut package_dir = state.output_dir.clone();
            package_dir.append("/");
            package_dir.append(dir_name.as_str());
            let tar_args = try_package(&name, &state.output_dir, &package_dir);
            Some(PackageAction::Pack { tar_args, remove_dir: package_dir })
        },
        Phase::Finished => None,
        Phase::Aborted => None,
    }
}

/// The state the pipeline reaches after a whole script of answers.
pub open spec fn spec_run(state: PipelineState, results: Seq<bool>) -> PipelineState
    decreases results.len(),
{
    if results.len() == 0 {
        state
    } else {
        spec_run(spec_advance(state, results[0]), results.drop_first())
    }
}

/// A failure in any active stage — a tool's isolated build among them —
/// puts the run into the aborted state at once.
pub proof fn lemma_failed_stage_aborts(state: PipelineState)
    requires
        !(state.phase is Finished),
        !(state.phase is Aborted),
    ensures
        spec_advance(state, false).phase is Aborted,
{
}

/// An aborted run stays aborted, whatever answers arrive afterwards: no
/// later stage of any tool or selection ever runs, so a failed tool's
/// directory is never traversed or moved, and nothing further is recorded
/// or packed.
pub proof fn lemma_aborted_run_stays_aborted(state: PipelineState, results: Seq<bool>)
    requires
        state.phase is Aborted,
    ensures
        spec_run(state, results) == state,
    decreases results.len(),
{
    if results.len() > 0 {
        lemma_aborted_run_stays_aborted(state, results.drop_first());
    }
}

} // verus!
