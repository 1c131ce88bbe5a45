//! Adapters for external command-line tools.
//!
//! An adapter decides how its tool is run: which program, which arguments,
//! which directory receives the output and where the produced files are
//! collected from. The process itself is started by the caller, which hands
//! the outcome back as plain values ([`ExternalAnalysis`], [`AdapterError`]).
pub mod tool_rules;

use vstd::prelude::*;
use self::tool_rules::{
    binwalk_rule, ffmpeg_rule, ffprobe_rule, first_rule_for, ghidra_analyze_headless_rule, iasl_rule,
    lemma_first_rule_prefix, lemma_lookup_any_name, lemma_lookup_by_id, lemma_lookup_finds_registered, rule_answers_to, seven_zip_rule, spec_all_tool_rules,
    spec_binwalk_rule, spec_ffmpeg_rule, spec_ffprobe_rule, spec_ghidra_analyze_headless_rule, spec_iasl_rule,
    spec_seven_zip_rule, spec_uefiextract_rule, spec_uefifind_rule, spec_unsquashfs_rule, tool_rule,
    uefiextract_rule, unsquashfs_rule, ToolKind,
};
use crate::text::{owned, push_str, str_eq, str_texts, text_at, texts};

verus! {

/// `std::path::PathBuf`, declared so that it can stand in fields.
#[verifier::external_type_specification]
#[verifier::external_body]
pub struct ExPathBuf(std::path::PathBuf);

/// Why an external tool could not produce an analysis.
#[derive(Debug, Clone)]
pub enum AdapterError {
    /// An I/O failure, held as the text that the operating system error displays.
    Io(String),
    /// The tool ran and reported failure.
    ToolFailed { command: String, status_code: Option<i32>, stderr: String },
    /// The tool's program was not found.
    ToolNotFound(String),
    /// The adapter does not run its tool automatically.
    Unsupported(String),
}

/// The result of running one external tool.
#[derive(Debug)]
pub struct ExternalAnalysis {
    pub command: String,
    pub status_code: Option<i32>,
    pub stdout: String,
    pub stderr: String,
    pub output_dir: Option<std::path::PathBuf>,
    pub artifacts: Vec<ExternalArtifact>,
}

/// One file produced by an external tool.
#[derive(Debug)]
pub struct ExternalArtifact {
    pub name: String,
    pub path: std::path::PathBuf,
    pub bytes: Vec<u8>,
}

/// A path that a tool run refers to, relative to the two paths the run is given.
#[derive(Debug)]
pub enum PathRef {
    /// The input file.
    Input,
    /// The workspace directory of the run.
    Workspace,
    /// A path inside the workspace, one component after another.
    InWorkspace(Vec<&'static str>),
    /// The input path with its extension replaced.
    InputWithExtension(&'static str),
}

/// One command-line argument.
#[derive(Debug)]
pub enum PlanArg {
    /// Literal text.
    Text(&'static str),
    /// A path, passed as it is.
    Path(PathRef),
    /// Literal text directly followed by the displayed form of a path.
    TextWithPath(&'static str, PathRef),
}

/// Which directory the analysis names as its output.
#[derive(Debug)]
pub enum OutputDirRule {
    NoDirectory,
    Always(PathRef),
    WhenExists(PathRef),
}

/// Where the produced files are collected from.
#[derive(Debug)]
pub enum ArtifactRule {
    NoArtifacts,
    /// Every regular file below the directory, except the run's own input.
    CollectDirectory(PathRef),
    /// One file, under the given name, when it exists.
    SingleFile(&'static str, PathRef),
}

/// How one external tool is run.
#[derive(Debug)]
pub struct ToolPlan {
    pub program: &'static str,
    /// A directory to create (with its parents) before the tool runs.
    pub create_dir: Option<PathRef>,
    pub args: Vec<PlanArg>,
    pub output_dir: OutputDirRule,
    pub artifacts: ArtifactRule,
}

/// The content of a [`PathRef`].
pub enum PathRefView {
    Input,
    Workspace,
    InWorkspace(Seq<Seq<char>>),
    InputWithExtension(Seq<char>),
}

impl View for PathRef {
    type V = PathRefView;

    open spec fn view(&self) -> PathRefView {
        match self {
            PathRef::Input => PathRefView::Input,
            PathRef::Workspace => PathRefView::Workspace,
            PathRef::InWorkspace(parts) => PathRefView::InWorkspace(str_texts(parts@)),
            PathRef::InputWithExtension(ext) => PathRefView::InputWithExtension(ext@),
        }
    }
}

/// The content of a [`PlanArg`].
pub enum PlanArgView {
    Text(Seq<char>),
    Path(PathRefView),
    TextWithPath(Seq<char>, PathRefView),
}

impl View for PlanArg {
    type V = PlanArgView;

    open spec fn view(&self) -> PlanArgView {
        match self {
            PlanArg::Text(t) => PlanArgView::Text(t@),
            PlanArg::Path(p) => PlanArgView::Path(p@),
            PlanArg::TextWithPath(t, p) => PlanArgView::TextWithPath(t@, p@),
        }
    }
}

/// The content of an [`OutputDirRule`].
pub enum OutputDirView {
    NoDirectory,
    Always(PathRefView),
    WhenExists(PathRefView),
}

impl View for OutputDirRule {
    type V = OutputDirView;

    open spec fn view(&self) -> OutputDirView {
        match self {
            OutputDirRule::NoDirectory => OutputDirView::NoDirectory,
            OutputDirRule::Always(p) => OutputDirView::Always(p@),
            OutputDirRule::WhenExists(p) => OutputDirView::WhenExists(p@),
        }
    }
}

/// The content of an [`ArtifactRule`].
pub enum ArtifactView {
    NoArtifacts,
    CollectDirectory(PathRefView),
    SingleFile(Seq<char>, PathRefView),
}

impl View for ArtifactRule {
    type V = ArtifactView;

    open spec fn view(&self) -> ArtifactView {
        match self {
            ArtifactRule::NoArtifacts => ArtifactView::NoArtifacts,
            ArtifactRule::CollectDirectory(p) => ArtifactView::CollectDirectory(p@),
            ArtifactRule::SingleFile(n, p) => ArtifactView::SingleFile(n@, p@),
        }
    }
}

/// The content of a [`ToolPlan`].
pub struct ToolPlanView {
    pub program: Seq<char>,
    pub create_dir: Option<PathRefView>,
    pub args: Seq<PlanArgView>,
    pub output_dir: OutputDirView,
    pub artifacts: ArtifactView,
}

impl View for ToolPlan {
    type V = ToolPlanView;

    open spec fn view(&self) -> ToolPlanView {
        ToolPlanView {
            program: self.program@,
            create_dir: match self.create_dir {
                Some(p) => Some(p@),
                None => None,
            },
            args: self.args@.map_values(|a: PlanArg| a@),
            output_dir: self.output_dir@,
            artifacts: self.artifacts@,
        }
    }
}

/// The content of an [`AdapterError`].
pub enum AdapterErrorView {
    Io(Seq<char>),
    ToolFailed { command: Seq<char>, status_code: Option<i32>, stderr: Seq<char> },
    ToolNotFound(Seq<char>),
    Unsupported(Seq<char>),
}

impl View for AdapterError {
    type V = AdapterErrorView;

    open spec fn view(&self) -> AdapterErrorView {
        match self {
            AdapterError::Io(m) => AdapterErrorView::Io(m@),
            AdapterError::ToolFailed { command, status_code, stderr } => AdapterErrorView::ToolFailed {
                command: command@,
                status_code: *status_code,
                stderr: stderr@,
            },
            AdapterError::ToolNotFound(t) => AdapterErrorView::ToolNotFound(t@),
            AdapterError::Unsupported(m) => AdapterErrorView::Unsupported(m@),
        }
    }
}

/// The view of a plan result.
pub open spec fn plan_view(r: Result<ToolPlan, AdapterError>) -> Result<ToolPlanView, AdapterErrorView> {
    match r {
        Ok(p) => Ok(p@),
        Err(e) => Err(e@),
    }
}

/// An external tool, as the analysis engine sees it.
pub trait ExternalAdapter {
    /// The adapter's name.
    spec fn spec_name(&self) -> Seq<char>;

    /// How the tool is run, or why it is not run.
    spec fn spec_plan(&self) -> Result<ToolPlanView, AdapterErrorView>;

    fn name(&self) -> (r: &'static str)
        ensures
            r@ == self.spec_name(),
    ;

    fn plan(&self) -> (r: Result<ToolPlan, AdapterError>)
        ensures
            plan_view(r) == self.spec_plan(),
    ;
}

/// The adapter for `uefiextract`.
pub struct UefiExtractAdapter;

/// The adapter for `uefitool`, which is never run.
pub struct UefiToolAdapter;

/// The adapter for `uefifind`, which is never run.
pub struct UefiFindAdapter;

/// The adapter for `binwalk`.
pub struct BinwalkAdapter;

/// The adapter for Ghidra's `analyzeHeadless`.
pub struct GhidraAdapter;

/// The adapter for `iasl`.
pub struct IaslAdapter;

/// The adapter for `flashrom`, which is never run.
pub struct FlashromAdapter;

/// The adapter for `unsquashfs`.
pub struct UnsquashfsAdapter;

/// The adapter for `mksquashfs`, which is never run.
pub struct MksquashfsAdapter;

/// The adapter for `7z`.
pub struct SevenZipAdapter;

/// The adapter for `ffprobe`.
pub struct FfprobeAdapter;

/// The adapter for `ffmpeg`.
pub struct FfmpegAdapter;

/// An `Unsupported` refusal with the given text.
pub open spec fn unsupported(m: Seq<char>) -> Result<ToolPlanView, AdapterErrorView> {
    Err(AdapterErrorView::Unsupported(m))
}

impl ExternalAdapter for UefiToolAdapter {
    open spec fn spec_name(&self) -> Seq<char> {
        "uefitool"@
    }

    /// Refused with the success rule of the `uefitool` tool rule.
    open spec fn spec_plan(&self) -> Result<ToolPlanView, AdapterErrorView> {
        match first_rule_for(spec_all_tool_rules(), "uefitool"@) {
            Some(rule) => unsupported(rule.success_rule),
            None => unsupported("uefitool is not supported for automatic headless extraction"@),
        }
    }

    fn name(&self) -> (r: &'static str) {
        "uefitool"
    }

    fn plan(&self) -> (r: Result<ToolPlan, AdapterError>) {
        let message = match tool_rule("uefitool") {
            Some(rule) => rule.success_rule,
            None => "uefitool is not supported for automatic headless extraction",
        };
        Err(AdapterError::Unsupported(owned(message)))
    }
}

impl ExternalAdapter for UefiFindAdapter {
    open spec fn spec_name(&self) -> Seq<char> {
        "uefifind"@
    }

    open spec fn spec_plan(&self) -> Result<ToolPlanView, AdapterErrorView> {
        unsupported(
            "uefifind requires a search scope, mode, and pattern; wire it through a detector-specific rule before automatic use"@,
        )
    }

    fn name(&self) -> (r: &'static str) {
        "uefifind"
    }

    fn plan(&self) -> (r: Result<ToolPlan, AdapterError>) {
        Err(
            AdapterError::Unsupported(
                owned(
                    "uefifind requires a search scope, mode, and pattern; wire it through a detector-specific rule before automatic use",
                ),
            ),
        )
    }
}

impl ExternalAdapter for FlashromAdapter {
    open spec fn spec_name(&self) -> Seq<char> {
        "flashrom"@
    }

    open spec fn spec_plan(&self) -> Result<ToolPlanView, AdapterErrorView> {
        unsupported(
            "flashrom is hardware-facing and can read/write real flash chips; automatic analysis adapters must not run it"@,
        )
    }

    fn name(&self) -> (r: &'static str) {
        "flashrom"
    }

    fn plan(&self) -> (r: Result<ToolPlan, AdapterError>) {
        Err(
            AdapterError::Unsupported(
                owned(
                    "flashrom is hardware-facing and can read/write real flash chips; automatic analysis adapters must not run it",
                ),
            ),
        )
    }
}

impl ExternalAdapter for MksquashfsAdapter {
    open spec fn spec_name(&self) -> Seq<char> {
        "mksquashfs"@
    }

    open spec fn spec_plan(&self) -> Result<ToolPlanView, AdapterErrorView> {
        unsupported(
            "mksquashfs creates filesystem images; it is a packer adapter, not an automatic analysis extractor"@,
        )
    }

    fn name(&self) -> (r: &'static str) {
        "mksquashfs"
    }

    fn plan(&self) -> (r: Result<ToolPlan, AdapterError>) {
        Err(
            AdapterError::Unsupported(
                owned(
                    "mksquashfs creates filesystem images; it is a packer adapter, not an automatic analysis extractor",
                ),
            ),
        )
    }
}

/// The path `parts` inside the workspace.
pub open spec fn in_ws(parts: Seq<Seq<char>>) -> PathRefView {
    PathRefView::InWorkspace(parts)
}

fn ws_path(part: &'static str) -> (r: PathRef)
    ensures
        r@ == in_ws(seq![part@]),
{
    let parts = vec![part];
    assert(str_texts(parts@) =~= seq![part@]);
    PathRef::InWorkspace(parts)
}

impl ExternalAdapter for UefiExtractAdapter {
    open spec fn spec_name(&self) -> Seq<char> {
        "uefiextract"@
    }

    /// `uefiextract INPUT all`; the dump directory next to the input holds the output.
    open spec fn spec_plan(&self) -> Result<ToolPlanView, AdapterErrorView> {
        let rule = spec_uefiextract_rule();
        Ok(
            ToolPlanView {
                program: rule.command,
                create_dir: None,
                args: seq![PlanArgView::Path(PathRefView::Input), PlanArgView::Text(rule.extract_all_args[0])],
                output_dir: OutputDirView::WhenExists(PathRefView::InputWithExtension("dump"@)),
                artifacts: ArtifactView::CollectDirectory(PathRefView::InputWithExtension("dump"@)),
            },
        )
    }

    fn name(&self) -> (r: &'static str) {
        "uefiextract"
    }

    fn plan(&self) -> (r: Result<ToolPlan, AdapterError>) {
        let rule = uefiextract_rule();
        let args = vec![PlanArg::Path(PathRef::Input), PlanArg::Text(text_at(&rule.extract_all_args, 0))];
        let plan = ToolPlan {
            program: rule.command,
            create_dir: None,
            args,
            output_dir: OutputDirRule::WhenExists(PathRef::InputWithExtension("dump")),
            artifacts: ArtifactRule::CollectDirectory(PathRef::InputWithExtension("dump")),
        };
        assert(plan@.args =~= self.spec_plan()->Ok_0.args);
        Ok(plan)
    }
}

impl ExternalAdapter for BinwalkAdapter {
    open spec fn spec_name(&self) -> Seq<char> {
        "binwalk"@
    }

    /// `binwalk --extract --matryoshka --quiet --directory WS/binwalk INPUT`.
    open spec fn spec_plan(&self) -> Result<ToolPlanView, AdapterErrorView> {
        let rule = spec_binwalk_rule();
        let out = in_ws(seq!["binwalk"@]);
        Ok(
            ToolPlanView {
                program: rule.command,
                create_dir: Some(out),
                args: seq![
                    PlanArgView::Text(rule.extract_all_args[0]),
                    PlanArgView::Text(rule.extract_all_args[1]),
                    PlanArgView::Text(rule.quiet_or_headless_args[0]),
                    PlanArgView::Text("--directory"@),
                    PlanArgView::Path(out),
                    PlanArgView::Path(PathRefView::Input),
                ],
                output_dir: OutputDirView::Always(out),
                artifacts: ArtifactView::CollectDirectory(out),
            },
        )
    }

    fn name(&self) -> (r: &'static str) {
        "binwalk"
    }

    fn plan(&self) -> (r: Result<ToolPlan, AdapterError>) {
        let rule = binwalk_rule();
        let args = vec![
            PlanArg::Text(text_at(&rule.extract_all_args, 0)),
            PlanArg::Text(text_at(&rule.extract_all_args, 1)),
            PlanArg::Text(text_at(&rule.quiet_or_headless_args, 0)),
            PlanArg::Text("--directory"),
            PlanArg::Path(ws_path("binwalk")),
            PlanArg::Path(PathRef::Input),
        ];
        let plan = ToolPlan {
            program: rule.command,
            create_dir: Some(ws_path("binwalk")),
            args,
            output_dir: OutputDirRule::Always(ws_path("binwalk")),
            artifacts: ArtifactRule::CollectDirectory(ws_path("binwalk")),
        };
        assert(plan@.args =~= self.spec_plan()->Ok_0.args);
        Ok(plan)
    }
}

impl ExternalAdapter for GhidraAdapter {
    open spec fn spec_name(&self) -> Seq<char> {
        "ghidra"@
    }

    /// `ghidra-analyzeHeadless WS/ghidra_project drill -import INPUT -deleteProject`.
    open spec fn spec_plan(&self) -> Result<ToolPlanView, AdapterErrorView> {
        let rule = spec_ghidra_analyze_headless_rule();
        let project = in_ws(seq!["ghidra_project"@]);
        Ok(
            ToolPlanView {
                program: rule.command,
                create_dir: Some(project),
                args: seq![
                    PlanArgView::Path(project),
                    PlanArgView::Text("drill"@),
                    PlanArgView::Text("-import"@),
                    PlanArgView::Path(PathRefView::Input),
                    PlanArgView::Text(rule.quiet_or_headless_args[0]),
                ],
                output_dir: OutputDirView::Always(project),
                artifacts: ArtifactView::NoArtifacts,
            },
        )
    }

    fn name(&self) -> (r: &'static str) {
        "ghidra"
    }

    fn plan(&self) -> (r: Result<ToolPlan, AdapterError>) {
        let rule = ghidra_analyze_headless_rule();
        let args = vec![
            PlanArg::Path(ws_path("ghidra_project")),
            PlanArg::Text("drill"),
            PlanArg::Text("-import"),
            PlanArg::Path(PathRef::Input),
            PlanArg::Text(text_at(&rule.quiet_or_headless_args, 0)),
        ];
        let plan = ToolPlan {
            program: rule.command,
            create_dir: Some(ws_path("ghidra_project")),
            args,
            output_dir: OutputDirRule::Always(ws_path("ghidra_project")),
            artifacts: ArtifactRule::NoArtifacts,
        };
        assert(plan@.args =~= self.spec_plan()->Ok_0.args);
        Ok(plan)
    }
}

fn ws_path2(a: &'static str, b: &'static str) -> (r: PathRef)
    ensures
        r@ == in_ws(seq![a@, b@]),
{
    let parts = vec![a, b];
    assert(str_texts(parts@) =~= seq![a@, b@]);
    PathRef::InWorkspace(parts)
}

impl ExternalAdapter for IaslAdapter {
    open spec fn spec_name(&self) -> Seq<char> {
        "iasl"@
    }

    /// `iasl -vs -d -p WS/iasl/table INPUT`; the output lands in `WS/iasl`.
    open spec fn spec_plan(&self) -> Result<ToolPlanView, AdapterErrorView> {
        let rule = spec_iasl_rule();
        let dir = in_ws(seq!["iasl"@]);
        Ok(
            ToolPlanView {
                program: rule.command,
                create_dir: Some(dir),
                args: seq![
                    PlanArgView::Text(rule.quiet_or_headless_args[0]),
                    PlanArgView::Text("-d"@),
                    PlanArgView::Text("-p"@),
                    PlanArgView::Path(in_ws(seq!["iasl"@, "table"@])),
                    PlanArgView::Path(PathRefView::Input),
                ],
                output_dir: OutputDirView::Always(dir),
                artifacts: ArtifactView::CollectDirectory(dir),
            },
        )
    }

    fn name(&self) -> (r: &'static str) {
        "iasl"
    }

    fn plan(&self) -> (r: Result<ToolPlan, AdapterError>) {
        let rule = iasl_rule();
        let args = vec![
            PlanArg::Text(text_at(&rule.quiet_or_headless_args, 0)),
            PlanArg::Text("-d"),
            PlanArg::Text("-p"),
            PlanArg::Path(ws_path2("iasl", "table")),
            PlanArg::Path(PathRef::Input),
        ];
        let plan = ToolPlan {
            program: rule.command,
            create_dir: Some(ws_path("iasl")),
            args,
            output_dir: OutputDirRule::Always(ws_path("iasl")),
            artifacts: ArtifactRule::CollectDirectory(ws_path("iasl")),
        };
        assert(plan@.args =~= self.spec_plan()->Ok_0.args);
        Ok(plan)
    }
}

impl ExternalAdapter for UnsquashfsAdapter {
    open spec fn spec_name(&self) -> Seq<char> {
        "unsquashfs"@
    }

    /// `unsquashfs -d WS/unsquashfs INPUT`.
    open spec fn spec_plan(&self) -> Result<ToolPlanView, AdapterErrorView> {
        let rule = spec_unsquashfs_rule();
        let out = in_ws(seq!["unsquashfs"@]);
        Ok(
            ToolPlanView {
                program: rule.command,
                create_dir: Some(out),
                args: seq![
                    PlanArgView::Text("-d"@),
                    PlanArgView::Path(out),
                    PlanArgView::Path(PathRefView::Input),
                ],
                output_dir: OutputDirView::Always(out),
                artifacts: ArtifactView::CollectDirectory(out),
            },
        )
    }

    fn name(&self) -> (r: &'static str) {
        "unsquashfs"
    }

    fn plan(&self) -> (r: Result<ToolPlan, AdapterError>) {
        let rule = unsquashfs_rule();
        let args = vec![
            PlanArg::Text("-d"),
            PlanArg::Path(ws_path("unsquashfs")),
            PlanArg::Path(PathRef::Input),
        ];
        let plan = ToolPlan {
            program: rule.command,
            create_dir: Some(ws_path("unsquashfs")),
            args,
            output_dir: OutputDirRule::Always(ws_path("unsquashfs")),
            artifacts: ArtifactRule::CollectDirectory(ws_path("unsquashfs")),
        };
        assert(plan@.args =~= self.spec_plan()->Ok_0.args);
        Ok(plan)
    }
}

impl ExternalAdapter for SevenZipAdapter {
    open spec fn spec_name(&self) -> Seq<char> {
        "7z"@
    }

    /// `7z x -y -bd -bb0 -oWS/7z INPUT`.
    open spec fn spec_plan(&self) -> Result<ToolPlanView, AdapterErrorView> {
        let rule = spec_seven_zip_rule();
        let out = in_ws(seq!["7z"@]);
        Ok(
            ToolPlanView {
                program: rule.command,
                create_dir: Some(out),
                args: seq![
                    PlanArgView::Text(rule.extract_all_args[0]),
                    PlanArgView::Text(rule.extract_all_args[1]),
                    PlanArgView::Text(rule.quiet_or_headless_args[0]),
                    PlanArgView::Text(rule.quiet_or_headless_args[1]),
                    PlanArgView::TextWithPath("-o"@, out),
                    PlanArgView::Path(PathRefView::Input),
                ],
                output_dir: OutputDirView::Always(out),
                artifacts: ArtifactView::CollectDirectory(out),
            },
        )
    }

    fn name(&self) -> (r: &'static str) {
        "7z"
    }

    fn plan(&self) -> (r: Result<ToolPlan, AdapterError>) {
        let rule = seven_zip_rule();
        let args = vec![
            PlanArg::Text(text_at(&rule.extract_all_args, 0)),
            PlanArg::Text(text_at(&rule.extract_all_args, 1)),
            PlanArg::Text(text_at(&rule.quiet_or_headless_args, 0)),
            PlanArg::Text(text_at(&rule.quiet_or_headless_args, 1)),
            PlanArg::TextWithPath("-o", ws_path("7z")),
            PlanArg::Path(PathRef::Input),
        ];
        let plan = ToolPlan {
            program: rule.command,
            create_dir: Some(ws_path("7z")),
            args,
            output_dir: OutputDirRule::Always(ws_path("7z")),
            artifacts: ArtifactRule::CollectDirectory(ws_path("7z")),
        };
        assert(plan@.args =~= self.spec_plan()->Ok_0.args);
        Ok(plan)
    }
}

impl ExternalAdapter for FfprobeAdapter {
    open spec fn spec_name(&self) -> Seq<char> {
        "ffprobe"@
    }

    /// `ffprobe -hide_banner -v error -output_format json -show_format -show_streams INPUT`.
    open spec fn spec_plan(&self) -> Result<ToolPlanView, AdapterErrorView> {
        let rule = spec_ffprobe_rule();
        Ok(
            ToolPlanView {
                program: rule.command,
                create_dir: None,
                args: seq![
                    PlanArgView::Text(rule.quiet_or_headless_args[0]),
                    PlanArgView::Text(rule.quiet_or_headless_args[1]),
                    PlanArgView::Text(rule.quiet_or_headless_args[2]),
                    PlanArgView::Text("-output_format"@),
                    PlanArgView::Text("json"@),
                    PlanArgView::Text("-show_format"@),
                    PlanArgView::Text("-show_streams"@),
                    PlanArgView::Path(PathRefView::Input),
                ],
                output_dir: OutputDirView::NoDirectory,
                artifacts: ArtifactView::NoArtifacts,
            },
        )
    }

    fn name(&self) -> (r: &'static str) {
        "ffprobe"
    }

    fn plan(&self) -> (r: Result<ToolPlan, AdapterError>) {
        let rule = ffprobe_rule();
        let args = vec![
            PlanArg::Text(text_at(&rule.quiet_or_headless_args, 0)),
            PlanArg::Text(text_at(&rule.quiet_or_headless_args, 1)),
            PlanArg::Text(text_at(&rule.quiet_or_headless_args, 2)),
            PlanArg::Text("-output_format"),
            PlanArg::Text("json"),
            PlanArg::Text("-show_format"),
            PlanArg::Text("-show_streams"),
            PlanArg::Path(PathRef::Input),
        ];
        let plan = ToolPlan {
            program: rule.command,
            create_dir: None,
            args,
            output_dir: OutputDirRule::NoDirectory,
            artifacts: ArtifactRule::NoArtifacts,
        };
        assert(plan@.args =~= self.spec_plan()->Ok_0.args);
        Ok(plan)
    }
}

impl ExternalAdapter for FfmpegAdapter {
    open spec fn spec_name(&self) -> Seq<char> {
        "ffmpeg"@
    }

    /// `ffmpeg -hide_banner -v error -y -i INPUT -f ffmetadata WS/ffmetadata.txt`;
    /// that one file is the artifact.
    open spec fn spec_plan(&self) -> Result<ToolPlanView, AdapterErrorView> {
        let rule = spec_ffmpeg_rule();
        let out = in_ws(seq!["ffmetadata.txt"@]);
        Ok(
            ToolPlanView {
                program: rule.command,
                create_dir: None,
                args: seq![
                    PlanArgView::Text(rule.quiet_or_headless_args[0]),
                    PlanArgView::Text(rule.quiet_or_headless_args[1]),
                    PlanArgView::Text(rule.quiet_or_headless_args[2]),
                    PlanArgView::Text(rule.quiet_or_headless_args[3]),
                    PlanArgView::Text("-i"@),
                    PlanArgView::Path(PathRefView::Input),
                    PlanArgView::Text("-f"@),
                    PlanArgView::Text("ffmetadata"@),
                    PlanArgView::Path(out),
                ],
                output_dir: OutputDirView::Always(PathRefView::Workspace),
                artifacts: ArtifactView::SingleFile("ffmetadata.txt"@, out),
            },
        )
    }

    fn name(&self) -> (r: &'static str) {
        "ffmpeg"
    }

    fn plan(&self) -> (r: Result<ToolPlan, AdapterError>) {
        let rule = ffmpeg_rule();
        let args = vec![
            PlanArg::Text(text_at(&rule.quiet_or_headless_args, 0)),
            PlanArg::Text(text_at(&rule.quiet_or_headless_args, 1)),
            PlanArg::Text(text_at(&rule.quiet_or_headless_args, 2)),
            PlanArg::Text(text_at(&rule.quiet_or_headless_args, 3)),
            PlanArg::Text("-i"),
            PlanArg::Path(PathRef::Input),
            PlanArg::Text("-f"),
            PlanArg::Text("ffmetadata"),
            PlanArg::Path(ws_path("ffmetadata.txt")),
        ];
        let plan = ToolPlan {
            program: rule.command,
            create_dir: None,
            args,
            output_dir: OutputDirRule::Always(PathRef::Workspace),
            artifacts: ArtifactRule::SingleFile("ffmetadata.txt", ws_path("ffmetadata.txt")),
        };
        assert(plan@.args =~= self.spec_plan()->Ok_0.args);
        Ok(plan)
    }
}


/// One of the registered adapters.
#[derive(Clone, Copy, Debug, PartialEq, Eq, Structural)]
pub enum Adapter {
    UefiTool,
    UefiExtract,
    UefiFind,
    Binwalk,
    Ghidra,
    Iasl,
    Flashrom,
    Unsquashfs,
    Mksquashfs,
    SevenZip,
    Ffprobe,
    Ffmpeg,
}

impl ExternalAdapter for Adapter {
    open spec fn spec_name(&self) -> Seq<char> {
        match self {
            Adapter::UefiTool => UefiToolAdapter.spec_name(),
            Adapter::UefiExtract => UefiExtractAdapter.spec_name(),
            Adapter::UefiFind => UefiFindAdapter.spec_name(),
            Adapter::Binwalk => BinwalkAdapter.spec_name(),
            Adapter::Ghidra => GhidraAdapter.spec_name(),
            Adapter::Iasl => IaslAdapter.spec_name(),
            Adapter::Flashrom => FlashromAdapter.spec_name(),
            Adapter::Unsquashfs => UnsquashfsAdapter.spec_name(),
            Adapter::Mksquashfs => MksquashfsAdapter.spec_name(),
            Adapter::SevenZip => SevenZipAdapter.spec_name(),
            Adapter::Ffprobe => FfprobeAdapter.spec_name(),
            Adapter::Ffmpeg => FfmpegAdapter.spec_name(),
        }
    }

    open spec fn spec_plan(&self) -> Result<ToolPlanView, AdapterErrorView> {
        match self {
            Adapter::UefiTool => UefiToolAdapter.spec_plan(),
            Adapter::UefiExtract => UefiExtractAdapter.spec_plan(),
            Adapter::UefiFind => UefiFindAdapter.spec_plan(),
            Adapter::Binwalk => BinwalkAdapter.spec_plan(),
            Adapter::Ghidra => GhidraAdapter.spec_plan(),
            Adapter::Iasl => IaslAdapter.spec_plan(),
            Adapter::Flashrom => FlashromAdapter.spec_plan(),
            Adapter::Unsquashfs => UnsquashfsAdapter.spec_plan(),
            Adapter::Mksquashfs => MksquashfsAdapter.spec_plan(),
            Adapter::SevenZip => SevenZipAdapter.spec_plan(),
            Adapter::Ffprobe => FfprobeAdapter.spec_plan(),
            Adapter::Ffmpeg => FfmpegAdapter.spec_plan(),
        }
    }

    fn name(&self) -> (r: &'static str) {
        match self {
            Adapter::UefiTool => UefiToolAdapter.name(),
            Adapter::UefiExtract => UefiExtractAdapter.name(),
            Adapter::UefiFind => UefiFindAdapter.name(),
            Adapter::Binwalk => BinwalkAdapter.name(),
            Adapter::Ghidra => GhidraAdapter.name(),
            Adapter::Iasl => IaslAdapter.name(),
            Adapter::Flashrom => FlashromAdapter.name(),
            Adapter::Unsquashfs => UnsquashfsAdapter.name(),
            Adapter::Mksquashfs => MksquashfsAdapter.name(),
            Adapter::SevenZip => SevenZipAdapter.name(),
            Adapter::Ffprobe => FfprobeAdapter.name(),
            Adapter::Ffmpeg => FfmpegAdapter.name(),
        }
    }

    fn plan(&self) -> (r: Result<ToolPlan, AdapterError>) {
        match self {
            Adapter::UefiTool => UefiToolAdapter.plan(),
            Adapter::UefiExtract => UefiExtractAdapter.plan(),
            Adapter::UefiFind => UefiFindAdapter.plan(),
            Adapter::Binwalk => BinwalkAdapter.plan(),
            Adapter::Ghidra => GhidraAdapter.plan(),
            Adapter::Iasl => IaslAdapter.plan(),
            Adapter::Flashrom => FlashromAdapter.plan(),
            Adapter::Unsquashfs => UnsquashfsAdapter.plan(),
            Adapter::Mksquashfs => MksquashfsAdapter.plan(),
            Adapter::SevenZip => SevenZipAdapter.plan(),
            Adapter::Ffprobe => FfprobeAdapter.plan(),
            Adapter::Ffmpeg => FfmpegAdapter.plan(),
        }
    }
}

/// The adapter registered under the tool name `tool`, if any.
pub open spec fn spec_adapter_for(tool: Seq<char>) -> Option<Adapter> {
    if tool == "uefitool"@ || tool == "UEFITool"@ {
        Some(Adapter::UefiTool)
    } else if tool == "uefiextract"@ || tool == "UEFIExtract"@ {
        Some(Adapter::UefiExtract)
    } else if tool == "uefifind"@ || tool == "UEFIFind"@ {
        Some(Adapter::UefiFind)
    } else if tool == "binwalk"@ {
        Some(Adapter::Binwalk)
    } else if tool == "ghidra"@ || tool == "analyzeHeadless"@ || tool == "ghidra-analyzeHeadless"@ {
        Some(Adapter::Ghidra)
    } else if tool == "iasl"@ {
        Some(Adapter::Iasl)
    } else if tool == "flashrom"@ {
        Some(Adapter::Flashrom)
    } else if tool == "unsquashfs"@ {
        Some(Adapter::Unsquashfs)
    } else if tool == "mksquashfs"@ {
        Some(Adapter::Mksquashfs)
    } else if tool == "7z"@ || tool == "7za"@ || tool == "7zr"@ {
        Some(Adapter::SevenZip)
    } else if tool == "ffprobe"@ {
        Some(Adapter::Ffprobe)
    } else if tool == "ffmpeg"@ {
        Some(Adapter::Ffmpeg)
    } else {
        None
    }
}

/// The adapter for an external tool, looked up by the tool names that
/// signatures use.
#[verifier::rlimit(50)]
pub fn adapter_for(tool: &str) -> (r: Option<Adapter>)
    ensures
        r == spec_adapter_for(tool@),
{
    proof {
        reveal_strlit("uefitool");
        reveal_strlit("UEFITool");
        reveal_strlit("uefiextract");
        reveal_strlit("UEFIExtract");
        reveal_strlit("uefifind");
        reveal_strlit("UEFIFind");
        reveal_strlit("binwalk");
        reveal_strlit("ghidra");
        reveal_strlit("analyzeHeadless");
        reveal_strlit("ghidra-analyzeHeadless");
        reveal_strlit("iasl");
        reveal_strlit("flashrom");
        reveal_strlit("unsquashfs");
        reveal_strlit("mksquashfs");
        reveal_strlit("7z");
        reveal_strlit("7za");
        reveal_strlit("7zr");
        reveal_strlit("ffprobe");
        reveal_strlit("ffmpeg");
    }
    if str_eq(tool, "uefitool") || str_eq(tool, "UEFITool") {
        Some(Adapter::UefiTool)
    } else if str_eq(tool, "uefiextract") || str_eq(tool, "UEFIExtract") {
        Some(Adapter::UefiExtract)
    } else if str_eq(tool, "uefifind") || str_eq(tool, "UEFIFind") {
        Some(Adapter::UefiFind)
    } else if str_eq(tool, "binwalk") {
        Some(Adapter::Binwalk)
    } else if str_eq(tool, "ghidra") || str_eq(tool, "analyzeHeadless") || str_eq(tool, "ghidra-analyzeHeadless") {
        Some(Adapter::Ghidra)
    } else if str_eq(tool, "iasl") {
        Some(Adapter::Iasl)
    } else if str_eq(tool, "flashrom") {
        Some(Adapter::Flashrom)
    } else if str_eq(tool, "unsquashfs") {
        Some(Adapter::Unsquashfs)
    } else if str_eq(tool, "mksquashfs") {
        Some(Adapter::Mksquashfs)
    } else if str_eq(tool, "7z") || str_eq(tool, "7za") || str_eq(tool, "7zr") {
        Some(Adapter::SevenZip)
    } else if str_eq(tool, "ffprobe") {
        Some(Adapter::Ffprobe)
    } else if str_eq(tool, "ffmpeg") {
        Some(Adapter::Ffmpeg)
    } else {
        None
    }
}

/// Every adapter is found again by `adapter_for` under its own name.
#[verifier::rlimit(50)]
pub proof fn lemma_adapter_name_round_trip(a: Adapter)
    ensures
        spec_adapter_for(a.spec_name()) == Some(a),
{
    reveal_strlit("uefitool");
    assert("uefitool"@.len() == 8);
    reveal_strlit("UEFITool");
    assert("UEFITool"@.len() == 8);
    reveal_strlit("uefiextract");
    assert("uefiextract"@.len() == 11);
    reveal_strlit("UEFIExtract");
    assert("UEFIExtract"@.len() == 11);
    reveal_strlit("uefifind");
    assert("uefifind"@.len() == 8);
    reveal_strlit("UEFIFind");
    assert("UEFIFind"@.len() == 8);
    reveal_strlit("binwalk");
    assert("binwalk"@.len() == 7);
    reveal_strlit("ghidra");
    assert("ghidra"@.len() == 6);
    reveal_strlit("analyzeHeadless");
    assert("analyzeHeadless"@.len() == 15);
    reveal_strlit("ghidra-analyzeHeadless");
    assert("ghidra-analyzeHeadless"@.len() == 22);
    reveal_strlit("iasl");
    assert("iasl"@.len() == 4);
    reveal_strlit("flashrom");
    assert("flashrom"@.len() == 8);
    reveal_strlit("unsquashfs");
    assert("unsquashfs"@.len() == 10);
    reveal_strlit("mksquashfs");
    assert("mksquashfs"@.len() == 10);
    reveal_strlit("7z");
    assert("7z"@.len() == 2);
    reveal_strlit("7za");
    assert("7za"@.len() == 3);
    reveal_strlit("7zr");
    assert("7zr"@.len() == 3);
    reveal_strlit("ffprobe");
    assert("ffprobe"@.len() == 7);
    reveal_strlit("ffmpeg");
    assert("ffmpeg"@.len() == 6);
    assert("uefitool"@[0] != "UEFITool"@[0]);
    assert("uefitool"@[4] != "uefifind"@[4]);
    assert("uefitool"@[0] != "UEFIFind"@[0]);
    assert("uefitool"@[0] != "flashrom"@[0]);
    assert("UEFITool"@[0] != "uefifind"@[0]);
    assert("UEFITool"@[4] != "UEFIFind"@[4]);
    assert("UEFITool"@[0] != "flashrom"@[0]);
    assert("uefiextract"@[0] != "UEFIExtract"@[0]);
    assert("uefifind"@[0] != "UEFIFind"@[0]);
    assert("uefifind"@[0] != "flashrom"@[0]);
    assert("UEFIFind"@[0] != "flashrom"@[0]);
    assert("binwalk"@[0] != "ffprobe"@[0]);
    assert("ghidra"@[0] != "ffmpeg"@[0]);
    assert("unsquashfs"@[0] != "mksquashfs"@[0]);
    assert("7za"@[2] != "7zr"@[2]);
}

/// `adapter_for` and `tool_rule` accept the same names: there is an adapter
/// for a tool name exactly when a registered tool rule answers to it.
pub proof fn lemma_adapter_iff_rule(name: Seq<char>)
    ensures
        spec_adapter_for(name) is Some <==> first_rule_for(spec_all_tool_rules(), name) is Some,
{
    lemma_lookup_finds_registered(name);
}

/// An adapter that runs a tool runs the command of the tool rule registered
/// under the adapter's name, and that rule is neither a flasher nor a GUI
/// program: such tools are always refused.
#[verifier::rlimit(50)]
pub proof fn lemma_adapter_runs_its_rule(a: Adapter)
    ensures
        first_rule_for(spec_all_tool_rules(), a.spec_name()) is Some,
        a.spec_plan() is Ok ==> {
            let r = first_rule_for(spec_all_tool_rules(), a.spec_name())->Some_0;
            &&& a.spec_plan()->Ok_0.program == r.command
            &&& r.kind != ToolKind::Flasher
            &&& r.kind != ToolKind::Gui
        },
{
    let all = spec_all_tool_rules();
    match a {
        Adapter::Binwalk => lemma_lookup_by_id(0),
        Adapter::UefiExtract => lemma_lookup_by_id(1),
        Adapter::UefiFind => lemma_lookup_by_id(2),
        Adapter::Ghidra => {
            reveal_strlit("ghidra");
            assert("ghidra"@.len() == 6);
            assert(all[3].aliases[0] == "ghidra"@);
            assert forall|j: int| 0 <= j < 3 implies !rule_answers_to(#[trigger] all[j], "ghidra"@) by {
                reveal_strlit("binwalk");
                reveal_strlit("uefiextract");
                reveal_strlit("UEFIExtract");
                reveal_strlit("uefifind");
                reveal_strlit("UEFIFind");
                assert("binwalk"@.len() == 7);
                assert("uefiextract"@.len() == 11);
                assert("UEFIExtract"@.len() == 11);
                assert("uefifind"@.len() == 8);
                assert("UEFIFind"@.len() == 8);
                assert(all[0] == spec_binwalk_rule());
                assert(all[1] == spec_uefiextract_rule());
                assert(all[2] == spec_uefifind_rule());
            }
            lemma_first_rule_prefix(all, "ghidra"@, 3);
        },
        Adapter::Iasl => lemma_lookup_by_id(4),
        Adapter::Flashrom => lemma_lookup_by_id(5),
        Adapter::Unsquashfs => lemma_lookup_by_id(6),
        Adapter::Mksquashfs => lemma_lookup_by_id(7),
        Adapter::SevenZip => lemma_lookup_by_id(8),
        Adapter::Ffprobe => lemma_lookup_by_id(9),
        Adapter::Ffmpeg => lemma_lookup_by_id(10),
        Adapter::UefiTool => lemma_lookup_by_id(11),
    }
}

/// The place in the tool rule table of the rule that an adapter's name looks up.
pub open spec fn adapter_rule_index(a: Adapter) -> int {
    match a {
        Adapter::Binwalk => 0,
        Adapter::UefiExtract => 1,
        Adapter::UefiFind => 2,
        Adapter::Ghidra => 3,
        Adapter::Iasl => 4,
        Adapter::Flashrom => 5,
        Adapter::Unsquashfs => 6,
        Adapter::Mksquashfs => 7,
        Adapter::SevenZip => 8,
        Adapter::Ffprobe => 9,
        Adapter::Ffmpeg => 10,
        Adapter::UefiTool => 11,
    }
}

/// Looking up an adapter's name finds the rule at [`adapter_rule_index`].
proof fn lemma_adapter_rule(a: Adapter)
    ensures
        0 <= adapter_rule_index(a) < spec_all_tool_rules().len(),
        first_rule_for(spec_all_tool_rules(), a.spec_name()) == Some(spec_all_tool_rules()[adapter_rule_index(a)]),
{
    let all = spec_all_tool_rules();
    match a {
        Adapter::Binwalk => {
            assert(all[0].aliases[0] == a.spec_name());
            lemma_lookup_any_name(0, a.spec_name());
        },
        Adapter::UefiExtract => {
            assert(all[1].aliases[1] == a.spec_name());
            lemma_lookup_any_name(1, a.spec_name());
        },
        Adapter::UefiFind => {
            assert(all[2].aliases[1] == a.spec_name());
            lemma_lookup_any_name(2, a.spec_name());
        },
        Adapter::Ghidra => {
            assert(all[3].aliases[0] == a.spec_name());
            lemma_lookup_any_name(3, a.spec_name());
        },
        Adapter::Iasl => {
            assert(all[4].aliases[0] == a.spec_name());
            lemma_lookup_any_name(4, a.spec_name());
        },
        Adapter::Flashrom => {
            assert(all[5].aliases[0] == a.spec_name());
            lemma_lookup_any_name(5, a.spec_name());
        },
        Adapter::Unsquashfs => {
            assert(all[6].aliases[0] == a.spec_name());
            lemma_lookup_any_name(6, a.spec_name());
        },
        Adapter::Mksquashfs => {
            assert(all[7].aliases[0] == a.spec_name());
            lemma_lookup_any_name(7, a.spec_name());
        },
        Adapter::SevenZip => {
            assert(all[8].aliases[0] == a.spec_name());
            lemma_lookup_any_name(8, a.spec_name());
        },
        Adapter::Ffprobe => {
            assert(all[9].aliases[0] == a.spec_name());
            lemma_lookup_any_name(9, a.spec_name());
        },
        Adapter::Ffmpeg => {
            assert(all[10].aliases[0] == a.spec_name());
            lemma_lookup_any_name(10, a.spec_name());
        },
        Adapter::UefiTool => {
            assert(all[11].aliases[1] == a.spec_name());
            lemma_lookup_any_name(11, a.spec_name());
        },
    }
}

/// An adapter that extracts (its tool rule is an extractor) collects its
/// artifacts from the very directory it names as the tool's output.
pub proof fn lemma_extractors_collect_output(a: Adapter)
    ensures
        (a.spec_plan() is Ok && (first_rule_for(spec_all_tool_rules(), a.spec_name()) matches Some(r)
            && r.kind == ToolKind::Extractor)) ==> {
            let p = a.spec_plan()->Ok_0;
            ||| (p.output_dir matches OutputDirView::Always(d) && p.artifacts == ArtifactView::CollectDirectory(d))
            ||| (p.output_dir matches OutputDirView::WhenExists(d) && p.artifacts == ArtifactView::CollectDirectory(d))
        },
{
    lemma_adapter_rule(a);
}

/// Every plan that runs a tool hands it the input file, and an extractor
/// that always writes to a directory is told that directory among its
/// arguments.
pub proof fn lemma_plans_pass_input_and_output(a: Adapter)
    ensures
        a.spec_plan() matches Ok(p) ==> p.args.contains(PlanArgView::Path(PathRefView::Input)),
        (a.spec_plan() is Ok && (first_rule_for(spec_all_tool_rules(), a.spec_name()) matches Some(r)
            && r.kind == ToolKind::Extractor)) ==> (a.spec_plan()->Ok_0.output_dir matches OutputDirView::Always(d)
            ==> (a.spec_plan()->Ok_0.args.contains(PlanArgView::Path(d)) || exists|k: int|
            0 <= k < a.spec_plan()->Ok_0.args.len() && (#[trigger] a.spec_plan()->Ok_0.args[k] matches PlanArgView::TextWithPath(_, e) && e == d))),
{
    lemma_adapter_rule(a);
    if a.spec_plan() is Ok {
        let p = a.spec_plan()->Ok_0;
        let last = p.args.len() - 1;
        match a {
            Adapter::UefiExtract => assert(p.args[0] == PlanArgView::Path(PathRefView::Input)),
            Adapter::Binwalk => {
                assert(p.args[last] == PlanArgView::Path(PathRefView::Input));
                assert(p.args[4] == PlanArgView::Path(in_ws(seq!["binwalk"@])));
            },
            Adapter::Unsquashfs => {
                assert(p.args[last] == PlanArgView::Path(PathRefView::Input));
                assert(p.args[1] == PlanArgView::Path(in_ws(seq!["unsquashfs"@])));
            },
            Adapter::SevenZip => {
                assert(p.args[last] == PlanArgView::Path(PathRefView::Input));
                assert(p.args[4] == PlanArgView::TextWithPath("-o"@, in_ws(seq!["7z"@])));
            },
            Adapter::Ghidra => assert(p.args[3] == PlanArgView::Path(PathRefView::Input)),
            Adapter::Iasl => assert(p.args[4] == PlanArgView::Path(PathRefView::Input)),
            Adapter::Ffprobe => assert(p.args[7] == PlanArgView::Path(PathRefView::Input)),
            Adapter::Ffmpeg => assert(p.args[5] == PlanArgView::Path(PathRefView::Input)),
            _ => {},
        }
    }
}

/// The adapter that `adapter_for` finds for a name belongs to the same tool
/// rule as the name: looking up the name and looking up the adapter's own
/// name find the same rule.
#[verifier::rlimit(100)]
pub proof fn lemma_adapter_for_matches_rule(n: Seq<char>)
    ensures
        spec_adapter_for(n) matches Some(a) ==> first_rule_for(spec_all_tool_rules(), n)
            == first_rule_for(spec_all_tool_rules(), a.spec_name()),
{
    let all = spec_all_tool_rules();
    if spec_adapter_for(n) is Some {
        let a = spec_adapter_for(n)->Some_0;
        lemma_adapter_rule(a);
        reveal_strlit("uefitool");
        assert("uefitool"@.len() == 8);
        reveal_strlit("UEFITool");
        assert("UEFITool"@.len() == 8);
        reveal_strlit("uefiextract");
        assert("uefiextract"@.len() == 11);
        reveal_strlit("UEFIExtract");
        assert("UEFIExtract"@.len() == 11);
        reveal_strlit("uefifind");
        assert("uefifind"@.len() == 8);
        reveal_strlit("UEFIFind");
        assert("UEFIFind"@.len() == 8);
        reveal_strlit("binwalk");
        assert("binwalk"@.len() == 7);
        reveal_strlit("ghidra");
        assert("ghidra"@.len() == 6);
        reveal_strlit("analyzeHeadless");
        assert("analyzeHeadless"@.len() == 15);
        reveal_strlit("ghidra-analyzeHeadless");
        assert("ghidra-analyzeHeadless"@.len() == 22);
        reveal_strlit("iasl");
        assert("iasl"@.len() == 4);
        reveal_strlit("flashrom");
        assert("flashrom"@.len() == 8);
        reveal_strlit("unsquashfs");
        assert("unsquashfs"@.len() == 10);
        reveal_strlit("mksquashfs");
        assert("mksquashfs"@.len() == 10);
        reveal_strlit("7z");
        assert("7z"@.len() == 2);
        reveal_strlit("7za");
        assert("7za"@.len() == 3);
        reveal_strlit("7zr");
        assert("7zr"@.len() == 3);
        reveal_strlit("ffprobe");
        assert("ffprobe"@.len() == 7);
        reveal_strlit("ffmpeg");
        assert("ffmpeg"@.len() == 6);
        assert("uefitool"@[0] != "UEFITool"@[0]);
        assert("uefitool"@[4] != "uefifind"@[4]);
        assert("uefitool"@[0] != "UEFIFind"@[0]);
        assert("uefitool"@[0] != "flashrom"@[0]);
        assert("UEFITool"@[0] != "uefifind"@[0]);
        assert("UEFITool"@[4] != "UEFIFind"@[4]);
        assert("UEFITool"@[0] != "flashrom"@[0]);
        assert("uefiextract"@[0] != "UEFIExtract"@[0]);
        assert("uefifind"@[0] != "UEFIFind"@[0]);
        assert("uefifind"@[0] != "flashrom"@[0]);
        assert("UEFIFind"@[0] != "flashrom"@[0]);
        assert("binwalk"@[0] != "ffprobe"@[0]);
        assert("ghidra"@[0] != "ffmpeg"@[0]);
        assert("unsquashfs"@[0] != "mksquashfs"@[0]);
        assert("7za"@[2] != "7zr"@[2]);
        if n == "binwalk"@ {
            assert(all[0].aliases[0] == n);
            lemma_lookup_any_name(0, n);
        } else if n == "UEFIExtract"@ {
            assert(all[1].aliases[0] == n);
            lemma_lookup_any_name(1, n);
        } else if n == "uefiextract"@ {
            assert(all[1].aliases[1] == n);
            lemma_lookup_any_name(1, n);
        } else if n == "UEFIFind"@ {
            assert(all[2].aliases[0] == n);
            lemma_lookup_any_name(2, n);
        } else if n == "uefifind"@ {
            assert(all[2].aliases[1] == n);
            lemma_lookup_any_name(2, n);
        } else if n == "ghidra"@ {
            assert(all[3].aliases[0] == n);
            lemma_lookup_any_name(3, n);
        } else if n == "analyzeHeadless"@ {
            assert(all[3].aliases[1] == n);
            lemma_lookup_any_name(3, n);
        } else if n == "ghidra-analyzeHeadless"@ {
            assert(all[3].aliases[2] == n);
            lemma_lookup_any_name(3, n);
        } else if n == "iasl"@ {
            assert(all[4].aliases[0] == n);
            lemma_lookup_any_name(4, n);
        } else if n == "flashrom"@ {
            assert(all[5].aliases[0] == n);
            lemma_lookup_any_name(5, n);
        } else if n == "unsquashfs"@ {
            assert(all[6].aliases[0] == n);
            lemma_lookup_any_name(6, n);
        } else if n == "mksquashfs"@ {
            assert(all[7].aliases[0] == n);
            lemma_lookup_any_name(7, n);
        } else if n == "7z"@ {
            assert(all[8].aliases[0] == n);
            lemma_lookup_any_name(8, n);
        } else if n == "7za"@ {
            assert(all[8].aliases[1] == n);
            lemma_lookup_any_name(8, n);
        } else if n == "7zr"@ {
            assert(all[8].aliases[2] == n);
            lemma_lookup_any_name(8, n);
        } else if n == "ffprobe"@ {
            assert(all[9].aliases[0] == n);
            lemma_lookup_any_name(9, n);
        } else if n == "ffmpeg"@ {
            assert(all[10].aliases[0] == n);
            lemma_lookup_any_name(10, n);
        } else if n == "UEFITool"@ {
            assert(all[11].aliases[0] == n);
            lemma_lookup_any_name(11, n);
        } else if n == "uefitool"@ {
            assert(all[11].aliases[1] == n);
            lemma_lookup_any_name(11, n);
        }
    }
}

/// The outcome of a finished process: success is a zero exit status; any
/// other status, or none (the process was ended by a signal), is a failure
/// that names the program and carries its standard error.
pub fn command_status(program: &str, status_code: Option<i32>, stderr: String) -> (r: Result<(), AdapterError>)
    ensures
        status_code == Some(0i32) ==> (r is Ok),
        status_code != Some(0i32) ==> (r matches Err(e) && e@ == (AdapterErrorView::ToolFailed {
            command: program@,
            status_code: status_code,
            stderr: stderr@,
        })),
{
    match status_code {
        Some(0) => Ok(()),
        _ => Err(AdapterError::ToolFailed { command: owned(program), status_code, stderr }),
    }
}

/// The error for a process that could not be started: a missing program is
/// `ToolNotFound`, any other failure is `Io` with the failure's text.
pub fn spawn_failure(program: &str, not_found: bool, message: String) -> (r: AdapterError)
    ensures
        not_found ==> r@ == AdapterErrorView::ToolNotFound(program@),
        !not_found ==> r@ == AdapterErrorView::Io(message@),
{
    if not_found {
        AdapterError::ToolNotFound(owned(program))
    } else {
        AdapterError::Io(message)
    }
}

/// A command line as it is shown: the program, then each argument after a space.
pub open spec fn command_line(program: Seq<char>, args: Seq<Seq<char>>) -> Seq<char>
    decreases args.len(),
{
    if args.len() == 0 {
        program
    } else {
        command_line(program, args.drop_last()) + " "@ + args.last()
    }
}

/// Executable form of [`command_line`], given the shown form of each argument.
pub fn render_command(program: &str, args: &Vec<String>) -> (r: String)
    ensures
        r@ == command_line(program@, texts(args@)),
{
    let mut s = owned(program);
    let mut i: usize = 0;
    proof { reveal_strlit(" "); }
    assert(texts(args@).subrange(0, 0).len() == 0);
    while i < args.len()
        invariant
            i <= args.len(),
            s@ == command_line(program@, texts(args@).subrange(0, i as int)),
        decreases args.len() - i,
    {
        push_str(&mut s, " ");
        push_str(&mut s, args[i].as_str());
        assert(texts(args@).subrange(0, i + 1).drop_last() =~= texts(args@).subrange(0, i as int));
        i = i + 1;
    }
    assert(texts(args@).subrange(0, args.len() as int) =~= texts(args@));
    s
}

} // verus!
