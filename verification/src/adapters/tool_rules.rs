//! The fixed knowledge about each external command-line tool: how it is
//! invoked, which package ships it and how its result is judged.
use vstd::prelude::*;
use crate::text::{str_eq, list_contains, str_texts};

verus! {

/// What a tool does with its input.
#[derive(Clone, Copy, Debug, PartialEq, Eq, Structural)]
pub enum ToolKind {
    Extractor,
    Analyzer,
    Converter,
    Flasher,
    Gui,
}

/// What a tool produces.
#[derive(Clone, Copy, Debug, PartialEq, Eq, Structural)]
pub enum OutputFormat {
    Directory,
    Json,
    Text,
    Binary,
    ToolProject,
    NoOutput,
}

/// The rule for one external tool.
#[derive(Debug, Clone)]
pub struct ToolRule {
    pub id: &'static str,
    pub command: &'static str,
    pub aliases: Vec<&'static str>,
    pub kind: ToolKind,
    pub arch_package: &'static str,
    pub install_hint: &'static str,
    pub input_rule: &'static str,
    pub output_rule: &'static str,
    pub extract_all_args: Vec<&'static str>,
    pub quiet_or_headless_args: Vec<&'static str>,
    pub success_rule: &'static str,
    pub output_format: OutputFormat,
    pub notes: &'static str,
}

/// The content of a [`ToolRule`], each text as its characters.
pub struct ToolRuleView {
    pub id: Seq<char>,
    pub command: Seq<char>,
    pub aliases: Seq<Seq<char>>,
    pub kind: ToolKind,
    pub arch_package: Seq<char>,
    pub install_hint: Seq<char>,
    pub input_rule: Seq<char>,
    pub output_rule: Seq<char>,
    pub extract_all_args: Seq<Seq<char>>,
    pub quiet_or_headless_args: Seq<Seq<char>>,
    pub success_rule: Seq<char>,
    pub output_format: OutputFormat,
    pub notes: Seq<char>,
}

impl View for ToolRule {
    type V = ToolRuleView;

    open spec fn view(&self) -> ToolRuleView {
        ToolRuleView {
            id: self.id@,
            command: self.command@,
            aliases: str_texts(self.aliases@),
            kind: self.kind,
            arch_package: self.arch_package@,
            install_hint: self.install_hint@,
            input_rule: self.input_rule@,
            output_rule: self.output_rule@,
            extract_all_args: str_texts(self.extract_all_args@),
            quiet_or_headless_args: str_texts(self.quiet_or_headless_args@),
            success_rule: self.success_rule@,
            output_format: self.output_format,
            notes: self.notes@,
        }
    }
}

/// The rule for `binwalk`.
pub open spec fn spec_binwalk_rule() -> ToolRuleView {
    ToolRuleView {
        id: "binwalk"@,
        command: "binwalk"@,
        aliases: seq!["binwalk"@],
        kind: ToolKind::Extractor,
        arch_package: "binwalk"@,
        install_hint: "pacman -S binwalk"@,
        input_rule: "Input file is the final positional FILE_NAME argument."@,
        output_rule: "Use --directory <DIRECTORY>; extraction defaults to a directory named extractions."@,
        extract_all_args: seq!["--extract"@, "--matryoshka"@],
        quiet_or_headless_args: seq!["--quiet"@],
        success_rule: "Exit status 0 means the command completed; non-zero is an adapter error."@,
        output_format: OutputFormat::Directory,
        notes: "Use --log <LOG> when JSON scan results are needed."@,
    }
}

/// The rule for `binwalk`.
pub fn binwalk_rule() -> (r: ToolRule)
    ensures
        r@ == spec_binwalk_rule(),
{
    let r = ToolRule {
        id: "binwalk",
        command: "binwalk",
        aliases: vec!["binwalk"],
        kind: ToolKind::Extractor,
        arch_package: "binwalk",
        install_hint: "pacman -S binwalk",
        input_rule: "Input file is the final positional FILE_NAME argument.",
        output_rule: "Use --directory <DIRECTORY>; extraction defaults to a directory named extractions.",
        extract_all_args: vec!["--extract", "--matryoshka"],
        quiet_or_headless_args: vec!["--quiet"],
        success_rule: "Exit status 0 means the command completed; non-zero is an adapter error.",
        output_format: OutputFormat::Directory,
        notes: "Use --log <LOG> when JSON scan results are needed.",
    };
    assert(str_texts(r.aliases@) =~= seq!["binwalk"@]);
    assert(str_texts(r.extract_all_args@) =~= seq!["--extract"@, "--matryoshka"@]);
    assert(str_texts(r.quiet_or_headless_args@) =~= seq!["--quiet"@]);
    r
}

/// The rule for `uefiextract`.
pub open spec fn spec_uefiextract_rule() -> ToolRuleView {
    ToolRuleView {
        id: "uefiextract"@,
        command: "uefiextract"@,
        aliases: seq!["UEFIExtract"@, "uefiextract"@],
        kind: ToolKind::Extractor,
        arch_package: "uefitool-bin"@,
        install_hint: "install uefitool-bin (AUR on many Arch setups)"@,
        input_rule: "Input file is the first positional imagefile argument."@,
        output_rule: "Creates an imagefile-derived .dump directory next to the input file."@,
        extract_all_args: seq!["all"@],
        quiet_or_headless_args: seq![],
        success_rule: "Exit status 0 means success for general extraction. GUID mode uses a bit mask."@,
        output_format: OutputFormat::Directory,
        notes: "Mode all dumps all tree items. Mode unpack is legacy compatibility. Mode dump skips report and GUID database."@,
    }
}

/// The rule for `uefiextract`.
pub fn uefiextract_rule() -> (r: ToolRule)
    ensures
        r@ == spec_uefiextract_rule(),
{
    let r = ToolRule {
        id: "uefiextract",
        command: "uefiextract",
        aliases: vec!["UEFIExtract", "uefiextract"],
        kind: ToolKind::Extractor,
        arch_package: "uefitool-bin",
        install_hint: "install uefitool-bin (AUR on many Arch setups)",
        input_rule: "Input file is the first positional imagefile argument.",
        output_rule: "Creates an imagefile-derived .dump directory next to the input file.",
        extract_all_args: vec!["all"],
        quiet_or_headless_args: vec![],
        success_rule: "Exit status 0 means success for general extraction. GUID mode uses a bit mask.",
        output_format: OutputFormat::Directory,
        notes: "Mode all dumps all tree items. Mode unpack is legacy compatibility. Mode dump skips report and GUID database.",
    };
    assert(str_texts(r.aliases@) =~= seq!["UEFIExtract"@, "uefiextract"@]);
    assert(str_texts(r.extract_all_args@) =~= seq!["all"@]);
    assert(str_texts(r.quiet_or_headless_args@) =~= seq![]);
    r
}

/// The rule for `uefifind`.
pub open spec fn spec_uefifind_rule() -> ToolRuleView {
    ToolRuleView {
        id: "uefifind"@,
        command: "uefifind"@,
        aliases: seq!["UEFIFind"@, "uefifind"@],
        kind: ToolKind::Analyzer,
        arch_package: "uefitool-bin"@,
        install_hint: "install uefitool-bin (AUR on many Arch setups)"@,
        input_rule: "Input file is the first positional imagefile argument."@,
        output_rule: "Writes matches to stdout; no output directory is produced."@,
        extract_all_args: seq![],
        quiet_or_headless_args: seq![],
        success_rule: "Exit status 0 means the search command completed."@,
        output_format: OutputFormat::Text,
        notes: "Search forms: imagefile {header|body|all} {list|count} pattern, or imagefile file patternsfile."@,
    }
}

/// The rule for `uefifind`.
pub fn uefifind_rule() -> (r: ToolRule)
    ensures
        r@ == spec_uefifind_rule(),
{
    let r = ToolRule {
        id: "uefifind",
        command: "uefifind",
        aliases: vec!["UEFIFind", "uefifind"],
        kind: ToolKind::Analyzer,
        arch_package: "uefitool-bin",
        install_hint: "install uefitool-bin (AUR on many Arch setups)",
        input_rule: "Input file is the first positional imagefile argument.",
        output_rule: "Writes matches to stdout; no output directory is produced.",
        extract_all_args: vec![],
        quiet_or_headless_args: vec![],
        success_rule: "Exit status 0 means the search command completed.",
        output_format: OutputFormat::Text,
        notes: "Search forms: imagefile {header|body|all} {list|count} pattern, or imagefile file patternsfile.",
    };
    assert(str_texts(r.aliases@) =~= seq!["UEFIFind"@, "uefifind"@]);
    assert(str_texts(r.extract_all_args@) =~= seq![]);
    assert(str_texts(r.quiet_or_headless_args@) =~= seq![]);
    r
}

/// The rule for `ghidra-analyzeHeadless`.
pub open spec fn spec_ghidra_analyze_headless_rule() -> ToolRuleView {
    ToolRuleView {
        id: "ghidra-analyzeHeadless"@,
        command: "ghidra-analyzeHeadless"@,
        aliases: seq!["ghidra"@, "analyzeHeadless"@, "ghidra-analyzeHeadless"@],
        kind: ToolKind::Analyzer,
        arch_package: "ghidra"@,
        install_hint: "pacman -S ghidra"@,
        input_rule: "Use -import <file-or-directory> after project_location and project_name."@,
        output_rule: "Creates or updates a Ghidra project at project_location/project_name unless -deleteProject is used."@,
        extract_all_args: seq![],
        quiet_or_headless_args: seq!["-deleteProject"@],
        success_rule: "Exit status 0 means headless import/analysis completed; logs may contain analysis warnings."@,
        output_format: OutputFormat::ToolProject,
        notes: "Use -noanalysis to import only, -recursive for directory imports, -scriptlog and -log for logs."@,
    }
}

/// The rule for `ghidra-analyzeHeadless`.
pub fn ghidra_analyze_headless_rule() -> (r: ToolRule)
    ensures
        r@ == spec_ghidra_analyze_headless_rule(),
{
    let r = ToolRule {
        id: "ghidra-analyzeHeadless",
        command: "ghidra-analyzeHeadless",
        aliases: vec!["ghidra", "analyzeHeadless", "ghidra-analyzeHeadless"],
        kind: ToolKind::Analyzer,
        arch_package: "ghidra",
        install_hint: "pacman -S ghidra",
        input_rule: "Use -import <file-or-directory> after project_location and project_name.",
        output_rule: "Creates or updates a Ghidra project at project_location/project_name unless -deleteProject is used.",
        extract_all_args: vec![],
        quiet_or_headless_args: vec!["-deleteProject"],
        success_rule: "Exit status 0 means headless import/analysis completed; logs may contain analysis warnings.",
        output_format: OutputFormat::ToolProject,
        notes: "Use -noanalysis to import only, -recursive for directory imports, -scriptlog and -log for logs.",
    };
    assert(str_texts(r.aliases@) =~= seq!["ghidra"@, "analyzeHeadless"@, "ghidra-analyzeHeadless"@]);
    assert(str_texts(r.extract_all_args@) =~= seq![]);
    assert(str_texts(r.quiet_or_headless_args@) =~= seq!["-deleteProject"@]);
    r
}

/// The rule for `iasl`.
pub open spec fn spec_iasl_rule() -> ToolRuleView {
    ToolRuleView {
        id: "iasl"@,
        command: "iasl"@,
        aliases: seq!["iasl"@],
        kind: ToolKind::Converter,
        arch_package: "acpica"@,
        install_hint: "pacman -S acpica"@,
        input_rule: "Input AML/ASL files are positional file arguments."@,
        output_rule: "Use -p <prefix> to control output path and filename prefix."@,
        extract_all_args: seq![],
        quiet_or_headless_args: seq!["-vs"@],
        success_rule: "Exit status 0 means compile/disassemble completed without fatal errors."@,
        output_format: OutputFormat::Text,
        notes: "Use ACPI disassembly options from iasl help when AML table decoding is wired."@,
    }
}

/// The rule for `iasl`.
pub fn iasl_rule() -> (r: ToolRule)
    ensures
        r@ == spec_iasl_rule(),
{
    let r = ToolRule {
        id: "iasl",
        command: "iasl",
        aliases: vec!["iasl"],
        kind: ToolKind::Converter,
        arch_package: "acpica",
        install_hint: "pacman -S acpica",
        input_rule: "Input AML/ASL files are positional file arguments.",
        output_rule: "Use -p <prefix> to control output path and filename prefix.",
        extract_all_args: vec![],
        quiet_or_headless_args: vec!["-vs"],
        success_rule: "Exit status 0 means compile/disassemble completed without fatal errors.",
        output_format: OutputFormat::Text,
        notes: "Use ACPI disassembly options from iasl help when AML table decoding is wired.",
    };
    assert(str_texts(r.aliases@) =~= seq!["iasl"@]);
    assert(str_texts(r.extract_all_args@) =~= seq![]);
    assert(str_texts(r.quiet_or_headless_args@) =~= seq!["-vs"@]);
    r
}

/// The rule for `flashrom`.
pub open spec fn spec_flashrom_rule() -> ToolRuleView {
    ToolRuleView {
        id: "flashrom"@,
        command: "flashrom"@,
        aliases: seq!["flashrom"@],
        kind: ToolKind::Flasher,
        arch_package: "flashrom"@,
        install_hint: "pacman -S flashrom"@,
        input_rule: "For read operations, input is the selected programmer/chip. For verification/write, input is the file argument."@,
        output_rule: "Use -r <file> to read flash to a file; use -o <logfile> for logs."@,
        extract_all_args: seq!["-r"@],
        quiet_or_headless_args: seq![],
        success_rule: "Exit status 0 means the requested flash operation completed. Non-zero must be treated as high-risk failure."@,
        output_format: OutputFormat::Binary,
        notes: "Write, erase, and force operations are destructive and must not be run by automatic analysis adapters."@,
    }
}

/// The rule for `flashrom`.
pub fn flashrom_rule() -> (r: ToolRule)
    ensures
        r@ == spec_flashrom_rule(),
{
    let r = ToolRule {
        id: "flashrom",
        command: "flashrom",
        aliases: vec!["flashrom"],
        kind: ToolKind::Flasher,
        arch_package: "flashrom",
        install_hint: "pacman -S flashrom",
        input_rule: "For read operations, input is the selected programmer/chip. For verification/write, input is the file argument.",
        output_rule: "Use -r <file> to read flash to a file; use -o <logfile> for logs.",
        extract_all_args: vec!["-r"],
        quiet_or_headless_args: vec![],
        success_rule: "Exit status 0 means the requested flash operation completed. Non-zero must be treated as high-risk failure.",
        output_format: OutputFormat::Binary,
        notes: "Write, erase, and force operations are destructive and must not be run by automatic analysis adapters.",
    };
    assert(str_texts(r.aliases@) =~= seq!["flashrom"@]);
    assert(str_texts(r.extract_all_args@) =~= seq!["-r"@]);
    assert(str_texts(r.quiet_or_headless_args@) =~= seq![]);
    r
}

/// The rule for `unsquashfs`.
pub open spec fn spec_unsquashfs_rule() -> ToolRuleView {
    ToolRuleView {
        id: "unsquashfs"@,
        command: "unsquashfs"@,
        aliases: seq!["unsquashfs"@],
        kind: ToolKind::Extractor,
        arch_package: "squashfs-tools"@,
        install_hint: "pacman -S squashfs-tools"@,
        input_rule: "Input filesystem image is the positional FILESYSTEM argument."@,
        output_rule: "Use -d <directory> for extraction output when the adapter is expanded."@,
        extract_all_args: seq![],
        quiet_or_headless_args: seq![],
        success_rule: "Exit status 0 means extraction/listing completed."@,
        output_format: OutputFormat::Directory,
        notes: "The short help points to -help-section extraction/information/exit for detailed rules."@,
    }
}

/// The rule for `unsquashfs`.
pub fn unsquashfs_rule() -> (r: ToolRule)
    ensures
        r@ == spec_unsquashfs_rule(),
{
    let r = ToolRule {
        id: "unsquashfs",
        command: "unsquashfs",
        aliases: vec!["unsquashfs"],
        kind: ToolKind::Extractor,
        arch_package: "squashfs-tools",
        install_hint: "pacman -S squashfs-tools",
        input_rule: "Input filesystem image is the positional FILESYSTEM argument.",
        output_rule: "Use -d <directory> for extraction output when the adapter is expanded.",
        extract_all_args: vec![],
        quiet_or_headless_args: vec![],
        success_rule: "Exit status 0 means extraction/listing completed.",
        output_format: OutputFormat::Directory,
        notes: "The short help points to -help-section extraction/information/exit for detailed rules.",
    };
    assert(str_texts(r.aliases@) =~= seq!["unsquashfs"@]);
    assert(str_texts(r.extract_all_args@) =~= seq![]);
    assert(str_texts(r.quiet_or_headless_args@) =~= seq![]);
    r
}

/// The rule for `mksquashfs`.
pub open spec fn spec_mksquashfs_rule() -> ToolRuleView {
    ToolRuleView {
        id: "mksquashfs"@,
        command: "mksquashfs"@,
        aliases: seq!["mksquashfs"@],
        kind: ToolKind::Converter,
        arch_package: "squashfs-tools"@,
        install_hint: "pacman -S squashfs-tools"@,
        input_rule: "Input sources are one or more positional source paths before the output filesystem path."@,
        output_rule: "Output filesystem is the positional FILESYSTEM argument after sources."@,
        extract_all_args: seq![],
        quiet_or_headless_args: seq![],
        success_rule: "Exit status 0 means filesystem creation completed."@,
        output_format: OutputFormat::Binary,
        notes: "Mostly a packer, not an extractor. Use only when Drill adds repacking support."@,
    }
}

/// The rule for `mksquashfs`.
pub fn mksquashfs_rule() -> (r: ToolRule)
    ensures
        r@ == spec_mksquashfs_rule(),
{
    let r = ToolRule {
        id: "mksquashfs",
        command: "mksquashfs",
        aliases: vec!["mksquashfs"],
        kind: ToolKind::Converter,
        arch_package: "squashfs-tools",
        install_hint: "pacman -S squashfs-tools",
        input_rule: "Input sources are one or more positional source paths before the output filesystem path.",
        output_rule: "Output filesystem is the positional FILESYSTEM argument after sources.",
        extract_all_args: vec![],
        quiet_or_headless_args: vec![],
        success_rule: "Exit status 0 means filesystem creation completed.",
        output_format: OutputFormat::Binary,
        notes: "Mostly a packer, not an extractor. Use only when Drill adds repacking support.",
    };
    assert(str_texts(r.aliases@) =~= seq!["mksquashfs"@]);
    assert(str_texts(r.extract_all_args@) =~= seq![]);
    assert(str_texts(r.quiet_or_headless_args@) =~= seq![]);
    r
}

/// The rule for `7z`.
pub open spec fn spec_seven_zip_rule() -> ToolRuleView {
    ToolRuleView {
        id: "7z"@,
        command: "7z"@,
        aliases: seq!["7z"@, "7za"@, "7zr"@],
        kind: ToolKind::Extractor,
        arch_package: "7zip"@,
        install_hint: "pacman -S 7zip"@,
        input_rule: "Archive is the <archive_name> after command x/e/l/t."@,
        output_rule: "Use -o<Directory> with command x to extract with full paths."@,
        extract_all_args: seq!["x"@, "-y"@],
        quiet_or_headless_args: seq!["-bd"@, "-bb0"@],
        success_rule: "Exit status 0 means success; non-zero means warning/error and should be captured."@,
        output_format: OutputFormat::Directory,
        notes: "Use command l for listing, t for integrity testing, x for extraction with full paths."@,
    }
}

/// The rule for `7z`.
pub fn seven_zip_rule() -> (r: ToolRule)
    ensures
        r@ == spec_seven_zip_rule(),
{
    let r = ToolRule {
        id: "7z",
        command: "7z",
        aliases: vec!["7z", "7za", "7zr"],
        kind: ToolKind::Extractor,
        arch_package: "7zip",
        install_hint: "pacman -S 7zip",
        input_rule: "Archive is the <archive_name> after command x/e/l/t.",
        output_rule: "Use -o<Directory> with command x to extract with full paths.",
        extract_all_args: vec!["x", "-y"],
        quiet_or_headless_args: vec!["-bd", "-bb0"],
        success_rule: "Exit status 0 means success; non-zero means warning/error and should be captured.",
        output_format: OutputFormat::Directory,
        notes: "Use command l for listing, t for integrity testing, x for extraction with full paths.",
    };
    assert(str_texts(r.aliases@) =~= seq!["7z"@, "7za"@, "7zr"@]);
    assert(str_texts(r.extract_all_args@) =~= seq!["x"@, "-y"@]);
    assert(str_texts(r.quiet_or_headless_args@) =~= seq!["-bd"@, "-bb0"@]);
    r
}

/// The rule for `ffprobe`.
pub open spec fn spec_ffprobe_rule() -> ToolRuleView {
    ToolRuleView {
        id: "ffprobe"@,
        command: "ffprobe"@,
        aliases: seq!["ffprobe"@],
        kind: ToolKind::Analyzer,
        arch_package: "ffmpeg"@,
        install_hint: "pacman -S ffmpeg"@,
        input_rule: "Input media is the final INPUT_FILE argument."@,
        output_rule: "Use -output_format json with -show_format and -show_streams for machine-readable output."@,
        extract_all_args: seq![],
        quiet_or_headless_args: seq!["-hide_banner"@, "-v"@, "error"@],
        success_rule: "Exit status 0 means probing completed; use -show_error for structured probe errors."@,
        output_format: OutputFormat::Json,
        notes: "Preferred metadata command: ffprobe -hide_banner -v error -output_format json -show_format -show_streams INPUT."@,
    }
}

/// The rule for `ffprobe`.
pub fn ffprobe_rule() -> (r: ToolRule)
    ensures
        r@ == spec_ffprobe_rule(),
{
    let r = ToolRule {
        id: "ffprobe",
        command: "ffprobe",
        aliases: vec!["ffprobe"],
        kind: ToolKind::Analyzer,
        arch_package: "ffmpeg",
        install_hint: "pacman -S ffmpeg",
        input_rule: "Input media is the final INPUT_FILE argument.",
        output_rule: "Use -output_format json with -show_format and -show_streams for machine-readable output.",
        extract_all_args: vec![],
        quiet_or_headless_args: vec!["-hide_banner", "-v", "error"],
        success_rule: "Exit status 0 means probing completed; use -show_error for structured probe errors.",
        output_format: OutputFormat::Json,
        notes: "Preferred metadata command: ffprobe -hide_banner -v error -output_format json -show_format -show_streams INPUT.",
    };
    assert(str_texts(r.aliases@) =~= seq!["ffprobe"@]);
    assert(str_texts(r.extract_all_args@) =~= seq![]);
    assert(str_texts(r.quiet_or_headless_args@) =~= seq!["-hide_banner"@, "-v"@, "error"@]);
    r
}

/// The rule for `ffmpeg`.
pub open spec fn spec_ffmpeg_rule() -> ToolRuleView {
    ToolRuleView {
        id: "ffmpeg"@,
        command: "ffmpeg"@,
        aliases: seq!["ffmpeg"@],
        kind: ToolKind::Converter,
        arch_package: "ffmpeg"@,
        install_hint: "pacman -S ffmpeg"@,
        input_rule: "Use -i <input> as the input file argument."@,
        output_rule: "Output path is the final output file argument."@,
        extract_all_args: seq![],
        quiet_or_headless_args: seq!["-hide_banner"@, "-v"@, "error"@, "-y"@],
        success_rule: "Exit status 0 means conversion/extraction completed."@,
        output_format: OutputFormat::Binary,
        notes: "For Drill analysis, prefer ffprobe for metadata; use ffmpeg only for explicit media extraction/conversion."@,
    }
}

/// The rule for `ffmpeg`.
pub fn ffmpeg_rule() -> (r: ToolRule)
    ensures
        r@ == spec_ffmpeg_rule(),
{
    let r = ToolRule {
        id: "ffmpeg",
        command: "ffmpeg",
        aliases: vec!["ffmpeg"],
        kind: ToolKind::Converter,
        arch_package: "ffmpeg",
        install_hint: "pacman -S ffmpeg",
        input_rule: "Use -i <input> as the input file argument.",
        output_rule: "Output path is the final output file argument.",
        extract_all_args: vec![],
        quiet_or_headless_args: vec!["-hide_banner", "-v", "error", "-y"],
        success_rule: "Exit status 0 means conversion/extraction completed.",
        output_format: OutputFormat::Binary,
        notes: "For Drill analysis, prefer ffprobe for metadata; use ffmpeg only for explicit media extraction/conversion.",
    };
    assert(str_texts(r.aliases@) =~= seq!["ffmpeg"@]);
    assert(str_texts(r.extract_all_args@) =~= seq![]);
    assert(str_texts(r.quiet_or_headless_args@) =~= seq!["-hide_banner"@, "-v"@, "error"@, "-y"@]);
    r
}

/// The rule for `uefitool`.
pub open spec fn spec_uefitool_rule() -> ToolRuleView {
    ToolRuleView {
        id: "uefitool"@,
        command: "uefitool"@,
        aliases: seq!["UEFITool"@, "uefitool"@],
        kind: ToolKind::Gui,
        arch_package: "uefitool-bin"@,
        install_hint: "install uefitool-bin (AUR on many Arch setups)"@,
        input_rule: "GUI command in the Arch uefitool-bin package; not suitable for automatic headless extraction."@,
        output_rule: "No stable headless output rule for this package command."@,
        extract_all_args: seq![],
        quiet_or_headless_args: seq![],
        success_rule: "Do not use as an automatic adapter. Use uefiextract for headless extraction."@,
        output_format: OutputFormat::NoOutput,
        notes: "Registered only so the database can reject or redirect GUI UEFITool usage cleanly."@,
    }
}

/// The rule for `uefitool`.
pub fn uefitool_rule() -> (r: ToolRule)
    ensures
        r@ == spec_uefitool_rule(),
{
    let r = ToolRule {
        id: "uefitool",
        command: "uefitool",
        aliases: vec!["UEFITool", "uefitool"],
        kind: ToolKind::Gui,
        arch_package: "uefitool-bin",
        install_hint: "install uefitool-bin (AUR on many Arch setups)",
        input_rule: "GUI command in the Arch uefitool-bin package; not suitable for automatic headless extraction.",
        output_rule: "No stable headless output rule for this package command.",
        extract_all_args: vec![],
        quiet_or_headless_args: vec![],
        success_rule: "Do not use as an automatic adapter. Use uefiextract for headless extraction.",
        output_format: OutputFormat::NoOutput,
        notes: "Registered only so the database can reject or redirect GUI UEFITool usage cleanly.",
    };
    assert(str_texts(r.aliases@) =~= seq!["UEFITool"@, "uefitool"@]);
    assert(str_texts(r.extract_all_args@) =~= seq![]);
    assert(str_texts(r.quiet_or_headless_args@) =~= seq![]);
    r
}

/// Every registered tool rule, in lookup order.
pub open spec fn spec_all_tool_rules() -> Seq<ToolRuleView> {
    seq![spec_binwalk_rule(), spec_uefiextract_rule(), spec_uefifind_rule(), spec_ghidra_analyze_headless_rule(), spec_iasl_rule(), spec_flashrom_rule(), spec_unsquashfs_rule(), spec_mksquashfs_rule(), spec_seven_zip_rule(), spec_ffprobe_rule(), spec_ffmpeg_rule(), spec_uefitool_rule()] 
}

/// Every registered tool rule, in lookup order.
pub fn all_tool_rules() -> (r: Vec<ToolRule>)
    ensures
        r@.map_values(|t: ToolRule| t@) == spec_all_tool_rules(),
{
    let mut r: Vec<ToolRule> = Vec::new();
    r.push(binwalk_rule());
    r.push(uefiextract_rule());
    r.push(uefifind_rule());
    r.push(ghidra_analyze_headless_rule());
    r.push(iasl_rule());
    r.push(flashrom_rule());
    r.push(unsquashfs_rule());
    r.push(mksquashfs_rule());
    r.push(seven_zip_rule());
    r.push(ffprobe_rule());
    r.push(ffmpeg_rule());
    r.push(uefitool_rule());
    assert(r@.map_values(|t: ToolRule| t@) =~= spec_all_tool_rules());
    r
}

/// Whether a rule answers to `name`, by its id or one of its aliases.
pub open spec fn rule_answers_to(rule: ToolRuleView, name: Seq<char>) -> bool {
    rule.id == name || rule.aliases.contains(name)
}

/// The first rule in `rules` that answers to `name`.
pub open spec fn first_rule_for(rules: Seq<ToolRuleView>, name: Seq<char>) -> Option<ToolRuleView>
    decreases rules.len(),
{
    if rules.len() == 0 {
        None
    } else if rule_answers_to(rules[0], name) {
        Some(rules[0])
    } else {
        first_rule_for(rules.drop_first(), name)
    }
}

/// The view of an optional rule.
pub open spec fn rule_view(r: Option<ToolRule>) -> Option<ToolRuleView> {
    match r {
        Some(t) => Some(t@),
        None => None,
    }
}

/// The first registered rule whose id or alias is `id_or_alias`.
#[verifier::rlimit(50)]
pub fn tool_rule(id_or_alias: &str) -> (r: Option<ToolRule>)
    ensures
        rule_view(r) == first_rule_for(spec_all_tool_rules(), id_or_alias@),
{
    let mut rules = all_tool_rules();
    let ghost all = spec_all_tool_rules();
    let mut i: usize = 0;
    assert(all.subrange(0, all.len() as int) =~= all);
    while rules.len() > 0
        invariant
            i + rules@.len() == all.len(),
            all.len() == 12,
            all == spec_all_tool_rules(),
            rules@.map_values(|t: ToolRule| t@) == all.subrange(i as int, all.len() as int),
            first_rule_for(all, id_or_alias@) == first_rule_for(all.subrange(i as int, all.len() as int), id_or_alias@),
        decreases rules.len(),
    {
        let ghost rest = all.subrange(i as int, all.len() as int);
        let rule = rules.remove(0);
        assert(rule@ == rest[0]);
        let answers = str_eq(rule.id, id_or_alias) || list_contains(&rule.aliases, id_or_alias);
        if answers {
            assert(rule_answers_to(rest[0], id_or_alias@));
            assert(first_rule_for(rest, id_or_alias@) == Some(rest[0]));
            return Some(rule);
        }
        assert(rest.drop_first() =~= all.subrange(i + 1, all.len() as int));
        assert(rules@.map_values(|t: ToolRule| t@) =~= all.subrange(i + 1, all.len() as int));
        i = i + 1;
    }
    assert(all.subrange(i as int, all.len() as int).len() == 0);
    None
}

/// A lookup only ever answers with a registered rule that answers to the name.
pub proof fn lemma_lookup_answers(rules: Seq<ToolRuleView>, name: Seq<char>)
    ensures
        first_rule_for(rules, name) matches Some(r) ==> rule_answers_to(r, name) && rules.contains(r),
    decreases rules.len(),
{
    if rules.len() > 0 && !rule_answers_to(rules[0], name) {
        lemma_lookup_answers(rules.drop_first(), name);
        if first_rule_for(rules.drop_first(), name) is Some {
            let r = first_rule_for(rules.drop_first(), name)->Some_0;
            let w = choose|w: int| 0 <= w < rules.drop_first().len() && rules.drop_first()[w] == r;
            assert(rules[w + 1] == r);
        }
    } else if rules.len() > 0 {
        assert(rules[0] == rules[0]);
    }
}

/// The registered rule that answers to `name`, by its place in the table, or
/// -1 when none does.
pub open spec fn rule_index_of(name: Seq<char>) -> int {
    if name == "binwalk"@ {
        0
    } else if name == "UEFIExtract"@ {
        1
    } else if name == "uefiextract"@ {
        1
    } else if name == "UEFIFind"@ {
        2
    } else if name == "uefifind"@ {
        2
    } else if name == "ghidra"@ {
        3
    } else if name == "analyzeHeadless"@ {
        3
    } else if name == "ghidra-analyzeHeadless"@ {
        3
    } else if name == "iasl"@ {
        4
    } else if name == "flashrom"@ {
        5
    } else if name == "unsquashfs"@ {
        6
    } else if name == "mksquashfs"@ {
        7
    } else if name == "7z"@ {
        8
    } else if name == "7za"@ {
        8
    } else if name == "7zr"@ {
        8
    } else if name == "ffprobe"@ {
        9
    } else if name == "ffmpeg"@ {
        10
    } else if name == "UEFITool"@ {
        11
    } else if name == "uefitool"@ {
        11
    } else {
        -1
    }
}

proof fn lemma_names_of_binwalk(name: Seq<char>)
    requires
        rule_answers_to(spec_binwalk_rule(), name),
    ensures
        rule_index_of(name) == 0,
{
    reveal_strlit("binwalk");
    assert("binwalk"@.len() == 7);
    reveal_strlit("UEFIExtract");
    assert("UEFIExtract"@.len() == 11);
    reveal_strlit("uefiextract");
    assert("uefiextract"@.len() == 11);
    reveal_strlit("UEFIFind");
    assert("UEFIFind"@.len() == 8);
    reveal_strlit("uefifind");
    assert("uefifind"@.len() == 8);
    reveal_strlit("ghidra");
    assert("ghidra"@.len() == 6);
    reveal_strlit("analyzeHeadless");
    assert("analyzeHeadless"@.len() == 15);
    reveal_strlit("ghidra-analyzeHeadless");
    assert("ghidra-analyzeHeadless"@.len() == 22);
    reveal_strlit("iasl");
    assert("iasl"@.len() == 4);
    reveal_strlit("flashrom");
    assert("flashrom"@.len() == 8);
    reveal_strlit("unsquashfs");
    assert("unsquashfs"@.len() == 10);
    reveal_strlit("mksquashfs");
    assert("mksquashfs"@.len() == 10);
    reveal_strlit("7z");
    assert("7z"@.len() == 2);
    reveal_strlit("7za");
    assert("7za"@.len() == 3);
    reveal_strlit("7zr");
    assert("7zr"@.len() == 3);
    reveal_strlit("ffprobe");
    assert("ffprobe"@.len() == 7);
    reveal_strlit("ffmpeg");
    assert("ffmpeg"@.len() == 6);
    reveal_strlit("UEFITool");
    assert("UEFITool"@.len() == 8);
    reveal_strlit("uefitool");
    assert("uefitool"@.len() == 8);
    assert("binwalk"@[0] != "ffprobe"@[0]);
    assert("UEFIExtract"@[0] != "uefiextract"@[0]);
    assert("UEFIFind"@[0] != "uefifind"@[0]);
    assert("UEFIFind"@[0] != "flashrom"@[0]);
    assert("UEFIFind"@[4] != "UEFITool"@[4]);
    assert("UEFIFind"@[0] != "uefitool"@[0]);
    assert("uefifind"@[0] != "flashrom"@[0]);
    assert("uefifind"@[0] != "UEFITool"@[0]);
    assert("uefifind"@[4] != "uefitool"@[4]);
    assert("ghidra"@[0] != "ffmpeg"@[0]);
    assert("flashrom"@[0] != "UEFITool"@[0]);
    assert("flashrom"@[0] != "uefitool"@[0]);
    assert("unsquashfs"@[0] != "mksquashfs"@[0]);
    assert("7za"@[2] != "7zr"@[2]);
    assert("UEFITool"@[0] != "uefitool"@[0]);
    let r = spec_binwalk_rule();
    if r.id != name {
        let k = choose|k: int| 0 <= k < r.aliases.len() && r.aliases[k] == name;
        if k == 0 {
            assert(name == "binwalk"@);
        }
    }
}

proof fn lemma_names_of_uefiextract(name: Seq<char>)
    requires
        rule_answers_to(spec_uefiextract_rule(), name),
    ensures
        rule_index_of(name) == 1,
{
    reveal_strlit("binwalk");
    assert("binwalk"@.len() == 7);
    reveal_strlit("UEFIExtract");
    assert("UEFIExtract"@.len() == 11);
    reveal_strlit("uefiextract");
    assert("uefiextract"@.len() == 11);
    reveal_strlit("UEFIFind");
    assert("UEFIFind"@.len() == 8);
    reveal_strlit("uefifind");
    assert("uefifind"@.len() == 8);
    reveal_strlit("ghidra");
    assert("ghidra"@.len() == 6);
    reveal_strlit("analyzeHeadless");
    assert("analyzeHeadless"@.len() == 15);
    reveal_strlit("ghidra-analyzeHeadless");
    assert("ghidra-analyzeHeadless"@.len() == 22);
    reveal_strlit("iasl");
    assert("iasl"@.len() == 4);
    reveal_strlit("flashrom");
    assert("flashrom"@.len() == 8);
    reveal_strlit("unsquashfs");
    assert("unsquashfs"@.len() == 10);
    reveal_strlit("mksquashfs");
    assert("mksquashfs"@.len() == 10);
    reveal_strlit("7z");
    assert("7z"@.len() == 2);
    reveal_strlit("7za");
    assert("7za"@.len() == 3);
    reveal_strlit("7zr");
    assert("7zr"@.len() == 3);
    reveal_strlit("ffprobe");
    assert("ffprobe"@.len() == 7);
    reveal_strlit("ffmpeg");
    assert("ffmpeg"@.len() == 6);
    reveal_strlit("UEFITool");
    assert("UEFITool"@.len() == 8);
    reveal_strlit("uefitool");
    assert("uefitool"@.len() == 8);
    assert("binwalk"@[0] != "ffprobe"@[0]);
    assert("UEFIExtract"@[0] != "uefiextract"@[0]);
    assert("UEFIFind"@[0] != "uefifind"@[0]);
    assert("UEFIFind"@[0] != "flashrom"@[0]);
    assert("UEFIFind"@[4] != "UEFITool"@[4]);
    assert("UEFIFind"@[0] != "uefitool"@[0]);
    assert("uefifind"@[0] != "flashrom"@[0]);
    assert("uefifind"@[0] != "UEFITool"@[0]);
    assert("uefifind"@[4] != "uefitool"@[4]);
    assert("ghidra"@[0] != "ffmpeg"@[0]);
    assert("flashrom"@[0] != "UEFITool"@[0]);
    assert("flashrom"@[0] != "uefitool"@[0]);
    assert("unsquashfs"@[0] != "mksquashfs"@[0]);
    assert("7za"@[2] != "7zr"@[2]);
    assert("UEFITool"@[0] != "uefitool"@[0]);
    let r = spec_uefiextract_rule();
    if r.id != name {
        let k = choose|k: int| 0 <= k < r.aliases.len() && r.aliases[k] == name;
        if k == 0 {
            assert(name == "UEFIExtract"@);
        } else if k == 1 {
            assert(name == "uefiextract"@);
        }
    }
}

proof fn lemma_names_of_uefifind(name: Seq<char>)
    requires
        rule_answers_to(spec_uefifind_rule(), name),
    ensures
        rule_index_of(name) == 2,
{
    reveal_strlit("binwalk");
    assert("binwalk"@.len() == 7);
    reveal_strlit("UEFIExtract");
    assert("UEFIExtract"@.len() == 11);
    reveal_strlit("uefiextract");
    assert("uefiextract"@.len() == 11);
    reveal_strlit("UEFIFind");
    assert("UEFIFind"@.len() == 8);
    reveal_strlit("uefifind");
    assert("uefifind"@.len() == 8);
    reveal_strlit("ghidra");
    assert("ghidra"@.len() == 6);
    reveal_strlit("analyzeHeadless");
    assert("analyzeHeadless"@.len() == 15);
    reveal_strlit("ghidra-analyzeHeadless");
    assert("ghidra-analyzeHeadless"@.len() == 22);
    reveal_strlit("iasl");
    assert("iasl"@.len() == 4);
    reveal_strlit("flashrom");
    assert("flashrom"@.len() == 8);
    reveal_strlit("unsquashfs");
    assert("unsquashfs"@.len() == 10);
    reveal_strlit("mksquashfs");
    assert("mksquashfs"@.len() == 10);
    reveal_strlit("7z");
    assert("7z"@.len() == 2);
    reveal_strlit("7za");
    assert("7za"@.len() == 3);
    reveal_strlit("7zr");
    assert("7zr"@.len() == 3);
    reveal_strlit("ffprobe");
    assert("ffprobe"@.len() == 7);
    reveal_strlit("ffmpeg");
    assert("ffmpeg"@.len() == 6);
    reveal_strlit("UEFITool");
    assert("UEFITool"@.len() == 8);
    reveal_strlit("uefitool");
    assert("uefitool"@.len() == 8);
    assert("binwalk"@[0] != "ffprobe"@[0]);
    assert("UEFIExtract"@[0] != "uefiextract"@[0]);
    assert("UEFIFind"@[0] != "uefifind"@[0]);
    assert("UEFIFind"@[0] != "flashrom"@[0]);
    assert("UEFIFind"@[4] != "UEFITool"@[4]);
    assert("UEFIFind"@[0] != "uefitool"@[0]);
    assert("uefifind"@[0] != "flashrom"@[0]);
    assert("uefifind"@[0] != "UEFITool"@[0]);
    assert("uefifind"@[4] != "uefitool"@[4]);
    assert("ghidra"@[0] != "ffmpeg"@[0]);
    assert("flashrom"@[0] != "UEFITool"@[0]);
    assert("flashrom"@[0] != "uefitool"@[0]);
    assert("unsquashfs"@[0] != "mksquashfs"@[0]);
    assert("7za"@[2] != "7zr"@[2]);
    assert("UEFITool"@[0] != "uefitool"@[0]);
    let r = spec_uefifind_rule();
    if r.id != name {
        let k = choose|k: int| 0 <= k < r.aliases.len() && r.aliases[k] == name;
        if k == 0 {
            assert(name == "UEFIFind"@);
        } else if k == 1 {
            assert(name == "uefifind"@);
        }
    }
}

proof fn lemma_names_of_ghidra_analyze_headless(name: Seq<char>)
    requires
        rule_answers_to(spec_ghidra_analyze_headless_rule(), name),
    ensures
        rule_index_of(name) == 3,
{
    reveal_strlit("binwalk");
    assert("binwalk"@.len() == 7);
    reveal_strlit("UEFIExtract");
    assert("UEFIExtract"@.len() == 11);
    reveal_strlit("uefiextract");
    assert("uefiextract"@.len() == 11);
    reveal_strlit("UEFIFind");
    assert("UEFIFind"@.len() == 8);
    reveal_strlit("uefifind");
    assert("uefifind"@.len() == 8);
    reveal_strlit("ghidra");
    assert("ghidra"@.len() == 6);
    reveal_strlit("analyzeHeadless");
    assert("analyzeHeadless"@.len() == 15);
    reveal_strlit("ghidra-analyzeHeadless");
    assert("ghidra-analyzeHeadless"@.len() == 22);
    reveal_strlit("iasl");
    assert("iasl"@.len() == 4);
    reveal_strlit("flashrom");
    assert("flashrom"@.len() == 8);
    reveal_strlit("unsquashfs");
    assert("unsquashfs"@.len() == 10);
    reveal_strlit("mksquashfs");
    assert("mksquashfs"@.len() == 10);
    reveal_strlit("7z");
    assert("7z"@.len() == 2);
    reveal_strlit("7za");
    assert("7za"@.len() == 3);
    reveal_strlit("7zr");
    assert("7zr"@.len() == 3);
    reveal_strlit("ffprobe");
    assert("ffprobe"@.len() == 7);
    reveal_strlit("ffmpeg");
    assert("ffmpeg"@.len() == 6);
    reveal_strlit("UEFITool");
    assert("UEFITool"@.len() == 8);
    reveal_strlit("uefitool");
    assert("uefitool"@.len() == 8);
    assert("binwalk"@[0] != "ffprobe"@[0]);
    assert("UEFIExtract"@[0] != "uefiextract"@[0]);
    assert("UEFIFind"@[0] != "uefifind"@[0]);
    assert("UEFIFind"@[0] != "flashrom"@[0]);
    assert("UEFIFind"@[4] != "UEFITool"@[4]);
    assert("UEFIFind"@[0] != "uefitool"@[0]);
    assert("uefifind"@[0] != "flashrom"@[0]);
    assert("uefifind"@[0] != "UEFITool"@[0]);
    assert("uefifind"@[4] != "uefitool"@[4]);
    assert("ghidra"@[0] != "ffmpeg"@[0]);
    assert("flashrom"@[0] != "UEFITool"@[0]);
    assert("flashrom"@[0] != "uefitool"@[0]);
    assert("unsquashfs"@[0] != "mksquashfs"@[0]);
    assert("7za"@[2] != "7zr"@[2]);
    assert("UEFITool"@[0] != "uefitool"@[0]);
    let r = spec_ghidra_analyze_headless_rule();
    if r.id != name {
        let k = choose|k: int| 0 <= k < r.aliases.len() && r.aliases[k] == name;
        if k == 0 {
            assert(name == "ghidra"@);
        } else if k == 1 {
            assert(name == "analyzeHeadless"@);
        } else if k == 2 {
            assert(name == "ghidra-analyzeHeadless"@);
        }
    }
}

proof fn lemma_names_of_iasl(name: Seq<char>)
    requires
        rule_answers_to(spec_iasl_rule(), name),
    ensures
        rule_index_of(name) == 4,
{
    reveal_strlit("binwalk");
    assert("binwalk"@.len() == 7);
    reveal_strlit("UEFIExtract");
    assert("UEFIExtract"@.len() == 11);
    reveal_strlit("uefiextract");
    assert("uefiextract"@.len() == 11);
    reveal_strlit("UEFIFind");
    assert("UEFIFind"@.len() == 8);
    reveal_strlit("uefifind");
    assert("uefifind"@.len() == 8);
    reveal_strlit("ghidra");
    assert("ghidra"@.len() == 6);
    reveal_strlit("analyzeHeadless");
    assert("analyzeHeadless"@.len() == 15);
    reveal_strlit("ghidra-analyzeHeadless");
    assert("ghidra-analyzeHeadless"@.len() == 22);
    reveal_strlit("iasl");
    assert("iasl"@.len() == 4);
    reveal_strlit("flashrom");
    assert("flashrom"@.len() == 8);
    reveal_strlit("unsquashfs");
    assert("unsquashfs"@.len() == 10);
    reveal_strlit("mksquashfs");
    assert("mksquashfs"@.len() == 10);
    reveal_strlit("7z");
    assert("7z"@.len() == 2);
    reveal_strlit("7za");
    assert("7za"@.len() == 3);
    reveal_strlit("7zr");
    assert("7zr"@.len() == 3);
    reveal_strlit("ffprobe");
    assert("ffprobe"@.len() == 7);
    reveal_strlit("ffmpeg");
    assert("ffmpeg"@.len() == 6);
    reveal_strlit("UEFITool");
    assert("UEFITool"@.len() == 8);
    reveal_strlit("uefitool");
    assert("uefitool"@.len() == 8);
    assert("binwalk"@[0] != "ffprobe"@[0]);
    assert("UEFIExtract"@[0] != "uefiextract"@[0]);
    assert("UEFIFind"@[0] != "uefifind"@[0]);
    assert("UEFIFind"@[0] != "flashrom"@[0]);
    assert("UEFIFind"@[4] != "UEFITool"@[4]);
    assert("UEFIFind"@[0] != "uefitool"@[0]);
    assert("uefifind"@[0] != "flashrom"@[0]);
    assert("uefifind"@[0] != "UEFITool"@[0]);
    assert("uefifind"@[4] != "uefitool"@[4]);
    assert("ghidra"@[0] != "ffmpeg"@[0]);
    assert("flashrom"@[0] != "UEFITool"@[0]);
    assert("flashrom"@[0] != "uefitool"@[0]);
    assert("unsquashfs"@[0] != "mksquashfs"@[0]);
    assert("7za"@[2] != "7zr"@[2]);
    assert("UEFITool"@[0] != "uefitool"@[0]);
    let r = spec_iasl_rule();
    if r.id != name {
        let k = choose|k: int| 0 <= k < r.aliases.len() && r.aliases[k] == name;
        if k == 0 {
            assert(name == "iasl"@);
        }
    }
}

proof fn lemma_names_of_flashrom(name: Seq<char>)
    requires
        rule_answers_to(spec_flashrom_rule(), name),
    ensures
        rule_index_of(name) == 5,
{
    reveal_strlit("binwalk");
    assert("binwalk"@.len() == 7);
    reveal_strlit("UEFIExtract");
    assert("UEFIExtract"@.len() == 11);
    reveal_strlit("uefiextract");
    assert("uefiextract"@.len() == 11);
    reveal_strlit("UEFIFind");
    assert("UEFIFind"@.len() == 8);
    reveal_strlit("uefifind");
    assert("uefifind"@.len() == 8);
    reveal_strlit("ghidra");
    assert("ghidra"@.len() == 6);
    reveal_strlit("analyzeHeadless");
    assert("analyzeHeadless"@.len() == 15);
    reveal_strlit("ghidra-analyzeHeadless");
    assert("ghidra-analyzeHeadless"@.len() == 22);
    reveal_strlit("iasl");
    assert("iasl"@.len() == 4);
    reveal_strlit("flashrom");
    assert("flashrom"@.len() == 8);
    reveal_strlit("unsquashfs");
    assert("unsquashfs"@.len() == 10);
    reveal_strlit("mksquashfs");
    assert("mksquashfs"@.len() == 10);
    reveal_strlit("7z");
    assert("7z"@.len() == 2);
    reveal_strlit("7za");
    assert("7za"@.len() == 3);
    reveal_strlit("7zr");
    assert("7zr"@.len() == 3);
    reveal_strlit("ffprobe");
    assert("ffprobe"@.len() == 7);
    reveal_strlit("ffmpeg");
    assert("ffmpeg"@.len() == 6);
    reveal_strlit("UEFITool");
    assert("UEFITool"@.len() == 8);
    reveal_strlit("uefitool");
    assert("uefitool"@.len() == 8);
    assert("binwalk"@[0] != "ffprobe"@[0]);
    assert("UEFIExtract"@[0] != "uefiextract"@[0]);
    assert("UEFIFind"@[0] != "uefifind"@[0]);
    assert("UEFIFind"@[0] != "flashrom"@[0]);
    assert("UEFIFind"@[4] != "UEFITool"@[4]);
    assert("UEFIFind"@[0] != "uefitool"@[0]);
    assert("uefifind"@[0] != "flashrom"@[0]);
    assert("uefifind"@[0] != "UEFITool"@[0]);
    assert("uefifind"@[4] != "uefitool"@[4]);
    assert("ghidra"@[0] != "ffmpeg"@[0]);
    assert("flashrom"@[0] != "UEFITool"@[0]);
    assert("flashrom"@[0] != "uefitool"@[0]);
    assert("unsquashfs"@[0] != "mksquashfs"@[0]);
    assert("7za"@[2] != "7zr"@[2]);
    assert("UEFITool"@[0] != "uefitool"@[0]);
    let r = spec_flashrom_rule();
    if r.id != name {
        let k = choose|k: int| 0 <= k < r.aliases.len() && r.aliases[k] == name;
        if k == 0 {
            assert(name == "flashrom"@);
        }
    }
}

proof fn lemma_names_of_unsquashfs(name: Seq<char>)
    requires
        rule_answers_to(spec_unsquashfs_rule(), name),
    ensures
        rule_index_of(name) == 6,
{
    reveal_strlit("binwalk");
    assert("binwalk"@.len() == 7);
    reveal_strlit("UEFIExtract");
    assert("UEFIExtract"@.len() == 11);
    reveal_strlit("uefiextract");
    assert("uefiextract"@.len() == 11);
    reveal_strlit("UEFIFind");
    assert("UEFIFind"@.len() == 8);
    reveal_strlit("uefifind");
    assert("uefifind"@.len() == 8);
    reveal_strlit("ghidra");
    assert("ghidra"@.len() == 6);
    reveal_strlit("analyzeHeadless");
    assert("analyzeHeadless"@.len() == 15);
    reveal_strlit("ghidra-analyzeHeadless");
    assert("ghidra-analyzeHeadless"@.len() == 22);
    reveal_strlit("iasl");
    assert("iasl"@.len() == 4);
    reveal_strlit("flashrom");
    assert("flashrom"@.len() == 8);
    reveal_strlit("unsquashfs");
    assert("unsquashfs"@.len() == 10);
    reveal_strlit("mksquashfs");
    assert("mksquashfs"@.len() == 10);
    reveal_strlit("7z");
    assert("7z"@.len() == 2);
    reveal_strlit("7za");
    assert("7za"@.len() == 3);
    reveal_strlit("7zr");
    assert("7zr"@.len() == 3);
    reveal_strlit("ffprobe");
    assert("ffprobe"@.len() == 7);
    reveal_strlit("ffmpeg");
    assert("ffmpeg"@.len() == 6);
    reveal_strlit("UEFITool");
    assert("UEFITool"@.len() == 8);
    reveal_strlit("uefitool");
    assert("uefitool"@.len() == 8);
    assert("binwalk"@[0] != "ffprobe"@[0]);
    assert("UEFIExtract"@[0] != "uefiextract"@[0]);
    assert("UEFIFind"@[0] != "uefifind"@[0]);
    assert("UEFIFind"@[0] != "flashrom"@[0]);
    assert("UEFIFind"@[4] != "UEFITool"@[4]);
    assert("UEFIFind"@[0] != "uefitool"@[0]);
    assert("uefifind"@[0] != "flashrom"@[0]);
    assert("uefifind"@[0] != "UEFITool"@[0]);
    assert("uefifind"@[4] != "uefitool"@[4]);
    assert("ghidra"@[0] != "ffmpeg"@[0]);
    assert("flashrom"@[0] != "UEFITool"@[0]);
    assert("flashrom"@[0] != "uefitool"@[0]);
    assert("unsquashfs"@[0] != "mksquashfs"@[0]);
    assert("7za"@[2] != "7zr"@[2]);
    assert("UEFITool"@[0] != "uefitool"@[0]);
    let r = spec_unsquashfs_rule();
    if r.id != name {
        let k = choose|k: int| 0 <= k < r.aliases.len() && r.aliases[k] == name;
        if k == 0 {
            assert(name == "unsquashfs"@);
        }
    }
}

proof fn lemma_names_of_mksquashfs(name: Seq<char>)
    requires
        rule_answers_to(spec_mksquashfs_rule(), name),
    ensures
        rule_index_of(name) == 7,
{
    reveal_strlit("binwalk");
    assert("binwalk"@.len() == 7);
    reveal_strlit("UEFIExtract");
    assert("UEFIExtract"@.len() == 11);
    reveal_strlit("uefiextract");
    assert("uefiextract"@.len() == 11);
    reveal_strlit("UEFIFind");
    assert("UEFIFind"@.len() == 8);
    reveal_strlit("uefifind");
    assert("uefifind"@.len() == 8);
    reveal_strlit("ghidra");
    assert("ghidra"@.len() == 6);
    reveal_strlit("analyzeHeadless");
    assert("analyzeHeadless"@.len() == 15);
    reveal_strlit("ghidra-analyzeHeadless");
    assert("ghidra-analyzeHeadless"@.len() == 22);
    reveal_strlit("iasl");
    assert("iasl"@.len() == 4);
    reveal_strlit("flashrom");
    assert("flashrom"@.len() == 8);
    reveal_strlit("unsquashfs");
    assert("unsquashfs"@.len() == 10);
    reveal_strlit("mksquashfs");
    assert("mksquashfs"@.len() == 10);
    reveal_strlit("7z");
    assert("7z"@.len() == 2);
    reveal_strlit("7za");
    assert("7za"@.len() == 3);
    reveal_strlit("7zr");
    assert("7zr"@.len() == 3);
    reveal_strlit("ffprobe");
    assert("ffprobe"@.len() == 7);
    reveal_strlit("ffmpeg");
    assert("ffmpeg"@.len() == 6);
    reveal_strlit("UEFITool");
    assert("UEFITool"@.len() == 8);
    reveal_strlit("uefitool");
    assert("uefitool"@.len() == 8);
    assert("binwalk"@[0] != "ffprobe"@[0]);
    assert("UEFIExtract"@[0] != "uefiextract"@[0]);
    assert("UEFIFind"@[0] != "uefifind"@[0]);
    assert("UEFIFind"@[0] != "flashrom"@[0]);
    assert("UEFIFind"@[4] != "UEFITool"@[4]);
    assert("UEFIFind"@[0] != "uefitool"@[0]);
    assert("uefifind"@[0] != "flashrom"@[0]);
    assert("uefifind"@[0] != "UEFITool"@[0]);
    assert("uefifind"@[4] != "uefitool"@[4]);
    assert("ghidra"@[0] != "ffmpeg"@[0]);
    assert("flashrom"@[0] != "UEFITool"@[0]);
    assert("flashrom"@[0] != "uefitool"@[0]);
    assert("unsquashfs"@[0] != "mksquashfs"@[0]);
    assert("7za"@[2] != "7zr"@[2]);
    assert("UEFITool"@[0] != "uefitool"@[0]);
    let r = spec_mksquashfs_rule();
    if r.id != name {
        let k = choose|k: int| 0 <= k < r.aliases.len() && r.aliases[k] == name;
        if k == 0 {
            assert(name == "mksquashfs"@);
        }
    }
}

proof fn lemma_names_of_seven_zip(name: Seq<char>)
    requires
        rule_answers_to(spec_seven_zip_rule(), name),
    ensures
        rule_index_of(name) == 8,
{
    reveal_strlit("binwalk");
    assert("binwalk"@.len() == 7);
    reveal_strlit("UEFIExtract");
    assert("UEFIExtract"@.len() == 11);
    reveal_strlit("uefiextract");
    assert("uefiextract"@.len() == 11);
    reveal_strlit("UEFIFind");
    assert("UEFIFind"@.len() == 8);
    reveal_strlit("uefifind");
    assert("uefifind"@.len() == 8);
    reveal_strlit("ghidra");
    assert("ghidra"@.len() == 6);
    reveal_strlit("analyzeHeadless");
    assert("analyzeHeadless"@.len() == 15);
    reveal_strlit("ghidra-analyzeHeadless");
    assert("ghidra-analyzeHeadless"@.len() == 22);
    reveal_strlit("iasl");
    assert("iasl"@.len() == 4);
    reveal_strlit("flashrom");
    assert("flashrom"@.len() == 8);
    reveal_strlit("unsquashfs");
    assert("unsquashfs"@.len() == 10);
    reveal_strlit("mksquashfs");
    assert("mksquashfs"@.len() == 10);
    reveal_strlit("7z");
    assert("7z"@.len() == 2);
    reveal_strlit("7za");
    assert("7za"@.len() == 3);
    reveal_strlit("7zr");
    assert("7zr"@.len() == 3);
    reveal_strlit("ffprobe");
    assert("ffprobe"@.len() == 7);
    reveal_strlit("ffmpeg");
    assert("ffmpeg"@.len() == 6);
    reveal_strlit("UEFITool");
    assert("UEFITool"@.len() == 8);
    reveal_strlit("uefitool");
    assert("uefitool"@.len() == 8);
    assert("binwalk"@[0] != "ffprobe"@[0]);
    assert("UEFIExtract"@[0] != "uefiextract"@[0]);
    assert("UEFIFind"@[0] != "uefifind"@[0]);
    assert("UEFIFind"@[0] != "flashrom"@[0]);
    assert("UEFIFind"@[4] != "UEFITool"@[4]);
    assert("UEFIFind"@[0] != "uefitool"@[0]);
    assert("uefifind"@[0] != "flashrom"@[0]);
    assert("uefifind"@[0] != "UEFITool"@[0]);
    assert("uefifind"@[4] != "uefitool"@[4]);
    assert("ghidra"@[0] != "ffmpeg"@[0]);
    assert("flashrom"@[0] != "UEFITool"@[0]);
    assert("flashrom"@[0] != "uefitool"@[0]);
    assert("unsquashfs"@[0] != "mksquashfs"@[0]);
    assert("7za"@[2] != "7zr"@[2]);
    assert("UEFITool"@[0] != "uefitool"@[0]);
    let r = spec_seven_zip_rule();
    if r.id != name {
        let k = choose|k: int| 0 <= k < r.aliases.len() && r.aliases[k] == name;
        if k == 0 {
            assert(name == "7z"@);
        } else if k == 1 {
            assert(name == "7za"@);
        } else if k == 2 {
            assert(name == "7zr"@);
        }
    }
}

proof fn lemma_names_of_ffprobe(name: Seq<char>)
    requires
        rule_answers_to(spec_ffprobe_rule(), name),
    ensures
        rule_index_of(name) == 9,
{
    reveal_strlit("binwalk");
    assert("binwalk"@.len() == 7);
    reveal_strlit("UEFIExtract");
    assert("UEFIExtract"@.len() == 11);
    reveal_strlit("uefiextract");
    assert("uefiextract"@.len() == 11);
    reveal_strlit("UEFIFind");
    assert("UEFIFind"@.len() == 8);
    reveal_strlit("uefifind");
    assert("uefifind"@.len() == 8);
    reveal_strlit("ghidra");
    assert("ghidra"@.len() == 6);
    reveal_strlit("analyzeHeadless");
    assert("analyzeHeadless"@.len() == 15);
    reveal_strlit("ghidra-analyzeHeadless");
    assert("ghidra-analyzeHeadless"@.len() == 22);
    reveal_strlit("iasl");
    assert("iasl"@.len() == 4);
    reveal_strlit("flashrom");
    assert("flashrom"@.len() == 8);
    reveal_strlit("unsquashfs");
    assert("unsquashfs"@.len() == 10);
    reveal_strlit("mksquashfs");
    assert("mksquashfs"@.len() == 10);
    reveal_strlit("7z");
    assert("7z"@.len() == 2);
    reveal_strlit("7za");
    assert("7za"@.len() == 3);
    reveal_strlit("7zr");
    assert("7zr"@.len() == 3);
    reveal_strlit("ffprobe");
    assert("ffprobe"@.len() == 7);
    reveal_strlit("ffmpeg");
    assert("ffmpeg"@.len() == 6);
    reveal_strlit("UEFITool");
    assert("UEFITool"@.len() == 8);
    reveal_strlit("uefitool");
    assert("uefitool"@.len() == 8);
    assert("binwalk"@[0] != "ffprobe"@[0]);
    assert("UEFIExtract"@[0] != "uefiextract"@[0]);
    assert("UEFIFind"@[0] != "uefifind"@[0]);
    assert("UEFIFind"@[0] != "flashrom"@[0]);
    assert("UEFIFind"@[4] != "UEFITool"@[4]);
    assert("UEFIFind"@[0] != "uefitool"@[0]);
    assert("uefifind"@[0] != "flashrom"@[0]);
    assert("uefifind"@[0] != "UEFITool"@[0]);
    assert("uefifind"@[4] != "uefitool"@[4]);
    assert("ghidra"@[0] != "ffmpeg"@[0]);
    assert("flashrom"@[0] != "UEFITool"@[0]);
    assert("flashrom"@[0] != "uefitool"@[0]);
    assert("unsquashfs"@[0] != "mksquashfs"@[0]);
    assert("7za"@[2] != "7zr"@[2]);
    assert("UEFITool"@[0] != "uefitool"@[0]);
    let r = spec_ffprobe_rule();
    if r.id != name {
        let k = choose|k: int| 0 <= k < r.aliases.len() && r.aliases[k] == name;
        if k == 0 {
            assert(name == "ffprobe"@);
        }
    }
}

proof fn lemma_names_of_ffmpeg(name: Seq<char>)
    requires
        rule_answers_to(spec_ffmpeg_rule(), name),
    ensures
        rule_index_of(name) == 10,
{
    reveal_strlit("binwalk");
    assert("binwalk"@.len() == 7);
    reveal_strlit("UEFIExtract");
    assert("UEFIExtract"@.len() == 11);
    reveal_strlit("uefiextract");
    assert("uefiextract"@.len() == 11);
    reveal_strlit("UEFIFind");
    assert("UEFIFind"@.len() == 8);
    reveal_strlit("uefifind");
    assert("uefifind"@.len() == 8);
    reveal_strlit("ghidra");
    assert("ghidra"@.len() == 6);
    reveal_strlit("analyzeHeadless");
    assert("analyzeHeadless"@.len() == 15);
    reveal_strlit("ghidra-analyzeHeadless");
    assert("ghidra-analyzeHeadless"@.len() == 22);
    reveal_strlit("iasl");
    assert("iasl"@.len() == 4);
    reveal_strlit("flashrom");
    assert("flashrom"@.len() == 8);
    reveal_strlit("unsquashfs");
    assert("unsquashfs"@.len() == 10);
    reveal_strlit("mksquashfs");
    assert("mksquashfs"@.len() == 10);
    reveal_strlit("7z");
    assert("7z"@.len() == 2);
    reveal_strlit("7za");
    assert("7za"@.len() == 3);
    reveal_strlit("7zr");
    assert("7zr"@.len() == 3);
    reveal_strlit("ffprobe");
    assert("ffprobe"@.len() == 7);
    reveal_strlit("ffmpeg");
    assert("ffmpeg"@.len() == 6);
    reveal_strlit("UEFITool");
    assert("UEFITool"@.len() == 8);
    reveal_strlit("uefitool");
    assert("uefitool"@.len() == 8);
    assert("binwalk"@[0] != "ffprobe"@[0]);
    assert("UEFIExtract"@[0] != "uefiextract"@[0]);
    assert("UEFIFind"@[0] != "uefifind"@[0]);
    assert("UEFIFind"@[0] != "flashrom"@[0]);
    assert("UEFIFind"@[4] != "UEFITool"@[4]);
    assert("UEFIFind"@[0] != "uefitool"@[0]);
    assert("uefifind"@[0] != "flashrom"@[0]);
    assert("uefifind"@[0] != "UEFITool"@[0]);
    assert("uefifind"@[4] != "uefitool"@[4]);
    assert("ghidra"@[0] != "ffmpeg"@[0]);
    assert("flashrom"@[0] != "UEFITool"@[0]);
    assert("flashrom"@[0] != "uefitool"@[0]);
    assert("unsquashfs"@[0] != "mksquashfs"@[0]);
    assert("7za"@[2] != "7zr"@[2]);
    assert("UEFITool"@[0] != "uefitool"@[0]);
    let r = spec_ffmpeg_rule();
    if r.id != name {
        let k = choose|k: int| 0 <= k < r.aliases.len() && r.aliases[k] == name;
        if k == 0 {
            assert(name == "ffmpeg"@);
        }
    }
}

proof fn lemma_names_of_uefitool(name: Seq<char>)
    requires
        rule_answers_to(spec_uefitool_rule(), name),
    ensures
        rule_index_of(name) == 11,
{
    reveal_strlit("binwalk");
    assert("binwalk"@.len() == 7);
    reveal_strlit("UEFIExtract");
    assert("UEFIExtract"@.len() == 11);
    reveal_strlit("uefiextract");
    assert("uefiextract"@.len() == 11);
    reveal_strlit("UEFIFind");
    assert("UEFIFind"@.len() == 8);
    reveal_strlit("uefifind");
    assert("uefifind"@.len() == 8);
    reveal_strlit("ghidra");
    assert("ghidra"@.len() == 6);
    reveal_strlit("analyzeHeadless");
    assert("analyzeHeadless"@.len() == 15);
    reveal_strlit("ghidra-analyzeHeadless");
    assert("ghidra-analyzeHeadless"@.len() == 22);
    reveal_strlit("iasl");
    assert("iasl"@.len() == 4);
    reveal_strlit("flashrom");
    assert("flashrom"@.len() == 8);
    reveal_strlit("unsquashfs");
    assert("unsquashfs"@.len() == 10);
    reveal_strlit("mksquashfs");
    assert("mksquashfs"@.len() == 10);
    reveal_strlit("7z");
    assert("7z"@.len() == 2);
    reveal_strlit("7za");
    assert("7za"@.len() == 3);
    reveal_strlit("7zr");
    assert("7zr"@.len() == 3);
    reveal_strlit("ffprobe");
    assert("ffprobe"@.len() == 7);
    reveal_strlit("ffmpeg");
    assert("ffmpeg"@.len() == 6);
    reveal_strlit("UEFITool");
    assert("UEFITool"@.len() == 8);
    reveal_strlit("uefitool");
    assert("uefitool"@.len() == 8);
    assert("binwalk"@[0] != "ffprobe"@[0]);
    assert("UEFIExtract"@[0] != "uefiextract"@[0]);
    assert("UEFIFind"@[0] != "uefifind"@[0]);
    assert("UEFIFind"@[0] != "flashrom"@[0]);
    assert("UEFIFind"@[4] != "UEFITool"@[4]);
    assert("UEFIFind"@[0] != "uefitool"@[0]);
    assert("uefifind"@[0] != "flashrom"@[0]);
    assert("uefifind"@[0] != "UEFITool"@[0]);
    assert("uefifind"@[4] != "uefitool"@[4]);
    assert("ghidra"@[0] != "ffmpeg"@[0]);
    assert("flashrom"@[0] != "UEFITool"@[0]);
    assert("flashrom"@[0] != "uefitool"@[0]);
    assert("unsquashfs"@[0] != "mksquashfs"@[0]);
    assert("7za"@[2] != "7zr"@[2]);
    assert("UEFITool"@[0] != "uefitool"@[0]);
    let r = spec_uefitool_rule();
    if r.id != name {
        let k = choose|k: int| 0 <= k < r.aliases.len() && r.aliases[k] == name;
        if k == 0 {
            assert(name == "UEFITool"@);
        } else if k == 1 {
            assert(name == "uefitool"@);
        }
    }
}

/// The place of the rule that answers to `name`: every name answers to one
/// registered rule at most.
proof fn lemma_rule_index(i: int, name: Seq<char>)
    requires
        0 <= i < spec_all_tool_rules().len(),
        rule_answers_to(spec_all_tool_rules()[i], name),
    ensures
        rule_index_of(name) == i,
{
    let all = spec_all_tool_rules();
    if i == 0 {
        assert(all[0] == spec_binwalk_rule());
        lemma_names_of_binwalk(name);
    } else if i == 1 {
        assert(all[1] == spec_uefiextract_rule());
        lemma_names_of_uefiextract(name);
    } else if i == 2 {
        assert(all[2] == spec_uefifind_rule());
        lemma_names_of_uefifind(name);
    } else if i == 3 {
        assert(all[3] == spec_ghidra_analyze_headless_rule());
        lemma_names_of_ghidra_analyze_headless(name);
    } else if i == 4 {
        assert(all[4] == spec_iasl_rule());
        lemma_names_of_iasl(name);
    } else if i == 5 {
        assert(all[5] == spec_flashrom_rule());
        lemma_names_of_flashrom(name);
    } else if i == 6 {
        assert(all[6] == spec_unsquashfs_rule());
        lemma_names_of_unsquashfs(name);
    } else if i == 7 {
        assert(all[7] == spec_mksquashfs_rule());
        lemma_names_of_mksquashfs(name);
    } else if i == 8 {
        assert(all[8] == spec_seven_zip_rule());
        lemma_names_of_seven_zip(name);
    } else if i == 9 {
        assert(all[9] == spec_ffprobe_rule());
        lemma_names_of_ffprobe(name);
    } else if i == 10 {
        assert(all[10] == spec_ffmpeg_rule());
        lemma_names_of_ffmpeg(name);
    } else if i == 11 {
        assert(all[11] == spec_uefitool_rule());
        lemma_names_of_uefitool(name);
    }
}

/// No name belongs to two registered rules: a name that two rules answer to
/// is answered by one rule only.
pub proof fn lemma_names_unique(i: int, j: int, name: Seq<char>)
    requires
        0 <= i < spec_all_tool_rules().len(),
        0 <= j < spec_all_tool_rules().len(),
        rule_answers_to(spec_all_tool_rules()[i], name),
        rule_answers_to(spec_all_tool_rules()[j], name),
    ensures
        i == j,
{
    lemma_rule_index(i, name);
    lemma_rule_index(j, name);
}

/// A lookup under any name of a registered rule, its id or one of its
/// aliases, finds that rule.
pub proof fn lemma_lookup_any_name(i: int, name: Seq<char>)
    requires
        0 <= i < spec_all_tool_rules().len(),
        rule_answers_to(spec_all_tool_rules()[i], name),
    ensures
        first_rule_for(spec_all_tool_rules(), name) == Some(spec_all_tool_rules()[i]),
{
    let all = spec_all_tool_rules();
    assert forall|j: int| 0 <= j < i implies !rule_answers_to(#[trigger] all[j], name) by {
        if rule_answers_to(all[j], name) {
            lemma_names_unique(i, j, name);
        }
    }
    lemma_first_rule_prefix(all, name, i);
}

/// Every registered rule is found again under its own id.
pub proof fn lemma_lookup_by_id(i: int)
    requires
        0 <= i < spec_all_tool_rules().len(),
    ensures
        first_rule_for(spec_all_tool_rules(), spec_all_tool_rules()[i].id) == Some(spec_all_tool_rules()[i]),
{
    lemma_lookup_any_name(i, spec_all_tool_rules()[i].id);
}

/// A lookup finds a rule exactly when `name` is one of the registered names.
pub proof fn lemma_lookup_finds_registered(name: Seq<char>)
    ensures
        first_rule_for(spec_all_tool_rules(), name) is Some <==> rule_index_of(name) >= 0,
{
    let all = spec_all_tool_rules();
    lemma_lookup_answers(all, name);
    if first_rule_for(all, name) is Some {
        let r = first_rule_for(all, name)->Some_0;
        let i = choose|i: int| 0 <= i < all.len() && all[i] == r;
        lemma_rule_index(i, name);
    }
    if rule_index_of(name) >= 0 {
        let i = rule_index_of(name);
        if i == 0 {
            if name == "binwalk"@ {
                assert(all[0].aliases[0] == name);
            }
            lemma_lookup_any_name(0, name);
        } else if i == 1 {
            if name == "UEFIExtract"@ {
                assert(all[1].aliases[0] == name);
            }
            if name == "uefiextract"@ {
                assert(all[1].aliases[1] == name);
            }
            lemma_lookup_any_name(1, name);
        } else if i == 2 {
            if name == "UEFIFind"@ {
                assert(all[2].aliases[0] == name);
            }
            if name == "uefifind"@ {
                assert(all[2].aliases[1] == name);
            }
            lemma_lookup_any_name(2, name);
        } else if i == 3 {
            if name == "ghidra"@ {
                assert(all[3].aliases[0] == name);
            }
            if name == "analyzeHeadless"@ {
                assert(all[3].aliases[1] == name);
            }
            if name == "ghidra-analyzeHeadless"@ {
                assert(all[3].aliases[2] == name);
            }
            lemma_lookup_any_name(3, name);
        } else if i == 4 {
            if name == "iasl"@ {
                assert(all[4].aliases[0] == name);
            }
            lemma_lookup_any_name(4, name);
        } else if i == 5 {
            if name == "flashrom"@ {
                assert(all[5].aliases[0] == name);
            }
            lemma_lookup_any_name(5, name);
        } else if i == 6 {
            if name == "unsquashfs"@ {
                assert(all[6].aliases[0] == name);
            }
            lemma_lookup_any_name(6, name);
        } else if i == 7 {
            if name == "mksquashfs"@ {
                assert(all[7].aliases[0] == name);
            }
            lemma_lookup_any_name(7, name);
        } else if i == 8 {
            if name == "7z"@ {
                assert(all[8].aliases[0] == name);
            }
            if name == "7za"@ {
                assert(all[8].aliases[1] == name);
            }
            if name == "7zr"@ {
                assert(all[8].aliases[2] == name);
            }
            lemma_lookup_any_name(8, name);
        } else if i == 9 {
            if name == "ffprobe"@ {
                assert(all[9].aliases[0] == name);
            }
            lemma_lookup_any_name(9, name);
        } else if i == 10 {
            if name == "ffmpeg"@ {
                assert(all[10].aliases[0] == name);
            }
            lemma_lookup_any_name(10, name);
        } else if i == 11 {
            if name == "UEFITool"@ {
                assert(all[11].aliases[0] == name);
            }
            if name == "uefitool"@ {
                assert(all[11].aliases[1] == name);
            }
            lemma_lookup_any_name(11, name);
        }
    }
}

/// The first rule that answers to `name` is the first one in `rules` to do so.
pub(crate) proof fn lemma_first_rule_prefix(rules: Seq<ToolRuleView>, name: Seq<char>, i: int)
    requires
        0 <= i < rules.len(),
        rule_answers_to(rules[i], name),
        forall|j: int| 0 <= j < i ==> !rule_answers_to(#[trigger] rules[j], name),
    ensures
        first_rule_for(rules, name) == Some(rules[i]),
    decreases i,
{
    if i > 0 {
        assert(!rule_answers_to(rules[0], name));
        assert forall|j: int| 0 <= j < i - 1 implies !rule_answers_to(#[trigger] rules.drop_first()[j], name) by {
            assert(rules.drop_first()[j] == rules[j + 1]);
        }
        lemma_first_rule_prefix(rules.drop_first(), name, i - 1);
    }
}

/// The distribution packages that provide every registered tool.
pub open spec fn spec_required_arch_packages() -> Seq<Seq<char>> {
    seq!["binwalk"@, "uefitool-bin"@, "ghidra"@, "acpica"@, "flashrom"@, "squashfs-tools"@, "7zip"@, "ffmpeg"@]
}

/// The distribution packages that provide every registered tool.
pub fn required_arch_packages() -> (r: Vec<&'static str>)
    ensures
        str_texts(r@) == spec_required_arch_packages(),
{
    let r = vec!["binwalk", "uefitool-bin", "ghidra", "acpica", "flashrom", "squashfs-tools", "7zip", "ffmpeg"];
    assert(str_texts(r@) =~= spec_required_arch_packages());
    r
}

/// The package list covers the registered tools exactly: every registered
/// rule names a listed package, and every listed package provides at least
/// one registered rule.
pub proof fn lemma_packages_cover_rules()
    ensures
        forall|i: int| 0 <= i < spec_all_tool_rules().len()
            ==> spec_required_arch_packages().contains(#[trigger] spec_all_tool_rules()[i].arch_package),
        forall|k: int| 0 <= k < spec_required_arch_packages().len()
            ==> exists|i: int| 0 <= i < spec_all_tool_rules().len()
                && #[trigger] spec_required_arch_packages()[k] == spec_all_tool_rules()[i].arch_package,
{
    let all = spec_all_tool_rules();
    let pk = spec_required_arch_packages();
    let witness: Seq<int> = seq![0, 1, 3, 4, 5, 6, 8, 9];
    let place: Seq<int> = seq![0, 1, 1, 2, 3, 4, 5, 5, 6, 7, 7, 1];
    assert forall|i: int| 0 <= i < all.len() implies pk.contains(#[trigger] all[i].arch_package) by {
        assert(pk[place[i]] == all[i].arch_package);
    }
    assert forall|k: int| 0 <= k < pk.len() implies exists|i: int| 0 <= i < all.len()
        && #[trigger] pk[k] == all[i].arch_package by {
        assert(pk[k] == all[witness[k]].arch_package);
    }
}

} // verus!
