use drill::adapters::tool_rules::{all_tool_rules, required_arch_packages, tool_rule, OutputFormat, ToolKind};
use drill::adapters::{
    adapter_for, command_status, render_command, spawn_failure, Adapter, AdapterError, ArtifactRule,
    BinwalkAdapter, ExternalAdapter, FfmpegAdapter, FlashromAdapter, OutputDirRule, PathRef, PlanArg,
    SevenZipAdapter, UefiToolAdapter,
};
use drill::drill_engine::format_adapter_error;

#[test]
fn tool_rule_finds_by_id_and_alias() {
    let rule = tool_rule("7za").expect("alias of 7z");
    assert_eq!(rule.id, "7z");
    assert_eq!(rule.arch_package, "7zip");
    assert_eq!(rule.kind, ToolKind::Extractor);
    let ghidra = tool_rule("analyzeHeadless").expect("ghidra alias");
    assert_eq!(ghidra.id, "ghidra-analyzeHeadless");
    assert_eq!(ghidra.output_format, OutputFormat::ToolProject);
    let gui = tool_rule("UEFITool").expect("gui alias");
    assert_eq!(gui.kind, ToolKind::Gui);
    assert_eq!(gui.output_format, OutputFormat::NoOutput);
}

#[test]
fn tool_rule_unknown_is_none() {
    assert!(tool_rule("nmap").is_none());
    assert!(tool_rule("").is_none());
    assert!(tool_rule("Binwalk").is_none());
}

#[test]
fn all_rules_in_order() {
    let ids: Vec<&str> = all_tool_rules().iter().map(|r| r.id).collect();
    assert_eq!(
        ids,
        vec![
            "binwalk", "uefiextract", "uefifind", "ghidra-analyzeHeadless", "iasl", "flashrom",
            "unsquashfs", "mksquashfs", "7z", "ffprobe", "ffmpeg", "uefitool"
        ]
    );
    assert_eq!(required_arch_packages().len(), 8);
}

#[test]
fn adapter_lookup_by_alias() {
    assert_eq!(adapter_for("UEFIExtract"), Some(Adapter::UefiExtract));
    assert_eq!(adapter_for("ghidra-analyzeHeadless"), Some(Adapter::Ghidra));
    assert_eq!(adapter_for("7zr"), Some(Adapter::SevenZip));
    assert_eq!(adapter_for("ffprobe"), Some(Adapter::Ffprobe));
    assert_eq!(adapter_for("7zz"), None);
    assert_eq!(adapter_for("Binwalk"), None);
    assert_eq!(Adapter::SevenZip.name(), "7z");
    assert_eq!(Adapter::Ghidra.name(), "ghidra");
}

#[test]
fn binwalk_plan() {
    let plan = BinwalkAdapter.plan().expect("runs");
    assert_eq!(plan.program, "binwalk");
    assert_eq!(plan.args.len(), 6);
    assert!(matches!(plan.args[0], PlanArg::Text("--extract")));
    assert!(matches!(plan.args[1], PlanArg::Text("--matryoshka")));
    assert!(matches!(plan.args[2], PlanArg::Text("--quiet")));
    assert!(matches!(plan.args[3], PlanArg::Text("--directory")));
    match &plan.args[4] {
        PlanArg::Path(PathRef::InWorkspace(parts)) => assert_eq!(parts, &vec!["binwalk"]),
        other => panic!("unexpected {:?}", other),
    }
    assert!(matches!(plan.args[5], PlanArg::Path(PathRef::Input)));
    assert!(matches!(plan.output_dir, OutputDirRule::Always(_)));
    assert!(matches!(plan.artifacts, ArtifactRule::CollectDirectory(_)));
}

#[test]
fn seven_zip_output_switch() {
    let plan = SevenZipAdapter.plan().expect("runs");
    match &plan.args[4] {
        PlanArg::TextWithPath("-o", PathRef::InWorkspace(parts)) => assert_eq!(parts, &vec!["7z"]),
        other => panic!("unexpected {:?}", other),
    }
}

#[test]
fn ffmpeg_single_artifact() {
    let plan = FfmpegAdapter.plan().expect("runs");
    assert_eq!(plan.args.len(), 9);
    assert!(matches!(plan.artifacts, ArtifactRule::SingleFile("ffmetadata.txt", _)));
    assert!(matches!(plan.output_dir, OutputDirRule::Always(PathRef::Workspace)));
}

#[test]
fn unsupported_adapters() {
    match UefiToolAdapter.plan() {
        Err(AdapterError::Unsupported(m)) => assert_eq!(
            m,
            "Do not use as an automatic adapter. Use uefiextract for headless extraction."
        ),
        other => panic!("unexpected {:?}", other.map(|p| p.program)),
    }
    assert!(matches!(FlashromAdapter.plan(), Err(AdapterError::Unsupported(_))));
    assert!(matches!(Adapter::Mksquashfs.plan(), Err(AdapterError::Unsupported(_))));
    assert!(matches!(Adapter::UefiFind.plan(), Err(AdapterError::Unsupported(_))));
}

#[test]
fn command_rendering() {
    let args = vec!["-d".to_string(), "/tmp/w/unsquashfs".to_string(), "/tmp/w/input.bin".to_string()];
    assert_eq!(render_command("unsquashfs", &args), "unsquashfs -d /tmp/w/unsquashfs /tmp/w/input.bin");
    assert_eq!(render_command("7z", &Vec::new()), "7z");
}

#[test]
fn exit_status_decides() {
    assert!(command_status("binwalk", Some(0), String::new()).is_ok());
    match command_status("binwalk", Some(2), "boom".to_string()) {
        Err(AdapterError::ToolFailed { command, status_code, stderr }) => {
            assert_eq!(command, "binwalk");
            assert_eq!(status_code, Some(2));
            assert_eq!(stderr, "boom");
        }
        other => panic!("unexpected {:?}", other),
    }
    assert!(matches!(command_status("x", None, String::new()), Err(AdapterError::ToolFailed { .. })));
    assert!(matches!(spawn_failure("iasl", true, "nf".to_string()), AdapterError::ToolNotFound(t) if t == "iasl"));
    assert!(matches!(spawn_failure("iasl", false, "denied".to_string()), AdapterError::Io(m) if m == "denied"));
}

#[test]
fn adapter_error_texts() {
    let failed = AdapterError::ToolFailed {
        command: "7z".to_string(),
        status_code: Some(-2),
        stderr: "bad archive".to_string(),
    };
    assert_eq!(format_adapter_error(&failed), "7z failed with status Some(-2): bad archive");
    let killed = AdapterError::ToolFailed { command: "7z".to_string(), status_code: None, stderr: String::new() };
    assert_eq!(format_adapter_error(&killed), "7z failed with status None: ");
    assert_eq!(
        format_adapter_error(&AdapterError::ToolNotFound("unsquashfs".to_string())),
        "unsquashfs was not found in PATH; install package squashfs-tools (pacman -S squashfs-tools)"
    );
    assert_eq!(
        format_adapter_error(&AdapterError::ToolNotFound("frobnicate".to_string())),
        "frobnicate was not found in PATH"
    );
    assert_eq!(format_adapter_error(&AdapterError::Io("disk full".to_string())), "disk full");
    assert_eq!(format_adapter_error(&AdapterError::Unsupported("no".to_string())), "no");
}
