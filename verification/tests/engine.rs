use drill::adapters::{Adapter, ExternalAnalysis, ExternalArtifact};
use drill::analysis::{AnalysisRun, AnalysisStep, ToolRequest};
use drill::drill_engine::{
    bytes_match_at, confidence_level, estimate_size_to_end, node_id, parse_hex_magic, sha256_hex,
    validate_bmp, validate_elf, validate_generic_magic, validate_java_class, validate_png, validate_zip,
    AnalysisLimits, Candidate, CandidateCheck, CheatDatabase, CheatSignature, DatabaseSource,
    DrillEngine, DrillError, Manifest, OffsetRule,
};
use std::io::Write;

fn sig(id: &str, magic: &str, offset: OffsetRule, detector: &str) -> CheatSignature {
    CheatSignature {
        id: id.to_string(),
        name: format!("{id} name"),
        node_type: "container".to_string(),
        subtype: id.to_string(),
        magic: magic.to_string(),
        offset,
        detector: detector.to_string(),
        dependency: format!("{id}-dep"),
        external_tool: None,
        base_confidence: 50,
        validation_required: false,
        description: format!("{id} description"),
    }
}

fn any() -> OffsetRule {
    OffsetRule::Any("any".to_string())
}

fn engine(signatures: Vec<CheatSignature>) -> DrillEngine {
    DrillEngine::from_database(CheatDatabase { version: 1, signatures })
}

fn candidate(signature: CheatSignature, offset: usize, magic: &[u8]) -> Candidate {
    Candidate { signature, offset, magic_bytes: magic.to_vec() }
}

fn run_to_end(
    engine: &DrillEngine,
    bytes: Vec<u8>,
    mut tool: impl FnMut(&ToolRequest) -> Result<ExternalAnalysis, String>,
) -> Result<Manifest, DrillError> {
    let mut run = AnalysisRun::start(engine, bytes, Some("file.bin".to_string()), "/tmp/file.bin".to_string());
    let mut event = None;
    loop {
        match run.step(event.take()) {
            AnalysisStep::Continue(next) => run = next,
            AnalysisStep::RunTool(next, request) => {
                event = Some(tool(&request));
                run = next;
            }
            AnalysisStep::Finished(result) => return result,
        }
    }
}

fn no_tools(_: &ToolRequest) -> Result<ExternalAnalysis, String> {
    panic!("no tool expected")
}

const PNG: [u8; 8] = [0x89, 0x50, 0x4e, 0x47, 0x0d, 0x0a, 0x1a, 0x0a];

#[test]
fn hex_magic_values() {
    assert_eq!(parse_hex_magic("89 50 4E 47").unwrap(), vec![0x89, 0x50, 0x4e, 0x47]);
    assert_eq!(parse_hex_magic(" ca\tfe\nBA be ").unwrap(), vec![0xca, 0xfe, 0xba, 0xbe]);
    assert_eq!(parse_hex_magic("").unwrap(), Vec::<u8>::new());
    match parse_hex_magic("abc") {
        Err(DrillError::Hex(m)) => assert_eq!(m, "Invalid magic value: abc"),
        other => panic!("unexpected {:?}", other),
    }
    match parse_hex_magic("zz 00") {
        Err(DrillError::Hex(m)) => assert_eq!(m, "Invalid magic value: zz 00"),
        other => panic!("unexpected {:?}", other),
    }
    assert!(matches!(parse_hex_magic("é0"), Err(DrillError::Hex(_))));
}

#[test]
fn byte_matching() {
    let data = [1u8, 2, 3, 4];
    assert!(bytes_match_at(&data, &[2, 3], 1));
    assert!(!bytes_match_at(&data, &[2, 3], 2));
    assert!(!bytes_match_at(&data, &[4, 5], 3));
    assert!(bytes_match_at(&data, &[], 4));
    assert!(!bytes_match_at(&data, &[], 5));
    assert_eq!(estimate_size_to_end(&data, 1), 3);
    assert_eq!(estimate_size_to_end(&data, 9), 0);
}

#[test]
fn digests_and_ids() {
    assert_eq!(
        sha256_hex(b"abc"),
        "sha256:ba7816bf8f01cfea414140de5dae2223b00361a396177a9cb410ff61f20015ad"
    );
    assert_eq!(
        sha256_hex(b""),
        "sha256:e3b0c44298fc1c149afbf4c8996fb92427ae41e4649b934ca495991b7852b855"
    );
    assert_eq!(node_id(0), "n0000");
    assert_eq!(node_id(7), "n0007");
    assert_eq!(node_id(12345), "n12345");
}

#[test]
fn confidence_levels() {
    assert_eq!(confidence_level(true, 85), "high");
    assert_eq!(confidence_level(true, 84), "medium");
    assert_eq!(confidence_level(true, 60), "medium");
    assert_eq!(confidence_level(true, 59), "low");
    assert_eq!(confidence_level(false, 100), "unconfirmed");
}

#[test]
fn database_source_choice() {
    assert!(matches!(DrillEngine::from_database_source("local", "/x/db.json"), DatabaseSource::LocalFile(p) if p == "/x/db.json"));
    assert!(matches!(DrillEngine::from_database_source("local", ""), DatabaseSource::Builtin));
    assert!(matches!(DrillEngine::from_database_source("builtin", "/x/db.json"), DatabaseSource::Builtin));
}

#[test]
fn limits_default_and_replace() {
    let e = engine(Vec::new());
    let l = e.limits();
    assert_eq!((l.max_depth, l.max_children_per_node, l.max_extracted_size), (8, 10_000, 256 * 1024 * 1024));
    let e = e.with_limits(AnalysisLimits { max_depth: 1, max_children_per_node: 2, max_extracted_size: 3 });
    assert_eq!(e.limits().max_children_per_node, 2);
}

#[test]
fn candidates_by_offset_then_database_order() {
    let e = engine(vec![
        sig("png", "89504E47", any(), "png_detector"),
        sig("start", "", OffsetRule::Fixed(0), "generic_magic_detector"),
        sig("ng", "4e47", any(), "generic_magic_detector"),
        sig("off", "4e47", OffsetRule::Any("nowhere".to_string()), "generic_magic_detector"),
        sig("empty_any", "", any(), "generic_magic_detector"),
        sig("far", "00", OffsetRule::Fixed(100), "generic_magic_detector"),
    ]);
    let bytes = [0u8, 0, 0x89, 0x50, 0x4e, 0x47, 0, 0x4e, 0x47];
    let found = e.find_candidates(&bytes).unwrap();
    let got: Vec<(String, usize)> = found.iter().map(|c| (c.signature.id.clone(), c.offset)).collect();
    assert_eq!(
        got,
        vec![
            ("start".to_string(), 0),
            ("png".to_string(), 2),
            ("ng".to_string(), 4),
            ("ng".to_string(), 7)
        ]
    );
    assert_eq!(found[1].magic_bytes, vec![0x89, 0x50, 0x4e, 0x47]);
}

#[test]
fn first_bad_magic_fails_search() {
    let e = engine(vec![
        sig("ok", "00", any(), "generic_magic_detector"),
        sig("bad", "0g", any(), "generic_magic_detector"),
        sig("odd", "000", any(), "generic_magic_detector"),
    ]);
    match e.find_candidates(&[0, 0]) {
        Err(DrillError::Hex(m)) => assert_eq!(m, "Invalid magic value: 0g"),
        other => panic!("unexpected {:?}", other.map(|v| v.len())),
    }
}

#[test]
fn png_detector() {
    let s = sig("png", "89504E470D0A1A0A", any(), "png_detector");
    let mut bytes = vec![1, 2];
    bytes.extend_from_slice(&PNG);
    bytes.extend_from_slice(&[9, 9]);
    let r = validate_png(&bytes, &candidate(s.clone(), 2, &PNG));
    assert!(r.valid);
    assert_eq!((r.detected_size, r.final_score), (10, 90));
    assert_eq!(r.criteria, vec!["png_signature_found", "magic_bytes_valid"]);
    let r = validate_png(&bytes, &candidate(s, 3, &PNG));
    assert!(!r.valid);
    assert_eq!((r.detected_size, r.final_score), (9, 30));
    assert_eq!(r.criteria, vec!["invalid_signature"]);
}

#[test]
fn bmp_detector() {
    let s = sig("bmp", "424D", any(), "bmp_detector");
    let mut bytes = vec![0u8; 3];
    bytes.extend_from_slice(&[0x42, 0x4d, 10, 0, 0, 0]);
    bytes.extend_from_slice(&[7u8; 8]);
    let r = validate_bmp(&bytes, &candidate(s.clone(), 3, &[0x42, 0x4d]));
    assert!(r.valid);
    assert_eq!((r.detected_size, r.final_score), (10, 90));
    assert_eq!(r.criteria, vec!["bmp_signature_found", "bmp_size_validated"]);
    assert_eq!(r.error, None);
    bytes[5] = 200;
    let r = validate_bmp(&bytes, &candidate(s.clone(), 3, &[0x42, 0x4d]));
    assert!(!r.valid);
    assert_eq!((r.detected_size, r.final_score), (2, 55));
    assert_eq!(r.error.as_deref(), Some("BMP found, but declared size is invalid"));
    let short = [0x42u8, 0x4d, 1];
    let r = validate_bmp(&short, &candidate(s.clone(), 0, &[0x42, 0x4d]));
    assert_eq!((r.valid, r.final_score), (false, 40));
    assert_eq!(r.error.as_deref(), Some("File is too short to validate BMP"));
    let r = validate_bmp(&short, &candidate(s, 1, &[0x42, 0x4d]));
    assert_eq!((r.valid, r.final_score, r.detected_size), (false, 20, 2));
    assert_eq!(r.error.as_deref(), Some("Invalid BMP magic"));
}

#[test]
fn elf_and_class_detectors() {
    let elf = [0x7fu8, b'E', b'L', b'F'];
    let s = sig("elf", "7F454C46", any(), "elf_detector");
    let mut bytes = elf.to_vec();
    bytes.extend_from_slice(&[0u8; 12]);
    let r = validate_elf(&bytes, &candidate(s.clone(), 0, &elf));
    assert_eq!((r.valid, r.detected_size, r.final_score), (true, 16, 90));
    let r = validate_elf(&bytes[..15], &candidate(s, 0, &elf));
    assert_eq!((r.valid, r.final_score), (false, 50));
    assert_eq!(r.error.as_deref(), Some("Incomplete ELF header"));
    let cafe = [0xcau8, 0xfe, 0xba, 0xbe];
    let s = sig("class", "CAFEBABE", any(), "java_class_detector");
    let mut bytes = cafe.to_vec();
    bytes.extend_from_slice(&[0u8; 6]);
    let r = validate_java_class(&bytes, &candidate(s.clone(), 0, &cafe));
    assert_eq!((r.valid, r.final_score), (true, 90));
    assert_eq!(r.criteria, vec!["cafebabe_signature_found", "minimum_class_header_present"]);
    let r = validate_java_class(&bytes[..9], &candidate(s, 0, &cafe));
    assert_eq!(r.error.as_deref(), Some("Incomplete Java .class header"));
}

#[test]
fn generic_detector_uses_base_confidence() {
    let s = sig("gen", "AA", any(), "generic_magic_detector");
    let r = validate_generic_magic(&[0, 0xaa], &candidate(s.clone(), 1, &[0xaa]));
    assert_eq!((r.valid, r.final_score, r.detected_size), (true, 50, 1));
    let r = validate_generic_magic(&[0, 0xaa], &candidate(s, 0, &[0xaa]));
    assert_eq!((r.valid, r.final_score), (false, 10));
}

fn zip_bytes() -> Vec<u8> {
    let mut w = zip::ZipWriter::new(std::io::Cursor::new(Vec::new()));
    let opts = zip::write::SimpleFileOptions::default();
    w.add_directory("dir/", opts).unwrap();
    w.start_file("dir/a.txt", opts).unwrap();
    w.write_all(b"hello").unwrap();
    w.start_file("b.bin", opts).unwrap();
    w.write_all(&PNG).unwrap();
    w.finish().unwrap().into_inner()
}

#[test]
fn zip_detector_extracts_files() {
    let data = zip_bytes();
    let s = sig("zip", "504B0304", OffsetRule::Fixed(0), "zip_detector");
    let r = validate_zip(&data, &candidate(s.clone(), 0, &[0x50, 0x4b, 3, 4]));
    assert!(r.valid);
    assert_eq!((r.detected_size, r.final_score), (data.len(), 95));
    let names: Vec<&str> = r.extracted_children.iter().map(|c| c.name.as_str()).collect();
    assert_eq!(names, vec!["dir/a.txt", "b.bin"]);
    assert_eq!(r.extracted_children[0].bytes, b"hello".to_vec());
    let junk = [0x50u8, 0x4b, 3, 4, 0, 0];
    let r = validate_zip(&junk, &candidate(s, 0, &[0x50, 0x4b, 3, 4]));
    assert!(!r.valid);
    assert_eq!((r.detected_size, r.final_score), (4, 50));
    assert!(r.error.unwrap().starts_with("ZIP validation failed: "));
}

#[test]
fn candidate_dispatch() {
    let e = engine(Vec::new());
    let data = [0u8; 4];
    let mut s = sig("ext", "00", any(), "binwalk_detector");
    assert!(matches!(
        e.validate_candidate(&data, &candidate(s.clone(), 0, &[0])),
        Ok(CandidateCheck::Finished(r)) if r.error.as_deref() == Some("Signature requires an external tool, but none was configured")
    ));
    s.external_tool = Some("nmap".to_string());
    assert!(matches!(
        e.validate_candidate(&data, &candidate(s.clone(), 0, &[0])),
        Ok(CandidateCheck::Finished(r)) if r.error.as_deref() == Some("No external adapter registered for nmap") && r.criteria == vec!["external_adapter_missing"]
    ));
    s.external_tool = Some("7za".to_string());
    assert!(matches!(
        e.validate_candidate(&data, &candidate(s, 0, &[0])),
        Ok(CandidateCheck::RunAdapter(Adapter::SevenZip))
    ));
    let bad = sig("bad", "00", any(), "nope_detector");
    assert!(matches!(
        e.validate_candidate(&data, &candidate(bad, 0, &[0])),
        Err(DrillError::DetectorNotFound(d)) if d == "nope_detector"
    ));
}

#[test]
fn analysis_of_plain_file() {
    let e = engine(vec![sig("png", "89504E470D0A1A0A", any(), "png_detector")]);
    let mut bytes = vec![0u8; 8];
    bytes.extend_from_slice(&PNG);
    bytes.extend_from_slice(&[1, 2, 3]);
    let m = run_to_end(&e, bytes.clone(), no_tools).unwrap();
    assert_eq!(m.manifest_format, "drill_manifest_v1");
    assert_eq!(m.original_file, "/tmp/file.bin");
    assert_eq!(m.total_size, 19);
    assert_eq!(m.sha256, sha256_hex(&bytes));
    assert_eq!(m.root.id, "n0000");
    assert_eq!(m.root.metadata.name.as_deref(), Some("file.bin"));
    assert_eq!(m.root.confidence.criteria, vec!["file_opened", "sha256_calculated"]);
    assert_eq!(m.root.children.len(), 1);
    let c = &m.root.children[0];
    assert_eq!(c.id, "n0001");
    assert_eq!((c.start_offset, c.size), (8, 11));
    assert_eq!(c.raw_hash, sha256_hex(&bytes[8..]));
    assert_eq!(c.confidence.level, "high");
    assert_eq!(c.detector_used, "png_detector");
    assert_eq!(c.metadata.name.as_deref(), Some("png name"));
    assert!(c.metadata.validated);
}

#[test]
fn analysis_error_on_unknown_detector() {
    let e = engine(vec![sig("x", "00", any(), "missing_detector")]);
    assert!(matches!(run_to_end(&e, vec![0], no_tools), Err(DrillError::DetectorNotFound(d)) if d == "missing_detector"));
}

#[test]
fn analysis_skips_required_validation_failures_and_respects_limits() {
    let mut strict = sig("strict", "AA", any(), "bmp_detector");
    strict.validation_required = true;
    let loose = sig("loose", "AA", any(), "generic_magic_detector");
    let e = engine(vec![strict, loose]);
    let m = run_to_end(&e, vec![0xaa, 0xaa, 0xaa], no_tools).unwrap();
    let ids: Vec<(&str, usize)> = m.root.children.iter().map(|c| (c.subtype.as_str(), c.start_offset)).collect();
    assert_eq!(ids, vec![("loose", 0), ("loose", 1), ("loose", 2)]);
    let e = e.with_limits(AnalysisLimits { max_depth: 8, max_children_per_node: 2, max_extracted_size: 10 });
    let m = run_to_end(&e, vec![0xaa, 0xaa, 0xaa], no_tools).unwrap();
    assert_eq!(m.root.children.len(), 2);
    let e = e.with_limits(AnalysisLimits { max_depth: 0, max_children_per_node: 2, max_extracted_size: 10 });
    let m = run_to_end(&e, vec![0xaa, 0xaa, 0xaa], no_tools).unwrap();
    assert_eq!(m.root.children.len(), 0);
}

#[test]
fn analysis_descends_into_zip_entries() {
    let e = engine(vec![
        sig("zip", "504B0304", OffsetRule::Fixed(0), "zip_detector"),
        sig("png", "89504E470D0A1A0A", any(), "png_detector"),
    ]);
    let data = zip_bytes();
    let m = run_to_end(&e, data, no_tools).unwrap();
    let zip_node = &m.root.children[0];
    assert_eq!(zip_node.id, "n0001");
    assert_eq!(zip_node.subtype, "zip");
    assert_eq!(zip_node.children.len(), 2);
    let a = &zip_node.children[0];
    assert_eq!((a.id.as_str(), a.node_type.as_str(), a.size), ("n0002", "extracted_file", 5));
    assert_eq!(a.dependency, "zip-dep");
    assert_eq!(a.metadata.name.as_deref(), Some("dir/a.txt"));
    assert!(a.children.is_empty());
    let b = &zip_node.children[1];
    assert_eq!(b.id, "n0003");
    assert_eq!(b.children.len(), 1);
    assert_eq!(b.children[0].id, "n0004");
    assert_eq!(b.children[0].subtype, "png");
    let shallow = e.with_limits(AnalysisLimits { max_depth: 1, max_children_per_node: 10, max_extracted_size: 5 });
    let m = run_to_end(&shallow, zip_bytes(), no_tools).unwrap();
    let zip_node = &m.root.children[0];
    assert_eq!(zip_node.children.len(), 1);
    assert!(zip_node.children[0].children.is_empty());
}

#[test]
fn analysis_waits_for_external_tools() {
    let mut s = sig("fw", "AABB", OffsetRule::Fixed(2), "binwalk_detector");
    s.external_tool = Some("binwalk".to_string());
    let e = engine(vec![s, sig("png", "89504E470D0A1A0A", any(), "png_detector")]);
    let mut seen = Vec::new();
    let m = run_to_end(&e, vec![0, 0, 0xaa, 0xbb, 5], |req: &ToolRequest| {
        seen.push((req.adapter, req.offset, req.input.clone()));
        Ok(ExternalAnalysis {
            command: "binwalk --extract".to_string(),
            status_code: Some(0),
            stdout: String::new(),
            stderr: String::new(),
            output_dir: None,
            artifacts: vec![ExternalArtifact {
                name: "part.png".to_string(),
                path: std::path::PathBuf::from("/tmp/part.png"),
                bytes: PNG.to_vec(),
            }],
        })
    })
    .unwrap();
    assert_eq!(seen, vec![(Adapter::Binwalk, 2, vec![0, 0, 0xaa, 0xbb, 5])]);
    let fw = &m.root.children[0];
    assert_eq!((fw.start_offset, fw.size, fw.confidence.score), (2, 3, 90));
    assert_eq!(
        fw.confidence.criteria,
        vec![
            "signature_found",
            "external_adapter:binwalk",
            "external_command:binwalk --extract",
            "external_status:Some(0)",
            "artifacts_extracted:1"
        ]
    );
    assert_eq!(fw.children[0].metadata.name.as_deref(), Some("part.png"));
    assert_eq!(fw.children[0].children[0].subtype, "png");
}

#[test]
fn failed_external_tool_keeps_signature_confidence() {
    let mut s = sig("fw", "AABB", OffsetRule::Fixed(0), "external_tool_detector");
    s.external_tool = Some("unsquashfs".to_string());
    let e = engine(vec![s]);
    let m = run_to_end(&e, vec![0xaa, 0xbb], |_| Err("ExternalAdapter(\"unsquashfs was not found in PATH\")".to_string()))
        .unwrap();
    let n = &m.root.children[0];
    assert!(!n.metadata.validated);
    assert_eq!((n.size, n.confidence.score), (2, 50));
    assert_eq!(n.confidence.level, "unconfirmed");
    assert_eq!(n.confidence.criteria, vec!["signature_found", "external_adapter:unsquashfs"]);
    assert_eq!(
        n.metadata.validation_error.as_deref(),
        Some("ExternalAdapter(\"unsquashfs was not found in PATH\")")
    );
}

#[test]
fn analysis_steps_end_and_keep_children_in_offset_order() {
    let e = engine(vec![
        sig("zip", "504B0304", OffsetRule::Fixed(0), "zip_detector"),
        sig("png", "89504E470D0A1A0A", any(), "png_detector"),
    ]);
    let mut data = zip_bytes();
    data.extend_from_slice(&PNG);
    let mut run = AnalysisRun::start(&e, data.clone(), None, "x".to_string());
    let mut steps = 0;
    let manifest = loop {
        steps += 1;
        assert!(steps < 1000);
        match run.step(None) {
            AnalysisStep::Continue(next) => run = next,
            AnalysisStep::RunTool(..) => panic!("no tool expected"),
            AnalysisStep::Finished(result) => break result.unwrap(),
        }
    };
    assert_eq!(manifest.sha256, sha256_hex(&data));
    let offsets: Vec<usize> = manifest.root.children.iter().map(|c| c.start_offset).collect();
    let mut sorted = offsets.clone();
    sorted.sort();
    assert_eq!(offsets, sorted);
    assert!(offsets.len() >= 2);
}

#[test]
fn waiting_analysis_repeats_its_request() {
    let mut s = sig("fw", "AABB", OffsetRule::Fixed(0), "binwalk_detector");
    s.external_tool = Some("binwalk".to_string());
    let e = engine(vec![s]);
    let mut run = AnalysisRun::start(&e, vec![0xaa, 0xbb, 1], None, "x".to_string());
    let first = loop {
        match run.step(None) {
            AnalysisStep::Continue(next) => run = next,
            AnalysisStep::RunTool(next, request) => {
                run = next;
                break request;
            }
            AnalysisStep::Finished(_) => panic!("a tool request was expected"),
        }
    };
    match run.step(None) {
        AnalysisStep::RunTool(_, again) => {
            assert_eq!(again.adapter, first.adapter);
            assert_eq!(again.input, first.input);
            assert_eq!(again.offset, first.offset);
        }
        _ => panic!("the request should be repeated"),
    }
}
