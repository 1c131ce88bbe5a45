use drill::adapters::tool_rules::{all_tool_rules, required_arch_packages, tool_rule};
use drill::adapters::{adapter_for, Adapter, ExternalAdapter};
use drill::application::{
    database_preferences_event, open_database_preferences, PreferencesEvent,
    database_path_subtitle, database_source_for_row, database_source_row, preferences_size,
};
use drill::window::{
    empty_tree_items, project_tree_items, read_status_view, reading_tree_items, ring_classes, tree_row,
    LayerPlan, ReadStatus, RingClasses, TreeContent, TreeItem, TreeRow,
    demo_layers, fill_number, layer_detail, layer_label, current_layer_label, onion_size,
    onion_viewport, tree_branch_parts, visible_layer_count, zoom_in_offset, zoom_out_offset,
    LayerState, LayerTexts, DEFAULT_ONION_SIZE, MAX_ONION_SIZE, MIN_ONION_SIZE,
};

#[test]
fn tree_prefixes() {
    assert_eq!(tree_branch_parts("├── "), (0, "├─"));
    assert_eq!(tree_branch_parts("│   ├── "), (1, "├─"));
    assert_eq!(tree_branch_parts("│   │   └── "), (2, "└─"));
    assert_eq!(tree_branch_parts(""), (0, ""));
    assert_eq!(tree_branch_parts("    "), (0, ""));
}

#[test]
fn onion_size_follows_the_divider() {
    assert_eq!(onion_size(1000, 400), 536);
    assert_eq!(onion_size(500, 600), DEFAULT_ONION_SIZE);
    assert_eq!(onion_size(500, 500), DEFAULT_ONION_SIZE);
    assert_eq!(onion_size(1000, 100), MAX_ONION_SIZE);
    assert_eq!(onion_size(500, 300), MIN_ONION_SIZE);
    assert_eq!(onion_size(i32::MAX, i32::MIN), MAX_ONION_SIZE);
}

#[test]
fn visible_layers_by_size() {
    assert_eq!(visible_layer_count(12, 340), 4);
    assert_eq!(visible_layer_count(3, 340), 3);
    assert_eq!(visible_layer_count(0, 340), 0);
    assert_eq!(visible_layer_count(12, 560), 10);
    assert_eq!(visible_layer_count(12, 260), 2);
    assert_eq!(visible_layer_count(1, 260), 1);
}

#[test]
fn zoom_steps() {
    assert_eq!(zoom_in_offset(0, 12, 4), 1);
    assert_eq!(zoom_in_offset(8, 12, 4), 8);
    assert_eq!(zoom_in_offset(0, 3, 4), 0);
    assert_eq!(zoom_out_offset(3), 2);
    assert_eq!(zoom_out_offset(0), 0);
}

#[test]
fn zoom_in_then_out_comes_back() {
    for offset in 0..8 {
        let inner = zoom_in_offset(offset, 12, 4);
        assert_ne!(inner, offset);
        assert_eq!(zoom_out_offset(inner), offset);
    }
    for offset in 1..=8 {
        let outer = zoom_out_offset(offset);
        assert_eq!(zoom_in_offset(outer, 12, 4), offset);
    }
}

#[test]
fn viewport_window_and_controls() {
    let first = onion_viewport(12, 4, 0);
    assert_eq!((first.offset, first.end), (0, 4));
    assert!(!first.zoom_out_enabled);
    assert!(first.zoom_in_enabled);
    assert_eq!(first.page_label, "1–4 / 12");

    let last = onion_viewport(12, 4, 20);
    assert_eq!((last.offset, last.end), (8, 12));
    assert!(last.zoom_out_enabled);
    assert!(!last.zoom_in_enabled);
    assert_eq!(last.page_label, "9–12 / 12");

    let empty = onion_viewport(0, 0, 3);
    assert_eq!((empty.offset, empty.end), (0, 0));
    assert!(!empty.zoom_out_enabled);
    assert!(!empty.zoom_in_enabled);
    assert_eq!(empty.page_label, "–");
}

#[test]
fn numbered_texts() {
    assert_eq!(fill_number("Layer %d", 3), "Layer 3");
    assert_eq!(fill_number("%d of %d", 7), "7 of 7");
    assert_eq!(fill_number("no number", 7), "no number");
    assert_eq!(fill_number("100%", 5), "100%");
    assert_eq!(layer_label("Camada %d", 12), "Camada 12");
    assert_eq!(current_layer_label("Current layer: %d", 0), "Current layer: 0");
    assert_eq!(layer_detail("Layer %d in the analysis chain.", 2), "Layer 2 in the analysis chain.");
}

#[test]
fn demo_layers_take_numbers_and_states() {
    let texts = LayerTexts {
        label: "Layer %d".to_string(),
        current_label: "Current layer: %d".to_string(),
        detail: "Layer %d in the analysis chain.".to_string(),
    };
    let layers = demo_layers(
        4,
        LayerState::Active,
        "Reading".to_string(),
        "Current: reading".to_string(),
        "Reading the file".to_string(),
        &texts,
    );
    assert_eq!(layers.len(), 4);
    let numbers: Vec<usize> = layers.iter().map(|l| l.number).collect();
    assert_eq!(numbers, vec![1, 2, 3, 4]);
    let states: Vec<LayerState> = layers.iter().map(|l| l.state).collect();
    assert_eq!(states, vec![LayerState::Done, LayerState::Done, LayerState::Idle, LayerState::Active]);
    assert_eq!(layers[0].label, "Layer 1");
    assert_eq!(layers[2].current_label, "Current layer: 3");
    assert_eq!(layers[1].detail, "Layer 2 in the analysis chain.");
    assert_eq!(layers[3].label, "Reading");
    assert_eq!(layers[3].current_label, "Current: reading");
    assert_eq!(layers[3].detail, "Reading the file");
    assert!(demo_layers(0, LayerState::Done, String::new(), String::new(), String::new(), &texts).is_empty());
}

#[test]
fn preferences_dialog_size() {
    assert_eq!(preferences_size(100, 5000), (520, 1000));
    assert_eq!(preferences_size(800, 600), (800, 600));
    assert_eq!(preferences_size(i32::MAX, i32::MIN), (1400, 360));
}

#[test]
fn database_path_row() {
    assert_eq!(database_path_subtitle("", "No database selected".to_string()), "No database selected");
    assert_eq!(database_path_subtitle("/tmp/db.json", "No database selected".to_string()), "/tmp/db.json");
}

#[test]
fn database_source_selector() {
    assert_eq!(database_source_row("local"), 1);
    assert_eq!(database_source_row("builtin"), 0);
    assert_eq!(database_source_row("anything"), 0);
    assert_eq!(database_source_for_row(1), "local");
    assert_eq!(database_source_for_row(0), "builtin");
    assert_eq!(database_source_for_row(7), "builtin");
    for source in ["local", "builtin"] {
        assert_eq!(database_source_for_row(database_source_row(source)), source);
    }
    assert_eq!(database_source_for_row(database_source_row("other")), "builtin");
}

#[test]
fn every_adapter_found_under_its_name() {
    let all = [
        Adapter::UefiTool, Adapter::UefiExtract, Adapter::UefiFind, Adapter::Binwalk, Adapter::Ghidra,
        Adapter::Iasl, Adapter::Flashrom, Adapter::Unsquashfs, Adapter::Mksquashfs, Adapter::SevenZip,
        Adapter::Ffprobe, Adapter::Ffmpeg,
    ];
    for adapter in all {
        assert_eq!(adapter_for(adapter.name()), Some(adapter));
        let rule = tool_rule(adapter.name()).expect("every adapter has a rule");
        if let Ok(plan) = adapter.plan() {
            assert_eq!(plan.program, rule.command);
        }
    }
    assert!(Adapter::Flashrom.plan().is_err());
    assert!(Adapter::UefiTool.plan().is_err());
}

#[test]
fn every_rule_found_under_its_id() {
    for rule in all_tool_rules() {
        let found = tool_rule(rule.id).expect("registered");
        assert_eq!(found.id, rule.id);
        assert_eq!(found.command, rule.command);
    }
}

#[test]
fn package_list_covers_rules() {
    let packages = required_arch_packages();
    assert_eq!(
        packages,
        vec!["binwalk", "uefitool-bin", "ghidra", "acpica", "flashrom", "squashfs-tools", "7zip", "ffmpeg"]
    );
    let rules = all_tool_rules();
    for rule in &rules {
        assert!(packages.contains(&rule.arch_package));
    }
    for package in &packages {
        assert!(rules.iter().any(|r| r.arch_package == *package));
    }
}

#[test]
fn tree_rows_indent_connect_and_pick_icons() {
    let item = TreeItem { branch: "│   ├──", icon: "folder-symbolic", name: "cargo-home".to_string() };
    assert_eq!(tree_row(&item), TreeRow { indent: 14, connector: "├─", icon: "folder-symbolic" });
    let item = TreeItem { branch: "│   │       └──", icon: "text-x-generic-symbolic", name: "CACHEDIR.TAG".to_string() };
    assert_eq!(tree_row(&item), TreeRow { indent: 42, connector: "└─", icon: "text-x-generic-symbolic" });
    let item = TreeItem { branch: "", icon: "dialog-information-symbolic", name: "No project tree yet.".to_string() };
    assert_eq!(tree_row(&item), TreeRow { indent: 0, connector: "", icon: "dialog-information-symbolic" });
    let item = TreeItem { branch: "├──", icon: "text-x-generic-symbolic", name: "main.rs".to_string() };
    assert_eq!(tree_row(&item).icon, "text-rust-symbolic");
}

#[test]
fn ring_marks() {
    let none = RingClasses { ring: None, badge: None };
    let done = RingClasses { ring: Some("onion-layer-done"), badge: Some("onion-layer-number-done") };
    let active = RingClasses { ring: Some("onion-layer-active"), badge: Some("onion-layer-number-active") };
    assert_eq!(ring_classes(LayerState::Active, 2, 5), active);
    assert_eq!(ring_classes(LayerState::Done, 0, 5), done);
    assert_eq!(ring_classes(LayerState::Done, 4, 5), done);
    assert_eq!(ring_classes(LayerState::Done, 2, 5), none);
    assert_eq!(ring_classes(LayerState::Idle, 0, 5), none);
}

#[test]
fn tree_lists() {
    let empty = empty_tree_items("Nada ainda.".to_string());
    assert_eq!(empty.len(), 1);
    assert_eq!((empty[0].branch, empty[0].icon, empty[0].name.as_str()), ("", "dialog-information-symbolic", "Nada ainda."));
    let reading = reading_tree_items();
    assert_eq!(reading.len(), 1);
    assert_eq!(reading[0].name, "/home/john/project/src/main.rs");
    let project = project_tree_items();
    assert_eq!(project.len(), 24);
    assert_eq!((project[0].branch, project[0].name.as_str()), ("├──", "builddir"));
    assert_eq!((project[23].branch, project[23].name.as_str()), ("│   │   └──", "meson-info.json"));
}

#[test]
fn reading_status_views() {
    let idle = read_status_view(ReadStatus::Idle);
    assert_eq!(idle.dot_class, "read-dot-idle");
    assert_eq!(idle.core_class, Some("onion-core-idle"));
    assert_eq!(idle.status, "Waiting for file");
    assert_eq!(idle.tree, TreeContent::NoProject);
    assert_eq!(idle.layers, LayerPlan::Reset);

    let reading = read_status_view(ReadStatus::Reading);
    assert_eq!(reading.tree, TreeContent::Reading);
    assert_eq!(
        reading.layers,
        LayerPlan::Demo {
            count: 1,
            terminal_state: LayerState::Active,
            terminal_label: "Layer 1",
            current_label: "Current layer: file",
            detail: "Layer 1: file under reading.",
        }
    );

    let done = read_status_view(ReadStatus::Done);
    assert_eq!(done.dot_class, "read-dot-done");
    assert_eq!(done.current_layer, "Current layer: first level");
    match done.layers {
        LayerPlan::Demo { count, terminal_state, terminal_label, .. } => {
            assert_eq!(count, 24);
            assert_eq!(terminal_state, LayerState::Done);
            assert_eq!(terminal_label, "Core");
        }
        other => panic!("unexpected {:?}", other),
    }

    let error = read_status_view(ReadStatus::Error);
    assert_eq!(error.dot_class, "read-dot-error");
    assert_eq!(error.core_class, None);
    assert_eq!(error.summary, "The project tree could not be generated.");
    assert_eq!(error.tree, TreeContent::Unchanged);
    assert_eq!(error.layers, LayerPlan::Unchanged);
}

#[test]
fn adapters_and_rules_accept_the_same_names() {
    let names = [
        "binwalk", "uefiextract", "UEFIExtract", "uefifind", "UEFIFind", "ghidra", "analyzeHeadless",
        "ghidra-analyzeHeadless", "iasl", "flashrom", "unsquashfs", "mksquashfs", "7z", "7za", "7zr",
        "ffprobe", "ffmpeg", "uefitool", "UEFITool", "Binwalk", "7-zip", "nmap", "", "FFMPEG",
    ];
    for name in names {
        assert_eq!(adapter_for(name).is_some(), tool_rule(name).is_some(), "{name}");
    }
}

#[test]
fn every_name_belongs_to_one_rule() {
    let rules = all_tool_rules();
    for rule in &rules {
        assert_eq!(tool_rule(rule.id).unwrap().id, rule.id);
        for alias in &rule.aliases {
            assert_eq!(tool_rule(alias).unwrap().id, rule.id);
            let owners = rules.iter().filter(|r| r.id == *alias || r.aliases.contains(alias)).count();
            assert_eq!(owners, 1);
        }
    }
    assert_eq!(tool_rule("7zr").unwrap().id, "7z");
}

#[test]
fn path_row_follows_the_stored_source() {
    let none = "No database selected";
    let p = open_database_preferences("builtin".to_string(), String::new(), none);
    assert_eq!((p.selected_row, p.path_row_enabled), (0, false));
    assert_eq!(p.path_subtitle, none);
    let p = open_database_preferences("local".to_string(), "/db.json".to_string(), none);
    assert_eq!((p.selected_row, p.path_row_enabled), (1, true));
    assert_eq!(p.path_subtitle, "/db.json");
    let p = open_database_preferences("other".to_string(), String::new(), none);
    assert_eq!((p.selected_row, p.path_row_enabled, p.source.as_str()), (0, false, "other"));

    let p = database_preferences_event(p, PreferencesEvent::SelectRow(0), none);
    assert_eq!((p.source.as_str(), p.path_row_enabled), ("other", false));
    let p = database_preferences_event(p, PreferencesEvent::SelectRow(1), none);
    assert_eq!((p.source.as_str(), p.selected_row, p.path_row_enabled), ("local", 1, true));
    let p = database_preferences_event(p, PreferencesEvent::ChooseFile("/tmp/sigs.json".to_string()), none);
    assert_eq!((p.source.as_str(), p.path.as_str(), p.path_subtitle.as_str()), ("local", "/tmp/sigs.json", "/tmp/sigs.json"));
    assert!(p.path_row_enabled);
    let p = database_preferences_event(p, PreferencesEvent::SelectRow(0), none);
    assert_eq!((p.source.as_str(), p.selected_row, p.path_row_enabled), ("builtin", 0, false));
    assert_eq!(p.path, "/tmp/sigs.json");
    let p = database_preferences_event(p, PreferencesEvent::ChooseFile("/x.json".to_string()), none);
    assert_eq!((p.source.as_str(), p.selected_row, p.path_row_enabled), ("local", 0, true));
}
