use kicad_ipc::proto::AnyPayload;
use kicad_ipc::report::{
    board_read_report, board_snapshot_section, coverage_section, fenced_section, layers_section,
    missing_item_types, missing_types_section, pad_net_section, polygon_layer_block,
    polygon_section_intro, present_ids_on_layer, presence_section, report_head,
    title_block_section, type_coverage_block, unique_pad_ids, BoardReadData, TypeItems,
    REPORT_MAX_BOARD_SNAPSHOT_CHARS, REPORT_MAX_ITEM_DEBUG_CHARS, REPORT_MAX_PAD_NET_ROWS,
    REPORT_MAX_PRESENCE_ROWS,
};
use kicad_ipc::text::truncate_bytes;
use kicad_ipc::{
    BoardEnabledLayers, BoardLayerInfo, BoardNet, DocumentSpecifier, DocumentType, PadNetEntry,
    PadShapeAsPolygonEntry, PadstackPresenceEntry, PadstackPresenceState, PcbObjectTypeCode,
    PolyLineNm, PolyLineNodeGeometryNm, PolygonWithHolesNm, ProjectInfo, TitleBlockInfo,
    Vector2Nm, VersionInfo,
};

fn pad(pad_id: Option<&str>, number: &str) -> PadNetEntry {
    PadNetEntry {
        footprint_reference: Some("R1".to_string()),
        footprint_id: Some("fp".to_string()),
        pad_id: pad_id.map(|s| s.to_string()),
        pad_number: number.to_string(),
        net_code: Some(3),
        net_name: Some("VCC".to_string()),
    }
}

fn presence(item: &str, layer_id: i32, state: PadstackPresenceState) -> PadstackPresenceEntry {
    PadstackPresenceEntry {
        item_id: item.to_string(),
        layer_id,
        layer_name: format!("L{layer_id}"),
        presence: state,
    }
}

fn layer(id: i32, name: &str) -> BoardLayerInfo {
    BoardLayerInfo {
        id,
        name: name.to_string(),
    }
}

#[test]
fn unique_pad_ids_are_sorted_and_distinct() {
    let entries = vec![
        pad(Some("b"), "1"),
        pad(None, "2"),
        pad(Some("a"), "3"),
        pad(Some("b"), "4"),
    ];
    assert_eq!(unique_pad_ids(&entries), vec!["a", "b"]);
    assert!(unique_pad_ids(&Vec::new()).is_empty());
}

#[test]
fn present_ids_are_those_marked_present_on_the_layer() {
    let rows = vec![
        presence("p2", 3, PadstackPresenceState::Present),
        presence("p1", 3, PadstackPresenceState::Present),
        presence("p3", 3, PadstackPresenceState::NotPresent),
        presence("p4", 34, PadstackPresenceState::Present),
        presence("p2", 3, PadstackPresenceState::Present),
        presence("p5", 3, PadstackPresenceState::Unknown(7)),
    ];
    assert_eq!(present_ids_on_layer(&rows, 3), vec!["p1", "p2"]);
    assert_eq!(present_ids_on_layer(&rows, 34), vec!["p4"]);
    assert!(present_ids_on_layer(&rows, 40).is_empty());
}

#[test]
fn pad_net_section_lists_entries() {
    let text = pad_net_section(&vec![pad(Some("p1"), "1")]);
    assert_eq!(
        text,
        "### Pad-Level Netlist (Footprint/Pad/Net)\n\n- pad_entry_count: 1\n- footprint_ref=R1 footprint_id=fp pad_id=p1 pad_number=1 net_code=3 net_name=VCC\n\n"
    );
}

#[test]
fn pad_net_section_stops_at_the_row_limit() {
    let entries: Vec<PadNetEntry> = (0..REPORT_MAX_PAD_NET_ROWS + 3)
        .map(|k| pad(Some("p"), &k.to_string()))
        .collect();
    let text = pad_net_section(&entries);
    assert!(text.contains("- pad_entry_count: 2003\n"));
    assert!(text.contains("pad_number=1999 "));
    assert!(!text.contains("pad_number=2000 "));
    assert!(text.ends_with(
        "- ... omitted 3 additional pad net rows (use `netlist-pads` CLI command for full output)\n\n"
    ));
    assert_eq!(text.matches("- footprint_ref=").count(), REPORT_MAX_PAD_NET_ROWS);
}

#[test]
fn presence_section_counts_and_limits() {
    let rows = vec![presence("p1", 3, PadstackPresenceState::Present)];
    assert_eq!(
        presence_section(1, 2, &rows),
        "### Padstack Presence Matrix (Pad IDs x Enabled Layers)\n\n- unique_pad_id_count: 1\n- enabled_layer_count: 2\n- presence_entry_count: 1\n- item_id=p1 layer_id=3 layer_name=L3 presence=PSP_PRESENT\n\n"
    );
    let many: Vec<PadstackPresenceEntry> = (0..REPORT_MAX_PRESENCE_ROWS + 1)
        .map(|_| presence("p", 3, PadstackPresenceState::NotPresent))
        .collect();
    let text = presence_section(1, 1, &many);
    assert_eq!(text.matches("- item_id=").count(), REPORT_MAX_PRESENCE_ROWS);
    assert!(text.ends_with(
        "- ... omitted 1 additional presence rows (use `padstack-presence` CLI command for full output)\n\n"
    ));
}

#[test]
fn report_head_with_and_without_documents() {
    let version = VersionInfo {
        major: 9,
        minor: 0,
        patch: 1,
        full_version: "9.0.1".to_string(),
    };
    let intro = "# Board Read Reconstruction Report\n\nGenerated by `kicad-ipc-cli board-read-report`.\n\nGoal: verify that non-mutating PCB API reads are sufficient to reconstruct board state.\n\n## Session\n\n- KiCad version: 9.0.1 (9.0.1)\n- Socket URI: `ipc:///tmp/kicad/api.sock`\n- Timeout (ms): 3000\n\n## Open Documents\n\n";
    assert_eq!(
        report_head(&version, "ipc:///tmp/kicad/api.sock", 3000, &Vec::new()),
        format!("{intro}- No open PCB docs\n\n")
    );
    let docs = vec![DocumentSpecifier {
        document_type: DocumentType::Pcb,
        board_filename: Some("demo.kicad_pcb".to_string()),
        project: ProjectInfo {
            name: Some("demo".to_string()),
            path: None,
        },
    }];
    assert_eq!(
        report_head(&version, "ipc:///tmp/kicad/api.sock", 3000, &docs),
        format!("{intro}- [0] type=pcb board=demo.kicad_pcb project_name=demo project_path=-\n\n")
    );
}

#[test]
fn layers_section_lists_layers_origins_and_nets() {
    let enabled = BoardEnabledLayers {
        copper_layer_count: 2,
        layers: vec![layer(3, "BL_F_Cu"), layer(34, "BL_B_Cu")],
    };
    let text = layers_section(
        &enabled,
        &vec![layer(3, "BL_F_Cu")],
        &layer(34, "BL_B_Cu"),
        &Vector2Nm { x_nm: 1, y_nm: 2 },
        &Vector2Nm { x_nm: -3, y_nm: 4 },
        &vec![BoardNet {
            code: 1,
            name: "GND".to_string(),
        }],
    );
    assert_eq!(
        text,
        "## Layer / Origin / Nets\n\n- copper_layer_count: 2\n- enabled_layers:\n  - BL_F_Cu (3)\n  - BL_B_Cu (34)\n- visible_layers:\n  - BL_F_Cu (3)\n- active_layer: BL_B_Cu (34)\n- grid_origin_nm: 1,2\n- drill_origin_nm: -3,4\n- net_count: 1\n\n### Netlist\n\n- code=1 name=GND\n\n"
    );
}

#[test]
fn polygon_blocks_per_layer() {
    assert!(polygon_section_intro().starts_with("### Pad Shape Polygons (All Present Pad/Layer Pairs)\n\n"));
    assert_eq!(
        polygon_layer_block(&layer(3, "BL_F_Cu"), 0, &Vec::new()),
        "#### Layer BL_F_Cu (3)\n\n- pad_count_present: 0\n\n"
    );
    let arc = PolyLineNodeGeometryNm::Arc(kicad_ipc::ArcStartMidEndNm {
        start: Vector2Nm { x_nm: 0, y_nm: 0 },
        mid: Vector2Nm { x_nm: 1, y_nm: 1 },
        end: Vector2Nm { x_nm: 2, y_nm: 0 },
    });
    let point = PolyLineNodeGeometryNm::Point(Vector2Nm { x_nm: 0, y_nm: 0 });
    let rows = vec![PadShapeAsPolygonEntry {
        pad_id: "p1".to_string(),
        layer_id: 3,
        layer_name: "BL_F_Cu".to_string(),
        polygon: PolygonWithHolesNm {
            outline: Some(PolyLineNm {
                nodes: vec![point.clone(), arc, point.clone()],
                closed: true,
            }),
            holes: vec![PolyLineNm {
                nodes: vec![point],
                closed: true,
            }],
        },
    }];
    assert_eq!(
        polygon_layer_block(&layer(3, "BL_F_Cu"), 1, &rows),
        "#### Layer BL_F_Cu (3)\n\n- pad_count_present: 1\n\n- polygon_entry_count: 1\n\n- pad_id=p1 layer_id=3 layer_name=BL_F_Cu outline_nodes=3 hole_count=1 hole_nodes_total=1 point_nodes=3 arc_nodes=1\n\n"
    );
}

#[test]
fn title_block_section_numbers_comments() {
    let t = TitleBlockInfo {
        title: "T".to_string(),
        date: "D".to_string(),
        revision: "R".to_string(),
        company: "C".to_string(),
        comments: vec!["one".to_string()],
    };
    assert_eq!(
        title_block_section(&t),
        "## Board/Editor Structures\n\n### Title Block\n\n- title: T\n- date: D\n- revision: R\n- company: C\n- comment1: one\n\n"
    );
}

#[test]
fn missing_types_are_the_empty_ones() {
    let via = PcbObjectTypeCode {
        code: 12,
        name: "KOT_PCB_VIA",
    };
    let zone = PcbObjectTypeCode {
        code: 15,
        name: "KOT_PCB_ZONE",
    };
    let track = PcbObjectTypeCode {
        code: 11,
        name: "KOT_PCB_TRACE",
    };
    let missing = missing_item_types(&vec![(track, Some(4)), (via, Some(0)), (zone, None)]);
    assert_eq!(missing, vec![via]);
    assert_eq!(
        missing_types_section(&missing),
        "## Missing Item Classes In Current Board\n\n- KOT_PCB_VIA (12) had zero items in this board\n\nIf these are important for your reconstruction target, open a denser board and rerun this report.\n\n"
    );
    assert_eq!(
        missing_types_section(&Vec::new()),
        "## Missing Item Classes In Current Board\n\n- none\n\n"
    );
}

#[test]
fn coverage_section_lists_every_row() {
    let text = coverage_section();
    assert!(text.starts_with("## Proto Coverage (Board Read)\n\n- `kiapi.board.commands.GetBoardStackup` -> `implemented` (get_board_stackup_raw/get_board_stackup)\n"));
    assert!(text.ends_with(")\n\n"));
    assert_eq!(
        text.matches("- `").count(),
        kicad_ipc::cli::proto_coverage_board_read_rows().len()
    );
}

#[test]
fn truncate_bytes_cuts_on_character_boundaries() {
    assert_eq!(truncate_bytes("abcdef", 4), ("abcd".to_string(), true));
    assert_eq!(truncate_bytes("abc", 4), ("abc".to_string(), false));
    assert_eq!(truncate_bytes("abcd", 4), ("abcd".to_string(), false));
    // "é" takes two bytes: the cut after it falls on byte 3.
    assert_eq!(truncate_bytes("aébc", 3), ("aé".to_string(), true));
    let mut s = "aébc".to_string();
    s.truncate(3);
    assert_eq!(truncate_bytes("aébc", 3).0, s);
    // Byte 2 falls inside "é": the cut goes back to the boundary before it.
    assert_eq!(truncate_bytes("aébc", 2), ("a".to_string(), true));
    assert_eq!(truncate_bytes("Ω", 1), ("".to_string(), true));
}

#[test]
fn board_snapshot_cut_inside_a_character_keeps_whole_characters() {
    // 749_999 ASCII bytes, then "Ω" (two bytes) straddles byte 750_000.
    let mut big = "y".repeat(REPORT_MAX_BOARD_SNAPSHOT_CHARS - 1);
    big.push_str("5Ω and more");
    let text = board_snapshot_section(&big);
    let head = "## Board File Snapshot (Raw)\n\n```scheme\n";
    let expected_body = format!("{}5", "y".repeat(REPORT_MAX_BOARD_SNAPSHOT_CHARS - 1));
    assert!(text.starts_with(&format!("{head}{expected_body}\n... ; <truncated")));
    assert!(!text.contains('Ω'));
}

#[test]
fn fenced_section_wraps_the_text() {
    assert_eq!(
        fenced_section("Stackup", "Stackup { .. }"),
        "### Stackup\n\n```text\nStackup { .. }\n```\n\n"
    );
}

#[test]
fn type_coverage_blocks_for_success_failure_and_many_items() {
    let t = PcbObjectTypeCode {
        code: 11,
        name: "KOT_PCB_TRACE",
    };
    let item = AnyPayload {
        type_url: "type.googleapis.com/kiapi.board.types.Track".to_string(),
        value: vec![1, 2, 3],
    };
    assert_eq!(
        type_coverage_block(t, &Ok(vec![item.clone()]), &vec!["Track { }".to_string()]),
        "### KOT_PCB_TRACE (11)\n\n- status: ok\n- count: 1\n\n#### item 0\n\n- type_url: `type.googleapis.com/kiapi.board.types.Track`\n- raw_len: `3`\n\n```text\nTrack { }\n```\n\n"
    );
    assert_eq!(
        type_coverage_block(t, &Err("request failed".to_string()), &Vec::new()),
        "### KOT_PCB_TRACE (11)\n\n- status: error\n- error: `request failed`\n\n"
    );
    let items = vec![item; 7];
    let long = "x".repeat(REPORT_MAX_ITEM_DEBUG_CHARS + 10);
    let debugs = vec![long; 5];
    let text = type_coverage_block(t, &Ok(items), &debugs);
    assert_eq!(text.matches("#### item ").count(), 5);
    assert_eq!(
        text.matches("\n...<truncated; use items-raw CLI for full payload>\n```").count(),
        5
    );
    assert!(text.ends_with(
        "- ... omitted 2 additional item debug rows for KOT_PCB_TRACE (use `items-raw --type-id 11` for full output)\n\n"
    ));
}

#[test]
fn board_snapshot_is_cut_at_the_limit() {
    assert_eq!(
        board_snapshot_section("(kicad_pcb)"),
        "## Board File Snapshot (Raw)\n\n```scheme\n(kicad_pcb)\n```\n\n"
    );
    let big = "y".repeat(REPORT_MAX_BOARD_SNAPSHOT_CHARS + 1);
    let text = board_snapshot_section(&big);
    assert!(text.ends_with(
        "\n... ; <truncated board snapshot, rerun `board-as-string` command for full board text>\n\n```\n\n"
    ));
    assert_eq!(text.matches('y').count(), REPORT_MAX_BOARD_SNAPSHOT_CHARS);
}

#[test]
fn board_read_report_puts_the_sections_in_order() {
    let version = VersionInfo {
        major: 9,
        minor: 0,
        patch: 1,
        full_version: "9.0.1".to_string(),
    };
    let enabled = BoardEnabledLayers {
        copper_layer_count: 2,
        layers: vec![layer(3, "BL_F_Cu"), layer(34, "BL_B_Cu")],
    };
    let via = PcbObjectTypeCode {
        code: 12,
        name: "KOT_PCB_VIA",
    };
    let data = BoardReadData {
        version: version.clone(),
        socket_uri: "ipc:///tmp/kicad/api.sock".to_string(),
        timeout_ms: 3000,
        docs: Vec::new(),
        enabled: enabled.clone(),
        visible: vec![layer(3, "BL_F_Cu")],
        active: layer(3, "BL_F_Cu"),
        grid_origin: Vector2Nm { x_nm: 0, y_nm: 0 },
        drill_origin: Vector2Nm { x_nm: 0, y_nm: 0 },
        nets: Vec::new(),
        pad_entries: vec![pad(Some("p1"), "1")],
        presence: vec![presence("p1", 3, PadstackPresenceState::Present)],
        polygons: vec![Vec::new(), Vec::new()],
        title_block: TitleBlockInfo {
            title: "T".to_string(),
            date: "D".to_string(),
            revision: "R".to_string(),
            company: "C".to_string(),
            comments: Vec::new(),
        },
        stackup: "S".to_string(),
        graphics_defaults: "G".to_string(),
        appearance: "A".to_string(),
        netclasses: "N".to_string(),
        item_types: vec![TypeItems {
            object_type: via,
            outcome: Ok(Vec::new()),
            debugs: Vec::new(),
        }],
        board_text: "(kicad_pcb)".to_string(),
    };
    let report = board_read_report(&data);
    let expected = [
        report_head(&version, "ipc:///tmp/kicad/api.sock", 3000, &Vec::new()),
        layers_section(
            &enabled,
            &vec![layer(3, "BL_F_Cu")],
            &layer(3, "BL_F_Cu"),
            &Vector2Nm { x_nm: 0, y_nm: 0 },
            &Vector2Nm { x_nm: 0, y_nm: 0 },
            &Vec::new(),
        ),
        pad_net_section(&data.pad_entries),
        presence_section(1, 2, &data.presence),
        polygon_section_intro(),
        "#### Layer BL_F_Cu (3)\n\n- pad_count_present: 1\n\n- polygon_entry_count: 0\n\n\n".to_string(),
        "#### Layer BL_B_Cu (34)\n\n- pad_count_present: 0\n\n".to_string(),
        title_block_section(&data.title_block),
        fenced_section("Stackup", "S"),
        fenced_section("Graphics Defaults", "G"),
        fenced_section("Editor Appearance", "A"),
        fenced_section("NetClass Map", "N"),
        "## PCB Item Coverage (All KOT_PCB_* Types)\n\n".to_string(),
        "### KOT_PCB_VIA (12)\n\n- status: ok\n- count: 0\n\n".to_string(),
        missing_types_section(&vec![via]),
        board_snapshot_section("(kicad_pcb)"),
        coverage_section(),
    ]
    .concat();
    assert_eq!(report, expected);
}
