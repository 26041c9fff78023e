use kicad_ipc::output::{
    active_layer_line, bbox_lines, net_class_line, proto_coverage_lines, board_open_line, board_origin_line, details_lines,
    enabled_layers_lines, expanded_lines, hit_test_line, items_raw_lines, nets_lines,
    open_docs_lines, pad_netlist_lines, pad_shape_lines, presence_lines, selection_raw_lines,
    selection_summary_lines, shape_counts_line, smoke_line, text_as_shapes_lines,
    text_extents_line, title_block_lines, version_line, visible_layers_lines,
};
use kicad_ipc::proto::AnyPayload;
use kicad_ipc::{
    BoardEnabledLayers, BoardLayerInfo, BoardNet, BoardOriginKind, DocumentSpecifier, NetClassType,
    DocumentType, ItemBoundingBox, ItemHitTestResult, KiCadError, PadNetEntry,
    PadShapeAsPolygonEntry, PadstackPresenceEntry, PadstackPresenceState, PolyLineNm,
    PolyLineNodeGeometryNm, PolygonWithHolesNm, ProjectInfo, SelectionItemDetail,
    SelectionSummary, SelectionTypeCount, TextExtents, TextShapeGeometry, TitleBlockInfo,
    Vector2Nm, VersionInfo,
};

fn layer(id: i32, name: &str) -> BoardLayerInfo {
    BoardLayerInfo {
        id,
        name: name.to_string(),
    }
}

fn version() -> VersionInfo {
    VersionInfo {
        major: 9,
        minor: 0,
        patch: 3,
        full_version: "9.0.3".to_string(),
    }
}

#[test]
fn version_and_smoke_lines() {
    assert_eq!(version_line(&version()), "version: 9.0.3 (9.0.3)");
    assert_eq!(smoke_line(&version(), true), "smoke ok: version=9.0.3 board_open=true");
    assert_eq!(smoke_line(&version(), false), "smoke ok: version=9.0.3 board_open=false");
}

#[test]
fn board_open_line_needs_a_board() {
    assert_eq!(board_open_line(true).unwrap(), "board-open: yes");
    assert!(matches!(board_open_line(false), Err(KiCadError::BoardNotOpen)));
}

#[test]
fn open_docs_lines_list_each_document_or_say_none() {
    assert_eq!(
        open_docs_lines(DocumentType::Schematic, &Vec::new()),
        vec!["no open `schematic` documents"]
    );
    let docs = vec![
        DocumentSpecifier {
            document_type: DocumentType::Pcb,
            board_filename: Some("a.kicad_pcb".to_string()),
            project: ProjectInfo {
                name: Some("a".to_string()),
                path: Some("/tmp/a".to_string()),
            },
        },
        DocumentSpecifier {
            document_type: DocumentType::Pcb,
            board_filename: None,
            project: ProjectInfo {
                name: None,
                path: None,
            },
        },
    ];
    assert_eq!(
        open_docs_lines(DocumentType::Pcb, &docs),
        vec![
            "[0] type=pcb board=a.kicad_pcb project_name=a project_path=/tmp/a",
            "[1] type=pcb board=- project_name=- project_path=-",
        ]
    );
}

#[test]
fn net_and_layer_lines() {
    assert_eq!(nets_lines(&Vec::new()), vec!["no nets returned"]);
    let nets = vec![
        BoardNet {
            code: 0,
            name: "".to_string(),
        },
        BoardNet {
            code: 7,
            name: "GND".to_string(),
        },
    ];
    assert_eq!(nets_lines(&nets), vec!["code=0 name=", "code=7 name=GND"]);

    let enabled = BoardEnabledLayers {
        copper_layer_count: 2,
        layers: vec![layer(3, "BL_F_Cu"), layer(34, "BL_B_Cu")],
    };
    assert_eq!(
        enabled_layers_lines(&enabled),
        vec![
            "copper_layer_count=2",
            "layer_id=3 layer_name=BL_F_Cu",
            "layer_id=34 layer_name=BL_B_Cu",
        ]
    );
    assert_eq!(visible_layers_lines(&Vec::new()), vec!["no visible layers returned"]);
    assert_eq!(
        visible_layers_lines(&vec![layer(40, "BL_F_SilkS")]),
        vec!["layer_id=40 layer_name=BL_F_SilkS"]
    );
    assert_eq!(
        active_layer_line(&layer(3, "BL_F_Cu")),
        "active_layer_id=3 active_layer_name=BL_F_Cu"
    );
}

#[test]
fn board_origin_and_hit_test_lines() {
    assert_eq!(
        board_origin_line(BoardOriginKind::Drill, &Vector2Nm { x_nm: -5, y_nm: 10 }),
        "origin_kind=drill x_nm=-5 y_nm=10"
    );
    assert_eq!(hit_test_line(ItemHitTestResult::NoHit), "hit_test=no-hit");
}

#[test]
fn selection_listings() {
    let summary = SelectionSummary {
        total_items: 3,
        type_url_counts: vec![
            SelectionTypeCount {
                type_url: "t/A".to_string(),
                count: 2,
            },
            SelectionTypeCount {
                type_url: "t/B".to_string(),
                count: 1,
            },
        ],
    };
    assert_eq!(
        selection_summary_lines(&summary),
        vec!["selection_total=3", "type_url=t/A count=2", "type_url=t/B count=1"]
    );

    let details = vec![SelectionItemDetail {
        type_url: "t/A".to_string(),
        detail: "track id=x".to_string(),
        raw_len: 12,
    }];
    assert_eq!(
        details_lines("items_total", &details),
        vec!["items_total=1", "[0] type_url=t/A raw_len=12 detail=track id=x"]
    );

    let raw = vec![AnyPayload {
        type_url: "t/B".to_string(),
        value: vec![0x0a, 0xff],
    }];
    assert_eq!(
        selection_raw_lines(&raw),
        vec!["selection_total=1", "[0] type_url=t/B raw_len=2 raw_hex=0aff"]
    );
    assert_eq!(
        items_raw_lines(&raw, &vec![11, 12]),
        vec![
            "items_total=1 requested_type_codes=[11, 12]",
            "[0] type_url=t/B raw_len=2 raw_hex=0aff",
        ]
    );
    assert_eq!(
        items_raw_lines(&Vec::new(), &Vec::new()),
        vec!["items_total=0 requested_type_codes=[]"]
    );
}

#[test]
fn pad_netlist_listing() {
    let entries = vec![PadNetEntry {
        footprint_reference: Some("R1".to_string()),
        footprint_id: None,
        pad_id: Some("p1".to_string()),
        pad_number: "2".to_string(),
        net_code: Some(-1),
        net_name: None,
    }];
    assert_eq!(
        pad_netlist_lines(&entries),
        vec![
            "pad_net_entries=1",
            "footprint_ref=R1 footprint_id=- pad_id=p1 pad_number=2 net_code=-1 net_name=-",
        ]
    );
}

#[test]
fn bbox_presence_and_pad_shape_listings() {
    let boxes = vec![ItemBoundingBox {
        item_id: "i1".to_string(),
        x_nm: 1,
        y_nm: -2,
        width_nm: 30,
        height_nm: 40,
    }];
    assert_eq!(
        bbox_lines(&boxes),
        vec!["bbox_total=1", "item_id=i1 x_nm=1 y_nm=-2 width_nm=30 height_nm=40"]
    );

    let rows = vec![PadstackPresenceEntry {
        item_id: "p1".to_string(),
        layer_id: 3,
        layer_name: "BL_F_Cu".to_string(),
        presence: PadstackPresenceState::Unknown(9),
    }];
    assert_eq!(
        presence_lines(&rows, 1, 2),
        vec![
            "padstack_presence_total=1 requested_item_count=1 requested_layer_count=2",
            "item_id=p1 layer_id=3 layer_name=BL_F_Cu presence=UNKNOWN(9)",
        ]
    );

    let point = |x| PolyLineNodeGeometryNm::Point(Vector2Nm { x_nm: x, y_nm: 0 });
    let shapes = vec![PadShapeAsPolygonEntry {
        pad_id: "p1".to_string(),
        layer_id: 3,
        layer_name: "BL_F_Cu".to_string(),
        polygon: PolygonWithHolesNm {
            outline: Some(PolyLineNm {
                nodes: vec![point(0), point(1), point(2)],
                closed: true,
            }),
            holes: vec![PolyLineNm {
                nodes: Vec::new(),
                closed: true,
            }],
        },
    }];
    assert_eq!(
        pad_shape_lines(&shapes, 3, 5),
        vec![
            "pad_shape_total=1 layer_id=3 requested_pad_count=5",
            "pad_id=p1 layer_id=3 layer_name=BL_F_Cu outline_nodes=3 hole_count=1",
        ]
    );
}

#[test]
fn title_block_and_text_listings() {
    let title = TitleBlockInfo {
        title: "Demo".to_string(),
        date: "2024-01-01".to_string(),
        revision: "B".to_string(),
        company: "ACME".to_string(),
        comments: vec!["first".to_string(), "second".to_string()],
    };
    assert_eq!(
        title_block_lines(&title),
        vec![
            "title=Demo",
            "date=2024-01-01",
            "revision=B",
            "company=ACME",
            "comment1=first",
            "comment2=second",
        ]
    );

    assert_eq!(
        text_extents_line(&TextExtents {
            x_nm: 1,
            y_nm: 2,
            width_nm: 3,
            height_nm: -4,
        }),
        "x_nm=1 y_nm=2 width_nm=3 height_nm=-4"
    );

    let inputs = vec!["${A}".to_string(), "${B}".to_string()];
    let expanded = vec!["a".to_string()];
    assert_eq!(
        expanded_lines(&inputs, &expanded),
        vec!["expanded_count=1", "[0] input=${A} expanded=a"]
    );
}

#[test]
fn shape_counts_by_kind() {
    let shapes = vec![
        TextShapeGeometry::Segment {
            start_nm: None,
            end_nm: None,
        },
        TextShapeGeometry::Polygon {
            polygons: Vec::new(),
        },
        TextShapeGeometry::Segment {
            start_nm: None,
            end_nm: None,
        },
        TextShapeGeometry::Unknown,
    ];
    assert_eq!(
        shape_counts_line(4, &shapes),
        "[4] shape_count=4 segment=2 rectangle=0 arc=0 circle=0 polygon=1 bezier=0 unknown=1"
    );
    assert_eq!(
        text_as_shapes_lines(&vec![Vec::new()]),
        vec![
            "text_with_shapes_count=1",
            "[0] shape_count=0 segment=0 rectangle=0 arc=0 circle=0 polygon=0 bezier=0 unknown=0",
        ]
    );
}

#[test]
fn proto_coverage_lines_follow_the_rows() {
    let lines = proto_coverage_lines();
    let rows = kicad_ipc::cli::proto_coverage_board_read_rows();
    assert_eq!(lines.len(), rows.len());
    assert_eq!(
        lines[0],
        "command=kiapi.board.commands.GetBoardStackup status=implemented note=get_board_stackup_raw/get_board_stackup"
    );
}

#[test]
fn net_class_lines() {
    assert_eq!(
        net_class_line(
            "Power",
            Some(2),
            NetClassType::Explicit,
            &vec!["VCC".to_string(), "GND".to_string()]
        ),
        "name=Power type=Explicit priority=2 constituents=VCC,GND"
    );
    assert_eq!(
        net_class_line("Default", None, NetClassType::Unknown(7), &Vec::new()),
        "name=Default type=Unknown(7) priority=- constituents="
    );
    assert_eq!(
        format!("{:?}", NetClassType::Unknown(7)),
        "Unknown(7)"
    );
}
