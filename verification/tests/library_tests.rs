use std::time::Duration;

use kicad_ipc::args::{needs_connection, parse_args, Command};
use kicad_ipc::cli::{
    bytes_to_hex, default_config, hex_char, parse_item_ids, polygon_geometry_summary,
    proto_coverage_board_read_rows,
};
use kicad_ipc::client::{
    check_socket_available,
    default_client_name, default_socket_path, flatpak_socket_path, initial_token,
    ipc_path_from_uri, join_path, layer_to_model, map_document_specifier, map_receive_error,
    map_send_error, model_document_to_proto, normalize_socket_uri, resolve_socket_uri,
    select_single_board_document, select_single_project_path, summarize_selection, token_update,
};
use kicad_ipc::items::{pad_netlist_from_footprint_items, selection_item_detail, selection_item_kind, SelectionItem, SelectionItemKind};
use kicad_ipc::proto;
use kicad_ipc::text::decimal_i64;
use kicad_ipc::{
    ArcStartMidEndNm, BoardOriginKind, ClientBuilder, DocumentSpecifier, DocumentType,
    DrcSeverity, ItemHitTestResult, KiCadError, PadstackPresenceState, PolyLineNm,
    PolyLineNodeGeometryNm, PolygonWithHolesNm, ProjectInfo, Vector2Nm,
};

fn strings(args: &[&str]) -> Vec<String> {
    args.iter().map(|s| s.to_string()).collect()
}

fn doc(board: Option<&str>, name: Option<&str>, path: Option<&str>) -> DocumentSpecifier {
    DocumentSpecifier {
        document_type: DocumentType::Pcb,
        board_filename: board.map(|s| s.to_string()),
        project: ProjectInfo {
            name: name.map(|s| s.to_string()),
            path: path.map(|s| s.to_string()),
        },
    }
}

fn config_reason(err: KiCadError) -> String {
    match err {
        KiCadError::Config { reason } => reason,
        other => panic!("expected a configuration error, got {other:?}"),
    }
}

#[test]
fn document_type_names_and_codes_round_trip() {
    let all = [
        DocumentType::Schematic,
        DocumentType::Symbol,
        DocumentType::Pcb,
        DocumentType::Footprint,
        DocumentType::DrawingSheet,
        DocumentType::Project,
    ];
    for (i, t) in all.iter().enumerate() {
        assert_eq!(DocumentType::from_str(&t.to_string()).unwrap(), *t);
        assert_eq!(t.to_proto(), i as i32 + 1);
        assert_eq!(DocumentType::from_proto(t.to_proto()), Some(*t));
    }
    assert_eq!(DocumentType::from_proto(0), None);
    assert_eq!(DocumentType::from_proto(7), None);
    assert_eq!(DocumentType::DrawingSheet.to_string(), "drawing-sheet");
    assert_eq!(
        DocumentType::from_str("board").unwrap_err(),
        "unknown document type `board`; expected one of: schematic, symbol, pcb, footprint, drawing-sheet, project"
    );
}

#[test]
fn severity_and_origin_names_round_trip() {
    let all = [
        DrcSeverity::Warning,
        DrcSeverity::Error,
        DrcSeverity::Exclusion,
        DrcSeverity::Ignore,
        DrcSeverity::Info,
        DrcSeverity::Action,
        DrcSeverity::Debug,
        DrcSeverity::Undefined,
    ];
    for s in all {
        assert_eq!(DrcSeverity::from_str(&s.to_string()).unwrap(), s);
    }
    for k in [BoardOriginKind::Grid, BoardOriginKind::Drill] {
        assert_eq!(BoardOriginKind::from_str(&k.to_string()).unwrap(), k);
    }
    assert_eq!(
        BoardOriginKind::from_str("other").unwrap_err(),
        "unknown board origin kind `other`; expected `grid` or `drill`"
    );
    assert_eq!(
        DrcSeverity::from_str("fatal").unwrap_err(),
        "unknown drc severity `fatal`; expected warning, error, exclusion, ignore, info, action, debug, or undefined"
    );
}

#[test]
fn display_texts_of_small_enums() {
    assert_eq!(ItemHitTestResult::NoHit.to_string(), "no-hit");
    assert_eq!(PadstackPresenceState::Present.to_string(), "PSP_PRESENT");
    assert_eq!(PadstackPresenceState::NotPresent.to_string(), "PSP_NOT_PRESENT");
    assert_eq!(PadstackPresenceState::Unknown(-7).to_string(), "UNKNOWN(-7)");
    assert_eq!(decimal_i64(i64::MIN), "-9223372036854775808");
    assert_eq!(decimal_i64(0), "0");
}

#[test]
fn socket_addresses() {
    let once = normalize_socket_uri("/tmp/x");
    assert_eq!(normalize_socket_uri(&once), once);
    assert_eq!(normalize_socket_uri("tcp://127.0.0.1:5"), "tcp://127.0.0.1:5");
    assert_eq!(ipc_path_from_uri(&once), Some("/tmp/x".to_string()));
    assert_eq!(ipc_path_from_uri("tcp://127.0.0.1:5"), None);
    assert_eq!(resolve_socket_uri(Some("/a"), Some("/b"), "/c"), "ipc:///a");
    assert_eq!(resolve_socket_uri(None, Some("/b"), "/c"), "ipc:///b");
    assert_eq!(resolve_socket_uri(None, Some(""), "/c"), "ipc:///c");
    assert_eq!(resolve_socket_uri(None, None, "/c"), "ipc:///c");
    assert_eq!(
        flatpak_socket_path("/home/u"),
        "/home/u/.var/app/org.kicad.KiCad/cache/tmp/kicad/api.sock"
    );
    assert_eq!(join_path("/home/u/", "x"), "/home/u/x");
    assert_eq!(join_path("", "x"), "x");
    assert_eq!(default_socket_path(Some("/f"), true), "/f");
    assert_eq!(default_socket_path(Some("/f"), false), "/tmp/kicad/api.sock");
    assert_eq!(default_socket_path(None, true), "/tmp/kicad/api.sock");
}

#[test]
fn client_settings() {
    let b = ClientBuilder::new();
    assert_eq!(b.configured_timeout(), Duration::from_millis(3000));
    assert_eq!(b.configured_socket_uri(), None);
    let b = b
        .timeout(Duration::from_millis(10))
        .socket_path("/s")
        .token("t")
        .client_name("n");
    assert_eq!(b.configured_timeout(), Duration::from_millis(10));
    assert_eq!(b.configured_socket_uri().as_deref(), Some("/s"));
    assert_eq!(b.configured_token().as_deref(), Some("t"));
    assert_eq!(b.configured_client_name().as_deref(), Some("n"));
    assert_eq!(default_client_name(12, 345), "kicad-ipc-12-345");
    assert_eq!(initial_token(None, Some("e".to_string())), "e");
    assert_eq!(initial_token(Some("x".to_string()), Some("e".to_string())), "x");
    assert_eq!(initial_token(None, None), "");
}

#[test]
fn reply_tokens_only_fill_an_empty_token() {
    assert_eq!(token_update("", Some("k")), Some("k".to_string()));
    assert_eq!(token_update("", Some("")), None);
    assert_eq!(token_update("", None), None);
    assert_eq!(token_update("held", Some("k")), None);
}

#[test]
fn transport_failures_map_to_errors() {
    let t = Duration::from_millis(5);
    assert!(matches!(map_send_error(true, "x".into(), t), KiCadError::Timeout { timeout } if timeout == t));
    assert!(matches!(map_send_error(false, "x".into(), t), KiCadError::TransportSend { reason } if reason == "x"));
    assert!(matches!(map_receive_error(false, "y".into(), t), KiCadError::TransportReceive { reason } if reason == "y"));
}

#[test]
fn board_and_project_selection() {
    let one = vec![doc(Some("a.kicad_pcb"), Some("a"), Some("/tmp/a"))];
    let chosen = select_single_board_document(&one).unwrap();
    assert_eq!(chosen.board_filename.as_deref(), Some("a.kicad_pcb"));
    assert!(matches!(
        select_single_board_document(&[]),
        Err(KiCadError::BoardNotOpen)
    ));
    match select_single_board_document(&[doc(None, None, None), doc(Some("b"), None, None)]) {
        Err(KiCadError::AmbiguousBoardSelection { boards }) => {
            assert_eq!(boards, vec!["<unknown>".to_string(), "b".to_string()])
        }
        other => panic!("unexpected {other:?}"),
    }

    let same = vec![
        doc(Some("a"), None, Some("/tmp/p")),
        doc(Some("b"), None, Some("/tmp/p")),
    ];
    assert_eq!(select_single_project_path(&same).unwrap(), "/tmp/p");
    assert!(matches!(
        select_single_project_path(&[doc(Some("a"), None, None)]),
        Err(KiCadError::BoardNotOpen)
    ));
    let three = vec![
        doc(None, None, Some("/tmp/c")),
        doc(None, None, Some("/tmp/a")),
        doc(None, None, Some("/tmp/c")),
        doc(None, None, Some("/tmp/b")),
    ];
    match select_single_project_path(&three) {
        Err(KiCadError::AmbiguousProjectPath { paths }) => {
            assert_eq!(paths, vec!["/tmp/a", "/tmp/b", "/tmp/c"])
        }
        other => panic!("unexpected {other:?}"),
    }
}

#[test]
fn documents_survive_the_trip_to_the_api_form() {
    let d = doc(Some("x.kicad_pcb"), Some("x"), Some("/p"));
    let back = map_document_specifier(model_document_to_proto(&d)).unwrap();
    assert_eq!(back, d);
    let bare = doc(None, None, None);
    assert_eq!(map_document_specifier(model_document_to_proto(&bare)).unwrap(), bare);
    let empty_name = doc(None, Some(""), None);
    assert_eq!(
        map_document_specifier(model_document_to_proto(&empty_name)).unwrap().project.name,
        None
    );
    let unknown = proto::DocumentSpecifier {
        document_type: 0,
        project: None,
        identifier: None,
    };
    assert_eq!(map_document_specifier(unknown), None);
    let other_id = proto::DocumentSpecifier {
        document_type: 1,
        project: None,
        identifier: Some(proto::DocumentIdentifier::Other),
    };
    let mapped = map_document_specifier(other_id).unwrap();
    assert_eq!(mapped.document_type, DocumentType::Schematic);
    assert_eq!(mapped.board_filename, None);
}

#[test]
fn layer_names_follow_the_enumeration() {
    assert_eq!(layer_to_model(3).name, "BL_F_Cu");
    assert_eq!(layer_to_model(4).name, "BL_In1_Cu");
    assert_eq!(layer_to_model(33).name, "BL_In30_Cu");
    assert_eq!(layer_to_model(34).name, "BL_B_Cu");
    assert_eq!(layer_to_model(47).name, "BL_Edge_Cuts");
    assert_eq!(layer_to_model(53).name, "BL_User_1");
    assert_eq!(layer_to_model(62).name, "BL_Rescue");
    assert_eq!(layer_to_model(63).name, "BL_User_10");
    assert_eq!(layer_to_model(98).name, "BL_User_45");
    assert_eq!(layer_to_model(-1).name, "UNKNOWN_LAYER(-1)");
    assert_eq!(layer_to_model(-1).id, -1);
}

#[test]
fn summary_counts_add_up() {
    let any = |url: &str| proto::AnyPayload {
        type_url: url.to_string(),
        value: Vec::new(),
    };
    let summary = summarize_selection(vec![any("b"), any("a"), any("b"), any("c"), any("a"), any("b")]);
    assert_eq!(summary.total_items, 6);
    let urls: Vec<&str> = summary.type_url_counts.iter().map(|c| c.type_url.as_str()).collect();
    assert_eq!(urls, vec!["a", "b", "c"]);
    let counts: Vec<usize> = summary.type_url_counts.iter().map(|c| c.count).collect();
    assert_eq!(counts, vec![2, 3, 1]);
    assert_eq!(counts.iter().sum::<usize>(), summary.total_items);
    assert_eq!(summarize_selection(Vec::new()).type_url_counts.len(), 0);
}

#[test]
fn payload_types_are_checked() {
    assert_eq!(proto::type_url("a.B"), "type.googleapis.com/a.B");
    let payload = proto::AnyPayload {
        type_url: "type.googleapis.com/a.B".to_string(),
        value: vec![1],
    };
    assert!(proto::expect_payload_type(&payload, "a.B").is_ok());
    match proto::expect_payload_type(&payload, "a.C") {
        Err(KiCadError::UnexpectedPayloadType {
            expected_type_url,
            actual_type_url,
        }) => {
            assert_eq!(expected_type_url, "type.googleapis.com/a.C");
            assert_eq!(actual_type_url, "type.googleapis.com/a.B");
        }
        other => panic!("unexpected {other:?}"),
    }
}

#[test]
fn selected_items_are_described() {
    assert_eq!(
        selection_item_kind("type.googleapis.com/kiapi.board.types.Field"),
        SelectionItemKind::Field
    );
    assert_eq!(
        selection_item_kind("type.googleapis.com/kiapi.board.types.Via"),
        SelectionItemKind::Unparsed
    );
    let track = proto::Track {
        id: None,
        start: None,
        end: Some(Vector2Nm { x_nm: -3, y_nm: 4 }),
        width_nm: None,
        layer: 999,
        net: Some(proto::Net {
            code: None,
            name: "N".to_string(),
        }),
    };
    assert_eq!(
        selection_item_detail(&SelectionItem::Track(track)),
        "track id=- start_nm=- end_nm=-3,4 width_nm=- layer=UNKNOWN_LAYER(999) net=0:N"
    );
    let footprint = proto::FootprintInstance {
        id: Some("f".to_string()),
        reference_text: None,
        position: Some(Vector2Nm { x_nm: 1, y_nm: 2 }),
        layer: 3,
        definition_items: Vec::new(),
    };
    assert_eq!(
        selection_item_detail(&SelectionItem::Footprint(footprint)),
        "footprint id=f ref=- pos_nm=1,2 layer=BL_F_Cu"
    );
    let field = proto::Field {
        name: "Value".to_string(),
        visible: false,
        text: Some("10k".to_string()),
    };
    assert_eq!(
        selection_item_detail(&SelectionItem::Field(field)),
        "field name=Value visible=false text=10k"
    );
    let shape = proto::BoardGraphicShape {
        id: Some("g".to_string()),
        layer: 47,
        net: None,
    };
    assert_eq!(
        selection_item_detail(&SelectionItem::BoardGraphicShape(shape)),
        "graphic id=g layer=BL_Edge_Cuts net=-"
    );
    assert_eq!(
        selection_item_detail(&SelectionItem::Unparsed { raw_len: 12 }),
        "unparsed payload (12 bytes)"
    );
}

#[test]
fn pad_netlist_skips_other_items_and_empty_names() {
    let pad = |n: &str, net: Option<proto::Net>| {
        proto::FootprintItem::Pad(proto::Pad {
            id: None,
            number: n.to_string(),
            net,
        })
    };
    let footprints = vec![
        proto::FootprintInstance {
            id: None,
            reference_text: Some(String::new()),
            position: None,
            layer: 3,
            definition_items: vec![
                pad("1", None),
                proto::FootprintItem::Other,
                pad(
                    "2",
                    Some(proto::Net {
                        code: Some(7),
                        name: String::new(),
                    }),
                ),
            ],
        },
        proto::FootprintInstance {
            id: Some("f2".to_string()),
            reference_text: Some("R1".to_string()),
            position: None,
            layer: 3,
            definition_items: vec![pad("A", None)],
        },
    ];
    let items: Vec<proto::ItemPayload> = footprints
        .into_iter()
        .flat_map(|f| [proto::ItemPayload::Other, proto::ItemPayload::Footprint(f)])
        .collect();
    let netlist = pad_netlist_from_footprint_items(&items).unwrap();
    assert_eq!(netlist.len(), 3);
    assert_eq!(netlist[0].footprint_reference, None);
    assert_eq!(netlist[0].net_code, None);
    assert_eq!(netlist[1].pad_number, "2");
    assert_eq!(netlist[1].net_code, Some(7));
    assert_eq!(netlist[1].net_name, None);
    assert_eq!(netlist[2].footprint_reference.as_deref(), Some("R1"));
    assert_eq!(netlist[2].footprint_id.as_deref(), Some("f2"));
}

#[test]
fn pad_netlist_stops_at_the_first_payload_that_fails_to_decode() {
    let good = proto::FootprintInstance {
        id: Some("f1".to_string()),
        reference_text: Some("U1".to_string()),
        position: None,
        layer: 3,
        definition_items: vec![
            proto::FootprintItem::Pad(proto::Pad {
                id: None,
                number: "1".to_string(),
                net: None,
            }),
            proto::FootprintItem::UndecodablePad("bad pad".to_string()),
        ],
    };
    let items = vec![
        proto::ItemPayload::Footprint(good.clone()),
        proto::ItemPayload::UndecodableFootprint("bad footprint".to_string()),
    ];
    match pad_netlist_from_footprint_items(&items) {
        Err(KiCadError::ProtobufDecode(m)) => assert_eq!(m, "bad pad"),
        other => panic!("unexpected result: {other:?}"),
    }
    let items = vec![
        proto::ItemPayload::Other,
        proto::ItemPayload::UndecodableFootprint("bad footprint".to_string()),
        proto::ItemPayload::Footprint(good),
    ];
    match pad_netlist_from_footprint_items(&items) {
        Err(KiCadError::ProtobufDecode(m)) => assert_eq!(m, "bad footprint"),
        other => panic!("unexpected result: {other:?}"),
    }
}

#[test]
fn hex_dumps() {
    assert_eq!(bytes_to_hex(&[0x00, 0xff, 0x1a]), "00ff1a");
    assert_eq!(bytes_to_hex(&[]), "");
    assert_eq!(hex_char(9), '9');
    assert_eq!(hex_char(10), 'a');
    assert_eq!(hex_char(16), '?');
}

#[test]
fn item_ids_are_collected() {
    let ok = parse_item_ids(&strings(&["x", "--id", "a", "--id", "--id"]), "items-by-id").unwrap();
    assert_eq!(ok, vec!["a", "--id"]);
    assert_eq!(
        config_reason(parse_item_ids(&strings(&["--id"]), "cmd").unwrap_err()),
        "missing value for cmd --id"
    );
    assert_eq!(
        config_reason(parse_item_ids(&strings(&["x"]), "cmd").unwrap_err()),
        "cmd requires one or more `--id <uuid>` arguments"
    );
}

#[test]
fn polygon_statistics() {
    let p = Vector2Nm { x_nm: 0, y_nm: 0 };
    let arc = PolyLineNodeGeometryNm::Arc(ArcStartMidEndNm { start: p, mid: p, end: p });
    let point = PolyLineNodeGeometryNm::Point(p);
    let polygon = PolygonWithHolesNm {
        outline: Some(PolyLineNm {
            nodes: vec![point, arc, point],
            closed: true,
        }),
        holes: vec![
            PolyLineNm {
                nodes: vec![arc],
                closed: true,
            },
            PolyLineNm {
                nodes: vec![point, point],
                closed: true,
            },
        ],
    };
    let s = polygon_geometry_summary(&polygon);
    assert_eq!(
        (s.outline_nodes, s.hole_count, s.hole_nodes_total, s.point_nodes, s.arc_nodes),
        (3, 2, 3, 4, 2)
    );
}

#[test]
fn coverage_table_and_defaults() {
    let rows = proto_coverage_board_read_rows();
    assert_eq!(rows.len(), 27);
    assert_eq!(
        rows[0],
        (
            "kiapi.board.commands.GetBoardStackup",
            "implemented",
            "get_board_stackup_raw/get_board_stackup"
        )
    );
    let cfg = default_config();
    assert_eq!((cfg.socket, cfg.token, cfg.timeout_ms), (None, None, 15_000));
}

#[test]
fn command_lines_are_parsed() {
    let (cfg, cmd) = parse_args(&[]).unwrap();
    assert_eq!(cfg.timeout_ms, 15_000);
    assert_eq!(cmd, Command::Help);

    let (cfg, cmd) =
        parse_args(&strings(&["ping", "--socket", "ipc:///s", "--timeout-ms", "+20"])).unwrap();
    assert_eq!(cfg.socket.as_deref(), Some("ipc:///s"));
    assert_eq!(cfg.timeout_ms, 20);
    assert_eq!(cmd, Command::Ping);

    let (_, cmd) = parse_args(&strings(&["--token", "t"])).unwrap();
    assert_eq!(cmd, Command::Help);

    assert_eq!(
        config_reason(parse_args(&strings(&["--timeout-ms", "abc", "ping"])).unwrap_err()),
        "invalid --timeout-ms value `abc`: invalid digit found in string"
    );
    assert_eq!(
        config_reason(parse_args(&strings(&["ping", "--socket"])).unwrap_err()),
        "missing value for --socket"
    );
    assert_eq!(
        config_reason(parse_args(&strings(&["frobnicate"])).unwrap_err()),
        "unknown command `frobnicate`"
    );

    let (_, cmd) = parse_args(&strings(&[
        "hit-test", "--id", "a", "--x-nm", "1", "--y-nm", "-2", "--tolerance-nm", "3",
    ]))
    .unwrap();
    assert_eq!(
        cmd,
        Command::HitTest {
            item_id: "a".to_string(),
            x_nm: 1,
            y_nm: -2,
            tolerance_nm: 3
        }
    );
    assert_eq!(
        config_reason(parse_args(&strings(&["hit-test", "--id", "a"])).unwrap_err()),
        "hit-test requires `--x-nm <value>`"
    );
    assert_eq!(
        config_reason(parse_args(&strings(&["hit-test", "--x-nm", "1.5", "--id"])).unwrap_err()),
        "invalid hit-test --x-nm `1.5`: invalid digit found in string"
    );

    let (_, cmd) = parse_args(&strings(&["open-docs", "--type", "schematic"])).unwrap();
    assert_eq!(cmd, Command::OpenDocs { document_type: DocumentType::Schematic });
    let (_, cmd) = parse_args(&strings(&["open-docs"])).unwrap();
    assert_eq!(cmd, Command::OpenDocs { document_type: DocumentType::Pcb });
    assert_eq!(
        config_reason(parse_args(&strings(&["board-origin", "--type", "nope"])).unwrap_err()),
        "unknown board origin kind `nope`; expected `grid` or `drill`"
    );
    let (_, cmd) = parse_args(&strings(&["board-origin", "--type", "drill"])).unwrap();
    assert_eq!(cmd, Command::BoardOrigin { kind: BoardOriginKind::Drill });

    let (_, cmd) = parse_args(&strings(&["items-raw", "--type-id", "5", "--debug"])).unwrap();
    assert_eq!(cmd, Command::ItemsRaw { type_codes: vec![5], include_debug: true });
    assert_eq!(
        config_reason(parse_args(&strings(&["items-raw", "--debug"])).unwrap_err()),
        "items-raw requires one or more `--type-id <i32>` arguments"
    );
    let (_, cmd) = parse_args(&strings(&["items-raw-all-pcb", "--debug"])).unwrap();
    assert_eq!(cmd, Command::ItemsRawAllPcb { include_debug: true });

    assert_eq!(
        config_reason(parse_args(&strings(&["pad-shape-polygon", "--pad-id", "p"])).unwrap_err()),
        "pad-shape-polygon requires `--layer-id <i32>`"
    );
    let (_, cmd) = parse_args(&strings(&[
        "padstack-presence", "--item-id", "i", "--layer-id", "3", "--layer-id", "4",
    ]))
    .unwrap();
    assert_eq!(
        cmd,
        Command::PadstackPresence {
            item_ids: vec!["i".to_string()],
            layer_ids: vec![3, 4],
            include_debug: false
        }
    );

    let (_, cmd) = parse_args(&strings(&["board-read-report"])).unwrap();
    assert_eq!(cmd, Command::BoardReadReport { output: "docs/BOARD_READ_REPORT.md".to_string() });
    let (_, cmd) = parse_args(&strings(&["text-extents", "--text", "a", "--text", "b"])).unwrap();
    assert_eq!(cmd, Command::TextExtents { text: "b".to_string() });
    assert_eq!(
        config_reason(parse_args(&strings(&["text-as-shapes"])).unwrap_err()),
        "text-as-shapes requires one or more `--text <value>` arguments"
    );
    assert_eq!(
        config_reason(parse_args(&strings(&["expand-text-variables", "--text"])).unwrap_err()),
        "missing value for expand-text-variables --text"
    );
    let (_, cmd) = parse_args(&strings(&["item-bbox", "--include-text", "--id", "z"])).unwrap();
    assert_eq!(
        cmd,
        Command::ItemBBox { item_ids: vec!["z".to_string()], include_child_text: true }
    );
    let (_, cmd) = parse_args(&strings(&["items-by-id", "--id", "q"])).unwrap();
    assert_eq!(cmd, Command::ItemsById { item_ids: vec!["q".to_string()] });
    let (_, cmd) = parse_args(&strings(&["-h"])).unwrap();
    assert_eq!(cmd, Command::Help);
}

#[test]
fn the_last_token_wins_and_keeps_the_other_settings() {
    let b = ClientBuilder::new()
        .timeout(Duration::from_millis(250))
        .socket_path("/tmp/x.sock")
        .client_name("tool")
        .token("first")
        .token("second");
    assert_eq!(b.configured_token().as_deref(), Some("second"));
    assert_eq!(b.configured_timeout(), Duration::from_millis(250));
    assert_eq!(b.configured_socket_uri().as_deref(), Some("/tmp/x.sock"));
    assert_eq!(b.configured_client_name().as_deref(), Some("tool"));
}

#[test]
fn a_missing_ipc_socket_stops_the_connection() {
    match check_socket_available("ipc:///tmp/kicad/api.sock", false) {
        Err(KiCadError::SocketUnavailable { socket_uri }) => {
            assert_eq!(socket_uri, "ipc:///tmp/kicad/api.sock")
        }
        other => panic!("unexpected result: {other:?}"),
    }
    assert!(check_socket_available("ipc:///tmp/kicad/api.sock", true).is_ok());
    assert!(check_socket_available("tcp://127.0.0.1:5555", false).is_ok());
}

#[test]
fn only_help_is_answered_without_a_connection() {
    let (_, help) = parse_args(&[]).unwrap();
    assert!(!needs_connection(&help));
    let (_, ping) = parse_args(&strings(&["ping"])).unwrap();
    assert!(needs_connection(&ping));
}
