use kicad_ipc::client::{
    layer_to_model, model_document_to_proto, normalize_socket_uri, select_single_board_document,
    select_single_project_path, summarize_selection,
};
use kicad_ipc::items::pad_netlist_from_footprint_items;
use kicad_ipc::items::{selection_item_detail, SelectionItem};
use kicad_ipc::proto;
use kicad_ipc::{DocumentSpecifier, DocumentType, KiCadError, ProjectInfo};

fn doc(board: &str, name: &str, path: &str) -> DocumentSpecifier {
    DocumentSpecifier {
        document_type: DocumentType::Pcb,
        board_filename: Some(board.to_string()),
        project: ProjectInfo {
            name: Some(name.to_string()),
            path: Some(path.to_string()),
        },
    }
}

#[test]
fn normalize_socket_uri_adds_ipc_scheme() {
    let normalized = normalize_socket_uri("/tmp/kicad/api.sock");
    assert_eq!(normalized, "ipc:///tmp/kicad/api.sock");
}

#[test]
fn normalize_socket_uri_preserves_existing_scheme() {
    let normalized = normalize_socket_uri("ipc:///tmp/kicad/api.sock");
    assert_eq!(normalized, "ipc:///tmp/kicad/api.sock");
}

#[test]
fn select_single_project_path_picks_unique_path() {
    let docs = vec![doc("demo.kicad_pcb", "demo", "/tmp/demo")];

    let result = select_single_project_path(&docs)
        .expect("a single project path should be selected when exactly one path exists");
    assert_eq!(result, "/tmp/demo");
}

#[test]
fn select_single_project_path_errors_on_ambiguity() {
    let docs = vec![
        doc("a.kicad_pcb", "a", "/tmp/a"),
        doc("b.kicad_pcb", "b", "/tmp/b"),
    ];

    let result = select_single_project_path(&docs);
    assert!(matches!(
        result,
        Err(KiCadError::AmbiguousProjectPath { .. })
    ));
}

#[test]
fn select_single_project_path_requires_open_board() {
    let docs: Vec<DocumentSpecifier> = Vec::new();
    let result = select_single_project_path(&docs);
    assert!(matches!(result, Err(KiCadError::BoardNotOpen)));
}

#[test]
fn select_single_board_document_errors_on_multiple_open_boards() {
    let docs = vec![
        doc("a.kicad_pcb", "a", "/tmp/a"),
        doc("b.kicad_pcb", "b", "/tmp/b"),
    ];

    let result = select_single_board_document(&docs);
    assert!(matches!(
        result,
        Err(KiCadError::AmbiguousBoardSelection { .. })
    ));
}

#[test]
fn layer_to_model_formats_unknown_id() {
    let layer = layer_to_model(999);
    assert_eq!(layer.name, "UNKNOWN_LAYER(999)");
    assert_eq!(layer.id, 999);
}

#[test]
fn model_document_to_proto_carries_board_filename_and_project() {
    let document = doc("demo.kicad_pcb", "demo", "/tmp/demo");

    let proto = model_document_to_proto(&document);
    assert_eq!(proto.document_type, DocumentType::Pcb.to_proto());
    let identifier = proto.identifier.expect("identifier should be present");
    match identifier {
        proto::DocumentIdentifier::BoardFilename(filename) => {
            assert_eq!(filename, "demo.kicad_pcb")
        }
        other => panic!("unexpected identifier variant: {other:?}"),
    }

    let project = proto.project.expect("project should be present");
    assert_eq!(project.name, "demo");
    assert_eq!(project.path, "/tmp/demo");
}

#[test]
fn summarize_selection_counts_payload_types() {
    let items = vec![
        proto::AnyPayload {
            type_url: "type.googleapis.com/kiapi.board.types.Track".to_string(),
            value: vec![1, 2, 3],
        },
        proto::AnyPayload {
            type_url: "type.googleapis.com/kiapi.board.types.Track".to_string(),
            value: vec![9],
        },
        proto::AnyPayload {
            type_url: "type.googleapis.com/kiapi.board.types.Via".to_string(),
            value: vec![7, 7],
        },
    ];

    let summary = summarize_selection(items);
    assert_eq!(summary.total_items, 3);
    assert_eq!(summary.type_url_counts.len(), 2);
    assert_eq!(summary.type_url_counts[0].count, 2);
    assert_eq!(
        summary.type_url_counts[0].type_url,
        "type.googleapis.com/kiapi.board.types.Track"
    );
    assert_eq!(summary.type_url_counts[1].count, 1);
    assert_eq!(
        summary.type_url_counts[1].type_url,
        "type.googleapis.com/kiapi.board.types.Via"
    );
}

#[test]
fn selection_item_detail_reports_track_fields() {
    let track = proto::Track {
        id: Some("track-id".to_string()),
        start: Some(kicad_ipc::Vector2Nm { x_nm: 1, y_nm: 2 }),
        end: Some(kicad_ipc::Vector2Nm { x_nm: 3, y_nm: 4 }),
        width_nm: Some(99),
        layer: 3,
        net: Some(proto::Net {
            code: Some(12),
            name: "GND".to_string(),
        }),
    };

    let detail = selection_item_detail(&SelectionItem::Track(track));
    assert!(detail.contains("track id=track-id"));
    assert!(detail.contains("layer=BL_F_Cu"));
    assert!(detail.contains("net=12:GND"));
}

#[test]
fn pad_netlist_from_footprint_items_extracts_pad_entries() {
    let pad = proto::Pad {
        id: Some("pad-id".to_string()),
        number: "1".to_string(),
        net: Some(proto::Net {
            code: Some(5),
            name: "Net-(P1-PM)".to_string(),
        }),
    };

    let footprint = proto::FootprintInstance {
        id: Some("fp-id".to_string()),
        reference_text: Some("P1".to_string()),
        position: None,
        layer: 3,
        definition_items: vec![proto::FootprintItem::Pad(pad)],
    };

    let items = vec![proto::ItemPayload::Footprint(footprint)];

    let netlist = pad_netlist_from_footprint_items(&items)
        .expect("pad netlist should decode from footprint");
    assert_eq!(netlist.len(), 1);
    let entry = &netlist[0];
    assert_eq!(entry.footprint_reference.as_deref(), Some("P1"));
    assert_eq!(entry.pad_number, "1");
    assert_eq!(entry.net_code, Some(5));
}
