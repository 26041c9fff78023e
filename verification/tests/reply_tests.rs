use kicad_ipc::client::{board_origin_kind_to_proto, model_document_to_proto, reply_outcome};
use kicad_ipc::items::{selection_item_kind, SelectionItem, SelectionItemKind};
use kicad_ipc::proto;
use kicad_ipc::replies::{
    board_origin_request, board_request, items_request, nets_request, open_documents_request,
    check_item_request_status, current_board_document, documents_from_reply,
    enabled_layers_from_reply, layers_from_reply, nets_from_reply, selection_details,
    version_from_reply,
};
use kicad_ipc::{BoardOriginKind, DocumentSpecifier, DocumentType, KiCadError, ProjectInfo};

fn api_doc(code: i32, board: Option<&str>, name: &str, path: &str) -> proto::DocumentSpecifier {
    proto::DocumentSpecifier {
        document_type: code,
        project: Some(proto::ProjectSpecifier {
            name: name.to_string(),
            path: path.to_string(),
        }),
        identifier: board.map(|b| proto::DocumentIdentifier::BoardFilename(b.to_string())),
    }
}

#[test]
fn version_reply_is_copied_field_by_field() {
    let version = version_from_reply(Some(proto::KiCadVersion {
        major: 9,
        minor: 0,
        patch: 3,
        full_version: "9.0.3-release".to_string(),
    }))
    .unwrap();
    assert_eq!(version.major, 9);
    assert_eq!(version.minor, 0);
    assert_eq!(version.patch, 3);
    assert_eq!(version.full_version, "9.0.3-release");
}

#[test]
fn version_reply_without_version_is_missing_payload() {
    match version_from_reply(None) {
        Err(KiCadError::MissingPayload { expected_type_url }) => {
            assert_eq!(expected_type_url, "kiapi.common.types.KiCadVersion")
        }
        other => panic!("unexpected result: {other:?}"),
    }
}

#[test]
fn documents_reply_skips_unknown_types_and_keeps_order() {
    let docs = documents_from_reply(vec![
        api_doc(3, Some("a.kicad_pcb"), "a", "/tmp/a"),
        api_doc(0, Some("ignored.kicad_pcb"), "x", "/tmp/x"),
        api_doc(1, None, "", ""),
        api_doc(42, None, "y", "/tmp/y"),
    ]);
    assert_eq!(docs.len(), 2);
    assert_eq!(
        docs[0],
        DocumentSpecifier {
            document_type: DocumentType::Pcb,
            board_filename: Some("a.kicad_pcb".to_string()),
            project: ProjectInfo {
                name: Some("a".to_string()),
                path: Some("/tmp/a".to_string()),
            },
        }
    );
    assert_eq!(docs[1].document_type, DocumentType::Schematic);
    assert_eq!(docs[1].board_filename, None);
    assert_eq!(docs[1].project.name, None);
    assert_eq!(docs[1].project.path, None);
}

#[test]
fn documents_reply_of_nothing_is_empty() {
    assert!(documents_from_reply(Vec::new()).is_empty());
}

#[test]
fn nets_reply_uses_zero_for_a_missing_code() {
    let nets = nets_from_reply(vec![
        proto::Net {
            code: Some(12),
            name: "GND".to_string(),
        },
        proto::Net {
            code: None,
            name: "".to_string(),
        },
    ]);
    assert_eq!(nets.len(), 2);
    assert_eq!(nets[0].code, 12);
    assert_eq!(nets[0].name, "GND");
    assert_eq!(nets[1].code, 0);
    assert_eq!(nets[1].name, "");
}

#[test]
fn layers_reply_names_each_layer() {
    let layers = layers_from_reply(&vec![3, 34, 5, 999]);
    let names: Vec<&str> = layers.iter().map(|l| l.name.as_str()).collect();
    assert_eq!(names, vec!["BL_F_Cu", "BL_B_Cu", "BL_In2_Cu", "UNKNOWN_LAYER(999)"]);
    assert_eq!(layers[3].id, 999);

    let enabled = enabled_layers_from_reply(4, &vec![3, 4, 5, 34]);
    assert_eq!(enabled.copper_layer_count, 4);
    assert_eq!(enabled.layers.len(), 4);
    assert_eq!(enabled.layers[1].name, "BL_In1_Cu");
}

#[test]
fn item_request_status_ok_passes_and_others_are_named() {
    assert!(check_item_request_status(1).is_ok());
    for (code, name) in [
        (0, "IRS_UNKNOWN"),
        (2, "IRS_DOCUMENT_NOT_FOUND"),
        (3, "IRS_FIELD_MASK_INVALID"),
        (77, "IRS_UNKNOWN"),
    ] {
        match check_item_request_status(code) {
            Err(KiCadError::ItemStatus { code }) => assert_eq!(code, name),
            other => panic!("unexpected result: {other:?}"),
        }
    }
}

#[test]
fn current_board_document_needs_exactly_one_board() {
    let one = vec![DocumentSpecifier {
        document_type: DocumentType::Pcb,
        board_filename: Some("demo.kicad_pcb".to_string()),
        project: ProjectInfo {
            name: Some("demo".to_string()),
            path: None,
        },
    }];
    let api = current_board_document(&one).unwrap();
    assert_eq!(api.document_type, 3);
    assert_eq!(
        api.identifier,
        Some(proto::DocumentIdentifier::BoardFilename("demo.kicad_pcb".to_string()))
    );
    assert_eq!(
        api.project,
        Some(proto::ProjectSpecifier {
            name: "demo".to_string(),
            path: String::new(),
        })
    );

    assert!(matches!(current_board_document(&[]), Err(KiCadError::BoardNotOpen)));
    let two = vec![one[0].clone(), one[0].clone()];
    match current_board_document(&two) {
        Err(KiCadError::AmbiguousBoardSelection { boards }) => {
            assert_eq!(boards, vec!["demo.kicad_pcb", "demo.kicad_pcb"])
        }
        other => panic!("unexpected result: {other:?}"),
    }
}

#[test]
fn selection_details_pair_type_urls_descriptions_and_lengths() {
    let items = vec![
        proto::AnyPayload {
            type_url: "type.googleapis.com/kiapi.board.types.Field".to_string(),
            value: vec![1, 2, 3, 4],
        },
        proto::AnyPayload {
            type_url: "type.googleapis.com/kiapi.board.types.Via".to_string(),
            value: vec![7, 7],
        },
    ];
    // Each payload is decoded as its type URL says.
    assert_eq!(selection_item_kind(&items[0].type_url), SelectionItemKind::Field);
    assert_eq!(selection_item_kind(&items[1].type_url), SelectionItemKind::Unparsed);
    let decoded = vec![
        Ok(SelectionItem::Field(proto::Field {
            name: "Reference".to_string(),
            visible: true,
            text: Some("R1".to_string()),
        })),
        Ok(SelectionItem::Unparsed { raw_len: items[1].value.len() }),
    ];
    let details = selection_details(&items, &decoded).unwrap();
    assert_eq!(details.len(), 2);
    assert_eq!(details[0].type_url, "type.googleapis.com/kiapi.board.types.Field");
    assert_eq!(details[0].detail, "field name=Reference visible=true text=R1");
    assert_eq!(details[0].raw_len, 4);
    assert_eq!(details[1].detail, "unparsed payload (2 bytes)");
    assert_eq!(details[1].raw_len, 2);
}

#[test]
fn selection_details_report_the_first_decode_failure() {
    let track_url = "type.googleapis.com/kiapi.board.types.Track".to_string();
    let items = vec![
        proto::AnyPayload {
            type_url: track_url.clone(),
            value: vec![0xff],
        },
        proto::AnyPayload {
            type_url: track_url,
            value: vec![0xfe],
        },
    ];
    let decoded = vec![Err("first".to_string()), Err("second".to_string())];
    match selection_details(&items, &decoded) {
        Err(KiCadError::ProtobufDecode(m)) => assert_eq!(m, "first"),
        other => panic!("unexpected result: {other:?}"),
    }
}

#[test]
fn board_origin_kinds_have_their_wire_codes() {
    assert_eq!(board_origin_kind_to_proto(BoardOriginKind::Grid), 1);
    assert_eq!(board_origin_kind_to_proto(BoardOriginKind::Drill), 2);
}

#[test]
fn documents_come_back_from_their_api_forms() {
    let docs = vec![
        DocumentSpecifier {
            document_type: DocumentType::Pcb,
            board_filename: Some("a.kicad_pcb".to_string()),
            project: ProjectInfo {
                name: Some("a".to_string()),
                path: Some("/tmp/a".to_string()),
            },
        },
        DocumentSpecifier {
            document_type: DocumentType::Symbol,
            board_filename: None,
            project: ProjectInfo {
                name: None,
                path: None,
            },
        },
    ];
    let api: Vec<proto::DocumentSpecifier> = docs.iter().map(model_document_to_proto).collect();
    assert_eq!(documents_from_reply(api), docs);
}

fn one_board() -> Vec<DocumentSpecifier> {
    vec![DocumentSpecifier {
        document_type: DocumentType::Pcb,
        board_filename: Some("demo.kicad_pcb".to_string()),
        project: ProjectInfo {
            name: Some("demo".to_string()),
            path: Some("/tmp/demo".to_string()),
        },
    }]
}

#[test]
fn replies_that_are_not_ok_end_in_an_api_status_error() {
    let unhandled = proto::ResponseStatus {
        status: 5,
        error_message: "no handler".to_string(),
    };
    match reply_outcome("", &unhandled, Some("tok")) {
        Err(KiCadError::ApiStatus { code, message }) => {
            assert_eq!(code, "AS_UNHANDLED");
            assert_eq!(message, "no handler");
        }
        other => panic!("unexpected result: {other:?}"),
    }
    let odd = proto::ResponseStatus {
        status: 99,
        error_message: String::new(),
    };
    assert!(matches!(
        reply_outcome("", &odd, None),
        Err(KiCadError::ApiStatus { code, .. }) if code == "AS_UNKNOWN"
    ));
    let ok = proto::ResponseStatus {
        status: 1,
        error_message: String::new(),
    };
    assert_eq!(reply_outcome("", &ok, Some("tok")).unwrap(), Some("tok".to_string()));
    assert_eq!(reply_outcome("mine", &ok, Some("tok")).unwrap(), None);
    assert_eq!(reply_outcome("", &ok, Some("")).unwrap(), None);
}

#[test]
fn requests_name_the_one_open_board() {
    let docs = one_board();
    let board = model_document_to_proto(&docs[0]);
    assert_eq!(open_documents_request(DocumentType::Pcb).document_type, 3);
    let nets = nets_request(&docs).unwrap();
    assert_eq!(nets.board, board);
    assert!(nets.netclass_filter.is_empty());
    assert_eq!(board_request(&docs).unwrap().board, board);
    let origin = board_origin_request(&docs, BoardOriginKind::Drill).unwrap();
    assert_eq!(origin.board, board);
    assert_eq!(origin.origin_type, 2);
    let items = items_request(&docs, vec![11, 12]).unwrap();
    assert_eq!(items.document, board);
    assert_eq!(items.types, vec![11, 12]);
    assert!(matches!(nets_request(&[]), Err(KiCadError::BoardNotOpen)));
    let two = vec![docs[0].clone(), docs[0].clone()];
    assert!(matches!(
        items_request(&two, Vec::new()),
        Err(KiCadError::AmbiguousBoardSelection { .. })
    ));
}
