//! What each request to KiCad asks for, and what it makes of the reply,
//! once the reply has been unpacked into plain values.

use vstd::prelude::*;
use vstd::string::StringExecFns;

use crate::client::{
    document_view, layer_info_name, layer_to_model, map_document_specifier, mapped_document,
    model_document_to_proto, proto_document_view, document_to_proto_view,
    select_single_board_document, board_label, lemma_document_roundtrip, board_origin_kind_code,
    board_origin_kind_to_proto,
};
use crate::error::KiCadError;
use crate::model::board::{BoardEnabledLayers, BoardLayerInfo, BoardNet, BoardOriginKind};
use crate::items::{
    selection_item_detail, selection_item_detail_text, selection_item_kind_of, SelectionItem,
    SelectionItemKind,
};
use crate::model::common::{
    document_type_code, DocumentSpecifier, DocumentType, SelectionItemDetail, VersionInfo,
};
use crate::proto;
use crate::text::strings_view;

verus! {

/// The type URL named when a version reply carries no version.
pub open spec fn version_type_url() -> Seq<char> {
    "kiapi.common.types.KiCadVersion"@
}

/// The version of the running KiCad, read from a `GetVersion` reply.
pub fn version_from_reply(version: Option<proto::KiCadVersion>) -> (r: Result<VersionInfo, KiCadError>)
    ensures
        r is Ok <==> version is Some,
        r matches Ok(v) ==> (version matches Some(w) && v.major == w.major && v.minor == w.minor
            && v.patch == w.patch && v.full_version@ == w.full_version@),
        r matches Err(e) ==> (e matches KiCadError::MissingPayload { expected_type_url }
            && expected_type_url@ == version_type_url()),
{
    match version {
        Some(w) => Ok(
            VersionInfo {
                major: w.major,
                minor: w.minor,
                patch: w.patch,
                full_version: w.full_version,
            },
        ),
        None => Err(
            KiCadError::MissingPayload {
                expected_type_url: String::from_str("kiapi.common.types.KiCadVersion"),
            },
        ),
    }
}

/// The model's reading of the documents in a `GetOpenDocuments` reply:
/// each one read as `mapped_document` says, those of unknown type left out,
/// in reply order.
pub open spec fn mapped_documents(
    docs: Seq<(i32, Option<(Seq<char>, Seq<char>)>, Option<Option<Seq<char>>>)>,
) -> Seq<(crate::model::common::DocumentType, Option<Seq<char>>, Option<Seq<char>>, Option<Seq<char>>)>
    decreases docs.len(),
{
    if docs.len() == 0 {
        Seq::empty()
    } else {
        let rest = mapped_documents(docs.drop_last());
        match mapped_document(docs.last()) {
            Some(d) => rest.push(d),
            None => rest,
        }
    }
}

/// A list of documents survives the trip to their API forms and back
/// through a document reply, as long as none has an empty project name or
/// path: every one is of a known type, so none is left out.
pub proof fn lemma_documents_roundtrip(
    docs: Seq<(crate::model::common::DocumentType, Option<Seq<char>>, Option<Seq<char>>, Option<Seq<char>>)>,
)
    requires
        forall|k: int|
            0 <= k < docs.len() ==> (#[trigger] docs[k]).2 != Some(Seq::<char>::empty()) && docs[k].3
                != Some(Seq::<char>::empty()),
    ensures
        mapped_documents(docs.map_values(|d| document_to_proto_view(d))) == docs,
    decreases docs.len(),
{
    if docs.len() > 0 {
        let rest = docs.drop_last();
        assert forall|k: int| 0 <= k < rest.len() implies (#[trigger] rest[k]).2 != Some(
            Seq::<char>::empty(),
        ) && rest[k].3 != Some(Seq::<char>::empty()) by {
            assert(rest[k] == docs[k]);
        }
        lemma_documents_roundtrip(rest);
        lemma_document_roundtrip(docs.last());
        let api = docs.map_values(|d| document_to_proto_view(d));
        assert(api.drop_last() =~= rest.map_values(|d| document_to_proto_view(d)));
        assert(api.last() == document_to_proto_view(docs.last()));
        assert(rest.push(docs.last()) =~= docs);
    }
}

/// The open documents listed in a `GetOpenDocuments` reply.
pub fn documents_from_reply(documents: Vec<proto::DocumentSpecifier>) -> (r: Vec<DocumentSpecifier>)
    ensures
        r@.map_values(|d: DocumentSpecifier| document_view(d)) == mapped_documents(
            documents@.map_values(|m: proto::DocumentSpecifier| proto_document_view(m)),
        ),
{
    let ghost src = documents@.map_values(|m: proto::DocumentSpecifier| proto_document_view(m));
    let n: usize = documents.len();
    let mut out: Vec<DocumentSpecifier> = Vec::new();
    let mut rest = documents;
    let mut i: usize = 0;
    while rest.len() > 0
        invariant
            rest@.len() + i == n,
            n == documents@.len(),
            src == documents@.map_values(|m: proto::DocumentSpecifier| proto_document_view(m)),
            rest@ == documents@.subrange(i as int, n as int),
            out@.map_values(|d: DocumentSpecifier| document_view(d)) == mapped_documents(
                src.subrange(0, i as int),
            ),
        decreases rest@.len(),
    {
        let m = rest.remove(0);
        let ghost prev = out@;
        let ghost sub = src.subrange(0, i as int + 1);
        assert(m == documents@[i as int]);
        assert(sub.drop_last() =~= src.subrange(0, i as int));
        assert(sub.last() == proto_document_view(m));
        match map_document_specifier(m) {
            Some(d) => {
                out.push(d);
                assert(out@.map_values(|d: DocumentSpecifier| document_view(d)) =~= prev.map_values(
                    |d: DocumentSpecifier| document_view(d),
                ).push(document_view(d)));
            },
            None => {},
        }
        i = i + 1;
        assert(rest@ =~= documents@.subrange(i as int, n as int));
    }
    assert(src.subrange(0, n as int) =~= src);
    out
}

/// The code a net is listed under: its own, or 0 where it has none.
pub open spec fn net_code_or_zero(n: proto::Net) -> i32 {
    match n.code {
        Some(c) => c,
        None => 0,
    }
}

/// The nets listed in a `GetNets` reply, in reply order.
pub fn nets_from_reply(nets: Vec<proto::Net>) -> (r: Vec<BoardNet>)
    ensures
        r@.len() == nets@.len(),
        forall|k: int|
            0 <= k < nets@.len() ==> (#[trigger] r@[k]).code == net_code_or_zero(nets@[k])
                && r@[k].name@ == nets@[k].name@,
{
    let n: usize = nets.len();
    let mut out: Vec<BoardNet> = Vec::new();
    let mut rest = nets;
    let mut i: usize = 0;
    while rest.len() > 0
        invariant
            rest@.len() + i == n,
            n == nets@.len(),
            rest@ == nets@.subrange(i as int, n as int),
            out@.len() == i,
            forall|k: int|
                0 <= k < i ==> (#[trigger] out@[k]).code == net_code_or_zero(nets@[k])
                    && out@[k].name@ == nets@[k].name@,
        decreases rest@.len(),
    {
        let net = rest.remove(0);
        assert(net == nets@[i as int]);
        let code = match net.code {
            Some(c) => c,
            None => 0,
        };
        out.push(BoardNet { code, name: net.name });
        i = i + 1;
        assert(rest@ =~= nets@.subrange(i as int, n as int));
    }
    out
}

/// The layers listed by code in a reply, each with its name.
pub fn layers_from_reply(layers: &Vec<i32>) -> (r: Vec<BoardLayerInfo>)
    ensures
        r@.len() == layers@.len(),
        forall|k: int|
            0 <= k < layers@.len() ==> (#[trigger] r@[k]).id == layers@[k] && r@[k].name@
                == layer_info_name(layers@[k] as int),
{
    let mut out: Vec<BoardLayerInfo> = Vec::new();
    let mut i: usize = 0;
    while i < layers.len()
        invariant
            i <= layers@.len(),
            out@.len() == i,
            forall|k: int|
                0 <= k < i ==> (#[trigger] out@[k]).id == layers@[k] && out@[k].name@
                    == layer_info_name(layers@[k] as int),
        decreases layers@.len() - i,
    {
        out.push(layer_to_model(layers[i]));
        i = i + 1;
    }
    out
}

/// The enabled layers of the board, read from a `GetBoardEnabledLayers`
/// reply: the copper layer count as given, and each layer with its name.
pub fn enabled_layers_from_reply(copper_layer_count: u32, layers: &Vec<i32>) -> (r: BoardEnabledLayers)
    ensures
        r.copper_layer_count == copper_layer_count,
        r.layers@.len() == layers@.len(),
        forall|k: int|
            0 <= k < layers@.len() ==> (#[trigger] r.layers@[k]).id == layers@[k]
                && r.layers@[k].name@ == layer_info_name(layers@[k] as int),
{
    BoardEnabledLayers { copper_layer_count, layers: layers_from_reply(layers) }
}

/// The name of an item request status code (`kiapi.common.types.ItemRequestStatus`);
/// a code outside the enumeration reads as the unknown status.
pub open spec fn item_request_status_name(code: i32) -> Seq<char> {
    if code == 1 {
        "IRS_OK"@
    } else if code == 2 {
        "IRS_DOCUMENT_NOT_FOUND"@
    } else if code == 3 {
        "IRS_FIELD_MASK_INVALID"@
    } else {
        "IRS_UNKNOWN"@
    }
}

/// The names of the API's `ItemRequestStatus` values: 1 is `IRS_OK`, 2
/// `IRS_DOCUMENT_NOT_FOUND`, 3 `IRS_FIELD_MASK_INVALID`, and every other
/// code reads as `IRS_UNKNOWN`.
pub proof fn lemma_item_request_status_names(code: i32)
    ensures
        item_request_status_name(1) == "IRS_OK"@,
        item_request_status_name(2) == "IRS_DOCUMENT_NOT_FOUND"@,
        item_request_status_name(3) == "IRS_FIELD_MASK_INVALID"@,
        (code < 1 || code > 3) ==> item_request_status_name(code) == "IRS_UNKNOWN"@,
{
}

/// Checks the status of a `GetItems` reply: only the OK status (code 1)
/// lets the items through; any other is an item status error naming it.
pub fn check_item_request_status(status: i32) -> (r: Result<(), KiCadError>)
    ensures
        r is Ok <==> status == 1,
        r matches Err(e) ==> (e matches KiCadError::ItemStatus { code } && code@
            == item_request_status_name(status)),
{
    if status == 1 {
        return Ok(());
    }
    let name = if status == 2 {
        "IRS_DOCUMENT_NOT_FOUND"
    } else if status == 3 {
        "IRS_FIELD_MASK_INVALID"
    } else {
        "IRS_UNKNOWN"
    };
    Err(KiCadError::ItemStatus { code: String::from_str(name) })
}

/// The board document that board requests name: the one open board, in
/// its API form, or the error `select_single_board_document` gives.
pub fn current_board_document(docs: &[DocumentSpecifier]) -> (r: Result<proto::DocumentSpecifier, KiCadError>)
    ensures
        r is Ok <==> docs@.len() == 1,
        r matches Ok(m) ==> proto_document_view(m) == document_to_proto_view(document_view(docs@[0])),
        docs@.len() == 0 ==> r matches Err(KiCadError::BoardNotOpen),
        docs@.len() > 1 ==> (r matches Err(KiCadError::AmbiguousBoardSelection { boards })
            && strings_view(boards@) == docs@.map_values(|d: DocumentSpecifier| board_label(d))),
{
    match select_single_board_document(docs) {
        Ok(selected) => Ok(model_document_to_proto(selected)),
        Err(e) => Err(e),
    }
}

/// The kind of a decoded item.
pub open spec fn item_kind(d: SelectionItem) -> SelectionItemKind {
    match d {
        SelectionItem::Track(_) => SelectionItemKind::Track,
        SelectionItem::Footprint(_) => SelectionItemKind::Footprint,
        SelectionItem::Field(_) => SelectionItemKind::Field,
        SelectionItem::BoardGraphicShape(_) => SelectionItemKind::BoardGraphicShape,
        SelectionItem::Unparsed { .. } => SelectionItemKind::Unparsed,
    }
}

/// `decoded` is a decoding of the packed item as its type URL says: a
/// message of the type the URL names (an item of an undescribed type with
/// its payload's length), or the text of the error decoding a described
/// type failed with.
pub open spec fn decodes(item: proto::AnyPayload, decoded: Result<SelectionItem, String>) -> bool {
    match decoded {
        Ok(d) => item_kind(d) == selection_item_kind_of(item.type_url@) && (d matches SelectionItem::Unparsed {
            raw_len,
        } ==> raw_len == item.value@.len()),
        Err(_) => selection_item_kind_of(item.type_url@) != SelectionItemKind::Unparsed,
    }
}

/// The description of the `k`th item is right.
pub open spec fn detail_of(
    d: SelectionItemDetail,
    item: proto::AnyPayload,
    decoded: Result<SelectionItem, String>,
) -> bool {
    &&& d.type_url@ == item.type_url@
    &&& decoded matches Ok(x) && d.detail@ == selection_item_detail_text(x)
    &&& d.raw_len == item.value@.len()
}

/// The `j`th payload is the first that failed to decode, and `e` is the
/// decode error that carries its text.
pub open spec fn first_decode_failure(
    decoded: Seq<Result<SelectionItem, String>>,
    j: int,
    e: KiCadError,
) -> bool {
    &&& 0 <= j < decoded.len()
    &&& forall|k: int| 0 <= k < j ==> (#[trigger] decoded[k]) is Ok
    &&& decoded[j] matches Err(m)
    &&& e matches KiCadError::ProtobufDecode(t)
    &&& t@ == decoded[j]->Err_0@
}

/// Describes each selected item: its type URL, the description of its
/// decoded payload and the payload's length in bytes. `decoded[k]` is the
/// payload of `items[k]` decoded as its type URL says. Where a payload
/// failed to decode, the first such failure ends the listing with a
/// decode error that carries its text.
pub fn selection_details(
    items: &Vec<proto::AnyPayload>,
    decoded: &Vec<Result<SelectionItem, String>>,
) -> (r: Result<Vec<SelectionItemDetail>, KiCadError>)
    requires
        decoded@.len() == items@.len(),
        forall|k: int| 0 <= k < items@.len() ==> decodes(items@[k], #[trigger] decoded@[k]),
    ensures
        r is Ok <==> forall|k: int| 0 <= k < decoded@.len() ==> (#[trigger] decoded@[k]) is Ok,
        r matches Ok(v) ==> v@.len() == items@.len() && forall|k: int|
            0 <= k < items@.len() ==> detail_of(#[trigger] v@[k], items@[k], decoded@[k]),
        r matches Err(e) ==> exists|j: int| #[trigger] first_decode_failure(decoded@, j, e),
{
    let mut out: Vec<SelectionItemDetail> = Vec::new();
    let mut i: usize = 0;
    while i < items.len()
        invariant
            decoded@.len() == items@.len(),
            i <= items@.len(),
            out@.len() == i,
            forall|k: int| 0 <= k < i ==> (#[trigger] decoded@[k]) is Ok,
            forall|k: int| 0 <= k < i ==> detail_of(#[trigger] out@[k], items@[k], decoded@[k]),
        decreases items@.len() - i,
    {
        let item = &items[i];
        match &decoded[i] {
            Ok(d) => {
                out.push(
                    SelectionItemDetail {
                        type_url: item.type_url.clone(),
                        detail: selection_item_detail(d),
                        raw_len: item.value.len(),
                    },
                );
            },
            Err(m) => {
                let e = KiCadError::ProtobufDecode(m.clone());
                assert(first_decode_failure(decoded@, i as int, e));
                return Err(e);
            },
        }
        i = i + 1;
    }
    Ok(out)
}

/// The request for the open documents of a type.
pub fn open_documents_request(document_type: DocumentType) -> (r: proto::GetOpenDocuments)
    ensures
        r.document_type == document_type_code(document_type),
{
    proto::GetOpenDocuments { document_type: document_type.to_proto() }
}

/// The board document is the API form of the one open board.
pub open spec fn names_the_board(docs: Seq<DocumentSpecifier>, board: proto::DocumentSpecifier) -> bool {
    docs.len() == 1 && proto_document_view(board) == document_to_proto_view(document_view(docs[0]))
}

/// Which error a board request ends with when there is not exactly one
/// open board: none open, or several, listed by file name.
pub open spec fn board_choice_error(docs: Seq<DocumentSpecifier>, e: KiCadError) -> bool {
    (docs.len() == 0 ==> e is BoardNotOpen) && (docs.len() > 1 ==> (e matches KiCadError::AmbiguousBoardSelection { boards }
        && strings_view(boards@) == docs.map_values(|d: DocumentSpecifier| board_label(d))))
}

/// The request for the nets of the one open board, with no net class filter.
pub fn nets_request(docs: &[DocumentSpecifier]) -> (r: Result<proto::GetNets, KiCadError>)
    ensures
        r is Err <==> docs@.len() != 1,
        r matches Ok(m) ==> names_the_board(docs@, m.board) && m.netclass_filter@.len() == 0,
        r matches Err(e) ==> board_choice_error(docs@, e),
{
    match current_board_document(docs) {
        Ok(board) => Ok(proto::GetNets { board, netclass_filter: Vec::new() }),
        Err(e) => Err(e),
    }
}

/// The request that names only the one open board, for its enabled, active
/// or visible layers.
pub fn board_request(docs: &[DocumentSpecifier]) -> (r: Result<proto::BoardRequest, KiCadError>)
    ensures
        r is Err <==> docs@.len() != 1,
        r matches Ok(m) ==> names_the_board(docs@, m.board),
        r matches Err(e) ==> board_choice_error(docs@, e),
{
    match current_board_document(docs) {
        Ok(board) => Ok(proto::BoardRequest { board }),
        Err(e) => Err(e),
    }
}

/// The request for an origin of the one open board.
pub fn board_origin_request(docs: &[DocumentSpecifier], kind: BoardOriginKind) -> (r: Result<
    proto::GetBoardOrigin,
    KiCadError,
>)
    ensures
        r is Err <==> docs@.len() != 1,
        r matches Ok(m) ==> names_the_board(docs@, m.board) && m.origin_type
            == board_origin_kind_code(kind),
        r matches Err(e) ==> board_choice_error(docs@, e),
{
    match current_board_document(docs) {
        Ok(board) => Ok(proto::GetBoardOrigin { board, origin_type: board_origin_kind_to_proto(kind) }),
        Err(e) => Err(e),
    }
}

/// The request for the items of the given object types on the one open
/// board; with no types it asks for the board's selection.
pub fn items_request(docs: &[DocumentSpecifier], types: Vec<i32>) -> (r: Result<
    proto::ItemsRequest,
    KiCadError,
>)
    ensures
        r is Err <==> docs@.len() != 1,
        r matches Ok(m) ==> names_the_board(docs@, m.document) && m.types@ == types@,
        r matches Err(e) ==> board_choice_error(docs@, e),
{
    match current_board_document(docs) {
        Ok(document) => Ok(proto::ItemsRequest { document, types }),
        Err(e) => Err(e),
    }
}

} // verus!
