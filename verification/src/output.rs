//! The lines the command-line tool prints for the result of each command.

use vstd::prelude::*;
use vstd::string::StringExecFns;

use crate::cli::{bytes_to_hex, coverage_rows, hex_of, proto_coverage_board_read_rows};
use crate::error::KiCadError;
use crate::items::{bool_text, id_text, push_id};
use crate::model::board::{
    board_origin_kind_name, padstack_presence_text, BoardEnabledLayers, BoardLayerInfo, BoardNet,
    BoardOriginKind, NetClassType, PadNetEntry, PadShapeAsPolygonEntry, PadstackPresenceEntry,
    PolygonWithHolesNm, Vector2Nm,
};
use crate::model::common::{
    document_type_name, hit_test_result_name, DocumentSpecifier, DocumentType, ItemBoundingBox,
    ItemHitTestResult, SelectionItemDetail, SelectionSummary, SelectionTypeCount, TextExtents,
    TextShapeGeometry, TitleBlockInfo, VersionInfo,
};
use crate::proto::AnyPayload;
use crate::text::{
    concat2, int_decimal, lemma_strings_view_push, nat_decimal, push_decimal_i64, push_decimal_u128,
    strings_view,
};

verus! {

/// `version: <major>.<minor>.<patch> (<full version>)`.
pub open spec fn version_line_text(v: VersionInfo) -> Seq<char> {
    "version: "@ + nat_decimal(v.major as nat) + "."@ + nat_decimal(v.minor as nat) + "."@
        + nat_decimal(v.patch as nat) + " ("@ + v.full_version@ + ")"@
}

/// The line printed for the running KiCad's version.
pub fn version_line(v: &VersionInfo) -> (r: String)
    ensures
        r@ == version_line_text(*v),
{
    let mut s = String::from_str("version: ");
    push_decimal_u128(&mut s, v.major as u128);
    s.append(".");
    push_decimal_u128(&mut s, v.minor as u128);
    s.append(".");
    push_decimal_u128(&mut s, v.patch as u128);
    s.append(" (");
    s.append(v.full_version.as_str());
    s.append(")");
    s
}

/// `code=<code> name=<name>`.
pub open spec fn net_line_text(n: BoardNet) -> Seq<char> {
    "code="@ + int_decimal(n.code as int) + " name="@ + n.name@
}

/// The lines printed for the nets of the board: one per net, or a notice
/// that there are none.
pub open spec fn nets_output(nets: Seq<BoardNet>) -> Seq<Seq<char>> {
    if nets.len() == 0 {
        seq!["no nets returned"@]
    } else {
        Seq::new(nets.len(), |k: int| net_line_text(nets[k]))
    }
}

/// The line printed for one net.
pub fn net_line(n: &BoardNet) -> (r: String)
    ensures
        r@ == net_line_text(*n),
{
    let mut s = String::from_str("code=");
    push_decimal_i64(&mut s, n.code as i64);
    s.append(" name=");
    s.append(n.name.as_str());
    s
}

/// The lines printed for the nets of the board.
pub fn nets_lines(nets: &Vec<BoardNet>) -> (r: Vec<String>)
    ensures
        strings_view(r@) == nets_output(nets@),
{
    let mut out: Vec<String> = Vec::new();
    if nets.len() == 0 {
        out.push(String::from_str("no nets returned"));
        assert(strings_view(out@) =~= nets_output(nets@));
        return out;
    }
    let mut i: usize = 0;
    while i < nets.len()
        invariant
            i <= nets@.len(),
            strings_view(out@) =~= Seq::new(i as nat, |k: int| net_line_text(nets@[k])),
        decreases nets@.len() - i,
    {
        let line = net_line(&nets[i]);
        proof {
            lemma_strings_view_push(out@, line);
        }
        out.push(line);
        i = i + 1;
    }
    out
}

/// `layer_id=<id> layer_name=<name>`.
pub open spec fn layer_line_text(l: BoardLayerInfo) -> Seq<char> {
    "layer_id="@ + int_decimal(l.id as int) + " layer_name="@ + l.name@
}

fn layer_line(l: &BoardLayerInfo) -> (r: String)
    ensures
        r@ == layer_line_text(*l),
{
    let mut s = String::from_str("layer_id=");
    push_decimal_i64(&mut s, l.id as i64);
    s.append(" layer_name=");
    s.append(l.name.as_str());
    s
}

/// One line per layer, in order.
pub fn layer_lines(layers: &Vec<BoardLayerInfo>) -> (r: Vec<String>)
    ensures
        strings_view(r@) == layers@.map_values(|l: BoardLayerInfo| layer_line_text(l)),
{
    let mut out: Vec<String> = Vec::new();
    let mut i: usize = 0;
    while i < layers.len()
        invariant
            i <= layers@.len(),
            strings_view(out@) =~= layers@.subrange(0, i as int).map_values(
                |l: BoardLayerInfo| layer_line_text(l),
            ),
        decreases layers@.len() - i,
    {
        let line = layer_line(&layers[i]);
        proof {
            lemma_strings_view_push(out@, line);
            assert(layers@.subrange(0, i + 1) =~= layers@.subrange(0, i as int).push(layers@[i as int]));
        }
        out.push(line);
        i = i + 1;
    }
    assert(layers@.subrange(0, layers@.len() as int) =~= layers@);
    out
}

/// `-` for an absent text.
pub open spec fn or_dash(o: Option<String>) -> Seq<char> {
    id_text(o)
}

/// `[<index>] type=<type> board=<file> project_name=<name> project_path=<path>`,
/// with `-` for each absent part.
pub open spec fn open_doc_line_text(index: nat, d: DocumentSpecifier) -> Seq<char> {
    "["@ + nat_decimal(index) + "] type="@ + document_type_name(d.document_type) + " board="@
        + or_dash(d.board_filename) + " project_name="@ + or_dash(d.project.name)
        + " project_path="@ + or_dash(d.project.path)
}

/// The lines printed for the open documents of a type: one per document,
/// or a notice that none of that type is open.
pub open spec fn open_docs_output(t: DocumentType, docs: Seq<DocumentSpecifier>) -> Seq<Seq<char>> {
    if docs.len() == 0 {
        seq!["no open `"@ + document_type_name(t) + "` documents"@]
    } else {
        Seq::new(docs.len(), |k: int| open_doc_line_text(k as nat, docs[k]))
    }
}

/// The line printed for the open document at `index`.
pub fn open_doc_line(index: usize, d: &DocumentSpecifier) -> (r: String)
    ensures
        r@ == open_doc_line_text(index as nat, *d),
{
    let mut s = String::from_str("[");
    push_decimal_u128(&mut s, index as u128);
    s.append("] type=");
    let t = d.document_type.to_string();
    s.append(t.as_str());
    s.append(" board=");
    push_id(&mut s, &d.board_filename);
    s.append(" project_name=");
    push_id(&mut s, &d.project.name);
    s.append(" project_path=");
    push_id(&mut s, &d.project.path);
    s
}

/// The lines printed for the open documents of a type.
pub fn open_docs_lines(document_type: DocumentType, docs: &Vec<DocumentSpecifier>) -> (r: Vec<String>)
    ensures
        strings_view(r@) == open_docs_output(document_type, docs@),
{
    let mut out: Vec<String> = Vec::new();
    if docs.len() == 0 {
        let mut s = String::from_str("no open `");
        let t = document_type.to_string();
        s.append(t.as_str());
        s.append("` documents");
        out.push(s);
        assert(strings_view(out@) =~= open_docs_output(document_type, docs@));
        return out;
    }
    let mut i: usize = 0;
    while i < docs.len()
        invariant
            i <= docs@.len(),
            strings_view(out@) =~= Seq::new(i as nat, |k: int| open_doc_line_text(k as nat, docs@[k])),
        decreases docs@.len() - i,
    {
        let line = open_doc_line(i, &docs[i]);
        proof {
            lemma_strings_view_push(out@, line);
        }
        out.push(line);
        i = i + 1;
    }
    out
}

/// The lines printed for the enabled layers: the copper layer count, then
/// one line per layer.
pub fn enabled_layers_lines(enabled: &BoardEnabledLayers) -> (r: Vec<String>)
    ensures
        strings_view(r@) == seq!["copper_layer_count="@ + nat_decimal(enabled.copper_layer_count as nat)]
            + enabled.layers@.map_values(|l: BoardLayerInfo| layer_line_text(l)),
{
    let mut head = String::from_str("copper_layer_count=");
    push_decimal_u128(&mut head, enabled.copper_layer_count as u128);
    let mut out: Vec<String> = Vec::new();
    out.push(head);
    let mut rest = layer_lines(&enabled.layers);
    let ghost first = out@;
    let ghost tail = rest@;
    out.append(&mut rest);
    assert(strings_view(out@) =~= strings_view(first) + strings_view(tail));
    out
}

/// `active_layer_id=<id> active_layer_name=<name>`.
pub open spec fn active_layer_line_text(l: BoardLayerInfo) -> Seq<char> {
    "active_layer_id="@ + int_decimal(l.id as int) + " active_layer_name="@ + l.name@
}

/// The line printed for the active layer.
pub fn active_layer_line(l: &BoardLayerInfo) -> (r: String)
    ensures
        r@ == active_layer_line_text(*l),
{
    let mut s = String::from_str("active_layer_id=");
    push_decimal_i64(&mut s, l.id as i64);
    s.append(" active_layer_name=");
    s.append(l.name.as_str());
    s
}

/// The lines printed for the visible layers: one per layer, or a notice
/// that there are none.
pub open spec fn visible_layers_output(layers: Seq<BoardLayerInfo>) -> Seq<Seq<char>> {
    if layers.len() == 0 {
        seq!["no visible layers returned"@]
    } else {
        layers.map_values(|l: BoardLayerInfo| layer_line_text(l))
    }
}

/// The lines printed for the visible layers.
pub fn visible_layers_lines(layers: &Vec<BoardLayerInfo>) -> (r: Vec<String>)
    ensures
        strings_view(r@) == visible_layers_output(layers@),
{
    if layers.len() == 0 {
        let mut out: Vec<String> = Vec::new();
        out.push(String::from_str("no visible layers returned"));
        assert(strings_view(out@) =~= visible_layers_output(layers@));
        out
    } else {
        layer_lines(layers)
    }
}

/// `origin_kind=<kind> x_nm=<x> y_nm=<y>`.
pub open spec fn board_origin_line_text(kind: BoardOriginKind, origin: Vector2Nm) -> Seq<char> {
    "origin_kind="@ + board_origin_kind_name(kind) + " x_nm="@ + int_decimal(origin.x_nm as int)
        + " y_nm="@ + int_decimal(origin.y_nm as int)
}

/// The line printed for a board origin.
pub fn board_origin_line(kind: BoardOriginKind, origin: &Vector2Nm) -> (r: String)
    ensures
        r@ == board_origin_line_text(kind, *origin),
{
    let mut s = String::from_str("origin_kind=");
    let k = kind.to_string();
    s.append(k.as_str());
    s.append(" x_nm=");
    push_decimal_i64(&mut s, origin.x_nm);
    s.append(" y_nm=");
    push_decimal_i64(&mut s, origin.y_nm);
    s
}

/// `smoke ok: version=<major>.<minor>.<patch> board_open=<true|false>`.
pub open spec fn smoke_line_text(v: VersionInfo, has_board: bool) -> Seq<char> {
    "smoke ok: version="@ + nat_decimal(v.major as nat) + "."@ + nat_decimal(v.minor as nat) + "."@
        + nat_decimal(v.patch as nat) + " board_open="@ + bool_text(has_board)
}

/// The line printed by the smoke test.
pub fn smoke_line(v: &VersionInfo, has_board: bool) -> (r: String)
    ensures
        r@ == smoke_line_text(*v, has_board),
{
    let mut s = String::from_str("smoke ok: version=");
    push_decimal_u128(&mut s, v.major as u128);
    s.append(".");
    push_decimal_u128(&mut s, v.minor as u128);
    s.append(".");
    push_decimal_u128(&mut s, v.patch as u128);
    s.append(" board_open=");
    if has_board {
        s.append("true");
    } else {
        s.append("false");
    }
    s
}

/// The answer to the board-open check: the line `board-open: yes`, or,
/// with no board open, the board-not-open error.
pub fn board_open_line(has_board: bool) -> (r: Result<String, KiCadError>)
    ensures
        has_board ==> (r matches Ok(s) && s@ == "board-open: yes"@),
        !has_board ==> r matches Err(KiCadError::BoardNotOpen),
{
    if has_board {
        Ok(String::from_str("board-open: yes"))
    } else {
        Err(KiCadError::BoardNotOpen)
    }
}

/// `<label>=<count>`, the first line of a listing.
pub open spec fn count_line_text(label: Seq<char>, count: nat) -> Seq<char> {
    label + "="@ + nat_decimal(count)
}

fn count_line(label: &str, count: usize) -> (r: String)
    ensures
        r@ == count_line_text(label@, count as nat),
{
    let mut s = String::from_str(label);
    s.append("=");
    push_decimal_u128(&mut s, count as u128);
    s
}

/// `type_url=<url> count=<count>`.
pub open spec fn type_count_line_text(c: SelectionTypeCount) -> Seq<char> {
    "type_url="@ + c.type_url@ + " count="@ + nat_decimal(c.count as nat)
}

/// The lines printed for a selection summary: the total, then one line
/// per type URL.
pub open spec fn selection_summary_output(summary: SelectionSummary) -> Seq<Seq<char>> {
    seq![count_line_text("selection_total"@, summary.total_items as nat)]
        + summary.type_url_counts@.map_values(|c: SelectionTypeCount| type_count_line_text(c))
}

/// The lines printed for a selection summary.
pub fn selection_summary_lines(summary: &SelectionSummary) -> (r: Vec<String>)
    ensures
        strings_view(r@) == selection_summary_output(*summary),
{
    let mut out: Vec<String> = Vec::new();
    out.push(count_line("selection_total", summary.total_items));
    let counts = &summary.type_url_counts;
    let mut i: usize = 0;
    while i < counts.len()
        invariant
            i <= counts@.len(),
            strings_view(out@) =~= seq![count_line_text("selection_total"@, summary.total_items as nat)]
                + counts@.subrange(0, i as int).map_values(
                |c: SelectionTypeCount| type_count_line_text(c),
            ),
        decreases counts@.len() - i,
    {
        let c = &counts[i];
        let mut line = String::from_str("type_url=");
        line.append(c.type_url.as_str());
        line.append(" count=");
        push_decimal_u128(&mut line, c.count as u128);
        proof {
            lemma_strings_view_push(out@, line);
            assert(counts@.subrange(0, i + 1) =~= counts@.subrange(0, i as int).push(counts@[i as int]));
        }
        out.push(line);
        i = i + 1;
    }
    assert(counts@.subrange(0, counts@.len() as int) =~= counts@);
    out
}

/// `[<index>] type_url=<url> raw_len=<length> detail=<description>`.
pub open spec fn detail_line_text(index: nat, d: SelectionItemDetail) -> Seq<char> {
    "["@ + nat_decimal(index) + "] type_url="@ + d.type_url@ + " raw_len="@ + nat_decimal(
        d.raw_len as nat,
    ) + " detail="@ + d.detail@
}

/// The lines printed for described items: `<label>=<count>`, then one
/// line per item. The selection listing uses the label `selection_total`,
/// the listing by id `items_total`.
pub open spec fn details_output(label: Seq<char>, details: Seq<SelectionItemDetail>) -> Seq<
    Seq<char>,
> {
    seq![count_line_text(label, details.len())] + Seq::new(
        details.len(),
        |k: int| detail_line_text(k as nat, details[k]),
    )
}

/// The lines printed for described items, under the given label.
pub fn details_lines(label: &str, details: &Vec<SelectionItemDetail>) -> (r: Vec<String>)
    ensures
        strings_view(r@) == details_output(label@, details@),
{
    let mut out: Vec<String> = Vec::new();
    out.push(count_line(label, details.len()));
    let mut i: usize = 0;
    while i < details.len()
        invariant
            i <= details@.len(),
            strings_view(out@) =~= seq![count_line_text(label@, details@.len())] + Seq::new(
                i as nat,
                |k: int| detail_line_text(k as nat, details@[k]),
            ),
        decreases details@.len() - i,
    {
        let d = &details[i];
        let mut line = String::from_str("[");
        push_decimal_u128(&mut line, i as u128);
        line.append("] type_url=");
        line.append(d.type_url.as_str());
        line.append(" raw_len=");
        push_decimal_u128(&mut line, d.raw_len as u128);
        line.append(" detail=");
        line.append(d.detail.as_str());
        proof {
            lemma_strings_view_push(out@, line);
        }
        out.push(line);
        i = i + 1;
    }
    out
}

/// `[<index>] type_url=<url> raw_len=<length> raw_hex=<hex>`.
pub open spec fn raw_line_text(index: nat, item: AnyPayload) -> Seq<char> {
    "["@ + nat_decimal(index) + "] type_url="@ + item.type_url@ + " raw_len="@ + nat_decimal(
        item.value@.len(),
    ) + " raw_hex="@ + hex_of(item.value@)
}

/// The lines printed for the raw selection: the total, then one line per
/// item with its payload in hexadecimal.
pub open spec fn selection_raw_output(items: Seq<AnyPayload>) -> Seq<Seq<char>> {
    seq![count_line_text("selection_total"@, items.len())] + Seq::new(
        items.len(),
        |k: int| raw_line_text(k as nat, items[k]),
    )
}

fn raw_line(index: usize, item: &AnyPayload) -> (r: String)
    ensures
        r@ == raw_line_text(index as nat, *item),
{
    let mut line = String::from_str("[");
    push_decimal_u128(&mut line, index as u128);
    line.append("] type_url=");
    line.append(item.type_url.as_str());
    line.append(" raw_len=");
    push_decimal_u128(&mut line, item.value.len() as u128);
    line.append(" raw_hex=");
    let hex = bytes_to_hex(item.value.as_slice());
    line.append(hex.as_str());
    line
}

/// The lines printed for the raw selection.
pub fn selection_raw_lines(items: &Vec<AnyPayload>) -> (r: Vec<String>)
    ensures
        strings_view(r@) == selection_raw_output(items@),
{
    let mut out: Vec<String> = Vec::new();
    out.push(count_line("selection_total", items.len()));
    let mut i: usize = 0;
    while i < items.len()
        invariant
            i <= items@.len(),
            strings_view(out@) =~= seq![count_line_text("selection_total"@, items@.len())]
                + Seq::new(i as nat, |k: int| raw_line_text(k as nat, items@[k])),
        decreases items@.len() - i,
    {
        let line = raw_line(i, &items[i]);
        proof {
            lemma_strings_view_push(out@, line);
        }
        out.push(line);
        i = i + 1;
    }
    out
}

/// A net code, or `-` where there is none.
pub open spec fn code_or_dash(c: Option<i32>) -> Seq<char> {
    match c {
        Some(v) => int_decimal(v as int),
        None => "-"@,
    }
}

/// `footprint_ref=.. footprint_id=.. pad_id=.. pad_number=.. net_code=.. net_name=..`,
/// with `-` for each absent part.
pub open spec fn pad_net_line_text(e: PadNetEntry) -> Seq<char> {
    "footprint_ref="@ + or_dash(e.footprint_reference) + " footprint_id="@ + or_dash(
        e.footprint_id,
    ) + " pad_id="@ + or_dash(e.pad_id) + " pad_number="@ + e.pad_number@ + " net_code="@
        + code_or_dash(e.net_code) + " net_name="@ + or_dash(e.net_name)
}

/// The line printed for one pad of the pad netlist.
pub fn pad_net_line(e: &PadNetEntry) -> (r: String)
    ensures
        r@ == pad_net_line_text(*e),
{
    let mut s = String::from_str("footprint_ref=");
    push_id(&mut s, &e.footprint_reference);
    s.append(" footprint_id=");
    push_id(&mut s, &e.footprint_id);
    s.append(" pad_id=");
    push_id(&mut s, &e.pad_id);
    s.append(" pad_number=");
    s.append(e.pad_number.as_str());
    s.append(" net_code=");
    match e.net_code {
        Some(c) => push_decimal_i64(&mut s, c as i64),
        None => s.append("-"),
    }
    s.append(" net_name=");
    push_id(&mut s, &e.net_name);
    s
}

/// The lines printed for the pad netlist: the entry count, then one line
/// per pad.
pub open spec fn pad_netlist_output(entries: Seq<PadNetEntry>) -> Seq<Seq<char>> {
    seq![count_line_text("pad_net_entries"@, entries.len())] + entries.map_values(
        |e: PadNetEntry| pad_net_line_text(e),
    )
}

/// The lines printed for the pad netlist.
pub fn pad_netlist_lines(entries: &Vec<PadNetEntry>) -> (r: Vec<String>)
    ensures
        strings_view(r@) == pad_netlist_output(entries@),
{
    let mut out: Vec<String> = Vec::new();
    out.push(count_line("pad_net_entries", entries.len()));
    let mut i: usize = 0;
    while i < entries.len()
        invariant
            i <= entries@.len(),
            strings_view(out@) =~= seq![count_line_text("pad_net_entries"@, entries@.len())]
                + entries@.subrange(0, i as int).map_values(|e: PadNetEntry| pad_net_line_text(e)),
        decreases entries@.len() - i,
    {
        let line = pad_net_line(&entries[i]);
        proof {
            lemma_strings_view_push(out@, line);
            assert(entries@.subrange(0, i + 1) =~= entries@.subrange(0, i as int).push(entries@[i as int]));
        }
        out.push(line);
        i = i + 1;
    }
    assert(entries@.subrange(0, entries@.len() as int) =~= entries@);
    out
}

/// `item_id=<id> x_nm=<x> y_nm=<y> width_nm=<w> height_nm=<h>`.
pub open spec fn bbox_line_text(b: ItemBoundingBox) -> Seq<char> {
    "item_id="@ + b.item_id@ + " x_nm="@ + int_decimal(b.x_nm as int) + " y_nm="@ + int_decimal(
        b.y_nm as int,
    ) + " width_nm="@ + int_decimal(b.width_nm as int) + " height_nm="@ + int_decimal(
        b.height_nm as int,
    )
}

/// The lines printed for item bounding boxes: the total, then one line per
/// box.
pub open spec fn bbox_output(boxes: Seq<ItemBoundingBox>) -> Seq<Seq<char>> {
    seq![count_line_text("bbox_total"@, boxes.len())] + boxes.map_values(
        |b: ItemBoundingBox| bbox_line_text(b),
    )
}

/// The lines printed for item bounding boxes.
pub fn bbox_lines(boxes: &Vec<ItemBoundingBox>) -> (r: Vec<String>)
    ensures
        strings_view(r@) == bbox_output(boxes@),
{
    let mut out: Vec<String> = Vec::new();
    out.push(count_line("bbox_total", boxes.len()));
    let mut i: usize = 0;
    while i < boxes.len()
        invariant
            i <= boxes@.len(),
            strings_view(out@) =~= seq![count_line_text("bbox_total"@, boxes@.len())]
                + boxes@.subrange(0, i as int).map_values(|b: ItemBoundingBox| bbox_line_text(b)),
        decreases boxes@.len() - i,
    {
        let b = &boxes[i];
        let mut line = String::from_str("item_id=");
        line.append(b.item_id.as_str());
        line.append(" x_nm=");
        push_decimal_i64(&mut line, b.x_nm);
        line.append(" y_nm=");
        push_decimal_i64(&mut line, b.y_nm);
        line.append(" width_nm=");
        push_decimal_i64(&mut line, b.width_nm);
        line.append(" height_nm=");
        push_decimal_i64(&mut line, b.height_nm);
        proof {
            lemma_strings_view_push(out@, line);
            assert(boxes@.subrange(0, i + 1) =~= boxes@.subrange(0, i as int).push(boxes@[i as int]));
        }
        out.push(line);
        i = i + 1;
    }
    assert(boxes@.subrange(0, boxes@.len() as int) =~= boxes@);
    out
}

/// The line printed for a hit test: `hit_test=<unknown|no-hit|hit>`.
pub fn hit_test_line(result: ItemHitTestResult) -> (r: String)
    ensures
        r@ == "hit_test="@ + hit_test_result_name(result),
{
    let mut s = String::from_str("hit_test=");
    let t = result.to_string();
    s.append(t.as_str());
    s
}

/// `x_nm=<x> y_nm=<y> width_nm=<w> height_nm=<h>`.
pub open spec fn text_extents_line_text(e: TextExtents) -> Seq<char> {
    "x_nm="@ + int_decimal(e.x_nm as int) + " y_nm="@ + int_decimal(e.y_nm as int) + " width_nm="@
        + int_decimal(e.width_nm as int) + " height_nm="@ + int_decimal(e.height_nm as int)
}

/// The line printed for the extents of a text.
pub fn text_extents_line(e: &TextExtents) -> (r: String)
    ensures
        r@ == text_extents_line_text(*e),
{
    let mut s = String::from_str("x_nm=");
    push_decimal_i64(&mut s, e.x_nm);
    s.append(" y_nm=");
    push_decimal_i64(&mut s, e.y_nm);
    s.append(" width_nm=");
    push_decimal_i64(&mut s, e.width_nm);
    s.append(" height_nm=");
    push_decimal_i64(&mut s, e.height_nm);
    s
}

/// The number of outline nodes of a polygon; 0 without an outline.
pub open spec fn outline_node_count(p: PolygonWithHolesNm) -> nat {
    match p.outline {
        Some(o) => o.nodes@.len(),
        None => 0,
    }
}

/// `pad_id=<id> layer_id=<id> layer_name=<name> outline_nodes=<n> hole_count=<n>`.
pub open spec fn pad_shape_line_text(row: PadShapeAsPolygonEntry) -> Seq<char> {
    "pad_id="@ + row.pad_id@ + " layer_id="@ + int_decimal(row.layer_id as int) + " layer_name="@
        + row.layer_name@ + " outline_nodes="@ + nat_decimal(outline_node_count(row.polygon))
        + " hole_count="@ + nat_decimal(row.polygon.holes@.len())
}

/// The lines printed for pad shapes: a header with the row count, the
/// layer asked for and the number of pads asked for, then one line per row.
pub open spec fn pad_shape_output(
    rows: Seq<PadShapeAsPolygonEntry>,
    layer_id: i32,
    requested_pad_count: nat,
) -> Seq<Seq<char>> {
    seq![
        "pad_shape_total="@ + nat_decimal(rows.len()) + " layer_id="@ + int_decimal(layer_id as int)
            + " requested_pad_count="@ + nat_decimal(requested_pad_count),
    ] + rows.map_values(|r: PadShapeAsPolygonEntry| pad_shape_line_text(r))
}

/// The lines printed for pad shapes.
pub fn pad_shape_lines(rows: &Vec<PadShapeAsPolygonEntry>, layer_id: i32, requested_pad_count: usize) -> (r:
    Vec<String>)
    ensures
        strings_view(r@) == pad_shape_output(rows@, layer_id, requested_pad_count as nat),
{
    let mut head = String::from_str("pad_shape_total=");
    push_decimal_u128(&mut head, rows.len() as u128);
    head.append(" layer_id=");
    push_decimal_i64(&mut head, layer_id as i64);
    head.append(" requested_pad_count=");
    push_decimal_u128(&mut head, requested_pad_count as u128);
    let ghost head_view = head@;
    let mut out: Vec<String> = Vec::new();
    out.push(head);
    let mut i: usize = 0;
    while i < rows.len()
        invariant
            i <= rows@.len(),
            head_view == pad_shape_output(rows@, layer_id, requested_pad_count as nat)[0],
            strings_view(out@) =~= seq![head_view] + rows@.subrange(0, i as int).map_values(
                |r: PadShapeAsPolygonEntry| pad_shape_line_text(r),
            ),
        decreases rows@.len() - i,
    {
        let row = &rows[i];
        let outline_nodes: usize = match &row.polygon.outline {
            Some(o) => o.nodes.len(),
            None => 0,
        };
        let mut line = String::from_str("pad_id=");
        line.append(row.pad_id.as_str());
        line.append(" layer_id=");
        push_decimal_i64(&mut line, row.layer_id as i64);
        line.append(" layer_name=");
        line.append(row.layer_name.as_str());
        line.append(" outline_nodes=");
        push_decimal_u128(&mut line, outline_nodes as u128);
        line.append(" hole_count=");
        push_decimal_u128(&mut line, row.polygon.holes.len() as u128);
        proof {
            lemma_strings_view_push(out@, line);
            assert(rows@.subrange(0, i + 1) =~= rows@.subrange(0, i as int).push(rows@[i as int]));
        }
        out.push(line);
        i = i + 1;
    }
    assert(rows@.subrange(0, rows@.len() as int) =~= rows@);
    out
}

/// `item_id=<id> layer_id=<id> layer_name=<name> presence=<state>`.
pub open spec fn presence_line_text(row: PadstackPresenceEntry) -> Seq<char> {
    "item_id="@ + row.item_id@ + " layer_id="@ + int_decimal(row.layer_id as int) + " layer_name="@
        + row.layer_name@ + " presence="@ + padstack_presence_text(row.presence)
}

/// The line printed for one padstack presence row.
pub fn presence_line(row: &PadstackPresenceEntry) -> (r: String)
    ensures
        r@ == presence_line_text(*row),
{
    let mut line = String::from_str("item_id=");
    line.append(row.item_id.as_str());
    line.append(" layer_id=");
    push_decimal_i64(&mut line, row.layer_id as i64);
    line.append(" layer_name=");
    line.append(row.layer_name.as_str());
    line.append(" presence=");
    let p = row.presence.to_string();
    line.append(p.as_str());
    line
}

/// The lines printed for padstack presence: a header with the row count
/// and the numbers of items and layers asked for, then one line per row.
pub open spec fn presence_output(
    rows: Seq<PadstackPresenceEntry>,
    requested_item_count: nat,
    requested_layer_count: nat,
) -> Seq<Seq<char>> {
    seq![
        "padstack_presence_total="@ + nat_decimal(rows.len()) + " requested_item_count="@
            + nat_decimal(requested_item_count) + " requested_layer_count="@ + nat_decimal(
            requested_layer_count,
        ),
    ] + rows.map_values(|r: PadstackPresenceEntry| presence_line_text(r))
}

/// The lines printed for padstack presence.
pub fn presence_lines(
    rows: &Vec<PadstackPresenceEntry>,
    requested_item_count: usize,
    requested_layer_count: usize,
) -> (r: Vec<String>)
    ensures
        strings_view(r@) == presence_output(
            rows@,
            requested_item_count as nat,
            requested_layer_count as nat,
        ),
{
    let mut head = String::from_str("padstack_presence_total=");
    push_decimal_u128(&mut head, rows.len() as u128);
    head.append(" requested_item_count=");
    push_decimal_u128(&mut head, requested_item_count as u128);
    head.append(" requested_layer_count=");
    push_decimal_u128(&mut head, requested_layer_count as u128);
    let ghost head_view = head@;
    let mut out: Vec<String> = Vec::new();
    out.push(head);
    let mut i: usize = 0;
    while i < rows.len()
        invariant
            i <= rows@.len(),
            head_view == presence_output(
                rows@,
                requested_item_count as nat,
                requested_layer_count as nat,
            )[0],
            strings_view(out@) =~= seq![head_view] + rows@.subrange(0, i as int).map_values(
                |r: PadstackPresenceEntry| presence_line_text(r),
            ),
        decreases rows@.len() - i,
    {
        let line = presence_line(&rows[i]);
        proof {
            lemma_strings_view_push(out@, line);
            assert(rows@.subrange(0, i + 1) =~= rows@.subrange(0, i as int).push(rows@[i as int]));
        }
        out.push(line);
        i = i + 1;
    }
    assert(rows@.subrange(0, rows@.len() as int) =~= rows@);
    out
}

/// The lines printed for a title block: title, date, revision and company,
/// then `comment<k>=<text>` for each comment, counted from 1.
pub open spec fn title_block_output(t: TitleBlockInfo) -> Seq<Seq<char>> {
    seq!["title="@ + t.title@, "date="@ + t.date@, "revision="@ + t.revision@, "company="@ + t.company@]
        + Seq::new(
        t.comments@.len(),
        |k: int| "comment"@ + nat_decimal((k + 1) as nat) + "="@ + t.comments@[k]@,
    )
}

/// The lines printed for a title block.
pub fn title_block_lines(t: &TitleBlockInfo) -> (r: Vec<String>)
    ensures
        strings_view(r@) == title_block_output(*t),
{
    let mut out: Vec<String> = Vec::new();
    out.push(concat2("title=", t.title.as_str()));
    out.push(concat2("date=", t.date.as_str()));
    out.push(concat2("revision=", t.revision.as_str()));
    out.push(concat2("company=", t.company.as_str()));
    let ghost head = strings_view(out@);
    let comments = &t.comments;
    let mut i: usize = 0;
    while i < comments.len()
        invariant
            i <= comments@.len(),
            head == seq!["title="@ + t.title@, "date="@ + t.date@, "revision="@ + t.revision@, "company="@ + t.company@],
            strings_view(out@) =~= head + Seq::new(
                i as nat,
                |k: int| "comment"@ + nat_decimal((k + 1) as nat) + "="@ + comments@[k]@,
            ),
        decreases comments@.len() - i,
    {
        let mut line = String::from_str("comment");
        push_decimal_u128(&mut line, i as u128 + 1);
        line.append("=");
        line.append(comments[i].as_str());
        proof {
            lemma_strings_view_push(out@, line);
        }
        out.push(line);
        i = i + 1;
    }
    out
}

/// The lines printed for expanded text variables: the count, then
/// `[<index>] input=<text> expanded=<text>` for each expanded text, beside
/// the input at the same position.
pub open spec fn expanded_output(inputs: Seq<String>, expanded: Seq<String>) -> Seq<Seq<char>> {
    seq![count_line_text("expanded_count"@, expanded.len())] + Seq::new(
        expanded.len(),
        |k: int| "["@ + nat_decimal(k as nat) + "] input="@ + inputs[k]@ + " expanded="@ + expanded[k]@,
    )
}

/// The lines printed for expanded text variables; each expanded text needs
/// its input.
pub fn expanded_lines(inputs: &Vec<String>, expanded: &Vec<String>) -> (r: Vec<String>)
    requires
        expanded@.len() <= inputs@.len(),
    ensures
        strings_view(r@) == expanded_output(inputs@, expanded@),
{
    let mut out: Vec<String> = Vec::new();
    out.push(count_line("expanded_count", expanded.len()));
    let mut i: usize = 0;
    while i < expanded.len()
        invariant
            i <= expanded@.len(),
            expanded@.len() <= inputs@.len(),
            strings_view(out@) =~= seq![count_line_text("expanded_count"@, expanded@.len())]
                + Seq::new(
                i as nat,
                |k: int| "["@ + nat_decimal(k as nat) + "] input="@ + inputs@[k]@ + " expanded="@
                    + expanded@[k]@,
            ),
        decreases expanded@.len() - i,
    {
        let mut line = String::from_str("[");
        push_decimal_u128(&mut line, i as u128);
        line.append("] input=");
        line.append(inputs[i].as_str());
        line.append(" expanded=");
        line.append(expanded[i].as_str());
        proof {
            lemma_strings_view_push(out@, line);
        }
        out.push(line);
        i = i + 1;
    }
    out
}

/// The position of a text shape's geometry kind in the printed counts:
/// segment, rectangle, arc, circle, polygon, bezier, unknown.
pub open spec fn shape_kind_index(g: TextShapeGeometry) -> int {
    match g {
        TextShapeGeometry::Segment { .. } => 0,
        TextShapeGeometry::Rectangle { .. } => 1,
        TextShapeGeometry::Arc { .. } => 2,
        TextShapeGeometry::Circle { .. } => 3,
        TextShapeGeometry::Polygon { .. } => 4,
        TextShapeGeometry::Bezier { .. } => 5,
        TextShapeGeometry::Unknown => 6,
    }
}

/// How many of the shapes have the geometry kind at `kind`.
pub open spec fn kind_count(shapes: Seq<TextShapeGeometry>, kind: int) -> nat
    decreases shapes.len(),
{
    if shapes.len() == 0 {
        0
    } else {
        kind_count(shapes.drop_last(), kind) + if shape_kind_index(shapes.last()) == kind {
            1nat
        } else {
            0nat
        }
    }
}

/// `[<index>] shape_count=<n> segment=<n> rectangle=<n> arc=<n> circle=<n>
/// polygon=<n> bezier=<n> unknown=<n>` for the shapes of one text.
pub open spec fn shape_counts_line_text(index: nat, shapes: Seq<TextShapeGeometry>) -> Seq<char> {
    "["@ + nat_decimal(index) + "] shape_count="@ + nat_decimal(shapes.len()) + " segment="@
        + nat_decimal(kind_count(shapes, 0)) + " rectangle="@ + nat_decimal(kind_count(shapes, 1))
        + " arc="@ + nat_decimal(kind_count(shapes, 2)) + " circle="@ + nat_decimal(
        kind_count(shapes, 3),
    ) + " polygon="@ + nat_decimal(kind_count(shapes, 4)) + " bezier="@ + nat_decimal(
        kind_count(shapes, 5),
    ) + " unknown="@ + nat_decimal(kind_count(shapes, 6))
}

/// The line printed for the shapes of one text, counted by kind.
pub fn shape_counts_line(index: usize, shapes: &Vec<TextShapeGeometry>) -> (r: String)
    ensures
        r@ == shape_counts_line_text(index as nat, shapes@),
{
    let mut counts: [usize; 7] = [0, 0, 0, 0, 0, 0, 0];
    let mut i: usize = 0;
    while i < shapes.len()
        invariant
            i <= shapes@.len(),
            forall|k: int|
                0 <= k < 7 ==> #[trigger] counts@[k] == kind_count(shapes@.subrange(0, i as int), k)
                    && counts@[k] <= i,
        decreases shapes@.len() - i,
    {
        let k: usize = match &shapes[i] {
            TextShapeGeometry::Segment { .. } => 0,
            TextShapeGeometry::Rectangle { .. } => 1,
            TextShapeGeometry::Arc { .. } => 2,
            TextShapeGeometry::Circle { .. } => 3,
            TextShapeGeometry::Polygon { .. } => 4,
            TextShapeGeometry::Bezier { .. } => 5,
            TextShapeGeometry::Unknown => 6,
        };
        let ghost before = counts@;
        counts.set(k, counts[k] + 1);
        proof {
            let sub = shapes@.subrange(0, i + 1);
            assert(sub.drop_last() =~= shapes@.subrange(0, i as int));
            assert(sub.last() == shapes@[i as int]);
            assert(shape_kind_index(shapes@[i as int]) == k);
            assert forall|j: int| 0 <= j < 7 implies #[trigger] counts@[j] == kind_count(sub, j)
                && counts@[j] <= i + 1 by {
                assert(kind_count(sub, j) == kind_count(shapes@.subrange(0, i as int), j) + if j
                    == k {
                    1nat
                } else {
                    0nat
                });
                if j != k {
                    assert(counts@[j] == before[j]);
                }
            }
        }
        i = i + 1;
    }
    assert(shapes@.subrange(0, shapes@.len() as int) =~= shapes@);
    let mut s = String::from_str("[");
    push_decimal_u128(&mut s, index as u128);
    s.append("] shape_count=");
    push_decimal_u128(&mut s, shapes.len() as u128);
    s.append(" segment=");
    push_decimal_u128(&mut s, counts[0] as u128);
    s.append(" rectangle=");
    push_decimal_u128(&mut s, counts[1] as u128);
    s.append(" arc=");
    push_decimal_u128(&mut s, counts[2] as u128);
    s.append(" circle=");
    push_decimal_u128(&mut s, counts[3] as u128);
    s.append(" polygon=");
    push_decimal_u128(&mut s, counts[4] as u128);
    s.append(" bezier=");
    push_decimal_u128(&mut s, counts[5] as u128);
    s.append(" unknown=");
    push_decimal_u128(&mut s, counts[6] as u128);
    s
}

/// The lines printed for texts turned into shapes: the count of texts,
/// then the shape counts of each text.
pub open spec fn text_as_shapes_output(entries: Seq<Seq<TextShapeGeometry>>) -> Seq<Seq<char>> {
    seq![count_line_text("text_with_shapes_count"@, entries.len())] + Seq::new(
        entries.len(),
        |k: int| shape_counts_line_text(k as nat, entries[k]),
    )
}

/// The lines printed for texts turned into shapes, given the geometry of
/// each text's shapes.
pub fn text_as_shapes_lines(entries: &Vec<Vec<TextShapeGeometry>>) -> (r: Vec<String>)
    ensures
        strings_view(r@) == text_as_shapes_output(
            entries@.map_values(|v: Vec<TextShapeGeometry>| v@),
        ),
{
    let ghost views = entries@.map_values(|v: Vec<TextShapeGeometry>| v@);
    let mut out: Vec<String> = Vec::new();
    out.push(count_line("text_with_shapes_count", entries.len()));
    let mut i: usize = 0;
    while i < entries.len()
        invariant
            i <= entries@.len(),
            views == entries@.map_values(|v: Vec<TextShapeGeometry>| v@),
            strings_view(out@) =~= seq![count_line_text("text_with_shapes_count"@, entries@.len())]
                + Seq::new(i as nat, |k: int| shape_counts_line_text(k as nat, views[k])),
        decreases entries@.len() - i,
    {
        let line = shape_counts_line(i, &entries[i]);
        proof {
            lemma_strings_view_push(out@, line);
        }
        out.push(line);
        i = i + 1;
    }
    out
}

/// The items of a list of integers joined by `, `.
pub open spec fn joined_i32(s: Seq<i32>) -> Seq<char>
    decreases s.len(),
{
    if s.len() == 0 {
        Seq::empty()
    } else if s.len() == 1 {
        int_decimal(s[0] as int)
    } else {
        joined_i32(s.drop_last()) + ", "@ + int_decimal(s.last() as int)
    }
}

/// The debug form of a list of integers: `[1, 2, 3]`.
pub open spec fn i32_list_text(s: Seq<i32>) -> Seq<char> {
    "["@ + joined_i32(s) + "]"@
}

fn push_i32_list(out: &mut String, s: &Vec<i32>)
    ensures
        final(out)@ == old(out)@ + i32_list_text(s@),
{
    out.append("[");
    let ghost start = out@;
    let mut i: usize = 0;
    while i < s.len()
        invariant
            i <= s@.len(),
            out@ == start + joined_i32(s@.subrange(0, i as int)),
        decreases s@.len() - i,
    {
        if i > 0 {
            out.append(", ");
        }
        push_decimal_i64(out, s[i] as i64);
        proof {
            let sub = s@.subrange(0, i + 1);
            assert(sub.drop_last() =~= s@.subrange(0, i as int));
            if i == 0 {
                assert(joined_i32(s@.subrange(0, 0)) =~= Seq::<char>::empty());
            }
        }
        i = i + 1;
    }
    assert(s@.subrange(0, s@.len() as int) =~= s@);
    out.append("]");
}

/// The lines printed for raw items of the requested types: the count and
/// the type codes asked for, then one line per item with its payload in
/// hexadecimal.
pub open spec fn items_raw_output(items: Seq<AnyPayload>, type_codes: Seq<i32>) -> Seq<Seq<char>> {
    seq!["items_total="@ + nat_decimal(items.len()) + " requested_type_codes="@ + i32_list_text(type_codes)]
        + Seq::new(items.len(), |k: int| raw_line_text(k as nat, items[k]))
}

/// The lines printed for raw items of the requested types.
pub fn items_raw_lines(items: &Vec<AnyPayload>, type_codes: &Vec<i32>) -> (r: Vec<String>)
    ensures
        strings_view(r@) == items_raw_output(items@, type_codes@),
{
    let mut head = String::from_str("items_total=");
    push_decimal_u128(&mut head, items.len() as u128);
    head.append(" requested_type_codes=");
    push_i32_list(&mut head, type_codes);
    let ghost head_view = head@;
    let mut out: Vec<String> = Vec::new();
    out.push(head);
    let mut i: usize = 0;
    while i < items.len()
        invariant
            i <= items@.len(),
            head_view == items_raw_output(items@, type_codes@)[0],
            strings_view(out@) =~= seq![head_view] + Seq::new(
                i as nat,
                |k: int| raw_line_text(k as nat, items@[k]),
            ),
        decreases items@.len() - i,
    {
        let line = raw_line(i, &items[i]);
        proof {
            lemma_strings_view_push(out@, line);
        }
        out.push(line);
        i = i + 1;
    }
    out
}

/// `command=<command> status=<status> note=<note>`.
pub open spec fn coverage_line_text(row: (Seq<char>, Seq<char>, Seq<char>)) -> Seq<char> {
    "command="@ + row.0 + " status="@ + row.1 + " note="@ + row.2
}

/// The lines printed for the coverage of the board read commands, one per
/// command.
pub fn proto_coverage_lines() -> (r: Vec<String>)
    ensures
        strings_view(r@) == coverage_rows().map_values(
            |row: (Seq<char>, Seq<char>, Seq<char>)| coverage_line_text(row),
        ),
{
    let rows = proto_coverage_board_read_rows();
    let ghost views = rows@.map_values(
        |t: (&'static str, &'static str, &'static str)| (t.0@, t.1@, t.2@),
    );
    let mut out: Vec<String> = Vec::new();
    let mut i: usize = 0;
    while i < rows.len()
        invariant
            i <= rows@.len(),
            views == rows@.map_values(
                |t: (&'static str, &'static str, &'static str)| (t.0@, t.1@, t.2@),
            ),
            strings_view(out@) =~= views.subrange(0, i as int).map_values(
                |row: (Seq<char>, Seq<char>, Seq<char>)| coverage_line_text(row),
            ),
        decreases rows@.len() - i,
    {
        let (command, status, note) = rows[i];
        let mut line = String::from_str("command=");
        line.append(command);
        line.append(" status=");
        line.append(status);
        line.append(" note=");
        line.append(note);
        proof {
            assert(views[i as int] == (command@, status@, note@));
            lemma_strings_view_push(out@, line);
            assert(views.subrange(0, i + 1) =~= views.subrange(0, i as int).push(views[i as int]));
        }
        out.push(line);
        i = i + 1;
    }
    assert(views.subrange(0, views.len() as int) =~= views);
    out
}

/// The debug form of a net class type: `Explicit`, `Implicit` or
/// `Unknown(<code>)`.
pub open spec fn net_class_type_debug_text(t: NetClassType) -> Seq<char> {
    match t {
        NetClassType::Explicit => "Explicit"@,
        NetClassType::Implicit => "Implicit"@,
        NetClassType::Unknown(v) => "Unknown("@ + int_decimal(v as int) + ")"@,
    }
}

/// The texts joined by commas.
pub open spec fn comma_joined(s: Seq<Seq<char>>) -> Seq<char>
    decreases s.len(),
{
    if s.len() == 0 {
        Seq::empty()
    } else if s.len() == 1 {
        s[0]
    } else {
        comma_joined(s.drop_last()) + ","@ + s.last()
    }
}

/// `name=<name> type=<type> priority=<priority or -> constituents=<a,b,..>`.
pub open spec fn net_class_line_text(
    name: Seq<char>,
    priority: Option<i32>,
    class_type: NetClassType,
    constituents: Seq<Seq<char>>,
) -> Seq<char> {
    "name="@ + name + " type="@ + net_class_type_debug_text(class_type) + " priority="@
        + code_or_dash(priority) + " constituents="@ + comma_joined(constituents)
}

/// The line printed for a net class.
pub fn net_class_line(
    name: &str,
    priority: Option<i32>,
    class_type: NetClassType,
    constituents: &Vec<String>,
) -> (r: String)
    ensures
        r@ == net_class_line_text(name@, priority, class_type, strings_view(constituents@)),
{
    let mut s = String::from_str("name=");
    s.append(name);
    s.append(" type=");
    match class_type {
        NetClassType::Explicit => s.append("Explicit"),
        NetClassType::Implicit => s.append("Implicit"),
        NetClassType::Unknown(v) => {
            s.append("Unknown(");
            push_decimal_i64(&mut s, v as i64);
            s.append(")");
        },
    }
    s.append(" priority=");
    match priority {
        Some(p) => push_decimal_i64(&mut s, p as i64),
        None => s.append("-"),
    }
    s.append(" constituents=");
    let ghost head = s@;
    let ghost cv = strings_view(constituents@);
    let mut i: usize = 0;
    while i < constituents.len()
        invariant
            i <= constituents@.len(),
            cv == strings_view(constituents@),
            s@ == head + comma_joined(cv.subrange(0, i as int)),
        decreases constituents@.len() - i,
    {
        if i > 0 {
            s.append(",");
        }
        s.append(constituents[i].as_str());
        proof {
            let sub = cv.subrange(0, i + 1);
            assert(sub.drop_last() =~= cv.subrange(0, i as int));
            if i == 0 {
                assert(comma_joined(cv.subrange(0, 0)) =~= Seq::<char>::empty());
            }
        }
        i = i + 1;
    }
    assert(cv.subrange(0, cv.len() as int) =~= cv);
    s
}

} // verus!
