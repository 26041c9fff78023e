//! One-line descriptions of selected items, and the pad netlist of a set
//! of footprints.

use vstd::prelude::*;
use vstd::string::StringExecFns;

use crate::client::{layer_info_name, layer_to_model};
use crate::error::KiCadError;
use crate::model::board::{PadNetEntry, Vector2Nm};
use crate::proto;
use crate::proto::type_url_of;
use crate::text::{int_decimal, opt_view, push_decimal_i64, push_decimal_u128, nat_decimal, str_eq, clone_opt_string};

verus! {

/// An id, or `-` where there is none.
pub open spec fn id_text(id: Option<String>) -> Seq<char> {
    match id {
        Some(s) => s@,
        None => "-"@,
    }
}

/// A point as `x,y` in nanometres, or `-`.
pub open spec fn point_text(p: Option<Vector2Nm>) -> Seq<char> {
    match p {
        Some(v) => int_decimal(v.x_nm as int) + ","@ + int_decimal(v.y_nm as int),
        None => "-"@,
    }
}

/// A length in nanometres, or `-`.
pub open spec fn length_text(w: Option<i64>) -> Seq<char> {
    match w {
        Some(v) => int_decimal(v as int),
        None => "-"@,
    }
}

/// A net as `code:name` (code 0 where it has none), or `-`.
pub open spec fn net_text(n: Option<proto::Net>) -> Seq<char> {
    match n {
        Some(net) => int_decimal(
            match net.code {
                Some(c) => c as int,
                None => 0,
            },
        ) + ":"@ + net.name@,
        None => "-"@,
    }
}

/// The description of a track.
pub open spec fn track_detail_text(t: proto::Track) -> Seq<char> {
    "track id="@ + id_text(t.id) + " start_nm="@ + point_text(t.start) + " end_nm="@ + point_text(
        t.end,
    ) + " width_nm="@ + length_text(t.width_nm) + " layer="@ + layer_info_name(t.layer as int)
        + " net="@ + net_text(t.net)
}

/// The description of a footprint.
pub open spec fn footprint_detail_text(f: proto::FootprintInstance) -> Seq<char> {
    "footprint id="@ + id_text(f.id) + " ref="@ + id_text(f.reference_text) + " pos_nm="@
        + point_text(f.position) + " layer="@ + layer_info_name(f.layer as int)
}

/// `true` or `false`.
pub open spec fn bool_text(b: bool) -> Seq<char> {
    if b {
        "true"@
    } else {
        "false"@
    }
}

/// The description of a field.
pub open spec fn field_detail_text(f: proto::Field) -> Seq<char> {
    "field name="@ + f.name@ + " visible="@ + bool_text(f.visible) + " text="@ + id_text(f.text)
}

/// The description of a graphic shape.
pub open spec fn graphic_detail_text(g: proto::BoardGraphicShape) -> Seq<char> {
    "graphic id="@ + id_text(g.id) + " layer="@ + layer_info_name(g.layer as int) + " net="@
        + net_text(g.net)
}

/// The description of an item of a type that is not described.
pub open spec fn unparsed_detail_text(raw_len: nat) -> Seq<char> {
    "unparsed payload ("@ + nat_decimal(raw_len) + " bytes)"@
}

/// A selected item, decoded as far as its type is described.
#[derive(Clone, Debug, PartialEq, Eq)]
pub enum SelectionItem {
    Track(proto::Track),
    Footprint(proto::FootprintInstance),
    Field(proto::Field),
    BoardGraphicShape(proto::BoardGraphicShape),
    Unparsed { raw_len: usize },
}

/// The types of selected item that get a description of their own.
#[derive(Clone, Copy, Debug, PartialEq, Eq, Structural)]
pub enum SelectionItemKind {
    Track,
    Footprint,
    Field,
    BoardGraphicShape,
    Unparsed,
}

/// Which description a packed item of the given type URL gets.
pub open spec fn selection_item_kind_of(url: Seq<char>) -> SelectionItemKind {
    if url == type_url_of("kiapi.board.types.Track"@) {
        SelectionItemKind::Track
    } else if url == type_url_of("kiapi.board.types.FootprintInstance"@) {
        SelectionItemKind::Footprint
    } else if url == type_url_of("kiapi.board.types.Field"@) {
        SelectionItemKind::Field
    } else if url == type_url_of("kiapi.board.types.BoardGraphicShape"@) {
        SelectionItemKind::BoardGraphicShape
    } else {
        SelectionItemKind::Unparsed
    }
}

/// Each described message type is recognised by its own type URL: a packed
/// track is described as a track, a packed footprint as a footprint, a
/// field as a field and a graphic shape as a graphic shape; any other type
/// URL is left undescribed.
pub proof fn lemma_selection_item_kinds(url: Seq<char>)
    ensures
        selection_item_kind_of(type_url_of("kiapi.board.types.Track"@)) == SelectionItemKind::Track,
        selection_item_kind_of(type_url_of("kiapi.board.types.FootprintInstance"@)) == SelectionItemKind::Footprint,
        selection_item_kind_of(type_url_of("kiapi.board.types.Field"@)) == SelectionItemKind::Field,
        selection_item_kind_of(type_url_of("kiapi.board.types.BoardGraphicShape"@)) == SelectionItemKind::BoardGraphicShape,
        url != type_url_of("kiapi.board.types.Track"@) && url != type_url_of(
            "kiapi.board.types.FootprintInstance"@,
        ) && url != type_url_of("kiapi.board.types.Field"@) && url != type_url_of(
            "kiapi.board.types.BoardGraphicShape"@,
        ) ==> selection_item_kind_of(url) == SelectionItemKind::Unparsed,
{
    reveal_strlit("type.googleapis.com/");
    reveal_strlit("kiapi.board.types.Track");
    reveal_strlit("kiapi.board.types.FootprintInstance");
    reveal_strlit("kiapi.board.types.Field");
    reveal_strlit("kiapi.board.types.BoardGraphicShape");
    assert(type_url_of("kiapi.board.types.FootprintInstance"@).len() != type_url_of("kiapi.board.types.Track"@).len());
    assert(type_url_of("kiapi.board.types.Field"@)[38] != type_url_of("kiapi.board.types.Track"@)[38]);
    assert(type_url_of("kiapi.board.types.Field"@).len() != type_url_of("kiapi.board.types.FootprintInstance"@).len());
    assert(type_url_of("kiapi.board.types.BoardGraphicShape"@).len() != type_url_of("kiapi.board.types.Track"@).len());
    assert(type_url_of("kiapi.board.types.BoardGraphicShape"@)[38] != type_url_of("kiapi.board.types.FootprintInstance"@)[38]);
    assert(type_url_of("kiapi.board.types.BoardGraphicShape"@).len() != type_url_of("kiapi.board.types.Field"@).len());
}

/// Which description a packed item of the given type URL gets, and so
/// which message its payload is decoded as.
pub fn selection_item_kind(type_url: &str) -> (r: SelectionItemKind)
    ensures
        r == selection_item_kind_of(type_url@),
{
    let track = proto::type_url("kiapi.board.types.Track");
    if str_eq(type_url, track.as_str()) {
        return SelectionItemKind::Track;
    }
    let footprint = proto::type_url("kiapi.board.types.FootprintInstance");
    if str_eq(type_url, footprint.as_str()) {
        return SelectionItemKind::Footprint;
    }
    let field = proto::type_url("kiapi.board.types.Field");
    if str_eq(type_url, field.as_str()) {
        return SelectionItemKind::Field;
    }
    let shape = proto::type_url("kiapi.board.types.BoardGraphicShape");
    if str_eq(type_url, shape.as_str()) {
        return SelectionItemKind::BoardGraphicShape;
    }
    SelectionItemKind::Unparsed
}

pub(crate) fn push_id(s: &mut String, id: &Option<String>)
    ensures
        final(s)@ == old(s)@ + id_text(*id),
{
    match id {
        Some(v) => s.append(v.as_str()),
        None => s.append("-"),
    }
}

fn push_point(s: &mut String, p: &Option<Vector2Nm>)
    ensures
        final(s)@ == old(s)@ + point_text(*p),
{
    match p {
        Some(v) => {
            push_decimal_i64(s, v.x_nm);
            s.append(",");
            push_decimal_i64(s, v.y_nm);
        },
        None => s.append("-"),
    }
}

fn push_net(s: &mut String, n: &Option<proto::Net>)
    ensures
        final(s)@ == old(s)@ + net_text(*n),
{
    match n {
        Some(net) => {
            let code: i32 = match net.code {
                Some(c) => c,
                None => 0,
            };
            push_decimal_i64(s, code as i64);
            s.append(":");
            s.append(net.name.as_str());
        },
        None => s.append("-"),
    }
}

fn push_layer(s: &mut String, layer: i32)
    ensures
        final(s)@ == old(s)@ + layer_info_name(layer as int),
{
    let info = layer_to_model(layer);
    s.append(info.name.as_str());
}

/// Describes a track.
pub fn track_detail(t: &proto::Track) -> (r: String)
    ensures
        r@ == track_detail_text(*t),
{
    let mut s = String::from_str("track id=");
    push_id(&mut s, &t.id);
    s.append(" start_nm=");
    push_point(&mut s, &t.start);
    s.append(" end_nm=");
    push_point(&mut s, &t.end);
    s.append(" width_nm=");
    match t.width_nm {
        Some(w) => push_decimal_i64(&mut s, w),
        None => s.append("-"),
    }
    s.append(" layer=");
    push_layer(&mut s, t.layer);
    s.append(" net=");
    push_net(&mut s, &t.net);
    assert(s@ =~= track_detail_text(*t));
    s
}

/// Describes a footprint.
pub fn footprint_detail(f: &proto::FootprintInstance) -> (r: String)
    ensures
        r@ == footprint_detail_text(*f),
{
    let mut s = String::from_str("footprint id=");
    push_id(&mut s, &f.id);
    s.append(" ref=");
    push_id(&mut s, &f.reference_text);
    s.append(" pos_nm=");
    push_point(&mut s, &f.position);
    s.append(" layer=");
    push_layer(&mut s, f.layer);
    assert(s@ =~= footprint_detail_text(*f));
    s
}

/// Describes a field.
pub fn field_detail(f: &proto::Field) -> (r: String)
    ensures
        r@ == field_detail_text(*f),
{
    let mut s = String::from_str("field name=");
    s.append(f.name.as_str());
    s.append(" visible=");
    if f.visible {
        s.append("true");
    } else {
        s.append("false");
    }
    s.append(" text=");
    push_id(&mut s, &f.text);
    assert(s@ =~= field_detail_text(*f));
    s
}

/// Describes a graphic shape.
pub fn graphic_detail(g: &proto::BoardGraphicShape) -> (r: String)
    ensures
        r@ == graphic_detail_text(*g),
{
    let mut s = String::from_str("graphic id=");
    push_id(&mut s, &g.id);
    s.append(" layer=");
    push_layer(&mut s, g.layer);
    s.append(" net=");
    push_net(&mut s, &g.net);
    assert(s@ =~= graphic_detail_text(*g));
    s
}

/// The description of a selected item.
pub open spec fn selection_item_detail_text(item: SelectionItem) -> Seq<char> {
    match item {
        SelectionItem::Track(t) => track_detail_text(t),
        SelectionItem::Footprint(f) => footprint_detail_text(f),
        SelectionItem::Field(f) => field_detail_text(f),
        SelectionItem::BoardGraphicShape(g) => graphic_detail_text(g),
        SelectionItem::Unparsed { raw_len } => unparsed_detail_text(raw_len as nat),
    }
}

/// Describes a selected item in one line.
pub fn selection_item_detail(item: &SelectionItem) -> (r: String)
    ensures
        r@ == selection_item_detail_text(*item),
{
    match item {
        SelectionItem::Track(t) => track_detail(t),
        SelectionItem::Footprint(f) => footprint_detail(f),
        SelectionItem::Field(f) => field_detail(f),
        SelectionItem::BoardGraphicShape(g) => graphic_detail(g),
        SelectionItem::Unparsed { raw_len } => {
            let mut s = String::from_str("unparsed payload (");
            push_decimal_u128(&mut s, *raw_len as u128);
            s.append(" bytes)");
            assert(s@ =~= unparsed_detail_text(*raw_len as nat));
            s
        },
    }
}

/// What a pad netlist entry says, as plain values: footprint reference,
/// footprint id, pad id, pad number, net code and net name.
pub open spec fn pad_entry_view(e: PadNetEntry) -> (
    Option<Seq<char>>,
    Option<Seq<char>>,
    Option<Seq<char>>,
    Seq<char>,
    Option<i32>,
    Option<Seq<char>>,
) {
    (
        opt_view(e.footprint_reference),
        opt_view(e.footprint_id),
        opt_view(e.pad_id),
        e.pad_number@,
        e.net_code,
        opt_view(e.net_name),
    )
}

/// An optional text, with an empty one counted as absent.
pub open spec fn non_empty_text(s: Option<String>) -> Option<Seq<char>> {
    match s {
        Some(t) => if t@.len() == 0 {
            None
        } else {
            Some(t@)
        },
        None => None,
    }
}

/// The netlist entry of pad `p` of footprint `f`.
pub open spec fn expected_pad_entry(f: proto::FootprintInstance, p: proto::Pad) -> (
    Option<Seq<char>>,
    Option<Seq<char>>,
    Option<Seq<char>>,
    Seq<char>,
    Option<i32>,
    Option<Seq<char>>,
) {
    (
        non_empty_text(f.reference_text),
        opt_view(f.id),
        opt_view(p.id),
        p.number@,
        match p.net {
            Some(n) => n.code,
            None => None,
        },
        match p.net {
            Some(n) => non_empty_text(Some(n.name)),
            None => None,
        },
    )
}

/// What a pad netlist entry says, as plain values.
pub type PadEntryView = (
    Option<Seq<char>>,
    Option<Seq<char>>,
    Option<Seq<char>>,
    Seq<char>,
    Option<i32>,
    Option<Seq<char>>,
);

/// The netlist entries of the pads among the first items of a footprint,
/// in order, or the text of the first pad that failed to decode.
pub open spec fn footprint_pads_result(
    f: proto::FootprintInstance,
    items: Seq<proto::FootprintItem>,
) -> Result<Seq<PadEntryView>, Seq<char>>
    decreases items.len(),
{
    if items.len() == 0 {
        Ok(Seq::empty())
    } else {
        match footprint_pads_result(f, items.drop_last()) {
            Err(m) => Err(m),
            Ok(rest) => match items.last() {
                proto::FootprintItem::Pad(p) => Ok(rest.push(expected_pad_entry(f, p))),
                proto::FootprintItem::UndecodablePad(m) => Err(m@),
                proto::FootprintItem::Other => Ok(rest),
            },
        }
    }
}

/// The netlist entries of all pads of the footprints among the items,
/// footprint by footprint in item order, each footprint's pads in
/// definition order; or the text of the first footprint or pad, in that
/// order, that failed to decode.
pub open spec fn netlist_result(items: Seq<proto::ItemPayload>) -> Result<Seq<PadEntryView>, Seq<char>>
    decreases items.len(),
{
    if items.len() == 0 {
        Ok(Seq::empty())
    } else {
        match netlist_result(items.drop_last()) {
            Err(m) => Err(m),
            Ok(rest) => match items.last() {
                proto::ItemPayload::Footprint(f) => match footprint_pads_result(f, f.definition_items@) {
                    Err(m) => Err(m),
                    Ok(pads) => Ok(rest + pads),
                },
                proto::ItemPayload::UndecodableFootprint(m) => Err(m@),
                proto::ItemPayload::Other => Ok(rest),
            },
        }
    }
}

/// The decoded pads among a footprint's items, in order.
pub open spec fn pads_in(items: Seq<proto::FootprintItem>) -> Seq<proto::Pad>
    decreases items.len(),
{
    if items.len() == 0 {
        Seq::empty()
    } else {
        let rest = pads_in(items.drop_last());
        match items.last() {
            proto::FootprintItem::Pad(p) => rest.push(p),
            _ => rest,
        }
    }
}

/// Every pad of a footprint whose pads all decoded gets one netlist entry,
/// in definition order, and each entry says what its pad and footprint
/// say: the footprint's reference (absent where empty) and id, the pad's id
/// and number, the code of the pad's net, and the pad's net name where the
/// net has a non-empty one.
pub proof fn lemma_footprint_pad_entries(f: proto::FootprintInstance, items: Seq<proto::FootprintItem>)
    requires
        forall|k: int| 0 <= k < items.len() ==> !(#[trigger] items[k] is UndecodablePad),
    ensures
        footprint_pads_result(f, items) matches Ok(es) && es.len() == pads_in(items).len()
            && forall|j: int|
            0 <= j < es.len() ==> {
                &&& (#[trigger] es[j]).0 == match f.reference_text {
                    Some(t) => if t@.len() > 0 {
                        Some(t@)
                    } else {
                        None
                    },
                    None => None,
                }
                &&& es[j].1 == opt_view(f.id)
                &&& es[j].2 == opt_view(pads_in(items)[j].id)
                &&& es[j].3 == pads_in(items)[j].number@
                &&& es[j].4 == match pads_in(items)[j].net {
                    Some(n) => n.code,
                    None => None,
                }
                &&& es[j].5 == match pads_in(items)[j].net {
                    Some(n) => if n.name@.len() > 0 {
                        Some(n.name@)
                    } else {
                        None
                    },
                    None => None,
                }
            },
    decreases items.len(),
{
    if items.len() > 0 {
        let rest = items.drop_last();
        assert forall|k: int| 0 <= k < rest.len() implies !(#[trigger] rest[k] is UndecodablePad) by {
            assert(rest[k] == items[k]);
        }
        lemma_footprint_pad_entries(f, rest);
        assert(!(items[items.len() - 1] is UndecodablePad));
    }
}

/// A reply of one footprint lists exactly that footprint's pads.
pub proof fn lemma_netlist_of_one_footprint(f: proto::FootprintInstance)
    ensures
        netlist_result(seq![proto::ItemPayload::Footprint(f)]) == match footprint_pads_result(
            f,
            f.definition_items@,
        ) {
            Ok(pads) => Ok(pads),
            Err(m) => Err(m),
        },
{
    let items = seq![proto::ItemPayload::Footprint(f)];
    assert(items.drop_last() =~= Seq::<proto::ItemPayload>::empty());
    assert(netlist_result(items.drop_last()) == Ok::<Seq<PadEntryView>, Seq<char>>(Seq::empty()));
    assert(items.last() == proto::ItemPayload::Footprint(f));
    match footprint_pads_result(f, f.definition_items@) {
        Ok(pads) => {
            assert(Seq::<PadEntryView>::empty() + pads =~= pads);
        },
        Err(m) => {},
    }
}

fn non_empty_copy(s: &Option<String>) -> (r: Option<String>)
    ensures
        opt_view(r) == non_empty_text(*s),
{
    match s {
        Some(t) => {
            if t.as_str().is_empty() {
                None
            } else {
                Some(t.clone())
            }
        },
        None => None,
    }
}

fn push_footprint_pads(entries: &mut Vec<PadNetEntry>, f: &proto::FootprintInstance) -> (r: Result<
    (),
    String,
>)
    ensures
        match footprint_pads_result(*f, f.definition_items@) {
            Ok(pads) => r is Ok && final(entries)@.map_values(|e: PadNetEntry| pad_entry_view(e))
                == old(entries)@.map_values(|e: PadNetEntry| pad_entry_view(e)) + pads,
            Err(m) => r matches Err(t) && t@ == m,
        },
{
    let reference = non_empty_copy(&f.reference_text);
    let ghost before = entries@.map_values(|e: PadNetEntry| pad_entry_view(e));
    let mut k: usize = 0;
    while k < f.definition_items.len()
        invariant
            k <= f.definition_items@.len(),
            opt_view(reference) == non_empty_text(f.reference_text),
            footprint_pads_result(*f, f.definition_items@.subrange(0, k as int)) matches Ok(pads)
                && entries@.map_values(|e: PadNetEntry| pad_entry_view(e)) == before + pads,
        decreases f.definition_items@.len() - k,
    {
        let ghost prev = entries@;
        proof {
            let items = f.definition_items@.subrange(0, k + 1);
            assert(items.drop_last() =~= f.definition_items@.subrange(0, k as int));
            assert(items.last() == f.definition_items@[k as int]);
        }
        match &f.definition_items[k] {
            proto::FootprintItem::Pad(pad) => {
                let (net_code, net_name) = match &pad.net {
                    Some(net) => (net.code, non_empty_copy(&Some(net.name.clone()))),
                    None => (None, None),
                };
                let entry = PadNetEntry {
                    footprint_reference: clone_opt_string(&reference),
                    footprint_id: clone_opt_string(&f.id),
                    pad_id: clone_opt_string(&pad.id),
                    pad_number: pad.number.clone(),
                    net_code,
                    net_name,
                };
                assert(pad_entry_view(entry) == expected_pad_entry(*f, *pad));
                entries.push(entry);
                assert(entries@.map_values(|e: PadNetEntry| pad_entry_view(e)) =~= prev.map_values(
                    |e: PadNetEntry| pad_entry_view(e),
                ).push(expected_pad_entry(*f, *pad)));
            },
            proto::FootprintItem::UndecodablePad(m) => {
                proof {
                    lemma_footprint_pads_error_stays(
                        *f,
                        f.definition_items@,
                        k + 1,
                    );
                }
                return Err(m.clone());
            },
            proto::FootprintItem::Other => {},
        }
        k = k + 1;
    }
    assert(f.definition_items@.subrange(0, f.definition_items@.len() as int) =~= f.definition_items@);
    Ok(())
}

/// Once a prefix of a footprint's items has failed, every longer one fails
/// with the same text.
proof fn lemma_footprint_pads_error_stays(
    f: proto::FootprintInstance,
    items: Seq<proto::FootprintItem>,
    k: int,
)
    requires
        0 <= k <= items.len(),
        footprint_pads_result(f, items.subrange(0, k)) is Err,
    ensures
        footprint_pads_result(f, items) == footprint_pads_result(f, items.subrange(0, k)),
    decreases items.len() - k,
{
    if k < items.len() {
        let next = items.subrange(0, k + 1);
        assert(next.drop_last() =~= items.subrange(0, k));
        lemma_footprint_pads_error_stays(f, items, k + 1);
    } else {
        assert(items.subrange(0, k) =~= items);
    }
}

/// Once a prefix of the items has failed, every longer one fails with the
/// same text.
proof fn lemma_netlist_error_stays(items: Seq<proto::ItemPayload>, k: int)
    requires
        0 <= k <= items.len(),
        netlist_result(items.subrange(0, k)) is Err,
    ensures
        netlist_result(items) == netlist_result(items.subrange(0, k)),
    decreases items.len() - k,
{
    if k < items.len() {
        let next = items.subrange(0, k + 1);
        assert(next.drop_last() =~= items.subrange(0, k));
        lemma_netlist_error_stays(items, k + 1);
    } else {
        assert(items.subrange(0, k) =~= items);
    }
}

/// Lists every pad of the footprints among the items with the net it is
/// on; items that are not footprints are passed over. The first footprint
/// or pad that failed to decode ends the listing with a decode error that
/// carries its text.
pub fn pad_netlist_from_footprint_items(items: &Vec<proto::ItemPayload>) -> (r: Result<
    Vec<PadNetEntry>,
    KiCadError,
>)
    ensures
        match netlist_result(items@) {
            Ok(es) => r matches Ok(v) && v@.map_values(|e: PadNetEntry| pad_entry_view(e)) == es,
            Err(m) => r matches Err(KiCadError::ProtobufDecode(t)) && t@ == m,
        },
{
    let mut entries: Vec<PadNetEntry> = Vec::new();
    let mut i: usize = 0;
    while i < items.len()
        invariant
            i <= items@.len(),
            netlist_result(items@.subrange(0, i as int)) matches Ok(es) && entries@.map_values(
                |e: PadNetEntry| pad_entry_view(e),
            ) == es,
        decreases items@.len() - i,
    {
        proof {
            let sub = items@.subrange(0, i + 1);
            assert(sub.drop_last() =~= items@.subrange(0, i as int));
            assert(sub.last() == items@[i as int]);
        }
        match &items[i] {
            proto::ItemPayload::Footprint(f) => {
                match push_footprint_pads(&mut entries, f) {
                    Ok(()) => {},
                    Err(m) => {
                        proof {
                            lemma_netlist_error_stays(items@, i + 1);
                        }
                        return Err(KiCadError::ProtobufDecode(m));
                    },
                }
            },
            proto::ItemPayload::UndecodableFootprint(m) => {
                proof {
                    lemma_netlist_error_stays(items@, i + 1);
                }
                return Err(KiCadError::ProtobufDecode(m.clone()));
            },
            proto::ItemPayload::Other => {},
        }
        i = i + 1;
    }
    assert(items@.subrange(0, items@.len() as int) =~= items@);
    Ok(entries)
}

} // verus!
