//! The board read report: which pads and layers it asks about, and the
//! Markdown sections it writes from what the board returned.

use vstd::prelude::*;
use vstd::string::StringExecFns;

use crate::model::board::{
    BoardEnabledLayers, BoardLayerInfo, BoardNet, PadNetEntry, PadShapeAsPolygonEntry,
    PadstackPresenceEntry, PadstackPresenceState, Vector2Nm,
};
use crate::model::common::{DocumentSpecifier, PcbObjectTypeCode, TitleBlockInfo, VersionInfo};
use crate::cli::{
    coverage_rows, polygon_geometry_summary, polygon_summary_of, proto_coverage_board_read_rows,
    PolygonGeometrySummary,
};
use crate::output::{
    net_line, net_line_text, open_doc_line, open_doc_line_text, pad_net_line, pad_net_line_text,
    presence_line, presence_line_text,
};
use crate::proto::AnyPayload;
use crate::text::{
    byte_prefix, lemma_sorted_set_len, truncate_bytes, utf8_len,
    insert_sorted_unique, int_decimal, nat_decimal, opt_view, push_decimal_i64, push_decimal_u128,
    strictly_sorted,
    strings_view,
};

verus! {

/// The distinct pad ids named by pad netlist entries.
pub open spec fn pad_id_set(entries: Seq<PadNetEntry>) -> Set<Seq<char>> {
    Set::new(
        |p: Seq<char>|
            exists|i: int| 0 <= i < entries.len() && #[trigger] opt_view(entries[i].pad_id) == Some(p),
    )
}

/// The pad ids that the report asks presence for: each distinct pad id of
/// the netlist once, in ascending order.
pub fn unique_pad_ids(entries: &Vec<PadNetEntry>) -> (r: Vec<String>)
    ensures
        strictly_sorted(strings_view(r@)),
        strings_view(r@).to_set() == pad_id_set(entries@),
{
    let mut ids: Vec<String> = Vec::new();
    let mut i: usize = 0;
    while i < entries.len()
        invariant
            i <= entries@.len(),
            strictly_sorted(strings_view(ids@)),
            strings_view(ids@).to_set() == pad_id_set(entries@.subrange(0, i as int)),
        decreases entries@.len() - i,
    {
        let ghost before = strings_view(ids@).to_set();
        match &entries[i].pad_id {
            Some(id) => {
                insert_sorted_unique(&mut ids, id.clone());
            },
            None => {},
        }
        i = i + 1;
        proof {
            let pre = entries@.subrange(0, i - 1);
            let cur = entries@.subrange(0, i as int);
            assert forall|x: Seq<char>| #[trigger]
                pad_id_set(cur).contains(x) <==> strings_view(ids@).to_set().contains(x) by {
                if pad_id_set(cur).contains(x) {
                    let k = choose|k: int|
                        0 <= k < cur.len() && #[trigger] opt_view(cur[k].pad_id) == Some(x);
                    if k < i - 1 {
                        assert(pre[k] == cur[k]);
                        assert(pad_id_set(pre).contains(x));
                    }
                }
                if before.contains(x) {
                    assert(pad_id_set(pre).contains(x));
                    let k = choose|k: int|
                        0 <= k < pre.len() && #[trigger] opt_view(pre[k].pad_id) == Some(x);
                    assert(cur[k] == pre[k]);
                    assert(pad_id_set(cur).contains(x));
                }
                if opt_view(entries@[i - 1].pad_id) == Some(x) {
                    assert(cur[i - 1] == entries@[i - 1]);
                    assert(pad_id_set(cur).contains(x));
                }
            }
            assert(pad_id_set(cur) =~= strings_view(ids@).to_set());
        }
    }
    assert(entries@.subrange(0, entries@.len() as int) =~= entries@);
    ids
}

/// Row `row` says that item `id` has a shape on layer `layer_id`.
pub open spec fn marks_present(row: PadstackPresenceEntry, layer_id: i32, id: Seq<char>) -> bool {
    row.layer_id == layer_id && row.presence == PadstackPresenceState::Present && row.item_id@ == id
}

/// The distinct items that the presence rows mark present on a layer.
pub open spec fn present_id_set(rows: Seq<PadstackPresenceEntry>, layer_id: i32) -> Set<Seq<char>> {
    Set::new(
        |p: Seq<char>| exists|i: int| 0 <= i < rows.len() && #[trigger] marks_present(rows[i], layer_id, p),
    )
}

/// The pads whose shapes the report asks for on a layer: each item marked
/// present on that layer once, in ascending order.
pub fn present_ids_on_layer(rows: &Vec<PadstackPresenceEntry>, layer_id: i32) -> (r: Vec<String>)
    ensures
        strictly_sorted(strings_view(r@)),
        strings_view(r@).to_set() == present_id_set(rows@, layer_id),
{
    let mut ids: Vec<String> = Vec::new();
    let mut i: usize = 0;
    while i < rows.len()
        invariant
            i <= rows@.len(),
            strictly_sorted(strings_view(ids@)),
            strings_view(ids@).to_set() == present_id_set(rows@.subrange(0, i as int), layer_id),
        decreases rows@.len() - i,
    {
        let ghost before = strings_view(ids@).to_set();
        let row = &rows[i];
        let present = match row.presence {
            PadstackPresenceState::Present => true,
            _ => false,
        };
        if present && row.layer_id == layer_id {
            insert_sorted_unique(&mut ids, row.item_id.clone());
        }
        i = i + 1;
        proof {
            let pre = rows@.subrange(0, i - 1);
            let cur = rows@.subrange(0, i as int);
            assert forall|x: Seq<char>| #[trigger]
                present_id_set(cur, layer_id).contains(x) <==> strings_view(ids@).to_set().contains(
                    x,
                ) by {
                if present_id_set(cur, layer_id).contains(x) {
                    let k = choose|k: int|
                        0 <= k < cur.len() && #[trigger] marks_present(cur[k], layer_id, x);
                    if k < i - 1 {
                        assert(pre[k] == cur[k]);
                        assert(present_id_set(pre, layer_id).contains(x));
                    }
                }
                if before.contains(x) {
                    assert(present_id_set(pre, layer_id).contains(x));
                    let k = choose|k: int|
                        0 <= k < pre.len() && #[trigger] marks_present(pre[k], layer_id, x);
                    assert(cur[k] == pre[k]);
                    assert(present_id_set(cur, layer_id).contains(x));
                }
                if marks_present(rows@[i - 1], layer_id, x) {
                    assert(cur[i - 1] == rows@[i - 1]);
                    assert(present_id_set(cur, layer_id).contains(x));
                }
            }
            assert(present_id_set(cur, layer_id) =~= strings_view(ids@).to_set());
        }
    }
    assert(rows@.subrange(0, rows@.len() as int) =~= rows@);
    ids
}

/// The texts one after another.
pub open spec fn concat_all(parts: Seq<Seq<char>>) -> Seq<char>
    decreases parts.len(),
{
    if parts.len() == 0 {
        Seq::empty()
    } else {
        concat_all(parts.drop_last()) + parts.last()
    }
}

proof fn lemma_concat_all_push(parts: Seq<Seq<char>>, x: Seq<char>)
    ensures
        concat_all(parts.push(x)) == concat_all(parts) + x,
{
    assert(parts.push(x).drop_last() =~= parts);
}

/// The number of netlist rows the report writes out in full.
pub const REPORT_MAX_PAD_NET_ROWS: usize = 2000;

/// The number of presence rows the report writes out in full.
pub const REPORT_MAX_PRESENCE_ROWS: usize = 2000;

/// `- <line>` and a line break, for a pad netlist entry.
pub open spec fn pad_net_item_text(e: PadNetEntry) -> Seq<char> {
    "- "@ + pad_net_line_text(e) + "\n"@
}

/// The pad netlist section: the entry count, the first entries in full and,
/// past the limit, how many were left out.
pub open spec fn pad_net_section_text(entries: Seq<PadNetEntry>) -> Seq<char> {
    let shown = if entries.len() > REPORT_MAX_PAD_NET_ROWS {
        REPORT_MAX_PAD_NET_ROWS as int
    } else {
        entries.len() as int
    };
    "### Pad-Level Netlist (Footprint/Pad/Net)\n\n"@ + "- pad_entry_count: "@ + nat_decimal(
        entries.len(),
    ) + "\n"@ + concat_all(entries.subrange(0, shown).map_values(|e: PadNetEntry| pad_net_item_text(e)))
        + (if entries.len() > REPORT_MAX_PAD_NET_ROWS {
        "- ... omitted "@ + nat_decimal((entries.len() - REPORT_MAX_PAD_NET_ROWS) as nat)
            + " additional pad net rows (use `netlist-pads` CLI command for full output)\n"@
    } else {
        Seq::empty()
    }) + "\n"@
}

/// Writes the pad netlist section of the report.
pub fn pad_net_section(entries: &Vec<PadNetEntry>) -> (r: String)
    ensures
        r@ == pad_net_section_text(entries@),
{
    let mut s = String::from_str("### Pad-Level Netlist (Footprint/Pad/Net)\n\n");
    s.append("- pad_entry_count: ");
    push_decimal_u128(&mut s, entries.len() as u128);
    s.append("\n");
    let shown: usize = if entries.len() > REPORT_MAX_PAD_NET_ROWS {
        REPORT_MAX_PAD_NET_ROWS
    } else {
        entries.len()
    };
    let ghost head = s@;
    let mut i: usize = 0;
    while i < shown
        invariant
            shown <= entries@.len(),
            i <= shown,
            s@ == head + concat_all(
                entries@.subrange(0, i as int).map_values(|e: PadNetEntry| pad_net_item_text(e)),
            ),
        decreases shown - i,
    {
        let ghost parts = entries@.subrange(0, i as int).map_values(
            |e: PadNetEntry| pad_net_item_text(e),
        );
        s.append("- ");
        let line = pad_net_line(&entries[i]);
        s.append(line.as_str());
        s.append("\n");
        proof {
            lemma_concat_all_push(parts, pad_net_item_text(entries@[i as int]));
            assert(entries@.subrange(0, i + 1).map_values(|e: PadNetEntry| pad_net_item_text(e))
                =~= parts.push(pad_net_item_text(entries@[i as int])));
        }
        i = i + 1;
    }
    if entries.len() > REPORT_MAX_PAD_NET_ROWS {
        s.append("- ... omitted ");
        push_decimal_u128(&mut s, (entries.len() - REPORT_MAX_PAD_NET_ROWS) as u128);
        s.append(" additional pad net rows (use `netlist-pads` CLI command for full output)\n");
    }
    s.append("\n");
    s
}

/// `- <line>` and a line break, for a presence row.
pub open spec fn presence_item_text(row: PadstackPresenceEntry) -> Seq<char> {
    "- "@ + presence_line_text(row) + "\n"@
}

/// The presence matrix section: how many pads and layers were asked
/// about, how many rows came back, the first rows in full and, past the
/// limit, how many were left out.
pub open spec fn presence_section_text(
    pad_id_count: nat,
    layer_count: nat,
    rows: Seq<PadstackPresenceEntry>,
) -> Seq<char> {
    let shown = if rows.len() > REPORT_MAX_PRESENCE_ROWS {
        REPORT_MAX_PRESENCE_ROWS as int
    } else {
        rows.len() as int
    };
    "### Padstack Presence Matrix (Pad IDs x Enabled Layers)\n\n"@ + "- unique_pad_id_count: "@
        + nat_decimal(pad_id_count) + "\n- enabled_layer_count: "@ + nat_decimal(layer_count)
        + "\n"@ + "- presence_entry_count: "@ + nat_decimal(rows.len()) + "\n"@ + concat_all(
        rows.subrange(0, shown).map_values(|r: PadstackPresenceEntry| presence_item_text(r)),
    ) + (if rows.len() > REPORT_MAX_PRESENCE_ROWS {
        "- ... omitted "@ + nat_decimal((rows.len() - REPORT_MAX_PRESENCE_ROWS) as nat)
            + " additional presence rows (use `padstack-presence` CLI command for full output)\n"@
    } else {
        Seq::empty()
    }) + "\n"@
}

/// Writes the presence matrix section of the report.
pub fn presence_section(pad_id_count: usize, layer_count: usize, rows: &Vec<PadstackPresenceEntry>) -> (r:
    String)
    ensures
        r@ == presence_section_text(pad_id_count as nat, layer_count as nat, rows@),
{
    let mut s = String::from_str("### Padstack Presence Matrix (Pad IDs x Enabled Layers)\n\n");
    s.append("- unique_pad_id_count: ");
    push_decimal_u128(&mut s, pad_id_count as u128);
    s.append("\n- enabled_layer_count: ");
    push_decimal_u128(&mut s, layer_count as u128);
    s.append("\n");
    s.append("- presence_entry_count: ");
    push_decimal_u128(&mut s, rows.len() as u128);
    s.append("\n");
    let shown: usize = if rows.len() > REPORT_MAX_PRESENCE_ROWS {
        REPORT_MAX_PRESENCE_ROWS
    } else {
        rows.len()
    };
    let ghost head = s@;
    let mut i: usize = 0;
    while i < shown
        invariant
            shown <= rows@.len(),
            i <= shown,
            s@ == head + concat_all(
                rows@.subrange(0, i as int).map_values(
                    |r: PadstackPresenceEntry| presence_item_text(r),
                ),
            ),
        decreases shown - i,
    {
        let ghost parts = rows@.subrange(0, i as int).map_values(
            |r: PadstackPresenceEntry| presence_item_text(r),
        );
        s.append("- ");
        let line = presence_line(&rows[i]);
        s.append(line.as_str());
        s.append("\n");
        proof {
            lemma_concat_all_push(parts, presence_item_text(rows@[i as int]));
            assert(rows@.subrange(0, i + 1).map_values(
                |r: PadstackPresenceEntry| presence_item_text(r),
            ) =~= parts.push(presence_item_text(rows@[i as int])));
        }
        i = i + 1;
    }
    if rows.len() > REPORT_MAX_PRESENCE_ROWS {
        s.append("- ... omitted ");
        push_decimal_u128(&mut s, (rows.len() - REPORT_MAX_PRESENCE_ROWS) as u128);
        s.append(
            " additional presence rows (use `padstack-presence` CLI command for full output)\n",
        );
    }
    s.append("\n");
    s
}

/// The opening of the report: its title and purpose, the session (KiCad
/// version, socket address, timeout) and the open PCB documents.
pub open spec fn report_head_text(
    version: VersionInfo,
    socket_uri: Seq<char>,
    timeout_ms: nat,
    docs: Seq<DocumentSpecifier>,
) -> Seq<char> {
    "# Board Read Reconstruction Report\n\n"@ + "Generated by `kicad-ipc-cli board-read-report`.\n\n"@
        + "Goal: verify that non-mutating PCB API reads are sufficient to reconstruct board state.\n\n"@
        + "## Session\n\n"@ + "- KiCad version: "@ + nat_decimal(version.major as nat) + "."@
        + nat_decimal(version.minor as nat) + "."@ + nat_decimal(version.patch as nat) + " ("@
        + version.full_version@ + ")\n"@ + "- Socket URI: `"@ + socket_uri + "`\n"@
        + "- Timeout (ms): "@ + nat_decimal(timeout_ms) + "\n\n"@ + "## Open Documents\n\n"@
        + if docs.len() == 0 {
        "- No open PCB docs\n\n"@
    } else {
        concat_all(
            Seq::new(docs.len(), |k: int| "- "@ + open_doc_line_text(k as nat, docs[k]) + "\n"@),
        ) + "\n"@
    }
}

/// Writes the opening of the report.
pub fn report_head(version: &VersionInfo, socket_uri: &str, timeout_ms: u128, docs: &Vec<DocumentSpecifier>) -> (r:
    String)
    ensures
        r@ == report_head_text(*version, socket_uri@, timeout_ms as nat, docs@),
{
    let mut s = String::from_str("# Board Read Reconstruction Report\n\n");
    s.append("Generated by `kicad-ipc-cli board-read-report`.\n\n");
    s.append("Goal: verify that non-mutating PCB API reads are sufficient to reconstruct board state.\n\n");
    s.append("## Session\n\n");
    s.append("- KiCad version: ");
    push_decimal_u128(&mut s, version.major as u128);
    s.append(".");
    push_decimal_u128(&mut s, version.minor as u128);
    s.append(".");
    push_decimal_u128(&mut s, version.patch as u128);
    s.append(" (");
    s.append(version.full_version.as_str());
    s.append(")\n");
    s.append("- Socket URI: `");
    s.append(socket_uri);
    s.append("`\n");
    s.append("- Timeout (ms): ");
    push_decimal_u128(&mut s, timeout_ms);
    s.append("\n\n");
    s.append("## Open Documents\n\n");
    if docs.len() == 0 {
        s.append("- No open PCB docs\n\n");
        return s;
    }
    let ghost head = s@;
    let mut i: usize = 0;
    while i < docs.len()
        invariant
            i <= docs@.len(),
            s@ == head + concat_all(
                Seq::new(i as nat, |k: int| "- "@ + open_doc_line_text(k as nat, docs@[k]) + "\n"@),
            ),
        decreases docs@.len() - i,
    {
        let ghost parts = Seq::new(
            i as nat,
            |k: int| "- "@ + open_doc_line_text(k as nat, docs@[k]) + "\n"@,
        );
        s.append("- ");
        let line = open_doc_line(i, &docs[i]);
        s.append(line.as_str());
        s.append("\n");
        proof {
            lemma_concat_all_push(parts, "- "@ + open_doc_line_text(i as nat, docs@[i as int]) + "\n"@);
            assert(Seq::new(
                (i + 1) as nat,
                |k: int| "- "@ + open_doc_line_text(k as nat, docs@[k]) + "\n"@,
            ) =~= parts.push("- "@ + open_doc_line_text(i as nat, docs@[i as int]) + "\n"@));
        }
        i = i + 1;
    }
    s.append("\n");
    s
}

/// `  - <name> (<id>)` and a line break, for a layer in a list.
pub open spec fn layer_item_text(l: BoardLayerInfo) -> Seq<char> {
    "  - "@ + l.name@ + " ("@ + int_decimal(l.id as int) + ")\n"@
}

fn push_layer_items(s: &mut String, layers: &Vec<BoardLayerInfo>)
    ensures
        final(s)@ == old(s)@ + concat_all(layers@.map_values(|l: BoardLayerInfo| layer_item_text(l))),
{
    let ghost head = s@;
    let mut i: usize = 0;
    while i < layers.len()
        invariant
            i <= layers@.len(),
            s@ == head + concat_all(
                layers@.subrange(0, i as int).map_values(|l: BoardLayerInfo| layer_item_text(l)),
            ),
        decreases layers@.len() - i,
    {
        let ghost parts = layers@.subrange(0, i as int).map_values(
            |l: BoardLayerInfo| layer_item_text(l),
        );
        let l = &layers[i];
        s.append("  - ");
        s.append(l.name.as_str());
        s.append(" (");
        push_decimal_i64(s, l.id as i64);
        s.append(")\n");
        proof {
            lemma_concat_all_push(parts, layer_item_text(layers@[i as int]));
            assert(layers@.subrange(0, i + 1).map_values(|l: BoardLayerInfo| layer_item_text(l))
                =~= parts.push(layer_item_text(layers@[i as int])));
        }
        i = i + 1;
    }
    assert(layers@.subrange(0, layers@.len() as int) =~= layers@);
}

/// `- code=<code> name=<name>` and a line break, for a net.
pub open spec fn net_item_text(n: BoardNet) -> Seq<char> {
    "- "@ + net_line_text(n) + "\n"@
}

/// The layer, origin and net section: the enabled, visible and active
/// layers, both origins, and the netlist.
pub open spec fn layers_section_text(
    enabled: BoardEnabledLayers,
    visible: Seq<BoardLayerInfo>,
    active: BoardLayerInfo,
    grid: Vector2Nm,
    drill: Vector2Nm,
    nets: Seq<BoardNet>,
) -> Seq<char> {
    "## Layer / Origin / Nets\n\n"@ + "- copper_layer_count: "@ + nat_decimal(
        enabled.copper_layer_count as nat,
    ) + "\n"@ + "- enabled_layers:\n"@ + concat_all(
        enabled.layers@.map_values(|l: BoardLayerInfo| layer_item_text(l)),
    ) + "- visible_layers:\n"@ + concat_all(visible.map_values(|l: BoardLayerInfo| layer_item_text(l)))
        + "- active_layer: "@ + active.name@ + " ("@ + int_decimal(active.id as int) + ")\n"@
        + "- grid_origin_nm: "@ + int_decimal(grid.x_nm as int) + ","@ + int_decimal(
        grid.y_nm as int,
    ) + "\n"@ + "- drill_origin_nm: "@ + int_decimal(drill.x_nm as int) + ","@ + int_decimal(
        drill.y_nm as int,
    ) + "\n"@ + "- net_count: "@ + nat_decimal(nets.len()) + "\n"@ + "\n### Netlist\n\n"@
        + concat_all(nets.map_values(|n: BoardNet| net_item_text(n))) + "\n"@
}

/// Writes the layer, origin and net section of the report.
pub fn layers_section(
    enabled: &BoardEnabledLayers,
    visible: &Vec<BoardLayerInfo>,
    active: &BoardLayerInfo,
    grid: &Vector2Nm,
    drill: &Vector2Nm,
    nets: &Vec<BoardNet>,
) -> (r: String)
    ensures
        r@ == layers_section_text(*enabled, visible@, *active, *grid, *drill, nets@),
{
    let mut s = String::from_str("## Layer / Origin / Nets\n\n");
    s.append("- copper_layer_count: ");
    push_decimal_u128(&mut s, enabled.copper_layer_count as u128);
    s.append("\n");
    s.append("- enabled_layers:\n");
    push_layer_items(&mut s, &enabled.layers);
    s.append("- visible_layers:\n");
    push_layer_items(&mut s, visible);
    s.append("- active_layer: ");
    s.append(active.name.as_str());
    s.append(" (");
    push_decimal_i64(&mut s, active.id as i64);
    s.append(")\n");
    s.append("- grid_origin_nm: ");
    push_decimal_i64(&mut s, grid.x_nm);
    s.append(",");
    push_decimal_i64(&mut s, grid.y_nm);
    s.append("\n");
    s.append("- drill_origin_nm: ");
    push_decimal_i64(&mut s, drill.x_nm);
    s.append(",");
    push_decimal_i64(&mut s, drill.y_nm);
    s.append("\n");
    s.append("- net_count: ");
    push_decimal_u128(&mut s, nets.len() as u128);
    s.append("\n");
    s.append("\n### Netlist\n\n");
    let ghost head = s@;
    let mut i: usize = 0;
    while i < nets.len()
        invariant
            i <= nets@.len(),
            s@ == head + concat_all(nets@.subrange(0, i as int).map_values(|n: BoardNet| net_item_text(n))),
        decreases nets@.len() - i,
    {
        let ghost parts = nets@.subrange(0, i as int).map_values(|n: BoardNet| net_item_text(n));
        s.append("- ");
        let line = net_line(&nets[i]);
        s.append(line.as_str());
        s.append("\n");
        proof {
            lemma_concat_all_push(parts, net_item_text(nets@[i as int]));
            assert(nets@.subrange(0, i + 1).map_values(|n: BoardNet| net_item_text(n)) =~= parts.push(
                net_item_text(nets@[i as int]),
            ));
        }
        i = i + 1;
    }
    assert(nets@.subrange(0, nets@.len() as int) =~= nets@);
    s.append("\n");
    s
}

/// The node statistics of a pad's polygon fit in machine words.
pub open spec fn polygon_fits(row: PadShapeAsPolygonEntry) -> bool {
    polygon_summary_of(row.polygon).0 + polygon_summary_of(row.polygon).2 <= usize::MAX
}

/// `- pad_id=.. layer_id=.. layer_name=.. outline_nodes=.. hole_count=..
/// hole_nodes_total=.. point_nodes=.. arc_nodes=..` and a line break, from
/// a pad's id, layer and the node statistics of its polygon.
pub open spec fn polygon_row_text(
    pad_id: Seq<char>,
    layer_id: i32,
    layer_name: Seq<char>,
    counts: (nat, nat, nat, nat, nat),
) -> Seq<char> {
    "- pad_id="@ + pad_id + " layer_id="@ + int_decimal(layer_id as int) + " layer_name="@
        + layer_name + " outline_nodes="@ + nat_decimal(counts.0) + " hole_count="@ + nat_decimal(
        counts.1,
    ) + " hole_nodes_total="@ + nat_decimal(counts.2) + " point_nodes="@ + nat_decimal(counts.3)
        + " arc_nodes="@ + nat_decimal(counts.4) + "\n"@
}

/// The line of the pad shape section for one pad's polygon.
pub open spec fn polygon_item_text(row: PadShapeAsPolygonEntry) -> Seq<char> {
    polygon_row_text(row.pad_id@, row.layer_id, row.layer_name@, polygon_summary_of(row.polygon))
}

fn push_polygon_row(
    s: &mut String,
    pad_id: &str,
    layer_id: i32,
    layer_name: &str,
    summary: &PolygonGeometrySummary,
)
    ensures
        final(s)@ == old(s)@ + polygon_row_text(
            pad_id@,
            layer_id,
            layer_name@,
            (
                summary.outline_nodes as nat,
                summary.hole_count as nat,
                summary.hole_nodes_total as nat,
                summary.point_nodes as nat,
                summary.arc_nodes as nat,
            ),
        ),
{
    s.append("- pad_id=");
    s.append(pad_id);
    s.append(" layer_id=");
    push_decimal_i64(s, layer_id as i64);
    s.append(" layer_name=");
    s.append(layer_name);
    s.append(" outline_nodes=");
    push_decimal_u128(s, summary.outline_nodes as u128);
    s.append(" hole_count=");
    push_decimal_u128(s, summary.hole_count as u128);
    s.append(" hole_nodes_total=");
    push_decimal_u128(s, summary.hole_nodes_total as u128);
    s.append(" point_nodes=");
    push_decimal_u128(s, summary.point_nodes as u128);
    s.append(" arc_nodes=");
    push_decimal_u128(s, summary.arc_nodes as u128);
    s.append("\n");
}

fn push_polygon_item(s: &mut String, row: &PadShapeAsPolygonEntry)
    requires
        polygon_fits(*row),
    ensures
        final(s)@ == old(s)@ + polygon_item_text(*row),
{
    let summary = polygon_geometry_summary(&row.polygon);
    push_polygon_row(s, row.pad_id.as_str(), row.layer_id, row.layer_name.as_str(), &summary);
}

/// The opening of the pad shape section.
pub open spec fn polygon_section_intro_text() -> Seq<char> {
    "### Pad Shape Polygons (All Present Pad/Layer Pairs)\n\n"@
        + "For full per-node coordinate payloads, run `pad-shape-polygon --pad-id ... --layer-id ... --debug` for targeted pad/layer subsets.\n\n"@
}

/// Writes the opening of the pad shape section.
pub fn polygon_section_intro() -> (r: String)
    ensures
        r@ == polygon_section_intro_text(),
{
    let mut s = String::from_str("### Pad Shape Polygons (All Present Pad/Layer Pairs)\n\n");
    s.append(
        "For full per-node coordinate payloads, run `pad-shape-polygon --pad-id ... --layer-id ... --debug` for targeted pad/layer subsets.\n\n",
    );
    s
}

/// The part of the pad shape section for one layer: how many pads are
/// present on it and, where any are, the node statistics of each pad's
/// polygon as returned for them.
pub open spec fn polygon_layer_text(
    layer: BoardLayerInfo,
    present_count: nat,
    polygons: Seq<PadShapeAsPolygonEntry>,
) -> Seq<char> {
    "#### Layer "@ + layer.name@ + " ("@ + int_decimal(layer.id as int) + ")\n\n- pad_count_present: "@
        + nat_decimal(present_count) + "\n\n"@ + if present_count == 0 {
        Seq::empty()
    } else {
        "- polygon_entry_count: "@ + nat_decimal(polygons.len()) + "\n\n"@ + concat_all(
            polygons.map_values(|r: PadShapeAsPolygonEntry| polygon_item_text(r)),
        ) + "\n"@
    }
}

/// Writes the part of the pad shape section for one layer. The polygons
/// are read only where some pad is present on the layer.
pub fn polygon_layer_block(
    layer: &BoardLayerInfo,
    present_count: usize,
    polygons: &Vec<PadShapeAsPolygonEntry>,
) -> (r: String)
    requires
        forall|k: int| 0 <= k < polygons@.len() ==> polygon_fits(#[trigger] polygons@[k]),
    ensures
        r@ == polygon_layer_text(*layer, present_count as nat, polygons@),
{
    let mut s = String::from_str("#### Layer ");
    s.append(layer.name.as_str());
    s.append(" (");
    push_decimal_i64(&mut s, layer.id as i64);
    s.append(")\n\n- pad_count_present: ");
    push_decimal_u128(&mut s, present_count as u128);
    s.append("\n\n");
    if present_count == 0 {
        return s;
    }
    s.append("- polygon_entry_count: ");
    push_decimal_u128(&mut s, polygons.len() as u128);
    s.append("\n\n");
    let ghost head = s@;
    let mut i: usize = 0;
    while i < polygons.len()
        invariant
            i <= polygons@.len(),
            forall|k: int| 0 <= k < polygons@.len() ==> polygon_fits(#[trigger] polygons@[k]),
            s@ == head + concat_all(
                polygons@.subrange(0, i as int).map_values(
                    |r: PadShapeAsPolygonEntry| polygon_item_text(r),
                ),
            ),
        decreases polygons@.len() - i,
    {
        let ghost parts = polygons@.subrange(0, i as int).map_values(
            |r: PadShapeAsPolygonEntry| polygon_item_text(r),
        );
        assert(polygon_fits(polygons@[i as int]));
        push_polygon_item(&mut s, &polygons[i]);
        proof {
            lemma_concat_all_push(parts, polygon_item_text(polygons@[i as int]));
            assert(polygons@.subrange(0, i + 1).map_values(
                |r: PadShapeAsPolygonEntry| polygon_item_text(r),
            ) =~= parts.push(polygon_item_text(polygons@[i as int])));
        }
        i = i + 1;
    }
    assert(polygons@.subrange(0, polygons@.len() as int) =~= polygons@);
    s.append("\n");
    s
}

/// The title block section: title, date, revision and company, then each
/// comment numbered from 1.
pub open spec fn title_block_section_text(t: TitleBlockInfo) -> Seq<char> {
    "## Board/Editor Structures\n\n"@ + "### Title Block\n\n"@ + "- title: "@ + t.title@ + "\n"@
        + "- date: "@ + t.date@ + "\n"@ + "- revision: "@ + t.revision@ + "\n"@ + "- company: "@
        + t.company@ + "\n"@ + concat_all(
        Seq::new(
            t.comments@.len(),
            |k: int| "- comment"@ + nat_decimal((k + 1) as nat) + ": "@ + t.comments@[k]@ + "\n"@,
        ),
    ) + "\n"@
}

/// Writes the title block section of the report.
pub fn title_block_section(t: &TitleBlockInfo) -> (r: String)
    ensures
        r@ == title_block_section_text(*t),
{
    let mut s = String::from_str("## Board/Editor Structures\n\n");
    s.append("### Title Block\n\n");
    s.append("- title: ");
    s.append(t.title.as_str());
    s.append("\n");
    s.append("- date: ");
    s.append(t.date.as_str());
    s.append("\n");
    s.append("- revision: ");
    s.append(t.revision.as_str());
    s.append("\n");
    s.append("- company: ");
    s.append(t.company.as_str());
    s.append("\n");
    let ghost head = s@;
    let comments = &t.comments;
    let mut i: usize = 0;
    while i < comments.len()
        invariant
            i <= comments@.len(),
            s@ == head + concat_all(
                Seq::new(
                    i as nat,
                    |k: int| "- comment"@ + nat_decimal((k + 1) as nat) + ": "@ + comments@[k]@ + "\n"@,
                ),
            ),
        decreases comments@.len() - i,
    {
        let ghost parts = Seq::new(
            i as nat,
            |k: int| "- comment"@ + nat_decimal((k + 1) as nat) + ": "@ + comments@[k]@ + "\n"@,
        );
        s.append("- comment");
        push_decimal_u128(&mut s, i as u128 + 1);
        s.append(": ");
        s.append(comments[i].as_str());
        s.append("\n");
        proof {
            let x = "- comment"@ + nat_decimal((i + 1) as nat) + ": "@ + comments@[i as int]@ + "\n"@;
            lemma_concat_all_push(parts, x);
            assert(Seq::new(
                (i + 1) as nat,
                |k: int| "- comment"@ + nat_decimal((k + 1) as nat) + ": "@ + comments@[k]@ + "\n"@,
            ) =~= parts.push(x));
        }
        i = i + 1;
    }
    s.append("\n");
    s
}

/// The item types that came back with no items; types whose request
/// failed are not counted as missing.
pub open spec fn missing_types_of(results: Seq<(PcbObjectTypeCode, Option<usize>)>) -> Seq<
    PcbObjectTypeCode,
>
    decreases results.len(),
{
    if results.len() == 0 {
        Seq::empty()
    } else {
        let rest = missing_types_of(results.drop_last());
        if results.last().1 == Some(0usize) {
            rest.push(results.last().0)
        } else {
            rest
        }
    }
}

/// The item types that came back empty, given for each type asked for
/// the number of items returned, or none where the request failed.
pub fn missing_item_types(results: &Vec<(PcbObjectTypeCode, Option<usize>)>) -> (r: Vec<
    PcbObjectTypeCode,
>)
    ensures
        r@ == missing_types_of(results@),
{
    let mut out: Vec<PcbObjectTypeCode> = Vec::new();
    let mut i: usize = 0;
    while i < results.len()
        invariant
            i <= results@.len(),
            out@ == missing_types_of(results@.subrange(0, i as int)),
        decreases results@.len() - i,
    {
        let (object_type, count) = results[i];
        proof {
            assert(results@.subrange(0, i + 1).drop_last() =~= results@.subrange(0, i as int));
        }
        match count {
            Some(n) => {
                if n == 0 {
                    out.push(object_type);
                }
            },
            None => {},
        }
        i = i + 1;
    }
    assert(results@.subrange(0, results@.len() as int) =~= results@);
    out
}

/// `- <name> (<code>) had zero items in this board` and a line break.
pub open spec fn missing_type_item_text(t: PcbObjectTypeCode) -> Seq<char> {
    "- "@ + t.name@ + " ("@ + int_decimal(t.code as int) + ") had zero items in this board\n"@
}

/// The section listing the item types the board has none of.
pub open spec fn missing_types_section_text(missing: Seq<PcbObjectTypeCode>) -> Seq<char> {
    "## Missing Item Classes In Current Board\n\n"@ + if missing.len() == 0 {
        "- none\n\n"@
    } else {
        concat_all(missing.map_values(|t: PcbObjectTypeCode| missing_type_item_text(t)))
            + "\nIf these are important for your reconstruction target, open a denser board and rerun this report.\n\n"@
    }
}

/// Writes the section listing the item types the board has none of.
pub fn missing_types_section(missing: &Vec<PcbObjectTypeCode>) -> (r: String)
    ensures
        r@ == missing_types_section_text(missing@),
{
    let mut s = String::from_str("## Missing Item Classes In Current Board\n\n");
    if missing.len() == 0 {
        s.append("- none\n\n");
        return s;
    }
    let ghost head = s@;
    let mut i: usize = 0;
    while i < missing.len()
        invariant
            i <= missing@.len(),
            s@ == head + concat_all(
                missing@.subrange(0, i as int).map_values(
                    |t: PcbObjectTypeCode| missing_type_item_text(t),
                ),
            ),
        decreases missing@.len() - i,
    {
        let ghost parts = missing@.subrange(0, i as int).map_values(
            |t: PcbObjectTypeCode| missing_type_item_text(t),
        );
        let t = missing[i];
        s.append("- ");
        s.append(t.name);
        s.append(" (");
        push_decimal_i64(&mut s, t.code as i64);
        s.append(") had zero items in this board\n");
        proof {
            lemma_concat_all_push(parts, missing_type_item_text(missing@[i as int]));
            assert(missing@.subrange(0, i + 1).map_values(
                |t: PcbObjectTypeCode| missing_type_item_text(t),
            ) =~= parts.push(missing_type_item_text(missing@[i as int])));
        }
        i = i + 1;
    }
    assert(missing@.subrange(0, missing@.len() as int) =~= missing@);
    s.append(
        "\nIf these are important for your reconstruction target, open a denser board and rerun this report.\n\n",
    );
    s
}

/// `` - `<command>` -> `<status>` (<note>) `` and a line break.
pub open spec fn coverage_item_text(row: (Seq<char>, Seq<char>, Seq<char>)) -> Seq<char> {
    "- `"@ + row.0 + "` -> `"@ + row.1 + "` ("@ + row.2 + ")\n"@
}

/// The closing section: how far the board read commands are covered.
pub open spec fn coverage_section_text() -> Seq<char> {
    "## Proto Coverage (Board Read)\n\n"@ + concat_all(
        coverage_rows().map_values(|r: (Seq<char>, Seq<char>, Seq<char>)| coverage_item_text(r)),
    ) + "\n"@
}

/// Writes the closing coverage section of the report.
pub fn coverage_section() -> (r: String)
    ensures
        r@ == coverage_section_text(),
{
    let rows = proto_coverage_board_read_rows();
    let ghost views = rows@.map_values(
        |t: (&'static str, &'static str, &'static str)| (t.0@, t.1@, t.2@),
    );
    let mut s = String::from_str("## Proto Coverage (Board Read)\n\n");
    let ghost head = s@;
    let mut i: usize = 0;
    while i < rows.len()
        invariant
            i <= rows@.len(),
            views == rows@.map_values(
                |t: (&'static str, &'static str, &'static str)| (t.0@, t.1@, t.2@),
            ),
            s@ == head + concat_all(
                views.subrange(0, i as int).map_values(
                    |r: (Seq<char>, Seq<char>, Seq<char>)| coverage_item_text(r),
                ),
            ),
        decreases rows@.len() - i,
    {
        let ghost parts = views.subrange(0, i as int).map_values(
            |r: (Seq<char>, Seq<char>, Seq<char>)| coverage_item_text(r),
        );
        let (command, status, note) = rows[i];
        s.append("- `");
        s.append(command);
        s.append("` -> `");
        s.append(status);
        s.append("` (");
        s.append(note);
        s.append(")\n");
        proof {
            assert(views[i as int] == (command@, status@, note@));
            lemma_concat_all_push(parts, coverage_item_text(views[i as int]));
            assert(views.subrange(0, i + 1).map_values(
                |r: (Seq<char>, Seq<char>, Seq<char>)| coverage_item_text(r),
            ) =~= parts.push(coverage_item_text(views[i as int])));
        }
        i = i + 1;
    }
    assert(views.subrange(0, views.len() as int) =~= views);
    s.append("\n");
    s
}

/// The number of items of each type whose debug text the report shows.
pub const REPORT_MAX_ITEM_DEBUG_ROWS_PER_TYPE: usize = 5;

/// The number of bytes of an item's debug text that the report keeps.
pub const REPORT_MAX_ITEM_DEBUG_CHARS: usize = 8000;

/// The number of bytes of the board file that the report keeps.
pub const REPORT_MAX_BOARD_SNAPSHOT_CHARS: usize = 750000;

/// `s`, or, where it is longer than `max` bytes, the characters that fit
/// in its first `max` bytes and then `notice`.
pub open spec fn capped_text(s: Seq<char>, max: nat, notice: Seq<char>) -> Seq<char> {
    if utf8_len(s) > max {
        byte_prefix(s, max) + notice
    } else {
        s
    }
}

fn push_capped(out: &mut String, s: &str, max: usize, notice: &str)
    ensures
        final(out)@ == old(out)@ + capped_text(s@, max as nat, notice@),
{
    let (cut, was_cut) = truncate_bytes(s, max);
    out.append(cut.as_str());
    if was_cut {
        out.append(notice);
    }
}

/// A fenced text block under a level-three heading.
pub open spec fn fenced_section_text(title: Seq<char>, body: Seq<char>) -> Seq<char> {
    "### "@ + title + "\n\n```text\n"@ + body + "\n```\n\n"@
}

/// Writes a fenced text block under a level-three heading, as the report
/// does for the stackup, graphics defaults, editor appearance and net
/// class map.
pub fn fenced_section(title: &str, body: &str) -> (r: String)
    ensures
        r@ == fenced_section_text(title@, body@),
{
    let mut s = String::from_str("### ");
    s.append(title);
    s.append("\n\n```text\n");
    s.append(body);
    s.append("\n```\n\n");
    s
}

/// The notice after a cut item debug text.
pub open spec fn item_debug_notice() -> Seq<char> {
    "\n...<truncated; use items-raw CLI for full payload>"@
}

/// The block for one item of a type: its type URL, payload length and
/// debug text, cut to the limit.
pub open spec fn item_debug_block_text(index: nat, item: AnyPayload, debug: Seq<char>) -> Seq<char> {
    "#### item "@ + nat_decimal(index) + "\n\n- type_url: `"@ + item.type_url@ + "`\n- raw_len: `"@
        + nat_decimal(item.value@.len()) + "`\n\n"@ + "```text\n"@ + capped_text(
        debug,
        REPORT_MAX_ITEM_DEBUG_CHARS as nat,
        item_debug_notice(),
    ) + "\n```\n\n"@
}

fn push_item_debug_block(s: &mut String, index: usize, item: &AnyPayload, debug: &str)
    ensures
        final(s)@ == old(s)@ + item_debug_block_text(index as nat, *item, debug@),
{
    s.append("#### item ");
    push_decimal_u128(s, index as u128);
    s.append("\n\n- type_url: `");
    s.append(item.type_url.as_str());
    s.append("`\n- raw_len: `");
    push_decimal_u128(s, item.value.len() as u128);
    s.append("`\n\n");
    s.append("```text\n");
    push_capped(s, debug, REPORT_MAX_ITEM_DEBUG_CHARS, "\n...<truncated; use items-raw CLI for full payload>");
    s.append("\n```\n\n");
}

/// The number of items of a type whose debug text the report shows.
pub open spec fn shown_item_count(n: nat) -> nat {
    if n > REPORT_MAX_ITEM_DEBUG_ROWS_PER_TYPE {
        REPORT_MAX_ITEM_DEBUG_ROWS_PER_TYPE as nat
    } else {
        n
    }
}

/// The coverage block of one item type: on success the item count, the
/// first items with their debug texts and, past the limit, how many were
/// left out; on failure the error's text.
pub open spec fn type_coverage_text(
    t: PcbObjectTypeCode,
    outcome: Result<Seq<AnyPayload>, Seq<char>>,
    debugs: Seq<Seq<char>>,
) -> Seq<char> {
    "### "@ + t.name@ + " ("@ + int_decimal(t.code as int) + ")\n\n"@ + match outcome {
        Ok(items) => "- status: ok\n- count: "@ + nat_decimal(items.len()) + "\n\n"@ + concat_all(
            Seq::new(
                shown_item_count(items.len()),
                |k: int| item_debug_block_text(k as nat, items[k], debugs[k]),
            ),
        ) + if items.len() > REPORT_MAX_ITEM_DEBUG_ROWS_PER_TYPE {
            "- ... omitted "@ + nat_decimal((items.len() - REPORT_MAX_ITEM_DEBUG_ROWS_PER_TYPE) as nat)
                + " additional item debug rows for "@ + t.name@ + " (use `items-raw --type-id "@
                + int_decimal(t.code as int) + "` for full output)\n\n"@
        } else {
            Seq::empty()
        },
        Err(e) => "- status: error\n- error: `"@ + e + "`\n\n"@,
    }
}

/// Writes the coverage block of one item type, given what the request for
/// its items returned (the items, or the error's text) and, on success, the
/// debug texts of the items shown.
pub fn type_coverage_block(
    t: PcbObjectTypeCode,
    outcome: &Result<Vec<AnyPayload>, String>,
    debugs: &Vec<String>,
) -> (r: String)
    requires
        outcome matches Ok(items) ==> debugs@.len() >= shown_item_count(items@.len()),
    ensures
        r@ == type_coverage_text(
            t,
            match outcome {
                Ok(items) => Ok(items@),
                Err(e) => Err(e@),
            },
            strings_view(debugs@),
        ),
{
    let mut s = String::from_str("### ");
    s.append(t.name);
    s.append(" (");
    push_decimal_i64(&mut s, t.code as i64);
    s.append(")\n\n");
    match outcome {
        Err(e) => {
            s.append("- status: error\n- error: `");
            s.append(e.as_str());
            s.append("`\n\n");
            s
        },
        Ok(items) => {
            let ghost dv = strings_view(debugs@);
            s.append("- status: ok\n- count: ");
            push_decimal_u128(&mut s, items.len() as u128);
            s.append("\n\n");
            let shown: usize = if items.len() > REPORT_MAX_ITEM_DEBUG_ROWS_PER_TYPE {
                REPORT_MAX_ITEM_DEBUG_ROWS_PER_TYPE
            } else {
                items.len()
            };
            let ghost head = s@;
            let mut i: usize = 0;
            while i < shown
                invariant
                    shown == shown_item_count(items@.len()),
                    shown <= items@.len(),
                    shown <= debugs@.len(),
                    dv == strings_view(debugs@),
                    i <= shown,
                    s@ == head + concat_all(
                        Seq::new(
                            i as nat,
                            |k: int| item_debug_block_text(k as nat, items@[k], dv[k]),
                        ),
                    ),
                decreases shown - i,
            {
                let ghost parts = Seq::new(
                    i as nat,
                    |k: int| item_debug_block_text(k as nat, items@[k], dv[k]),
                );
                push_item_debug_block(&mut s, i, &items[i], debugs[i].as_str());
                proof {
                    let x = item_debug_block_text(i as nat, items@[i as int], dv[i as int]);
                    lemma_concat_all_push(parts, x);
                    assert(Seq::new(
                        (i + 1) as nat,
                        |k: int| item_debug_block_text(k as nat, items@[k], dv[k]),
                    ) =~= parts.push(x));
                }
                i = i + 1;
            }
            if items.len() > REPORT_MAX_ITEM_DEBUG_ROWS_PER_TYPE {
                s.append("- ... omitted ");
                push_decimal_u128(&mut s, (items.len() - REPORT_MAX_ITEM_DEBUG_ROWS_PER_TYPE) as u128);
                s.append(" additional item debug rows for ");
                s.append(t.name);
                s.append(" (use `items-raw --type-id ");
                push_decimal_i64(&mut s, t.code as i64);
                s.append("` for full output)\n\n");
            }
            s
        },
    }
}

/// The notice after a cut board file.
pub open spec fn board_snapshot_notice() -> Seq<char> {
    "\n... ; <truncated board snapshot, rerun `board-as-string` command for full board text>\n"@
}

/// The board file section: the board file's text, cut to the limit.
pub open spec fn board_snapshot_section_text(board: Seq<char>) -> Seq<char> {
    "## Board File Snapshot (Raw)\n\n```scheme\n"@ + capped_text(
        board,
        REPORT_MAX_BOARD_SNAPSHOT_CHARS as nat,
        board_snapshot_notice(),
    ) + "\n```\n\n"@
}

/// Writes the board file section of the report.
pub fn board_snapshot_section(board: &str) -> (r: String)
    ensures
        r@ == board_snapshot_section_text(board@),
{
    let mut s = String::from_str("## Board File Snapshot (Raw)\n\n```scheme\n");
    push_capped(
        &mut s,
        board,
        REPORT_MAX_BOARD_SNAPSHOT_CHARS,
        "\n... ; <truncated board snapshot, rerun `board-as-string` command for full board text>\n",
    );
    s.append("\n```\n\n");
    s
}

/// What the report reads of one item type: the type, what the request for
/// its items returned (the items, or the error's text), and the debug texts
/// of the items it shows.
#[derive(Debug)]
pub struct TypeItems {
    pub object_type: PcbObjectTypeCode,
    pub outcome: Result<Vec<AnyPayload>, String>,
    pub debugs: Vec<String>,
}

/// What the request for a type's items returned, as plain values.
pub open spec fn outcome_view(t: TypeItems) -> Result<Seq<AnyPayload>, Seq<char>> {
    match t.outcome {
        Ok(items) => Ok(items@),
        Err(e) => Err(e@),
    }
}

/// The report can be written from what was read of a type.
pub open spec fn type_items_ready(t: TypeItems) -> bool {
    t.outcome matches Ok(items) ==> t.debugs@.len() >= shown_item_count(items@.len())
}

/// The coverage block of a type, from what was read of it.
pub open spec fn type_items_text(t: TypeItems) -> Seq<char> {
    type_coverage_text(t.object_type, outcome_view(t), strings_view(t.debugs@))
}

/// For each type, how many items came back, or none where the request
/// failed.
pub open spec fn type_counts(types: Seq<TypeItems>) -> Seq<(PcbObjectTypeCode, Option<usize>)> {
    types.map_values(
        |t: TypeItems|
            (
                t.object_type,
                match t.outcome {
                    Ok(items) => Some(items@.len() as usize),
                    Err(_) => None,
                },
            ),
    )
}

/// Everything the board read report is written from, as KiCad returned
/// it: the session, the open documents, layers, origins and nets, the pad
/// netlist, padstack presence on the enabled layers, one list of pad
/// polygons per enabled layer, the title block, the debug texts of the
/// stackup, graphics defaults, editor appearance and net class map, the
/// items of each type, and the board file.
#[derive(Debug)]
pub struct BoardReadData {
    pub version: VersionInfo,
    pub socket_uri: String,
    pub timeout_ms: u128,
    pub docs: Vec<DocumentSpecifier>,
    pub enabled: BoardEnabledLayers,
    pub visible: Vec<BoardLayerInfo>,
    pub active: BoardLayerInfo,
    pub grid_origin: Vector2Nm,
    pub drill_origin: Vector2Nm,
    pub nets: Vec<BoardNet>,
    pub pad_entries: Vec<PadNetEntry>,
    pub presence: Vec<PadstackPresenceEntry>,
    pub polygons: Vec<Vec<PadShapeAsPolygonEntry>>,
    pub title_block: TitleBlockInfo,
    pub stackup: String,
    pub graphics_defaults: String,
    pub appearance: String,
    pub netclasses: String,
    pub item_types: Vec<TypeItems>,
    pub board_text: String,
}

/// The report can be written from the data: one polygon list per enabled
/// layer, node counts that fit machine words, and the debug texts each type
/// needs.
pub open spec fn report_data_ready(d: BoardReadData) -> bool {
    &&& d.polygons@.len() == d.enabled.layers@.len()
    &&& forall|k: int, j: int|
        0 <= k < d.polygons@.len() && 0 <= j < d.polygons@[k]@.len() ==> polygon_fits(
            #[trigger] d.polygons@[k]@[j],
        )
    &&& forall|k: int| 0 <= k < d.item_types@.len() ==> type_items_ready(#[trigger] d.item_types@[k])
}

/// The pad shape section: for each enabled layer, the pads present on it
/// and their polygons.
pub open spec fn polygon_section_text(
    layers: Seq<BoardLayerInfo>,
    presence: Seq<PadstackPresenceEntry>,
    polygons: Seq<Vec<PadShapeAsPolygonEntry>>,
) -> Seq<char> {
    polygon_section_intro_text() + concat_all(
        Seq::new(
            layers.len(),
            |k: int|
                polygon_layer_text(
                    layers[k],
                    present_id_set(presence, layers[k].id).len(),
                    polygons[k]@,
                ),
        ),
    )
}

/// The whole board read report, section by section.
pub open spec fn board_read_report_text(d: BoardReadData) -> Seq<char> {
    report_head_text(d.version, d.socket_uri@, d.timeout_ms as nat, d.docs@) + layers_section_text(
        d.enabled,
        d.visible@,
        d.active,
        d.grid_origin,
        d.drill_origin,
        d.nets@,
    ) + pad_net_section_text(d.pad_entries@) + presence_section_text(
        pad_id_set(d.pad_entries@).len(),
        d.enabled.layers@.len(),
        d.presence@,
    ) + polygon_section_text(d.enabled.layers@, d.presence@, d.polygons@)
        + title_block_section_text(d.title_block) + fenced_section_text("Stackup"@, d.stackup@)
        + fenced_section_text("Graphics Defaults"@, d.graphics_defaults@) + fenced_section_text(
        "Editor Appearance"@,
        d.appearance@,
    ) + fenced_section_text("NetClass Map"@, d.netclasses@)
        + "## PCB Item Coverage (All KOT_PCB_* Types)\n\n"@ + concat_all(
        d.item_types@.map_values(|t: TypeItems| type_items_text(t)),
    ) + missing_types_section_text(missing_types_of(type_counts(d.item_types@)))
        + board_snapshot_section_text(d.board_text@) + coverage_section_text()
}

fn polygon_section(
    layers: &Vec<BoardLayerInfo>,
    presence: &Vec<PadstackPresenceEntry>,
    polygons: &Vec<Vec<PadShapeAsPolygonEntry>>,
) -> (r: String)
    requires
        polygons@.len() == layers@.len(),
        forall|k: int, j: int|
            0 <= k < polygons@.len() && 0 <= j < polygons@[k]@.len() ==> polygon_fits(
                #[trigger] polygons@[k]@[j],
            ),
    ensures
        r@ == polygon_section_text(layers@, presence@, polygons@),
{
    let mut s = polygon_section_intro();
    let ghost head = s@;
    let mut i: usize = 0;
    while i < layers.len()
        invariant
            polygons@.len() == layers@.len(),
            forall|k: int, j: int|
                0 <= k < polygons@.len() && 0 <= j < polygons@[k]@.len() ==> polygon_fits(
                    #[trigger] polygons@[k]@[j],
                ),
            i <= layers@.len(),
            s@ == head + concat_all(
                Seq::new(
                    i as nat,
                    |k: int|
                        polygon_layer_text(
                            layers@[k],
                            present_id_set(presence@, layers@[k].id).len(),
                            polygons@[k]@,
                        ),
                ),
            ),
        decreases layers@.len() - i,
    {
        let ghost parts = Seq::new(
            i as nat,
            |k: int|
                polygon_layer_text(
                    layers@[k],
                    present_id_set(presence@, layers@[k].id).len(),
                    polygons@[k]@,
                ),
        );
        let layer = &layers[i];
        let present = present_ids_on_layer(presence, layer.id);
        proof {
            lemma_sorted_set_len(strings_view(present@));
        }
        let block = polygon_layer_block(layer, present.len(), &polygons[i]);
        s.append(block.as_str());
        proof {
            let x = polygon_layer_text(
                layers@[i as int],
                present_id_set(presence@, layers@[i as int].id).len(),
                polygons@[i as int]@,
            );
            lemma_concat_all_push(parts, x);
            assert(Seq::new(
                (i + 1) as nat,
                |k: int|
                    polygon_layer_text(
                        layers@[k],
                        present_id_set(presence@, layers@[k].id).len(),
                        polygons@[k]@,
                    ),
            ) =~= parts.push(x));
        }
        i = i + 1;
    }
    s
}

fn item_types_sections(types: &Vec<TypeItems>) -> (r: (String, Vec<(PcbObjectTypeCode, Option<usize>)>))
    requires
        forall|k: int| 0 <= k < types@.len() ==> type_items_ready(#[trigger] types@[k]),
    ensures
        r.0@ == concat_all(types@.map_values(|t: TypeItems| type_items_text(t))),
        r.1@ == type_counts(types@),
{
    let mut s = String::new();
    let mut counts: Vec<(PcbObjectTypeCode, Option<usize>)> = Vec::new();
    let mut i: usize = 0;
    while i < types.len()
        invariant
            forall|k: int| 0 <= k < types@.len() ==> type_items_ready(#[trigger] types@[k]),
            i <= types@.len(),
            s@ == concat_all(types@.subrange(0, i as int).map_values(|t: TypeItems| type_items_text(t))),
            counts@ == type_counts(types@.subrange(0, i as int)),
        decreases types@.len() - i,
    {
        let ghost parts = types@.subrange(0, i as int).map_values(|t: TypeItems| type_items_text(t));
        let t = &types[i];
        assert(type_items_ready(types@[i as int]));
        let block = type_coverage_block(t.object_type, &t.outcome, &t.debugs);
        s.append(block.as_str());
        let count = match &t.outcome {
            Ok(items) => Some(items.len()),
            Err(_) => None,
        };
        let ghost before = counts@;
        counts.push((t.object_type, count));
        proof {
            lemma_concat_all_push(parts, type_items_text(types@[i as int]));
            assert(types@.subrange(0, i + 1).map_values(|t: TypeItems| type_items_text(t)) =~= parts.push(
                type_items_text(types@[i as int]),
            ));
            assert(counts@ =~= type_counts(types@.subrange(0, i + 1)));
        }
        i = i + 1;
    }
    assert(types@.subrange(0, types@.len() as int) =~= types@);
    (s, counts)
}

/// Writes the board read report from what KiCad returned.
pub fn board_read_report(d: &BoardReadData) -> (r: String)
    requires
        report_data_ready(*d),
    ensures
        r@ == board_read_report_text(*d),
{
    let mut s = report_head(&d.version, d.socket_uri.as_str(), d.timeout_ms, &d.docs);
    let part = layers_section(
        &d.enabled,
        &d.visible,
        &d.active,
        &d.grid_origin,
        &d.drill_origin,
        &d.nets,
    );
    s.append(part.as_str());
    let part = pad_net_section(&d.pad_entries);
    s.append(part.as_str());
    let pad_ids = unique_pad_ids(&d.pad_entries);
    proof {
        lemma_sorted_set_len(strings_view(pad_ids@));
    }
    let part = presence_section(pad_ids.len(), d.enabled.layers.len(), &d.presence);
    s.append(part.as_str());
    let part = polygon_section(&d.enabled.layers, &d.presence, &d.polygons);
    s.append(part.as_str());
    let part = title_block_section(&d.title_block);
    s.append(part.as_str());
    let part = fenced_section("Stackup", d.stackup.as_str());
    s.append(part.as_str());
    let part = fenced_section("Graphics Defaults", d.graphics_defaults.as_str());
    s.append(part.as_str());
    let part = fenced_section("Editor Appearance", d.appearance.as_str());
    s.append(part.as_str());
    let part = fenced_section("NetClass Map", d.netclasses.as_str());
    s.append(part.as_str());
    s.append("## PCB Item Coverage (All KOT_PCB_* Types)\n\n");
    let (part, counts) = item_types_sections(&d.item_types);
    s.append(part.as_str());
    let missing = missing_item_types(&counts);
    let part = missing_types_section(&missing);
    s.append(part.as_str());
    let part = board_snapshot_section(d.board_text.as_str());
    s.append(part.as_str());
    let part = coverage_section();
    s.append(part.as_str());
    s
}

} // verus!
