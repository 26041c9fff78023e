//! Pure helpers of the command-line tool: argument scanning, hex dumps,
//! polygon statistics and the board-read coverage table.

use vstd::prelude::*;
use vstd::string::StringExecFns;

use crate::error::KiCadError;
use crate::model::board::{PolyLineNm, PolyLineNodeGeometryNm, PolygonWithHolesNm};
use crate::text::{concat2, push_char, str_eq, strings_view};

verus! {

/// The settings the command-line tool starts from.
#[derive(Clone, Debug, PartialEq, Eq)]
pub struct CliConfig {
    pub socket: Option<String>,
    pub token: Option<String>,
    pub timeout_ms: u64,
}

/// No socket, no token, and a timeout of fifteen seconds.
pub fn default_config() -> (r: CliConfig)
    ensures
        r.socket is None,
        r.token is None,
        r.timeout_ms == 15_000,
{
    CliConfig { socket: None, token: None, timeout_ms: 15_000 }
}

/// The lower-case hexadecimal digit for a value below sixteen, and `?`
/// for any other value.
pub open spec fn hex_digit(value: int) -> char {
    if 0 <= value <= 9 {
        ('0' as int + value) as char
    } else if 10 <= value <= 15 {
        ('a' as int + (value - 10)) as char
    } else {
        '?'
    }
}

/// The lower-case hexadecimal digit for a value below sixteen, `?` otherwise.
pub fn hex_char(value: u8) -> (c: char)
    ensures
        c == hex_digit(value as int),
{
    match value {
        0 => '0',
        1 => '1',
        2 => '2',
        3 => '3',
        4 => '4',
        5 => '5',
        6 => '6',
        7 => '7',
        8 => '8',
        9 => '9',
        10 => 'a',
        11 => 'b',
        12 => 'c',
        13 => 'd',
        14 => 'e',
        15 => 'f',
        _ => '?',
    }
}

/// Two lower-case hexadecimal digits per byte, high nibble first.
pub open spec fn hex_of(data: Seq<u8>) -> Seq<char>
    decreases data.len(),
{
    if data.len() == 0 {
        Seq::empty()
    } else {
        hex_of(data.drop_last()) + seq![
            hex_digit((data.last() / 16) as int),
            hex_digit((data.last() % 16) as int),
        ]
    }
}

/// Renders bytes as lower-case hexadecimal.
pub fn bytes_to_hex(data: &[u8]) -> (r: String)
    ensures
        r@ == hex_of(data@),
{
    let mut output = String::new();
    let mut i: usize = 0;
    while i < data.len()
        invariant
            i <= data@.len(),
            output@ == hex_of(data@.subrange(0, i as int)),
        decreases data@.len() - i,
    {
        let byte = data[i];
        let high = (byte >> 4) & 0x0f;
        let low = byte & 0x0f;
        assert(high == byte / 16 && low == byte % 16) by (bit_vector)
            requires
                high == (byte >> 4) & 0x0f,
                low == byte & 0x0f,
        ;
        push_char(&mut output, hex_char(high));
        push_char(&mut output, hex_char(low));
        i = i + 1;
        proof {
            let pre = data@.subrange(0, i as int);
            assert(pre.drop_last() =~= data@.subrange(0, i - 1));
            assert(output@ =~= hex_of(pre));
        }
    }
    assert(data@.subrange(0, data@.len() as int) =~= data@);
    output
}

/// The values of the `--id` options from position `i` on, or none where an
/// `--id` has no value after it.
pub open spec fn scan_option_values(args: Seq<Seq<char>>, flag: Seq<char>, i: int) -> Option<
    Seq<Seq<char>>,
>
    decreases args.len() - i,
{
    if i < 0 || i >= args.len() {
        Some(Seq::empty())
    } else if args[i] == flag {
        if i + 1 < args.len() {
            match scan_option_values(args, flag, i + 2) {
                Some(rest) => Some(seq![args[i + 1]] + rest),
                None => None,
            }
        } else {
            None
        }
    } else {
        scan_option_values(args, flag, i + 1)
    }
}

/// `prefix` before what `o` holds, if anything.
pub open spec fn prepend_values(prefix: Seq<Seq<char>>, o: Option<Seq<Seq<char>>>) -> Option<
    Seq<Seq<char>>,
> {
    match o {
        Some(r) => Some(prefix + r),
        None => None,
    }
}

/// Collects the values of every `--id <uuid>` in `args`.
pub fn parse_item_ids(args: &[String], command_name: &str) -> (r: Result<Vec<String>, KiCadError>)
    ensures
        match scan_option_values(strings_view(args@), "--id"@, 0) {
            None => r matches Err(KiCadError::Config { reason }) && reason@ == "missing value for "@
                + command_name@ + " --id"@,
            Some(ids) => if ids.len() == 0 {
                r matches Err(KiCadError::Config { reason }) && reason@ == command_name@
                    + " requires one or more `--id <uuid>` arguments"@
            } else {
                r matches Ok(v) && strings_view(v@) == ids
            },
        },
{
    let ghost a = strings_view(args@);
    let flag = String::from_str("--id");
    let mut item_ids: Vec<String> = Vec::new();
    let mut i: usize = 0;
    assert(prepend_values(Seq::empty(), scan_option_values(a, "--id"@, 0)) =~= scan_option_values(
        a,
        "--id"@,
        0,
    )) by {
        match scan_option_values(a, "--id"@, 0) {
            Some(r) => {
                assert(Seq::<Seq<char>>::empty() + r =~= r);
            },
            None => {},
        }
    }
    while i < args.len()
        invariant
            a == strings_view(args@),
            flag@ == "--id"@,
            i <= args@.len() + 1,
            scan_option_values(a, "--id"@, 0) == prepend_values(
                strings_view(item_ids@),
                scan_option_values(a, "--id"@, i as int),
            ),
        decreases args@.len() + 1 - i,
    {
        if str_eq(args[i].as_str(), flag.as_str()) {
            if i + 1 >= args.len() {
                let mut reason = concat2("missing value for ", command_name);
                reason.append(" --id");
                return Err(KiCadError::Config { reason });
            }
            let value = args[i + 1].clone();
            let ghost before = strings_view(item_ids@);
            item_ids.push(value);
            proof {
                assert(strings_view(item_ids@) =~= before.push(a[i + 1]));
                match scan_option_values(a, "--id"@, i + 2) {
                    Some(rest) => {
                        assert(before + (seq![a[i + 1]] + rest) =~= before.push(a[i + 1]) + rest);
                    },
                    None => {},
                }
            }
            i = i + 2;
            continue;
        }
        i = i + 1;
    }
    assert(scan_option_values(a, "--id"@, i as int) == Some(Seq::<Seq<char>>::empty()));
    assert(strings_view(item_ids@) + Seq::<Seq<char>>::empty() =~= strings_view(item_ids@));
    if item_ids.len() == 0 {
        let reason = concat2(command_name, " requires one or more `--id <uuid>` arguments");
        return Err(KiCadError::Config { reason });
    }
    Ok(item_ids)
}

/// Node statistics of a polygon.
#[derive(Clone, Debug, Default, PartialEq, Eq)]
pub struct PolygonGeometrySummary {
    pub outline_nodes: usize,
    pub hole_count: usize,
    pub hole_nodes_total: usize,
    pub point_nodes: usize,
    pub arc_nodes: usize,
}

/// How many nodes of a list are points.
pub open spec fn point_node_count(nodes: Seq<PolyLineNodeGeometryNm>) -> nat
    decreases nodes.len(),
{
    if nodes.len() == 0 {
        0
    } else {
        point_node_count(nodes.drop_last()) + match nodes.last() {
            PolyLineNodeGeometryNm::Point(_) => 1nat,
            PolyLineNodeGeometryNm::Arc(_) => 0nat,
        }
    }
}

/// How many nodes of a list are arcs.
pub open spec fn arc_node_count(nodes: Seq<PolyLineNodeGeometryNm>) -> nat
    decreases nodes.len(),
{
    if nodes.len() == 0 {
        0
    } else {
        arc_node_count(nodes.drop_last()) + match nodes.last() {
            PolyLineNodeGeometryNm::Point(_) => 0nat,
            PolyLineNodeGeometryNm::Arc(_) => 1nat,
        }
    }
}

/// A poly-line's nodes, counted in total, as points and as arcs.
pub open spec fn line_counts(lines: Seq<PolyLineNm>) -> (nat, nat, nat)
    decreases lines.len(),
{
    if lines.len() == 0 {
        (0, 0, 0)
    } else {
        let (n, p, a) = line_counts(lines.drop_last());
        let nodes = lines.last().nodes@;
        (n + nodes.len(), p + point_node_count(nodes), a + arc_node_count(nodes))
    }
}

proof fn lemma_node_counts_split(nodes: Seq<PolyLineNodeGeometryNm>)
    ensures
        point_node_count(nodes) + arc_node_count(nodes) == nodes.len(),
    decreases nodes.len(),
{
    if nodes.len() > 0 {
        lemma_node_counts_split(nodes.drop_last());
    }
}

proof fn lemma_line_counts_split(lines: Seq<PolyLineNm>)
    ensures
        line_counts(lines).1 + line_counts(lines).2 == line_counts(lines).0,
    decreases lines.len(),
{
    if lines.len() > 0 {
        lemma_line_counts_split(lines.drop_last());
        lemma_node_counts_split(lines.last().nodes@);
    }
}

fn count_nodes(nodes: &Vec<PolyLineNodeGeometryNm>) -> (r: (usize, usize))
    ensures
        r.0 == point_node_count(nodes@),
        r.1 == arc_node_count(nodes@),
{
    let mut points: usize = 0;
    let mut arcs: usize = 0;
    let mut i: usize = 0;
    while i < nodes.len()
        invariant
            i <= nodes@.len(),
            points == point_node_count(nodes@.subrange(0, i as int)),
            arcs == arc_node_count(nodes@.subrange(0, i as int)),
            points + arcs == i,
        decreases nodes@.len() - i,
    {
        proof {
            let pre = nodes@.subrange(0, i + 1);
            assert(pre.drop_last() =~= nodes@.subrange(0, i as int));
            lemma_node_counts_split(nodes@.subrange(0, i as int));
        }
        match &nodes[i] {
            PolyLineNodeGeometryNm::Point(_) => points = points + 1,
            PolyLineNodeGeometryNm::Arc(_) => arcs = arcs + 1,
        }
        i = i + 1;
    }
    assert(nodes@.subrange(0, nodes@.len() as int) =~= nodes@);
    (points, arcs)
}

/// The nodes of a polygon's outline; none where it has no outline.
pub open spec fn outline_nodes_of(polygon: PolygonWithHolesNm) -> Seq<PolyLineNodeGeometryNm> {
    match polygon.outline {
        Some(o) => o.nodes@,
        None => Seq::empty(),
    }
}

/// The node statistics that `polygon_geometry_summary` reports.
pub open spec fn polygon_summary_of(polygon: PolygonWithHolesNm) -> (nat, nat, nat, nat, nat) {
    let outline = outline_nodes_of(polygon);
    let (hole_nodes, hole_points, hole_arcs) = line_counts(polygon.holes@);
    (
        outline.len(),
        polygon.holes@.len(),
        hole_nodes,
        point_node_count(outline) + hole_points,
        arc_node_count(outline) + hole_arcs,
    )
}

/// Counts the nodes of a polygon's outline and holes, by kind.
pub fn polygon_geometry_summary(polygon: &PolygonWithHolesNm) -> (r: PolygonGeometrySummary)
    requires
        polygon_summary_of(*polygon).0 + polygon_summary_of(*polygon).2 <= usize::MAX,
    ensures
        (r.outline_nodes as nat, r.hole_count as nat, r.hole_nodes_total as nat, r.point_nodes as nat, r.arc_nodes as nat)
            == polygon_summary_of(*polygon),
{
    let mut summary = PolygonGeometrySummary {
        outline_nodes: 0,
        hole_count: polygon.holes.len(),
        hole_nodes_total: 0,
        point_nodes: 0,
        arc_nodes: 0,
    };
    let ghost outline = outline_nodes_of(*polygon);
    match &polygon.outline {
        Some(o) => {
            summary.outline_nodes = o.nodes.len();
            let (p, a) = count_nodes(&o.nodes);
            summary.point_nodes = p;
            summary.arc_nodes = a;
        },
        None => {},
    }
    proof {
        lemma_node_counts_split(outline);
    }
    let holes = &polygon.holes;
    let mut i: usize = 0;
    while i < holes.len()
        invariant
            i <= holes@.len(),
            holes@ == polygon.holes@,
            polygon_summary_of(*polygon).0 + polygon_summary_of(*polygon).2 <= usize::MAX,
            summary.outline_nodes == outline.len(),
            summary.hole_count == holes@.len(),
            summary.hole_nodes_total == line_counts(holes@.subrange(0, i as int)).0,
            summary.point_nodes == point_node_count(outline) + line_counts(holes@.subrange(0, i as int)).1,
            summary.arc_nodes == arc_node_count(outline) + line_counts(holes@.subrange(0, i as int)).2,
            outline == outline_nodes_of(*polygon),
        decreases holes@.len() - i,
    {
        proof {
            let pre = holes@.subrange(0, i + 1);
            assert(pre.drop_last() =~= holes@.subrange(0, i as int));
            lemma_line_counts_monotone(holes@, i as int + 1);
            lemma_line_counts_split(pre);
            lemma_node_counts_split(outline);
            assert(holes@.subrange(0, holes@.len() as int) =~= holes@);
        }
        let hole = &holes[i];
        let (p, a) = count_nodes(&hole.nodes);
        summary.hole_nodes_total = summary.hole_nodes_total + hole.nodes.len();
        summary.point_nodes = summary.point_nodes + p;
        summary.arc_nodes = summary.arc_nodes + a;
        i = i + 1;
    }
    assert(holes@.subrange(0, holes@.len() as int) =~= holes@);
    summary
}

proof fn lemma_line_counts_monotone(lines: Seq<PolyLineNm>, k: int)
    requires
        0 <= k <= lines.len(),
    ensures
        line_counts(lines.subrange(0, k)).0 <= line_counts(lines).0,
    decreases lines.len() - k,
{
    if k < lines.len() {
        lemma_line_counts_monotone(lines, k + 1);
        let pre = lines.subrange(0, k + 1);
        assert(pre.drop_last() =~= lines.subrange(0, k));
    } else {
        assert(lines.subrange(0, k) =~= lines);
    }
}

/// The board-read commands of the API and how the client covers each:
/// command, status and the client methods that wrap it.
pub open spec fn coverage_rows() -> Seq<(Seq<char>, Seq<char>, Seq<char>)> {
    seq![
        ("kiapi.board.commands.GetBoardStackup"@, "implemented"@, "get_board_stackup_raw/get_board_stackup"@),
        ("kiapi.board.commands.GetBoardEnabledLayers"@, "implemented"@, "get_board_enabled_layers"@),
        ("kiapi.board.commands.GetGraphicsDefaults"@, "implemented"@, "get_graphics_defaults_raw/get_graphics_defaults"@),
        ("kiapi.board.commands.GetBoardOrigin"@, "implemented"@, "get_board_origin"@),
        ("kiapi.board.commands.GetNets"@, "implemented"@, "get_nets"@),
        ("kiapi.board.commands.GetItemsByNet"@, "implemented"@, "get_items_by_net_raw"@),
        ("kiapi.board.commands.GetItemsByNetClass"@, "implemented"@, "get_items_by_net_class_raw"@),
        ("kiapi.board.commands.GetNetClassForNets"@, "implemented"@, "get_netclass_for_nets_raw/get_netclass_for_nets"@),
        ("kiapi.board.commands.GetPadShapeAsPolygon"@, "implemented"@, "get_pad_shape_as_polygon_raw/get_pad_shape_as_polygon"@),
        ("kiapi.board.commands.CheckPadstackPresenceOnLayers"@, "implemented"@, "check_padstack_presence_on_layers_raw/check_padstack_presence_on_layers"@),
        ("kiapi.board.commands.GetVisibleLayers"@, "implemented"@, "get_visible_layers"@),
        ("kiapi.board.commands.GetActiveLayer"@, "implemented"@, "get_active_layer"@),
        ("kiapi.board.commands.GetBoardEditorAppearanceSettings"@, "implemented"@, "get_board_editor_appearance_settings_raw/get_board_editor_appearance_settings"@),
        ("kiapi.common.commands.GetOpenDocuments"@, "implemented"@, "get_open_documents"@),
        ("kiapi.common.commands.GetNetClasses"@, "implemented"@, "get_net_classes_raw/get_net_classes"@),
        ("kiapi.common.commands.GetTextVariables"@, "implemented"@, "get_text_variables_raw/get_text_variables"@),
        ("kiapi.common.commands.ExpandTextVariables"@, "implemented"@, "expand_text_variables_raw/expand_text_variables"@),
        ("kiapi.common.commands.GetTextExtents"@, "implemented"@, "get_text_extents_raw/get_text_extents"@),
        ("kiapi.common.commands.GetTextAsShapes"@, "implemented"@, "get_text_as_shapes_raw/get_text_as_shapes"@),
        ("kiapi.common.commands.GetItems"@, "implemented"@, "get_items_raw_by_type_codes"@),
        ("kiapi.common.commands.GetItemsById"@, "implemented"@, "get_items_by_id_raw"@),
        ("kiapi.common.commands.GetBoundingBox"@, "implemented"@, "get_item_bounding_boxes"@),
        ("kiapi.common.commands.GetSelection"@, "implemented"@, "get_selection_raw/get_selection_details"@),
        ("kiapi.common.commands.HitTest"@, "implemented"@, "hit_test_item"@),
        ("kiapi.common.commands.GetTitleBlockInfo"@, "implemented"@, "get_title_block_info"@),
        ("kiapi.common.commands.SaveDocumentToString"@, "implemented"@, "get_board_as_string"@),
        ("kiapi.common.commands.SaveSelectionToString"@, "implemented"@, "get_selection_as_string"@),
    ]
}

/// The board-read coverage table.
pub fn proto_coverage_board_read_rows() -> (r: Vec<(&'static str, &'static str, &'static str)>)
    ensures
        r@.map_values(|t: (&'static str, &'static str, &'static str)| (t.0@, t.1@, t.2@))
            == coverage_rows(),
{
    let r = vec![
        ("kiapi.board.commands.GetBoardStackup", "implemented", "get_board_stackup_raw/get_board_stackup"),
        ("kiapi.board.commands.GetBoardEnabledLayers", "implemented", "get_board_enabled_layers"),
        ("kiapi.board.commands.GetGraphicsDefaults", "implemented", "get_graphics_defaults_raw/get_graphics_defaults"),
        ("kiapi.board.commands.GetBoardOrigin", "implemented", "get_board_origin"),
        ("kiapi.board.commands.GetNets", "implemented", "get_nets"),
        ("kiapi.board.commands.GetItemsByNet", "implemented", "get_items_by_net_raw"),
        ("kiapi.board.commands.GetItemsByNetClass", "implemented", "get_items_by_net_class_raw"),
        ("kiapi.board.commands.GetNetClassForNets", "implemented", "get_netclass_for_nets_raw/get_netclass_for_nets"),
        ("kiapi.board.commands.GetPadShapeAsPolygon", "implemented", "get_pad_shape_as_polygon_raw/get_pad_shape_as_polygon"),
        ("kiapi.board.commands.CheckPadstackPresenceOnLayers", "implemented", "check_padstack_presence_on_layers_raw/check_padstack_presence_on_layers"),
        ("kiapi.board.commands.GetVisibleLayers", "implemented", "get_visible_layers"),
        ("kiapi.board.commands.GetActiveLayer", "implemented", "get_active_layer"),
        ("kiapi.board.commands.GetBoardEditorAppearanceSettings", "implemented", "get_board_editor_appearance_settings_raw/get_board_editor_appearance_settings"),
        ("kiapi.common.commands.GetOpenDocuments", "implemented", "get_open_documents"),
        ("kiapi.common.commands.GetNetClasses", "implemented", "get_net_classes_raw/get_net_classes"),
        ("kiapi.common.commands.GetTextVariables", "implemented", "get_text_variables_raw/get_text_variables"),
        ("kiapi.common.commands.ExpandTextVariables", "implemented", "expand_text_variables_raw/expand_text_variables"),
        ("kiapi.common.commands.GetTextExtents", "implemented", "get_text_extents_raw/get_text_extents"),
        ("kiapi.common.commands.GetTextAsShapes", "implemented", "get_text_as_shapes_raw/get_text_as_shapes"),
        ("kiapi.common.commands.GetItems", "implemented", "get_items_raw_by_type_codes"),
        ("kiapi.common.commands.GetItemsById", "implemented", "get_items_by_id_raw"),
        ("kiapi.common.commands.GetBoundingBox", "implemented", "get_item_bounding_boxes"),
        ("kiapi.common.commands.GetSelection", "implemented", "get_selection_raw/get_selection_details"),
        ("kiapi.common.commands.HitTest", "implemented", "hit_test_item"),
        ("kiapi.common.commands.GetTitleBlockInfo", "implemented", "get_title_block_info"),
        ("kiapi.common.commands.SaveDocumentToString", "implemented", "get_board_as_string"),
        ("kiapi.common.commands.SaveSelectionToString", "implemented", "get_selection_as_string"),
    ];
    assert(r@.map_values(|t: (&'static str, &'static str, &'static str)| (t.0@, t.1@, t.2@))
        =~= coverage_rows());
    r
}

} // verus!
