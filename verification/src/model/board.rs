//! Board-level values: nets, layers, geometry and editor settings.

use vstd::prelude::*;

use crate::text::{concat2, push_decimal_i64, int_decimal};
use vstd::string::StringExecFns;

verus! {

/// A net of the board, by code and name.
#[derive(Clone, Debug, PartialEq, Eq)]
pub struct BoardNet {
    pub code: i32,
    pub name: String,
}

/// A board layer, by id and canonical name.
#[derive(Clone, Debug, PartialEq, Eq)]
pub struct BoardLayerInfo {
    pub id: i32,
    pub name: String,
}

/// The enabled layers of a board.
#[derive(Clone, Debug, PartialEq, Eq)]
pub struct BoardEnabledLayers {
    pub copper_layer_count: u32,
    pub layers: Vec<BoardLayerInfo>,
}

/// Which of the two board origins is meant.
#[derive(Clone, Copy, Debug, PartialEq, Eq, Structural)]
pub enum BoardOriginKind {
    Grid,
    Drill,
}

/// The text form of a board origin kind.
pub open spec fn board_origin_kind_name(kind: BoardOriginKind) -> Seq<char> {
    match kind {
        BoardOriginKind::Grid => "grid"@,
        BoardOriginKind::Drill => "drill"@,
    }
}

/// The board origin kind that a text names, if any.
pub open spec fn board_origin_kind_from_name(s: Seq<char>) -> Option<BoardOriginKind> {
    if s == "grid"@ {
        Some(BoardOriginKind::Grid)
    } else if s == "drill"@ {
        Some(BoardOriginKind::Drill)
    } else {
        None
    }
}

/// The message that rejects `value` as a board origin kind.
pub open spec fn board_origin_kind_error(value: Seq<char>) -> Seq<char> {
    "unknown board origin kind `"@ + value + "`; expected `grid` or `drill`"@
}

impl BoardOriginKind {
    /// Parses `grid` or `drill`.
    pub fn from_str(value: &str) -> (r: Result<Self, String>)
        ensures
            r is Ok <==> board_origin_kind_from_name(value@) is Some,
            r matches Ok(kind) ==> board_origin_kind_from_name(value@) == Some(kind),
            r matches Err(msg) ==> msg@ == board_origin_kind_error(value@),
    {
        if crate::text::str_eq(value, "grid") {
            Ok(BoardOriginKind::Grid)
        } else if crate::text::str_eq(value, "drill") {
            Ok(BoardOriginKind::Drill)
        } else {
            let mut msg = concat2("unknown board origin kind `", value);
            msg.append("`; expected `grid` or `drill`");
            Err(msg)
        }
    }

    /// The text form: `grid` or `drill`.
    pub fn to_string(&self) -> (r: String)
        ensures
            r@ == board_origin_kind_name(*self),
    {
        match self {
            BoardOriginKind::Grid => String::from_str("grid"),
            BoardOriginKind::Drill => String::from_str("drill"),
        }
    }
}

/// `grid` names the grid origin and `drill` the drill origin, both ways.
pub proof fn lemma_board_origin_kind_names()
    ensures
        board_origin_kind_from_name("grid"@) == Some(BoardOriginKind::Grid),
        board_origin_kind_name(BoardOriginKind::Grid) == "grid"@,
        board_origin_kind_from_name("drill"@) == Some(BoardOriginKind::Drill),
        board_origin_kind_name(BoardOriginKind::Drill) == "drill"@,
{
    reveal_strlit("grid");
    reveal_strlit("drill");
    assert("drill"@.len() != "grid"@.len());
}

/// Every board origin kind reads back from its text form.
pub proof fn lemma_board_origin_kind_name_roundtrip(kind: BoardOriginKind)
    ensures
        board_origin_kind_from_name(board_origin_kind_name(kind)) == Some(kind),
{
    reveal_strlit("grid");
    reveal_strlit("drill");
    assert("grid"@[0] != "drill"@[0]);
}


/// A position in nanometres.
#[derive(Clone, Copy, Debug, PartialEq, Eq, Structural)]
pub struct Vector2Nm {
    pub x_nm: i64,
    pub y_nm: i64,
}

/// One pad of a footprint with the net it is connected to.
#[derive(Clone, Debug, PartialEq, Eq)]
pub struct PadNetEntry {
    pub footprint_reference: Option<String>,
    pub footprint_id: Option<String>,
    pub pad_id: Option<String>,
    pub pad_number: String,
    pub net_code: Option<i32>,
    pub net_name: Option<String>,
}

/// An arc given by three points.
#[derive(Clone, Copy, Debug, PartialEq, Eq, Structural)]
pub struct ArcStartMidEndNm {
    pub start: Vector2Nm,
    pub mid: Vector2Nm,
    pub end: Vector2Nm,
}

/// One node of a poly-line: a point or an arc.
#[derive(Clone, Copy, Debug, PartialEq, Eq, Structural)]
pub enum PolyLineNodeGeometryNm {
    Point(Vector2Nm),
    Arc(ArcStartMidEndNm),
}

/// A poly-line, open or closed.
#[derive(Clone, Debug, PartialEq, Eq)]
pub struct PolyLineNm {
    pub nodes: Vec<PolyLineNodeGeometryNm>,
    pub closed: bool,
}

/// A polygon with an optional outline and any number of holes.
#[derive(Clone, Debug, PartialEq, Eq)]
pub struct PolygonWithHolesNm {
    pub outline: Option<PolyLineNm>,
    pub holes: Vec<PolyLineNm>,
}

/// The shape of a pad on one layer.
#[derive(Clone, Debug, PartialEq, Eq)]
pub struct PadShapeAsPolygonEntry {
    pub pad_id: String,
    pub layer_id: i32,
    pub layer_name: String,
    pub polygon: PolygonWithHolesNm,
}

/// Whether a padstack has a shape on one layer.
#[derive(Clone, Debug, PartialEq, Eq)]
pub struct PadstackPresenceEntry {
    pub item_id: String,
    pub layer_id: i32,
    pub layer_name: String,
    pub presence: PadstackPresenceState,
}

/// Presence of a padstack shape on a layer.
#[derive(Clone, Copy, Debug, PartialEq, Eq, Structural)]
pub enum PadstackPresenceState {
    Present,
    NotPresent,
    Unknown(i32),
}

/// The text form of a padstack presence state.
pub open spec fn padstack_presence_text(state: PadstackPresenceState) -> Seq<char> {
    match state {
        PadstackPresenceState::Present => "PSP_PRESENT"@,
        PadstackPresenceState::NotPresent => "PSP_NOT_PRESENT"@,
        PadstackPresenceState::Unknown(v) => "UNKNOWN("@ + int_decimal(v as int) + ")"@,
    }
}

impl PadstackPresenceState {
    /// The text form: `PSP_PRESENT`, `PSP_NOT_PRESENT` or `UNKNOWN(<value>)`.
    pub fn to_string(&self) -> (r: String)
        ensures
            r@ == padstack_presence_text(*self),
    {
        match self {
            PadstackPresenceState::Present => String::from_str("PSP_PRESENT"),
            PadstackPresenceState::NotPresent => String::from_str("PSP_NOT_PRESENT"),
            PadstackPresenceState::Unknown(v) => {
                let mut s = String::from_str("UNKNOWN(");
                push_decimal_i64(&mut s, *v as i64);
                s.append(")");
                s
            },
        }
    }
}

/// The kind of a layer in the board stackup.
#[derive(Clone, Copy, Debug, PartialEq, Eq, Structural)]
pub enum BoardStackupLayerType {
    Copper,
    Dielectric,
    Silkscreen,
    SolderMask,
    SolderPaste,
    Undefined,
    Unknown(i32),
}

/// The class of a layer, for graphics defaults.
#[derive(Clone, Copy, Debug, PartialEq, Eq, Structural)]
pub enum BoardLayerClass {
    Silkscreen,
    Copper,
    Edges,
    Courtyard,
    Fabrication,
    Other,
    Unknown(i32),
}

/// Default graphics settings for one layer class.
#[derive(Clone, Debug, PartialEq, Eq)]
pub struct BoardLayerGraphicsDefault {
    pub layer_class: BoardLayerClass,
    pub line_thickness_nm: Option<i64>,
    pub text_font_name: Option<String>,
    pub text_size_nm: Option<Vector2Nm>,
    pub text_stroke_width_nm: Option<i64>,
}

/// Default graphics settings for all layer classes.
#[derive(Clone, Debug, PartialEq, Eq)]
pub struct GraphicsDefaults {
    pub layers: Vec<BoardLayerGraphicsDefault>,
}

/// How inactive layers are drawn.
#[derive(Clone, Copy, Debug, PartialEq, Eq, Structural)]
pub enum InactiveLayerDisplayMode {
    Normal,
    Dimmed,
    Hidden,
    Unknown(i32),
}

/// Which items are drawn in net colours.
#[derive(Clone, Copy, Debug, PartialEq, Eq, Structural)]
pub enum NetColorDisplayMode {
    All,
    Ratsnest,
    Off,
    Unknown(i32),
}

/// Whether the board view is flipped.
#[derive(Clone, Copy, Debug, PartialEq, Eq, Structural)]
pub enum BoardFlipMode {
    Normal,
    FlippedX,
    Unknown(i32),
}

/// On which layers the ratsnest is drawn.
#[derive(Clone, Copy, Debug, PartialEq, Eq, Structural)]
pub enum RatsnestDisplayMode {
    AllLayers,
    VisibleLayers,
    Unknown(i32),
}

/// The severity of a design-rule check.
#[derive(Clone, Copy, Debug, PartialEq, Eq, Structural)]
pub enum DrcSeverity {
    Warning,
    Error,
    Exclusion,
    Ignore,
    Info,
    Action,
    Debug,
    Undefined,
}

/// The text form of a severity.
pub open spec fn drc_severity_name(severity: DrcSeverity) -> Seq<char> {
    match severity {
        DrcSeverity::Warning => "warning"@,
        DrcSeverity::Error => "error"@,
        DrcSeverity::Exclusion => "exclusion"@,
        DrcSeverity::Ignore => "ignore"@,
        DrcSeverity::Info => "info"@,
        DrcSeverity::Action => "action"@,
        DrcSeverity::Debug => "debug"@,
        DrcSeverity::Undefined => "undefined"@,
    }
}

/// The severity that a text names, if any.
pub open spec fn drc_severity_from_name(s: Seq<char>) -> Option<DrcSeverity> {
    if s == "warning"@ {
        Some(DrcSeverity::Warning)
    } else if s == "error"@ {
        Some(DrcSeverity::Error)
    } else if s == "exclusion"@ {
        Some(DrcSeverity::Exclusion)
    } else if s == "ignore"@ {
        Some(DrcSeverity::Ignore)
    } else if s == "info"@ {
        Some(DrcSeverity::Info)
    } else if s == "action"@ {
        Some(DrcSeverity::Action)
    } else if s == "debug"@ {
        Some(DrcSeverity::Debug)
    } else if s == "undefined"@ {
        Some(DrcSeverity::Undefined)
    } else {
        None
    }
}

/// Each severity is named by its own lower-case word, and each word reads
/// back as the severity it names: `info` is `Info`, `ignore` is `Ignore`,
/// and so on for every severity.
pub proof fn lemma_drc_severity_names()
    ensures
        drc_severity_from_name("warning"@) == Some(DrcSeverity::Warning),
        drc_severity_name(DrcSeverity::Warning) == "warning"@,
        drc_severity_from_name("error"@) == Some(DrcSeverity::Error),
        drc_severity_name(DrcSeverity::Error) == "error"@,
        drc_severity_from_name("exclusion"@) == Some(DrcSeverity::Exclusion),
        drc_severity_name(DrcSeverity::Exclusion) == "exclusion"@,
        drc_severity_from_name("ignore"@) == Some(DrcSeverity::Ignore),
        drc_severity_name(DrcSeverity::Ignore) == "ignore"@,
        drc_severity_from_name("info"@) == Some(DrcSeverity::Info),
        drc_severity_name(DrcSeverity::Info) == "info"@,
        drc_severity_from_name("action"@) == Some(DrcSeverity::Action),
        drc_severity_name(DrcSeverity::Action) == "action"@,
        drc_severity_from_name("debug"@) == Some(DrcSeverity::Debug),
        drc_severity_name(DrcSeverity::Debug) == "debug"@,
        drc_severity_from_name("undefined"@) == Some(DrcSeverity::Undefined),
        drc_severity_name(DrcSeverity::Undefined) == "undefined"@,
{
    reveal_strlit("warning");
    reveal_strlit("error");
    reveal_strlit("exclusion");
    reveal_strlit("ignore");
    reveal_strlit("info");
    reveal_strlit("action");
    reveal_strlit("debug");
    reveal_strlit("undefined");
    assert("error"@.len() != "warning"@.len());
    assert("exclusion"@.len() != "warning"@.len());
    assert("exclusion"@.len() != "error"@.len());
    assert("ignore"@.len() != "warning"@.len());
    assert("ignore"@.len() != "error"@.len());
    assert("ignore"@.len() != "exclusion"@.len());
    assert("info"@.len() != "warning"@.len());
    assert("info"@.len() != "error"@.len());
    assert("info"@.len() != "exclusion"@.len());
    assert("info"@.len() != "ignore"@.len());
    assert("action"@.len() != "warning"@.len());
    assert("action"@.len() != "error"@.len());
    assert("action"@.len() != "exclusion"@.len());
    assert("action"@[0] != "ignore"@[0]);
    assert("action"@.len() != "info"@.len());
    assert("debug"@.len() != "warning"@.len());
    assert("debug"@[0] != "error"@[0]);
    assert("debug"@.len() != "exclusion"@.len());
    assert("debug"@.len() != "ignore"@.len());
    assert("debug"@.len() != "info"@.len());
    assert("debug"@.len() != "action"@.len());
    assert("undefined"@.len() != "warning"@.len());
    assert("undefined"@.len() != "error"@.len());
    assert("undefined"@[0] != "exclusion"@[0]);
    assert("undefined"@.len() != "ignore"@.len());
    assert("undefined"@.len() != "info"@.len());
    assert("undefined"@.len() != "action"@.len());
    assert("undefined"@.len() != "debug"@.len());
}

/// The message that rejects `value` as a severity.
pub open spec fn drc_severity_error(value: Seq<char>) -> Seq<char> {
    "unknown drc severity `"@ + value
        + "`; expected warning, error, exclusion, ignore, info, action, debug, or undefined"@
}

impl DrcSeverity {
    /// Parses one of the eight severity names.
    pub fn from_str(value: &str) -> (r: Result<Self, String>)
        ensures
            r is Ok <==> drc_severity_from_name(value@) is Some,
            r matches Ok(severity) ==> drc_severity_from_name(value@) == Some(severity),
            r matches Err(msg) ==> msg@ == drc_severity_error(value@),
    {
        if crate::text::str_eq(value, "warning") {
            Ok(DrcSeverity::Warning)
        } else if crate::text::str_eq(value, "error") {
            Ok(DrcSeverity::Error)
        } else if crate::text::str_eq(value, "exclusion") {
            Ok(DrcSeverity::Exclusion)
        } else if crate::text::str_eq(value, "ignore") {
            Ok(DrcSeverity::Ignore)
        } else if crate::text::str_eq(value, "info") {
            Ok(DrcSeverity::Info)
        } else if crate::text::str_eq(value, "action") {
            Ok(DrcSeverity::Action)
        } else if crate::text::str_eq(value, "debug") {
            Ok(DrcSeverity::Debug)
        } else if crate::text::str_eq(value, "undefined") {
            Ok(DrcSeverity::Undefined)
        } else {
            let mut msg = concat2("unknown drc severity `", value);
            msg.append(
                "`; expected warning, error, exclusion, ignore, info, action, debug, or undefined",
            );
            Err(msg)
        }
    }

    /// The text form of the severity.
    pub fn to_string(&self) -> (r: String)
        ensures
            r@ == drc_severity_name(*self),
    {
        match self {
            DrcSeverity::Warning => String::from_str("warning"),
            DrcSeverity::Error => String::from_str("error"),
            DrcSeverity::Exclusion => String::from_str("exclusion"),
            DrcSeverity::Ignore => String::from_str("ignore"),
            DrcSeverity::Info => String::from_str("info"),
            DrcSeverity::Action => String::from_str("action"),
            DrcSeverity::Debug => String::from_str("debug"),
            DrcSeverity::Undefined => String::from_str("undefined"),
        }
    }
}

/// Every severity reads back from its text form.
pub proof fn lemma_drc_severity_name_roundtrip(severity: DrcSeverity)
    ensures
        drc_severity_from_name(drc_severity_name(severity)) == Some(severity),
{
    reveal_strlit("warning");
    reveal_strlit("error");
    reveal_strlit("exclusion");
    reveal_strlit("ignore");
    reveal_strlit("info");
    reveal_strlit("action");
    reveal_strlit("debug");
    reveal_strlit("undefined");
    assert("error"@.len() != "warning"@.len());
    assert("error"@ != "warning"@);
    assert("exclusion"@.len() != "warning"@.len());
    assert("exclusion"@ != "warning"@);
    assert("exclusion"@.len() != "error"@.len());
    assert("exclusion"@ != "error"@);
    assert("ignore"@.len() != "warning"@.len());
    assert("ignore"@ != "warning"@);
    assert("ignore"@.len() != "error"@.len());
    assert("ignore"@ != "error"@);
    assert("ignore"@.len() != "exclusion"@.len());
    assert("ignore"@ != "exclusion"@);
    assert("info"@.len() != "warning"@.len());
    assert("info"@ != "warning"@);
    assert("info"@.len() != "error"@.len());
    assert("info"@ != "error"@);
    assert("info"@.len() != "exclusion"@.len());
    assert("info"@ != "exclusion"@);
    assert("info"@.len() != "ignore"@.len());
    assert("info"@ != "ignore"@);
    assert("action"@.len() != "warning"@.len());
    assert("action"@ != "warning"@);
    assert("action"@.len() != "error"@.len());
    assert("action"@ != "error"@);
    assert("action"@.len() != "exclusion"@.len());
    assert("action"@ != "exclusion"@);
    assert("action"@[0] != "ignore"@[0]);
    assert("action"@ != "ignore"@);
    assert("action"@.len() != "info"@.len());
    assert("action"@ != "info"@);
    assert("debug"@.len() != "warning"@.len());
    assert("debug"@ != "warning"@);
    assert("debug"@[0] != "error"@[0]);
    assert("debug"@ != "error"@);
    assert("debug"@.len() != "exclusion"@.len());
    assert("debug"@ != "exclusion"@);
    assert("debug"@.len() != "ignore"@.len());
    assert("debug"@ != "ignore"@);
    assert("debug"@.len() != "info"@.len());
    assert("debug"@ != "info"@);
    assert("debug"@.len() != "action"@.len());
    assert("debug"@ != "action"@);
    assert("undefined"@.len() != "warning"@.len());
    assert("undefined"@ != "warning"@);
    assert("undefined"@.len() != "error"@.len());
    assert("undefined"@ != "error"@);
    assert("undefined"@[0] != "exclusion"@[0]);
    assert("undefined"@ != "exclusion"@);
    assert("undefined"@.len() != "ignore"@.len());
    assert("undefined"@ != "ignore"@);
    assert("undefined"@.len() != "info"@.len());
    assert("undefined"@ != "info"@);
    assert("undefined"@.len() != "action"@.len());
    assert("undefined"@ != "action"@);
    assert("undefined"@.len() != "debug"@.len());
    assert("undefined"@ != "debug"@);
    match severity {
        DrcSeverity::Warning => {},
        DrcSeverity::Error => {},
        DrcSeverity::Exclusion => {},
        DrcSeverity::Ignore => {},
        DrcSeverity::Info => {},
        DrcSeverity::Action => {},
        DrcSeverity::Debug => {},
        DrcSeverity::Undefined => {},
    }
}

/// The editor's appearance settings for the board.
#[derive(Clone, Debug, PartialEq, Eq, Structural)]
pub struct BoardEditorAppearanceSettings {
    pub inactive_layer_display: InactiveLayerDisplayMode,
    pub net_color_display: NetColorDisplayMode,
    pub board_flip: BoardFlipMode,
    pub ratsnest_display: RatsnestDisplayMode,
}

/// Whether a net class was declared or derived.
#[derive(Clone, Copy, Debug, PartialEq, Eq, Structural)]
pub enum NetClassType {
    Explicit,
    Implicit,
    Unknown(i32),
}

/// The kind of a via.
#[derive(Clone, Copy, Debug, PartialEq, Eq, Structural)]
pub enum PcbViaType {
    Through,
    BlindBuried,
    Micro,
    Blind,
    Buried,
    Unknown(i32),
}

/// The kind of a pad.
#[derive(Clone, Copy, Debug, PartialEq, Eq, Structural)]
pub enum PcbPadType {
    Pth,
    Smd,
    EdgeConnector,
    Npth,
    Unknown(i32),
}

/// The kind of a zone.
#[derive(Clone, Copy, Debug, PartialEq, Eq, Structural)]
pub enum PcbZoneType {
    Copper,
    Graphical,
    RuleArea,
    Teardrop,
    Unknown(i32),
}

/// A straight track segment.
#[derive(Clone, Debug, PartialEq, Eq)]
pub struct PcbTrack {
    pub id: Option<String>,
    pub start_nm: Option<Vector2Nm>,
    pub end_nm: Option<Vector2Nm>,
    pub width_nm: Option<i64>,
    pub layer: BoardLayerInfo,
    pub net: Option<BoardNet>,
}

/// An arc track.
#[derive(Clone, Debug, PartialEq, Eq)]
pub struct PcbArc {
    pub id: Option<String>,
    pub start_nm: Option<Vector2Nm>,
    pub mid_nm: Option<Vector2Nm>,
    pub end_nm: Option<Vector2Nm>,
    pub width_nm: Option<i64>,
    pub layer: BoardLayerInfo,
    pub net: Option<BoardNet>,
}

/// A via.
#[derive(Clone, Debug, PartialEq, Eq)]
pub struct PcbVia {
    pub id: Option<String>,
    pub position_nm: Option<Vector2Nm>,
    pub via_type: PcbViaType,
    pub net: Option<BoardNet>,
}

/// A pad.
#[derive(Clone, Debug, PartialEq, Eq)]
pub struct PcbPad {
    pub id: Option<String>,
    pub number: String,
    pub pad_type: PcbPadType,
    pub position_nm: Option<Vector2Nm>,
    pub net: Option<BoardNet>,
}

/// A graphic shape on the board.
#[derive(Clone, Debug, PartialEq, Eq)]
pub struct PcbBoardGraphicShape {
    pub id: Option<String>,
    pub layer: BoardLayerInfo,
    pub net: Option<BoardNet>,
    pub geometry_kind: Option<String>,
}

/// A text on the board.
#[derive(Clone, Debug, PartialEq, Eq)]
pub struct PcbBoardText {
    pub id: Option<String>,
    pub layer: BoardLayerInfo,
    pub text: Option<String>,
}

/// A text box on the board.
#[derive(Clone, Debug, PartialEq, Eq)]
pub struct PcbBoardTextBox {
    pub id: Option<String>,
    pub layer: BoardLayerInfo,
    pub text: Option<String>,
}

/// A footprint field.
#[derive(Clone, Debug, PartialEq, Eq)]
pub struct PcbField {
    pub name: String,
    pub visible: bool,
    pub text: Option<String>,
}

/// A zone.
#[derive(Clone, Debug, PartialEq, Eq)]
pub struct PcbZone {
    pub id: Option<String>,
    pub name: String,
    pub zone_type: PcbZoneType,
    pub layer_count: usize,
    pub filled: bool,
    pub polygon_count: usize,
}

/// A dimension.
#[derive(Clone, Debug, PartialEq, Eq)]
pub struct PcbDimension {
    pub id: Option<String>,
    pub layer: BoardLayerInfo,
    pub text: Option<String>,
    pub style_kind: Option<String>,
}

/// A group of items.
#[derive(Clone, Debug, PartialEq, Eq)]
pub struct PcbGroup {
    pub id: Option<String>,
    pub name: String,
    pub item_count: usize,
}

/// An item of a type that the library does not model.
#[derive(Clone, Debug, PartialEq, Eq)]
pub struct PcbUnknownItem {
    pub type_url: String,
    pub raw_len: usize,
}

} // verus!
