//! Values shared by all editors: documents, selections, text.

use vstd::prelude::*;
use vstd::string::StringExecFns;

use crate::model::board::{PolygonWithHolesNm, Vector2Nm};
use crate::text::concat2;

verus! {

/// The version of the running KiCad.
#[derive(Clone, Debug, PartialEq, Eq)]
pub struct VersionInfo {
    pub major: u32,
    pub minor: u32,
    pub patch: u32,
    pub full_version: String,
}

/// The kind of a KiCad document.
#[derive(Clone, Copy, Debug, PartialEq, Eq, Structural)]
pub enum DocumentType {
    Schematic,
    Symbol,
    Pcb,
    Footprint,
    DrawingSheet,
    Project,
}

/// The wire code of a document type (`kiapi.common.types.DocumentType`).
pub open spec fn document_type_code(t: DocumentType) -> i32 {
    match t {
        DocumentType::Schematic => 1,
        DocumentType::Symbol => 2,
        DocumentType::Pcb => 3,
        DocumentType::Footprint => 4,
        DocumentType::DrawingSheet => 5,
        DocumentType::Project => 6,
    }
}

/// The document type that a wire code stands for; none for the unknown
/// type and for codes outside the enumeration.
pub open spec fn document_type_of_code(code: i32) -> Option<DocumentType> {
    if code == 1 {
        Some(DocumentType::Schematic)
    } else if code == 2 {
        Some(DocumentType::Symbol)
    } else if code == 3 {
        Some(DocumentType::Pcb)
    } else if code == 4 {
        Some(DocumentType::Footprint)
    } else if code == 5 {
        Some(DocumentType::DrawingSheet)
    } else if code == 6 {
        Some(DocumentType::Project)
    } else {
        None
    }
}

/// The text form of a document type.
pub open spec fn document_type_name(t: DocumentType) -> Seq<char> {
    match t {
        DocumentType::Schematic => "schematic"@,
        DocumentType::Symbol => "symbol"@,
        DocumentType::Pcb => "pcb"@,
        DocumentType::Footprint => "footprint"@,
        DocumentType::DrawingSheet => "drawing-sheet"@,
        DocumentType::Project => "project"@,
    }
}

/// The document type that a text names, if any.
pub open spec fn document_type_from_name(s: Seq<char>) -> Option<DocumentType> {
    if s == "schematic"@ {
        Some(DocumentType::Schematic)
    } else if s == "symbol"@ {
        Some(DocumentType::Symbol)
    } else if s == "pcb"@ {
        Some(DocumentType::Pcb)
    } else if s == "footprint"@ {
        Some(DocumentType::Footprint)
    } else if s == "drawing-sheet"@ {
        Some(DocumentType::DrawingSheet)
    } else if s == "project"@ {
        Some(DocumentType::Project)
    } else {
        None
    }
}

/// Each document type is named by its own word, both ways: `pcb` is
/// `Pcb`, `drawing-sheet` is `DrawingSheet`, and so on.
pub proof fn lemma_document_type_names()
    ensures
        document_type_from_name("schematic"@) == Some(DocumentType::Schematic),
        document_type_name(DocumentType::Schematic) == "schematic"@,
        document_type_from_name("symbol"@) == Some(DocumentType::Symbol),
        document_type_name(DocumentType::Symbol) == "symbol"@,
        document_type_from_name("pcb"@) == Some(DocumentType::Pcb),
        document_type_name(DocumentType::Pcb) == "pcb"@,
        document_type_from_name("footprint"@) == Some(DocumentType::Footprint),
        document_type_name(DocumentType::Footprint) == "footprint"@,
        document_type_from_name("drawing-sheet"@) == Some(DocumentType::DrawingSheet),
        document_type_name(DocumentType::DrawingSheet) == "drawing-sheet"@,
        document_type_from_name("project"@) == Some(DocumentType::Project),
        document_type_name(DocumentType::Project) == "project"@,
{
    reveal_strlit("schematic");
    reveal_strlit("symbol");
    reveal_strlit("pcb");
    reveal_strlit("footprint");
    reveal_strlit("drawing-sheet");
    reveal_strlit("project");
    assert("symbol"@.len() != "schematic"@.len());
    assert("pcb"@.len() != "schematic"@.len());
    assert("pcb"@.len() != "symbol"@.len());
    assert("footprint"@[0] != "schematic"@[0]);
    assert("footprint"@.len() != "symbol"@.len());
    assert("footprint"@.len() != "pcb"@.len());
    assert("drawing-sheet"@.len() != "schematic"@.len());
    assert("drawing-sheet"@.len() != "symbol"@.len());
    assert("drawing-sheet"@.len() != "pcb"@.len());
    assert("drawing-sheet"@.len() != "footprint"@.len());
    assert("project"@.len() != "schematic"@.len());
    assert("project"@.len() != "symbol"@.len());
    assert("project"@.len() != "pcb"@.len());
    assert("project"@.len() != "footprint"@.len());
    assert("project"@.len() != "drawing-sheet"@.len());
}

/// The wire codes of the API's `DocumentType` enumeration: schematic 1,
/// symbol 2, PCB 3, footprint 4, drawing sheet 5, project 6, both ways;
/// the unknown type 0 and every other code read as no document type.
pub proof fn lemma_document_type_wire_codes(code: i32)
    ensures
        document_type_code(DocumentType::Schematic) == 1 && document_type_of_code(1) == Some(DocumentType::Schematic),
        document_type_code(DocumentType::Symbol) == 2 && document_type_of_code(2) == Some(DocumentType::Symbol),
        document_type_code(DocumentType::Pcb) == 3 && document_type_of_code(3) == Some(DocumentType::Pcb),
        document_type_code(DocumentType::Footprint) == 4 && document_type_of_code(4) == Some(DocumentType::Footprint),
        document_type_code(DocumentType::DrawingSheet) == 5 && document_type_of_code(5) == Some(DocumentType::DrawingSheet),
        document_type_code(DocumentType::Project) == 6 && document_type_of_code(6) == Some(DocumentType::Project),
        (code < 1 || code > 6) ==> document_type_of_code(code) is None,
{
}

/// The message that rejects `value` as a document type.
pub open spec fn document_type_error(value: Seq<char>) -> Seq<char> {
    "unknown document type `"@ + value
        + "`; expected one of: schematic, symbol, pcb, footprint, drawing-sheet, project"@
}

impl DocumentType {
    /// The wire code of this document type.
    pub fn to_proto(self) -> (r: i32)
        ensures
            r == document_type_code(self),
    {
        match self {
            DocumentType::Schematic => 1,
            DocumentType::Symbol => 2,
            DocumentType::Pcb => 3,
            DocumentType::Footprint => 4,
            DocumentType::DrawingSheet => 5,
            DocumentType::Project => 6,
        }
    }

    /// The document type of a wire code, if it names one.
    pub fn from_proto(value: i32) -> (r: Option<Self>)
        ensures
            r == document_type_of_code(value),
    {
        match value {
            1 => Some(DocumentType::Schematic),
            2 => Some(DocumentType::Symbol),
            3 => Some(DocumentType::Pcb),
            4 => Some(DocumentType::Footprint),
            5 => Some(DocumentType::DrawingSheet),
            6 => Some(DocumentType::Project),
            _ => None,
        }
    }

    /// Parses one of the six document type names.
    pub fn from_str(value: &str) -> (r: Result<Self, String>)
        ensures
            r is Ok <==> document_type_from_name(value@) is Some,
            r matches Ok(t) ==> document_type_from_name(value@) == Some(t),
            r matches Err(msg) ==> msg@ == document_type_error(value@),
    {
        if crate::text::str_eq(value, "schematic") {
            Ok(DocumentType::Schematic)
        } else if crate::text::str_eq(value, "symbol") {
            Ok(DocumentType::Symbol)
        } else if crate::text::str_eq(value, "pcb") {
            Ok(DocumentType::Pcb)
        } else if crate::text::str_eq(value, "footprint") {
            Ok(DocumentType::Footprint)
        } else if crate::text::str_eq(value, "drawing-sheet") {
            Ok(DocumentType::DrawingSheet)
        } else if crate::text::str_eq(value, "project") {
            Ok(DocumentType::Project)
        } else {
            let mut msg = concat2("unknown document type `", value);
            msg.append(
                "`; expected one of: schematic, symbol, pcb, footprint, drawing-sheet, project",
            );
            Err(msg)
        }
    }

    /// The text form of the document type.
    pub fn to_string(&self) -> (r: String)
        ensures
            r@ == document_type_name(*self),
    {
        match self {
            DocumentType::Schematic => String::from_str("schematic"),
            DocumentType::Symbol => String::from_str("symbol"),
            DocumentType::Pcb => String::from_str("pcb"),
            DocumentType::Footprint => String::from_str("footprint"),
            DocumentType::DrawingSheet => String::from_str("drawing-sheet"),
            DocumentType::Project => String::from_str("project"),
        }
    }
}

/// A document type survives the trip to its wire code and back, and a
/// code that names a type is that type's code.
pub proof fn lemma_document_type_code_roundtrip(t: DocumentType, code: i32)
    ensures
        document_type_of_code(document_type_code(t)) == Some(t),
        document_type_of_code(code) == Some(t) ==> document_type_code(t) == code,
{
}

/// Every document type reads back from its text form.
pub proof fn lemma_document_type_name_roundtrip(t: DocumentType)
    ensures
        document_type_from_name(document_type_name(t)) == Some(t),
{
    reveal_strlit("schematic");
    reveal_strlit("symbol");
    reveal_strlit("pcb");
    reveal_strlit("footprint");
    reveal_strlit("drawing-sheet");
    reveal_strlit("project");
    assert("symbol"@.len() != "schematic"@.len());
    assert("symbol"@ != "schematic"@);
    assert("pcb"@.len() != "schematic"@.len());
    assert("pcb"@ != "schematic"@);
    assert("pcb"@.len() != "symbol"@.len());
    assert("pcb"@ != "symbol"@);
    assert("footprint"@[0] != "schematic"@[0]);
    assert("footprint"@ != "schematic"@);
    assert("footprint"@.len() != "symbol"@.len());
    assert("footprint"@ != "symbol"@);
    assert("footprint"@.len() != "pcb"@.len());
    assert("footprint"@ != "pcb"@);
    assert("drawing-sheet"@.len() != "schematic"@.len());
    assert("drawing-sheet"@ != "schematic"@);
    assert("drawing-sheet"@.len() != "symbol"@.len());
    assert("drawing-sheet"@ != "symbol"@);
    assert("drawing-sheet"@.len() != "pcb"@.len());
    assert("drawing-sheet"@ != "pcb"@);
    assert("drawing-sheet"@.len() != "footprint"@.len());
    assert("drawing-sheet"@ != "footprint"@);
    assert("project"@.len() != "schematic"@.len());
    assert("project"@ != "schematic"@);
    assert("project"@.len() != "symbol"@.len());
    assert("project"@ != "symbol"@);
    assert("project"@.len() != "pcb"@.len());
    assert("project"@ != "pcb"@);
    assert("project"@.len() != "footprint"@.len());
    assert("project"@ != "footprint"@);
    assert("project"@.len() != "drawing-sheet"@.len());
    assert("project"@ != "drawing-sheet"@);
    match t {
        DocumentType::Schematic => {},
        DocumentType::Symbol => {},
        DocumentType::Pcb => {},
        DocumentType::Footprint => {},
        DocumentType::DrawingSheet => {},
        DocumentType::Project => {},
    }
}

/// The project that a document belongs to.
#[derive(Clone, Debug, PartialEq, Eq)]
pub struct ProjectInfo {
    pub name: Option<String>,
    pub path: Option<String>,
}

/// An open document.
#[derive(Clone, Debug, PartialEq, Eq)]
pub struct DocumentSpecifier {
    pub document_type: DocumentType,
    pub board_filename: Option<String>,
    pub project: ProjectInfo,
}

/// How many selected items have one payload type.
#[derive(Clone, Debug, PartialEq, Eq)]
pub struct SelectionTypeCount {
    pub type_url: String,
    pub count: usize,
}

/// The selection, counted by payload type.
#[derive(Clone, Debug, PartialEq, Eq)]
pub struct SelectionSummary {
    pub total_items: usize,
    pub type_url_counts: Vec<SelectionTypeCount>,
}

/// A one-line description of a selected item.
#[derive(Clone, Debug, PartialEq, Eq)]
pub struct SelectionItemDetail {
    pub type_url: String,
    pub detail: String,
    pub raw_len: usize,
}

/// The title block of a document.
#[derive(Clone, Debug, PartialEq, Eq)]
pub struct TitleBlockInfo {
    pub title: String,
    pub date: String,
    pub revision: String,
    pub company: String,
    pub comments: Vec<String>,
}

/// The bounding box of an item.
#[derive(Clone, Debug, PartialEq, Eq)]
pub struct ItemBoundingBox {
    pub item_id: String,
    pub x_nm: i64,
    pub y_nm: i64,
    pub width_nm: i64,
    pub height_nm: i64,
}

/// The outcome of a hit test.
#[derive(Clone, Copy, Debug, PartialEq, Eq, Structural)]
pub enum ItemHitTestResult {
    Unknown,
    NoHit,
    Hit,
}

/// The text form of a hit-test outcome.
pub open spec fn hit_test_result_name(r: ItemHitTestResult) -> Seq<char> {
    match r {
        ItemHitTestResult::Unknown => "unknown"@,
        ItemHitTestResult::NoHit => "no-hit"@,
        ItemHitTestResult::Hit => "hit"@,
    }
}

impl ItemHitTestResult {
    /// The text form: `unknown`, `no-hit` or `hit`.
    pub fn to_string(&self) -> (r: String)
        ensures
            r@ == hit_test_result_name(*self),
    {
        match self {
            ItemHitTestResult::Unknown => String::from_str("unknown"),
            ItemHitTestResult::NoHit => String::from_str("no-hit"),
            ItemHitTestResult::Hit => String::from_str("hit"),
        }
    }
}

/// A KiCad object type code with its enumeration name.
#[derive(Clone, Copy, Debug, PartialEq, Eq)]
pub struct PcbObjectTypeCode {
    pub code: i32,
    pub name: &'static str,
}

/// Horizontal alignment of text.
#[derive(Clone, Copy, Debug, PartialEq, Eq, Structural)]
pub enum TextHorizontalAlignment {
    Unknown,
    Left,
    Center,
    Right,
    Indeterminate,
}

/// Vertical alignment of text.
#[derive(Clone, Copy, Debug, PartialEq, Eq, Structural)]
pub enum TextVerticalAlignment {
    Unknown,
    Top,
    Center,
    Bottom,
    Indeterminate,
}

/// The extents of a rendered text.
#[derive(Clone, Debug, PartialEq, Eq, Structural)]
pub struct TextExtents {
    pub x_nm: i64,
    pub y_nm: i64,
    pub width_nm: i64,
    pub height_nm: i64,
}

/// The geometry of one shape of rendered text.
#[derive(Clone, Debug, PartialEq, Eq)]
pub enum TextShapeGeometry {
    Segment { start_nm: Option<Vector2Nm>, end_nm: Option<Vector2Nm> },
    Rectangle {
        top_left_nm: Option<Vector2Nm>,
        bottom_right_nm: Option<Vector2Nm>,
        corner_radius_nm: Option<i64>,
    },
    Arc { start_nm: Option<Vector2Nm>, mid_nm: Option<Vector2Nm>, end_nm: Option<Vector2Nm> },
    Circle { center_nm: Option<Vector2Nm>, radius_point_nm: Option<Vector2Nm> },
    Polygon { polygons: Vec<PolygonWithHolesNm> },
    Bezier {
        start_nm: Option<Vector2Nm>,
        control1_nm: Option<Vector2Nm>,
        control2_nm: Option<Vector2Nm>,
        end_nm: Option<Vector2Nm>,
    },
    Unknown,
}

} // verus!
