//! Verified core of a client library for the KiCad IPC API: the typed
//! model, the decisions taken around each request, and the text the
//! client and its command-line tool produce.

pub mod args;
pub mod cli;
pub mod client;
pub mod error;
pub mod items;
pub mod model;
pub mod numbers;
pub mod output;
pub mod proto;
pub mod replies;
pub mod report;
pub mod text;

pub use crate::client::ClientBuilder;
pub use crate::error::KiCadError;
pub use crate::model::board::{
    ArcStartMidEndNm, BoardEditorAppearanceSettings, BoardEnabledLayers, BoardFlipMode,
    BoardLayerClass, BoardLayerGraphicsDefault, BoardLayerInfo, BoardNet, BoardOriginKind,
    BoardStackupLayerType, DrcSeverity, GraphicsDefaults, InactiveLayerDisplayMode,
    NetClassType, NetColorDisplayMode, PadNetEntry, PadShapeAsPolygonEntry,
    PadstackPresenceEntry, PadstackPresenceState, PcbArc, PcbBoardGraphicShape, PcbBoardText,
    PcbBoardTextBox, PcbDimension, PcbField, PcbGroup, PcbPad, PcbPadType, PcbTrack,
    PcbUnknownItem, PcbVia, PcbViaType, PcbZone, PcbZoneType, PolyLineNm, PolyLineNodeGeometryNm,
    PolygonWithHolesNm, RatsnestDisplayMode, Vector2Nm,
};
pub use crate::model::common::{
    DocumentSpecifier, DocumentType, ItemBoundingBox, ItemHitTestResult, PcbObjectTypeCode,
    ProjectInfo, SelectionItemDetail, SelectionSummary, SelectionTypeCount, TextExtents,
    TextHorizontalAlignment, TextShapeGeometry, TextVerticalAlignment, TitleBlockInfo,
    VersionInfo,
};
