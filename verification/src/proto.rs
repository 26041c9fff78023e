//! Plain values for the KiCad API messages that the library reads or
//! builds: what their protobuf encodings carry, field by field.

use vstd::prelude::*;

use crate::error::KiCadError;
use crate::model::board::Vector2Nm;
use crate::text::{concat2, nat_decimal, opt_view, push_decimal_u128, str_eq};
use vstd::string::StringExecFns;

verus! {

/// A packed message of any type (`google.protobuf.Any`).
#[derive(Clone, Debug, PartialEq, Eq)]
pub struct AnyPayload {
    pub type_url: String,
    pub value: Vec<u8>,
}

/// The project that a document belongs to (`kiapi.common.types.ProjectSpecifier`).
#[derive(Clone, Debug, PartialEq, Eq)]
pub struct ProjectSpecifier {
    pub name: String,
    pub path: String,
}

/// Which document within its type is meant.
#[derive(Clone, Debug, PartialEq, Eq)]
pub enum DocumentIdentifier {
    /// A board, by file name.
    BoardFilename(String),
    /// Any other kind of identifier; the library does not read it.
    Other,
}

/// An open document as the API names it (`kiapi.common.types.DocumentSpecifier`).
#[derive(Clone, Debug, PartialEq, Eq)]
pub struct DocumentSpecifier {
    pub document_type: i32,
    pub project: Option<ProjectSpecifier>,
    pub identifier: Option<DocumentIdentifier>,
}

/// A net as a board item names it (`kiapi.board.types.Net`).
#[derive(Clone, Debug, PartialEq, Eq)]
pub struct Net {
    pub code: Option<i32>,
    pub name: String,
}

/// A track segment (`kiapi.board.types.Track`): its id, end points, width,
/// layer code and net.
#[derive(Clone, Debug, PartialEq, Eq)]
pub struct Track {
    pub id: Option<String>,
    pub start: Option<Vector2Nm>,
    pub end: Option<Vector2Nm>,
    pub width_nm: Option<i64>,
    pub layer: i32,
    pub net: Option<Net>,
}

/// A pad of a footprint (`kiapi.board.types.Pad`): its id, number and net.
#[derive(Clone, Debug, PartialEq, Eq)]
pub struct Pad {
    pub id: Option<String>,
    pub number: String,
    pub net: Option<Net>,
}

/// One item of a footprint definition: a pad, decoded or not, or an item
/// of another type.
#[derive(Clone, Debug, PartialEq, Eq)]
pub enum FootprintItem {
    Pad(Pad),
    /// A pad whose payload failed to decode, with the error's text.
    UndecodablePad(String),
    Other,
}

/// A placed footprint (`kiapi.board.types.FootprintInstance`): its id, the
/// text of its reference field (where the field, its board text and that
/// text's text are all present), position, layer code and the items of its
/// definition.
#[derive(Clone, Debug, PartialEq, Eq)]
pub struct FootprintInstance {
    pub id: Option<String>,
    pub reference_text: Option<String>,
    pub position: Option<Vector2Nm>,
    pub layer: i32,
    pub definition_items: Vec<FootprintItem>,
}

/// A packed item of an item reply, decoded where it is a placed footprint.
#[derive(Clone, Debug, PartialEq, Eq)]
pub enum ItemPayload {
    Footprint(FootprintInstance),
    /// A footprint whose payload failed to decode, with the error's text.
    UndecodableFootprint(String),
    Other,
}

/// A footprint field (`kiapi.board.types.Field`): its name, visibility and
/// the text of its board text, where present.
#[derive(Clone, Debug, PartialEq, Eq)]
pub struct Field {
    pub name: String,
    pub visible: bool,
    pub text: Option<String>,
}

/// A graphic shape (`kiapi.board.types.BoardGraphicShape`): its id, layer
/// code and net.
#[derive(Clone, Debug, PartialEq, Eq)]
pub struct BoardGraphicShape {
    pub id: Option<String>,
    pub layer: i32,
    pub net: Option<Net>,
}

/// The version of the running KiCad (`kiapi.common.types.KiCadVersion`).
#[derive(Clone, Debug, PartialEq, Eq)]
pub struct KiCadVersion {
    pub major: u32,
    pub minor: u32,
    pub patch: u32,
    pub full_version: String,
}

/// The status of a reply (`kiapi.common.ApiResponseStatus`): its status
/// code (`kiapi.common.ApiStatusCode`) and error message.
#[derive(Clone, Debug, PartialEq, Eq)]
pub struct ResponseStatus {
    pub status: i32,
    pub error_message: String,
}

/// A request for the open documents of a type (`kiapi.common.commands.GetOpenDocuments`).
#[derive(Clone, Debug, PartialEq, Eq)]
pub struct GetOpenDocuments {
    pub document_type: i32,
}

/// A request for the nets of a board (`kiapi.board.commands.GetNets`).
#[derive(Clone, Debug, PartialEq, Eq)]
pub struct GetNets {
    pub board: DocumentSpecifier,
    pub netclass_filter: Vec<String>,
}

/// A request that names only a board: `GetBoardEnabledLayers`,
/// `GetActiveLayer` and `GetVisibleLayers` of `kiapi.board.commands`.
#[derive(Clone, Debug, PartialEq, Eq)]
pub struct BoardRequest {
    pub board: DocumentSpecifier,
}

/// A request for a board origin (`kiapi.board.commands.GetBoardOrigin`).
#[derive(Clone, Debug, PartialEq, Eq)]
pub struct GetBoardOrigin {
    pub board: DocumentSpecifier,
    pub origin_type: i32,
}

/// A request for items of a document (`kiapi.common.commands.GetItems`),
/// or, with no types, for its selection (`kiapi.common.commands.GetSelection`):
/// the document of the item header, and the object type codes asked for.
#[derive(Clone, Debug, PartialEq, Eq)]
pub struct ItemsRequest {
    pub document: DocumentSpecifier,
    pub types: Vec<i32>,
}

/// The type URL under which a message of the given full name is packed.
pub open spec fn type_url_of(message_name: Seq<char>) -> Seq<char> {
    "type.googleapis.com/"@ + message_name
}

/// The type URL under which a message of the given full name is packed.
pub fn type_url(message_name: &str) -> (r: String)
    ensures
        r@ == type_url_of(message_name@),
{
    concat2("type.googleapis.com/", message_name)
}

/// Checks that a packed message has the expected type before it is decoded.
pub fn expect_payload_type(payload: &AnyPayload, expected_message_name: &str) -> (r: Result<
    (),
    KiCadError,
>)
    ensures
        r is Ok <==> payload.type_url@ == type_url_of(expected_message_name@),
        r matches Err(e) ==> (e matches KiCadError::UnexpectedPayloadType {
            expected_type_url,
            actual_type_url,
        } && expected_type_url@ == type_url_of(expected_message_name@) && actual_type_url@
            == payload.type_url@),
{
    let expected_type_url = type_url(expected_message_name);
    if str_eq(payload.type_url.as_str(), expected_type_url.as_str()) {
        Ok(())
    } else {
        Err(
            KiCadError::UnexpectedPayloadType {
                expected_type_url,
                actual_type_url: payload.type_url.clone(),
            },
        )
    }
}

/// The name of a board layer code in the API's `BoardLayer` enumeration:
/// `BL_In<k>_Cu` for the inner copper layers, `BL_User_<k>` for the user
/// layers, and none for codes outside the enumeration.
pub open spec fn board_layer_name(id: int) -> Option<Seq<char>> {
    if id == 0 {
        Some("BL_UNKNOWN"@)
    } else if id == 1 {
        Some("BL_UNDEFINED"@)
    } else if id == 2 {
        Some("BL_UNSELECTED"@)
    } else if id == 3 {
        Some("BL_F_Cu"@)
    } else if id == 34 {
        Some("BL_B_Cu"@)
    } else if id == 35 {
        Some("BL_B_Adhes"@)
    } else if id == 36 {
        Some("BL_F_Adhes"@)
    } else if id == 37 {
        Some("BL_B_Paste"@)
    } else if id == 38 {
        Some("BL_F_Paste"@)
    } else if id == 39 {
        Some("BL_B_SilkS"@)
    } else if id == 40 {
        Some("BL_F_SilkS"@)
    } else if id == 41 {
        Some("BL_B_Mask"@)
    } else if id == 42 {
        Some("BL_F_Mask"@)
    } else if id == 43 {
        Some("BL_Dwgs_User"@)
    } else if id == 44 {
        Some("BL_Cmts_User"@)
    } else if id == 45 {
        Some("BL_Eco1_User"@)
    } else if id == 46 {
        Some("BL_Eco2_User"@)
    } else if id == 47 {
        Some("BL_Edge_Cuts"@)
    } else if id == 48 {
        Some("BL_Margin"@)
    } else if id == 49 {
        Some("BL_B_CrtYd"@)
    } else if id == 50 {
        Some("BL_F_CrtYd"@)
    } else if id == 51 {
        Some("BL_B_Fab"@)
    } else if id == 52 {
        Some("BL_F_Fab"@)
    } else if id == 62 {
        Some("BL_Rescue"@)
    } else if 4 <= id <= 33 {
        Some("BL_In"@ + nat_decimal((id - 3) as nat) + "_Cu"@)
    } else if 53 <= id <= 61 {
        Some("BL_User_"@ + nat_decimal((id - 52) as nat))
    } else if 63 <= id <= 98 {
        Some("BL_User_"@ + nat_decimal((id - 53) as nat))
    } else {
        None
    }
}

/// The named layers of the API's `BoardLayer` enumeration sit at their
/// codes: front copper is 3 and back copper 34, back silkscreen 39 and
/// front silkscreen 40, and so on through the rescue layer at 62.
pub proof fn lemma_board_layer_named_codes()
    ensures
        board_layer_name(0) == Some("BL_UNKNOWN"@),
        board_layer_name(1) == Some("BL_UNDEFINED"@),
        board_layer_name(2) == Some("BL_UNSELECTED"@),
        board_layer_name(3) == Some("BL_F_Cu"@),
        board_layer_name(34) == Some("BL_B_Cu"@),
        board_layer_name(35) == Some("BL_B_Adhes"@),
        board_layer_name(36) == Some("BL_F_Adhes"@),
        board_layer_name(37) == Some("BL_B_Paste"@),
        board_layer_name(38) == Some("BL_F_Paste"@),
        board_layer_name(39) == Some("BL_B_SilkS"@),
        board_layer_name(40) == Some("BL_F_SilkS"@),
        board_layer_name(41) == Some("BL_B_Mask"@),
        board_layer_name(42) == Some("BL_F_Mask"@),
        board_layer_name(43) == Some("BL_Dwgs_User"@),
        board_layer_name(44) == Some("BL_Cmts_User"@),
        board_layer_name(45) == Some("BL_Eco1_User"@),
        board_layer_name(46) == Some("BL_Eco2_User"@),
        board_layer_name(47) == Some("BL_Edge_Cuts"@),
        board_layer_name(48) == Some("BL_Margin"@),
        board_layer_name(49) == Some("BL_B_CrtYd"@),
        board_layer_name(50) == Some("BL_F_CrtYd"@),
        board_layer_name(51) == Some("BL_B_Fab"@),
        board_layer_name(52) == Some("BL_F_Fab"@),
        board_layer_name(62) == Some("BL_Rescue"@),
{
}

/// The inner copper layers `BL_In1_Cu` to `BL_In30_Cu` sit at codes 4 to
/// 33, in order.
pub proof fn lemma_board_layer_inner_copper()
    ensures
        board_layer_name(4) == Some("BL_In1_Cu"@),
        board_layer_name(5) == Some("BL_In2_Cu"@),
        board_layer_name(6) == Some("BL_In3_Cu"@),
        board_layer_name(7) == Some("BL_In4_Cu"@),
        board_layer_name(8) == Some("BL_In5_Cu"@),
        board_layer_name(9) == Some("BL_In6_Cu"@),
        board_layer_name(10) == Some("BL_In7_Cu"@),
        board_layer_name(11) == Some("BL_In8_Cu"@),
        board_layer_name(12) == Some("BL_In9_Cu"@),
        board_layer_name(13) == Some("BL_In10_Cu"@),
        board_layer_name(14) == Some("BL_In11_Cu"@),
        board_layer_name(15) == Some("BL_In12_Cu"@),
        board_layer_name(16) == Some("BL_In13_Cu"@),
        board_layer_name(17) == Some("BL_In14_Cu"@),
        board_layer_name(18) == Some("BL_In15_Cu"@),
        board_layer_name(19) == Some("BL_In16_Cu"@),
        board_layer_name(20) == Some("BL_In17_Cu"@),
        board_layer_name(21) == Some("BL_In18_Cu"@),
        board_layer_name(22) == Some("BL_In19_Cu"@),
        board_layer_name(23) == Some("BL_In20_Cu"@),
        board_layer_name(24) == Some("BL_In21_Cu"@),
        board_layer_name(25) == Some("BL_In22_Cu"@),
        board_layer_name(26) == Some("BL_In23_Cu"@),
        board_layer_name(27) == Some("BL_In24_Cu"@),
        board_layer_name(28) == Some("BL_In25_Cu"@),
        board_layer_name(29) == Some("BL_In26_Cu"@),
        board_layer_name(30) == Some("BL_In27_Cu"@),
        board_layer_name(31) == Some("BL_In28_Cu"@),
        board_layer_name(32) == Some("BL_In29_Cu"@),
        board_layer_name(33) == Some("BL_In30_Cu"@),
{
    reveal_strlit("BL_In");
    reveal_strlit("_Cu");
    reveal_with_fuel(nat_decimal, 3);
    reveal_strlit("BL_In1_Cu");
    assert(nat_decimal(1) =~= seq!['1']);
    assert("BL_In"@ + nat_decimal(1) + "_Cu"@ =~= "BL_In1_Cu"@);
    reveal_strlit("BL_In2_Cu");
    assert(nat_decimal(2) =~= seq!['2']);
    assert("BL_In"@ + nat_decimal(2) + "_Cu"@ =~= "BL_In2_Cu"@);
    reveal_strlit("BL_In3_Cu");
    assert(nat_decimal(3) =~= seq!['3']);
    assert("BL_In"@ + nat_decimal(3) + "_Cu"@ =~= "BL_In3_Cu"@);
    reveal_strlit("BL_In4_Cu");
    assert(nat_decimal(4) =~= seq!['4']);
    assert("BL_In"@ + nat_decimal(4) + "_Cu"@ =~= "BL_In4_Cu"@);
    reveal_strlit("BL_In5_Cu");
    assert(nat_decimal(5) =~= seq!['5']);
    assert("BL_In"@ + nat_decimal(5) + "_Cu"@ =~= "BL_In5_Cu"@);
    reveal_strlit("BL_In6_Cu");
    assert(nat_decimal(6) =~= seq!['6']);
    assert("BL_In"@ + nat_decimal(6) + "_Cu"@ =~= "BL_In6_Cu"@);
    reveal_strlit("BL_In7_Cu");
    assert(nat_decimal(7) =~= seq!['7']);
    assert("BL_In"@ + nat_decimal(7) + "_Cu"@ =~= "BL_In7_Cu"@);
    reveal_strlit("BL_In8_Cu");
    assert(nat_decimal(8) =~= seq!['8']);
    assert("BL_In"@ + nat_decimal(8) + "_Cu"@ =~= "BL_In8_Cu"@);
    reveal_strlit("BL_In9_Cu");
    assert(nat_decimal(9) =~= seq!['9']);
    assert("BL_In"@ + nat_decimal(9) + "_Cu"@ =~= "BL_In9_Cu"@);
    reveal_strlit("BL_In10_Cu");
    assert(nat_decimal(10) =~= seq!['1', '0']);
    assert("BL_In"@ + nat_decimal(10) + "_Cu"@ =~= "BL_In10_Cu"@);
    reveal_strlit("BL_In11_Cu");
    assert(nat_decimal(11) =~= seq!['1', '1']);
    assert("BL_In"@ + nat_decimal(11) + "_Cu"@ =~= "BL_In11_Cu"@);
    reveal_strlit("BL_In12_Cu");
    assert(nat_decimal(12) =~= seq!['1', '2']);
    assert("BL_In"@ + nat_decimal(12) + "_Cu"@ =~= "BL_In12_Cu"@);
    reveal_strlit("BL_In13_Cu");
    assert(nat_decimal(13) =~= seq!['1', '3']);
    assert("BL_In"@ + nat_decimal(13) + "_Cu"@ =~= "BL_In13_Cu"@);
    reveal_strlit("BL_In14_Cu");
    assert(nat_decimal(14) =~= seq!['1', '4']);
    assert("BL_In"@ + nat_decimal(14) + "_Cu"@ =~= "BL_In14_Cu"@);
    reveal_strlit("BL_In15_Cu");
    assert(nat_decimal(15) =~= seq!['1', '5']);
    assert("BL_In"@ + nat_decimal(15) + "_Cu"@ =~= "BL_In15_Cu"@);
    reveal_strlit("BL_In16_Cu");
    assert(nat_decimal(16) =~= seq!['1', '6']);
    assert("BL_In"@ + nat_decimal(16) + "_Cu"@ =~= "BL_In16_Cu"@);
    reveal_strlit("BL_In17_Cu");
    assert(nat_decimal(17) =~= seq!['1', '7']);
    assert("BL_In"@ + nat_decimal(17) + "_Cu"@ =~= "BL_In17_Cu"@);
    reveal_strlit("BL_In18_Cu");
    assert(nat_decimal(18) =~= seq!['1', '8']);
    assert("BL_In"@ + nat_decimal(18) + "_Cu"@ =~= "BL_In18_Cu"@);
    reveal_strlit("BL_In19_Cu");
    assert(nat_decimal(19) =~= seq!['1', '9']);
    assert("BL_In"@ + nat_decimal(19) + "_Cu"@ =~= "BL_In19_Cu"@);
    reveal_strlit("BL_In20_Cu");
    assert(nat_decimal(20) =~= seq!['2', '0']);
    assert("BL_In"@ + nat_decimal(20) + "_Cu"@ =~= "BL_In20_Cu"@);
    reveal_strlit("BL_In21_Cu");
    assert(nat_decimal(21) =~= seq!['2', '1']);
    assert("BL_In"@ + nat_decimal(21) + "_Cu"@ =~= "BL_In21_Cu"@);
    reveal_strlit("BL_In22_Cu");
    assert(nat_decimal(22) =~= seq!['2', '2']);
    assert("BL_In"@ + nat_decimal(22) + "_Cu"@ =~= "BL_In22_Cu"@);
    reveal_strlit("BL_In23_Cu");
    assert(nat_decimal(23) =~= seq!['2', '3']);
    assert("BL_In"@ + nat_decimal(23) + "_Cu"@ =~= "BL_In23_Cu"@);
    reveal_strlit("BL_In24_Cu");
    assert(nat_decimal(24) =~= seq!['2', '4']);
    assert("BL_In"@ + nat_decimal(24) + "_Cu"@ =~= "BL_In24_Cu"@);
    reveal_strlit("BL_In25_Cu");
    assert(nat_decimal(25) =~= seq!['2', '5']);
    assert("BL_In"@ + nat_decimal(25) + "_Cu"@ =~= "BL_In25_Cu"@);
    reveal_strlit("BL_In26_Cu");
    assert(nat_decimal(26) =~= seq!['2', '6']);
    assert("BL_In"@ + nat_decimal(26) + "_Cu"@ =~= "BL_In26_Cu"@);
    reveal_strlit("BL_In27_Cu");
    assert(nat_decimal(27) =~= seq!['2', '7']);
    assert("BL_In"@ + nat_decimal(27) + "_Cu"@ =~= "BL_In27_Cu"@);
    reveal_strlit("BL_In28_Cu");
    assert(nat_decimal(28) =~= seq!['2', '8']);
    assert("BL_In"@ + nat_decimal(28) + "_Cu"@ =~= "BL_In28_Cu"@);
    reveal_strlit("BL_In29_Cu");
    assert(nat_decimal(29) =~= seq!['2', '9']);
    assert("BL_In"@ + nat_decimal(29) + "_Cu"@ =~= "BL_In29_Cu"@);
    reveal_strlit("BL_In30_Cu");
    assert(nat_decimal(30) =~= seq!['3', '0']);
    assert("BL_In"@ + nat_decimal(30) + "_Cu"@ =~= "BL_In30_Cu"@);
}

/// The user layers `BL_User_1` to `BL_User_9` sit at codes 53 to 61, and
/// `BL_User_10` to `BL_User_45` at codes 63 to 98, after the rescue layer.
pub proof fn lemma_board_layer_user_layers()
    ensures
        board_layer_name(53) == Some("BL_User_1"@),
        board_layer_name(54) == Some("BL_User_2"@),
        board_layer_name(55) == Some("BL_User_3"@),
        board_layer_name(56) == Some("BL_User_4"@),
        board_layer_name(57) == Some("BL_User_5"@),
        board_layer_name(58) == Some("BL_User_6"@),
        board_layer_name(59) == Some("BL_User_7"@),
        board_layer_name(60) == Some("BL_User_8"@),
        board_layer_name(61) == Some("BL_User_9"@),
        board_layer_name(63) == Some("BL_User_10"@),
        board_layer_name(64) == Some("BL_User_11"@),
        board_layer_name(65) == Some("BL_User_12"@),
        board_layer_name(66) == Some("BL_User_13"@),
        board_layer_name(67) == Some("BL_User_14"@),
        board_layer_name(68) == Some("BL_User_15"@),
        board_layer_name(69) == Some("BL_User_16"@),
        board_layer_name(70) == Some("BL_User_17"@),
        board_layer_name(71) == Some("BL_User_18"@),
        board_layer_name(72) == Some("BL_User_19"@),
        board_layer_name(73) == Some("BL_User_20"@),
        board_layer_name(74) == Some("BL_User_21"@),
        board_layer_name(75) == Some("BL_User_22"@),
        board_layer_name(76) == Some("BL_User_23"@),
        board_layer_name(77) == Some("BL_User_24"@),
        board_layer_name(78) == Some("BL_User_25"@),
        board_layer_name(79) == Some("BL_User_26"@),
        board_layer_name(80) == Some("BL_User_27"@),
        board_layer_name(81) == Some("BL_User_28"@),
        board_layer_name(82) == Some("BL_User_29"@),
        board_layer_name(83) == Some("BL_User_30"@),
        board_layer_name(84) == Some("BL_User_31"@),
        board_layer_name(85) == Some("BL_User_32"@),
        board_layer_name(86) == Some("BL_User_33"@),
        board_layer_name(87) == Some("BL_User_34"@),
        board_layer_name(88) == Some("BL_User_35"@),
        board_layer_name(89) == Some("BL_User_36"@),
        board_layer_name(90) == Some("BL_User_37"@),
        board_layer_name(91) == Some("BL_User_38"@),
        board_layer_name(92) == Some("BL_User_39"@),
        board_layer_name(93) == Some("BL_User_40"@),
        board_layer_name(94) == Some("BL_User_41"@),
        board_layer_name(95) == Some("BL_User_42"@),
        board_layer_name(96) == Some("BL_User_43"@),
        board_layer_name(97) == Some("BL_User_44"@),
        board_layer_name(98) == Some("BL_User_45"@),
{
    reveal_strlit("BL_User_");
    reveal_with_fuel(nat_decimal, 3);
    reveal_strlit("BL_User_1");
    assert(nat_decimal(1) =~= seq!['1']);
    assert("BL_User_"@ + nat_decimal(1) =~= "BL_User_1"@);
    reveal_strlit("BL_User_2");
    assert(nat_decimal(2) =~= seq!['2']);
    assert("BL_User_"@ + nat_decimal(2) =~= "BL_User_2"@);
    reveal_strlit("BL_User_3");
    assert(nat_decimal(3) =~= seq!['3']);
    assert("BL_User_"@ + nat_decimal(3) =~= "BL_User_3"@);
    reveal_strlit("BL_User_4");
    assert(nat_decimal(4) =~= seq!['4']);
    assert("BL_User_"@ + nat_decimal(4) =~= "BL_User_4"@);
    reveal_strlit("BL_User_5");
    assert(nat_decimal(5) =~= seq!['5']);
    assert("BL_User_"@ + nat_decimal(5) =~= "BL_User_5"@);
    reveal_strlit("BL_User_6");
    assert(nat_decimal(6) =~= seq!['6']);
    assert("BL_User_"@ + nat_decimal(6) =~= "BL_User_6"@);
    reveal_strlit("BL_User_7");
    assert(nat_decimal(7) =~= seq!['7']);
    assert("BL_User_"@ + nat_decimal(7) =~= "BL_User_7"@);
    reveal_strlit("BL_User_8");
    assert(nat_decimal(8) =~= seq!['8']);
    assert("BL_User_"@ + nat_decimal(8) =~= "BL_User_8"@);
    reveal_strlit("BL_User_9");
    assert(nat_decimal(9) =~= seq!['9']);
    assert("BL_User_"@ + nat_decimal(9) =~= "BL_User_9"@);
    reveal_strlit("BL_User_");
    reveal_with_fuel(nat_decimal, 3);
    reveal_strlit("BL_User_10");
    assert(nat_decimal(10) =~= seq!['1', '0']);
    assert("BL_User_"@ + nat_decimal(10) =~= "BL_User_10"@);
    reveal_strlit("BL_User_11");
    assert(nat_decimal(11) =~= seq!['1', '1']);
    assert("BL_User_"@ + nat_decimal(11) =~= "BL_User_11"@);
    reveal_strlit("BL_User_12");
    assert(nat_decimal(12) =~= seq!['1', '2']);
    assert("BL_User_"@ + nat_decimal(12) =~= "BL_User_12"@);
    reveal_strlit("BL_User_13");
    assert(nat_decimal(13) =~= seq!['1', '3']);
    assert("BL_User_"@ + nat_decimal(13) =~= "BL_User_13"@);
    reveal_strlit("BL_User_14");
    assert(nat_decimal(14) =~= seq!['1', '4']);
    assert("BL_User_"@ + nat_decimal(14) =~= "BL_User_14"@);
    reveal_strlit("BL_User_15");
    assert(nat_decimal(15) =~= seq!['1', '5']);
    assert("BL_User_"@ + nat_decimal(15) =~= "BL_User_15"@);
    reveal_strlit("BL_User_16");
    assert(nat_decimal(16) =~= seq!['1', '6']);
    assert("BL_User_"@ + nat_decimal(16) =~= "BL_User_16"@);
    reveal_strlit("BL_User_17");
    assert(nat_decimal(17) =~= seq!['1', '7']);
    assert("BL_User_"@ + nat_decimal(17) =~= "BL_User_17"@);
    reveal_strlit("BL_User_18");
    assert(nat_decimal(18) =~= seq!['1', '8']);
    assert("BL_User_"@ + nat_decimal(18) =~= "BL_User_18"@);
    reveal_strlit("BL_User_19");
    assert(nat_decimal(19) =~= seq!['1', '9']);
    assert("BL_User_"@ + nat_decimal(19) =~= "BL_User_19"@);
    reveal_strlit("BL_User_20");
    assert(nat_decimal(20) =~= seq!['2', '0']);
    assert("BL_User_"@ + nat_decimal(20) =~= "BL_User_20"@);
    reveal_strlit("BL_User_21");
    assert(nat_decimal(21) =~= seq!['2', '1']);
    assert("BL_User_"@ + nat_decimal(21) =~= "BL_User_21"@);
    reveal_strlit("BL_User_22");
    assert(nat_decimal(22) =~= seq!['2', '2']);
    assert("BL_User_"@ + nat_decimal(22) =~= "BL_User_22"@);
    reveal_strlit("BL_User_23");
    assert(nat_decimal(23) =~= seq!['2', '3']);
    assert("BL_User_"@ + nat_decimal(23) =~= "BL_User_23"@);
    reveal_strlit("BL_User_24");
    assert(nat_decimal(24) =~= seq!['2', '4']);
    assert("BL_User_"@ + nat_decimal(24) =~= "BL_User_24"@);
    reveal_strlit("BL_User_25");
    assert(nat_decimal(25) =~= seq!['2', '5']);
    assert("BL_User_"@ + nat_decimal(25) =~= "BL_User_25"@);
    reveal_strlit("BL_User_26");
    assert(nat_decimal(26) =~= seq!['2', '6']);
    assert("BL_User_"@ + nat_decimal(26) =~= "BL_User_26"@);
    reveal_strlit("BL_User_27");
    assert(nat_decimal(27) =~= seq!['2', '7']);
    assert("BL_User_"@ + nat_decimal(27) =~= "BL_User_27"@);
    reveal_strlit("BL_User_28");
    assert(nat_decimal(28) =~= seq!['2', '8']);
    assert("BL_User_"@ + nat_decimal(28) =~= "BL_User_28"@);
    reveal_strlit("BL_User_29");
    assert(nat_decimal(29) =~= seq!['2', '9']);
    assert("BL_User_"@ + nat_decimal(29) =~= "BL_User_29"@);
    reveal_strlit("BL_User_30");
    assert(nat_decimal(30) =~= seq!['3', '0']);
    assert("BL_User_"@ + nat_decimal(30) =~= "BL_User_30"@);
    reveal_strlit("BL_User_31");
    assert(nat_decimal(31) =~= seq!['3', '1']);
    assert("BL_User_"@ + nat_decimal(31) =~= "BL_User_31"@);
    reveal_strlit("BL_User_32");
    assert(nat_decimal(32) =~= seq!['3', '2']);
    assert("BL_User_"@ + nat_decimal(32) =~= "BL_User_32"@);
    reveal_strlit("BL_User_33");
    assert(nat_decimal(33) =~= seq!['3', '3']);
    assert("BL_User_"@ + nat_decimal(33) =~= "BL_User_33"@);
    reveal_strlit("BL_User_34");
    assert(nat_decimal(34) =~= seq!['3', '4']);
    assert("BL_User_"@ + nat_decimal(34) =~= "BL_User_34"@);
    reveal_strlit("BL_User_35");
    assert(nat_decimal(35) =~= seq!['3', '5']);
    assert("BL_User_"@ + nat_decimal(35) =~= "BL_User_35"@);
    reveal_strlit("BL_User_36");
    assert(nat_decimal(36) =~= seq!['3', '6']);
    assert("BL_User_"@ + nat_decimal(36) =~= "BL_User_36"@);
    reveal_strlit("BL_User_37");
    assert(nat_decimal(37) =~= seq!['3', '7']);
    assert("BL_User_"@ + nat_decimal(37) =~= "BL_User_37"@);
    reveal_strlit("BL_User_38");
    assert(nat_decimal(38) =~= seq!['3', '8']);
    assert("BL_User_"@ + nat_decimal(38) =~= "BL_User_38"@);
    reveal_strlit("BL_User_39");
    assert(nat_decimal(39) =~= seq!['3', '9']);
    assert("BL_User_"@ + nat_decimal(39) =~= "BL_User_39"@);
    reveal_strlit("BL_User_40");
    assert(nat_decimal(40) =~= seq!['4', '0']);
    assert("BL_User_"@ + nat_decimal(40) =~= "BL_User_40"@);
    reveal_strlit("BL_User_41");
    assert(nat_decimal(41) =~= seq!['4', '1']);
    assert("BL_User_"@ + nat_decimal(41) =~= "BL_User_41"@);
    reveal_strlit("BL_User_42");
    assert(nat_decimal(42) =~= seq!['4', '2']);
    assert("BL_User_"@ + nat_decimal(42) =~= "BL_User_42"@);
    reveal_strlit("BL_User_43");
    assert(nat_decimal(43) =~= seq!['4', '3']);
    assert("BL_User_"@ + nat_decimal(43) =~= "BL_User_43"@);
    reveal_strlit("BL_User_44");
    assert(nat_decimal(44) =~= seq!['4', '4']);
    assert("BL_User_"@ + nat_decimal(44) =~= "BL_User_44"@);
    reveal_strlit("BL_User_45");
    assert(nat_decimal(45) =~= seq!['4', '5']);
    assert("BL_User_"@ + nat_decimal(45) =~= "BL_User_45"@);
}

/// Codes outside 0 to 98 are not in the enumeration.
pub proof fn lemma_board_layer_out_of_range(id: int)
    ensures
        id < 0 || id > 98 ==> board_layer_name(id) is None,
        0 <= id <= 98 ==> board_layer_name(id) is Some,
{
}

/// The name of a board layer code, if the `BoardLayer` enumeration has it.
pub fn board_layer_name_of(id: i32) -> (r: Option<String>)
    ensures
        opt_view(r) == board_layer_name(id as int),
{
    match id {
        0 => Some(String::from_str("BL_UNKNOWN")),
        1 => Some(String::from_str("BL_UNDEFINED")),
        2 => Some(String::from_str("BL_UNSELECTED")),
        3 => Some(String::from_str("BL_F_Cu")),
        34 => Some(String::from_str("BL_B_Cu")),
        35 => Some(String::from_str("BL_B_Adhes")),
        36 => Some(String::from_str("BL_F_Adhes")),
        37 => Some(String::from_str("BL_B_Paste")),
        38 => Some(String::from_str("BL_F_Paste")),
        39 => Some(String::from_str("BL_B_SilkS")),
        40 => Some(String::from_str("BL_F_SilkS")),
        41 => Some(String::from_str("BL_B_Mask")),
        42 => Some(String::from_str("BL_F_Mask")),
        43 => Some(String::from_str("BL_Dwgs_User")),
        44 => Some(String::from_str("BL_Cmts_User")),
        45 => Some(String::from_str("BL_Eco1_User")),
        46 => Some(String::from_str("BL_Eco2_User")),
        47 => Some(String::from_str("BL_Edge_Cuts")),
        48 => Some(String::from_str("BL_Margin")),
        49 => Some(String::from_str("BL_B_CrtYd")),
        50 => Some(String::from_str("BL_F_CrtYd")),
        51 => Some(String::from_str("BL_B_Fab")),
        52 => Some(String::from_str("BL_F_Fab")),
        62 => Some(String::from_str("BL_Rescue")),
        4..=33 => {
            let mut s = String::from_str("BL_In");
            push_decimal_u128(&mut s, (id - 3) as u128);
            s.append("_Cu");
            Some(s)
        },
        53..=61 => {
            let mut s = String::from_str("BL_User_");
            push_decimal_u128(&mut s, (id - 52) as u128);
            Some(s)
        },
        63..=98 => {
            let mut s = String::from_str("BL_User_");
            push_decimal_u128(&mut s, (id - 53) as u128);
            Some(s)
        },
        _ => None,
    }
}

} // verus!
