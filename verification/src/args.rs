//! The command line of the command-line tool: global options, the command
//! and its own options.

use vstd::prelude::*;
use vstd::string::StringExecFns;

use crate::error::KiCadError;
use crate::model::board::{board_origin_kind_error, board_origin_kind_from_name, BoardOriginKind};
use crate::model::common::{document_type_error, document_type_from_name, DocumentType};
use crate::numbers::{
    decimal_integer, i32_parse_error_text, i64_parse_error_text, parse_i32, parse_i64, parse_u64,
    u64_parse_error_text,
};
use crate::cli::{parse_item_ids, scan_option_values, CliConfig};
use vstd::slice::slice_subrange;
use crate::text::{concat2, opt_view, str_eq, strings_view};

verus! {

/// An option table as plain values: each option's name and whether a value
/// follows it.
pub open spec fn table_view(table: Seq<(&'static str, bool)>) -> Seq<(Seq<char>, bool)> {
    table.map_values(|t: (&'static str, bool)| (t.0@, t.1))
}

/// The position of the first option named `a` in the table, from `k` on.
pub open spec fn option_index(table: Seq<(Seq<char>, bool)>, a: Seq<char>, k: int) -> Option<int>
    decreases table.len() - k,
{
    if k < 0 || k >= table.len() {
        None
    } else if table[k].0 == a {
        Some(k)
    } else {
        option_index(table, a, k + 1)
    }
}

/// An option found in the table from position `k0` on sits at or after
/// `k0` and has the name looked for.
pub proof fn lemma_option_index_found(table: Seq<(Seq<char>, bool)>, a: Seq<char>, k0: int)
    ensures
        option_index(table, a, k0) matches Some(k) ==> (0 <= k0 <= k < table.len() && table[k].0
            == a),
    decreases table.len() - k0,
{
    if 0 <= k0 < table.len() && table[k0].0 != a {
        lemma_option_index_found(table, a, k0 + 1);
    }
}

/// Scans the arguments from position `i` on, after `events` and `rest`
/// were gathered before it. An option of the table becomes an event (its
/// position in the table and its value, empty for an option without one);
/// an option that needs a value but ends the arguments stops the scan and
/// is reported; every other argument is kept in `rest`.
pub open spec fn scan_options(
    args: Seq<Seq<char>>,
    table: Seq<(Seq<char>, bool)>,
    i: int,
    events: Seq<(int, Seq<char>)>,
    rest: Seq<Seq<char>>,
) -> (Seq<(int, Seq<char>)>, Option<int>, Seq<Seq<char>>)
    decreases args.len() - i,
{
    if i < 0 || i >= args.len() {
        (events, None, rest)
    } else {
        match option_index(table, args[i], 0) {
            Some(k) => if table[k].1 {
                if i + 1 < args.len() {
                    scan_options(args, table, i + 2, events.push((k, args[i + 1])), rest)
                } else {
                    (events, Some(k), rest)
                }
            } else {
                scan_options(args, table, i + 1, events.push((k, Seq::empty())), rest)
            },
            None => scan_options(args, table, i + 1, events, rest.push(args[i])),
        }
    }
}

/// Scanned events as plain values.
pub open spec fn events_view(events: Seq<(usize, String)>) -> Seq<(int, Seq<char>)> {
    events.map_values(|e: (usize, String)| (e.0 as int, e.1@))
}

fn find_option(table: &[(&'static str, bool)], a: &str) -> (r: Option<usize>)
    ensures
        match r {
            Some(k) => option_index(table_view(table@), a@, 0) == Some(k as int),
            None => option_index(table_view(table@), a@, 0) is None,
        },
{
    let ghost tv = table_view(table@);
    let mut k: usize = 0;
    while k < table.len()
        invariant
            tv == table_view(table@),
            k <= table@.len(),
            option_index(tv, a@, 0) == option_index(tv, a@, k as int),
        decreases table@.len() - k,
    {
        let (name, _) = table[k];
        if str_eq(name, a) {
            return Some(k);
        }
        k = k + 1;
    }
    None
}

/// Scans `args` from position `start` on against an option table.
pub fn scan_args(args: &[String], start: usize, table: &[(&'static str, bool)]) -> (r: (
    Vec<(usize, String)>,
    Option<usize>,
    Vec<String>,
))
    ensures
        (events_view(r.0@), match r.1 {
            Some(k) => Some(k as int),
            None => None,
        }, strings_view(r.2@)) == scan_options(
            strings_view(args@),
            table_view(table@),
            start as int,
            Seq::empty(),
            Seq::empty(),
        ),
        r.1 matches Some(k) ==> k < table@.len(),
{
    let ghost a = strings_view(args@);
    let ghost tv = table_view(table@);
    let mut events: Vec<(usize, String)> = Vec::new();
    let mut rest: Vec<String> = Vec::new();
    let mut i: usize = start;
    assert(events_view(events@) =~= Seq::<(int, Seq<char>)>::empty());
    assert(strings_view(rest@) =~= Seq::<Seq<char>>::empty());
    while i < args.len()
        invariant
            a == strings_view(args@),
            tv == table_view(table@),
            scan_options(a, tv, start as int, Seq::empty(), Seq::empty()) == scan_options(
                a,
                tv,
                i as int,
                events_view(events@),
                strings_view(rest@),
            ),
            forall|e: int| 0 <= e < events@.len() ==> (#[trigger] events@[e]).0 < table@.len(),
        decreases args@.len() - i,
    {
        let ghost ev = events_view(events@);
        let ghost rv = strings_view(rest@);
        match find_option(table, args[i].as_str()) {
            Some(k) => {
                proof {
                    lemma_option_index_found(tv, a[i as int], 0);
                }
                let (_, takes_value) = table[k];
                if takes_value {
                    if i + 1 < args.len() {
                        events.push((k, args[i + 1].clone()));
                        assert(events_view(events@) =~= ev.push((k as int, a[i + 1])));
                        i = i + 2;
                    } else {
                        return (events, Some(k), rest);
                    }
                } else {
                    events.push((k, String::new()));
                    assert(events_view(events@) =~= ev.push((k as int, Seq::empty())));
                    i = i + 1;
                }
            },
            None => {
                rest.push(args[i].clone());
                assert(strings_view(rest@) =~= rv.push(a[i as int]));
                i = i + 1;
            },
        }
    }
    (events, None, rest)
}

/// Applies `step` to the events from position `k` on, starting from state
/// `st`; the first step that fails ends the fold with its message.
pub open spec fn fold_events<S>(
    step: spec_fn(S, (int, Seq<char>)) -> Result<S, Seq<char>>,
    events: Seq<(int, Seq<char>)>,
    k: int,
    st: S,
) -> Result<S, Seq<char>>
    decreases events.len() - k,
{
    if k < 0 || k >= events.len() {
        Ok(st)
    } else {
        match step(st, events[k]) {
            Ok(next) => fold_events(step, events, k + 1, next),
            Err(e) => Err(e),
        }
    }
}

/// The outcome of a scan: the fold's failure, else the option left without
/// a value, else the folded state.
pub open spec fn after_scan<S>(
    folded: Result<S, Seq<char>>,
    missing: Option<int>,
    table: Seq<(Seq<char>, bool)>,
    prefix: Seq<char>,
) -> Result<S, Seq<char>> {
    match folded {
        Err(e) => Err(e),
        Ok(st) => match missing {
            Some(k) => Err("missing value for "@ + prefix + table[k].0),
            None => Ok(st),
        },
    }
}

/// The value a text writes in decimal, where it lies within `lo..=hi`.
pub open spec fn int_in(s: Seq<char>, signed: bool, lo: int, hi: int) -> Option<int> {
    match decimal_integer(s, signed) {
        Some(n) => if lo <= n <= hi {
            Some(n)
        } else {
            None
        },
        None => None,
    }
}

/// The message that rejects `value` for option `flag` of a command.
pub open spec fn invalid_value_text(label: Seq<char>, value: Seq<char>, err: Seq<char>) -> Seq<
    char,
> {
    "invalid "@ + label + " `"@ + value + "`: "@ + err
}

fn invalid_value(label: &str, value: &str, err: &str) -> (r: KiCadError)
    ensures
        r matches KiCadError::Config { reason } && reason@ == invalid_value_text(label@, value@, err@),
{
    let mut reason = concat2("invalid ", label);
    reason.append(" `");
    reason.append(value);
    reason.append("`: ");
    reason.append(err);
    KiCadError::Config { reason }
}

fn missing_value(prefix: &str, flag: &str) -> (r: KiCadError)
    ensures
        r matches KiCadError::Config { reason } && reason@ == "missing value for "@ + prefix@ + flag@,
{
    let mut reason = concat2("missing value for ", prefix);
    reason.append(flag);
    KiCadError::Config { reason }
}

fn config_error(text: &str) -> (r: KiCadError)
    ensures
        r matches KiCadError::Config { reason } && reason@ == text@,
{
    KiCadError::Config { reason: String::from_str(text) }
}

/// The options that apply to every command.
pub open spec fn global_table() -> Seq<(Seq<char>, bool)> {
    seq![("--socket"@, true), ("--token"@, true), ("--timeout-ms"@, true)]
}

fn global_options() -> (r: Vec<(&'static str, bool)>)
    ensures
        table_view(r@) == global_table(),
{
    let r = vec![("--socket", true), ("--token", true), ("--timeout-ms", true)];
    assert(table_view(r@) =~= global_table());
    r
}

/// The settings as plain values: socket, token and timeout in milliseconds.
pub open spec fn config_view(c: CliConfig) -> (Option<Seq<char>>, Option<Seq<char>>, int) {
    (opt_view(c.socket), opt_view(c.token), c.timeout_ms as int)
}

/// What one global option does to the settings.
pub open spec fn global_step(
    st: (Option<Seq<char>>, Option<Seq<char>>, int),
    e: (int, Seq<char>),
) -> Result<(Option<Seq<char>>, Option<Seq<char>>, int), Seq<char>> {
    if e.0 == 0 {
        Ok((Some(e.1), st.1, st.2))
    } else if e.0 == 1 {
        Ok((st.0, Some(e.1), st.2))
    } else if e.0 == 2 {
        match int_in(e.1, false, 0, u64::MAX as int) {
            Some(n) => Ok((st.0, st.1, n)),
            None => Err(invalid_value_text("--timeout-ms value"@, e.1, u64_parse_error_text(e.1))),
        }
    } else {
        Ok(st)
    }
}

/// `global_step` as a function value.
pub open spec fn global_stepper() -> spec_fn(
    (Option<Seq<char>>, Option<Seq<char>>, int),
    (int, Seq<char>),
) -> Result<(Option<Seq<char>>, Option<Seq<char>>, int), Seq<char>> {
    |st: (Option<Seq<char>>, Option<Seq<char>>, int), e: (int, Seq<char>)| global_step(st, e)
}

/// The settings and the remaining arguments after the global options.
pub open spec fn global_parse(args: Seq<Seq<char>>) -> Result<
    ((Option<Seq<char>>, Option<Seq<char>>, int), Seq<Seq<char>>),
    Seq<char>,
> {
    let (events, missing, rest) = scan_options(args, global_table(), 0, Seq::empty(), Seq::empty());
    match after_scan(
        fold_events(global_stepper(), events, 0, (None, None, 15_000int)),
        missing,
        global_table(),
        Seq::empty(),
    ) {
        Ok(cfg) => Ok((cfg, rest)),
        Err(e) => Err(e),
    }
}

/// Takes the global options out of the arguments.
#[verifier::loop_isolation(false)]
pub fn parse_global_options(args: &[String]) -> (r: Result<(CliConfig, Vec<String>), KiCadError>)
    ensures
        match global_parse(strings_view(args@)) {
            Ok((cfg, rest)) => r matches Ok((c, v)) && config_view(c) == cfg && strings_view(v@)
                == rest,
            Err(m) => r matches Err(KiCadError::Config { reason }) && reason@ == m,
        },
{
    let table = global_options();
    let (events, missing, rest) = scan_args(args, 0, table.as_slice());
    let ghost ev = events_view(events@);
    let ghost step = global_stepper();
    let mut config = crate::cli::default_config();
    let mut j: usize = 0;
    while j < events.len()
        invariant
            ev == events_view(events@),
            step == global_stepper(),
            j <= events@.len(),
            fold_events(step, ev, 0, (None, None, 15_000int)) == fold_events(
                step,
                ev,
                j as int,
                config_view(config),
            ),
        decreases events@.len() - j,
    {
        let (k, value) = (events[j].0, &events[j].1);
        assert(ev[j as int] == (k as int, value@));
        if k == 0 {
            config.socket = Some(value.clone());
        } else if k == 1 {
            config.token = Some(value.clone());
        } else if k == 2 {
            match parse_u64(value.as_str()) {
                Ok(n) => config.timeout_ms = n,
                Err(err) => {
                    let e = invalid_value("--timeout-ms value", value.as_str(), err.as_str());
                    proof {
                        let msg = invalid_value_text(
                            "--timeout-ms value"@,
                            value@,
                            u64_parse_error_text(value@),
                        );
                        assert(global_step(config_view(config), ev[j as int]) == Err::<
                            (Option<Seq<char>>, Option<Seq<char>>, int),
                            Seq<char>,
                        >(msg));
                        assert(fold_events(step, ev, j as int, config_view(config)) == Err::<
                            (Option<Seq<char>>, Option<Seq<char>>, int),
                            Seq<char>,
                        >(msg));
                    }
                    return Err(e);
                },
            }
        }
        j = j + 1;
    }
    assert(fold_events(step, ev, j as int, config_view(config)) == Ok::<
        (Option<Seq<char>>, Option<Seq<char>>, int),
        Seq<char>,
    >(config_view(config)));
    match missing {
        Some(k) => {
            let flag = table[k].0;
            assert(table_view(table@)[k as int].0 == flag@);
            proof {
                reveal_strlit("");
                assert(""@ =~= Seq::<char>::empty());
            }
            return Err(missing_value("", flag));
        },
        None => {},
    }
    Ok((config, rest))
}

/// A command of the command-line tool, with its options.
#[derive(Clone, Debug, PartialEq, Eq)]
pub enum Command {
    Ping,
    Version,
    OpenDocs { document_type: DocumentType },
    ProjectPath,
    BoardOpen,
    NetClasses,
    TextVariables,
    ExpandTextVariables { text: Vec<String> },
    TextExtents { text: String },
    TextAsShapes { text: Vec<String> },
    Nets,
    EnabledLayers,
    ActiveLayer,
    VisibleLayers,
    BoardOrigin { kind: BoardOriginKind },
    SelectionSummary,
    SelectionDetails,
    SelectionRaw,
    NetlistPads,
    ItemsById { item_ids: Vec<String> },
    ItemBBox { item_ids: Vec<String>, include_child_text: bool },
    HitTest { item_id: String, x_nm: i64, y_nm: i64, tolerance_nm: i32 },
    PcbTypes,
    ItemsRaw { type_codes: Vec<i32>, include_debug: bool },
    ItemsRawAllPcb { include_debug: bool },
    PadShapePolygon { pad_ids: Vec<String>, layer_id: i32, include_debug: bool },
    PadstackPresence { item_ids: Vec<String>, layer_ids: Vec<i32>, include_debug: bool },
    TitleBlock,
    BoardAsString,
    SelectionAsString,
    Stackup,
    GraphicsDefaults,
    Appearance,
    NetClass,
    BoardReadReport { output: String },
    ProtoCoverageBoardRead,
    Smoke,
    Help,
}

/// Whether the tool connects to KiCad for a command: every command but
/// help does; help is answered before any socket is dialled.
pub fn needs_connection(command: &Command) -> (r: bool)
    ensures
        r == !(command is Help),
{
    match command {
        Command::Help => false,
        _ => true,
    }
}

/// A command as plain values.
pub enum CommandView {
    Ping,
    Version,
    OpenDocs(DocumentType),
    ProjectPath,
    BoardOpen,
    NetClasses,
    TextVariables,
    ExpandTextVariables(Seq<Seq<char>>),
    TextExtents(Seq<char>),
    TextAsShapes(Seq<Seq<char>>),
    Nets,
    EnabledLayers,
    ActiveLayer,
    VisibleLayers,
    BoardOrigin(BoardOriginKind),
    SelectionSummary,
    SelectionDetails,
    SelectionRaw,
    NetlistPads,
    ItemsById(Seq<Seq<char>>),
    ItemBBox(Seq<Seq<char>>, bool),
    HitTest(Seq<char>, int, int, int),
    PcbTypes,
    ItemsRaw(Seq<int>, bool),
    ItemsRawAllPcb(bool),
    PadShapePolygon(Seq<Seq<char>>, int, bool),
    PadstackPresence(Seq<Seq<char>>, Seq<int>, bool),
    TitleBlock,
    BoardAsString,
    SelectionAsString,
    Stackup,
    GraphicsDefaults,
    Appearance,
    NetClass,
    BoardReadReport(Seq<char>),
    ProtoCoverageBoardRead,
    Smoke,
    Help,
}

/// Integers as plain values.
pub open spec fn ints_view(v: Seq<i32>) -> Seq<int> {
    v.map_values(|x: i32| x as int)
}

/// What a command says, as plain values.
pub open spec fn command_view(c: Command) -> CommandView {
    match c {
        Command::Ping => CommandView::Ping,
        Command::Version => CommandView::Version,
        Command::OpenDocs { document_type } => CommandView::OpenDocs(document_type),
        Command::ProjectPath => CommandView::ProjectPath,
        Command::BoardOpen => CommandView::BoardOpen,
        Command::NetClasses => CommandView::NetClasses,
        Command::TextVariables => CommandView::TextVariables,
        Command::ExpandTextVariables { text } => CommandView::ExpandTextVariables(strings_view(text@)),
        Command::TextExtents { text } => CommandView::TextExtents(text@),
        Command::TextAsShapes { text } => CommandView::TextAsShapes(strings_view(text@)),
        Command::Nets => CommandView::Nets,
        Command::EnabledLayers => CommandView::EnabledLayers,
        Command::ActiveLayer => CommandView::ActiveLayer,
        Command::VisibleLayers => CommandView::VisibleLayers,
        Command::BoardOrigin { kind } => CommandView::BoardOrigin(kind),
        Command::SelectionSummary => CommandView::SelectionSummary,
        Command::SelectionDetails => CommandView::SelectionDetails,
        Command::SelectionRaw => CommandView::SelectionRaw,
        Command::NetlistPads => CommandView::NetlistPads,
        Command::ItemsById { item_ids } => CommandView::ItemsById(strings_view(item_ids@)),
        Command::ItemBBox { item_ids, include_child_text } => CommandView::ItemBBox(
            strings_view(item_ids@),
            include_child_text,
        ),
        Command::HitTest { item_id, x_nm, y_nm, tolerance_nm } => CommandView::HitTest(
            item_id@,
            x_nm as int,
            y_nm as int,
            tolerance_nm as int,
        ),
        Command::PcbTypes => CommandView::PcbTypes,
        Command::ItemsRaw { type_codes, include_debug } => CommandView::ItemsRaw(
            ints_view(type_codes@),
            include_debug,
        ),
        Command::ItemsRawAllPcb { include_debug } => CommandView::ItemsRawAllPcb(include_debug),
        Command::PadShapePolygon { pad_ids, layer_id, include_debug } => CommandView::PadShapePolygon(
            strings_view(pad_ids@),
            layer_id as int,
            include_debug,
        ),
        Command::PadstackPresence { item_ids, layer_ids, include_debug } =>
            CommandView::PadstackPresence(strings_view(item_ids@), ints_view(layer_ids@), include_debug),
        Command::TitleBlock => CommandView::TitleBlock,
        Command::BoardAsString => CommandView::BoardAsString,
        Command::SelectionAsString => CommandView::SelectionAsString,
        Command::Stackup => CommandView::Stackup,
        Command::GraphicsDefaults => CommandView::GraphicsDefaults,
        Command::Appearance => CommandView::Appearance,
        Command::NetClass => CommandView::NetClass,
        Command::BoardReadReport { output } => CommandView::BoardReadReport(output@),
        Command::ProtoCoverageBoardRead => CommandView::ProtoCoverageBoardRead,
        Command::Smoke => CommandView::Smoke,
        Command::Help => CommandView::Help,
    }
}

/// `r` is the expected command, or the expected configuration error.
pub open spec fn command_result_matches(
    r: Result<Command, KiCadError>,
    expected: Result<CommandView, Seq<char>>,
) -> bool {
    match expected {
        Ok(c) => r matches Ok(cmd) && command_view(cmd) == c,
        Err(m) => r matches Err(KiCadError::Config { reason }) && reason@ == m,
    }
}

/// The options of `hit-test`.
pub open spec fn hit_test_table() -> Seq<(Seq<char>, bool)> {
    seq![("--id"@, true), ("--x-nm"@, true), ("--y-nm"@, true), ("--tolerance-nm"@, true)]
}

fn hit_test_options() -> (r: Vec<(&'static str, bool)>)
    ensures
        table_view(r@) == hit_test_table(),
{
    let r = vec![("--id", true), ("--x-nm", true), ("--y-nm", true), ("--tolerance-nm", true)];
    assert(table_view(r@) =~= hit_test_table());
    r
}

/// What one option of `hit-test` does: the item id, the point and the
/// tolerance, each last one winning.
pub open spec fn hit_test_step(
    st: (Option<Seq<char>>, Option<int>, Option<int>, int),
    e: (int, Seq<char>),
) -> Result<(Option<Seq<char>>, Option<int>, Option<int>, int), Seq<char>> {
    if e.0 == 0 {
        Ok((Some(e.1), st.1, st.2, st.3))
    } else if e.0 == 1 {
        match int_in(e.1, true, i64::MIN as int, i64::MAX as int) {
            Some(n) => Ok((st.0, Some(n), st.2, st.3)),
            None => Err(invalid_value_text("hit-test --x-nm"@, e.1, i64_parse_error_text(e.1))),
        }
    } else if e.0 == 2 {
        match int_in(e.1, true, i64::MIN as int, i64::MAX as int) {
            Some(n) => Ok((st.0, st.1, Some(n), st.3)),
            None => Err(invalid_value_text("hit-test --y-nm"@, e.1, i64_parse_error_text(e.1))),
        }
    } else if e.0 == 3 {
        match int_in(e.1, true, i32::MIN as int, i32::MAX as int) {
            Some(n) => Ok((st.0, st.1, st.2, n)),
            None => Err(
                invalid_value_text("hit-test --tolerance-nm"@, e.1, i32_parse_error_text(e.1)),
            ),
        }
    } else {
        Ok(st)
    }
}

/// `hit_test_step` as a function value.
pub open spec fn hit_test_stepper() -> spec_fn(
    (Option<Seq<char>>, Option<int>, Option<int>, int),
    (int, Seq<char>),
) -> Result<(Option<Seq<char>>, Option<int>, Option<int>, int), Seq<char>> {
    |st: (Option<Seq<char>>, Option<int>, Option<int>, int), e: (int, Seq<char>)|
        hit_test_step(st, e)
}

/// `hit-test`: an item id, a point and an optional tolerance.
pub open spec fn hit_test_parse(rest: Seq<Seq<char>>) -> Result<CommandView, Seq<char>> {
    let (events, missing, _) = scan_options(rest, hit_test_table(), 1, Seq::empty(), Seq::empty());
    match after_scan(
        fold_events(hit_test_stepper(), events, 0, (None, None, None, 0int)),
        missing,
        hit_test_table(),
        "hit-test "@,
    ) {
        Err(e) => Err(e),
        Ok((id, x, y, t)) => match id {
            None => Err("hit-test requires `--id <uuid>`"@),
            Some(id) => match x {
                None => Err("hit-test requires `--x-nm <value>`"@),
                Some(x) => match y {
                    None => Err("hit-test requires `--y-nm <value>`"@),
                    Some(y) => Ok(CommandView::HitTest(id, x, y, t)),
                },
            },
        },
    }
}

/// Parses the options of `hit-test`.
#[verifier::loop_isolation(false)]
fn parse_hit_test(rest: &[String]) -> (r: Result<Command, KiCadError>)
    ensures
        command_result_matches(r, hit_test_parse(strings_view(rest@))),
{
    let table = hit_test_options();
    let (events, missing, _) = scan_args(rest, 1, table.as_slice());
    let ghost ev = events_view(events@);
    let ghost step = hit_test_stepper();
    let mut item_id: Option<String> = None;
    let mut x_nm: Option<i64> = None;
    let mut y_nm: Option<i64> = None;
    let mut tolerance_nm: i32 = 0;
    let mut j: usize = 0;
    while j < events.len()
        invariant
            ev == events_view(events@),
            step == hit_test_stepper(),
            j <= events@.len(),
            fold_events(step, ev, 0, (None, None, None, 0int)) == fold_events(
                step,
                ev,
                j as int,
                (
                    opt_view(item_id),
                    match x_nm {
                        Some(v) => Some(v as int),
                        None => None::<int>,
                    },
                    match y_nm {
                        Some(v) => Some(v as int),
                        None => None::<int>,
                    },
                    tolerance_nm as int,
                ),
            ),
        decreases events@.len() - j,
    {
        let (k, value) = (events[j].0, &events[j].1);
        assert(ev[j as int] == (k as int, value@));
        let ghost before = (
            opt_view(item_id),
            match x_nm {
                Some(v) => Some(v as int),
                None => None::<int>,
            },
            match y_nm {
                Some(v) => Some(v as int),
                None => None::<int>,
            },
            tolerance_nm as int,
        );
        if k == 0 {
            item_id = Some(value.clone());
        } else if k == 1 {
            match parse_i64(value.as_str()) {
                Ok(n) => x_nm = Some(n),
                Err(err) => {
                    assert(step(before, ev[j as int]).is_err());
                    return Err(invalid_value("hit-test --x-nm", value.as_str(), err.as_str()));
                },
            }
        } else if k == 2 {
            match parse_i64(value.as_str()) {
                Ok(n) => y_nm = Some(n),
                Err(err) => {
                    assert(step(before, ev[j as int]).is_err());
                    return Err(invalid_value("hit-test --y-nm", value.as_str(), err.as_str()));
                },
            }
        } else if k == 3 {
            match parse_i32(value.as_str()) {
                Ok(n) => tolerance_nm = n,
                Err(err) => {
                    assert(step(before, ev[j as int]).is_err());
                    return Err(
                        invalid_value("hit-test --tolerance-nm", value.as_str(), err.as_str()),
                    );
                },
            }
        }
        j = j + 1;
    }
    match missing {
        Some(k) => {
            let flag = table[k].0;
            assert(table_view(table@)[k as int].0 == flag@);
            return Err(missing_value("hit-test ", flag));
        },
        None => {},
    }
    let item_id = match item_id {
        Some(v) => v,
        None => return Err(config_error("hit-test requires `--id <uuid>`")),
    };
    let x_nm = match x_nm {
        Some(v) => v,
        None => return Err(config_error("hit-test requires `--x-nm <value>`")),
    };
    let y_nm = match y_nm {
        Some(v) => v,
        None => return Err(config_error("hit-test requires `--y-nm <value>`")),
    };
    Ok(Command::HitTest { item_id, x_nm, y_nm, tolerance_nm })
}

/// The one option `--text <value>`.
pub open spec fn text_table() -> Seq<(Seq<char>, bool)> {
    seq![("--text"@, true)]
}

fn text_options() -> (r: Vec<(&'static str, bool)>)
    ensures
        table_view(r@) == text_table(),
{
    let r = vec![("--text", true)];
    assert(table_view(r@) =~= text_table());
    r
}

/// Collects the values of a single option, in order.
pub open spec fn collect_step(st: Seq<Seq<char>>, e: (int, Seq<char>)) -> Result<
    Seq<Seq<char>>,
    Seq<char>,
> {
    if e.0 == 0 {
        Ok(st.push(e.1))
    } else {
        Ok(st)
    }
}

/// `collect_step` as a function value.
pub open spec fn collect_stepper() -> spec_fn(Seq<Seq<char>>, (int, Seq<char>)) -> Result<
    Seq<Seq<char>>,
    Seq<char>,
> {
    |st: Seq<Seq<char>>, e: (int, Seq<char>)| collect_step(st, e)
}

/// The values of every `--text` after the command, or the message for one
/// that has no value.
pub open spec fn text_list_parse(rest: Seq<Seq<char>>, prefix: Seq<char>) -> Result<
    Seq<Seq<char>>,
    Seq<char>,
> {
    let (events, missing, _) = scan_options(rest, text_table(), 1, Seq::empty(), Seq::empty());
    after_scan(fold_events(collect_stepper(), events, 0, Seq::empty()), missing, text_table(), prefix)
}

/// Collects the values of every `--text` after the command.
#[verifier::loop_isolation(false)]
fn collect_texts(rest: &[String], prefix: &str) -> (r: Result<Vec<String>, KiCadError>)
    ensures
        match text_list_parse(strings_view(rest@), prefix@) {
            Ok(v) => r matches Ok(t) && strings_view(t@) == v,
            Err(m) => r matches Err(KiCadError::Config { reason }) && reason@ == m,
        },
{
    let table = text_options();
    let (events, missing, _) = scan_args(rest, 1, table.as_slice());
    let ghost ev = events_view(events@);
    let ghost step = collect_stepper();
    let mut values: Vec<String> = Vec::new();
    let mut j: usize = 0;
    assert(strings_view(values@) =~= Seq::<Seq<char>>::empty());
    while j < events.len()
        invariant
            ev == events_view(events@),
            step == collect_stepper(),
            j <= events@.len(),
            fold_events(step, ev, 0, Seq::empty()) == fold_events(
                step,
                ev,
                j as int,
                strings_view(values@),
            ),
        decreases events@.len() - j,
    {
        let (k, value) = (events[j].0, &events[j].1);
        assert(ev[j as int] == (k as int, value@));
        let ghost before = strings_view(values@);
        if k == 0 {
            values.push(value.clone());
            assert(strings_view(values@) =~= before.push(value@));
        }
        j = j + 1;
    }
    match missing {
        Some(k) => {
            let flag = table[k].0;
            assert(table_view(table@)[k as int].0 == flag@);
            return Err(missing_value(prefix, flag));
        },
        None => {},
    }
    Ok(values)
}

/// `expand-text-variables`: one or more texts.
pub open spec fn expand_text_variables_parse(rest: Seq<Seq<char>>) -> Result<CommandView, Seq<char>> {
    match text_list_parse(rest, "expand-text-variables "@) {
        Err(e) => Err(e),
        Ok(t) => if t.len() == 0 {
            Err("expand-text-variables requires one or more `--text <value>` arguments"@)
        } else {
            Ok(CommandView::ExpandTextVariables(t))
        },
    }
}

fn parse_expand_text_variables(rest: &[String]) -> (r: Result<Command, KiCadError>)
    ensures
        command_result_matches(r, expand_text_variables_parse(strings_view(rest@))),
{
    let text = collect_texts(rest, "expand-text-variables ")?;
    if text.len() == 0 {
        return Err(
            config_error("expand-text-variables requires one or more `--text <value>` arguments"),
        );
    }
    Ok(Command::ExpandTextVariables { text })
}

/// `text-as-shapes`: one or more texts.
pub open spec fn text_as_shapes_parse(rest: Seq<Seq<char>>) -> Result<CommandView, Seq<char>> {
    match text_list_parse(rest, "text-as-shapes "@) {
        Err(e) => Err(e),
        Ok(t) => if t.len() == 0 {
            Err("text-as-shapes requires one or more `--text <value>` arguments"@)
        } else {
            Ok(CommandView::TextAsShapes(t))
        },
    }
}

fn parse_text_as_shapes(rest: &[String]) -> (r: Result<Command, KiCadError>)
    ensures
        command_result_matches(r, text_as_shapes_parse(strings_view(rest@))),
{
    let text = collect_texts(rest, "text-as-shapes ")?;
    if text.len() == 0 {
        return Err(config_error("text-as-shapes requires one or more `--text <value>` arguments"));
    }
    Ok(Command::TextAsShapes { text })
}

/// `text-extents`: the last `--text` value, which must be given.
pub open spec fn text_extents_parse(rest: Seq<Seq<char>>) -> Result<CommandView, Seq<char>> {
    match text_list_parse(rest, "text-extents "@) {
        Err(e) => Err(e),
        Ok(t) => if t.len() == 0 {
            Err("text-extents requires `--text <value>`"@)
        } else {
            Ok(CommandView::TextExtents(t.last()))
        },
    }
}

fn parse_text_extents(rest: &[String]) -> (r: Result<Command, KiCadError>)
    ensures
        command_result_matches(r, text_extents_parse(strings_view(rest@))),
{
    let mut text = collect_texts(rest, "text-extents ")?;
    match text.pop() {
        Some(t) => Ok(Command::TextExtents { text: t }),
        None => Err(config_error("text-extents requires `--text <value>`")),
    }
}

/// The one option `--type <name>`.
pub open spec fn type_table() -> Seq<(Seq<char>, bool)> {
    seq![("--type"@, true)]
}

fn type_options() -> (r: Vec<(&'static str, bool)>)
    ensures
        table_view(r@) == type_table(),
{
    let r = vec![("--type", true)];
    assert(table_view(r@) =~= type_table());
    r
}

/// What one `--type` of `board-origin` does: the named origin kind, or the
/// message that rejects the name.
pub open spec fn origin_step(st: BoardOriginKind, e: (int, Seq<char>)) -> Result<
    BoardOriginKind,
    Seq<char>,
> {
    if e.0 == 0 {
        match board_origin_kind_from_name(e.1) {
            Some(k) => Ok(k),
            None => Err(board_origin_kind_error(e.1)),
        }
    } else {
        Ok(st)
    }
}

/// `origin_step` as a function value.
pub open spec fn origin_stepper() -> spec_fn(BoardOriginKind, (int, Seq<char>)) -> Result<
    BoardOriginKind,
    Seq<char>,
> {
    |st: BoardOriginKind, e: (int, Seq<char>)| origin_step(st, e)
}

/// `board-origin`: the grid origin unless `--type` names another.
pub open spec fn board_origin_parse(rest: Seq<Seq<char>>) -> Result<CommandView, Seq<char>> {
    let (events, missing, _) = scan_options(rest, type_table(), 1, Seq::empty(), Seq::empty());
    match after_scan(
        fold_events(origin_stepper(), events, 0, BoardOriginKind::Grid),
        missing,
        type_table(),
        "board-origin "@,
    ) {
        Err(e) => Err(e),
        Ok(k) => Ok(CommandView::BoardOrigin(k)),
    }
}

#[verifier::loop_isolation(false)]
fn parse_board_origin(rest: &[String]) -> (r: Result<Command, KiCadError>)
    ensures
        command_result_matches(r, board_origin_parse(strings_view(rest@))),
{
    let table = type_options();
    let (events, missing, _) = scan_args(rest, 1, table.as_slice());
    let ghost ev = events_view(events@);
    let ghost step = origin_stepper();
    let mut kind = BoardOriginKind::Grid;
    let mut j: usize = 0;
    while j < events.len()
        invariant
            ev == events_view(events@),
            step == origin_stepper(),
            j <= events@.len(),
            fold_events(step, ev, 0, BoardOriginKind::Grid) == fold_events(step, ev, j as int, kind),
        decreases events@.len() - j,
    {
        let (k, value) = (events[j].0, &events[j].1);
        assert(ev[j as int] == (k as int, value@));
        let ghost before = kind;
        if k == 0 {
            match BoardOriginKind::from_str(value.as_str()) {
                Ok(parsed) => kind = parsed,
                Err(err) => {
                    assert(step(before, ev[j as int]).is_err());
                    return Err(KiCadError::Config { reason: err });
                },
            }
        }
        j = j + 1;
    }
    match missing {
        Some(k) => {
            let flag = table[k].0;
            assert(table_view(table@)[k as int].0 == flag@);
            return Err(missing_value("board-origin ", flag));
        },
        None => {},
    }
    Ok(Command::BoardOrigin { kind })
}

/// What one `--type` of `open-docs` does: the named document type, or the
/// message that rejects the name.
pub open spec fn doc_type_step(st: DocumentType, e: (int, Seq<char>)) -> Result<
    DocumentType,
    Seq<char>,
> {
    if e.0 == 0 {
        match document_type_from_name(e.1) {
            Some(t) => Ok(t),
            None => Err(document_type_error(e.1)),
        }
    } else {
        Ok(st)
    }
}

/// `doc_type_step` as a function value.
pub open spec fn doc_type_stepper() -> spec_fn(DocumentType, (int, Seq<char>)) -> Result<
    DocumentType,
    Seq<char>,
> {
    |st: DocumentType, e: (int, Seq<char>)| doc_type_step(st, e)
}

/// `open-docs`: PCB documents unless `--type` names another type.
pub open spec fn open_docs_parse(rest: Seq<Seq<char>>) -> Result<CommandView, Seq<char>> {
    let (events, missing, _) = scan_options(rest, type_table(), 1, Seq::empty(), Seq::empty());
    match after_scan(
        fold_events(doc_type_stepper(), events, 0, DocumentType::Pcb),
        missing,
        type_table(),
        "open-docs "@,
    ) {
        Err(e) => Err(e),
        Ok(t) => Ok(CommandView::OpenDocs(t)),
    }
}

#[verifier::loop_isolation(false)]
fn parse_open_docs(rest: &[String]) -> (r: Result<Command, KiCadError>)
    ensures
        command_result_matches(r, open_docs_parse(strings_view(rest@))),
{
    let table = type_options();
    let (events, missing, _) = scan_args(rest, 1, table.as_slice());
    let ghost ev = events_view(events@);
    let ghost step = doc_type_stepper();
    let mut document_type = DocumentType::Pcb;
    let mut j: usize = 0;
    while j < events.len()
        invariant
            ev == events_view(events@),
            step == doc_type_stepper(),
            j <= events@.len(),
            fold_events(step, ev, 0, DocumentType::Pcb) == fold_events(
                step,
                ev,
                j as int,
                document_type,
            ),
        decreases events@.len() - j,
    {
        let (k, value) = (events[j].0, &events[j].1);
        assert(ev[j as int] == (k as int, value@));
        let ghost before = document_type;
        if k == 0 {
            match DocumentType::from_str(value.as_str()) {
                Ok(parsed) => document_type = parsed,
                Err(err) => {
                    assert(step(before, ev[j as int]).is_err());
                    return Err(KiCadError::Config { reason: err });
                },
            }
        }
        j = j + 1;
    }
    match missing {
        Some(k) => {
            let flag = table[k].0;
            assert(table_view(table@)[k as int].0 == flag@);
            return Err(missing_value("open-docs ", flag));
        },
        None => {},
    }
    Ok(Command::OpenDocs { document_type })
}

/// The one option `--out <path>`.
pub open spec fn out_table() -> Seq<(Seq<char>, bool)> {
    seq![("--out"@, true)]
}

fn out_options() -> (r: Vec<(&'static str, bool)>)
    ensures
        table_view(r@) == out_table(),
{
    let r = vec![("--out", true)];
    assert(table_view(r@) =~= out_table());
    r
}

/// `board-read-report`: the last `--out` path, else `docs/BOARD_READ_REPORT.md`.
pub open spec fn board_read_report_parse(rest: Seq<Seq<char>>) -> Result<CommandView, Seq<char>> {
    let (events, missing, _) = scan_options(rest, out_table(), 1, Seq::empty(), Seq::empty());
    match after_scan(
        fold_events(collect_stepper(), events, 0, Seq::empty()),
        missing,
        out_table(),
        "board-read-report "@,
    ) {
        Err(e) => Err(e),
        Ok(t) => Ok(
            CommandView::BoardReadReport(
                if t.len() == 0 {
                    "docs/BOARD_READ_REPORT.md"@
                } else {
                    t.last()
                },
            ),
        ),
    }
}

#[verifier::loop_isolation(false)]
fn parse_board_read_report(rest: &[String]) -> (r: Result<Command, KiCadError>)
    ensures
        command_result_matches(r, board_read_report_parse(strings_view(rest@))),
{
    let table = out_options();
    let (events, missing, _) = scan_args(rest, 1, table.as_slice());
    let ghost ev = events_view(events@);
    let ghost step = collect_stepper();
    let mut values: Vec<String> = Vec::new();
    let mut j: usize = 0;
    assert(strings_view(values@) =~= Seq::<Seq<char>>::empty());
    while j < events.len()
        invariant
            ev == events_view(events@),
            step == collect_stepper(),
            j <= events@.len(),
            fold_events(step, ev, 0, Seq::empty()) == fold_events(
                step,
                ev,
                j as int,
                strings_view(values@),
            ),
        decreases events@.len() - j,
    {
        let (k, value) = (events[j].0, &events[j].1);
        assert(ev[j as int] == (k as int, value@));
        let ghost before = strings_view(values@);
        if k == 0 {
            values.push(value.clone());
            assert(strings_view(values@) =~= before.push(value@));
        }
        j = j + 1;
    }
    match missing {
        Some(k) => {
            let flag = table[k].0;
            assert(table_view(table@)[k as int].0 == flag@);
            return Err(missing_value("board-read-report ", flag));
        },
        None => {},
    }
    let output = match values.pop() {
        Some(v) => v,
        None => String::from_str("docs/BOARD_READ_REPORT.md"),
    };
    Ok(Command::BoardReadReport { output })
}

/// The options of `item-bbox`.
pub open spec fn item_bbox_table() -> Seq<(Seq<char>, bool)> {
    seq![("--id"@, true), ("--include-text"@, false)]
}

fn item_bbox_options() -> (r: Vec<(&'static str, bool)>)
    ensures
        table_view(r@) == item_bbox_table(),
{
    let r = vec![("--id", true), ("--include-text", false)];
    assert(table_view(r@) =~= item_bbox_table());
    r
}

/// What one option of `item-bbox` does: collect an id, or ask for child texts.
pub open spec fn item_bbox_step(st: (Seq<Seq<char>>, bool), e: (int, Seq<char>)) -> Result<
    (Seq<Seq<char>>, bool),
    Seq<char>,
> {
    if e.0 == 0 {
        Ok((st.0.push(e.1), st.1))
    } else if e.0 == 1 {
        Ok((st.0, true))
    } else {
        Ok(st)
    }
}

/// `item_bbox_step` as a function value.
pub open spec fn item_bbox_stepper() -> spec_fn((Seq<Seq<char>>, bool), (int, Seq<char>)) -> Result<
    (Seq<Seq<char>>, bool),
    Seq<char>,
> {
    |st: (Seq<Seq<char>>, bool), e: (int, Seq<char>)| item_bbox_step(st, e)
}

/// `item-bbox`: one or more ids, and whether child texts count.
pub open spec fn item_bbox_parse(rest: Seq<Seq<char>>) -> Result<CommandView, Seq<char>> {
    let (events, missing, _) = scan_options(rest, item_bbox_table(), 1, Seq::empty(), Seq::empty());
    match after_scan(
        fold_events(item_bbox_stepper(), events, 0, (Seq::empty(), false)),
        missing,
        item_bbox_table(),
        "item-bbox "@,
    ) {
        Err(e) => Err(e),
        Ok((ids, with_text)) => if ids.len() == 0 {
            Err("item-bbox requires one or more `--id <uuid>` arguments"@)
        } else {
            Ok(CommandView::ItemBBox(ids, with_text))
        },
    }
}

#[verifier::loop_isolation(false)]
fn parse_item_bbox(rest: &[String]) -> (r: Result<Command, KiCadError>)
    ensures
        command_result_matches(r, item_bbox_parse(strings_view(rest@))),
{
    let table = item_bbox_options();
    let (events, missing, _) = scan_args(rest, 1, table.as_slice());
    let ghost ev = events_view(events@);
    let ghost step = item_bbox_stepper();
    let mut item_ids: Vec<String> = Vec::new();
    let mut include_child_text = false;
    let mut j: usize = 0;
    assert(strings_view(item_ids@) =~= Seq::<Seq<char>>::empty());
    while j < events.len()
        invariant
            ev == events_view(events@),
            step == item_bbox_stepper(),
            j <= events@.len(),
            fold_events(step, ev, 0, (Seq::empty(), false)) == fold_events(
                step,
                ev,
                j as int,
                (strings_view(item_ids@), include_child_text),
            ),
        decreases events@.len() - j,
    {
        let (k, value) = (events[j].0, &events[j].1);
        assert(ev[j as int] == (k as int, value@));
        let ghost before = strings_view(item_ids@);
        if k == 0 {
            item_ids.push(value.clone());
            assert(strings_view(item_ids@) =~= before.push(value@));
        } else if k == 1 {
            include_child_text = true;
        }
        j = j + 1;
    }
    match missing {
        Some(k) => {
            let flag = table[k].0;
            assert(table_view(table@)[k as int].0 == flag@);
            return Err(missing_value("item-bbox ", flag));
        },
        None => {},
    }
    if item_ids.len() == 0 {
        return Err(config_error("item-bbox requires one or more `--id <uuid>` arguments"));
    }
    Ok(Command::ItemBBox { item_ids, include_child_text })
}

/// The options of `items-raw`.
pub open spec fn items_raw_table() -> Seq<(Seq<char>, bool)> {
    seq![("--type-id"@, true), ("--debug"@, false)]
}

fn items_raw_options() -> (r: Vec<(&'static str, bool)>)
    ensures
        table_view(r@) == items_raw_table(),
{
    let r = vec![("--type-id", true), ("--debug", false)];
    assert(table_view(r@) =~= items_raw_table());
    r
}

/// What one option of `items-raw` does: collect a type code, or ask for
/// debug output.
pub open spec fn items_raw_step(st: (Seq<int>, bool), e: (int, Seq<char>)) -> Result<
    (Seq<int>, bool),
    Seq<char>,
> {
    if e.0 == 0 {
        match int_in(e.1, true, i32::MIN as int, i32::MAX as int) {
            Some(n) => Ok((st.0.push(n), st.1)),
            None => Err(invalid_value_text("items-raw --type-id"@, e.1, i32_parse_error_text(e.1))),
        }
    } else if e.0 == 1 {
        Ok((st.0, true))
    } else {
        Ok(st)
    }
}

/// `items_raw_step` as a function value.
pub open spec fn items_raw_stepper() -> spec_fn((Seq<int>, bool), (int, Seq<char>)) -> Result<
    (Seq<int>, bool),
    Seq<char>,
> {
    |st: (Seq<int>, bool), e: (int, Seq<char>)| items_raw_step(st, e)
}

/// `items-raw`: one or more type codes, and whether to dump debug output.
pub open spec fn items_raw_parse(rest: Seq<Seq<char>>) -> Result<CommandView, Seq<char>> {
    let (events, missing, _) = scan_options(rest, items_raw_table(), 1, Seq::empty(), Seq::empty());
    match after_scan(
        fold_events(items_raw_stepper(), events, 0, (Seq::empty(), false)),
        missing,
        items_raw_table(),
        "items-raw "@,
    ) {
        Err(e) => Err(e),
        Ok((codes, debug)) => if codes.len() == 0 {
            Err("items-raw requires one or more `--type-id <i32>` arguments"@)
        } else {
            Ok(CommandView::ItemsRaw(codes, debug))
        },
    }
}

#[verifier::loop_isolation(false)]
fn parse_items_raw(rest: &[String]) -> (r: Result<Command, KiCadError>)
    ensures
        command_result_matches(r, items_raw_parse(strings_view(rest@))),
{
    let table = items_raw_options();
    let (events, missing, _) = scan_args(rest, 1, table.as_slice());
    let ghost ev = events_view(events@);
    let ghost step = items_raw_stepper();
    let mut type_codes: Vec<i32> = Vec::new();
    let mut include_debug = false;
    let mut j: usize = 0;
    assert(ints_view(type_codes@) =~= Seq::<int>::empty());
    while j < events.len()
        invariant
            ev == events_view(events@),
            step == items_raw_stepper(),
            j <= events@.len(),
            fold_events(step, ev, 0, (Seq::empty(), false)) == fold_events(
                step,
                ev,
                j as int,
                (ints_view(type_codes@), include_debug),
            ),
        decreases events@.len() - j,
    {
        let (k, value) = (events[j].0, &events[j].1);
        assert(ev[j as int] == (k as int, value@));
        let ghost before = (ints_view(type_codes@), include_debug);
        if k == 0 {
            match parse_i32(value.as_str()) {
                Ok(n) => {
                    type_codes.push(n);
                    assert(ints_view(type_codes@) =~= before.0.push(n as int));
                },
                Err(err) => {
                    assert(step(before, ev[j as int]).is_err());
                    return Err(invalid_value("items-raw --type-id", value.as_str(), err.as_str()));
                },
            }
        } else if k == 1 {
            include_debug = true;
        }
        j = j + 1;
    }
    match missing {
        Some(k) => {
            let flag = table[k].0;
            assert(table_view(table@)[k as int].0 == flag@);
            return Err(missing_value("items-raw ", flag));
        },
        None => {},
    }
    if type_codes.len() == 0 {
        return Err(config_error("items-raw requires one or more `--type-id <i32>` arguments"));
    }
    Ok(Command::ItemsRaw { type_codes, include_debug })
}

/// The options of `pad-shape-polygon`.
pub open spec fn pad_shape_table() -> Seq<(Seq<char>, bool)> {
    seq![("--pad-id"@, true), ("--layer-id"@, true), ("--debug"@, false)]
}

fn pad_shape_options() -> (r: Vec<(&'static str, bool)>)
    ensures
        table_view(r@) == pad_shape_table(),
{
    let r = vec![("--pad-id", true), ("--layer-id", true), ("--debug", false)];
    assert(table_view(r@) =~= pad_shape_table());
    r
}

/// What one option of `pad-shape-polygon` does: collect a pad id, set the
/// layer (the last one wins), or ask for debug output.
pub open spec fn pad_shape_step(st: (Seq<Seq<char>>, Option<int>, bool), e: (int, Seq<char>)) -> Result<
    (Seq<Seq<char>>, Option<int>, bool),
    Seq<char>,
> {
    if e.0 == 0 {
        Ok((st.0.push(e.1), st.1, st.2))
    } else if e.0 == 1 {
        match int_in(e.1, true, i32::MIN as int, i32::MAX as int) {
            Some(n) => Ok((st.0, Some(n), st.2)),
            None => Err(
                invalid_value_text("pad-shape-polygon --layer-id"@, e.1, i32_parse_error_text(e.1)),
            ),
        }
    } else if e.0 == 2 {
        Ok((st.0, st.1, true))
    } else {
        Ok(st)
    }
}

/// `pad_shape_step` as a function value.
pub open spec fn pad_shape_stepper() -> spec_fn(
    (Seq<Seq<char>>, Option<int>, bool),
    (int, Seq<char>),
) -> Result<(Seq<Seq<char>>, Option<int>, bool), Seq<char>> {
    |st: (Seq<Seq<char>>, Option<int>, bool), e: (int, Seq<char>)| pad_shape_step(st, e)
}

/// `pad-shape-polygon`: one or more pad ids and a layer.
pub open spec fn pad_shape_parse(rest: Seq<Seq<char>>) -> Result<CommandView, Seq<char>> {
    let (events, missing, _) = scan_options(rest, pad_shape_table(), 1, Seq::empty(), Seq::empty());
    match after_scan(
        fold_events(pad_shape_stepper(), events, 0, (Seq::empty(), None, false)),
        missing,
        pad_shape_table(),
        "pad-shape-polygon "@,
    ) {
        Err(e) => Err(e),
        Ok((ids, layer, debug)) => if ids.len() == 0 {
            Err("pad-shape-polygon requires one or more `--pad-id <uuid>` arguments"@)
        } else {
            match layer {
                None => Err("pad-shape-polygon requires `--layer-id <i32>`"@),
                Some(l) => Ok(CommandView::PadShapePolygon(ids, l, debug)),
            }
        },
    }
}

#[verifier::loop_isolation(false)]
fn parse_pad_shape_polygon(rest: &[String]) -> (r: Result<Command, KiCadError>)
    ensures
        command_result_matches(r, pad_shape_parse(strings_view(rest@))),
{
    let table = pad_shape_options();
    let (events, missing, _) = scan_args(rest, 1, table.as_slice());
    let ghost ev = events_view(events@);
    let ghost step = pad_shape_stepper();
    let mut pad_ids: Vec<String> = Vec::new();
    let mut layer_id: Option<i32> = None;
    let mut include_debug = false;
    let mut j: usize = 0;
    assert(strings_view(pad_ids@) =~= Seq::<Seq<char>>::empty());
    while j < events.len()
        invariant
            ev == events_view(events@),
            step == pad_shape_stepper(),
            j <= events@.len(),
            fold_events(step, ev, 0, (Seq::empty(), None, false)) == fold_events(
                step,
                ev,
                j as int,
                (
                    strings_view(pad_ids@),
                    match layer_id {
                        Some(l) => Some(l as int),
                        None => None::<int>,
                    },
                    include_debug,
                ),
            ),
        decreases events@.len() - j,
    {
        let (k, value) = (events[j].0, &events[j].1);
        assert(ev[j as int] == (k as int, value@));
        let ghost before = (
            strings_view(pad_ids@),
            match layer_id {
                Some(l) => Some(l as int),
                None => None::<int>,
            },
            include_debug,
        );
        if k == 0 {
            pad_ids.push(value.clone());
            assert(strings_view(pad_ids@) =~= before.0.push(value@));
        } else if k == 1 {
            match parse_i32(value.as_str()) {
                Ok(n) => layer_id = Some(n),
                Err(err) => {
                    assert(step(before, ev[j as int]).is_err());
                    return Err(
                        invalid_value("pad-shape-polygon --layer-id", value.as_str(), err.as_str()),
                    );
                },
            }
        } else if k == 2 {
            include_debug = true;
        }
        j = j + 1;
    }
    match missing {
        Some(k) => {
            let flag = table[k].0;
            assert(table_view(table@)[k as int].0 == flag@);
            return Err(missing_value("pad-shape-polygon ", flag));
        },
        None => {},
    }
    if pad_ids.len() == 0 {
        return Err(
            config_error("pad-shape-polygon requires one or more `--pad-id <uuid>` arguments"),
        );
    }
    let layer_id = match layer_id {
        Some(l) => l,
        None => return Err(config_error("pad-shape-polygon requires `--layer-id <i32>`")),
    };
    Ok(Command::PadShapePolygon { pad_ids, layer_id, include_debug })
}

/// The options of `padstack-presence`.
pub open spec fn presence_table() -> Seq<(Seq<char>, bool)> {
    seq![("--item-id"@, true), ("--layer-id"@, true), ("--debug"@, false)]
}

fn presence_options() -> (r: Vec<(&'static str, bool)>)
    ensures
        table_view(r@) == presence_table(),
{
    let r = vec![("--item-id", true), ("--layer-id", true), ("--debug", false)];
    assert(table_view(r@) =~= presence_table());
    r
}

/// What one option of `padstack-presence` does: collect an item id or a
/// layer, or ask for debug output.
pub open spec fn presence_step(st: (Seq<Seq<char>>, Seq<int>, bool), e: (int, Seq<char>)) -> Result<
    (Seq<Seq<char>>, Seq<int>, bool),
    Seq<char>,
> {
    if e.0 == 0 {
        Ok((st.0.push(e.1), st.1, st.2))
    } else if e.0 == 1 {
        match int_in(e.1, true, i32::MIN as int, i32::MAX as int) {
            Some(n) => Ok((st.0, st.1.push(n), st.2)),
            None => Err(
                invalid_value_text("padstack-presence --layer-id"@, e.1, i32_parse_error_text(e.1)),
            ),
        }
    } else if e.0 == 2 {
        Ok((st.0, st.1, true))
    } else {
        Ok(st)
    }
}

/// `presence_step` as a function value.
pub open spec fn presence_stepper() -> spec_fn(
    (Seq<Seq<char>>, Seq<int>, bool),
    (int, Seq<char>),
) -> Result<(Seq<Seq<char>>, Seq<int>, bool), Seq<char>> {
    |st: (Seq<Seq<char>>, Seq<int>, bool), e: (int, Seq<char>)| presence_step(st, e)
}

/// `padstack-presence`: one or more item ids and one or more layers.
pub open spec fn presence_parse(rest: Seq<Seq<char>>) -> Result<CommandView, Seq<char>> {
    let (events, missing, _) = scan_options(rest, presence_table(), 1, Seq::empty(), Seq::empty());
    match after_scan(
        fold_events(presence_stepper(), events, 0, (Seq::empty(), Seq::empty(), false)),
        missing,
        presence_table(),
        "padstack-presence "@,
    ) {
        Err(e) => Err(e),
        Ok((ids, layers, debug)) => if ids.len() == 0 {
            Err("padstack-presence requires one or more `--item-id <uuid>` arguments"@)
        } else if layers.len() == 0 {
            Err("padstack-presence requires one or more `--layer-id <i32>` arguments"@)
        } else {
            Ok(CommandView::PadstackPresence(ids, layers, debug))
        },
    }
}

#[verifier::loop_isolation(false)]
fn parse_padstack_presence(rest: &[String]) -> (r: Result<Command, KiCadError>)
    ensures
        command_result_matches(r, presence_parse(strings_view(rest@))),
{
    let table = presence_options();
    let (events, missing, _) = scan_args(rest, 1, table.as_slice());
    let ghost ev = events_view(events@);
    let ghost step = presence_stepper();
    let mut item_ids: Vec<String> = Vec::new();
    let mut layer_ids: Vec<i32> = Vec::new();
    let mut include_debug = false;
    let mut j: usize = 0;
    assert(strings_view(item_ids@) =~= Seq::<Seq<char>>::empty());
    assert(ints_view(layer_ids@) =~= Seq::<int>::empty());
    while j < events.len()
        invariant
            ev == events_view(events@),
            step == presence_stepper(),
            j <= events@.len(),
            fold_events(step, ev, 0, (Seq::empty(), Seq::empty(), false)) == fold_events(
                step,
                ev,
                j as int,
                (strings_view(item_ids@), ints_view(layer_ids@), include_debug),
            ),
        decreases events@.len() - j,
    {
        let (k, value) = (events[j].0, &events[j].1);
        assert(ev[j as int] == (k as int, value@));
        let ghost before = (strings_view(item_ids@), ints_view(layer_ids@), include_debug);
        if k == 0 {
            item_ids.push(value.clone());
            assert(strings_view(item_ids@) =~= before.0.push(value@));
        } else if k == 1 {
            match parse_i32(value.as_str()) {
                Ok(n) => {
                    layer_ids.push(n);
                    assert(ints_view(layer_ids@) =~= before.1.push(n as int));
                },
                Err(err) => {
                    assert(step(before, ev[j as int]).is_err());
                    return Err(
                        invalid_value("padstack-presence --layer-id", value.as_str(), err.as_str()),
                    );
                },
            }
        } else if k == 2 {
            include_debug = true;
        }
        j = j + 1;
    }
    match missing {
        Some(k) => {
            let flag = table[k].0;
            assert(table_view(table@)[k as int].0 == flag@);
            return Err(missing_value("padstack-presence ", flag));
        },
        None => {},
    }
    if item_ids.len() == 0 {
        return Err(
            config_error("padstack-presence requires one or more `--item-id <uuid>` arguments"),
        );
    }
    if layer_ids.len() == 0 {
        return Err(
            config_error("padstack-presence requires one or more `--layer-id <i32>` arguments"),
        );
    }
    Ok(Command::PadstackPresence { item_ids, layer_ids, include_debug })
}

/// `items-by-id`: the values of every `--id`, of which there must be one.
pub open spec fn items_by_id_parse(rest: Seq<Seq<char>>) -> Result<CommandView, Seq<char>> {
    match scan_option_values(rest.drop_first(), "--id"@, 0) {
        None => Err("missing value for "@ + "items-by-id"@ + " --id"@),
        Some(ids) => if ids.len() == 0 {
            Err("items-by-id"@ + " requires one or more `--id <uuid>` arguments"@)
        } else {
            Ok(CommandView::ItemsById(ids))
        },
    }
}

fn parse_items_by_id(rest: &[String]) -> (r: Result<Command, KiCadError>)
    requires
        rest@.len() > 0,
    ensures
        command_result_matches(r, items_by_id_parse(strings_view(rest@))),
{
    let sub = slice_subrange(rest, 1, rest.len());
    assert(strings_view(sub@) =~= strings_view(rest@).drop_first());
    let item_ids = parse_item_ids(sub, "items-by-id")?;
    Ok(Command::ItemsById { item_ids })
}

/// `items-raw-all-pcb`: whether `--debug` is among the arguments.
pub open spec fn items_raw_all_pcb_parse(rest: Seq<Seq<char>>) -> Result<CommandView, Seq<char>> {
    Ok(CommandView::ItemsRawAllPcb(rest.contains("--debug"@)))
}

fn parse_items_raw_all_pcb(rest: &[String]) -> (r: Result<Command, KiCadError>)
    ensures
        command_result_matches(r, items_raw_all_pcb_parse(strings_view(rest@))),
{
    let ghost a = strings_view(rest@);
    let mut include_debug = false;
    let mut i: usize = 0;
    while i < rest.len()
        invariant
            a == strings_view(rest@),
            i <= rest@.len(),
            include_debug == a.subrange(0, i as int).contains("--debug"@),
        decreases rest@.len() - i,
    {
        let ghost pre = a.subrange(0, i as int);
        if str_eq(rest[i].as_str(), "--debug") {
            include_debug = true;
        }
        i = i + 1;
        proof {
            let cur = a.subrange(0, i as int);
            assert(cur =~= pre.push(a[i - 1]));
            if include_debug {
                if pre.contains("--debug"@) {
                    let w = choose|w: int| 0 <= w < pre.len() && pre[w] == "--debug"@;
                    assert(cur[w] == "--debug"@);
                } else {
                    assert(cur[i - 1] == "--debug"@);
                }
            } else {
                assert forall|w: int| 0 <= w < cur.len() implies cur[w] != "--debug"@ by {
                    if w < i - 1 {
                        assert(cur[w] == pre[w]);
                    }
                }
            }
        }
    }
    assert(a.subrange(0, a.len() as int) =~= a);
    Ok(Command::ItemsRawAllPcb { include_debug })
}

/// A command and its options, from the arguments left after the global
/// options; the first of them names the command.
pub open spec fn command_parse(rest: Seq<Seq<char>>) -> Result<CommandView, Seq<char>> {
    let name = rest[0];
    if name == "help"@ || name == "--help"@ || name == "-h"@ {
        Ok(CommandView::Help)
    } else if name == "ping"@ {
        Ok(CommandView::Ping)
    } else if name == "version"@ {
        Ok(CommandView::Version)
    } else if name == "project-path"@ {
        Ok(CommandView::ProjectPath)
    } else if name == "board-open"@ {
        Ok(CommandView::BoardOpen)
    } else if name == "net-classes"@ {
        Ok(CommandView::NetClasses)
    } else if name == "text-variables"@ {
        Ok(CommandView::TextVariables)
    } else if name == "expand-text-variables"@ {
        expand_text_variables_parse(rest)
    } else if name == "text-extents"@ {
        text_extents_parse(rest)
    } else if name == "text-as-shapes"@ {
        text_as_shapes_parse(rest)
    } else if name == "nets"@ {
        Ok(CommandView::Nets)
    } else if name == "enabled-layers"@ {
        Ok(CommandView::EnabledLayers)
    } else if name == "active-layer"@ {
        Ok(CommandView::ActiveLayer)
    } else if name == "visible-layers"@ {
        Ok(CommandView::VisibleLayers)
    } else if name == "board-origin"@ {
        board_origin_parse(rest)
    } else if name == "selection-summary"@ {
        Ok(CommandView::SelectionSummary)
    } else if name == "selection-details"@ {
        Ok(CommandView::SelectionDetails)
    } else if name == "selection-raw"@ {
        Ok(CommandView::SelectionRaw)
    } else if name == "netlist-pads"@ {
        Ok(CommandView::NetlistPads)
    } else if name == "items-by-id"@ {
        items_by_id_parse(rest)
    } else if name == "item-bbox"@ {
        item_bbox_parse(rest)
    } else if name == "hit-test"@ {
        hit_test_parse(rest)
    } else if name == "types-pcb"@ {
        Ok(CommandView::PcbTypes)
    } else if name == "items-raw"@ {
        items_raw_parse(rest)
    } else if name == "items-raw-all-pcb"@ {
        items_raw_all_pcb_parse(rest)
    } else if name == "pad-shape-polygon"@ {
        pad_shape_parse(rest)
    } else if name == "padstack-presence"@ {
        presence_parse(rest)
    } else if name == "title-block"@ {
        Ok(CommandView::TitleBlock)
    } else if name == "board-as-string"@ {
        Ok(CommandView::BoardAsString)
    } else if name == "selection-as-string"@ {
        Ok(CommandView::SelectionAsString)
    } else if name == "stackup"@ {
        Ok(CommandView::Stackup)
    } else if name == "graphics-defaults"@ {
        Ok(CommandView::GraphicsDefaults)
    } else if name == "appearance"@ {
        Ok(CommandView::Appearance)
    } else if name == "netclass"@ {
        Ok(CommandView::NetClass)
    } else if name == "proto-coverage-board-read"@ {
        Ok(CommandView::ProtoCoverageBoardRead)
    } else if name == "board-read-report"@ {
        board_read_report_parse(rest)
    } else if name == "smoke"@ {
        Ok(CommandView::Smoke)
    } else if name == "open-docs"@ {
        open_docs_parse(rest)
    } else {
        Err("unknown command `"@ + name + "`"@)
    }
}

/// Each command without options is read from its own name, whatever
/// follows the name: `nets` is the net listing, `net-classes` the net
/// classes, and so on for every such command.
pub proof fn lemma_command_names(rest: Seq<Seq<char>>)
    requires
        rest.len() > 0,
    ensures
        rest[0] == "help"@ ==> command_parse(rest) == Ok::<CommandView, Seq<char>>(CommandView::Help),
        rest[0] == "ping"@ ==> command_parse(rest) == Ok::<CommandView, Seq<char>>(CommandView::Ping),
        rest[0] == "version"@ ==> command_parse(rest) == Ok::<CommandView, Seq<char>>(CommandView::Version),
        rest[0] == "project-path"@ ==> command_parse(rest) == Ok::<CommandView, Seq<char>>(CommandView::ProjectPath),
        rest[0] == "board-open"@ ==> command_parse(rest) == Ok::<CommandView, Seq<char>>(CommandView::BoardOpen),
        rest[0] == "net-classes"@ ==> command_parse(rest) == Ok::<CommandView, Seq<char>>(CommandView::NetClasses),
        rest[0] == "text-variables"@ ==> command_parse(rest) == Ok::<CommandView, Seq<char>>(CommandView::TextVariables),
        rest[0] == "nets"@ ==> command_parse(rest) == Ok::<CommandView, Seq<char>>(CommandView::Nets),
        rest[0] == "enabled-layers"@ ==> command_parse(rest) == Ok::<CommandView, Seq<char>>(CommandView::EnabledLayers),
        rest[0] == "active-layer"@ ==> command_parse(rest) == Ok::<CommandView, Seq<char>>(CommandView::ActiveLayer),
        rest[0] == "visible-layers"@ ==> command_parse(rest) == Ok::<CommandView, Seq<char>>(CommandView::VisibleLayers),
        rest[0] == "selection-summary"@ ==> command_parse(rest) == Ok::<CommandView, Seq<char>>(CommandView::SelectionSummary),
        rest[0] == "selection-details"@ ==> command_parse(rest) == Ok::<CommandView, Seq<char>>(CommandView::SelectionDetails),
        rest[0] == "selection-raw"@ ==> command_parse(rest) == Ok::<CommandView, Seq<char>>(CommandView::SelectionRaw),
        rest[0] == "netlist-pads"@ ==> command_parse(rest) == Ok::<CommandView, Seq<char>>(CommandView::NetlistPads),
        rest[0] == "types-pcb"@ ==> command_parse(rest) == Ok::<CommandView, Seq<char>>(CommandView::PcbTypes),
        rest[0] == "title-block"@ ==> command_parse(rest) == Ok::<CommandView, Seq<char>>(CommandView::TitleBlock),
        rest[0] == "board-as-string"@ ==> command_parse(rest) == Ok::<CommandView, Seq<char>>(CommandView::BoardAsString),
        rest[0] == "selection-as-string"@ ==> command_parse(rest) == Ok::<CommandView, Seq<char>>(CommandView::SelectionAsString),
        rest[0] == "stackup"@ ==> command_parse(rest) == Ok::<CommandView, Seq<char>>(CommandView::Stackup),
        rest[0] == "graphics-defaults"@ ==> command_parse(rest) == Ok::<CommandView, Seq<char>>(CommandView::GraphicsDefaults),
        rest[0] == "appearance"@ ==> command_parse(rest) == Ok::<CommandView, Seq<char>>(CommandView::Appearance),
        rest[0] == "netclass"@ ==> command_parse(rest) == Ok::<CommandView, Seq<char>>(CommandView::NetClass),
        rest[0] == "proto-coverage-board-read"@ ==> command_parse(rest) == Ok::<CommandView, Seq<char>>(CommandView::ProtoCoverageBoardRead),
        rest[0] == "smoke"@ ==> command_parse(rest) == Ok::<CommandView, Seq<char>>(CommandView::Smoke),
{
    reveal_strlit("help");
    reveal_strlit("--help");
    reveal_strlit("-h");
    reveal_strlit("ping");
    reveal_strlit("version");
    reveal_strlit("project-path");
    reveal_strlit("board-open");
    reveal_strlit("net-classes");
    reveal_strlit("text-variables");
    reveal_strlit("expand-text-variables");
    reveal_strlit("text-extents");
    reveal_strlit("text-as-shapes");
    reveal_strlit("nets");
    reveal_strlit("enabled-layers");
    reveal_strlit("active-layer");
    reveal_strlit("visible-layers");
    reveal_strlit("board-origin");
    reveal_strlit("selection-summary");
    reveal_strlit("selection-details");
    reveal_strlit("selection-raw");
    reveal_strlit("netlist-pads");
    reveal_strlit("items-by-id");
    reveal_strlit("item-bbox");
    reveal_strlit("hit-test");
    reveal_strlit("types-pcb");
    reveal_strlit("items-raw");
    reveal_strlit("items-raw-all-pcb");
    reveal_strlit("pad-shape-polygon");
    reveal_strlit("padstack-presence");
    reveal_strlit("title-block");
    reveal_strlit("board-as-string");
    reveal_strlit("selection-as-string");
    reveal_strlit("stackup");
    reveal_strlit("graphics-defaults");
    reveal_strlit("appearance");
    reveal_strlit("netclass");
    reveal_strlit("proto-coverage-board-read");
    reveal_strlit("board-read-report");
    reveal_strlit("smoke");
    reveal_strlit("open-docs");
    assert("ping"@[0] != "help"@[0]);
    assert("ping"@.len() != "--help"@.len());
    assert("ping"@.len() != "-h"@.len());
    assert("version"@.len() != "help"@.len());
    assert("version"@.len() != "--help"@.len());
    assert("version"@.len() != "-h"@.len());
    assert("version"@.len() != "ping"@.len());
    assert("project-path"@.len() != "help"@.len());
    assert("project-path"@.len() != "--help"@.len());
    assert("project-path"@.len() != "-h"@.len());
    assert("project-path"@.len() != "ping"@.len());
    assert("project-path"@.len() != "version"@.len());
    assert("board-open"@.len() != "help"@.len());
    assert("board-open"@.len() != "--help"@.len());
    assert("board-open"@.len() != "-h"@.len());
    assert("board-open"@.len() != "ping"@.len());
    assert("board-open"@.len() != "version"@.len());
    assert("board-open"@.len() != "project-path"@.len());
    assert("net-classes"@.len() != "help"@.len());
    assert("net-classes"@.len() != "--help"@.len());
    assert("net-classes"@.len() != "-h"@.len());
    assert("net-classes"@.len() != "ping"@.len());
    assert("net-classes"@.len() != "version"@.len());
    assert("net-classes"@.len() != "project-path"@.len());
    assert("net-classes"@.len() != "board-open"@.len());
    assert("text-variables"@.len() != "help"@.len());
    assert("text-variables"@.len() != "--help"@.len());
    assert("text-variables"@.len() != "-h"@.len());
    assert("text-variables"@.len() != "ping"@.len());
    assert("text-variables"@.len() != "version"@.len());
    assert("text-variables"@.len() != "project-path"@.len());
    assert("text-variables"@.len() != "board-open"@.len());
    assert("text-variables"@.len() != "net-classes"@.len());
    assert("nets"@[0] != "help"@[0]);
    assert("nets"@.len() != "--help"@.len());
    assert("nets"@.len() != "-h"@.len());
    assert("nets"@[0] != "ping"@[0]);
    assert("nets"@.len() != "version"@.len());
    assert("nets"@.len() != "project-path"@.len());
    assert("nets"@.len() != "board-open"@.len());
    assert("nets"@.len() != "net-classes"@.len());
    assert("nets"@.len() != "text-variables"@.len());
    assert("nets"@.len() != "expand-text-variables"@.len());
    assert("nets"@.len() != "text-extents"@.len());
    assert("nets"@.len() != "text-as-shapes"@.len());
    assert("enabled-layers"@.len() != "help"@.len());
    assert("enabled-layers"@.len() != "--help"@.len());
    assert("enabled-layers"@.len() != "-h"@.len());
    assert("enabled-layers"@.len() != "ping"@.len());
    assert("enabled-layers"@.len() != "version"@.len());
    assert("enabled-layers"@.len() != "project-path"@.len());
    assert("enabled-layers"@.len() != "board-open"@.len());
    assert("enabled-layers"@.len() != "net-classes"@.len());
    assert("enabled-layers"@[0] != "text-variables"@[0]);
    assert("enabled-layers"@.len() != "expand-text-variables"@.len());
    assert("enabled-layers"@.len() != "text-extents"@.len());
    assert("enabled-layers"@[0] != "text-as-shapes"@[0]);
    assert("enabled-layers"@.len() != "nets"@.len());
    assert("active-layer"@.len() != "help"@.len());
    assert("active-layer"@.len() != "--help"@.len());
    assert("active-layer"@.len() != "-h"@.len());
    assert("active-layer"@.len() != "ping"@.len());
    assert("active-layer"@.len() != "version"@.len());
    assert("active-layer"@[0] != "project-path"@[0]);
    assert("active-layer"@.len() != "board-open"@.len());
    assert("active-layer"@.len() != "net-classes"@.len());
    assert("active-layer"@.len() != "text-variables"@.len());
    assert("active-layer"@.len() != "expand-text-variables"@.len());
    assert("active-layer"@[0] != "text-extents"@[0]);
    assert("active-layer"@.len() != "text-as-shapes"@.len());
    assert("active-layer"@.len() != "nets"@.len());
    assert("active-layer"@.len() != "enabled-layers"@.len());
    assert("visible-layers"@.len() != "help"@.len());
    assert("visible-layers"@.len() != "--help"@.len());
    assert("visible-layers"@.len() != "-h"@.len());
    assert("visible-layers"@.len() != "ping"@.len());
    assert("visible-layers"@.len() != "version"@.len());
    assert("visible-layers"@.len() != "project-path"@.len());
    assert("visible-layers"@.len() != "board-open"@.len());
    assert("visible-layers"@.len() != "net-classes"@.len());
    assert("visible-layers"@[0] != "text-variables"@[0]);
    assert("visible-layers"@.len() != "expand-text-variables"@.len());
    assert("visible-layers"@.len() != "text-extents"@.len());
    assert("visible-layers"@[0] != "text-as-shapes"@[0]);
    assert("visible-layers"@.len() != "nets"@.len());
    assert("visible-layers"@[0] != "enabled-layers"@[0]);
    assert("visible-layers"@.len() != "active-layer"@.len());
    assert("selection-summary"@.len() != "help"@.len());
    assert("selection-summary"@.len() != "--help"@.len());
    assert("selection-summary"@.len() != "-h"@.len());
    assert("selection-summary"@.len() != "ping"@.len());
    assert("selection-summary"@.len() != "version"@.len());
    assert("selection-summary"@.len() != "project-path"@.len());
    assert("selection-summary"@.len() != "board-open"@.len());
    assert("selection-summary"@.len() != "net-classes"@.len());
    assert("selection-summary"@.len() != "text-variables"@.len());
    assert("selection-summary"@.len() != "expand-text-variables"@.len());
    assert("selection-summary"@.len() != "text-extents"@.len());
    assert("selection-summary"@.len() != "text-as-shapes"@.len());
    assert("selection-summary"@.len() != "nets"@.len());
    assert("selection-summary"@.len() != "enabled-layers"@.len());
    assert("selection-summary"@.len() != "active-layer"@.len());
    assert("selection-summary"@.len() != "visible-layers"@.len());
    assert("selection-summary"@.len() != "board-origin"@.len());
    assert("selection-details"@.len() != "help"@.len());
    assert("selection-details"@.len() != "--help"@.len());
    assert("selection-details"@.len() != "-h"@.len());
    assert("selection-details"@.len() != "ping"@.len());
    assert("selection-details"@.len() != "version"@.len());
    assert("selection-details"@.len() != "project-path"@.len());
    assert("selection-details"@.len() != "board-open"@.len());
    assert("selection-details"@.len() != "net-classes"@.len());
    assert("selection-details"@.len() != "text-variables"@.len());
    assert("selection-details"@.len() != "expand-text-variables"@.len());
    assert("selection-details"@.len() != "text-extents"@.len());
    assert("selection-details"@.len() != "text-as-shapes"@.len());
    assert("selection-details"@.len() != "nets"@.len());
    assert("selection-details"@.len() != "enabled-layers"@.len());
    assert("selection-details"@.len() != "active-layer"@.len());
    assert("selection-details"@.len() != "visible-layers"@.len());
    assert("selection-details"@.len() != "board-origin"@.len());
    assert("selection-details"@[10] != "selection-summary"@[10]);
    assert("selection-raw"@.len() != "help"@.len());
    assert("selection-raw"@.len() != "--help"@.len());
    assert("selection-raw"@.len() != "-h"@.len());
    assert("selection-raw"@.len() != "ping"@.len());
    assert("selection-raw"@.len() != "version"@.len());
    assert("selection-raw"@.len() != "project-path"@.len());
    assert("selection-raw"@.len() != "board-open"@.len());
    assert("selection-raw"@.len() != "net-classes"@.len());
    assert("selection-raw"@.len() != "text-variables"@.len());
    assert("selection-raw"@.len() != "expand-text-variables"@.len());
    assert("selection-raw"@.len() != "text-extents"@.len());
    assert("selection-raw"@.len() != "text-as-shapes"@.len());
    assert("selection-raw"@.len() != "nets"@.len());
    assert("selection-raw"@.len() != "enabled-layers"@.len());
    assert("selection-raw"@.len() != "active-layer"@.len());
    assert("selection-raw"@.len() != "visible-layers"@.len());
    assert("selection-raw"@.len() != "board-origin"@.len());
    assert("selection-raw"@.len() != "selection-summary"@.len());
    assert("selection-raw"@.len() != "selection-details"@.len());
    assert("netlist-pads"@.len() != "help"@.len());
    assert("netlist-pads"@.len() != "--help"@.len());
    assert("netlist-pads"@.len() != "-h"@.len());
    assert("netlist-pads"@.len() != "ping"@.len());
    assert("netlist-pads"@.len() != "version"@.len());
    assert("netlist-pads"@[0] != "project-path"@[0]);
    assert("netlist-pads"@.len() != "board-open"@.len());
    assert("netlist-pads"@.len() != "net-classes"@.len());
    assert("netlist-pads"@.len() != "text-variables"@.len());
    assert("netlist-pads"@.len() != "expand-text-variables"@.len());
    assert("netlist-pads"@[0] != "text-extents"@[0]);
    assert("netlist-pads"@.len() != "text-as-shapes"@.len());
    assert("netlist-pads"@.len() != "nets"@.len());
    assert("netlist-pads"@.len() != "enabled-layers"@.len());
    assert("netlist-pads"@[0] != "active-layer"@[0]);
    assert("netlist-pads"@.len() != "visible-layers"@.len());
    assert("netlist-pads"@[0] != "board-origin"@[0]);
    assert("netlist-pads"@.len() != "selection-summary"@.len());
    assert("netlist-pads"@.len() != "selection-details"@.len());
    assert("netlist-pads"@.len() != "selection-raw"@.len());
    assert("types-pcb"@.len() != "help"@.len());
    assert("types-pcb"@.len() != "--help"@.len());
    assert("types-pcb"@.len() != "-h"@.len());
    assert("types-pcb"@.len() != "ping"@.len());
    assert("types-pcb"@.len() != "version"@.len());
    assert("types-pcb"@.len() != "project-path"@.len());
    assert("types-pcb"@.len() != "board-open"@.len());
    assert("types-pcb"@.len() != "net-classes"@.len());
    assert("types-pcb"@.len() != "text-variables"@.len());
    assert("types-pcb"@.len() != "expand-text-variables"@.len());
    assert("types-pcb"@.len() != "text-extents"@.len());
    assert("types-pcb"@.len() != "text-as-shapes"@.len());
    assert("types-pcb"@.len() != "nets"@.len());
    assert("types-pcb"@.len() != "enabled-layers"@.len());
    assert("types-pcb"@.len() != "active-layer"@.len());
    assert("types-pcb"@.len() != "visible-layers"@.len());
    assert("types-pcb"@.len() != "board-origin"@.len());
    assert("types-pcb"@.len() != "selection-summary"@.len());
    assert("types-pcb"@.len() != "selection-details"@.len());
    assert("types-pcb"@.len() != "selection-raw"@.len());
    assert("types-pcb"@.len() != "netlist-pads"@.len());
    assert("types-pcb"@.len() != "items-by-id"@.len());
    assert("types-pcb"@[0] != "item-bbox"@[0]);
    assert("types-pcb"@.len() != "hit-test"@.len());
    assert("title-block"@.len() != "help"@.len());
    assert("title-block"@.len() != "--help"@.len());
    assert("title-block"@.len() != "-h"@.len());
    assert("title-block"@.len() != "ping"@.len());
    assert("title-block"@.len() != "version"@.len());
    assert("title-block"@.len() != "project-path"@.len());
    assert("title-block"@.len() != "board-open"@.len());
    assert("title-block"@[0] != "net-classes"@[0]);
    assert("title-block"@.len() != "text-variables"@.len());
    assert("title-block"@.len() != "expand-text-variables"@.len());
    assert("title-block"@.len() != "text-extents"@.len());
    assert("title-block"@.len() != "text-as-shapes"@.len());
    assert("title-block"@.len() != "nets"@.len());
    assert("title-block"@.len() != "enabled-layers"@.len());
    assert("title-block"@.len() != "active-layer"@.len());
    assert("title-block"@.len() != "visible-layers"@.len());
    assert("title-block"@.len() != "board-origin"@.len());
    assert("title-block"@.len() != "selection-summary"@.len());
    assert("title-block"@.len() != "selection-details"@.len());
    assert("title-block"@.len() != "selection-raw"@.len());
    assert("title-block"@.len() != "netlist-pads"@.len());
    assert("title-block"@[0] != "items-by-id"@[0]);
    assert("title-block"@.len() != "item-bbox"@.len());
    assert("title-block"@.len() != "hit-test"@.len());
    assert("title-block"@.len() != "types-pcb"@.len());
    assert("title-block"@.len() != "items-raw"@.len());
    assert("title-block"@.len() != "items-raw-all-pcb"@.len());
    assert("title-block"@.len() != "pad-shape-polygon"@.len());
    assert("title-block"@.len() != "padstack-presence"@.len());
    assert("board-as-string"@.len() != "help"@.len());
    assert("board-as-string"@.len() != "--help"@.len());
    assert("board-as-string"@.len() != "-h"@.len());
    assert("board-as-string"@.len() != "ping"@.len());
    assert("board-as-string"@.len() != "version"@.len());
    assert("board-as-string"@.len() != "project-path"@.len());
    assert("board-as-string"@.len() != "board-open"@.len());
    assert("board-as-string"@.len() != "net-classes"@.len());
    assert("board-as-string"@.len() != "text-variables"@.len());
    assert("board-as-string"@.len() != "expand-text-variables"@.len());
    assert("board-as-string"@.len() != "text-extents"@.len());
    assert("board-as-string"@.len() != "text-as-shapes"@.len());
    assert("board-as-string"@.len() != "nets"@.len());
    assert("board-as-string"@.len() != "enabled-layers"@.len());
    assert("board-as-string"@.len() != "active-layer"@.len());
    assert("board-as-string"@.len() != "visible-layers"@.len());
    assert("board-as-string"@.len() != "board-origin"@.len());
    assert("board-as-string"@.len() != "selection-summary"@.len());
    assert("board-as-string"@.len() != "selection-details"@.len());
    assert("board-as-string"@.len() != "selection-raw"@.len());
    assert("board-as-string"@.len() != "netlist-pads"@.len());
    assert("board-as-string"@.len() != "items-by-id"@.len());
    assert("board-as-string"@.len() != "item-bbox"@.len());
    assert("board-as-string"@.len() != "hit-test"@.len());
    assert("board-as-string"@.len() != "types-pcb"@.len());
    assert("board-as-string"@.len() != "items-raw"@.len());
    assert("board-as-string"@.len() != "items-raw-all-pcb"@.len());
    assert("board-as-string"@.len() != "pad-shape-polygon"@.len());
    assert("board-as-string"@.len() != "padstack-presence"@.len());
    assert("board-as-string"@.len() != "title-block"@.len());
    assert("selection-as-string"@.len() != "help"@.len());
    assert("selection-as-string"@.len() != "--help"@.len());
    assert("selection-as-string"@.len() != "-h"@.len());
    assert("selection-as-string"@.len() != "ping"@.len());
    assert("selection-as-string"@.len() != "version"@.len());
    assert("selection-as-string"@.len() != "project-path"@.len());
    assert("selection-as-string"@.len() != "board-open"@.len());
    assert("selection-as-string"@.len() != "net-classes"@.len());
    assert("selection-as-string"@.len() != "text-variables"@.len());
    assert("selection-as-string"@.len() != "expand-text-variables"@.len());
    assert("selection-as-string"@.len() != "text-extents"@.len());
    assert("selection-as-string"@.len() != "text-as-shapes"@.len());
    assert("selection-as-string"@.len() != "nets"@.len());
    assert("selection-as-string"@.len() != "enabled-layers"@.len());
    assert("selection-as-string"@.len() != "active-layer"@.len());
    assert("selection-as-string"@.len() != "visible-layers"@.len());
    assert("selection-as-string"@.len() != "board-origin"@.len());
    assert("selection-as-string"@.len() != "selection-summary"@.len());
    assert("selection-as-string"@.len() != "selection-details"@.len());
    assert("selection-as-string"@.len() != "selection-raw"@.len());
    assert("selection-as-string"@.len() != "netlist-pads"@.len());
    assert("selection-as-string"@.len() != "items-by-id"@.len());
    assert("selection-as-string"@.len() != "item-bbox"@.len());
    assert("selection-as-string"@.len() != "hit-test"@.len());
    assert("selection-as-string"@.len() != "types-pcb"@.len());
    assert("selection-as-string"@.len() != "items-raw"@.len());
    assert("selection-as-string"@.len() != "items-raw-all-pcb"@.len());
    assert("selection-as-string"@.len() != "pad-shape-polygon"@.len());
    assert("selection-as-string"@.len() != "padstack-presence"@.len());
    assert("selection-as-string"@.len() != "title-block"@.len());
    assert("selection-as-string"@.len() != "board-as-string"@.len());
    assert("stackup"@.len() != "help"@.len());
    assert("stackup"@.len() != "--help"@.len());
    assert("stackup"@.len() != "-h"@.len());
    assert("stackup"@.len() != "ping"@.len());
    assert("stackup"@[0] != "version"@[0]);
    assert("stackup"@.len() != "project-path"@.len());
    assert("stackup"@.len() != "board-open"@.len());
    assert("stackup"@.len() != "net-classes"@.len());
    assert("stackup"@.len() != "text-variables"@.len());
    assert("stackup"@.len() != "expand-text-variables"@.len());
    assert("stackup"@.len() != "text-extents"@.len());
    assert("stackup"@.len() != "text-as-shapes"@.len());
    assert("stackup"@.len() != "nets"@.len());
    assert("stackup"@.len() != "enabled-layers"@.len());
    assert("stackup"@.len() != "active-layer"@.len());
    assert("stackup"@.len() != "visible-layers"@.len());
    assert("stackup"@.len() != "board-origin"@.len());
    assert("stackup"@.len() != "selection-summary"@.len());
    assert("stackup"@.len() != "selection-details"@.len());
    assert("stackup"@.len() != "selection-raw"@.len());
    assert("stackup"@.len() != "netlist-pads"@.len());
    assert("stackup"@.len() != "items-by-id"@.len());
    assert("stackup"@.len() != "item-bbox"@.len());
    assert("stackup"@.len() != "hit-test"@.len());
    assert("stackup"@.len() != "types-pcb"@.len());
    assert("stackup"@.len() != "items-raw"@.len());
    assert("stackup"@.len() != "items-raw-all-pcb"@.len());
    assert("stackup"@.len() != "pad-shape-polygon"@.len());
    assert("stackup"@.len() != "padstack-presence"@.len());
    assert("stackup"@.len() != "title-block"@.len());
    assert("stackup"@.len() != "board-as-string"@.len());
    assert("stackup"@.len() != "selection-as-string"@.len());
    assert("graphics-defaults"@.len() != "help"@.len());
    assert("graphics-defaults"@.len() != "--help"@.len());
    assert("graphics-defaults"@.len() != "-h"@.len());
    assert("graphics-defaults"@.len() != "ping"@.len());
    assert("graphics-defaults"@.len() != "version"@.len());
    assert("graphics-defaults"@.len() != "project-path"@.len());
    assert("graphics-defaults"@.len() != "board-open"@.len());
    assert("graphics-defaults"@.len() != "net-classes"@.len());
    assert("graphics-defaults"@.len() != "text-variables"@.len());
    assert("graphics-defaults"@.len() != "expand-text-variables"@.len());
    assert("graphics-defaults"@.len() != "text-extents"@.len());
    assert("graphics-defaults"@.len() != "text-as-shapes"@.len());
    assert("graphics-defaults"@.len() != "nets"@.len());
    assert("graphics-defaults"@.len() != "enabled-layers"@.len());
    assert("graphics-defaults"@.len() != "active-layer"@.len());
    assert("graphics-defaults"@.len() != "visible-layers"@.len());
    assert("graphics-defaults"@.len() != "board-origin"@.len());
    assert("graphics-defaults"@[0] != "selection-summary"@[0]);
    assert("graphics-defaults"@[0] != "selection-details"@[0]);
    assert("graphics-defaults"@.len() != "selection-raw"@.len());
    assert("graphics-defaults"@.len() != "netlist-pads"@.len());
    assert("graphics-defaults"@.len() != "items-by-id"@.len());
    assert("graphics-defaults"@.len() != "item-bbox"@.len());
    assert("graphics-defaults"@.len() != "hit-test"@.len());
    assert("graphics-defaults"@.len() != "types-pcb"@.len());
    assert("graphics-defaults"@.len() != "items-raw"@.len());
    assert("graphics-defaults"@[0] != "items-raw-all-pcb"@[0]);
    assert("graphics-defaults"@[0] != "pad-shape-polygon"@[0]);
    assert("graphics-defaults"@[0] != "padstack-presence"@[0]);
    assert("graphics-defaults"@.len() != "title-block"@.len());
    assert("graphics-defaults"@.len() != "board-as-string"@.len());
    assert("graphics-defaults"@.len() != "selection-as-string"@.len());
    assert("graphics-defaults"@.len() != "stackup"@.len());
    assert("appearance"@.len() != "help"@.len());
    assert("appearance"@.len() != "--help"@.len());
    assert("appearance"@.len() != "-h"@.len());
    assert("appearance"@.len() != "ping"@.len());
    assert("appearance"@.len() != "version"@.len());
    assert("appearance"@.len() != "project-path"@.len());
    assert("appearance"@[0] != "board-open"@[0]);
    assert("appearance"@.len() != "net-classes"@.len());
    assert("appearance"@.len() != "text-variables"@.len());
    assert("appearance"@.len() != "expand-text-variables"@.len());
    assert("appearance"@.len() != "text-extents"@.len());
    assert("appearance"@.len() != "text-as-shapes"@.len());
    assert("appearance"@.len() != "nets"@.len());
    assert("appearance"@.len() != "enabled-layers"@.len());
    assert("appearance"@.len() != "active-layer"@.len());
    assert("appearance"@.len() != "visible-layers"@.len());
    assert("appearance"@.len() != "board-origin"@.len());
    assert("appearance"@.len() != "selection-summary"@.len());
    assert("appearance"@.len() != "selection-details"@.len());
    assert("appearance"@.len() != "selection-raw"@.len());
    assert("appearance"@.len() != "netlist-pads"@.len());
    assert("appearance"@.len() != "items-by-id"@.len());
    assert("appearance"@.len() != "item-bbox"@.len());
    assert("appearance"@.len() != "hit-test"@.len());
    assert("appearance"@.len() != "types-pcb"@.len());
    assert("appearance"@.len() != "items-raw"@.len());
    assert("appearance"@.len() != "items-raw-all-pcb"@.len());
    assert("appearance"@.len() != "pad-shape-polygon"@.len());
    assert("appearance"@.len() != "padstack-presence"@.len());
    assert("appearance"@.len() != "title-block"@.len());
    assert("appearance"@.len() != "board-as-string"@.len());
    assert("appearance"@.len() != "selection-as-string"@.len());
    assert("appearance"@.len() != "stackup"@.len());
    assert("appearance"@.len() != "graphics-defaults"@.len());
    assert("netclass"@.len() != "help"@.len());
    assert("netclass"@.len() != "--help"@.len());
    assert("netclass"@.len() != "-h"@.len());
    assert("netclass"@.len() != "ping"@.len());
    assert("netclass"@.len() != "version"@.len());
    assert("netclass"@.len() != "project-path"@.len());
    assert("netclass"@.len() != "board-open"@.len());
    assert("netclass"@.len() != "net-classes"@.len());
    assert("netclass"@.len() != "text-variables"@.len());
    assert("netclass"@.len() != "expand-text-variables"@.len());
    assert("netclass"@.len() != "text-extents"@.len());
    assert("netclass"@.len() != "text-as-shapes"@.len());
    assert("netclass"@.len() != "nets"@.len());
    assert("netclass"@.len() != "enabled-layers"@.len());
    assert("netclass"@.len() != "active-layer"@.len());
    assert("netclass"@.len() != "visible-layers"@.len());
    assert("netclass"@.len() != "board-origin"@.len());
    assert("netclass"@.len() != "selection-summary"@.len());
    assert("netclass"@.len() != "selection-details"@.len());
    assert("netclass"@.len() != "selection-raw"@.len());
    assert("netclass"@.len() != "netlist-pads"@.len());
    assert("netclass"@.len() != "items-by-id"@.len());
    assert("netclass"@.len() != "item-bbox"@.len());
    assert("netclass"@[0] != "hit-test"@[0]);
    assert("netclass"@.len() != "types-pcb"@.len());
    assert("netclass"@.len() != "items-raw"@.len());
    assert("netclass"@.len() != "items-raw-all-pcb"@.len());
    assert("netclass"@.len() != "pad-shape-polygon"@.len());
    assert("netclass"@.len() != "padstack-presence"@.len());
    assert("netclass"@.len() != "title-block"@.len());
    assert("netclass"@.len() != "board-as-string"@.len());
    assert("netclass"@.len() != "selection-as-string"@.len());
    assert("netclass"@.len() != "stackup"@.len());
    assert("netclass"@.len() != "graphics-defaults"@.len());
    assert("netclass"@.len() != "appearance"@.len());
    assert("proto-coverage-board-read"@.len() != "help"@.len());
    assert("proto-coverage-board-read"@.len() != "--help"@.len());
    assert("proto-coverage-board-read"@.len() != "-h"@.len());
    assert("proto-coverage-board-read"@.len() != "ping"@.len());
    assert("proto-coverage-board-read"@.len() != "version"@.len());
    assert("proto-coverage-board-read"@.len() != "project-path"@.len());
    assert("proto-coverage-board-read"@.len() != "board-open"@.len());
    assert("proto-coverage-board-read"@.len() != "net-classes"@.len());
    assert("proto-coverage-board-read"@.len() != "text-variables"@.len());
    assert("proto-coverage-board-read"@.len() != "expand-text-variables"@.len());
    assert("proto-coverage-board-read"@.len() != "text-extents"@.len());
    assert("proto-coverage-board-read"@.len() != "text-as-shapes"@.len());
    assert("proto-coverage-board-read"@.len() != "nets"@.len());
    assert("proto-coverage-board-read"@.len() != "enabled-layers"@.len());
    assert("proto-coverage-board-read"@.len() != "active-layer"@.len());
    assert("proto-coverage-board-read"@.len() != "visible-layers"@.len());
    assert("proto-coverage-board-read"@.len() != "board-origin"@.len());
    assert("proto-coverage-board-read"@.len() != "selection-summary"@.len());
    assert("proto-coverage-board-read"@.len() != "selection-details"@.len());
    assert("proto-coverage-board-read"@.len() != "selection-raw"@.len());
    assert("proto-coverage-board-read"@.len() != "netlist-pads"@.len());
    assert("proto-coverage-board-read"@.len() != "items-by-id"@.len());
    assert("proto-coverage-board-read"@.len() != "item-bbox"@.len());
    assert("proto-coverage-board-read"@.len() != "hit-test"@.len());
    assert("proto-coverage-board-read"@.len() != "types-pcb"@.len());
    assert("proto-coverage-board-read"@.len() != "items-raw"@.len());
    assert("proto-coverage-board-read"@.len() != "items-raw-all-pcb"@.len());
    assert("proto-coverage-board-read"@.len() != "pad-shape-polygon"@.len());
    assert("proto-coverage-board-read"@.len() != "padstack-presence"@.len());
    assert("proto-coverage-board-read"@.len() != "title-block"@.len());
    assert("proto-coverage-board-read"@.len() != "board-as-string"@.len());
    assert("proto-coverage-board-read"@.len() != "selection-as-string"@.len());
    assert("proto-coverage-board-read"@.len() != "stackup"@.len());
    assert("proto-coverage-board-read"@.len() != "graphics-defaults"@.len());
    assert("proto-coverage-board-read"@.len() != "appearance"@.len());
    assert("proto-coverage-board-read"@.len() != "netclass"@.len());
    assert("smoke"@.len() != "help"@.len());
    assert("smoke"@.len() != "--help"@.len());
    assert("smoke"@.len() != "-h"@.len());
    assert("smoke"@.len() != "ping"@.len());
    assert("smoke"@.len() != "version"@.len());
    assert("smoke"@.len() != "project-path"@.len());
    assert("smoke"@.len() != "board-open"@.len());
    assert("smoke"@.len() != "net-classes"@.len());
    assert("smoke"@.len() != "text-variables"@.len());
    assert("smoke"@.len() != "expand-text-variables"@.len());
    assert("smoke"@.len() != "text-extents"@.len());
    assert("smoke"@.len() != "text-as-shapes"@.len());
    assert("smoke"@.len() != "nets"@.len());
    assert("smoke"@.len() != "enabled-layers"@.len());
    assert("smoke"@.len() != "active-layer"@.len());
    assert("smoke"@.len() != "visible-layers"@.len());
    assert("smoke"@.len() != "board-origin"@.len());
    assert("smoke"@.len() != "selection-summary"@.len());
    assert("smoke"@.len() != "selection-details"@.len());
    assert("smoke"@.len() != "selection-raw"@.len());
    assert("smoke"@.len() != "netlist-pads"@.len());
    assert("smoke"@.len() != "items-by-id"@.len());
    assert("smoke"@.len() != "item-bbox"@.len());
    assert("smoke"@.len() != "hit-test"@.len());
    assert("smoke"@.len() != "types-pcb"@.len());
    assert("smoke"@.len() != "items-raw"@.len());
    assert("smoke"@.len() != "items-raw-all-pcb"@.len());
    assert("smoke"@.len() != "pad-shape-polygon"@.len());
    assert("smoke"@.len() != "padstack-presence"@.len());
    assert("smoke"@.len() != "title-block"@.len());
    assert("smoke"@.len() != "board-as-string"@.len());
    assert("smoke"@.len() != "selection-as-string"@.len());
    assert("smoke"@.len() != "stackup"@.len());
    assert("smoke"@.len() != "graphics-defaults"@.len());
    assert("smoke"@.len() != "appearance"@.len());
    assert("smoke"@.len() != "netclass"@.len());
    assert("smoke"@.len() != "proto-coverage-board-read"@.len());
    assert("smoke"@.len() != "board-read-report"@.len());
}

/// Each command with options is read from its own name: where the
/// arguments after it are accepted, the command read is the one the name
/// stands for.
pub proof fn lemma_command_names_with_options(rest: Seq<Seq<char>>)
    requires
        rest.len() > 0,
    ensures
        rest[0] == "expand-text-variables"@ && command_parse(rest) is Ok ==> command_parse(rest)->Ok_0 is ExpandTextVariables,
        rest[0] == "text-extents"@ && command_parse(rest) is Ok ==> command_parse(rest)->Ok_0 is TextExtents,
        rest[0] == "text-as-shapes"@ && command_parse(rest) is Ok ==> command_parse(rest)->Ok_0 is TextAsShapes,
        rest[0] == "board-origin"@ && command_parse(rest) is Ok ==> command_parse(rest)->Ok_0 is BoardOrigin,
        rest[0] == "items-by-id"@ && command_parse(rest) is Ok ==> command_parse(rest)->Ok_0 is ItemsById,
        rest[0] == "item-bbox"@ && command_parse(rest) is Ok ==> command_parse(rest)->Ok_0 is ItemBBox,
        rest[0] == "hit-test"@ && command_parse(rest) is Ok ==> command_parse(rest)->Ok_0 is HitTest,
        rest[0] == "items-raw"@ && command_parse(rest) is Ok ==> command_parse(rest)->Ok_0 is ItemsRaw,
        rest[0] == "items-raw-all-pcb"@ && command_parse(rest) is Ok ==> command_parse(rest)->Ok_0 is ItemsRawAllPcb,
        rest[0] == "pad-shape-polygon"@ && command_parse(rest) is Ok ==> command_parse(rest)->Ok_0 is PadShapePolygon,
        rest[0] == "padstack-presence"@ && command_parse(rest) is Ok ==> command_parse(rest)->Ok_0 is PadstackPresence,
        rest[0] == "board-read-report"@ && command_parse(rest) is Ok ==> command_parse(rest)->Ok_0 is BoardReadReport,
        rest[0] == "open-docs"@ && command_parse(rest) is Ok ==> command_parse(rest)->Ok_0 is OpenDocs,
{
    reveal_strlit("help");
    reveal_strlit("--help");
    reveal_strlit("-h");
    reveal_strlit("ping");
    reveal_strlit("version");
    reveal_strlit("project-path");
    reveal_strlit("board-open");
    reveal_strlit("net-classes");
    reveal_strlit("text-variables");
    reveal_strlit("expand-text-variables");
    reveal_strlit("text-extents");
    reveal_strlit("text-as-shapes");
    reveal_strlit("nets");
    reveal_strlit("enabled-layers");
    reveal_strlit("active-layer");
    reveal_strlit("visible-layers");
    reveal_strlit("board-origin");
    reveal_strlit("selection-summary");
    reveal_strlit("selection-details");
    reveal_strlit("selection-raw");
    reveal_strlit("netlist-pads");
    reveal_strlit("items-by-id");
    reveal_strlit("item-bbox");
    reveal_strlit("hit-test");
    reveal_strlit("types-pcb");
    reveal_strlit("items-raw");
    reveal_strlit("items-raw-all-pcb");
    reveal_strlit("pad-shape-polygon");
    reveal_strlit("padstack-presence");
    reveal_strlit("title-block");
    reveal_strlit("board-as-string");
    reveal_strlit("selection-as-string");
    reveal_strlit("stackup");
    reveal_strlit("graphics-defaults");
    reveal_strlit("appearance");
    reveal_strlit("netclass");
    reveal_strlit("proto-coverage-board-read");
    reveal_strlit("board-read-report");
    reveal_strlit("smoke");
    reveal_strlit("open-docs");
    assert("expand-text-variables"@.len() != "help"@.len());
    assert("expand-text-variables"@.len() != "--help"@.len());
    assert("expand-text-variables"@.len() != "-h"@.len());
    assert("expand-text-variables"@.len() != "ping"@.len());
    assert("expand-text-variables"@.len() != "version"@.len());
    assert("expand-text-variables"@.len() != "project-path"@.len());
    assert("expand-text-variables"@.len() != "board-open"@.len());
    assert("expand-text-variables"@.len() != "net-classes"@.len());
    assert("expand-text-variables"@.len() != "text-variables"@.len());
    assert("text-extents"@.len() != "help"@.len());
    assert("text-extents"@.len() != "--help"@.len());
    assert("text-extents"@.len() != "-h"@.len());
    assert("text-extents"@.len() != "ping"@.len());
    assert("text-extents"@.len() != "version"@.len());
    assert("text-extents"@[0] != "project-path"@[0]);
    assert("text-extents"@.len() != "board-open"@.len());
    assert("text-extents"@.len() != "net-classes"@.len());
    assert("text-extents"@.len() != "text-variables"@.len());
    assert("text-extents"@.len() != "expand-text-variables"@.len());
    assert("text-as-shapes"@.len() != "help"@.len());
    assert("text-as-shapes"@.len() != "--help"@.len());
    assert("text-as-shapes"@.len() != "-h"@.len());
    assert("text-as-shapes"@.len() != "ping"@.len());
    assert("text-as-shapes"@.len() != "version"@.len());
    assert("text-as-shapes"@.len() != "project-path"@.len());
    assert("text-as-shapes"@.len() != "board-open"@.len());
    assert("text-as-shapes"@.len() != "net-classes"@.len());
    assert("text-as-shapes"@[5] != "text-variables"@[5]);
    assert("text-as-shapes"@.len() != "expand-text-variables"@.len());
    assert("text-as-shapes"@.len() != "text-extents"@.len());
    assert("board-origin"@.len() != "help"@.len());
    assert("board-origin"@.len() != "--help"@.len());
    assert("board-origin"@.len() != "-h"@.len());
    assert("board-origin"@.len() != "ping"@.len());
    assert("board-origin"@.len() != "version"@.len());
    assert("board-origin"@[0] != "project-path"@[0]);
    assert("board-origin"@.len() != "board-open"@.len());
    assert("board-origin"@.len() != "net-classes"@.len());
    assert("board-origin"@.len() != "text-variables"@.len());
    assert("board-origin"@.len() != "expand-text-variables"@.len());
    assert("board-origin"@[0] != "text-extents"@[0]);
    assert("board-origin"@.len() != "text-as-shapes"@.len());
    assert("board-origin"@.len() != "nets"@.len());
    assert("board-origin"@.len() != "enabled-layers"@.len());
    assert("board-origin"@[0] != "active-layer"@[0]);
    assert("board-origin"@.len() != "visible-layers"@.len());
    assert("items-by-id"@.len() != "help"@.len());
    assert("items-by-id"@.len() != "--help"@.len());
    assert("items-by-id"@.len() != "-h"@.len());
    assert("items-by-id"@.len() != "ping"@.len());
    assert("items-by-id"@.len() != "version"@.len());
    assert("items-by-id"@.len() != "project-path"@.len());
    assert("items-by-id"@.len() != "board-open"@.len());
    assert("items-by-id"@[0] != "net-classes"@[0]);
    assert("items-by-id"@.len() != "text-variables"@.len());
    assert("items-by-id"@.len() != "expand-text-variables"@.len());
    assert("items-by-id"@.len() != "text-extents"@.len());
    assert("items-by-id"@.len() != "text-as-shapes"@.len());
    assert("items-by-id"@.len() != "nets"@.len());
    assert("items-by-id"@.len() != "enabled-layers"@.len());
    assert("items-by-id"@.len() != "active-layer"@.len());
    assert("items-by-id"@.len() != "visible-layers"@.len());
    assert("items-by-id"@.len() != "board-origin"@.len());
    assert("items-by-id"@.len() != "selection-summary"@.len());
    assert("items-by-id"@.len() != "selection-details"@.len());
    assert("items-by-id"@.len() != "selection-raw"@.len());
    assert("items-by-id"@.len() != "netlist-pads"@.len());
    assert("item-bbox"@.len() != "help"@.len());
    assert("item-bbox"@.len() != "--help"@.len());
    assert("item-bbox"@.len() != "-h"@.len());
    assert("item-bbox"@.len() != "ping"@.len());
    assert("item-bbox"@.len() != "version"@.len());
    assert("item-bbox"@.len() != "project-path"@.len());
    assert("item-bbox"@.len() != "board-open"@.len());
    assert("item-bbox"@.len() != "net-classes"@.len());
    assert("item-bbox"@.len() != "text-variables"@.len());
    assert("item-bbox"@.len() != "expand-text-variables"@.len());
    assert("item-bbox"@.len() != "text-extents"@.len());
    assert("item-bbox"@.len() != "text-as-shapes"@.len());
    assert("item-bbox"@.len() != "nets"@.len());
    assert("item-bbox"@.len() != "enabled-layers"@.len());
    assert("item-bbox"@.len() != "active-layer"@.len());
    assert("item-bbox"@.len() != "visible-layers"@.len());
    assert("item-bbox"@.len() != "board-origin"@.len());
    assert("item-bbox"@.len() != "selection-summary"@.len());
    assert("item-bbox"@.len() != "selection-details"@.len());
    assert("item-bbox"@.len() != "selection-raw"@.len());
    assert("item-bbox"@.len() != "netlist-pads"@.len());
    assert("item-bbox"@.len() != "items-by-id"@.len());
    assert("hit-test"@.len() != "help"@.len());
    assert("hit-test"@.len() != "--help"@.len());
    assert("hit-test"@.len() != "-h"@.len());
    assert("hit-test"@.len() != "ping"@.len());
    assert("hit-test"@.len() != "version"@.len());
    assert("hit-test"@.len() != "project-path"@.len());
    assert("hit-test"@.len() != "board-open"@.len());
    assert("hit-test"@.len() != "net-classes"@.len());
    assert("hit-test"@.len() != "text-variables"@.len());
    assert("hit-test"@.len() != "expand-text-variables"@.len());
    assert("hit-test"@.len() != "text-extents"@.len());
    assert("hit-test"@.len() != "text-as-shapes"@.len());
    assert("hit-test"@.len() != "nets"@.len());
    assert("hit-test"@.len() != "enabled-layers"@.len());
    assert("hit-test"@.len() != "active-layer"@.len());
    assert("hit-test"@.len() != "visible-layers"@.len());
    assert("hit-test"@.len() != "board-origin"@.len());
    assert("hit-test"@.len() != "selection-summary"@.len());
    assert("hit-test"@.len() != "selection-details"@.len());
    assert("hit-test"@.len() != "selection-raw"@.len());
    assert("hit-test"@.len() != "netlist-pads"@.len());
    assert("hit-test"@.len() != "items-by-id"@.len());
    assert("hit-test"@.len() != "item-bbox"@.len());
    assert("items-raw"@.len() != "help"@.len());
    assert("items-raw"@.len() != "--help"@.len());
    assert("items-raw"@.len() != "-h"@.len());
    assert("items-raw"@.len() != "ping"@.len());
    assert("items-raw"@.len() != "version"@.len());
    assert("items-raw"@.len() != "project-path"@.len());
    assert("items-raw"@.len() != "board-open"@.len());
    assert("items-raw"@.len() != "net-classes"@.len());
    assert("items-raw"@.len() != "text-variables"@.len());
    assert("items-raw"@.len() != "expand-text-variables"@.len());
    assert("items-raw"@.len() != "text-extents"@.len());
    assert("items-raw"@.len() != "text-as-shapes"@.len());
    assert("items-raw"@.len() != "nets"@.len());
    assert("items-raw"@.len() != "enabled-layers"@.len());
    assert("items-raw"@.len() != "active-layer"@.len());
    assert("items-raw"@.len() != "visible-layers"@.len());
    assert("items-raw"@.len() != "board-origin"@.len());
    assert("items-raw"@.len() != "selection-summary"@.len());
    assert("items-raw"@.len() != "selection-details"@.len());
    assert("items-raw"@.len() != "selection-raw"@.len());
    assert("items-raw"@.len() != "netlist-pads"@.len());
    assert("items-raw"@.len() != "items-by-id"@.len());
    assert("items-raw"@[4] != "item-bbox"@[4]);
    assert("items-raw"@.len() != "hit-test"@.len());
    assert("items-raw"@[0] != "types-pcb"@[0]);
    assert("items-raw-all-pcb"@.len() != "help"@.len());
    assert("items-raw-all-pcb"@.len() != "--help"@.len());
    assert("items-raw-all-pcb"@.len() != "-h"@.len());
    assert("items-raw-all-pcb"@.len() != "ping"@.len());
    assert("items-raw-all-pcb"@.len() != "version"@.len());
    assert("items-raw-all-pcb"@.len() != "project-path"@.len());
    assert("items-raw-all-pcb"@.len() != "board-open"@.len());
    assert("items-raw-all-pcb"@.len() != "net-classes"@.len());
    assert("items-raw-all-pcb"@.len() != "text-variables"@.len());
    assert("items-raw-all-pcb"@.len() != "expand-text-variables"@.len());
    assert("items-raw-all-pcb"@.len() != "text-extents"@.len());
    assert("items-raw-all-pcb"@.len() != "text-as-shapes"@.len());
    assert("items-raw-all-pcb"@.len() != "nets"@.len());
    assert("items-raw-all-pcb"@.len() != "enabled-layers"@.len());
    assert("items-raw-all-pcb"@.len() != "active-layer"@.len());
    assert("items-raw-all-pcb"@.len() != "visible-layers"@.len());
    assert("items-raw-all-pcb"@.len() != "board-origin"@.len());
    assert("items-raw-all-pcb"@[0] != "selection-summary"@[0]);
    assert("items-raw-all-pcb"@[0] != "selection-details"@[0]);
    assert("items-raw-all-pcb"@.len() != "selection-raw"@.len());
    assert("items-raw-all-pcb"@.len() != "netlist-pads"@.len());
    assert("items-raw-all-pcb"@.len() != "items-by-id"@.len());
    assert("items-raw-all-pcb"@.len() != "item-bbox"@.len());
    assert("items-raw-all-pcb"@.len() != "hit-test"@.len());
    assert("items-raw-all-pcb"@.len() != "types-pcb"@.len());
    assert("items-raw-all-pcb"@.len() != "items-raw"@.len());
    assert("pad-shape-polygon"@.len() != "help"@.len());
    assert("pad-shape-polygon"@.len() != "--help"@.len());
    assert("pad-shape-polygon"@.len() != "-h"@.len());
    assert("pad-shape-polygon"@.len() != "ping"@.len());
    assert("pad-shape-polygon"@.len() != "version"@.len());
    assert("pad-shape-polygon"@.len() != "project-path"@.len());
    assert("pad-shape-polygon"@.len() != "board-open"@.len());
    assert("pad-shape-polygon"@.len() != "net-classes"@.len());
    assert("pad-shape-polygon"@.len() != "text-variables"@.len());
    assert("pad-shape-polygon"@.len() != "expand-text-variables"@.len());
    assert("pad-shape-polygon"@.len() != "text-extents"@.len());
    assert("pad-shape-polygon"@.len() != "text-as-shapes"@.len());
    assert("pad-shape-polygon"@.len() != "nets"@.len());
    assert("pad-shape-polygon"@.len() != "enabled-layers"@.len());
    assert("pad-shape-polygon"@.len() != "active-layer"@.len());
    assert("pad-shape-polygon"@.len() != "visible-layers"@.len());
    assert("pad-shape-polygon"@.len() != "board-origin"@.len());
    assert("pad-shape-polygon"@[0] != "selection-summary"@[0]);
    assert("pad-shape-polygon"@[0] != "selection-details"@[0]);
    assert("pad-shape-polygon"@.len() != "selection-raw"@.len());
    assert("pad-shape-polygon"@.len() != "netlist-pads"@.len());
    assert("pad-shape-polygon"@.len() != "items-by-id"@.len());
    assert("pad-shape-polygon"@.len() != "item-bbox"@.len());
    assert("pad-shape-polygon"@.len() != "hit-test"@.len());
    assert("pad-shape-polygon"@.len() != "types-pcb"@.len());
    assert("pad-shape-polygon"@.len() != "items-raw"@.len());
    assert("pad-shape-polygon"@[0] != "items-raw-all-pcb"@[0]);
    assert("padstack-presence"@.len() != "help"@.len());
    assert("padstack-presence"@.len() != "--help"@.len());
    assert("padstack-presence"@.len() != "-h"@.len());
    assert("padstack-presence"@.len() != "ping"@.len());
    assert("padstack-presence"@.len() != "version"@.len());
    assert("padstack-presence"@.len() != "project-path"@.len());
    assert("padstack-presence"@.len() != "board-open"@.len());
    assert("padstack-presence"@.len() != "net-classes"@.len());
    assert("padstack-presence"@.len() != "text-variables"@.len());
    assert("padstack-presence"@.len() != "expand-text-variables"@.len());
    assert("padstack-presence"@.len() != "text-extents"@.len());
    assert("padstack-presence"@.len() != "text-as-shapes"@.len());
    assert("padstack-presence"@.len() != "nets"@.len());
    assert("padstack-presence"@.len() != "enabled-layers"@.len());
    assert("padstack-presence"@.len() != "active-layer"@.len());
    assert("padstack-presence"@.len() != "visible-layers"@.len());
    assert("padstack-presence"@.len() != "board-origin"@.len());
    assert("padstack-presence"@[0] != "selection-summary"@[0]);
    assert("padstack-presence"@[0] != "selection-details"@[0]);
    assert("padstack-presence"@.len() != "selection-raw"@.len());
    assert("padstack-presence"@.len() != "netlist-pads"@.len());
    assert("padstack-presence"@.len() != "items-by-id"@.len());
    assert("padstack-presence"@.len() != "item-bbox"@.len());
    assert("padstack-presence"@.len() != "hit-test"@.len());
    assert("padstack-presence"@.len() != "types-pcb"@.len());
    assert("padstack-presence"@.len() != "items-raw"@.len());
    assert("padstack-presence"@[0] != "items-raw-all-pcb"@[0]);
    assert("padstack-presence"@[3] != "pad-shape-polygon"@[3]);
    assert("board-read-report"@.len() != "help"@.len());
    assert("board-read-report"@.len() != "--help"@.len());
    assert("board-read-report"@.len() != "-h"@.len());
    assert("board-read-report"@.len() != "ping"@.len());
    assert("board-read-report"@.len() != "version"@.len());
    assert("board-read-report"@.len() != "project-path"@.len());
    assert("board-read-report"@.len() != "board-open"@.len());
    assert("board-read-report"@.len() != "net-classes"@.len());
    assert("board-read-report"@.len() != "text-variables"@.len());
    assert("board-read-report"@.len() != "expand-text-variables"@.len());
    assert("board-read-report"@.len() != "text-extents"@.len());
    assert("board-read-report"@.len() != "text-as-shapes"@.len());
    assert("board-read-report"@.len() != "nets"@.len());
    assert("board-read-report"@.len() != "enabled-layers"@.len());
    assert("board-read-report"@.len() != "active-layer"@.len());
    assert("board-read-report"@.len() != "visible-layers"@.len());
    assert("board-read-report"@.len() != "board-origin"@.len());
    assert("board-read-report"@[0] != "selection-summary"@[0]);
    assert("board-read-report"@[0] != "selection-details"@[0]);
    assert("board-read-report"@.len() != "selection-raw"@.len());
    assert("board-read-report"@.len() != "netlist-pads"@.len());
    assert("board-read-report"@.len() != "items-by-id"@.len());
    assert("board-read-report"@.len() != "item-bbox"@.len());
    assert("board-read-report"@.len() != "hit-test"@.len());
    assert("board-read-report"@.len() != "types-pcb"@.len());
    assert("board-read-report"@.len() != "items-raw"@.len());
    assert("board-read-report"@[0] != "items-raw-all-pcb"@[0]);
    assert("board-read-report"@[0] != "pad-shape-polygon"@[0]);
    assert("board-read-report"@[0] != "padstack-presence"@[0]);
    assert("board-read-report"@.len() != "title-block"@.len());
    assert("board-read-report"@.len() != "board-as-string"@.len());
    assert("board-read-report"@.len() != "selection-as-string"@.len());
    assert("board-read-report"@.len() != "stackup"@.len());
    assert("board-read-report"@[0] != "graphics-defaults"@[0]);
    assert("board-read-report"@.len() != "appearance"@.len());
    assert("board-read-report"@.len() != "netclass"@.len());
    assert("board-read-report"@.len() != "proto-coverage-board-read"@.len());
    assert("open-docs"@.len() != "help"@.len());
    assert("open-docs"@.len() != "--help"@.len());
    assert("open-docs"@.len() != "-h"@.len());
    assert("open-docs"@.len() != "ping"@.len());
    assert("open-docs"@.len() != "version"@.len());
    assert("open-docs"@.len() != "project-path"@.len());
    assert("open-docs"@.len() != "board-open"@.len());
    assert("open-docs"@.len() != "net-classes"@.len());
    assert("open-docs"@.len() != "text-variables"@.len());
    assert("open-docs"@.len() != "expand-text-variables"@.len());
    assert("open-docs"@.len() != "text-extents"@.len());
    assert("open-docs"@.len() != "text-as-shapes"@.len());
    assert("open-docs"@.len() != "nets"@.len());
    assert("open-docs"@.len() != "enabled-layers"@.len());
    assert("open-docs"@.len() != "active-layer"@.len());
    assert("open-docs"@.len() != "visible-layers"@.len());
    assert("open-docs"@.len() != "board-origin"@.len());
    assert("open-docs"@.len() != "selection-summary"@.len());
    assert("open-docs"@.len() != "selection-details"@.len());
    assert("open-docs"@.len() != "selection-raw"@.len());
    assert("open-docs"@.len() != "netlist-pads"@.len());
    assert("open-docs"@.len() != "items-by-id"@.len());
    assert("open-docs"@[0] != "item-bbox"@[0]);
    assert("open-docs"@.len() != "hit-test"@.len());
    assert("open-docs"@[0] != "types-pcb"@[0]);
    assert("open-docs"@[0] != "items-raw"@[0]);
    assert("open-docs"@.len() != "items-raw-all-pcb"@.len());
    assert("open-docs"@.len() != "pad-shape-polygon"@.len());
    assert("open-docs"@.len() != "padstack-presence"@.len());
    assert("open-docs"@.len() != "title-block"@.len());
    assert("open-docs"@.len() != "board-as-string"@.len());
    assert("open-docs"@.len() != "selection-as-string"@.len());
    assert("open-docs"@.len() != "stackup"@.len());
    assert("open-docs"@.len() != "graphics-defaults"@.len());
    assert("open-docs"@.len() != "appearance"@.len());
    assert("open-docs"@.len() != "netclass"@.len());
    assert("open-docs"@.len() != "proto-coverage-board-read"@.len());
    assert("open-docs"@.len() != "board-read-report"@.len());
    assert("open-docs"@.len() != "smoke"@.len());
}

/// Parses a command and its options; the first argument names the command.
fn parse_command(rest: &[String]) -> (r: Result<Command, KiCadError>)
    requires
        rest@.len() > 0,
    ensures
        command_result_matches(r, command_parse(strings_view(rest@))),
{
    let name = rest[0].as_str();
    assert(strings_view(rest@)[0] == name@);
    if str_eq(name, "help") || str_eq(name, "--help") || str_eq(name, "-h") {
        return Ok(Command::Help);
    }
    if str_eq(name, "ping") {
        return Ok(Command::Ping);
    }
    if str_eq(name, "version") {
        return Ok(Command::Version);
    }
    if str_eq(name, "project-path") {
        return Ok(Command::ProjectPath);
    }
    if str_eq(name, "board-open") {
        return Ok(Command::BoardOpen);
    }
    if str_eq(name, "net-classes") {
        return Ok(Command::NetClasses);
    }
    if str_eq(name, "text-variables") {
        return Ok(Command::TextVariables);
    }
    if str_eq(name, "expand-text-variables") {
        return parse_expand_text_variables(rest);
    }
    if str_eq(name, "text-extents") {
        return parse_text_extents(rest);
    }
    if str_eq(name, "text-as-shapes") {
        return parse_text_as_shapes(rest);
    }
    if str_eq(name, "nets") {
        return Ok(Command::Nets);
    }
    if str_eq(name, "enabled-layers") {
        return Ok(Command::EnabledLayers);
    }
    if str_eq(name, "active-layer") {
        return Ok(Command::ActiveLayer);
    }
    if str_eq(name, "visible-layers") {
        return Ok(Command::VisibleLayers);
    }
    if str_eq(name, "board-origin") {
        return parse_board_origin(rest);
    }
    if str_eq(name, "selection-summary") {
        return Ok(Command::SelectionSummary);
    }
    if str_eq(name, "selection-details") {
        return Ok(Command::SelectionDetails);
    }
    if str_eq(name, "selection-raw") {
        return Ok(Command::SelectionRaw);
    }
    if str_eq(name, "netlist-pads") {
        return Ok(Command::NetlistPads);
    }
    if str_eq(name, "items-by-id") {
        return parse_items_by_id(rest);
    }
    if str_eq(name, "item-bbox") {
        return parse_item_bbox(rest);
    }
    if str_eq(name, "hit-test") {
        return parse_hit_test(rest);
    }
    if str_eq(name, "types-pcb") {
        return Ok(Command::PcbTypes);
    }
    if str_eq(name, "items-raw") {
        return parse_items_raw(rest);
    }
    if str_eq(name, "items-raw-all-pcb") {
        return parse_items_raw_all_pcb(rest);
    }
    if str_eq(name, "pad-shape-polygon") {
        return parse_pad_shape_polygon(rest);
    }
    if str_eq(name, "padstack-presence") {
        return parse_padstack_presence(rest);
    }
    if str_eq(name, "title-block") {
        return Ok(Command::TitleBlock);
    }
    if str_eq(name, "board-as-string") {
        return Ok(Command::BoardAsString);
    }
    if str_eq(name, "selection-as-string") {
        return Ok(Command::SelectionAsString);
    }
    if str_eq(name, "stackup") {
        return Ok(Command::Stackup);
    }
    if str_eq(name, "graphics-defaults") {
        return Ok(Command::GraphicsDefaults);
    }
    if str_eq(name, "appearance") {
        return Ok(Command::Appearance);
    }
    if str_eq(name, "netclass") {
        return Ok(Command::NetClass);
    }
    if str_eq(name, "proto-coverage-board-read") {
        return Ok(Command::ProtoCoverageBoardRead);
    }
    if str_eq(name, "board-read-report") {
        return parse_board_read_report(rest);
    }
    if str_eq(name, "smoke") {
        return Ok(Command::Smoke);
    }
    if str_eq(name, "open-docs") {
        return parse_open_docs(rest);
    }
    let mut reason = concat2("unknown command `", name);
    reason.append("`");
    Err(KiCadError::Config { reason })
}

/// The settings and command that the tool's arguments ask for.
pub open spec fn cli_parse(args: Seq<Seq<char>>) -> Result<
    ((Option<Seq<char>>, Option<Seq<char>>, int), CommandView),
    Seq<char>,
> {
    if args.len() == 0 {
        Ok(((None, None, 15_000int), CommandView::Help))
    } else {
        match global_parse(args) {
            Err(e) => Err(e),
            Ok((cfg, rest)) => if rest.len() == 0 {
                Ok((cfg, CommandView::Help))
            } else {
                match command_parse(rest) {
                    Ok(c) => Ok((cfg, c)),
                    Err(e) => Err(e),
                }
            },
        }
    }
}

/// Reads the tool's arguments (without the program name): global options
/// anywhere, then the command and its options; no command means help.
pub fn parse_args(args: &[String]) -> (r: Result<(CliConfig, Command), KiCadError>)
    ensures
        match cli_parse(strings_view(args@)) {
            Ok((cfg, c)) => r matches Ok((config, command)) && config_view(config) == cfg
                && command_view(command) == c,
            Err(m) => r matches Err(KiCadError::Config { reason }) && reason@ == m,
        },
{
    if args.len() == 0 {
        return Ok((crate::cli::default_config(), Command::Help));
    }
    let (config, rest) = parse_global_options(args)?;
    if rest.len() == 0 {
        return Ok((config, Command::Help));
    }
    let command = parse_command(rest.as_slice())?;
    Ok((config, command))
}

} // verus!
