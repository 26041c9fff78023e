//! Decisions the client takes around each request: where the socket is,
//! which board and project are meant, and how replies are summarised.

use std::time::Duration;
use vstd::prelude::*;
use vstd::string::StrSliceExecFns;
use vstd::string::StringExecFns;

use crate::error::KiCadError;
use crate::model::board::{BoardLayerInfo, BoardOriginKind};
use crate::model::common::{
    document_type_code, document_type_of_code, DocumentSpecifier, DocumentType, ProjectInfo, SelectionSummary, SelectionTypeCount};
use crate::proto::AnyPayload;
use crate::proto;
use crate::text::{
    int_decimal, nat_decimal, push_decimal_i64, push_decimal_u128,
    chars_less, chars_of, lemma_seq_less_asymmetric, lemma_seq_less_irreflexive,
    lemma_seq_less_total, lemma_seq_less_transitive, lemma_sorted_insert, seq_less, strictly_sorted, strings_view, concat2, insert_sorted_unique, clone_opt_string, push_char, contains_seq, has_prefix, occurs_at, opt_view, str_contains, str_starts_with,
};

verus! {

/// The address of a socket: unchanged where it names a scheme, otherwise an
/// IPC address for the given path.
pub open spec fn normalized_socket_uri(socket: Seq<char>) -> Seq<char> {
    if contains_seq(socket, "://"@) {
        socket
    } else {
        "ipc://"@ + socket
    }
}

/// The filesystem path of an IPC address, if it is one.
pub open spec fn ipc_path_of(uri: Seq<char>) -> Option<Seq<char>> {
    if has_prefix(uri, "ipc://"@) {
        Some(uri.subrange("ipc://"@.len() as int, uri.len() as int))
    } else {
        None
    }
}

/// Adds the `ipc://` scheme to a bare socket path.
pub fn normalize_socket_uri(socket: &str) -> (r: String)
    ensures
        r@ == normalized_socket_uri(socket@),
{
    if str_contains(socket, "://") {
        String::from_str(socket)
    } else {
        concat2("ipc://", socket)
    }
}

/// The path part of an `ipc://` address.
pub fn ipc_path_from_uri(socket_uri: &str) -> (r: Option<String>)
    ensures
        opt_view(r) == ipc_path_of(socket_uri@),
{
    if str_starts_with(socket_uri, "ipc://") {
        proof {
            reveal_strlit("ipc://");
        }
        let n = socket_uri.unicode_len();
        let rest = socket_uri.substring_char(6, n);
        Some(String::from_str(rest))
    } else {
        None
    }
}

/// The socket address a client uses: the one given explicitly, else a
/// non-empty one from the environment, else the default path.
pub open spec fn resolved_socket_uri(
    explicit: Option<Seq<char>>,
    env_socket: Option<Seq<char>>,
    default_path: Seq<char>,
) -> Seq<char> {
    match explicit {
        Some(s) => normalized_socket_uri(s),
        None => match env_socket {
            Some(e) => if e.len() > 0 {
                normalized_socket_uri(e)
            } else {
                normalized_socket_uri(default_path)
            },
            None => normalized_socket_uri(default_path),
        },
    }
}

/// Chooses the socket address from what the caller, the environment
/// variable `KICAD_API_SOCKET` and the platform default offer.
pub fn resolve_socket_uri(explicit: Option<&str>, env_socket: Option<&str>, default_path: &str) -> (r:
    String)
    ensures
        r@ == resolved_socket_uri(
            match explicit {
                Some(s) => Some(s@),
                None => None,
            },
            match env_socket {
                Some(s) => Some(s@),
                None => None,
            },
            default_path@,
        ),
{
    match explicit {
        Some(socket) => normalize_socket_uri(socket),
        None => match env_socket {
            Some(socket) => {
                if socket.unicode_len() > 0 {
                    normalize_socket_uri(socket)
                } else {
                    normalize_socket_uri(default_path)
                }
            },
            None => normalize_socket_uri(default_path),
        },
    }
}

/// A socket address never loses its scheme: normalising twice is
/// normalising once.
pub proof fn lemma_normalize_socket_uri_idempotent(socket: Seq<char>)
    ensures
        normalized_socket_uri(normalized_socket_uri(socket)) == normalized_socket_uri(socket),
        contains_seq(normalized_socket_uri(socket), "://"@),
{
    reveal_strlit("ipc://");
    reveal_strlit("://");
    if !contains_seq(socket, "://"@) {
        let u = "ipc://"@ + socket;
        assert(u.subrange(3, 6) =~= "://"@);
        assert(occurs_at(u, "://"@, 3));
    }
}

/// Whether a client may dial the address: an IPC address needs a socket
/// file at its path (`ipc_path_exists` says whether there is one); other
/// addresses are dialled as they are. Where the file is missing, the
/// connection ends with the socket-unavailable error naming the address.
pub fn check_socket_available(socket_uri: &str, ipc_path_exists: bool) -> (r: Result<(), KiCadError>)
    ensures
        r is Err <==> (ipc_path_of(socket_uri@) is Some && !ipc_path_exists),
        r matches Err(e) ==> (e matches KiCadError::SocketUnavailable { socket_uri: u } && u@
            == socket_uri@),
{
    if str_starts_with(socket_uri, "ipc://") && !ipc_path_exists {
        return Err(KiCadError::SocketUnavailable { socket_uri: String::from_str(socket_uri) });
    }
    Ok(())
}

/// A bare path comes back out of its IPC address unchanged.
pub proof fn lemma_ipc_path_roundtrip(path: Seq<char>)
    requires
        !contains_seq(path, "://"@),
    ensures
        ipc_path_of(normalized_socket_uri(path)) == Some(path),
{
    reveal_strlit("ipc://");
    let u = "ipc://"@ + path;
    assert(u.subrange(0, 6) =~= "ipc://"@);
    assert(u.subrange(6, u.len() as int) =~= path);
}

/// How an open board is listed when it cannot be chosen: its file name, or
/// `<unknown>`.
pub open spec fn board_label(doc: DocumentSpecifier) -> Seq<char> {
    match doc.board_filename {
        Some(f) => f@,
        None => "<unknown>"@,
    }
}

/// Picks the one open board document.
pub fn select_single_board_document(docs: &[DocumentSpecifier]) -> (r: Result<
    &DocumentSpecifier,
    KiCadError,
>)
    ensures
        docs@.len() == 0 ==> r matches Err(KiCadError::BoardNotOpen),
        docs@.len() == 1 ==> (r matches Ok(d) && *d == docs@[0]),
        docs@.len() > 1 ==> (r matches Err(KiCadError::AmbiguousBoardSelection { boards })
            && strings_view(boards@) == docs@.map_values(|d: DocumentSpecifier| board_label(d))),
{
    if docs.len() == 0 {
        return Err(KiCadError::BoardNotOpen);
    }
    if docs.len() > 1 {
        let mut boards: Vec<String> = Vec::new();
        let mut i: usize = 0;
        while i < docs.len()
            invariant
                i <= docs@.len(),
                boards@.len() == i,
                forall|k: int| 0 <= k < i ==> (#[trigger] boards@[k])@ == board_label(docs@[k]),
            decreases docs@.len() - i,
        {
            let label = match &docs[i].board_filename {
                Some(f) => f.clone(),
                None => String::from_str("<unknown>"),
            };
            assert(label@ == board_label(docs@[i as int]));
            boards.push(label);
            i = i + 1;
        }
        assert(strings_view(boards@) =~= docs@.map_values(|d: DocumentSpecifier| board_label(d)));
        return Err(KiCadError::AmbiguousBoardSelection { boards });
    }
    Ok(&docs[0])
}

/// The distinct project paths of a list of documents.
pub open spec fn project_path_set(docs: Seq<DocumentSpecifier>) -> Set<Seq<char>> {
    Set::new(
        |p: Seq<char>|
            exists|i: int|
                0 <= i < docs.len() && #[trigger] opt_view(docs[i].project.path) == Some(p),
    )
}

/// Picks the one project path among the open documents.
pub fn select_single_project_path(docs: &[DocumentSpecifier]) -> (r: Result<String, KiCadError>)
    ensures
        r matches Ok(p) ==> project_path_set(docs@) == set![p@],
        r matches Err(e) ==> {
            ||| e matches KiCadError::BoardNotOpen && project_path_set(docs@) == Set::<
                Seq<char>,
            >::empty()
            ||| e matches KiCadError::AmbiguousProjectPath { paths } && strings_view(paths@).len()
                >= 2 && strictly_sorted(strings_view(paths@)) && strings_view(paths@).to_set()
                == project_path_set(docs@)
        },
{
    let mut paths: Vec<String> = Vec::new();
    let mut i: usize = 0;
    while i < docs.len()
        invariant
            i <= docs@.len(),
            strictly_sorted(strings_view(paths@)),
            strings_view(paths@).to_set() == project_path_set(docs@.subrange(0, i as int)),
        decreases docs@.len() - i,
    {
        let ghost before = strings_view(paths@).to_set();
        match &docs[i].project.path {
            Some(path) => {
                insert_sorted_unique(&mut paths, path.clone());
            },
            None => {},
        }
        i = i + 1;
        proof {
            let pre = docs@.subrange(0, i - 1);
            let cur = docs@.subrange(0, i as int);
            assert forall|x: Seq<char>| #[trigger] project_path_set(cur).contains(x) <==> strings_view(paths@).to_set().contains(x) by {
                if project_path_set(cur).contains(x) {
                    let k = choose|k: int| 0 <= k < cur.len() && #[trigger] opt_view(cur[k].project.path) == Some(x);
                    if k < i - 1 {
                        assert(pre[k] == cur[k]);
                        assert(project_path_set(pre).contains(x));
                    }
                }
                if before.contains(x) {
                    assert(project_path_set(pre).contains(x));
                    let k = choose|k: int| 0 <= k < pre.len() && #[trigger] opt_view(pre[k].project.path) == Some(x);
                    assert(cur[k] == pre[k]);
                    assert(project_path_set(cur).contains(x));
                }
                if opt_view(docs@[i - 1].project.path) == Some(x) {
                    assert(cur[i - 1] == docs@[i - 1]);
                    assert(project_path_set(cur).contains(x));
                }
            }
            assert(project_path_set(cur) =~= strings_view(paths@).to_set());
        }
    }
    assert(docs@.subrange(0, docs@.len() as int) =~= docs@);
    let ghost pv = strings_view(paths@);
    if paths.len() == 0 {
        assert(pv.to_set() =~= Set::<Seq<char>>::empty());
        return Err(KiCadError::BoardNotOpen);
    }
    if paths.len() > 1 {
        return Err(KiCadError::AmbiguousProjectPath { paths });
    }
    let first = paths.remove(0);
    assert(pv.to_set() =~= set![first@]) by {
        assert forall|x: Seq<char>| pv.to_set().contains(x) implies x == first@ by {
            let k = choose|k: int| 0 <= k < pv.len() && pv[k] == x;
        }
        assert(pv[0] == first@);
    }
    Ok(first)
}

/// How often `t` occurs in `s`.
pub open spec fn count_occurrences(s: Seq<Seq<char>>, t: Seq<char>) -> nat
    decreases s.len(),
{
    if s.len() == 0 {
        0
    } else {
        count_occurrences(s.drop_last(), t) + if s.last() == t {
            1nat
        } else {
            0nat
        }
    }
}

proof fn lemma_count_occurrences_bound(s: Seq<Seq<char>>, t: Seq<char>)
    ensures
        count_occurrences(s, t) <= s.len(),
        !s.contains(t) ==> count_occurrences(s, t) == 0,
    decreases s.len(),
{
    if s.len() > 0 {
        lemma_count_occurrences_bound(s.drop_last(), t);
        if !s.contains(t) {
            assert forall|k: int| 0 <= k < s.drop_last().len() implies s.drop_last()[k] != t by {
                assert(s.drop_last()[k] == s[k]);
            }
        }
    }
}

/// The type URLs of packed messages.
pub open spec fn payload_urls(items: Seq<AnyPayload>) -> Seq<Seq<char>> {
    items.map_values(|a: AnyPayload| a.type_url@)
}

/// The type URLs that a summary lists, in order.
pub open spec fn summary_urls(counts: Seq<SelectionTypeCount>) -> Seq<Seq<char>> {
    counts.map_values(|c: SelectionTypeCount| c.type_url@)
}

/// The sum of the counts of a summary.
pub open spec fn total_count(counts: Seq<SelectionTypeCount>) -> int
    decreases counts.len(),
{
    if counts.len() == 0 {
        0
    } else {
        total_count(counts.drop_last()) + counts.last().count
    }
}

proof fn lemma_total_count_update(s: Seq<SelectionTypeCount>, j: int, x: SelectionTypeCount)
    requires
        0 <= j < s.len(),
    ensures
        total_count(s.update(j, x)) == total_count(s) - s[j].count + x.count,
    decreases s.len(),
{
    let t = s.update(j, x);
    if j < s.len() - 1 {
        lemma_total_count_update(s.drop_last(), j, x);
        assert(t.drop_last() =~= s.drop_last().update(j, x));
    } else {
        assert(t.drop_last() =~= s.drop_last());
    }
}

proof fn lemma_total_count_insert(s: Seq<SelectionTypeCount>, j: int, x: SelectionTypeCount)
    requires
        0 <= j <= s.len(),
    ensures
        total_count(s.insert(j, x)) == total_count(s) + x.count,
    decreases s.len(),
{
    let t = s.insert(j, x);
    if j < s.len() {
        lemma_total_count_insert(s.drop_last(), j, x);
        assert(t.drop_last() =~= s.drop_last().insert(j, x));
        assert(t.last() == s.last());
    } else {
        assert(t.drop_last() =~= s);
    }
}

/// The first position whose URL does not come before `key`.
fn url_slot(counts: &Vec<SelectionTypeCount>, key: &Vec<char>) -> (j: usize)
    requires
        strictly_sorted(summary_urls(counts@)),
    ensures
        j <= counts@.len(),
        forall|k: int| 0 <= k < j ==> seq_less(#[trigger] summary_urls(counts@)[k], key@),
        j < counts@.len() ==> !seq_less(summary_urls(counts@)[j as int], key@),
{
    let ghost urls = summary_urls(counts@);
    let mut j: usize = 0;
    let mut done = false;
    while j < counts.len() && !done
        invariant
            urls == summary_urls(counts@),
            j <= counts@.len(),
            forall|k: int| 0 <= k < j ==> seq_less(#[trigger] urls[k], key@),
            done ==> j < counts@.len() && !seq_less(urls[j as int], key@),
        decreases counts@.len() - j + (if done { 0int } else { 1int }),
    {
        let here = chars_of(counts[j].type_url.as_str());
        assert(here@ == urls[j as int]);
        if !chars_less(&here, key) {
            done = true;
        } else {
            j = j + 1;
        }
    }
    j
}

/// Counts the selected items by payload type, in order of type URL.
pub fn summarize_selection(items: Vec<AnyPayload>) -> (r: SelectionSummary)
    ensures
        r.total_items == items@.len(),
        total_count(r.type_url_counts@) == items@.len(),
        strictly_sorted(summary_urls(r.type_url_counts@)),
        summary_urls(r.type_url_counts@).to_set() == payload_urls(items@).to_set(),
        forall|k: int|
            0 <= k < r.type_url_counts@.len() ==> (#[trigger] r.type_url_counts@[k]).count
                == count_occurrences(payload_urls(items@), r.type_url_counts@[k].type_url@),
{
    let mut counts: Vec<SelectionTypeCount> = Vec::new();
    let mut i: usize = 0;
    while i < items.len()
        invariant
            i <= items@.len(),
            total_count(counts@) == i,
            strictly_sorted(summary_urls(counts@)),
            summary_urls(counts@).to_set() == payload_urls(items@).subrange(0, i as int).to_set(),
            forall|k: int|
                0 <= k < counts@.len() ==> (#[trigger] counts@[k]).count == count_occurrences(
                    payload_urls(items@).subrange(0, i as int),
                    counts@[k].type_url@,
                ),
        decreases items@.len() - i,
    {
        let ghost pre = payload_urls(items@).subrange(0, i as int);
        let ghost cur = payload_urls(items@).subrange(0, i + 1);
        let ghost old_urls = summary_urls(counts@);
        let ghost old_counts = counts@;
        let ghost u = items@[i as int].type_url@;
        proof {
            assert(cur.drop_last() =~= pre);
            assert(cur.last() == u);
            assert(cur =~= pre.push(u));
            lemma_count_occurrences_bound(pre, u);
        }
        let key = chars_of(items[i].type_url.as_str());
        let j = url_slot(&counts, &key);
        let mut present = false;
        if j < counts.len() {
            let here = chars_of(counts[j].type_url.as_str());
            if !chars_less(&key, &here) {
                present = true;
            }
        }
        if present {
            proof {
                lemma_seq_less_total(old_urls[j as int], u);
                assert(old_urls[j as int] == u);
                assert(pre.to_set().contains(u));
                let w = choose|w: int| 0 <= w < pre.len() && pre[w] == u;
                assert(pre.contains(u));
            }
            let old_count = counts[j].count;
            let entry = SelectionTypeCount { type_url: counts[j].type_url.clone(), count: old_count + 1 };
            counts.set(j, entry);
            proof {
                lemma_total_count_update(old_counts, j as int, counts@[j as int]);
                assert(counts@ =~= old_counts.update(j as int, counts@[j as int]));
                assert(summary_urls(counts@) =~= old_urls);
                assert(cur.to_set() =~= pre.to_set().insert(u));
                assert(pre.to_set().insert(u) =~= pre.to_set());
                assert forall|k: int| 0 <= k < counts@.len() implies (#[trigger] counts@[k]).count
                    == count_occurrences(cur, counts@[k].type_url@) by {
                    if k != j {
                        assert(counts@[k] == old_counts[k]);
                        assert(old_urls[k] == counts@[k].type_url@);
                        lemma_seq_less_irreflexive(u);
                        if k < j {
                            assert(seq_less(old_urls[k], old_urls[j as int]));
                        } else {
                            assert(seq_less(old_urls[j as int], old_urls[k]));
                        }
                        assert(counts@[k].type_url@ != u);
                    }
                }
            }
        } else {
            proof {
                assert forall|k: int| j <= k < old_urls.len() implies seq_less(u, #[trigger] old_urls[k]) by {
                    lemma_seq_less_total(old_urls[j as int], u);
                    if j < k {
                        lemma_seq_less_transitive(u, old_urls[j as int], old_urls[k]);
                    }
                }
                lemma_sorted_insert(old_urls, j as int, u);
                assert(!pre.contains(u)) by {
                    if pre.contains(u) {
                        assert(pre.to_set().contains(u));
                        assert(old_urls.to_set().contains(u));
                        let w = choose|w: int| 0 <= w < old_urls.len() && old_urls[w] == u;
                        if w < j {
                            lemma_seq_less_irreflexive(u);
                        } else {
                            lemma_seq_less_irreflexive(u);
                        }
                    }
                }
            }
            let entry = SelectionTypeCount { type_url: items[i].type_url.clone(), count: 1 };
            counts.insert(j, entry);
            proof {
                lemma_total_count_insert(old_counts, j as int, counts@[j as int]);
                assert(counts@ =~= old_counts.insert(j as int, counts@[j as int]));
                assert(summary_urls(counts@) =~= old_urls.insert(j as int, u));
                assert(cur.to_set() =~= pre.to_set().insert(u));
                assert forall|k: int| 0 <= k < counts@.len() implies (#[trigger] counts@[k]).count
                    == count_occurrences(cur, counts@[k].type_url@) by {
                    lemma_seq_less_irreflexive(u);
                    if k < j {
                        assert(counts@[k] == old_counts[k]);
                        assert(old_urls[k] == counts@[k].type_url@);
                        assert(seq_less(old_urls[k], u));
                        assert(counts@[k].type_url@ != u);
                    } else if k > j {
                        assert(counts@[k] == old_counts[k - 1]);
                        assert(old_urls[k - 1] == counts@[k].type_url@);
                        assert(seq_less(u, old_urls[k - 1]));
                        assert(counts@[k].type_url@ != u);
                    } else {
                        lemma_count_occurrences_bound(pre, u);
                        assert(counts@[k].type_url@ == u);
                    }
                }
            }
        }
        i = i + 1;
    }
    assert(payload_urls(items@).subrange(0, items@.len() as int) =~= payload_urls(items@));
    SelectionSummary { total_items: items.len(), type_url_counts: counts }
}

/// What a document specifier of the model says, as plain values: its type,
/// board file name, project name and project path.
pub open spec fn document_view(d: DocumentSpecifier) -> (
    DocumentType,
    Option<Seq<char>>,
    Option<Seq<char>>,
    Option<Seq<char>>,
) {
    (d.document_type, opt_view(d.board_filename), opt_view(d.project.name), opt_view(d.project.path))
}

/// What a document specifier of the API says, as plain values: its type
/// code, its project's name and path, and its identifier (a board file name,
/// or another kind of identifier).
pub open spec fn proto_document_view(m: proto::DocumentSpecifier) -> (
    i32,
    Option<(Seq<char>, Seq<char>)>,
    Option<Option<Seq<char>>>,
) {
    (
        m.document_type,
        match m.project {
            Some(p) => Some((p.name@, p.path@)),
            None => None,
        },
        match m.identifier {
            Some(proto::DocumentIdentifier::BoardFilename(f)) => Some(Some(f@)),
            Some(proto::DocumentIdentifier::Other) => Some(None),
            None => None,
        },
    )
}

/// An empty text stands for an absent one.
pub open spec fn absent_if_empty(s: Seq<char>) -> Option<Seq<char>> {
    if s.len() == 0 {
        None
    } else {
        Some(s)
    }
}

/// The model's reading of an API document specifier: none for an unknown
/// document type; an absent project counts as one with empty name and path.
pub open spec fn mapped_document(
    m: (i32, Option<(Seq<char>, Seq<char>)>, Option<Option<Seq<char>>>),
) -> Option<(DocumentType, Option<Seq<char>>, Option<Seq<char>>, Option<Seq<char>>)> {
    match document_type_of_code(m.0) {
        None => None,
        Some(t) => {
            let (name, path) = match m.1 {
                Some(p) => p,
                None => (Seq::<char>::empty(), Seq::<char>::empty()),
            };
            let board = match m.2 {
                Some(Some(f)) => Some(f),
                _ => None,
            };
            Some((t, board, absent_if_empty(name), absent_if_empty(path)))
        },
    }
}

/// The API form of a model document specifier: absent names and paths
/// become empty texts, and the board file name becomes the identifier.
pub open spec fn document_to_proto_view(
    d: (DocumentType, Option<Seq<char>>, Option<Seq<char>>, Option<Seq<char>>),
) -> (i32, Option<(Seq<char>, Seq<char>)>, Option<Option<Seq<char>>>) {
    (
        document_type_code(d.0),
        Some(
            (
                match d.2 {
                    Some(n) => n,
                    None => Seq::<char>::empty(),
                },
                match d.3 {
                    Some(p) => p,
                    None => Seq::<char>::empty(),
                },
            ),
        ),
        match d.1 {
            Some(f) => Some(Some(f)),
            None => None,
        },
    )
}

fn text_or_absent(s: String) -> (r: Option<String>)
    ensures
        opt_view(r) == absent_if_empty(s@),
{
    if s.as_str().is_empty() {
        None
    } else {
        Some(s)
    }
}

/// Reads an open document from its API form.
pub fn map_document_specifier(source: proto::DocumentSpecifier) -> (r: Option<DocumentSpecifier>)
    ensures
        match r {
            Some(d) => mapped_document(proto_document_view(source)) == Some(document_view(d)),
            None => mapped_document(proto_document_view(source)) is None,
        },
{
    let ghost sv = proto_document_view(source);
    let document_type = match DocumentType::from_proto(source.document_type) {
        Some(t) => t,
        None => return None,
    };
    let board_filename = match source.identifier {
        Some(proto::DocumentIdentifier::BoardFilename(filename)) => Some(filename),
        _ => None,
    };
    let project = match source.project {
        Some(p) => p,
        None => proto::ProjectSpecifier { name: String::new(), path: String::new() },
    };
    let project_info = ProjectInfo { name: text_or_absent(project.name), path: text_or_absent(project.path) };
    let d = DocumentSpecifier { document_type, board_filename, project: project_info };
    assert(mapped_document(sv) == Some(document_view(d)));
    Some(d)
}

/// The API form of an open document.
pub fn model_document_to_proto(document: &DocumentSpecifier) -> (r: proto::DocumentSpecifier)
    ensures
        proto_document_view(r) == document_to_proto_view(document_view(*document)),
{
    let identifier = match &document.board_filename {
        Some(filename) => Some(proto::DocumentIdentifier::BoardFilename(filename.clone())),
        None => None,
    };
    let name = match &document.project.name {
        Some(n) => n.clone(),
        None => String::new(),
    };
    let path = match &document.project.path {
        Some(p) => p.clone(),
        None => String::new(),
    };
    let project = proto::ProjectSpecifier { name, path };
    proto::DocumentSpecifier {
        document_type: document.document_type.to_proto(),
        project: Some(project),
        identifier,
    }
}

/// A document survives the trip to its API form and back, as long as it
/// has no empty project name or path (an empty text reads back as absent).
pub proof fn lemma_document_roundtrip(
    d: (DocumentType, Option<Seq<char>>, Option<Seq<char>>, Option<Seq<char>>),
)
    requires
        d.2 != Some(Seq::<char>::empty()),
        d.3 != Some(Seq::<char>::empty()),
    ensures
        mapped_document(document_to_proto_view(d)) == Some(d),
{
    crate::model::common::lemma_document_type_code_roundtrip(d.0, 0);
    match d.2 {
        Some(n) => {
            assert(n.len() != 0) by {
                if n.len() == 0 {
                    assert(n =~= Seq::<char>::empty());
                }
            }
        },
        None => {},
    }
    match d.3 {
        Some(n) => {
            assert(n.len() != 0) by {
                if n.len() == 0 {
                    assert(n =~= Seq::<char>::empty());
                }
            }
        },
        None => {},
    }
}

/// The layer info for a layer code: the enumeration's name, or
/// `UNKNOWN_LAYER(<code>)` for a code outside it.
pub open spec fn layer_info_name(layer_id: int) -> Seq<char> {
    match proto::board_layer_name(layer_id) {
        Some(name) => name,
        None => "UNKNOWN_LAYER("@ + int_decimal(layer_id) + ")"@,
    }
}

/// The layer info for a layer code.
pub fn layer_to_model(layer_id: i32) -> (r: BoardLayerInfo)
    ensures
        r.id == layer_id,
        r.name@ == layer_info_name(layer_id as int),
{
    let name = match proto::board_layer_name_of(layer_id) {
        Some(name) => name,
        None => {
            let mut s = String::from_str("UNKNOWN_LAYER(");
            push_decimal_i64(&mut s, layer_id as i64);
            s.append(")");
            s
        },
    };
    BoardLayerInfo { id: layer_id, name }
}

/// The wire code of a board origin kind (`kiapi.board.commands.BoardOriginType`).
pub open spec fn board_origin_kind_code(kind: BoardOriginKind) -> i32 {
    match kind {
        BoardOriginKind::Grid => 1,
        BoardOriginKind::Drill => 2,
    }
}

/// The wire codes of the API's `BoardOriginType`: the grid origin is 1 and
/// the drill origin 2.
pub proof fn lemma_board_origin_wire_codes()
    ensures
        board_origin_kind_code(BoardOriginKind::Grid) == 1,
        board_origin_kind_code(BoardOriginKind::Drill) == 2,
{
}

/// The names of the API's `ApiStatusCode` values: 1 is `AS_OK`, 5 is
/// `AS_UNHANDLED`, and every code outside 1 to 8 is `AS_UNKNOWN`.
pub proof fn lemma_api_status_names(code: i32)
    ensures
        api_status_name(1) == "AS_OK"@,
        api_status_name(2) == "AS_TIMEOUT"@,
        api_status_name(3) == "AS_BAD_REQUEST"@,
        api_status_name(4) == "AS_NOT_READY"@,
        api_status_name(5) == "AS_UNHANDLED"@,
        api_status_name(6) == "AS_TOKEN_MISMATCH"@,
        api_status_name(7) == "AS_BUSY"@,
        api_status_name(8) == "AS_UNIMPLEMENTED"@,
        (code < 1 || code > 8) ==> api_status_name(code) == "AS_UNKNOWN"@,
{
}

/// The wire code of a board origin kind.
pub fn board_origin_kind_to_proto(kind: BoardOriginKind) -> (r: i32)
    ensures
        r == board_origin_kind_code(kind),
{
    match kind {
        BoardOriginKind::Grid => 1,
        BoardOriginKind::Drill => 2,
    }
}

/// What `std::time::Duration::from_millis` returns for `millis`.
pub uninterp spec fn duration_of_millis(millis: u64) -> Duration;

/// Calls `std::time::Duration::from_millis`; the result is named by
/// `duration_of_millis`, a function of the argument alone.
#[verifier::external_body]
fn duration_from_millis(millis: u64) -> (d: Duration)
    ensures
        d == duration_of_millis(millis),
{
    Duration::from_millis(millis)
}

/// `Clone::clone` of `std::time::Duration`, a `Copy` type: the clone is the
/// same value.
pub assume_specification[ <Duration as Clone>::clone ](d: &Duration) -> (r: Duration)
    ensures
        r == *d,
;

/// A builder's settings as plain values: timeout, socket address, token and
/// client name, each of the last three absent where the caller gave none.
pub type BuilderSettings = (Duration, Option<Seq<char>>, Option<Seq<char>>, Option<Seq<char>>);

/// The settings with the timeout replaced.
pub open spec fn with_timeout(s: BuilderSettings, timeout: Duration) -> BuilderSettings {
    (timeout, s.1, s.2, s.3)
}

/// The settings with the socket address replaced.
pub open spec fn with_socket_uri(s: BuilderSettings, socket: Seq<char>) -> BuilderSettings {
    (s.0, Some(socket), s.2, s.3)
}

/// The settings with the token replaced.
pub open spec fn with_token(s: BuilderSettings, token: Seq<char>) -> BuilderSettings {
    (s.0, s.1, Some(token), s.3)
}

/// The settings with the client name replaced.
pub open spec fn with_client_name(s: BuilderSettings, name: Seq<char>) -> BuilderSettings {
    (s.0, s.1, s.2, Some(name))
}

/// Setting a builder's value twice keeps the last one: a second `token`
/// (or `timeout`, `socket_path`, `client_name`) call overrides the first
/// and leaves every other setting as it was.
pub proof fn lemma_last_setting_wins(
    s: BuilderSettings,
    t1: Duration,
    t2: Duration,
    a: Seq<char>,
    c: Seq<char>,
)
    ensures
        with_token(with_token(s, a), c) == with_token(s, c),
        with_token(s, c).2 == Some(c) && with_token(s, c).0 == s.0 && with_token(s, c).1 == s.1
            && with_token(s, c).3 == s.3,
        with_timeout(with_timeout(s, t1), t2) == with_timeout(s, t2),
        with_socket_uri(with_socket_uri(s, a), c) == with_socket_uri(s, c),
        with_client_name(with_client_name(s, a), c) == with_client_name(s, c),
{
}

/// Settings of different kinds do not interfere: setting the token and
/// another value gives the same settings in either order.
pub proof fn lemma_settings_commute(s: BuilderSettings, t: Duration, a: Seq<char>, c: Seq<char>)
    ensures
        with_timeout(with_token(s, a), t) == with_token(with_timeout(s, t), a),
        with_socket_uri(with_token(s, a), c) == with_token(with_socket_uri(s, c), a),
        with_client_name(with_token(s, a), c) == with_token(with_client_name(s, c), a),
{
}

/// The settings a client is built from.
#[derive(Clone, Debug)]
struct ClientConfig {
    timeout: Duration,
    socket_uri: Option<String>,
    token: Option<String>,
    client_name: Option<String>,
}

/// Collects the settings for a connection to KiCad.
#[derive(Clone, Debug)]
pub struct ClientBuilder {
    config: ClientConfig,
}

impl ClientBuilder {
    /// The request timeout.
    pub closed spec fn timeout_spec(&self) -> Duration {
        self.config.timeout
    }

    /// The socket address given by the caller, if any.
    pub closed spec fn socket_uri_spec(&self) -> Option<Seq<char>> {
        opt_view(self.config.socket_uri)
    }

    /// The API token given by the caller, if any.
    pub closed spec fn token_spec(&self) -> Option<Seq<char>> {
        opt_view(self.config.token)
    }

    /// The client name given by the caller, if any.
    pub closed spec fn client_name_spec(&self) -> Option<Seq<char>> {
        opt_view(self.config.client_name)
    }

    /// All the settings: timeout, socket address, token and client name.
    pub open spec fn settings(&self) -> BuilderSettings {
        (self.timeout_spec(), self.socket_uri_spec(), self.token_spec(), self.client_name_spec())
    }

    /// Settings with a timeout of three seconds and nothing else given.
    pub fn new() -> (r: Self)
        ensures
            r.timeout_spec() == duration_of_millis(3000),
            r.socket_uri_spec() is None,
            r.token_spec() is None,
            r.client_name_spec() is None,
    {
        ClientBuilder {
            config: ClientConfig {
                timeout: duration_from_millis(3000),
                socket_uri: None,
                token: None,
                client_name: None,
            },
        }
    }

    /// Sets the request timeout.
    pub fn timeout(self, timeout: Duration) -> (r: Self)
        ensures
            r.timeout_spec() == timeout,
            r.socket_uri_spec() == self.socket_uri_spec(),
            r.token_spec() == self.token_spec(),
            r.client_name_spec() == self.client_name_spec(),
            r.settings() == with_timeout(self.settings(), timeout),
    {
        let mut b = self;
        b.config.timeout = timeout;
        b
    }

    /// Sets the socket path or address.
    pub fn socket_path(self, socket_path: &str) -> (r: Self)
        ensures
            r.timeout_spec() == self.timeout_spec(),
            r.socket_uri_spec() == Some(socket_path@),
            r.token_spec() == self.token_spec(),
            r.client_name_spec() == self.client_name_spec(),
            r.settings() == with_socket_uri(self.settings(), socket_path@),
    {
        let mut b = self;
        b.config.socket_uri = Some(String::from_str(socket_path));
        b
    }

    /// Sets the API token.
    pub fn token(self, token: &str) -> (r: Self)
        ensures
            r.timeout_spec() == self.timeout_spec(),
            r.socket_uri_spec() == self.socket_uri_spec(),
            r.token_spec() == Some(token@),
            r.client_name_spec() == self.client_name_spec(),
            r.settings() == with_token(self.settings(), token@),
    {
        let mut b = self;
        b.config.token = Some(String::from_str(token));
        b
    }

    /// Sets the name the client announces.
    pub fn client_name(self, client_name: &str) -> (r: Self)
        ensures
            r.timeout_spec() == self.timeout_spec(),
            r.socket_uri_spec() == self.socket_uri_spec(),
            r.token_spec() == self.token_spec(),
            r.client_name_spec() == Some(client_name@),
            r.settings() == with_client_name(self.settings(), client_name@),
    {
        let mut b = self;
        b.config.client_name = Some(String::from_str(client_name));
        b
    }

    /// The request timeout.
    pub fn configured_timeout(&self) -> (r: Duration)
        ensures
            r == self.timeout_spec(),
    {
        self.config.timeout
    }

    /// The socket address given by the caller, if any.
    pub fn configured_socket_uri(&self) -> (r: Option<String>)
        ensures
            opt_view(r) == self.socket_uri_spec(),
    {
        clone_opt_string(&self.config.socket_uri)
    }

    /// The API token given by the caller, if any.
    pub fn configured_token(&self) -> (r: Option<String>)
        ensures
            opt_view(r) == self.token_spec(),
    {
        clone_opt_string(&self.config.token)
    }

    /// The client name given by the caller, if any.
    pub fn configured_client_name(&self) -> (r: Option<String>)
        ensures
            opt_view(r) == self.client_name_spec(),
    {
        clone_opt_string(&self.config.client_name)
    }
}

impl Default for ClientBuilder {
    fn default() -> (r: Self)
        ensures
            r.timeout_spec() == duration_of_millis(3000),
            r.socket_uri_spec() is None,
            r.token_spec() is None,
            r.client_name_spec() is None,
    {
        Self::new()
    }
}

/// A path with a relative path appended, as `PathBuf::push` does on Unix:
/// a separator goes between them unless the base is empty or ends in one.
pub open spec fn joined_path(base: Seq<char>, rel: Seq<char>) -> Seq<char> {
    if base.len() == 0 || base.last() == '/' {
        base + rel
    } else {
        base + seq!['/'] + rel
    }
}

/// Appends a relative path to a base path.
pub fn join_path(base: &str, rel: &str) -> (r: String)
    ensures
        r@ == joined_path(base@, rel@),
{
    let n = base.unicode_len();
    let mut s = String::from_str(base);
    if n > 0 && base.get_char(n - 1) != '/' {
        push_char(&mut s, '/');
    }
    s.append(rel);
    s
}

/// Where the Flatpak build of KiCad puts its socket, under a home directory.
pub open spec fn flatpak_socket_path_of(home: Seq<char>) -> Seq<char> {
    joined_path(home, ".var/app/org.kicad.KiCad/cache/tmp/kicad/api.sock"@)
}

/// Where the Flatpak build of KiCad puts its socket, under a home directory.
pub fn flatpak_socket_path(home: &str) -> (r: String)
    ensures
        r@ == flatpak_socket_path_of(home@),
{
    join_path(home, ".var/app/org.kicad.KiCad/cache/tmp/kicad/api.sock")
}

/// The default socket path on Unix: the Flatpak socket where it exists,
/// else `/tmp/kicad/api.sock`.
pub fn default_socket_path(flatpak_path: Option<&str>, flatpak_exists: bool) -> (r: String)
    ensures
        r@ == match flatpak_path {
            Some(p) => if flatpak_exists {
                p@
            } else {
                "/tmp/kicad/api.sock"@
            },
            None => "/tmp/kicad/api.sock"@,
        },
{
    match flatpak_path {
        Some(p) => {
            if flatpak_exists {
                String::from_str(p)
            } else {
                String::from_str("/tmp/kicad/api.sock")
            }
        },
        None => String::from_str("/tmp/kicad/api.sock"),
    }
}

/// The token a new client starts with: the one given, else the one from
/// the environment variable `KICAD_API_TOKEN`, else none (empty).
pub fn initial_token(explicit: Option<String>, env_token: Option<String>) -> (r: String)
    ensures
        r@ == match explicit {
            Some(t) => t@,
            None => match env_token {
                Some(t) => t@,
                None => Seq::<char>::empty(),
            },
        },
{
    match explicit {
        Some(t) => t,
        None => match env_token {
            Some(t) => t,
            None => String::new(),
        },
    }
}

/// The name a client announces when none is given:
/// `kicad-ipc-<process id>-<milliseconds since the epoch>`.
pub fn default_client_name(process_id: u32, millis: u128) -> (r: String)
    ensures
        r@ == "kicad-ipc-"@ + nat_decimal(process_id as nat) + "-"@ + nat_decimal(millis as nat),
{
    let mut s = String::from_str("kicad-ipc-");
    push_decimal_u128(&mut s, process_id as u128);
    s.append("-");
    push_decimal_u128(&mut s, millis);
    s
}

/// The token to remember after a reply: only while the client has none,
/// and only a non-empty one that KiCad handed out.
pub open spec fn token_to_remember(current: Seq<char>, reply_token: Option<Seq<char>>) -> Option<
    Seq<char>,
> {
    if current.len() == 0 {
        match reply_token {
            Some(t) => if t.len() > 0 {
                Some(t)
            } else {
                None
            },
            None => None,
        }
    } else {
        None
    }
}

/// Decides whether the token in a reply replaces the client's token.
pub fn token_update(current: &str, reply_token: Option<&str>) -> (r: Option<String>)
    ensures
        opt_view(r) == token_to_remember(
            current@,
            match reply_token {
                Some(t) => Some(t@),
                None => None,
            },
        ),
{
    if current.unicode_len() == 0 {
        match reply_token {
            Some(t) => {
                if t.unicode_len() > 0 {
                    Some(String::from_str(t))
                } else {
                    None
                }
            },
            None => None,
        }
    } else {
        None
    }
}

/// The name of a reply status code (`kiapi.common.ApiStatusCode`); a code
/// outside the enumeration reads as the unknown status.
pub open spec fn api_status_name(code: i32) -> Seq<char> {
    if code == 1 {
        "AS_OK"@
    } else if code == 2 {
        "AS_TIMEOUT"@
    } else if code == 3 {
        "AS_BAD_REQUEST"@
    } else if code == 4 {
        "AS_NOT_READY"@
    } else if code == 5 {
        "AS_UNHANDLED"@
    } else if code == 6 {
        "AS_TOKEN_MISMATCH"@
    } else if code == 7 {
        "AS_BUSY"@
    } else if code == 8 {
        "AS_UNIMPLEMENTED"@
    } else {
        "AS_UNKNOWN"@
    }
}

fn api_status_name_of(code: i32) -> (r: String)
    ensures
        r@ == api_status_name(code),
{
    if code == 1 {
        String::from_str("AS_OK")
    } else if code == 2 {
        String::from_str("AS_TIMEOUT")
    } else if code == 3 {
        String::from_str("AS_BAD_REQUEST")
    } else if code == 4 {
        String::from_str("AS_NOT_READY")
    } else if code == 5 {
        String::from_str("AS_UNHANDLED")
    } else if code == 6 {
        String::from_str("AS_TOKEN_MISMATCH")
    } else if code == 7 {
        String::from_str("AS_BUSY")
    } else if code == 8 {
        String::from_str("AS_UNIMPLEMENTED")
    } else {
        String::from_str("AS_UNKNOWN")
    }
}

/// What a reply ends a request with: a reply whose status is not OK (code
/// 1) ends it with an API status error that names the status and carries
/// its message, and no token is taken from it; an OK reply ends it well,
/// with the token to remember from it, if any.
pub fn reply_outcome(current_token: &str, status: &proto::ResponseStatus, reply_token: Option<&str>) -> (r:
    Result<Option<String>, KiCadError>)
    ensures
        status.status != 1 ==> (r matches Err(KiCadError::ApiStatus { code, message }) && code@
            == api_status_name(status.status) && message@ == status.error_message@),
        status.status == 1 ==> (r matches Ok(t) && opt_view(t) == token_to_remember(
            current_token@,
            match reply_token {
                Some(t) => Some(t@),
                None => None,
            },
        )),
{
    if status.status != 1 {
        return Err(
            KiCadError::ApiStatus {
                code: api_status_name_of(status.status),
                message: status.error_message.clone(),
            },
        );
    }
    Ok(token_update(current_token, reply_token))
}

/// Once a client holds a token, no reply changes it; and it only ever takes
/// a non-empty token.
pub proof fn lemma_token_is_kept(current: Seq<char>, reply_token: Option<Seq<char>>)
    ensures
        current.len() > 0 ==> token_to_remember(current, reply_token) is None,
        token_to_remember(current, reply_token) matches Some(t) ==> t.len() > 0,
{
}

/// The error for a failed send: a timeout where the transport timed out,
/// else the transport's own reason.
pub fn map_send_error(timed_out: bool, reason: String, timeout: Duration) -> (r: KiCadError)
    ensures
        timed_out ==> (r matches KiCadError::Timeout { timeout: t } && t == timeout),
        !timed_out ==> (r matches KiCadError::TransportSend { reason: m } && m@ == reason@),
{
    if timed_out {
        KiCadError::Timeout { timeout }
    } else {
        KiCadError::TransportSend { reason }
    }
}

/// The error for a failed receive: a timeout where the transport timed out,
/// else the transport's own reason.
pub fn map_receive_error(timed_out: bool, reason: String, timeout: Duration) -> (r: KiCadError)
    ensures
        timed_out ==> (r matches KiCadError::Timeout { timeout: t } && t == timeout),
        !timed_out ==> (r matches KiCadError::TransportReceive { reason: m } && m@ == reason@),
{
    if timed_out {
        KiCadError::Timeout { timeout }
    } else {
        KiCadError::TransportReceive { reason }
    }
}

} // verus!
