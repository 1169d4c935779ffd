//! Per-window metadata extraction for the published window list.
//!
//! A mapped window is either native — its toplevel role carries title,
//! application id, modal flag and optional parent — or managed by a foreign
//! toolkit, which carries its own metadata model. Every record is produced
//! fresh on each snapshot and serialized immediately; absent fields degrade
//! to placeholders, and an unresolvable foreign surface degrades to an error
//! record, so a single malformed window never blocks the rest.

use crate::json::{
    append_bool, append_bytes, append_dec_u64, append_json_string, append_literal, bool_bytes,
    dec_of, joined, json_string, lemma_joined_push,
};
use vstd::prelude::*;
use vstd::string::StringSliceAdditionalSpecFns;
use vstd::utf8::encode_utf8;

verus! {

/// The toplevel-role metadata of a native window; every field the role does
/// not carry is `None`.
#[derive(Clone, PartialEq, Eq, Debug)]
pub struct ToplevelMeta {
    /// The window title, when set.
    pub title: Option<Vec<u8>>,
    /// The application id, when set.
    pub app_id: Option<Vec<u8>>,
    /// Whether the window is modal.
    pub modal: bool,
    /// The parent surface's object id, when the window has a parent.
    pub parent_id: Option<u64>,
}

/// The metadata a foreign-toolkit surface carries.
#[derive(Clone, PartialEq, Eq, Debug)]
pub struct ForeignMeta {
    /// The foreign window id.
    pub window_id: u64,
    pub title: Vec<u8>,
    /// The window class.
    pub class: Vec<u8>,
    /// The window instance.
    pub instance: Vec<u8>,
    /// The owning process id.
    pub pid: u32,
}

/// One window as the snapshot builder sees it.
#[derive(Clone, PartialEq, Eq, Debug)]
pub enum WindowEntry {
    /// A window with no backing surface at all: skipped, never an error.
    Unmapped,
    /// A native window with its toplevel metadata.
    Native(ToplevelMeta),
    /// A foreign-toolkit window; `None` when its foreign surface cannot be
    /// resolved.
    Foreign(Option<ForeignMeta>),
}

/// The published title: the window's own, or a placeholder.
pub open spec fn title_repr(m: ToplevelMeta) -> Seq<u8> {
    match m.title {
        Some(t) => t@,
        None => encode_utf8("No Title"@),
    }
}

/// The published application id: the window's own, or a placeholder.
pub open spec fn app_id_repr(m: ToplevelMeta) -> Seq<u8> {
    match m.app_id {
        Some(a) => a@,
        None => encode_utf8("No App ID"@),
    }
}

/// The published parent id: the parent's id in decimal, or a placeholder.
pub open spec fn parent_repr(m: ToplevelMeta) -> Seq<u8> {
    match m.parent_id {
        Some(id) => dec_of(id as nat),
        None => encode_utf8("None"@),
    }
}

/// The record published for a native window: one JSON object with keys in
/// lexicographic order, absent fields replaced by their placeholders.
pub open spec fn native_record_json(m: ToplevelMeta) -> Seq<u8> {
    encode_utf8("{\"app_id\":"@) + json_string(app_id_repr(m)) + encode_utf8(",\"is_modal\":"@)
        + bool_bytes(m.modal) + encode_utf8(",\"parent_id\":"@) + json_string(parent_repr(m))
        + encode_utf8(",\"title\":"@) + json_string(title_repr(m)) + encode_utf8("}"@)
}

/// The record published for a foreign-toolkit window: one JSON object with
/// keys in lexicographic order; the window id is published as a string, the
/// process id as a number.
pub open spec fn foreign_record_json(m: ForeignMeta) -> Seq<u8> {
    encode_utf8("{\"class\":"@) + json_string(m.class@) + encode_utf8(",\"instance\":"@)
        + json_string(m.instance@) + encode_utf8(",\"pid\":"@) + dec_of(m.pid as nat)
        + encode_utf8(",\"title\":"@) + json_string(m.title@) + encode_utf8(",\"window_id\":"@)
        + json_string(dec_of(m.window_id as nat)) + encode_utf8("}"@)
}

/// The record published for a foreign-toolkit window whose foreign surface
/// cannot be resolved.
pub open spec fn foreign_error_json() -> Seq<u8> {
    encode_utf8("{\"error\":\"invalid foreign surface\"}"@)
}

/// What one window contributes to the snapshot: nothing when it has no
/// backing surface, its record otherwise.
pub open spec fn entry_record(e: WindowEntry) -> Option<Seq<u8>> {
    match e {
        WindowEntry::Unmapped => None,
        WindowEntry::Native(m) => Some(native_record_json(m)),
        WindowEntry::Foreign(f) => match f {
            Some(m) => Some(foreign_record_json(m)),
            None => Some(foreign_error_json()),
        },
    }
}

/// Serialize the metadata of a native window as its published record.
pub fn get_window_info(meta: &ToplevelMeta) -> (r: Vec<u8>)
    ensures
        r@ == native_record_json(*meta),
{
    let mut out: Vec<u8> = Vec::new();
    append_literal(&mut out, "{\"app_id\":");
    match &meta.app_id {
        Some(a) => append_json_string(&mut out, a.as_slice()),
        None => append_json_string(&mut out, "No App ID".as_bytes()),
    }
    append_literal(&mut out, ",\"is_modal\":");
    append_bool(&mut out, meta.modal);
    append_literal(&mut out, ",\"parent_id\":");
    match meta.parent_id {
        Some(id) => {
            let mut digits: Vec<u8> = Vec::new();
            append_dec_u64(&mut digits, id);
            append_json_string(&mut out, digits.as_slice());
        },
        None => append_json_string(&mut out, "None".as_bytes()),
    }
    append_literal(&mut out, ",\"title\":");
    match &meta.title {
        Some(t) => append_json_string(&mut out, t.as_slice()),
        None => append_json_string(&mut out, "No Title".as_bytes()),
    }
    append_literal(&mut out, "}");
    assert(out@ =~= native_record_json(*meta));
    out
}

/// Serialize the metadata of a foreign-toolkit window as its published
/// record.
pub fn get_x11_window_info(meta: &ForeignMeta) -> (r: Vec<u8>)
    ensures
        r@ == foreign_record_json(*meta),
{
    let mut out: Vec<u8> = Vec::new();
    append_literal(&mut out, "{\"class\":");
    append_json_string(&mut out, meta.class.as_slice());
    append_literal(&mut out, ",\"instance\":");
    append_json_string(&mut out, meta.instance.as_slice());
    append_literal(&mut out, ",\"pid\":");
    append_dec_u64(&mut out, meta.pid as u64);
    append_literal(&mut out, ",\"title\":");
    append_json_string(&mut out, meta.title.as_slice());
    append_literal(&mut out, ",\"window_id\":");
    let mut digits: Vec<u8> = Vec::new();
    append_dec_u64(&mut digits, meta.window_id);
    append_json_string(&mut out, digits.as_slice());
    append_literal(&mut out, "}");
    assert(out@ =~= foreign_record_json(*meta));
    out
}

/// The record published for a foreign-toolkit window whose foreign surface
/// cannot be resolved.
pub fn foreign_error_info() -> (r: Vec<u8>)
    ensures
        r@ == foreign_error_json(),
{
    let mut out: Vec<u8> = Vec::new();
    append_literal(&mut out, "{\"error\":\"invalid foreign surface\"}");
    assert(out@ =~= foreign_error_json());
    out
}

/// Serialize a list of native-window metadata, one record per window, in the
/// given order.
pub fn list_toplevel_windows(toplevels: &Vec<ToplevelMeta>) -> (r: Vec<Vec<u8>>)
    ensures
        r@.len() == toplevels@.len(),
        forall|i: int| 0 <= i < r@.len() ==> r@[i]@ == native_record_json(toplevels@[i]),
{
    let mut out: Vec<Vec<u8>> = Vec::new();
    let mut i: usize = 0;
    while i < toplevels.len()
        invariant
            i <= toplevels@.len(),
            out@.len() == i,
            forall|j: int| 0 <= j < i ==> out@[j]@ == native_record_json(toplevels@[j]),
        decreases toplevels@.len() - i,
    {
        let rec = get_window_info(&toplevels[i]);
        out.push(rec);
        i = i + 1;
    }
    out
}

/// The records of a window set, in enumeration order, windows with no
/// backing surface skipped; no deduplication, no sorting.
pub open spec fn window_records(ws: Seq<WindowEntry>) -> Seq<Seq<u8>>
    decreases ws.len(),
{
    if ws.len() == 0 {
        Seq::empty()
    } else {
        let rest = window_records(ws.drop_first());
        match entry_record(ws[0]) {
            Some(r) => seq![r] + rest,
            None => rest,
        }
    }
}

/// One more window contributes its record at the end, or nothing.
pub proof fn lemma_window_records_push(ws: Seq<WindowEntry>, e: WindowEntry)
    ensures
        window_records(ws.push(e)) == window_records(ws) + (match entry_record(e) {
            Some(r) => seq![r],
            None => Seq::<Seq<u8>>::empty(),
        }),
    decreases ws.len(),
{
    let tail = match entry_record(e) {
        Some(r) => seq![r],
        None => Seq::<Seq<u8>>::empty(),
    };
    if ws.len() == 0 {
        assert(ws.push(e).drop_first() =~= Seq::<WindowEntry>::empty());
        assert(window_records(Seq::<WindowEntry>::empty()) == Seq::<Seq<u8>>::empty());
        assert(window_records(ws.push(e)) =~= window_records(ws) + tail);
    } else {
        lemma_window_records_push(ws.drop_first(), e);
        assert(ws.push(e).drop_first() =~= ws.drop_first().push(e));
        assert(window_records(ws.push(e)) =~= window_records(ws) + tail);
    }
}

/// Snapshot completeness: a window set of native windows alone — none
/// foreign, none unmapped — produces exactly one record per window, in
/// enumeration order, each with that window's fields.
pub proof fn lemma_snapshot_completeness(ws: Seq<WindowEntry>)
    requires
        forall|i: int| 0 <= i < ws.len() ==> (#[trigger] ws[i]) is Native,
    ensures
        window_records(ws).len() == ws.len(),
        forall|i: int|
            0 <= i < ws.len() ==> window_records(ws)[i] == native_record_json(
                (#[trigger] ws[i])->Native_0,
            ),
    decreases ws.len(),
{
    if ws.len() > 0 {
        lemma_snapshot_completeness(ws.drop_first());
        assert(ws[0] is Native);
        assert forall|i: int| 0 <= i < ws.len() implies window_records(ws)[i]
            == native_record_json((#[trigger] ws[i])->Native_0) by {
            if i > 0 {
                assert(window_records(ws)[i] == window_records(ws.drop_first())[i - 1]);
                assert(ws.drop_first()[i - 1] == ws[i]);
            }
        }
    }
}

/// The published window list: one JSON array holding every record, in
/// enumeration order.
pub open spec fn window_list_json(ws: Seq<WindowEntry>) -> Seq<u8> {
    seq![0x5bu8] + joined(window_records(ws)) + seq![0x5du8]
}

/// Serialize a window set as the published window list.
pub fn build_window_list(windows: &Vec<WindowEntry>) -> (r: Vec<u8>)
    ensures
        r@ == window_list_json(windows@),
{
    let mut out: Vec<u8> = Vec::new();
    out.push(0x5b);
    let mut first: bool = true;
    let mut i: usize = 0;
    proof {
        assert(windows@.take(0) =~= Seq::<WindowEntry>::empty());
    }
    while i < windows.len()
        invariant
            i <= windows@.len(),
            first <==> window_records(windows@.take(i as int)).len() == 0,
            out@ == seq![0x5bu8] + joined(window_records(windows@.take(i as int))),
        decreases windows@.len() - i,
    {
        let ghost prefix = windows@.take(i as int);
        let rec: Option<Vec<u8>> = match &windows[i] {
            WindowEntry::Unmapped => None,
            WindowEntry::Native(m) => Some(get_window_info(m)),
            WindowEntry::Foreign(f) => match f {
                Some(m) => Some(get_x11_window_info(m)),
                None => Some(foreign_error_info()),
            },
        };
        proof {
            lemma_window_records_push(prefix, windows@[i as int]);
            assert(prefix.push(windows@[i as int]) =~= windows@.take(i as int + 1));
        }
        match rec {
            Some(bytes) => {
                proof {
                    assert(entry_record(windows@[i as int]) == Some(bytes@));
                    assert(window_records(windows@.take(i as int + 1)) =~= window_records(
                        prefix,
                    ).push(bytes@));
                    lemma_joined_push(window_records(prefix), bytes@);
                }
                if first {
                    first = false;
                } else {
                    out.push(0x2c);
                }
                append_bytes(&mut out, bytes.as_slice());
            },
            None => {
                assert(window_records(prefix.push(windows@[i as int])) =~= window_records(prefix));
            },
        }
        i = i + 1;
        assert(out@ =~= seq![0x5bu8] + joined(window_records(windows@.take(i as int))));
    }
    proof {
        assert(windows@.take(windows@.len() as int) =~= windows@);
    }
    out.push(0x5d);
    assert(out@ =~= window_list_json(windows@));
    out
}

} // verus!
