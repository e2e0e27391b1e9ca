//! Properties of the parser that relate several steps or hold for every input,
//! stated over the model of `parser` and proved.
use vstd::prelude::*;

use crate::internal_structs::has_default;
use crate::parser::{
    apply_action_key, apply_entry_key, entry_fault, finish, header_of, is_header_line,
    is_skipped, kept_lines, kept_upto, lemma_scan_err, list_of, parse_model, scan, scan_start,
    HeaderModel, LineModel, RecordModel, ScanModel,
};
use crate::structs::{ActionModel, EntryModel, ErrorModel, FileModel, KindModel};
use crate::text::{lemma_split_by_nonempty, split_by};

verus! {

/// Parsing depends on the text alone: equal texts give equal results.
pub proof fn lemma_parse_deterministic(a: Seq<char>, b: Seq<char>)
    requires
        a == b,
    ensures
        parse_model(a) == parse_model(b),
{
}

/// A `;` that ends a list value adds no element: the list of `v;` is exactly the
/// pieces of `v` between separators.
pub proof fn lemma_list_trailing_separator(v: Seq<char>)
    ensures
        list_of(v.push(';')) == split_by(v, ';'),
{
    assert(v.push(';').drop_last() =~= v);
}

/// A list value that does not end with `;` keeps every piece, empty ones included.
pub proof fn lemma_list_keeps_pieces(v: Seq<char>)
    requires
        v.len() > 0,
        v.last() != ';',
    ensures
        list_of(v) == split_by(v, ';'),
{
    lemma_split_by_nonempty(v.drop_last(), ';');
}

/// A second `Exec` in the primary group is refused, citing the line of the second.
pub proof fn lemma_entry_exec_twice(m: EntryModel, r: RecordModel)
    requires
        r.key == "Exec"@,
        m.app.exec is Some,
    ensures
        apply_entry_key(m, r) == Err::<EntryModel, ErrorModel>(
            ErrorModel::RepetitiveKey { key: "Exec"@, row: r.row, col: 0 },
        ),
{
    reveal_strlit("Exec");
    reveal_strlit("Type");
    reveal_strlit("Version");
    reveal_strlit("Name");
    reveal_strlit("GenericName");
    reveal_strlit("NoDisplay");
    reveal_strlit("Comment");
    reveal_strlit("Icon");
    reveal_strlit("Hidden");
    reveal_strlit("OnlyShowIn");
    reveal_strlit("NotShowIn");
    reveal_strlit("DBusActivatable");
    reveal_strlit("TryExec");
    assert(r.key[0] == 'E');
    assert(r.key.len() == 4);
}

/// A second `Exec` in an action group is refused, citing the line of the second.
pub proof fn lemma_action_exec_twice(a: ActionModel, r: RecordModel)
    requires
        r.key == "Exec"@,
        a.exec is Some,
    ensures
        apply_action_key(a, r) == Err::<ActionModel, ErrorModel>(
            ErrorModel::RepetitiveKey { key: "Exec"@, row: r.row, col: 0 },
        ),
{
    reveal_strlit("Exec");
    reveal_strlit("Name");
    assert(r.key[0] == 'E');
}

/// Whether the first `n` lines hold a header of the primary group.
pub open spec fn primary_before(lines: Seq<LineModel>, n: nat) -> bool {
    exists|i: int|
        0 <= i < n && is_header_line(lines[i]) && #[trigger] header_of(lines[i]) == Ok::<
            HeaderModel,
            ErrorModel,
        >(HeaderModel::Primary)
}

/// While a scan goes on, it has seen the primary header exactly when one of the lines
/// read so far is that header; and then it has seen a header.
pub proof fn lemma_scan_seen_primary(lines: Seq<LineModel>, n: nat)
    requires
        n <= lines.len(),
        scan(lines, n) is Ok,
    ensures
        scan(lines, n)->Ok_0.seen_primary == primary_before(lines, n),
        scan(lines, n)->Ok_0.seen_primary ==> scan(lines, n)->Ok_0.seen_group,
    decreases n,
{
    if n > 0 {
        let m = (n - 1) as nat;
        if scan(lines, m) is Err {
            lemma_scan_err(lines, m, n);
        }
        lemma_scan_seen_primary(lines, m);
        let l = lines[m as int];
        if is_header_line(l) && header_of(l) == Ok::<HeaderModel, ErrorModel>(HeaderModel::Primary) {
            assert(primary_before(lines, n));
        } else {
            if primary_before(lines, n) {
                let i = choose|i: int|
                    0 <= i < n && is_header_line(lines[i]) && #[trigger] header_of(lines[i])
                        == Ok::<HeaderModel, ErrorModel>(HeaderModel::Primary);
                assert(i != m);
                assert(primary_before(lines, m));
            }
            if primary_before(lines, m) {
                let i = choose|i: int|
                    0 <= i < m && is_header_line(lines[i]) && #[trigger] header_of(lines[i])
                        == Ok::<HeaderModel, ErrorModel>(HeaderModel::Primary);
                assert(0 <= i < n);
            }
        }
    }
}

/// An action header before any primary header makes the parse fail with a
/// FormatError at the action header's line.
pub proof fn lemma_action_before_entry(input: Seq<char>, n: nat, name: Seq<char>)
    requires
        n < kept_lines(input).len(),
        scan(kept_lines(input), n) is Ok,
        !primary_before(kept_lines(input), n),
        is_header_line(kept_lines(input)[n as int]),
        header_of(kept_lines(input)[n as int]) == Ok::<HeaderModel, ErrorModel>(
            HeaderModel::Sub(name),
        ),
    ensures
        parse_model(input) == Err::<FileModel, ErrorModel>(
            ErrorModel::FormatError { row: kept_lines(input)[n as int].row, col: 0 },
        ),
{
    let lines = kept_lines(input);
    lemma_scan_seen_primary(lines, n);
    lemma_scan_err(lines, n + 1, lines.len());
}

/// A primary header after another one makes the parse fail with a RepetitiveEntry at
/// the second one's line.
pub proof fn lemma_second_entry(input: Seq<char>, n: nat)
    requires
        n < kept_lines(input).len(),
        scan(kept_lines(input), n) is Ok,
        primary_before(kept_lines(input), n),
        is_header_line(kept_lines(input)[n as int]),
        header_of(kept_lines(input)[n as int]) == Ok::<HeaderModel, ErrorModel>(
            HeaderModel::Primary,
        ),
    ensures
        parse_model(input) == Err::<FileModel, ErrorModel>(
            ErrorModel::RepetitiveEntry { row: kept_lines(input)[n as int].row, col: 0 },
        ),
{
    let lines = kept_lines(input);
    lemma_scan_seen_primary(lines, n);
    lemma_scan_err(lines, n + 1, lines.len());
}

/// A link with a name but no URL is refused with "URL required for Link"; with a
/// URL, and nothing else amiss, it is accepted.
pub proof fn lemma_link_needs_url(s: ScanModel)
    requires
        s.entry.entry_type == Some(KindModel::Link),
        s.entry.name matches Some(n) && n.default is Some,
    ensures
        s.entry.url is None ==> finish(s) == Err::<FileModel, ErrorModel>(
            ErrorModel::KeyError { msg: "URL required for Link"@ },
        ),
        (s.entry.url is Some && has_default(s.entry.generic_name) && has_default(s.entry.comment)
            && forall|i: int|
            0 <= i < s.subs.len() ==> crate::internal_structs::action_complete(
                #[trigger] s.subs[i],
            )) ==> finish(s) is Ok,
{
    crate::parser::lemma_first_unnamed(s.subs, 0);
}

/// A `Type` this library does not know is kept as written rather than refused.
pub proof fn lemma_unknown_type_kept(m: EntryModel, r: RecordModel)
    requires
        r.key == "Type"@,
        m.entry_type is None,
        r.value != "Application"@,
        r.value != "Link"@,
        r.value != "Directory"@,
    ensures
        apply_entry_key(m, r) == Ok::<EntryModel, ErrorModel>(
            EntryModel { entry_type: Some(KindModel::Unknown(r.value)), ..m },
        ),
{
}

/// The keys of the primary group.
pub open spec fn is_entry_key(k: Seq<char>) -> bool {
    ||| k == "Type"@
    ||| k == "Version"@
    ||| k == "Name"@
    ||| k == "GenericName"@
    ||| k == "NoDisplay"@
    ||| k == "Comment"@
    ||| k == "Icon"@
    ||| k == "Hidden"@
    ||| k == "OnlyShowIn"@
    ||| k == "NotShowIn"@
    ||| k == "DBusActivatable"@
    ||| k == "TryExec"@
    ||| k == "Exec"@
    ||| k == "Path"@
    ||| k == "Terminal"@
    ||| k == "Actions"@
    ||| k == "MimeType"@
    ||| k == "Categories"@
    ||| k == "Implements"@
    ||| k == "Keywords"@
    ||| k == "StartupNotify"@
    ||| k == "StartupWMClass"@
    ||| k == "URL"@
    ||| k == "PrefersNonDefaultGPU"@
    ||| k == "SingleMainWindow"@
}

/// A key the primary group does not know is accepted and changes nothing.
pub proof fn lemma_unknown_key_ignored(m: EntryModel, r: RecordModel)
    requires
        !is_entry_key(r.key),
    ensures
        apply_entry_key(m, r) == Ok::<EntryModel, ErrorModel>(m),
{
}

/// A key an action group does not know is accepted and changes nothing.
pub proof fn lemma_unknown_action_key_ignored(a: ActionModel, r: RecordModel)
    requires
        r.key != "Name"@,
        r.key != "Exec"@,
        r.key != "Icon"@,
    ensures
        apply_action_key(a, r) == Ok::<ActionModel, ErrorModel>(a),
{
}

proof fn lemma_all_skipped(raws: Seq<Seq<char>>, n: nat)
    requires
        n <= raws.len(),
        forall|i: int| 0 <= i < raws.len() ==> is_skipped(#[trigger] raws[i]),
    ensures
        kept_upto(raws, n).len() == 0,
    decreases n,
{
    if n > 0 {
        lemma_all_skipped(raws, (n - 1) as nat);
    }
}

/// A text whose lines are all blank or comments is refused: it gives no type.
pub proof fn lemma_only_comments(input: Seq<char>)
    requires
        forall|i: int|
            0 <= i < split_by(input, '\n').len() ==> is_skipped(#[trigger] split_by(input, '\n')[i]),
    ensures
        parse_model(input) == Err::<FileModel, ErrorModel>(
            ErrorModel::KeyError { msg: "type is required"@ },
        ),
{
    let raws = split_by(input, '\n');
    lemma_all_skipped(raws, raws.len());
    assert(scan(kept_lines(input), 0) == Ok::<ScanModel, ErrorModel>(scan_start()));
}

/// Once a type is given, a primary group without a name is refused for that.
pub proof fn lemma_name_required(m: EntryModel)
    requires
        m.entry_type is Some,
        m.name is None,
    ensures
        entry_fault(m) == Some("name is required"@),
{
}

} // verus!
