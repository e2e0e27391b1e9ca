//! The parser: lines, headers, key-value records, the setters that store a
//! record's value, and the scan that assembles a whole file.
use vstd::hash_map::StringHashMap;
use vstd::prelude::*;

use crate::internal_structs::{
    action_complete, empty_action, empty_entry, entry_complete, has_default, kind_of,
    opt_locale_internal, opt_locale_list_internal, settle,
    DesktopActionInternal, DesktopEntryInternal, EntryTypeInternal, LocaleStringInternal,
    LocaleStringListInternal,
};
use crate::structs::{
    opt_icon, opt_text, opt_texts, text_map, texts, texts_map, ActionModel, AppModel,
    DesktopAction, DesktopFile, EntryModel, ErrorModel, FileModel, IconString, KindModel,
    LocaleText, LocaleTextList, ParseError,
};
use crate::text::{
    chars_of, is_control, is_control_char, lemma_skip_spaces_bounds, lemma_split_by_nonempty,
    lemma_trim_spaces_end_bounds, same_chars, skip_spaces_exec, split_by, split_chars,
    starts_with_chars, string_from, string_of, sub_vec, trim_end, trim_end_exec, trim_start,
    whole_string, utf8_len, char_width_exec, lemma_utf8_len_push, lemma_utf8_len_subrange,
    lemma_split_by_utf8_len,
};

verus! {

// ---------------------------------------------------------------------------
// Lines
// ---------------------------------------------------------------------------

/// A kept line: its characters, the column of the first of them, and its 1-based number.
pub struct LineModel {
    pub text: Seq<char>,
    pub first_col: nat,
    pub row: nat,
}

/// The line that a raw line of the file becomes: trailing white space is trimmed and a
/// single space at column 0 is dropped.
pub open spec fn line_model(raw: Seq<char>, row: nat) -> LineModel {
    let t = trim_end(raw);
    if t.len() > 0 && t[0] == ' ' {
        LineModel { text: t.drop_first(), first_col: 1, row }
    } else {
        LineModel { text: t, first_col: 0, row }
    }
}

/// Whether a raw line is blank or a comment: its first character that is not white
/// space is `#`, or there is none.
pub open spec fn is_skipped(raw: Seq<char>) -> bool {
    let t = trim_start(raw);
    t.len() == 0 || t[0] == '#'
}

/// The lines kept among the first `n` raw lines, numbered from 1.
pub open spec fn kept_upto(raws: Seq<Seq<char>>, n: nat) -> Seq<LineModel>
    decreases n,
{
    if n == 0 {
        Seq::empty()
    } else {
        let prev = kept_upto(raws, (n - 1) as nat);
        if is_skipped(raws[n - 1]) {
            prev
        } else {
            prev.push(line_model(raws[n - 1], n))
        }
    }
}

/// The lines of `input` that the parser reads, in order.
pub open spec fn kept_lines(input: Seq<char>) -> Seq<LineModel> {
    let raws = split_by(input, '\n');
    kept_upto(raws, raws.len())
}

/// Whether a line is a header: its first character is `[`.
pub open spec fn is_header_line(l: LineModel) -> bool {
    l.text.len() > 0 && l.text[0] == '['
}

/// How a kept line is read.
pub enum LineType {
    Header,
    ValPair,
}

/// A kept line of a file.
pub struct Line {
    /// The characters of the line, trimmed
    pub content: Vec<char>,
    /// The 1-based number of the line in the file
    pub line_number: usize,
    /// The column of the first character of `content`
    pub first_col: usize,
}

impl View for Line {
    type V = LineModel;

    open spec fn view(&self) -> LineModel {
        LineModel {
            text: self.content@,
            first_col: self.first_col as nat,
            row: self.line_number as nat,
        }
    }
}

impl Line {
    /// Whether every column of the line, counted in bytes, fits in a `usize`.
    pub open spec fn wf(&self) -> bool {
        self.first_col + utf8_len(self.content@) <= usize::MAX
    }

    /// The kept form of a raw line.
    pub fn from_data(line: &Vec<char>, line_number: usize) -> (r: Line)
        ensures
            r@ == line_model(line@, line_number as nat),
            utf8_len(line@) <= usize::MAX ==> r.wf(),
    {
        let end = trim_end_exec(line);
        proof {
            lemma_trim_spaces_end_bounds(line@, line@.len() as int);
        }
        if end > 0 && line[0] == ' ' {
            let content = sub_vec(line, 1, end);
            assert(content@ =~= trim_end(line@).drop_first());
            proof {
                lemma_utf8_len_subrange(line@, 1, end as int);
                lemma_utf8_len_push(Seq::<char>::empty(), ' ');
                assert(line@.subrange(0, 1) =~= Seq::<char>::empty().push(' '));
            }
            Line { content, line_number, first_col: 1 }
        } else {
            let content = sub_vec(line, 0, end);
            proof {
                lemma_utf8_len_subrange(line@, 0, end as int);
                assert(line@.subrange(0, 0) =~= Seq::<char>::empty());
            }
            Line { content, line_number, first_col: 0 }
        }
    }

    /// `Header` where the line starts with `[`, else `ValPair`.
    pub fn line_type(&self) -> (r: LineType)
        ensures
            (r is Header) == is_header_line(self@),
    {
        if self.content.len() > 0 && self.content[0] == '[' {
            LineType::Header
        } else {
            LineType::ValPair
        }
    }

    /// The characters of the line.
    pub fn to_string(&self) -> (r: String)
        ensures
            r@ == self.content@,
    {
        whole_string(&self.content)
    }
}

/// The lines of `input` that the parser reads: blank and comment lines are left out.
pub fn filter_lines(input: &str) -> (r: Vec<Line>)
    ensures
        r@.len() == kept_lines(input@).len(),
        forall|k: int| 0 <= k < r@.len() ==> #[trigger] r@[k]@ == kept_lines(input@)[k],
        forall|k: int| 0 <= k < r@.len() ==> (#[trigger] r@[k]).wf(),
{
    let chars = chars_of(input);
    let raws = split_chars(&chars, '\n');
    let ghost rm = split_by(input@, '\n');
    let bytes = input.as_bytes();
    let _nbytes = bytes.len();
    proof {
        broadcast use vstd::slice::group_slice_axioms;

        assert(utf8_len(input@) <= usize::MAX);
        lemma_split_by_utf8_len(input@, '\n');
    }
    let mut out: Vec<Line> = Vec::new();
    let mut i: usize = 0;
    while i < raws.len()
        invariant
            i <= raws@.len(),
            raws@.len() == rm.len(),
            forall|k: int| 0 <= k < raws@.len() ==> #[trigger] raws@[k]@ == rm[k],
            rm == split_by(input@, '\n'),
            forall|k: int| 0 <= k < rm.len() ==> utf8_len(#[trigger] rm[k]) <= usize::MAX,
            out@.len() == kept_upto(rm, i as nat).len(),
            forall|k: int| 0 <= k < out@.len() ==> #[trigger] out@[k]@ == kept_upto(rm, i as nat)[k],
            forall|k: int| 0 <= k < out@.len() ==> (#[trigger] out@[k]).wf(),
        decreases raws@.len() - i,
    {
        let raw = &raws[i];
        let start = skip_spaces_exec(raw, 0);
        proof {
            lemma_skip_spaces_bounds(raw@, 0);
        }
        let skipped = start == raw.len() || raw[start] == '#';
        assert(skipped == is_skipped(rm[i as int]));
        if !skipped {
            let line = Line::from_data(raw, i + 1);
            out.push(line);
        }
        i = i + 1;
    }
    out
}

// ---------------------------------------------------------------------------
// Headers
// ---------------------------------------------------------------------------

/// What a header line marks.
pub enum HeaderModel {
    Primary,
    Sub(Seq<char>),
    Other(Seq<char>),
}

/// A parsed header: the primary group, an action group, or any other group.
pub enum Header {
    DesktopEntry,
    DesktopAction { name: String },
    Other { name: String },
}

impl View for Header {
    type V = HeaderModel;

    open spec fn view(&self) -> HeaderModel {
        match self {
            Header::DesktopEntry => HeaderModel::Primary,
            Header::DesktopAction { name } => HeaderModel::Sub(name@),
            Header::Other { name } => HeaderModel::Other(name@),
        }
    }
}

/// What a group name marks: `Desktop Entry` the primary group, `Desktop Action <name>`
/// an action, anything else a group to ignore.
pub open spec fn marker_of(name: Seq<char>) -> HeaderModel {
    let p = "Desktop Action "@;
    if name == "Desktop Entry"@ {
        HeaderModel::Primary
    } else if p.len() <= name.len() && name.subrange(0, p.len() as int) == p {
        HeaderModel::Sub(name.subrange(p.len() as int, name.len() as int))
    } else {
        HeaderModel::Other(name)
    }
}

/// Whether the character at `j` of a header is refused: a second `[`, a control
/// character, or a `]` that is not the last character.
pub open spec fn header_fault_at(t: Seq<char>, j: int) -> bool {
    t[j] == '[' || is_control(t[j]) || (t[j] == ']' && j != t.len() - 1)
}

/// The first refused position of a header at or after `j`, or its length.
pub open spec fn first_header_fault(t: Seq<char>, j: int) -> int
    decreases t.len() - j,
{
    if 0 <= j < t.len() {
        if header_fault_at(t, j) {
            j
        } else {
            first_header_fault(t, j + 1)
        }
    } else {
        t.len() as int
    }
}

/// The group name of a header: what stands between `[` and a closing `]`.
pub open spec fn header_name(t: Seq<char>) -> Seq<char> {
    if t.len() >= 2 && t.last() == ']' {
        t.subrange(1, t.len() - 1)
    } else {
        t.subrange(1, t.len() as int)
    }
}

/// What a header line gives.
pub open spec fn header_of(l: LineModel) -> Result<HeaderModel, ErrorModel> {
    let t = l.text;
    if t.len() == 0 || t[0] != '[' {
        Err(ErrorModel::InternalError { row: l.row, col: l.first_col })
    } else {
        let k = first_header_fault(t, 1);
        if k < t.len() {
            let col = l.first_col + utf8_len(t.subrange(0, k));
            if t[k] == ']' {
                Err(ErrorModel::Syntax { row: l.row, col })
            } else {
                Err(ErrorModel::UnacceptableCharacter { ch: t.subrange(k, k + 1), row: l.row, col })
            }
        } else {
            Ok(marker_of(header_name(t)))
        }
    }
}

/// The marker of a header line, or the first refused character in it.
pub fn parse_header(input: &Line) -> (r: Result<Header, ParseError>)
    requires
        input.wf(),
    ensures
        match header_of(input@) {
            Ok(h) => r matches Ok(x) && x@ == h,
            Err(e) => r matches Err(x) && x@ == e,
        },
{
    let t = &input.content;
    let n = t.len();
    if n == 0 || t[0] != '[' {
        return Err(
            ParseError::InternalError {
                msg: string_from("line is mis-classified as a header"),
                row: input.line_number,
                col: input.first_col,
            },
        );
    }
    proof {
        assert(t@.subrange(0, 1) =~= Seq::<char>::empty().push('['));
        lemma_utf8_len_push(Seq::<char>::empty(), '[');
        lemma_utf8_len_subrange(t@, 1, 1);
    }
    let mut j: usize = 1;
    let mut col: usize = input.first_col + 1;
    while j < n
        invariant
            1 <= j <= n,
            n == t@.len(),
            t[0] == '[',
            input.wf(),
            t@ == input.content@,
            col == input.first_col + utf8_len(t@.subrange(0, j as int)),
            first_header_fault(t@, 1) == first_header_fault(t@, j as int),
        decreases n - j,
    {
        let c = t[j];
        proof {
            assert(t@.subrange(0, j + 1) =~= t@.subrange(0, j as int).push(c));
            lemma_utf8_len_push(t@.subrange(0, j as int), c);
            lemma_utf8_len_subrange(t@, j + 1, j + 1);
        }
        assert(header_fault_at(t@, j as int) ==> first_header_fault(t@, j as int) == j as int);
        if c == ']' {
            if j != n - 1 {
                return Err(
                    ParseError::Syntax {
                        msg: string_from("nothing is expected after ']'"),
                        row: input.line_number,
                        col,
                    },
                );
            }
        } else if c == '[' || is_control_char(c) {
            return Err(
                ParseError::UnacceptableCharacter {
                    ch: string_of(t, j, j + 1),
                    row: input.line_number,
                    col,
                    msg: string_from("character not accepted in a header"),
                },
            );
        }
        col = col + char_width_exec(c);
        j = j + 1;
    }
    let end = if n >= 2 && t[n - 1] == ']' {
        n - 1
    } else {
        n
    };
    let name = sub_vec(t, 1, end);
    if same_chars(&name, "Desktop Entry") {
        Ok(Header::DesktopEntry)
    } else if starts_with_chars(&name, "Desktop Action ") {
        let p = "Desktop Action ".unicode_len();
        Ok(Header::DesktopAction { name: string_of(&name, p, name.len()) })
    } else {
        Ok(Header::Other { name: whole_string(&name) })
    }
}

// ---------------------------------------------------------------------------
// Key-value records
// ---------------------------------------------------------------------------

/// Where the tokenizer stands in a key-value line.
pub enum TokMode {
    /// reading the key
    Key,
    /// reading the locale between `[` and `]`
    Locale,
    /// right after the `]` that ends the locale
    LocaleEnd,
    /// reading the value
    Value,
}

/// What the tokenizer has read of a key-value line so far.
pub struct TokState {
    pub mode: TokMode,
    pub key: Seq<char>,
    pub spaced: bool,
    pub has_locale: bool,
    pub locale: Seq<char>,
    pub value: Seq<char>,
}

/// A tokenized key-value line.
pub struct RecordModel {
    pub key: Seq<char>,
    pub locale: Option<Seq<char>>,
    pub value: Seq<char>,
    pub row: nat,
}

/// Whether `c` may stand in a key: `A-Z`, `a-z`, `0-9` or `-`.
pub open spec fn is_key_char(c: char) -> bool {
    ||| ('A' as u32 <= c as u32 && c as u32 <= 'Z' as u32)
    ||| ('a' as u32 <= c as u32 && c as u32 <= 'z' as u32)
    ||| ('0' as u32 <= c as u32 && c as u32 <= '9' as u32)
    ||| c == '-'
}

fn is_key_char_exec(c: char) -> (r: bool)
    ensures
        r == is_key_char(c),
{
    ('A' as u32 <= c as u32 && c as u32 <= 'Z' as u32) || ('a' as u32 <= c as u32 && c as u32
        <= 'z' as u32) || ('0' as u32 <= c as u32 && c as u32 <= '9' as u32) || c == '-'
}

pub open spec fn tok_start() -> TokState {
    TokState {
        mode: TokMode::Key,
        key: Seq::empty(),
        spaced: false,
        has_locale: false,
        locale: Seq::empty(),
        value: Seq::empty(),
    }
}

/// One step of the tokenizer; `None` where the character is a syntax error.
/// In the key, spaces may only follow the key's characters.
pub open spec fn tok_step(s: TokState, c: char) -> Option<TokState> {
    match s.mode {
        TokMode::Key => if c == '[' {
            Some(TokState { mode: TokMode::Locale, has_locale: true, ..s })
        } else if c == '=' {
            Some(TokState { mode: TokMode::Value, ..s })
        } else if c == ' ' {
            Some(TokState { spaced: true, ..s })
        } else if is_key_char(c) && !s.spaced {
            Some(TokState { key: s.key.push(c), ..s })
        } else {
            None
        },
        TokMode::Locale => if c == ']' {
            Some(TokState { mode: TokMode::LocaleEnd, ..s })
        } else {
            Some(TokState { locale: s.locale.push(c), ..s })
        },
        TokMode::LocaleEnd => if c == '=' {
            Some(TokState { mode: TokMode::Value, ..s })
        } else {
            None
        },
        TokMode::Value => Some(TokState { value: s.value.push(c), ..s }),
    }
}

/// The tokenizer after the first `n` characters of `t`, or the position of the
/// character it refused.
pub open spec fn tok_run(t: Seq<char>, n: nat) -> Result<TokState, nat>
    decreases n,
{
    if n == 0 {
        Ok(tok_start())
    } else {
        match tok_run(t, (n - 1) as nat) {
            Ok(s) => match tok_step(s, t[n - 1]) {
                Some(s2) => Ok(s2),
                None => Err((n - 1) as nat),
            },
            Err(k) => Err(k),
        }
    }
}

/// The record of a key-value line; the value loses its leading white space.
pub open spec fn record_of(l: LineModel) -> Result<RecordModel, ErrorModel> {
    match tok_run(l.text, l.text.len()) {
        Ok(s) => Ok(
            RecordModel {
                key: s.key,
                locale: if s.has_locale {
                    Some(s.locale)
                } else {
                    None
                },
                value: trim_start(s.value),
                row: l.row,
            },
        ),
        Err(k) => Err(
            ErrorModel::Syntax { row: l.row, col: l.first_col + utf8_len(l.text.subrange(0, k as int)) },
        ),
    }
}

pub proof fn lemma_tok_run_err(t: Seq<char>, i: nat, n: nat)
    requires
        i <= n,
        tok_run(t, i) is Err,
    ensures
        tok_run(t, n) == tok_run(t, i),
    decreases n - i,
{
    if i < n {
        lemma_tok_run_err(t, i, (n - 1) as nat);
    }
}

/// A tokenized key-value line.
pub struct LinePart {
    pub key: Vec<char>,
    pub locale: Option<Vec<char>>,
    pub value: Vec<char>,
    pub line_number: usize,
}

impl View for LinePart {
    type V = RecordModel;

    open spec fn view(&self) -> RecordModel {
        RecordModel {
            key: self.key@,
            locale: match self.locale {
                Some(l) => Some(l@),
                None => None,
            },
            value: self.value@,
            row: self.line_number as nat,
        }
    }
}

/// The key, the locale and the value of a key-value line.
pub fn split_into_parts(line: &Line) -> (r: Result<LinePart, ParseError>)
    requires
        line.wf(),
    ensures
        match record_of(line@) {
            Ok(m) => r matches Ok(x) && x@ == m,
            Err(e) => r matches Err(x) && x@ == e,
        },
{
    let t = &line.content;
    let n = t.len();
    let mut mode = TokMode::Key;
    let mut key: Vec<char> = Vec::new();
    let mut spaced = false;
    let mut has_locale = false;
    let mut locale: Vec<char> = Vec::new();
    let mut value: Vec<char> = Vec::new();
    let mut i: usize = 0;
    let mut col: usize = line.first_col;
    proof {
        assert(t@.subrange(0, 0) =~= Seq::<char>::empty());
    }
    while i < n
        invariant
            i <= n,
            n == t@.len(),
            t@ == line.content@,
            line.wf(),
            col == line.first_col + utf8_len(t@.subrange(0, i as int)),
            tok_run(t@, i as nat) == Ok::<TokState, nat>(
                TokState { mode, key: key@, spaced, has_locale, locale: locale@, value: value@ },
            ),
        decreases n - i,
    {
        let c = t[i];
        proof {
            assert(t@.subrange(0, i + 1) =~= t@.subrange(0, i as int).push(c));
            lemma_utf8_len_push(t@.subrange(0, i as int), c);
            lemma_utf8_len_subrange(t@, i + 1, i + 1);
        }
        let ok = match mode {
            TokMode::Key => {
                if c == '[' {
                    mode = TokMode::Locale;
                    has_locale = true;
                    true
                } else if c == '=' {
                    mode = TokMode::Value;
                    true
                } else if c == ' ' {
                    spaced = true;
                    true
                } else if is_key_char_exec(c) && !spaced {
                    key.push(c);
                    true
                } else {
                    false
                }
            },
            TokMode::Locale => {
                if c == ']' {
                    mode = TokMode::LocaleEnd;
                } else {
                    locale.push(c);
                }
                true
            },
            TokMode::LocaleEnd => {
                if c == '=' {
                    mode = TokMode::Value;
                    true
                } else {
                    false
                }
            },
            TokMode::Value => {
                value.push(c);
                true
            },
        };
        if !ok {
            proof {
                lemma_tok_run_err(t@, (i + 1) as nat, n as nat);
            }
            return Err(
                ParseError::Syntax {
                    msg: string_from("a key holds only A-Za-z0-9- and a locale ends with ']='"),
                    row: line.line_number,
                    col,
                },
            );
        }
        col = col + char_width_exec(c);
        i = i + 1;
    }
    assert(t@.subrange(0, n as int) =~= t@);
    let start = skip_spaces_exec(&value, 0);
    let trimmed = sub_vec(&value, start, value.len());
    Ok(
        LinePart {
            key,
            locale: if has_locale {
                Some(locale)
            } else {
                None
            },
            value: trimmed,
            line_number: line.line_number,
        },
    )
}

// ---------------------------------------------------------------------------
// Setters
// ---------------------------------------------------------------------------

/// The error for a key, or a key and locale, that was already set.
pub open spec fn repeated(r: RecordModel) -> ErrorModel {
    ErrorModel::RepetitiveKey { key: r.key, row: r.row, col: 0 }
}

/// The boolean a value spells: exactly `true` or `false`.
pub open spec fn bool_of(v: Seq<char>) -> Option<bool> {
    if v == "true"@ {
        Some(true)
    } else if v == "false"@ {
        Some(false)
    } else {
        None
    }
}

/// The list a value holds: its pieces between `;`, less one empty piece at the end.
pub open spec fn list_of(v: Seq<char>) -> Seq<Seq<char>> {
    let p = split_by(v, ';');
    if p.last().len() == 0 {
        p.drop_last()
    } else {
        p
    }
}

/// A string key set once.
pub open spec fn put_str(cur: Option<Seq<char>>, r: RecordModel) -> Result<Option<Seq<char>>, ErrorModel> {
    if cur is Some {
        Err(repeated(r))
    } else {
        Ok(Some(r.value))
    }
}

/// A boolean key set once.
pub open spec fn put_bool(cur: Option<bool>, r: RecordModel) -> Result<Option<bool>, ErrorModel> {
    if cur is Some {
        Err(repeated(r))
    } else {
        match bool_of(r.value) {
            Some(b) => Ok(Some(b)),
            None => Err(ErrorModel::Syntax { row: r.row, col: 0 }),
        }
    }
}

/// A list key set once.
pub open spec fn put_list(cur: Option<Seq<Seq<char>>>, r: RecordModel) -> Result<
    Option<Seq<Seq<char>>>,
    ErrorModel,
> {
    if cur is Some {
        Err(repeated(r))
    } else {
        Ok(Some(list_of(r.value)))
    }
}

/// A localized key: the default and each locale set once.
pub open spec fn put_locale(cur: Option<LocaleText>, r: RecordModel) -> Result<
    Option<LocaleText>,
    ErrorModel,
> {
    let l = match cur {
        Some(l) => l,
        None => LocaleText { default: None, variants: Map::empty(), locales: Seq::empty() },
    };
    match r.locale {
        Some(loc) => if l.variants.contains_key(loc) {
            Err(repeated(r))
        } else {
            Ok(
                Some(
                    LocaleText {
                        variants: l.variants.insert(loc, r.value),
                        locales: l.locales.push(loc),
                        ..l
                    },
                ),
            )
        },
        None => if l.default is Some {
            Err(repeated(r))
        } else {
            Ok(Some(LocaleText { default: Some(r.value), ..l }))
        },
    }
}

/// A localized list key: the default and each locale set once.
pub open spec fn put_locale_list(cur: Option<LocaleTextList>, r: RecordModel) -> Result<
    Option<LocaleTextList>,
    ErrorModel,
> {
    let l = match cur {
        Some(l) => l,
        None => LocaleTextList { default: None, variants: Map::empty(), locales: Seq::empty() },
    };
    match r.locale {
        Some(loc) => if l.variants.contains_key(loc) {
            Err(repeated(r))
        } else {
            Ok(
                Some(
                    LocaleTextList {
                        variants: l.variants.insert(loc, list_of(r.value)),
                        locales: l.locales.push(loc),
                        ..l
                    },
                ),
            )
        },
        None => if l.default is Some {
            Err(repeated(r))
        } else {
            Ok(Some(LocaleTextList { default: Some(list_of(r.value)), ..l }))
        },
    }
}

fn repeated_key(parts: &LinePart) -> (e: ParseError)
    ensures
        e@ == repeated(parts@),
{
    ParseError::RepetitiveKey { key: whole_string(&parts.key), row: parts.line_number, col: 0 }
}

/// The list that a value holds.
pub fn list_from(v: &Vec<char>) -> (r: Vec<String>)
    ensures
        texts(r@) == list_of(v@),
{
    let pieces = split_chars(v, ';');
    proof {
        lemma_split_by_nonempty(v@, ';');
    }
    let ghost p = split_by(v@, ';');
    let mut n = pieces.len();
    if pieces[n - 1].len() == 0 {
        n = n - 1;
    }
    let ghost want = list_of(v@);
    assert(want.len() == n);
    let mut out: Vec<String> = Vec::new();
    let mut k: usize = 0;
    while k < n
        invariant
            k <= n <= pieces@.len(),
            pieces@.len() == p.len(),
            p == split_by(v@, ';'),
            forall|j: int| 0 <= j < pieces@.len() ==> #[trigger] pieces@[j]@ == p[j],
            want == list_of(v@),
            want.len() == n,
            forall|j: int| 0 <= j < n ==> want[j] == p[j],
            texts(out@) =~= want.take(k as int),
        decreases n - k,
    {
        let ghost before = out@;
        let piece = whole_string(&pieces[k]);
        out.push(piece);
        assert(texts(out@) =~= texts(before).push(piece@));
        assert(want.take(k + 1) =~= want.take(k as int).push(want[k as int]));
        k = k + 1;
    }
    assert(want.take(n as int) =~= want);
    out
}

/// Stores a boolean value.
pub fn set_bool(parts: &LinePart, val: &mut bool) -> (r: Result<(), ParseError>)
    ensures
        match bool_of(parts@.value) {
            Some(b) => r is Ok && *final(val) == b,
            None => r matches Err(e) && e@ == (ErrorModel::Syntax { row: parts@.row, col: 0 })
                && *final(val) == *old(val),
        },
{
    if same_chars(&parts.value, "true") {
        *val = true;
        Ok(())
    } else if same_chars(&parts.value, "false") {
        *val = false;
        Ok(())
    } else {
        Err(
            ParseError::Syntax {
                msg: string_from("the value has to be true or false"),
                row: parts.line_number,
                col: 0,
            },
        )
    }
}

/// Stores a boolean key that is not set yet.
pub fn set_optional_bool(parts: &LinePart, opt: &mut Option<bool>) -> (r: Result<(), ParseError>)
    ensures
        match put_bool(*old(opt), parts@) {
            Ok(v) => r is Ok && *final(opt) == v,
            Err(e) => r matches Err(x) && x@ == e && *final(opt) == *old(opt),
        },
{
    if opt.is_some() {
        return Err(repeated_key(parts));
    }
    let mut res = false;
    match set_bool(parts, &mut res) {
        Ok(()) => {
            *opt = Some(res);
            Ok(())
        },
        Err(e) => Err(e),
    }
}

/// Stores a list key that is not set yet.
pub fn set_optional_list(parts: &LinePart, opt: &mut Option<Vec<String>>) -> (r: Result<
    (),
    ParseError,
>)
    ensures
        match put_list(opt_texts(*old(opt)), parts@) {
            Ok(v) => r is Ok && opt_texts(*final(opt)) == v,
            Err(e) => r matches Err(x) && x@ == e && *final(opt) == *old(opt),
        },
{
    if opt.is_some() {
        return Err(repeated_key(parts));
    }
    *opt = Some(list_from(&parts.value));
    Ok(())
}

/// Stores a string key that is not set yet.
pub fn set_optional_str(parts: &LinePart, opt: &mut Option<String>) -> (r: Result<(), ParseError>)
    ensures
        match put_str(opt_text(*old(opt)), parts@) {
            Ok(v) => r is Ok && opt_text(*final(opt)) == v,
            Err(e) => r matches Err(x) && x@ == e && *final(opt) == *old(opt),
        },
{
    if opt.is_some() {
        return Err(repeated_key(parts));
    }
    *opt = Some(whole_string(&parts.value));
    Ok(())
}

/// Stores an icon reference that is not set yet; nothing is looked up.
pub fn set_optional_icon_str(parts: &LinePart, opt: &mut Option<IconString>) -> (r: Result<
    (),
    ParseError,
>)
    ensures
        match put_str(opt_icon(*old(opt)), parts@) {
            Ok(v) => r is Ok && opt_icon(*final(opt)) == v,
            Err(e) => r matches Err(x) && x@ == e && *final(opt) == *old(opt),
        },
{
    if opt.is_some() {
        return Err(repeated_key(parts));
    }
    *opt = Some(IconString { content: whole_string(&parts.value) });
    Ok(())
}

/// Stores the default or one locale's variant of a localized string.
pub fn set_locale_str(parts: &LinePart, str: &mut LocaleStringInternal) -> (r: Result<
    (),
    ParseError,
>)
    ensures
        match put_locale(Some(old(str)@), parts@) {
            Ok(v) => r is Ok && Some(final(str)@) == v,
            Err(e) => r matches Err(x) && x@ == e && *final(str) == *old(str),
        },
{
    match &parts.locale {
        Some(locale) => {
            let loc = whole_string(locale);
            if str.variants.contains_key(loc.as_str()) {
                return Err(repeated_key(parts));
            }
            let ghost before = str.variants@;
            let ghost before_locales = str.locales@;
            let val = whole_string(&parts.value);
            str.locales.push(loc.clone());
            str.variants.insert(loc, val);
            assert(text_map(str.variants@) =~= text_map(before).insert(locale@, parts.value@));
            assert(texts(str.locales@) =~= texts(before_locales).push(locale@));
            Ok(())
        },
        None => {
            if str.default.is_some() {
                return Err(repeated_key(parts));
            }
            str.default = Some(whole_string(&parts.value));
            Ok(())
        },
    }
}

/// Stores the default or one locale's variant of a localized string key.
pub fn set_optional_locale_str(parts: &LinePart, opt: &mut Option<LocaleStringInternal>) -> (r:
    Result<(), ParseError>)
    ensures
        match put_locale(opt_locale_internal(*old(opt)), parts@) {
            Ok(v) => r is Ok && opt_locale_internal(*final(opt)) == v,
            Err(e) => r matches Err(x) && x@ == e && *final(opt) == *old(opt),
        },
{
    let was_set = opt.is_some();
    let mut inner = match opt.take() {
        Some(l) => l,
        None => LocaleStringInternal::new(),
    };
    match set_locale_str(parts, &mut inner) {
        Ok(()) => {
            *opt = Some(inner);
            Ok(())
        },
        Err(e) => {
            if was_set {
                *opt = Some(inner);
            }
            Err(e)
        },
    }
}

/// Stores the default or one locale's variant of a localized list key.
pub fn set_optional_locale_list(parts: &LinePart, opt: &mut Option<LocaleStringListInternal>) -> (r:
    Result<(), ParseError>)
    ensures
        match put_locale_list(opt_locale_list_internal(*old(opt)), parts@) {
            Ok(v) => r is Ok && opt_locale_list_internal(*final(opt)) == v,
            Err(e) => r matches Err(x) && x@ == e && *final(opt) == *old(opt),
        },
{
    let was_set = opt.is_some();
    let mut inner = match opt.take() {
        Some(l) => l,
        None => LocaleStringListInternal::new(),
    };
    match &parts.locale {
        Some(locale) => {
            let loc = whole_string(locale);
            if inner.variants.contains_key(loc.as_str()) {
                if was_set {
                    *opt = Some(inner);
                }
                return Err(repeated_key(parts));
            }
            let ghost before = inner.variants@;
            let ghost before_locales = inner.locales@;
            let val = list_from(&parts.value);
            inner.locales.push(loc.clone());
            inner.variants.insert(loc, val);
            assert(texts(inner.locales@) =~= texts(before_locales).push(locale@));
            assert(texts_map(inner.variants@) =~= texts_map(before).insert(
                locale@,
                list_of(parts.value@),
            ));
        },
        None => {
            if inner.default.is_some() {
                if was_set {
                    *opt = Some(inner);
                }
                return Err(repeated_key(parts));
            }
            inner.default = Some(list_from(&parts.value));
        },
    }
    *opt = Some(inner);
    Ok(())
}

// ---------------------------------------------------------------------------
// Key dispatch
// ---------------------------------------------------------------------------

/// A record applied to the primary group. Keys are matched exactly, with case; a key
/// this library does not know changes nothing.
pub open spec fn apply_entry_key(m: EntryModel, r: RecordModel) -> Result<EntryModel, ErrorModel> {
    let k = r.key;
    if k == "Type"@ {
        if m.entry_type is Some {
            Err(repeated(r))
        } else {
            Ok(EntryModel { entry_type: Some(kind_of(r.value)), ..m })
        }
    } else if k == "Version"@ {
        match put_str(m.version, r) {
            Ok(v) => Ok(EntryModel { version: v, ..m }),
            Err(e) => Err(e),
        }
    } else if k == "Name"@ {
        match put_locale(m.name, r) {
            Ok(v) => Ok(EntryModel { name: v, ..m }),
            Err(e) => Err(e),
        }
    } else if k == "GenericName"@ {
        match put_locale(m.generic_name, r) {
            Ok(v) => Ok(EntryModel { generic_name: v, ..m }),
            Err(e) => Err(e),
        }
    } else if k == "NoDisplay"@ {
        match put_bool(m.no_display, r) {
            Ok(v) => Ok(EntryModel { no_display: v, ..m }),
            Err(e) => Err(e),
        }
    } else if k == "Comment"@ {
        match put_locale(m.comment, r) {
            Ok(v) => Ok(EntryModel { comment: v, ..m }),
            Err(e) => Err(e),
        }
    } else if k == "Icon"@ {
        match put_str(m.icon, r) {
            Ok(v) => Ok(EntryModel { icon: v, ..m }),
            Err(e) => Err(e),
        }
    } else if k == "Hidden"@ {
        match put_bool(m.hidden, r) {
            Ok(v) => Ok(EntryModel { hidden: v, ..m }),
            Err(e) => Err(e),
        }
    } else if k == "OnlyShowIn"@ {
        match put_list(m.only_show_in, r) {
            Ok(v) => Ok(EntryModel { only_show_in: v, ..m }),
            Err(e) => Err(e),
        }
    } else if k == "NotShowIn"@ {
        match put_list(m.not_show_in, r) {
            Ok(v) => Ok(EntryModel { not_show_in: v, ..m }),
            Err(e) => Err(e),
        }
    } else if k == "DBusActivatable"@ {
        match put_bool(m.dbus_activatable, r) {
            Ok(v) => Ok(EntryModel { dbus_activatable: v, ..m }),
            Err(e) => Err(e),
        }
    } else if k == "TryExec"@ {
        match put_str(m.app.try_exec, r) {
            Ok(v) => Ok(EntryModel { app: AppModel { try_exec: v, ..m.app }, ..m }),
            Err(e) => Err(e),
        }
    } else if k == "Exec"@ {
        match put_str(m.app.exec, r) {
            Ok(v) => Ok(EntryModel { app: AppModel { exec: v, ..m.app }, ..m }),
            Err(e) => Err(e),
        }
    } else if k == "Path"@ {
        match put_str(m.app.path, r) {
            Ok(v) => Ok(EntryModel { app: AppModel { path: v, ..m.app }, ..m }),
            Err(e) => Err(e),
        }
    } else if k == "Terminal"@ {
        match put_bool(m.app.terminal, r) {
            Ok(v) => Ok(EntryModel { app: AppModel { terminal: v, ..m.app }, ..m }),
            Err(e) => Err(e),
        }
    } else if k == "Actions"@ {
        match put_list(m.app.actions, r) {
            Ok(v) => Ok(EntryModel { app: AppModel { actions: v, ..m.app }, ..m }),
            Err(e) => Err(e),
        }
    } else if k == "MimeType"@ {
        match put_list(m.app.mime_type, r) {
            Ok(v) => Ok(EntryModel { app: AppModel { mime_type: v, ..m.app }, ..m }),
            Err(e) => Err(e),
        }
    } else if k == "Categories"@ {
        match put_list(m.app.categories, r) {
            Ok(v) => Ok(EntryModel { app: AppModel { categories: v, ..m.app }, ..m }),
            Err(e) => Err(e),
        }
    } else if k == "Implements"@ {
        match put_list(m.app.implements, r) {
            Ok(v) => Ok(EntryModel { app: AppModel { implements: v, ..m.app }, ..m }),
            Err(e) => Err(e),
        }
    } else if k == "Keywords"@ {
        match put_locale_list(m.app.keywords, r) {
            Ok(v) => Ok(EntryModel { app: AppModel { keywords: v, ..m.app }, ..m }),
            Err(e) => Err(e),
        }
    } else if k == "StartupNotify"@ {
        match put_bool(m.app.startup_notify, r) {
            Ok(v) => Ok(EntryModel { app: AppModel { startup_notify: v, ..m.app }, ..m }),
            Err(e) => Err(e),
        }
    } else if k == "StartupWMClass"@ {
        match put_str(m.app.startup_wm_class, r) {
            Ok(v) => Ok(EntryModel { app: AppModel { startup_wm_class: v, ..m.app }, ..m }),
            Err(e) => Err(e),
        }
    } else if k == "URL"@ {
        match put_str(m.url, r) {
            Ok(v) => Ok(EntryModel { url: v, ..m }),
            Err(e) => Err(e),
        }
    } else if k == "PrefersNonDefaultGPU"@ {
        match put_bool(m.app.prefers_non_default_gpu, r) {
            Ok(v) => Ok(EntryModel { app: AppModel { prefers_non_default_gpu: v, ..m.app }, ..m }),
            Err(e) => Err(e),
        }
    } else if k == "SingleMainWindow"@ {
        match put_bool(m.app.single_main_window, r) {
            Ok(v) => Ok(EntryModel { app: AppModel { single_main_window: v, ..m.app }, ..m }),
            Err(e) => Err(e),
        }
    } else {
        Ok(m)
    }
}

/// Applies a record to the primary group.
pub fn fill_entry_val(entry: &mut DesktopEntryInternal, parts: LinePart) -> (r: Result<
    (),
    ParseError,
>)
    ensures
        match apply_entry_key(old(entry)@, parts@) {
            Ok(m) => r is Ok && final(entry)@ == m,
            Err(e) => r matches Err(x) && x@ == e && *final(entry) == *old(entry),
        },
{
    let k = &parts.key;
    if same_chars(k, "Type") {
        if entry.entry_type.is_some() {
            return Err(repeated_key(&parts));
        }
        entry.entry_type = Some(EntryTypeInternal::from_value(&parts.value));
        Ok(())
    } else if same_chars(k, "Version") {
        set_optional_str(&parts, &mut entry.version)
    } else if same_chars(k, "Name") {
        set_optional_locale_str(&parts, &mut entry.name)
    } else if same_chars(k, "GenericName") {
        set_optional_locale_str(&parts, &mut entry.generic_name)
    } else if same_chars(k, "NoDisplay") {
        set_optional_bool(&parts, &mut entry.no_display)
    } else if same_chars(k, "Comment") {
        set_optional_locale_str(&parts, &mut entry.comment)
    } else if same_chars(k, "Icon") {
        set_optional_icon_str(&parts, &mut entry.icon)
    } else if same_chars(k, "Hidden") {
        set_optional_bool(&parts, &mut entry.hidden)
    } else if same_chars(k, "OnlyShowIn") {
        set_optional_list(&parts, &mut entry.only_show_in)
    } else if same_chars(k, "NotShowIn") {
        set_optional_list(&parts, &mut entry.not_show_in)
    } else if same_chars(k, "DBusActivatable") {
        set_optional_bool(&parts, &mut entry.dbus_activatable)
    } else if same_chars(k, "TryExec") {
        set_optional_str(&parts, &mut entry.try_exec)
    } else if same_chars(k, "Exec") {
        set_optional_str(&parts, &mut entry.exec)
    } else if same_chars(k, "Path") {
        set_optional_str(&parts, &mut entry.path)
    } else if same_chars(k, "Terminal") {
        set_optional_bool(&parts, &mut entry.terminal)
    } else if same_chars(k, "Actions") {
        set_optional_list(&parts, &mut entry.actions)
    } else if same_chars(k, "MimeType") {
        set_optional_list(&parts, &mut entry.mime_type)
    } else if same_chars(k, "Categories") {
        set_optional_list(&parts, &mut entry.categories)
    } else if same_chars(k, "Implements") {
        set_optional_list(&parts, &mut entry.implements)
    } else if same_chars(k, "Keywords") {
        set_optional_locale_list(&parts, &mut entry.keywords)
    } else if same_chars(k, "StartupNotify") {
        set_optional_bool(&parts, &mut entry.startup_notify)
    } else if same_chars(k, "StartupWMClass") {
        set_optional_str(&parts, &mut entry.startup_wm_class)
    } else if same_chars(k, "URL") {
        set_optional_str(&parts, &mut entry.url)
    } else if same_chars(k, "PrefersNonDefaultGPU") {
        set_optional_bool(&parts, &mut entry.prefers_non_default_gpu)
    } else if same_chars(k, "SingleMainWindow") {
        set_optional_bool(&parts, &mut entry.single_main_window)
    } else {
        Ok(())
    }
}

/// A record applied to an action group: its `Name`, `Exec` and `Icon`; other keys
/// change nothing.
pub open spec fn apply_action_key(a: ActionModel, r: RecordModel) -> Result<ActionModel, ErrorModel> {
    let k = r.key;
    if k == "Name"@ {
        match put_locale(a.name, r) {
            Ok(v) => Ok(ActionModel { name: v, ..a }),
            Err(e) => Err(e),
        }
    } else if k == "Exec"@ {
        match put_str(a.exec, r) {
            Ok(v) => Ok(ActionModel { exec: v, ..a }),
            Err(e) => Err(e),
        }
    } else if k == "Icon"@ {
        match put_str(a.icon, r) {
            Ok(v) => Ok(ActionModel { icon: v, ..a }),
            Err(e) => Err(e),
        }
    } else {
        Ok(a)
    }
}

/// A key-value line applied to the primary group.
pub open spec fn entry_line(m: EntryModel, l: LineModel) -> Result<EntryModel, ErrorModel> {
    match record_of(l) {
        Ok(r) => apply_entry_key(m, r),
        Err(e) => Err(e),
    }
}

/// A key-value line applied to an action group.
pub open spec fn action_line(a: ActionModel, l: LineModel) -> Result<ActionModel, ErrorModel> {
    match record_of(l) {
        Ok(r) => apply_action_key(a, r),
        Err(e) => Err(e),
    }
}

/// Reads a key-value line into the primary group.
pub fn process_entry_val_pair(line: &Line, entry: &mut DesktopEntryInternal) -> (r: Result<
    (),
    ParseError,
>)
    requires
        line.wf(),
    ensures
        match entry_line(old(entry)@, line@) {
            Ok(m) => r is Ok && final(entry)@ == m,
            Err(e) => r matches Err(x) && x@ == e && *final(entry) == *old(entry),
        },
{
    match split_into_parts(line) {
        Ok(parts) => fill_entry_val(entry, parts),
        Err(e) => Err(e),
    }
}

/// Applies a record to an action group.
pub fn fill_action_val(action: &mut DesktopActionInternal, parts: LinePart) -> (r: Result<
    (),
    ParseError,
>)
    ensures
        match apply_action_key(old(action)@, parts@) {
            Ok(a) => r is Ok && final(action)@ == a,
            Err(e) => r matches Err(x) && x@ == e && *final(action) == *old(action),
        },
{
    let k = &parts.key;
    if same_chars(k, "Name") {
        set_optional_locale_str(&parts, &mut action.name)
    } else if same_chars(k, "Exec") {
        set_optional_str(&parts, &mut action.exec)
    } else if same_chars(k, "Icon") {
        set_optional_icon_str(&parts, &mut action.icon)
    } else {
        Ok(())
    }
}

/// Reads a key-value line into an action group.
pub fn process_action_val_pair(line: &Line, action: &mut DesktopActionInternal) -> (r: Result<
    (),
    ParseError,
>)
    requires
        line.wf(),
    ensures
        match action_line(old(action)@, line@) {
            Ok(a) => r is Ok && final(action)@ == a,
            Err(e) => r matches Err(x) && x@ == e && *final(action) == *old(action),
        },
{
    match split_into_parts(line) {
        Ok(parts) => fill_action_val(action, parts),
        Err(e) => Err(e),
    }
}

// ---------------------------------------------------------------------------
// Assembling a file
// ---------------------------------------------------------------------------

/// What the scan has built after some lines: the primary group, the action groups in
/// the order of their headers (the last one is the one being filled), whether the
/// primary header was read, and whether any header was.
pub struct ScanModel {
    pub entry: EntryModel,
    pub subs: Seq<ActionModel>,
    pub seen_primary: bool,
    pub seen_group: bool,
}

pub open spec fn scan_start() -> ScanModel {
    ScanModel { entry: empty_entry(), subs: Seq::empty(), seen_primary: false, seen_group: false }
}

/// Whether an action group of this name was opened already.
pub open spec fn has_sub(subs: Seq<ActionModel>, name: Seq<char>) -> bool {
    exists|i: int| 0 <= i < subs.len() && subs[i].ref_name == name
}

/// A header read on line `row`. The primary header is only accepted as the first
/// header of the file; an action header only after the primary one, and once per name.
pub open spec fn on_header(s: ScanModel, h: HeaderModel, row: nat) -> Result<ScanModel, ErrorModel> {
    match h {
        HeaderModel::Primary => if s.seen_group {
            Err(ErrorModel::RepetitiveEntry { row, col: 0 })
        } else {
            Ok(ScanModel { seen_primary: true, seen_group: true, ..s })
        },
        HeaderModel::Sub(name) => if !s.seen_primary {
            Err(ErrorModel::FormatError { row, col: 0 })
        } else if has_sub(s.subs, name) {
            Err(ErrorModel::RepetitiveEntry { row, col: 0 })
        } else {
            Ok(ScanModel { subs: s.subs.push(empty_action(name)), ..s })
        },
        HeaderModel::Other(_) => Ok(ScanModel { seen_group: true, ..s }),
    }
}

/// A line read: a header, or a record for the group being filled.
pub open spec fn on_line(s: ScanModel, l: LineModel) -> Result<ScanModel, ErrorModel> {
    if is_header_line(l) {
        match header_of(l) {
            Ok(h) => on_header(s, h, l.row),
            Err(e) => Err(e),
        }
    } else if s.subs.len() == 0 {
        match entry_line(s.entry, l) {
            Ok(m) => Ok(ScanModel { entry: m, ..s }),
            Err(e) => Err(e),
        }
    } else {
        match action_line(s.subs.last(), l) {
            Ok(a) => Ok(ScanModel { subs: s.subs.update(s.subs.len() - 1, a), ..s }),
            Err(e) => Err(e),
        }
    }
}

/// The scan after the first `n` lines, or the first error.
pub open spec fn scan(lines: Seq<LineModel>, n: nat) -> Result<ScanModel, ErrorModel>
    decreases n,
{
    if n == 0 {
        Ok(scan_start())
    } else {
        match scan(lines, (n - 1) as nat) {
            Ok(s) => on_line(s, lines[n - 1]),
            Err(e) => Err(e),
        }
    }
}

pub proof fn lemma_scan_err(lines: Seq<LineModel>, i: nat, n: nat)
    requires
        i <= n,
        scan(lines, i) is Err,
    ensures
        scan(lines, n) == scan(lines, i),
    decreases n - i,
{
    if i < n {
        lemma_scan_err(lines, i, (n - 1) as nat);
    }
}

/// The first rule a finished primary group breaks, as the message of the `KeyError`.
pub open spec fn entry_fault(m: EntryModel) -> Option<Seq<char>> {
    if m.entry_type is None {
        Some("type is required"@)
    } else if !(m.name matches Some(n) && n.default is Some) {
        Some("name is required"@)
    } else if m.entry_type == Some(KindModel::Link) && m.url is None {
        Some("URL required for Link"@)
    } else if !has_default(m.generic_name) {
        Some("default value required for GenericName"@)
    } else if !has_default(m.comment) {
        Some("default value required for Comment"@)
    } else {
        None
    }
}

/// The action groups by name.
pub open spec fn actions_map(subs: Seq<ActionModel>) -> Map<Seq<char>, ActionModel>
    decreases subs.len(),
{
    if subs.len() == 0 {
        Map::empty()
    } else {
        actions_map(subs.drop_last()).insert(subs.last().ref_name, subs.last())
    }
}

/// The first action group from `i` on whose name has no default, or the number of groups.
pub open spec fn first_unnamed(subs: Seq<ActionModel>, i: int) -> int
    decreases subs.len() - i,
{
    if 0 <= i < subs.len() {
        if !action_complete(subs[i]) {
            i
        } else {
            first_unnamed(subs, i + 1)
        }
    } else {
        subs.len() as int
    }
}

pub proof fn lemma_first_unnamed(subs: Seq<ActionModel>, i: int)
    requires
        0 <= i <= subs.len(),
    ensures
        i <= first_unnamed(subs, i) <= subs.len(),
        forall|j: int| i <= j < first_unnamed(subs, i) ==> action_complete(#[trigger] subs[j]),
        first_unnamed(subs, i) < subs.len() ==> !action_complete(subs[first_unnamed(subs, i)]),
    decreases subs.len() - i,
{
    if i < subs.len() && action_complete(subs[i]) {
        lemma_first_unnamed(subs, i + 1);
    }
}

/// The result of a finished scan: the first broken rule, or the file. An action group
/// without a default name is reported by its name.
pub open spec fn finish(s: ScanModel) -> Result<FileModel, ErrorModel> {
    match entry_fault(s.entry) {
        Some(msg) => Err(ErrorModel::KeyError { msg }),
        None => {
            let k = first_unnamed(s.subs, 0);
            if k < s.subs.len() {
                Err(ErrorModel::KeyError { msg: "name is required for action "@ + s.subs[k].ref_name })
            } else {
                Ok(
                    FileModel {
                        entry: settle(s.entry),
                        actions: actions_map(s.subs),
                        action_names: s.subs.map_values(|a: ActionModel| a.ref_name),
                    },
                )
            }
        },
    }
}

/// What parsing `input` gives.
pub open spec fn parse_model(input: Seq<char>) -> Result<FileModel, ErrorModel> {
    let lines = kept_lines(input);
    match scan(lines, lines.len()) {
        Ok(s) => finish(s),
        Err(e) => Err(e),
    }
}

pub open spec fn action_views(v: Seq<DesktopActionInternal>) -> Seq<ActionModel> {
    v.map_values(|a: DesktopActionInternal| a@)
}

/// The records a scan fills: the primary group, the action groups in order (the last
/// one is the one being filled), and what headers were read.
pub struct Scanner {
    pub entry: DesktopEntryInternal,
    pub actions: Vec<DesktopActionInternal>,
    pub seen_primary: bool,
    pub seen_group: bool,
}

impl View for Scanner {
    type V = ScanModel;

    open spec fn view(&self) -> ScanModel {
        ScanModel {
            entry: self.entry@,
            subs: action_views(self.actions@),
            seen_primary: self.seen_primary,
            seen_group: self.seen_group,
        }
    }
}

impl Scanner {
    pub fn new() -> (r: Scanner)
        ensures
            r@ == scan_start(),
    {
        let r = Scanner {
            entry: DesktopEntryInternal::new(),
            actions: Vec::new(),
            seen_primary: false,
            seen_group: false,
        };
        assert(r@.subs =~= Seq::<ActionModel>::empty());
        r
    }

    /// Whether an action group of this name was opened already.
    pub fn has_action(&self, name: &String) -> (r: bool)
        ensures
            r == has_sub(self@.subs, name@),
    {
        let mut k: usize = 0;
        while k < self.actions.len()
            invariant
                k <= self.actions@.len(),
                forall|j: int| 0 <= j < k ==> self.actions@[j].ref_name@ != name@,
            decreases self.actions@.len() - k,
        {
            if self.actions[k].ref_name == *name {
                assert(self@.subs[k as int].ref_name == name@);
                return true;
            }
            k = k + 1;
        }
        false
    }

    /// Reads a header on line `row`.
    pub fn open_group(&mut self, h: Header, row: usize) -> (r: Result<(), ParseError>)
        ensures
            match on_header(old(self)@, h@, row as nat) {
                Ok(s) => r is Ok && final(self)@ == s,
                Err(e) => r matches Err(x) && x@ == e && final(self)@ == old(self)@,
            },
    {
        match h {
            Header::DesktopEntry => {
                if self.seen_group {
                    return Err(
                        ParseError::RepetitiveEntry {
                            msg: string_from("only one primary group, and first, is allowed"),
                            row,
                            col: 0,
                        },
                    );
                }
                self.seen_primary = true;
                self.seen_group = true;
                Ok(())
            },
            Header::DesktopAction { name } => {
                if !self.seen_primary {
                    return Err(
                        ParseError::FormatError {
                            msg: string_from("an action group comes before the primary group"),
                            row,
                            col: 0,
                        },
                    );
                }
                if self.has_action(&name) {
                    return Err(
                        ParseError::RepetitiveEntry {
                            msg: string_from("an action group of this name exists already"),
                            row,
                            col: 0,
                        },
                    );
                }
                let ghost before = self.actions@;
                let a = DesktopActionInternal::new(name);
                self.actions.push(a);
                assert(action_views(self.actions@) =~= action_views(before).push(a@));
                Ok(())
            },
            Header::Other { .. } => {
                self.seen_group = true;
                Ok(())
            },
        }
    }

    /// Reads one kept line.
    pub fn read_line(&mut self, line: &Line) -> (r: Result<(), ParseError>)
        requires
            line.wf(),
        ensures
            match on_line(old(self)@, line@) {
                Ok(s) => r is Ok && final(self)@ == s,
                Err(e) => r matches Err(x) && x@ == e && final(self)@ == old(self)@,
            },
    {
        match line.line_type() {
            LineType::Header => match parse_header(line) {
                Ok(h) => self.open_group(h, line.line_number),
                Err(e) => Err(e),
            },
            LineType::ValPair => {
                if self.actions.len() == 0 {
                    process_entry_val_pair(line, &mut self.entry)
                } else {
                    let ghost before = self.actions@;
                    let mut a = self.actions.pop().unwrap();
                    let ghost popped = a;
                    let r = process_action_val_pair(line, &mut a);
                    self.actions.push(a);
                    assert(r is Err ==> a == popped);
                    assert(r is Err ==> self.actions@ =~= before);
                    assert(action_views(self.actions@) =~= action_views(before).update(
                        before.len() - 1,
                        a@,
                    ));
                    r
                }
            },
        }
    }
}

/// Validates the finished primary group.
fn validate_entry(entry: &DesktopEntryInternal) -> (r: Result<(), ParseError>)
    ensures
        match entry_fault(entry@) {
            Some(msg) => r matches Err(x) && x@ == (ErrorModel::KeyError { msg }),
            None => r is Ok && entry_complete(entry@),
        },
{
    if entry.entry_type.is_none() {
        return Err(ParseError::KeyError { msg: string_from("type is required") });
    }
    let named = match &entry.name {
        Some(n) => n.default.is_some(),
        None => false,
    };
    if !named {
        return Err(ParseError::KeyError { msg: string_from("name is required") });
    }
    let is_link = match &entry.entry_type {
        Some(EntryTypeInternal::Link) => true,
        _ => false,
    };
    if is_link && entry.url.is_none() {
        return Err(ParseError::KeyError { msg: string_from("URL required for Link") });
    }
    let generic_ok = match &entry.generic_name {
        Some(n) => n.default.is_some(),
        None => true,
    };
    if !generic_ok {
        return Err(
            ParseError::KeyError { msg: string_from("default value required for GenericName") },
        );
    }
    let comment_ok = match &entry.comment {
        Some(n) => n.default.is_some(),
        None => true,
    };
    if !comment_ok {
        return Err(ParseError::KeyError { msg: string_from("default value required for Comment") });
    }
    Ok(())
}

/// The position of the first action group without a default name, or their number.
fn first_unnamed_action(actions: &Vec<DesktopActionInternal>) -> (r: usize)
    ensures
        r == first_unnamed(action_views(actions@), 0),
{
    let ghost subs = action_views(actions@);
    proof {
        lemma_first_unnamed(subs, 0);
    }
    let mut k: usize = 0;
    while k < actions.len()
        invariant
            k <= actions@.len(),
            subs == action_views(actions@),
            first_unnamed(subs, 0) == first_unnamed(subs, k as int),
        decreases actions@.len() - k,
    {
        let named = match &actions[k].name {
            Some(n) => n.default.is_some(),
            None => false,
        };
        if !named {
            return k;
        }
        k = k + 1;
    }
    k
}

/// The names of the actions, in order.
fn names_of(actions: &Vec<DesktopActionInternal>) -> (r: Vec<String>)
    ensures
        texts(r@) == action_views(actions@).map_values(|a: ActionModel| a.ref_name),
{
    let mut out: Vec<String> = Vec::new();
    let mut k: usize = 0;
    while k < actions.len()
        invariant
            k <= actions@.len(),
            texts(out@) =~= action_views(actions@).map_values(|a: ActionModel| a.ref_name).take(
                k as int,
            ),
        decreases actions@.len() - k,
    {
        let ghost before = out@;
        let name = actions[k].ref_name.clone();
        out.push(name);
        assert(texts(out@) =~= texts(before).push(name@));
        k = k + 1;
    }
    out
}

/// The finished actions, by the name their headers give them.
fn vec_to_map(actions: Vec<DesktopActionInternal>) -> (r: StringHashMap<DesktopAction>)
    requires
        forall|i: int|
            0 <= i < actions@.len() ==> action_complete(#[trigger] action_views(actions@)[i]),
    ensures
        r@.map_values(|x: DesktopAction| x@) == actions_map(action_views(actions@)),
{
    let ghost subs = action_views(actions@);
    let ghost n = actions@.len();
    let mut map: StringHashMap<DesktopAction> = StringHashMap::new();
    for a in it: actions.into_iter()
        invariant
            it.seq() == actions@,
            subs == action_views(actions@),
            n == actions@.len(),
            forall|i: int| 0 <= i < n ==> action_complete(#[trigger] subs[i]),
            map@.map_values(|x: DesktopAction| x@) =~= actions_map(subs.take(it.index() as int)),
    {
        let ghost k = it.index() as int;
        assert(a == actions@[k]);
        assert(action_complete(subs[k]));
        let done = a.into_action();
        let ghost before = map@;
        map.insert(done.ref_name.clone(), done);
        assert(subs.take(k + 1).drop_last() =~= subs.take(k));
        assert(map@.map_values(|x: DesktopAction| x@) =~= before.map_values(
            |x: DesktopAction| x@,
        ).insert(done@.ref_name, done@));
    }
    assert(subs.take(n as int) =~= subs);
    map
}

/// Parses the text of a desktop entry file.
pub fn parse(input: &str) -> (r: Result<DesktopFile, ParseError>)
    ensures
        match parse_model(input@) {
            Ok(f) => r matches Ok(d) && d@ == f,
            Err(e) => r matches Err(x) && x@ == e,
        },
{
    let lines = filter_lines(input);
    let ghost lm = kept_lines(input@);
    let mut scanner = Scanner::new();
    let mut i: usize = 0;
    while i < lines.len()
        invariant
            i <= lines@.len(),
            lm == kept_lines(input@),
            lines@.len() == lm.len(),
            forall|k: int| 0 <= k < lines@.len() ==> #[trigger] lines@[k]@ == lm[k],
            forall|k: int| 0 <= k < lines@.len() ==> (#[trigger] lines@[k]).wf(),
            scan(lm, i as nat) == Ok::<ScanModel, ErrorModel>(scanner@),
        decreases lines@.len() - i,
    {
        match scanner.read_line(&lines[i]) {
            Ok(()) => {},
            Err(e) => {
                proof {
                    lemma_scan_err(lm, (i + 1) as nat, lm.len());
                }
                return Err(e);
            },
        }
        i = i + 1;
    }
    let Scanner { entry, actions, .. } = scanner;
    match validate_entry(&entry) {
        Ok(()) => {},
        Err(e) => {
            return Err(e);
        },
    }
    let k = first_unnamed_action(&actions);
    proof {
        lemma_first_unnamed(action_views(actions@), 0);
    }
    if k < actions.len() {
        let mut msg = string_from("name is required for action ");
        msg.append(actions[k].ref_name.as_str());
        return Err(ParseError::KeyError { msg });
    }
    let action_names = names_of(&actions);
    let map = vec_to_map(actions);
    Ok(DesktopFile { entry: entry.into_entry(), actions: map, action_names })
}

} // verus!
