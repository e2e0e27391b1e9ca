//! The parsed form of a desktop entry file, and the mathematical model that
//! each type is viewed as.
use vstd::hash_map::StringHashMap;
use vstd::prelude::*;

verus! {

/// The characters of each string, in order.
pub open spec fn texts(v: Seq<String>) -> Seq<Seq<char>> {
    v.map_values(|s: String| s@)
}

/// The characters of an optional string.
pub open spec fn opt_text(o: Option<String>) -> Option<Seq<char>> {
    match o {
        Some(s) => Some(s@),
        None => None,
    }
}

/// The contents of an optional list of strings.
pub open spec fn opt_texts(o: Option<Vec<String>>) -> Option<Seq<Seq<char>>> {
    match o {
        Some(v) => Some(texts(v@)),
        None => None,
    }
}

/// A map from locale to string, over characters.
pub open spec fn text_map(m: Map<Seq<char>, String>) -> Map<Seq<char>, Seq<char>> {
    m.map_values(|s: String| s@)
}

/// A map from locale to list of strings, over characters.
pub open spec fn texts_map(m: Map<Seq<char>, Vec<String>>) -> Map<Seq<char>, Seq<Seq<char>>> {
    m.map_values(|v: Vec<String>| texts(v@))
}

/// A value with an optional unlocalized default and one value per locale.
pub struct LocaleText {
    pub default: Option<Seq<char>>,
    pub variants: Map<Seq<char>, Seq<char>>,
    pub locales: Seq<Seq<char>>,
}

/// A list value with an optional unlocalized default and one list per locale.
pub struct LocaleTextList {
    pub default: Option<Seq<Seq<char>>>,
    pub variants: Map<Seq<char>, Seq<Seq<char>>>,
    pub locales: Seq<Seq<char>>,
}

/// What the `Type` key says an entry is.
pub enum KindModel {
    Application,
    Link,
    Directory,
    Unknown(Seq<char>),
}

/// The keys that only an application has.
pub struct AppModel {
    pub try_exec: Option<Seq<char>>,
    pub exec exec: Option<Seq<char>>,
    pub path: Option<Seq<char>>,
    pub terminal: Option<bool>,
    pub actions: Option<Seq<Seq<char>>>,
    pub mime_type: Option<Seq<Seq<char>>>,
    pub categories: Option<Seq<Seq<char>>>,
    pub implements: Option<Seq<Seq<char>>>,
    pub keywords: Option<LocaleTextList>,
    pub startup_notify: Option<bool>,
    pub startup_wm_class: Option<Seq<char>>,
    pub prefers_non_default_gpu: Option<bool>,
    pub single_main_window: Option<bool>,
}

/// The keys of the primary group; an absent key is `None`.
pub struct EntryModel {
    pub entry_type: Option<KindModel>,
    pub version: Option<Seq<char>>,
    pub name: Option<LocaleText>,
    pub generic_name: Option<LocaleText>,
    pub no_display: Option<bool>,
    pub comment: Option<LocaleText>,
    pub icon: Option<Seq<char>>,
    pub hidden: Option<bool>,
    pub only_show_in: Option<Seq<Seq<char>>>,
    pub not_show_in: Option<Seq<Seq<char>>>,
    pub dbus_activatable: Option<bool>,
    pub app: AppModel,
    pub url: Option<Seq<char>>,
}

/// The keys of an action group, with the name its header gave it.
pub struct ActionModel {
    pub ref_name: Seq<char>,
    pub name: Option<LocaleText>,
    pub exec exec: Option<Seq<char>>,
    pub icon: Option<Seq<char>>,
}

/// A whole file: the primary group and the actions by name.
pub struct FileModel {
    pub entry: EntryModel,
    pub actions: Map<Seq<char>, ActionModel>,
    pub action_names: Seq<Seq<char>>,
}

/// The model of a `ParseError`: its kind and position; `KeyError` keeps its message.
pub enum ErrorModel {
    UnacceptableCharacter { ch: Seq<char>, row: nat, col: nat },
    Syntax { row: nat, col: nat },
    RepetitiveEntry { row: nat, col: nat },
    FormatError { row: nat, col: nat },
    InternalError { row: nat, col: nat },
    RepetitiveKey { key: Seq<char>, row: nat, col: nat },
    KeyError { msg: Seq<char> },
}

pub open spec fn no_app_keys() -> AppModel {
    AppModel {
        try_exec: None,
        exec: None,
        path: None,
        terminal: None,
        actions: None,
        mime_type: None,
        categories: None,
        implements: None,
        keywords: None,
        startup_notify: None,
        startup_wm_class: None,
        prefers_non_default_gpu: None,
        single_main_window: None,
    }
}

/// A string that can have different values based on the locale.
pub struct LocaleString {
    /// The value used when no variant for a locale is present
    pub default: String,
    /// The value for each locale
    pub variants: StringHashMap<String>,
    /// The locales of `variants`, in the order the file gives them
    pub locales: Vec<String>,
}

impl View for LocaleString {
    type V = LocaleText;

    open spec fn view(&self) -> LocaleText {
        LocaleText {
            default: Some(self.default@),
            variants: text_map(self.variants@),
            locales: texts(self.locales@),
        }
    }
}

impl LocaleString {
    /// The variant for `locale`, or the default value where there is none.
    pub fn get_variant(&self, locale: &str) -> (r: &str)
        ensures
            r@ == (if self@.variants.contains_key(locale@) {
                self@.variants[locale@]
            } else {
                self.default@
            }),
    {
        match self.variants.get(locale) {
            Some(v) => v.as_str(),
            None => self.default.as_str(),
        }
    }
}

/// A list of strings that can vary based on the locale.
pub struct LocaleStringList {
    /// The list used when no variant for a locale is present
    pub default: Vec<String>,
    /// The list for each locale
    pub variants: StringHashMap<Vec<String>>,
    /// The locales of `variants`, in the order the file gives them
    pub locales: Vec<String>,
}

impl View for LocaleStringList {
    type V = LocaleTextList;

    open spec fn view(&self) -> LocaleTextList {
        LocaleTextList {
            default: Some(texts(self.default@)),
            variants: texts_map(self.variants@),
            locales: texts(self.locales@),
        }
    }
}

impl LocaleStringList {
    /// The variant for `locale`, or the default list where there is none.
    pub fn get_variant(&self, locale: &str) -> (r: &[String])
        ensures
            texts(r@) == (if self@.variants.contains_key(locale@) {
                self@.variants[locale@]
            } else {
                texts(self.default@)
            }),
    {
        match self.variants.get(locale) {
            Some(v) => v.as_slice(),
            None => self.default.as_slice(),
        }
    }
}

/// An icon reference: a file path or a name to look up in an icon theme.
#[derive(Debug, Clone)]
pub struct IconString {
    /// The reference as written in the file
    pub content: String,
}

impl View for IconString {
    type V = Seq<char>;

    open spec fn view(&self) -> Seq<char> {
        self.content@
    }
}

pub open spec fn opt_icon(o: Option<IconString>) -> Option<Seq<char>> {
    match o {
        Some(i) => Some(i@),
        None => None,
    }
}

pub open spec fn opt_locale(o: Option<LocaleString>) -> Option<LocaleText> {
    match o {
        Some(l) => Some(l@),
        None => None,
    }
}

pub open spec fn opt_locale_list(o: Option<LocaleStringList>) -> Option<LocaleTextList> {
    match o {
        Some(l) => Some(l@),
        None => None,
    }
}

/// The keys that are only meaningful for an application.
pub struct ApplicationFields {
    /// Path to an executable used to tell whether the program is installed
    pub try_exec: Option<String>,
    /// The program to execute, with its arguments
    pub exec exec: Option<String>,
    /// The working directory to run the program in
    pub path: Option<String>,
    /// Whether the program runs in a terminal window
    pub terminal: Option<bool>,
    /// Identifiers of the application's actions
    pub actions: Option<Vec<String>>,
    /// The MIME types the application supports
    pub mime_type: Option<Vec<String>>,
    /// The menu categories the entry is shown in
    pub categories: Option<Vec<String>>,
    /// The interfaces the application implements
    pub implements: Option<Vec<String>>,
    /// Words that describe the entry, for searching
    pub keywords: Option<LocaleStringList>,
    /// Whether the application takes part in startup notification
    pub startup_notify: Option<bool>,
    /// The WM class or name hint the application's window will have
    pub startup_wm_class: Option<String>,
    /// Whether the application prefers a GPU other than the default one
    pub prefers_non_default_gpu: Option<bool>,
    /// Whether the application has one main window only
    pub single_main_window: Option<bool>,
}

impl View for ApplicationFields {
    type V = AppModel;

    open spec fn view(&self) -> AppModel {
        AppModel {
            try_exec: opt_text(self.try_exec),
            exec: opt_text(self.exec),
            path: opt_text(self.path),
            terminal: self.terminal,
            actions: opt_texts(self.actions),
            mime_type: opt_texts(self.mime_type),
            categories: opt_texts(self.categories),
            implements: opt_texts(self.implements),
            keywords: opt_locale_list(self.keywords),
            startup_notify: self.startup_notify,
            startup_wm_class: opt_text(self.startup_wm_class),
            prefers_non_default_gpu: self.prefers_non_default_gpu,
            single_main_window: self.single_main_window,
        }
    }
}

/// The keys that are only meaningful for a link.
#[derive(Debug, Clone)]
pub struct LinkFields {
    /// The URL the entry points to
    pub url: String,
}

/// What kind of thing an entry describes.
pub enum EntryType {
    /// An application that can be launched
    Application(ApplicationFields),
    /// A URL shortcut
    Link(LinkFields),
    /// A directory, as used in menus
    Directory,
    /// A type this library does not know, as written in the file
    Unknown(String),
}

/// The kind of an entry type.
pub open spec fn kind_model(t: EntryType) -> KindModel {
    match t {
        EntryType::Application(_) => KindModel::Application,
        EntryType::Link(_) => KindModel::Link,
        EntryType::Directory => KindModel::Directory,
        EntryType::Unknown(s) => KindModel::Unknown(s@),
    }
}

/// The name shown for a kind; every type this library does not know shows as `Unknown`.
pub open spec fn kind_name(k: KindModel) -> Seq<char> {
    match k {
        KindModel::Application => "Application"@,
        KindModel::Link => "Link"@,
        KindModel::Directory => "Directory"@,
        KindModel::Unknown(_) => "Unknown"@,
    }
}

impl EntryType {
    /// The entry type that a `Type` value names, with none of its keys set.
    pub fn from_name(value: &str) -> (r: EntryType)
        ensures
            kind_model(r) == crate::internal_structs::kind_of(value@),
            r matches EntryType::Application(f) ==> f@ == no_app_keys(),
            r matches EntryType::Link(l) ==> l.url@.len() == 0,
    {
        let chars = crate::text::chars_of(value);
        match crate::internal_structs::EntryTypeInternal::from_value(&chars) {
            crate::internal_structs::EntryTypeInternal::Application => EntryType::Application(
                ApplicationFields {
                    try_exec: None,
                    exec: None,
                    path: None,
                    terminal: None,
                    actions: None,
                    mime_type: None,
                    categories: None,
                    implements: None,
                    keywords: None,
                    startup_notify: None,
                    startup_wm_class: None,
                    prefers_non_default_gpu: None,
                    single_main_window: None,
                },
            ),
            crate::internal_structs::EntryTypeInternal::Link => EntryType::Link(
                LinkFields { url: String::new() },
            ),
            crate::internal_structs::EntryTypeInternal::Directory => EntryType::Directory,
            crate::internal_structs::EntryTypeInternal::Unknown(s) => EntryType::Unknown(s),
        }
    }

    /// The name of the type: `Application`, `Link`, `Directory` or `Unknown`.
    pub fn to_string(&self) -> (r: String)
        ensures
            r@ == kind_name(kind_model(*self)),
    {
        match self {
            EntryType::Application(_) => crate::text::string_from("Application"),
            EntryType::Link(_) => crate::text::string_from("Link"),
            EntryType::Directory => crate::text::string_from("Directory"),
            EntryType::Unknown(_) => crate::text::string_from("Unknown"),
        }
    }
}

impl std::str::FromStr for EntryType {
    type Err = ();

    /// The entry type that `s` names; never fails, see `EntryType::from_name`.
    fn from_str(s: &str) -> Result<EntryType, ()> {
        Ok(EntryType::from_name(s))
    }
}

/// The primary group of a desktop entry file.
pub struct DesktopEntry {
    /// What the entry describes, with the keys meaningful for it
    pub entry_type: EntryType,
    /// The version of the format the file follows
    pub version: Option<String>,
    /// The name of the application, for example "Mozilla"
    pub name: LocaleString,
    /// The generic name, for example "Web Browser"
    pub generic_name: Option<LocaleString>,
    /// Whether the entry is kept out of menus
    pub no_display: Option<bool>,
    /// A tooltip for the entry
    pub comment: Option<LocaleString>,
    /// The icon shown for the entry
    pub icon: Option<IconString>,
    /// Whether the entry counts as deleted
    pub hidden: Option<bool>,
    /// The desktop environments that show the entry
    pub only_show_in: Option<Vec<String>>,
    /// The desktop environments that do not show the entry
    pub not_show_in: Option<Vec<String>>,
    /// Whether the application is started over D-Bus
    pub dbus_activatable: Option<bool>,
}

impl View for DesktopEntry {
    type V = EntryModel;

    open spec fn view(&self) -> EntryModel {
        EntryModel {
            entry_type: Some(kind_model(self.entry_type)),
            version: opt_text(self.version),
            name: Some(self.name@),
            generic_name: opt_locale(self.generic_name),
            no_display: self.no_display,
            comment: opt_locale(self.comment),
            icon: opt_icon(self.icon),
            hidden: self.hidden,
            only_show_in: opt_texts(self.only_show_in),
            not_show_in: opt_texts(self.not_show_in),
            dbus_activatable: self.dbus_activatable,
            app: match self.entry_type {
                EntryType::Application(f) => f@,
                _ => no_app_keys(),
            },
            url: match self.entry_type {
                EntryType::Link(l) => Some(l.url@),
                _ => None,
            },
        }
    }
}

/// An action: another way to launch the application.
pub struct DesktopAction {
    /// The name the action's header gives it
    pub ref_name: String,
    /// The displayed name of the action
    pub name: LocaleString,
    /// The command that runs the action
    pub exec exec: Option<String>,
    /// The icon of the action
    pub icon: Option<IconString>,
}

impl View for DesktopAction {
    type V = ActionModel;

    open spec fn view(&self) -> ActionModel {
        ActionModel {
            ref_name: self.ref_name@,
            name: Some(self.name@),
            exec: opt_text(self.exec),
            icon: opt_icon(self.icon),
        }
    }
}

/// A parsed file: its primary group and its actions by name.
pub struct DesktopFile {
    /// The primary group
    pub entry: DesktopEntry,
    /// The actions, by the name their headers give them
    pub actions: StringHashMap<DesktopAction>,
    /// The names of the actions, in the order of their headers
    pub action_names: Vec<String>,
}

impl View for DesktopFile {
    type V = FileModel;

    open spec fn view(&self) -> FileModel {
        FileModel {
            entry: self.entry@,
            actions: self.actions@.map_values(|a: DesktopAction| a@),
            action_names: texts(self.action_names@),
        }
    }
}

/// Why a file could not be parsed; `row` is the 1-based line, `col` the 0-based byte offset
/// in that line.
#[derive(Debug, Clone)]
pub enum ParseError {
    UnacceptableCharacter { ch: String, row: usize, col: usize, msg: String },
    Syntax { msg: String, row: usize, col: usize },
    RepetitiveEntry { msg: String, row: usize, col: usize },
    FormatError { msg: String, row: usize, col: usize },
    InternalError { msg: String, row: usize, col: usize },
    RepetitiveKey { key: String, row: usize, col: usize },
    KeyError { msg: String },
}

impl View for ParseError {
    type V = ErrorModel;

    open spec fn view(&self) -> ErrorModel {
        match self {
            ParseError::UnacceptableCharacter { ch, row, col, .. } => ErrorModel::UnacceptableCharacter {
                ch: ch@,
                row: *row as nat,
                col: *col as nat,
            },
            ParseError::Syntax { row, col, .. } => ErrorModel::Syntax {
                row: *row as nat,
                col: *col as nat,
            },
            ParseError::RepetitiveEntry { row, col, .. } => ErrorModel::RepetitiveEntry {
                row: *row as nat,
                col: *col as nat,
            },
            ParseError::FormatError { row, col, .. } => ErrorModel::FormatError {
                row: *row as nat,
                col: *col as nat,
            },
            ParseError::InternalError { row, col, .. } => ErrorModel::InternalError {
                row: *row as nat,
                col: *col as nat,
            },
            ParseError::RepetitiveKey { key, row, col } => ErrorModel::RepetitiveKey {
                key: key@,
                row: *row as nat,
                col: *col as nat,
            },
            ParseError::KeyError { msg } => ErrorModel::KeyError { msg: msg@ },
        }
    }
}

/// A localized value with nothing set.
pub open spec fn empty_locale_text() -> LocaleText {
    LocaleText { default: Some(Seq::empty()), variants: Map::empty(), locales: Seq::empty() }
}

/// The model of a default entry: an unknown type with an empty name, and no other key.
pub open spec fn default_entry_model() -> EntryModel {
    EntryModel {
        entry_type: Some(KindModel::Unknown(Seq::empty())),
        version: None,
        name: Some(empty_locale_text()),
        generic_name: None,
        no_display: None,
        comment: None,
        icon: None,
        hidden: None,
        only_show_in: None,
        not_show_in: None,
        dbus_activatable: None,
        app: no_app_keys(),
        url: None,
    }
}

impl Default for IconString {
    fn default() -> (r: IconString)
        ensures
            r@ == Seq::<char>::empty(),
    {
        IconString { content: String::new() }
    }
}

impl Default for LinkFields {
    fn default() -> (r: LinkFields)
        ensures
            r.url@ == Seq::<char>::empty(),
    {
        LinkFields { url: String::new() }
    }
}

impl Default for ApplicationFields {
    fn default() -> (r: ApplicationFields)
        ensures
            r@ == no_app_keys(),
    {
        ApplicationFields {
            try_exec: None,
            exec: None,
            path: None,
            terminal: None,
            actions: None,
            mime_type: None,
            categories: None,
            implements: None,
            keywords: None,
            startup_notify: None,
            startup_wm_class: None,
            prefers_non_default_gpu: None,
            single_main_window: None,
        }
    }
}

impl Default for LocaleString {
    fn default() -> (r: LocaleString)
        ensures
            r@ == empty_locale_text(),
    {
        let r = LocaleString { default: String::new(), variants: StringHashMap::new(), locales: Vec::new() };
        assert(r@.variants =~= Map::empty());
        assert(r@.locales =~= Seq::empty());
        r
    }
}

impl Default for LocaleStringList {
    fn default() -> (r: LocaleStringList)
        ensures
            r@ == (LocaleTextList {
                default: Some(Seq::empty()),
                variants: Map::empty(),
                locales: Seq::empty(),
            }),
    {
        let r = LocaleStringList {
            default: Vec::new(),
            variants: StringHashMap::new(),
            locales: Vec::new(),
        };
        assert(r@.default->0 =~= Seq::empty());
        assert(r@.variants =~= Map::empty());
        assert(r@.locales =~= Seq::empty());
        r
    }
}

impl Default for EntryType {
    /// An unknown type with an empty name.
    fn default() -> (r: EntryType)
        ensures
            kind_model(r) == KindModel::Unknown(Seq::empty()),
    {
        EntryType::Unknown(String::new())
    }
}

impl Default for DesktopEntry {
    fn default() -> (r: DesktopEntry)
        ensures
            r@ == default_entry_model(),
    {
        DesktopEntry {
            entry_type: EntryType::default(),
            version: None,
            name: LocaleString::default(),
            generic_name: None,
            no_display: None,
            comment: None,
            icon: None,
            hidden: None,
            only_show_in: None,
            not_show_in: None,
            dbus_activatable: None,
        }
    }
}

impl Default for DesktopAction {
    fn default() -> (r: DesktopAction)
        ensures
            r@ == (ActionModel {
                ref_name: Seq::empty(),
                name: Some(empty_locale_text()),
                exec: None,
                icon: None,
            }),
    {
        DesktopAction {
            ref_name: String::new(),
            name: LocaleString::default(),
            exec: None,
            icon: None,
        }
    }
}

impl Default for DesktopFile {
    fn default() -> (r: DesktopFile)
        ensures
            r@.entry == default_entry_model(),
            r@.actions == Map::<Seq<char>, ActionModel>::empty(),
            r@.action_names == Seq::<Seq<char>>::empty(),
    {
        let r = DesktopFile {
            entry: DesktopEntry::default(),
            actions: StringHashMap::new(),
            action_names: Vec::new(),
        };
        assert(r@.actions =~= Map::empty());
        assert(r@.action_names =~= Seq::empty());
        r
    }
}

} // verus!
