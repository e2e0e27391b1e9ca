//! The records that the parser fills while it scans a file, before they are
//! validated and turned into the public types.
use vstd::hash_map::StringHashMap;
use vstd::prelude::*;

use crate::structs::{
    no_app_keys, opt_icon, opt_text, opt_texts, text_map, texts, texts_map, ActionModel, AppModel,
    ApplicationFields, DesktopAction, DesktopEntry, EntryModel, EntryType, IconString,
    KindModel, LinkFields, LocaleString, LocaleStringList, LocaleText, LocaleTextList,
};
use crate::text::same_chars;

verus! {

/// What the value of a `Type` key names.
pub open spec fn kind_of(v: Seq<char>) -> KindModel {
    if v == "Application"@ {
        KindModel::Application
    } else if v == "Link"@ {
        KindModel::Link
    } else if v == "Directory"@ {
        KindModel::Directory
    } else {
        KindModel::Unknown(v)
    }
}

/// The value of the `Type` key while a file is scanned.
pub enum EntryTypeInternal {
    Application,
    Link,
    Directory,
    Unknown(String),
}

impl View for EntryTypeInternal {
    type V = KindModel;

    open spec fn view(&self) -> KindModel {
        match self {
            EntryTypeInternal::Application => KindModel::Application,
            EntryTypeInternal::Link => KindModel::Link,
            EntryTypeInternal::Directory => KindModel::Directory,
            EntryTypeInternal::Unknown(s) => KindModel::Unknown(s@),
        }
    }
}

impl EntryTypeInternal {
    /// The type that `value` names; a name this library does not know is kept as written.
    pub fn from_value(value: &Vec<char>) -> (r: Self)
        ensures
            r@ == kind_of(value@),
    {
        if same_chars(value, "Application") {
            EntryTypeInternal::Application
        } else if same_chars(value, "Link") {
            EntryTypeInternal::Link
        } else if same_chars(value, "Directory") {
            EntryTypeInternal::Directory
        } else {
            let s = crate::text::string_of(value, 0, value.len());
            assert(value@.subrange(0, value@.len() as int) =~= value@);
            EntryTypeInternal::Unknown(s)
        }
    }
}

/// A localized string while it is being filled.
pub struct LocaleStringInternal {
    pub default: Option<String>,
    pub variants: StringHashMap<String>,
    pub locales: Vec<String>,
}

impl View for LocaleStringInternal {
    type V = LocaleText;

    open spec fn view(&self) -> LocaleText {
        LocaleText {
            default: opt_text(self.default),
            variants: text_map(self.variants@),
            locales: texts(self.locales@),
        }
    }
}

impl LocaleStringInternal {
    pub fn new() -> (r: Self)
        ensures
            r@ == (LocaleText { default: None, variants: Map::empty(), locales: Seq::empty() }),
    {
        let r = LocaleStringInternal {
            default: None,
            variants: StringHashMap::new(),
            locales: Vec::new(),
        };
        assert(r@.variants =~= Map::empty());
        assert(r@.locales =~= Seq::empty());
        r
    }

    /// The finished value; the default has to be present.
    pub fn into_locale_string(self) -> (r: LocaleString)
        requires
            self.default is Some,
        ensures
            r@ == self@,
    {
        LocaleString {
            default: self.default.unwrap(),
            variants: self.variants,
            locales: self.locales,
        }
    }
}

/// A localized list while it is being filled.
pub struct LocaleStringListInternal {
    pub default: Option<Vec<String>>,
    pub variants: StringHashMap<Vec<String>>,
    pub locales: Vec<String>,
}

impl View for LocaleStringListInternal {
    type V = LocaleTextList;

    open spec fn view(&self) -> LocaleTextList {
        LocaleTextList {
            default: opt_texts(self.default),
            variants: texts_map(self.variants@),
            locales: texts(self.locales@),
        }
    }
}

impl LocaleStringListInternal {
    pub fn new() -> (r: Self)
        ensures
            r@ == (LocaleTextList { default: None, variants: Map::empty(), locales: Seq::empty() }),
    {
        let r = LocaleStringListInternal {
            default: None,
            variants: StringHashMap::new(),
            locales: Vec::new(),
        };
        assert(r@.variants =~= Map::empty());
        assert(r@.locales =~= Seq::empty());
        r
    }

    /// The finished list; without a default, the default is the empty list.
    pub fn into_locale_string_list(self) -> (r: LocaleStringList)
        ensures
            r@ == with_list_default(self@),
    {
        let default = match self.default {
            Some(d) => d,
            None => Vec::new(),
        };
        assert(texts(default@) =~= match self@.default {
            Some(d) => d,
            None => Seq::empty(),
        });
        LocaleStringList {
            default,
            variants: self.variants,
            locales: self.locales,
        }
    }
}

pub open spec fn opt_locale_internal(o: Option<LocaleStringInternal>) -> Option<LocaleText> {
    match o {
        Some(l) => Some(l@),
        None => None,
    }
}

pub open spec fn opt_locale_list_internal(o: Option<LocaleStringListInternal>) -> Option<
    LocaleTextList,
> {
    match o {
        Some(l) => Some(l@),
        None => None,
    }
}

/// Whether a localized value, where present, has its default.
pub open spec fn has_default(o: Option<LocaleText>) -> bool {
    o matches Some(l) ==> l.default is Some
}

/// A localized list as it is kept: where no default was given, the default is the
/// empty list.
pub open spec fn with_list_default(l: LocaleTextList) -> LocaleTextList {
    LocaleTextList {
        default: Some(
            match l.default {
                Some(d) => d,
                None => Seq::empty(),
            },
        ),
        ..l
    }
}

/// An optional localized list as it is kept.
pub open spec fn opt_with_list_default(o: Option<LocaleTextList>) -> Option<LocaleTextList> {
    match o {
        Some(l) => Some(with_list_default(l)),
        None => None,
    }
}

/// An entry model with no key set.
pub open spec fn empty_entry() -> EntryModel {
    EntryModel {
        entry_type: None,
        version: None,
        name: None,
        generic_name: None,
        no_display: None,
        comment: None,
        icon: None,
        hidden: None,
        only_show_in: None,
        not_show_in: None,
        dbus_activatable: None,
        app: no_app_keys(),
        url: None,
    }
}

/// The entry as its type keeps it: keys that only another type has are dropped, and
/// `Keywords` given only per locale gets the empty list as its default.
pub open spec fn settle(m: EntryModel) -> EntryModel {
    EntryModel {
        app: if m.entry_type == Some(KindModel::Application) {
            AppModel { keywords: opt_with_list_default(m.app.keywords), ..m.app }
        } else {
            no_app_keys()
        },
        url: if m.entry_type == Some(KindModel::Link) {
            m.url
        } else {
            None
        },
        ..m
    }
}

/// Whether a scanned entry can be finished: what `entry_fault` finds nothing wrong in.
pub open spec fn entry_complete(m: EntryModel) -> bool {
    &&& m.entry_type is Some
    &&& m.name matches Some(n) && n.default is Some
    &&& m.entry_type == Some(KindModel::Link) ==> m.url is Some
    &&& has_default(m.generic_name)
    &&& has_default(m.comment)
}

/// The primary group while it is being filled.
pub struct DesktopEntryInternal {
    pub entry_type: Option<EntryTypeInternal>,
    pub version: Option<String>,
    pub name: Option<LocaleStringInternal>,
    pub generic_name: Option<LocaleStringInternal>,
    pub no_display: Option<bool>,
    pub comment: Option<LocaleStringInternal>,
    pub icon: Option<IconString>,
    pub hidden: Option<bool>,
    pub only_show_in: Option<Vec<String>>,
    pub not_show_in: Option<Vec<String>>,
    pub dbus_activatable: Option<bool>,
    pub try_exec: Option<String>,
    pub exec exec: Option<String>,
    pub path: Option<String>,
    pub terminal: Option<bool>,
    pub actions: Option<Vec<String>>,
    pub mime_type: Option<Vec<String>>,
    pub categories: Option<Vec<String>>,
    pub implements: Option<Vec<String>>,
    pub keywords: Option<LocaleStringListInternal>,
    pub startup_notify: Option<bool>,
    pub startup_wm_class: Option<String>,
    pub url: Option<String>,
    pub prefers_non_default_gpu: Option<bool>,
    pub single_main_window: Option<bool>,
}

impl View for DesktopEntryInternal {
    type V = EntryModel;

    open spec fn view(&self) -> EntryModel {
        EntryModel {
            entry_type: match self.entry_type {
                Some(t) => Some(t@),
                None => None,
            },
            version: opt_text(self.version),
            name: opt_locale_internal(self.name),
            generic_name: opt_locale_internal(self.generic_name),
            no_display: self.no_display,
            comment: opt_locale_internal(self.comment),
            icon: opt_icon(self.icon),
            hidden: self.hidden,
            only_show_in: opt_texts(self.only_show_in),
            not_show_in: opt_texts(self.not_show_in),
            dbus_activatable: self.dbus_activatable,
            app: AppModel {
                try_exec: opt_text(self.try_exec),
                exec: opt_text(self.exec),
                path: opt_text(self.path),
                terminal: self.terminal,
                actions: opt_texts(self.actions),
                mime_type: opt_texts(self.mime_type),
                categories: opt_texts(self.categories),
                implements: opt_texts(self.implements),
                keywords: opt_locale_list_internal(self.keywords),
                startup_notify: self.startup_notify,
                startup_wm_class: opt_text(self.startup_wm_class),
                prefers_non_default_gpu: self.prefers_non_default_gpu,
                single_main_window: self.single_main_window,
            },
            url: opt_text(self.url),
        }
    }
}

fn finish_locale(o: Option<LocaleStringInternal>) -> (r: Option<LocaleString>)
    requires
        has_default(opt_locale_internal(o)),
    ensures
        crate::structs::opt_locale(r) == opt_locale_internal(o),
{
    match o {
        Some(l) => Some(l.into_locale_string()),
        None => None,
    }
}

impl DesktopEntryInternal {
    pub fn new() -> (r: Self)
        ensures
            r@ == empty_entry(),
    {
        DesktopEntryInternal {
            entry_type: None,
            version: None,
            name: None,
            generic_name: None,
            no_display: None,
            comment: None,
            icon: None,
            hidden: None,
            only_show_in: None,
            not_show_in: None,
            dbus_activatable: None,
            try_exec: None,
            exec: None,
            path: None,
            terminal: None,
            actions: None,
            mime_type: None,
            categories: None,
            implements: None,
            keywords: None,
            startup_notify: None,
            startup_wm_class: None,
            url: None,
            prefers_non_default_gpu: None,
            single_main_window: None,
        }
    }

    /// The finished entry; the keys meaningful for its type are kept.
    pub fn into_entry(self) -> (r: DesktopEntry)
        requires
            entry_complete(self@),
        ensures
            r@ == settle(self@),
    {
        let kind = self.entry_type.unwrap();
        let entry_type = match kind {
            EntryTypeInternal::Application => {
                let keywords = match self.keywords {
                    Some(k) => Some(k.into_locale_string_list()),
                    None => None,
                };
                EntryType::Application(
                    ApplicationFields {
                        try_exec: self.try_exec,
                        exec: self.exec,
                        path: self.path,
                        terminal: self.terminal,
                        actions: self.actions,
                        mime_type: self.mime_type,
                        categories: self.categories,
                        implements: self.implements,
                        keywords,
                        startup_notify: self.startup_notify,
                        startup_wm_class: self.startup_wm_class,
                        prefers_non_default_gpu: self.prefers_non_default_gpu,
                        single_main_window: self.single_main_window,
                    },
                )
            },
            EntryTypeInternal::Link => EntryType::Link(LinkFields { url: self.url.unwrap() }),
            EntryTypeInternal::Directory => EntryType::Directory,
            EntryTypeInternal::Unknown(s) => EntryType::Unknown(s),
        };
        DesktopEntry {
            entry_type,
            version: self.version,
            name: self.name.unwrap().into_locale_string(),
            generic_name: finish_locale(self.generic_name),
            no_display: self.no_display,
            comment: finish_locale(self.comment),
            icon: self.icon,
            hidden: self.hidden,
            only_show_in: self.only_show_in,
            not_show_in: self.not_show_in,
            dbus_activatable: self.dbus_activatable,
        }
    }
}

/// An action group while it is being filled.
pub struct DesktopActionInternal {
    pub ref_name: String,
    pub name: Option<LocaleStringInternal>,
    pub exec exec: Option<String>,
    pub icon: Option<IconString>,
}

impl View for DesktopActionInternal {
    type V = ActionModel;

    open spec fn view(&self) -> ActionModel {
        ActionModel {
            ref_name: self.ref_name@,
            name: opt_locale_internal(self.name),
            exec: opt_text(self.exec),
            icon: opt_icon(self.icon),
        }
    }
}

/// An action model with no key set.
pub open spec fn empty_action(ref_name: Seq<char>) -> ActionModel {
    ActionModel { ref_name, name: None, exec: None, icon: None }
}

/// Whether an action can be finished: its name has a default.
pub open spec fn action_complete(a: ActionModel) -> bool {
    a.name matches Some(n) && n.default is Some
}

impl DesktopActionInternal {
    pub fn new(ref_name: String) -> (r: Self)
        ensures
            r@ == empty_action(ref_name@),
    {
        DesktopActionInternal { ref_name, name: None, exec: None, icon: None }
    }

    /// The finished action; its name has to have a default.
    pub fn into_action(self) -> (r: DesktopAction)
        requires
            action_complete(self@),
        ensures
            r@ == self@,
    {
        DesktopAction {
            ref_name: self.ref_name,
            name: self.name.unwrap().into_locale_string(),
            exec: self.exec,
            icon: self.icon,
        }
    }
}

} // verus!
