//! The language of the user interface and the translation of its texts.

use gettext::Catalog;
use vstd::prelude::*;
use vstd::string::StrSliceExecFns;

verus! {

/// `gettext::Catalog`, a set of translated messages. Nothing inside it is
/// seen from here; what it holds goes by the name `catalog_messages`.
#[verifier::external_type_specification]
#[verifier::external_body]
pub struct ExCatalog(gettext::Catalog);

/// The singular translations that a catalogue holds, by the text that they
/// translate. This names the contents of a `gettext::Catalog`: the first
/// translation of every message that has one, under the message's key.
pub uninterp spec fn catalog_messages(catalog: Catalog) -> Map<Seq<char>, Seq<char>>;

/// Calls `gettext::Catalog::empty`, which makes a catalogue without any
/// message.
#[verifier::external_body]
fn empty_catalog() -> (catalog: Catalog)
    ensures
        catalog_messages(catalog) == no_messages(),
{
    Catalog::empty()
}

/// Calls `gettext::Catalog::gettext`, which looks the text up among the
/// catalogue's messages and returns its singular translation, or the text
/// itself where the catalogue has none for it.
#[verifier::external_body]
fn catalog_text<'a>(catalog: &'a Catalog, text: &'a str) -> (translated: &'a str)
    ensures
        translated@ == translation(catalog_messages(*catalog), text@),
{
    catalog.gettext(text)
}

/// `sys_locale::get_locale` asks the system for the user's preferred
/// locale. What comes back depends on the machine and on the environment of
/// the process, so nothing is claimed of it.
pub assume_specification[ sys_locale::get_locale ]() -> Option<String>;

/// The messages of a catalogue that holds none.
pub open spec fn no_messages() -> Map<Seq<char>, Seq<char>> {
    Map::empty()
}

/// The translation of `text` by the given messages: the message for it, or
/// the text itself where there is none.
pub open spec fn translation(messages: Map<Seq<char>, Seq<char>>, text: Seq<char>) -> Seq<char> {
    if messages.contains_key(text) {
        messages[text]
    } else {
        text
    }
}

/// The languages that the user interface speaks.
#[derive(PartialEq, Eq, Structural, Clone, Copy, Debug)]
pub enum Lang {
    Ru,
    En,
}

impl Lang {
    /// The language for a locale: Russian for a locale whose tag begins with
    /// `ru`, English for any other and where no locale is known.
    pub open spec fn of_locale(locale: Option<Seq<char>>) -> Lang {
        match locale {
            Some(tag) => if tag.len() >= 2 && tag[0] == 'r' && tag[1] == 'u' {
                Lang::Ru
            } else {
                Lang::En
            },
            None => Lang::En,
        }
    }

    /// The language for the tag of a locale.
    pub fn from_locale(locale: Option<&str>) -> (lang: Lang)
        ensures
            lang == Lang::of_locale(
                match locale {
                    Some(tag) => Some(tag@),
                    None => None,
                },
            ),
    {
        match locale {
            Some(lang_code) => {
                if lang_code.unicode_len() >= 2 && lang_code.get_char(0) == 'r'
                    && lang_code.get_char(1) == 'u' {
                    Lang::Ru
                } else {
                    Lang::En
                }
            },
            None => Lang::En,
        }
    }

    /// The language for the locale that the system reports.
    pub fn load() -> Lang {
        match sys_locale::get_locale() {
            Some(lang_code) => Lang::from_locale(Some(lang_code.as_str())),
            None => Lang::from_locale(None),
        }
    }
}

/// The texts of the user interface in one language.
pub struct Translation {
    _lang: Lang,
    catalog: Catalog,
}

impl Translation {
    /// The language of the translation.
    pub closed spec fn lang(&self) -> Lang {
        self._lang
    }

    /// The translated texts, by the text that they translate.
    pub closed spec fn messages(&self) -> Map<Seq<char>, Seq<char>> {
        catalog_messages(self.catalog)
    }

    /// Whether this is the translation into `lang`, where `russian` is the
    /// catalogue of the Russian texts: English needs no catalogue and
    /// translates nothing, Russian translates by the catalogue.
    pub open spec fn is_for(&self, lang: Lang, russian: Option<Catalog>) -> bool {
        &&& self.lang() == lang
        &&& match lang {
            Lang::En => self.messages() == no_messages(),
            Lang::Ru => russian is Some && self.messages() == catalog_messages(russian->Some_0),
        }
    }

    /// The translation into `lang`. `russian` is the catalogue of the
    /// Russian texts, absent where it could not be read. The Russian
    /// translation cannot be had without it.
    pub fn for_lang(lang: Lang, russian: Option<Catalog>) -> (made: Option<Translation>)
        ensures
            made is Some <==> lang == Lang::En || russian is Some,
            made matches Some(translation) ==> translation.is_for(lang, russian),
    {
        let catalog = match lang {
            Lang::En => empty_catalog(),
            Lang::Ru => match russian {
                Some(catalog) => catalog,
                None => {
                    return None;
                },
            },
        };
        Some(Translation { _lang: lang, catalog })
    }

    /// The translation into the language of the system's locale.
    pub fn load(russian: Option<Catalog>) -> (made: Option<Translation>)
        ensures
            made is None ==> russian is None,
            made matches Some(translation) ==> translation.is_for(translation.lang(), russian),
    {
        let lang = Lang::load();
        Translation::for_lang(lang, russian)
    }

    /// The language of the translation.
    pub fn language(&self) -> (lang: Lang)
        ensures
            lang == self.lang(),
    {
        self._lang
    }

    /// The text in the language of the translation, or the text itself
    /// where the translation has none for it.
    pub fn gettext<'a, 'b: 'a>(&'a self, text: &'b str) -> (translated: &'a str)
        ensures
            translated@ == translation(self.messages(), text@),
    {
        catalog_text(&self.catalog, text)
    }
}

} // verus!
