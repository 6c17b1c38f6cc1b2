//! Messages in the languages of the interface.
use crate::domain::config::Language;
use crate::gui::catalog::{DE, EN};
use crate::text;
use vstd::prelude::*;

verus! {

/// The text that `fluent_bundle` makes of a message: the source is parsed as a
/// resource, added to a bundle for the locale, and the value of the message is
/// formatted with at most one argument. Nothing where one of these fails.
pub uninterp spec fn fluent_text(
    source: Seq<char>,
    locale: Seq<char>,
    id: Seq<char>,
    arg: Option<(Seq<char>, Seq<char>)>,
) -> Option<Seq<char>>;

/// Calls `fluent_bundle::FluentBundle::format_pattern` on the value of a message
/// of a bundle that holds one resource. The result depends on the arguments
/// alone. It is called on the two catalogs only.
#[verifier::external_body]
fn format_message(source: &str, locale: &str, id: &str, arg: Option<(&str, &str)>) -> (r: Option<
    String,
>)
    requires
        source@ == EN@ || source@ == DE@,
        locale@ == "en-US"@ || locale@ == "de-DE"@,
    ensures
        r.deep_view() == fluent_text(
            source@,
            locale@,
            id@,
            match arg {
                Some((name, value)) => Some((name@, value@)),
                None => None,
            },
        ),
{
    let resource = fluent_bundle::FluentResource::try_new(source.to_owned()).ok()?;
    let language: unic_langid::LanguageIdentifier = locale.parse().ok()?;
    let mut bundle = fluent_bundle::FluentBundle::new(vec![language]);
    bundle.add_resource(resource).ok()?;
    let args = arg.map(|(name, value)| fluent_bundle::FluentArgs::from_iter([(name, value)]));
    let pattern = bundle.get_message(id)?.value()?;
    Some(bundle.format_pattern(pattern, args.as_ref(), &mut Vec::new()).into_owned())
}

/// The messages of a language.
#[derive(Debug)]
pub struct I18n {
    german: bool,
}

/// The source of the messages of a language.
pub open spec fn catalog(german: bool) -> Seq<char> {
    if german {
        DE@
    } else {
        EN@
    }
}

/// The locale of a language.
pub open spec fn locale_tag(german: bool) -> Seq<char> {
    if german {
        "de-DE"@
    } else {
        "en-US"@
    }
}

/// Whether messages are German: chosen, or the language of the system.
pub open spec fn is_german(language: Language, system_is_german: bool) -> bool {
    match language {
        Language::System => system_is_german,
        Language::En => false,
        Language::De => true,
    }
}

impl I18n {
    /// Whether the messages are German.
    pub closed spec fn german(&self) -> bool {
        self.german
    }

    /// The messages of a language.
    pub fn new(language: Language, system_is_german: bool) -> (r: Self)
        ensures
            r.german() == is_german(language, system_is_german),
    {
        I18n {
            german: match language {
                Language::System => system_is_german,
                Language::En => false,
                Language::De => true,
            },
        }
    }

    /// The text of a message, if there is one with this identifier.
    pub fn text(&self, id: &str) -> (r: Option<String>)
        ensures
            r.deep_view() == fluent_text(
                catalog(self.german()),
                locale_tag(self.german()),
                id@,
                None,
            ),
    {
        format_message(self.source(), self.locale(), id, None)
    }

    /// The text of a message with an argument, if there is one with this identifier.
    pub fn text_with_arg(&self, id: &str, name: &str, value: &str) -> (r: Option<String>)
        ensures
            r.deep_view() == fluent_text(
                catalog(self.german()),
                locale_tag(self.german()),
                id@,
                Some((name@, value@)),
            ),
    {
        format_message(self.source(), self.locale(), id, Some((name, value)))
    }

    fn source(&self) -> (r: &'static str)
        ensures
            r@ == catalog(self.german()),
    {
        if self.german {
            DE
        } else {
            EN
        }
    }

    fn locale(&self) -> (r: &'static str)
        ensures
            r@ == locale_tag(self.german()),
    {
        if self.german {
            "de-DE"
        } else {
            "en-US"
        }
    }
}

/// The first value that is set and not empty.
pub open spec fn first_set(values: Seq<Option<Seq<char>>>) -> Option<Seq<char>>
    decreases values.len(),
{
    if values.len() == 0 {
        None
    } else if values[0] matches Some(value) && value.len() > 0 {
        values[0]
    } else {
        first_set(values.drop_first())
    }
}

/// Whether a locale begins with the letters of German, in any case.
pub open spec fn begins_german(value: Seq<char>) -> bool {
    value.len() >= 2 && text::ascii_lower(value[0]) == 'd' && text::ascii_lower(value[1]) == 'e'
}

/// Whether the language of the system is German, given the values of `LC_ALL`,
/// `LC_MESSAGES` and `LANG`: the first that is set and not empty counts.
pub fn system_language_is_german(values: &Vec<Option<String>>) -> (r: bool)
    ensures
        r == match first_set(values.deep_view()) {
            Some(value) => begins_german(value),
            None => false,
        },
{
    let ghost all = values.deep_view();
    assert(all.skip(0) =~= all);
    let mut i: usize = 0;
    while i < values.len()
        invariant
            i <= values.len(),
            all == values.deep_view(),
            first_set(all) == first_set(all.skip(i as int)),
        decreases values.len() - i,
    {
        let ghost rest = all.skip(i as int);
        assert(rest[0] == values[i as int].deep_view());
        assert(rest.drop_first() =~= all.skip(i + 1));
        if let Some(value) = &values[i] {
            let length: usize = value.as_str().unicode_len();
            if length > 0 {
                return length >= 2 && text::char_eq_ignore_case(value.as_str().get_char(0), 'd')
                    && text::char_eq_ignore_case(value.as_str().get_char(1), 'e');
            }
        }
        i += 1;
    }
    false
}

} // verus!
