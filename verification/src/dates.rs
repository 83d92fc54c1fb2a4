//! The due-date descriptor of a task: either "no date" or a date expressed
//! as a natural-language string plus a resolved calendar date and locale.
//!
//! The descriptor upholds two rules: a "no date" descriptor carries the
//! sentinel `"No date"` in its date and string fields and is never
//! recurring, and a dated descriptor must have both its date and its
//! string present before it can be committed.

use vstd::prelude::*;
use crate::text::str_eq;

verus! {

/// Mathematical model of a committed [`DueDate`].
#[verifier::ext_equal]
pub ghost struct DueDateView {
    pub date: Seq<char>,
    pub timezone: Seq<char>,
    pub string: Seq<char>,
    pub lang: Seq<char>,
    pub is_recurring: bool,
    pub no_date: bool,
}

/// Mathematical model of a [`DueDateBuilder`].
#[verifier::ext_equal]
pub ghost struct DueDateBuilderView {
    pub date: Option<Seq<char>>,
    pub string: Option<Seq<char>>,
    pub lang: Option<Seq<char>>,
    pub is_recurring: bool,
    pub no_date: bool,
}

/// The locale codes the service can parse date strings in.
pub open spec fn supported_locales() -> Seq<Seq<char>> {
    seq![
        "en"@, "da"@, "pl"@, "zh"@, "ko"@, "de"@, "pt"@, "ja"@, "it"@, "fr"@,
        "sv"@, "ru"@, "es"@, "nl"@,
    ]
}

/// Whether `lang` is one of the supported locale codes.
pub open spec fn is_supported_lang(lang: Seq<char>) -> bool {
    supported_locales().contains(lang)
}

impl DueDateBuilderView {
    /// A builder with nothing set.
    pub open spec fn empty() -> DueDateBuilderView {
        DueDateBuilderView {
            date: None,
            string: None,
            lang: None,
            is_recurring: false,
            no_date: false,
        }
    }

    /// The builder after marking the descriptor as having no date: the
    /// staged date and string are cleared and the recurring flag is
    /// forced off.
    pub open spec fn with_no_date(self, value: bool) -> DueDateBuilderView {
        DueDateBuilderView { date: None, string: None, is_recurring: false, no_date: true, ..self }
    }

    /// The builder after requesting the recurring flag: a no-op while the
    /// descriptor is marked as having no date.
    pub open spec fn with_recurring(self, value: bool) -> DueDateBuilderView {
        if self.no_date {
            self
        } else {
            DueDateBuilderView { is_recurring: value, ..self }
        }
    }

    /// The builder after choosing a locale: an unsupported code silently
    /// falls back to the default locale `"en"`.
    pub open spec fn with_lang(self, value: Seq<char>) -> DueDateBuilderView {
        if is_supported_lang(value) {
            DueDateBuilderView { lang: Some(value), ..self }
        } else {
            DueDateBuilderView { lang: Some("en"@), ..self }
        }
    }

    /// What committing this builder yields: a descriptor, or the error
    /// for a builder that neither stages a date nor is marked "no date".
    pub open spec fn spec_build(self) -> Result<DueDateView, Seq<char>> {
        if self.date is None && !self.no_date {
            Err("No date given but no_date field is unset"@)
        } else if self.string is None && !self.no_date {
            Err("No date given but no_date field is unset"@)
        } else {
            Ok(
                DueDateView {
                    date: match self.date {
                        Some(d) => d,
                        None => "No date"@,
                    },
                    timezone: "null"@,
                    string: match self.string {
                        Some(s) => s,
                        None => "No date"@,
                    },
                    lang: match self.lang {
                        Some(l) => l,
                        None => "en"@,
                    },
                    is_recurring: self.is_recurring,
                    no_date: self.no_date,
                },
            )
        }
    }
}

impl DueDateView {
    /// The field-consistency rule of a committed descriptor: one marked
    /// as having no date carries the sentinel in its date and string
    /// fields and is not recurring.
    pub open spec fn wf(self) -> bool {
        self.no_date ==> self.date == "No date"@ && self.string == "No date"@
            && !self.is_recurring
    }
}

/// The model of the default descriptor: no date, default locale.
pub open spec fn due_date_default() -> DueDateView {
    DueDateView {
        date: "No date"@,
        timezone: "null"@,
        string: "No date"@,
        lang: "en"@,
        is_recurring: false,
        no_date: true,
    }
}

/// A committed full-day due date.
///
/// `date` is the resolved date (the current iteration for recurring
/// dates), `string` its human-readable form, and `lang` the locale the
/// string is written in. When `no_date` is set, `date` and `string` hold
/// the sentinel `"No date"` and the date is not recurring. `timezone` is
/// always the null sentinel.
#[derive(Debug, PartialEq)]
pub struct DueDate {
    pub date: String,
    pub timezone: String,
    pub string: String,
    pub lang: String,
    pub is_recurring: bool,
    pub no_date: bool,
}

impl View for DueDate {
    type V = DueDateView;

    open spec fn view(&self) -> DueDateView {
        DueDateView {
            date: self.date@,
            timezone: self.timezone@,
            string: self.string@,
            lang: self.lang@,
            is_recurring: self.is_recurring,
            no_date: self.no_date,
        }
    }
}

impl Clone for DueDate {
    /// A clone is equal to the original.
    fn clone(&self) -> (r: Self)
        ensures
            r == *self,
    {
        DueDate {
            date: self.date.clone(),
            timezone: self.timezone.clone(),
            string: self.string.clone(),
            lang: self.lang.clone(),
            is_recurring: self.is_recurring,
            no_date: self.no_date,
        }
    }
}

impl DueDate {
    /// Returns a fresh builder; a `DueDate` is only made by committing one.
    pub fn builder() -> (r: DueDateBuilder)
        ensures
            r@ == DueDateBuilderView::empty(),
    {
        DueDateBuilder::default()
    }
}

impl Default for DueDate {
    /// The default descriptor has no date.
    fn default() -> (r: Self)
        ensures
            r@ == due_date_default(),
    {
        let mut builder = DueDate::builder();
        builder = builder.no_date(true);
        match builder.build() {
            Ok(d) => d,
            Err(_) => unreached(),
        }
    }
}

/// The supported-locale table.
pub struct SupportedLang;

impl SupportedLang {
    /// The locale codes the service supports, in their documented order.
    pub fn supported_lang() -> (r: Vec<&'static str>)
        ensures
            r.deep_view() == supported_locales(),
    {
        let mut v: Vec<&'static str> = Vec::new();
        v.push("en");
        v.push("da");
        v.push("pl");
        v.push("zh");
        v.push("ko");
        v.push("de");
        v.push("pt");
        v.push("ja");
        v.push("it");
        v.push("fr");
        v.push("sv");
        v.push("ru");
        v.push("es");
        v.push("nl");
        proof {
            assert(v.deep_view() =~= supported_locales());
        }
        v
    }

    /// Accepts exactly the supported locale codes.
    pub fn check_lang(value: &str) -> (r: Result<(), ()>)
        ensures
            r is Ok <==> is_supported_lang(value@),
    {
        let supported = str_eq(value, "en") || str_eq(value, "da") || str_eq(value, "pl")
            || str_eq(value, "zh") || str_eq(value, "ko") || str_eq(value, "de")
            || str_eq(value, "pt") || str_eq(value, "ja") || str_eq(value, "it")
            || str_eq(value, "fr") || str_eq(value, "sv") || str_eq(value, "ru")
            || str_eq(value, "es") || str_eq(value, "nl");
        proof {
            lemma_supported_lang_cases(value@);
        }
        if supported {
            Ok(())
        } else {
            Err(())
        }
    }

    /// The default locale code.
    pub fn default() -> (r: String)
        ensures
            r@ == "en"@,
    {
        "en".to_string()
    }
}

/// A locale is supported exactly when it is one of the 14 listed codes.
proof fn lemma_supported_lang_cases(lang: Seq<char>)
    ensures
        is_supported_lang(lang) <==> (lang == "en"@ || lang == "da"@ || lang == "pl"@
            || lang == "zh"@ || lang == "ko"@ || lang == "de"@ || lang == "pt"@ || lang == "ja"@
            || lang == "it"@ || lang == "fr"@ || lang == "sv"@ || lang == "ru"@ || lang == "es"@
            || lang == "nl"@),
{
    if is_supported_lang(lang) {
        let i = choose|i: int| 0 <= i < supported_locales().len() && supported_locales()[i] == lang;
    }
    if lang == "en"@ {
        assert(supported_locales()[0] == lang);
    } else if lang == "da"@ {
        assert(supported_locales()[1] == lang);
    } else if lang == "pl"@ {
        assert(supported_locales()[2] == lang);
    } else if lang == "zh"@ {
        assert(supported_locales()[3] == lang);
    } else if lang == "ko"@ {
        assert(supported_locales()[4] == lang);
    } else if lang == "de"@ {
        assert(supported_locales()[5] == lang);
    } else if lang == "pt"@ {
        assert(supported_locales()[6] == lang);
    } else if lang == "ja"@ {
        assert(supported_locales()[7] == lang);
    } else if lang == "it"@ {
        assert(supported_locales()[8] == lang);
    } else if lang == "fr"@ {
        assert(supported_locales()[9] == lang);
    } else if lang == "sv"@ {
        assert(supported_locales()[10] == lang);
    } else if lang == "ru"@ {
        assert(supported_locales()[11] == lang);
    } else if lang == "es"@ {
        assert(supported_locales()[12] == lang);
    } else if lang == "nl"@ {
        assert(supported_locales()[13] == lang);
    }
}

/// Staging form of a [`DueDate`].
#[derive(Debug)]
pub struct DueDateBuilder {
    date: Option<String>,
    string: Option<String>,
    lang: Option<String>,
    is_recurring: bool,
    no_date: bool,
}

impl View for DueDateBuilder {
    type V = DueDateBuilderView;

    closed spec fn view(&self) -> DueDateBuilderView {
        DueDateBuilderView {
            date: match self.date {
                Some(ref s) => Some(s@),
                None => None,
            },
            string: match self.string {
                Some(ref s) => Some(s@),
                None => None,
            },
            lang: match self.lang {
                Some(ref s) => Some(s@),
                None => None,
            },
            is_recurring: self.is_recurring,
            no_date: self.no_date,
        }
    }
}

impl Default for DueDateBuilder {
    /// A fresh builder has nothing set.
    fn default() -> (r: Self)
        ensures
            r@ == DueDateBuilderView::empty(),
    {
        DueDateBuilder { date: None, string: None, lang: None, is_recurring: false, no_date: false }
    }
}

impl DueDateBuilder {
    /// Initializing the descriptor from a natural-language date string is
    /// not supported: the call always reports failure and the builder is
    /// discarded.
    pub fn from_string(self, date_string: &str) -> (r: Result<Self, &'static str>)
        ensures
            r matches Err(m) && m@ == "Not implemented"@,
    {
        Err("Not implemented")
    }

    /// Marks the descriptor as having no due date: clears any staged date
    /// and string and forces the recurring flag off.
    pub fn no_date(self, value: bool) -> (r: Self)
        ensures
            r@ == self@.with_no_date(value),
    {
        DueDateBuilder { date: None, string: None, is_recurring: false, no_date: true, ..self }
    }

    /// Requests the recurring flag; a no-op while the descriptor is
    /// marked as having no date.
    pub fn is_recurring(self, value: bool) -> (r: Self)
        ensures
            r@ == self@.with_recurring(value),
    {
        if self.no_date {
            self
        } else {
            DueDateBuilder { is_recurring: value, ..self }
        }
    }

    /// Chooses the locale used to interpret the date string. An
    /// unsupported code silently falls back to the default locale.
    pub fn lang(self, value: &str) -> (r: Self)
        ensures
            r@ == self@.with_lang(value@),
    {
        match SupportedLang::check_lang(value) {
            Ok(_) => DueDateBuilder { lang: Some(value.to_string()), ..self },
            Err(_) => DueDateBuilder { lang: Some(SupportedLang::default()), ..self },
        }
    }

    /// Commits the staged fields into a descriptor. Fails exactly when
    /// neither a date nor the no-date mark is staged; otherwise the
    /// timezone is filled with the null sentinel and the locale defaults
    /// to `"en"`.
    pub fn build(&self) -> (r: Result<DueDate, &'static str>)
        ensures
            match r {
                Ok(d) => self@.spec_build() == Ok::<DueDateView, Seq<char>>(d@),
                Err(m) => self@.spec_build() == Err::<DueDateView, Seq<char>>(m@),
            },
    {
        let date: String = match self.date {
            Some(ref value) => value.clone(),
            None => {
                if self.no_date {
                    "No date".to_string()
                } else {
                    return Err("No date given but no_date field is unset");
                }
            },
        };
        let string: String = match self.string {
            Some(ref value) => value.clone(),
            None => {
                if self.no_date {
                    "No date".to_string()
                } else {
                    return Err("No date given but no_date field is unset");
                }
            },
        };
        let lang: String = match self.lang {
            Some(ref value) => value.clone(),
            None => "en".to_string(),
        };
        Ok(
            DueDate {
                date,
                timezone: "null".to_string(),
                string,
                lang,
                is_recurring: self.is_recurring,
                no_date: self.no_date,
            },
        )
    }
}

impl DueDateBuilderView {
    /// The staging counterpart of the descriptor's rule: a builder marked
    /// as having no date stages no date, no string and no recurring flag.
    pub open spec fn wf(self) -> bool {
        self.no_date ==> self.date is None && self.string is None && !self.is_recurring
    }
}

/// A fresh builder is well formed, every builder operation preserves well
/// formedness, and committing a well formed builder yields a descriptor
/// that satisfies the no-date rule.
pub proof fn lemma_due_date_invariant(b: DueDateBuilderView, value: bool, code: Seq<char>)
    ensures
        DueDateBuilderView::empty().wf(),
        b.with_no_date(value).wf(),
        b.wf() ==> b.with_recurring(value).wf(),
        b.wf() ==> b.with_lang(code).wf(),
        b.wf() ==> (match b.spec_build() {
            Ok(d) => d.wf(),
            Err(_) => true,
        }),
{
}

/// Marking a builder as having no due date and committing always yields
/// the sentinel date and string with the recurring flag off, whatever was
/// staged before.
pub proof fn lemma_no_date_commit(b: DueDateBuilderView, value: bool)
    ensures
        b.with_no_date(value).spec_build() matches Ok(d) && d.date == "No date"@ && d.string
            == "No date"@ && !d.is_recurring && d.no_date,
{
}

/// Committing a no-date builder preserves a supported locale exactly and
/// replaces an unsupported one by the default locale `"en"`.
pub proof fn lemma_locale_fallback(b: DueDateBuilderView, value: bool, code: Seq<char>)
    ensures
        b.with_no_date(value).with_lang(code).spec_build() matches Ok(d) && d.lang == (
        if is_supported_lang(code) {
            code
        } else {
            "en"@
        }),
{
}

} // verus!
