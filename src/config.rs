//! The persisted configuration record and the decisions of the config store:
//! which record a save writes, and what to do with a corrupt file.

use vstd::prelude::*;

verus! {

/// The persisted configuration: the API key and the default language.
pub struct NewsConfig {
    pub apikey: String,
    pub language: String,
}

impl View for NewsConfig {
    /// The record as (API key, language).
    type V = (Seq<char>, Seq<char>);

    open spec fn view(&self) -> (Seq<char>, Seq<char>) {
        (self.apikey@, self.language@)
    }
}

/// The record written when none exists or a corrupt one is reset: an empty
/// placeholder key, which no request succeeds with, and English.
pub open spec fn default_record() -> (Seq<char>, Seq<char>) {
    (Seq::empty(), "en"@)
}

/// The text of an optional string.
pub open spec fn opt_text(o: Option<String>) -> Option<Seq<char>> {
    match o {
        Some(s) => Some(s@),
        None => None,
    }
}

/// The record read back, if any.
pub open spec fn opt_record(o: Option<NewsConfig>) -> Option<(Seq<char>, Seq<char>)> {
    match o {
        Some(c) => Some(c@),
        None => None,
    }
}

/// `base` with each supplied field replaced and the others kept.
pub open spec fn updated_record(
    base: (Seq<char>, Seq<char>),
    key: Option<Seq<char>>,
    lang: Option<Seq<char>>,
) -> (Seq<char>, Seq<char>) {
    (
        match key {
            Some(k) => k,
            None => base.0,
        },
        match lang {
            Some(l) => l,
            None => base.1,
        },
    )
}

/// The record that a save writes: the current record, or the default one when
/// none could be read, with the supplied fields replaced.
pub open spec fn saved_record(
    current: Option<(Seq<char>, Seq<char>)>,
    key: Option<Seq<char>>,
    lang: Option<Seq<char>>,
) -> (Seq<char>, Seq<char>) {
    match current {
        Some(c) => updated_record(c, key, lang),
        None => updated_record(default_record(), key, lang),
    }
}

impl NewsConfig {
    pub fn new(apikey: String, language: String) -> (r: NewsConfig)
        ensures
            r.apikey == apikey,
            r.language == language,
    {
        NewsConfig { apikey, language }
    }

    /// The default record.
    pub fn default_record() -> (r: NewsConfig)
        ensures
            r@ == default_record(),
    {
        NewsConfig::new(String::new(), String::from_str("en"))
    }

    /// This record with each supplied field replaced and the others kept.
    pub fn with_updates(self, key: Option<String>, lang: Option<String>) -> (r: NewsConfig)
        ensures
            r@ == updated_record(self@, opt_text(key), opt_text(lang)),
    {
        let apikey = match key {
            Some(k) => k,
            None => self.apikey,
        };
        let language = match lang {
            Some(l) => l,
            None => self.language,
        };
        NewsConfig::new(apikey, language)
    }
}

/// The record to write when saving `key` and `lang` over `current`, the record
/// read from the file (`None` when there is none or it could not be read).
pub fn record_to_save(
    current: Option<NewsConfig>,
    key: Option<String>,
    lang: Option<String>,
) -> (r: NewsConfig)
    ensures
        r@ == saved_record(opt_record(current), opt_text(key), opt_text(lang)),
{
    let base = match current {
        Some(c) => c,
        None => NewsConfig::default_record(),
    };
    base.with_updates(key, lang)
}

/// Saving both fields over any record yields exactly those fields: the record
/// that a load then reads holds the key and the language that were saved.
pub proof fn lemma_save_both_fields(
    current: Option<(Seq<char>, Seq<char>)>,
    key: Seq<char>,
    lang: Seq<char>,
)
    ensures
        saved_record(current, Some(key), Some(lang)) == (key, lang),
{
}

/// Saving no field over a record that cannot be read writes the default record.
pub proof fn lemma_reset_writes_default()
    ensures
        saved_record(None, None, None) == default_record(),
{
}

/// What to do after a corrupt config file, given the user's answer.
#[derive(PartialEq, Eq, Structural, Debug, Clone, Copy)]
pub enum RepairChoice {
    /// Overwrite the file with the default record and load again.
    Reset,
    /// Stop the program so that the file can be mended by hand.
    Abort,
    /// The answer was not understood: ask again.
    Ask,
}

/// `s` with every line feed taken out.
pub open spec fn without_newlines(s: Seq<char>) -> Seq<char>
    decreases s.len(),
{
    if s.len() == 0 {
        s
    } else if s.last() == '\n' {
        without_newlines(s.drop_last())
    } else {
        without_newlines(s.drop_last()).push(s.last())
    }
}

/// The choice an answer stands for, once its line feeds are taken out: empty
/// or `1` resets, `2` aborts, anything else asks again.
pub open spec fn repair_choice_of(input: Seq<char>) -> RepairChoice {
    let a = without_newlines(input);
    if a.len() == 0 || a == seq!['1'] {
        RepairChoice::Reset
    } else if a == seq!['2'] {
        RepairChoice::Abort
    } else {
        RepairChoice::Ask
    }
}

/// Reads the user's answer to the repair prompt.
pub fn repair_choice(input: &str) -> (r: RepairChoice)
    ensures
        r == repair_choice_of(input@),
{
    let n = input.unicode_len();
    let mut kept: Vec<char> = Vec::new();
    let mut i: usize = 0;
    while i < n
        invariant
            i <= n,
            n == input@.len(),
            kept@ == without_newlines(input@.subrange(0, i as int)),
        decreases n - i,
    {
        let c = input.get_char(i);
        let ghost next = input@.subrange(0, i as int + 1);
        assert(next.drop_last() =~= input@.subrange(0, i as int));
        if c != '\n' {
            kept.push(c);
        }
        i = i + 1;
    }
    assert(input@.subrange(0, n as int) =~= input@);
    if kept.len() == 0 {
        RepairChoice::Reset
    } else if kept.len() == 1 && kept[0] == '1' {
        assert(kept@ =~= seq!['1']);
        RepairChoice::Reset
    } else if kept.len() == 1 && kept[0] == '2' {
        assert(kept@ =~= seq!['2']);
        RepairChoice::Abort
    } else {
        assert(kept@ != seq!['1'] && kept@ != seq!['2']) by {
            if kept.len() == 1 {
                assert(kept@[0] != seq!['1'][0]);
                assert(kept@[0] != seq!['2'][0]);
            }
        }
        RepairChoice::Ask
    }
}

} // verus!
