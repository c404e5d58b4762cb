//! The blog index: one entry for each article template, newest first.
//!
//! An article is a template that declares its title, its date and its
//! description in blocks of those names. The index is built from the
//! templates' texts, which the host reads from disk.

use chrono::{Datelike, NaiveDate};
use regex::Regex;
use vstd::prelude::*;

verus! {

/// What the `regex` crate finds when it searches `text` for `pattern`: `None`
/// where the pattern does not match (or is no pattern at all); otherwise the
/// text of the first capture group of the leftmost match, or `None` in its
/// place where that group took no part in the match.
pub uninterp spec fn regex_first_group(pattern: Seq<char>, text: Seq<char>) -> Option<
    Option<Seq<char>>,
>;

/// The day that `chrono` reads from `text` under the format `format`, counted
/// in days of the proleptic Gregorian calendar with 1 January of the year 1
/// as day 1; `None` where `text` is no date in that format.
pub uninterp spec fn parsed_date_day(text: Seq<char>, format: Seq<char>) -> Option<int>;

/// Compiles `pattern` with `Regex::new` of the `regex` crate, searches `text`
/// with `Regex::captures` and takes the first group with `Captures::get`.
#[verifier::external_body]
fn first_group(pattern: &str, text: &str) -> (found: Option<Option<String>>)
    ensures
        found is Some <==> regex_first_group(pattern@, text@) is Some,
        found is Some ==> (found->0 is Some <==> regex_first_group(pattern@, text@)->0 is Some),
        found is Some && found->0 is Some ==> found->0->0@ == regex_first_group(
            pattern@,
            text@,
        )->0->0,
{
    let re = Regex::new(pattern).ok()?;
    let caps = re.captures(text)?;
    Some(caps.get(1).map(|m| m.as_str().to_string()))
}

/// Reads a date with `NaiveDate::parse_from_str` of the `chrono` crate and
/// gives its day number, `Datelike::num_days_from_ce`.
#[verifier::external_body]
fn parse_day(text: &str, format: &str) -> (day: Option<i32>)
    ensures
        day is Some <==> parsed_date_day(text@, format@) is Some,
        day is Some ==> day->0 == parsed_date_day(text@, format@)->0,
{
    NaiveDate::parse_from_str(text, format).ok().map(|d| d.num_days_from_ce())
}

/// The pattern that finds the title block of an article.
pub open spec fn title_pattern() -> Seq<char> {
    "\\{%\\sblock\\stitle\\s%\\}(.*)\\{%\\sendblock"@
}

/// The pattern that finds the date block of an article.
pub open spec fn date_pattern() -> Seq<char> {
    "\\{%\\sblock\\sdate\\s%\\}(.*)\\{%\\sendblock"@
}

/// The pattern that finds the description block of an article.
pub open spec fn description_pattern() -> Seq<char> {
    "\\{%\\sblock\\sdescription\\s%\\}(.*)\\{%\\sendblock"@
}

/// The format in which an article states its date: year, month and day,
/// joined by hyphens.
pub open spec fn date_format() -> Seq<char> {
    "%F"@
}

/// Why a template is no article.
#[derive(Clone, Copy, Debug, PartialEq, Eq, Structural)]
pub enum EntryError {
    /// The template has no title block.
    MissingTitle,
    /// The template has no date block.
    MissingDate,
    /// The template has no description block.
    MissingDescription,
    /// The date block holds no date.
    InvalidDate,
}

/// One line of the blog index.
#[derive(Debug, Clone, PartialEq, Eq)]
pub struct BlogEntry {
    pub title: String,
    pub description: String,
    pub date: String,
    pub path: String,
}

/// A blog entry as plain text.
pub struct EntryModel {
    pub title: Seq<char>,
    pub description: Seq<char>,
    pub date: Seq<char>,
    pub path: Seq<char>,
}

impl View for BlogEntry {
    type V = EntryModel;

    open spec fn view(&self) -> EntryModel {
        EntryModel {
            title: self.title@,
            description: self.description@,
            date: self.date@,
            path: self.path@,
        }
    }
}

/// The text that a search yields for the entry: the group's text, or nothing
/// where the group took no part.
pub open spec fn block_text(group: Option<Seq<char>>) -> Seq<char> {
    match group {
        Some(text) => text,
        None => Seq::empty(),
    }
}

/// The entry that the three searches give, or what is missing: the first of
/// title, date and description whose block was not found.
pub open spec fn entry_from_blocks(
    title: Option<Option<Seq<char>>>,
    date: Option<Option<Seq<char>>>,
    description: Option<Option<Seq<char>>>,
) -> Result<EntryModel, EntryError> {
    if title is None {
        Err(EntryError::MissingTitle)
    } else if date is None {
        Err(EntryError::MissingDate)
    } else if description is None {
        Err(EntryError::MissingDescription)
    } else {
        Ok(
            EntryModel {
                title: block_text(title->0),
                description: block_text(description->0),
                date: block_text(date->0),
                path: Seq::empty(),
            },
        )
    }
}

/// The entry that a template declares, with no path yet.
pub open spec fn entry_of_template(template: Seq<char>) -> Result<EntryModel, EntryError> {
    entry_from_blocks(
        regex_first_group(title_pattern(), template),
        regex_first_group(date_pattern(), template),
        regex_first_group(description_pattern(), template),
    )
}

/// The owned text of a search result.
fn into_text(group: Option<String>) -> (text: String)
    ensures
        text@ == block_text(
            match group {
                Some(t) => Some(t@),
                None => None,
            },
        ),
{
    match group {
        Some(t) => t,
        None => String::new(),
    }
}

/// The plain-text form of a search result.
pub open spec fn found_text(found: Option<Option<String>>) -> Option<Option<Seq<char>>> {
    match found {
        None => None,
        Some(None) => Some(None),
        Some(Some(t)) => Some(Some(t@)),
    }
}

impl BlogEntry {
    /// Builds the entry from the results of the three searches. Each is
    /// `None` where the block was not found; the first such block, in the
    /// order title, date, description, is reported as missing.
    pub fn from_blocks(
        title: Option<Option<String>>,
        date: Option<Option<String>>,
        description: Option<Option<String>>,
    ) -> (r: Result<BlogEntry, EntryError>)
        ensures
            match entry_from_blocks(found_text(title), found_text(date), found_text(description)) {
                Ok(entry) => r is Ok && r->Ok_0@ == entry,
                Err(e) => r == Err::<BlogEntry, EntryError>(e),
            },
    {
        let title = match title {
            Some(group) => into_text(group),
            None => {
                return Err(EntryError::MissingTitle);
            },
        };
        let date = match date {
            Some(group) => into_text(group),
            None => {
                return Err(EntryError::MissingDate);
            },
        };
        let description = match description {
            Some(group) => into_text(group),
            None => {
                return Err(EntryError::MissingDescription);
            },
        };
        Ok(BlogEntry { title, description, date, path: String::new() })
    }

    /// Reads title, date and description from the blocks of a template. The
    /// path is left empty.
    pub fn new(template: &str) -> (r: Result<BlogEntry, EntryError>)
        ensures
            match entry_of_template(template@) {
                Ok(entry) => r is Ok && r->Ok_0@ == entry,
                Err(e) => r == Err::<BlogEntry, EntryError>(e),
            },
    {
        let title = first_group("\\{%\\sblock\\stitle\\s%\\}(.*)\\{%\\sendblock", template);
        let date = first_group("\\{%\\sblock\\sdate\\s%\\}(.*)\\{%\\sendblock", template);
        let description = first_group(
            "\\{%\\sblock\\sdescription\\s%\\}(.*)\\{%\\sendblock",
            template,
        );
        BlogEntry::from_blocks(title, date, description)
    }

    /// The day of the entry's date, where it states one.
    pub open spec fn day(&self) -> Option<int> {
        parsed_date_day(self.date@, date_format())
    }

    /// The day number of the entry's date, by which entries are ordered;
    /// `None` where the date block holds no date.
    pub fn date_key(&self) -> (day: Option<i32>)
        ensures
            day is Some <==> self.day() is Some,
            day is Some ==> day->0 == self.day()->0,
    {
        parse_day(self.date.as_str(), "%F")
    }
}

/// An article template as read from disk: the file's name and its text.
#[derive(Debug, Clone)]
pub struct TemplateFile {
    pub name: String,
    pub content: String,
}

/// Why the index could not be built: the position of the first file that is
/// no article, and what is wrong with it.
#[derive(Clone, Copy, Debug, PartialEq, Eq, Structural)]
pub struct BlogError {
    pub file: usize,
    pub reason: EntryError,
}

/// An entry together with the day of its date.
#[derive(Debug, Clone)]
pub struct DatedEntry {
    pub day: i32,
    pub entry: BlogEntry,
}

/// The index of the blog: the directory of the articles and their entries,
/// newest first.
#[derive(Debug)]
pub struct BlogContext {
    path: String,
    blogentries: Vec<BlogEntry>,
}

/// A blog index as plain text.
pub struct ContextModel {
    pub path: Seq<char>,
    pub entries: Seq<EntryModel>,
}

/// Whether, of the items with the days `days`, the one at position `a`
/// stands before the one at position `b` in the index: the newer one first,
/// and of two of one day the one that comes later in `days`.
pub open spec fn stands_before(days: Seq<int>, a: int, b: int) -> bool {
    days[a] > days[b] || (days[a] == days[b] && a > b)
}

/// Whether `order` lists every position of `days` once and puts the newest
/// first.
pub open spec fn is_newest_first(days: Seq<int>, order: Seq<int>) -> bool {
    &&& order.len() == days.len()
    &&& forall|i: int| 0 <= i < order.len() ==> 0 <= #[trigger] order[i] < days.len()
    &&& forall|i: int, j: int|
        0 <= i < j < order.len() ==> stands_before(days, #[trigger] order[i], #[trigger] order[j])
}

/// The days of dated entries.
pub open spec fn days_of(dated: Seq<DatedEntry>) -> Seq<int> {
    dated.map_values(|d: DatedEntry| d.day as int)
}

/// Whether `sorted` are the entries of `dated`, newest first, and of two
/// entries of one day the one that comes later in `dated` first.
pub open spec fn sorts(dated: Seq<DatedEntry>, sorted: Seq<BlogEntry>) -> bool {
    exists|order: Seq<int>|
        {
            &&& #[trigger] is_newest_first(days_of(dated), order)
            &&& sorted.len() == dated.len()
            &&& forall|i: int|
                0 <= i < sorted.len() ==> #[trigger] sorted[i] == dated[order[i]].entry
        }
}

/// The entry that the index shows for a file: what its template declares,
/// under the path `/blog/` and the file's name. A date block that holds no
/// date makes the file no article.
pub open spec fn listed_entry(file: TemplateFile) -> Result<EntryModel, EntryError> {
    match entry_of_template(file.content@) {
        Err(e) => Err(e),
        Ok(entry) => if parsed_date_day(entry.date, date_format()) is None {
            Err(EntryError::InvalidDate)
        } else {
            Ok(
                EntryModel {
                    title: entry.title,
                    description: entry.description,
                    date: entry.date,
                    path: "/blog/"@ + file.name@,
                },
            )
        },
    }
}

/// The day of an article's date.
pub open spec fn listed_day(file: TemplateFile) -> int {
    parsed_date_day(listed_entry(file)->Ok_0.date, date_format())->0
}

/// The days of the articles' dates.
pub open spec fn listed_days(files: Seq<TemplateFile>) -> Seq<int> {
    files.map_values(|f: TemplateFile| listed_day(f))
}

/// Whether every file is an article.
pub open spec fn all_articles(files: Seq<TemplateFile>) -> bool {
    forall|i: int| 0 <= i < files.len() ==> (#[trigger] listed_entry(files[i])) is Ok
}

/// Whether `error` reports the first file that is no article.
pub open spec fn first_failure(files: Seq<TemplateFile>, error: BlogError) -> bool {
    &&& error.file < files.len()
    &&& listed_entry(files[error.file as int]) == Err::<EntryModel, EntryError>(error.reason)
    &&& forall|i: int| 0 <= i < error.file ==> (#[trigger] listed_entry(files[i])) is Ok
}

/// Whether `entries` are the entries of `files`, taken in the order `order`
/// (positions among the files), and that order puts them newest first.
pub open spec fn arranges(
    files: Seq<TemplateFile>,
    order: Seq<int>,
    entries: Seq<EntryModel>,
) -> bool {
    &&& is_newest_first(listed_days(files), order)
    &&& entries.len() == files.len()
    &&& forall|i: int|
        0 <= i < entries.len() ==> #[trigger] entries[i] == listed_entry(files[order[i]])->Ok_0
}

/// Whether `entries` is the index of `files`: each file's entry once, newest
/// first, and of two entries of one day the one of the later file first.
pub open spec fn indexes(files: Seq<TemplateFile>, entries: Seq<EntryModel>) -> bool {
    exists|order: Seq<int>| arranges(files, order, entries)
}

/// An order that puts the newest first names every position.
proof fn lemma_order_covers(days: Seq<int>, order: Seq<int>, position: int)
    requires
        is_newest_first(days, order),
        0 <= position < days.len(),
    ensures
        order.contains(position),
{
    assert forall|i: int, j: int|
        0 <= i < order.len() && 0 <= j < order.len() && i != j implies order[i] != order[j] by {
        if i < j {
            assert(stands_before(days, order[i], order[j]));
        } else {
            assert(stands_before(days, order[j], order[i]));
        }
    }
    order.unique_seq_to_set();
    let all = vstd::set_lib::set_int_range(0, days.len() as int);
    vstd::set_lib::lemma_int_range(0, days.len() as int);
    assert forall|a: int| order.to_set().contains(a) implies all.contains(a) by {
        let i = choose|i: int| 0 <= i < order.len() && order[i] == a;
        assert(0 <= order[i] < days.len());
    }
    vstd::set_lib::lemma_len_subset(order.to_set(), all);
    vstd::set_lib::lemma_subset_equality(order.to_set(), all);
    assert(all.contains(position));
}

/// Two orders that put the newest first agree at every place.
proof fn lemma_orders_agree(days: Seq<int>, first: Seq<int>, second: Seq<int>, place: int)
    requires
        is_newest_first(days, first),
        is_newest_first(days, second),
        0 <= place < days.len(),
    ensures
        first[place] == second[place],
    decreases place,
{
    assert forall|k: int| 0 <= k < place implies first[k] == second[k] by {
        lemma_orders_agree(days, first, second, k);
    }
    lemma_order_covers(days, second, first[place]);
    let j = choose|j: int| 0 <= j < second.len() && second[j] == first[place];
    lemma_order_covers(days, first, second[place]);
    let k = choose|k: int| 0 <= k < first.len() && first[k] == second[place];
    if j < place {
        assert(first[j] == second[j]);
        assert(stands_before(days, first[j], first[place]));
    } else if k < place {
        assert(first[k] == second[k]);
        assert(stands_before(days, second[k], second[place]));
    } else if j > place {
        assert(stands_before(days, second[place], second[j]));
        if k > place {
            assert(stands_before(days, first[place], first[k]));
        }
    }
}

/// There is one way only to put given days newest first.
pub proof fn law_order_unique(days: Seq<int>, first: Seq<int>, second: Seq<int>)
    requires
        is_newest_first(days, first),
        is_newest_first(days, second),
    ensures
        first == second,
{
    assert forall|i: int| 0 <= i < first.len() implies first[i] == second[i] by {
        lemma_orders_agree(days, first, second, i);
    }
    assert(first =~= second);
}

/// Dated entries can be sorted in one way only.
pub proof fn law_sorting_unique(
    dated: Seq<DatedEntry>,
    first: Seq<BlogEntry>,
    second: Seq<BlogEntry>,
)
    requires
        sorts(dated, first),
        sorts(dated, second),
    ensures
        first == second,
{
    let p = choose|order: Seq<int>|
        {
            &&& #[trigger] is_newest_first(days_of(dated), order)
            &&& first.len() == dated.len()
            &&& forall|i: int| 0 <= i < first.len() ==> #[trigger] first[i] == dated[order[i]].entry
        };
    let q = choose|order: Seq<int>|
        {
            &&& #[trigger] is_newest_first(days_of(dated), order)
            &&& second.len() == dated.len()
            &&& forall|i: int|
                0 <= i < second.len() ==> #[trigger] second[i] == dated[order[i]].entry
        };
    law_order_unique(days_of(dated), p, q);
    assert(first =~= second);
}

/// The index of given files is one and the same, however it was built: the
/// entries and their order are settled by the files alone.
pub proof fn law_index_unique(
    files: Seq<TemplateFile>,
    first: Seq<EntryModel>,
    second: Seq<EntryModel>,
)
    requires
        indexes(files, first),
        indexes(files, second),
    ensures
        first == second,
{
    let p = choose|order: Seq<int>| arranges(files, order, first);
    let q = choose|order: Seq<int>| arranges(files, order, second);
    law_order_unique(listed_days(files), p, q);
    assert(first =~= second);
}

/// In the index no entry stands behind an older one.
pub proof fn law_index_newest_first(
    files: Seq<TemplateFile>,
    entries: Seq<EntryModel>,
    i: int,
    j: int,
)
    requires
        indexes(files, entries),
        0 <= i < j < entries.len(),
    ensures
        parsed_date_day(entries[i].date, date_format())->0 >= parsed_date_day(
            entries[j].date,
            date_format(),
        )->0,
{
    let order = choose|order: Seq<int>| arranges(files, order, entries);
    assert(stands_before(listed_days(files), order[i], order[j]));
    assert(entries[i] == listed_entry(files[order[i]])->Ok_0);
    assert(entries[j] == listed_entry(files[order[j]])->Ok_0);
}

/// The plain-text forms of a run of entries.
pub open spec fn entry_models(entries: Seq<BlogEntry>) -> Seq<EntryModel> {
    entries.map_values(|e: BlogEntry| e@)
}

/// Whether the entries state dates and the dates never grow along the run.
pub open spec fn newest_first(entries: Seq<BlogEntry>) -> bool {
    &&& forall|i: int| 0 <= i < entries.len() ==> (#[trigger] entries[i].day()) is Some
    &&& forall|i: int, j: int|
        0 <= i < j < entries.len() ==> (#[trigger] entries[i].day())->0 >= (
        #[trigger] entries[j].day())->0
}

/// The place of an earlier item among days that never grow: behind every
/// later day and the same day, in front of every earlier one.
fn slot_for(days: &Vec<i32>, day: i32) -> (pos: usize)
    requires
        forall|i: int, j: int| 0 <= i < j < days.len() ==> days[i] >= days[j],
    ensures
        pos <= days.len(),
        forall|i: int| 0 <= i < pos ==> days[i] >= day,
        forall|i: int| pos <= i < days.len() ==> days[i] < day,
{
    let mut pos: usize = 0;
    while pos < days.len() && days[pos] >= day
        invariant
            pos <= days.len(),
            forall|i: int| 0 <= i < pos ==> days[i] >= day,
        decreases days.len() - pos,
    {
        pos += 1;
    }
    pos
}

/// Puts dated entries in the order of the index: newest first, and of two
/// entries of one day the one that comes later in `dated` first.
pub fn sort_newest_first(dated: Vec<DatedEntry>) -> (sorted: Vec<BlogEntry>)
    ensures
        sorts(dated@, sorted@),
{
    let ghost all = dated@;
    let ghost n = dated@.len() as int;
    let mut rest = dated;
    let mut sorted: Vec<BlogEntry> = Vec::new();
    let mut days: Vec<i32> = Vec::new();
    let ghost mut order: Seq<int> = Seq::empty();
    while rest.len() > 0
        invariant
            n == all.len(),
            rest.len() <= n,
            rest@ == all.subrange(0, rest.len() as int),
            order.len() == n - rest.len(),
            sorted.len() == order.len(),
            days.len() == order.len(),
            forall|i: int| 0 <= i < order.len() ==> rest.len() <= #[trigger] order[i] < n,
            forall|i: int| 0 <= i < order.len() ==> #[trigger] days@[i] == all[order[i]].day,
            forall|i: int| 0 <= i < order.len() ==> #[trigger] sorted@[i] == all[order[i]].entry,
            forall|i: int, j: int|
                0 <= i < j < order.len() ==> stands_before(
                    days_of(all),
                    #[trigger] order[i],
                    #[trigger] order[j],
                ),
        decreases rest.len(),
    {
        let ghost k = rest.len() - 1;
        let item = rest.pop().unwrap();
        assert(item == all[k]);
        assert forall|i: int, j: int| 0 <= i < j < days.len() implies days[i] >= days[j] by {
            assert(stands_before(days_of(all), order[i], order[j]));
        }
        let pos = slot_for(&days, item.day);
        let ghost earlier = days@;
        days.insert(pos, item.day);
        sorted.insert(pos, item.entry);
        proof {
            let before = order;
            order = order.insert(pos as int, k);
            assert forall|i: int, j: int| 0 <= i < j < order.len() implies stands_before(
                days_of(all),
                #[trigger] order[i],
                #[trigger] order[j],
            ) by {
                if j < pos {
                    assert(order[i] == before[i] && order[j] == before[j]);
                } else if j == pos {
                    assert(order[i] == before[i]);
                    assert(earlier[i] == all[before[i]].day);
                } else if i < pos {
                    assert(order[i] == before[i] && order[j] == before[j - 1]);
                } else if i == pos {
                    assert(order[j] == before[j - 1]);
                    assert(earlier[j - 1] == all[before[j - 1]].day);
                } else {
                    assert(order[i] == before[i - 1] && order[j] == before[j - 1]);
                }
            }
        }
    }
    proof {
        assert(is_newest_first(days_of(all), order));
    }
    sorted
}

impl View for BlogContext {
    type V = ContextModel;

    closed spec fn view(&self) -> ContextModel {
        ContextModel { path: self.path@, entries: entry_models(self.blogentries@) }
    }
}

impl BlogContext {
    #[verifier::type_invariant]
    spec fn well_formed(&self) -> bool {
        newest_first(self.blogentries@)
    }

    /// Builds the index of the articles in the directory `path` from their
    /// files. It fails on the first file that is no article. Otherwise the
    /// index holds one entry for each file, newest first; of two articles of
    /// one day the one whose file comes later stands first.
    pub fn new(path: &str, files: &[TemplateFile]) -> (r: Result<BlogContext, BlogError>)
        ensures
            match r {
                Ok(context) => all_articles(files@) && context@.path == path@ && indexes(
                    files@,
                    context@.entries,
                ),
                Err(error) => first_failure(files@, error),
            },
    {
        let mut dated: Vec<DatedEntry> = Vec::new();
        let mut k: usize = 0;
        while k < files.len()
            invariant
                k <= files.len(),
                dated.len() == k,
                forall|i: int| 0 <= i < k ==> (#[trigger] listed_entry(files@[i])) is Ok,
                forall|i: int|
                    0 <= i < k ==> (#[trigger] dated@[i]).entry@ == listed_entry(files@[i])->Ok_0,
                forall|i: int| 0 <= i < k ==> (#[trigger] dated@[i]).day == listed_day(files@[i]),
            decreases files.len() - k,
        {
            let file = &files[k];
            let mut entry = match BlogEntry::new(file.content.as_str()) {
                Ok(entry) => entry,
                Err(reason) => {
                    return Err(BlogError { file: k, reason });
                },
            };
            let day = match entry.date_key() {
                Some(day) => day,
                None => {
                    return Err(BlogError { file: k, reason: EntryError::InvalidDate });
                },
            };
            entry.path = String::from_str("/blog/").concat(file.name.as_str());
            dated.push(DatedEntry { day, entry });
            k += 1;
        }
        let ghost inputs = dated@;
        let entries = sort_newest_first(dated);
        proof {
            let order = choose|order: Seq<int>|
                {
                    &&& #[trigger] is_newest_first(days_of(inputs), order)
                    &&& entries@.len() == inputs.len()
                    &&& forall|i: int|
                        0 <= i < entries@.len() ==> #[trigger] entries@[i] == inputs[order[i]].entry
                };
            assert(days_of(inputs) =~= listed_days(files@));
            assert forall|i: int| 0 <= i < entries@.len() implies #[trigger] entry_models(
                entries@,
            )[i] == listed_entry(files@[order[i]])->Ok_0 by {
                assert(entries@[i] == inputs[order[i]].entry);
            }
            assert(arranges(files@, order, entry_models(entries@)));
            assert forall|i: int| 0 <= i < entries.len() implies (#[trigger] entries[i].day())
                is Some by {
                assert(entries@[i] == inputs[order[i]].entry);
                assert(listed_entry(files@[order[i]]) is Ok);
            }
            assert forall|i: int, j: int| 0 <= i < j < entries.len() implies (
            #[trigger] entries[i].day())->0 >= (#[trigger] entries[j].day())->0 by {
                assert(stands_before(listed_days(files@), order[i], order[j]));
                assert(entries@[i] == inputs[order[i]].entry);
                assert(entries@[j] == inputs[order[j]].entry);
            }
        }
        Ok(BlogContext { path: String::from_str(path), blogentries: entries })
    }

    /// Builds the index anew from the files of its directory. If a file is
    /// no article, the error says which, and the index stays as it was.
    pub fn reload(&mut self, files: &[TemplateFile]) -> (r: Result<(), BlogError>)
        ensures
            final(self)@.path == old(self)@.path,
            match r {
                Ok(_) => all_articles(files@) && indexes(files@, final(self)@.entries),
                Err(error) => first_failure(files@, error) && *final(self) == *old(self),
            },
    {
        match BlogContext::new(self.path.as_str(), files) {
            Ok(fresh) => {
                proof {
                    use_type_invariant(&fresh);
                }
                self.blogentries = fresh.blogentries;
                Ok(())
            },
            Err(error) => Err(error),
        }
    }

    /// The directory of the articles.
    pub fn path(&self) -> (path: &String)
        ensures
            path@ == self@.path,
    {
        &self.path
    }

    /// The entries, newest first.
    pub fn entries(&self) -> (entries: &Vec<BlogEntry>)
        ensures
            entry_models(entries@) == self@.entries,
            newest_first(entries@),
    {
        proof {
            use_type_invariant(self);
        }
        &self.blogentries
    }
}

} // verus!
