//! Manufacturer records: matching against a keyword and rendering.

use crate::text::{contains, lemma_empty_occurs, lemma_occurs_in_middle, occurs_at, occurs_in};
use vstd::prelude::*;
use vstd::string::StringExecFns;

verus! {

/// One entry of the registry. Any field may be absent; an absent field is
/// kept apart from an empty one and reads as the empty string only where a
/// record is matched or rendered.
#[derive(Clone, Copy, Debug)]
pub struct Manufacturer<'a> {
    /// Official name.
    pub name: Option<&'a str>,
    /// Informal or commercial name.
    pub common_name: Option<&'a str>,
    /// Country of registration.
    pub country: Option<&'a str>,
}

/// The mathematical value of a [`Manufacturer`].
pub struct Record {
    pub name: Option<Seq<char>>,
    pub common_name: Option<Seq<char>>,
    pub country: Option<Seq<char>>,
}

/// The value of an optional string.
pub open spec fn field_view(field: Option<&str>) -> Option<Seq<char>> {
    match field {
        Some(s) => Some(s@),
        None => None,
    }
}

/// The text that stands for a field: its value, or nothing where it is absent.
pub open spec fn shown(field: Option<Seq<char>>) -> Seq<char> {
    match field {
        Some(s) => s,
        None => Seq::empty(),
    }
}

/// What precedes the name in a description.
pub open spec fn name_label() -> Seq<char> {
    "Name: "@
}

/// What stands between the name and the common name in a description.
pub open spec fn common_name_label() -> Seq<char> {
    "\nCommon Name: "@
}

/// What stands between the common name and the country in a description.
pub open spec fn country_label() -> Seq<char> {
    "\nCountry: "@
}

impl Record {
    /// `needle` is a substring of the name, the common name or the country.
    pub open spec fn has(self, needle: Seq<char>) -> bool {
        ||| occurs_in(needle, shown(self.name))
        ||| occurs_in(needle, shown(self.common_name))
        ||| occurs_in(needle, shown(self.country))
    }

    /// The three labelled lines that describe the record.
    pub open spec fn description(self) -> Seq<char> {
        name_label() + shown(self.name) + common_name_label() + shown(self.common_name)
            + country_label() + shown(self.country)
    }
}

impl<'a> View for Manufacturer<'a> {
    type V = Record;

    open spec fn view(&self) -> Record {
        Record {
            name: field_view(self.name),
            common_name: field_view(self.common_name),
            country: field_view(self.country),
        }
    }
}

/// The string to match or render for a field.
fn or_empty<'a>(field: Option<&'a str>) -> (text: &'a str)
    ensures
        text@ == shown(field_view(field)),
{
    match field {
        Some(s) => s,
        None => {
            proof {
                reveal_strlit("");
            }
            assert(""@ =~= Seq::<char>::empty());
            ""
        },
    }
}

impl<'a> Manufacturer<'a> {
    /// Whether `needle` occurs in one of the three fields. The comparison is
    /// exact: no trimming, no case folding.
    pub fn has(&self, needle: &str) -> (found: bool)
        ensures
            found == self@.has(needle@),
    {
        contains(or_empty(self.name), needle) || contains(or_empty(self.common_name), needle)
            || contains(or_empty(self.country), needle)
    }

    /// The record as three labelled lines. An absent field leaves its place
    /// empty.
    pub fn description(&self) -> (block: String)
        ensures
            block@ == self@.description(),
    {
        let mut block = "Name: ".to_owned();
        block.append(or_empty(self.name));
        block.append("\nCommon Name: ");
        block.append(or_empty(self.common_name));
        block.append("\nCountry: ");
        block.append(or_empty(self.country));
        block
    }
}

/// Every record has the empty keyword, a record without any field too.
pub proof fn lemma_empty_keyword(record: Record)
    ensures
        record.has(Seq::<char>::empty()),
{
    lemma_empty_occurs(shown(record.name));
}

/// An absent field reads as an empty one: a record and the record with `""`
/// in place of each absent field have the same keywords and the same
/// description.
pub proof fn lemma_absent_reads_as_empty(record: Record, keyword: Seq<char>)
    ensures
        ({
            let filled = Record {
                name: Some(shown(record.name)),
                common_name: Some(shown(record.common_name)),
                country: Some(shown(record.country)),
            };
            &&& filled.has(keyword) == record.has(keyword)
            &&& filled.description() == record.description()
        }),
{
}

/// The word that JSON writes for a value that is not there.
pub open spec fn null_word() -> Seq<char> {
    "null"@
}

/// No label of a description holds the letter `l`; each ends in a space, and
/// the two that follow a field start with a line break.
proof fn lemma_labels()
    ensures
        forall|i: int| 0 <= i < name_label().len() ==> name_label()[i] != 'l',
        forall|i: int| 0 <= i < common_name_label().len() ==> common_name_label()[i] != 'l',
        forall|i: int| 0 <= i < country_label().len() ==> country_label()[i] != 'l',
        name_label().len() == 6 && name_label()[5] == ' ',
        common_name_label().len() == 14 && common_name_label()[13] == ' '
            && common_name_label()[0] == '\n',
        country_label().len() == 10 && country_label()[9] == ' ' && country_label()[0] == '\n',
{
    reveal_strlit("Name: ");
    reveal_strlit("\nCommon Name: ");
    reveal_strlit("\nCountry: ");
}

/// An occurrence of `null` whose third letter falls inside a field lies
/// wholly inside that field, when a space stands right before the field and
/// either nothing or a line break right after it.
proof fn lemma_null_inside(
    before: Seq<char>,
    field: Seq<char>,
    after: Seq<char>,
    at: int,
)
    requires
        occurs_at(null_word(), before + field + after, at),
        before.len() > 0 && before.last() == ' ',
        after.len() > 0 ==> after[0] == '\n',
        before.len() <= at + 2 < before.len() + field.len(),
    ensures
        occurs_at(null_word(), field, at - before.len()),
{
    reveal_strlit("null");
    let word = null_word();
    let whole = before + field + after;
    let run = whole.subrange(at, at + 4);
    assert(run[0] == 'n' && run[1] == 'u' && run[2] == 'l' && run[3] == 'l');
    assert(whole[at] == 'n' && whole[at + 1] == 'u' && whole[at + 3] == 'l');
    let start = at - before.len();
    assert(start >= 0) by {
        if at + 1 < before.len() {
            assert(whole[at + 1] == before[at + 1]);
        } else if at < before.len() {
            assert(whole[at] == before[at]);
        }
    }
    assert(start + 4 <= field.len()) by {
        if at + 3 >= before.len() + field.len() {
            assert(whole[at + 3] == after[0]);
        }
    }
    assert(field.subrange(start, start + 4) =~= word);
}

/// A keyword that a record has shows in its description.
pub proof fn lemma_keyword_shows(record: Record, keyword: Seq<char>)
    requires
        record.has(keyword),
    ensures
        occurs_in(keyword, record.description()),
{
    let name = shown(record.name);
    let common = shown(record.common_name);
    let country = shown(record.country);
    let whole = record.description();
    if occurs_in(keyword, name) {
        let after = common_name_label() + common + country_label() + country;
        lemma_occurs_in_middle(keyword, name_label(), name, after);
        assert(name_label() + name + after =~= whole);
    } else if occurs_in(keyword, common) {
        let before = name_label() + name + common_name_label();
        let after = country_label() + country;
        lemma_occurs_in_middle(keyword, before, common, after);
        assert(before + common + after =~= whole);
    } else {
        let before = name_label() + name + common_name_label() + common + country_label();
        let after = Seq::<char>::empty();
        lemma_occurs_in_middle(keyword, before, country, after);
        assert(before + country + after =~= whole);
    }
}

/// The word `null` stands in a description exactly when it stands in one of
/// the fields of the record: rendering never writes it for an absent field.
pub proof fn lemma_description_null(record: Record)
    ensures
        occurs_in(null_word(), record.description()) <==> record.has(null_word()),
{
    let word = null_word();
    let name = shown(record.name);
    let common = shown(record.common_name);
    let country = shown(record.country);
    let whole = record.description();
    let empty = Seq::<char>::empty();
    lemma_labels();
    reveal_strlit("null");
    if record.has(word) {
        lemma_keyword_shows(record, word);
    }
    if occurs_in(word, whole) {
        let at = choose|at: int| occurs_at(word, whole, at);
        let third = at + 2;
        let run = whole.subrange(at, at + 4);
        assert(run[2] == 'l');
        assert(whole[third] == 'l');
        let a1 = name_label().len() as int;
        let a2 = a1 + name.len();
        let a3 = a2 + common_name_label().len();
        let a4 = a3 + common.len();
        let a5 = a4 + country_label().len();
        if third < a1 {
            assert(whole[third] == name_label()[third]);
        } else if third < a2 {
            let before = name_label();
            let after = common_name_label() + common + country_label() + country;
            assert(before + name + after =~= whole);
            lemma_null_inside(before, name, after, at);
        } else if third < a3 {
            assert(whole[third] == common_name_label()[third - a2]);
        } else if third < a4 {
            let before = name_label() + name + common_name_label();
            let after = country_label() + country;
            assert(before + common + after =~= whole);
            lemma_null_inside(before, common, after, at);
        } else if third < a5 {
            assert(whole[third] == country_label()[third - a4]);
        } else {
            let before = name_label() + name + common_name_label() + common + country_label();
            assert(before + country + empty =~= whole);
            lemma_null_inside(before, country, empty, at);
        }
    }
}

} // verus!
