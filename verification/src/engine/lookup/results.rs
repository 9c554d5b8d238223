//! What the lookups report back, for the command line and for the API.
use vstd::prelude::*;

use crate::engine::combat::attack::join_text;
use crate::engine::combat::status::append_joined;
use crate::state::effect::texts;
use crate::text::{append_nat, nat_text, text_less, text_lt};

verus! {

/// The spell lists.
#[derive(Clone, Copy, Debug, PartialEq, Eq, Structural)]
pub enum SpellList {
    Cleric,
    MagicUser,
    Druid,
    Illusionist,
}

/// Display name of a spell list.
pub open spec fn spell_list_text(l: SpellList) -> Seq<char> {
    match l {
        SpellList::Cleric => "Cleric"@,
        SpellList::MagicUser => "Magic-User"@,
        SpellList::Druid => "Druid"@,
        SpellList::Illusionist => "Illusionist"@,
    }
}

impl SpellList {
    pub fn name(&self) -> (r: &'static str)
        ensures
            r@ == spell_list_text(*self),
    {
        match self {
            SpellList::Cleric => "Cleric",
            SpellList::MagicUser => "Magic-User",
            SpellList::Druid => "Druid",
            SpellList::Illusionist => "Illusionist",
        }
    }
}

// ── Magic items ────────────────────────────────────────────────

/// A property of a magic item, with its name when it has one.
#[derive(Clone, Debug)]
pub struct MagicItemPropertyData {
    pub key: Option<String>,
    pub value: String,
}

/// A magic item as reported.
#[derive(Clone, Debug)]
pub struct MagicItemData {
    pub name: String,
    pub category: String,
    pub cursed: bool,
    pub description: Option<String>,
    pub properties: Vec<MagicItemPropertyData>,
}

/// What a magic item lookup found: one item, a few names, or a count of
/// too many matches.
#[derive(Clone, Debug)]
pub enum LookupItemMatch {
    Single(MagicItemData),
    Multiple(Vec<String>),
    TooMany(usize),
}

/// Report of a magic item lookup.
#[derive(Clone, Debug)]
pub struct LookupItemResult {
    pub query: String,
    pub item_match: LookupItemMatch,
}

/// What the API returns for a magic item lookup.
#[derive(Clone, Debug)]
pub enum LookupItemPayload {
    Item(MagicItemData),
    Matches { matches: Vec<String>, count: usize },
    Count { count: usize },
}

/// A text or nothing, as a text value.
pub open spec fn opt_view(o: Option<String>) -> Option<Seq<char>> {
    match o {
        Some(s) => Some(s@),
        None => None,
    }
}

/// Two items read the same.
pub open spec fn same_item(a: MagicItemData, b: MagicItemData) -> bool {
    &&& a.name@ == b.name@
    &&& a.category@ == b.category@
    &&& a.cursed == b.cursed
    &&& opt_view(a.description) == opt_view(b.description)
    &&& a.properties@.len() == b.properties@.len()
    &&& forall|i: int|
        0 <= i < a.properties@.len() ==> opt_view((#[trigger] a.properties@[i]).key) == opt_view(
            b.properties@[i].key,
        ) && a.properties@[i].value@ == b.properties@[i].value@
}

/// Line of a property on the command line.
pub open spec fn property_line(p: MagicItemPropertyData) -> Seq<char> {
    match p.key {
        Some(k) => "  "@ + k@ + ": "@ + p.value@ + "\n"@,
        None => "  - "@ + p.value@ + "\n"@,
    }
}

/// Lines of properties on the command line.
pub open spec fn property_lines(ps: Seq<MagicItemPropertyData>) -> Seq<char>
    decreases ps.len(),
{
    if ps.len() == 0 {
        Seq::empty()
    } else {
        property_lines(ps.drop_last()) + property_line(ps.last())
    }
}

/// A magic item on the command line: name, category, curse, description and
/// properties.
pub open spec fn magic_item_cli_text(item: MagicItemData) -> Seq<char> {
    "=== "@ + item.name@ + " ===\nCategory: "@ + item.category@ + (if item.cursed {
        " [CURSED]"@
    } else {
        Seq::empty()
    }) + "\n"@ + match item.description {
        Some(d) => "\n"@ + d@ + "\n"@,
        None => Seq::empty(),
    } + if item.properties@.len() == 0 {
        Seq::empty()
    } else {
        "\nProperties:\n"@ + property_lines(item.properties@)
    }
}

/// Names listed one per line with a dash.
pub open spec fn name_lines(names: Seq<Seq<char>>) -> Seq<char>
    decreases names.len(),
{
    if names.len() == 0 {
        Seq::empty()
    } else {
        name_lines(names.drop_last()) + "  - "@ + names.last() + "\n"@
    }
}

/// A magic item lookup on the command line.
pub open spec fn lookup_item_cli_text(r: LookupItemResult) -> Seq<char> {
    match r.item_match {
        LookupItemMatch::Single(item) => magic_item_cli_text(item),
        LookupItemMatch::Multiple(names) => "Multiple items match '"@ + r.query@ + "'. Did you mean:\n"@
            + name_lines(texts(names@)),
        LookupItemMatch::TooMany(count) => "Found "@ + nat_text(count as nat) + " items matching '"@
            + r.query@ + "'. Please be more specific."@,
    }
}

/// A magic item lookup for the API.
pub open spec fn lookup_item_api_text(r: LookupItemResult) -> Seq<char> {
    match r.item_match {
        LookupItemMatch::Single(item) => item.name@ + " ("@ + item.category@ + ")"@ + (if item.cursed {
            " [CURSED]"@
        } else {
            Seq::empty()
        }) + match item.description {
            Some(d) => ": "@ + d@,
            None => Seq::empty(),
        },
        LookupItemMatch::Multiple(names) => "multiple items match '"@ + r.query@ + "'. Did you mean: "@
            + join_text(texts(names@), ", "@) + "?"@,
        LookupItemMatch::TooMany(count) => "found "@ + nat_text(count as nat) + " items matching '"@
            + r.query@ + "'. Please be more specific."@,
    }
}

fn clone_opt(o: &Option<String>) -> (r: Option<String>)
    ensures
        opt_view(r) == opt_view(*o),
{
    match o {
        Some(s) => Some(s.clone()),
        None => None,
    }
}

fn clone_item(item: &MagicItemData) -> (r: MagicItemData)
    ensures
        same_item(r, *item),
{
    let mut props: Vec<MagicItemPropertyData> = Vec::new();
    let mut i: usize = 0;
    while i < item.properties.len()
        invariant
            i <= item.properties@.len(),
            props@.len() == i,
            forall|j: int|
                0 <= j < i ==> opt_view((#[trigger] props@[j]).key) == opt_view(item.properties@[j].key)
                    && props@[j].value@ == item.properties@[j].value@,
        decreases item.properties@.len() - i,
    {
        let p = &item.properties[i];
        props.push(MagicItemPropertyData { key: clone_opt(&p.key), value: p.value.clone() });
        i = i + 1;
    }
    MagicItemData {
        name: item.name.clone(),
        category: item.category.clone(),
        cursed: item.cursed,
        description: clone_opt(&item.description),
        properties: props,
    }
}

fn clone_names(names: &Vec<String>) -> (r: Vec<String>)
    ensures
        texts(r@) == texts(names@),
{
    let mut out: Vec<String> = Vec::new();
    let mut i: usize = 0;
    while i < names.len()
        invariant
            i <= names@.len(),
            texts(out@) == texts(names@.take(i as int)),
        decreases names@.len() - i,
    {
        let ghost before = out@;
        out.push(names[i].clone());
        proof {
            assert(texts(out@) =~= texts(before).push(names@[i as int]@));
            assert(names@.take(i as int + 1) =~= names@.take(i as int).push(names@[i as int]));
            assert(texts(names@.take(i as int + 1)) =~= texts(names@.take(i as int)).push(names@[i as int]@));
        }
        i = i + 1;
    }
    proof {
        assert(names@.take(names@.len() as int) =~= names@);
    }
    out
}

fn append_name_lines(s: &mut String, names: &Vec<String>)
    ensures
        final(s)@ == old(s)@ + name_lines(texts(names@)),
{
    let ghost start = s@;
    let mut i: usize = 0;
    while i < names.len()
        invariant
            i <= names@.len(),
            s@ == start + name_lines(texts(names@).take(i as int)),
        decreases names@.len() - i,
    {
        proof {
            assert(texts(names@).take(i as int + 1).drop_last() =~= texts(names@).take(i as int));
        }
        s.append("  - ");
        s.append(names[i].as_str());
        s.append("\n");
        proof {
            assert(s@ =~= start + name_lines(texts(names@).take(i as int + 1)));
        }
        i = i + 1;
    }
    proof {
        assert(texts(names@).take(names@.len() as int) =~= texts(names@));
    }
}

fn format_magic_item_cli(item: &MagicItemData) -> (r: String)
    ensures
        r@ == magic_item_cli_text(*item),
{
    let mut out = String::from_str("=== ");
    out.append(item.name.as_str());
    out.append(" ===\nCategory: ");
    out.append(item.category.as_str());
    if item.cursed {
        out.append(" [CURSED]");
    }
    out.append("\n");
    match &item.description {
        Some(d) => {
            out.append("\n");
            out.append(d.as_str());
            out.append("\n");
        },
        None => {},
    }
    let ghost head = out@;
    if item.properties.len() > 0 {
        out.append("\nProperties:\n");
        let ghost start = out@;
        let mut i: usize = 0;
        while i < item.properties.len()
            invariant
                i <= item.properties@.len(),
                out@ == start + property_lines(item.properties@.take(i as int)),
            decreases item.properties@.len() - i,
        {
            proof {
                assert(item.properties@.take(i as int + 1).drop_last() =~= item.properties@.take(i as int));
            }
            let p = &item.properties[i];
            match &p.key {
                Some(k) => {
                    out.append("  ");
                    out.append(k.as_str());
                    out.append(": ");
                    out.append(p.value.as_str());
                    out.append("\n");
                },
                None => {
                    out.append("  - ");
                    out.append(p.value.as_str());
                    out.append("\n");
                },
            }
            proof {
                assert(out@ =~= start + property_lines(item.properties@.take(i as int + 1)));
            }
            i = i + 1;
        }
        proof {
            assert(item.properties@.take(item.properties@.len() as int) =~= item.properties@);
        }
    }
    proof {
        assert(out@ =~= magic_item_cli_text(*item));
    }
    out
}

impl LookupItemResult {
    /// The lookup for the command line.
    pub fn cli_output(&self) -> (r: String)
        ensures
            r@ == lookup_item_cli_text(*self),
    {
        match &self.item_match {
            LookupItemMatch::Single(item) => format_magic_item_cli(item),
            LookupItemMatch::Multiple(names) => {
                let mut out = String::from_str("Multiple items match '");
                out.append(self.query.as_str());
                out.append("'. Did you mean:\n");
                append_name_lines(&mut out, names);
                out
            },
            LookupItemMatch::TooMany(count) => {
                let mut out = String::from_str("Found ");
                append_nat(&mut out, *count as u64);
                out.append(" items matching '");
                out.append(self.query.as_str());
                out.append("'. Please be more specific.");
                out
            },
        }
    }

    /// The lookup in one line for the API.
    pub fn api_message(&self) -> (r: String)
        ensures
            r@ == lookup_item_api_text(*self),
    {
        match &self.item_match {
            LookupItemMatch::Single(item) => {
                let mut msg = item.name.clone();
                msg.append(" (");
                msg.append(item.category.as_str());
                msg.append(")");
                if item.cursed {
                    msg.append(" [CURSED]");
                }
                match &item.description {
                    Some(d) => {
                        msg.append(": ");
                        msg.append(d.as_str());
                    },
                    None => {},
                }
                msg
            },
            LookupItemMatch::Multiple(names) => {
                let mut msg = String::from_str("multiple items match '");
                msg.append(self.query.as_str());
                msg.append("'. Did you mean: ");
                append_joined(&mut msg, names, ", ");
                msg.append("?");
                msg
            },
            LookupItemMatch::TooMany(count) => {
                let mut msg = String::from_str("found ");
                append_nat(&mut msg, *count as u64);
                msg.append(" items matching '");
                msg.append(self.query.as_str());
                msg.append("'. Please be more specific.");
                msg
            },
        }
    }

    /// The lookup as API data: the item, the names with their count, or the
    /// count alone.
    pub fn api_payload(&self) -> (r: LookupItemPayload)
        ensures
            match self.item_match {
                LookupItemMatch::Single(item) => r matches LookupItemPayload::Item(i) && same_item(i, item),
                LookupItemMatch::Multiple(names) => r matches LookupItemPayload::Matches { matches, count }
                    && texts(matches@) == texts(names@) && count == names@.len(),
                LookupItemMatch::TooMany(n) => r == (LookupItemPayload::Count { count: n }),
            },
    {
        match &self.item_match {
            LookupItemMatch::Single(item) => LookupItemPayload::Item(clone_item(item)),
            LookupItemMatch::Multiple(names) => LookupItemPayload::Matches {
                matches: clone_names(names),
                count: names.len(),
            },
            LookupItemMatch::TooMany(count) => LookupItemPayload::Count { count: *count },
        }
    }
}

// ── Item searches ──────────────────────────────────────────────

/// An item found by a search.
#[derive(Clone, Debug)]
pub struct SearchItemEntry {
    pub name: String,
    pub cursed: bool,
}

/// Report of an item search: the items found under their categories, the
/// categories in increasing order.
#[derive(Clone, Debug)]
pub struct SearchItemsResult {
    pub query: String,
    pub by_category: Vec<(String, Vec<SearchItemEntry>)>,
}

/// What the API returns for an item search.
#[derive(Clone, Debug)]
pub enum SearchItemsPayload {
    Empty { matches: Vec<String>, count: usize },
    Results { count: usize, by_category: Vec<(String, Vec<String>)> },
}

/// Number of items in the first `n` categories.
pub open spec fn items_in(cats: Seq<(String, Vec<SearchItemEntry>)>, n: int) -> nat
    decreases n,
{
    if n <= 0 || n > cats.len() {
        0
    } else {
        items_in(cats, n - 1) + cats[n - 1].1@.len()
    }
}

/// Number of items found.
pub open spec fn items_found(r: SearchItemsResult) -> nat {
    items_in(r.by_category@, r.by_category@.len() as int)
}

/// Line of a found item.
pub open spec fn entry_line(e: SearchItemEntry) -> Seq<char> {
    "  - "@ + e.name@ + (if e.cursed {
        " [CURSED]"@
    } else {
        Seq::empty()
    }) + "\n"@
}

pub open spec fn entry_lines(es: Seq<SearchItemEntry>) -> Seq<char>
    decreases es.len(),
{
    if es.len() == 0 {
        Seq::empty()
    } else {
        entry_lines(es.drop_last()) + entry_line(es.last())
    }
}

/// A category with its items.
pub open spec fn category_block(c: (String, Vec<SearchItemEntry>)) -> Seq<char> {
    c.0@ + ":\n"@ + entry_lines(c.1@) + "\n"@
}

pub open spec fn category_blocks(cats: Seq<(String, Vec<SearchItemEntry>)>) -> Seq<char>
    decreases cats.len(),
{
    if cats.len() == 0 {
        Seq::empty()
    } else {
        category_blocks(cats.drop_last()) + category_block(cats.last())
    }
}

/// A search on the command line.
pub open spec fn search_cli_text(r: SearchItemsResult) -> Seq<char> {
    if items_found(r) == 0 {
        "No magic items found matching '"@ + r.query@ + "'."@
    } else {
        "Found "@ + nat_text(items_found(r)) + " item(s) matching '"@ + r.query@ + "':\n\n"@
            + category_blocks(r.by_category@)
    }
}

/// A search in one line for the API.
pub open spec fn search_api_text(r: SearchItemsResult) -> Seq<char> {
    if items_found(r) == 0 {
        "no magic items found matching '"@ + r.query@ + "'."@
    } else {
        "found "@ + nat_text(items_found(r)) + " item(s) matching '"@ + r.query@ + "'."@
    }
}

/// Names of entries.
pub open spec fn entry_names(es: Seq<SearchItemEntry>) -> Seq<Seq<char>> {
    es.map_values(|e: SearchItemEntry| e.name@)
}

proof fn lemma_items_in_prefix(cats: Seq<(String, Vec<SearchItemEntry>)>, n: int)
    requires
        0 <= n < cats.len(),
    ensures
        items_in(cats, n + 1) == items_in(cats, n) + cats[n].1@.len(),
        items_in(cats, n) <= items_in(cats, n + 1),
{
}

proof fn lemma_items_in_mono(cats: Seq<(String, Vec<SearchItemEntry>)>, n: int, m: int)
    requires
        0 <= n <= m <= cats.len(),
    ensures
        items_in(cats, n) <= items_in(cats, m),
    decreases m - n,
{
    if n < m {
        lemma_items_in_mono(cats, n, m - 1);
    }
}

/// The categories of a search come in strictly increasing order of name, so
/// no category appears twice.
pub open spec fn categories_sorted(cats: Seq<(String, Vec<SearchItemEntry>)>) -> bool {
    forall|i: int| 0 <= i < cats.len() - 1 ==> text_less(#[trigger] cats[i].0@, cats[i + 1].0@)
}

impl SearchItemsResult {
    /// Whether the categories come in strictly increasing order of name.
    pub fn categories_in_order(&self) -> (r: bool)
        ensures
            r == categories_sorted(self.by_category@),
    {
        let n = self.by_category.len();
        if n == 0 {
            return true;
        }
        let mut i: usize = 0;
        while i + 1 < n
            invariant
                n == self.by_category@.len(),
                n >= 1,
                i + 1 <= n,
                forall|j: int| 0 <= j < i ==> text_less(#[trigger] self.by_category@[j].0@, self.by_category@[j + 1].0@),
            decreases n - i,
        {
            if !text_lt(self.by_category[i].0.as_str(), self.by_category[i + 1].0.as_str()) {
                return false;
            }
            i = i + 1;
        }
        true
    }
}

impl SearchItemsResult {
    /// Number of items found.
    pub fn count(&self) -> (r: usize)
        requires
            items_found(*self) <= usize::MAX,
        ensures
            r == items_found(*self),
    {
        let mut total: usize = 0;
        let mut i: usize = 0;
        while i < self.by_category.len()
            invariant
                i <= self.by_category@.len(),
                items_found(*self) <= usize::MAX,
                total == items_in(self.by_category@, i as int),
            decreases self.by_category@.len() - i,
        {
            proof {
                lemma_items_in_prefix(self.by_category@, i as int);
                lemma_items_in_mono(self.by_category@, i as int + 1, self.by_category@.len() as int);
            }
            total = total + self.by_category[i].1.len();
            i = i + 1;
        }
        total
    }

    /// The search for the command line: each category with its items.
    pub fn cli_output(&self) -> (r: String)
        requires
            items_found(*self) <= usize::MAX,
        ensures
            r@ == search_cli_text(*self),
    {
        let count = self.count();
        if count == 0 {
            let mut out = String::from_str("No magic items found matching '");
            out.append(self.query.as_str());
            out.append("'.");
            return out;
        }
        let mut out = String::from_str("Found ");
        append_nat(&mut out, count as u64);
        out.append(" item(s) matching '");
        out.append(self.query.as_str());
        out.append("':\n\n");
        let ghost start = out@;
        let cats = &self.by_category;
        let mut i: usize = 0;
        while i < cats.len()
            invariant
                i <= cats@.len(),
                out@ == start + category_blocks(cats@.take(i as int)),
            decreases cats@.len() - i,
        {
            proof {
                assert(cats@.take(i as int + 1).drop_last() =~= cats@.take(i as int));
            }
            let ghost before = out@;
            out.append(cats[i].0.as_str());
            out.append(":\n");
            let items = &cats[i].1;
            let ghost mid = out@;
            let mut j: usize = 0;
            while j < items.len()
                invariant
                    j <= items@.len(),
                    out@ == mid + entry_lines(items@.take(j as int)),
                decreases items@.len() - j,
            {
                proof {
                    assert(items@.take(j as int + 1).drop_last() =~= items@.take(j as int));
                }
                out.append("  - ");
                out.append(items[j].name.as_str());
                if items[j].cursed {
                    out.append(" [CURSED]");
                }
                out.append("\n");
                proof {
                    assert(out@ =~= mid + entry_lines(items@.take(j as int + 1)));
                }
                j = j + 1;
            }
            out.append("\n");
            proof {
                assert(items@.take(items@.len() as int) =~= items@);
                assert(out@ =~= before + category_block(cats@[i as int]));
                assert(out@ =~= start + category_blocks(cats@.take(i as int + 1)));
            }
            i = i + 1;
        }
        proof {
            assert(cats@.take(cats@.len() as int) =~= cats@);
        }
        out
    }

    /// The search in one line for the API.
    pub fn api_message(&self) -> (r: String)
        requires
            items_found(*self) <= usize::MAX,
        ensures
            r@ == search_api_text(*self),
    {
        let count = self.count();
        if count == 0 {
            let mut out = String::from_str("no magic items found matching '");
            out.append(self.query.as_str());
            out.append("'.");
            return out;
        }
        let mut out = String::from_str("found ");
        append_nat(&mut out, count as u64);
        out.append(" item(s) matching '");
        out.append(self.query.as_str());
        out.append("'.");
        out
    }

    /// The search as API data: the count, and the names under each category.
    pub fn api_payload(&self) -> (r: SearchItemsPayload)
        requires
            items_found(*self) <= usize::MAX,
        ensures
            items_found(*self) == 0 ==> (r matches SearchItemsPayload::Empty { matches, count } && matches@.len()
                == 0 && count == 0),
            items_found(*self) > 0 ==> (r matches SearchItemsPayload::Results { count, by_category } && count
                == items_found(*self) && by_category@.len() == self.by_category@.len() && forall|i: int|
                0 <= i < by_category@.len() ==> (#[trigger] by_category@[i]).0@ == self.by_category@[i].0@
                    && texts(by_category@[i].1@) == entry_names(self.by_category@[i].1@)),
    {
        let count = self.count();
        if count == 0 {
            return SearchItemsPayload::Empty { matches: Vec::new(), count: 0 };
        }
        let mut out: Vec<(String, Vec<String>)> = Vec::new();
        let mut i: usize = 0;
        while i < self.by_category.len()
            invariant
                i <= self.by_category@.len(),
                out@.len() == i,
                forall|q: int|
                    0 <= q < i ==> (#[trigger] out@[q]).0@ == self.by_category@[q].0@ && texts(out@[q].1@)
                        == entry_names(self.by_category@[q].1@),
            decreases self.by_category@.len() - i,
        {
            let items = &self.by_category[i].1;
            let mut names: Vec<String> = Vec::new();
            let mut j: usize = 0;
            while j < items.len()
                invariant
                    j <= items@.len(),
                    texts(names@) == entry_names(items@.take(j as int)),
                decreases items@.len() - j,
            {
                let ghost before = names@;
                names.push(items[j].name.clone());
                proof {
                    assert(texts(names@) =~= texts(before).push(items@[j as int].name@));
                    assert(entry_names(items@.take(j as int + 1)) =~= entry_names(items@.take(j as int)).push(
                        items@[j as int].name@,
                    ));
                }
                j = j + 1;
            }
            proof {
                assert(items@.take(items@.len() as int) =~= items@);
            }
            out.push((self.by_category[i].0.clone(), names));
            i = i + 1;
        }
        SearchItemsPayload::Results { count, by_category: out }
    }
}

// ── Treasure types ─────────────────────────────────────────────

/// One line of a treasure type: the chance, how much, of what, with any
/// restriction and note.
#[derive(Clone, Debug)]
pub struct TreasureTypeEntryData {
    pub chance: u32,
    pub quantity: String,
    pub item_type: String,
    pub restriction: Option<String>,
    pub note: Option<String>,
}

// ── Spells ─────────────────────────────────────────────────────

/// Report of a spell lookup.
#[derive(Clone, Debug)]
pub struct LookupSpellResult {
    pub query: String,
    pub name: String,
    pub list: SpellList,
    pub level: u32,
    pub range: String,
    pub duration: String,
    pub description: String,
    pub reversible: bool,
    pub reversed_name: Option<String>,
}

/// What the API returns for a spell lookup.
#[derive(Clone, Debug)]
pub struct LookupSpellPayload {
    pub name: String,
    pub list: String,
    pub level: u32,
    pub range: String,
    pub duration: String,
    pub description: String,
}

/// A spell on the command line.
pub open spec fn spell_cli_text(r: LookupSpellResult) -> Seq<char> {
    "=== "@ + r.name@ + " ===\nList: "@ + spell_list_text(r.list) + " (Level "@ + nat_text(r.level as nat)
        + ")\nRange: "@ + r.range@ + "\nDuration: "@ + r.duration@ + "\n"@ + (if r.reversible {
        match r.reversed_name {
            Some(n) => "Reversible: "@ + n@ + "\n"@,
            None => "Reversible: yes\n"@,
        }
    } else {
        Seq::empty()
    }) + "\n"@ + r.description@
}

/// A spell in one line for the API.
pub open spec fn spell_api_text(r: LookupSpellResult) -> Seq<char> {
    r.name@ + " ("@ + spell_list_text(r.list) + "L"@ + nat_text(r.level as nat) + ") — Range: "@ + r.range@
        + ", Duration: "@ + r.duration@ + ": "@ + r.description@
}

impl LookupSpellResult {
    /// The spell for the command line: list and level, range, duration,
    /// reversal and description.
    pub fn cli_output(&self) -> (r: String)
        ensures
            r@ == spell_cli_text(*self),
    {
        let mut out = String::from_str("=== ");
        out.append(self.name.as_str());
        out.append(" ===\nList: ");
        out.append(self.list.name());
        out.append(" (Level ");
        append_nat(&mut out, self.level as u64);
        out.append(")\nRange: ");
        out.append(self.range.as_str());
        out.append("\nDuration: ");
        out.append(self.duration.as_str());
        out.append("\n");
        if self.reversible {
            match &self.reversed_name {
                Some(n) => {
                    out.append("Reversible: ");
                    out.append(n.as_str());
                    out.append("\n");
                },
                None => {
                    out.append("Reversible: yes\n");
                },
            }
        }
        out.append("\n");
        out.append(self.description.as_str());
        out
    }

    /// The spell in one line for the API.
    pub fn api_message(&self) -> (r: String)
        ensures
            r@ == spell_api_text(*self),
    {
        let mut out = self.name.clone();
        out.append(" (");
        out.append(self.list.name());
        out.append("L");
        append_nat(&mut out, self.level as u64);
        out.append(") — Range: ");
        out.append(self.range.as_str());
        out.append(", Duration: ");
        out.append(self.duration.as_str());
        out.append(": ");
        out.append(self.description.as_str());
        out
    }

    /// The spell as API data.
    pub fn api_payload(&self) -> (r: LookupSpellPayload)
        ensures
            r.name@ == self.name@,
            r.list@ == spell_list_text(self.list),
            r.level == self.level,
            r.range@ == self.range@,
            r.duration@ == self.duration@,
            r.description@ == self.description@,
    {
        LookupSpellPayload {
            name: self.name.clone(),
            list: String::from_str(self.list.name()),
            level: self.level,
            range: self.range.clone(),
            duration: self.duration.clone(),
            description: self.description.clone(),
        }
    }
}

} // verus!
