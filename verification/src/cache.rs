//! The persisted form of the plugin cache: how it is written and how a
//! parsed document is read back.

use vstd::prelude::*;
use vstd::string::*;
use crate::document::{parse_document, parsed_document, table_entries, table_items, value_node, Node};
use crate::error::{Error, ErrorKind};
use crate::guid::{guid_parsed, guid_text, lemma_guid_text_round_trip, GUID};
use crate::plugin::{class_identifier, get_identifier_from_class, ClassInfo, ClassInfoView, PluginInfo, PluginInfoView};
use crate::strmap::{distinct_keys, has_key, lemma_position_unique, position, value_of, with_entry, StrMap};
use crate::text::{push_char, str_eq};

verus! {

/// The decimal digit of a value below ten.
pub open spec fn digit_char(d: nat) -> char
    recommends
        d < 10,
{
    (d + 48) as char
}

/// The decimal digits of a natural number, without leading zeros.
pub open spec fn digits(n: nat) -> Seq<char>
    decreases n,
{
    if n < 10 {
        seq![digit_char(n)]
    } else {
        digits(n / 10).push(digit_char(n % 10))
    }
}

/// The decimal form of an integer, with a minus sign if it is negative.
pub open spec fn decimal(i: int) -> Seq<char> {
    if i < 0 {
        seq!['-'] + digits((-i) as nat)
    } else {
        digits(i as nat)
    }
}

fn digit_of(d: u64) -> (c: char)
    requires
        d < 10,
    ensures
        c == digit_char(d as nat),
{
    ((d as u8) + 48) as char
}

/// Appends the decimal form of `value`.
pub fn push_decimal(s: &mut String, value: i64)
    ensures
        final(s)@ == old(s)@ + decimal(value as int),
{
    let ghost start = s@;
    let magnitude: u64 = if value < 0 {
        push_char(s, '-');
        ((-(value + 1)) as u64) + 1
    } else {
        value as u64
    };
    let ghost signed = s@;
    let mut low: Vec<char> = Vec::new();
    let mut rest: u64 = magnitude;
    while rest >= 10
        invariant
            digits(magnitude as nat) == digits(rest as nat) + low@.reverse(),
        decreases rest,
    {
        let d = digit_of(rest % 10);
        assert(low@.push(d).reverse() =~= seq![d] + low@.reverse());
        assert(digits(rest as nat) == digits((rest / 10) as nat).push(d));
        assert(digits((rest / 10) as nat).push(d) + low@.reverse() =~= digits((rest / 10) as nat) + (
        seq![d] + low@.reverse()));
        low.push(d);
        rest = rest / 10;
    }
    push_char(s, digit_of(rest));
    let mut i: usize = low.len();
    while i > 0
        invariant
            i <= low.len(),
            s@ == signed + digits(rest as nat) + low@.reverse().take(low.len() - i),
        decreases i,
    {
        i -= 1;
        let ghost k = low.len() - i - 1;
        assert(low@.reverse()[k] == low@[i as int]);
        push_char(s, low[i]);
        assert(low@.reverse().take(k + 1) =~= low@.reverse().take(k).push(low@[i as int]));
        assert(s@ =~= signed + digits(rest as nat) + low@.reverse().take(low.len() - i));
    }
    assert(low@.reverse().take(low.len() as int) =~= low@.reverse());
    assert(s@ =~= start + decimal(value as int));
}

/// The opening section of the cache file, which carries the time of writing.
pub open spec fn header_text(timestamp: Seq<char>) -> Seq<char> {
    "[cache]\ntimestamp = \""@ + timestamp + "\"\n\n"@
}

/// The line of one class: its key, then its name, category, cardinality and
/// identifier as an inline table.
pub open spec fn class_text(class: ClassInfoView) -> Seq<char> {
    class_identifier(class, Some("class"@)) + " = { name=\""@ + class.name + "\", category=\""@
        + class.category + "\", cardinality="@ + decimal(class.cardinality as int) + ", cid=\""@
        + guid_text(class.cid) + "\" }\n"@
}

/// The lines of the classes of one plugin, in order.
pub open spec fn classes_text(classes: Seq<ClassInfoView>) -> Seq<char>
    decreases classes.len(),
{
    if classes.len() == 0 {
        seq![]
    } else {
        classes_text(classes.drop_last()) + class_text(classes.last())
    }
}

/// The section of one plugin: a header with its identity, its path and file
/// time, its classes, and an empty line.
pub open spec fn plugin_text(id: Seq<char>, plugin: PluginInfoView) -> Seq<char> {
    "["@ + id + "]\npath = \""@ + plugin.path + "\"\nfile_time = "@ + decimal(
        plugin.file_time as int,
    ) + "\n"@ + classes_text(plugin.classes) + "\n"@
}

/// The sections of all plugins, in order.
pub open spec fn plugins_text(plugins: Seq<(Seq<char>, PluginInfoView)>) -> Seq<char>
    decreases plugins.len(),
{
    if plugins.len() == 0 {
        seq![]
    } else {
        plugins_text(plugins.drop_last()) + plugin_text(plugins.last().0, plugins.last().1)
    }
}

/// The whole cache file.
pub open spec fn cache_text(plugins: Seq<(Seq<char>, PluginInfoView)>, timestamp: Seq<char>) -> Seq<char> {
    header_text(timestamp) + plugins_text(plugins)
}

fn push_class(s: &mut String, class: &ClassInfo)
    ensures
        final(s)@ == old(s)@ + class_text(class@),
{
    let ghost start = s@;
    let key = get_identifier_from_class(class, Some("class"));
    s.append(key.as_str());
    s.append(" = { name=\"");
    s.append(class.name.as_str());
    s.append("\", category=\"");
    s.append(class.category.as_str());
    s.append("\", cardinality=");
    push_decimal(s, class.cardinality as i64);
    s.append(", cid=\"");
    let cid = class.cid.to_string();
    s.append(cid.as_str());
    s.append("\" }\n");
    assert(s@ =~= start + class_text(class@));
}

fn push_plugin(s: &mut String, id: &str, plugin: &PluginInfo)
    ensures
        final(s)@ == old(s)@ + plugin_text(id@, plugin@),
{
    let ghost start = s@;
    s.append("[");
    s.append(id);
    s.append("]\npath = \"");
    s.append(plugin.path.as_str());
    s.append("\"\nfile_time = ");
    push_decimal(s, plugin.file_time);
    s.append("\n");
    let ghost head = s@;
    let mut i: usize = 0;
    while i < plugin.classes.len()
        invariant
            i <= plugin.classes.len(),
            s@ == head + classes_text(plugin@.classes.take(i as int)),
        decreases plugin.classes.len() - i,
    {
        push_class(s, &plugin.classes[i]);
        proof {
            let next = plugin@.classes.take(i + 1);
            assert(next.drop_last() =~= plugin@.classes.take(i as int));
            assert(next.last() == plugin.classes@[i as int]@);
            assert(s@ =~= head + classes_text(next));
        }
        i += 1;
    }
    assert(plugin@.classes.take(plugin.classes.len() as int) =~= plugin@.classes);
    s.append("\n");
    assert(s@ =~= start + plugin_text(id@, plugin@));
}

/// The text of the cache file for the given plugins and time of writing.
pub fn render_cache(plugins: &StrMap<PluginInfo>, timestamp: &str) -> (text: String)
    ensures
        text@ == cache_text(plugins@, timestamp@),
{
    let mut s = String::new();
    s.append("[cache]\ntimestamp = \"");
    s.append(timestamp);
    s.append("\"\n\n");
    assert(s@ =~= header_text(timestamp@));
    let ghost all = plugins@;
    let mut i: usize = 0;
    while i < plugins.len()
        invariant
            i <= plugins@.len(),
            all == plugins@,
            s@ == header_text(timestamp@) + plugins_text(all.take(i as int)),
        decreases plugins@.len() - i,
    {
        push_plugin(&mut s, plugins.key_at(i).as_str(), plugins.value_at(i));
        proof {
            let next = all.take(i + 1);
            assert(next.drop_last() =~= all.take(i as int));
            assert(next.last() == all[i as int]);
            assert(s@ =~= header_text(timestamp@) + plugins_text(next));
        }
        i += 1;
    }
    assert(all.take(plugins@.len() as int) =~= all);
    s
}

/// The value filed under a key of a table, if the key is present.
pub open spec fn attribute(table: Seq<(Seq<char>, Node)>, key: Seq<char>) -> Option<Node> {
    if has_key(table, key) {
        Some(value_of(table, key))
    } else {
        None
    }
}

/// The class that an inline table describes: it must give a name, a
/// category and an identifier as strings and a cardinality as an integer of
/// thirty-two bits.
pub open spec fn class_of_table(table: Seq<(Seq<char>, Node)>) -> Option<ClassInfoView> {
    match (
        attribute(table, "name"@),
        attribute(table, "category"@),
        attribute(table, "cardinality"@),
        attribute(table, "cid"@),
    ) {
        (
            Some(Node::Text(name)),
            Some(Node::Text(category)),
            Some(Node::Integer(cardinality)),
            Some(Node::Text(cid)),
        ) => if i32::MIN <= cardinality <= i32::MAX {
            Some(
                ClassInfoView {
                    name,
                    category,
                    cardinality: cardinality as i32,
                    cid: guid_parsed(cid),
                },
            )
        } else {
            None
        },
        _ => None,
    }
}

/// The plugin that a section describes. `path` must be a string and
/// `file_time` an integer where they are given; every other entry that is a
/// table must describe a class, and the classes keep the order of the
/// section; entries of any other type are passed over.
pub open spec fn plugin_of_section(id: Seq<char>, section: Seq<(Seq<char>, Node)>) -> Option<PluginInfoView>
    decreases section.len(),
{
    if section.len() == 0 {
        Some(PluginInfoView { id, path: seq![], classes: seq![], file_time: 0 })
    } else {
        match plugin_of_section(id, section.drop_last()) {
            None => None,
            Some(p) => {
                let key = section.last().0;
                let value = section.last().1;
                if key == "path"@ {
                    match value {
                        Node::Text(path) => Some(PluginInfoView { path, ..p }),
                        _ => None,
                    }
                } else if key == "file_time"@ {
                    match value {
                        Node::Integer(file_time) => Some(PluginInfoView { file_time, ..p }),
                        _ => None,
                    }
                } else {
                    match value {
                        Node::Table(table) => match class_of_table(table) {
                            Some(class) => Some(
                                PluginInfoView { classes: p.classes.push(class), ..p },
                            ),
                            None => None,
                        },
                        _ => Some(p),
                    }
                }
            },
        }
    }
}

/// The plugins that the sections of a document describe, each under the
/// name of its section. The section `cache` and entries that are no tables
/// are passed over.
pub open spec fn plugins_of_document(document: Seq<(Seq<char>, Node)>) -> Option<Seq<(Seq<char>, PluginInfoView)>>
    decreases document.len(),
{
    if document.len() == 0 {
        Some(seq![])
    } else {
        match plugins_of_document(document.drop_last()) {
            None => None,
            Some(plugins) => {
                let key = document.last().0;
                if key == "cache"@ {
                    Some(plugins)
                } else {
                    match document.last().1 {
                        Node::Table(section) => match plugin_of_section(key, section) {
                            Some(p) => Some(plugins.push((key, p))),
                            None => None,
                        },
                        _ => Some(plugins),
                    }
                }
            },
        }
    }
}

/// The cache that a document holds. A document without a `cache` section,
/// or with a section that describes no plugin, holds none.
pub open spec fn cache_of_document(document: Seq<(Seq<char>, Node)>) -> Option<Seq<(Seq<char>, PluginInfoView)>> {
    if has_key(document, "cache"@) {
        plugins_of_document(document)
    } else {
        None
    }
}

/// The cache that a text holds, if it is a document and holds one.
pub open spec fn cache_of_text(text: Seq<char>) -> Option<Seq<(Seq<char>, PluginInfoView)>> {
    match parsed_document(text) {
        Some(document) => cache_of_document(document),
        None => None,
    }
}

/// The keys of the plugins of a document are keys of the document.
pub proof fn lemma_plugins_keys(document: Seq<(Seq<char>, Node)>)
    requires
        plugins_of_document(document) is Some,
    ensures
        forall|i: int|
            0 <= i < plugins_of_document(document)->0.len() ==> has_key(
                document,
                (#[trigger] plugins_of_document(document)->0[i]).0,
            ),
    decreases document.len(),
{
    if document.len() > 0 {
        let init = document.drop_last();
        lemma_plugins_keys(init);
        let plugins = plugins_of_document(document)->0;
        let before = plugins_of_document(init)->0;
        assert forall|i: int| 0 <= i < plugins.len() implies has_key(document, (#[trigger] plugins[i]).0) by {
            if i < before.len() {
                assert(plugins[i] == before[i]);
                let q = position(init, before[i].0);
                assert(document[q].0 == before[i].0);
            } else {
                assert(document[document.len() - 1].0 == plugins[i].0);
            }
        }
    }
}

fn find_item(items: &Vec<(&String, &toml::Value)>, key: &str) -> (r: Option<usize>)
    ensures
        match r {
            Some(i) => i < items@.len() && items@[i as int].0@ == key@,
            None => forall|j: int| 0 <= j < items@.len() ==> (#[trigger] items@[j]).0@ != key@,
        },
{
    let mut i: usize = 0;
    while i < items.len()
        invariant
            i <= items.len(),
            forall|j: int| 0 <= j < i ==> (#[trigger] items@[j]).0@ != key@,
        decreases items.len() - i,
    {
        if str_eq(items[i].0.as_str(), key) {
            return Some(i);
        }
        i += 1;
    }
    None
}

fn item_node<'a>(
    items: &Vec<(&'a String, &'a toml::Value)>,
    key: &str,
    Ghost(table): Ghost<Seq<(Seq<char>, Node)>>,
) -> (r: Option<&'a toml::Value>)
    requires
        distinct_keys(table),
        items@.len() == table.len(),
        forall|i: int|
            0 <= i < items@.len() ==> (#[trigger] items@[i]).0@ == table[i].0 && value_node(
                *items@[i].1,
            ) == table[i].1,
    ensures
        match r {
            Some(v) => attribute(table, key@) == Some(value_node(*v)),
            None => attribute(table, key@) is None,
        },
{
    match find_item(items, key) {
        Some(i) => {
            proof {
                lemma_position_unique(table, i as int);
            }
            Some(items[i].1)
        },
        None => {
            proof {
                if has_key(table, key@) {
                    let q = position(table, key@);
                    assert(items@[q].0@ == key@);
                }
            }
            None
        },
    }
}

proof fn lemma_items_distinct(items: Seq<(&String, &toml::Value)>, table: Seq<(Seq<char>, Node)>)
    requires
        items.len() == table.len(),
        forall|i: int| 0 <= i < items.len() ==> (#[trigger] items[i]).0@ == table[i].0,
        forall|i: int, j: int|
            0 <= i < items.len() && 0 <= j < items.len() && (#[trigger] items[i]).0@ == (
            #[trigger] items[j]).0@ ==> i == j,
    ensures
        distinct_keys(table),
{
    assert forall|i: int, j: int|
        0 <= i < table.len() && 0 <= j < table.len() && (#[trigger] table[i]).0 == (
        #[trigger] table[j]).0 implies i == j by {
        assert(items[i].0@ == items[j].0@);
    }
}

fn read_class(table: &toml::Table) -> (r: Option<ClassInfo>)
    ensures
        match r {
            Some(class) => class_of_table(table_entries(*table)) == Some(class@),
            None => class_of_table(table_entries(*table)) is None,
        },
{
    let items = table_items(table);
    let ghost entries = table_entries(*table);
    proof {
        lemma_items_distinct(items@, entries);
    }
    let name = match item_node(&items, "name", Ghost(entries)) {
        Some(v) => match v.as_str() {
            Some(s) => s,
            None => { return None; },
        },
        None => { return None; },
    };
    let category = match item_node(&items, "category", Ghost(entries)) {
        Some(v) => match v.as_str() {
            Some(s) => s,
            None => { return None; },
        },
        None => { return None; },
    };
    let cardinality = match item_node(&items, "cardinality", Ghost(entries)) {
        Some(v) => match v.as_integer() {
            Some(i) => i,
            None => { return None; },
        },
        None => { return None; },
    };
    let cid = match item_node(&items, "cid", Ghost(entries)) {
        Some(v) => match v.as_str() {
            Some(s) => s,
            None => { return None; },
        },
        None => { return None; },
    };
    if cardinality < -2147483648 || cardinality > 2147483647 {
        return None;
    }
    Some(
        ClassInfo {
            name: name.to_owned(),
            category: category.to_owned(),
            cardinality: cardinality as i32,
            cid: GUID::from_string(cid),
        },
    )
}

fn read_plugin(id: &str, section: &toml::Table) -> (r: Option<PluginInfo>)
    ensures
        match r {
            Some(p) => plugin_of_section(id@, table_entries(*section)) == Some(p@),
            None => plugin_of_section(id@, table_entries(*section)) is None,
        },
{
    let items = table_items(section);
    let ghost entries = table_entries(*section);
    let mut plugin = PluginInfo::default();
    plugin.id = id.to_owned();
    let mut i: usize = 0;
    assert(entries.take(0) =~= seq![]);
    while i < items.len()
        invariant
            i <= items.len(),
            items@.len() == entries.len(),
            forall|k: int|
                0 <= k < items@.len() ==> (#[trigger] items@[k]).0@ == entries[k].0 && value_node(
                    *items@[k].1,
                ) == entries[k].1,
            plugin_of_section(id@, entries.take(i as int)) == Some(plugin@),
            entries == table_entries(*section),
        decreases items.len() - i,
    {
        let key = items[i].0;
        let value = items[i].1;
        proof {
            let next = entries.take(i + 1);
            assert(next.drop_last() =~= entries.take(i as int));
            assert(next.last() == entries[i as int]);
        }
        let ghost before = plugin@;
        if str_eq(key.as_str(), "path") {
            match value.as_str() {
                Some(path) => {
                    plugin.path = path.to_owned();
                },
                None => {
                    proof {
                        assert(!(entries[i as int].1 is Text));
                        assert(plugin_of_section(id@, entries.take(i + 1)) is None);
                        lemma_section_fails(id@, entries, i + 1);
                    }
                    return None;
                },
            }
        } else if str_eq(key.as_str(), "file_time") {
            match value.as_integer() {
                Some(file_time) => {
                    plugin.file_time = file_time;
                },
                None => {
                    proof {
                        assert(!(entries[i as int].1 is Integer));
                        assert(plugin_of_section(id@, entries.take(i + 1)) is None);
                        lemma_section_fails(id@, entries, i + 1);
                    }
                    return None;
                },
            }
        } else {
            match value.as_table() {
                Some(table) => match read_class(table) {
                    Some(class) => {
                        plugin.classes.push(class);
                        assert(plugin@.classes =~= before.classes.push(class@));
                    },
                    None => {
                        proof {
                            lemma_section_fails(id@, entries, i + 1);
                        }
                        return None;
                    },
                },
                None => {},
            }
        }
        assert(plugin@.classes =~= plugin_of_section(id@, entries.take(i + 1))->0.classes);
        i += 1;
    }
    assert(entries.take(items.len() as int) =~= entries);
    Some(plugin)
}

/// A section of which a leading part describes no plugin describes none.
proof fn lemma_section_fails(id: Seq<char>, section: Seq<(Seq<char>, Node)>, n: int)
    requires
        0 <= n <= section.len(),
        plugin_of_section(id, section.take(n)) is None,
    ensures
        plugin_of_section(id, section) is None,
    decreases section.len() - n,
{
    if n < section.len() {
        let next = section.take(n + 1);
        assert(next.drop_last() =~= section.take(n));
        lemma_section_fails(id, section, n + 1);
    } else {
        assert(section.take(n) =~= section);
    }
}

/// A document of which a leading part holds a malformed section holds no cache.
proof fn lemma_document_fails(document: Seq<(Seq<char>, Node)>, n: int)
    requires
        0 <= n <= document.len(),
        plugins_of_document(document.take(n)) is None,
    ensures
        plugins_of_document(document) is None,
    decreases document.len() - n,
{
    if n < document.len() {
        let next = document.take(n + 1);
        assert(next.drop_last() =~= document.take(n));
        lemma_document_fails(document, n + 1);
    } else {
        assert(document.take(n) =~= document);
    }
}

/// Reads the cache out of the text of a cache file.
///
/// The result is the cache that the text holds, each plugin under the name
/// of its section and in the order of the document. A text that is no
/// document, that lacks the `cache` section, or in which a section is
/// malformed gives an I/O error.
pub fn read_cache(text: &str) -> (r: Result<StrMap<PluginInfo>, Error>)
    ensures
        match r {
            Ok(plugins) => cache_of_text(text@) == Some(plugins@) && plugins.wf(),
            Err(e) => cache_of_text(text@) is None && e.kind == ErrorKind::IOError,
        },
{
    let document = match parse_document(text) {
        Some(document) => document,
        None => {
            return Err(Error::new(ErrorKind::IOError, "malformed plugin cache"));
        },
    };
    let items = table_items(&document);
    let ghost entries = table_entries(document);
    proof {
        lemma_items_distinct(items@, entries);
    }
    if item_node(&items, "cache", Ghost(entries)).is_none() {
        return Err(Error::new(ErrorKind::IOError, "incomplete plugin cache"));
    }
    let mut plugins: StrMap<PluginInfo> = StrMap::new();
    let mut i: usize = 0;
    assert(entries.take(0) =~= seq![]);
    assert(plugins@ =~= seq![]);
    while i < items.len()
        invariant
            i <= items.len(),
            items@.len() == entries.len(),
            distinct_keys(entries),
            forall|k: int|
                0 <= k < items@.len() ==> (#[trigger] items@[k]).0@ == entries[k].0 && value_node(
                    *items@[k].1,
                ) == entries[k].1,
            plugins_of_document(entries.take(i as int)) == Some(plugins@),
            plugins.wf(),
            parsed_document(text@) == Some(entries),
            has_key(entries, "cache"@),
        decreases items.len() - i,
    {
        let key = items[i].0;
        let value = items[i].1;
        proof {
            let next = entries.take(i + 1);
            assert(next.drop_last() =~= entries.take(i as int));
            assert(next.last() == entries[i as int]);
        }
        if !str_eq(key.as_str(), "cache") {
            match value.as_table() {
                Some(section) => match read_plugin(key.as_str(), section) {
                    Some(plugin) => {
                        let ghost before = plugins@;
                        proof {
                            lemma_plugins_keys(entries.take(i as int));
                            if has_key(before, key@) {
                                let q = position(before, key@);
                                let found = plugins_of_document(entries.take(i as int))->0;
                                assert(found[q].0 == key@);
                                assert(has_key(entries.take(i as int), found[q].0));
                                let d = position(entries.take(i as int), key@);
                                assert(entries.take(i as int)[d].0 == key@);
                                assert(entries[d].0 == entries[i as int].0);
                            }
                        }
                        plugins.insert(key.clone(), plugin);
                        assert(plugins@ =~= before.push((key@, plugin@)));
                    },
                    None => {
                        proof {
                            lemma_document_fails(entries, i + 1);
                        }
                        return Err(Error::new(ErrorKind::IOError, "malformed plugin cache"));
                    },
                },
                None => {},
            }
        }
        i += 1;
    }
    assert(entries.take(items.len() as int) =~= entries);
    Ok(plugins)
}

/// The inline table that describes a class.
pub open spec fn class_table(class: ClassInfoView) -> Seq<(Seq<char>, Node)> {
    seq![
        ("name"@, Node::Text(class.name)),
        ("category"@, Node::Text(class.category)),
        ("cardinality"@, Node::Integer(class.cardinality as i64)),
        ("cid"@, Node::Text(guid_text(class.cid))),
    ]
}

/// The section that describes a plugin: its path, its file time, and one
/// entry for each of its classes under the key of the class.
pub open spec fn section_of_plugin(plugin: PluginInfoView) -> Seq<(Seq<char>, Node)> {
    seq![("path"@, Node::Text(plugin.path)), ("file_time"@, Node::Integer(plugin.file_time))]
        + Seq::new(
        plugin.classes.len(),
        |i: int|
            (
                class_identifier(plugin.classes[i], Some("class"@)),
                Node::Table(class_table(plugin.classes[i])),
            ),
    )
}

/// The document that describes a cache: the `cache` section with the time
/// of writing, and one section for each plugin under its identity.
pub open spec fn document_of_cache(cache: Seq<(Seq<char>, PluginInfoView)>, timestamp: Seq<char>) -> Seq<(Seq<char>, Node)> {
    seq![("cache"@, Node::Table(seq![("timestamp"@, Node::Text(timestamp))]))] + Seq::new(
        cache.len(),
        |i: int| (cache[i].0, Node::Table(section_of_plugin(cache[i].1))),
    )
}

/// Whether a cache can be told from its document: no plugin has the
/// identity `cache`, each is filed under its own identity, and every class
/// identifier has sixteen bytes.
pub open spec fn describable(cache: Seq<(Seq<char>, PluginInfoView)>) -> bool {
    forall|i: int|
        0 <= i < cache.len() ==> (#[trigger] cache[i]).0 != "cache"@ && cache[i].1.id == cache[i].0
            && forall|k: int|
            0 <= k < cache[i].1.classes.len() ==> (#[trigger] cache[i].1.classes[k]).cid.len()
                == 16
}

proof fn lemma_class_read_back(class: ClassInfoView)
    requires
        class.cid.len() == 16,
    ensures
        class_of_table(class_table(class)) == Some(class),
{
    reveal_strlit("name");
    reveal_strlit("category");
    reveal_strlit("cardinality");
    reveal_strlit("cid");
    let table = class_table(class);
    assert(distinct_keys(table)) by {
        assert("name"@[0] == 'n');
        assert("category"@[1] == 'a');
        assert("cardinality"@[2] == 'r');
        assert("cid"@[1] == 'i');
        assert("category"@[0] == 'c');
        assert("cardinality"@[0] == 'c');
        assert("cid"@[0] == 'c');
        assert("cardinality"@[1] == 'a');
        assert("category"@[2] == 't');
    }
    lemma_position_unique(table, 0);
    lemma_position_unique(table, 1);
    lemma_position_unique(table, 2);
    lemma_position_unique(table, 3);
    lemma_guid_text_round_trip(class.cid);
}

proof fn lemma_section_read_back(id: Seq<char>, plugin: PluginInfoView, k: int)
    requires
        0 <= k <= plugin.classes.len(),
        forall|j: int| 0 <= j < plugin.classes.len() ==> (#[trigger] plugin.classes[j]).cid.len() == 16,
    ensures
        plugin_of_section(id, section_of_plugin(plugin).take(2 + k)) == Some(
            PluginInfoView {
                id,
                path: plugin.path,
                classes: plugin.classes.take(k),
                file_time: plugin.file_time,
            },
        ),
    decreases k,
{
    reveal_strlit("path");
    reveal_strlit("file_time");
    reveal_strlit("class");
    let section = section_of_plugin(plugin);
    assert("path"@[0] == 'p');
    assert("file_time"@[0] == 'f');
    if k == 0 {
        let two = section.take(2);
        let one = two.drop_last();
        assert(one =~= section.take(1));
        assert(one.drop_last() =~= Seq::<(Seq<char>, Node)>::empty());
        assert(plugin_of_section(id, one.drop_last()) == Some(
            PluginInfoView { id, path: seq![], classes: seq![], file_time: 0 },
        ));
        assert(one.last() == section[0]);
        assert(two.last() == section[1]);
        assert(plugin.classes.take(0) =~= Seq::<ClassInfoView>::empty());
    } else {
        lemma_section_read_back(id, plugin, k - 1);
        let here = section.take(2 + k);
        assert(here.drop_last() =~= section.take(2 + k - 1));
        let class = plugin.classes[k - 1];
        assert(here.last() == section[1 + k]);
        assert(section[1 + k] == (
            class_identifier(class, Some("class"@)),
            Node::Table(class_table(class)),
        ));
        let key = class_identifier(class, Some("class"@));
        assert(key[0] == 'c') by {
            assert("class"@[0] == 'c');
            assert("class"@.push('_')[0] == 'c');
        }
        assert(key != "path"@);
        assert(key != "file_time"@);
        lemma_class_read_back(class);
        assert(plugin.classes.take(k) =~= plugin.classes.take(k - 1).push(class));
    }
}

proof fn lemma_document_read_back(cache: Seq<(Seq<char>, PluginInfoView)>, timestamp: Seq<char>, k: int)
    requires
        describable(cache),
        0 <= k <= cache.len(),
    ensures
        plugins_of_document(document_of_cache(cache, timestamp).take(1 + k)) == Some(cache.take(k)),
    decreases k,
{
    let document = document_of_cache(cache, timestamp);
    if k == 0 {
        let one = document.take(1);
        assert(one.drop_last() =~= Seq::<(Seq<char>, Node)>::empty());
        assert(one.last() == document[0]);
        assert(document[0].0 == "cache"@);
        assert(plugins_of_document(one.drop_last()) == Some(
            Seq::<(Seq<char>, PluginInfoView)>::empty(),
        ));
        assert(plugins_of_document(one) == Some(Seq::<(Seq<char>, PluginInfoView)>::empty()));
        assert(cache.take(0) =~= Seq::<(Seq<char>, PluginInfoView)>::empty());
    } else {
        lemma_document_read_back(cache, timestamp, k - 1);
        let here = document.take(1 + k);
        assert(here.drop_last() =~= document.take(k));
        assert(here.last() == document[k]);
        let id = cache[k - 1].0;
        let plugin = cache[k - 1].1;
        assert(document[k] == (id, Node::Table(section_of_plugin(plugin))));
        lemma_section_read_back(id, plugin, plugin.classes.len() as int);
        let section = section_of_plugin(plugin);
        assert(section.take(2 + plugin.classes.len() as int) =~= section);
        assert(plugin.classes.take(plugin.classes.len() as int) =~= plugin.classes);
        assert(cache[k - 1].0 != "cache"@ && cache[k - 1].1.id == cache[k - 1].0);
        assert(plugin_of_section(id, section) == Some(plugin));
        assert(plugins_of_document(here.drop_last()) == Some(cache.take(k - 1)));
        assert(plugins_of_document(here) == Some(cache.take(k - 1).push((id, plugin))));
        assert(cache.take(k) =~= cache.take(k - 1).push(cache[k - 1]));
    }
}

/// Reading is the inverse of describing: the cache that is read out of the
/// document of a cache is that cache, plugin for plugin and class for class.
pub proof fn lemma_read_back(cache: Seq<(Seq<char>, PluginInfoView)>, timestamp: Seq<char>)
    requires
        describable(cache),
    ensures
        cache_of_document(document_of_cache(cache, timestamp)) == Some(cache),
{
    let document = document_of_cache(cache, timestamp);
    lemma_document_read_back(cache, timestamp, cache.len() as int);
    assert(document.take(1 + cache.len() as int) =~= document);
    assert(cache.take(cache.len() as int) =~= cache);
    assert(document[0].0 == "cache"@);
}

} // verus!
