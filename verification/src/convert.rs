//! Rendering a document as `<meta>` tag lines.
//!
//! A document is a tree of records, lists and leaves. Flattening walks it
//! depth first and emits one `(path, value)` pair for every string leaf: a
//! record joins its key to the path with `:`, a list hands its path on
//! unchanged, so repeated elements share one property path. Leaves that are
//! not strings are dropped.

use crate::text::{opt_text, opt_texts, signed_decimal, signed_decimal_text, texts};
use crate::web_url::{opt_url, WebUrl, WebUrlView};
use vstd::prelude::*;
use vstd::string::StringExecFns;

verus! {

/// A document: what any metadata value looks like once it is laid out as
/// nested records and lists. Records keep their entries in the order given.
#[derive(Debug)]
pub enum Value {
    Null,
    Bool(bool),
    /// A number, as its literal text.
    Number(String),
    String(String),
    Array(Vec<Value>),
    Object(Vec<(String, Value)>),
}

/// A [`Value`] as contracts see it.
pub enum Tree {
    Null,
    Bool(bool),
    Number(Seq<char>),
    Text(Seq<char>),
    List(Seq<Tree>),
    Record(Seq<(Seq<char>, Tree)>),
}

/// A path and the string found there.
pub type Leaf = (Seq<char>, Seq<char>);

/// The mathematical tree that a value stands for.
pub open spec fn tree_of(v: Value) -> Tree
    decreases v, 0nat,
{
    match v {
        Value::Null => Tree::Null,
        Value::Bool(b) => Tree::Bool(b),
        Value::Number(n) => Tree::Number(n@),
        Value::String(s) => Tree::Text(s@),
        Value::Array(items) => Tree::List(trees_of(items@)),
        Value::Object(entries) => Tree::Record(fields_of(entries@)),
    }
}

/// The trees of a list of values, in order.
pub open spec fn trees_of(items: Seq<Value>) -> Seq<Tree>
    decreases items, 1nat,
{
    if items.len() == 0 {
        Seq::empty()
    } else {
        trees_of(items.drop_last()).push(tree_of(items.last()))
    }
}

/// The keys and trees of a record's entries, in order.
pub open spec fn fields_of(entries: Seq<(String, Value)>) -> Seq<(Seq<char>, Tree)>
    decreases entries, 1nat,
{
    if entries.len() == 0 {
        Seq::empty()
    } else {
        fields_of(entries.drop_last()).push((entries.last().0@, tree_of(entries.last().1)))
    }
}

impl View for Value {
    type V = Tree;

    open spec fn view(&self) -> Tree {
        tree_of(*self)
    }
}

/// The path of a record's entry: the key alone at the root, otherwise the
/// path so far, a colon, and the key.
pub open spec fn join_path(prefix: Seq<char>, key: Seq<char>) -> Seq<char> {
    if prefix.len() == 0 {
        key
    } else {
        prefix + seq![':'] + key
    }
}

/// The string leaves of a tree with their paths, in document order.
pub open spec fn flatten_tree(t: Tree, prefix: Seq<char>) -> Seq<Leaf>
    decreases t, 0nat,
{
    match t {
        Tree::Text(s) => seq![(prefix, s)],
        Tree::List(items) => flatten_list(items, prefix),
        Tree::Record(fields) => flatten_record(fields, prefix),
        _ => Seq::empty(),
    }
}

/// The leaves of each element of a list, all under the same path.
pub open spec fn flatten_list(items: Seq<Tree>, prefix: Seq<char>) -> Seq<Leaf>
    decreases items, 1nat,
{
    if items.len() == 0 {
        Seq::empty()
    } else {
        flatten_list(items.drop_last(), prefix) + flatten_tree(items.last(), prefix)
    }
}

/// The leaves of each entry of a record, each under the path joined with its key.
pub open spec fn flatten_record(fields: Seq<(Seq<char>, Tree)>, prefix: Seq<char>) -> Seq<Leaf>
    decreases fields, 1nat,
{
    if fields.len() == 0 {
        Seq::empty()
    } else {
        flatten_record(fields.drop_last(), prefix) + flatten_tree(
            fields.last().1,
            join_path(prefix, fields.last().0),
        )
    }
}

/// The text of one tag line.
pub open spec fn meta_tag_text(name: Seq<char>, content: Seq<char>) -> Seq<char> {
    "<meta property=\""@ + name + "\" content=\""@ + content + "\" />"@
}

/// One tag line per leaf, in the same order.
pub open spec fn tag_lines(leaves: Seq<Leaf>) -> Seq<Seq<char>> {
    leaves.map_values(|l: Leaf| meta_tag_text(l.0, l.1))
}

/// The characters of each pair of a list.
pub open spec fn leaf_texts(v: Seq<(String, String)>) -> Seq<Leaf> {
    v.map_values(|p: (String, String)| (p.0@, p.1@))
}

/// The trees of a list with one more value are the trees of the list, then
/// the tree of that value.
pub proof fn lemma_trees_of_push(items: Seq<Value>, last: Value)
    ensures
        trees_of(items.push(last)) == trees_of(items).push(tree_of(last)),
{
    assert(items.push(last).drop_last() =~= items);
}

/// The fields of a record with one more entry are the fields of the
/// record, then the field of that entry.
pub proof fn lemma_fields_of_push(entries: Seq<(String, Value)>, last: (String, Value))
    ensures
        fields_of(entries.push(last)) == fields_of(entries).push((last.0@, tree_of(last.1))),
{
    assert(entries.push(last).drop_last() =~= entries);
}

/// The fields of two runs of entries, one after the other, are the fields
/// of the first and then those of the second.
pub proof fn lemma_fields_of_concat(a: Seq<(String, Value)>, b: Seq<(String, Value)>)
    ensures
        fields_of(a + b) == fields_of(a) + fields_of(b),
    decreases b.len(),
{
    if b.len() == 0 {
        assert(a + b =~= a);
        assert(fields_of(a) + fields_of(b) =~= fields_of(a));
    } else {
        lemma_fields_of_concat(a, b.drop_last());
        assert((a + b).drop_last() =~= a + b.drop_last());
        assert((a + b).last() == b.last());
        assert(fields_of(a + b) =~= fields_of(a) + fields_of(b));
    }
}

/// Flattening a list with one more element adds that element's leaves at
/// the end, under the same path.
pub proof fn lemma_flatten_list_push(items: Seq<Tree>, last: Tree, prefix: Seq<char>)
    ensures
        flatten_list(items.push(last), prefix) == flatten_list(items, prefix) + flatten_tree(
            last,
            prefix,
        ),
{
    assert(items.push(last).drop_last() =~= items);
}

/// Flattening a record with one more entry adds that entry's leaves at the
/// end, under the path joined with its key.
pub proof fn lemma_flatten_record_push(
    fields: Seq<(Seq<char>, Tree)>,
    last: (Seq<char>, Tree),
    prefix: Seq<char>,
)
    ensures
        flatten_record(fields.push(last), prefix) == flatten_record(fields, prefix) + flatten_tree(
            last.1,
            join_path(prefix, last.0),
        ),
{
    assert(fields.push(last).drop_last() =~= fields);
}

/// How many string leaves a tree holds.
pub open spec fn text_leaf_count(t: Tree) -> nat
    decreases t, 0nat,
{
    match t {
        Tree::Text(_) => 1,
        Tree::List(items) => text_leaf_count_of_list(items),
        Tree::Record(fields) => text_leaf_count_of_record(fields),
        _ => 0,
    }
}

/// How many string leaves the elements of a list hold together.
pub open spec fn text_leaf_count_of_list(items: Seq<Tree>) -> nat
    decreases items, 1nat,
{
    if items.len() == 0 {
        0
    } else {
        text_leaf_count_of_list(items.drop_last()) + text_leaf_count(items.last())
    }
}

/// How many string leaves the entries of a record hold together.
pub open spec fn text_leaf_count_of_record(fields: Seq<(Seq<char>, Tree)>) -> nat
    decreases fields, 1nat,
{
    if fields.len() == 0 {
        0
    } else {
        text_leaf_count_of_record(fields.drop_last()) + text_leaf_count(fields.last().1)
    }
}

/// Flattening emits exactly one pair for every string leaf of the tree,
/// whatever the path: a leaf that is no string adds nothing, and no string
/// leaf is lost, also where several elements of a list share one path.
pub proof fn lemma_one_pair_per_text_leaf(t: Tree, prefix: Seq<char>)
    ensures
        flatten_tree(t, prefix).len() == text_leaf_count(t),
    decreases t, 0nat,
{
    match t {
        Tree::List(items) => lemma_one_pair_per_text_leaf_of_list(items, prefix),
        Tree::Record(fields) => lemma_one_pair_per_text_leaf_of_record(fields, prefix),
        _ => {},
    }
}

/// [`lemma_one_pair_per_text_leaf`], for the elements of a list.
pub proof fn lemma_one_pair_per_text_leaf_of_list(items: Seq<Tree>, prefix: Seq<char>)
    ensures
        flatten_list(items, prefix).len() == text_leaf_count_of_list(items),
    decreases items, 1nat,
{
    if items.len() > 0 {
        lemma_one_pair_per_text_leaf_of_list(items.drop_last(), prefix);
        lemma_one_pair_per_text_leaf(items.last(), prefix);
    }
}

/// [`lemma_one_pair_per_text_leaf`], for the entries of a record.
pub proof fn lemma_one_pair_per_text_leaf_of_record(
    fields: Seq<(Seq<char>, Tree)>,
    prefix: Seq<char>,
)
    ensures
        flatten_record(fields, prefix).len() == text_leaf_count_of_record(fields),
    decreases fields, 1nat,
{
    if fields.len() > 0 {
        lemma_one_pair_per_text_leaf_of_record(fields.drop_last(), prefix);
        lemma_one_pair_per_text_leaf(fields.last().1, join_path(prefix, fields.last().0));
    }
}

/// The elements of a list are flattened one after the other under the
/// path of the list itself: the position of an element is no part of any
/// path.
pub proof fn lemma_list_elements_share_the_path(items: Seq<Tree>, i: int, prefix: Seq<char>)
    requires
        0 <= i < items.len(),
    ensures
        flatten_tree(Tree::List(items), prefix) == flatten_list(items.take(i), prefix)
            + flatten_tree(items[i], prefix) + flatten_list(
            items.skip(i + 1),
            prefix,
        ),
    decreases items.len(),
{
    if i == items.len() - 1 {
        assert(items.take(i) =~= items.drop_last());
        assert(items.skip(i + 1) =~= Seq::<Tree>::empty());
        assert(flatten_list(items.skip(i + 1), prefix) =~= Seq::<Leaf>::empty());
        assert(flatten_list(items, prefix) =~= flatten_list(items.take(i), prefix) + flatten_tree(
            items[i],
            prefix,
        ) + Seq::<Leaf>::empty());
    } else {
        let front = items.drop_last();
        lemma_list_elements_share_the_path(front, i, prefix);
        assert(front.take(i) =~= items.take(i));
        assert(front[i] == items[i]);
        assert(items.skip(i + 1).drop_last() =~= front.skip(i + 1));
        assert(items.skip(i + 1).last() == items.last());
        assert(flatten_list(items, prefix) =~= flatten_list(items.take(i), prefix) + flatten_tree(
            items[i],
            prefix,
        ) + flatten_list(items.skip(i + 1), prefix));
    }
}

/// Joins a record key to the path so far.
pub fn child_path(prefix: &str, key: &str) -> (r: String)
    ensures
        r@ == join_path(prefix@, key@),
{
    if prefix.unicode_len() == 0 {
        key.to_owned()
    } else {
        proof {
            reveal_strlit(":");
        }
        let mut path = prefix.to_owned();
        path.append(":");
        path.append(key);
        assert(path@ =~= prefix@ + seq![':'] + key@);
        path
    }
}

/// Flattens a document: every string leaf with its path, in document order.
pub fn flatten(value: &Value, prefix: &str) -> (r: Vec<(String, String)>)
    ensures
        leaf_texts(r@) == flatten_tree(value@, prefix@),
    decreases value,
{
    let mut out: Vec<(String, String)> = Vec::new();
    match value {
        Value::String(s) => {
            out.push((prefix.to_owned(), s.clone()));
            assert(leaf_texts(out@) =~= seq![(prefix@, s@)]);
        },
        Value::Array(items) => {
            let mut i: usize = 0;
            assert(items@.subrange(0, 0) =~= Seq::<Value>::empty());
            assert(leaf_texts(out@) =~= Seq::<Leaf>::empty());
            while i < items.len()
                invariant
                    i <= items.len(),
                    decreases_to!(value => items),
                    leaf_texts(out@) == flatten_list(
                        trees_of(items@.subrange(0, i as int)),
                        prefix@,
                    ),
                decreases items.len() - i,
            {
                let ghost before = leaf_texts(out@);
                proof {
                    vstd::std_specs::vec::axiom_vec_index_decreases(*items, i as int);
                }
                let mut part = flatten(&items[i], prefix);
                let ghost added = leaf_texts(part@);
                out.append(&mut part);
                proof {
                    let seen = items@.subrange(0, i as int);
                    assert(items@.subrange(0, i + 1) =~= seen.push(items@[i as int]));
                    lemma_trees_of_push(seen, items@[i as int]);
                    lemma_flatten_list_push(trees_of(seen), tree_of(items@[i as int]), prefix@);
                    assert(leaf_texts(out@) =~= before + added);
                }
                i = i + 1;
            }
            assert(items@.subrange(0, i as int) =~= items@);
        },
        Value::Object(entries) => {
            let mut i: usize = 0;
            assert(entries@.subrange(0, 0) =~= Seq::<(String, Value)>::empty());
            assert(leaf_texts(out@) =~= Seq::<Leaf>::empty());
            while i < entries.len()
                invariant
                    i <= entries.len(),
                    decreases_to!(value => entries),
                    leaf_texts(out@) == flatten_record(
                        fields_of(entries@.subrange(0, i as int)),
                        prefix@,
                    ),
                decreases entries.len() - i,
            {
                let ghost before = leaf_texts(out@);
                let path = child_path(prefix, entries[i].0.as_str());
                proof {
                    vstd::std_specs::vec::axiom_vec_index_decreases(*entries, i as int);
                }
                let mut part = flatten(&entries[i].1, path.as_str());
                let ghost added = leaf_texts(part@);
                out.append(&mut part);
                proof {
                    let seen = entries@.subrange(0, i as int);
                    let entry = entries@[i as int];
                    assert(entries@.subrange(0, i + 1) =~= seen.push(entry));
                    lemma_fields_of_push(seen, entry);
                    lemma_flatten_record_push(
                        fields_of(seen),
                        (entry.0@, tree_of(entry.1)),
                        prefix@,
                    );
                    assert(leaf_texts(out@) =~= before + added);
                }
                i = i + 1;
            }
            assert(entries@.subrange(0, i as int) =~= entries@);
        },
        _ => {
            assert(leaf_texts(out@) =~= Seq::<Leaf>::empty());
        },
    }
    out
}

/// Renders one tag line.
pub fn meta_tag(name: &str, content: &str) -> (r: String)
    ensures
        r@ == meta_tag_text(name@, content@),
{
    let mut line = "<meta property=\"".to_owned();
    line.append(name);
    line.append("\" content=\"");
    line.append(content);
    line.append("\" />");
    line
}

/// Renders a document: one tag line for every string leaf, in document order.
pub fn process_json(value: &Value, prefix: &str) -> (r: Vec<String>)
    ensures
        texts(r@) == tag_lines(flatten_tree(value@, prefix@)),
{
    let leaves = flatten(value, prefix);
    let mut lines: Vec<String> = Vec::new();
    let mut i: usize = 0;
    while i < leaves.len()
        invariant
            i <= leaves.len(),
            lines@.len() == i,
            forall|j: int|
                0 <= j < i ==> lines@[j]@ == meta_tag_text(
                    #[trigger] leaves@[j].0@,
                    leaves@[j].1@,
                ),
        decreases leaves.len() - i,
    {
        lines.push(meta_tag(leaves[i].0.as_str(), leaves[i].1.as_str()));
        i = i + 1;
    }
    assert(texts(lines@) =~= tag_lines(leaf_texts(leaves@)));
    lines
}

/// The leaf for an optional text: the text, or null where there is none.
pub open spec fn opt_text_tree(o: Option<Seq<char>>) -> Tree {
    match o {
        Some(s) => Tree::Text(s),
        None => Tree::Null,
    }
}

/// The leaf for an optional number: its decimal text, or null where there is none.
pub open spec fn opt_number_tree(o: Option<int>) -> Tree {
    match o {
        Some(n) => Tree::Number(signed_decimal(n)),
        None => Tree::Null,
    }
}

/// The leaf for an optional URL: its text, or null where there is none.
pub open spec fn opt_url_tree(o: Option<WebUrlView>) -> Tree {
    match o {
        Some(u) => Tree::Text(u.href),
        None => Tree::Null,
    }
}

/// The list whose elements are the given texts.
pub open spec fn text_list_tree(items: Seq<Seq<char>>) -> Tree {
    Tree::List(items.map_values(|s: Seq<char>| Tree::Text(s)))
}

/// The leaf for an optional list of texts.
pub open spec fn opt_text_list_tree(o: Option<Seq<Seq<char>>>) -> Tree {
    match o {
        Some(items) => text_list_tree(items),
        None => Tree::Null,
    }
}

/// A string leaf.
pub fn text_value(s: &str) -> (r: Value)
    ensures
        r@ == Tree::Text(s@),
{
    Value::String(s.to_owned())
}

/// The leaf for an optional text.
pub fn opt_text_value(o: &Option<String>) -> (r: Value)
    ensures
        r@ == opt_text_tree(opt_text(*o)),
{
    match o {
        Some(s) => Value::String(s.clone()),
        None => Value::Null,
    }
}

/// The leaf for an optional URL.
pub fn opt_url_value(o: &Option<WebUrl>) -> (r: Value)
    ensures
        r@ == opt_url_tree(opt_url(*o)),
{
    match o {
        Some(u) => Value::String(u.as_str().to_owned()),
        None => Value::Null,
    }
}

/// The leaf for an optional unsigned number.
pub fn opt_u32_value(o: Option<u32>) -> (r: Value)
    ensures
        r@ == opt_number_tree(
            match o {
                Some(n) => Some(n as int),
                None => None,
            },
        ),
{
    match o {
        Some(n) => Value::Number(signed_decimal_text(n as i64)),
        None => Value::Null,
    }
}

/// The list of the given texts.
pub fn text_list_value(items: &Vec<String>) -> (r: Value)
    ensures
        r@ == text_list_tree(texts(items@)),
{
    let mut out: Vec<Value> = Vec::new();
    let mut i: usize = 0;
    assert(trees_of(out@) =~= Seq::<Tree>::empty());
    while i < items.len()
        invariant
            i <= items.len(),
            out@.len() == i,
            trees_of(out@).len() == i,
            forall|j: int| 0 <= j < i ==> (#[trigger] trees_of(out@)[j]) == Tree::Text(items@[j]@),
        decreases items.len() - i,
    {
        let leaf = Value::String(items[i].clone());
        proof {
            lemma_trees_of_push(out@, leaf);
        }
        out.push(leaf);
        i = i + 1;
    }
    let r = Value::Array(out);
    assert(trees_of(out@) =~= texts(items@).map_values(|s: Seq<char>| Tree::Text(s)));
    r
}

/// The leaf for an optional list of texts.
pub fn opt_text_list_value(o: &Option<Vec<String>>) -> (r: Value)
    ensures
        r@ == opt_text_list_tree(opt_texts(*o)),
{
    match o {
        Some(items) => text_list_value(items),
        None => Value::Null,
    }
}

/// Adds one entry at the end of a record's entries.
pub fn put(out: &mut Vec<(String, Value)>, key: &str, value: Value)
    ensures
        fields_of(final(out)@) == fields_of(old(out)@).push((key@, value@)),
{
    let entry = (key.to_owned(), value);
    proof {
        lemma_fields_of_push(out@, entry);
    }
    out.push(entry);
}

/// Adds a run of entries at the end of a record's entries.
pub fn put_all(out: &mut Vec<(String, Value)>, more: Vec<(String, Value)>)
    ensures
        fields_of(final(out)@) == fields_of(old(out)@) + fields_of(more@),
{
    let mut rest = more;
    proof {
        lemma_fields_of_concat(out@, rest@);
    }
    out.append(&mut rest);
}

/// The record that holds the given entries.
pub fn record(entries: Vec<(String, Value)>) -> (r: Value)
    ensures
        r@ == Tree::Record(fields_of(entries@)),
{
    Value::Object(entries)
}

/// A value that can be laid out as a document and rendered as tag lines.
pub trait ToHTML {
    /// The document this value lays out as.
    spec fn document(&self) -> Tree;

    /// Lays this value out as a document.
    fn to_document(&self) -> (r: Value)
        ensures
            r@ == self.document(),
    ;

    /// The tag lines of this value's document, from an empty path.
    fn to_html(&self) -> (r: Vec<String>)
        ensures
            texts(r@) == tag_lines(flatten_tree(self.document(), Seq::empty())),
    {
        proof {
            reveal_strlit("");
        }
        let doc = self.to_document();
        assert(""@ =~= Seq::<char>::empty());
        process_json(&doc, "")
    }
}

} // verus!
