//! The render context: the mapping from variable names to the values the
//! plugins sourced, handed once, read-only, to the external template
//! engine.

use vstd::prelude::*;

verus! {

/// The value a rendered document contributes to the context: optional
/// structured metadata from its front matter, and the rendered HTML.
pub struct RenderedMarkdown {
    metadata: Option<serde_yaml::Value>,
    html: String,
}

impl RenderedMarkdown {
    /// Whether the document carried front-matter metadata.
    pub closed spec fn has_metadata(&self) -> bool {
        self.metadata is Some
    }

    /// The rendered HTML.
    pub closed spec fn html_view(&self) -> Seq<char> {
        self.html@
    }

    /// A rendered document without metadata.
    pub fn new(html: String) -> (r: RenderedMarkdown)
        ensures
            r.html_view() == html@,
            !r.has_metadata(),
    {
        RenderedMarkdown { html, metadata: None }
    }

    /// A rendered document with its front-matter metadata.
    pub fn with_metadata(html: String, metadata: serde_yaml::Value) -> (r: RenderedMarkdown)
        ensures
            r.html_view() == html@,
            r.has_metadata(),
    {
        RenderedMarkdown { html, metadata: Some(metadata) }
    }

    /// The rendered HTML, for embedding into the context.
    pub fn html(&self) -> (r: &String)
        ensures
            r@ == self.html_view(),
    {
        &self.html
    }

    /// The metadata, when the document carried any.
    pub fn metadata(&self) -> (r: &Option<serde_yaml::Value>)
        ensures
            r is Some <==> self.has_metadata(),
    {
        &self.metadata
    }
}

/// The closed set of value shapes a plugin can contribute to the render
/// context. Every shape is serializable in the form the external
/// template engine expects.
pub enum ContextValue {
    /// A plain text value.
    Text(String),
    /// A signed integer.
    Int(isize),
    /// A boolean.
    Bool(bool),
    /// A full JSON document.
    Json(serde_json::Value),
    /// A full YAML document.
    Yaml(serde_yaml::Value),
    /// A rendered document with optional metadata.
    Document(RenderedMarkdown),
}

/// The mapping built by `map_of` from an entry list, later entries
/// overwriting earlier ones with the same name.
pub open spec fn map_of(entries: Seq<(Seq<char>, ContextValue)>) -> Map<Seq<char>, ContextValue>
    decreases entries.len(),
{
    if entries.len() == 0 {
        Map::empty()
    } else {
        map_of(entries.drop_last()).insert(entries.last().0, entries.last().1)
    }
}

/// An ordered mapping from variable names to sourced values. Names are
/// unique: binding a name twice keeps the later value (last write wins).
/// Created empty for one render, populated by the driver, then handed to
/// the template engine.
pub struct Context {
    entries: Vec<(String, ContextValue)>,
}

impl View for Context {
    type V = Map<Seq<char>, ContextValue>;

    closed spec fn view(&self) -> Map<Seq<char>, ContextValue> {
        map_of(self.entries_view())
    }
}

impl Context {
    /// The entries in insertion order, as name and value pairs.
    pub closed spec fn entries_view(&self) -> Seq<(Seq<char>, ContextValue)> {
        Seq::new(self.entries@.len(), |i: int| (self.entries@[i].0@, self.entries@[i].1))
    }

    /// Well-formedness: bound names are distinct. `new` establishes it
    /// and every method preserves it.
    pub closed spec fn wf(&self) -> bool {
        forall|i: int, j: int|
            0 <= i < j < self.entries@.len() ==> self.entries@[i].0@ != self.entries@[j].0@
    }

    /// An empty context.
    pub fn new() -> (r: Context)
        ensures
            r.wf(),
            r@ == Map::<Seq<char>, ContextValue>::empty(),
            r.entries_view() == Seq::<(Seq<char>, ContextValue)>::empty(),
    {
        let r = Context { entries: Vec::new() };
        proof {
            assert(r.entries_view() =~= Seq::<(Seq<char>, ContextValue)>::empty());
        }
        r
    }

    /// The number of bound names.
    pub fn len(&self) -> (r: usize)
        ensures
            r == self.entries_view().len(),
    {
        self.entries.len()
    }

    /// Binds `name` to `value`. A name already bound keeps its position
    /// and takes the new value; a new name is appended.
    pub fn insert(&mut self, name: &str, value: ContextValue)
        requires
            old(self).wf(),
        ensures
            final(self).wf(),
            final(self)@ == old(self)@.insert(name@, value),
            !old(self)@.contains_key(name@) ==> final(self).entries_view() == old(
                self,
            ).entries_view().push((name@, value)),
            old(self)@.contains_key(name@) ==> exists|j: int|
                {
                    &&& 0 <= j < old(self).entries_view().len()
                    &&& old(self).entries_view()[j].0 == name@
                    &&& final(self).entries_view() == old(self).entries_view().update(
                        j,
                        (name@, value),
                    )
                },
    {
        let key: String = name.to_owned();
        let n = self.entries.len();
        let mut i: usize = 0;
        while i < n
            invariant
                *self == *old(self),
                self.wf(),
                n == self.entries@.len(),
                key@ == name@,
                forall|k: int| 0 <= k < i ==> self.entries@[k].0@ != name@,
            decreases n - i,
        {
            if self.entries[i].0 == key {
                let ghost pre = self.entries_view();
                self.entries.set(i, (key, value));
                proof {
                    assert(self.entries_view() =~= pre.update(i as int, (name@, value)));
                    lemma_map_of_update(pre, i as int, value);
                    lemma_map_of_index(pre, i as int);
                }
                return ;
            }
            i = i + 1;
        }
        let ghost pre = self.entries_view();
        self.entries.push((key, value));
        proof {
            lemma_map_of_absent(pre, name@);
            assert(self.entries_view() =~= pre.push((name@, value)));
            assert(self.entries_view().drop_last() =~= pre);
            assert(self.entries_view().last() == (name@, value));
        }
    }

    /// The entries in insertion order, for handing to the external
    /// template engine.
    pub fn entries(&self) -> (r: &Vec<(String, ContextValue)>)
        ensures
            r@.len() == self.entries_view().len(),
            forall|i: int|
                0 <= i < r@.len() ==> (r@[i].0@, r@[i].1) == self.entries_view()[i],
    {
        &self.entries
    }

    /// Looks up the value bound to `name`.
    pub fn get(&self, name: &str) -> (r: Option<&ContextValue>)
        requires
            self.wf(),
        ensures
            r is Some <==> self@.contains_key(name@),
            r matches Some(v) ==> *v == self@[name@],
    {
        let key: String = name.to_owned();
        let n = self.entries.len();
        let mut i: usize = 0;
        while i < n
            invariant
                self.wf(),
                n == self.entries@.len(),
                key@ == name@,
                forall|k: int| 0 <= k < i ==> self.entries@[k].0@ != name@,
            decreases n - i,
        {
            if self.entries[i].0 == key {
                proof {
                    lemma_map_of_index(self.entries_view(), i as int);
                }
                return Some(&self.entries[i].1);
            }
            i = i + 1;
        }
        proof {
            lemma_map_of_absent(self.entries_view(), name@);
        }
        None
    }
}

/// A name that no entry binds is not in the mapping.
proof fn lemma_map_of_absent(entries: Seq<(Seq<char>, ContextValue)>, name: Seq<char>)
    requires
        forall|k: int| 0 <= k < entries.len() ==> entries[k].0 != name,
    ensures
        !map_of(entries).contains_key(name),
    decreases entries.len(),
{
    if entries.len() > 0 {
        lemma_map_of_absent(entries.drop_last(), name);
    }
}

/// With distinct names, the mapping binds each entry's name to that
/// entry's value.
proof fn lemma_map_of_index(entries: Seq<(Seq<char>, ContextValue)>, j: int)
    requires
        0 <= j < entries.len(),
        forall|i: int, k: int| 0 <= i < k < entries.len() ==> entries[i].0 != entries[k].0,
    ensures
        map_of(entries).contains_key(entries[j].0),
        map_of(entries)[entries[j].0] == entries[j].1,
    decreases entries.len(),
{
    if j < entries.len() - 1 {
        lemma_map_of_index(entries.drop_last(), j);
    }
}

/// Replacing the value at an entry updates the mapping at that entry's
/// name, provided names are distinct.
proof fn lemma_map_of_update(entries: Seq<(Seq<char>, ContextValue)>, j: int, value: ContextValue)
    requires
        0 <= j < entries.len(),
        forall|i: int, k: int| 0 <= i < k < entries.len() ==> entries[i].0 != entries[k].0,
    ensures
        map_of(entries.update(j, (entries[j].0, value))) == map_of(entries).insert(
            entries[j].0,
            value,
        ),
    decreases entries.len(),
{
    let upd = entries.update(j, (entries[j].0, value));
    if j == entries.len() - 1 {
        assert(upd.drop_last() =~= entries.drop_last());
        assert(map_of(upd) =~= map_of(entries).insert(entries[j].0, value));
    } else {
        assert(upd.drop_last() =~= entries.drop_last().update(j, (entries[j].0, value)));
        lemma_map_of_update(entries.drop_last(), j, value);
        assert(upd.last() == entries.last());
        assert(map_of(upd) =~= map_of(entries).insert(entries[j].0, value));
    }
}

} // verus!
