//! Saved projects: the mapping from project names to their data files, and
//! the records of a project.
use vstd::prelude::*;

verus! {

/// One entry of the project mapping: a project's name and the id of its data file.
pub struct StoreMappingItem {
    name: String,
    id: String,
}

impl StoreMappingItem {
    pub closed spec fn spec_name(&self) -> Seq<char> {
        self.name@
    }

    pub closed spec fn spec_id(&self) -> Seq<char> {
        self.id@
    }

    /// An entry for project `name` whose data file has the id `id`.
    pub fn new(name: String, id: String) -> (r: Self)
        ensures
            r.spec_name() == name@,
            r.spec_id() == id@,
    {
        StoreMappingItem { name, id }
    }

    pub fn id(&self) -> (r: &str)
        ensures
            r@ == self.spec_id(),
    {
        self.id.as_str()
    }

    pub fn name(&self) -> (r: &str)
        ensures
            r@ == self.spec_name(),
    {
        self.name.as_str()
    }
}

/// The list of known projects.
pub struct StoreMapping {
    pub projects: Vec<StoreMappingItem>,
}

impl StoreMapping {
    /// The first project entry called `name`.
    pub fn find_by_name(&self, name: &str) -> (r: Option<&StoreMappingItem>)
        ensures
            match r {
                Some(item) => exists|i: int|
                    0 <= i < self.projects@.len() && self.projects@[i] == *item
                        && #[trigger] self.projects@[i].spec_name() == name@ && forall|j: int|
                        0 <= j < i ==> self.projects@[j].spec_name() != name@,
                None => forall|i: int|
                    0 <= i < self.projects@.len() ==> #[trigger] self.projects@[i].spec_name()
                        != name@,
            },
    {
        let wanted = name.to_owned();
        let mut i: usize = 0;
        while i < self.projects.len()
            invariant
                0 <= i <= self.projects@.len(),
                wanted@ == name@,
                forall|j: int| 0 <= j < i ==> self.projects@[j].spec_name() != name@,
            decreases self.projects@.len() - i,
        {
            if self.projects[i].name == wanted {
                assert(self.projects@[i as int].spec_name() == name@);
                return Some(&self.projects[i]);
            }
            i = i + 1;
        }
        None
    }
}

/// A saved request.
#[derive(Clone, Default)]
pub struct Request {
    pub name: String,
    pub method: String,
    pub url: String,
}

/// A named collection of saved requests.
#[derive(Clone, Default)]
pub struct Collection {
    pub name: String,
    pub requests: Vec<Request>,
}

/// A project: its name and its collections.
#[derive(Clone, Default)]
pub struct Project {
    pub name: String,
    pub collections: Vec<Collection>,
}

impl Project {
    /// An empty project called `name`.
    pub fn new(name: &str) -> (r: Self)
        ensures
            r.name@ == name@,
            r.collections@.len() == 0,
    {
        Project { name: name.to_owned(), collections: Vec::new() }
    }
}

} // verus!
