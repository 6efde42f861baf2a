use vstd::prelude::*;

verus! {

/// Where the records of a store are kept: the path of the database, the name
/// of the tree in it, and the capacity of its cache in bytes. An empty path
/// stands for a database that lives no longer than the process.
pub struct UserConfig {
    path: String,
    tree: String,
    cache: u64,
}

/// A store's configuration as a value.
pub struct UserSettings {
    pub path: Seq<char>,
    pub tree: Seq<char>,
    pub cache: u64,
}

impl View for UserConfig {
    type V = UserSettings;

    closed spec fn view(&self) -> UserSettings {
        UserSettings { path: self.path@, tree: self.tree@, cache: self.cache }
    }
}

impl UserConfig {
    /// The configuration of these three values.
    pub fn new_config(path: &str, tree: &str, cache: u64) -> (r: UserConfig)
        ensures
            r@ == (UserSettings { path: path@, tree: tree@, cache }),
    {
        UserConfig { path: path.to_owned(), tree: tree.to_owned(), cache }
    }

    /// The path of the database.
    pub fn get_path(&self) -> (r: &str)
        ensures
            r@ == self@.path,
    {
        self.path.as_str()
    }

    /// The name of the tree.
    pub fn get_tree(&self) -> (r: String)
        ensures
            r@ == self@.tree,
    {
        self.tree.clone()
    }

    /// The capacity of the cache in bytes.
    pub fn get_cache(&self) -> (r: u64)
        ensures
            r == self@.cache,
    {
        self.cache
    }

    /// Tells whether the database lives no longer than the process.
    pub fn is_temporary(&self) -> (r: bool)
        ensures
            r == (self@.path.len() == 0),
    {
        self.path.as_str().is_empty()
    }
}

} // verus!
