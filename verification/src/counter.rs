use vstd::prelude::*;

verus! {

/// Counts the requests that came in, by method. A counter that is full
/// starts again at zero.
pub struct Counter {
    get: usize,
    post: usize,
    put: usize,
    delete: usize,
}

/// The four counts as values.
pub struct Counts {
    pub get: nat,
    pub post: nat,
    pub put: nat,
    pub delete: nat,
}

/// The count after `n`.
pub open spec fn next_count(n: nat) -> nat {
    if n == usize::MAX {
        0
    } else {
        n + 1
    }
}

impl View for Counter {
    type V = Counts;

    closed spec fn view(&self) -> Counts {
        Counts {
            get: self.get as nat,
            post: self.post as nat,
            put: self.put as nat,
            delete: self.delete as nat,
        }
    }
}

impl Default for Counter {
    /// All four counts at zero.
    fn default() -> (r: Self)
        ensures
            r@ == (Counts { get: 0, post: 0, put: 0, delete: 0 }),
    {
        Self { get: 0, post: 0, put: 0, delete: 0 }
    }
}

fn step(n: usize) -> (r: usize)
    ensures
        r == next_count(n as nat),
{
    if n == usize::MAX {
        0
    } else {
        n + 1
    }
}

impl Counter {
    /// Counts one more GET.
    pub fn increment_get(&mut self)
        ensures
            final(self)@ == (Counts { get: next_count(old(self)@.get), ..old(self)@ }),
    {
        self.get = step(self.get);
    }

    /// Counts one more POST.
    pub fn increment_post(&mut self)
        ensures
            final(self)@ == (Counts { post: next_count(old(self)@.post), ..old(self)@ }),
    {
        self.post = step(self.post);
    }

    /// Counts one more PUT.
    pub fn increment_put(&mut self)
        ensures
            final(self)@ == (Counts { put: next_count(old(self)@.put), ..old(self)@ }),
    {
        self.put = step(self.put);
    }

    /// Counts one more DELETE.
    pub fn increment_delete(&mut self)
        ensures
            final(self)@ == (Counts { delete: next_count(old(self)@.delete), ..old(self)@ }),
    {
        self.delete = step(self.delete);
    }

    /// The number of GETs.
    pub fn get(&self) -> (r: usize)
        ensures
            r == self@.get,
    {
        self.get
    }

    /// The number of POSTs.
    pub fn post(&self) -> (r: usize)
        ensures
            r == self@.post,
    {
        self.post
    }

    /// The number of PUTs.
    pub fn put(&self) -> (r: usize)
        ensures
            r == self@.put,
    {
        self.put
    }

    /// The number of DELETEs.
    pub fn delete(&self) -> (r: usize)
        ensures
            r == self@.delete,
    {
        self.delete
    }
}

} // verus!
