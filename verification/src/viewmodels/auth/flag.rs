use vstd::prelude::*;

verus! {

/// What a user sends to set or clear a flag: the flag.
pub struct FlagHolder {
    flag: String,
}

impl FlagHolder {
    /// The flag, as a value.
    pub closed spec fn flag_text(&self) -> Seq<char> {
        self.flag@
    }

    /// A request of these values.
    pub fn new(flag: &str) -> (r: Self)
        ensures
            r.flag_text() == flag@,
    {
        Self { flag: flag.to_owned() }
    }

    /// The flag.
    pub fn get_flag(&self) -> (r: &str)
        ensures
            r@ == self.flag_text(),
    {
        self.flag.as_str()
    }
}

} // verus!
