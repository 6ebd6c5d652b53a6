use vstd::prelude::*;

verus! {

/// A named bucket of a budget with the amount earmarked for it.
#[derive(Debug, Clone)]
pub struct Category {
    id: u64,
    name: String,
    allocated: i64,
}

impl Category {
    pub closed spec fn spec_id(&self) -> u64 {
        self.id
    }

    pub closed spec fn spec_name(&self) -> Seq<char> {
        self.name@
    }

    pub closed spec fn spec_allocated(&self) -> i64 {
        self.allocated
    }

    pub(crate) fn record(id: u64, name: String, allocated: i64) -> (r: Category)
        ensures
            r.spec_id() == id,
            r.spec_name() == name@,
            r.spec_allocated() == allocated,
    {
        Category { id, name, allocated }
    }

    /// A copy with every field equal.
    pub fn duplicate(&self) -> (r: Category)
        ensures
            r == *self,
    {
        Category { id: self.id, name: self.name.clone(), allocated: self.allocated }
    }

    pub fn id(&self) -> (r: u64)
        ensures
            r == self.spec_id(),
    {
        self.id
    }

    pub fn name(&self) -> (r: String)
        ensures
            r@ == self.spec_name(),
    {
        self.name.clone()
    }

    pub fn allocated(&self) -> (r: i64)
        ensures
            r == self.spec_allocated(),
    {
        self.allocated
    }

    /// Whether the category is called `name`.
    pub fn has_name(&self, name: &String) -> (r: bool)
        ensures
            r == (self.spec_name() == name@),
    {
        self.name == *name
    }
}

/// A posting that moves `amount` cents from category `from` to category `to`.
#[derive(Debug, Clone, Copy, PartialEq, Eq, Structural)]
pub struct Transfer {
    pub from: u64,
    pub to: u64,
    pub amount: i64,
}

} // verus!
