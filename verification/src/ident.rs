use vstd::prelude::*;

verus! {

/// An identifier, held by its text.
#[derive(Debug, PartialEq, Eq)]
pub struct Ident {
    pub name: String,
}

impl View for Ident {
    type V = Seq<char>;

    open spec fn view(&self) -> Seq<char> {
        self.name@
    }
}

impl Ident {
    /// The identifier with the text `name`.
    pub fn new(name: &str) -> (ident: Ident)
        ensures
            ident@ == name@,
    {
        Ident { name: name.to_owned() }
    }

    /// Identifier equality: the two texts are the same.
    pub fn same(&self, other: &Ident) -> (equal: bool)
        ensures
            equal == (self@ == other@),
    {
        self.name == other.name
    }
}

impl Clone for Ident {
    fn clone(&self) -> (copy: Ident)
        ensures
            copy@ == self@,
    {
        Ident { name: self.name.clone() }
    }
}

/// A lifetime such as `'a`, held by its identifier without the apostrophe.
#[derive(Debug, PartialEq, Eq)]
pub struct Lifetime {
    pub ident: Ident,
}

impl View for Lifetime {
    type V = Seq<char>;

    open spec fn view(&self) -> Seq<char> {
        self.ident@
    }
}

impl Clone for Lifetime {
    fn clone(&self) -> (copy: Lifetime)
        ensures
            copy@ == self@,
    {
        Lifetime { ident: self.ident.clone() }
    }
}

/// The texts of a sequence of lifetimes.
pub open spec fn lifetimes_model(lifetimes: Seq<Lifetime>) -> Seq<Seq<char>> {
    Seq::new(lifetimes.len(), |i: int| lifetimes[i]@)
}

/// The text of an optional lifetime.
pub open spec fn lifetime_model(lifetime: Option<Lifetime>) -> Option<Seq<char>> {
    match lifetime {
        Some(l) => Some(l@),
        None => None,
    }
}

pub fn clone_lifetime(lifetime: &Option<Lifetime>) -> (copy: Option<Lifetime>)
    ensures
        lifetime_model(copy) == lifetime_model(*lifetime),
{
    match lifetime {
        Some(l) => Some(l.clone()),
        None => None,
    }
}

pub fn clone_lifetimes(lifetimes: &Vec<Lifetime>) -> (copy: Vec<Lifetime>)
    ensures
        lifetimes_model(copy@) == lifetimes_model(lifetimes@),
{
    let mut copy: Vec<Lifetime> = Vec::new();
    let mut i: usize = 0;
    while i < lifetimes.len()
        invariant
            i <= lifetimes.len(),
            copy.len() == i,
            forall|j: int| 0 <= j < i ==> copy[j]@ == lifetimes[j]@,
        decreases lifetimes.len() - i,
    {
        copy.push(lifetimes[i].clone());
        i += 1;
    }
    copy
}

} // verus!
