//! The order and the spelling in which headers go on the wire.

use vstd::prelude::*;
use crate::header::{valid_name, HeaderName, InvalidHeaderName};
use crate::bytes::{lowered, to_vec};

verus! {

/// One header name as its author spelt it.
#[derive(Debug)]
pub struct OriginalName {
    pub name: HeaderName,
    pub spelling: Vec<u8>,
}

/// An ordered list of header names in their original case.
///
/// The order is that in which listed headers are sent, ahead of every header
/// that is not listed; the spelling is that which the wire shows.
#[derive(Debug)]
pub struct OriginalHeaders {
    names: Vec<OriginalName>,
}

impl View for OriginalHeaders {
    type V = Seq<Seq<u8>>;

    /// The listed names in lower case, in their order.
    closed spec fn view(&self) -> Seq<Seq<u8>> {
        Seq::new(self.names@.len(), |i: int| self.names@[i].name@)
    }
}

impl Clone for OriginalHeaders {
    fn clone(&self) -> (r: OriginalHeaders)
        ensures
            r@ == self@,
            r.spellings() == self.spellings(),
    {
        let mut names: Vec<OriginalName> = Vec::new();
        let mut i: usize = 0;
        while i < self.names.len()
            invariant
                i <= self.names@.len(),
                names@.len() == i,
                forall|j: int|
                    0 <= j < i ==> (#[trigger] names@[j]).name@ == self.names@[j].name@
                        && names@[j].spelling@ == self.names@[j].spelling@,
            decreases self.names@.len() - i,
        {
            let entry = &self.names[i];
            names.push(
                OriginalName {
                    name: entry.name.clone(),
                    spelling: to_vec(entry.spelling.as_slice()),
                },
            );
            i += 1;
        }
        let r = OriginalHeaders { names };
        assert(r@ =~= self@);
        assert(r.spellings() =~= self.spellings());
        r
    }
}

impl OriginalHeaders {
    /// The listed names as they were spelt, in their order.
    pub closed spec fn spellings(&self) -> Seq<Seq<u8>> {
        Seq::new(self.names@.len(), |i: int| self.names@[i].spelling@)
    }

    pub fn new() -> (r: OriginalHeaders)
        ensures
            r@ == Seq::<Seq<u8>>::empty(),
            r.spellings() == Seq::<Seq<u8>>::empty(),
    {
        let r = OriginalHeaders { names: Vec::new() };
        assert(r@ =~= Seq::<Seq<u8>>::empty());
        assert(r.spellings() =~= Seq::<Seq<u8>>::empty());
        r
    }

    /// Puts `spelling` at the end of the list; refuses what cannot be a
    /// header name, and says so.
    pub fn insert(&mut self, spelling: &[u8]) -> (r: Result<(), InvalidHeaderName>)
        ensures
            r is Ok == valid_name(spelling@),
            r is Ok ==> final(self)@ == old(self)@.push(lowered(spelling@)),
            r is Ok ==> final(self).spellings() == old(self).spellings().push(spelling@),
            r is Err ==> final(self)@ == old(self)@,
            r is Err ==> final(self).spellings() == old(self).spellings(),
    {
        match HeaderName::from_bytes(spelling) {
            Ok(name) => {
                self.names.push(OriginalName { name, spelling: to_vec(spelling) });
                assert(self@ =~= old(self)@.push(lowered(spelling@)));
                assert(self.spellings() =~= old(self).spellings().push(spelling@));
                Ok(())
            },
            Err(e) => Err(e),
        }
    }

    pub fn len(&self) -> (n: usize)
        ensures
            n == self@.len(),
    {
        self.names.len()
    }

    /// The name at place `i` of the list.
    pub fn name(&self, i: usize) -> (r: &HeaderName)
        requires
            i < self@.len(),
        ensures
            r@ == self@[i as int],
    {
        &self.names[i].name
    }

    /// The name at place `i` of the list as it was spelt.
    pub fn spelling(&self, i: usize) -> (r: &[u8])
        requires
            i < self@.len(),
        ensures
            r@ == self.spellings()[i as int],
    {
        self.names[i].spelling.as_slice()
    }
}

} // verus!
