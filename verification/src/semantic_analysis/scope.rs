//! The variables in scope while one function body is checked.

use super::typechecking::Type;
use vstd::prelude::*;

verus! {

/// A variable and the type it was bound with.
pub struct Binding {
    pub name: String,
    pub ty: Type,
}

/// The map that the first `n` bindings make: a later binding of a name
/// replaces an earlier one.
pub open spec fn bindings_upto(bindings: Seq<Binding>, n: nat) -> Map<Seq<char>, Type>
    decreases n,
{
    if n == 0 || n > bindings.len() {
        Map::empty()
    } else {
        bindings_upto(bindings, (n - 1) as nat).insert(bindings[n - 1].name@, bindings[n - 1].ty)
    }
}

/// The variables in scope. Scoping is function-wide: a binding stays until the
/// end of the function, and binding a name again shadows the earlier binding.
pub struct Scope {
    bindings: Vec<Binding>,
}

impl View for Scope {
    type V = Map<Seq<char>, Type>;

    closed spec fn view(&self) -> Map<Seq<char>, Type> {
        bindings_upto(self.bindings@, self.bindings@.len())
    }
}

impl Scope {
    /// The scope in which nothing is bound.
    pub fn new() -> (scope: Scope)
        ensures
            scope@ == Map::<Seq<char>, Type>::empty(),
    {
        Scope { bindings: Vec::new() }
    }

    /// Binds a name, in place of what it was bound to before.
    pub fn bind(&mut self, name: String, ty: Type)
        ensures
            final(self)@ == old(self)@.insert(name@, ty),
    {
        let ghost before = self.bindings@;
        self.bindings.push(Binding { name, ty });
        proof {
            lemma_bindings_prefix(before, self.bindings@, before.len());
        }
    }

    /// The type that a name is bound to, if it is bound.
    pub fn lookup(&self, name: &String) -> (found: Option<Type>)
        ensures
            match found {
                Some(t) => self@.contains_key(name@) && self@[name@] == t,
                None => !self@.contains_key(name@),
            },
    {
        let mut i: usize = self.bindings.len();
        while i > 0
            invariant
                i <= self.bindings.len(),
                self@.contains_key(name@) == bindings_upto(self.bindings@, i as nat).contains_key(
                    name@,
                ),
                self@.contains_key(name@) ==> self@[name@] == bindings_upto(
                    self.bindings@,
                    i as nat,
                )[name@],
            decreases i,
        {
            i -= 1;
            if self.bindings[i].name == *name {
                return Some(self.bindings[i].ty.clone());
            }
        }
        None
    }
}

/// One list of bindings that begins with another makes the same map from the
/// part they share.
proof fn lemma_bindings_prefix(short: Seq<Binding>, long: Seq<Binding>, n: nat)
    requires
        n <= short.len() <= long.len(),
        forall|i: int| 0 <= i < short.len() ==> short[i] == long[i],
    ensures
        bindings_upto(short, n) == bindings_upto(long, n),
    decreases n,
{
    if n > 0 {
        lemma_bindings_prefix(short, long, (n - 1) as nat);
    }
}

} // verus!
