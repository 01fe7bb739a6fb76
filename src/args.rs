use vstd::prelude::*;
use crate::value::Value;

verus! {

/// A forward, single-pass cursor over the arguments supplied to one call.
pub struct ArgsIter {
    values: Vec<Value>,
    pos: usize,
}

impl View for ArgsIter {
    type V = Seq<Value>;

    /// The arguments not yet taken.
    closed spec fn view(&self) -> Seq<Value> {
        self.values@.subrange(self.pos as int, self.values@.len() as int)
    }
}

impl ArgsIter {
    #[verifier::type_invariant]
    spec fn inv(self) -> bool {
        self.pos <= self.values@.len()
    }

    pub fn new(values: Vec<Value>) -> (r: ArgsIter)
        ensures
            r@ == values@,
    {
        let r = ArgsIter { values, pos: 0 };
        assert(r@ =~= r.values@);
        r
    }

    /// How many arguments remain.
    pub fn len(&self) -> (r: usize)
        ensures
            r == self@.len(),
    {
        proof {
            use_type_invariant(self);
        }
        self.values.len() - self.pos
    }

    /// Takes the next argument, if any remains.
    pub fn next(&mut self) -> (r: Option<Value>)
        ensures
            old(self)@.len() == 0 ==> r is None && final(self)@ == old(self)@,
            old(self)@.len() > 0 ==> r == Some(old(self)@[0]) && final(self)@ == old(self)@.drop_first(),
    {
        proof {
            use_type_invariant(&*self);
        }
        if self.pos < self.values.len() {
            let v = self.values[self.pos];
            self.pos = self.pos + 1;
            proof {
                assert(self@ =~= old(self)@.drop_first());
            }
            Some(v)
        } else {
            None
        }
    }
}

} // verus!
