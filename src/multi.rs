use vstd::prelude::*;

verus! {

/// A sequence of at most four values, held inline.
#[derive(Copy, Clone)]
pub enum Multi<T> {
    Zero,
    One(T),
    Two(T, T),
    Three(T, T, T),
    Four(T, T, T, T),
}

impl<T> View for Multi<T> {
    type V = Seq<T>;

    open spec fn view(&self) -> Seq<T> {
        match *self {
            Multi::Zero => seq![],
            Multi::One(a) => seq![a],
            Multi::Two(a, b) => seq![a, b],
            Multi::Three(a, b, c) => seq![a, b, c],
            Multi::Four(a, b, c, d) => seq![a, b, c, d],
        }
    }
}

impl<T> Multi<T> {
    /// Every value of the type holds at most four items.
    pub proof fn lemma_len_bound(&self)
        ensures
            self@.len() <= 4,
    {
    }

    /// Removes and returns the first item.
    pub fn take(&mut self) -> (r: Option<T>)
        ensures
            old(self)@.len() == 0 ==> r is None && final(self)@ == old(self)@,
            old(self)@.len() > 0 ==> r == Some(old(self)@[0]) && final(self)@
                == old(self)@.drop_first(),
    {
        let mut cur = Multi::Zero;
        core::mem::swap(self, &mut cur);
        match cur {
            Multi::Zero => None,
            Multi::One(t) => Some(t),
            Multi::Two(t, r) => {
                *self = Multi::One(r);
                Some(t)
            },
            Multi::Three(t, r, s) => {
                *self = Multi::Two(r, s);
                Some(t)
            },
            Multi::Four(t, r, s, x) => {
                *self = Multi::Three(r, s, x);
                Some(t)
            },
        }
    }

    /// Puts `t` in front. A full value (four items) is emptied instead.
    pub fn push(&mut self, t: T)
        ensures
            old(self)@.len() < 4 ==> final(self)@ == seq![t] + old(self)@,
            old(self)@.len() == 4 ==> final(self)@ == Seq::<T>::empty(),
    {
        let mut cur = Multi::Zero;
        core::mem::swap(self, &mut cur);
        let next = match cur {
            Multi::Zero => Multi::One(t),
            Multi::One(r) => Multi::Two(t, r),
            Multi::Two(r, s) => Multi::Three(t, r, s),
            Multi::Three(r, s, x) => Multi::Four(t, r, s, x),
            _ => Multi::Zero,
        };
        *self = next;
        proof {
            assert(self@ =~= seq![t] + old(self)@ || old(self)@.len() == 4);
        }
    }

    /// Puts `x` at the end. A full value (four items) is emptied instead.
    pub fn append(&mut self, x: T)
        ensures
            old(self)@.len() < 4 ==> final(self)@ == old(self)@.push(x),
            old(self)@.len() == 4 ==> final(self)@ == Seq::<T>::empty(),
    {
        let mut cur = Multi::Zero;
        core::mem::swap(self, &mut cur);
        let next = match cur {
            Multi::Zero => Multi::One(x),
            Multi::One(t) => Multi::Two(t, x),
            Multi::Two(t, r) => Multi::Three(t, r, x),
            Multi::Three(t, r, s) => Multi::Four(t, r, s, x),
            _ => Multi::Zero,
        };
        *self = next;
        proof {
            assert(self@ =~= old(self)@.push(x) || old(self)@.len() == 4);
        }
    }

    /// The items of `self` followed by those of `other`; empty where
    /// together they are more than four.
    pub fn add(self, other: Multi<T>) -> (r: Multi<T>)
        ensures
            self@.len() + other@.len() <= 4 ==> r@ == self@ + other@,
            self@.len() + other@.len() > 4 ==> r@ == Seq::<T>::empty(),
    {
        let ghost a = self@;
        let ghost b = other@;
        let r = match (self, other) {
            (a, Multi::Zero) => a,
            (Multi::Zero, other) => other,
            (Multi::One(t), Multi::One(r)) => Multi::Two(t, r),
            (Multi::One(t), Multi::Two(r, s)) => Multi::Three(t, r, s),
            (Multi::One(t), Multi::Three(r, s, x)) => Multi::Four(t, r, s, x),
            (Multi::Two(t, r), Multi::One(s)) => Multi::Three(t, r, s),
            (Multi::Two(t, r), Multi::Two(s, x)) => Multi::Four(t, r, s, x),
            (Multi::Three(t, r, s), Multi::One(x)) => Multi::Four(t, r, s, x),
            _ => Multi::Zero,
        };
        proof {
            assert(r@ =~= a + b || a.len() + b.len() > 4);
        }
        r
    }

    /// The number of items.
    pub fn len(&self) -> (r: usize)
        ensures
            r == self@.len(),
    {
        match self {
            Multi::Zero => 0,
            Multi::One(..) => 1,
            Multi::Two(..) => 2,
            Multi::Three(..) => 3,
            Multi::Four(..) => 4,
        }
    }

    /// Walks the items from first to last.
    pub fn into_iter(self) -> (r: MultiIter<T>)
        ensures
            r.0@ == self@,
    {
        MultiIter(self)
    }
}

impl<T> Default for Multi<T> {
    fn default() -> (r: Self)
        ensures
            r@ == Seq::<T>::empty(),
    {
        Multi::Zero
    }
}

/// Hands out the items of a `Multi` one at a time, first to last.
pub struct MultiIter<T>(pub Multi<T>);

impl<T> MultiIter<T> {
    /// The next item, if any is left.
    pub fn next(&mut self) -> (r: Option<T>)
        ensures
            old(self).0@.len() == 0 ==> r is None && final(self).0@ == old(self).0@,
            old(self).0@.len() > 0 ==> r == Some(old(self).0@[0]) && final(self).0@
                == old(self).0@.drop_first(),
    {
        self.0.take()
    }
}

} // verus!
