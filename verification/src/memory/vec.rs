use vstd::prelude::*;

verus! {

/// A growable array.
pub struct Vec<T> {
    items: std::vec::Vec<T>,
}

impl<T> View for Vec<T> {
    type V = Seq<T>;

    /// The elements, first to last.
    closed spec fn view(&self) -> Seq<T> {
        self.items@
    }
}

impl<T> Vec<T> {
    /// An empty vector.
    pub fn new() -> (v: Self)
        ensures
            v@ == Seq::<T>::empty(),
    {
        Vec { items: std::vec::Vec::new() }
    }

    /// Appends `val`.
    pub fn push(&mut self, val: T)
        ensures
            final(self)@ == old(self)@.push(val),
    {
        self.items.push(val);
    }

    /// Removes the element at `index`, shifting the later ones down; `None`
    /// (nothing removed) when `index` is past the end.
    pub fn remove(&mut self, index: usize) -> (r: Option<T>)
        ensures
            if index < old(self)@.len() {
                r == Some(old(self)@[index as int]) && final(self)@ == old(self)@.remove(index as int)
            } else {
                r is None && final(self)@ == old(self)@
            },
    {
        if index >= self.items.len() {
            return None;
        }
        Some(self.items.remove(index))
    }

    /// Removes and returns the last element; `None` when the vector is empty.
    pub fn pop(&mut self) -> (r: Option<T>)
        ensures
            if old(self)@.len() > 0 {
                r == Some(old(self)@.last()) && final(self)@ == old(self)@.drop_last()
            } else {
                r is None && final(self)@ == old(self)@
            },
    {
        if self.items.len() == 0 {
            return None;
        }
        let last = self.items.len() - 1;
        let r = self.remove(last);
        assert(old(self)@.remove(last as int) =~= old(self)@.drop_last());
        r
    }

    /// The element at `index`; `None` past the end.
    pub fn get(&self, index: usize) -> (r: Option<&T>)
        ensures
            if index < self@.len() {
                r == Some(&self@[index as int])
            } else {
                r is None
            },
    {
        if index < self.items.len() {
            Some(&self.items[index])
        } else {
            None
        }
    }

    /// The element at `index`, to change in place; `None` past the end.
    pub fn get_mut(&mut self, index: usize) -> (r: Option<&mut T>)
        ensures
            if index < old(self)@.len() {
                &&& r matches Some(e)
                &&& *e == old(self)@[index as int]
                &&& final(self)@ == old(self)@.update(index as int, *final(e))
            } else {
                r is None && final(self)@ == old(self)@
            },
    {
        if index < self.items.len() {
            Some(&mut self.items[index])
        } else {
            None
        }
    }

    /// A walk over the elements that hands each out to change in place.
    pub fn iter_mut(&mut self) -> (it: IterMut<'_, T>)
        ensures
            it.vec@ == old(self)@,
            it.index == 0,
            final(self)@ == final(it.vec)@,
    {
        IterMut { vec: self, index: 0 }
    }

    /// The number of elements.
    pub fn len(&self) -> (n: usize)
        ensures
            n == self@.len(),
    {
        self.items.len()
    }

    /// Whether there are no elements.
    pub fn is_empty(&self) -> (e: bool)
        ensures
            e == (self@.len() == 0),
    {
        self.items.len() == 0
    }

    /// Removes every element.
    pub fn clear(&mut self)
        ensures
            final(self)@ == Seq::<T>::empty(),
    {
        self.items.clear();
    }

    /// An iterator over the elements, first to last.
    pub fn iter(&self) -> (it: Iter<'_, T>)
        ensures
            it.vec@ == self@,
            it.index == 0,
    {
        Iter { vec: self, index: 0 }
    }
}

impl<T> Default for Vec<T> {
    fn default() -> (v: Self)
        ensures
            v@ == Seq::<T>::empty(),
    {
        Vec::new()
    }
}

/// A walk over the elements of a `Vec`, first to last.
pub struct Iter<'a, T> {
    pub vec: &'a Vec<T>,
    pub index: usize,
}

impl<'a, T> Iter<'a, T> {
    /// The next element, or `None` once every element was handed out.
    pub fn next(&mut self) -> (r: Option<&'a T>)
        ensures
            final(self).vec == old(self).vec,
            if old(self).index < old(self).vec@.len() {
                r == Some(&old(self).vec@[old(self).index as int]) && final(self).index == old(self).index + 1
            } else {
                r is None && final(self).index == old(self).index
            },
    {
        if self.index >= self.vec.len() {
            None
        } else {
            let result = self.vec.get(self.index);
            self.index += 1;
            result
        }
    }
}

/// A walk over the elements of a `Vec` that hands each out to change in place,
/// first to last.
pub struct IterMut<'a, T> {
    pub vec: &'a mut Vec<T>,
    pub index: usize,
}

impl<'a, T> IterMut<'a, T> {
    /// The next element, to change in place, or `None` once every element was
    /// handed out.
    pub fn next(&mut self) -> (r: Option<&mut T>)
        ensures
            if old(self).index < old(self).vec@.len() {
                &&& r matches Some(e)
                &&& *e == old(self).vec@[old(self).index as int]
                &&& final(self).index == old(self).index + 1
                &&& final(self).vec@ == old(self).vec@.update(old(self).index as int, *final(e))
            } else {
                &&& r is None
                &&& final(self).index == old(self).index
                &&& final(self).vec@ == old(self).vec@
            },
    {
        if self.index >= self.vec.len() {
            None
        } else {
            let i = self.index;
            self.index = i + 1;
            self.vec.get_mut(i)
        }
    }
}

} // verus!
