use vstd::prelude::*;
use vstd::pervasive::cloned;

verus! {

/// A sequence that is either borrowed for the whole program or owned.
#[derive(Clone, Debug)]
pub enum DynamicArray<T: 'static> {
    Static(&'static [T]),
    Owned(Vec<T>),
}

impl<T: 'static> View for DynamicArray<T> {
    type V = Seq<T>;

    open spec fn view(&self) -> Seq<T> {
        match self {
            DynamicArray::Static(array) => array@,
            DynamicArray::Owned(vec) => vec@,
        }
    }
}

impl<T: 'static> std::ops::Deref for DynamicArray<T> {
    type Target = [T];

    fn deref(&self) -> (r: &[T])
        ensures
            r@ == self@,
    {
        match self {
            DynamicArray::Static(array) => array,
            DynamicArray::Owned(vec) => vec.as_slice(),
        }
    }
}

impl<T: 'static> AsRef<[T]> for DynamicArray<T> {
    fn as_ref(&self) -> (r: &[T])
        ensures
            r@ == self@,
    {
        match self {
            DynamicArray::Static(array) => array,
            DynamicArray::Owned(vec) => vec.as_slice(),
        }
    }
}

impl<T: Clone + 'static> DynamicArray<T> {
    /// Makes the sequence owned, copying a borrowed one element by element,
    /// and gives access to the owned vector.
    pub fn convert_to_owned(&mut self) -> (r: &mut Vec<T>)
        ensures
            *final(self) == DynamicArray::Owned(*final(r)),
            r@.len() == old(self)@.len(),
            *old(self) is Owned ==> r@ == old(self)@,
            forall|i: int| 0 <= i < r@.len() ==> cloned(old(self)@[i], #[trigger] r@[i]),
    {
        let copy = match self {
            DynamicArray::Owned(vec) => None,
            DynamicArray::Static(array) => {
                let mut vec: Vec<T> = Vec::new();
                let mut i: usize = 0;
                while i < array.len()
                    invariant
                        i <= array@.len(),
                        vec@.len() == i,
                        forall|k: int| 0 <= k < i ==> cloned(array@[k], #[trigger] vec@[k]),
                    decreases array@.len() - i,
                {
                    vec.push(array[i].clone());
                    i = i + 1;
                }
                Some(vec)
            },
        };
        match copy {
            Some(vec) => {
                *self = DynamicArray::Owned(vec);
            },
            None => {},
        }
        match self {
            DynamicArray::Owned(vec) => vec,
            DynamicArray::Static(array) => vstd::pervasive::unreached(),
        }
    }
}

} // verus!
