use vstd::prelude::*;

verus! {

/// A payload together with the wire format it is decoded from or encoded to:
/// `Json` for the human-readable text format, `Cbor` for the compact binary one.
#[derive(Debug, Clone, PartialEq, Eq)]
pub enum PackObject<T> {
    Json(T),
    Cbor(T),
}

impl<T: View> View for PackObject<T> {
    type V = PackObject<T::V>;

    open spec fn view(&self) -> PackObject<T::V> {
        match self {
            PackObject::Json(v) => PackObject::Json(v@),
            PackObject::Cbor(v) => PackObject::Cbor(v@),
        }
    }
}

impl<S> PackObject<S> {
    /// The payload, whichever the format.
    pub open spec fn value(&self) -> S {
        match self {
            PackObject::Json(v) => *v,
            PackObject::Cbor(v) => *v,
        }
    }

    /// True for the text format.
    pub open spec fn is_text(&self) -> bool {
        self is Json
    }

    /// The tag `t` put on another payload `v`.
    pub open spec fn tagged<T>(t: bool, v: T) -> PackObject<T> {
        if t {
            PackObject::Json(v)
        } else {
            PackObject::Cbor(v)
        }
    }

    /// Takes the payload out, dropping the format.
    pub fn unwrap(self) -> (r: S)
        ensures
            r == self.value(),
    {
        match self {
            PackObject::Json(v) => v,
            PackObject::Cbor(v) => v,
        }
    }

    /// Borrows the payload.
    pub fn unwrap_ref(&self) -> (r: &S)
        ensures
            *r == self.value(),
    {
        match self {
            PackObject::Json(v) => v,
            PackObject::Cbor(v) => v,
        }
    }

    /// Splits into the bare format marker and the payload.
    pub fn unpack(self) -> (r: (PackObject<()>, S))
        ensures
            r.0.is_text() == self.is_text(),
            r.1 == self.value(),
    {
        match self {
            PackObject::Json(v) => (PackObject::Json(()), v),
            PackObject::Cbor(v) => (PackObject::Cbor(()), v),
        }
    }

    /// The bare format marker of this value.
    pub fn unit(&self) -> (r: PackObject<()>)
        ensures
            r.is_text() == self.is_text(),
    {
        match self {
            PackObject::Json(_) => PackObject::Json(()),
            PackObject::Cbor(_) => PackObject::Cbor(()),
        }
    }

    /// Puts `v` in the same format as this value.
    pub fn with<T>(&self, v: T) -> (r: PackObject<T>)
        ensures
            r == Self::tagged(self.is_text(), v),
    {
        match self {
            PackObject::Json(_) => PackObject::Json(v),
            PackObject::Cbor(_) => PackObject::Cbor(v),
        }
    }

    /// Puts `v`, if any, in the same format as this value.
    pub fn with_option<T>(&self, v: Option<T>) -> (r: Option<PackObject<T>>)
        ensures
            r == match v {
                Some(x) => Some(Self::tagged(self.is_text(), x)),
                None => None,
            },
    {
        match v {
            Some(x) => Some(self.with(x)),
            None => None,
        }
    }

    /// Puts each item of `vv`, in order, in the same format as this value.
    pub fn with_vec<T>(&self, vv: Vec<T>) -> (r: Vec<PackObject<T>>)
        ensures
            r@.len() == vv@.len(),
            forall|i: int| 0 <= i < vv@.len() ==> #[trigger] r@[i] == Self::tagged(self.is_text(), vv@[i]),
    {
        let mut r: Vec<PackObject<T>> = Vec::new();
        for x in it: vv.into_iter()
            invariant
                r@.len() == it.index(),
                it.seq() == vv@,
                forall|i: int| 0 <= i < r@.len() ==> #[trigger] r@[i] == Self::tagged(self.is_text(), vv@[i]),
        {
            r.push(self.with(x));
        }
        r
    }

    /// Puts each item of the set `vv` in the same format as this value, in
    /// the order the set hands them out. The item type must obey the laws of
    /// `Eq` and `Hash` that a hash set relies on.
    pub fn with_set<T>(&self, vv: std::collections::HashSet<T>) -> (r: Vec<PackObject<T>>)
        requires
            vstd::std_specs::hash::obeys_key_model::<T>(),
        ensures
            r@.len() == vv@.len(),
            forall|x: T| vv@.contains(x) <==> r@.contains(Self::tagged(self.is_text(), x)),
            forall|i: int| 0 <= i < r@.len() ==> (#[trigger] r@[i]).is_text() == self.is_text(),
    {
        let items = set_items(vv);
        let r = self.with_vec(items);
        assert forall|x: T| vv@.contains(x) <==> r@.contains(Self::tagged(self.is_text(), x)) by {
            if vv@.contains(x) {
                assert(items@.to_set().contains(x));
                let i = choose|i: int| 0 <= i < items@.len() && items@[i] == x;
                assert(r@[i] == Self::tagged(self.is_text(), x));
            }
            if r@.contains(Self::tagged(self.is_text(), x)) {
                let i = choose|i: int| 0 <= i < r@.len() && r@[i] == Self::tagged(self.is_text(), x);
                assert(items@[i] == x);
                assert(items@.to_set().contains(x));
            }
        }
        r
    }
}

/// Relies on `Vec::from_iter` over a `HashSet`: every item of the set,
/// each once, in an order the set chooses. That holds where the item type
/// obeys the laws of `Eq` and `Hash`; std leaves a set of any other type
/// unspecified.
#[verifier::external_body]
fn set_items<T>(s: std::collections::HashSet<T>) -> (r: Vec<T>)
    requires
        vstd::std_specs::hash::obeys_key_model::<T>(),
    ensures
        r@.to_set() == s@,
        r@.no_duplicates(),
        r@.len() == s@.len(),
{
    Vec::from_iter(s)
}

impl<T: Default> Default for PackObject<T> {
    /// The default payload in the text format.
    fn default() -> (r: PackObject<T>)
        ensures
            r is Json,
            call_ensures(T::default, (), r.value()),
    {
        PackObject::Json(T::default())
    }
}

impl<T> AsRef<T> for PackObject<T> {
    fn as_ref(&self) -> (r: &T)
        ensures
            *r == self.value(),
    {
        self.unwrap_ref()
    }
}

impl<T> std::ops::Deref for PackObject<T> {
    type Target = T;

    fn deref(&self) -> (r: &T)
        ensures
            *r == self.value(),
    {
        self.unwrap_ref()
    }
}

} // verus!
