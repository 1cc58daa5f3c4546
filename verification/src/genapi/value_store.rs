//! The store of the values that nodes hold.

use vstd::prelude::*;
use vstd::std_specs::convert::FromSpecImpl;

verus! {

/// Identifier of a value: its index in the value store.
#[derive(Debug, Clone, Copy, PartialEq, Eq, Hash, Structural)]
pub struct ValueId(pub u32);

impl ValueId {
    /// The identifier with the given index.
    pub fn from_u32(i: u32) -> (id: ValueId)
        ensures
            id.0 == i,
    {
        ValueId(i)
    }
}

/// Identifier of a value that is meant to be an integer.
#[derive(Debug, Clone, Copy, PartialEq, Eq, Structural)]
pub struct IntegerId(pub u32);

/// Identifier of a value that is meant to be a floating-point number.
#[derive(Debug, Clone, Copy, PartialEq, Eq, Structural)]
pub struct FloatId(pub u32);

/// Identifier of a value that is meant to be a string.
#[derive(Debug, Clone, Copy, PartialEq, Eq, Structural)]
pub struct StringId(pub u32);

/// Identifier of a value that is meant to be a boolean.
#[derive(Debug, Clone, Copy, PartialEq, Eq, Structural)]
pub struct BooleanId(pub u32);

impl From<IntegerId> for ValueId {
    fn from(v: IntegerId) -> (id: ValueId) {
        ValueId(v.0)
    }
}

impl FromSpecImpl<IntegerId> for ValueId {
    open spec fn obeys_from_spec() -> bool {
        true
    }

    open spec fn from_spec(v: IntegerId) -> ValueId {
        ValueId(v.0)
    }
}

impl From<ValueId> for IntegerId {
    fn from(id: ValueId) -> (v: IntegerId) {
        IntegerId(id.0)
    }
}

impl FromSpecImpl<ValueId> for IntegerId {
    open spec fn obeys_from_spec() -> bool {
        true
    }

    open spec fn from_spec(id: ValueId) -> IntegerId {
        IntegerId(id.0)
    }
}

impl From<FloatId> for ValueId {
    fn from(v: FloatId) -> (id: ValueId) {
        ValueId(v.0)
    }
}

impl FromSpecImpl<FloatId> for ValueId {
    open spec fn obeys_from_spec() -> bool {
        true
    }

    open spec fn from_spec(v: FloatId) -> ValueId {
        ValueId(v.0)
    }
}

impl From<ValueId> for FloatId {
    fn from(id: ValueId) -> (v: FloatId) {
        FloatId(id.0)
    }
}

impl FromSpecImpl<ValueId> for FloatId {
    open spec fn obeys_from_spec() -> bool {
        true
    }

    open spec fn from_spec(id: ValueId) -> FloatId {
        FloatId(id.0)
    }
}

impl From<StringId> for ValueId {
    fn from(v: StringId) -> (id: ValueId) {
        ValueId(v.0)
    }
}

impl FromSpecImpl<StringId> for ValueId {
    open spec fn obeys_from_spec() -> bool {
        true
    }

    open spec fn from_spec(v: StringId) -> ValueId {
        ValueId(v.0)
    }
}

impl From<ValueId> for StringId {
    fn from(id: ValueId) -> (v: StringId) {
        StringId(id.0)
    }
}

impl FromSpecImpl<ValueId> for StringId {
    open spec fn obeys_from_spec() -> bool {
        true
    }

    open spec fn from_spec(id: ValueId) -> StringId {
        StringId(id.0)
    }
}

impl From<BooleanId> for ValueId {
    fn from(v: BooleanId) -> (id: ValueId) {
        ValueId(v.0)
    }
}

impl FromSpecImpl<BooleanId> for ValueId {
    open spec fn obeys_from_spec() -> bool {
        true
    }

    open spec fn from_spec(v: BooleanId) -> ValueId {
        ValueId(v.0)
    }
}

impl From<ValueId> for BooleanId {
    fn from(id: ValueId) -> (v: BooleanId) {
        BooleanId(id.0)
    }
}

impl FromSpecImpl<ValueId> for BooleanId {
    open spec fn obeys_from_spec() -> bool {
        true
    }

    open spec fn from_spec(id: ValueId) -> BooleanId {
        BooleanId(id.0)
    }
}

/// A value that a node holds. `F` is the type of floating-point numbers,
/// which the store carries and never looks into.
#[derive(Debug, Clone, PartialEq)]
pub enum ValueData<F> {
    Integer(i64),
    Float(F),
    Str(String),
    Boolean(bool),
}

impl<F> From<i64> for ValueData<F> {
    fn from(v: i64) -> (data: ValueData<F>) {
        ValueData::Integer(v)
    }
}

impl<F> FromSpecImpl<i64> for ValueData<F> {
    open spec fn obeys_from_spec() -> bool {
        true
    }

    open spec fn from_spec(v: i64) -> ValueData<F> {
        ValueData::Integer(v)
    }
}

impl<F> From<String> for ValueData<F> {
    fn from(v: String) -> (data: ValueData<F>) {
        ValueData::Str(v)
    }
}

impl<F> FromSpecImpl<String> for ValueData<F> {
    open spec fn obeys_from_spec() -> bool {
        true
    }

    open spec fn from_spec(v: String) -> ValueData<F> {
        ValueData::Str(v)
    }
}

impl<F> From<bool> for ValueData<F> {
    fn from(v: bool) -> (data: ValueData<F>) {
        ValueData::Boolean(v)
    }
}

impl<F> FromSpecImpl<bool> for ValueData<F> {
    open spec fn obeys_from_spec() -> bool {
        true
    }

    open spec fn from_spec(v: bool) -> ValueData<F> {
        ValueData::Boolean(v)
    }
}

/// The value at `id` in `values`, if `id` is an index of `values`.
pub open spec fn value_at<F>(values: Seq<ValueData<F>>, id: ValueId) -> Option<ValueData<F>> {
    if id.0 < values.len() {
        Some(values[id.0 as int])
    } else {
        None
    }
}

/// A store of values of nodes, with floating-point numbers of type `F`.
pub trait ValueStore<F> {
    /// The values in the store, each at the index that is its identifier.
    spec fn values(&self) -> Seq<ValueData<F>>;

    /// Puts `data` behind the values in the store and gives its
    /// identifier, which is the number of values that the store held. That
    /// number must fit a `u32`.
    fn store(&mut self, data: ValueData<F>) -> (id: ValueId)
        requires
            old(self).values().len() <= u32::MAX,
        ensures
            final(self).values() == old(self).values().push(data),
            id.0 == old(self).values().len(),
    ;

    /// The value under `id`, if there is one.
    fn value_opt(&self, id: ValueId) -> (data: Option<&ValueData<F>>)
        ensures
            match data {
                Some(value) => value_at(self.values(), id) == Some(*value),
                None => value_at(self.values(), id).is_none(),
            },
    ;

    /// The value under `id`, to be changed in place, if there is one.
    fn value_mut_opt(&mut self, id: ValueId) -> (data: Option<&mut ValueData<F>>)
        ensures
            match data {
                Some(value) => {
                    &&& value_at(old(self).values(), id) == Some(*value)
                    &&& final(self).values() == old(self).values().update(
                        id.0 as int,
                        *final(value),
                    )
                },
                None => {
                    &&& value_at(old(self).values(), id).is_none()
                    &&& final(self).values() == old(self).values()
                },
            },
    ;

    /// Puts `value` in the place of the value under `id` and gives the
    /// value that was there; without a value under `id` nothing changes.
    fn update(&mut self, id: ValueId, value: ValueData<F>) -> (previous: Option<ValueData<F>>)
        ensures
            previous == value_at(old(self).values(), id),
            previous is Some ==> final(self).values() == old(self).values().update(
                id.0 as int,
                value,
            ),
            previous is None ==> final(self).values() == old(self).values(),
    ;

    /// The value under `id`, which must be there.
    fn value(&self, id: ValueId) -> (data: &ValueData<F>)
        requires
            value_at(self.values(), id) is Some,
        ensures
            value_at(self.values(), id) == Some(*data),
    {
        self.value_opt(id).unwrap()
    }

    /// The integer under `id`, if the value there is one.
    fn integer_value(&self, id: IntegerId) -> (value: Option<i64>)
        ensures
            match value {
                Some(i) => value_at(self.values(), ValueId(id.0)) == Some(
                    ValueData::<F>::Integer(i),
                ),
                None => !(value_at(self.values(), ValueId(id.0)) matches Some(
                    ValueData::Integer(_),
                )),
            },
    {
        match self.value_opt(ValueId(id.0)) {
            Some(ValueData::Integer(i)) => Some(*i),
            _ => None,
        }
    }

    /// The value under `id`, to be changed in place; it must be there.
    fn value_mut(&mut self, id: ValueId) -> (data: &mut ValueData<F>)
        requires
            value_at(old(self).values(), id) is Some,
        ensures
            value_at(old(self).values(), id) == Some(*data),
            final(self).values() == old(self).values().update(id.0 as int, *final(data)),
    {
        self.value_mut_opt(id).unwrap()
    }

    /// The integer under `id`, to be changed in place, if the value there
    /// is one.
    fn integer_value_mut<'a>(&'a mut self, id: IntegerId) -> (value: Option<&'a mut i64>) where
        F: 'a,

        ensures
            match value {
                Some(i) => {
                    &&& value_at(old(self).values(), ValueId(id.0)) == Some(
                        ValueData::<F>::Integer(*i),
                    )
                    &&& final(self).values() == old(self).values().update(
                        id.0 as int,
                        ValueData::<F>::Integer(*final(i)),
                    )
                },
                None => {
                    &&& !(value_at(old(self).values(), ValueId(id.0)) matches Some(
                        ValueData::Integer(_),
                    ))
                    &&& final(self).values() == old(self).values()
                },
            },
    {
        match self.value_mut_opt(ValueId(id.0)) {
            Some(ValueData::Integer(i)) => Some(i),
            _ => None,
        }
    }

    /// The floating-point number under `id`, if the value there is one.
    fn float_value(&self, id: FloatId) -> (value: Option<&F>)
        ensures
            match value {
                Some(f) => value_at(self.values(), ValueId(id.0)) == Some(
                    ValueData::<F>::Float(*f),
                ),
                None => !(value_at(self.values(), ValueId(id.0)) matches Some(ValueData::Float(_))),
            },
    {
        match self.value_opt(ValueId(id.0)) {
            Some(ValueData::Float(f)) => Some(f),
            _ => None,
        }
    }

    /// The string under `id`, if the value there is one.
    fn str_value<'a>(&'a self, id: StringId) -> (value: Option<&'a str>) where F: 'a
        ensures
            match value {
                Some(s) => value_at(self.values(), ValueId(id.0)) matches Some(ValueData::Str(text))
                    && text@ == s@,
                None => !(value_at(self.values(), ValueId(id.0)) matches Some(ValueData::Str(_))),
            },
    {
        match self.value_opt(ValueId(id.0)) {
            Some(ValueData::Str(s)) => Some(s.as_str()),
            _ => None,
        }
    }

    /// The boolean under `id`, if the value there is one.
    fn boolean_value(&self, id: BooleanId) -> (value: Option<bool>)
        ensures
            match value {
                Some(b) => value_at(self.values(), ValueId(id.0)) == Some(
                    ValueData::<F>::Boolean(b),
                ),
                None => !(value_at(self.values(), ValueId(id.0)) matches Some(
                    ValueData::Boolean(_),
                )),
            },
    {
        match self.value_opt(ValueId(id.0)) {
            Some(ValueData::Boolean(b)) => Some(*b),
            _ => None,
        }
    }

    /// The floating-point number under `id`, to be changed in place, if the value there
    /// is one.
    fn float_value_mut<'a>(&'a mut self, id: FloatId) -> (value: Option<&'a mut F>) where
        F: 'a,

        ensures
            match value {
                Some(v) => {
                    &&& value_at(old(self).values(), ValueId(id.0)) == Some(
                        ValueData::<F>::Float(*v),
                    )
                    &&& final(self).values() == old(self).values().update(
                        id.0 as int,
                        ValueData::<F>::Float(*final(v)),
                    )
                },
                None => {
                    &&& !(value_at(old(self).values(), ValueId(id.0)) matches Some(
                        ValueData::Float(_),
                    ))
                    &&& final(self).values() == old(self).values()
                },
            },
    {
        match self.value_mut_opt(ValueId(id.0)) {
            Some(ValueData::Float(v)) => Some(v),
            _ => None,
        }
    }

    /// The boolean under `id`, to be changed in place, if the value there
    /// is one.
    fn boolean_value_mut<'a>(&'a mut self, id: BooleanId) -> (value: Option<&'a mut bool>) where
        F: 'a,

        ensures
            match value {
                Some(v) => {
                    &&& value_at(old(self).values(), ValueId(id.0)) == Some(
                        ValueData::<F>::Boolean(*v),
                    )
                    &&& final(self).values() == old(self).values().update(
                        id.0 as int,
                        ValueData::<F>::Boolean(*final(v)),
                    )
                },
                None => {
                    &&& !(value_at(old(self).values(), ValueId(id.0)) matches Some(
                        ValueData::Boolean(_),
                    ))
                    &&& final(self).values() == old(self).values()
                },
            },
    {
        match self.value_mut_opt(ValueId(id.0)) {
            Some(ValueData::Boolean(v)) => Some(v),
            _ => None,
        }
    }

    /// The string under `id`, to be changed in place, if the value there
    /// is one.
    fn str_value_mut<'a>(&'a mut self, id: StringId) -> (value: Option<&'a mut String>) where
        F: 'a,

        ensures
            match value {
                Some(v) => {
                    &&& value_at(old(self).values(), ValueId(id.0)) == Some(
                        ValueData::<F>::Str(*v),
                    )
                    &&& final(self).values() == old(self).values().update(
                        id.0 as int,
                        ValueData::<F>::Str(*final(v)),
                    )
                },
                None => {
                    &&& !(value_at(old(self).values(), ValueId(id.0)) matches Some(
                        ValueData::Str(_),
                    ))
                    &&& final(self).values() == old(self).values()
                },
            },
    {
        match self.value_mut_opt(ValueId(id.0)) {
            Some(ValueData::Str(v)) => Some(v),
            _ => None,
        }
    }
}

/// The value store that keeps its values in a vector.
#[derive(Debug)]
pub struct DefaultValueStore<F>(Vec<ValueData<F>>);

impl<F> DefaultValueStore<F> {
    /// A store without values.
    pub fn new() -> (store: DefaultValueStore<F>)
        ensures
            store.values() == Seq::<ValueData<F>>::empty(),
    {
        DefaultValueStore(Vec::new())
    }

    /// Puts `data` behind the values in the store and gives its
    /// identifier, or gives `data` back where the store holds more values
    /// than there are identifiers.
    pub fn try_store(&mut self, data: ValueData<F>) -> (r: Result<ValueId, ValueData<F>>)
        ensures
            match r {
                Ok(id) => {
                    &&& (*old(self)).values().len() <= u32::MAX
                    &&& (*final(self)).values() == (*old(self)).values().push(data)
                    &&& id.0 == (*old(self)).values().len()
                },
                Err(back) => {
                    &&& (*old(self)).values().len() > u32::MAX
                    &&& back == data
                    &&& (*final(self)).values() == (*old(self)).values()
                },
            },
    {
        if self.0.len() <= u32::MAX as usize {
            Ok(self.store(data))
        } else {
            Err(data)
        }
    }
}

impl<F> Default for DefaultValueStore<F> {
    fn default() -> (store: DefaultValueStore<F>)
        ensures
            store.values() == Seq::<ValueData<F>>::empty(),
    {
        Self::new()
    }
}

impl<F> ValueStore<F> for DefaultValueStore<F> {
    closed spec fn values(&self) -> Seq<ValueData<F>> {
        self.0@
    }

    fn store(&mut self, data: ValueData<F>) -> (id: ValueId) {
        let id = ValueId(self.0.len() as u32);
        self.0.push(data);
        id
    }

    fn value_opt(&self, id: ValueId) -> (data: Option<&ValueData<F>>) {
        let index: usize = id.0 as usize;
        if index < self.0.len() {
            Some(&self.0[index])
        } else {
            None
        }
    }

    fn value_mut_opt(&mut self, id: ValueId) -> (data: Option<&mut ValueData<F>>) {
        let index: usize = id.0 as usize;
        if index < self.0.len() {
            Some(&mut self.0[index])
        } else {
            None
        }
    }

    fn update(&mut self, id: ValueId, value: ValueData<F>) -> (previous: Option<ValueData<F>>) {
        let index: usize = id.0 as usize;
        if index < self.0.len() {
            let mut value = value;
            self.0.set_and_swap(index, &mut value);
            Some(value)
        } else {
            None
        }
    }
}

impl<F, T: ValueStore<F>> ValueStore<F> for &mut T {
    open spec fn values(&self) -> Seq<ValueData<F>> {
        (**self).values()
    }

    fn store(&mut self, data: ValueData<F>) -> (id: ValueId) {
        (**self).store(data)
    }

    fn value_opt(&self, id: ValueId) -> (data: Option<&ValueData<F>>) {
        (**self).value_opt(id)
    }

    fn value_mut_opt(&mut self, id: ValueId) -> (data: Option<&mut ValueData<F>>) {
        (**self).value_mut_opt(id)
    }

    fn update(&mut self, id: ValueId, value: ValueData<F>) -> (previous: Option<ValueData<F>>) {
        (**self).update(id, value)
    }
}

} // verus!
