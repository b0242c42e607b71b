//! Type-erased variables and their conversion into typed handles.
use vstd::prelude::*;
use crate::raw::{Variable, VariableView};
use crate::read::ReadVariable;
use crate::read_array::ReadArrayVariable;
use crate::typing::{Direction, Element, ScalarType, VariableType};
use crate::write::WriteVariable;
use crate::write_array::WriteArrayVariable;

verus! {

/// A variable whose direction and element type are known only at run time.
pub struct AnyVariable {
    raw: Variable,
    type_: VariableType,
    dir: Direction,
}

impl View for AnyVariable {
    type V = VariableView;

    closed spec fn view(&self) -> VariableView {
        self.raw@
    }
}

/// Whether a scalar type stands for the element type `T`.
pub open spec fn scalar_is<T: Element>(s: ScalarType) -> bool {
    s.spec_type_id() == Some(T::spec_id())
}

fn scalar_matches<T: Element>(s: ScalarType) -> (r: bool)
    ensures
        r == scalar_is::<T>(s),
{
    match s.type_id() {
        Some(id) => id == T::element_id(),
        None => false,
    }
}

impl AnyVariable {
    pub closed spec fn spec_direction(&self) -> Direction {
        self.dir
    }

    pub closed spec fn spec_data_type(&self) -> VariableType {
        self.type_
    }

    pub open spec fn wf(&self) -> bool {
        &&& self@.wf()
        &&& !self@.locked
        &&& self.spec_data_type() == VariableType::spec_from_raw(self@.type_)
        &&& self.spec_direction() == Direction::spec_from_raw(self@.type_.dir)
    }

    /// Scalar read handle of element type `T` is available.
    pub open spec fn can_read<T: Element>(&self) -> bool {
        &&& self.spec_direction() == Direction::Read
        &&& self.spec_data_type() matches VariableType::Scalar { scal_type }
        &&& scalar_is::<T>(scal_type)
    }

    /// Scalar write handle of element type `T` is available.
    pub open spec fn can_write<T: Element>(&self) -> bool {
        &&& self.spec_direction() == Direction::Write
        &&& self.spec_data_type() matches VariableType::Scalar { scal_type }
        &&& scalar_is::<T>(scal_type)
    }

    /// Array read handle of element type `T` is available.
    pub open spec fn can_read_array<T: Element>(&self) -> bool {
        &&& self.spec_direction() == Direction::Read
        &&& self.spec_data_type() matches VariableType::Array { scal_type, max_len }
        &&& scalar_is::<T>(scal_type)
    }

    /// Array write handle of element type `T` is available.
    pub open spec fn can_write_array<T: Element>(&self) -> bool {
        &&& self.spec_direction() == Direction::Write
        &&& self.spec_data_type() matches VariableType::Array { scal_type, max_len }
        &&& scalar_is::<T>(scal_type)
    }

    /// Wraps a freshly set-up variable, taking its lock briefly to snapshot the type.
    pub fn new(raw: Variable) -> (r: AnyVariable)
        requires
            raw@.wf(),
            !raw@.locked,
        ensures
            r.wf(),
            r@ == (VariableView {
                lock_count: raw@.lock_count + 1,
                unlock_count: raw@.unlock_count + 1,
                ..raw@
            }),
    {
        let mut raw = raw;
        raw.lock();
        let raw_type = raw.data_type();
        raw.unlock();
        AnyVariable {
            raw,
            type_: VariableType::from_raw(raw_type),
            dir: Direction::from_raw(raw_type.dir),
        }
    }

    pub fn name(&self) -> (r: String)
        ensures
            r@ == self@.name,
    {
        self.raw.name()
    }

    pub fn direction(&self) -> (r: Direction)
        ensures
            r == self.spec_direction(),
    {
        self.dir
    }

    pub fn data_type(&self) -> (r: VariableType)
        ensures
            r == self.spec_data_type(),
    {
        self.type_
    }

    pub fn raw(&self) -> (r: &Variable)
        ensures
            r@ == self@,
    {
        &self.raw
    }

    /// The host's side of the variable.
    pub fn raw_mut(&mut self) -> (r: &mut Variable)
        ensures
            r@ == old(self)@,
            final(self)@ == final(r)@,
            final(self).spec_data_type() == old(self).spec_data_type(),
            final(self).spec_direction() == old(self).spec_direction(),
    {
        &mut self.raw
    }

    /// Turns the variable into a scalar read handle, or hands it back unchanged.
    pub fn downcast_read<T: Element>(self) -> (r: Result<ReadVariable<T>, AnyVariable>)
        requires
            self.wf(),
        ensures
            r is Ok <==> self.can_read::<T>(),
            r matches Ok(h) ==> h@ == self@ && h.wf(),
            r matches Err(v) ==> v == self,
    {
        match self.dir {
            Direction::Read => match self.type_ {
                VariableType::Scalar { scal_type } => {
                    if scalar_matches::<T>(scal_type) {
                        Ok(ReadVariable::from_raw(self.raw))
                    } else {
                        Err(self)
                    }
                },
                _ => Err(self),
            },
            Direction::Write => Err(self),
        }
    }

    /// Turns the variable into a scalar write handle, or hands it back unchanged.
    pub fn downcast_write<T: Element>(self) -> (r: Result<WriteVariable<T>, AnyVariable>)
        requires
            self.wf(),
        ensures
            r is Ok <==> self.can_write::<T>(),
            r matches Ok(h) ==> h@ == self@ && h.wf(),
            r matches Err(v) ==> v == self,
    {
        match self.dir {
            Direction::Read => Err(self),
            Direction::Write => match self.type_ {
                VariableType::Scalar { scal_type } => {
                    if scalar_matches::<T>(scal_type) {
                        Ok(WriteVariable::from_raw(self.raw))
                    } else {
                        Err(self)
                    }
                },
                _ => Err(self),
            },
        }
    }

    /// Turns the variable into an array read handle, or hands it back unchanged.
    pub fn downcast_read_array<T: Element>(self) -> (r: Result<ReadArrayVariable<T>, AnyVariable>)
        requires
            self.wf(),
        ensures
            r is Ok <==> self.can_read_array::<T>(),
            r matches Ok(h) ==> h@ == self@ && h.wf() && !h@.locked,
            r matches Err(v) ==> v == self,
    {
        match self.dir {
            Direction::Read => match self.type_ {
                VariableType::Array { scal_type, max_len } => {
                    if scalar_matches::<T>(scal_type) {
                        Ok(ReadArrayVariable::from_raw(self.raw, max_len))
                    } else {
                        Err(self)
                    }
                },
                _ => Err(self),
            },
            Direction::Write => Err(self),
        }
    }

    /// Turns the variable into an array write handle, or hands it back unchanged.
    pub fn downcast_write_array<T: Element>(self) -> (r: Result<WriteArrayVariable<T>, AnyVariable>)
        requires
            self.wf(),
        ensures
            r is Ok <==> self.can_write_array::<T>(),
            r matches Ok(h) ==> h@ == self@ && h.wf() && !h@.locked,
            r matches Err(v) ==> v == self,
    {
        match self.dir {
            Direction::Read => Err(self),
            Direction::Write => match self.type_ {
                VariableType::Array { scal_type, max_len } => {
                    if scalar_matches::<T>(scal_type) {
                        Ok(WriteArrayVariable::from_raw(self.raw, max_len))
                    } else {
                        Err(self)
                    }
                },
                _ => Err(self),
            },
        }
    }
}

/// At most one of the four downcasts of a variable succeeds, whatever element types they ask for.
pub proof fn lemma_downcast_exclusive<A: Element, B: Element, C: Element, D: Element>(
    v: AnyVariable,
)
    requires
        v.wf(),
    ensures
        (if v.can_read::<A>() { 1int } else { 0 }) + (if v.can_write::<B>() { 1int } else { 0 })
            + (if v.can_read_array::<C>() { 1int } else { 0 }) + (if v.can_write_array::<D>() {
            1int
        } else {
            0
        }) <= 1,
{
}

/// Within one kind of handle, a variable fits at most one element type.
pub proof fn lemma_downcast_single_type<A: Element, B: Element>(v: AnyVariable)
    requires
        v.wf(),
        A::spec_id() != B::spec_id(),
    ensures
        !(v.can_read::<A>() && v.can_read::<B>()),
        !(v.can_write::<A>() && v.can_write::<B>()),
        !(v.can_read_array::<A>() && v.can_read_array::<B>()),
        !(v.can_write_array::<A>() && v.can_write_array::<B>()),
{
}

/// Conversion of a type-erased variable into a typed handle.
pub trait Downcast<V>: Sized {
    /// The value may be converted at all.
    spec fn ready(&self) -> bool;

    /// The conversion into `V` succeeds.
    spec fn fits(&self) -> bool;

    /// Converts into `V`, or hands the value back when it does not fit.
    fn downcast(self) -> (r: Result<V, Self>)
        requires
            self.ready(),
        ensures
            r is Ok <==> self.fits(),
            r matches Err(v) ==> v == self,
    ;
}

impl<T: Element> Downcast<ReadVariable<T>> for AnyVariable {
    open spec fn ready(&self) -> bool {
        self.wf()
    }

    open spec fn fits(&self) -> bool {
        self.can_read::<T>()
    }

    fn downcast(self) -> (r: Result<ReadVariable<T>, AnyVariable>) {
        self.downcast_read::<T>()
    }
}

impl<T: Element> Downcast<WriteVariable<T>> for AnyVariable {
    open spec fn ready(&self) -> bool {
        self.wf()
    }

    open spec fn fits(&self) -> bool {
        self.can_write::<T>()
    }

    fn downcast(self) -> (r: Result<WriteVariable<T>, AnyVariable>) {
        self.downcast_write::<T>()
    }
}

impl<T: Element> Downcast<ReadArrayVariable<T>> for AnyVariable {
    open spec fn ready(&self) -> bool {
        self.wf()
    }

    open spec fn fits(&self) -> bool {
        self.can_read_array::<T>()
    }

    fn downcast(self) -> (r: Result<ReadArrayVariable<T>, AnyVariable>) {
        self.downcast_read_array::<T>()
    }
}

impl<T: Element> Downcast<WriteArrayVariable<T>> for AnyVariable {
    open spec fn ready(&self) -> bool {
        self.wf()
    }

    open spec fn fits(&self) -> bool {
        self.can_write_array::<T>()
    }

    fn downcast(self) -> (r: Result<WriteArrayVariable<T>, AnyVariable>) {
        self.downcast_write_array::<T>()
    }
}

} // verus!
