use vstd::prelude::*;
use crate::value::Error;

verus! {

/// One object of the engine's heap.
#[derive(Clone, Copy, Debug, PartialEq, Eq, Structural)]
pub struct ObjectRecord {
    /// The object's prototype, by handle.
    pub proto: Option<usize>,
    pub function: bool,
    /// Whether the object may be called with `new`.
    pub constructor: bool,
}

/// The parts of the engine that the adapters and modules reach: its object
/// heap, its registry of class prototypes, and its supply of module handles.
pub struct Engine {
    pub objects: Vec<ObjectRecord>,
    /// The registered prototype of each class, by class id.
    pub classes: Vec<usize>,
    /// The handle that the next module record gets.
    pub next_module: u64,
}

/// The prototype of object `id`, or the error of a failed resolution.
pub open spec fn spec_get_prototype(objects: Seq<ObjectRecord>, id: usize) -> Result<usize, Error> {
    if id < objects.len() && objects[id as int].proto is Some {
        Ok(objects[id as int].proto->Some_0)
    } else {
        Err(Error::Prototype)
    }
}

/// The registered prototype of class `class`.
pub open spec fn spec_class_prototype(classes: Seq<usize>, class: usize) -> Result<usize, Error> {
    if class < classes.len() {
        Ok(classes[class as int])
    } else {
        Err(Error::Prototype)
    }
}

/// `objects` with the prototype of object `id` set to `proto`.
pub open spec fn with_prototype(objects: Seq<ObjectRecord>, id: usize, proto: usize) -> Seq<ObjectRecord> {
    objects.update(id as int, ObjectRecord { proto: Some(proto), ..objects[id as int] })
}

impl Engine {
    pub fn new() -> (r: Engine)
        ensures
            r.objects@.len() == 0,
            r.classes@.len() == 0,
            r.next_module == 0,
    {
        Engine { objects: Vec::new(), classes: Vec::new(), next_module: 0 }
    }

    /// Allocates an object and returns its handle.
    pub fn new_object(&mut self, proto: Option<usize>, function: bool) -> (r: usize)
        ensures
            r == old(self).objects@.len(),
            final(self).objects@ == old(self).objects@.push(
                (ObjectRecord { proto, function, constructor: false }),
            ),
            final(self).classes == old(self).classes,
            final(self).next_module == old(self).next_module,
    {
        let id = self.objects.len();
        self.objects.push(ObjectRecord { proto, function, constructor: false });
        id
    }

    /// Registers `proto` as the prototype of a new class and returns the class id.
    pub fn register_class(&mut self, proto: usize) -> (r: usize)
        ensures
            r == old(self).classes@.len(),
            final(self).classes@ == old(self).classes@.push(proto),
            final(self).objects == old(self).objects,
            final(self).next_module == old(self).next_module,
    {
        let id = self.classes.len();
        self.classes.push(proto);
        id
    }

    pub fn get_prototype(&self, id: usize) -> (r: Result<usize, Error>)
        ensures
            r == spec_get_prototype(self.objects@, id),
    {
        if id < self.objects.len() {
            match self.objects[id].proto {
                Some(p) => Ok(p),
                None => Err(Error::Prototype),
            }
        } else {
            Err(Error::Prototype)
        }
    }

    pub fn class_prototype(&self, class: usize) -> (r: Result<usize, Error>)
        ensures
            r == spec_class_prototype(self.classes@, class),
    {
        if class < self.classes.len() {
            Ok(self.classes[class])
        } else {
            Err(Error::Prototype)
        }
    }

    /// Sets the prototype of object `id`; fails when no such object exists.
    pub fn set_prototype(&mut self, id: usize, proto: usize) -> (r: Result<(), Error>)
        ensures
            id < old(self).objects@.len() ==> r is Ok && final(self).objects@ == with_prototype(
                old(self).objects@,
                id,
                proto,
            ),
            id >= old(self).objects@.len() ==> r == Err::<(), Error>(Error::Prototype) && *final(self)
                == *old(self),
            final(self).classes == old(self).classes,
            final(self).next_module == old(self).next_module,
    {
        if id < self.objects.len() {
            let rec = self.objects[id];
            self.objects.set(id, ObjectRecord { proto: Some(proto), ..rec });
            Ok(())
        } else {
            Err(Error::Prototype)
        }
    }

    /// Marks object `id` as callable with `new`; does nothing when no such
    /// object exists.
    pub fn set_constructor(&mut self, id: usize, flag: bool)
        ensures
            id < old(self).objects@.len() ==> final(self).objects@ == old(self).objects@.update(
                id as int,
                ObjectRecord { constructor: flag, ..old(self).objects@[id as int] },
            ),
            id >= old(self).objects@.len() ==> final(self).objects@ == old(self).objects@,
            final(self).classes == old(self).classes,
            final(self).next_module == old(self).next_module,
    {
        if id < self.objects.len() {
            let rec = self.objects[id];
            self.objects.set(id, ObjectRecord { constructor: flag, ..rec });
        }
    }

    /// Hands out a fresh module handle, or fails when none is left.
    pub fn alloc_module(&mut self) -> (r: Result<u64, Error>)
        ensures
            old(self).next_module < u64::MAX ==> r == Ok::<u64, Error>(old(self).next_module)
                && final(self).next_module == old(self).next_module + 1,
            old(self).next_module == u64::MAX ==> r == Err::<u64, Error>(Error::Allocation)
                && final(self).next_module == old(self).next_module,
            final(self).objects == old(self).objects,
            final(self).classes == old(self).classes,
    {
        if self.next_module < u64::MAX {
            let id = self.next_module;
            self.next_module = id + 1;
            Ok(id)
        } else {
            Err(Error::Allocation)
        }
    }
}

} // verus!
