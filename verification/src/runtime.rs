//! A deterministic model of a reference-counted, message-passing object
//! runtime.
//!
//! The model keeps a store of classes and objects, and counts every
//! allocation, initialization, copy, retain, release and deallocation event,
//! so that the dispatch layer's retain-count bookkeeping can be stated and
//! proved exactly. Message sends follow the selector-family conventions the
//! dispatch layer relies on: a `new`-family send allocates and initializes a
//! fresh object, an `alloc`-family send allocates raw storage, an
//! `init`-family send consumes an allocation, a `copy`-family send produces a
//! fresh copy, and a general send answers with its receiver, unretained. A
//! class can be told to answer a given selector with nil, which is how null
//! results are exercised.

use vstd::prelude::*;

use crate::sel::Sel;

verus! {

/// Event counters of the model runtime.
#[derive(Clone, Copy, PartialEq, Eq, Structural, Debug)]
pub struct Counters {
    pub alloc: u64,
    pub init: u64,
    pub copy: u64,
    pub mutable_copy: u64,
    pub retain: u64,
    pub release: u64,
    pub dealloc: u64,
}

/// The mathematical value of the event counters.
#[verifier::ext_equal]
pub ghost struct CountersModel {
    pub alloc: int,
    pub init: int,
    pub copy: int,
    pub mutable_copy: int,
    pub retain: int,
    pub release: int,
    pub dealloc: int,
}

impl View for Counters {
    type V = CountersModel;

    open spec fn view(&self) -> CountersModel {
        CountersModel {
            alloc: self.alloc as int,
            init: self.init as int,
            copy: self.copy as int,
            mutable_copy: self.mutable_copy as int,
            retain: self.retain as int,
            release: self.release as int,
            dealloc: self.dealloc as int,
        }
    }
}

impl CountersModel {
    /// Every counter can still be incremented without overflowing its
    /// machine representation.
    pub open spec fn can_increment(&self) -> bool {
        &&& self.alloc < u64::MAX
        &&& self.init < u64::MAX
        &&& self.copy < u64::MAX
        &&& self.mutable_copy < u64::MAX
        &&& self.retain < u64::MAX
        &&& self.release < u64::MAX
        &&& self.dealloc < u64::MAX
    }
}

/// One reference-counted object of the model store. An object with retain
/// count zero has been deallocated; object indices are never reused.
pub struct ObjectRec {
    pub class: usize,
    pub retain_count: u64,
    pub initialized: bool,
}

/// The mathematical value of an object record.
#[verifier::ext_equal]
pub ghost struct ObjectModel {
    pub class: int,
    pub retain_count: int,
    pub initialized: bool,
}

impl View for ObjectRec {
    type V = ObjectModel;

    open spec fn view(&self) -> ObjectModel {
        ObjectModel {
            class: self.class as int,
            retain_count: self.retain_count as int,
            initialized: self.initialized,
        }
    }
}

/// One class of the model runtime: a name, and the selectors this class
/// answers with nil.
pub struct ClassRec {
    pub name: String,
    pub nil_selectors: Vec<String>,
}

/// The mathematical value of a class record.
#[verifier::ext_equal]
pub ghost struct ClassModel {
    pub name: Seq<char>,
    pub nil_selectors: Seq<Seq<char>>,
}

impl View for ClassRec {
    type V = ClassModel;

    open spec fn view(&self) -> ClassModel {
        ClassModel {
            name: self.name@,
            nil_selectors: self.nil_selectors@.map_values(|s: String| s@),
        }
    }
}

impl ClassModel {
    /// Whether this class answers the given selector with nil.
    pub open spec fn answers_nil(&self, sel: Seq<char>) -> bool {
        exists|i: int| 0 <= i < self.nil_selectors.len() && self.nil_selectors[i] == sel
    }
}

/// The mathematical value of the whole model runtime.
#[verifier::ext_equal]
pub ghost struct RuntimeModel {
    pub classes: Seq<ClassModel>,
    pub objects: Seq<ObjectModel>,
    pub counters: CountersModel,
}

/// The receiver of a message send: nil, an instance, or a class.
#[derive(Clone, Copy)]
pub enum Receiver {
    Nil,
    Instance(usize),
    Class(usize),
}

impl Receiver {
    /// A non-nil receiver that is present in the model: an instance must be a
    /// live, initialized object, and a class must be registered.
    pub open spec fn wf_in(&self, m: RuntimeModel) -> bool {
        match *self {
            Receiver::Nil => true,
            Receiver::Instance(o) => {
                &&& (o as int) < m.objects.len()
                &&& m.objects[o as int].retain_count > 0
                &&& m.objects[o as int].initialized
            },
            Receiver::Class(c) => (c as int) < m.classes.len(),
        }
    }

    /// The class a non-nil receiver belongs to: the class itself for a class
    /// receiver, the instance's class otherwise.
    pub open spec fn spec_class_in(&self, m: RuntimeModel) -> int {
        match *self {
            Receiver::Nil => 0,
            Receiver::Instance(o) => m.objects[o as int].class,
            Receiver::Class(c) => c as int,
        }
    }
}

impl RuntimeModel {
    /// Every object's class is registered.
    pub open spec fn wf(&self) -> bool {
        forall|o: int| 0 <= o < self.objects.len() ==> 0 <= #[trigger] self.objects[o].class
            < self.classes.len()
    }

    /// Whether the class of the given non-nil receiver answers the given
    /// selector with nil.
    pub open spec fn answers_nil_to(&self, recv: Receiver, sel: Seq<char>) -> bool {
        self.classes[recv.spec_class_in(*self)].answers_nil(sel)
    }
}

/// The model after one fresh object of the given class was added with the
/// given initialization state and the alloc counter (and, for an initialized
/// object, the init counter) advanced.
pub open spec fn spec_push_object(m: RuntimeModel, class: int, initialized: bool) -> RuntimeModel {
    RuntimeModel {
        objects: m.objects.push(
            ObjectModel { class, retain_count: 1, initialized },
        ),
        counters: CountersModel {
            alloc: m.counters.alloc + 1,
            init: if initialized {
                m.counters.init + 1
            } else {
                m.counters.init
            },
            ..m.counters
        },
        ..m
    }
}

/// The effect of a `new`-family send: nil and nil-answering receivers yield
/// no object and leave the model unchanged; otherwise a fresh, initialized,
/// singly-retained object of the receiver's class is handed back, after one
/// allocation event and one initialization event.
pub open spec fn spec_send_new(m: RuntimeModel, recv: Receiver, sel: Seq<char>) -> (
    RuntimeModel,
    Option<int>,
) {
    match recv {
        Receiver::Nil => (m, None),
        _ => {
            if m.answers_nil_to(recv, sel) {
                (m, None)
            } else {
                (spec_push_object(m, recv.spec_class_in(m), true), Some(m.objects.len() as int))
            }
        },
    }
}

/// The effect of an `alloc`-family send to a class: a nil-answering class
/// yields no object; otherwise a fresh, uninitialized, singly-retained object
/// of that class is handed back after one allocation event.
pub open spec fn spec_send_alloc(m: RuntimeModel, cls: int, sel: Seq<char>) -> (
    RuntimeModel,
    Option<int>,
) {
    if m.classes[cls].answers_nil(sel) {
        (m, None)
    } else {
        (spec_push_object(m, cls, false), Some(m.objects.len() as int))
    }
}

/// The effect of releasing one retain-count claim on a live object: one
/// release event, and one deallocation event when the claim was the last.
pub open spec fn spec_release(m: RuntimeModel, o: int) -> RuntimeModel {
    RuntimeModel {
        objects: m.objects.update(
            o,
            ObjectModel { retain_count: m.objects[o].retain_count - 1, ..m.objects[o] },
        ),
        counters: CountersModel {
            release: m.counters.release + 1,
            dealloc: if m.objects[o].retain_count == 1 {
                m.counters.dealloc + 1
            } else {
                m.counters.dealloc
            },
            ..m.counters
        },
        ..m
    }
}

/// The effect of retaining a live object: its retain count and the retain
/// counter each advance by one.
pub open spec fn spec_retain(m: RuntimeModel, o: int) -> RuntimeModel {
    RuntimeModel {
        objects: m.objects.update(
            o,
            ObjectModel { retain_count: m.objects[o].retain_count + 1, ..m.objects[o] },
        ),
        counters: CountersModel { retain: m.counters.retain + 1, ..m.counters },
        ..m
    }
}

/// The effect of an `init`-family send. A nil allocation is tolerated and
/// yields nil with no effect. A live allocation whose class answers the
/// selector with nil is consumed — the failed initializer releases it — and
/// yields nil; otherwise the same object becomes initialized after one
/// initialization event.
pub open spec fn spec_send_init(m: RuntimeModel, obj: Option<int>, sel: Seq<char>) -> (
    RuntimeModel,
    Option<int>,
) {
    match obj {
        None => (m, None),
        Some(o) => {
            if m.classes[m.objects[o].class].answers_nil(sel) {
                (spec_release(m, o), None)
            } else {
                (
                    RuntimeModel {
                        objects: m.objects.update(
                            o,
                            ObjectModel { initialized: true, ..m.objects[o] },
                        ),
                        counters: CountersModel { init: m.counters.init + 1, ..m.counters },
                        ..m
                    },
                    Some(o),
                )
            }
        },
    }
}

/// The effect of a `copy`- or `mutableCopy`-family send: nil and
/// nil-answering receivers yield no object; otherwise a fresh, initialized,
/// singly-retained copy of the receiver's class is handed back, after one
/// copy (or mutable-copy) event, one allocation event and one initialization
/// event.
pub open spec fn spec_send_copy(m: RuntimeModel, recv: Receiver, sel: Seq<char>, mutable: bool) -> (
    RuntimeModel,
    Option<int>,
) {
    match recv {
        Receiver::Nil => (m, None),
        _ => {
            if m.answers_nil_to(recv, sel) {
                (m, None)
            } else {
                let pushed = spec_push_object(m, recv.spec_class_in(m), true);
                (
                    RuntimeModel {
                        counters: if mutable {
                            CountersModel {
                                mutable_copy: pushed.counters.mutable_copy + 1,
                                ..pushed.counters
                            }
                        } else {
                            CountersModel { copy: pushed.counters.copy + 1, ..pushed.counters }
                        },
                        ..pushed
                    },
                    Some(m.objects.len() as int),
                )
            }
        },
    }
}

/// The effect of a general (non-family) send: a nil receiver, a class
/// receiver and a nil-answering receiver yield no object; an instance answers
/// with itself, unretained — claiming the result is the caller's business.
pub open spec fn spec_send_other(m: RuntimeModel, recv: Receiver, sel: Seq<char>) -> (
    RuntimeModel,
    Option<int>,
) {
    match recv {
        Receiver::Instance(o) => {
            if m.answers_nil_to(recv, sel) {
                (m, None)
            } else {
                (m, Some(o as int))
            }
        },
        _ => (m, None),
    }
}

/// The view of an optional object index.
pub open spec fn opt_index(r: Option<usize>) -> Option<int> {
    match r {
        Some(o) => Some(o as int),
        None => None,
    }
}

/// The model runtime: a class table, an object store and event counters.
pub struct Runtime {
    pub classes: Vec<ClassRec>,
    pub objects: Vec<ObjectRec>,
    pub counters: Counters,
}

impl View for Runtime {
    type V = RuntimeModel;

    open spec fn view(&self) -> RuntimeModel {
        RuntimeModel {
            classes: self.classes@.map_values(|c: ClassRec| c@),
            objects: self.objects@.map_values(|o: ObjectRec| o@),
            counters: self.counters@,
        }
    }
}

impl Runtime {
    /// An empty runtime: no classes, no objects, all counters zero.
    pub fn new() -> (rt: Runtime)
        ensures
            rt@.classes.len() == 0,
            rt@.objects.len() == 0,
            rt@.counters == (CountersModel {
                alloc: 0,
                init: 0,
                copy: 0,
                mutable_copy: 0,
                retain: 0,
                release: 0,
                dealloc: 0,
            }),
            rt@.wf(),
    {
        let rt = Runtime {
            classes: Vec::new(),
            objects: Vec::new(),
            counters: Counters {
                alloc: 0,
                init: 0,
                copy: 0,
                mutable_copy: 0,
                retain: 0,
                release: 0,
                dealloc: 0,
            },
        };
        proof {
            assert(rt@.classes =~= Seq::<ClassModel>::empty());
            assert(rt@.objects =~= Seq::<ObjectModel>::empty());
        }
        rt
    }

    /// Registers a class under the given name and returns its index.
    pub fn register_class(&mut self, name: &str) -> (c: usize)
        requires
            old(self)@.wf(),
            old(self)@.classes.len() < usize::MAX,
        ensures
            final(self)@.wf(),
            c as int == old(self)@.classes.len(),
            final(self)@.classes == old(self)@.classes.push(
                ClassModel { name: name@, nil_selectors: Seq::empty() },
            ),
            final(self)@.objects == old(self)@.objects,
            final(self)@.counters == old(self)@.counters,
    {
        let c = self.classes.len();
        let rec = ClassRec { name: String::from_str(name), nil_selectors: Vec::new() };
        proof {
            assert(rec@.nil_selectors =~= Seq::<Seq<char>>::empty());
        }
        self.classes.push(rec);
        proof {
            assert(final(self)@.classes =~~= old(self)@.classes.push(
                ClassModel { name: name@, nil_selectors: Seq::empty() },
            ));
            assert(final(self)@.objects =~= old(self)@.objects);
            assert(final(self)@.wf());
        }
        c
    }

    /// Tells a class to answer the given selector with nil from now on.
    pub fn set_answers_nil(&mut self, cls: usize, sel: &Sel)
        requires
            old(self)@.wf(),
            (cls as int) < old(self)@.classes.len(),
        ensures
            final(self)@.wf(),
            final(self)@.classes == old(self)@.classes.update(
                cls as int,
                ClassModel {
                    nil_selectors: old(self)@.classes[cls as int].nil_selectors.push(sel@),
                    ..old(self)@.classes[cls as int]
                },
            ),
            final(self)@.objects == old(self)@.objects,
            final(self)@.counters == old(self)@.counters,
    {
        let name = String::from_str(sel.name());
        let rec = &mut self.classes[cls];
        rec.nil_selectors.push(name);
        proof {
            assert(final(self)@.classes =~~= old(self)@.classes.update(
                cls as int,
                ClassModel {
                    nil_selectors: old(self)@.classes[cls as int].nil_selectors.push(sel@),
                    ..old(self)@.classes[cls as int]
                },
            ));
            assert(final(self)@.objects =~= old(self)@.objects);
            assert(final(self)@.wf());
        }
    }

    /// Whether the given class answers the given selector with nil.
    pub fn class_answers_nil(&self, cls: usize, sel: &Sel) -> (r: bool)
        requires
            self@.wf(),
            (cls as int) < self@.classes.len(),
        ensures
            r == self@.classes[cls as int].answers_nil(sel@),
    {
        let list = &self.classes[cls].nil_selectors;
        let n = list.len();
        let mut j: usize = 0;
        while j < n
            invariant
                self@.wf(),
                (cls as int) < self@.classes.len(),
                n == list@.len(),
                j <= n,
                list@.map_values(|s: String| s@) == self@.classes[cls as int].nil_selectors,
                forall|i: int| 0 <= i < j ==> #[trigger] list@[i]@ != sel@,
            decreases n - j,
        {
            if sel.is_named(list[j].as_str()) {
                proof {
                    assert(self@.classes[cls as int].nil_selectors[j as int] == list@[j as int]@);
                }
                return true;
            }
            j = j + 1;
        }
        proof {
            assert(forall|i: int| 0 <= i < n ==> self@.classes[cls as int].nil_selectors[i]
                == #[trigger] list@[i]@);
        }
        false
    }

    /// Adds one fresh object of the given class to the store, counting one
    /// allocation event and, for an initialized object, one initialization
    /// event; hands back the object's index.
    fn push_object(&mut self, cls: usize, initialized: bool) -> (r: usize)
        requires
            old(self)@.wf(),
            (cls as int) < old(self)@.classes.len(),
            old(self)@.counters.can_increment(),
        ensures
            final(self)@ == spec_push_object(old(self)@, cls as int, initialized),
            r as int == old(self)@.objects.len(),
            final(self)@.wf(),
    {
        let r = self.objects.len();
        self.objects.push(ObjectRec { class: cls, retain_count: 1, initialized });
        self.counters.alloc = self.counters.alloc + 1;
        if initialized {
            self.counters.init = self.counters.init + 1;
        }
        proof {
            assert(final(self)@.objects =~= spec_push_object(old(self)@, cls as int, initialized).objects);
            assert(final(self)@ =~~= spec_push_object(old(self)@, cls as int, initialized));
        }
        r
    }

    /// Performs a `new`-family send: the receiver's class answers with a
    /// fresh, initialized, singly-retained object, or with nil.
    pub fn send_new(&mut self, recv: &Receiver, sel: &Sel) -> (r: Option<usize>)
        requires
            old(self)@.wf(),
            recv.wf_in(old(self)@),
            old(self)@.counters.can_increment(),
        ensures
            final(self)@ == spec_send_new(old(self)@, *recv, sel@).0,
            opt_index(r) == spec_send_new(old(self)@, *recv, sel@).1,
            final(self)@.wf(),
    {
        match recv {
            Receiver::Nil => None,
            Receiver::Instance(o) => {
                let cls = self.objects[*o].class;
                proof {
                    assert(old(self)@.objects[*o as int].class < old(self)@.classes.len());
                }
                if self.class_answers_nil(cls, sel) {
                    None
                } else {
                    Some(self.push_object(cls, true))
                }
            },
            Receiver::Class(c) => {
                if self.class_answers_nil(*c, sel) {
                    None
                } else {
                    Some(self.push_object(*c, true))
                }
            },
        }
    }

    /// Performs an `alloc`-family send to a class: the class answers with a
    /// fresh, uninitialized, singly-retained object, or with nil.
    pub fn send_alloc(&mut self, cls: usize, sel: &Sel) -> (r: Option<usize>)
        requires
            old(self)@.wf(),
            (cls as int) < old(self)@.classes.len(),
            old(self)@.counters.can_increment(),
        ensures
            final(self)@ == spec_send_alloc(old(self)@, cls as int, sel@).0,
            opt_index(r) == spec_send_alloc(old(self)@, cls as int, sel@).1,
            final(self)@.wf(),
    {
        if self.class_answers_nil(cls, sel) {
            None
        } else {
            Some(self.push_object(cls, false))
        }
    }

    /// Releases one retain-count claim on a live object, deallocating it when
    /// the claim was the last.
    pub fn release_at(&mut self, o: usize)
        requires
            old(self)@.wf(),
            (o as int) < old(self)@.objects.len(),
            old(self)@.objects[o as int].retain_count > 0,
            old(self)@.counters.can_increment(),
        ensures
            final(self)@ == spec_release(old(self)@, o as int),
            final(self)@.wf(),
    {
        let rec = &self.objects[o];
        let rc = rec.retain_count;
        let updated = ObjectRec {
            class: rec.class,
            retain_count: rc - 1,
            initialized: rec.initialized,
        };
        self.objects[o] = updated;
        self.counters.release = self.counters.release + 1;
        if rc == 1 {
            self.counters.dealloc = self.counters.dealloc + 1;
        }
        proof {
            assert(final(self)@.objects =~= spec_release(old(self)@, o as int).objects);
            assert(final(self)@ =~~= spec_release(old(self)@, o as int));
        }
    }

    /// Retains a live object: one more retain-count claim.
    pub fn retain_at(&mut self, o: usize)
        requires
            old(self)@.wf(),
            (o as int) < old(self)@.objects.len(),
            old(self)@.objects[o as int].retain_count > 0,
            old(self)@.objects[o as int].retain_count < u64::MAX,
            old(self)@.counters.can_increment(),
        ensures
            final(self)@ == spec_retain(old(self)@, o as int),
            final(self)@.wf(),
    {
        let rec = &self.objects[o];
        let updated = ObjectRec {
            class: rec.class,
            retain_count: rec.retain_count + 1,
            initialized: rec.initialized,
        };
        self.objects[o] = updated;
        self.counters.retain = self.counters.retain + 1;
        proof {
            assert(final(self)@.objects =~= spec_retain(old(self)@, o as int).objects);
            assert(final(self)@ =~~= spec_retain(old(self)@, o as int));
        }
    }

    /// Performs an `init`-family send on an allocation. A nil allocation is
    /// answered with nil; a failed initializer consumes its receiver.
    pub fn send_init(&mut self, obj: Option<usize>, sel: &Sel) -> (r: Option<usize>)
        requires
            old(self)@.wf(),
            obj matches Some(o) ==> (o as int) < old(self)@.objects.len() && old(self)@.objects[
                o as int
            ].retain_count > 0,
            old(self)@.counters.can_increment(),
        ensures
            final(self)@ == spec_send_init(old(self)@, opt_index(obj), sel@).0,
            opt_index(r) == spec_send_init(old(self)@, opt_index(obj), sel@).1,
            final(self)@.wf(),
    {
        match obj {
            None => None,
            Some(o) => {
                let cls = self.objects[o].class;
                proof {
                    assert(old(self)@.objects[o as int].class < old(self)@.classes.len());
                }
                if self.class_answers_nil(cls, sel) {
                    self.release_at(o);
                    None
                } else {
                    let rec = &self.objects[o];
                    let updated = ObjectRec {
                        class: rec.class,
                        retain_count: rec.retain_count,
                        initialized: true,
                    };
                    self.objects[o] = updated;
                    self.counters.init = self.counters.init + 1;
                    proof {
                        assert(final(self)@.objects =~= spec_send_init(
                            old(self)@,
                            opt_index(obj),
                            sel@,
                        ).0.objects);
                        assert(final(self)@ =~~= spec_send_init(old(self)@, opt_index(obj), sel@).0);
                    }
                    Some(o)
                }
            },
        }
    }

    /// Performs a `copy`- or `mutableCopy`-family send: the receiver answers
    /// with a fresh, initialized, singly-retained copy, or with nil.
    pub fn send_copy(&mut self, recv: &Receiver, sel: &Sel, mutable: bool) -> (r: Option<usize>)
        requires
            old(self)@.wf(),
            recv.wf_in(old(self)@),
            old(self)@.counters.can_increment(),
        ensures
            final(self)@ == spec_send_copy(old(self)@, *recv, sel@, mutable).0,
            opt_index(r) == spec_send_copy(old(self)@, *recv, sel@, mutable).1,
            final(self)@.wf(),
    {
        let cls: usize;
        match recv {
            Receiver::Nil => {
                return None;
            },
            Receiver::Instance(o) => {
                cls = self.objects[*o].class;
                proof {
                    assert(old(self)@.objects[*o as int].class < old(self)@.classes.len());
                }
            },
            Receiver::Class(c) => {
                cls = *c;
            },
        }
        if self.class_answers_nil(cls, sel) {
            None
        } else {
            let r = self.push_object(cls, true);
            if mutable {
                self.counters.mutable_copy = self.counters.mutable_copy + 1;
            } else {
                self.counters.copy = self.counters.copy + 1;
            }
            proof {
                assert(final(self)@ =~~= spec_send_copy(old(self)@, *recv, sel@, mutable).0);
            }
            Some(r)
        }
    }

    /// Claims a result that the general-send convention leaves unretained:
    /// retains it once. The model runtime never defers a release, so there is
    /// no pending autorelease to consume; claiming is a plain retain. Nil
    /// passes through untouched.
    pub fn retain_autoreleased(&mut self, obj: Option<usize>) -> (r: Option<usize>)
        requires
            old(self)@.wf(),
            old(self)@.counters.can_increment(),
            obj matches Some(o) ==> (o as int) < old(self)@.objects.len() && old(self)@.objects[
                o as int
            ].retain_count > 0 && old(self)@.objects[o as int].retain_count < u64::MAX,
        ensures
            final(self)@ == (match opt_index(obj) {
                Some(o) => spec_retain(old(self)@, o),
                None => old(self)@,
            }),
            r == obj,
            final(self)@.wf(),
    {
        match obj {
            Some(o) => {
                self.retain_at(o);
                Some(o)
            },
            None => None,
        }
    }

    /// Performs a general (non-family) send: an instance answers with itself,
    /// unretained, or with nil; nil and class receivers answer with nil.
    pub fn send_other(&mut self, recv: &Receiver, sel: &Sel) -> (r: Option<usize>)
        requires
            old(self)@.wf(),
            recv.wf_in(old(self)@),
        ensures
            final(self)@ == old(self)@,
            opt_index(r) == spec_send_other(old(self)@, *recv, sel@).1,
    {
        match recv {
            Receiver::Instance(o) => {
                let cls = self.objects[*o].class;
                proof {
                    assert(old(self)@.objects[*o as int].class < old(self)@.classes.len());
                }
                if self.class_answers_nil(cls, sel) {
                    None
                } else {
                    Some(*o)
                }
            },
            _ => None,
        }
    }
}

} // verus!
