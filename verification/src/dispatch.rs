//! Message dispatch with retain-count-correct handle wrapping.
//!
//! One strategy per retain-semantics category turns a raw send into a
//! correctly owned handle. The `new`, `alloc` and copy families hand back a
//! result the runtime has already retained, so the strategy only wraps it;
//! the `init` family consumes an allocation; the general category's result is
//! not retained by convention, so its strategy claims it explicitly right
//! after the call. A strategy whose call yields nil escalates to the failure
//! reporter of [`crate::report`]; the caller chooses, by the result type it
//! asks for, whether nil is handed through as `None` or turned into the
//! category's attributable failure message.

use vstd::prelude::*;
use vstd::utf8::encode_utf8;

use crate::family::in_family;
use crate::family::mutable_copy_family;
use crate::handles::opt_handle_index;
use crate::handles::Allocated;
use crate::handles::Id;
use crate::report::alloc_failed_msg;
use crate::report::copy_failed_msg;
use crate::report::init_failed_msg;
use crate::report::new_failed_msg;
use crate::report::opt_info;
use crate::report::other_failed_msg;
use crate::report::report_bracketed;
use crate::report::report_nil_receiver;
use crate::report::MsgSendIdFailed;
use crate::report::ReceiverInfo;
use crate::report::ReceiverInfoModel;
use crate::runtime::opt_index;
use crate::runtime::spec_release;
use crate::runtime::spec_retain;
use crate::runtime::spec_send_alloc;
use crate::runtime::spec_send_copy;
use crate::runtime::spec_send_init;
use crate::runtime::spec_send_new;
use crate::runtime::spec_send_other;
use crate::runtime::ObjectModel;
use crate::runtime::Receiver;
use crate::runtime::Runtime;
use crate::runtime::RuntimeModel;
use crate::sel::Sel;

verus! {

/// Marker for the retain semantics of a selector family. The parameter is
/// the category that [`crate::family::retain_semantics`] computes.
pub struct RetainSemantics<const INNER: u8> {}

/// The strategy for the `new` family.
pub type New = RetainSemantics<1>;

/// The strategy for the `alloc` family.
pub type Alloc = RetainSemantics<2>;

/// The strategy for the `init` family.
pub type Init = RetainSemantics<3>;

/// The strategy for the `copy` and `mutableCopy` families.
pub type CopyOrMutCopy = RetainSemantics<4>;

/// The strategy for every other selector.
pub type Other = RetainSemantics<5>;

/// What a dispatch hands back: either the raw optional handle itself, or a
/// result in which a nil answer has been replaced by the category's failure
/// message.
pub trait MaybeUnwrap: Sized {
    type Input: View<V = int>;

    /// How the value handed back relates to the raw optional handle (by the
    /// object index it claims) and to the failure message.
    spec fn unwrap_rel(res: Option<int>, msg: Seq<char>, r: Self) -> bool;

    /// Wraps the raw optional handle, building the failure report from the
    /// given context when the caller asked nil to be an error.
    fn maybe_unwrap<F: MsgSendIdFailed>(obj: Option<Self::Input>, args: F::Args) -> (r: Self)
        ensures
            Self::unwrap_rel(opt_handle_index(obj), F::failed_spec(args), r),
    ;
}

impl MaybeUnwrap for Option<Id> {
    type Input = Id;

    open spec fn unwrap_rel(res: Option<int>, msg: Seq<char>, r: Self) -> bool {
        opt_handle_index(r) == res
    }

    fn maybe_unwrap<F: MsgSendIdFailed>(obj: Option<Id>, _args: F::Args) -> (r: Self) {
        obj
    }
}

impl MaybeUnwrap for Result<Id, String> {
    type Input = Id;

    open spec fn unwrap_rel(res: Option<int>, msg: Seq<char>, r: Self) -> bool {
        match res {
            Some(o) => match r {
                Ok(h) => h@ == o,
                Err(_) => false,
            },
            None => match r {
                Ok(_) => false,
                Err(e) => e@ == msg,
            },
        }
    }

    fn maybe_unwrap<F: MsgSendIdFailed>(obj: Option<Id>, args: F::Args) -> (r: Self) {
        match obj {
            Some(h) => Ok(h),
            None => Err(F::failed(args)),
        }
    }
}

impl MaybeUnwrap for Option<Allocated> {
    type Input = Allocated;

    open spec fn unwrap_rel(res: Option<int>, msg: Seq<char>, r: Self) -> bool {
        opt_handle_index(r) == res
    }

    fn maybe_unwrap<F: MsgSendIdFailed>(obj: Option<Allocated>, _args: F::Args) -> (r: Self) {
        obj
    }
}

impl MaybeUnwrap for Result<Allocated, String> {
    type Input = Allocated;

    open spec fn unwrap_rel(res: Option<int>, msg: Seq<char>, r: Self) -> bool {
        match res {
            Some(o) => match r {
                Ok(h) => h@ == o,
                Err(_) => false,
            },
            None => match r {
                Ok(_) => false,
                Err(e) => e@ == msg,
            },
        }
    }

    fn maybe_unwrap<F: MsgSendIdFailed>(obj: Option<Allocated>, args: F::Args) -> (r: Self) {
        match obj {
            Some(h) => Ok(h),
            None => Err(F::failed(args)),
        }
    }
}

/// The diagnostic context a strategy captures about its receiver before the
/// call: nothing for nil, otherwise the class name and whether the send was
/// class-level.
pub open spec fn spec_receiver_info(m: RuntimeModel, recv: Receiver) -> Option<
    ReceiverInfoModel,
> {
    match recv {
        Receiver::Nil => None,
        Receiver::Instance(o) => Some(
            ReceiverInfoModel {
                class_name: m.classes[m.objects[o as int].class].name,
                is_metaclass: false,
            },
        ),
        Receiver::Class(c) => Some(
            ReceiverInfoModel { class_name: m.classes[c as int].name, is_metaclass: true },
        ),
    }
}

/// Captures the diagnostic context of a receiver.
fn receiver_info(rt: &Runtime, recv: &Receiver) -> (r: Option<ReceiverInfo>)
    requires
        rt@.wf(),
        recv.wf_in(rt@),
    ensures
        opt_info(r) == spec_receiver_info(rt@, *recv),
{
    match recv {
        Receiver::Nil => None,
        Receiver::Instance(o) => {
            proof {
                assert(rt@.objects[*o as int].class < rt@.classes.len());
            }
            let cls = rt.objects[*o].class;
            Some(ReceiverInfo { class_name: rt.classes[cls].name.clone(), is_metaclass: false })
        },
        Receiver::Class(c) => Some(
            ReceiverInfo { class_name: rt.classes[*c].name.clone(), is_metaclass: true },
        ),
    }
}

/// One dispatch strategy: performs the raw send for a receiver of type `T`
/// and wraps the result as a correctly owned handle of type `U`, or reports
/// the category's failure.
pub trait MsgSendId<T, U>: MsgSendIdFailed {
    /// What the strategy asks of its caller.
    spec fn send_requires(m: RuntimeModel, obj: T, sel: Sel) -> bool;

    /// The runtime after the dispatch, and the index of the object whose
    /// single fresh claim the dispatch hands back (nil when the call yielded
    /// no object).
    spec fn send_model(m: RuntimeModel, obj: T, sel: Seq<char>) -> (RuntimeModel, Option<int>);

    /// The message reported when the call yields nil.
    spec fn fail_msg(m: RuntimeModel, obj: T, sel: Seq<char>) -> Seq<char>;

    /// Performs one raw send and wraps the result per the category's
    /// ownership rule.
    fn send_message_id<R: MaybeUnwrap<Input = U>>(rt: &mut Runtime, obj: T, sel: &Sel) -> (r: R)
        requires
            Self::send_requires(old(rt)@, obj, *sel),
        ensures
            final(rt)@ == Self::send_model(old(rt)@, obj, sel@).0,
            final(rt)@.wf(),
            R::unwrap_rel(
                Self::send_model(old(rt)@, obj, sel@).1,
                Self::fail_msg(old(rt)@, obj, sel@),
                r,
            ),
    ;
}

impl MsgSendIdFailed for New {
    type Args = (Option<ReceiverInfo>, Sel);

    open spec fn failed_spec(args: Self::Args) -> Seq<char> {
        new_failed_msg(opt_info(args.0), args.1@)
    }

    fn failed(args: Self::Args) -> (r: String) {
        let (info, sel) = args;
        match info {
            Some(i) => {
                if i.is_metaclass {
                    if sel.is_named("new") {
                        let mut msg = String::from_str("failed creating new instance of ");
                        msg.append(i.class_name.as_str());
                        msg
                    } else {
                        report_bracketed(
                            String::from_str("failed creating new instance using +["),
                            i.class_name.as_str(),
                            &sel,
                        )
                    }
                } else {
                    report_bracketed(
                        String::from_str("unexpected NULL returned from -["),
                        i.class_name.as_str(),
                        &sel,
                    )
                }
            },
            None => report_nil_receiver(&sel),
        }
    }
}

impl MsgSendId<Receiver, Id> for New {
    open spec fn send_requires(m: RuntimeModel, obj: Receiver, sel: Sel) -> bool {
        &&& m.wf()
        &&& obj.wf_in(m)
        &&& m.counters.can_increment()
        &&& sel.spec_family() == 1
    }

    open spec fn send_model(m: RuntimeModel, obj: Receiver, sel: Seq<char>) -> (
        RuntimeModel,
        Option<int>,
    ) {
        spec_send_new(m, obj, sel)
    }

    open spec fn fail_msg(m: RuntimeModel, obj: Receiver, sel: Seq<char>) -> Seq<char> {
        new_failed_msg(spec_receiver_info(m, obj), sel)
    }

    fn send_message_id<R: MaybeUnwrap<Input = Id>>(rt: &mut Runtime, obj: Receiver, sel: &Sel) -> (r:
        R) {
        let info = receiver_info(rt, &obj);
        let res = rt.send_new(&obj, sel);
        let handle: Option<Id> = match res {
            Some(o) => Some(Id::from_raw(o)),
            None => None,
        };
        proof {
            assert(opt_handle_index(handle) == opt_index(res));
        }
        R::maybe_unwrap::<Self>(handle, (info, sel.clone()))
    }
}

impl MsgSendIdFailed for Alloc {
    type Args = (String, Sel);

    open spec fn failed_spec(args: Self::Args) -> Seq<char> {
        alloc_failed_msg(args.0@, args.1@)
    }

    fn failed(args: Self::Args) -> (r: String) {
        let (class_name, sel) = args;
        if sel.is_named("alloc") {
            let mut msg = String::from_str("failed allocating ");
            msg.append(class_name.as_str());
            msg
        } else {
            report_bracketed(
                String::from_str("failed allocating with +["),
                class_name.as_str(),
                &sel,
            )
        }
    }
}

impl MsgSendId<usize, Allocated> for Alloc {
    open spec fn send_requires(m: RuntimeModel, obj: usize, sel: Sel) -> bool {
        &&& m.wf()
        &&& (obj as int) < m.classes.len()
        &&& m.counters.can_increment()
        &&& sel.spec_family() == 2
    }

    open spec fn send_model(m: RuntimeModel, obj: usize, sel: Seq<char>) -> (
        RuntimeModel,
        Option<int>,
    ) {
        spec_send_alloc(m, obj as int, sel)
    }

    open spec fn fail_msg(m: RuntimeModel, obj: usize, sel: Seq<char>) -> Seq<char> {
        alloc_failed_msg(m.classes[obj as int].name, sel)
    }

    fn send_message_id<R: MaybeUnwrap<Input = Allocated>>(
        rt: &mut Runtime,
        obj: usize,
        sel: &Sel,
    ) -> (r: R) {
        let class_name = rt.classes[obj].name.clone();
        let res = rt.send_alloc(obj, sel);
        let handle: Option<Allocated> = match res {
            Some(o) => Some(Allocated::from_raw(o)),
            None => None,
        };
        proof {
            assert(opt_handle_index(handle) == opt_index(res));
        }
        R::maybe_unwrap::<Self>(handle, (class_name, sel.clone()))
    }
}

impl MsgSendIdFailed for Init {
    type Args = (bool, Sel);

    open spec fn failed_spec(args: Self::Args) -> Seq<char> {
        init_failed_msg(args.0, args.1@)
    }

    fn failed(args: Self::Args) -> (r: String) {
        let (receiver_was_nil, sel) = args;
        if receiver_was_nil {
            String::from_str("failed allocating object")
        } else if sel.is_named("init") {
            String::from_str("failed initializing object")
        } else {
            let mut msg = String::from_str("failed initializing object with -");
            msg.append(sel.name());
            msg
        }
    }
}

impl MsgSendId<Option<Allocated>, Id> for Init {
    open spec fn send_requires(m: RuntimeModel, obj: Option<Allocated>, sel: Sel) -> bool {
        &&& m.wf()
        &&& m.counters.can_increment()
        &&& sel.spec_family() == 3
        &&& (obj matches Some(a) ==> a.valid_in(m))
    }

    open spec fn send_model(m: RuntimeModel, obj: Option<Allocated>, sel: Seq<char>) -> (
        RuntimeModel,
        Option<int>,
    ) {
        spec_send_init(m, opt_handle_index(obj), sel)
    }

    open spec fn fail_msg(m: RuntimeModel, obj: Option<Allocated>, sel: Seq<char>) -> Seq<char> {
        init_failed_msg(obj is None, sel)
    }

    fn send_message_id<R: MaybeUnwrap<Input = Id>>(
        rt: &mut Runtime,
        obj: Option<Allocated>,
        sel: &Sel,
    ) -> (r: R) {
        let receiver_was_nil = obj.is_none();
        let raw: Option<usize> = match obj {
            Some(a) => Some(a.into_raw()),
            None => None,
        };
        let res = rt.send_init(raw, sel);
        let handle: Option<Id> = match res {
            Some(o) => Some(Id::from_raw(o)),
            None => None,
        };
        proof {
            assert(opt_handle_index(handle) == opt_index(res));
        }
        R::maybe_unwrap::<Self>(handle, (receiver_was_nil, sel.clone()))
    }
}

impl MsgSendIdFailed for CopyOrMutCopy {
    type Args = ();

    open spec fn failed_spec(args: Self::Args) -> Seq<char> {
        copy_failed_msg()
    }

    fn failed(_args: Self::Args) -> (r: String) {
        String::from_str("failed copying object")
    }
}

impl MsgSendId<Receiver, Id> for CopyOrMutCopy {
    open spec fn send_requires(m: RuntimeModel, obj: Receiver, sel: Sel) -> bool {
        &&& m.wf()
        &&& obj.wf_in(m)
        &&& m.counters.can_increment()
        &&& sel.spec_family() == 4
    }

    open spec fn send_model(m: RuntimeModel, obj: Receiver, sel: Seq<char>) -> (
        RuntimeModel,
        Option<int>,
    ) {
        spec_send_copy(m, obj, sel, in_family(encode_utf8(sel), mutable_copy_family()))
    }

    open spec fn fail_msg(m: RuntimeModel, obj: Receiver, sel: Seq<char>) -> Seq<char> {
        copy_failed_msg()
    }

    fn send_message_id<R: MaybeUnwrap<Input = Id>>(rt: &mut Runtime, obj: Receiver, sel: &Sel) -> (r:
        R) {
        let mutable = sel.is_mutable_copy();
        let res = rt.send_copy(&obj, sel, mutable);
        let handle: Option<Id> = match res {
            Some(o) => Some(Id::from_raw(o)),
            None => None,
        };
        proof {
            assert(opt_handle_index(handle) == opt_index(res));
        }
        R::maybe_unwrap::<Self>(handle, ())
    }
}

impl MsgSendIdFailed for Other {
    type Args = (Option<ReceiverInfo>, Sel);

    open spec fn failed_spec(args: Self::Args) -> Seq<char> {
        other_failed_msg(opt_info(args.0), args.1@)
    }

    fn failed(args: Self::Args) -> (r: String) {
        let (info, sel) = args;
        match info {
            Some(i) => {
                if i.is_metaclass {
                    report_bracketed(
                        String::from_str("unexpected NULL returned from +["),
                        i.class_name.as_str(),
                        &sel,
                    )
                } else {
                    report_bracketed(
                        String::from_str("unexpected NULL returned from -["),
                        i.class_name.as_str(),
                        &sel,
                    )
                }
            },
            None => report_nil_receiver(&sel),
        }
    }
}

/// The effect of a general dispatch: the raw send, then — for a non-nil
/// result, which the convention leaves unretained — one explicit retain that
/// claims it.
pub open spec fn spec_other_dispatch(m: RuntimeModel, recv: Receiver, sel: Seq<char>) -> (
    RuntimeModel,
    Option<int>,
) {
    let raw = spec_send_other(m, recv, sel);
    match raw.1 {
        Some(o) => (spec_retain(raw.0, o), Some(o)),
        None => raw,
    }
}

impl MsgSendId<Receiver, Id> for Other {
    open spec fn send_requires(m: RuntimeModel, obj: Receiver, sel: Sel) -> bool {
        &&& m.wf()
        &&& obj.wf_in(m)
        &&& m.counters.can_increment()
        &&& sel.spec_family() == 5
        &&& (obj matches Receiver::Instance(o) ==> m.objects[o as int].retain_count < u64::MAX)
    }

    open spec fn send_model(m: RuntimeModel, obj: Receiver, sel: Seq<char>) -> (
        RuntimeModel,
        Option<int>,
    ) {
        spec_other_dispatch(m, obj, sel)
    }

    open spec fn fail_msg(m: RuntimeModel, obj: Receiver, sel: Seq<char>) -> Seq<char> {
        other_failed_msg(spec_receiver_info(m, obj), sel)
    }

    fn send_message_id<R: MaybeUnwrap<Input = Id>>(rt: &mut Runtime, obj: Receiver, sel: &Sel) -> (r:
        R) {
        let info = receiver_info(rt, &obj);
        let res = rt.send_other(&obj, sel);
        let res = rt.retain_autoreleased(res);
        let handle: Option<Id> = match res {
            Some(o) => Some(Id::from_raw(o)),
            None => None,
        };
        proof {
            assert(opt_handle_index(handle) == opt_index(res));
        }
        R::maybe_unwrap::<Self>(handle, (info, sel.clone()))
    }
}

/// Law: round-trip ownership. A `new`-family dispatch that yields an object
/// hands back its single retain-count claim; giving the handle up triggers
/// exactly one release and — no other claim existing — exactly one
/// deallocation, which leaves the object dead.
pub proof fn lemma_new_roundtrip_release(m: RuntimeModel, recv: Receiver, sel: Seq<char>, o: int)
    requires
        m.wf(),
        recv.wf_in(m),
        spec_send_new(m, recv, sel).1 == Some(o),
    ensures
        ({
            let m1 = spec_send_new(m, recv, sel).0;
            let m2 = spec_release(m1, o);
            &&& m1.objects[o].retain_count == 1
            &&& m2.counters.release == m.counters.release + 1
            &&& m2.counters.dealloc == m.counters.dealloc + 1
            &&& m2.objects[o].retain_count == 0
        }),
{
}

/// Law: claiming a general-send result and giving it up is balanced. The
/// general category's result is not retained by convention, so its strategy
/// retains it exactly once; releasing the handle undoes exactly that claim —
/// one retain, one release, no allocation, and the object's retain count and
/// liveness are back where they were.
pub proof fn lemma_other_claim_balanced(m: RuntimeModel, recv: Receiver, sel: Seq<char>, o: int)
    requires
        m.wf(),
        recv.wf_in(m),
        m.objects[o].retain_count < u64::MAX,
        spec_other_dispatch(m, recv, sel).1 == Some(o),
    ensures
        ({
            let m1 = spec_other_dispatch(m, recv, sel).0;
            let m2 = spec_release(m1, o);
            &&& m2.counters.retain == m.counters.retain + 1
            &&& m2.counters.release == m.counters.release + 1
            &&& m2.counters.alloc == m.counters.alloc
            &&& m2.counters.init == m.counters.init
            &&& m2.counters.dealloc == m.counters.dealloc
            &&& m2.objects[o].retain_count == m.objects[o].retain_count
        }),
{
    assert(m.objects.update(
        o,
        ObjectModel { retain_count: m.objects[o].retain_count + 1, ..m.objects[o] },
    ).update(
        o,
        ObjectModel { retain_count: m.objects[o].retain_count, ..m.objects[o] },
    )[o] == m.objects[o]);
}

/// Law: alloc–init pairing. An `alloc` dispatch followed by an `init`
/// dispatch on its result that yields an object makes exactly one allocation
/// event and one initialization event, adds exactly one object, and the
/// initialized object is the very allocation — never a second one.
pub proof fn lemma_alloc_init_pairing(
    m: RuntimeModel,
    cls: int,
    sel_a: Seq<char>,
    sel_i: Seq<char>,
    o: int,
)
    requires
        m.wf(),
        0 <= cls < m.classes.len(),
        spec_send_alloc(m, cls, sel_a).1 == Some(o),
        spec_send_init(spec_send_alloc(m, cls, sel_a).0, Some(o), sel_i).1 is Some,
    ensures
        ({
            let m1 = spec_send_alloc(m, cls, sel_a).0;
            let m2 = spec_send_init(m1, Some(o), sel_i).0;
            &&& spec_send_init(m1, Some(o), sel_i).1 == Some(o)
            &&& m2.counters.alloc == m.counters.alloc + 1
            &&& m2.counters.init == m.counters.init + 1
            &&& m2.objects.len() == m.objects.len() + 1
            &&& m2.objects[o].initialized
            &&& m2.objects[o].retain_count == 1
            &&& m2.objects[o].class == cls
        }),
{
}

} // verus!
