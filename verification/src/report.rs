//! Attributable reports for dispatches that unexpectedly yielded no object.
//!
//! A null result from a message send that was contractually owed an object is
//! a programming-contract violation, never a recoverable condition. Each
//! retain-semantics category produces its own message from whatever
//! diagnostic context its strategy captured: the `new` and general categories
//! can name the receiver's class and tell a class send from an instance send;
//! the `alloc` category names the class; the `init` category cannot name
//! anything, since a failed initializer consumes its receiver; the copy
//! category has no class detail at all, by design.

use vstd::prelude::*;
use vstd::string::StringExecFns;

use crate::sel::Sel;

verus! {

/// What a dispatch strategy captured about its receiver for diagnostics:
/// the receiver's class name, and whether the receiver was a class (so the
/// send was a class-level `+` send) rather than an instance (`-`).
pub struct ReceiverInfo {
    pub class_name: String,
    pub is_metaclass: bool,
}

/// The mathematical value of the captured receiver context.
#[verifier::ext_equal]
pub ghost struct ReceiverInfoModel {
    pub class_name: Seq<char>,
    pub is_metaclass: bool,
}

impl View for ReceiverInfo {
    type V = ReceiverInfoModel;

    open spec fn view(&self) -> ReceiverInfoModel {
        ReceiverInfoModel { class_name: self.class_name@, is_metaclass: self.is_metaclass }
    }
}

/// The view of the optional receiver context.
pub open spec fn opt_info(info: Option<ReceiverInfo>) -> Option<ReceiverInfoModel> {
    match info {
        Some(i) => Some(i@),
        None => None,
    }
}

/// The message reported when a send with no receiver at all yielded nil.
pub open spec fn nil_receiver_msg(sel: Seq<char>) -> Seq<char> {
    "unexpected NULL "@ + sel + "; receiver was NULL"@
}

/// The message for a `new`-family dispatch that yielded nil: the canonical
/// `new` selector on a class gets the generic phrasing, another `new`-family
/// selector on a class is quoted in full, an instance send is reported as an
/// unexpected NULL, and a nil receiver is named as such.
pub open spec fn new_failed_msg(info: Option<ReceiverInfoModel>, sel: Seq<char>) -> Seq<char> {
    match info {
        Some(i) => {
            if i.is_metaclass {
                if sel == "new"@ {
                    "failed creating new instance of "@ + i.class_name
                } else {
                    "failed creating new instance using +["@ + i.class_name + " "@ + sel + "]"@
                }
            } else {
                "unexpected NULL returned from -["@ + i.class_name + " "@ + sel + "]"@
            }
        },
        None => nil_receiver_msg(sel),
    }
}

/// The message for an `alloc`-family dispatch that yielded nil: generic for
/// the canonical `alloc` selector, selector-quoting otherwise.
pub open spec fn alloc_failed_msg(class_name: Seq<char>, sel: Seq<char>) -> Seq<char> {
    if sel == "alloc"@ {
        "failed allocating "@ + class_name
    } else {
        "failed allocating with +["@ + class_name + " "@ + sel + "]"@
    }
}

/// The message for an `init`-family dispatch that yielded nil. The object may
/// have been destroyed by the failed initializer, so no class can be named:
/// a nil allocation is reported as an allocation failure, the canonical
/// `init` selector gets the generic phrasing, any other selector is quoted.
pub open spec fn init_failed_msg(receiver_was_nil: bool, sel: Seq<char>) -> Seq<char> {
    if receiver_was_nil {
        "failed allocating object"@
    } else if sel == "init"@ {
        "failed initializing object"@
    } else {
        "failed initializing object with -"@ + sel
    }
}

/// The message for a copy-family dispatch that yielded nil. It carries no
/// class detail: the original receiver's type is not guaranteed recoverable.
pub open spec fn copy_failed_msg() -> Seq<char> {
    "failed copying object"@
}

/// The message for a general dispatch that yielded nil: the class is named
/// and a class send is told from an instance send; a nil receiver is named
/// as such.
pub open spec fn other_failed_msg(info: Option<ReceiverInfoModel>, sel: Seq<char>) -> Seq<char> {
    match info {
        Some(i) => {
            if i.is_metaclass {
                "unexpected NULL returned from +["@ + i.class_name + " "@ + sel + "]"@
            } else {
                "unexpected NULL returned from -["@ + i.class_name + " "@ + sel + "]"@
            }
        },
        None => nil_receiver_msg(sel),
    }
}

/// Builds the nil-receiver message.
pub fn report_nil_receiver(sel: &Sel) -> (r: String)
    ensures
        r@ == nil_receiver_msg(sel@),
{
    let mut msg = String::from_str("unexpected NULL ");
    msg.append(sel.name());
    msg.append("; receiver was NULL");
    msg
}

/// Builds the bracketed form `[class selector]` after the given opening text.
pub(crate) fn report_bracketed(opening: String, class_name: &str, sel: &Sel) -> (r: String)
    ensures
        r@ == opening@ + class_name@ + " "@ + sel@ + "]"@,
{
    let mut msg = opening;
    msg.append(class_name);
    msg.append(" ");
    msg.append(sel.name());
    msg.append("]");
    msg
}

/// Per retain-semantics category: turns the diagnostic context its strategy
/// captured into the attributable message for a dispatch that yielded nil.
pub trait MsgSendIdFailed {
    type Args;

    /// The message reported for the given context.
    spec fn failed_spec(args: Self::Args) -> Seq<char>;

    /// Builds the message reported for the given context.
    fn failed(args: Self::Args) -> (r: String)
        ensures
            r@ == Self::failed_spec(args),
    ;
}

} // verus!
