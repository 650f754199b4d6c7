use objdispatch::dispatch::Alloc;
use objdispatch::dispatch::CopyOrMutCopy;
use objdispatch::dispatch::Init;
use objdispatch::dispatch::MsgSendId;
use objdispatch::dispatch::New;
use objdispatch::dispatch::Other;
use objdispatch::handles::Allocated;
use objdispatch::handles::Id;
use objdispatch::alloc_sel;
use objdispatch::init_sel;
use objdispatch::new_sel;
use objdispatch::runtime::Receiver;
use objdispatch::runtime::Runtime;
use objdispatch::Sel;

#[test]
fn new_null_uses_generic_phrasing_for_canonical_new() {
    let mut rt = Runtime::new();
    let cls = rt.register_class("NSValue");
    rt.set_answers_nil(cls, &new_sel());
    let val: Result<Id, String> = New::send_message_id(&mut rt, Receiver::Class(cls), &new_sel());
    assert_eq!(val.unwrap_err(), "failed creating new instance of NSValue");
}

#[test]
fn new_null_quotes_a_custom_family_selector() {
    let mut rt = Runtime::new();
    let cls = rt.register_class("RcTestObject");
    let sel = Sel::register("newReturningNull");
    rt.set_answers_nil(cls, &sel);
    let obj: Result<Id, String> = New::send_message_id(&mut rt, Receiver::Class(cls), &sel);
    assert_eq!(
        obj.unwrap_err(),
        "failed creating new instance using +[RcTestObject newReturningNull]"
    );
}

#[test]
fn new_null_on_instance_reports_unexpected_null() {
    let mut rt = Runtime::new();
    let cls = rt.register_class("RcTestObject");
    let sel = Sel::register("newMethodOnInstanceNull");
    rt.set_answers_nil(cls, &sel);
    let obj: Result<Id, String> = New::send_message_id(&mut rt, Receiver::Class(cls), &new_sel());
    let obj = obj.unwrap();
    let res: Result<Id, String> =
        New::send_message_id(&mut rt, Receiver::Instance(obj.index()), &sel);
    assert_eq!(
        res.unwrap_err(),
        "unexpected NULL returned from -[RcTestObject newMethodOnInstanceNull]"
    );
}

#[test]
fn new_null_receiver_is_named_as_such() {
    let mut rt = Runtime::new();
    let sel = Sel::register("newMethodOnInstance");
    let res: Result<Id, String> = New::send_message_id(&mut rt, Receiver::Nil, &sel);
    assert_eq!(
        res.unwrap_err(),
        "unexpected NULL newMethodOnInstance; receiver was NULL"
    );
}

#[test]
fn alloc_null_uses_generic_phrasing_for_canonical_alloc() {
    let mut rt = Runtime::new();
    let cls = rt.register_class("RcTestObject");
    rt.set_answers_nil(cls, &alloc_sel());
    let res: Result<Allocated, String> = Alloc::send_message_id(&mut rt, cls, &alloc_sel());
    assert_eq!(res.unwrap_err(), "failed allocating RcTestObject");
}

#[test]
fn alloc_null_quotes_a_custom_family_selector() {
    let mut rt = Runtime::new();
    let cls = rt.register_class("RcTestObject");
    let sel = Sel::register("allocReturningNull");
    rt.set_answers_nil(cls, &sel);
    let res: Result<Allocated, String> = Alloc::send_message_id(&mut rt, cls, &sel);
    assert_eq!(
        res.unwrap_err(),
        "failed allocating with +[RcTestObject allocReturningNull]"
    );
}

#[test]
fn init_null_quotes_a_custom_family_selector() {
    let mut rt = Runtime::new();
    let cls = rt.register_class("RcTestObject");
    let sel = Sel::register("initReturningNull");
    rt.set_answers_nil(cls, &sel);
    let obj: Option<Allocated> = Alloc::send_message_id(&mut rt, cls, &alloc_sel());
    let res: Result<Id, String> = Init::send_message_id(&mut rt, obj, &sel);
    assert_eq!(
        res.unwrap_err(),
        "failed initializing object with -initReturningNull"
    );
}

#[test]
fn init_with_nil_allocation_reports_allocation_failure() {
    let mut rt = Runtime::new();
    let res: Result<Id, String> = Init::send_message_id(&mut rt, None, &init_sel());
    assert_eq!(res.unwrap_err(), "failed allocating object");
}

#[test]
fn init_null_uses_generic_phrasing_for_canonical_init() {
    let mut rt = Runtime::new();
    let cls = rt.register_class("RcTestObject");
    rt.set_answers_nil(cls, &init_sel());
    let obj: Option<Allocated> = Alloc::send_message_id(&mut rt, cls, &alloc_sel());
    let res: Result<Id, String> = Init::send_message_id(&mut rt, obj, &init_sel());
    assert_eq!(res.unwrap_err(), "failed initializing object");
}

#[test]
fn copy_null_has_no_class_detail() {
    let mut rt = Runtime::new();
    let cls = rt.register_class("RcTestObject");
    let sel = Sel::register("copyReturningNull");
    rt.set_answers_nil(cls, &sel);
    let obj: Result<Id, String> = New::send_message_id(&mut rt, Receiver::Class(cls), &new_sel());
    let obj = obj.unwrap();
    let res: Result<Id, String> =
        CopyOrMutCopy::send_message_id(&mut rt, Receiver::Instance(obj.index()), &sel);
    assert_eq!(res.unwrap_err(), "failed copying object");
}

#[test]
fn normal_null_reports_the_receiver_class() {
    let mut rt = Runtime::new();
    let cls = rt.register_class("RcTestObject");
    let sel = Sel::register("methodReturningNull");
    rt.set_answers_nil(cls, &sel);
    let obj: Result<Id, String> = New::send_message_id(&mut rt, Receiver::Class(cls), &new_sel());
    let obj = obj.unwrap();
    let res: Result<Id, String> =
        Other::send_message_id(&mut rt, Receiver::Instance(obj.index()), &sel);
    assert_eq!(
        res.unwrap_err(),
        "unexpected NULL returned from -[RcTestObject methodReturningNull]"
    );
}

#[test]
fn normal_null_on_class_uses_the_class_send_sign() {
    let mut rt = Runtime::new();
    let cls = rt.register_class("RcTestObject");
    let sel = Sel::register("sharedInstanceMissing");
    let res: Result<Id, String> = Other::send_message_id(&mut rt, Receiver::Class(cls), &sel);
    assert_eq!(
        res.unwrap_err(),
        "unexpected NULL returned from +[RcTestObject sharedInstanceMissing]"
    );
}

#[test]
fn normal_null_receiver_is_named_as_such() {
    let mut rt = Runtime::new();
    let sel = Sel::register("description");
    let res: Result<Id, String> = Other::send_message_id(&mut rt, Receiver::Nil, &sel);
    assert_eq!(res.unwrap_err(), "unexpected NULL description; receiver was NULL");
}
