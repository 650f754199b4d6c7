use objdispatch::dispatch::CopyOrMutCopy;
use objdispatch::dispatch::Init;
use objdispatch::dispatch::MsgSendId;
use objdispatch::dispatch::New;
use objdispatch::dispatch::Other;
use objdispatch::dispatch::Alloc;
use objdispatch::handles::Allocated;
use objdispatch::handles::Id;
use objdispatch::new_sel;
use objdispatch::alloc_sel;
use objdispatch::init_sel;
use objdispatch::runtime::Receiver;
use objdispatch::runtime::Runtime;
use objdispatch::Sel;

#[test]
fn test_new() {
    let mut rt = Runtime::new();
    let cls = rt.register_class("NSObject");
    let _obj: Result<Id, String> = New::send_message_id(&mut rt, Receiver::Class(cls), &new_sel());
    let _obj: Option<Id> = New::send_message_id(&mut rt, Receiver::Class(cls), &new_sel());
}

#[test]
fn test_new_not_on_class() {
    let mut rt = Runtime::new();
    let cls = rt.register_class("RcTestObject");
    let mut expected = rt.counters;
    let obj: Result<Id, String> = New::send_message_id(&mut rt, Receiver::Class(cls), &new_sel());
    let obj = obj.unwrap();
    let recv = Receiver::Instance(obj.index());

    let sel = Sel::register("newMethodOnInstance");
    let _obj: Result<Id, String> = New::send_message_id(&mut rt, recv, &sel);
    let _obj: Option<Id> = New::send_message_id(&mut rt, recv, &sel);
    expected.alloc += 3;
    expected.init += 3;
    assert_eq!(rt.counters, expected);
}

#[test]
fn test_new_with_args() {
    let mut rt = Runtime::new();
    let cls = rt.register_class("RcTestObject");
    let mut expected = rt.counters;

    let sel = Sel::register(
        "newScriptingObjectOfClass:forValueForKey:withContentsValue:properties:",
    );
    let _obj: Option<Id> = New::send_message_id(&mut rt, Receiver::Class(cls), &sel);
    expected.alloc += 1;
    expected.init += 1;
    assert_eq!(rt.counters, expected);
}

#[test]
fn test_macro_alloc() {
    let mut rt = Runtime::new();
    let cls = rt.register_class("RcTestObject");
    let mut expected = rt.counters;

    let obj: Result<Allocated, String> = Alloc::send_message_id(&mut rt, cls, &alloc_sel());
    let obj = obj.unwrap();
    expected.alloc += 1;
    assert_eq!(rt.counters, expected);

    obj.release(&mut rt);
    expected.release += 1;
    expected.dealloc += 1;
    assert_eq!(rt.counters, expected);
}

#[test]
fn test_alloc_with_zone() {
    let mut rt = Runtime::new();
    let cls = rt.register_class("RcTestObject");
    let mut expected = rt.counters;

    let _obj: Result<Allocated, String> =
        Alloc::send_message_id(&mut rt, cls, &Sel::register("allocWithZone:"));
    expected.alloc += 1;
    assert_eq!(rt.counters, expected);
}

#[test]
fn test_macro_init() {
    let mut rt = Runtime::new();
    let cls = rt.register_class("RcTestObject");
    let mut expected = rt.counters;

    let obj: Option<Allocated> = Alloc::send_message_id(&mut rt, cls, &alloc_sel());
    expected.alloc += 1;
    // Don't check allocation error
    let _obj: Result<Id, String> = Init::send_message_id(&mut rt, obj, &init_sel());
    expected.init += 1;
    assert_eq!(rt.counters, expected);

    let obj: Option<Allocated> = Alloc::send_message_id(&mut rt, cls, &alloc_sel());
    expected.alloc += 1;
    // Check allocation error before init
    let obj = obj.unwrap();
    let _obj: Result<Id, String> = Init::send_message_id(&mut rt, Some(obj), &init_sel());
    expected.init += 1;
    assert_eq!(rt.counters, expected);
}

#[test]
fn test_macro() {
    let mut rt = Runtime::new();
    let cls = rt.register_class("RcTestObject");
    rt.set_answers_nil(cls, &Sel::register("description"));
    let mut expected = rt.counters;

    let first: Result<Id, String> = New::send_message_id(&mut rt, Receiver::Class(cls), &new_sel());
    let first = first.unwrap();
    expected.alloc += 1;
    expected.init += 1;
    assert_eq!(rt.counters, expected);

    let obj: Result<Allocated, String> = Alloc::send_message_id(&mut rt, cls, &alloc_sel());
    let obj = obj.unwrap();
    expected.alloc += 1;
    assert_eq!(rt.counters, expected);

    let obj: Result<Id, String> = Init::send_message_id(&mut rt, Some(obj), &init_sel());
    let obj = obj.unwrap();
    expected.init += 1;
    assert_eq!(rt.counters, expected);

    let recv = Receiver::Instance(obj.index());

    let copy: Result<Id, String> =
        CopyOrMutCopy::send_message_id(&mut rt, recv, &Sel::register("copy"));
    let copy = copy.unwrap();
    expected.copy += 1;
    expected.alloc += 1;
    expected.init += 1;
    assert_eq!(rt.counters, expected);

    let mutable_copy: Result<Id, String> =
        CopyOrMutCopy::send_message_id(&mut rt, recv, &Sel::register("mutableCopy"));
    let mutable_copy = mutable_copy.unwrap();
    expected.mutable_copy += 1;
    expected.alloc += 1;
    expected.init += 1;
    assert_eq!(rt.counters, expected);

    let this: Result<Id, String> = Other::send_message_id(&mut rt, recv, &Sel::register("self"));
    let this = this.unwrap();
    expected.retain += 1;
    assert_eq!(rt.counters, expected);

    let desc: Option<Id> = Other::send_message_id(&mut rt, recv, &Sel::register("description"));
    assert!(desc.is_none());
    assert_eq!(rt.counters, expected);

    this.release(&mut rt);
    mutable_copy.release(&mut rt);
    copy.release(&mut rt);
    obj.release(&mut rt);
    first.release(&mut rt);
    expected.release += 5;
    expected.dealloc += 4;
    assert_eq!(rt.counters, expected);
}

#[test]
fn test_macro_still_works() {
    let mut rt = Runtime::new();
    let cls = rt.register_class("NSObject");
    let obj: Result<Id, String> = New::send_message_id(&mut rt, Receiver::Class(cls), &new_sel());
    assert!(obj.is_ok());
}

#[test]
fn new_roundtrip_releases_once() {
    let mut rt = Runtime::new();
    let cls = rt.register_class("RcTestObject");
    let mut expected = rt.counters;

    let obj: Result<Id, String> = New::send_message_id(&mut rt, Receiver::Class(cls), &new_sel());
    let obj = obj.unwrap();
    expected.alloc += 1;
    expected.init += 1;
    assert_eq!(rt.counters, expected);

    obj.release(&mut rt);
    expected.release += 1;
    expected.dealloc += 1;
    assert_eq!(rt.counters, expected);
}

#[test]
fn alloc_init_initializes_the_same_allocation() {
    let mut rt = Runtime::new();
    let cls = rt.register_class("RcTestObject");

    let allocated: Result<Allocated, String> = Alloc::send_message_id(&mut rt, cls, &alloc_sel());
    let allocated = allocated.unwrap();
    let raw = allocated.index();

    let obj: Result<Id, String> = Init::send_message_id(&mut rt, Some(allocated), &init_sel());
    let obj = obj.unwrap();
    assert_eq!(obj.index(), raw);
    assert_eq!(rt.counters.alloc, 1);
    assert_eq!(rt.counters.init, 1);
    assert_eq!(rt.objects.len(), 1);
}

#[test]
fn retain_duplicates_a_claim_explicitly() {
    let mut rt = Runtime::new();
    let cls = rt.register_class("RcTestObject");

    let obj: Result<Id, String> = New::send_message_id(&mut rt, Receiver::Class(cls), &new_sel());
    let obj = obj.unwrap();
    let second = obj.retain(&mut rt);
    assert_eq!(rt.counters.retain, 1);

    obj.release(&mut rt);
    assert_eq!(rt.counters.dealloc, 0);
    second.release(&mut rt);
    assert_eq!(rt.counters.release, 2);
    assert_eq!(rt.counters.dealloc, 1);
}
