use objdispatch::encoding::descriptor_eq;
use objdispatch::encoding::Descriptor;
use objdispatch::encoding::Encoding;
use objdispatch::encoding::Primitive;
use objdispatch::multi::Encodings;
use objdispatch::multi::EncodingsComparator;
use objdispatch::multi::EncodingTupleComparator;
use objdispatch::sel::Sel;

#[test]
fn primitive_encodings_compare_structurally() {
    assert!(Primitive::Int.eq_encoding(&Descriptor::Primitive(Primitive::Int)));
    assert!(!Primitive::Int.eq_encoding(&Descriptor::Primitive(Primitive::Char)));
    assert!(!Primitive::Int.eq_encoding(&Descriptor::Pointer(Box::new(Descriptor::Primitive(
        Primitive::Int
    )))));
}

#[test]
fn nested_descriptors_compare_structurally() {
    let a = Descriptor::Pointer(Box::new(Descriptor::Array(
        4,
        Box::new(Descriptor::Primitive(Primitive::Char)),
    )));
    let b = Descriptor::Pointer(Box::new(Descriptor::Array(
        4,
        Box::new(Descriptor::Primitive(Primitive::Char)),
    )));
    let c = Descriptor::Pointer(Box::new(Descriptor::Array(
        5,
        Box::new(Descriptor::Primitive(Primitive::Char)),
    )));
    assert!(descriptor_eq(&a, &b));
    assert!(!descriptor_eq(&a, &c));

    let s1 = Descriptor::Struct("CGPoint".to_string(), vec![Primitive::Long, Primitive::Long]);
    let s2 = Descriptor::Struct("CGPoint".to_string(), vec![Primitive::Long, Primitive::Long]);
    let s3 = Descriptor::Struct("CGSize".to_string(), vec![Primitive::Long, Primitive::Long]);
    assert!(descriptor_eq(&s1, &s2));
    assert!(!descriptor_eq(&s1, &s3));
    assert!(descriptor_eq(&s1, &s1.clone()));
}

#[test]
fn tuple_comparator_walks_the_list_in_order() {
    let encs = (Primitive::Object, Primitive::Sel, Primitive::Int);
    let mut cmp = EncodingTupleComparator::new(&encs);
    assert!(!cmp.is_finished());
    assert!(cmp.eq_next(&Descriptor::Primitive(Primitive::Object)));
    assert!(cmp.eq_next(&Descriptor::Primitive(Primitive::Sel)));
    assert!(!cmp.is_finished());
    assert!(cmp.eq_next(&Descriptor::Primitive(Primitive::Int)));
    assert!(cmp.is_finished());
    assert!(!cmp.eq_next(&Descriptor::Primitive(Primitive::Int)));
}

#[test]
fn tuple_encodings_match_an_equal_stream() {
    let encs = (Primitive::Object, Primitive::Sel);
    assert_eq!(encs.len(), 2);
    assert!(encs.encoding_at_eq(0, &Descriptor::Primitive(Primitive::Object)));
    assert!(encs.encoding_at_eq(1, &Descriptor::Primitive(Primitive::Sel)));
    assert!(!encs.encoding_at_eq(2, &Descriptor::Primitive(Primitive::Sel)));

    let same = (Primitive::Object, Primitive::Sel);
    assert!(Encodings::eq(&encs, EncodingTupleComparator::new(&same)));

    let shorter = (Primitive::Object,);
    assert!(!Encodings::eq(&encs, EncodingTupleComparator::new(&shorter)));

    let different = (Primitive::Object, Primitive::Char);
    assert!(!Encodings::eq(&encs, EncodingTupleComparator::new(&different)));

    let empty = ();
    assert!(Encodings::eq(&empty, EncodingTupleComparator::new(&empty)));
    assert!(!Encodings::eq(&empty, EncodingTupleComparator::new(&encs)));
}

#[test]
fn selector_text_round_trips() {
    let sel = Sel::register("initWithCapacity:");
    assert_eq!(sel.name(), "initWithCapacity:");
    assert_eq!(sel.family(), 3);
    assert!(sel.is_named("initWithCapacity:"));
    assert!(!sel.is_named("initWithCapacity"));
    let other: Sel = Sel::register("initWithCapacity:");
    assert!(sel == other);
    assert!(sel == sel.clone());
    assert!(!sel.is_mutable_copy());
    assert!(Sel::register("mutableCopyWithZone:").is_mutable_copy());
}
