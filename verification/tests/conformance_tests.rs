use objdispatch::conformance::ClassBuilder;
use objdispatch::conformance::MethodDescription;
use objdispatch::conformance::Protocol;
use objdispatch::conformance::RegistrationError;
use objdispatch::Sel;

fn sample_protocol() -> Protocol {
    let mut proto = Protocol::new("MyProtocol");
    proto.add_instance_method(MethodDescription::new(Sel::register("requiredMethod"), "v@:"), true);
    proto.add_instance_method(MethodDescription::new(Sel::register("optionalMethod"), "v@:"), false);
    proto.add_class_method(
        MethodDescription::new(Sel::register("requiredClassMethod"), "v@:"),
        true,
    );
    proto.add_class_method(
        MethodDescription::new(Sel::register("optionalClassMethod"), "v@:"),
        false,
    );
    proto
}

#[test]
fn registering_every_required_method_succeeds() {
    let proto = sample_protocol();
    let builder = ClassBuilder::new("MyClass");
    let mut session = builder.__add_protocol_methods(&proto);
    session.add_method(&Sel::register("requiredMethod")).unwrap();
    session.add_class_method(&Sel::register("requiredClassMethod")).unwrap();
    assert!(session.finish().is_ok());
}

#[test]
fn optional_methods_impose_no_obligation() {
    let proto = sample_protocol();
    let builder = ClassBuilder::new("MyClass");
    let mut session = builder.__add_protocol_methods(&proto);
    session.add_method(&Sel::register("requiredMethod")).unwrap();
    session.add_method(&Sel::register("optionalMethod")).unwrap();
    session.add_class_method(&Sel::register("requiredClassMethod")).unwrap();
    session.add_class_method(&Sel::register("optionalClassMethod")).unwrap();
    assert!(session.finish().is_ok());
}

#[test]
fn registering_an_unknown_method_fails_immediately() {
    let proto = sample_protocol();
    let builder = ClassBuilder::new("MyClass");
    let mut session = builder.__add_protocol_methods(&proto);
    let err = session.add_method(&Sel::register("unknownMethod")).unwrap_err();
    match err {
        RegistrationError::MethodNotFound(m) => assert_eq!(
            m,
            "failed overriding protocol method -[MyProtocol unknownMethod]: method not found"
        ),
        _ => panic!("wrong error variant"),
    }
}

#[test]
fn registering_an_unknown_class_method_fails_immediately() {
    let proto = sample_protocol();
    let builder = ClassBuilder::new("MyClass");
    let mut session = builder.__add_protocol_methods(&proto);
    let err = session.add_class_method(&Sel::register("requiredMethod")).unwrap_err();
    match err {
        RegistrationError::MethodNotFound(m) => assert_eq!(
            m,
            "failed overriding protocol method +[MyProtocol requiredMethod]: method not found"
        ),
        _ => panic!("wrong error variant"),
    }
}

#[test]
fn missing_required_method_fails_at_session_end() {
    let proto = sample_protocol();
    let builder = ClassBuilder::new("MyClass");
    let mut session = builder.__add_protocol_methods(&proto);
    session.add_class_method(&Sel::register("requiredClassMethod")).unwrap();
    let err = match session.finish() {
        Err(e) => e,
        Ok(_) => panic!("the session should fail"),
    };
    match err {
        RegistrationError::MissingRequired(m) => assert_eq!(
            m,
            "must implement required protocol method -[MyProtocol requiredMethod]"
        ),
        _ => panic!("wrong error variant"),
    }
}

#[test]
fn missing_required_class_method_fails_at_session_end() {
    let proto = sample_protocol();
    let builder = ClassBuilder::new("MyClass");
    let mut session = builder.__add_protocol_methods(&proto);
    session.add_method(&Sel::register("requiredMethod")).unwrap();
    let err = match session.finish() {
        Err(e) => e,
        Ok(_) => panic!("the session should fail"),
    };
    match err {
        RegistrationError::MissingRequired(m) => assert_eq!(
            m,
            "must implement required protocol method +[MyProtocol requiredClassMethod]"
        ),
        _ => panic!("wrong error variant"),
    }
}

#[test]
fn double_registration_at_one_level_is_rejected() {
    let proto = sample_protocol();
    let builder = ClassBuilder::new("MyClass");
    let mut session = builder.__add_protocol_methods(&proto);
    session.add_method(&Sel::register("requiredMethod")).unwrap();
    let err = session.add_method(&Sel::register("requiredMethod")).unwrap_err();
    match err {
        RegistrationError::AlreadyRegistered(m) => assert_eq!(m, "already added"),
        _ => panic!("wrong error variant"),
    }
}

#[test]
fn levels_are_kept_apart() {
    // The same selector may be bound once per level: the instance-level and
    // class-level registered sets are never conflated.
    let mut proto = Protocol::new("MyProtocol");
    proto.add_instance_method(MethodDescription::new(Sel::register("shared"), "v@:"), true);
    proto.add_class_method(MethodDescription::new(Sel::register("shared"), "v@:"), true);

    let builder = ClassBuilder::new("MyClass");
    let mut session = builder.__add_protocol_methods(&proto);
    session.add_method(&Sel::register("shared")).unwrap();
    session.add_class_method(&Sel::register("shared")).unwrap();
    assert!(session.finish().is_ok());
}

#[test]
fn error_message_accessor_hands_the_text_out() {
    let proto = sample_protocol();
    let builder = ClassBuilder::new("MyClass");
    let mut session = builder.__add_protocol_methods(&proto);
    let err = session.add_method(&Sel::register("unknownMethod")).unwrap_err();
    assert_eq!(
        err.message(),
        "failed overriding protocol method -[MyProtocol unknownMethod]: method not found"
    );
}
