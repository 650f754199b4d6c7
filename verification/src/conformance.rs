//! Protocol-conformance checking during class construction.
//!
//! While a class is being built, every method registered against a declared
//! protocol is cross-checked: its selector must appear among the protocol's
//! required or optional method descriptions of the matching level (instance
//! or class), and no selector may be bound twice at one level within one
//! session. When the session ends, every required method description must
//! have been registered. All three violations are authoring defects and are
//! reported with a message naming the protocol and the selector.

use vstd::prelude::*;
use vstd::string::StringExecFns;

use crate::sel::Sel;

verus! {

/// A method description owned by a protocol: a selector and its
/// type-signature string (an opaque format this layer does not parse).
pub struct MethodDescription {
    pub sel: Sel,
    pub types: String,
}

/// The mathematical value of a method description.
#[verifier::ext_equal]
pub ghost struct MethodDescModel {
    pub sel: Seq<char>,
    pub types: Seq<char>,
}

impl View for MethodDescription {
    type V = MethodDescModel;

    open spec fn view(&self) -> MethodDescModel {
        MethodDescModel { sel: self.sel@, types: self.types@ }
    }
}

impl MethodDescription {
    /// A description for the given selector and type signature.
    pub fn new(sel: Sel, types: &str) -> (r: MethodDescription)
        ensures
            r@.sel == sel@,
            r@.types == types@,
    {
        MethodDescription { sel, types: String::from_str(types) }
    }
}

/// Whether a selector text occurs in a list of texts.
pub open spec fn contains_text(list: Seq<Seq<char>>, sel: Seq<char>) -> bool {
    exists|i: int| 0 <= i < list.len() && list[i] == sel
}

/// Whether a selector text names one of the given method descriptions.
pub open spec fn descs_contain(descs: Seq<MethodDescModel>, sel: Seq<char>) -> bool {
    exists|i: int| 0 <= i < descs.len() && descs[i].sel == sel
}

/// The first of the given method descriptions whose selector is not among
/// the registered texts, if any.
pub open spec fn spec_first_unregistered(
    descs: Seq<MethodDescModel>,
    regs: Seq<Seq<char>>,
) -> Option<MethodDescModel>
    decreases descs.len(),
{
    if descs.len() == 0 {
        None
    } else if !contains_text(regs, descs[0].sel) {
        Some(descs[0])
    } else {
        spec_first_unregistered(descs.drop_first(), regs)
    }
}

proof fn lemma_first_unregistered_at(descs: Seq<MethodDescModel>, regs: Seq<Seq<char>>, j: int)
    requires
        0 <= j <= descs.len(),
        forall|i: int| 0 <= i < j ==> contains_text(regs, #[trigger] descs[i].sel),
        j < descs.len() ==> !contains_text(regs, descs[j].sel),
    ensures
        spec_first_unregistered(descs, regs) == if j == descs.len() {
            None::<MethodDescModel>
        } else {
            Some(descs[j])
        },
    decreases j,
{
    if descs.len() == 0 {
    } else if j == 0 {
    } else {
        let d1 = descs.drop_first();
        assert(forall|i: int| 0 <= i < j - 1 ==> #[trigger] d1[i].sel == descs[i + 1].sel);
        lemma_first_unregistered_at(d1, regs, j - 1);
    }
}

/// The message for registering a method the protocol does not declare.
pub open spec fn not_found_msg(proto: Seq<char>, sel: Seq<char>, class_level: bool) -> Seq<char> {
    if class_level {
        "failed overriding protocol method +["@ + proto + " "@ + sel + "]: method not found"@
    } else {
        "failed overriding protocol method -["@ + proto + " "@ + sel + "]: method not found"@
    }
}

/// The message for a required method left unregistered at session end.
pub open spec fn missing_required_msg(proto: Seq<char>, sel: Seq<char>, class_level: bool) -> Seq<
    char,
> {
    if class_level {
        "must implement required protocol method +["@ + proto + " "@ + sel + "]"@
    } else {
        "must implement required protocol method -["@ + proto + " "@ + sel + "]"@
    }
}

/// The message for binding one selector twice at one level in one session.
pub open spec fn already_added_msg() -> Seq<char> {
    "already added"@
}

/// A protocol-conformance violation. Every variant carries the attributable
/// message; each is an authoring defect, never a recoverable condition.
#[derive(Debug)]
pub enum RegistrationError {
    /// The registered selector is in neither the required nor the optional
    /// descriptions of its level.
    MethodNotFound(String),
    /// The same selector was bound twice at one level within one session.
    AlreadyRegistered(String),
    /// A required method description was never registered in the session.
    MissingRequired(String),
}

impl RegistrationError {
    /// The attributable message.
    pub fn message(&self) -> (r: &str)
        ensures
            r@ == (match *self {
                RegistrationError::MethodNotFound(m) => m@,
                RegistrationError::AlreadyRegistered(m) => m@,
                RegistrationError::MissingRequired(m) => m@,
            }),
    {
        match self {
            RegistrationError::MethodNotFound(m) => m.as_str(),
            RegistrationError::AlreadyRegistered(m) => m.as_str(),
            RegistrationError::MissingRequired(m) => m.as_str(),
        }
    }
}

fn clone_descs(v: &Vec<MethodDescription>) -> (r: Vec<MethodDescription>)
    ensures
        r@.map_values(|d: MethodDescription| d@) == v@.map_values(|d: MethodDescription| d@),
{
    let mut r: Vec<MethodDescription> = Vec::new();
    let n = v.len();
    let mut i: usize = 0;
    while i < n
        invariant
            n == v@.len(),
            i <= n,
            r@.len() == i,
            forall|k: int| 0 <= k < i ==> #[trigger] r@[k]@ == v@[k]@,
        decreases n - i,
    {
        let d = &v[i];
        r.push(MethodDescription { sel: d.sel.clone(), types: d.types.clone() });
        i = i + 1;
    }
    proof {
        assert(r@.map_values(|d: MethodDescription| d@) =~= v@.map_values(
            |d: MethodDescription| d@,
        ));
    }
    r
}

fn texts_contain(list: &Vec<String>, sel: &Sel) -> (r: bool)
    ensures
        r == contains_text(list@.map_values(|s: String| s@), sel@),
{
    let ghost texts = list@.map_values(|s: String| s@);
    let n = list.len();
    let mut i: usize = 0;
    while i < n
        invariant
            n == list@.len(),
            texts == list@.map_values(|s: String| s@),
            i <= n,
            forall|k: int| 0 <= k < i ==> #[trigger] list@[k]@ != sel@,
        decreases n - i,
    {
        if sel.is_named(list[i].as_str()) {
            proof {
                assert(texts[i as int] == list@[i as int]@);
            }
            return true;
        }
        i = i + 1;
    }
    proof {
        assert(forall|k: int| 0 <= k < n ==> texts[k] == #[trigger] list@[k]@);
    }
    false
}

fn descs_find(v: &Vec<MethodDescription>, sel: &Sel) -> (r: bool)
    ensures
        r == descs_contain(v@.map_values(|d: MethodDescription| d@), sel@),
{
    let ghost descs = v@.map_values(|d: MethodDescription| d@);
    let n = v.len();
    let mut i: usize = 0;
    while i < n
        invariant
            n == v@.len(),
            descs == v@.map_values(|d: MethodDescription| d@),
            i <= n,
            forall|k: int| 0 <= k < i ==> #[trigger] v@[k]@.sel != sel@,
        decreases n - i,
    {
        if v[i].sel.is_named(sel.name()) {
            proof {
                assert(descs[i as int] == v@[i as int]@);
            }
            return true;
        }
        i = i + 1;
    }
    proof {
        assert(forall|k: int| 0 <= k < n ==> descs[k] == #[trigger] v@[k]@);
    }
    false
}

/// A declared capability set: a name, and its required and optional method
/// descriptions, split by instance level and class level.
pub struct Protocol {
    name: String,
    required_instance: Vec<MethodDescription>,
    optional_instance: Vec<MethodDescription>,
    required_class: Vec<MethodDescription>,
    optional_class: Vec<MethodDescription>,
}

/// The mathematical value of a protocol declaration.
#[verifier::ext_equal]
pub ghost struct ProtocolModel {
    pub name: Seq<char>,
    pub required_instance: Seq<MethodDescModel>,
    pub optional_instance: Seq<MethodDescModel>,
    pub required_class: Seq<MethodDescModel>,
    pub optional_class: Seq<MethodDescModel>,
}

impl View for Protocol {
    type V = ProtocolModel;

    closed spec fn view(&self) -> ProtocolModel {
        ProtocolModel {
            name: self.name@,
            required_instance: self.required_instance@.map_values(|d: MethodDescription| d@),
            optional_instance: self.optional_instance@.map_values(|d: MethodDescription| d@),
            required_class: self.required_class@.map_values(|d: MethodDescription| d@),
            optional_class: self.optional_class@.map_values(|d: MethodDescription| d@),
        }
    }
}

impl Protocol {
    /// An empty protocol declaration under the given display name.
    pub fn new(name: &str) -> (r: Protocol)
        ensures
            r@.name == name@,
            r@.required_instance.len() == 0,
            r@.optional_instance.len() == 0,
            r@.required_class.len() == 0,
            r@.optional_class.len() == 0,
    {
        let r = Protocol {
            name: String::from_str(name),
            required_instance: Vec::new(),
            optional_instance: Vec::new(),
            required_class: Vec::new(),
            optional_class: Vec::new(),
        };
        proof {
            assert(r@.required_instance =~= Seq::<MethodDescModel>::empty());
            assert(r@.optional_instance =~= Seq::<MethodDescModel>::empty());
            assert(r@.required_class =~= Seq::<MethodDescModel>::empty());
            assert(r@.optional_class =~= Seq::<MethodDescModel>::empty());
        }
        r
    }

    /// The protocol's display name, for diagnostics.
    pub fn name(&self) -> (r: &str)
        ensures
            r@ == self@.name,
    {
        self.name.as_str()
    }

    /// Declares one more instance-level method description, required or
    /// optional.
    pub fn add_instance_method(&mut self, desc: MethodDescription, required: bool)
        ensures
            final(self)@ == (if required {
                ProtocolModel {
                    required_instance: old(self)@.required_instance.push(desc@),
                    ..old(self)@
                }
            } else {
                ProtocolModel {
                    optional_instance: old(self)@.optional_instance.push(desc@),
                    ..old(self)@
                }
            }),
    {
        if required {
            self.required_instance.push(desc);
        } else {
            self.optional_instance.push(desc);
        }
        proof {
            assert(final(self)@ =~~= (if required {
                ProtocolModel {
                    required_instance: old(self)@.required_instance.push(desc@),
                    ..old(self)@
                }
            } else {
                ProtocolModel {
                    optional_instance: old(self)@.optional_instance.push(desc@),
                    ..old(self)@
                }
            }));
        }
    }

    /// Declares one more class-level method description, required or
    /// optional.
    pub fn add_class_method(&mut self, desc: MethodDescription, required: bool)
        ensures
            final(self)@ == (if required {
                ProtocolModel { required_class: old(self)@.required_class.push(desc@), ..old(self)@ }
            } else {
                ProtocolModel { optional_class: old(self)@.optional_class.push(desc@), ..old(self)@ }
            }),
    {
        if required {
            self.required_class.push(desc);
        } else {
            self.optional_class.push(desc);
        }
        proof {
            assert(final(self)@ =~~= (if required {
                ProtocolModel { required_class: old(self)@.required_class.push(desc@), ..old(self)@ }
            } else {
                ProtocolModel { optional_class: old(self)@.optional_class.push(desc@), ..old(self)@ }
            }));
        }
    }

    /// The instance-level method descriptions of the asked-for obligation.
    pub fn method_descriptions(&self, required: bool) -> (r: Vec<MethodDescription>)
        ensures
            r@.map_values(|d: MethodDescription| d@) == (if required {
                self@.required_instance
            } else {
                self@.optional_instance
            }),
    {
        if required {
            clone_descs(&self.required_instance)
        } else {
            clone_descs(&self.optional_instance)
        }
    }

    /// The class-level method descriptions of the asked-for obligation.
    pub fn class_method_descriptions(&self, required: bool) -> (r: Vec<MethodDescription>)
        ensures
            r@.map_values(|d: MethodDescription| d@) == (if required {
                self@.required_class
            } else {
                self@.optional_class
            }),
    {
        if required {
            clone_descs(&self.required_class)
        } else {
            clone_descs(&self.optional_class)
        }
    }
}

/// An in-progress class definition: the class name and the selectors bound so
/// far for instance-level and for class-level dispatch. The two sets are kept
/// strictly apart.
pub struct ClassBuilder {
    name: String,
    instance_methods: Vec<String>,
    class_methods: Vec<String>,
}

/// The mathematical value of a class registration record.
#[verifier::ext_equal]
pub ghost struct ClassBuilderModel {
    pub name: Seq<char>,
    pub instance_methods: Seq<Seq<char>>,
    pub class_methods: Seq<Seq<char>>,
}

impl View for ClassBuilder {
    type V = ClassBuilderModel;

    closed spec fn view(&self) -> ClassBuilderModel {
        ClassBuilderModel {
            name: self.name@,
            instance_methods: self.instance_methods@.map_values(|s: String| s@),
            class_methods: self.class_methods@.map_values(|s: String| s@),
        }
    }
}

impl ClassBuilder {
    /// A fresh registration session for a class of the given name.
    pub fn new(name: &str) -> (r: ClassBuilder)
        ensures
            r@.name == name@,
            r@.instance_methods.len() == 0,
            r@.class_methods.len() == 0,
    {
        let r = ClassBuilder {
            name: String::from_str(name),
            instance_methods: Vec::new(),
            class_methods: Vec::new(),
        };
        proof {
            assert(r@.instance_methods =~= Seq::<Seq<char>>::empty());
            assert(r@.class_methods =~= Seq::<Seq<char>>::empty());
        }
        r
    }

    /// Binds a selector for instance-level dispatch, unchecked.
    pub fn add_method(&mut self, sel: &Sel)
        ensures
            final(self)@ == (ClassBuilderModel {
                instance_methods: old(self)@.instance_methods.push(sel@),
                ..old(self)@
            }),
    {
        self.instance_methods.push(String::from_str(sel.name()));
        proof {
            assert(final(self)@ =~~= (ClassBuilderModel {
                instance_methods: old(self)@.instance_methods.push(sel@),
                ..old(self)@
            }));
        }
    }

    /// Binds a selector for class-level dispatch, unchecked.
    pub fn add_class_method(&mut self, sel: &Sel)
        ensures
            final(self)@ == (ClassBuilderModel {
                class_methods: old(self)@.class_methods.push(sel@),
                ..old(self)@
            }),
    {
        self.class_methods.push(String::from_str(sel.name()));
        proof {
            assert(final(self)@ =~~= (ClassBuilderModel {
                class_methods: old(self)@.class_methods.push(sel@),
                ..old(self)@
            }));
        }
    }

    /// Opens a verifying registration session against the given protocol: the
    /// methods registered through the session are cross-checked against the
    /// protocol's declared method descriptions.
    pub fn __add_protocol_methods(self, protocol: &Protocol) -> (r: ClassProtocolMethodsBuilder)
        ensures
            r@.builder == self@,
            r@.protocol_name == protocol@.name,
            r@.required_instance == protocol@.required_instance,
            r@.optional_instance == protocol@.optional_instance,
            r@.required_class == protocol@.required_class,
            r@.optional_class == protocol@.optional_class,
            r@.registered_instance.len() == 0,
            r@.registered_class.len() == 0,
    {
        let r = ClassProtocolMethodsBuilder {
            builder: self,
            protocol_name: String::from_str(protocol.name()),
            required_instance_methods: protocol.method_descriptions(true),
            optional_instance_methods: protocol.method_descriptions(false),
            registered_instance_methods: Vec::new(),
            required_class_methods: protocol.class_method_descriptions(true),
            optional_class_methods: protocol.class_method_descriptions(false),
            registered_class_methods: Vec::new(),
        };
        proof {
            assert(r@.registered_instance =~= Seq::<Seq<char>>::empty());
            assert(r@.registered_class =~= Seq::<Seq<char>>::empty());
        }
        r
    }
}

/// One verifying class-registration session against one protocol: methods
/// pass through to the class builder only after they are found among the
/// protocol's declarations, and the session records what was registered at
/// each level so that the end-of-session check can demand every required
/// method.
pub struct ClassProtocolMethodsBuilder {
    builder: ClassBuilder,
    protocol_name: String,
    required_instance_methods: Vec<MethodDescription>,
    optional_instance_methods: Vec<MethodDescription>,
    registered_instance_methods: Vec<String>,
    required_class_methods: Vec<MethodDescription>,
    optional_class_methods: Vec<MethodDescription>,
    registered_class_methods: Vec<String>,
}

/// The mathematical value of a verifying registration session.
#[verifier::ext_equal]
pub ghost struct CpmbModel {
    pub builder: ClassBuilderModel,
    pub protocol_name: Seq<char>,
    pub required_instance: Seq<MethodDescModel>,
    pub optional_instance: Seq<MethodDescModel>,
    pub registered_instance: Seq<Seq<char>>,
    pub required_class: Seq<MethodDescModel>,
    pub optional_class: Seq<MethodDescModel>,
    pub registered_class: Seq<Seq<char>>,
}

impl View for ClassProtocolMethodsBuilder {
    type V = CpmbModel;

    closed spec fn view(&self) -> CpmbModel {
        CpmbModel {
            builder: self.builder@,
            protocol_name: self.protocol_name@,
            required_instance: self.required_instance_methods@.map_values(
                |d: MethodDescription| d@,
            ),
            optional_instance: self.optional_instance_methods@.map_values(
                |d: MethodDescription| d@,
            ),
            registered_instance: self.registered_instance_methods@.map_values(|s: String| s@),
            required_class: self.required_class_methods@.map_values(|d: MethodDescription| d@),
            optional_class: self.optional_class_methods@.map_values(|d: MethodDescription| d@),
            registered_class: self.registered_class_methods@.map_values(|s: String| s@),
        }
    }
}

impl CpmbModel {
    /// The selector is declared at instance level, required or optional.
    pub open spec fn declares_instance(&self, sel: Seq<char>) -> bool {
        descs_contain(self.required_instance + self.optional_instance, sel)
    }

    /// The selector is declared at class level, required or optional.
    pub open spec fn declares_class(&self, sel: Seq<char>) -> bool {
        descs_contain(self.required_class + self.optional_class, sel)
    }

    /// Every required method description of both levels was registered.
    pub open spec fn all_required_registered(&self) -> bool {
        &&& spec_first_unregistered(self.required_instance, self.registered_instance) is None
        &&& spec_first_unregistered(self.required_class, self.registered_class) is None
    }
}

impl ClassProtocolMethodsBuilder {
    /// Registers a method for instance-level dispatch. The selector must be
    /// declared by the protocol at instance level — registering an unknown
    /// method is always a defect — and must not have been registered at this
    /// level before in this session.
    pub fn add_method(&mut self, sel: &Sel) -> (r: Result<(), RegistrationError>)
        ensures
            r is Ok <==> old(self)@.declares_instance(sel@) && !contains_text(
                old(self)@.registered_instance,
                sel@,
            ),
            r is Ok ==> final(self)@ == (CpmbModel {
                builder: ClassBuilderModel {
                    instance_methods: old(self)@.builder.instance_methods.push(sel@),
                    ..old(self)@.builder
                },
                registered_instance: old(self)@.registered_instance.push(sel@),
                ..old(self)@
            }),
            !(r is Ok) ==> final(self)@ == old(self)@,
            !old(self)@.declares_instance(sel@) ==> (match r {
                Err(RegistrationError::MethodNotFound(m)) => m@ == not_found_msg(
                    old(self)@.protocol_name,
                    sel@,
                    false,
                ),
                _ => false,
            }),
            old(self)@.declares_instance(sel@) && contains_text(
                old(self)@.registered_instance,
                sel@,
            ) ==> (match r {
                Err(RegistrationError::AlreadyRegistered(m)) => m@ == already_added_msg(),
                _ => false,
            }),
    {
        let known = descs_find(&self.required_instance_methods, sel) || descs_find(
            &self.optional_instance_methods,
            sel,
        );
        proof {
            assert(known == old(self)@.declares_instance(sel@)) by {
                lemma_descs_concat(
                    old(self)@.required_instance,
                    old(self)@.optional_instance,
                    sel@,
                );
            }
        }
        if !known {
            let mut msg = String::from_str("failed overriding protocol method -[");
            msg.append(self.protocol_name.as_str());
            msg.append(" ");
            msg.append(sel.name());
            msg.append("]: method not found");
            return Err(RegistrationError::MethodNotFound(msg));
        }
        if texts_contain(&self.registered_instance_methods, sel) {
            return Err(RegistrationError::AlreadyRegistered(String::from_str("already added")));
        }
        self.builder.add_method(sel);
        self.registered_instance_methods.push(String::from_str(sel.name()));
        proof {
            assert(final(self)@ =~~= (CpmbModel {
                builder: ClassBuilderModel {
                    instance_methods: old(self)@.builder.instance_methods.push(sel@),
                    ..old(self)@.builder
                },
                registered_instance: old(self)@.registered_instance.push(sel@),
                ..old(self)@
            }));
        }
        Ok(())
    }

    /// Registers a method for class-level dispatch, under the same rules as
    /// instance-level registration but against the class-level declarations
    /// and the class-level registered set.
    pub fn add_class_method(&mut self, sel: &Sel) -> (r: Result<(), RegistrationError>)
        ensures
            r is Ok <==> old(self)@.declares_class(sel@) && !contains_text(
                old(self)@.registered_class,
                sel@,
            ),
            r is Ok ==> final(self)@ == (CpmbModel {
                builder: ClassBuilderModel {
                    class_methods: old(self)@.builder.class_methods.push(sel@),
                    ..old(self)@.builder
                },
                registered_class: old(self)@.registered_class.push(sel@),
                ..old(self)@
            }),
            !(r is Ok) ==> final(self)@ == old(self)@,
            !old(self)@.declares_class(sel@) ==> (match r {
                Err(RegistrationError::MethodNotFound(m)) => m@ == not_found_msg(
                    old(self)@.protocol_name,
                    sel@,
                    true,
                ),
                _ => false,
            }),
            old(self)@.declares_class(sel@) && contains_text(
                old(self)@.registered_class,
                sel@,
            ) ==> (match r {
                Err(RegistrationError::AlreadyRegistered(m)) => m@ == already_added_msg(),
                _ => false,
            }),
    {
        let known = descs_find(&self.required_class_methods, sel) || descs_find(
            &self.optional_class_methods,
            sel,
        );
        proof {
            assert(known == old(self)@.declares_class(sel@)) by {
                lemma_descs_concat(old(self)@.required_class, old(self)@.optional_class, sel@);
            }
        }
        if !known {
            let mut msg = String::from_str("failed overriding protocol method +[");
            msg.append(self.protocol_name.as_str());
            msg.append(" ");
            msg.append(sel.name());
            msg.append("]: method not found");
            return Err(RegistrationError::MethodNotFound(msg));
        }
        if texts_contain(&self.registered_class_methods, sel) {
            return Err(RegistrationError::AlreadyRegistered(String::from_str("already added")));
        }
        self.builder.add_class_method(sel);
        self.registered_class_methods.push(String::from_str(sel.name()));
        proof {
            assert(final(self)@ =~~= (CpmbModel {
                builder: ClassBuilderModel {
                    class_methods: old(self)@.builder.class_methods.push(sel@),
                    ..old(self)@.builder
                },
                registered_class: old(self)@.registered_class.push(sel@),
                ..old(self)@
            }));
        }
        Ok(())
    }

    /// Ends the registration session. Succeeds, handing the class builder
    /// back, exactly when every required method description of both levels
    /// was registered; otherwise reports the first required instance-level —
    /// then class-level — method description left unregistered. Optional
    /// methods impose no obligation.
    pub fn finish(self) -> (r: Result<ClassBuilder, RegistrationError>)
        ensures
            r is Ok <==> self@.all_required_registered(),
            r matches Ok(b) ==> b@ == self@.builder,
            (match spec_first_unregistered(self@.required_instance, self@.registered_instance) {
                Some(d) => match r {
                    Err(RegistrationError::MissingRequired(m)) => m@ == missing_required_msg(
                        self@.protocol_name,
                        d.sel,
                        false,
                    ),
                    _ => false,
                },
                None => true,
            }),
            (match spec_first_unregistered(self@.required_class, self@.registered_class) {
                Some(d) => spec_first_unregistered(
                    self@.required_instance,
                    self@.registered_instance,
                ) is None ==> (match r {
                    Err(RegistrationError::MissingRequired(m)) => m@ == missing_required_msg(
                        self@.protocol_name,
                        d.sel,
                        true,
                    ),
                    _ => false,
                }),
                None => true,
            }),
    {
        let ghost m = self@;
        let n = self.required_instance_methods.len();
        let mut i: usize = 0;
        while i < n
            invariant
                m == self@,
                n == self.required_instance_methods@.len(),
                i <= n,
                forall|k: int| 0 <= k < i ==> contains_text(
                    m.registered_instance,
                    #[trigger] m.required_instance[k].sel,
                ),
            decreases n - i,
        {
            let desc = &self.required_instance_methods[i];
            if !texts_contain(&self.registered_instance_methods, &desc.sel) {
                proof {
                    lemma_first_unregistered_at(m.required_instance, m.registered_instance, i as int);
                }
                let mut msg = String::from_str("must implement required protocol method -[");
                msg.append(self.protocol_name.as_str());
                msg.append(" ");
                msg.append(desc.sel.name());
                msg.append("]");
                return Err(RegistrationError::MissingRequired(msg));
            }
            i = i + 1;
        }
        proof {
            lemma_first_unregistered_at(m.required_instance, m.registered_instance, n as int);
        }
        let nc = self.required_class_methods.len();
        let mut j: usize = 0;
        while j < nc
            invariant
                m == self@,
                nc == self.required_class_methods@.len(),
                j <= nc,
                spec_first_unregistered(m.required_instance, m.registered_instance) is None,
                forall|k: int| 0 <= k < j ==> contains_text(
                    m.registered_class,
                    #[trigger] m.required_class[k].sel,
                ),
            decreases nc - j,
        {
            let desc = &self.required_class_methods[j];
            if !texts_contain(&self.registered_class_methods, &desc.sel) {
                proof {
                    lemma_first_unregistered_at(m.required_class, m.registered_class, j as int);
                }
                let mut msg = String::from_str("must implement required protocol method +[");
                msg.append(self.protocol_name.as_str());
                msg.append(" ");
                msg.append(desc.sel.name());
                msg.append("]");
                return Err(RegistrationError::MissingRequired(msg));
            }
            j = j + 1;
        }
        proof {
            lemma_first_unregistered_at(m.required_class, m.registered_class, nc as int);
        }
        Ok(self.builder)
    }
}

/// Membership in the concatenation of two description lists is membership in
/// either list.
proof fn lemma_descs_concat(a: Seq<MethodDescModel>, b: Seq<MethodDescModel>, sel: Seq<char>)
    ensures
        descs_contain(a + b, sel) <==> descs_contain(a, sel) || descs_contain(b, sel),
{
    let ab = a + b;
    if descs_contain(a, sel) {
        let i = choose|i: int| 0 <= i < a.len() && a[i].sel == sel;
        assert(ab[i] == a[i]);
    }
    if descs_contain(b, sel) {
        let i = choose|i: int| 0 <= i < b.len() && b[i].sel == sel;
        assert(ab[a.len() + i] == b[i]);
    }
    if descs_contain(ab, sel) {
        let i = choose|i: int| 0 <= i < ab.len() && ab[i].sel == sel;
        if i < a.len() {
            assert(a[i] == ab[i]);
        } else {
            assert(b[i - a.len()] == ab[i]);
        }
    }
}

} // verus!
