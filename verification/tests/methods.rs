use mlua_magic_macros::generate::generate;
use mlua_magic_macros::methods::{
    call_entries, classify_receiver, copy_parameters, describe_block, describe_routine,
    extract_method_block, find_receiver, forwarded_parameters, generate_methods_helper,
    implementation, read_method_block, read_signatures,
};
use mlua_magic_macros::model::{
    DeclarationModel, EntryKind, GenError, MethodBlock, Parameter, Receiver, Registration,
    RoutineDescriptor,
};
use mlua_magic_macros::syntax::{
    ArgumentSyntax, ImplSyntax, MemberSyntax, ReceiverSyntax, SignatureSyntax,
};

fn parameter(name: &str, declared_type: &str) -> Parameter {
    Parameter { name: name.to_string(), declared_type: declared_type.to_string() }
}

fn binding(name: &str, declared_type: &str) -> ArgumentSyntax {
    ArgumentSyntax::Binding { name: name.to_string(), declared_type: declared_type.to_string() }
}

fn written(mutable: bool, reference: Option<bool>) -> ReceiverSyntax {
    ReceiverSyntax { mutable, reference }
}

/// `&self`
fn shared() -> ArgumentSyntax {
    ArgumentSyntax::Receiver(written(false, Some(false)))
}

/// `&mut self`
fn exclusive() -> ArgumentSyntax {
    ArgumentSyntax::Receiver(written(true, Some(true)))
}

fn routine(name: &str, receiver: Receiver, parameters: Vec<Parameter>) -> RoutineDescriptor {
    RoutineDescriptor { name: name.to_string(), receiver, parameters }
}

#[test]
fn classify_receiver_three_shapes() {
    assert_eq!(classify_receiver(None), Receiver::Absent);
    assert_eq!(classify_receiver(Some(written(false, Some(false)))), Receiver::ByRef);
    assert_eq!(classify_receiver(Some(written(true, Some(true)))), Receiver::ByMutRef);
}

#[test]
fn classify_receiver_goes_by_the_reference_where_there_is_one() {
    // `self: &mut Self`: no `mut` before `self`, a mutable reference
    assert_eq!(classify_receiver(Some(written(false, Some(true)))), Receiver::ByMutRef);
    // `mut self: &Self`: `mut` before `self`, a shared reference
    assert_eq!(classify_receiver(Some(written(true, Some(false)))), Receiver::ByRef);
}

#[test]
fn classify_receiver_by_value_goes_by_the_binding() {
    // `self`, `self: Box<Self>`
    assert_eq!(classify_receiver(Some(written(false, None))), Receiver::ByRef);
    // `mut self`
    assert_eq!(classify_receiver(Some(written(true, None))), Receiver::ByMutRef);
}

#[test]
fn find_receiver_looks_at_the_first_input() {
    assert_eq!(find_receiver(&vec![]), None);
    assert_eq!(find_receiver(&vec![binding("a", "u8")]), None);
    assert_eq!(find_receiver(&vec![ArgumentSyntax::Pattern, exclusive()]), None);
    assert_eq!(
        find_receiver(&vec![exclusive(), binding("a", "u8")]),
        Some(written(true, Some(true)))
    );
}

#[test]
fn forwarded_parameters_keep_order_and_drop_patterns() {
    let inputs = vec![
        shared(),
        binding("a", "u8"),
        ArgumentSyntax::Pattern,
        binding("b", "String"),
        ArgumentSyntax::Pattern,
        binding("c", "Vec < u8 >"),
    ];
    assert_eq!(
        forwarded_parameters(&inputs),
        vec![parameter("a", "u8"), parameter("b", "String"), parameter("c", "Vec < u8 >")]
    );
}

#[test]
fn forwarded_parameters_of_no_inputs() {
    assert_eq!(forwarded_parameters(&vec![]), Vec::<Parameter>::new());
    assert_eq!(forwarded_parameters(&vec![shared()]), Vec::<Parameter>::new());
}

#[test]
fn describe_routine_from_signature() {
    let signature = SignatureSyntax {
        name: "increment".to_string(),
        inputs: vec![exclusive(), binding("by", "i64")],
    };
    assert_eq!(
        describe_routine(&signature),
        routine("increment", Receiver::ByMutRef, vec![parameter("by", "i64")])
    );
}

#[test]
fn describe_block_keeps_owner_and_order() {
    let signatures = vec![
        SignatureSyntax { name: "get".to_string(), inputs: vec![shared()] },
        SignatureSyntax { name: "new".to_string(), inputs: vec![] },
    ];
    assert_eq!(
        describe_block("Counter", &signatures),
        MethodBlock {
            owner_name: "Counter".to_string(),
            routines: vec![
                routine("get", Receiver::ByRef, vec![]),
                routine("new", Receiver::Absent, vec![]),
            ],
        }
    );
}

#[test]
fn read_signatures_skips_other_members() {
    let members = vec![
        MemberSyntax::Other,
        MemberSyntax::Routine { signature: "fn get (& self) -> i64".to_string() },
        MemberSyntax::Other,
        MemberSyntax::Routine { signature: "fn increment (& mut self , by : i64)".to_string() },
    ];
    assert_eq!(
        read_signatures(&members),
        Ok(vec![
            SignatureSyntax { name: "get".to_string(), inputs: vec![shared()] },
            SignatureSyntax {
                name: "increment".to_string(),
                inputs: vec![exclusive(), binding("by", "i64")],
            },
        ])
    );
}

#[test]
fn read_signatures_first_refusal_decides() {
    let members = vec![
        MemberSyntax::Routine { signature: "fn get (& self) -> i64".to_string() },
        MemberSyntax::Routine { signature: "struct".to_string() },
        MemberSyntax::Routine { signature: "(".to_string() },
    ];
    assert_eq!(
        read_signatures(&members),
        Err(GenError::Syntax { message: "expected `fn`".to_string() })
    );
}

#[test]
fn extract_method_block_from_parsed_block() {
    let syntax = ImplSyntax {
        self_type: "Counter".to_string(),
        members: vec![
            MemberSyntax::Routine { signature: "fn get (& self) -> i64".to_string() },
            MemberSyntax::Other,
        ],
    };
    assert_eq!(
        extract_method_block(&syntax),
        Ok(MethodBlock {
            owner_name: "Counter".to_string(),
            routines: vec![routine("get", Receiver::ByRef, vec![])],
        })
    );
}

#[test]
fn read_method_block_classifies_every_receiver_spelling() {
    let block = read_method_block(
        "impl Counter {
            const START: i64 = 0;
            pub fn new() -> Self { Counter { value: Self::START } }
            fn by_value(self) -> i64 { self.value }
            fn by_mut_value(mut self) -> i64 { self.value += 1; self.value }
            fn by_ref(&self) -> i64 { self.value }
            fn by_mut_ref<'a>(&'a mut self, by: i64) { self.value += by; }
            fn boxed(self: Box<Self>) -> i64 { self.value }
            type Alias = i64;
        }",
    )
    .unwrap();
    assert_eq!(
        block,
        MethodBlock {
            owner_name: "Counter".to_string(),
            routines: vec![
                routine("new", Receiver::Absent, vec![]),
                routine("by_value", Receiver::ByRef, vec![]),
                routine("by_mut_value", Receiver::ByMutRef, vec![]),
                routine("by_ref", Receiver::ByRef, vec![]),
                routine("by_mut_ref", Receiver::ByMutRef, vec![parameter("by", "i64")]),
                routine("boxed", Receiver::ByRef, vec![]),
            ],
        }
    );
}

#[test]
fn read_method_block_drops_destructured_inputs_silently() {
    let block = read_method_block(
        "impl Grid { fn set(&mut self, (x, y): (usize, usize), mut value: u8, _: bool, ref flag: bool, Point { z }: Point, last: Option<&str>) {} }",
    )
    .unwrap();
    assert_eq!(
        block.routines,
        vec![routine(
            "set",
            Receiver::ByMutRef,
            vec![
                parameter("value", "u8"),
                parameter("flag", "bool"),
                parameter("last", "Option < & str >"),
            ],
        )]
    );
}

#[test]
fn read_method_block_keeps_the_self_type_tokens() {
    let block = read_method_block("impl<T> Wrapper<T> { fn get(&self) -> &T { &self.0 } }").unwrap();
    assert_eq!(block.owner_name, "Wrapper < T >");
}

#[test]
fn read_method_block_rejects_what_is_no_method_block() {
    assert_eq!(
        read_method_block("struct Player { hp: i32 }"),
        Err(GenError::Syntax { message: "expected `impl`".to_string() })
    );
}

#[test]
fn copy_parameters_copies() {
    let parameters = vec![parameter("a", "u8"), parameter("b", "String")];
    assert_eq!(copy_parameters(&parameters), parameters);
}

#[test]
fn call_entries_one_per_routine_by_receiver() {
    let block = MethodBlock {
        owner_name: "Counter".to_string(),
        routines: vec![
            routine("new", Receiver::Absent, vec![parameter("start", "i64")]),
            routine("get", Receiver::ByRef, vec![]),
            routine("increment", Receiver::ByMutRef, vec![parameter("by", "i64")]),
        ],
    };
    assert_eq!(
        call_entries(&block),
        vec![
            Registration {
                key: "new".to_string(),
                kind: EntryKind::StaticCall,
                parameters: vec![parameter("start", "i64")],
            },
            Registration { key: "get".to_string(), kind: EntryKind::ReadCall, parameters: vec![] },
            Registration {
                key: "increment".to_string(),
                kind: EntryKind::MutatingCall,
                parameters: vec![parameter("by", "i64")],
            },
        ]
    );
}

#[test]
fn generate_methods_helper_exact_text() {
    let block = MethodBlock {
        owner_name: "Counter".to_string(),
        routines: vec![
            routine("new", Receiver::Absent, vec![]),
            routine("get", Receiver::ByRef, vec![]),
            routine("increment", Receiver::ByMutRef, vec![parameter("by", "i64")]),
            routine(
                "span",
                Receiver::ByRef,
                vec![parameter("from", "i64"), parameter("to", "i64"), parameter("step", "u8")],
            ),
            routine("with", Receiver::Absent, vec![parameter("a", "u8"), parameter("b", "u8")]),
        ],
    };
    let expected = "impl Counter {
    #[doc(hidden)]
    pub fn _to_mlua_methods<M: mlua::UserDataMethods<Self>>(methods: &mut M) -> () {
        methods.add_function(\"new\", |_, (): ()| { Ok(Counter::new()) });
        methods.add_method(\"get\", |_, this, (): ()| { Ok(this.get()) });
        methods.add_method_mut(\"increment\", |_, this, (by,): (i64,)| { Ok(this.increment(by,)) });
        methods.add_method(\"span\", |_, this, (from, to, step,): (i64, i64, u8,)| { Ok(this.span(from, to, step,)) });
        methods.add_function(\"with\", |_, (a, b,): (u8, u8,)| { Ok(Counter::with(a, b,)) });
    }
}
";
    assert_eq!(generate_methods_helper(&block), expected);
    assert_eq!(generate(&DeclarationModel::MethodBlock(block)), expected);
}

#[test]
fn implementation_keeps_the_item_and_appends_the_helper() {
    let item = "impl Counter { fn increment(&mut self, by: i64) { self.value += by; } fn get(&self) -> i64 { self.value } }";
    assert_eq!(
        implementation(item).unwrap(),
        "impl Counter { fn increment(&mut self, by: i64) { self.value += by; } fn get(&self) -> i64 { self.value } }
impl Counter {
    #[doc(hidden)]
    pub fn _to_mlua_methods<M: mlua::UserDataMethods<Self>>(methods: &mut M) -> () {
        methods.add_method_mut(\"increment\", |_, this, (by,): (i64,)| { Ok(this.increment(by,)) });
        methods.add_method(\"get\", |_, this, (): ()| { Ok(this.get()) });
    }
}
"
    );
}

#[test]
fn implementation_of_empty_block_registers_nothing() {
    assert_eq!(
        implementation("impl Counter {}").unwrap(),
        "impl Counter {}
impl Counter {
    #[doc(hidden)]
    pub fn _to_mlua_methods<M: mlua::UserDataMethods<Self>>(methods: &mut M) -> () {
    }
}
"
    );
}

#[test]
fn implementation_fails_on_what_is_no_method_block() {
    assert_eq!(
        implementation("fn free() {}"),
        Err(GenError::Syntax { message: "expected `impl`".to_string() })
    );
}

#[test]
fn read_method_block_reads_qualified_and_generic_signatures() {
    let block = read_method_block(
        "impl Store {
            pub const fn capacity() -> usize { 8 }
            pub async unsafe fn fetch<'a, T: Clone>(&'a self, key: &'a str, fallback: T) -> T where T: Send { fallback }
            extern \"C\" fn raw(code: i32) -> i32 { code }
            #[inline]
            pub(crate) fn put(&mut self, key: String, value: impl Into<String>, f: fn(u8) -> u8) {}
        }",
    )
    .unwrap();
    assert_eq!(
        block.routines,
        vec![
            routine("capacity", Receiver::Absent, vec![]),
            routine(
                "fetch",
                Receiver::ByRef,
                vec![parameter("key", "& 'a str"), parameter("fallback", "T")],
            ),
            routine("raw", Receiver::Absent, vec![parameter("code", "i32")]),
            routine(
                "put",
                Receiver::ByMutRef,
                vec![
                    parameter("key", "String"),
                    parameter("value", "impl Into < String >"),
                    parameter("f", "fn (u8) -> u8"),
                ],
            ),
        ]
    );
}

#[test]
fn read_method_block_of_trait_impl_takes_the_self_type() {
    let block = read_method_block(
        "impl std::fmt::Display for Counter { fn fmt(&self, f: &mut std::fmt::Formatter) -> std::fmt::Result { Ok(()) } }",
    )
    .unwrap();
    assert_eq!(
        block,
        MethodBlock {
            owner_name: "Counter".to_string(),
            routines: vec![routine(
                "fmt",
                Receiver::ByRef,
                vec![parameter("f", "& mut std :: fmt :: Formatter")],
            )],
        }
    );
}

#[test]
fn read_method_block_mutable_receiver_written_with_its_type() {
    let block = read_method_block(
        "impl T {
            fn bump(self: &mut Self, by: i32) {}
            fn bump_for<'a>(self: &'a mut Self, by: i32) {}
            fn bump_short(&mut self, by: i32) {}
            fn bump_rebound(mut self: &mut Self, by: i32) {}
        }",
    )
    .unwrap();
    let by = || vec![parameter("by", "i32")];
    assert_eq!(
        block.routines,
        vec![
            routine("bump", Receiver::ByMutRef, by()),
            routine("bump_for", Receiver::ByMutRef, by()),
            routine("bump_short", Receiver::ByMutRef, by()),
            routine("bump_rebound", Receiver::ByMutRef, by()),
        ]
    );
}

#[test]
fn read_method_block_shared_receiver_written_with_its_type() {
    let block = read_method_block(
        "impl T {
            fn peek(self: &Self) -> i32 { 0 }
            fn peek_for<'a>(self: &'a Self) -> i32 { 0 }
            fn peek_short<'a>(&'a self) -> i32 { 0 }
            fn peek_rebound(mut self: &Self) -> i32 { 0 }
        }",
    )
    .unwrap();
    assert_eq!(
        block.routines,
        vec![
            routine("peek", Receiver::ByRef, vec![]),
            routine("peek_for", Receiver::ByRef, vec![]),
            routine("peek_short", Receiver::ByRef, vec![]),
            routine("peek_rebound", Receiver::ByRef, vec![]),
        ]
    );
}

#[test]
fn read_method_block_receiver_that_is_no_reference_goes_by_its_binding() {
    let block = read_method_block(
        "impl T {
            fn a(self) {}
            fn b(mut self) {}
            fn c(self: Self) {}
            fn d(mut self: Box<Self>) {}
            fn e(self: std::pin::Pin<&mut Self>) {}
            fn f(self: std::rc::Rc<Self>) {}
        }",
    )
    .unwrap();
    assert_eq!(
        block.routines,
        vec![
            routine("a", Receiver::ByRef, vec![]),
            routine("b", Receiver::ByMutRef, vec![]),
            routine("c", Receiver::ByRef, vec![]),
            routine("d", Receiver::ByMutRef, vec![]),
            routine("e", Receiver::ByRef, vec![]),
            routine("f", Receiver::ByRef, vec![]),
        ]
    );
}

#[test]
fn implementation_registers_a_typed_mutable_receiver_as_a_mutating_call() {
    let item = "impl T { fn bump(self: &mut Self, by: i32) {} }";
    assert_eq!(
        implementation(item).unwrap(),
        "impl T { fn bump(self: &mut Self, by: i32) {} }
impl T {
    #[doc(hidden)]
    pub fn _to_mlua_methods<M: mlua::UserDataMethods<Self>>(methods: &mut M) -> () {
        methods.add_method_mut(\"bump\", |_, this, (by,): (i32,)| { Ok(this.bump(by,)) });
    }
}
"
    );
    assert_eq!(
        implementation("impl T { fn bump<'a>(self: &'a mut Self, by: i32) {} }").unwrap(),
        "impl T { fn bump<'a>(self: &'a mut Self, by: i32) {} }
impl T {
    #[doc(hidden)]
    pub fn _to_mlua_methods<M: mlua::UserDataMethods<Self>>(methods: &mut M) -> () {
        methods.add_method_mut(\"bump\", |_, this, (by,): (i32,)| { Ok(this.bump(by,)) });
    }
}
"
    );
}

#[test]
fn read_signatures_copies_the_receiver_as_written() {
    let members = vec![
        MemberSyntax::Routine { signature: "fn a (self : & mut Self)".to_string() },
        MemberSyntax::Routine { signature: "fn b (mut self : & 'a Self)".to_string() },
        MemberSyntax::Routine { signature: "fn c (mut self)".to_string() },
        MemberSyntax::Routine { signature: "fn d (self : Box < Self >)".to_string() },
    ];
    let inputs: Vec<Vec<ArgumentSyntax>> =
        read_signatures(&members).unwrap().into_iter().map(|s| s.inputs).collect();
    assert_eq!(
        inputs,
        vec![
            vec![ArgumentSyntax::Receiver(written(false, Some(true)))],
            vec![ArgumentSyntax::Receiver(written(true, Some(false)))],
            vec![ArgumentSyntax::Receiver(written(true, None))],
            vec![ArgumentSyntax::Receiver(written(false, None))],
        ]
    );
}
