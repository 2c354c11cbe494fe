use ctrlgen::analyze::is_arg_marker;
use ctrlgen::analyze::is_method_marker;
use ctrlgen::analyze::InputError;
use ctrlgen::analyze::InputErrorKind;
use ctrlgen::config::parse_args;
use ctrlgen::config::ArgError;
use ctrlgen::config::ArgErrorKind;
use ctrlgen::expand::ctrlgen_impl;
use ctrlgen::expand::generate_named;
use ctrlgen::expand::GenError;
use ctrlgen::model::InputData;
use ctrlgen::model::Params;
use ctrlgen::model::ReceiverStyle;
use ctrlgen::render::render_dispatch;
use ctrlgen::render::render_enum;
use ctrlgen::render::render_proxy;
use ctrlgen::source::ArgPattern;
use ctrlgen::source::PathSegment;
use ctrlgen::source::SelfType;
use ctrlgen::source::SourceAttr;
use ctrlgen::source::SourceImpl;
use ctrlgen::source::SourceInput;
use ctrlgen::source::SourceMethod;
use ctrlgen::source::SourceSig;
use ctrlgen::source::SourceType;
use ctrlgen::tokens::render_tokens;
use ctrlgen::tokens::Delim;
use ctrlgen::tokens::Tok;

fn ident(s: &str) -> Tok {
    Tok::Ident(s.to_string())
}

fn punct(c: char) -> Tok {
    Tok::Punct { ch: c, joint: false }
}

fn joint(c: char) -> Tok {
    Tok::Punct { ch: c, joint: true }
}

fn group(delim: Delim, inner: Vec<Tok>, text: &str) -> Tok {
    Tok::Group { delim, inner, text: text.to_string() }
}

fn attr(name: &str, args: Vec<Tok>, text: &str) -> SourceAttr {
    SourceAttr { name: Some(name.to_string()), args, text: text.to_string() }
}

fn doc(text: &str) -> SourceAttr {
    attr("doc", vec![punct('='), Tok::Literal(format!("r\"{text}\""))], &format!("#[doc = r\"{text}\"]"))
}

fn receiver() -> SourceInput {
    SourceInput::Receiver { reference: true, mutable: true, lifetime: false }
}

fn typed(name: &str, ty: &str, referent: Option<&str>, attrs: Vec<SourceAttr>) -> SourceInput {
    SourceInput::Typed {
        attrs,
        pattern: ArgPattern::Ident { name: name.to_string(), by_ref: false },
        ty: SourceType { text: ty.to_string(), referent: referent.map(|r| r.to_string()) },
    }
}

fn arg(name: &str, ty: &str) -> SourceInput {
    typed(name, ty, None, vec![])
}

fn sig(name: &str, inputs: Vec<SourceInput>, output: Option<&str>) -> SourceSig {
    SourceSig {
        is_const: false,
        is_async: false,
        is_unsafe: false,
        has_abi: false,
        has_generics: false,
        is_variadic: false,
        name: name.to_string(),
        inputs,
        output: output.map(|o| o.to_string()),
    }
}

fn method(attrs: Vec<SourceAttr>, sig: SourceSig) -> SourceMethod {
    SourceMethod { is_default: false, attrs, sig }
}

fn block(name: &str, methods: Vec<SourceMethod>) -> SourceImpl {
    SourceImpl {
        is_default: false,
        is_unsafe: false,
        is_trait_impl: false,
        self_ty: SelfType::Path {
            qself: false,
            segments: vec![PathSegment { ident: name.to_string(), args: String::new() }],
        },
        generic_params: String::new(),
        where_predicates: vec![],
        methods,
    }
}

fn params(toks: Vec<Tok>) -> Params {
    parse_args(&toks).unwrap()
}

/// `pub enum ServiceMsg, returnval = LocalRetval, proxy(trait ServiceProxy)`
fn counter_args() -> Vec<Tok> {
    vec![
        ident("pub"),
        ident("enum"),
        ident("ServiceMsg"),
        punct(','),
        ident("returnval"),
        punct('='),
        ident("LocalRetval"),
        punct(','),
        ident("proxy"),
        group(Delim::Paren, vec![ident("trait"), ident("ServiceProxy")], "(trait ServiceProxy)"),
    ]
}

fn counter_block() -> SourceImpl {
    block(
        "Service",
        vec![method(vec![], sig("increment_by", vec![receiver(), arg("arg", "i32")], Some("i32")))],
    )
}

fn counter_data() -> InputData {
    InputData::parse_inherent_impl(&counter_block(), params(counter_args())).unwrap()
}

fn input_error(args: Vec<Tok>, item: SourceImpl) -> InputError {
    match ctrlgen_impl(&args, &item) {
        Err(GenError::Input(e)) => e,
        other => panic!("expected an input error, got {:?}", other.map(|_| ())),
    }
}

fn arg_error(args: Vec<Tok>) -> ArgError {
    match parse_args(&args) {
        Err(e) => e,
        Ok(p) => panic!("expected an argument error, got {:?}", p),
    }
}

fn plain_args() -> Vec<Tok> {
    vec![ident("enum"), ident("Msg")]
}

fn rv_args() -> Vec<Tok> {
    vec![ident("enum"), ident("Msg"), punct(','), ident("returnval"), punct('='), ident("R")]
}

fn one_method(m: SourceMethod) -> SourceImpl {
    block("Service", vec![m])
}

fn foo(inputs: Vec<SourceInput>) -> SourceMethod {
    method(vec![], sig("foo", inputs, None))
}

#[test]
fn preserve_documentation_enum() {
    let p = params(vec![ident("enum"), ident("Msg")]);
    let b = block("Struct", vec![method(vec![doc(" Foo function")], sig("foo", vec![receiver()], None))]);
    let input = InputData::parse_inherent_impl(&b, p).unwrap();
    let generated = render_enum(&input.generate_enum());
    assert_eq!(generated, " enum Msg {\n#[doc = r\" Foo function\"]\nFoo {\n},\n}\n");
}

#[test]
fn preserve_documentation_proxy() {
    let p = params(vec![ident("enum"), ident("Msg"), punct(','), ident("trait"), ident("Proxy")]);
    let b = block("Struct", vec![method(vec![doc(" Foo function")], sig("foo", vec![receiver()], None))]);
    let input = InputData::parse_inherent_impl(&b, p).unwrap();
    let proxies = input.generate_proxies();
    assert_eq!(proxies.len(), 1);
    assert_eq!(proxies[0].methods[0].docs, vec!["#[doc = r\" Foo function\"]".to_string()]);
    let text = render_proxy(&proxies[0]);
    assert_eq!(
        text,
        " trait Proxy: ::ctrlgen::Proxy<Msg> {\n#[doc = r\" Foo function\"]\nfn foo(&self, ) {\nlet msg = Msg::Foo { };\n<Self as ::ctrlgen::Proxy<Msg>>::send(self, msg);\n}\n}\nimpl<T: ::ctrlgen::Proxy<Msg>> Proxy for T {}\n"
    );
}

#[test]
fn counter_enum_text() {
    let d = counter_data();
    let e = d.generate_enum();
    assert_eq!(e.variants.len(), 1);
    assert_eq!(
        render_enum(&e),
        "pub enum ServiceMsg where LocalRetval: ::ctrlgen::Returnval,  {\nIncrementBy {\narg: i32,\nret: <LocalRetval as ::ctrlgen::ReturnChannel<i32>>::SendHalf,\n},\n}\n"
    );
}

#[test]
fn counter_dispatch_text() {
    let d = counter_data();
    let c = d.generate_call_impl();
    assert!(!c.is_async);
    assert_eq!(
        render_dispatch(&c),
        "impl<> ::ctrlgen::CallMut<Service> for ServiceMsg where LocalRetval: ::ctrlgen::Returnval,  {\ntype Error = <LocalRetval as ::ctrlgen::Returnval>::SendError;\ntype Context = ();\nfn call_mut_with_ctx(self, this: &mut Service, _: ()) -> ::core::result::Result<(), Self::Error> {\nmatch self {\nSelf::IncrementBy { arg, ret, } => {\n<LocalRetval as ::ctrlgen::ReturnChannel<i32>>::send(ret, this.increment_by(arg, ))\n}\n}\n}\n}\n"
    );
}

#[test]
fn counter_proxy_text() {
    let d = counter_data();
    let p = d.generate_proxy_trait(&"ServiceProxy".to_string());
    assert_eq!(
        render_proxy(&p),
        "pub trait ServiceProxy: ::ctrlgen::Proxy<ServiceMsg> {\nfn increment_by(&self, arg: i32, ) -> <LocalRetval as ::ctrlgen::ReturnChannel<i32>>::RecvResult {\nlet ret = <LocalRetval as ::ctrlgen::ReturnChannel<i32>>::create();\nlet msg = ServiceMsg::IncrementBy { arg, ret: ret.0, };\n<Self as ::ctrlgen::Proxy<ServiceMsg>>::send(self, msg);\n<LocalRetval as ::ctrlgen::ReturnChannel<i32>>::recv(ret.1)\n}\n}\nimpl<T: ::ctrlgen::Proxy<ServiceMsg>> ServiceProxy for T {}\n"
    );
}

#[test]
fn whole_expansion_concatenates_parts() {
    let d = counter_data();
    let whole = ctrlgen_impl(&counter_args(), &counter_block()).unwrap();
    let expected = render_enum(&d.generate_enum())
        + &render_dispatch(&d.generate_call_impl())
        + &render_proxy(&d.generate_proxy_trait(&"ServiceProxy".to_string()));
    assert_eq!(whole, expected);
}

#[test]
fn named_generators_use_given_names() {
    let d = counter_data();
    let names = vec!["Bump".to_string()];
    assert_eq!(d.generate_enum_named(&names).variants[0].name, "Bump");
    assert_eq!(d.generate_call_impl_named(&names).cases[0].variant, "Bump");
    assert_eq!(d.generate_proxy_trait_named(&"P".to_string(), &names).methods[0].variant, "Bump");
    let text = generate_named(&d, &names);
    assert!(text.contains("Bump {\narg: i32,"));
    assert!(text.contains("Self::Bump { arg, ret, }"));
    assert!(text.contains("ServiceMsg::Bump { arg, ret: ret.0, }"));
}

#[test]
fn where_clause_and_async_flag() {
    let d = counter_data();
    assert_eq!(d.make_where_clause(), vec!["LocalRetval: ::ctrlgen::Returnval"]);
    assert!(!d.has_async_functions());
    assert_eq!(d.methods[0].variant_name(), "IncrementBy");
}

#[test]
fn variant_names_are_upper_camel_case() {
    let b = block(
        "S",
        vec![
            foo(vec![receiver()]),
            method(vec![], sig("increment_by", vec![receiver()], None)),
            method(vec![], sig("set_flag", vec![receiver()], None)),
        ],
    );
    let d = InputData::parse_inherent_impl(&b, params(plain_args())).unwrap();
    assert_eq!(d.generate_variant_names(), vec!["Foo", "IncrementBy", "SetFlag"]);
}

#[test]
fn set_flag_without_return_channel() {
    let b = block("Service", vec![method(vec![], sig("set_flag", vec![receiver(), arg("flag", "bool")], None))]);
    let text = ctrlgen_impl(&vec![ident("pub"), ident("enum"), ident("ServiceMsg")], &b).unwrap();
    assert!(text.starts_with("pub enum ServiceMsg {\nSetFlag {\nflag: bool,\n},\n}\n"));
    assert!(text.contains("type Error = ::core::convert::Infallible;"));
    assert!(text.contains("Self::SetFlag { flag, } => {\nthis.set_flag(flag, );\n::core::result::Result::Ok(())\n}"));
}

#[test]
fn async_method_makes_async_dispatcher() {
    let mut s = sig("set_flag", vec![receiver(), arg("flag", "bool")], None);
    s.is_async = true;
    let b = block("Service", vec![method(vec![], sig("get", vec![receiver()], None)), method(vec![], s)]);
    let d = InputData::parse_inherent_impl(&b, params(plain_args())).unwrap();
    let c = d.generate_call_impl();
    assert!(c.is_async);
    assert!(!c.cases[0].awaited);
    assert!(c.cases[1].awaited);
    let text = render_dispatch(&c);
    assert!(text.starts_with("impl<'ctrlgen, > ::ctrlgen::CallMutAsync<'ctrlgen, Service> for Msg where Service: 'ctrlgen, Msg: 'ctrlgen, {\n"));
    assert!(text.contains("this.set_flag(flag, ).await;"));
    assert!(text.contains("this.get();"));
}

#[test]
fn context_is_passed_first_and_not_stored() {
    let args = vec![
        ident("enum"),
        ident("Msg"),
        punct(','),
        ident("context"),
        group(Delim::Paren, vec![ident("ctx"), punct(':'), ident("i32")], "(ctx: i32)"),
    ];
    let b = block("Service", vec![method(vec![], sig("increment_by", vec![receiver(), arg("ctx", "i32"), arg("arg", "i32")], None))]);
    let p = params(args);
    let c = p.context.as_ref().unwrap();
    assert_eq!((c.name.as_str(), c.ty.as_str()), ("ctx", "i32"));
    let d = InputData::parse_inherent_impl(&b, p).unwrap();
    assert_eq!(d.methods[0].args.len(), 1);
    assert_eq!(d.methods[0].args[0].name, "arg");
    let text = render_dispatch(&d.generate_call_impl());
    assert!(text.contains("type Context = i32;"));
    assert!(text.contains("fn call_mut_with_ctx(self, this: &mut Service, ctx: i32)"));
    assert!(text.contains("Self::IncrementBy { arg, } => {\nthis.increment_by(ctx, arg, );"));
}

#[test]
fn owned_argument_is_converted() {
    let owned = attr("ctrlgen_to_owned", vec![], "#[ctrlgen_to_owned]");
    let b = block(
        "Service",
        vec![method(vec![], sig("rename", vec![receiver(), typed("name", "&str", Some("str"), vec![owned])], None))],
    );
    let d = InputData::parse_inherent_impl(&b, params(plain_args())).unwrap();
    assert!(d.methods[0].args[0].to_owned);
    let e = d.generate_enum();
    assert_eq!(e.variants[0].fields[0].ty, "<str as ::std::borrow::ToOwned>::Owned");
    let p = d.generate_proxy_trait(&"P".to_string());
    assert_eq!(p.methods[0].params[0].ty, "&str");
    assert_eq!(p.methods[0].inits[0], "name: ::std::borrow::ToOwned::to_owned(name)");
}

#[test]
fn field_and_return_attributes_are_attached() {
    let field_attr = attr("ctrlgen_enum_attr", vec![group(Delim::Bracket, vec![], "[serde(skip)]")], "#[ctrlgen_enum_attr[serde(skip)]]");
    let variant_attr = attr("ctrlgen_enum_attr", vec![group(Delim::Bracket, vec![], "[allow(dead_code)]")], "");
    let ret_attr = attr("ctrlgen_return_attr", vec![group(Delim::Bracket, vec![], "[allow(unused)]")], "");
    let b = block(
        "Service",
        vec![method(
            vec![variant_attr, ret_attr],
            sig("get", vec![receiver(), typed("key", "u8", None, vec![field_attr])], Some("u32")),
        )],
    );
    let d = InputData::parse_inherent_impl(&b, params(rv_args())).unwrap();
    let e = d.generate_enum();
    let v = &e.variants[0];
    assert_eq!(v.attrs, vec!["#[allow(dead_code)]"]);
    assert_eq!(v.fields.len(), 2);
    assert_eq!(v.fields[0].attrs, vec!["#[serde(skip)]"]);
    assert_eq!(v.fields[1].name, "ret");
    assert_eq!(v.fields[1].attrs, vec!["#[allow(unused)]"]);
    assert_eq!(v.fields[1].ty, "<R as ::ctrlgen::ReturnChannel<u32>>::SendHalf");
    assert_eq!(e.where_predicates, vec!["R: ::ctrlgen::Returnval"]);
}

#[test]
fn receiver_styles() {
    let mk = |reference: bool, mutable: bool| {
        let b = one_method(foo(vec![SourceInput::Receiver { reference, mutable, lifetime: false }]));
        InputData::parse_inherent_impl(&b, params(plain_args())).unwrap().methods[0].receiver
    };
    assert_eq!(mk(false, false), ReceiverStyle::Move);
    assert_eq!(mk(true, true), ReceiverStyle::Mut);
    assert_eq!(mk(true, false), ReceiverStyle::Ref);
}

#[test]
fn markers_are_recognised() {
    let e = attr("ctrlgen_enum_attr", vec![], "");
    let r = attr("ctrlgen_return_attr", vec![], "");
    let o = attr("ctrlgen_to_owned", vec![], "");
    let d = attr("doc", vec![], "");
    assert!(is_method_marker(&e) && is_method_marker(&r) && !is_method_marker(&o) && !is_method_marker(&d));
    assert!(is_arg_marker(&e) && is_arg_marker(&o) && is_arg_marker(&r) && !is_arg_marker(&d));
}

#[test]
fn parse_full_arguments() {
    let toks = vec![
        punct('#'),
        group(Delim::Bracket, vec![], "[derive(Clone)]"),
        ident("pub"),
        group(Delim::Paren, vec![ident("crate")], "(crate)"),
        ident("enum"),
        ident("ServiceMsg"),
        punct(','),
        ident("enum_attr"),
        group(Delim::Bracket, vec![], "[derive(Debug)]"),
        punct(','),
        ident("returnval"),
        punct('='),
        ident("ctrlgen"),
        joint(':'),
        punct(':'),
        ident("Chan"),
        punct('<'),
        ident("A"),
        punct(','),
        ident("B"),
        punct('>'),
        punct(','),
        ident("proxy"),
        group(
            Delim::Brace,
            vec![ident("trait"), ident("P1"), punct(';'), ident("trait"), ident("P2"), punct(';')],
            "{trait P1; trait P2;}",
        ),
        punct(','),
        ident("trait"),
        ident("P3"),
        punct(','),
    ];
    let p = params(toks);
    assert_eq!(p.enum_attrs, vec!["#[derive(Clone)]", "#[derive(Debug)]"]);
    assert_eq!(p.visibility, "pub(crate)");
    assert_eq!(p.enum_name, "ServiceMsg");
    assert_eq!(p.returnval.as_deref(), Some("ctrlgen :: Chan < A , B >"));
    assert_eq!(p.proxies, vec!["P1", "P2", "P3"]);
    assert!(p.context.is_none());
}

#[test]
fn enum_keyword_is_optional() {
    let p = params(vec![ident("pub"), ident("ServiceMsg")]);
    assert_eq!(p.visibility, "pub");
    assert_eq!(p.enum_name, "ServiceMsg");
    let q = params(vec![ident("Msg")]);
    assert_eq!(q.visibility, "");
}

#[test]
fn render_tokens_joins_operators() {
    let toks = vec![ident("a"), joint('-'), punct('>'), ident("b")];
    assert_eq!(render_tokens(&toks, 0, 4), "a -> b");
    assert_eq!(render_tokens(&toks, 1, 3), "->");
    assert_eq!(render_tokens(&toks, 2, 2), "");
}

#[test]
fn returnval_type_with_arrow() {
    let toks = vec![
        ident("Msg"),
        punct(','),
        ident("returnval"),
        punct('='),
        ident("F"),
        punct('<'),
        ident("fn"),
        group(Delim::Paren, vec![], "()"),
        joint('-'),
        punct('>'),
        ident("u8"),
        punct(','),
        ident("u16"),
        punct('>'),
    ];
    assert_eq!(params(toks).returnval.as_deref(), Some("F < fn () -> u8 , u16 >"));
}

#[test]
fn argument_errors() {
    let e = |toks: Vec<Tok>| arg_error(toks);
    assert_eq!(e(vec![]), ArgError { kind: ArgErrorKind::ExpectedEnumName, at: 0 });
    assert_eq!(e(vec![ident("pub"), punct(',')]), ArgError { kind: ArgErrorKind::ExpectedEnumName, at: 1 });
    assert_eq!(e(vec![ident("Msg"), ident("x")]), ArgError { kind: ArgErrorKind::ExpectedComma, at: 1 });
    assert_eq!(e(vec![ident("Msg"), punct(','), ident("bogus")]), ArgError { kind: ArgErrorKind::UnknownArgument, at: 2 });
    assert_eq!(e(vec![ident("Msg"), punct(','), punct('=')]), ArgError { kind: ArgErrorKind::UnknownArgument, at: 2 });
    assert_eq!(e(vec![ident("Msg"), punct(','), ident("enum_attr")]), ArgError { kind: ArgErrorKind::ExpectedGroup, at: 2 });
    assert_eq!(e(vec![ident("Msg"), punct(','), ident("returnval"), ident("R")]), ArgError { kind: ArgErrorKind::ExpectedEquals, at: 2 });
    assert_eq!(e(vec![ident("Msg"), punct(','), ident("returnval"), punct('='), punct(',')]), ArgError { kind: ArgErrorKind::MissingType, at: 2 });
    assert_eq!(e(vec![ident("Msg"), punct(','), ident("trait"), punct(';')]), ArgError { kind: ArgErrorKind::MalformedProxy, at: 2 });
    assert_eq!(
        e(vec![ident("Msg"), punct(','), ident("proxy"), group(Delim::Paren, vec![ident("struct"), ident("P")], "(struct P)")]),
        ArgError { kind: ArgErrorKind::MalformedProxy, at: 3 }
    );
    assert_eq!(e(vec![ident("Msg"), punct(','), ident("proxy"), ident("P")]), ArgError { kind: ArgErrorKind::ExpectedGroup, at: 2 });
    assert_eq!(
        e(vec![ident("Msg"), punct(','), ident("context"), group(Delim::Paren, vec![ident("ctx")], "(ctx)")]),
        ArgError { kind: ArgErrorKind::MalformedContext, at: 3 }
    );
    let ctx = || group(Delim::Paren, vec![ident("c"), punct(':'), ident("u8")], "(c: u8)");
    assert_eq!(
        e(vec![ident("Msg"), punct(','), ident("context"), ctx(), punct(','), ident("context"), ctx()]),
        ArgError { kind: ArgErrorKind::DuplicateContext, at: 5 }
    );
}

fn two_returnvals() -> Vec<Tok> {
    vec![
        ident("Msg"),
        punct(','),
        ident("returnval"),
        punct('='),
        ident("A"),
        punct(','),
        ident("returnval"),
        punct('='),
        ident("B"),
    ]
}

#[test]
fn two_returnval_clauses_are_rejected() {
    assert_eq!(arg_error(two_returnvals()), ArgError { kind: ArgErrorKind::DuplicateReturnval, at: 6 });
    let b = one_method(foo(vec![receiver()]));
    assert_eq!(
        ctrlgen_impl(&two_returnvals(), &b).err(),
        Some(GenError::Args(ArgError { kind: ArgErrorKind::DuplicateReturnval, at: 6 }))
    );
}

#[test]
fn return_value_without_channel_is_rejected() {
    let b = one_method(method(vec![], sig("get", vec![receiver()], Some("i32"))));
    assert_eq!(input_error(plain_args(), b), InputError { kind: InputErrorKind::ReturnWithoutReturnval, method: Some(0) });
}

#[test]
fn owned_marker_on_value_is_rejected() {
    let owned = attr("ctrlgen_to_owned", vec![], "#[ctrlgen_to_owned]");
    let b = one_method(foo(vec![receiver(), typed("n", "u8", None, vec![owned])]));
    assert_eq!(input_error(plain_args(), b), InputError { kind: InputErrorKind::ToOwnedNotReference, method: Some(0) });
}

#[test]
fn argument_named_ret_is_rejected_with_channel() {
    let b = one_method(foo(vec![receiver(), arg("ret", "u8")]));
    assert_eq!(input_error(rv_args(), b), InputError { kind: InputErrorKind::ReservedRet, method: Some(0) });
    let ok = one_method(foo(vec![receiver(), arg("ret", "u8")]));
    assert!(ctrlgen_impl(&plain_args(), &ok).is_ok());
}

#[test]
fn block_errors() {
    let mut b = one_method(foo(vec![receiver()]));
    b.is_default = true;
    assert_eq!(input_error(plain_args(), b), InputError { kind: InputErrorKind::DefaultImpl, method: None });
    let mut b = one_method(foo(vec![receiver()]));
    b.is_unsafe = true;
    assert_eq!(input_error(plain_args(), b), InputError { kind: InputErrorKind::UnsafeImpl, method: None });
    let mut b = one_method(foo(vec![receiver()]));
    b.is_trait_impl = true;
    assert_eq!(input_error(plain_args(), b), InputError { kind: InputErrorKind::TraitImpl, method: None });
    let mut b = one_method(foo(vec![receiver()]));
    b.self_ty = SelfType::Path { qself: true, segments: vec![] };
    assert_eq!(input_error(plain_args(), b), InputError { kind: InputErrorKind::QualifiedSelfType, method: None });
    let mut b = one_method(foo(vec![receiver()]));
    b.self_ty = SelfType::Path {
        qself: false,
        segments: vec![
            PathSegment { ident: "a".to_string(), args: String::new() },
            PathSegment { ident: "S".to_string(), args: String::new() },
        ],
    };
    assert_eq!(input_error(plain_args(), b), InputError { kind: InputErrorKind::MultiSegmentSelfType, method: None });
    let mut b = one_method(foo(vec![receiver()]));
    b.self_ty = SelfType::Other;
    assert_eq!(input_error(plain_args(), b), InputError { kind: InputErrorKind::UnsupportedSelfType, method: None });
}

#[test]
fn method_errors() {
    let check = |m: SourceMethod, kind: InputErrorKind| {
        let b = block("S", vec![foo(vec![receiver()]), m]);
        assert_eq!(input_error(plain_args(), b), InputError { kind, method: Some(1) });
    };
    let mut m = foo(vec![receiver()]);
    m.is_default = true;
    check(m, InputErrorKind::DefaultMethod);
    let mut m = foo(vec![receiver()]);
    m.sig.is_const = true;
    check(m, InputErrorKind::ConstMethod);
    let mut m = foo(vec![receiver()]);
    m.sig.is_unsafe = true;
    check(m, InputErrorKind::UnsafeMethod);
    let mut m = foo(vec![receiver()]);
    m.sig.has_abi = true;
    check(m, InputErrorKind::AbiMethod);
    let mut m = foo(vec![receiver()]);
    m.sig.has_generics = true;
    check(m, InputErrorKind::GenericMethod);
    let mut m = foo(vec![receiver()]);
    m.sig.is_variadic = true;
    check(m, InputErrorKind::VariadicMethod);
    let m = method(vec![attr("ctrlgen_enum_attr", vec![ident("x")], "")], sig("foo", vec![receiver()], None));
    check(m, InputErrorKind::MalformedMarker);
    let m = foo(vec![receiver(), typed("n", "u8", None, vec![attr("ctrlgen_to_owned", vec![ident("x")], "")])]);
    check(m, InputErrorKind::MalformedMarker);
    check(foo(vec![SourceInput::Receiver { reference: true, mutable: false, lifetime: true }]), InputErrorKind::ReceiverLifetime);
    check(
        foo(vec![receiver(), SourceInput::Typed { attrs: vec![], pattern: ArgPattern::Other, ty: SourceType { text: "(u8, u8)".to_string(), referent: None } }]),
        InputErrorKind::PatternArgument,
    );
    check(
        foo(vec![receiver(), SourceInput::Typed { attrs: vec![], pattern: ArgPattern::Ident { name: "x".to_string(), by_ref: true }, ty: SourceType { text: "u8".to_string(), referent: None } }]),
        InputErrorKind::RefBinding,
    );
    check(foo(vec![arg("x", "u8")]), InputErrorKind::NoReceiver);
    let m = method(vec![attr("ctrlgen_return_attr", vec![group(Delim::Bracket, vec![], "[a]")], "")], sig("foo", vec![receiver()], None));
    check(m, InputErrorKind::ReturnAttrWithoutReturn);
}

#[test]
fn context_mode_needs_context_argument() {
    let args = vec![
        ident("Msg"),
        punct(','),
        ident("context"),
        group(Delim::Paren, vec![ident("c"), punct(':'), ident("u8")], "(c: u8)"),
    ];
    let b = one_method(foo(vec![receiver()]));
    assert_eq!(input_error(args, b), InputError { kind: InputErrorKind::MissingContext, method: Some(0) });
}

#[test]
fn error_messages_are_given() {
    assert_eq!(InputErrorKind::ReservedRet.message(), "In `returnval` mode, method's arguments cannot be named literally `ret`.");
    assert_eq!(ArgErrorKind::DuplicateReturnval.message(), "Argument `returnval` specified twice");
}

#[test]
fn channel_bound_without_replying_method() {
    let mut b = one_method(foo(vec![receiver()]));
    b.where_predicates = vec!["T: Copy".to_string()];
    let d = InputData::parse_inherent_impl(&b, params(rv_args())).unwrap();
    assert_eq!(d.generate_enum().where_predicates, vec!["R: ::ctrlgen::Returnval"]);
    assert_eq!(d.make_where_clause(), vec!["T: Copy", "R: ::ctrlgen::Returnval"]);
    let text = render_enum(&d.generate_enum());
    assert_eq!(text, " enum Msg where R: ::ctrlgen::Returnval,  {\nFoo {\n},\n}\n");
    let plain = InputData::parse_inherent_impl(&one_method(foo(vec![receiver()])), params(plain_args())).unwrap();
    assert!(plain.generate_enum().where_predicates.is_empty());
    assert!(plain.make_where_clause().is_empty());
}

#[test]
fn return_marker_on_argument_is_rejected() {
    let ret_attr = attr("ctrlgen_return_attr", vec![group(Delim::Bracket, vec![], "[a]")], "");
    let b = one_method(foo(vec![receiver(), typed("n", "u8", None, vec![ret_attr])]));
    assert_eq!(input_error(rv_args(), b), InputError { kind: InputErrorKind::MalformedMarker, method: Some(0) });
    assert!(is_arg_marker(&attr("ctrlgen_return_attr", vec![], "")));
}
