use std::cell::RefCell;

use ctrlgen::returnval::LocalRetval;
use ctrlgen::support::FnProxy;
use ctrlgen::CallMut;
use ctrlgen::expand::ctrlgen_impl;
use ctrlgen::source::ArgPattern;
use ctrlgen::source::PathSegment;
use ctrlgen::source::SelfType;
use ctrlgen::source::SourceImpl;
use ctrlgen::source::SourceInput;
use ctrlgen::source::SourceMethod;
use ctrlgen::source::SourceSig;
use ctrlgen::source::SourceType;
use ctrlgen::tokens::Delim;
use ctrlgen::tokens::Tok;

#[derive(Default)]
struct Service {
    counter: i32,
    flag: bool,
}

impl Service {
    pub fn increment_by(&mut self, arg: i32) -> i32 {
        self.counter += arg;
        self.counter
    }

    pub fn set_flag(&mut self, flag: bool) {
        self.flag = flag;
    }
}


// The expansion of `pub enum ServiceMsg, returnval = LocalRetval, proxy(trait ServiceProxy)`
// over the block above.
pub enum ServiceMsg where LocalRetval: ::ctrlgen::Returnval,  {
IncrementBy {
arg: i32,
ret: <LocalRetval as ::ctrlgen::ReturnChannel<i32>>::SendHalf,
},
SetFlag {
flag: bool,
},
}
impl<> ::ctrlgen::CallMut<Service> for ServiceMsg where LocalRetval: ::ctrlgen::Returnval,  {
type Error = <LocalRetval as ::ctrlgen::Returnval>::SendError;
type Context = ();
fn call_mut_with_ctx(self, this: &mut Service, _: ()) -> ::core::result::Result<(), Self::Error> {
match self {
Self::IncrementBy { arg, ret, } => {
<LocalRetval as ::ctrlgen::ReturnChannel<i32>>::send(ret, this.increment_by(arg, ))
}
Self::SetFlag { flag, } => {
this.set_flag(flag, );
::core::result::Result::Ok(())
}
}
}
}
pub trait ServiceProxy: ::ctrlgen::Proxy<ServiceMsg> {
fn increment_by(&self, arg: i32, ) -> <LocalRetval as ::ctrlgen::ReturnChannel<i32>>::RecvResult {
let ret = <LocalRetval as ::ctrlgen::ReturnChannel<i32>>::create();
let msg = ServiceMsg::IncrementBy { arg, ret: ret.0, };
<Self as ::ctrlgen::Proxy<ServiceMsg>>::send(self, msg);
<LocalRetval as ::ctrlgen::ReturnChannel<i32>>::recv(ret.1)
}
fn set_flag(&self, flag: bool, ) {
let msg = ServiceMsg::SetFlag { flag, };
<Self as ::ctrlgen::Proxy<ServiceMsg>>::send(self, msg);
}
}
impl<T: ::ctrlgen::Proxy<ServiceMsg>> ServiceProxy for T {}

/// The text above, as `ctrlgen_impl` writes it.
const EXPANSION: &str = r#"pub enum ServiceMsg where LocalRetval: ::ctrlgen::Returnval,  {
IncrementBy {
arg: i32,
ret: <LocalRetval as ::ctrlgen::ReturnChannel<i32>>::SendHalf,
},
SetFlag {
flag: bool,
},
}
impl<> ::ctrlgen::CallMut<Service> for ServiceMsg where LocalRetval: ::ctrlgen::Returnval,  {
type Error = <LocalRetval as ::ctrlgen::Returnval>::SendError;
type Context = ();
fn call_mut_with_ctx(self, this: &mut Service, _: ()) -> ::core::result::Result<(), Self::Error> {
match self {
Self::IncrementBy { arg, ret, } => {
<LocalRetval as ::ctrlgen::ReturnChannel<i32>>::send(ret, this.increment_by(arg, ))
}
Self::SetFlag { flag, } => {
this.set_flag(flag, );
::core::result::Result::Ok(())
}
}
}
}
pub trait ServiceProxy: ::ctrlgen::Proxy<ServiceMsg> {
fn increment_by(&self, arg: i32, ) -> <LocalRetval as ::ctrlgen::ReturnChannel<i32>>::RecvResult {
let ret = <LocalRetval as ::ctrlgen::ReturnChannel<i32>>::create();
let msg = ServiceMsg::IncrementBy { arg, ret: ret.0, };
<Self as ::ctrlgen::Proxy<ServiceMsg>>::send(self, msg);
<LocalRetval as ::ctrlgen::ReturnChannel<i32>>::recv(ret.1)
}
fn set_flag(&self, flag: bool, ) {
let msg = ServiceMsg::SetFlag { flag, };
<Self as ::ctrlgen::Proxy<ServiceMsg>>::send(self, msg);
}
}
impl<T: ::ctrlgen::Proxy<ServiceMsg>> ServiceProxy for T {}
"#;

fn ident(s: &str) -> Tok {
    Tok::Ident(s.to_string())
}

fn punct(c: char) -> Tok {
    Tok::Punct { ch: c, joint: false }
}

fn group(delim: Delim, inner: Vec<Tok>, text: &str) -> Tok {
    Tok::Group { delim, inner, text: text.to_string() }
}

fn receiver() -> SourceInput {
    SourceInput::Receiver { reference: true, mutable: true, lifetime: false }
}

fn arg(name: &str, ty: &str) -> SourceInput {
    SourceInput::Typed {
        attrs: vec![],
        pattern: ArgPattern::Ident { name: name.to_string(), by_ref: false },
        ty: SourceType { text: ty.to_string(), referent: None },
    }
}

fn method(name: &str, inputs: Vec<SourceInput>, output: Option<&str>) -> SourceMethod {
    SourceMethod {
        is_default: false,
        attrs: vec![],
        sig: SourceSig {
            is_const: false,
            is_async: false,
            is_unsafe: false,
            has_abi: false,
            has_generics: false,
            is_variadic: false,
            name: name.to_string(),
            inputs,
            output: output.map(|o| o.to_string()),
        },
    }
}

fn block(name: &str, args: &str, generic_params: &str, methods: Vec<SourceMethod>) -> SourceImpl {
    SourceImpl {
        is_default: false,
        is_unsafe: false,
        is_trait_impl: false,
        self_ty: SelfType::Path {
            qself: false,
            segments: vec![PathSegment { ident: name.to_string(), args: args.to_string() }],
        },
        generic_params: generic_params.to_string(),
        where_predicates: vec![],
        methods,
    }
}

#[test]
fn mixed_expansion_text() {
    let args = vec![
        ident("pub"),
        ident("enum"),
        ident("ServiceMsg"),
        punct(','),
        ident("returnval"),
        punct('='),
        ident("LocalRetval"),
        punct(','),
        ident("proxy"),
        group(Delim::Paren, vec![ident("trait"), ident("ServiceProxy")], "(trait ServiceProxy)"),
    ];
    let item = block(
        "Service",
        "",
        "",
        vec![
            method("increment_by", vec![receiver(), arg("arg", "i32")], Some("i32")),
            method("set_flag", vec![receiver(), arg("flag", "bool")], None),
        ],
    );
    assert_eq!(ctrlgen_impl(&args, &item).unwrap(), EXPANSION);
}

#[test]
fn mixed_call_mut_works() {
    let mut service = Service {
        counter: 0,
        flag: false,
    };
    let msg = ServiceMsg::SetFlag { flag: true };
    let _ = msg.call_mut(&mut service);

    assert!(service.flag)
}

#[test]
fn mixed_proxy() {
    let service = RefCell::new(Service {
        counter: 0,
        flag: false,
    });

    let msg = ServiceMsg::SetFlag { flag: true };
    let _ = msg.call_mut(&mut *service.borrow_mut());

    // With proxy:
    let proxy = FnProxy::new(|msg: ServiceMsg| {
        let _ = msg.call_mut(&mut *service.borrow_mut());
    });

    let ret = proxy.increment_by(2);
    assert_eq!(*ret.borrow(), Some(2));
    assert_eq!(service.borrow().counter, 2);
}

#[test]
fn set_flag_on_default_service() {
    let mut service = Service::default();
    let r = ServiceMsg::SetFlag { flag: true }.call_mut(&mut service);
    assert!(r.is_ok());
    assert!(service.flag);
    assert_eq!(service.counter, 0);
}

#[test]
fn dispatch_matches_direct_call() {
    let mut direct = Service::default();
    direct.increment_by(5);
    direct.set_flag(true);

    let mut dispatched = Service::default();
    let (tx, rx) = <LocalRetval as ::ctrlgen::ReturnChannel<i32>>::create();
    ServiceMsg::IncrementBy { arg: 5, ret: tx }.call_mut(&mut dispatched).unwrap();
    ServiceMsg::SetFlag { flag: true }.call_mut(&mut dispatched).unwrap();

    assert_eq!(direct.counter, dispatched.counter);
    assert_eq!(direct.flag, dispatched.flag);
    assert_eq!(*rx.borrow(), Some(5));
}

#[test]
fn increment_through_proxy_returns_new_value() {
    let service = RefCell::new(Service::default());
    let proxy = FnProxy::new(|msg: ServiceMsg| {
        msg.call_mut(&mut *service.borrow_mut()).unwrap();
    });
    let ret = proxy.increment_by(2);
    assert_eq!(service.borrow().counter, 2);
    assert_eq!(*ret.borrow(), Some(2));
    proxy.set_flag(true);
    assert!(service.borrow().flag);
}
