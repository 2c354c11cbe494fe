use ctrlgen::CallMut;
use ctrlgen::expand::ctrlgen_impl;
use ctrlgen::source::ArgPattern;
use ctrlgen::source::PathSegment;
use ctrlgen::source::SelfType;
use ctrlgen::source::SourceImpl;
use ctrlgen::source::SourceInput;
use ctrlgen::source::SourceMethod;
use ctrlgen::source::SourceSig;
use ctrlgen::source::SourceType;
use ctrlgen::tokens::Delim;
use ctrlgen::tokens::Tok;

#[derive(Default)]
struct Service {
    counter: i32,
    last_ctx: i32,
}

impl Service {
    pub fn increment_by(&mut self, ctx: i32, arg: i32) {
        self.counter += arg;
        self.last_ctx = ctx;
    }
}


// The expansion of `pub enum ServiceMsg, context(ctx: i32)` over the block above.
pub enum ServiceMsg {
IncrementBy {
arg: i32,
},
}
impl<> ::ctrlgen::CallMut<Service> for ServiceMsg {
type Error = ::core::convert::Infallible;
type Context = i32;
fn call_mut_with_ctx(self, this: &mut Service, ctx: i32) -> ::core::result::Result<(), Self::Error> {
match self {
Self::IncrementBy { arg, } => {
this.increment_by(ctx, arg, );
::core::result::Result::Ok(())
}
}
}
}

/// The text above, as `ctrlgen_impl` writes it.
const EXPANSION: &str = r#"pub enum ServiceMsg {
IncrementBy {
arg: i32,
},
}
impl<> ::ctrlgen::CallMut<Service> for ServiceMsg {
type Error = ::core::convert::Infallible;
type Context = i32;
fn call_mut_with_ctx(self, this: &mut Service, ctx: i32) -> ::core::result::Result<(), Self::Error> {
match self {
Self::IncrementBy { arg, } => {
this.increment_by(ctx, arg, );
::core::result::Result::Ok(())
}
}
}
}
"#;

fn ident(s: &str) -> Tok {
    Tok::Ident(s.to_string())
}

fn punct(c: char) -> Tok {
    Tok::Punct { ch: c, joint: false }
}

fn group(delim: Delim, inner: Vec<Tok>, text: &str) -> Tok {
    Tok::Group { delim, inner, text: text.to_string() }
}

fn receiver() -> SourceInput {
    SourceInput::Receiver { reference: true, mutable: true, lifetime: false }
}

fn arg(name: &str, ty: &str) -> SourceInput {
    SourceInput::Typed {
        attrs: vec![],
        pattern: ArgPattern::Ident { name: name.to_string(), by_ref: false },
        ty: SourceType { text: ty.to_string(), referent: None },
    }
}

fn method(name: &str, inputs: Vec<SourceInput>, output: Option<&str>) -> SourceMethod {
    SourceMethod {
        is_default: false,
        attrs: vec![],
        sig: SourceSig {
            is_const: false,
            is_async: false,
            is_unsafe: false,
            has_abi: false,
            has_generics: false,
            is_variadic: false,
            name: name.to_string(),
            inputs,
            output: output.map(|o| o.to_string()),
        },
    }
}

fn block(name: &str, args: &str, generic_params: &str, methods: Vec<SourceMethod>) -> SourceImpl {
    SourceImpl {
        is_default: false,
        is_unsafe: false,
        is_trait_impl: false,
        self_ty: SelfType::Path {
            qself: false,
            segments: vec![PathSegment { ident: name.to_string(), args: args.to_string() }],
        },
        generic_params: generic_params.to_string(),
        where_predicates: vec![],
        methods,
    }
}

#[test]
fn context_expansion_text() {
    let args = vec![
        ident("pub"),
        ident("enum"),
        ident("ServiceMsg"),
        punct(','),
        ident("context"),
        group(Delim::Paren, vec![ident("ctx"), punct(':'), ident("i32")], "(ctx: i32)"),
    ];
    let item = block(
        "Service",
        "",
        "",
        vec![method("increment_by", vec![receiver(), arg("ctx", "i32"), arg("arg", "i32")], None)],
    );
    assert_eq!(ctrlgen_impl(&args, &item).unwrap(), EXPANSION);
}

#[test]
fn context_call_mut_works() {
    let mut service = Service {
        counter: 0,
        last_ctx: 0,
    };
    let msg = ServiceMsg::IncrementBy { arg: 2 };
    msg.call_mut_with_ctx(&mut service, 3).unwrap();

    assert_eq!(service.last_ctx, 3)
}

#[test]
fn context_and_argument_both_arrive() {
    let mut service = Service::default();
    ServiceMsg::IncrementBy { arg: 4 }.call_mut_with_ctx(&mut service, 9).unwrap();
    ServiceMsg::IncrementBy { arg: 1 }.call_mut_with_ctx(&mut service, 7).unwrap();
    assert_eq!(service.counter, 5);
    assert_eq!(service.last_ctx, 7);
}
