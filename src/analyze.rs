//! Checks an annotated method block and builds the intermediate model.
use vstd::prelude::*;

use crate::model::arg_well_formed;
use crate::model::method_well_formed;
use crate::model::opt_view;
use crate::model::well_formed;
use crate::model::Argument;
use crate::model::ArgumentView;
use crate::model::InputData;
use crate::model::InputDataView;
use crate::model::Method;
use crate::model::MethodView;
use crate::model::Params;
use crate::model::ParamsView;
use crate::model::ReceiverStyle;
use crate::source::ArgPattern;
use crate::source::SelfType;
use crate::source::SourceAttr;
use crate::source::SourceImpl;
use crate::source::SourceInput;
use crate::source::SourceMethod;
use crate::source::SourceType;
use crate::text::copy_strings;
use crate::text::strs;
use crate::text::str_eq;
use crate::tokens::tok_text;
use crate::tokens::Tok;

verus! {

/// What is wrong with the method block.
#[derive(Clone, Copy, Debug, PartialEq, Eq, Structural)]
pub enum InputErrorKind {
    DefaultImpl,
    UnsafeImpl,
    TraitImpl,
    QualifiedSelfType,
    MultiSegmentSelfType,
    UnsupportedSelfType,
    DefaultMethod,
    ConstMethod,
    UnsafeMethod,
    AbiMethod,
    GenericMethod,
    VariadicMethod,
    ReturnWithoutReturnval,
    MalformedMarker,
    ReceiverLifetime,
    PatternArgument,
    RefBinding,
    ReservedRet,
    ToOwnedNotReference,
    NoReceiver,
    MissingContext,
    ReturnAttrWithoutReturn,
}

/// An error in the method block, with the index of the method it is in
/// (none for an error of the block itself).
#[derive(Clone, Copy, Debug, PartialEq, Eq, Structural)]
pub struct InputError {
    pub kind: InputErrorKind,
    pub method: Option<usize>,
}

impl InputErrorKind {
    /// A description of the error, for a diagnostic.
    pub fn message(&self) -> &'static str {
        match self {
            InputErrorKind::DefaultImpl => "Default impls not supported",
            InputErrorKind::UnsafeImpl => "Handling `unsafe` is not implemented",
            InputErrorKind::TraitImpl => "Trait impls are not supported, only inherent impls",
            InputErrorKind::QualifiedSelfType => "Impl has some tricky type. This is not supported",
            InputErrorKind::MultiSegmentSelfType => "Impl type must be a single ident with optional arguments",
            InputErrorKind::UnsupportedSelfType => "Type for `impl` should be a simple identifier without any paths or other tricks.",
            InputErrorKind::DefaultMethod => "`default` not supported",
            InputErrorKind::ConstMethod => "ctrlgen does not support const",
            InputErrorKind::UnsafeMethod => "ctrlgen does not support unsafe",
            InputErrorKind::AbiMethod => "ctrlgen does not support custom ABI in methods",
            InputErrorKind::GenericMethod => "ctrlgen does not support generics or lifetimes in methods",
            InputErrorKind::VariadicMethod => "ctrlgen does not support variadics",
            InputErrorKind::ReturnWithoutReturnval => "Specify `returnval` parameter to handle methods with return types.",
            InputErrorKind::MalformedMarker => "Input of `ctrlgen_{enum|return}_attr` should be a single [...] group, `ctrlgen_to_owned` takes no input, and `ctrlgen_return_attr` belongs on the method, not an argument",
            InputErrorKind::ReceiverLifetime => "ctrlgen does not support explicit lifetimes",
            InputErrorKind::PatternArgument => "ctrlgen does not support method arguments that are patterns, not just simple identifiers",
            InputErrorKind::RefBinding => "ctrlgen does not support `ref` in argument names",
            InputErrorKind::ReservedRet => "In `returnval` mode, method's arguments cannot be named literally `ret`.",
            InputErrorKind::ToOwnedNotReference => "Argument marked with `#[ctrlgen_to_owned]` must be a &reference",
            InputErrorKind::NoReceiver => "ctrlgen does not support methods that do not accept `self`",
            InputErrorKind::MissingContext => "In `context` mode, each method takes the context as its first argument",
            InputErrorKind::ReturnAttrWithoutReturn => "`ctrlgen_return_attr[]` used in method without a return type. Add `-> ()` to force using the return channel.",
        }
    }
}

pub open spec fn enum_marker() -> Seq<char> {
    "ctrlgen_enum_attr"@
}

pub open spec fn return_marker() -> Seq<char> {
    "ctrlgen_return_attr"@
}

pub open spec fn owned_marker() -> Seq<char> {
    "ctrlgen_to_owned"@
}

pub open spec fn doc_name() -> Seq<char> {
    "doc"@
}

/// The attribute's path is the single identifier `n`.
pub open spec fn attr_is(a: SourceAttr, n: Seq<char>) -> bool {
    a.name matches Some(s) && s@ == n
}

/// The attribute's input starts with a group.
pub open spec fn has_group(a: SourceAttr) -> bool {
    a.args@.len() > 0 && a.args@[0] is Group
}

/// The attribute that a marker's group stands for: `#` and the group.
pub open spec fn marker_attr(a: SourceAttr) -> Seq<char> {
    seq!['#'] + tok_text(a.args@[0])
}

/// The attributes that the markers named `n` carry, in order.
pub open spec fn marker_attrs(attrs: Seq<SourceAttr>, n: Seq<char>) -> Seq<Seq<char>>
    decreases attrs.len(),
{
    if attrs.len() == 0 {
        Seq::empty()
    } else if attr_is(attrs.last(), n) {
        marker_attrs(attrs.drop_last(), n).push(marker_attr(attrs.last()))
    } else {
        marker_attrs(attrs.drop_last(), n)
    }
}

/// The full text of the attributes named `n`, in order.
pub open spec fn attr_texts(attrs: Seq<SourceAttr>, n: Seq<char>) -> Seq<Seq<char>>
    decreases attrs.len(),
{
    if attrs.len() == 0 {
        Seq::empty()
    } else if attr_is(attrs.last(), n) {
        attr_texts(attrs.drop_last(), n).push(attrs.last().text@)
    } else {
        attr_texts(attrs.drop_last(), n)
    }
}

/// A marker of a method whose input is not a group.
pub open spec fn bad_method_marker(a: SourceAttr) -> bool {
    (attr_is(a, enum_marker()) || attr_is(a, return_marker())) && !has_group(a)
}

/// A marker of an argument whose input is not what it takes, or the marker
/// for the return-channel field, which has no place on an argument.
pub open spec fn bad_arg_marker(a: SourceAttr) -> bool {
    ||| (attr_is(a, enum_marker()) && !has_group(a))
    ||| (attr_is(a, owned_marker()) && a.args@.len() > 0)
    ||| attr_is(a, return_marker())
}

pub open spec fn marks_owned(attrs: Seq<SourceAttr>) -> bool {
    exists|k: int| 0 <= k < attrs.len() && attr_is(#[trigger] attrs[k], owned_marker())
}

/// What is wrong with one input, if anything.
pub open spec fn input_error(inp: SourceInput, rv: bool) -> Option<InputErrorKind> {
    match inp {
        SourceInput::Receiver { reference, mutable, lifetime } => {
            if reference && lifetime {
                Some(InputErrorKind::ReceiverLifetime)
            } else {
                None
            }
        },
        SourceInput::Typed { attrs, pattern, ty } => {
            if exists|k: int| 0 <= k < attrs@.len() && bad_arg_marker(#[trigger] attrs@[k]) {
                Some(InputErrorKind::MalformedMarker)
            } else {
                match pattern {
                    ArgPattern::Other => Some(InputErrorKind::PatternArgument),
                    ArgPattern::Ident { name, by_ref } => {
                        if by_ref {
                            Some(InputErrorKind::RefBinding)
                        } else if rv && name@ == "ret"@ {
                            Some(InputErrorKind::ReservedRet)
                        } else if marks_owned(attrs@) && ty.referent is None {
                            Some(InputErrorKind::ToOwnedNotReference)
                        } else {
                            None
                        }
                    },
                }
            }
        },
    }
}

/// What is wrong with the first faulty input, if any.
pub open spec fn inputs_error(s: Seq<SourceInput>, rv: bool) -> Option<InputErrorKind>
    decreases s.len(),
{
    if s.len() == 0 {
        None
    } else {
        match inputs_error(s.drop_last(), rv) {
            Some(e) => Some(e),
            None => input_error(s.last(), rv),
        }
    }
}

pub open spec fn receiver_style(reference: bool, mutable: bool) -> ReceiverStyle {
    if !reference {
        ReceiverStyle::Move
    } else if mutable {
        ReceiverStyle::Mut
    } else {
        ReceiverStyle::Ref
    }
}

/// The style of the receiver among the inputs.
pub open spec fn receiver_of(s: Seq<SourceInput>) -> Option<ReceiverStyle>
    decreases s.len(),
{
    if s.len() == 0 {
        None
    } else {
        match s.last() {
            SourceInput::Receiver { reference, mutable, lifetime } => Some(
                receiver_style(reference, mutable),
            ),
            _ => receiver_of(s.drop_last()),
        }
    }
}

/// The argument that a typed input declares.
pub open spec fn argument_of(attrs: Seq<SourceAttr>, name: Seq<char>, ty: SourceType) -> ArgumentView {
    ArgumentView {
        name,
        ty: ty.text@,
        referent: opt_view(ty.referent),
        to_owned: marks_owned(attrs),
        enum_attrs: marker_attrs(attrs, enum_marker()),
    }
}

/// The arguments that the typed inputs with plain names declare, in order.
pub open spec fn typed_args(s: Seq<SourceInput>) -> Seq<ArgumentView>
    decreases s.len(),
{
    if s.len() == 0 {
        Seq::empty()
    } else {
        match s.last() {
            SourceInput::Typed { attrs, pattern: ArgPattern::Ident { name, by_ref }, ty } => typed_args(
                s.drop_last(),
            ).push(argument_of(attrs@, name@, ty)),
            _ => typed_args(s.drop_last()),
        }
    }
}

/// The arguments that a message carries: the typed ones, but for the first in
/// context mode, which is the context.
pub open spec fn message_args(s: Seq<SourceInput>, ctx: bool) -> Seq<ArgumentView> {
    if ctx {
        typed_args(s).drop_first()
    } else {
        typed_args(s)
    }
}

/// Why a method cannot be handled, checked in this order; none when it can.
pub open spec fn method_error(m: SourceMethod, rv: bool, ctx: bool) -> Option<InputErrorKind> {
    let sig = m.sig;
    if header_error(m, rv) is Some {
        header_error(m, rv)
    } else if inputs_error(sig.inputs@, rv) is Some {
        inputs_error(sig.inputs@, rv)
    } else if receiver_of(sig.inputs@) is None {
        Some(InputErrorKind::NoReceiver)
    } else if ctx && typed_args(sig.inputs@).len() == 0 {
        Some(InputErrorKind::MissingContext)
    } else if sig.output is None && marker_attrs(m.attrs@, return_marker()).len() > 0 {
        Some(InputErrorKind::ReturnAttrWithoutReturn)
    } else {
        None
    }
}

/// What is wrong with a method's modifiers, return type or markers.
pub open spec fn header_error(m: SourceMethod, rv: bool) -> Option<InputErrorKind> {
    let sig = m.sig;
    if m.is_default {
        Some(InputErrorKind::DefaultMethod)
    } else if sig.is_const {
        Some(InputErrorKind::ConstMethod)
    } else if sig.is_unsafe {
        Some(InputErrorKind::UnsafeMethod)
    } else if sig.has_abi {
        Some(InputErrorKind::AbiMethod)
    } else if sig.has_generics {
        Some(InputErrorKind::GenericMethod)
    } else if sig.is_variadic {
        Some(InputErrorKind::VariadicMethod)
    } else if !rv && sig.output is Some {
        Some(InputErrorKind::ReturnWithoutReturnval)
    } else if exists|k: int| 0 <= k < m.attrs@.len() && bad_method_marker(#[trigger] m.attrs@[k]) {
        Some(InputErrorKind::MalformedMarker)
    } else {
        None
    }
}

/// The model of a method that can be handled.
pub open spec fn method_model(m: SourceMethod, ctx: bool) -> MethodView {
    MethodView {
        name: m.sig.name@,
        receiver: receiver_of(m.sig.inputs@).unwrap(),
        args: message_args(m.sig.inputs@, ctx),
        ret: opt_view(m.sig.output),
        enum_attrs: marker_attrs(m.attrs@, enum_marker()),
        return_attrs: marker_attrs(m.attrs@, return_marker()),
        docs: attr_texts(m.attrs@, doc_name()),
        is_async: m.sig.is_async,
    }
}

fn attr_named(a: &SourceAttr, n: &str) -> (r: bool)
    ensures
        r == attr_is(*a, n@),
{
    match &a.name {
        Some(s) => str_eq(s.as_str(), n),
        None => false,
    }
}

/// The attribute that a marker's group stands for, when its input starts with
/// a group.
fn marker_group(a: &SourceAttr) -> (r: Option<String>)
    ensures
        r is Some <==> has_group(*a),
        r matches Some(t) ==> t@ == marker_attr(*a),
{
    if a.args.len() == 0 {
        return None;
    }
    match &a.args[0] {
        Tok::Group { delim, inner, text } => {
            let mut s = String::from_str("#");
            proof {
                reveal_strlit("#");
            }
            s.append(text.as_str());
            Some(s)
        },
        _ => None,
    }
}

proof fn lemma_markers_differ()
    ensures
        enum_marker() != return_marker(),
        enum_marker() != owned_marker(),
{
    reveal_strlit("ctrlgen_enum_attr");
    reveal_strlit("ctrlgen_return_attr");
    reveal_strlit("ctrlgen_to_owned");
    assert(enum_marker()[8] != return_marker()[8]);
    assert(enum_marker()[8] != owned_marker()[8]);
}

proof fn lemma_take_last<T>(s: Seq<T>, i: int)
    requires
        0 <= i < s.len(),
    ensures
        s.take(i + 1).drop_last() == s.take(i),
        s.take(i + 1).last() == s[i],
{
    assert(s.take(i + 1).drop_last() =~= s.take(i));
}

/// Reads the markers and documentation of a method.
fn method_markers(attrs: &Vec<SourceAttr>) -> (r: Option<(Vec<String>, Vec<String>, Vec<String>)>)
    ensures
        r is None <==> exists|k: int| 0 <= k < attrs@.len() && bad_method_marker(#[trigger] attrs@[k]),
        r matches Some(t) ==> {
            &&& strs(t.0@) == marker_attrs(attrs@, enum_marker())
            &&& strs(t.1@) == marker_attrs(attrs@, return_marker())
            &&& strs(t.2@) == attr_texts(attrs@, doc_name())
        },
{
    let mut enum_attrs: Vec<String> = Vec::new();
    let mut return_attrs: Vec<String> = Vec::new();
    let mut docs: Vec<String> = Vec::new();
    let mut i: usize = 0;
    while i < attrs.len()
        invariant
            i <= attrs@.len(),
            forall|k: int| 0 <= k < i ==> !bad_method_marker(#[trigger] attrs@[k]),
            strs(enum_attrs@) == marker_attrs(attrs@.take(i as int), enum_marker()),
            strs(return_attrs@) == marker_attrs(attrs@.take(i as int), return_marker()),
            strs(docs@) == attr_texts(attrs@.take(i as int), doc_name()),
        decreases attrs@.len() - i,
    {
        let a = &attrs[i];
        proof {
            lemma_take_last(attrs@, i as int);
            lemma_markers_differ();
        }
        let is_enum = attr_named(a, "ctrlgen_enum_attr");
        let is_return = attr_named(a, "ctrlgen_return_attr");
        if is_enum || is_return {
            match marker_group(a) {
                Some(g) => {
                    if is_enum {
                        enum_attrs.push(g);
                    } else {
                        return_attrs.push(g);
                    }
                },
                None => {
                    return None;
                },
            }
        }
        if attr_named(a, "doc") {
            docs.push(a.text.clone());
        }
        proof {
            assert(strs(enum_attrs@) =~= marker_attrs(attrs@.take(i + 1), enum_marker()));
            assert(strs(return_attrs@) =~= marker_attrs(attrs@.take(i + 1), return_marker()));
            assert(strs(docs@) =~= attr_texts(attrs@.take(i + 1), doc_name()));
        }
        i += 1;
    }
    assert(attrs@.take(attrs@.len() as int) == attrs@);
    Some((enum_attrs, return_attrs, docs))
}

/// Reads the markers of an argument: the attributes for its message field,
/// and whether it is stored owned.
fn arg_markers(attrs: &Vec<SourceAttr>) -> (r: Option<(Vec<String>, bool)>)
    ensures
        r is None <==> exists|k: int| 0 <= k < attrs@.len() && bad_arg_marker(#[trigger] attrs@[k]),
        r matches Some(t) ==> strs(t.0@) == marker_attrs(attrs@, enum_marker())
            && t.1 == marks_owned(attrs@),
{
    let mut enum_attrs: Vec<String> = Vec::new();
    let mut owned = false;
    let mut i: usize = 0;
    while i < attrs.len()
        invariant
            i <= attrs@.len(),
            forall|k: int| 0 <= k < i ==> !bad_arg_marker(#[trigger] attrs@[k]),
            strs(enum_attrs@) == marker_attrs(attrs@.take(i as int), enum_marker()),
            owned == marks_owned(attrs@.take(i as int)),
        decreases attrs@.len() - i,
    {
        let a = &attrs[i];
        proof {
            lemma_take_last(attrs@, i as int);
            lemma_markers_differ();
        }
        if attr_named(a, "ctrlgen_enum_attr") {
            match marker_group(a) {
                Some(g) => enum_attrs.push(g),
                None => return None,
            }
        }
        if attr_named(a, "ctrlgen_return_attr") {
            return None;
        }
        if attr_named(a, "ctrlgen_to_owned") {
            if a.args.len() > 0 {
                return None;
            }
            owned = true;
        }
        proof {
            assert(strs(enum_attrs@) =~= marker_attrs(attrs@.take(i + 1), enum_marker()));
            let t = attrs@.take(i + 1);
            if owned {
                if attr_is(attrs@[i as int], owned_marker()) {
                    assert(attr_is(t[i as int], owned_marker()));
                } else {
                    let k = choose|k: int| 0 <= k < i && attr_is(#[trigger] attrs@.take(i as int)[k], owned_marker());
                    assert(attr_is(t[k], owned_marker()));
                }
            } else {
                assert forall|k: int| 0 <= k < t.len() implies !attr_is(#[trigger] t[k], owned_marker()) by {
                    if k < i {
                        assert(t[k] == attrs@.take(i as int)[k]);
                    }
                }
            }
        }
        i += 1;
    }
    assert(attrs@.take(attrs@.len() as int) == attrs@);
    Some((enum_attrs, owned))
}

fn copy_opt(o: &Option<String>) -> (r: Option<String>)
    ensures
        r == *o,
{
    match o {
        Some(s) => Some(s.clone()),
        None => None,
    }
}

/// Checks one input; for a typed one, the argument it declares.
fn input_argument(inp: &SourceInput, rv: bool) -> (r: Result<Option<Argument>, InputErrorKind>)
    ensures
        r matches Err(e) ==> input_error(*inp, rv) == Some(e),
        r is Ok ==> input_error(*inp, rv) is None,
        r matches Ok(o) ==> (o is Some <==> inp is Typed),
        r matches Ok(Some(a)) ==> inp matches SourceInput::Typed { attrs, pattern: ArgPattern::Ident { name, by_ref }, ty }
            && a@ == argument_of(attrs@, name@, *ty),
{
    match inp {
        SourceInput::Receiver { reference, mutable, lifetime } => {
            if *reference && *lifetime {
                Err(InputErrorKind::ReceiverLifetime)
            } else {
                Ok(None)
            }
        },
        SourceInput::Typed { attrs, pattern, ty } => {
            let (enum_attrs, to_owned) = match arg_markers(attrs) {
                Some(t) => t,
                None => return Err(InputErrorKind::MalformedMarker),
            };
            match pattern {
                ArgPattern::Other => Err(InputErrorKind::PatternArgument),
                ArgPattern::Ident { name, by_ref } => {
                    if *by_ref {
                        return Err(InputErrorKind::RefBinding);
                    }
                    if rv && str_eq(name.as_str(), "ret") {
                        return Err(InputErrorKind::ReservedRet);
                    }
                    if to_owned && ty.referent.is_none() {
                        return Err(InputErrorKind::ToOwnedNotReference);
                    }
                    let a = Argument {
                        name: name.clone(),
                        ty: ty.text.clone(),
                        referent: copy_opt(&ty.referent),
                        to_owned,
                        enum_attrs,
                    };
                    Ok(Some(a))
                },
            }
        },
    }
}

/// Checks one method and builds its model. `rv`: a return channel is
/// configured; `ctx`: a context is threaded through every call.
pub fn parse_method(m: &SourceMethod, rv: bool, ctx: bool) -> (r: Result<Method, InputErrorKind>)
    ensures
        r matches Err(e) ==> method_error(*m, rv, ctx) == Some(e),
        r matches Ok(x) ==> method_error(*m, rv, ctx) is None && x@ == method_model(*m, ctx)
            && method_well_formed(x@),
{
    let sig = &m.sig;
    if m.is_default {
        return Err(InputErrorKind::DefaultMethod);
    }
    if sig.is_const {
        return Err(InputErrorKind::ConstMethod);
    }
    if sig.is_unsafe {
        return Err(InputErrorKind::UnsafeMethod);
    }
    if sig.has_abi {
        return Err(InputErrorKind::AbiMethod);
    }
    if sig.has_generics {
        return Err(InputErrorKind::GenericMethod);
    }
    if sig.is_variadic {
        return Err(InputErrorKind::VariadicMethod);
    }
    if !rv && sig.output.is_some() {
        return Err(InputErrorKind::ReturnWithoutReturnval);
    }
    let (enum_attrs, return_attrs, docs) = match method_markers(&m.attrs) {
        Some(t) => t,
        None => return Err(InputErrorKind::MalformedMarker),
    };
    let inputs = &sig.inputs;
    let mut args: Vec<Argument> = Vec::new();
    let mut receiver: Option<ReceiverStyle> = None;
    let mut i: usize = 0;
    while i < inputs.len()
        invariant
            i <= inputs@.len(),
            inputs@ == m.sig.inputs@,
            header_error(*m, rv) is None,
            inputs_error(inputs@.take(i as int), rv) is None,
            receiver == receiver_of(inputs@.take(i as int)),
            args@.map_values(|a: Argument| a@) == typed_args(inputs@.take(i as int)),
            forall|k: int| 0 <= k < args@.len() ==> arg_well_formed((#[trigger] args@[k])@),
        decreases inputs@.len() - i,
    {
        let inp = &inputs[i];
        proof {
            lemma_take_last(inputs@, i as int);
        }
        let ghost before = args@;
        match input_argument(inp, rv) {
            Err(e) => {
                proof {
                    lemma_inputs_error_prefix(inputs@, rv, i as int);
                }
                return Err(e);
            },
            Ok(Some(a)) => {
                args.push(a);
                assert(args@.map_values(|a: Argument| a@) =~= before.map_values(|a: Argument| a@).push(args@.last()@));
            },
            Ok(None) => {
                if let SourceInput::Receiver { reference, mutable, lifetime } = inp {
                    receiver = Some(
                        if !*reference {
                            ReceiverStyle::Move
                        } else if *mutable {
                            ReceiverStyle::Mut
                        } else {
                            ReceiverStyle::Ref
                        },
                    );
                }
            },
        }
        i += 1;
    }
    assert(inputs@.take(inputs@.len() as int) == inputs@);
    let receiver = match receiver {
        Some(s) => s,
        None => return Err(InputErrorKind::NoReceiver),
    };
    if ctx {
        if args.len() == 0 {
            return Err(InputErrorKind::MissingContext);
        }
        let ghost before = args@;
        args.remove(0);
        assert(args@.map_values(|a: Argument| a@) =~= before.map_values(|a: Argument| a@).drop_first());
    }
    if sig.output.is_none() && return_attrs.len() > 0 {
        return Err(InputErrorKind::ReturnAttrWithoutReturn);
    }
    Ok(Method {
        name: sig.name.clone(),
        receiver,
        args,
        ret: copy_opt(&sig.output),
        enum_attrs,
        return_attrs,
        docs,
        is_async: sig.is_async,
    })
}

/// The first faulty input stands at `i` when the ones before it are fine.
proof fn lemma_inputs_error_prefix(s: Seq<SourceInput>, rv: bool, i: int)
    requires
        0 <= i < s.len(),
        inputs_error(s.take(i), rv) is None,
        input_error(s[i], rv) is Some,
    ensures
        inputs_error(s, rv) == input_error(s[i], rv),
    decreases s.len() - i,
{
    lemma_take_last(s, i);
    if i + 1 < s.len() {
        lemma_inputs_error_first(s, rv, i + 1);
    } else {
        assert(s.take(i + 1) == s);
    }
}

/// Once a prefix holds an error, every longer prefix has the same first error.
proof fn lemma_inputs_error_first(s: Seq<SourceInput>, rv: bool, j: int)
    requires
        0 < j <= s.len(),
        inputs_error(s.take(j), rv) is Some,
    ensures
        inputs_error(s, rv) == inputs_error(s.take(j), rv),
    decreases s.len() - j,
{
    if j < s.len() {
        lemma_take_last(s, j);
        lemma_inputs_error_first(s, rv, j + 1);
    } else {
        assert(s.take(j) == s);
    }
}

/// What is wrong with the block itself, if anything.
pub open spec fn impl_error(item: SourceImpl) -> Option<InputErrorKind> {
    if item.is_default {
        Some(InputErrorKind::DefaultImpl)
    } else if item.is_unsafe {
        Some(InputErrorKind::UnsafeImpl)
    } else if item.is_trait_impl {
        Some(InputErrorKind::TraitImpl)
    } else {
        match item.self_ty {
            SelfType::Path { qself, segments } => {
                if qself {
                    Some(InputErrorKind::QualifiedSelfType)
                } else if segments@.len() != 1 {
                    Some(InputErrorKind::MultiSegmentSelfType)
                } else {
                    None
                }
            },
            SelfType::Other => Some(InputErrorKind::UnsupportedSelfType),
        }
    }
}

/// The block holds no fault under the configuration `p`.
pub open spec fn impl_accepted(item: SourceImpl, p: ParamsView) -> bool {
    &&& impl_error(item) is None
    &&& forall|j: int| 0 <= j < item.methods@.len() ==> method_error(
        #[trigger] item.methods@[j],
        p.returnval is Some,
        p.context is Some,
    ) is None
}

/// `e` is the first fault of the block under the configuration `p`: one of
/// the block itself, else the first of the first faulty method.
pub open spec fn first_fault(item: SourceImpl, p: ParamsView, e: InputError) -> bool {
    match e.method {
        None => impl_error(item) == Some(e.kind),
        Some(i) => {
            &&& impl_error(item) is None
            &&& i < item.methods@.len()
            &&& method_error(item.methods@[i as int], p.returnval is Some, p.context is Some) == Some(e.kind)
            &&& forall|j: int| 0 <= j < i ==> method_error(
                #[trigger] item.methods@[j],
                p.returnval is Some,
                p.context is Some,
            ) is None
        },
    }
}

/// The model of a block that can be handled, with the configuration `params`.
pub open spec fn input_model(item: SourceImpl, params: ParamsView) -> InputDataView {
    let seg = item.self_ty->Path_segments@[0];
    let ctx = params.context is Some;
    InputDataView {
        name: seg.ident@,
        generic_params: item.generic_params@,
        where_predicates: strs(item.where_predicates@),
        struct_args: seg.args@,
        methods: item.methods@.map_values(|m: SourceMethod| method_model(m, ctx)),
        params,
    }
}

impl InputData {
    /// Checks an `impl` block against the configuration and builds the model
    /// that the generators read. The first fault found is reported: one of the
    /// block itself, else the first of the first faulty method.
    pub fn parse_inherent_impl(item: &SourceImpl, params: Params) -> (r: Result<InputData, InputError>)
        ensures
            r matches Err(e) ==> first_fault(*item, params@, e),
            r is Ok <==> impl_accepted(*item, params@),
            r matches Ok(d) ==> d@ == input_model(*item, params@) && well_formed(d@),
    {
        let fail = |kind: InputErrorKind| -> (e: InputError)
            ensures
                e == (InputError { kind, method: None }),
            { InputError { kind, method: None } };
        if item.is_default {
            return Err(fail(InputErrorKind::DefaultImpl));
        }
        if item.is_unsafe {
            return Err(fail(InputErrorKind::UnsafeImpl));
        }
        if item.is_trait_impl {
            return Err(fail(InputErrorKind::TraitImpl));
        }
        let (name, struct_args) = match &item.self_ty {
            SelfType::Path { qself, segments } => {
                if *qself {
                    return Err(fail(InputErrorKind::QualifiedSelfType));
                }
                if segments.len() != 1 {
                    return Err(fail(InputErrorKind::MultiSegmentSelfType));
                }
                (segments[0].ident.clone(), segments[0].args.clone())
            },
            SelfType::Other => return Err(fail(InputErrorKind::UnsupportedSelfType)),
        };
        let rv = params.returnval.is_some();
        let ctx = params.context.is_some();
        let mut methods: Vec<Method> = Vec::new();
        let mut i: usize = 0;
        while i < item.methods.len()
            invariant
                i <= item.methods@.len(),
                impl_error(*item) is None,
                item.self_ty matches SelfType::Path { qself, segments } && segments@.len() == 1
                    && name == segments@[0].ident && struct_args == segments@[0].args,
                rv == params.returnval is Some,
                ctx == params.context is Some,
                forall|j: int| 0 <= j < i ==> method_error(#[trigger] item.methods@[j], rv, ctx) is None,
                methods@.len() == i,
                forall|j: int| 0 <= j < i ==> (#[trigger] methods@[j])@ == method_model(item.methods@[j], ctx),
                forall|j: int| 0 <= j < i ==> method_well_formed((#[trigger] methods@[j])@),
            decreases item.methods@.len() - i,
        {
            match parse_method(&item.methods[i], rv, ctx) {
                Ok(m) => methods.push(m),
                Err(kind) => return Err(InputError { kind, method: Some(i) }),
            }
            i += 1;
        }
        let d = InputData {
            name,
            generic_params: item.generic_params.clone(),
            where_predicates: copy_strings(&item.where_predicates),
            struct_args,
            methods,
            params,
        };
        assert(d@.methods =~= item.methods@.map_values(|m: SourceMethod| method_model(m, ctx)));
        assert forall|j: int| 0 <= j < d@.methods.len() implies method_well_formed(#[trigger] d@.methods[j]) by {
            assert(d@.methods[j] == d.methods@[j]@);
        }
        Ok(d)
    }
}

/// Whether a method attribute is a marker of this generator, to be removed
/// from the block before it is emitted again.
pub fn is_method_marker(a: &SourceAttr) -> (r: bool)
    ensures
        r == (attr_is(*a, enum_marker()) || attr_is(*a, return_marker())),
{
    attr_named(a, "ctrlgen_enum_attr") || attr_named(a, "ctrlgen_return_attr")
}

/// Whether an argument attribute is a marker of this generator, to be
/// removed from the block before it is emitted again.
pub fn is_arg_marker(a: &SourceAttr) -> (r: bool)
    ensures
        r == (attr_is(*a, enum_marker()) || attr_is(*a, owned_marker()) || attr_is(*a, return_marker())),
{
    attr_named(a, "ctrlgen_enum_attr") || attr_named(a, "ctrlgen_to_owned") || attr_named(a, "ctrlgen_return_attr")
}

} // verus!
