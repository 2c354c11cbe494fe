//! The intermediate model: a service, its methods and the configuration.
use vstd::prelude::*;

use crate::text::strs;

verus! {

/// How a method takes its receiver.
#[derive(Clone, Copy, Debug, PartialEq, Eq, Structural)]
pub enum ReceiverStyle {
    Move,
    Mut,
    Ref,
}

/// One argument of a method.
#[derive(Debug)]
pub struct Argument {
    pub name: String,
    /// The declared type.
    pub ty: String,
    /// For a reference type, the type referred to.
    pub referent: Option<String>,
    /// The message stores the owned counterpart of the referred type.
    pub to_owned: bool,
    /// Attributes for the message field, in full (`#[...]`).
    pub enum_attrs: Vec<String>,
}

pub ghost struct ArgumentView {
    pub name: Seq<char>,
    pub ty: Seq<char>,
    pub referent: Option<Seq<char>>,
    pub to_owned: bool,
    pub enum_attrs: Seq<Seq<char>>,
}

pub open spec fn opt_view(o: Option<String>) -> Option<Seq<char>> {
    match o {
        Some(s) => Some(s@),
        None => None,
    }
}

impl View for Argument {
    type V = ArgumentView;

    open spec fn view(&self) -> ArgumentView {
        ArgumentView {
            name: self.name@,
            ty: self.ty@,
            referent: opt_view(self.referent),
            to_owned: self.to_owned,
            enum_attrs: strs(self.enum_attrs@),
        }
    }
}

/// One method of the service.
#[derive(Debug)]
pub struct Method {
    pub name: String,
    pub receiver: ReceiverStyle,
    pub args: Vec<Argument>,
    /// The return type, when one is written.
    pub ret: Option<String>,
    /// Attributes for the message variant.
    pub enum_attrs: Vec<String>,
    /// Attributes for the return-channel field.
    pub return_attrs: Vec<String>,
    /// Documentation attributes, verbatim.
    pub docs: Vec<String>,
    pub is_async: bool,
}

pub ghost struct MethodView {
    pub name: Seq<char>,
    pub receiver: ReceiverStyle,
    pub args: Seq<ArgumentView>,
    pub ret: Option<Seq<char>>,
    pub enum_attrs: Seq<Seq<char>>,
    pub return_attrs: Seq<Seq<char>>,
    pub docs: Seq<Seq<char>>,
    pub is_async: bool,
}

impl View for Method {
    type V = MethodView;

    open spec fn view(&self) -> MethodView {
        MethodView {
            name: self.name@,
            receiver: self.receiver,
            args: self.args@.map_values(|a: Argument| a@),
            ret: opt_view(self.ret),
            enum_attrs: strs(self.enum_attrs@),
            return_attrs: strs(self.return_attrs@),
            docs: strs(self.docs@),
            is_async: self.is_async,
        }
    }
}

/// The extra value handed to every dispatched call: its name and type.
#[derive(Debug)]
pub struct ContextParam {
    pub name: String,
    pub ty: String,
}

/// The configuration given to the generator.
#[derive(Debug)]
pub struct Params {
    /// Attributes for the message enum, in full (`#[...]`).
    pub enum_attrs: Vec<String>,
    /// The visibility of what is generated (empty for private).
    pub visibility: String,
    pub enum_name: String,
    /// The return-channel type.
    pub returnval: Option<String>,
    /// The names of the proxy traits to generate.
    pub proxies: Vec<String>,
    pub context: Option<ContextParam>,
}

pub ghost struct ParamsView {
    pub enum_attrs: Seq<Seq<char>>,
    pub visibility: Seq<char>,
    pub enum_name: Seq<char>,
    pub returnval: Option<Seq<char>>,
    pub proxies: Seq<Seq<char>>,
    pub context: Option<(Seq<char>, Seq<char>)>,
}

impl View for Params {
    type V = ParamsView;

    open spec fn view(&self) -> ParamsView {
        ParamsView {
            enum_attrs: strs(self.enum_attrs@),
            visibility: self.visibility@,
            enum_name: self.enum_name@,
            returnval: opt_view(self.returnval),
            proxies: strs(self.proxies@),
            context: match self.context {
                Some(c) => Some((c.name@, c.ty@)),
                None => None,
            },
        }
    }
}

/// Everything the generators need: the service type, its generics, its
/// methods and the configuration.
#[derive(Debug)]
pub struct InputData {
    /// The name of the service type.
    pub name: String,
    /// The generic parameters of the block (`<...>`, or empty).
    pub generic_params: String,
    pub where_predicates: Vec<String>,
    /// The generic arguments of the service type (`<...>`, or empty).
    pub struct_args: String,
    pub methods: Vec<Method>,
    pub params: Params,
}

pub ghost struct InputDataView {
    pub name: Seq<char>,
    pub generic_params: Seq<char>,
    pub where_predicates: Seq<Seq<char>>,
    pub struct_args: Seq<char>,
    pub methods: Seq<MethodView>,
    pub params: ParamsView,
}

impl View for InputData {
    type V = InputDataView;

    open spec fn view(&self) -> InputDataView {
        InputDataView {
            name: self.name@,
            generic_params: self.generic_params@,
            where_predicates: strs(self.where_predicates@),
            struct_args: self.struct_args@,
            methods: self.methods@.map_values(|m: Method| m@),
            params: self.params@,
        }
    }
}

/// An argument stored owned refers to a type.
pub open spec fn arg_well_formed(a: ArgumentView) -> bool {
    a.to_owned ==> a.referent is Some
}

/// Every argument stored owned refers to a type, and attributes for the
/// return-channel field come only with a return type.
pub open spec fn method_well_formed(m: MethodView) -> bool {
    &&& forall|j: int| 0 <= j < m.args.len() ==> arg_well_formed(#[trigger] m.args[j])
    &&& m.ret is None ==> m.return_attrs.len() == 0
}

/// Every method is well formed.
pub open spec fn well_formed(d: InputDataView) -> bool {
    forall|i: int| 0 <= i < d.methods.len() ==> method_well_formed(#[trigger] d.methods[i])
}

} // verus!
