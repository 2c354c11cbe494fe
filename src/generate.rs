//! The generators: the message enum, the dispatcher and the proxy traits, as
//! models of the code to emit.
use convert_case::Casing;
use vstd::prelude::*;

use crate::model::arg_well_formed;
use crate::model::method_well_formed;
use crate::model::well_formed;
use crate::model::Argument;
use crate::model::ArgumentView;
use crate::model::InputData;
use crate::model::InputDataView;
use crate::model::Method;
use crate::model::MethodView;
use crate::model::Params;
use crate::model::ParamsView;
use crate::text::copy_strings;
use crate::text::strs;

verus! {

/// The identifier that a method name becomes in upper camel case.
pub uninterp spec fn upper_camel_of(s: Seq<char>) -> Seq<char>;

/// Relies on `convert_case`'s `to_case(Case::UpperCamel)`, whose result
/// depends on the characters alone.
#[verifier::external_body]
fn to_upper_camel(s: &str) -> (r: String)
    ensures
        r@ == upper_camel_of(s@),
{
    s.to_case(convert_case::Case::UpperCamel)
}

/// A field of a message variant.
#[derive(Debug)]
pub struct FieldDef {
    pub attrs: Vec<String>,
    pub name: String,
    pub ty: String,
}

pub ghost struct FieldView {
    pub attrs: Seq<Seq<char>>,
    pub name: Seq<char>,
    pub ty: Seq<char>,
}

impl View for FieldDef {
    type V = FieldView;

    open spec fn view(&self) -> FieldView {
        FieldView { attrs: strs(self.attrs@), name: self.name@, ty: self.ty@ }
    }
}

/// A variant of the message enum.
#[derive(Debug)]
pub struct VariantDef {
    pub docs: Vec<String>,
    pub attrs: Vec<String>,
    pub name: String,
    pub fields: Vec<FieldDef>,
}

pub ghost struct VariantView {
    pub docs: Seq<Seq<char>>,
    pub attrs: Seq<Seq<char>>,
    pub name: Seq<char>,
    pub fields: Seq<FieldView>,
}

impl View for VariantDef {
    type V = VariantView;

    open spec fn view(&self) -> VariantView {
        VariantView {
            docs: strs(self.docs@),
            attrs: strs(self.attrs@),
            name: self.name@,
            fields: self.fields@.map_values(|f: FieldDef| f@),
        }
    }
}

/// The message enum.
#[derive(Debug)]
pub struct EnumDef {
    pub attrs: Vec<String>,
    pub visibility: String,
    pub name: String,
    pub where_predicates: Vec<String>,
    pub variants: Vec<VariantDef>,
}

pub ghost struct EnumView {
    pub attrs: Seq<Seq<char>>,
    pub visibility: Seq<char>,
    pub name: Seq<char>,
    pub where_predicates: Seq<Seq<char>>,
    pub variants: Seq<VariantView>,
}

impl View for EnumDef {
    type V = EnumView;

    open spec fn view(&self) -> EnumView {
        EnumView {
            attrs: strs(self.attrs@),
            visibility: self.visibility@,
            name: self.name@,
            where_predicates: strs(self.where_predicates@),
            variants: self.variants@.map_values(|v: VariantDef| v@),
        }
    }
}

/// The variant that a method becomes.
pub open spec fn variant_name(m: MethodView) -> Seq<char> {
    upper_camel_of(m.name)
}

/// The type a message stores for an argument: the declared type, or the owned
/// counterpart of the referred type.
pub open spec fn field_type(a: ArgumentView) -> Seq<char> {
    if a.to_owned {
        "<"@ + a.referent.unwrap() + " as ::std::borrow::ToOwned>::Owned"@
    } else {
        a.ty
    }
}

/// The return channel `rv` used for values of type `ret`.
pub open spec fn channel_path(rv: Seq<char>, ret: Seq<char>) -> Seq<char> {
    "<"@ + rv + " as ::ctrlgen::ReturnChannel<"@ + ret + ">>"@
}

/// The method hands its result back: it returns a value and a return channel
/// is configured.
pub open spec fn replies(m: MethodView, p: ParamsView) -> bool {
    m.ret is Some && p.returnval is Some
}

pub open spec fn arg_field(a: ArgumentView) -> FieldView {
    FieldView { attrs: a.enum_attrs, name: a.name, ty: field_type(a) }
}

/// The field that carries the sender of the return channel.
pub open spec fn ret_field(m: MethodView, p: ParamsView) -> FieldView {
    FieldView {
        attrs: m.return_attrs,
        name: "ret"@,
        ty: channel_path(p.returnval.unwrap(), m.ret.unwrap()) + "::SendHalf"@,
    }
}

/// The fields of a method's variant: one per argument, in order, then the
/// sender of the return channel when the method replies.
pub open spec fn variant_fields(m: MethodView, p: ParamsView) -> Seq<FieldView> {
    let args = m.args.map_values(|a: ArgumentView| arg_field(a));
    if replies(m, p) {
        args.push(ret_field(m, p))
    } else {
        args
    }
}

/// The variant of a method, named `vn`.
pub open spec fn variant_of(m: MethodView, p: ParamsView, vn: Seq<char>) -> VariantView {
    VariantView {
        docs: m.docs,
        attrs: m.enum_attrs,
        name: vn,
        fields: variant_fields(m, p),
    }
}

/// The bound on the return channel: present exactly when one is configured.
pub open spec fn returnval_bounds(p: ParamsView) -> Seq<Seq<char>> {
    match p.returnval {
        Some(rv) => seq![rv + ": ::ctrlgen::Returnval"@],
        None => Seq::empty(),
    }
}

/// The variant names of the methods, in order.
pub open spec fn variant_names(d: InputDataView) -> Seq<Seq<char>> {
    d.methods.map_values(|m: MethodView| variant_name(m))
}

/// The message enum of a service whose variants are named `names`: one
/// variant per method, in order.
pub open spec fn enum_named(d: InputDataView, names: Seq<Seq<char>>) -> EnumView {
    EnumView {
        attrs: d.params.enum_attrs,
        visibility: d.params.visibility,
        name: d.params.enum_name,
        where_predicates: returnval_bounds(d.params),
        variants: Seq::new(d.methods.len(), |i: int| variant_of(d.methods[i], d.params, names[i])),
    }
}

/// The message enum of a service.
pub open spec fn enum_of(d: InputDataView) -> EnumView {
    enum_named(d, variant_names(d))
}

fn field_type_of(a: &Argument) -> (r: String)
    requires
        arg_well_formed(a@),
    ensures
        r@ == field_type(a@),
{
    if a.to_owned {
        match &a.referent {
            Some(t) => {
                let mut s = String::from_str("<");
                s.append(t.as_str());
                s.append(" as ::std::borrow::ToOwned>::Owned");
                s
            },
            None => a.ty.clone(),
        }
    } else {
        a.ty.clone()
    }
}

/// The text of `channel_path(rv, ret)`.
fn channel_path_of(rv: &String, ret: &String) -> (r: String)
    ensures
        r@ == channel_path(rv@, ret@),
{
    let mut s = String::from_str("<");
    s.append(rv.as_str());
    s.append(" as ::ctrlgen::ReturnChannel<");
    s.append(ret.as_str());
    s.append(">>");
    s
}

/// The variant, named `name`, that a method becomes in the message enum.
pub fn generate_variant(m: &Method, p: &Params, name: String) -> (r: VariantDef)
    requires
        method_well_formed(m@),
    ensures
        r@ == variant_of(m@, p@, name@),
{
    let mut fields: Vec<FieldDef> = Vec::new();
    let mut j: usize = 0;
    while j < m.args.len()
        invariant
            j <= m.args@.len(),
            method_well_formed(m@),
            fields@.map_values(|f: FieldDef| f@) == m@.args.take(j as int).map_values(
                |a: ArgumentView| arg_field(a),
            ),
        decreases m.args@.len() - j,
    {
        let a = &m.args[j];
        assert(m@.args[j as int] == a@);
        assert(arg_well_formed(m@.args[j as int]));
        let f = FieldDef { attrs: copy_strings(&a.enum_attrs), name: a.name.clone(), ty: field_type_of(a) };
        let ghost before = fields@;
        fields.push(f);
        assert(m@.args.take(j + 1) == m@.args.take(j as int).push(a@));
        assert(fields@.map_values(|f: FieldDef| f@) =~= before.map_values(|f: FieldDef| f@).push(
            arg_field(a@),
        ));
        assert(m@.args.take(j + 1).map_values(|a: ArgumentView| arg_field(a)) =~= m@.args.take(
            j as int,
        ).map_values(|a: ArgumentView| arg_field(a)).push(arg_field(a@)));
        j += 1;
    }
    assert(m@.args.take(m@.args.len() as int) == m@.args);
    if let (Some(ret), Some(rv)) = (&m.ret, &p.returnval) {
        let mut ty = channel_path_of(rv, ret);
        ty.append("::SendHalf");
        let ghost before = fields@;
        fields.push(FieldDef { attrs: copy_strings(&m.return_attrs), name: String::from_str("ret"), ty });
        assert(fields@.map_values(|f: FieldDef| f@) =~= before.map_values(|f: FieldDef| f@).push(
            ret_field(m@, p@),
        ));
    }
    VariantDef { docs: copy_strings(&m.docs), attrs: copy_strings(&m.enum_attrs), name, fields }
}

/// The bound on the return channel, when one is configured.
fn generate_returnval_bounds(p: &Params) -> (r: Vec<String>)
    ensures
        strs(r@) == returnval_bounds(p@),
{
    let mut out: Vec<String> = Vec::new();
    if let Some(rv) = &p.returnval {
        let mut b = rv.clone();
        b.append(": ::ctrlgen::Returnval");
        out.push(b);
    }
    assert(strs(out@) =~= returnval_bounds(p@));
    out
}

impl Method {
    /// The name of the variant that this method becomes.
    pub fn variant_name(&self) -> (r: String)
        ensures
            r@ == variant_name(self@),
    {
        to_upper_camel(self.name.as_str())
    }
}

impl InputData {
    /// The variant names of the methods: each name in upper camel case.
    pub fn generate_variant_names(&self) -> (r: Vec<String>)
        ensures
            strs(r@) == variant_names(self@),
            r@.len() == self@.methods.len(),
    {
        let mut out: Vec<String> = Vec::new();
        let mut i: usize = 0;
        while i < self.methods.len()
            invariant
                i <= self.methods@.len(),
                strs(out@) == variant_names(self@).take(i as int),
                out@.len() == i,
            decreases self.methods@.len() - i,
        {
            let ghost before = out@;
            let n = self.methods[i].variant_name();
            out.push(n);
            assert(self@.methods[i as int] == self.methods@[i as int]@);
            assert(strs(out@) =~= strs(before).push(n@));
            assert(variant_names(self@).take(i + 1) =~= variant_names(self@).take(i as int).push(n@));
            i += 1;
        }
        assert(variant_names(self@).take(self@.methods.len() as int) =~= variant_names(self@));
        out
    }

    /// The message enum of a service whose variants are named `names`: one
    /// variant per method, carrying the method's arguments and, when it replies,
    /// the sender of its return channel.
    pub fn generate_enum_named(&self, names: &Vec<String>) -> (r: EnumDef)
        requires
            well_formed(self@),
            names@.len() == self@.methods.len(),
        ensures
            r@ == enum_named(self@, strs(names@)),
    {
        let mut variants: Vec<VariantDef> = Vec::new();
        let mut i: usize = 0;
        while i < self.methods.len()
            invariant
                i <= self.methods@.len(),
                names@.len() == self@.methods.len(),
                well_formed(self@),
                variants@.len() == i,
                forall|k: int| 0 <= k < i ==> (#[trigger] variants@[k])@ == variant_of(
                    self@.methods[k],
                    self@.params,
                    strs(names@)[k],
                ),
            decreases self.methods@.len() - i,
        {
            assert(self@.methods[i as int] == self.methods@[i as int]@);
            assert(method_well_formed(self@.methods[i as int]));
            variants.push(generate_variant(&self.methods[i], &self.params, names[i].clone()));
            i += 1;
        }
        let e = EnumDef {
            attrs: copy_strings(&self.params.enum_attrs),
            visibility: self.params.visibility.clone(),
            name: self.params.enum_name.clone(),
            where_predicates: generate_returnval_bounds(&self.params),
            variants,
        };
        assert(e@.variants =~= enum_named(self@, strs(names@)).variants);
        e
    }

    /// The message enum of a service: one variant per method, named after it in
    /// upper camel case.
    pub fn generate_enum(&self) -> (r: EnumDef)
        requires
            well_formed(self@),
        ensures
            r@ == enum_of(self@),
    {
        let names = self.generate_variant_names();
        self.generate_enum_named(&names)
    }
}

/// One arm of the dispatcher: the variant it matches, the names it binds,
/// the method it calls with which arguments, whether the call is awaited, and
/// the return channel its result goes through, if any.
#[derive(Debug)]
pub struct DispatchCase {
    pub variant: String,
    pub method: String,
    pub bindings: Vec<String>,
    pub call_args: Vec<String>,
    pub awaited: bool,
    pub reply: Option<String>,
}

pub ghost struct CaseView {
    pub variant: Seq<char>,
    pub method: Seq<char>,
    pub bindings: Seq<Seq<char>>,
    pub call_args: Seq<Seq<char>>,
    pub awaited: bool,
    pub reply: Option<Seq<char>>,
}

impl View for DispatchCase {
    type V = CaseView;

    open spec fn view(&self) -> CaseView {
        CaseView {
            variant: self.variant@,
            method: self.method@,
            bindings: strs(self.bindings@),
            call_args: strs(self.call_args@),
            awaited: self.awaited,
            reply: crate::model::opt_view(self.reply),
        }
    }
}

/// The dispatcher: an implementation of `CallMut`, or of `CallMutAsync` when
/// `is_async`, for the message enum on the service type.
#[derive(Debug)]
pub struct DispatchImpl {
    pub generic_params: String,
    pub service: String,
    pub enum_name: String,
    pub where_predicates: Vec<String>,
    pub error_type: String,
    pub context_name: String,
    pub context_type: String,
    pub is_async: bool,
    pub cases: Vec<DispatchCase>,
}

pub ghost struct DispatchView {
    pub generic_params: Seq<char>,
    pub service: Seq<char>,
    pub enum_name: Seq<char>,
    pub where_predicates: Seq<Seq<char>>,
    pub error_type: Seq<char>,
    pub context_name: Seq<char>,
    pub context_type: Seq<char>,
    pub is_async: bool,
    pub cases: Seq<CaseView>,
}

impl View for DispatchImpl {
    type V = DispatchView;

    open spec fn view(&self) -> DispatchView {
        DispatchView {
            generic_params: self.generic_params@,
            service: self.service@,
            enum_name: self.enum_name@,
            where_predicates: strs(self.where_predicates@),
            error_type: self.error_type@,
            context_name: self.context_name@,
            context_type: self.context_type@,
            is_async: self.is_async,
            cases: self.cases@.map_values(|c: DispatchCase| c@),
        }
    }
}

/// The names of a method's arguments, in order.
pub open spec fn arg_names(m: MethodView) -> Seq<Seq<char>> {
    m.args.map_values(|a: ArgumentView| a.name)
}

/// The arm of the dispatcher for one method: it binds the arguments (and the
/// sender, when the method replies), and calls the method with the context
/// first, when there is one, then the arguments in order.
pub open spec fn case_of(m: MethodView, p: ParamsView, vn: Seq<char>) -> CaseView {
    CaseView {
        variant: vn,
        method: m.name,
        bindings: if replies(m, p) {
            arg_names(m).push("ret"@)
        } else {
            arg_names(m)
        },
        call_args: match p.context {
            Some(c) => seq![c.0] + arg_names(m),
            None => arg_names(m),
        },
        awaited: m.is_async,
        reply: if replies(m, p) {
            Some(channel_path(p.returnval.unwrap(), m.ret.unwrap()))
        } else {
            None
        },
    }
}

/// Some method is asynchronous.
pub open spec fn any_async(ms: Seq<MethodView>) -> bool {
    exists|i: int| 0 <= i < ms.len() && (#[trigger] ms[i]).is_async
}

/// What a dispatch can fail with: the send failure of the return channel, or
/// nothing.
pub open spec fn error_type(p: ParamsView) -> Seq<char> {
    match p.returnval {
        Some(rv) => "<"@ + rv + " as ::ctrlgen::Returnval>::SendError"@,
        None => "::core::convert::Infallible"@,
    }
}

/// The dispatcher of a service.
pub open spec fn dispatch_of(d: InputDataView) -> DispatchView {
    dispatch_named(d, variant_names(d))
}

/// The dispatcher of a service whose variants are named `names`.
pub open spec fn dispatch_named(d: InputDataView, names: Seq<Seq<char>>) -> DispatchView {
    DispatchView {
        generic_params: d.generic_params,
        service: d.name + d.struct_args,
        enum_name: d.params.enum_name,
        where_predicates: d.where_predicates + returnval_bounds(d.params),
        error_type: error_type(d.params),
        context_name: match d.params.context {
            Some(c) => c.0,
            None => "_"@,
        },
        context_type: match d.params.context {
            Some(c) => c.1,
            None => "()"@,
        },
        is_async: any_async(d.methods),
        cases: Seq::new(d.methods.len(), |i: int| case_of(d.methods[i], d.params, names[i])),
    }
}

/// The arm of the dispatcher for one method, whose variant is named `variant`.
pub fn generate_case(m: &Method, p: &Params, variant: String) -> (r: DispatchCase)
    ensures
        r@ == case_of(m@, p@, variant@),
{
    let mut names: Vec<String> = Vec::new();
    let mut j: usize = 0;
    while j < m.args.len()
        invariant
            j <= m.args@.len(),
            strs(names@) == arg_names(m@).take(j as int),
        decreases m.args@.len() - j,
    {
        let ghost before = names@;
        names.push(m.args[j].name.clone());
        assert(m@.args[j as int] == m.args@[j as int]@);
        assert(strs(names@) =~= strs(before).push(m.args@[j as int].name@));
        assert(arg_names(m@).take(j + 1) =~= arg_names(m@).take(j as int).push(arg_names(m@)[j as int]));
        j += 1;
    }
    assert(arg_names(m@).take(m@.args.len() as int) =~= arg_names(m@));
    let mut call_args: Vec<String> = Vec::new();
    if let Some(c) = &p.context {
        call_args.push(c.name.clone());
    }
    let mut k: usize = 0;
    let ghost start = call_args@;
    while k < names.len()
        invariant
            k <= names@.len(),
            call_args@ == start + names@.take(k as int),
        decreases names@.len() - k,
    {
        call_args.push(names[k].clone());
        assert(names@.take(k + 1) == names@.take(k as int).push(names@[k as int]));
        k += 1;
    }
    assert(names@.take(names@.len() as int) == names@);
    assert(strs(call_args@) =~= case_of(m@, p@, variant@).call_args);
    let mut bindings = names;
    let reply = if let (Some(ret), Some(rv)) = (&m.ret, &p.returnval) {
        bindings.push(String::from_str("ret"));
        Some(channel_path_of(rv, ret))
    } else {
        None
    };
    assert(strs(bindings@) =~= case_of(m@, p@, variant@).bindings);
    DispatchCase {
        variant,
        method: m.name.clone(),
        bindings,
        call_args,
        awaited: m.is_async,
        reply,
    }
}

impl InputData {
    /// Some method is asynchronous.
    pub fn has_async_functions(&self) -> (r: bool)
        ensures
            r == any_async(self@.methods),
    {
        let mut i: usize = 0;
        while i < self.methods.len()
            invariant
                i <= self.methods@.len(),
                forall|k: int| 0 <= k < i ==> !(#[trigger] self@.methods[k]).is_async,
            decreases self.methods@.len() - i,
        {
            assert(self@.methods[i as int] == self.methods@[i as int]@);
            if self.methods[i].is_async {
                return true;
            }
            i += 1;
        }
        false
    }

    /// The predicates of the dispatcher's `where` clause: those of the block,
    /// then the bound on the return channel when one is configured.
    pub fn make_where_clause(&self) -> (r: Vec<String>)
        ensures
            strs(r@) == self@.where_predicates + returnval_bounds(self@.params),
    {
        let mut where_predicates = copy_strings(&self.where_predicates);
        let mut bounds = generate_returnval_bounds(&self.params);
        let ghost w0 = where_predicates@;
        let ghost b0 = bounds@;
        where_predicates.append(&mut bounds);
        assert(strs(where_predicates@) =~= strs(w0) + strs(b0));
        where_predicates
    }

    /// The dispatcher of a service.
    pub fn generate_call_impl(&self) -> (r: DispatchImpl)
        ensures
            r@ == dispatch_of(self@),
    {
        let names = self.generate_variant_names();
        self.generate_call_impl_named(&names)
    }

    /// The dispatcher of a service whose variants are named `names`: one arm per
    /// method, in order; asynchronous exactly when some method is.
    pub fn generate_call_impl_named(&self, names: &Vec<String>) -> (r: DispatchImpl)
        requires
            names@.len() == self@.methods.len(),
        ensures
            r@ == dispatch_named(self@, strs(names@)),
    {
        let mut cases: Vec<DispatchCase> = Vec::new();
        let mut i: usize = 0;
        while i < self.methods.len()
            invariant
                i <= self.methods@.len(),
                cases@.len() == i,
                names@.len() == self@.methods.len(),
                forall|k: int| 0 <= k < i ==> (#[trigger] cases@[k])@ == case_of(
                    self@.methods[k],
                    self@.params,
                    strs(names@)[k],
                ),
            decreases self.methods@.len() - i,
        {
            let m = &self.methods[i];
            assert(self@.methods[i as int] == m@);
            cases.push(generate_case(m, &self.params, names[i].clone()));
            i += 1;
        }
        let where_predicates = self.make_where_clause();
        let is_async = self.has_async_functions();
        let error_type = match &self.params.returnval {
            Some(rv) => {
                let mut s = String::from_str("<");
                s.append(rv.as_str());
                s.append(" as ::ctrlgen::Returnval>::SendError");
                s
            },
            None => String::from_str("::core::convert::Infallible"),
        };
        let (context_name, context_type) = match &self.params.context {
            Some(c) => (c.name.clone(), c.ty.clone()),
            None => (String::from_str("_"), String::from_str("()")),
        };
        let mut service = self.name.clone();
        service.append(self.struct_args.as_str());
        let r = DispatchImpl {
            generic_params: self.generic_params.clone(),
            service,
            enum_name: self.params.enum_name.clone(),
            where_predicates,
            error_type,
            context_name,
            context_type,
            is_async,
            cases,
        };
        assert(r@.cases =~= dispatch_named(self@, strs(names@)).cases);
        r
    }
}

/// A parameter of a proxy method.
#[derive(Debug)]
pub struct ParamDef {
    pub name: String,
    pub ty: String,
}

/// A method of a proxy trait: it takes the arguments of the service method,
/// builds the variant from the initialisers, sends it, and hands back the
/// receiving end of the return channel when there is one.
#[derive(Debug)]
pub struct ProxyMethod {
    pub docs: Vec<String>,
    pub name: String,
    pub params: Vec<ParamDef>,
    pub variant: String,
    pub inits: Vec<String>,
    pub reply: Option<String>,
}

pub ghost struct ProxyMethodView {
    pub docs: Seq<Seq<char>>,
    pub name: Seq<char>,
    pub params: Seq<(Seq<char>, Seq<char>)>,
    pub variant: Seq<char>,
    pub inits: Seq<Seq<char>>,
    pub reply: Option<Seq<char>>,
}

impl View for ProxyMethod {
    type V = ProxyMethodView;

    open spec fn view(&self) -> ProxyMethodView {
        ProxyMethodView {
            docs: strs(self.docs@),
            name: self.name@,
            params: self.params@.map_values(|q: ParamDef| (q.name@, q.ty@)),
            variant: self.variant@,
            inits: strs(self.inits@),
            reply: crate::model::opt_view(self.reply),
        }
    }
}

/// A proxy trait, with a method for each method of the service.
#[derive(Debug)]
pub struct ProxyTrait {
    pub visibility: String,
    pub name: String,
    pub enum_name: String,
    pub methods: Vec<ProxyMethod>,
}

pub ghost struct ProxyTraitView {
    pub visibility: Seq<char>,
    pub name: Seq<char>,
    pub enum_name: Seq<char>,
    pub methods: Seq<ProxyMethodView>,
}

impl View for ProxyTrait {
    type V = ProxyTraitView;

    open spec fn view(&self) -> ProxyTraitView {
        ProxyTraitView {
            visibility: self.visibility@,
            name: self.name@,
            enum_name: self.enum_name@,
            methods: self.methods@.map_values(|m: ProxyMethod| m@),
        }
    }
}

/// How a proxy method fills a field from its argument: the argument itself,
/// or its owned counterpart.
pub open spec fn init_of(a: ArgumentView) -> Seq<char> {
    if a.to_owned {
        a.name + ": ::std::borrow::ToOwned::to_owned("@ + a.name + ")"@
    } else {
        a.name
    }
}

pub open spec fn proxy_method_of(m: MethodView, p: ParamsView, vn: Seq<char>) -> ProxyMethodView {
    ProxyMethodView {
        docs: m.docs,
        name: m.name,
        params: m.args.map_values(|a: ArgumentView| (a.name, a.ty)),
        variant: vn,
        inits: m.args.map_values(|a: ArgumentView| init_of(a)),
        reply: if replies(m, p) {
            Some(channel_path(p.returnval.unwrap(), m.ret.unwrap()))
        } else {
            None
        },
    }
}

/// The proxy trait named `name` of a service.
pub open spec fn proxy_of(d: InputDataView, name: Seq<char>) -> ProxyTraitView {
    proxy_named(d, name, variant_names(d))
}

/// The proxy trait named `name` of a service whose variants are named `names`.
pub open spec fn proxy_named(d: InputDataView, name: Seq<char>, names: Seq<Seq<char>>) -> ProxyTraitView {
    ProxyTraitView {
        visibility: d.params.visibility,
        name,
        enum_name: d.params.enum_name,
        methods: Seq::new(d.methods.len(), |i: int| proxy_method_of(d.methods[i], d.params, names[i])),
    }
}

fn init_of_arg(a: &Argument) -> (r: String)
    ensures
        r@ == init_of(a@),
{
    if a.to_owned {
        let mut s = a.name.clone();
        s.append(": ::std::borrow::ToOwned::to_owned(");
        s.append(a.name.as_str());
        s.append(")");
        s
    } else {
        a.name.clone()
    }
}

/// The proxy method for one service method, whose variant is named `variant`.
pub fn generate_proxy_method(m: &Method, p: &Params, variant: String) -> (r: ProxyMethod)
    ensures
        r@ == proxy_method_of(m@, p@, variant@),
{
    let mut params: Vec<ParamDef> = Vec::new();
    let mut inits: Vec<String> = Vec::new();
    let mut j: usize = 0;
    while j < m.args.len()
        invariant
            j <= m.args@.len(),
            params@.map_values(|q: ParamDef| (q.name@, q.ty@)) == m@.args.take(j as int).map_values(
                |a: ArgumentView| (a.name, a.ty),
            ),
            strs(inits@) == m@.args.take(j as int).map_values(|a: ArgumentView| init_of(a)),
        decreases m.args@.len() - j,
    {
        let a = &m.args[j];
        assert(m@.args[j as int] == a@);
        let ghost p0 = params@;
        let ghost i0 = inits@;
        params.push(ParamDef { name: a.name.clone(), ty: a.ty.clone() });
        inits.push(init_of_arg(a));
        assert(m@.args.take(j + 1) == m@.args.take(j as int).push(a@));
        assert(params@.map_values(|q: ParamDef| (q.name@, q.ty@)) =~= p0.map_values(
            |q: ParamDef| (q.name@, q.ty@),
        ).push((a.name@, a.ty@)));
        assert(m@.args.take(j + 1).map_values(|a: ArgumentView| (a.name, a.ty)) =~= m@.args.take(
            j as int,
        ).map_values(|a: ArgumentView| (a.name, a.ty)).push((a.name@, a.ty@)));
        assert(strs(inits@) =~= strs(i0).push(init_of(a@)));
        assert(m@.args.take(j + 1).map_values(|a: ArgumentView| init_of(a)) =~= m@.args.take(
            j as int,
        ).map_values(|a: ArgumentView| init_of(a)).push(init_of(a@)));
        j += 1;
    }
    assert(m@.args.take(m@.args.len() as int) == m@.args);
    let reply = if let (Some(ret), Some(rv)) = (&m.ret, &p.returnval) {
        Some(channel_path_of(rv, ret))
    } else {
        None
    };
    ProxyMethod {
        docs: copy_strings(&m.docs),
        name: m.name.clone(),
        params,
        variant,
        inits,
        reply,
    }
}

impl InputData {
    /// The proxy trait named `name` of a service whose variants are named
    /// `names`: one method per service method, in order.
    pub fn generate_proxy_trait_named(&self, name: &String, names: &Vec<String>) -> (r: ProxyTrait)
        requires
            names@.len() == self@.methods.len(),
        ensures
            r@ == proxy_named(self@, name@, strs(names@)),
    {
        let mut methods: Vec<ProxyMethod> = Vec::new();
        let mut i: usize = 0;
        while i < self.methods.len()
            invariant
                i <= self.methods@.len(),
                names@.len() == self@.methods.len(),
                methods@.len() == i,
                forall|k: int| 0 <= k < i ==> (#[trigger] methods@[k])@ == proxy_method_of(
                    self@.methods[k],
                    self@.params,
                    strs(names@)[k],
                ),
            decreases self.methods@.len() - i,
        {
            assert(self@.methods[i as int] == self.methods@[i as int]@);
            methods.push(generate_proxy_method(&self.methods[i], &self.params, names[i].clone()));
            i += 1;
        }
        let r = ProxyTrait {
            visibility: self.params.visibility.clone(),
            name: name.clone(),
            enum_name: self.params.enum_name.clone(),
            methods,
        };
        assert(r@.methods =~= proxy_named(self@, name@, strs(names@)).methods);
        r
    }

    /// The proxy trait named `name` of a service.
    pub fn generate_proxy_trait(&self, name: &String) -> (r: ProxyTrait)
        ensures
            r@ == proxy_of(self@, name@),
    {
        let names = self.generate_variant_names();
        self.generate_proxy_trait_named(name, &names)
    }

    /// The proxy traits that the configuration asks for, in order.
    pub fn generate_proxies(&self) -> (r: Vec<ProxyTrait>)
        ensures
            r@.len() == self@.params.proxies.len(),
            forall|i: int| 0 <= i < r@.len() ==> (#[trigger] r@[i])@ == proxy_of(self@, self@.params.proxies[i]),
    {
        let names = self.generate_variant_names();
        let mut out: Vec<ProxyTrait> = Vec::new();
        let mut i: usize = 0;
        while i < self.params.proxies.len()
            invariant
                i <= self.params.proxies@.len(),
                strs(names@) == variant_names(self@),
                names@.len() == self@.methods.len(),
                out@.len() == i,
                forall|k: int| 0 <= k < i ==> (#[trigger] out@[k])@ == proxy_of(self@, self@.params.proxies[k]),
            decreases self.params.proxies@.len() - i,
        {
            out.push(self.generate_proxy_trait_named(&self.params.proxies[i], &names));
            i += 1;
        }
        out
    }
}

} // verus!
