//! Writes the generated code out as source text.
use vstd::prelude::*;

use crate::generate::CaseView;
use crate::generate::DispatchCase;
use crate::generate::DispatchImpl;
use crate::generate::DispatchView;
use crate::generate::EnumDef;
use crate::generate::EnumView;
use crate::generate::FieldDef;
use crate::generate::FieldView;
use crate::generate::ProxyMethod;
use crate::generate::ProxyMethodView;
use crate::generate::ProxyTrait;
use crate::generate::ProxyTraitView;
use crate::generate::VariantDef;
use crate::generate::VariantView;
use crate::text::strs;

verus! {

/// The texts that `f` gives for the items of `s`, one after the other.
pub open spec fn concat_map<A>(s: Seq<A>, f: spec_fn(A) -> Seq<char>) -> Seq<char>
    decreases s.len(),
{
    if s.len() == 0 {
        Seq::empty()
    } else {
        concat_map(s.drop_last(), f) + f(s.last())
    }
}

proof fn lemma_concat_map_step<A>(s: Seq<A>, f: spec_fn(A) -> Seq<char>, i: int)
    requires
        0 <= i < s.len(),
    ensures
        concat_map(s.take(i + 1), f) == concat_map(s.take(i), f) + f(s[i]),
{
    assert(s.take(i + 1).drop_last() =~= s.take(i));
}

proof fn lemma_take_all<A>(s: Seq<A>)
    ensures
        s.take(s.len() as int) == s,
{
    assert(s.take(s.len() as int) =~= s);
}

/// Each text followed by `sep`.
pub open spec fn joined(s: Seq<Seq<char>>, sep: Seq<char>) -> Seq<char> {
    concat_map(s, |l: Seq<char>| l + sep)
}

/// Each text on a line of its own.
pub open spec fn lines(s: Seq<Seq<char>>) -> Seq<char> {
    joined(s, "\n"@)
}

pub open spec fn field_text(f: FieldView) -> Seq<char> {
    lines(f.attrs) + f.name + ": "@ + f.ty + ",\n"@
}

pub open spec fn variant_text(v: VariantView) -> Seq<char> {
    lines(v.docs) + lines(v.attrs) + v.name + " {\n"@ + concat_map(v.fields, |f: FieldView| field_text(f))
        + "},\n"@
}

pub open spec fn where_text(ps: Seq<Seq<char>>) -> Seq<char> {
    if ps.len() == 0 {
        Seq::empty()
    } else {
        " where "@ + joined(ps, ", "@)
    }
}

/// The source text of the message enum.
pub open spec fn enum_text(e: EnumView) -> Seq<char> {
    lines(e.attrs) + e.visibility + " enum "@ + e.name + where_text(e.where_predicates) + " {\n"@
        + concat_map(e.variants, |v: VariantView| variant_text(v)) + "}\n"@
}

/// The call of the method in an arm of the dispatcher.
pub open spec fn call_text(c: CaseView) -> Seq<char> {
    "this."@ + c.method + "("@ + joined(c.call_args, ", "@) + ")"@ + if c.awaited {
        ".await"@
    } else {
        Seq::empty()
    }
}

pub open spec fn case_text(c: CaseView) -> Seq<char> {
    "Self::"@ + c.variant + " { "@ + joined(c.bindings, ", "@) + "} => {\n"@ + match c.reply {
        Some(ch) => ch + "::send(ret, "@ + call_text(c) + ")\n"@,
        None => call_text(c) + ";\n::core::result::Result::Ok(())\n"@,
    } + "}\n"@
}

pub open spec fn cases_text(d: DispatchView) -> Seq<char> {
    "match self {\n"@ + concat_map(d.cases, |c: CaseView| case_text(c)) + "}\n"@
}

pub open spec fn head_text(d: DispatchView) -> Seq<char> {
    "type Error = "@ + d.error_type + ";\ntype Context = "@ + d.context_type + ";\n"@
}

/// The dispatcher for services with an asynchronous method: the message
/// becomes a boxed future.
pub open spec fn async_dispatch_text(d: DispatchView) -> Seq<char> {
    async_header_text(d) + head_text(d)
        + "type Future = ::core::pin::Pin<::std::boxed::Box<dyn ::core::future::Future<Output = ::core::result::Result<(), Self::Error>> + 'ctrlgen>>;\n"@
        + "fn call_mut_async_with_ctx(self, this: &'ctrlgen mut "@ + d.service + ", "@ + d.context_name
        + ": "@ + d.context_type + ") -> Self::Future {\n::std::boxed::Box::pin(async move {\n"@
        + cases_text(d) + "})\n}\n}\n"@
}

/// The opening of the asynchronous dispatcher, up to its brace.
pub open spec fn async_header_text(d: DispatchView) -> Seq<char> {
    "impl<'ctrlgen, "@ + d.generic_params + "> ::ctrlgen::CallMutAsync<'ctrlgen, "@ + d.service + "> for "@
        + d.enum_name + " where "@ + d.service + ": 'ctrlgen, "@ + d.enum_name + ": 'ctrlgen, "@ + joined(
        d.where_predicates,
        ", "@,
    ) + "{\n"@
}

/// The dispatcher for services whose methods are all synchronous.
pub open spec fn sync_dispatch_text(d: DispatchView) -> Seq<char> {
    sync_header_text(d) + head_text(d) + "fn call_mut_with_ctx(self, this: &mut "@
        + d.service + ", "@ + d.context_name + ": "@ + d.context_type
        + ") -> ::core::result::Result<(), Self::Error> {\n"@ + cases_text(d) + "}\n}\n"@
}

/// The opening of the synchronous dispatcher, up to its brace.
pub open spec fn sync_header_text(d: DispatchView) -> Seq<char> {
    "impl<"@ + d.generic_params + "> ::ctrlgen::CallMut<"@ + d.service + "> for "@ + d.enum_name
        + where_text(d.where_predicates) + " {\n"@
}

/// The source text of the dispatcher.
pub open spec fn dispatch_text(d: DispatchView) -> Seq<char> {
    if d.is_async {
        async_dispatch_text(d)
    } else {
        sync_dispatch_text(d)
    }
}

pub open spec fn param_text(q: (Seq<char>, Seq<char>)) -> Seq<char> {
    q.0 + ": "@ + q.1 + ", "@
}

/// The body of a proxy method: build the variant of `enum_name`, send it, and
/// hand back the receiving end when the method replies.
pub open spec fn proxy_body_text(m: ProxyMethodView, enum_name: Seq<char>) -> Seq<char> {
    let send = "<Self as ::ctrlgen::Proxy<"@ + enum_name + ">>::send(self, msg);\n"@;
    match m.reply {
        Some(ch) => " -> "@ + ch + "::RecvResult {\nlet ret = "@ + ch + "::create();\nlet msg = "@
            + enum_name + "::"@ + m.variant + " { "@ + joined(m.inits, ", "@) + "ret: ret.0, };\n"@ + send
            + ch + "::recv(ret.1)\n}\n"@,
        None => " {\nlet msg = "@ + enum_name + "::"@ + m.variant + " { "@ + joined(m.inits, ", "@)
            + "};\n"@ + send + "}\n"@,
    }
}

/// The source text of a proxy method that builds a variant of `enum_name`.
pub open spec fn proxy_method_text(m: ProxyMethodView, enum_name: Seq<char>) -> Seq<char> {
    lines(m.docs) + "fn "@ + m.name + "(&self, "@ + concat_map(
        m.params,
        |q: (Seq<char>, Seq<char>)| param_text(q),
    ) + ")"@ + proxy_body_text(m, enum_name)
}

/// The source text of a proxy trait and of its implementation for every
/// proxy of the message enum.
pub open spec fn proxy_text(p: ProxyTraitView) -> Seq<char> {
    p.visibility + " trait "@ + p.name + ": ::ctrlgen::Proxy<"@ + p.enum_name + "> {\n"@ + concat_map(
        p.methods,
        |m: ProxyMethodView| proxy_method_text(m, p.enum_name),
    ) + "}\nimpl<T: ::ctrlgen::Proxy<"@ + p.enum_name + ">> "@ + p.name + " for T {}\n"@
}

/// Appends each string followed by `sep`.
fn push_joined(out: &mut String, v: &Vec<String>, sep: &str)
    ensures
        final(out)@ == old(out)@ + joined(strs(v@), sep@),
{
    let ghost s = strs(v@);
    let ghost f = |l: Seq<char>| l + sep@;
    let mut i: usize = 0;
    while i < v.len()
        invariant
            i <= v@.len(),
            s == strs(v@),
            f == (|l: Seq<char>| l + sep@),
            out@ == old(out)@ + concat_map(s.take(i as int), f),
        decreases v@.len() - i,
    {
        proof {
            lemma_concat_map_step(s, f, i as int);
        }
        out.append(v[i].as_str());
        out.append(sep);
        i += 1;
    }
    proof {
        lemma_take_all(s);
    }
}

fn push_field(out: &mut String, f: &FieldDef)
    ensures
        final(out)@ == old(out)@ + field_text(f@),
{
    push_joined(out, &f.attrs, "\n");
    out.append(f.name.as_str());
    out.append(": ");
    out.append(f.ty.as_str());
    out.append(",\n");
}

fn push_variant(out: &mut String, v: &VariantDef)
    ensures
        final(out)@ == old(out)@ + variant_text(v@),
{
    let ghost start = out@;
    push_joined(out, &v.docs, "\n");
    push_joined(out, &v.attrs, "\n");
    out.append(v.name.as_str());
    out.append(" {\n");
    let ghost s = v@.fields;
    let ghost f = |f: FieldView| field_text(f);
    let ghost mid = out@;
    let mut i: usize = 0;
    while i < v.fields.len()
        invariant
            i <= v.fields@.len(),
            s == v@.fields,
            f == (|f: FieldView| field_text(f)),
            out@ == mid + concat_map(s.take(i as int), f),
        decreases v.fields@.len() - i,
    {
        proof {
            lemma_concat_map_step(s, f, i as int);
        }
        assert(s[i as int] == v.fields@[i as int]@);
        push_field(out, &v.fields[i]);
        i += 1;
    }
    proof {
        lemma_take_all(s);
    }
    out.append("},\n");
}

fn push_where(out: &mut String, ps: &Vec<String>)
    ensures
        final(out)@ == old(out)@ + where_text(strs(ps@)),
{
    if ps.len() > 0 {
        out.append(" where ");
        push_joined(out, ps, ", ");
    }
}

/// The source text of the message enum.
pub fn render_enum(e: &EnumDef) -> (r: String)
    ensures
        r@ == enum_text(e@),
{
    let mut out = String::new();
    push_joined(&mut out, &e.attrs, "\n");
    out.append(e.visibility.as_str());
    out.append(" enum ");
    out.append(e.name.as_str());
    push_where(&mut out, &e.where_predicates);
    out.append(" {\n");
    let ghost s = e@.variants;
    let ghost f = |v: VariantView| variant_text(v);
    let ghost mid = out@;
    let mut i: usize = 0;
    while i < e.variants.len()
        invariant
            i <= e.variants@.len(),
            s == e@.variants,
            f == (|v: VariantView| variant_text(v)),
            out@ == mid + concat_map(s.take(i as int), f),
        decreases e.variants@.len() - i,
    {
        proof {
            lemma_concat_map_step(s, f, i as int);
        }
        assert(s[i as int] == e.variants@[i as int]@);
        push_variant(&mut out, &e.variants[i]);
        i += 1;
    }
    proof {
        lemma_take_all(s);
    }
    out.append("}\n");
    out
}

fn push_call(out: &mut String, c: &DispatchCase)
    ensures
        final(out)@ == old(out)@ + call_text(c@),
{
    out.append("this.");
    out.append(c.method.as_str());
    out.append("(");
    push_joined(out, &c.call_args, ", ");
    out.append(")");
    if c.awaited {
        out.append(".await");
    }
}

fn push_case(out: &mut String, c: &DispatchCase)
    ensures
        final(out)@ == old(out)@ + case_text(c@),
{
    out.append("Self::");
    out.append(c.variant.as_str());
    out.append(" { ");
    push_joined(out, &c.bindings, ", ");
    out.append("} => {\n");
    match &c.reply {
        Some(ch) => {
            out.append(ch.as_str());
            out.append("::send(ret, ");
            push_call(out, c);
            out.append(")\n");
        },
        None => {
            push_call(out, c);
            out.append(";\n::core::result::Result::Ok(())\n");
        },
    }
    out.append("}\n");
}

fn push_cases(out: &mut String, d: &DispatchImpl)
    ensures
        final(out)@ == old(out)@ + cases_text(d@),
{
    out.append("match self {\n");
    let ghost s = d@.cases;
    let ghost f = |c: CaseView| case_text(c);
    let ghost mid = out@;
    let mut i: usize = 0;
    while i < d.cases.len()
        invariant
            i <= d.cases@.len(),
            s == d@.cases,
            f == (|c: CaseView| case_text(c)),
            out@ == mid + concat_map(s.take(i as int), f),
        decreases d.cases@.len() - i,
    {
        proof {
            lemma_concat_map_step(s, f, i as int);
        }
        assert(s[i as int] == d.cases@[i as int]@);
        push_case(out, &d.cases[i]);
        i += 1;
    }
    proof {
        lemma_take_all(s);
    }
    out.append("}\n");
}

fn push_async_header(out: &mut String, d: &DispatchImpl)
    ensures
        final(out)@ == old(out)@ + async_header_text(d@),
{
    out.append("impl<'ctrlgen, ");
    out.append(d.generic_params.as_str());
    out.append("> ::ctrlgen::CallMutAsync<'ctrlgen, ");
    out.append(d.service.as_str());
    out.append("> for ");
    out.append(d.enum_name.as_str());
    out.append(" where ");
    out.append(d.service.as_str());
    out.append(": 'ctrlgen, ");
    out.append(d.enum_name.as_str());
    out.append(": 'ctrlgen, ");
    push_joined(out, &d.where_predicates, ", ");
    out.append("{\n");
}

fn push_async_dispatch(out: &mut String, d: &DispatchImpl)
    ensures
        final(out)@ == old(out)@ + async_dispatch_text(d@),
{
    push_async_header(out, d);
    push_head(out, d);
    out.append(
        "type Future = ::core::pin::Pin<::std::boxed::Box<dyn ::core::future::Future<Output = ::core::result::Result<(), Self::Error>> + 'ctrlgen>>;\n",
    );
    out.append("fn call_mut_async_with_ctx(self, this: &'ctrlgen mut ");
    out.append(d.service.as_str());
    out.append(", ");
    out.append(d.context_name.as_str());
    out.append(": ");
    out.append(d.context_type.as_str());
    out.append(") -> Self::Future {\n::std::boxed::Box::pin(async move {\n");
    push_cases(out, d);
    out.append("})\n}\n}\n");
}

fn push_sync_header(out: &mut String, d: &DispatchImpl)
    ensures
        final(out)@ == old(out)@ + sync_header_text(d@),
{
    out.append("impl<");
    out.append(d.generic_params.as_str());
    out.append("> ::ctrlgen::CallMut<");
    out.append(d.service.as_str());
    out.append("> for ");
    out.append(d.enum_name.as_str());
    push_where(out, &d.where_predicates);
    out.append(" {\n");
}

fn push_sync_dispatch(out: &mut String, d: &DispatchImpl)
    ensures
        final(out)@ == old(out)@ + sync_dispatch_text(d@),
{
    push_sync_header(out, d);
    push_head(out, d);
    out.append("fn call_mut_with_ctx(self, this: &mut ");
    out.append(d.service.as_str());
    out.append(", ");
    out.append(d.context_name.as_str());
    out.append(": ");
    out.append(d.context_type.as_str());
    out.append(") -> ::core::result::Result<(), Self::Error> {\n");
    push_cases(out, d);
    out.append("}\n}\n");
}

/// The source text of the dispatcher.
pub fn render_dispatch(d: &DispatchImpl) -> (r: String)
    ensures
        r@ == dispatch_text(d@),
{
    let mut out = String::new();
    if d.is_async {
        push_async_dispatch(&mut out, d);
    } else {
        push_sync_dispatch(&mut out, d);
    }
    out
}

fn push_head(out: &mut String, d: &DispatchImpl)
    ensures
        final(out)@ == old(out)@ + head_text(d@),
{
    out.append("type Error = ");
    out.append(d.error_type.as_str());
    out.append(";\ntype Context = ");
    out.append(d.context_type.as_str());
    out.append(";\n");
}

fn push_params(out: &mut String, m: &ProxyMethod)
    ensures
        final(out)@ == old(out)@ + concat_map(m@.params, |q: (Seq<char>, Seq<char>)| param_text(q)),
{
    let ghost s = m@.params;
    let ghost f = |q: (Seq<char>, Seq<char>)| param_text(q);
    let ghost mid = out@;
    let mut i: usize = 0;
    while i < m.params.len()
        invariant
            i <= m.params@.len(),
            s == m@.params,
            f == (|q: (Seq<char>, Seq<char>)| param_text(q)),
            out@ == mid + concat_map(s.take(i as int), f),
        decreases m.params@.len() - i,
    {
        proof {
            lemma_concat_map_step(s, f, i as int);
        }
        let q = &m.params[i];
        assert(s[i as int] == (q.name@, q.ty@));
        out.append(q.name.as_str());
        out.append(": ");
        out.append(q.ty.as_str());
        out.append(", ");
        i += 1;
    }
    proof {
        lemma_take_all(s);
    }
}

fn push_proxy_body(out: &mut String, m: &ProxyMethod, enum_name: &String)
    ensures
        final(out)@ == old(out)@ + proxy_body_text(m@, enum_name@),
{
    match &m.reply {
        Some(ch) => {
            out.append(" -> ");
            out.append(ch.as_str());
            out.append("::RecvResult {\nlet ret = ");
            out.append(ch.as_str());
            out.append("::create();\nlet msg = ");
            out.append(enum_name.as_str());
            out.append("::");
            out.append(m.variant.as_str());
            out.append(" { ");
            push_joined(out, &m.inits, ", ");
            out.append("ret: ret.0, };\n");
            push_send(out, enum_name);
            out.append(ch.as_str());
            out.append("::recv(ret.1)\n}\n");
        },
        None => {
            out.append(" {\nlet msg = ");
            out.append(enum_name.as_str());
            out.append("::");
            out.append(m.variant.as_str());
            out.append(" { ");
            push_joined(out, &m.inits, ", ");
            out.append("};\n");
            push_send(out, enum_name);
            out.append("}\n");
        },
    }
}

fn push_proxy_method(out: &mut String, m: &ProxyMethod, enum_name: &String)
    ensures
        final(out)@ == old(out)@ + proxy_method_text(m@, enum_name@),
{
    push_joined(out, &m.docs, "\n");
    out.append("fn ");
    out.append(m.name.as_str());
    out.append("(&self, ");
    push_params(out, m);
    out.append(")");
    push_proxy_body(out, m, enum_name);
}

fn push_send(out: &mut String, enum_name: &String)
    ensures
        final(out)@ == old(out)@ + "<Self as ::ctrlgen::Proxy<"@ + enum_name@ + ">>::send(self, msg);\n"@,
{
    out.append("<Self as ::ctrlgen::Proxy<");
    out.append(enum_name.as_str());
    out.append(">>::send(self, msg);\n");
}

/// The source text of a proxy trait and its blanket implementation.
pub fn render_proxy(p: &ProxyTrait) -> (r: String)
    ensures
        r@ == proxy_text(p@),
{
    let mut out = p.visibility.clone();
    out.append(" trait ");
    out.append(p.name.as_str());
    out.append(": ::ctrlgen::Proxy<");
    out.append(p.enum_name.as_str());
    out.append("> {\n");
    let ghost s = p@.methods;
    let ghost f = |m: ProxyMethodView| proxy_method_text(m, p@.enum_name);
    let ghost mid = out@;
    let mut i: usize = 0;
    while i < p.methods.len()
        invariant
            i <= p.methods@.len(),
            s == p@.methods,
            f == (|m: ProxyMethodView| proxy_method_text(m, p@.enum_name)),
            out@ == mid + concat_map(s.take(i as int), f),
        decreases p.methods@.len() - i,
    {
        proof {
            lemma_concat_map_step(s, f, i as int);
        }
        assert(s[i as int] == p.methods@[i as int]@);
        push_proxy_method(&mut out, &p.methods[i], &p.enum_name);
        i += 1;
    }
    proof {
        lemma_take_all(s);
    }
    out.append("}\nimpl<T: ::ctrlgen::Proxy<");
    out.append(p.enum_name.as_str());
    out.append(">> ");
    out.append(p.name.as_str());
    out.append(" for T {}\n");
    out
}

} // verus!
