//! The whole expansion: parse the arguments, analyze the block, generate.
use vstd::prelude::*;

use crate::analyze::first_fault;
use crate::analyze::impl_accepted;
use crate::analyze::input_model;
use crate::analyze::InputError;
use crate::config::args_config;
use crate::config::parse_args;
use crate::config::ArgError;
use crate::generate::dispatch_named;
use crate::generate::enum_named;
use crate::generate::proxy_named;
use crate::generate::variant_names;
use crate::model::well_formed;
use crate::model::InputData;
use crate::model::InputDataView;
use crate::render::concat_map;
use crate::render::dispatch_text;
use crate::render::enum_text;
use crate::render::proxy_text;
use crate::render::render_dispatch;
use crate::render::render_enum;
use crate::render::render_proxy;
use crate::source::SourceImpl;
use crate::text::strs;
use crate::tokens::Tok;

verus! {

/// Why an expansion failed.
#[derive(Clone, Copy, Debug, PartialEq, Eq, Structural)]
pub enum GenError {
    Args(ArgError),
    Input(InputError),
}

/// The generated code of a service whose variants are named `names`: the
/// message enum, its dispatcher, and the proxy traits in the order asked for.
pub open spec fn generated_text(d: InputDataView, names: Seq<Seq<char>>) -> Seq<char> {
    enum_text(enum_named(d, names)) + dispatch_text(dispatch_named(d, names)) + concat_map(
        d.params.proxies,
        |n: Seq<char>| proxy_text(proxy_named(d, n, names)),
    )
}

/// The generated code of a service whose variants are named `names`.
pub fn generate_named(d: &InputData, names: &Vec<String>) -> (r: String)
    requires
        well_formed(d@),
        names@.len() == d@.methods.len(),
    ensures
        r@ == generated_text(d@, strs(names@)),
{
    let e = d.generate_enum_named(names);
    let mut out = render_enum(&e);
    let c = d.generate_call_impl_named(names);
    let dt = render_dispatch(&c);
    out.append(dt.as_str());
    let ghost f = |n: Seq<char>| proxy_text(proxy_named(d@, n, strs(names@)));
    let ghost s = d@.params.proxies;
    let ghost mid = out@;
    let mut i: usize = 0;
    while i < d.params.proxies.len()
        invariant
            i <= d.params.proxies@.len(),
            names@.len() == d@.methods.len(),
            s == d@.params.proxies,
            f == (|n: Seq<char>| proxy_text(proxy_named(d@, n, strs(names@)))),
            out@ == mid + concat_map(s.take(i as int), f),
        decreases d.params.proxies@.len() - i,
    {
        assert(s.take(i + 1).drop_last() =~= s.take(i as int));
        let p = d.generate_proxy_trait_named(&d.params.proxies[i], names);
        let t = render_proxy(&p);
        out.append(t.as_str());
        i += 1;
    }
    assert(s.take(s.len() as int) =~= s);
    out
}

/// The generated code of a service: the message enum, its dispatcher, and
/// the proxy traits.
pub fn generate(d: &InputData) -> (r: String)
    requires
        well_formed(d@),
    ensures
        r@ == generated_text(d@, variant_names(d@)),
{
    let names = d.generate_variant_names();
    generate_named(d, &names)
}

/// Expands the generator's arguments and an `impl` block into the generated
/// code (the block itself, without its markers, is emitted beside it).
pub fn ctrlgen_impl(args: &Vec<Tok>, item: &SourceImpl) -> (r: Result<String, GenError>)
    requires
        args@.len() < usize::MAX,
        args@.len() <= i64::MAX,
    ensures
        match args_config(args@) {
            Err(e) => r == Err::<String, GenError>(GenError::Args(e)),
            Ok(p) => if impl_accepted(*item, p) {
                r matches Ok(t) && t@ == generated_text(
                    input_model(*item, p),
                    variant_names(input_model(*item, p)),
                )
            } else {
                r matches Err(GenError::Input(e)) && first_fault(*item, p, e)
            },
        },
{
    let params = match parse_args(args) {
        Ok(p) => p,
        Err(e) => return Err(GenError::Args(e)),
    };
    match InputData::parse_inherent_impl(item, params) {
        Ok(d) => Ok(generate(&d)),
        Err(e) => Err(GenError::Input(e)),
    }
}

} // verus!
