//! The central files.

use crate::api::ExtensionApi;
use crate::check::{Fault, api_fault, context_fault, find_context_fault, find_fault};
use crate::code::{core_tokens, make_core_code, make_sys_code, sys_tokens, texts};
use crate::items::{Context, api_ok, central_items, context_ok, make_central_items, types_of};
use crate::tokens::rendered;
use crate::types::{
    TypeInfo, by_value, collect_builtin_classes, collect_builtin_types, infos, sort_by_value,
};
use vstd::prelude::*;
use vstd::string::*;

verus! {

/// The crate for which a file is generated.
#[derive(Clone, Copy, Debug, PartialEq, Eq, Structural)]
pub enum Target {
    Sys,
    Core,
}

/// A file that is to be written to the directory of its target.
#[derive(Debug)]
pub struct OutputFile {
    pub target: Target,
    pub name: String,
    pub code: String,
}

/// [`OutputFile`] in contracts.
pub struct Output {
    pub target: Target,
    pub name: Seq<char>,
    pub code: Seq<char>,
}

impl View for OutputFile {
    type V = Output;

    open spec fn view(&self) -> Output {
        Output { target: self.target, name: self.name@, code: self.code@ }
    }
}

/// The file `central.rs`.
pub open spec fn central_file(target: Target, code: Seq<char>) -> Output {
    Output { target, name: "central.rs"@, code }
}

/// What the files say.
pub open spec fn outputs(files: Seq<OutputFile>) -> Seq<Output> {
    files.map_values(|f: OutputFile| f@)
}

/// The two central files: the one of the sys crate, then the one of the core crate.
pub open spec fn central_files(api: ExtensionApi, ctx: Context, build_config: Seq<char>) -> Seq<
    Output,
> {
    let items = central_items(api, build_config, ctx);
    seq![
        central_file(Target::Sys, rendered(sys_tokens(items))),
        central_file(Target::Core, rendered(core_tokens(items))),
    ]
}

/// The names in Pascal case of the types.
pub open spec fn pascal_names(list: Seq<TypeInfo>) -> Seq<Seq<char>> {
    list.map_values(|t: TypeInfo| t.names.pascal_case)
}

/// The names in Pascal case of the builtin types, by ascending ordinal: the Rust type of each of
/// them must be given in the [`Context`]. Where the interface description cannot be read, its
/// first fault is returned.
pub fn builtin_type_names(api: &ExtensionApi, build_config: &str) -> (names: Result<
    Vec<String>,
    Fault,
>)
    ensures
        match names {
            Ok(list) => api_ok(*api, build_config@) && texts(list@) == pascal_names(
                by_value(types_of(*api)),
            ),
            Err(fault) => !api_ok(*api, build_config@) && api_fault(*api, build_config@) == Some(
                fault@,
            ),
        },
{
    if let Some(fault) = find_fault(api, build_config) {
        return Err(fault);
    }
    let class_map = collect_builtin_classes(api);
    let types = collect_builtin_types(api, &class_map);
    let list = sort_by_value(&types);
    let ghost all = infos(list@);
    let mut names: Vec<String> = Vec::new();
    assert(texts(names@) =~= pascal_names(all.take(0)));
    for i in 0..list.len()
        invariant
            all == infos(list@),
            texts(names@) == pascal_names(all.take(i as int)),
    {
        let ghost before = texts(names@);
        let name = list[i].type_names.pascal_case.clone();
        names.push(name);
        proof {
            assert(all.take(i + 1) =~= all.take(i as int).push(all[i as int]));
            assert(texts(names@) =~= before.push(name@));
            assert(texts(names@) =~= pascal_names(all.take(i + 1)));
        }
    }
    assert(all.take(all.len() as int) =~= all);
    Ok(names)
}

/// Generates the central files, for an interface description that can be read and a context in
/// which nothing is missing.
pub fn generate_central_files(api: &ExtensionApi, ctx: &Context, build_config: &str) -> (files: Vec<
    OutputFile,
>)
    requires
        api_ok(*api, build_config@),
        context_ok(*api, *ctx),
    ensures
        outputs(files@) == central_files(*api, *ctx, build_config@),
{
    let central_items = make_central_items(api, build_config, ctx);

    let sys_code = make_sys_code(&central_items);
    let core_code = make_core_code(&central_items);

    let mut files: Vec<OutputFile> = Vec::new();
    files.push(make_output(Target::Sys, sys_code));
    files.push(make_output(Target::Core, core_code));
    assert(outputs(files@) =~= central_files(*api, *ctx, build_config@));
    files
}

/// The file `central.rs` with the given code.
fn make_output(target: Target, code: String) -> (file: OutputFile)
    ensures
        file@ == central_file(target, code@),
{
    OutputFile { target, name: "central.rs".to_string(), code }
}

/// Generates the central files, where the interface description can be read and nothing is
/// missing in the context. Where not, the first fault is returned: that of the interface
/// description, or else that of the context.
pub fn try_generate_central_files(
    api: &ExtensionApi,
    ctx: &Context,
    build_config: &str,
) -> (files: Result<Vec<OutputFile>, Fault>)
    ensures
        match files {
            Ok(list) => {
                &&& api_ok(*api, build_config@)
                &&& context_ok(*api, *ctx)
                &&& outputs(list@) == central_files(*api, *ctx, build_config@)
            },
            Err(fault) => if api_ok(*api, build_config@) {
                !context_ok(*api, *ctx) && context_fault(*api, *ctx) == Some(fault@)
            } else {
                api_fault(*api, build_config@) == Some(fault@)
            },
        },
{
    if let Some(fault) = find_fault(api, build_config) {
        return Err(fault);
    }
    if let Some(fault) = find_context_fault(api, build_config, ctx) {
        return Err(fault);
    }
    Ok(generate_central_files(api, ctx, build_config))
}

} // verus!
