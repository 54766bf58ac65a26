//! The glue emitted around the plugin's implementation block, as source text: the storage
//! of the plugin instance, the version-gated constructor, the entry point that the host
//! calls, and one C trampoline per hook that the plugin handles.
use crate::hooks::{c_method_name, hook_field_name, trait_method_name, Hooks};
use crate::parsed_impl::ParsedImpl;
use crate::types::{
    get_path_lifetime, path_lifetime, rewrite, type_text,
    PathModel, TypeExpr, TypeModel,
};
use crate::version::{decimal_string, decimal_text, RequiredVersion};
use vstd::prelude::*;

verus! {

/// One parameter that the host passes to a hook, by the kind of record it points to.
#[derive(Clone, Copy, Debug, PartialEq, Eq, Structural)]
pub enum HookParameter {
    Session,
    VmSettings,
    Distribution,
    OfflineDistribution,
}

/// The parameters of each hook's C signature, in order.
pub open spec fn hook_parameters(h: Hooks) -> Seq<HookParameter> {
    match h {
        Hooks::OnVMStarted => seq![HookParameter::Session, HookParameter::VmSettings],
        Hooks::OnVMStopping => seq![HookParameter::Session],
        Hooks::OnDistributionStarted | Hooks::OnDistributionStopping => seq![
            HookParameter::Session,
            HookParameter::Distribution,
        ],
        Hooks::OnDistributionRegistered | Hooks::OnDistributionUnregistered => seq![
            HookParameter::Session,
            HookParameter::OfflineDistribution,
        ],
    }
}

pub open spec fn parameter_name(p: HookParameter) -> Seq<char> {
    match p {
        HookParameter::Session => "session"@,
        HookParameter::VmSettings => "settings"@,
        HookParameter::Distribution => "distribution"@,
        HookParameter::OfflineDistribution => "distribution"@,
    }
}

/// The host's record that the parameter points to.
pub open spec fn parameter_record(p: HookParameter) -> Seq<char> {
    match p {
        HookParameter::Session => "WSLSessionInformation"@,
        HookParameter::VmSettings => "WSLVmCreationSettings"@,
        HookParameter::Distribution => "WSLDistributionInformation"@,
        HookParameter::OfflineDistribution => "WSLOfflineDistributionInformation"@,
    }
}

/// The safe wrapper through which the plugin sees the record.
pub open spec fn parameter_wrapper(p: HookParameter) -> Seq<char> {
    match p {
        HookParameter::Session => "WSLSessionInformation"@,
        HookParameter::VmSettings => "WSLVmCreationSettings"@,
        HookParameter::Distribution => "DistributionInformation"@,
        HookParameter::OfflineDistribution => "OfflineDistributionInformation"@,
    }
}

/// The three places where a trampoline lists its parameters.
#[derive(Clone, Copy, Debug, PartialEq, Eq, Structural)]
pub enum ParameterPart {
    /// In the C signature.
    Declaration,
    /// Turning the raw pointer into a reference.
    Dereference,
    /// In the call of the trait method, wrapped.
    Argument,
}

pub open spec fn part_text(part: ParameterPart, p: HookParameter) -> Seq<char> {
    match part {
        ParameterPart::Declaration => "    "@ + parameter_name(p) + ": *const ::wslplugins_rs::sys::"@
            + parameter_record(p) + ",\n"@,
        ParameterPart::Dereference => "    let "@ + parameter_name(p) + "_ptr = unsafe { &*"@
            + parameter_name(p) + " };\n"@,
        ParameterPart::Argument => "            &::wslplugins_rs::"@ + parameter_wrapper(p)
            + "::from("@ + parameter_name(p) + "_ptr),\n"@,
    }
}

pub open spec fn parts_text(part: ParameterPart, ps: Seq<HookParameter>) -> Seq<char>
    decreases ps.len(),
{
    if ps.len() == 0 {
        Seq::empty()
    } else {
        parts_text(part, ps.drop_last()) + part_text(part, ps.last())
    }
}

/// How the plugin instance is stored; it is set once and then only read.
#[derive(Clone, Copy, Debug, PartialEq, Eq, Structural)]
pub enum StoragePolicy {
    /// A process-wide cell, initialised once and readable from any thread: for hosts that
    /// may call the hooks from several threads.
    CrossThread,
    /// A cell of the calling thread: only for hosts that make every call on one thread;
    /// a call from another thread finds no plugin and fails.
    ThreadConfined,
}

/// The declaration of the storage, for a plugin of type `ty`.
pub open spec fn storage_text(policy: StoragePolicy, ty: Seq<char>) -> Seq<char> {
    match policy {
        StoragePolicy::CrossThread => "static PLUGIN: ::std::sync::OnceLock<"@ + ty
            + "> = ::std::sync::OnceLock::new();\n"@,
        StoragePolicy::ThreadConfined => "thread_local! {\n    static PLUGIN: ::std::cell::OnceCell<"@
            + ty + "> = const { ::std::cell::OnceCell::new() };\n}\n"@,
    }
}

/// What a trampoline writes before the method name: the lookup of the plugin.
pub open spec fn lookup_text(policy: StoragePolicy) -> Seq<char> {
    match policy {
        StoragePolicy::CrossThread => "    if let Some(plugin) = PLUGIN.get() {\n        plugin."@,
        StoragePolicy::ThreadConfined => "    PLUGIN.with(|cell| if let Some(plugin) = cell.get() {\n        plugin."@,
    }
}

/// What a trampoline writes after the call's arguments: the conversion of the result, and
/// `E_FAIL` when there is no plugin.
pub open spec fn lookup_end_text(policy: StoragePolicy) -> Seq<char> {
    match policy {
        StoragePolicy::CrossThread => "        ).into()\n    } else {\n        ::windows::Win32::Foundation::E_FAIL\n    }\n}\n"@,
        StoragePolicy::ThreadConfined => "        ).into()\n    } else {\n        ::windows::Win32::Foundation::E_FAIL\n    })\n}\n"@,
    }
}

/// The end of the constructor: the plugin is stored, failing with `E_ABORT` if one is
/// stored already.
pub open spec fn store_text(policy: StoragePolicy) -> Seq<char> {
    match policy {
        StoragePolicy::CrossThread => "    PLUGIN.set(plugin).map_err(|_| ::windows::core::Error::from(::windows::Win32::Foundation::E_ABORT))\n}\n"@,
        StoragePolicy::ThreadConfined => "    PLUGIN.with(|cell| cell.set(plugin)).map_err(|_| ::windows::core::Error::from(::windows::Win32::Foundation::E_ABORT))\n}\n"@,
    }
}

impl StoragePolicy {
    fn write_storage(&self, ty: &str, out: &mut String)
        ensures
            final(out)@ == old(out)@ + storage_text(*self, ty@),
    {
        let ghost start = out@;
        match self {
            StoragePolicy::CrossThread => {
                out.append("static PLUGIN: ::std::sync::OnceLock<");
                out.append(ty);
                out.append("> = ::std::sync::OnceLock::new();\n");
            },
            StoragePolicy::ThreadConfined => {
                out.append("thread_local! {\n    static PLUGIN: ::std::cell::OnceCell<");
                out.append(ty);
                out.append("> = const { ::std::cell::OnceCell::new() };\n}\n");
            },
        }
        assert(out@ =~= start + storage_text(*self, ty@));
    }

    fn lookup(&self) -> (r: &'static str)
        ensures
            r@ == lookup_text(*self),
    {
        match self {
            StoragePolicy::CrossThread => "    if let Some(plugin) = PLUGIN.get() {\n        plugin.",
            StoragePolicy::ThreadConfined => "    PLUGIN.with(|cell| if let Some(plugin) = cell.get() {\n        plugin.",
        }
    }

    fn lookup_end(&self) -> (r: &'static str)
        ensures
            r@ == lookup_end_text(*self),
    {
        match self {
            StoragePolicy::CrossThread => "        ).into()\n    } else {\n        ::windows::Win32::Foundation::E_FAIL\n    }\n}\n",
            StoragePolicy::ThreadConfined => "        ).into()\n    } else {\n        ::windows::Win32::Foundation::E_FAIL\n    })\n}\n",
        }
    }

    fn store(&self) -> (r: &'static str)
        ensures
            r@ == store_text(*self),
    {
        match self {
            StoragePolicy::CrossThread => "    PLUGIN.set(plugin).map_err(|_| ::windows::core::Error::from(::windows::Win32::Foundation::E_ABORT))\n}\n",
            StoragePolicy::ThreadConfined => "    PLUGIN.with(|cell| cell.set(plugin)).map_err(|_| ::windows::core::Error::from(::windows::Win32::Foundation::E_ABORT))\n}\n",
        }
    }
}

/// The C trampoline of hook `h`: it reads its pointer arguments, and calls the plugin's
/// method when the plugin instance exists, converting the method's result into the status
/// returned to the host; otherwise it returns `E_FAIL` without calling anything.
pub open spec fn trampoline_text(h: Hooks, policy: StoragePolicy) -> Seq<char> {
    let ps = hook_parameters(h);
    "extern \"C\" fn "@ + c_method_name(h) + "(\n"@ + parts_text(ParameterPart::Declaration, ps)
        + ") -> ::windows::core::HRESULT {\n"@ + parts_text(ParameterPart::Dereference, ps)
        + lookup_text(policy) + trait_method_name(h) + "(\n"@ + parts_text(
        ParameterPart::Argument,
        ps,
    ) + lookup_end_text(policy)
}

impl HookParameter {
    fn write_part(&self, part: ParameterPart, out: &mut String)
        ensures
            final(out)@ == old(out)@ + part_text(part, *self),
    {
        let ghost start = out@;
        let name = match self {
            HookParameter::Session => "session",
            HookParameter::VmSettings => "settings",
            HookParameter::Distribution => "distribution",
            HookParameter::OfflineDistribution => "distribution",
        };
        match part {
            ParameterPart::Declaration => {
                let record = match self {
                    HookParameter::Session => "WSLSessionInformation",
                    HookParameter::VmSettings => "WSLVmCreationSettings",
                    HookParameter::Distribution => "WSLDistributionInformation",
                    HookParameter::OfflineDistribution => "WSLOfflineDistributionInformation",
                };
                out.append("    ");
                out.append(name);
                out.append(": *const ::wslplugins_rs::sys::");
                out.append(record);
                out.append(",\n");
            },
            ParameterPart::Dereference => {
                out.append("    let ");
                out.append(name);
                out.append("_ptr = unsafe { &*");
                out.append(name);
                out.append(" };\n");
            },
            ParameterPart::Argument => {
                let wrapper = match self {
                    HookParameter::Session => "WSLSessionInformation",
                    HookParameter::VmSettings => "WSLVmCreationSettings",
                    HookParameter::Distribution => "DistributionInformation",
                    HookParameter::OfflineDistribution => "OfflineDistributionInformation",
                };
                out.append("            &::wslplugins_rs::");
                out.append(wrapper);
                out.append("::from(");
                out.append(name);
                out.append("_ptr),\n");
            },
        }
        assert(out@ =~= start + part_text(part, *self));
    }
}

fn write_parts(part: ParameterPart, ps: &Vec<HookParameter>, out: &mut String)
    ensures
        final(out)@ == old(out)@ + parts_text(part, ps@),
{
    let ghost start = out@;
    let mut i: usize = 0;
    while i < ps.len()
        invariant
            i <= ps.len(),
            out@ == start + parts_text(part, ps@.take(i as int)),
        decreases ps.len() - i,
    {
        ps[i].write_part(part, out);
        proof {
            assert(ps@.take(i + 1).drop_last() =~= ps@.take(i as int));
            assert(out@ =~= start + parts_text(part, ps@.take(i + 1)));
        }
        i = i + 1;
    }
    assert(ps@.take(i as int) =~= ps@);
}

impl Hooks {
    /// The parameters of the hook's C signature, in order.
    pub fn parameters(&self) -> (r: Vec<HookParameter>)
        ensures
            r@ == hook_parameters(*self),
    {
        let r = match self {
            Hooks::OnVMStarted => vec![HookParameter::Session, HookParameter::VmSettings],
            Hooks::OnVMStopping => vec![HookParameter::Session],
            Hooks::OnDistributionStarted | Hooks::OnDistributionStopping => vec![
                HookParameter::Session,
                HookParameter::Distribution,
            ],
            Hooks::OnDistributionRegistered | Hooks::OnDistributionUnregistered => vec![
                HookParameter::Session,
                HookParameter::OfflineDistribution,
            ],
        };
        assert(r@ =~= hook_parameters(*self));
        r
    }
}

/// The source text of the C trampoline of `hook`.
pub fn trampoline_source(hook: Hooks, policy: StoragePolicy) -> (r: String)
    ensures
        r@ == trampoline_text(hook, policy),
{
    let ps = hook.parameters();
    let c_name = hook.get_c_method_name();
    let method = hook.get_trait_method_name();
    let mut out = String::new();
    out.append("extern \"C\" fn ");
    out.append(c_name.as_str());
    out.append("(\n");
    write_parts(ParameterPart::Declaration, &ps, &mut out);
    out.append(") -> ::windows::core::HRESULT {\n");
    write_parts(ParameterPart::Dereference, &ps, &mut out);
    out.append(policy.lookup());
    out.append(method.as_str());
    out.append("(\n");
    write_parts(ParameterPart::Argument, &ps, &mut out);
    out.append(policy.lookup_end());
    assert(out@ =~= trampoline_text(hook, policy));
    out
}

/// The type of the plugin's storage: the target type, with the first lifetime argument of
/// the trait path, if there is one, replaced by `'static` throughout.
pub open spec fn static_type(target: TypeModel, trait_path: PathModel) -> TypeModel {
    match path_lifetime(trait_path) {
        Some(l) => rewrite(target, l, "'static"@),
        None => target,
    }
}

/// The statement that stores the trampoline of `h` in the hook table `table`.
pub open spec fn mapping_text(table: Seq<char>, h: Hooks) -> Seq<char> {
    table + "."@ + hook_field_name(h) + " = Some("@ + c_method_name(h) + ");\n"@
}

pub open spec fn mappings_text(table: Seq<char>, hooks: Seq<Hooks>) -> Seq<char>
    decreases hooks.len(),
{
    if hooks.len() == 0 {
        Seq::empty()
    } else {
        mappings_text(table, hooks.drop_last()) + mapping_text(table, hooks.last())
    }
}

pub open spec fn trampolines_text(hooks: Seq<Hooks>, policy: StoragePolicy) -> Seq<char>
    decreases hooks.len(),
{
    if hooks.len() == 0 {
        Seq::empty()
    } else {
        trampolines_text(hooks.drop_last(), policy) + trampoline_text(hooks.last(), policy)
    }
}

/// The storage of the plugin instance, typed `ty`; the entry point that the host calls; and
/// the constructor, which checks the host's version against `v`, builds the plugin, stores
/// the trampoline of each of `hooks` in the host's table, and stores the plugin, failing with
/// `E_ABORT` if one is stored already.
pub open spec fn entry_point_text(
    ty: Seq<char>,
    v: RequiredVersion,
    hooks: Seq<Hooks>,
    policy: StoragePolicy,
) -> Seq<char> {
    storage_text(policy, ty) + "#[no_mangle]\npub extern \"C\" fn WSLPluginAPIV1_EntryPoint(\n    api: *const ::wslplugins_rs::sys::WSLPluginAPIV1,\n    hooks: *mut ::wslplugins_rs::sys::WSLPluginHooksV1,\n) -> ::windows::core::HRESULT {\n    unsafe {\n        let api_ref: &'static ::wslplugins_rs::sys::WSLPluginAPIV1 = &*api;\n        let hooks_ref: &mut ::wslplugins_rs::sys::WSLPluginHooksV1 = &mut *hooks;\n        create_plugin(api_ref, hooks_ref).into()\n    }\n}\n"@
        + "fn create_plugin(\n    api: &'static ::wslplugins_rs::sys::WSLPluginAPIV1,\n    hooks_ref: &mut ::wslplugins_rs::sys::WSLPluginHooksV1,\n) -> ::windows::core::Result<()> {\n    let plugin: "@
        + ty + " = create_plugin_with_required_version(api, "@ + decimal_text(v.major as nat)
        + "u32, "@ + decimal_text(v.minor as nat) + "u32, "@ + decimal_text(v.revision as nat)
        + "u32)?;\n"@ + mappings_text("    hooks_ref"@, hooks) + store_text(policy)
}

/// All the glue for the implementation of `target` of `trait_path` handling `hooks`,
/// requiring host version `v`, with the plugin stored as `policy` says.
pub open spec fn generated_text(
    target: TypeModel,
    trait_path: PathModel,
    hooks: Seq<Hooks>,
    v: RequiredVersion,
    policy: StoragePolicy,
) -> Seq<char> {
    entry_point_text(type_text(static_type(target, trait_path)), v, hooks, policy)
        + trampolines_text(hooks, policy)
}

/// The type of the plugin's storage (see [`static_type`]).
pub fn create_static_type(imp: &ParsedImpl) -> (r: TypeExpr)
    ensures
        r@ == static_type(imp.target_type@, imp.trait_@),
{
    match get_path_lifetime(&imp.trait_) {
        Some(l) => imp.target_type.with_lifetime_replaced(l.as_str(), "'static"),
        None => imp.target_type.duplicate(),
    }
}

/// The statement `table.Field = Some(trampoline);` for `hook`.
pub fn hook_field_mapping(hooks_struct_name: &str, hook: Hooks) -> (r: String)
    ensures
        r@ == mapping_text(hooks_struct_name@, hook),
{
    let field = hook.get_hook_field_name();
    let func = hook.get_c_method_name();
    let mut out = String::from_str(hooks_struct_name);
    out.append(".");
    out.append(field.as_str());
    out.append(" = Some(");
    out.append(func.as_str());
    out.append(");\n");
    assert(out@ =~= mapping_text(hooks_struct_name@, hook));
    out
}

/// One assignment statement per hook, in order.
pub fn prepare_hooks(hooks_struct_name: &str, hooks: &[Hooks]) -> (r: Vec<String>)
    ensures
        r@.len() == hooks@.len(),
        forall|i: int| 0 <= i < hooks@.len() ==> #[trigger] r@[i]@ == mapping_text(hooks_struct_name@, hooks@[i]),
{
    let mut out: Vec<String> = Vec::new();
    let mut i: usize = 0;
    while i < hooks.len()
        invariant
            i <= hooks.len(),
            out@.len() == i,
            forall|j: int| 0 <= j < i ==> #[trigger] out@[j]@ == mapping_text(hooks_struct_name@, hooks@[j]),
        decreases hooks.len() - i,
    {
        out.push(hook_field_mapping(hooks_struct_name, hooks[i]));
        i = i + 1;
    }
    out
}

/// The trampoline source of each hook, in order.
pub fn generate_hook_fns(hooks: &[Hooks], policy: StoragePolicy) -> (r: Vec<String>)
    ensures
        r@.len() == hooks@.len(),
        forall|i: int| 0 <= i < hooks@.len() ==> #[trigger] r@[i]@ == trampoline_text(hooks@[i], policy),
{
    let mut out: Vec<String> = Vec::new();
    let mut i: usize = 0;
    while i < hooks.len()
        invariant
            i <= hooks.len(),
            out@.len() == i,
            forall|j: int| 0 <= j < i ==> #[trigger] out@[j]@ == trampoline_text(hooks@[j], policy),
        decreases hooks.len() - i,
    {
        out.push(trampoline_source(hooks[i], policy));
        i = i + 1;
    }
    out
}

fn write_mappings(table: &str, hooks: &[Hooks], out: &mut String)
    ensures
        final(out)@ == old(out)@ + mappings_text(table@, hooks@),
{
    let ghost start = out@;
    let mut i: usize = 0;
    while i < hooks.len()
        invariant
            i <= hooks.len(),
            out@ == start + mappings_text(table@, hooks@.take(i as int)),
        decreases hooks.len() - i,
    {
        let m = hook_field_mapping(table, hooks[i]);
        out.append(m.as_str());
        proof {
            assert(hooks@.take(i + 1).drop_last() =~= hooks@.take(i as int));
            assert(out@ =~= start + mappings_text(table@, hooks@.take(i + 1)));
        }
        i = i + 1;
    }
    assert(hooks@.take(i as int) =~= hooks@);
}

fn write_trampolines(hooks: &[Hooks], policy: StoragePolicy, out: &mut String)
    ensures
        final(out)@ == old(out)@ + trampolines_text(hooks@, policy),
{
    let ghost start = out@;
    let mut i: usize = 0;
    while i < hooks.len()
        invariant
            i <= hooks.len(),
            out@ == start + trampolines_text(hooks@.take(i as int), policy),
        decreases hooks.len() - i,
    {
        let t = trampoline_source(hooks[i], policy);
        out.append(t.as_str());
        proof {
            assert(hooks@.take(i + 1).drop_last() =~= hooks@.take(i as int));
            assert(out@ =~= start + trampolines_text(hooks@.take(i + 1), policy));
        }
        i = i + 1;
    }
    assert(hooks@.take(i as int) =~= hooks@);
}

/// The storage, entry point and constructor for `imp`, requiring host version `version`
/// (see [`entry_point_text`]).
pub fn generate_entry_point(imp: &ParsedImpl, version: &RequiredVersion, policy: StoragePolicy) -> (r: String)
    ensures
        r@ == entry_point_text(
            type_text(static_type(imp.target_type@, imp.trait_@)),
            *version,
            imp.hooks@,
            policy,
        ),
{
    let static_plugin_type = create_static_type(imp);
    let ty = static_plugin_type.to_source();
    let major = decimal_string(version.major);
    let minor = decimal_string(version.minor);
    let revision = decimal_string(version.revision);
    let mut out = String::new();
    policy.write_storage(ty.as_str(), &mut out);
    out.append("#[no_mangle]\npub extern \"C\" fn WSLPluginAPIV1_EntryPoint(\n    api: *const ::wslplugins_rs::sys::WSLPluginAPIV1,\n    hooks: *mut ::wslplugins_rs::sys::WSLPluginHooksV1,\n) -> ::windows::core::HRESULT {\n    unsafe {\n        let api_ref: &'static ::wslplugins_rs::sys::WSLPluginAPIV1 = &*api;\n        let hooks_ref: &mut ::wslplugins_rs::sys::WSLPluginHooksV1 = &mut *hooks;\n        create_plugin(api_ref, hooks_ref).into()\n    }\n}\n");
    out.append("fn create_plugin(\n    api: &'static ::wslplugins_rs::sys::WSLPluginAPIV1,\n    hooks_ref: &mut ::wslplugins_rs::sys::WSLPluginHooksV1,\n) -> ::windows::core::Result<()> {\n    let plugin: ");
    out.append(ty.as_str());
    out.append(" = create_plugin_with_required_version(api, ");
    out.append(major.as_str());
    out.append("u32, ");
    out.append(minor.as_str());
    out.append("u32, ");
    out.append(revision.as_str());
    out.append("u32)?;\n");
    write_mappings("    hooks_ref", imp.hooks.as_slice(), &mut out);
    out.append(policy.store());
    assert(out@ =~= entry_point_text(
        type_text(static_type(imp.target_type@, imp.trait_@)),
        *version,
        imp.hooks@,
        policy,
    ));
    out
}

/// All the glue for `imp` requiring host version `version`: the storage, entry point and
/// constructor, then one trampoline per hook of `imp`, in the order of its methods.
pub fn generate(imp: &ParsedImpl, version: &RequiredVersion, policy: StoragePolicy) -> (r: String)
    ensures
        r@ == generated_text(imp.target_type@, imp.trait_@, imp.hooks@, *version, policy),
{
    let mut out = generate_entry_point(imp, version, policy);
    write_trampolines(imp.hooks.as_slice(), policy, &mut out);
    out
}

} // verus!
