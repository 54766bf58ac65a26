//! The closed catalog of lifecycle hooks that a plugin may implement, with the names derived
//! from each hook: the field of the host's hook table, the C trampoline and the trait method.
use vstd::prelude::*;

verus! {

/// The result of heck's snake-case conversion of `s`.
pub uninterp spec fn snake_case_of(s: Seq<char>) -> Seq<char>;

/// Relies on heck's `ToSnakeCase::to_snake_case` for `str`, whose output depends on the
/// characters of its input alone.
#[verifier::external_body]
fn to_snake_case(s: &str) -> (r: String)
    ensures
        r@ == snake_case_of(s@),
{
    heck::ToSnakeCase::to_snake_case(s)
}

/// One lifecycle notification of the host's hook table, in the table's field order.
#[derive(Clone, Copy, Debug, PartialEq, Eq, Hash, Structural)]
pub enum Hooks {
    OnVMStarted,
    OnVMStopping,
    OnDistributionStarted,
    OnDistributionStopping,
    OnDistributionRegistered,
    OnDistributionUnregistered,
}

/// Every hook, in the declaration order of the host's hook table.
pub open spec fn catalog() -> Seq<Hooks> {
    seq![
        Hooks::OnVMStarted,
        Hooks::OnVMStopping,
        Hooks::OnDistributionStarted,
        Hooks::OnDistributionStopping,
        Hooks::OnDistributionRegistered,
        Hooks::OnDistributionUnregistered,
    ]
}

/// The field of the host's hook table that receives the hook's trampoline.
pub open spec fn hook_field_name(h: Hooks) -> Seq<char> {
    match h {
        Hooks::OnVMStarted => "OnVMStarted"@,
        Hooks::OnVMStopping => "OnVMStopping"@,
        Hooks::OnDistributionStarted => "OnDistributionStarted"@,
        Hooks::OnDistributionStopping => "OnDistributionStopping"@,
        Hooks::OnDistributionRegistered => "OnDistributionRegistered"@,
        Hooks::OnDistributionUnregistered => "OnDistributionUnregistered"@,
    }
}

/// The name of the generated C trampoline for the hook.
pub open spec fn c_method_name(h: Hooks) -> Seq<char> {
    snake_case_of(hook_field_name(h))
}

/// The name of the plugin trait's method that handles the hook.
pub open spec fn trait_method_name(h: Hooks) -> Seq<char> {
    snake_case_of(hook_field_name(h))
}

/// The first hook of `hooks` whose trait method is named `name`.
pub open spec fn first_with_method(hooks: Seq<Hooks>, name: Seq<char>) -> Option<Hooks>
    decreases hooks.len(),
{
    if hooks.len() == 0 {
        None
    } else if trait_method_name(hooks[0]) == name {
        Some(hooks[0])
    } else {
        first_with_method(hooks.skip(1), name)
    }
}

/// The hook of the catalog handled by the trait method `name`, if there is one.
pub open spec fn hook_for_method(name: Seq<char>) -> Option<Hooks> {
    first_with_method(catalog(), name)
}

/// A hook found for a method name is handled by a method of that name.
pub proof fn lemma_found_hook_has_the_name(hooks: Seq<Hooks>, name: Seq<char>)
    ensures
        first_with_method(hooks, name) matches Some(h) ==> trait_method_name(h) == name,
    decreases hooks.len(),
{
    if hooks.len() > 0 && trait_method_name(hooks[0]) != name {
        lemma_found_hook_has_the_name(hooks.skip(1), name);
    }
}

impl Hooks {
    /// Every hook, in the declaration order of the host's hook table.
    pub fn all() -> (r: Vec<Hooks>)
        ensures
            r@ == catalog(),
    {
        let r = vec![
            Hooks::OnVMStarted,
            Hooks::OnVMStopping,
            Hooks::OnDistributionStarted,
            Hooks::OnDistributionStopping,
            Hooks::OnDistributionRegistered,
            Hooks::OnDistributionUnregistered,
        ];
        assert(r@ =~= catalog());
        r
    }

    pub fn get_c_method_name(&self) -> (r: String)
        ensures
            r@ == c_method_name(*self),
    {
        let field = self.get_hook_field_name();
        to_snake_case(field.as_str())
    }

    pub fn get_hook_field_name(&self) -> (r: String)
        ensures
            r@ == hook_field_name(*self),
    {
        match self {
            Hooks::OnVMStarted => String::from_str("OnVMStarted"),
            Hooks::OnVMStopping => String::from_str("OnVMStopping"),
            Hooks::OnDistributionStarted => String::from_str("OnDistributionStarted"),
            Hooks::OnDistributionStopping => String::from_str("OnDistributionStopping"),
            Hooks::OnDistributionRegistered => String::from_str("OnDistributionRegistered"),
            Hooks::OnDistributionUnregistered => String::from_str("OnDistributionUnregistered"),
        }
    }

    pub fn get_trait_method_name(&self) -> (r: String)
        ensures
            r@ == trait_method_name(*self),
    {
        let field = self.get_hook_field_name();
        to_snake_case(field.as_str())
    }

    /// The hook whose trait method is named `trait_method_name`; `None` for any other method.
    pub fn from_trait_method_name(trait_method_name: &str) -> (r: Option<Hooks>)
        ensures
            r == hook_for_method(trait_method_name@),
    {
        let hooks = Hooks::all();
        let wanted = String::from_str(trait_method_name);
        let mut i: usize = 0;
        assert(hooks@.skip(0) =~= hooks@);
        while i < hooks.len()
            invariant
                hooks@ == catalog(),
                wanted@ == trait_method_name@,
                i <= hooks.len(),
                hook_for_method(trait_method_name@) == first_with_method(
                    hooks@.skip(i as int),
                    trait_method_name@,
                ),
            decreases hooks.len() - i,
        {
            let name = hooks[i].get_trait_method_name();
            proof {
                assert(hooks@.skip(i as int)[0] == hooks@[i as int]);
                assert(hooks@.skip(i as int).skip(1) =~= hooks@.skip(i + 1));
            }
            if name == wanted {
                return Some(hooks[i]);
            }
            i = i + 1;
        }
        None
    }
}

} // verus!
