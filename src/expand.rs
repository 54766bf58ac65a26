//! One expansion of the plugin attribute: the single-use check, both parsers run together,
//! and the generated glue.
use crate::diagnostics::{accumulate3, failures_of, Anchor, CombinedDiagnostic};
use crate::generator::{generate, generated_text, StoragePolicy};
use crate::parsed_impl::{hooks_of, missing_trait_message, ImplBlock, ParsedImpl};
use crate::version::{parse_version, RequiredVersion, VersionToken};
use vstd::prelude::*;

verus! {

/// Whether the plugin attribute has been expanded already in this build unit.
#[derive(Debug)]
pub struct UseGuard {
    claimed: bool,
}

impl UseGuard {
    pub closed spec fn is_claimed(&self) -> bool {
        self.claimed
    }

    pub fn new() -> (r: UseGuard)
        ensures
            !r.is_claimed(),
    {
        UseGuard { claimed: false }
    }

    /// Marks the guard as claimed, and tells whether it was claimed before.
    pub fn claim(&mut self) -> (r: bool)
        ensures
            r == old(self).is_claimed(),
            final(self).is_claimed(),
    {
        let was = self.claimed;
        self.claimed = true;
        was
    }
}

pub open spec fn duplicate_use_message() -> Seq<char> {
    "This attribute can be used only one time per crate."@
}

/// The diagnostics of one expansion, in order: a second use of the attribute, a block that
/// names no trait, then every defect of the version literal.
pub open spec fn expansion_errors(already_used: bool, item: ImplBlock, tokens: Seq<VersionToken>) -> Seq<
    (Anchor, Seq<char>),
> {
    (if already_used {
        seq![(Anchor::Attribute, duplicate_use_message())]
    } else {
        Seq::empty()
    }) + (if item.trait_.is_none() {
        seq![(Anchor::ImplKeyword, missing_trait_message())]
    } else {
        Seq::empty()
    }) + match parse_version(tokens) {
        Ok(_) => Seq::empty(),
        Err(e) => e,
    }
}

/// Expands the plugin attribute with arguments `attr` on the block `item`: claims `guard`,
/// and returns the glue to emit after the block, or every diagnostic found. The plugin is
/// stored in a cell readable from any thread, which is sound whatever thread the host
/// calls from.
pub fn wsl_plugin_v1(guard: &mut UseGuard, attr: &[VersionToken], item: ImplBlock) -> (r: Result<
    String,
    CombinedDiagnostic,
>)
    ensures
        final(guard).is_claimed(),
        r is Ok <==> (!old(guard).is_claimed() && item.trait_.is_some() && parse_version(attr@) is Ok),
        r matches Ok(s) ==> s@ == generated_text(
            item.self_ty@,
            item.trait_->Some_0@,
            hooks_of(item.items@),
            parse_version(attr@)->Ok_0,
            StoragePolicy::CrossThread,
        ),
        r matches Err(e) ==> e@ == expansion_errors(old(guard).is_claimed(), item, attr@),
{
    let ghost item_model = item;
    let already_used_result = if guard.claim() {
        Err(CombinedDiagnostic::new(Anchor::Attribute, "This attribute can be used only one time per crate."))
    } else {
        Ok(())
    };
    let parsed_impl_result = ParsedImpl::parse(item);
    let required_version_result = RequiredVersion::parse(attr);
    proof {
        let a = failures_of(already_used_result);
        let b = failures_of(parsed_impl_result);
        assert(a == if old(guard).is_claimed() {
            seq![(Anchor::Attribute, duplicate_use_message())]
        } else {
            Seq::empty()
        });
        assert(b == if item_model.trait_.is_none() {
            seq![(Anchor::ImplKeyword, missing_trait_message())]
        } else {
            Seq::empty()
        });
    }
    match accumulate3(already_used_result, parsed_impl_result, required_version_result) {
        Ok((_, parsed_impl, required_version)) => Ok(generate(&parsed_impl, &required_version, StoragePolicy::CrossThread)),
        Err(e) => Err(e),
    }
}

} // verus!
