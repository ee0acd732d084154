//! Preparing the per-session translation context from a session plan:
//! the planned profile must be built in, its translators registered, and
//! its descriptor available at the planned fidelity tier.

use std::collections::BTreeMap;
use vstd::prelude::*;

use crate::builtin_profiles::builtin_matches;
use crate::profile_contract::ControllerProfile;
use crate::profiles::{builtin_profile_families, builtin_profile_ids, is_builtin_profile, registry, ProfileFamily};
use crate::reverse_translation::{
    reverse_required, reverse_translator_profile, spec_forward_registered, spec_reverse_required,
};
use crate::runtime_model::{
    DescriptorTemplateSummary, FidelityTier, PreparedTranslationContext, ProviderId, SessionPlan,
    TranslationConstants,
};
use crate::translators::{
    profile_family_name, spec_profile_family_name, TranslationError, TranslatorRegistry,
};

verus! {

/// The family of a built-in profile, by its ID.
pub open spec fn builtin_family_of(profile_id: Seq<char>) -> ProfileFamily {
    if profile_id == builtin_profile_ids()[0] {
        builtin_profile_families()[0]
    } else if profile_id == builtin_profile_ids()[1] {
        builtin_profile_families()[1]
    } else if profile_id == builtin_profile_ids()[2] {
        builtin_profile_families()[2]
    } else {
        builtin_profile_families()[3]
    }
}

/// The length of the descriptor a built-in profile presents at a tier, if
/// it presents one there: the generic gamepad only an empty one at
/// compatibility, the others theirs at every tier.
pub open spec fn builtin_descriptor_len(family: ProfileFamily, fidelity: FidelityTier) -> Option<nat> {
    match family {
        ProfileFamily::GenericGamepad => if fidelity == FidelityTier::Compatibility {
            Some(0)
        } else {
            None
        },
        ProfileFamily::Xbox360 => Some(188),
        ProfileFamily::DualSense => Some(273),
        ProfileFamily::SteamController => Some(93),
    }
}

/// The reason a plan for a profile that is not built in is refused with.
pub open spec fn unknown_profile_reason(profile_id: Seq<char>) -> Seq<char> {
    "unknown built-in profile `"@ + profile_id + "`"@
}

/// Whether a context can be prepared for `plan`: its profile is built in,
/// a forward translator is registered for its translator family and
/// level, a reverse one too where the profile needs one at the planned
/// tier, and the profile has a descriptor at that tier.
pub open spec fn context_prepares(plan: SessionPlan) -> bool {
    let id = plan.profile_id@;
    let family = builtin_family_of(id);
    let translator = plan.selected_translator_family;
    let fidelity = plan.requested_fidelity_tier;
    &&& is_builtin_profile(id)
    &&& spec_forward_registered(translator, plan.selected_level)
    &&& !(spec_reverse_required(family, fidelity) && reverse_translator_profile(translator) is None)
    &&& builtin_descriptor_len(family, fidelity) is Some
}

/// What preparing a context for `plan` gives, up to the parts copied from
/// the plan: `Ok` carries the descriptor summary and profile family name.
pub open spec fn context_outcome(plan: SessionPlan, result: Result<
    PreparedTranslationContext,
    TranslationError,
>) -> bool {
    let id = plan.profile_id@;
    let family = builtin_family_of(id);
    let translator = plan.selected_translator_family;
    let level = plan.selected_level;
    let fidelity = plan.requested_fidelity_tier;
    if !is_builtin_profile(id) {
        result matches Err(TranslationError::InvalidInput { reason }) && reason@
            == unknown_profile_reason(id)
    } else if !spec_forward_registered(translator, level) || (spec_reverse_required(
        family,
        fidelity,
    ) && reverse_translator_profile(translator) is None) {
        result == Err::<PreparedTranslationContext, TranslationError>(
            TranslationError::NoTranslatorRegistered { family: translator, level },
        )
    } else {
        match builtin_descriptor_len(family, fidelity) {
            None => result == Err::<PreparedTranslationContext, TranslationError>(
                TranslationError::DescriptorUnavailable,
            ),
            Some(len) => result matches Ok(context) && {
                &&& context.session_id == Some(plan.session_id)
                &&& context.profile_family matches Some(name) && name@ == spec_profile_family_name(
                    family,
                )
                &&& context.host_platform == Some(plan.target_host_platform)
                &&& context.backend_family == Some(plan.selected_backend_family)
                &&& context.provider_id matches Some(provider) && provider.0@
                    == plan.selected_provider_id.0@
                &&& context.level == Some(level)
                &&& context.session_options is Some
                &&& context.descriptor_template == Some(
                    DescriptorTemplateSummary {
                        fidelity: Some(fidelity),
                        descriptor_len: Some(len as usize),
                    },
                )
                &&& context.translation_constants.values@ == Map::<String, String>::empty()
            },
        }
    }
}

/// The first of a built-in profile's descriptor templates at `fidelity`,
/// summarised.
fn find_descriptor(profile: &ControllerProfile, fidelity: FidelityTier, family: Ghost<
    ProfileFamily,
>) -> (summary: Option<DescriptorTemplateSummary>)
    requires
        builtin_matches(*profile, family@),
    ensures
        match builtin_descriptor_len(family@, fidelity) {
            None => summary is None,
            Some(len) => summary == Some(
                DescriptorTemplateSummary { fidelity: Some(fidelity), descriptor_len: Some(len as usize) },
            ),
        },
{
    let templates = &profile.descriptor_templates;
    let mut index: usize = 0;
    while index < templates.len()
        invariant
            builtin_matches(*profile, family@),
            templates == &profile.descriptor_templates,
            index <= templates@.len(),
            forall|i: int| 0 <= i < index ==> (#[trigger] templates@[i]).fidelity != fidelity,
        decreases templates@.len() - index,
    {
        if templates[index].fidelity == fidelity {
            return Some(
                DescriptorTemplateSummary {
                    fidelity: Some(fidelity),
                    descriptor_len: Some(templates[index].descriptor.0.len()),
                },
            );
        }
        index = index + 1;
    }
    proof {
        if family@ != ProfileFamily::GenericGamepad {
            let position: int = match fidelity {
                FidelityTier::Compatibility => 0,
                FidelityTier::IdentityAware => 1,
                FidelityTier::HardwareFaithful => 2,
            };
            assert(templates@[position].fidelity == fidelity);
        }
    }
    None
}

/// Build the per-session translation context from a session plan.
pub fn prepared_translation_context(
    plan: &SessionPlan,
    translator_registry: &TranslatorRegistry,
) -> (result: Result<PreparedTranslationContext, TranslationError>)
    ensures
        context_outcome(*plan, result),
{
    let ghost id = plan.profile_id@;
    let profile = match registry().profile_by_str(plan.profile_id.as_str()) {
        Some(profile) => profile,
        None => {
            let mut reason = String::from_str("unknown built-in profile `");
            reason.append(plan.profile_id.as_str());
            reason.append("`");
            return Err(TranslationError::InvalidInput { reason });
        },
    };
    let ghost family = builtin_family_of(id);
    proof {
        assert(builtin_profile_ids()[0] == "generic-gamepad"@);
        let i: int = choose|i: int| 0 <= i < 4 && builtin_profile_ids()[i] == id;
        assert(builtin_matches(profile, builtin_profile_families()[i]));
        assert(builtin_profile_families()[i] == family);
    }
    let translator = plan.selected_translator_family;
    let level = plan.selected_level;
    if !translator_registry.forward_registered(translator, level) {
        return Err(TranslationError::NoTranslatorRegistered { family: translator, level });
    }
    if reverse_required(profile.profile_family, plan.requested_fidelity_tier)
        && !translator_registry.reverse_registered(translator) {
        return Err(TranslationError::NoTranslatorRegistered { family: translator, level });
    }
    let descriptor_template = match find_descriptor(
        &profile,
        plan.requested_fidelity_tier,
        Ghost(family),
    ) {
        Some(summary) => summary,
        None => return Err(TranslationError::DescriptorUnavailable),
    };
    let family_name = String::from_str(profile_family_name(profile.profile_family));
    Ok(
        PreparedTranslationContext {
            session_id: Some(plan.session_id),
            profile_family: Some(family_name),
            host_platform: Some(plan.target_host_platform),
            backend_family: Some(plan.selected_backend_family),
            provider_id: Some(ProviderId(plan.selected_provider_id.0.clone())),
            level: Some(level),
            session_options: Some(plan.session_options.clone()),
            descriptor_template: Some(descriptor_template),
            translation_constants: TranslationConstants { values: BTreeMap::new() },
        },
    )
}

} // verus!
