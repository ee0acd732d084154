//! Controller-neutral host-realization and provider contracts.
//!
//! Controllers prepare realization data; providers validate and consume it.
//! Nothing here knows about controller families, profiles or kernel I/O.

use vstd::prelude::*;

use crate::text::{decimal, push_decimal, push_signed_decimal, signed_decimal};

verus! {

/// Stable identifier supplied by a compiled controller package.
#[derive(Debug, Clone, Copy, PartialEq, Eq, Hash)]
pub struct ControllerId(&'static str);

impl ControllerId {
    /// The identifier's text.
    pub closed spec fn text(self) -> Seq<char> {
        self.0@
    }

    pub fn new(value: &'static str) -> (id: Self)
        ensures
            id.text() == value@,
    {
        ControllerId(value)
    }

    pub fn as_str(self) -> (text: &'static str)
        ensures
            text@ == self.text(),
    {
        self.0
    }
}

/// Exact Linux provider target selected by an application.
#[derive(Debug, Clone, Copy, PartialEq, Eq, Hash, Structural)]
#[non_exhaustive]
pub enum RealizationTarget {
    Evdev,
    Hid,
    UsbTransportValidation,
}

impl RealizationTarget {
    pub open spec fn spec_label(self) -> Seq<char> {
        match self {
            RealizationTarget::Evdev => "linux uinput/evdev"@,
            RealizationTarget::Hid => "linux UHID"@,
            RealizationTarget::UsbTransportValidation => "linux USB gadget transport validation"@,
        }
    }

    /// Human-readable name of the target, as shown in error messages.
    pub fn label(self) -> (text: &'static str)
        ensures
            text@ == self.spec_label(),
    {
        match self {
            RealizationTarget::Evdev => "linux uinput/evdev",
            RealizationTarget::Hid => "linux UHID",
            RealizationTarget::UsbTransportValidation => "linux USB gadget transport validation",
        }
    }
}

/// Linux target available to ordinary library deployments.
#[derive(Debug, Clone, Copy, PartialEq, Eq, Hash, Structural)]
#[non_exhaustive]
pub enum DeploymentTarget {
    Evdev,
    Hid,
}

impl DeploymentTarget {
    pub open spec fn spec_realization_target(self) -> RealizationTarget {
        match self {
            DeploymentTarget::Evdev => RealizationTarget::Evdev,
            DeploymentTarget::Hid => RealizationTarget::Hid,
        }
    }

    pub fn realization_target(self) -> (target: RealizationTarget)
        ensures
            target == self.spec_realization_target(),
    {
        match self {
            DeploymentTarget::Evdev => RealizationTarget::Evdev,
            DeploymentTarget::Hid => RealizationTarget::Hid,
        }
    }
}

/// Linux target reserved for explicit hardware-validation sessions.
#[derive(Debug, Clone, Copy, PartialEq, Eq, Hash, Structural)]
#[non_exhaustive]
pub enum TransportValidationTarget {
    UsbGadget,
}

impl TransportValidationTarget {
    pub fn realization_target(self) -> (target: RealizationTarget)
        ensures
            target == RealizationTarget::UsbTransportValidation,
    {
        RealizationTarget::UsbTransportValidation
    }
}

/// The bit that stands for `target` in a [`RealizationTargetSet`].
pub open spec fn spec_target_bit(target: RealizationTarget) -> u8 {
    match target {
        RealizationTarget::Evdev => 1,
        RealizationTarget::Hid => 2,
        RealizationTarget::UsbTransportValidation => 4,
    }
}

fn target_bit(target: RealizationTarget) -> (bit: u8)
    ensures
        bit == spec_target_bit(target),
{
    match target {
        RealizationTarget::Evdev => 1,
        RealizationTarget::Hid => 2,
        RealizationTarget::UsbTransportValidation => 4,
    }
}

/// Allocation-free set of independent realization targets.
#[derive(Debug, Clone, Copy, Default, PartialEq, Eq, Hash, Structural)]
pub struct RealizationTargetSet(u8);

impl View for RealizationTargetSet {
    type V = Set<RealizationTarget>;

    closed spec fn view(&self) -> Set<RealizationTarget> {
        Set::new(|target: RealizationTarget| self.0 & spec_target_bit(target) != 0)
    }
}

proof fn lemma_bits_of_union(a: u8, b: u8, m: u8)
    ensures
        ((a | b) & m != 0) == ((a & m != 0) || (b & m != 0)),
{
    assert(((a | b) & m != 0) == ((a & m != 0) || (b & m != 0))) by (bit_vector);
}

proof fn lemma_single_bits(t: RealizationTarget, u: RealizationTarget)
    ensures
        (spec_target_bit(t) & spec_target_bit(u) != 0) == (t == u),
{
    assert(1u8 & 1u8 != 0 && 2u8 & 2u8 != 0 && 4u8 & 4u8 != 0) by (bit_vector);
    assert(1u8 & 2u8 == 0 && 1u8 & 4u8 == 0 && 2u8 & 4u8 == 0) by (bit_vector);
    assert(2u8 & 1u8 == 0 && 4u8 & 1u8 == 0 && 4u8 & 2u8 == 0) by (bit_vector);
}

impl RealizationTargetSet {
    /// Only the bits of the three targets are set.
    #[verifier::type_invariant]
    pub closed spec fn only_known_targets(self) -> bool {
        self.0 < 8
    }

    /// The set with no target.
    pub closed spec fn spec_empty() -> Self {
        RealizationTargetSet(0)
    }

    /// The targets of both sets.
    pub closed spec fn spec_union(self, other: Self) -> Self {
        RealizationTargetSet(self.0 | other.0)
    }

    pub fn empty() -> (set: Self)
        ensures
            set@ == Set::<RealizationTarget>::empty(),
            set == Self::spec_empty(),
    {
        let set = RealizationTargetSet(0);
        assert forall|t: RealizationTarget| !set@.contains(t) by {
            let m = spec_target_bit(t);
            assert(0u8 & m == 0) by (bit_vector);
        }
        assert(set@ =~= Set::<RealizationTarget>::empty());
        set
    }

    pub fn singleton(target: RealizationTarget) -> (set: Self)
        ensures
            set@ == Set::<RealizationTarget>::empty().insert(target),
    {
        let set = RealizationTargetSet(target_bit(target));
        assert forall|t: RealizationTarget| set@.contains(t) == (t == target) by {
            lemma_single_bits(target, t);
        }
        assert(set@ =~= Set::<RealizationTarget>::empty().insert(target));
        set
    }

    pub fn union(self, other: Self) -> (set: Self)
        ensures
            set@ == self@.union(other@),
            set == self.spec_union(other),
    {
        proof {
            use_type_invariant(self);
            use_type_invariant(other);
        }
        let a: u8 = self.0;
        let b: u8 = other.0;
        assert(a < 8 && b < 8 ==> a | b < 8) by (bit_vector);
        let set = RealizationTargetSet(self.0 | other.0);
        assert forall|t: RealizationTarget| set@.contains(t) == (self@.contains(t) || other@.contains(t)) by {
            lemma_bits_of_union(self.0, other.0, spec_target_bit(t));
        }
        assert(set@ =~= self@.union(other@));
        set
    }

    pub fn contains(self, target: RealizationTarget) -> (found: bool)
        ensures
            found == self@.contains(target),
    {
        self.0 & target_bit(target) != 0
    }

    pub fn is_empty(self) -> (empty: bool)
        ensures
            empty == (self@ == Set::<RealizationTarget>::empty()),
    {
        proof {
            use_type_invariant(self);
        }
        let bits: u8 = self.0;
        if bits != 0 {
            assert(bits < 8 && bits != 0 ==> (bits & 1 != 0 || bits & 2 != 0 || bits & 4 != 0))
                by (bit_vector);
            if bits & 1 != 0 {
                assert(self@.contains(RealizationTarget::Evdev));
            } else if bits & 2 != 0 {
                assert(self@.contains(RealizationTarget::Hid));
            } else {
                assert(self@.contains(RealizationTarget::UsbTransportValidation));
            }
        }
        if self.0 == 0 {
            assert forall|t: RealizationTarget| !self@.contains(t) by {
                let m = spec_target_bit(t);
                assert(0u8 & m == 0) by (bit_vector);
            }
            assert(self@ =~= Set::<RealizationTarget>::empty());
        }
        self.0 == 0
    }
}

/// Two target sets with the same targets are the same set.
pub proof fn lemma_targets_determine_set(a: RealizationTargetSet, b: RealizationTargetSet)
    requires
        a.only_known_targets(),
        b.only_known_targets(),
        a@ == b@,
    ensures
        a == b,
{
    assert(a@.contains(RealizationTarget::Evdev) == b@.contains(RealizationTarget::Evdev));
    assert(a@.contains(RealizationTarget::Hid) == b@.contains(RealizationTarget::Hid));
    assert(a@.contains(RealizationTarget::UsbTransportValidation) == b@.contains(
        RealizationTarget::UsbTransportValidation,
    ));
    let x: u8 = a.0;
    let y: u8 = b.0;
    assert(a@.contains(RealizationTarget::Evdev) == (x & 1 != 0));
    assert(b@.contains(RealizationTarget::Evdev) == (y & 1 != 0));
    assert(a@.contains(RealizationTarget::Hid) == (x & 2 != 0));
    assert(b@.contains(RealizationTarget::Hid) == (y & 2 != 0));
    assert(a@.contains(RealizationTarget::UsbTransportValidation) == (x & 4 != 0));
    assert(b@.contains(RealizationTarget::UsbTransportValidation) == (y & 4 != 0));
    assert(x < 8 && y < 8 && (x & 1 != 0) == (y & 1 != 0) && (x & 2 != 0) == (y & 2 != 0) && (x & 4
        != 0) == (y & 4 != 0) ==> x == y) by (bit_vector);
}

/// Union of target sets: a target is in the union exactly when it is in
/// either set, and union is commutative, associative and idempotent, with
/// the empty set as its identity.
pub proof fn lemma_union_laws(
    s: RealizationTargetSet,
    t: RealizationTargetSet,
    u: RealizationTargetSet,
    x: RealizationTarget,
)
    requires
        s.only_known_targets(),
        t.only_known_targets(),
        u.only_known_targets(),
    ensures
        s.spec_union(t)@.contains(x) == (s@.contains(x) || t@.contains(x)),
        s.spec_union(t) == t.spec_union(s),
        s.spec_union(t).spec_union(u) == s.spec_union(t.spec_union(u)),
        s.spec_union(s) == s,
        s.spec_union(RealizationTargetSet::spec_empty()) == s,
{
    let a: u8 = s.0;
    let b: u8 = t.0;
    let c: u8 = u.0;
    lemma_bits_of_union(a, b, spec_target_bit(x));
    assert(a | b == b | a) by (bit_vector);
    assert((a | b) | c == a | (b | c)) by (bit_vector);
    assert(a | a == a) by (bit_vector);
    assert(a | 0 == a) by (bit_vector);
}

/// Immutable capabilities promised by one provider target.
#[derive(Debug, Clone, Copy, PartialEq, Eq, Structural)]
pub struct ProviderCapabilities {
    pub target: RealizationTarget,
    pub provides_reverse_output: bool,
}

impl ProviderCapabilities {
    pub fn for_target(target: RealizationTarget, provides_reverse_output: bool) -> (capabilities:
        Self)
        ensures
            capabilities.target == target,
            capabilities.provides_reverse_output == provides_reverse_output,
    {
        ProviderCapabilities { target, provides_reverse_output }
    }
}

/// Controller-declared generic provider prerequisites.
#[derive(Debug, Clone, Copy, Default, PartialEq, Eq, Structural)]
pub struct ProviderRequirements {
    pub requires_reverse_output: bool,
}

/// Exact realization selection prepared at creation time.
#[derive(Debug, Clone, Copy, PartialEq, Eq)]
pub struct RealizationSelection {
    pub controller: ControllerId,
    pub target: RealizationTarget,
}

/// Error caused by incompatible target/provider realization.
#[derive(Debug, Clone, PartialEq, Eq, Structural)]
#[non_exhaustive]
pub enum RealizationError {
    TargetMismatch { requested_target: RealizationTarget, actual_target: RealizationTarget },
    MissingReverseOutput { target: RealizationTarget },
}

/// What [`validate_provider`] answers for a selection, a provider promise
/// and the controller's requirements.
pub open spec fn spec_validate_provider(
    selection: RealizationSelection,
    provider: ProviderCapabilities,
    requirements: ProviderRequirements,
) -> Result<(), RealizationError> {
    if selection.target != provider.target {
        Err(
            RealizationError::TargetMismatch {
                requested_target: selection.target,
                actual_target: provider.target,
            },
        )
    } else if requirements.requires_reverse_output && !provider.provides_reverse_output {
        Err(RealizationError::MissingReverseOutput { target: provider.target })
    } else {
        Ok(())
    }
}

/// Validate an exact prepared selection against a provider promise.
///
/// No fallback or alternate target selection is attempted here.
pub fn validate_provider(
    selection: RealizationSelection,
    provider: ProviderCapabilities,
    requirements: ProviderRequirements,
) -> (result: Result<(), RealizationError>)
    ensures
        result == spec_validate_provider(selection, provider, requirements),
{
    if selection.target != provider.target {
        return Err(
            RealizationError::TargetMismatch {
                requested_target: selection.target,
                actual_target: provider.target,
            },
        );
    }
    if requirements.requires_reverse_output && !provider.provides_reverse_output {
        return Err(RealizationError::MissingReverseOutput { target: provider.target });
    }
    Ok(())
}

/// Monotonic identifier for one provider session.
#[derive(Debug, Clone, Copy, PartialEq, Eq, Hash, Structural)]
pub struct RealizationSessionId(pub u64);

#[derive(Debug, Clone, PartialEq, Eq, Structural)]
pub struct NativeDeviceIdentity {
    pub vendor_id: u16,
    pub product_id: u16,
    pub version: u16,
}

#[derive(Debug, Clone, PartialEq, Eq, Structural)]
pub struct NativeAbsoluteAxis {
    pub code: u16,
    pub minimum: i32,
    pub maximum: i32,
    pub flat: i32,
}

#[derive(Debug, Clone, PartialEq, Eq)]
pub struct NativeEvdevRealization {
    pub device_name: String,
    pub identity: NativeDeviceIdentity,
    pub event_codes: Vec<u16>,
    pub key_codes: Vec<u16>,
    pub absolute_axes: Vec<NativeAbsoluteAxis>,
    /// Exact relative axes for an explicitly declared pointer companion.
    pub relative_axes: Vec<u16>,
    /// Exact LED capability codes for an explicitly declared companion.
    pub led_codes: Vec<u16>,
    /// Exact switch capability codes for an explicitly declared companion.
    pub switch_codes: Vec<u16>,
    pub force_feedback_codes: Vec<u16>,
}

/// Report identity of a HID feature report: its number and its UHID type.
#[derive(Debug, Clone, Copy, PartialEq, Eq, Hash, Structural)]
pub struct NativeHidReportKey {
    pub report_id: u8,
    pub report_type: u8,
}

/// A canned reply that the provider gives, without asking the
/// application, to a host request for the keyed feature report.
#[derive(Debug, Clone, PartialEq, Eq)]
pub struct NativeHidFeatureResponse {
    pub key: NativeHidReportKey,
    pub bytes: Vec<u8>,
}

#[derive(Debug, Clone, PartialEq, Eq)]
pub struct NativeHidRealization {
    pub bus_type: u16,
    pub device_name: String,
    pub physical_path: String,
    pub unique_id: String,
    pub identity: NativeDeviceIdentity,
    pub descriptor: Vec<u8>,
    pub numbered_input_reports: bool,
    pub numbered_output_reports: bool,
    pub numbered_feature_reports: bool,
    /// Canned feature replies; a key is answered by its first entry.
    pub feature_report_responses: Vec<NativeHidFeatureResponse>,
}

#[derive(Debug, Clone, PartialEq, Eq)]
pub struct NativeUsbTransportValidationRealization {
    /// Existing endpoint supplied by an operator-provisioned gadget facility.
    pub input_endpoint_path: String,
    /// Existing reverse endpoint, when the declared realization requires one.
    pub reverse_endpoint_path: Option<String>,
    pub device_name: String,
    pub maximum_input_packet_length: u16,
    pub maximum_reverse_packet_length: Option<u16>,
}

#[derive(Debug, Clone, PartialEq, Eq)]
pub enum NativeControllerRealization {
    Evdev(NativeEvdevRealization),
    Hid(NativeHidRealization),
    UsbTransportValidation(NativeUsbTransportValidationRealization),
}

/// Structural defect in prepared provider realization data.
#[derive(Debug, Clone, PartialEq, Eq, Structural)]
#[non_exhaustive]
pub enum NativeRealizationError {
    EmptyDeviceName { target: RealizationTarget },
    DuplicateEvdevEventCode,
    DuplicateEvdevKeyCode,
    DuplicateEvdevRelativeAxisCode,
    DuplicateEvdevLedCode,
    DuplicateEvdevSwitchCode,
    DuplicateEvdevAxisCode { code: u16 },
    InvalidEvdevAxisRange { code: u16, minimum: i32, maximum: i32 },
    EmptyHidDescriptor,
    EmptyUsbEndpointPath { reverse: bool },
    EmptyUsbPacketLength { reverse: bool },
}

/// Some value occurs twice in `values`.
pub open spec fn has_duplicate_spec(values: Seq<u16>) -> bool {
    exists|i: int, j: int| 0 <= j < i < values.len() && values[j] == values[i]
}

/// The defect of the axis at `i` given the axes declared before it, if any:
/// an inverted range is reported before a repeated code.
pub open spec fn axis_defect(axes: Seq<NativeAbsoluteAxis>, i: int) -> Option<
    NativeRealizationError,
> {
    let axis = axes[i];
    if axis.minimum > axis.maximum {
        Some(
            NativeRealizationError::InvalidEvdevAxisRange {
                code: axis.code,
                minimum: axis.minimum,
                maximum: axis.maximum,
            },
        )
    } else if exists|j: int| 0 <= j < i && axes[j].code == axis.code {
        Some(NativeRealizationError::DuplicateEvdevAxisCode { code: axis.code })
    } else {
        None
    }
}

/// The defect of the first defective axis, in declaration order.
pub open spec fn first_axis_defect(axes: Seq<NativeAbsoluteAxis>) -> Option<
    NativeRealizationError,
>
    decreases axes.len(),
{
    if axes.len() == 0 {
        None
    } else {
        match first_axis_defect(axes.drop_last()) {
            Some(error) => Some(error),
            None => axis_defect(axes, axes.len() - 1),
        }
    }
}

proof fn lemma_no_first_defect_means_no_defect(axes: Seq<NativeAbsoluteAxis>)
    ensures
        first_axis_defect(axes) is None ==> forall|i: int|
            0 <= i < axes.len() ==> (#[trigger] axes[i]).minimum <= axes[i].maximum && forall|j: int|
                0 <= j < i ==> axes[j].code != axes[i].code,
    decreases axes.len(),
{
    if axes.len() > 0 {
        let earlier = axes.drop_last();
        lemma_no_first_defect_means_no_defect(earlier);
        if first_axis_defect(axes) is None {
            assert forall|i: int| 0 <= i < axes.len() implies (#[trigger] axes[i]).minimum <= axes[i].maximum
                && forall|j: int| 0 <= j < i ==> axes[j].code != axes[i].code by {
                if i < axes.len() - 1 {
                    assert(earlier[i] == axes[i]);
                    assert forall|j: int| 0 <= j < i implies axes[j].code != axes[i].code by {
                        assert(earlier[j] == axes[j]);
                    }
                } else {
                    assert(axis_defect(axes, i) is None);
                }
            }
        }
    }
}

proof fn lemma_first_defect_is_some_defect(axes: Seq<NativeAbsoluteAxis>, i: int)
    requires
        0 <= i < axes.len(),
        axes[i].minimum > axes[i].maximum,
    ensures
        first_axis_defect(axes) is Some,
    decreases axes.len(),
{
    if i < axes.len() - 1 {
        assert(axes.drop_last()[i] == axes[i]);
        lemma_first_defect_is_some_defect(axes.drop_last(), i);
    }
}

/// An evdev realization that validates has a device name, no repeated
/// event, key, relative-axis, LED or switch code, and every absolute axis
/// has a range whose minimum does not exceed its maximum and a code of its
/// own. An axis with an inverted range makes validation fail, and when it
/// is the realization's first defect the error names that axis and its
/// range.
pub proof fn lemma_valid_evdev_realizations_are_well_formed(specification: NativeEvdevRealization)
    ensures
        spec_validate_evdev(specification) is Ok ==> {
            &&& specification.device_name@.len() > 0
            &&& !has_duplicate_spec(specification.event_codes@)
            &&& !has_duplicate_spec(specification.key_codes@)
            &&& !has_duplicate_spec(specification.relative_axes@)
            &&& !has_duplicate_spec(specification.led_codes@)
            &&& !has_duplicate_spec(specification.switch_codes@)
            &&& forall|i: int|
                0 <= i < specification.absolute_axes@.len() ==> (
                #[trigger] specification.absolute_axes@[i]).minimum
                    <= specification.absolute_axes@[i].maximum && forall|j: int|
                    0 <= j < i ==> specification.absolute_axes@[j].code
                        != specification.absolute_axes@[i].code
        },
        forall|i: int|
            0 <= i < specification.absolute_axes@.len() && (
            #[trigger] specification.absolute_axes@[i]).minimum
                > specification.absolute_axes@[i].maximum ==> spec_validate_evdev(specification) is Err,
        forall|i: int|
            0 <= i < specification.absolute_axes@.len() && (
            #[trigger] specification.absolute_axes@[i]).minimum
                > specification.absolute_axes@[i].maximum && specification.device_name@.len() > 0
                && !has_duplicate_spec(specification.event_codes@) && !has_duplicate_spec(
                specification.key_codes@,
            ) && !has_duplicate_spec(specification.relative_axes@) && !has_duplicate_spec(
                specification.led_codes@,
            ) && !has_duplicate_spec(specification.switch_codes@) && first_axis_defect(
                specification.absolute_axes@.subrange(0, i),
            ) is None ==> spec_validate_evdev(specification) == Err::<(), NativeRealizationError>(
                NativeRealizationError::InvalidEvdevAxisRange {
                    code: specification.absolute_axes@[i].code,
                    minimum: specification.absolute_axes@[i].minimum,
                    maximum: specification.absolute_axes@[i].maximum,
                },
            ),
{
    let axes = specification.absolute_axes@;
    lemma_no_first_defect_means_no_defect(axes);
    assert forall|i: int|
        0 <= i < axes.len() && (#[trigger] axes[i]).minimum > axes[i].maximum implies spec_validate_evdev(
        specification,
    ) is Err by {
        lemma_first_defect_is_some_defect(axes, i);
    }
    assert forall|i: int|
        0 <= i < axes.len() && (#[trigger] axes[i]).minimum > axes[i].maximum && specification.device_name@.len()
            > 0 && !has_duplicate_spec(specification.event_codes@) && !has_duplicate_spec(
            specification.key_codes@,
        ) && !has_duplicate_spec(specification.relative_axes@) && !has_duplicate_spec(
            specification.led_codes@,
        ) && !has_duplicate_spec(specification.switch_codes@) && first_axis_defect(axes.subrange(0, i))
            is None implies spec_validate_evdev(specification) == Err::<(), NativeRealizationError>(
        NativeRealizationError::InvalidEvdevAxisRange {
            code: axes[i].code,
            minimum: axes[i].minimum,
            maximum: axes[i].maximum,
        },
    ) by {
        let upto = axes.subrange(0, i + 1);
        assert(upto.drop_last() =~= axes.subrange(0, i));
        assert(upto[i] == axes[i]);
        assert(first_axis_defect(upto) == Some(
            NativeRealizationError::InvalidEvdevAxisRange {
                code: axes[i].code,
                minimum: axes[i].minimum,
                maximum: axes[i].maximum,
            },
        ));
        lemma_first_defect_extends(axes, i + 1, axes.len() as int);
        assert(axes.subrange(0, axes.len() as int) =~= axes);
    }
}

pub open spec fn spec_validate_evdev(specification: NativeEvdevRealization) -> Result<
    (),
    NativeRealizationError,
> {
    if specification.device_name@.len() == 0 {
        Err(NativeRealizationError::EmptyDeviceName { target: RealizationTarget::Evdev })
    } else if has_duplicate_spec(specification.event_codes@) {
        Err(NativeRealizationError::DuplicateEvdevEventCode)
    } else if has_duplicate_spec(specification.key_codes@) {
        Err(NativeRealizationError::DuplicateEvdevKeyCode)
    } else if has_duplicate_spec(specification.relative_axes@) {
        Err(NativeRealizationError::DuplicateEvdevRelativeAxisCode)
    } else if has_duplicate_spec(specification.led_codes@) {
        Err(NativeRealizationError::DuplicateEvdevLedCode)
    } else if has_duplicate_spec(specification.switch_codes@) {
        Err(NativeRealizationError::DuplicateEvdevSwitchCode)
    } else {
        match first_axis_defect(specification.absolute_axes@) {
            Some(error) => Err(error),
            None => Ok(()),
        }
    }
}

pub open spec fn spec_validate_hid(specification: NativeHidRealization) -> Result<
    (),
    NativeRealizationError,
> {
    if specification.device_name@.len() == 0 {
        Err(NativeRealizationError::EmptyDeviceName { target: RealizationTarget::Hid })
    } else if specification.descriptor@.len() == 0 {
        Err(NativeRealizationError::EmptyHidDescriptor)
    } else {
        Ok(())
    }
}

pub open spec fn spec_validate_usb(specification: NativeUsbTransportValidationRealization) -> Result<
    (),
    NativeRealizationError,
> {
    if specification.device_name@.len() == 0 {
        Err(
            NativeRealizationError::EmptyDeviceName {
                target: RealizationTarget::UsbTransportValidation,
            },
        )
    } else if specification.input_endpoint_path@.len() == 0 {
        Err(NativeRealizationError::EmptyUsbEndpointPath { reverse: false })
    } else if specification.maximum_input_packet_length == 0 {
        Err(NativeRealizationError::EmptyUsbPacketLength { reverse: false })
    } else if specification.reverse_endpoint_path matches Some(path) && path@.len() == 0 {
        Err(NativeRealizationError::EmptyUsbEndpointPath { reverse: true })
    } else if specification.maximum_reverse_packet_length == Some(0u16) {
        Err(NativeRealizationError::EmptyUsbPacketLength { reverse: true })
    } else {
        Ok(())
    }
}

impl NativeControllerRealization {
    pub open spec fn spec_target(&self) -> RealizationTarget {
        match self {
            NativeControllerRealization::Evdev(_) => RealizationTarget::Evdev,
            NativeControllerRealization::Hid(_) => RealizationTarget::Hid,
            NativeControllerRealization::UsbTransportValidation(
                _,
            ) => RealizationTarget::UsbTransportValidation,
        }
    }

    /// Provider-neutral structural validity; the first defect found, in
    /// the documented check order.
    pub open spec fn spec_validate(&self) -> Result<(), NativeRealizationError> {
        match self {
            NativeControllerRealization::Evdev(specification) => spec_validate_evdev(
                *specification,
            ),
            NativeControllerRealization::Hid(specification) => spec_validate_hid(*specification),
            NativeControllerRealization::UsbTransportValidation(
                specification,
            ) => spec_validate_usb(*specification),
        }
    }

    pub fn target(&self) -> (target: RealizationTarget)
        ensures
            target == self.spec_target(),
    {
        match self {
            NativeControllerRealization::Evdev(_) => RealizationTarget::Evdev,
            NativeControllerRealization::Hid(_) => RealizationTarget::Hid,
            NativeControllerRealization::UsbTransportValidation(
                _,
            ) => RealizationTarget::UsbTransportValidation,
        }
    }

    /// Validate the provider-neutral shape before any host I/O begins.
    ///
    /// This checks only transport-independent structure. Controller packages
    /// remain responsible for semantic report and descriptor correctness.
    pub fn validate(&self) -> (result: Result<(), NativeRealizationError>)
        ensures
            result == self.spec_validate(),
    {
        match self {
            NativeControllerRealization::Evdev(specification) => {
                if specification.device_name.as_str().is_empty() {
                    return Err(
                        NativeRealizationError::EmptyDeviceName { target: RealizationTarget::Evdev },
                    );
                }
                if has_duplicate(specification.event_codes.as_slice()) {
                    return Err(NativeRealizationError::DuplicateEvdevEventCode);
                }
                if has_duplicate(specification.key_codes.as_slice()) {
                    return Err(NativeRealizationError::DuplicateEvdevKeyCode);
                }
                if has_duplicate(specification.relative_axes.as_slice()) {
                    return Err(NativeRealizationError::DuplicateEvdevRelativeAxisCode);
                }
                if has_duplicate(specification.led_codes.as_slice()) {
                    return Err(NativeRealizationError::DuplicateEvdevLedCode);
                }
                if has_duplicate(specification.switch_codes.as_slice()) {
                    return Err(NativeRealizationError::DuplicateEvdevSwitchCode);
                }
                match check_axes(specification.absolute_axes.as_slice()) {
                    Some(error) => Err(error),
                    None => Ok(()),
                }
            },
            NativeControllerRealization::Hid(specification) => {
                if specification.device_name.as_str().is_empty() {
                    return Err(
                        NativeRealizationError::EmptyDeviceName { target: RealizationTarget::Hid },
                    );
                }
                if specification.descriptor.len() == 0 {
                    return Err(NativeRealizationError::EmptyHidDescriptor);
                }
                Ok(())
            },
            NativeControllerRealization::UsbTransportValidation(specification) => {
                if specification.device_name.as_str().is_empty() {
                    return Err(
                        NativeRealizationError::EmptyDeviceName {
                            target: RealizationTarget::UsbTransportValidation,
                        },
                    );
                }
                if specification.input_endpoint_path.as_str().is_empty() {
                    return Err(NativeRealizationError::EmptyUsbEndpointPath { reverse: false });
                }
                if specification.maximum_input_packet_length == 0 {
                    return Err(NativeRealizationError::EmptyUsbPacketLength { reverse: false });
                }
                match &specification.reverse_endpoint_path {
                    Some(path) => {
                        if path.as_str().is_empty() {
                            return Err(
                                NativeRealizationError::EmptyUsbEndpointPath { reverse: true },
                            );
                        }
                    },
                    None => {},
                }
                match specification.maximum_reverse_packet_length {
                    Some(length) => {
                        if length == 0 {
                            return Err(
                                NativeRealizationError::EmptyUsbPacketLength { reverse: true },
                            );
                        }
                    },
                    None => {},
                }
                Ok(())
            },
        }
    }
}

/// Whether some value occurs twice in `values`.
fn has_duplicate(values: &[u16]) -> (found: bool)
    ensures
        found == has_duplicate_spec(values@),
{
    let mut index: usize = 0;
    while index < values.len()
        invariant
            0 <= index <= values.len(),
            forall|i: int, j: int| 0 <= j < i < index ==> values@[j] != values@[i],
        decreases values.len() - index,
    {
        let mut previous: usize = 0;
        while previous < index
            invariant
                0 <= previous <= index < values.len(),
                forall|j: int| 0 <= j < previous ==> values@[j] != values@[index as int],
            decreases index - previous,
        {
            if values[previous] == values[index] {
                assert(values@[previous as int] == values@[index as int]);
                return true;
            }
            previous = previous + 1;
        }
        index = index + 1;
    }
    false
}

/// The defect of the first defective axis, in declaration order.
#[verifier::loop_isolation(false)]
fn check_axes(axes: &[NativeAbsoluteAxis]) -> (defect: Option<NativeRealizationError>)
    ensures
        defect == first_axis_defect(axes@),
{
    let mut index: usize = 0;
    while index < axes.len()
        invariant
            0 <= index <= axes.len(),
            first_axis_defect(axes@.subrange(0, index as int)) is None,
        decreases axes.len() - index,
    {
        let ghost prefix = axes@.subrange(0, index as int + 1);
        assert(prefix.drop_last() =~= axes@.subrange(0, index as int));
        let axis = &axes[index];
        if axis.minimum > axis.maximum {
            assert(first_axis_defect(prefix) == axis_defect(prefix, index as int));
            proof {
                lemma_first_defect_extends(axes@, index as int + 1, axes.len() as int);
                assert(axes@.subrange(0, axes.len() as int) =~= axes@);
            }
            return Some(
                NativeRealizationError::InvalidEvdevAxisRange {
                    code: axis.code,
                    minimum: axis.minimum,
                    maximum: axis.maximum,
                },
            );
        }
        let mut previous: usize = 0;
        while previous < index
            invariant
                0 <= previous <= index < axes.len(),
                forall|j: int| 0 <= j < previous ==> axes@[j].code != axes@[index as int].code,
            decreases index - previous,
        {
            if axes[previous].code == axes[index].code {
                assert(axes@[previous as int].code == axes@[index as int].code);
                assert(prefix[previous as int] == axes@[previous as int]);
                assert(first_axis_defect(prefix) == axis_defect(prefix, index as int));
                proof {
                lemma_first_defect_extends(axes@, index as int + 1, axes.len() as int);
                assert(axes@.subrange(0, axes.len() as int) =~= axes@);
            }
                return Some(NativeRealizationError::DuplicateEvdevAxisCode { code: axes[index].code });
            }
            previous = previous + 1;
        }
        assert forall|j: int| 0 <= j < index implies prefix[j].code != prefix[index as int].code by {
            assert(prefix[j] == axes@[j]);
        }
        assert(axis_defect(prefix, index as int) is None);
        index = index + 1;
    }
    assert(axes@.subrange(0, axes.len() as int) =~= axes@);
    None
}

/// Once a prefix of the axes has a defect, every longer prefix reports the
/// same first defect.
proof fn lemma_first_defect_extends(axes: Seq<NativeAbsoluteAxis>, n: int, m: int)
    requires
        0 < n <= m <= axes.len(),
        first_axis_defect(axes.subrange(0, n)) is Some,
    ensures
        first_axis_defect(axes.subrange(0, m)) == first_axis_defect(axes.subrange(0, n)),
    decreases m - n,
{
    if m > n {
        lemma_first_defect_extends(axes, n, m - 1);
        assert(axes.subrange(0, m).drop_last() =~= axes.subrange(0, m - 1));
    }
}


/// `"true"` or `"false"`.
pub open spec fn bool_text(value: bool) -> Seq<char> {
    if value {
        "true"@
    } else {
        "false"@
    }
}

fn push_bool(out: &mut String, value: bool)
    ensures
        final(out)@ == old(out)@ + bool_text(value),
{
    if value {
        out.append("true");
    } else {
        out.append("false");
    }
}

impl RealizationError {
    pub open spec fn spec_message(&self) -> Seq<char> {
        match self {
            RealizationError::TargetMismatch { requested_target, actual_target } => "provider realizes "@
                + actual_target.spec_label() + ", not requested "@ + requested_target.spec_label(),
            RealizationError::MissingReverseOutput { target } => target.spec_label()
                + " does not provide required reverse-output delivery"@,
        }
    }

    /// The error's human-readable message.
    pub fn message(&self) -> (text: String)
        ensures
            text@ == self.spec_message(),
    {
        match self {
            RealizationError::TargetMismatch { requested_target, actual_target } => {
                let mut text = String::from_str("provider realizes ");
                text.append(actual_target.label());
                text.append(", not requested ");
                text.append(requested_target.label());
                text
            },
            RealizationError::MissingReverseOutput { target } => {
                let mut text = String::from_str(target.label());
                text.append(" does not provide required reverse-output delivery");
                text
            },
        }
    }
}

impl NativeRealizationError {
    pub open spec fn spec_message(&self) -> Seq<char> {
        match self {
            NativeRealizationError::EmptyDeviceName { target } => target.spec_label()
                + " realization requires a non-empty device name"@,
            NativeRealizationError::DuplicateEvdevEventCode => "evdev event codes contain a duplicate"@,
            NativeRealizationError::DuplicateEvdevKeyCode => "evdev key codes contain a duplicate"@,
            NativeRealizationError::DuplicateEvdevRelativeAxisCode => "evdev relative axis codes contain a duplicate"@,
            NativeRealizationError::DuplicateEvdevLedCode => "evdev LED codes contain a duplicate"@,
            NativeRealizationError::DuplicateEvdevSwitchCode => "evdev switch codes contain a duplicate"@,
            NativeRealizationError::DuplicateEvdevAxisCode { code } => "evdev absolute axis "@
                + decimal(*code as nat) + " is declared more than once"@,
            NativeRealizationError::InvalidEvdevAxisRange { code, minimum, maximum } =>
                "evdev absolute axis "@ + decimal(*code as nat) + " has invalid range "@
                + signed_decimal(*minimum as int) + ".."@ + signed_decimal(*maximum as int),
            NativeRealizationError::EmptyHidDescriptor => "UHID realization requires a non-empty HID descriptor"@,
            NativeRealizationError::EmptyUsbEndpointPath { reverse } =>
                "USB transport validation endpoint path is empty (reverse="@ + bool_text(*reverse)
                + ")"@,
            NativeRealizationError::EmptyUsbPacketLength { reverse } =>
                "USB transport validation packet length is zero (reverse="@ + bool_text(*reverse)
                + ")"@,
        }
    }

    /// The error's human-readable message.
    pub fn message(&self) -> (text: String)
        ensures
            text@ == self.spec_message(),
    {
        match self {
            NativeRealizationError::EmptyDeviceName { target } => {
                let mut text = String::from_str(target.label());
                text.append(" realization requires a non-empty device name");
                text
            },
            NativeRealizationError::DuplicateEvdevEventCode => String::from_str(
                "evdev event codes contain a duplicate",
            ),
            NativeRealizationError::DuplicateEvdevKeyCode => String::from_str(
                "evdev key codes contain a duplicate",
            ),
            NativeRealizationError::DuplicateEvdevRelativeAxisCode => String::from_str(
                "evdev relative axis codes contain a duplicate",
            ),
            NativeRealizationError::DuplicateEvdevLedCode => String::from_str(
                "evdev LED codes contain a duplicate",
            ),
            NativeRealizationError::DuplicateEvdevSwitchCode => String::from_str(
                "evdev switch codes contain a duplicate",
            ),
            NativeRealizationError::DuplicateEvdevAxisCode { code } => {
                let mut text = String::from_str("evdev absolute axis ");
                push_decimal(&mut text, *code as u64);
                text.append(" is declared more than once");
                text
            },
            NativeRealizationError::InvalidEvdevAxisRange { code, minimum, maximum } => {
                let mut text = String::from_str("evdev absolute axis ");
                push_decimal(&mut text, *code as u64);
                text.append(" has invalid range ");
                push_signed_decimal(&mut text, *minimum as i64);
                text.append("..");
                push_signed_decimal(&mut text, *maximum as i64);
                text
            },
            NativeRealizationError::EmptyHidDescriptor => String::from_str(
                "UHID realization requires a non-empty HID descriptor",
            ),
            NativeRealizationError::EmptyUsbEndpointPath { reverse } => {
                let mut text = String::from_str(
                    "USB transport validation endpoint path is empty (reverse=",
                );
                push_bool(&mut text, *reverse);
                text.append(")");
                text
            },
            NativeRealizationError::EmptyUsbPacketLength { reverse } => {
                let mut text = String::from_str(
                    "USB transport validation packet length is zero (reverse=",
                );
                push_bool(&mut text, *reverse);
                text.append(")");
                text
            },
        }
    }
}

#[derive(Debug, Clone, PartialEq, Eq)]
pub enum ProviderFrame {
    Evdev(Vec<EvdevEvent>),
    HidInput { report_id: Option<u8>, bytes: Vec<u8> },
    HidFeature { report_id: u8, bytes: Vec<u8> },
    HidGetReportReply { request_id: u32, status: i16, bytes: Vec<u8> },
    HidSetReportReply { request_id: u32, status: i16 },
    ForceFeedbackUploadReply { request_id: u32, status: i32 },
    ForceFeedbackEraseReply { request_id: u32, status: i32 },
    Transport { endpoint: u8, bytes: Vec<u8> },
}

#[derive(Debug, Clone, Copy, PartialEq, Eq, Structural)]
pub struct EvdevEvent {
    pub event_type: u16,
    pub code: u16,
    pub value: i32,
}

#[derive(Debug, Clone, PartialEq, Eq)]
pub enum RawReverseEvent {
    Evdev(Vec<EvdevEvent>),
    HidOutput { report_id: Option<u8>, bytes: Vec<u8> },
    HidFeature { report_id: Option<u8>, bytes: Vec<u8> },
    HidGetReportRequest { request_id: u32, report_id: u8, report_type: u8 },
    HidSetReportRequest { request_id: u32, report_id: u8, report_type: u8, bytes: Vec<u8> },
    ForceFeedbackUpload { request_id: u32, effect: Vec<u8> },
    ForceFeedbackErase { request_id: u32, effect_id: u32 },
    Transport { endpoint: u8, bytes: Vec<u8> },
}

#[derive(Debug, Clone, PartialEq, Eq)]
pub struct ProviderReverseEvent {
    pub session: RealizationSessionId,
    pub sequence: u64,
    pub event: RawReverseEvent,
}

#[derive(Debug, Clone, Copy, PartialEq, Eq, Structural)]
pub enum ProviderState {
    NotOpen,
    Open,
    Closed,
    Failed,
}

#[derive(Debug, Clone, PartialEq, Eq)]
pub struct ProviderDiagnostics {
    pub state: ProviderState,
    pub frames_sent: u64,
    pub reverse_events_drained: u64,
    pub write_failures: u64,
    /// Informational lifecycle notifications observed after opening.
    ///
    /// They never alter the session's polling contract or close a controller.
    pub lifecycle_events: u64,
    pub last_error: Option<String>,
}

#[derive(Debug, Clone, Copy, PartialEq, Eq, Structural)]
pub enum EventReadiness {
    AlwaysPoll,
    NoReverseEvents,
}

#[derive(Debug, Clone, PartialEq, Eq)]
pub enum ProviderError {
    Preflight(ProviderPreflightError),
    Open { reason: String },
    Write { reason: String },
    Read { reason: String },
    Closed,
    Unsupported { reason: String },
    WouldBlock,
}

/// Host prerequisite failure discovered before a provider session opens.
#[derive(Debug, Clone, PartialEq, Eq)]
#[non_exhaustive]
pub enum ProviderPreflightError {
    UnsupportedPlatform { target: RealizationTarget },
    MissingDeviceNode { target: RealizationTarget, path: String },
    AccessDenied { target: RealizationTarget, path: String },
    MissingPreparedEndpoint { path: String },
    MissingUsbDeviceController,
    PreparedEndpointAccessDenied { path: String },
}

/// What opening a provider's device node found.
#[derive(Debug, Clone, Copy, PartialEq, Eq, Structural)]
pub enum DeviceNodeProbe {
    /// The node opened for reading and writing.
    Opened,
    /// No node exists at the path.
    Missing,
    /// The node exists but could not be opened.
    Refused,
}

/// The preflight answer for the device node at `path` of a `target`
/// provider: unavailable off Linux, otherwise what opening it found.
pub open spec fn spec_device_node_preflight(
    target: RealizationTarget,
    path: Seq<char>,
    linux: bool,
    probe: DeviceNodeProbe,
) -> Result<(), PreflightErrorView> {
    if !linux {
        Err(PreflightErrorView::UnsupportedPlatform { target })
    } else {
        match probe {
            DeviceNodeProbe::Opened => Ok(()),
            DeviceNodeProbe::Missing => Err(PreflightErrorView::MissingDeviceNode { target, path }),
            DeviceNodeProbe::Refused => Err(PreflightErrorView::AccessDenied { target, path }),
        }
    }
}

/// The preflight answer for the device node at `path` of a `target`
/// provider, given whether the host is Linux and what opening the node
/// found.
pub fn device_node_preflight(target: RealizationTarget, path: &str, linux: bool, probe: DeviceNodeProbe) -> (result:
    Result<(), ProviderPreflightError>)
    ensures
        match result {
            Ok(()) => Ok::<(), PreflightErrorView>(()),
            Err(error) => Err(error@),
        } == spec_device_node_preflight(target, path@, linux, probe),
{
    if !linux {
        return Err(ProviderPreflightError::UnsupportedPlatform { target });
    }
    match probe {
        DeviceNodeProbe::Opened => Ok(()),
        DeviceNodeProbe::Missing => Err(ProviderPreflightError::MissingDeviceNode { target, path: path.to_owned() }),
        DeviceNodeProbe::Refused => Err(ProviderPreflightError::AccessDenied { target, path: path.to_owned() }),
    }
}

impl ProviderPreflightError {
    pub open spec fn spec_message(&self) -> Seq<char> {
        self@.message()
    }

    /// The error's human-readable message.
    pub fn message(&self) -> (text: String)
        ensures
            text@ == self.spec_message(),
    {
        match self {
            ProviderPreflightError::UnsupportedPlatform { target } => {
                let mut text = String::from_str(target.label());
                text.append(" is unavailable on this platform");
                text
            },
            ProviderPreflightError::MissingDeviceNode { target, path } => {
                let mut text = String::from_str(target.label());
                text.append(" requires device node `");
                text.append(path.as_str());
                text.append("`");
                text
            },
            ProviderPreflightError::AccessDenied { target, path } => {
                let mut text = String::from_str(target.label());
                text.append(" cannot access device node `");
                text.append(path.as_str());
                text.append("`");
                text
            },
            ProviderPreflightError::MissingPreparedEndpoint { path } => {
                let mut text = String::from_str(
                    "USB transport validation requires prepared endpoint `",
                );
                text.append(path.as_str());
                text.append("`");
                text
            },
            ProviderPreflightError::MissingUsbDeviceController => String::from_str(
                "USB gadget validation requires a peripheral-capable USB Device Controller",
            ),
            ProviderPreflightError::PreparedEndpointAccessDenied { path } => {
                let mut text = String::from_str("USB transport validation endpoint `");
                text.append(path.as_str());
                text.append("` cannot be accessed");
                text
            },
        }
    }
}

impl ProviderError {
    pub open spec fn spec_message(&self) -> Seq<char> {
        self@.message()
    }

    /// The error's human-readable message.
    pub fn message(&self) -> (text: String)
        ensures
            text@ == self.spec_message(),
    {
        match self {
            ProviderError::Preflight(error) => error.message(),
            ProviderError::Open { reason } => {
                let mut text = String::from_str("provider open failed: ");
                text.append(reason.as_str());
                text
            },
            ProviderError::Write { reason } => {
                let mut text = String::from_str("provider write failed: ");
                text.append(reason.as_str());
                text
            },
            ProviderError::Read { reason } => {
                let mut text = String::from_str("provider read failed: ");
                text.append(reason.as_str());
                text
            },
            ProviderError::Closed => String::from_str("provider is closed"),
            ProviderError::Unsupported { reason } => {
                let mut text = String::from_str(
                    "provider does not support this realization or frame: ",
                );
                text.append(reason.as_str());
                text
            },
            ProviderError::WouldBlock => String::from_str("provider would block"),
        }
    }
}

#[derive(Debug, Clone, PartialEq, Eq)]
pub struct ProviderOpenRequest {
    pub session: RealizationSessionId,
    pub selection: RealizationSelection,
    /// Generic requirements declared by the selected realization manifest.
    pub requirements: ProviderRequirements,
    pub realization: NativeControllerRealization,
}

/// Error before a provider session opens.
#[derive(Debug, Clone, PartialEq, Eq, Structural)]
#[non_exhaustive]
pub enum ProviderOpenValidationError {
    Realization(RealizationError),
    Specification(NativeRealizationError),
}

impl ProviderOpenValidationError {
    pub open spec fn spec_message(&self) -> Seq<char> {
        match self {
            ProviderOpenValidationError::Realization(error) => error.spec_message(),
            ProviderOpenValidationError::Specification(error) => error.spec_message(),
        }
    }

    /// The error's human-readable message.
    pub fn message(&self) -> (text: String)
        ensures
            text@ == self.spec_message(),
    {
        match self {
            ProviderOpenValidationError::Realization(error) => error.message(),
            ProviderOpenValidationError::Specification(error) => error.message(),
        }
    }
}

impl ProviderOpenRequest {
    /// What [`ProviderOpenRequest::validate_against`] answers: the provider
    /// promise first, then the realization's structure, then the agreement
    /// of the selected target with the realization's own target.
    pub open spec fn spec_validate_against(&self, capabilities: ProviderCapabilities) -> Result<
        (),
        ProviderOpenValidationError,
    > {
        match spec_validate_provider(self.selection, capabilities, self.requirements) {
            Err(error) => Err(ProviderOpenValidationError::Realization(error)),
            Ok(()) => match self.realization.spec_validate() {
                Err(error) => Err(ProviderOpenValidationError::Specification(error)),
                Ok(()) => if self.selection.target != self.realization.spec_target() {
                    Err(
                        ProviderOpenValidationError::Realization(
                            RealizationError::TargetMismatch {
                                requested_target: self.selection.target,
                                actual_target: self.realization.spec_target(),
                            },
                        ),
                    )
                } else {
                    Ok(())
                },
            },
        }
    }

    /// Validate this request against the exact provider that will open it.
    pub fn validate_against(&self, capabilities: ProviderCapabilities) -> (result: Result<
        (),
        ProviderOpenValidationError,
    >)
        ensures
            result == self.spec_validate_against(capabilities),
    {
        match validate_provider(self.selection, capabilities, self.requirements) {
            Err(error) => {
                return Err(ProviderOpenValidationError::Realization(error));
            },
            Ok(()) => {},
        }
        match self.realization.validate() {
            Err(error) => {
                return Err(ProviderOpenValidationError::Specification(error));
            },
            Ok(()) => {},
        }
        let actual = self.realization.target();
        if self.selection.target != actual {
            return Err(
                ProviderOpenValidationError::Realization(
                    RealizationError::TargetMismatch {
                        requested_target: self.selection.target,
                        actual_target: actual,
                    },
                ),
            );
        }
        Ok(())
    }
}

/// A destination for reverse events drained from a provider session.
pub trait ProviderReverseEventSink {
    /// The events received so far, in order.
    spec fn received(&self) -> Seq<ProviderReverseEvent>;

    fn push(&mut self, event: ProviderReverseEvent)
        ensures
            final(self).received() == old(self).received().push(event),
    ;
}

impl ProviderReverseEventSink for Vec<ProviderReverseEvent> {
    open spec fn received(&self) -> Seq<ProviderReverseEvent> {
        self@
    }

    fn push(&mut self, event: ProviderReverseEvent) {
        Vec::push(self, event);
    }
}

/// An open provider session.
pub trait NativeProviderSession: Sized {
    /// Sending `frame` took the session from `before` to `after`, answering
    /// `result`.
    spec fn sent_frame(before: Self, after: Self, frame: ProviderFrame, result: Result<(), ProviderError>) -> bool;

    /// Draining took the session from `before` to `after`, handing out
    /// `handed` and answering `result`.
    spec fn drained(
        before: Self,
        after: Self,
        handed: Seq<ProviderReverseEventView>,
        result: Result<(), ProviderError>,
    ) -> bool;

    /// `diagnostics` are what the session reports.
    spec fn reports(&self, diagnostics: ProviderDiagnostics) -> bool;

    /// Closing took the session from `before` to `after`, answering
    /// `result`.
    spec fn closed_with(before: Self, after: Self, result: Result<(), ProviderError>) -> bool;

    fn send(&mut self, frame: ProviderFrame) -> (result: Result<(), ProviderError>)
        ensures
            Self::sent_frame(*old(self), *final(self), frame, result),
    ;

    fn drain_reverse_events<S: ProviderReverseEventSink>(&mut self, out: &mut S) -> (result: Result<
        (),
        ProviderError,
    >)
        ensures
            final(out).received().len() >= old(out).received().len(),
            final(out).received().subrange(0, old(out).received().len() as int)
                == old(out).received(),
            Self::drained(
                *old(self),
                *final(self),
                reverse_event_views(
                    final(out).received().subrange(
                        old(out).received().len() as int,
                        final(out).received().len() as int,
                    ),
                ),
                result,
            ),
    ;

    fn readiness(&self) -> EventReadiness;

    fn diagnostics(&self) -> (diagnostics: ProviderDiagnostics)
        ensures
            self.reports(diagnostics),
    ;

    fn close(&mut self) -> (result: Result<(), ProviderError>)
        ensures
            Self::closed_with(*old(self), *final(self), result),
    ;
}

/// A provider of one realization target, able to open sessions.
pub trait NativeProviderFactory {
    type Session: NativeProviderSession;

    fn capabilities(&self) -> ProviderCapabilities;

    /// Check host prerequisites for one complete prepared request.
    fn preflight(&self, request: &ProviderOpenRequest) -> Result<(), ProviderPreflightError>;

    fn open(&self, request: ProviderOpenRequest) -> Result<Self::Session, ProviderError>;
}


/// [`ProviderPreflightError`] with its text fields taken by their views.
pub ghost enum PreflightErrorView {
    UnsupportedPlatform { target: RealizationTarget },
    MissingDeviceNode { target: RealizationTarget, path: Seq<char> },
    AccessDenied { target: RealizationTarget, path: Seq<char> },
    MissingPreparedEndpoint { path: Seq<char> },
    MissingUsbDeviceController,
    PreparedEndpointAccessDenied { path: Seq<char> },
}

/// [`ProviderError`] with its text fields taken by their views.
pub ghost enum ProviderErrorView {
    Preflight(PreflightErrorView),
    Open { reason: Seq<char> },
    Write { reason: Seq<char> },
    Read { reason: Seq<char> },
    Closed,
    Unsupported { reason: Seq<char> },
    WouldBlock,
}

impl View for ProviderPreflightError {
    type V = PreflightErrorView;

    open spec fn view(&self) -> PreflightErrorView {
        match self {
            ProviderPreflightError::UnsupportedPlatform { target } =>
                PreflightErrorView::UnsupportedPlatform { target: *target },
            ProviderPreflightError::MissingDeviceNode { target, path } =>
                PreflightErrorView::MissingDeviceNode { target: *target, path: path@ },
            ProviderPreflightError::AccessDenied { target, path } =>
                PreflightErrorView::AccessDenied { target: *target, path: path@ },
            ProviderPreflightError::MissingPreparedEndpoint { path } =>
                PreflightErrorView::MissingPreparedEndpoint { path: path@ },
            ProviderPreflightError::MissingUsbDeviceController =>
                PreflightErrorView::MissingUsbDeviceController,
            ProviderPreflightError::PreparedEndpointAccessDenied { path } =>
                PreflightErrorView::PreparedEndpointAccessDenied { path: path@ },
        }
    }
}

impl View for ProviderError {
    type V = ProviderErrorView;

    open spec fn view(&self) -> ProviderErrorView {
        match self {
            ProviderError::Preflight(error) => ProviderErrorView::Preflight(error@),
            ProviderError::Open { reason } => ProviderErrorView::Open { reason: reason@ },
            ProviderError::Write { reason } => ProviderErrorView::Write { reason: reason@ },
            ProviderError::Read { reason } => ProviderErrorView::Read { reason: reason@ },
            ProviderError::Closed => ProviderErrorView::Closed,
            ProviderError::Unsupported { reason } => ProviderErrorView::Unsupported {
                reason: reason@,
            },
            ProviderError::WouldBlock => ProviderErrorView::WouldBlock,
        }
    }
}


/// [`RawReverseEvent`] with its byte and event lists taken by their views.
pub ghost enum RawReverseEventView {
    Evdev(Seq<EvdevEvent>),
    HidOutput { report_id: Option<u8>, bytes: Seq<u8> },
    HidFeature { report_id: Option<u8>, bytes: Seq<u8> },
    HidGetReportRequest { request_id: u32, report_id: u8, report_type: u8 },
    HidSetReportRequest { request_id: u32, report_id: u8, report_type: u8, bytes: Seq<u8> },
    ForceFeedbackUpload { request_id: u32, effect: Seq<u8> },
    ForceFeedbackErase { request_id: u32, effect_id: u32 },
    Transport { endpoint: u8, bytes: Seq<u8> },
}

impl View for RawReverseEvent {
    type V = RawReverseEventView;

    open spec fn view(&self) -> RawReverseEventView {
        match self {
            RawReverseEvent::Evdev(events) => RawReverseEventView::Evdev(events@),
            RawReverseEvent::HidOutput { report_id, bytes } => RawReverseEventView::HidOutput {
                report_id: *report_id,
                bytes: bytes@,
            },
            RawReverseEvent::HidFeature { report_id, bytes } => RawReverseEventView::HidFeature {
                report_id: *report_id,
                bytes: bytes@,
            },
            RawReverseEvent::HidGetReportRequest { request_id, report_id, report_type } =>
                RawReverseEventView::HidGetReportRequest {
                request_id: *request_id,
                report_id: *report_id,
                report_type: *report_type,
            },
            RawReverseEvent::HidSetReportRequest { request_id, report_id, report_type, bytes } =>
                RawReverseEventView::HidSetReportRequest {
                request_id: *request_id,
                report_id: *report_id,
                report_type: *report_type,
                bytes: bytes@,
            },
            RawReverseEvent::ForceFeedbackUpload { request_id, effect } =>
                RawReverseEventView::ForceFeedbackUpload { request_id: *request_id, effect: effect@ },
            RawReverseEvent::ForceFeedbackErase { request_id, effect_id } =>
                RawReverseEventView::ForceFeedbackErase {
                request_id: *request_id,
                effect_id: *effect_id,
            },
            RawReverseEvent::Transport { endpoint, bytes } => RawReverseEventView::Transport {
                endpoint: *endpoint,
                bytes: bytes@,
            },
        }
    }
}

/// [`ProviderReverseEvent`] with its event taken by its view.
pub ghost struct ProviderReverseEventView {
    pub session: RealizationSessionId,
    pub sequence: u64,
    pub event: RawReverseEventView,
}

impl View for ProviderReverseEvent {
    type V = ProviderReverseEventView;

    open spec fn view(&self) -> ProviderReverseEventView {
        ProviderReverseEventView { session: self.session, sequence: self.sequence, event: self.event@ }
    }
}

/// The views of a list of reverse events.
pub open spec fn reverse_event_views(events: Seq<ProviderReverseEvent>) -> Seq<
    ProviderReverseEventView,
> {
    events.map_values(|event: ProviderReverseEvent| event@)
}

/// A result without a value, taken by the view of its error.
pub open spec fn unit_result_view(result: Result<(), ProviderError>) -> Result<(), ProviderErrorView> {
    match result {
        Ok(()) => Ok(()),
        Err(error) => Err(error@),
    }
}

/// What admitting an open request gives: refused as unsupported with the
/// validation message when it does not validate against `capabilities`,
/// refused with the host preflight's error when that failed, admitted
/// otherwise.
pub open spec fn spec_admit_open(
    request: ProviderOpenRequest,
    capabilities: ProviderCapabilities,
    preflight: Result<(), ProviderPreflightError>,
) -> Result<(), ProviderErrorView> {
    match request.spec_validate_against(capabilities) {
        Err(error) => Err(ProviderErrorView::Unsupported { reason: error.spec_message() }),
        Ok(()) => match preflight {
            Err(error) => Err(ProviderErrorView::Preflight(error@)),
            Ok(()) => Ok(()),
        },
    }
}

/// An open outcome with the opened session left out.
pub open spec fn opened_view<T>(result: Result<T, ProviderError>) -> Result<(), ProviderErrorView> {
    match result {
        Ok(_) => Ok(()),
        Err(error) => Err(error@),
    }
}

/// What opening `request` with a provider of `capabilities` answers, given
/// what the host preflight and the device open answered: the validation
/// error, then the preflight error, then the open error, else success.
pub open spec fn spec_provider_open(
    request: ProviderOpenRequest,
    capabilities: ProviderCapabilities,
    preflight: Result<(), ProviderPreflightError>,
    opened: Result<(), ProviderErrorView>,
) -> Result<(), ProviderErrorView> {
    match spec_admit_open(request, capabilities, preflight) {
        Err(refused) => Err(refused),
        Ok(()) => opened,
    }
}

/// Admit an open request given what the host preflight answered: the
/// validation error first, then the preflight error, returned as
/// `Preflight` unchanged.
pub fn admit_open(
    capabilities: ProviderCapabilities,
    request: &ProviderOpenRequest,
    preflight: Result<(), ProviderPreflightError>,
) -> (admitted: Result<(), ProviderError>)
    ensures
        unit_result_view(admitted) == spec_admit_open(*request, capabilities, preflight),
        request.spec_validate_against(capabilities) is Ok ==> match preflight {
            Err(error) => admitted == Err::<(), ProviderError>(ProviderError::Preflight(error)),
            Ok(()) => admitted is Ok,
        },
{
    match request.validate_against(capabilities) {
        Err(error) => Err(ProviderError::Unsupported { reason: error.message() }),
        Ok(()) => match preflight {
            Err(error) => Err(ProviderError::Preflight(error)),
            Ok(()) => Ok(()),
        },
    }
}

/// `x + 1`, stopping at `u64::MAX`.
pub open spec fn bump(x: u64) -> u64 {
    if x < u64::MAX {
        (x + 1) as u64
    } else {
        x
    }
}

impl PreflightErrorView {
    /// The message of the error this is the view of.
    pub open spec fn message(self) -> Seq<char> {
        match self {
            PreflightErrorView::UnsupportedPlatform { target } => target.spec_label()
                + " is unavailable on this platform"@,
            PreflightErrorView::MissingDeviceNode { target, path } => target.spec_label()
                + " requires device node `"@ + path + "`"@,
            PreflightErrorView::AccessDenied { target, path } => target.spec_label()
                + " cannot access device node `"@ + path + "`"@,
            PreflightErrorView::MissingPreparedEndpoint { path } =>
                "USB transport validation requires prepared endpoint `"@ + path + "`"@,
            PreflightErrorView::MissingUsbDeviceController =>
                "USB gadget validation requires a peripheral-capable USB Device Controller"@,
            PreflightErrorView::PreparedEndpointAccessDenied { path } =>
                "USB transport validation endpoint `"@ + path + "` cannot be accessed"@,
        }
    }
}

impl ProviderErrorView {
    /// The message of the error this is the view of.
    pub open spec fn message(self) -> Seq<char> {
        match self {
            ProviderErrorView::Preflight(error) => error.message(),
            ProviderErrorView::Open { reason } => "provider open failed: "@ + reason,
            ProviderErrorView::Write { reason } => "provider write failed: "@ + reason,
            ProviderErrorView::Read { reason } => "provider read failed: "@ + reason,
            ProviderErrorView::Closed => "provider is closed"@,
            ProviderErrorView::Unsupported { reason } =>
                "provider does not support this realization or frame: "@ + reason,
            ProviderErrorView::WouldBlock => "provider would block"@,
        }
    }
}

} // verus!
