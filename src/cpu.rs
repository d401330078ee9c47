//! CPU admission: only one manufacturer is supported at all, and
//! only one (family, model) pair gets SoC initialisation. Any other pair is
//! reported and the boot goes on.
use vstd::prelude::*;

verus! {

/// The raw identification fields of the feature leaf.
#[derive(Clone, Copy, Debug, PartialEq, Eq, Structural)]
pub struct CpuSignature {
    pub base_family: u8,
    pub extended_family: u8,
    pub base_model: u8,
    pub extended_model: u8,
}

impl CpuSignature {
    /// The field widths of the feature leaf: four bits each but the extended
    /// family, which has eight.
    pub open spec fn wf(self) -> bool {
        self.base_family < 16 && self.base_model < 16 && self.extended_model < 16
    }
}

/// Family and model as the manufacturer numbers them.
#[derive(Clone, Copy, Debug, PartialEq, Eq, Structural)]
pub struct CpuIdentity {
    pub family: u16,
    pub model: u8,
}

/// The family this firmware initialises.
pub const SUPPORTED_FAMILY: u16 = 0x17;

/// The model this firmware initialises.
pub const SUPPORTED_MODEL: u8 = 0x18;

/// The vendor string of the supported manufacturer, `AuthenticAMD`.
pub open spec fn supported_vendor() -> Seq<u8> {
    seq![65u8, 117, 116, 104, 101, 110, 116, 105, 99, 65, 77, 68]
}

/// Whether a vendor string was read and is the supported manufacturer's.
pub open spec fn vendor_admitted(vendor: Option<Vec<u8>>) -> bool {
    vendor matches Some(v) && v@ == supported_vendor()
}

/// The extended fields count only when the base family is 0xF.
pub open spec fn family_of(s: CpuSignature) -> u16 {
    if s.base_family == 0xf {
        (s.base_family + s.extended_family) as u16
    } else {
        s.base_family as u16
    }
}

/// The extended model is the high nibble when the base family is 0xF.
pub open spec fn model_of(s: CpuSignature) -> u8 {
    if s.base_family == 0xf {
        (s.extended_model * 16 + s.base_model) as u8
    } else {
        s.base_model
    }
}

/// The admission decision for a CPU.
#[derive(Clone, Copy, Debug, PartialEq, Eq, Structural)]
pub enum CpuVerdict {
    /// Another manufacturer: fatal, nothing else is read.
    WrongVendor,
    /// The supported pair: SoC initialisation follows.
    Supported(CpuIdentity),
    /// Reported and not fatal; the identity when the CPU gave one.
    Unsupported(Option<CpuIdentity>),
}

/// What admission read from the CPU and what it decided.
pub struct CpuReport {
    /// The vendor string, when the CPU reports one.
    pub vendor: Option<Vec<u8>>,
    /// The feature leaf, when it was queried at all; the inner `None` when the
    /// CPU does not offer it.
    pub features: Option<Option<CpuSignature>>,
    pub verdict: CpuVerdict,
}

/// The verdict `classify` gives for a feature leaf.
pub open spec fn classify_spec(features: Option<CpuSignature>) -> CpuVerdict {
    match features {
        Some(s) => {
            let id = CpuIdentity { family: family_of(s), model: model_of(s) };
            if id.family == SUPPORTED_FAMILY && id.model == SUPPORTED_MODEL {
                CpuVerdict::Supported(id)
            } else {
                CpuVerdict::Unsupported(Some(id))
            }
        },
        None => CpuVerdict::Unsupported(None),
    }
}

/// Past the vendor check nothing is fatal: the supported pair passes, and any
/// other pair, or a CPU without a feature leaf, is only reported.
pub proof fn lemma_model_check_not_fatal(features: Option<CpuSignature>)
    ensures
        !(classify_spec(features) is WrongVendor),
        classify_spec(features) is Supported <==> (features matches Some(s) && family_of(s)
            == SUPPORTED_FAMILY && model_of(s) == SUPPORTED_MODEL),
{
}

/// The family, by the manufacturer's rule.
pub fn amd_family_id(s: CpuSignature) -> (r: u16)
    requires
        s.wf(),
    ensures
        r == family_of(s),
{
    if s.base_family == 0xf {
        s.base_family as u16 + s.extended_family as u16
    } else {
        s.base_family as u16
    }
}

/// The model, by the manufacturer's rule.
pub fn amd_model_id(s: CpuSignature) -> (r: u8)
    requires
        s.wf(),
    ensures
        r == model_of(s),
{
    if s.base_family == 0xf {
        s.extended_model * 16 + s.base_model
    } else {
        s.base_model
    }
}

/// Whether a vendor string is the supported manufacturer's.
pub fn is_supported_vendor(v: &[u8]) -> (r: bool)
    ensures
        r == (v@ == supported_vendor()),
{
    let expected: [u8; 12] = [65, 117, 116, 104, 101, 110, 116, 105, 99, 65, 77, 68];
    assert(expected@ =~= supported_vendor());
    if v.len() != 12 {
        return false;
    }
    let mut i: usize = 0;
    while i < 12
        invariant
            v@.len() == 12,
            expected@ == supported_vendor(),
            i <= 12,
            forall|j: int| 0 <= j < i ==> v@[j] == supported_vendor()[j],
        decreases 12 - i,
    {
        if v[i] != expected[i] {
            return false;
        }
        i = i + 1;
    }
    assert(v@ =~= supported_vendor());
    true
}

/// The decision for a CPU of the supported manufacturer, from its feature
/// leaf: exactly the supported pair passes; any other pair, or no leaf at
/// all, is reported as unsupported.
pub fn classify(features: Option<CpuSignature>) -> (g: CpuVerdict)
    requires
        features matches Some(s) ==> s.wf(),
    ensures
        g == classify_spec(features),
{
    match features {
        Some(s) => {
            let id = CpuIdentity { family: amd_family_id(s), model: amd_model_id(s) };
            if id.family == SUPPORTED_FAMILY && id.model == SUPPORTED_MODEL {
                CpuVerdict::Supported(id)
            } else {
                CpuVerdict::Unsupported(Some(id))
            }
        },
        None => CpuVerdict::Unsupported(None),
    }
}

/// Relies on raw_cpuid's `CpuId::get_vendor_info` and `VendorInfo::as_str`:
/// the vendor string of the running CPU, when it reports one.
#[verifier::external_body]
fn query_vendor() -> (r: Option<Vec<u8>>)
{
    raw_cpuid::CpuId::new().get_vendor_info().map(|v| v.as_str().as_bytes().to_vec())
}

/// Relies on raw_cpuid's `CpuId::get_feature_info` and the `FeatureInfo`
/// field readers, which take four bits of the version word each (eight for
/// the extended family).
#[verifier::external_body]
fn query_features() -> (r: Option<CpuSignature>)
    ensures
        r matches Some(s) ==> s.wf(),
{
    raw_cpuid::CpuId::new().get_feature_info().map(
        |f|
            CpuSignature {
                base_family: f.base_family_id(),
                extended_family: f.extended_family_id(),
                base_model: f.base_model_id(),
                extended_model: f.extended_model_id(),
            },
    )
}

/// Decides admission of the running CPU. The vendor is read first; for any other
/// manufacturer the feature leaf is never queried and the verdict is fatal.
/// Otherwise the verdict is `classify` of the feature leaf.
pub fn cpu_init() -> (r: CpuReport)
    ensures
        vendor_admitted(r.vendor) ==> (r.features matches Some(f) && r.verdict == classify_spec(f)),
        !vendor_admitted(r.vendor) ==> (r.features is None && r.verdict == CpuVerdict::WrongVendor),
{
    let vendor = query_vendor();
    let amd = match &vendor {
        Some(v) => is_supported_vendor(v.as_slice()),
        None => false,
    };
    if !amd {
        return CpuReport { vendor, features: None, verdict: CpuVerdict::WrongVendor };
    }
    let features = query_features();
    let verdict = classify(features);
    CpuReport { vendor, features: Some(features), verdict }
}


} // verus!
