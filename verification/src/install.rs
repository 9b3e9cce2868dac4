//! Classification of component identifiers and the discovery of candidate
//! installations: which product an instance is, which compiler-toolset and
//! platform-SDK components it already has, and which instances qualify as
//! repair candidates at all.

use vstd::prelude::*;
use vstd::string::StrSliceExecFns;
use vstd::string::StringExecFns;

use crate::arrays::SafeArray;
use crate::defs::Variant;
use crate::setup::InstanceView;
use crate::setup::SetupConfiguration;
use crate::setup::SetupInstance;
use crate::setup::SetupPackageReference;
use crate::setup::lemma_store_lookup_content;
use crate::setup::store_lookup;
use crate::setup::views_of;
use crate::wide::WideStr;
use crate::wide::nonzero_ascii;
use crate::wide::widened;
use crate::text::is_numeral_up_to;
use crate::text::numeral_val;
use crate::text::parse_bounded;
use crate::text::split_on;
use crate::text::split_str;
use crate::text::str_eq;
use crate::text::chars_eq_str;

verus! {

/// The product identifier of the community edition.
pub const PRODUCT_COMMUNITY: &'static str = "Microsoft.VisualStudio.Product.Community";

/// The product identifier of the build-tools edition.
pub const PRODUCT_BUILD_TOOLS: &'static str = "Microsoft.VisualStudio.Product.BuildTools";

/// The product identifier of the professional edition.
pub const PRODUCT_PROFESSIONAL: &'static str = "Microsoft.VisualStudio.Product.Professional";

/// The product identifier of the enterprise edition.
pub const PRODUCT_ENTERPRISE: &'static str = "Microsoft.VisualStudio.Product.Enterprise";

/// The edition of an installation, ordered by preference: build tools first,
/// then enterprise, professional and community.
#[derive(Clone, Copy, Debug, PartialEq, Eq, Structural)]
pub enum Product {
    BuildTools,
    Enterprise,
    Professional,
    Community,
}

impl Product {
    /// The position in the preference order; smaller is preferred.
    pub open spec fn rank(self) -> int {
        match self {
            Product::BuildTools => 0,
            Product::Enterprise => 1,
            Product::Professional => 2,
            Product::Community => 3,
        }
    }

    /// Which product a product identifier names, if any.
    pub open spec fn spec_from_str(s: Seq<char>) -> Option<Product> {
        if s == PRODUCT_COMMUNITY@ {
            Some(Product::Community)
        } else if s == PRODUCT_PROFESSIONAL@ {
            Some(Product::Professional)
        } else if s == PRODUCT_ENTERPRISE@ {
            Some(Product::Enterprise)
        } else if s == PRODUCT_BUILD_TOOLS@ {
            Some(Product::BuildTools)
        } else {
            None
        }
    }

    /// Classifies a product identifier.
    pub fn from_str(product: &str) -> (r: Option<Product>)
        ensures
            r == Product::spec_from_str(product@),
    {
        if str_eq(product, PRODUCT_COMMUNITY) {
            Some(Product::Community)
        } else if str_eq(product, PRODUCT_PROFESSIONAL) {
            Some(Product::Professional)
        } else if str_eq(product, PRODUCT_ENTERPRISE) {
            Some(Product::Enterprise)
        } else if str_eq(product, PRODUCT_BUILD_TOOLS) {
            Some(Product::BuildTools)
        } else {
            None
        }
    }

    /// The product identifier this product stands for.
    pub open spec fn spec_as_str(self) -> Seq<char> {
        match self {
            Product::BuildTools => PRODUCT_BUILD_TOOLS@,
            Product::Community => PRODUCT_COMMUNITY@,
            Product::Professional => PRODUCT_PROFESSIONAL@,
            Product::Enterprise => PRODUCT_ENTERPRISE@,
        }
    }

    /// The product identifier this product stands for.
    pub fn as_str(self) -> (r: &'static str)
        ensures
            r@ == self.spec_as_str(),
    {
        match self {
            Product::BuildTools => PRODUCT_BUILD_TOOLS,
            Product::Community => PRODUCT_COMMUNITY,
            Product::Professional => PRODUCT_PROFESSIONAL,
            Product::Enterprise => PRODUCT_ENTERPRISE,
        }
    }

    /// The position in the preference order; smaller is preferred.
    pub fn preference(self) -> (r: u8)
        ensures
            r == self.rank(),
    {
        match self {
            Product::BuildTools => 0,
            Product::Enterprise => 1,
            Product::Professional => 2,
            Product::Community => 3,
        }
    }
}

/// The component identifier of the compiler toolset for 32- and 64-bit x86.
pub const MSVC_X86_X64: &'static str = "Microsoft.VisualStudio.Component.VC.Tools.x86.x64";

/// The component identifier of the compiler toolset for 64-bit Arm.
pub const MSVC_ARM64: &'static str = "Microsoft.VisualStudio.Component.VC.Tools.ARM64";

/// A compiler toolset, one per supported processor architecture family.
#[derive(Clone, Copy, Debug, PartialEq, Eq, Structural)]
pub enum Msvc {
    X86X64,
    Arm64,
}

impl Msvc {
    /// Which toolset a component identifier names, if any.
    pub open spec fn spec_from_id(s: Seq<char>) -> Option<Msvc> {
        if s == MSVC_X86_X64@ {
            Some(Msvc::X86X64)
        } else if s == MSVC_ARM64@ {
            Some(Msvc::Arm64)
        } else {
            None
        }
    }

    /// Classifies a component identifier.
    pub fn from_id(id: &str) -> (r: Option<Msvc>)
        ensures
            r == Msvc::spec_from_id(id@),
    {
        if str_eq(id, MSVC_X86_X64) {
            Some(Msvc::X86X64)
        } else if str_eq(id, MSVC_ARM64) {
            Some(Msvc::Arm64)
        } else {
            None
        }
    }

    /// The toolset for a processor architecture name: 64-bit Arm gets its
    /// own toolset, every other architecture the x86 family's.
    pub open spec fn spec_from_rust_arch(arch: Seq<char>) -> Msvc {
        if arch == "aarch64"@ {
            Msvc::Arm64
        } else {
            Msvc::X86X64
        }
    }

    /// The toolset matching a processor architecture name.
    pub fn from_rust_arch(arch: &str) -> (r: Msvc)
        ensures
            r == Msvc::spec_from_rust_arch(arch@),
    {
        if str_eq(arch, "aarch64") {
            Msvc::Arm64
        } else {
            Msvc::X86X64
        }
    }

    /// The component identifier of this toolset.
    pub open spec fn spec_id(self) -> Seq<char> {
        match self {
            Msvc::X86X64 => MSVC_X86_X64@,
            Msvc::Arm64 => MSVC_ARM64@,
        }
    }

    /// The component identifier of this toolset.
    pub fn id(self) -> (r: &'static str)
        ensures
            r@ == self.spec_id(),
    {
        match self {
            Msvc::X86X64 => MSVC_X86_X64,
            Msvc::Arm64 => MSVC_ARM64,
        }
    }
}

/// Whether an identifier names a platform-SDK component: it splits on the
/// dot into exactly five segments, the first three fixed, the fourth one of
/// the two SDK family tokens, the fifth a version number that fits 32 bits.
pub open spec fn is_sdk_id(s: Seq<char>) -> bool {
    let parts = split_on(s, '.');
    &&& parts.len() == 5
    &&& parts[0] == "Microsoft"@
    &&& parts[1] == "VisualStudio"@
    &&& parts[2] == "Component"@
    &&& (parts[3] == "Windows10SDK"@ || parts[3] == "Windows11SDK"@)
    &&& is_numeral_up_to(parts[4], u32::MAX as int)
}

/// The version a platform-SDK identifier carries.
pub open spec fn sdk_version_of(s: Seq<char>) -> int {
    numeral_val(split_on(s, '.')[4])
}

/// A platform-SDK component: its version and its full identifier.
#[derive(Debug, PartialEq, Eq)]
pub struct Sdk {
    pub version: u32,
    pub id: String,
}

impl Clone for Sdk {
    /// A clone keeps version and identifier.
    fn clone(&self) -> (r: Self)
        ensures
            r == *self,
    {
        Sdk { version: self.version, id: self.id.clone() }
    }
}

impl Sdk {
    /// Classifies a component identifier; identifiers that are no
    /// platform-SDK component are ignored, never an error.
    pub fn from_id(id: &str) -> (r: Option<Sdk>)
        ensures
            match r {
                Some(sdk) => is_sdk_id(id@) && sdk.id@ == id@ && sdk.version == sdk_version_of(
                    id@,
                ),
                None => !is_sdk_id(id@),
            },
    {
        let parts = split_str(id, '.');
        proof {
            assert(parts.deep_view().len() == parts@.len());
        }
        if parts.len() != 5 {
            return None;
        }
        proof {
            assert forall|k: int| 0 <= k < 5 implies (#[trigger] parts@[k])@ == parts.deep_view()[
                k] by {
                assert(parts@[k].deep_view() =~= parts@[k]@);
            }
        }
        if !chars_eq_str(&parts[0], "Microsoft") {
            return None;
        }
        if !chars_eq_str(&parts[1], "VisualStudio") {
            return None;
        }
        if !chars_eq_str(&parts[2], "Component") {
            return None;
        }
        if !chars_eq_str(&parts[3], "Windows10SDK") && !chars_eq_str(&parts[3], "Windows11SDK") {
            return None;
        }
        match parse_bounded(&parts[4], u32::MAX) {
            Some(version) => Some(Sdk { version, id: id.to_owned() }),
            None => None,
        }
    }

    /// The full component identifier.
    pub fn id(&self) -> (r: &str)
        ensures
            r@ == self.id@,
    {
        self.id.as_str()
    }
}

/// The identifiers of a package list, in order.
pub open spec fn package_ids(pkgs: Seq<SetupPackageReference>) -> Seq<Seq<char>> {
    Seq::new(pkgs.len(), |i: int| pkgs[i].id@)
}

/// Whether any identifier names the given compiler toolset.
pub open spec fn has_msvc(ids: Seq<Seq<char>>, current: Msvc) -> bool
    decreases ids.len(),
{
    if ids.len() == 0 {
        false
    } else {
        has_msvc(ids.drop_last(), current) || Msvc::spec_from_id(ids.last()) == Some(current)
    }
}

/// The toolset component an identifier list yields: the running
/// architecture's toolset when any identifier names it, else nothing.
pub open spec fn msvc_choice(ids: Seq<Seq<char>>, current: Msvc) -> Option<Msvc> {
    if has_msvc(ids, current) {
        Some(current)
    } else {
        None
    }
}

/// The platform-SDK identifier an identifier list yields: among the
/// identifiers that classify as platform-SDK components, one with the
/// highest version; on a version tie the one seen last wins.
pub open spec fn best_sdk_ids(ids: Seq<Seq<char>>) -> Option<Seq<char>>
    decreases ids.len(),
{
    if ids.len() == 0 {
        None
    } else {
        let prev = best_sdk_ids(ids.drop_last());
        let last = ids.last();
        if is_sdk_id(last) && (prev is None || sdk_version_of(last) >= sdk_version_of(prev->0)) {
            Some(last)
        } else {
            prev
        }
    }
}

/// A platform-SDK identifier's version is never negative and fits 32 bits.
pub proof fn lemma_sdk_version_bounds(id: Seq<char>)
    requires
        is_sdk_id(id),
    ensures
        0 <= sdk_version_of(id) <= u32::MAX,
{
    crate::text::lemma_digits_val_nonneg(crate::text::numeral_body(split_on(id, '.')[4]));
}

/// The chosen identifier always classifies as a platform-SDK component.
pub proof fn lemma_best_sdk_ids_is_sdk(ids: Seq<Seq<char>>)
    ensures
        best_sdk_ids(ids) matches Some(id) ==> is_sdk_id(id),
    decreases ids.len(),
{
    if ids.len() > 0 {
        lemma_best_sdk_ids_is_sdk(ids.drop_last());
    }
}

/// The SDK pick is the highest: something is chosen exactly when some
/// identifier classifies as a platform-SDK component, the choice is one of
/// the identifiers, and no identifier that classifies carries a higher
/// version than the chosen one.
pub proof fn lemma_best_sdk_is_highest(ids: Seq<Seq<char>>)
    ensures
        best_sdk_ids(ids) is Some <==> exists|i: int| 0 <= i < ids.len() && is_sdk_id(#[trigger] ids[i]),
        best_sdk_ids(ids) matches Some(id) ==> exists|i: int| 0 <= i < ids.len() && ids[i] == id,
        best_sdk_ids(ids) matches Some(id) ==> is_sdk_id(id) && forall|i: int|
            0 <= i < ids.len() && is_sdk_id(#[trigger] ids[i]) ==> sdk_version_of(ids[i])
                <= sdk_version_of(id),
    decreases ids.len(),
{
    lemma_best_sdk_ids_is_sdk(ids);
    if ids.len() > 0 {
        let head = ids.drop_last();
        lemma_best_sdk_is_highest(head);
        assert(forall|i: int| 0 <= i < head.len() ==> #[trigger] ids[i] == head[i]);
        if best_sdk_ids(ids) is Some {
            let id = best_sdk_ids(ids)->0;
            if best_sdk_ids(head) == Some(id) {
                let w = choose|i: int| 0 <= i < head.len() && head[i] == id;
                assert(ids[w] == id);
            } else {
                assert(ids[ids.len() - 1] == id);
            }
        }
        if exists|i: int| 0 <= i < ids.len() && is_sdk_id(#[trigger] ids[i]) {
            let w = choose|i: int| 0 <= i < ids.len() && is_sdk_id(#[trigger] ids[i]);
            if w < ids.len() - 1 {
                assert(is_sdk_id(head[w]));
            }
        }
    }
}

/// The mathematical shape of a platform-SDK component.
pub struct SdkView {
    pub version: u32,
    pub id: Seq<char>,
}

impl View for Sdk {
    type V = SdkView;

    open spec fn view(&self) -> SdkView {
        SdkView { version: self.version, id: self.id@ }
    }
}

/// The shape of the component an identifier stands for.
pub open spec fn sdk_of_id(id: Seq<char>) -> SdkView {
    SdkView { version: sdk_version_of(id) as u32, id }
}

/// The shape of an optional component.
pub open spec fn sdk_view_opt(o: Option<Sdk>) -> Option<SdkView> {
    match o {
        Some(sdk) => Some(sdk@),
        None => None,
    }
}

/// The shape of what an identifier list yields as its platform SDK.
pub open spec fn best_sdk_view(ids: Seq<Seq<char>>) -> Option<SdkView> {
    match best_sdk_ids(ids) {
        Some(id) => Some(sdk_of_id(id)),
        None => None,
    }
}

/// Classifies every package identifier of a live package array: yields the
/// running architecture's toolset when some package is it, and the highest
/// platform SDK found, ties to the last seen.
pub fn classify_packages(packages: &SafeArray<SetupPackageReference>, current: Msvc) -> (r: (
    Option<Msvc>,
    Option<Sdk>,
))
    requires
        packages.live(),
    ensures
        r.0 == msvc_choice(package_ids(packages@), current),
        sdk_view_opt(r.1) == best_sdk_view(package_ids(packages@)),
{
    let s = packages.as_slice();
    let n = s.len();
    let ghost all = package_ids(packages@);
    let mut msvc: Option<Msvc> = None;
    let mut sdk: Option<Sdk> = None;
    let mut i: usize = 0;
    proof {
        assert(all.subrange(0, 0) =~= Seq::<Seq<char>>::empty());
    }
    while i < n
        invariant
            0 <= i <= n,
            n == s@.len(),
            s@ == packages@,
            all == package_ids(packages@),
            msvc == msvc_choice(all.subrange(0, i as int), current),
            sdk_view_opt(sdk) == best_sdk_view(all.subrange(0, i as int)),
        decreases n - i,
    {
        proof {
            assert(all.subrange(0, i + 1).drop_last() =~= all.subrange(0, i as int));
            assert(all.subrange(0, i + 1).last() == s@[i as int].id@);
            lemma_best_sdk_ids_is_sdk(all.subrange(0, i as int));
            match best_sdk_ids(all.subrange(0, i as int)) {
                Some(prev) => lemma_sdk_version_bounds(prev),
                None => (),
            }
        }
        let id = match s[i].GetId() {
            Ok(id) => id,
            Err(_) => {
                // unreachable: the model's package getters always succeed
                proof {
                    assert(false);
                }
                String::new()
            },
        };
        match Sdk::from_id(id.as_str()) {
            Some(component) => {
                let better = match &sdk {
                    Some(best) => component.version >= best.version,
                    None => true,
                };
                if better {
                    sdk = Some(component);
                }
            },
            None => {},
        }
        match Msvc::from_id(id.as_str()) {
            Some(component) => {
                if component == current {
                    msvc = Some(component);
                }
            },
            None => {},
        }
        i += 1;
    }
    proof {
        assert(all.subrange(0, n as int) =~= all);
    }
    (msvc, sdk)
}

/// One candidate installation, ready for selection and repair planning.
#[derive(Debug)]
pub struct VisualStudio {
    pub display_name: String,
    pub version: u16,
    pub product_id: Product,
    pub install_path: String,
    pub setup_path: String,
    pub msvc: Option<Msvc>,
    pub sdk: Option<Sdk>,
}

/// The mathematical shape of a candidate installation.
pub struct VisualStudioView {
    pub display_name: Seq<char>,
    pub version: u16,
    pub product_id: Product,
    pub install_path: Seq<char>,
    pub setup_path: Seq<char>,
    pub msvc: Option<Msvc>,
    pub sdk: Option<SdkView>,
}

impl View for VisualStudio {
    type V = VisualStudioView;

    open spec fn view(&self) -> VisualStudioView {
        VisualStudioView {
            display_name: self.display_name@,
            version: self.version,
            product_id: self.product_id,
            install_path: self.install_path@,
            setup_path: self.setup_path@,
            msvc: self.msvc,
            sdk: sdk_view_opt(self.sdk),
        }
    }
}

impl DeepView for VisualStudio {
    type V = VisualStudioView;

    open spec fn deep_view(&self) -> VisualStudioView {
        self@
    }
}

impl Clone for VisualStudio {
    /// A clone keeps every field.
    fn clone(&self) -> (r: Self)
        ensures
            r == *self,
    {
        VisualStudio {
            display_name: self.display_name.clone(),
            version: self.version,
            product_id: self.product_id,
            install_path: self.install_path.clone(),
            setup_path: self.setup_path.clone(),
            msvc: self.msvc,
            sdk: match &self.sdk {
                Some(sdk) => Some(sdk.clone()),
                None => None,
            },
        }
    }
}

/// The component identifiers of a candidate: the toolset's, then the SDK's,
/// each only when recorded.
pub open spec fn spec_components(v: VisualStudioView) -> Seq<Seq<char>> {
    let m = match v.msvc {
        Some(m) => seq![m.spec_id()],
        None => Seq::<Seq<char>>::empty(),
    };
    let s = match v.sdk {
        Some(sdk) => seq![sdk.id],
        None => Seq::<Seq<char>>::empty(),
    };
    m + s
}

impl VisualStudio {
    /// Forgets both recorded components.
    pub fn clear_components(&mut self)
        ensures
            final(self).msvc is None,
            final(self).sdk is None,
            final(self).display_name == old(self).display_name,
            final(self).version == old(self).version,
            final(self).product_id == old(self).product_id,
            final(self).install_path == old(self).install_path,
            final(self).setup_path == old(self).setup_path,
    {
        self.msvc = None;
        self.sdk = None;
    }

    /// The component identifiers this candidate records.
    pub fn components(&self) -> (r: Vec<String>)
        ensures
            r.deep_view() == spec_components(self@),
    {
        let mut r: Vec<String> = Vec::new();
        match &self.msvc {
            Some(m) => {
                r.push(String::from_str(m.id()));
            },
            None => {},
        }
        match &self.sdk {
            Some(sdk) => {
                r.push(sdk.id.clone());
            },
            None => {},
        }
        proof {
            assert(r.deep_view() =~~= spec_components(self@));
        }
        r
    }
}


/// The key under which an instance's property store records the path of the
/// maintenance tool.
pub const SETUP_ENGINE_FILE_PATH: &'static str = "setupEngineFilePath";

/// The major version of an installation version string: the decimal value
/// before the first dot, or zero when there is no dot or no number that
/// fits sixteen bits.
pub open spec fn major_version_of(s: Seq<char>) -> int {
    let parts = split_on(s, '.');
    if parts.len() >= 2 && is_numeral_up_to(parts[0], u16::MAX as int) {
        numeral_val(parts[0])
    } else {
        0
    }
}

/// Extracts the major version of an installation version string.
pub fn major_version(s: &str) -> (r: u16)
    ensures
        r == major_version_of(s@),
{
    let parts = split_str(s, '.');
    proof {
        assert(parts.deep_view().len() == parts@.len());
    }
    if parts.len() < 2 {
        return 0;
    }
    proof {
        assert(parts@[0].deep_view() =~= parts@[0]@);
    }
    match parse_bounded(&parts[0], 65535) {
        Some(v) => v as u16,
        None => 0,
    }
}

/// What one enumerated instance contributes to the candidate list: nothing
/// unless it has a recognised product, a major version of at least sixteen,
/// a property store and a recorded maintenance-tool path; otherwise a
/// candidate carrying the classified components. A recorded path of any
/// non-text shape falls back to the given default path.
pub open spec fn candidate_of(inst: InstanceView, current: Msvc, fallback: Seq<char>) -> Option<
    VisualStudioView,
> {
    match inst.product {
        None => None,
        Some(product) => match Product::spec_from_str(product.package.id@) {
            None => None,
            Some(product_id) => {
                let major = major_version_of(inst.installation_version@);
                if major < 16 {
                    None
                } else {
                    match inst.properties {
                        None => None,
                        Some(props) => match store_lookup(
                            props,
                            widened(SETUP_ENGINE_FILE_PATH@),
                        ) {
                            None => None,
                            Some(value) => {
                                let setup_path = match value {
                                    Variant::Bstr(path) => path@,
                                    _ => fallback,
                                };
                                let ids = package_ids(inst.packages);
                                Some(
                                    VisualStudioView {
                                        display_name: inst.display_name@,
                                        version: major as u16,
                                        product_id,
                                        install_path: inst.installation_path@,
                                        setup_path,
                                        msvc: msvc_choice(ids, current),
                                        sdk: best_sdk_view(ids),
                                    },
                                )
                            },
                        },
                    }
                }
            },
        },
    }
}

/// The candidates of a list of enumerated instances, in enumeration order,
/// instances that contribute nothing left out.
pub open spec fn candidates(insts: Seq<InstanceView>, current: Msvc, fallback: Seq<char>) -> Seq<
    VisualStudioView,
>
    decreases insts.len(),
{
    if insts.len() == 0 {
        Seq::<VisualStudioView>::empty()
    } else {
        let init = candidates(insts.drop_last(), current, fallback);
        match candidate_of(insts.last(), current, fallback) {
            Some(v) => init.push(v),
            None => init,
        }
    }
}

/// Every candidate list keeps out instances below major version sixteen:
/// each of its members carries a version of at least sixteen.
pub proof fn lemma_candidates_versions(insts: Seq<InstanceView>, current: Msvc, fallback: Seq<char>)
    ensures
        forall|i: int|
            0 <= i < candidates(insts, current, fallback).len() ==> (#[trigger] candidates(
                insts,
                current,
                fallback,
            )[i]).version >= 16,
    decreases insts.len(),
{
    if insts.len() > 0 {
        lemma_candidates_versions(insts.drop_last(), current, fallback);
    }
}

/// Classifies one enumerated instance, yielding its candidate or nothing.
pub fn classify_instance(instance: &SetupInstance, current: Msvc, fallback_setup_path: &str) -> (r:
    Option<VisualStudio>)
    ensures
        match r {
            Some(v) => candidate_of(instance@, current, fallback_setup_path@) == Some(v@),
            None => candidate_of(instance@, current, fallback_setup_path@) is None,
        },
{
    let product = match instance.GetProduct() {
        Ok(Some(product)) => product,
        Ok(None) => {
            return None;
        },
        Err(_) => {
            // unreachable: the model's getters always succeed
            proof {
                assert(false);
            }
            return None;
        },
    };
    let product_id_str = match product.GetId() {
        Ok(id) => id,
        Err(_) => {
            proof {
                assert(false);
            }
            return None;
        },
    };
    let product_id = match Product::from_str(product_id_str.as_str()) {
        Some(product_id) => product_id,
        None => {
            return None;
        },
    };
    let version_str = match instance.GetInstallationVersion() {
        Ok(version) => version,
        Err(_) => {
            proof {
                assert(false);
            }
            return None;
        },
    };
    let major = major_version(version_str.as_str());
    if major < 16 {
        return None;
    }
    let props = match instance.GetProperties() {
        Ok(Some(props)) => props,
        Ok(None) => {
            return None;
        },
        Err(_) => {
            proof {
                assert(false);
            }
            return None;
        },
    };
    proof {
        reveal_strlit("setupEngineFilePath");
        assert(SETUP_ENGINE_FILE_PATH@.len() == 19);
        assert(forall|i: int|
            0 <= i < SETUP_ENGINE_FILE_PATH@.len() ==> nonzero_ascii(
                #[trigger] SETUP_ENGINE_FILE_PATH@[i],
            ));
    }
    let key = WideStr::from_ascii(SETUP_ENGINE_FILE_PATH);
    proof {
        let wide_key = widened(SETUP_ENGINE_FILE_PATH@);
        assert forall|i: int| 0 <= i < wide_key.len() implies wide_key[i] != 0 by {
            assert(nonzero_ascii(SETUP_ENGINE_FILE_PATH@[i]));
        }
        crate::wide::lemma_content_no_nul(wide_key);
        lemma_store_lookup_content(props@, key@, wide_key);
    }
    let value = match props.GetValue(&key) {
        Ok(value) => value,
        Err(_) => {
            return None;
        },
    };
    let setup_path = match value {
        Variant::Bstr(path) => path,
        _ => String::from_str(fallback_setup_path),
    };
    let display_name = match instance.GetDisplayName(0x400) {
        Ok(name) => name,
        Err(_) => {
            proof {
                assert(false);
            }
            return None;
        },
    };
    let install_path = match instance.GetInstallationPath() {
        Ok(path) => path,
        Err(_) => {
            proof {
                assert(false);
            }
            return None;
        },
    };
    let mut packages = match instance.GetPackages() {
        Ok(packages) => packages,
        Err(_) => {
            proof {
                assert(false);
            }
            return None;
        },
    };
    let (msvc, sdk) = classify_packages(&packages, current);
    packages.release();
    Some(
        VisualStudio {
            display_name,
            version: major,
            product_id,
            install_path,
            setup_path,
            msvc,
            sdk,
        },
    )
}

/// Walks the discovered instances and classifies each, keeping the
/// candidates in enumeration order.
pub fn instances(setup: &SetupConfiguration, current: Msvc, fallback_setup_path: &str) -> (r: Vec<
    VisualStudio,
>)
    ensures
        r.deep_view() == candidates(views_of(setup.instances@), current, fallback_setup_path@),
{
    let mut result: Vec<VisualStudio> = Vec::new();
    let mut e = match setup.EnumInstances() {
        Ok(e) => e,
        Err(_) => {
            // unreachable: the model's enumeration always starts
            proof {
                assert(false);
            }
            return result;
        },
    };
    proof {
        assert(e.items().subrange(0, 0) =~= Seq::<InstanceView>::empty());
        assert(result.deep_view() =~= candidates(
            e.items().subrange(0, 0),
            current,
            fallback_setup_path@,
        ));
    }
    loop
        invariant
            e.items() == views_of(setup.instances@),
            0 <= e.pos() <= e.items().len(),
            result.deep_view() == candidates(
                e.items().subrange(0, e.pos()),
                current,
                fallback_setup_path@,
            ),
        ensures
            result.deep_view() == candidates(
                views_of(setup.instances@),
                current,
                fallback_setup_path@,
            ),
        decreases e.items().len() - e.pos(),
    {
        let inst = match e.next() {
            Some(inst) => inst,
            None => {
                proof {
                    assert(e.items().subrange(0, e.pos()) =~= e.items());
                }
                break ;
            },
        };
        proof {
            assert(e.items().subrange(0, e.pos()).drop_last() =~= e.items().subrange(
                0,
                e.pos() - 1,
            ));
            assert(e.items().subrange(0, e.pos()).last() == inst@);
        }
        let ghost before = result.deep_view();
        match classify_instance(&inst, current, fallback_setup_path) {
            Some(v) => {
                result.push(v);
                proof {
                    assert(result.deep_view() =~= before.push(v@));
                }
            },
            None => {},
        }
    }
    result
}


/// Picks the platform SDK a component list offers: among the identifiers
/// that classify as platform-SDK components, one with the highest version,
/// ties to the last seen; nothing when none classifies.
pub fn best_sdk(ids: &Vec<String>) -> (r: Option<Sdk>)
    ensures
        sdk_view_opt(r) == best_sdk_view(ids.deep_view()),
{
    let n = ids.len();
    let ghost all = ids.deep_view();
    let mut sdk: Option<Sdk> = None;
    let mut i: usize = 0;
    proof {
        assert(all.subrange(0, 0) =~= Seq::<Seq<char>>::empty());
    }
    while i < n
        invariant
            0 <= i <= n,
            n == ids@.len(),
            all == ids.deep_view(),
            sdk_view_opt(sdk) == best_sdk_view(all.subrange(0, i as int)),
        decreases n - i,
    {
        proof {
            assert(all.subrange(0, i + 1).drop_last() =~= all.subrange(0, i as int));
            assert(all.subrange(0, i + 1).last() == ids@[i as int]@);
            lemma_best_sdk_ids_is_sdk(all.subrange(0, i as int));
            match best_sdk_ids(all.subrange(0, i as int)) {
                Some(prev) => lemma_sdk_version_bounds(prev),
                None => (),
            }
        }
        match Sdk::from_id(ids[i].as_str()) {
            Some(component) => {
                let better = match &sdk {
                    Some(best) => component.version >= best.version,
                    None => true,
                };
                if better {
                    sdk = Some(component);
                }
            },
            None => {},
        }
        i += 1;
    }
    proof {
        assert(all.subrange(0, n as int) =~= all);
    }
    sdk
}

} // verus!
