//! Plain-data models of the setup objects: package references, property
//! stores, instances, the enumeration cursor and the configuration entry
//! point. The driver that talks to the foreign protocol builds these records
//! from what the protocol returns; everything the engine then does with them
//! is verified against the contracts here.

use vstd::prelude::*;

use crate::arrays::SafeArray;
use crate::defs::E_NOT_FOUND;
use crate::defs::FILETIME;
use crate::defs::HResult;
use crate::defs::S_OK;
use crate::defs::Variant;
use crate::wide::WideStr;
use crate::wide::content;

verus! {

/// One installed package: its identity fields, all plain values.
pub struct SetupPackageReference {
    pub id: String,
    pub version: String,
    pub chip: String,
    pub language: String,
    pub branch: String,
    pub kind: String,
    pub unique_id: String,
    pub is_extension: bool,
}

impl Clone for SetupPackageReference {
    /// A clone keeps every field.
    fn clone(&self) -> (r: Self)
        ensures
            r == *self,
    {
        SetupPackageReference {
            id: self.id.clone(),
            version: self.version.clone(),
            chip: self.chip.clone(),
            language: self.language.clone(),
            branch: self.branch.clone(),
            kind: self.kind.clone(),
            unique_id: self.unique_id.clone(),
            is_extension: self.is_extension,
        }
    }
}

impl SetupPackageReference {
    pub fn GetId(&self) -> (r: Result<String, HResult>)
        ensures
            r == Ok::<String, HResult>(self.id),
    {
        Ok(self.id.clone())
    }

    pub fn GetVersion(&self) -> (r: Result<String, HResult>)
        ensures
            r == Ok::<String, HResult>(self.version),
    {
        Ok(self.version.clone())
    }

    pub fn GetChip(&self) -> (r: Result<String, HResult>)
        ensures
            r == Ok::<String, HResult>(self.chip),
    {
        Ok(self.chip.clone())
    }

    pub fn GetLanguage(&self) -> (r: Result<String, HResult>)
        ensures
            r == Ok::<String, HResult>(self.language),
    {
        Ok(self.language.clone())
    }

    pub fn GetBranch(&self) -> (r: Result<String, HResult>)
        ensures
            r == Ok::<String, HResult>(self.branch),
    {
        Ok(self.branch.clone())
    }

    pub fn GetType(&self) -> (r: Result<String, HResult>)
        ensures
            r == Ok::<String, HResult>(self.kind),
    {
        Ok(self.kind.clone())
    }

    pub fn GetUniqueId(&self) -> (r: Result<String, HResult>)
        ensures
            r == Ok::<String, HResult>(self.unique_id),
    {
        Ok(self.unique_id.clone())
    }

    pub fn GetIsExtension(&self) -> (r: Result<bool, HResult>)
        ensures
            r == Ok::<bool, HResult>(self.is_extension),
    {
        Ok(self.is_extension)
    }
}

/// The product reference of an instance: the product's package identity
/// together with the product-specific flags.
pub struct SetupProductReference {
    pub package: SetupPackageReference,
    pub is_installed: bool,
    pub supports_extensions: bool,
}

impl Clone for SetupProductReference {
    /// A clone keeps every field.
    fn clone(&self) -> (r: Self)
        ensures
            r == *self,
    {
        SetupProductReference {
            package: self.package.clone(),
            is_installed: self.is_installed,
            supports_extensions: self.supports_extensions,
        }
    }
}

impl SetupProductReference {
    /// The product's package identifier.
    pub fn GetId(&self) -> (r: Result<String, HResult>)
        ensures
            r == Ok::<String, HResult>(self.package.id),
    {
        self.package.GetId()
    }

    pub fn GetIsInstalled(&self) -> (r: Result<bool, HResult>)
        ensures
            r == Ok::<bool, HResult>(self.is_installed),
    {
        Ok(self.is_installed)
    }

    pub fn GetSupportsExtensions(&self) -> (r: Result<bool, HResult>)
        ensures
            r == Ok::<bool, HResult>(self.supports_extensions),
    {
        Ok(self.supports_extensions)
    }
}

/// One named value of a property store.
pub struct PropertyEntry {
    pub name: WideStr,
    pub value: Variant,
}

/// The mathematical shape of a property entry: the name's units and the
/// stored value.
pub struct PropertyView {
    pub name: Seq<u16>,
    pub value: Variant,
}

impl View for PropertyEntry {
    type V = PropertyView;

    open spec fn view(&self) -> PropertyView {
        PropertyView { name: self.name@, value: self.value }
    }
}

impl Clone for PropertyEntry {
    /// A clone keeps name and value.
    fn clone(&self) -> (r: Self)
        ensures
            r@ == self@,
    {
        PropertyEntry { name: self.name.clone(), value: self.value.clone() }
    }
}

/// The first stored value whose name's content equals the queried name's
/// content, searched front to back.
pub open spec fn store_lookup(entries: Seq<PropertyView>, name: Seq<u16>) -> Option<Variant>
    decreases entries.len(),
{
    if entries.len() == 0 {
        None
    } else if content(entries[0].name) == content(name) {
        Some(entries[0].value)
    } else {
        store_lookup(entries.drop_first(), name)
    }
}

/// Entries without a match contribute nothing to the lookup.
pub proof fn lemma_store_lookup_skip(entries: Seq<PropertyView>, name: Seq<u16>, i: int)
    requires
        0 <= i <= entries.len(),
        forall|j: int| 0 <= j < i ==> content(#[trigger] entries[j].name) != content(name),
    ensures
        store_lookup(entries, name) == store_lookup(
            entries.subrange(i, entries.len() as int),
            name,
        ),
    decreases i,
{
    if i > 0 {
        assert(content(entries[0].name) != content(name));
        assert(store_lookup(entries, name) == store_lookup(entries.drop_first(), name));
        assert(forall|j: int|
            0 <= j < i - 1 ==> content(#[trigger] entries.drop_first()[j].name) != content(name));
        lemma_store_lookup_skip(entries.drop_first(), name, i - 1);
        assert(entries.drop_first().subrange(i - 1, entries.drop_first().len() as int)
            =~= entries.subrange(i, entries.len() as int));
    } else {
        assert(entries.subrange(0, entries.len() as int) =~= entries);
    }
}

/// A lookup depends only on the queried name's content.
pub proof fn lemma_store_lookup_content(entries: Seq<PropertyView>, n1: Seq<u16>, n2: Seq<u16>)
    requires
        content(n1) == content(n2),
    ensures
        store_lookup(entries, n1) == store_lookup(entries, n2),
    decreases entries.len(),
{
    if entries.len() > 0 {
        lemma_store_lookup_content(entries.drop_first(), n1, n2);
    }
}

/// A key/value property store, looked up by wide-string name.
pub struct SetupPropertyStore {
    pub entries: Vec<PropertyEntry>,
}

impl View for SetupPropertyStore {
    type V = Seq<PropertyView>;

    open spec fn view(&self) -> Seq<PropertyView> {
        Seq::new(self.entries@.len(), |i: int| self.entries@[i]@)
    }
}

impl Clone for SetupPropertyStore {
    /// A clone keeps every entry.
    fn clone(&self) -> (r: Self)
        ensures
            r@ == self@,
    {
        let entries = self.entries.clone();
        proof {
            assert(SetupPropertyStore { entries }@ =~= self@);
        }
        SetupPropertyStore { entries }
    }
}

impl SetupPropertyStore {
    /// All names, as a freshly wrapped bulk array in store order.
    pub fn GetNames(&self) -> (r: Result<SafeArray<WideStr>, HResult>)
        ensures
            r matches Ok(a) && a@.len() == self@.len() && a.live() && (forall|i: int|
                0 <= i < self@.len() ==> (#[trigger] a@[i])@ == self@[i].name),
    {
        let n = self.entries.len();
        let mut names: Vec<WideStr> = Vec::new();
        let mut i: usize = 0;
        while i < n
            invariant
                0 <= i <= n,
                n == self.entries@.len(),
                names@.len() == i,
                forall|j: int| 0 <= j < i ==> (#[trigger] names@[j])@ == self@[j].name,
            decreases n - i,
        {
            names.push(self.entries[i].name.clone());
            i += 1;
        }
        SafeArray::wrap(names, 1)
    }

    /// Looks a value up by name content; a missing name reports "not found".
    pub fn GetValue(&self, name: &WideStr) -> (r: Result<Variant, HResult>)
        ensures
            match r {
                Ok(v) => store_lookup(self@, name@) == Some(v),
                Err(e) => store_lookup(self@, name@) is None && e == (HResult {
                    code: E_NOT_FOUND,
                }),
            },
    {
        let n = self.entries.len();
        let mut i: usize = 0;
        while i < n
            invariant
                0 <= i <= n,
                n == self.entries@.len(),
                forall|j: int| 0 <= j < i ==> content(#[trigger] self@[j].name) != content(name@),
            decreases n - i,
        {
            if self.entries[i].name.content_eq(name) {
                proof {
                    lemma_store_lookup_skip(self@, name@, i as int);
                    assert(self@.subrange(i as int, self@.len() as int)[0] == self@[i as int]);
                }
                return Ok(self.entries[i].value.clone());
            }
            i += 1;
        }
        proof {
            lemma_store_lookup_skip(self@, name@, n as int);
            assert(self@.subrange(n as int, self@.len() as int).len() == 0);
        }
        Err(HResult { code: E_NOT_FOUND })
    }
}

/// The properties of an instance as their mathematical shape, when present.
pub open spec fn properties_view(p: Option<SetupPropertyStore>) -> Option<Seq<PropertyView>> {
    match p {
        Some(store) => Some(store@),
        None => None,
    }
}

/// One discovered installation, every field a plain value.
pub struct SetupInstance {
    pub instance_id: String,
    pub install_date: FILETIME,
    pub installation_name: String,
    pub installation_path: String,
    pub installation_version: String,
    pub display_name: String,
    pub description: String,
    pub product: Option<SetupProductReference>,
    pub packages: Vec<SetupPackageReference>,
    pub properties: Option<SetupPropertyStore>,
}

/// The mathematical shape of an instance.
pub struct InstanceView {
    pub instance_id: String,
    pub install_date: FILETIME,
    pub installation_name: String,
    pub installation_path: String,
    pub installation_version: String,
    pub display_name: String,
    pub description: String,
    pub product: Option<SetupProductReference>,
    pub packages: Seq<SetupPackageReference>,
    pub properties: Option<Seq<PropertyView>>,
}

impl View for SetupInstance {
    type V = InstanceView;

    open spec fn view(&self) -> InstanceView {
        InstanceView {
            instance_id: self.instance_id,
            install_date: self.install_date,
            installation_name: self.installation_name,
            installation_path: self.installation_path,
            installation_version: self.installation_version,
            display_name: self.display_name,
            description: self.description,
            product: self.product,
            packages: self.packages@,
            properties: properties_view(self.properties),
        }
    }
}

impl Clone for SetupInstance {
    /// A clone keeps every field.
    fn clone(&self) -> (r: Self)
        ensures
            r@ == self@,
    {
        let packages = self.packages.clone();
        let properties = match &self.properties {
            Some(p) => Some(p.clone()),
            None => None,
        };
        proof {
            assert(packages@ =~= self.packages@);
        }
        SetupInstance {
            instance_id: self.instance_id.clone(),
            install_date: self.install_date,
            installation_name: self.installation_name.clone(),
            installation_path: self.installation_path.clone(),
            installation_version: self.installation_version.clone(),
            display_name: self.display_name.clone(),
            description: self.description.clone(),
            product: self.product.clone(),
            packages,
            properties,
        }
    }
}

impl SetupInstance {
    pub fn GetInstanceId(&self) -> (r: Result<String, HResult>)
        ensures
            r == Ok::<String, HResult>(self.instance_id),
    {
        Ok(self.instance_id.clone())
    }

    pub fn GetInstallDate(&self) -> (r: Result<FILETIME, HResult>)
        ensures
            r == Ok::<FILETIME, HResult>(self.install_date),
    {
        Ok(self.install_date)
    }

    pub fn GetInstallationName(&self) -> (r: Result<String, HResult>)
        ensures
            r == Ok::<String, HResult>(self.installation_name),
    {
        Ok(self.installation_name.clone())
    }

    pub fn GetInstallationPath(&self) -> (r: Result<String, HResult>)
        ensures
            r == Ok::<String, HResult>(self.installation_path),
    {
        Ok(self.installation_path.clone())
    }

    pub fn GetInstallationVersion(&self) -> (r: Result<String, HResult>)
        ensures
            r == Ok::<String, HResult>(self.installation_version),
    {
        Ok(self.installation_version.clone())
    }

    /// The display name; the model holds the one locale the engine asks for.
    pub fn GetDisplayName(&self, lcid: u32) -> (r: Result<String, HResult>)
        ensures
            r == Ok::<String, HResult>(self.display_name),
    {
        let _ = lcid;
        Ok(self.display_name.clone())
    }

    /// The description; the model holds the one locale the engine asks for.
    pub fn GetDescription(&self, lcid: u32) -> (r: Result<String, HResult>)
        ensures
            r == Ok::<String, HResult>(self.description),
    {
        let _ = lcid;
        Ok(self.description.clone())
    }

    pub fn GetProduct(&self) -> (r: Result<Option<SetupProductReference>, HResult>)
        ensures
            r == Ok::<Option<SetupProductReference>, HResult>(self.product),
    {
        Ok(self.product.clone())
    }

    /// The installed packages, as a freshly wrapped bulk array.
    pub fn GetPackages(&self) -> (r: Result<SafeArray<SetupPackageReference>, HResult>)
        ensures
            r matches Ok(a) && a@ == self.packages@ && a.live(),
    {
        let packages = self.packages.clone();
        proof {
            assert(packages@ =~= self.packages@);
        }
        SafeArray::wrap(packages, 1)
    }

    pub fn GetProperties(&self) -> (r: Result<Option<SetupPropertyStore>, HResult>)
        ensures
            r matches Ok(p) && properties_view(p) == properties_view(self.properties),
    {
        match &self.properties {
            Some(p) => Ok(Some(p.clone())),
            None => Ok(None),
        }
    }
}

/// The shapes of a vector of instances, in order.
pub open spec fn views_of(v: Seq<SetupInstance>) -> Seq<InstanceView> {
    Seq::new(v.len(), |i: int| v[i]@)
}

/// A restartable cursor over the discovered instances. Forward pulls hand
/// out copies; `Reset` rewinds, `Clone` forks an independent cursor at the
/// same position.
pub struct EnumSetupInstances {
    items: Vec<SetupInstance>,
    pos: usize,
}

impl EnumSetupInstances {
    /// The instances the cursor ranges over.
    pub closed spec fn items(self) -> Seq<InstanceView> {
        views_of(self.items@)
    }

    /// The position of the next instance to hand out.
    pub closed spec fn pos(self) -> int {
        self.pos as int
    }

    /// The position never passes the end.
    #[verifier::type_invariant]
    pub closed spec fn wf(self) -> bool {
        self.pos <= self.items@.len()
    }

    /// A cursor over the given instances, positioned at the start.
    pub fn over(items: Vec<SetupInstance>) -> (r: EnumSetupInstances)
        ensures
            r.items() == views_of(items@),
            r.pos() == 0,
    {
        EnumSetupInstances { items, pos: 0 }
    }

    /// Pulls the next batch of exactly `max` instances. When fewer remain,
    /// the cursor runs to the end and reports the end-of-sequence sentinel
    /// instead of a batch; the sentinel is distinct from every error.
    pub fn Next(&mut self, max: usize) -> (r: Result<Option<Vec<SetupInstance>>, HResult>)
        ensures
            final(self).items() == old(self).items(),
            if old(self).pos() + max <= old(self).items().len() {
                &&& final(self).pos() == old(self).pos() + max
                &&& r matches Ok(Some(batch)) && views_of(batch@) == old(self).items().subrange(
                    old(self).pos(),
                    old(self).pos() + max,
                )
            } else {
                &&& final(self).pos() == old(self).items().len()
                &&& r == Ok::<Option<Vec<SetupInstance>>, HResult>(None)
            },
    {
        proof {
            use_type_invariant(&*self);
        }
        let n = self.items.len();
        if max <= n - self.pos {
            let mut batch: Vec<SetupInstance> = Vec::new();
            let start = self.pos;
            let mut i: usize = 0;
            while i < max
                invariant
                    0 <= i <= max,
                    start + max <= n,
                    n == self.items@.len(),
                    batch@.len() == i,
                    forall|j: int| 0 <= j < i ==> (#[trigger] batch@[j])@ == self.items@[
                        start + j]@,
                decreases max - i,
            {
                batch.push(self.items[start + i].clone());
                i += 1;
            }
            self.pos = start + max;
            proof {
                assert(views_of(batch@) =~= self.items().subrange(
                    start as int,
                    start as int + max,
                ));
            }
            Ok(Some(batch))
        } else {
            self.pos = n;
            Ok(None)
        }
    }

    /// Skips over `count` instances; reports whether that many remained.
    pub fn Skip(&mut self, count: u32) -> (r: Result<bool, HResult>)
        ensures
            final(self).items() == old(self).items(),
            if old(self).pos() + count <= old(self).items().len() {
                final(self).pos() == old(self).pos() + count && r == Ok::<bool, HResult>(true)
            } else {
                final(self).pos() == old(self).items().len() && r == Ok::<bool, HResult>(false)
            },
    {
        proof {
            use_type_invariant(&*self);
        }
        let n = self.items.len();
        let count = count as usize;
        if count <= n - self.pos {
            self.pos = self.pos + count;
            Ok(true)
        } else {
            self.pos = n;
            Ok(false)
        }
    }

    /// Rewinds to the start; repeating it changes nothing further.
    pub fn Reset(&mut self)
        ensures
            final(self).items() == old(self).items(),
            final(self).pos() == 0,
    {
        self.pos = 0;
    }

    /// Forks an independent cursor at the same position.
    pub fn Clone(&self) -> (r: Result<EnumSetupInstances, HResult>)
        ensures
            r matches Ok(e) && e.items() == self.items() && e.pos() == self.pos(),
    {
        proof {
            use_type_invariant(self);
        }
        let items = self.items.clone();
        proof {
            assert(views_of(items@) =~= self.items());
        }
        Ok(EnumSetupInstances { items, pos: self.pos })
    }

    /// Pulls one instance, or nothing at the end of the sequence.
    pub fn next(&mut self) -> (r: Option<SetupInstance>)
        ensures
            final(self).items() == old(self).items(),
            if old(self).pos() < old(self).items().len() {
                &&& final(self).pos() == old(self).pos() + 1
                &&& r matches Some(inst) && inst@ == old(self).items()[old(self).pos()]
            } else {
                final(self).pos() == old(self).pos() && r is None
            },
    {
        proof {
            use_type_invariant(&*self);
        }
        if self.pos < self.items.len() {
            let inst = self.items[self.pos].clone();
            self.pos = self.pos + 1;
            Some(inst)
        } else {
            None
        }
    }
}

/// The decision of the convenience iterator on one foreign pull: only a
/// plain success with an item yields an item. The end-of-sequence sentinel
/// and every error alike end the iteration, deliberately conflated here and
/// kept apart by `Next`.
pub fn next_from_status(status: HResult, fetched: Option<SetupInstance>) -> (r: Option<
    SetupInstance,
>)
    ensures
        r == if status == (HResult { code: S_OK }) {
            fetched
        } else {
            None::<SetupInstance>
        },
{
    if status.code == S_OK {
        fetched
    } else {
        None
    }
}

/// The entry point: the discovered installations of the host.
pub struct SetupConfiguration {
    pub instances: Vec<SetupInstance>,
}

impl SetupConfiguration {
    /// A configuration over the given instances.
    pub fn from_instances(instances: Vec<SetupInstance>) -> (r: SetupConfiguration)
        ensures
            views_of(r.instances@) == views_of(instances@),
    {
        SetupConfiguration { instances }
    }

    /// A cursor over the discovered instances, at the start.
    pub fn EnumInstances(&self) -> (r: Result<EnumSetupInstances, HResult>)
        ensures
            r matches Ok(e) && e.items() == views_of(self.instances@) && e.pos() == 0,
    {
        let items = self.instances.clone();
        proof {
            assert(views_of(items@) =~= views_of(self.instances@));
        }
        Ok(EnumSetupInstances::over(items))
    }
}

} // verus!
