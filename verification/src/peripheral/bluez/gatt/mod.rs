//! The D-Bus GATT object tree: flag mapping, object-path numbering, and
//! the registrar that assigns every attribute its place in the tree.

pub mod characteristic;
pub mod descriptor;
pub mod flags;
pub mod paths;

use vstd::prelude::*;

use crate::error::{Error, ErrorType};
use crate::gatt::characteristic::Characteristic;
use crate::gatt::service::Service;
use crate::peripheral::bluez::gatt::paths::{
    characteristic_path, characteristic_path_spec, coord_path, coord_wf, descriptor_path,
    descriptor_path_spec, lemma_coord_path_injective, service_path, service_path_spec, PathCoord,
};

verus! {

/// How many descriptors the first `i` characteristics carry between them.
pub open spec fn descs_before(chars: Seq<Characteristic>, i: int) -> nat
    decreases i,
{
    if i <= 0 {
        0
    } else {
        descs_before(chars, i - 1) + chars[i - 1].descriptors@.len()
    }
}

/// Prefix descriptor counts are monotone.
pub proof fn lemma_descs_before_mono(chars: Seq<Characteristic>, i: int, j: int)
    requires
        i <= j,
    ensures
        descs_before(chars, i) <= descs_before(chars, j),
    decreases j - i,
{
    if i < j {
        lemma_descs_before_mono(chars, i, j - 1);
    }
}

/// Prefix descriptor counts are monotone, for every pair in sight.
pub broadcast proof fn lemma_descs_before_mono_auto(chars: Seq<Characteristic>, i: int, j: int)
    requires
        i <= j,
    ensures
        #[trigger] descs_before(chars, i) <= #[trigger] descs_before(chars, j),
{
    lemma_descs_before_mono(chars, i, j);
}

/// A characteristic's own descriptors fit between its prefix count and any
/// later prefix count.
pub broadcast proof fn lemma_descs_before_step_bound(chars: Seq<Characteristic>, i: int, j: int)
    requires
        0 <= i < j,
    ensures
        #[trigger] descs_before(chars, i) + chars[i].descriptors@.len() <= #[trigger] descs_before(
            chars,
            j,
        ),
{
    lemma_descs_before_mono(chars, i + 1, j);
}

/// The paths assigned to one characteristic and its descriptors.
pub struct CharacteristicPaths {
    pub path: String,
    pub descriptors: Vec<String>,
}

/// The paths assigned to a service, its characteristics and their
/// descriptors, in declaration order.
pub struct ServicePaths {
    pub service_path: String,
    pub characteristics: Vec<CharacteristicPaths>,
}

/// Every entry records one of the three GATT object kinds.
pub open spec fn entries_gatt_kinds(entries: Seq<PathCoord>) -> bool {
    forall|k: int|
        0 <= k < entries.len() ==> match #[trigger] entries[k] {
            PathCoord::Service { .. } => true,
            PathCoord::Characteristic { .. } => true,
            PathCoord::Descriptor { .. } => true,
            _ => false,
        }
}

/// Every entry's counter lies below the registrar's next free index of its
/// kind.
pub open spec fn entries_bounded(entries: Seq<PathCoord>, si: int, ci: int, di: int) -> bool {
    forall|k: int|
        0 <= k < entries.len() ==> match #[trigger] entries[k] {
            PathCoord::Service { si: s } => s < si,
            PathCoord::Characteristic { ci: c, .. } => c < ci,
            PathCoord::Descriptor { di: d, .. } => d < di,
            _ => true,
        }
}

/// No coordinate is recorded twice.
pub open spec fn entries_distinct(entries: Seq<PathCoord>) -> bool {
    forall|k1: int, k2: int|
        0 <= k1 < k2 < entries.len() ==> #[trigger] entries[k1] != #[trigger] entries[k2]
}

/// The position a service's `i`th characteristic takes among the entries,
/// when the service entry itself sits at `base`.
pub open spec fn char_slot(base: int, chars: Seq<Characteristic>, i: int) -> int {
    base + 1 + i + descs_before(chars, i)
}

/// The position the `j`th descriptor of the `i`th characteristic takes
/// among the entries, when the service entry sits at `base`.
pub open spec fn desc_slot(base: int, chars: Seq<Characteristic>, i: int, j: int) -> int {
    base + 2 + i + descs_before(chars, i) + j
}

/// Whether a service's attributes still fit the four-digit counters.
pub open spec fn service_fits(g: Gatt, service: Service) -> bool {
    let chars = service.characteristics@;
    &&& g.service_index < 10000
    &&& g.characteristic_index + chars.len() <= 10000
    &&& g.descriptor_index + descs_before(chars, chars.len() as int) <= 10000
}

/// What a successful `add_service` did: counters advanced by the number of
/// attributes added, every attribute was recorded under the scheme's
/// coordinates, and the returned paths are exactly the scheme's paths.
pub open spec fn add_service_ok(oldg: Gatt, newg: Gatt, service: Service, p: ServicePaths) -> bool {
    let chars = service.characteristics@;
    let base = oldg.entries@.len() as int;
    let si = oldg.service_index;
    let ci = oldg.characteristic_index;
    let di = oldg.descriptor_index;
    let total = descs_before(chars, chars.len() as int);
    &&& !newg.registered
    &&& newg.service_index == si + 1
    &&& newg.characteristic_index == ci + chars.len()
    &&& newg.descriptor_index == di + total
    &&& p.service_path@ == service_path_spec(si as nat)
    &&& p.characteristics@.len() == chars.len()
    &&& (forall|i: int|
        0 <= i < chars.len() ==> (#[trigger] p.characteristics@[i]).path@
            == characteristic_path_spec(si as nat, (ci + i) as nat))
    &&& (forall|i: int|
        0 <= i < chars.len() ==> (#[trigger] p.characteristics@[i]).descriptors@.len()
            == chars[i].descriptors@.len())
    &&& (forall|i: int, j: int|
        0 <= i < chars.len() && 0 <= j < chars[i].descriptors@.len() ==> (
        #[trigger] p.characteristics@[i].descriptors@[j])@ == descriptor_path_spec(
            si as nat,
            (ci + i) as nat,
            (di + descs_before(chars, i) + j) as nat,
        ))
    &&& newg.entries@.len() == base + 1 + chars.len() + total
    &&& (forall|k: int| 0 <= k < base ==> #[trigger] newg.entries@[k] == oldg.entries@[k])
    &&& newg.entries@[base] == (PathCoord::Service { si })
    &&& (forall|i: int|
        0 <= i < chars.len() ==> newg.entries@[#[trigger] char_slot(base, chars, i)] == (
        PathCoord::Characteristic { si, ci: (ci + i) as u64 }))
    &&& (forall|i: int, j: int|
        0 <= i < chars.len() && 0 <= j < chars[i].descriptors@.len() ==> newg.entries@[
            #[trigger] desc_slot(base, chars, i, j)
        ] == (PathCoord::Descriptor {
            si,
            ci: (ci + i) as u64,
            di: (di + descs_before(chars, i) + j) as u64,
        }))
}

/// The registrar of the in-memory D-Bus object tree.  It numbers services,
/// characteristics and descriptors with monotonically increasing four-digit
/// counters, remembers every coordinate it handed out, and freezes the tree
/// once the application is registered with BlueZ.
pub struct Gatt {
    pub service_index: u64,
    pub characteristic_index: u64,
    pub descriptor_index: u64,
    pub registered: bool,
    pub entries: Ghost<Seq<PathCoord>>,
}

impl Gatt {
    /// The registrar's invariant: indices stay within the four-digit
    /// scheme, and the recorded coordinates are well formed, below the
    /// running indices, and pairwise distinct.
    pub open spec fn wf(self) -> bool {
        &&& self.service_index <= 10000
        &&& self.characteristic_index <= 10000
        &&& self.descriptor_index <= 10000
        &&& entries_gatt_kinds(self.entries@)
        &&& entries_bounded(
            self.entries@,
            self.service_index as int,
            self.characteristic_index as int,
            self.descriptor_index as int,
        )
        &&& forall|k: int| 0 <= k < self.entries@.len() ==> coord_wf(#[trigger] self.entries@[k])
        &&& entries_distinct(self.entries@)
    }

    pub fn new() -> (r: Gatt)
        ensures
            r.wf(),
            r.service_index == 0,
            r.characteristic_index == 0,
            r.descriptor_index == 0,
            !r.registered,
            r.entries@ =~= Seq::<PathCoord>::empty(),
    {
        Gatt {
            service_index: 0,
            characteristic_index: 0,
            descriptor_index: 0,
            registered: false,
            entries: Ghost(Seq::empty()),
        }
    }

    /// Freezes the tree for registration with BlueZ.  Registering twice
    /// without an unregistration in between is an invalid state.
    pub fn register(&mut self) -> (r: Result<(), Error>)
        requires
            old(self).wf(),
        ensures
            final(self).wf(),
            old(self).registered ==> r is Err && *final(self) == *old(self),
            !old(self).registered ==> r is Ok && *final(self) == (Gatt {
                registered: true,
                ..*old(self)
            }),
            r matches Err(e) ==> e.name@ == "InvalidState"@ && e.error_type == ErrorType::Bluez,
    {
        if self.registered {
            Err(invalid_state_error())
        } else {
            self.registered = true;
            Ok(())
        }
    }

    /// Thaws the tree again.  Unregistering while not registered is an
    /// invalid state.
    pub fn unregister(&mut self) -> (r: Result<(), Error>)
        requires
            old(self).wf(),
        ensures
            final(self).wf(),
            !old(self).registered ==> r is Err && *final(self) == *old(self),
            old(self).registered ==> r is Ok && *final(self) == (Gatt {
                registered: false,
                ..*old(self)
            }),
            r matches Err(e) ==> e.name@ == "InvalidState"@ && e.error_type == ErrorType::Bluez,
    {
        if !self.registered {
            Err(invalid_state_error())
        } else {
            self.registered = false;
            Ok(())
        }
    }

    /// Whether the tree is currently registered with BlueZ.
    pub fn is_registered(&self) -> (r: bool)
        ensures
            r == self.registered,
    {
        self.registered
    }

    /// Numbers a service, its characteristics and their descriptors in
    /// declaration order, records their coordinates, and returns the object
    /// path assigned to each.  Rejected once the tree is registered, and
    /// when an attribute would not fit the four-digit counters.
    pub fn add_service(&mut self, service: &Service) -> (r: Result<ServicePaths, Error>)
        requires
            old(self).wf(),
        ensures
            final(self).wf(),
            old(self).registered ==> (r matches Err(e) && e.name@ == "InvalidState"@
                && *final(self) == *old(self)),
            !old(self).registered && !service_fits(*old(self), *service) ==> (r matches Err(e)
                && e.name@ == "TooManyAttributes"@ && *final(self) == *old(self)),
            !old(self).registered && service_fits(*old(self), *service) ==> (r matches Ok(p)
                && add_service_ok(*old(self), *final(self), *service, p)),
    {
        broadcast use lemma_descs_before_mono_auto, lemma_descs_before_step_bound;

        if self.registered {
            return Err(invalid_state_error());
        }
        let ghost chars = service.characteristics@;
        let n = service.characteristics.len();
        if self.service_index >= 10000 {
            return Err(too_many_attributes_error());
        }
        if (n as u64) > 10000 - self.characteristic_index {
            return Err(too_many_attributes_error());
        }
        // First pass: the descriptors must fit the remaining budget.
        let ghost ci0_pre = self.characteristic_index;
        let budget: u64 = 10000 - self.descriptor_index;
        let mut total: u64 = 0;
        let mut k: usize = 0;
        while k < n
            invariant
                0 <= k <= n,
                n == chars.len(),
                chars == service.characteristics@,
                total == descs_before(chars, k as int),
                total <= budget,
                *self == *old(self),
                old(self).wf(),
                !self.registered,
                self.service_index < 10000,
                ci0_pre == self.characteristic_index,
                ci0_pre + n <= 10000,
                budget == 10000 - self.descriptor_index,
            decreases n - k,
        {
            let d = service.characteristics[k].descriptors.len();
            if (d as u64) > budget - total {
                proof {
                    lemma_descs_before_mono(chars, k as int + 1, n as int);
                }
                return Err(too_many_attributes_error());
            }
            total = total + (d as u64);
            k = k + 1;
        }
        // Second pass: assign paths and record every coordinate.
        let ghost oldg = *old(self);
        let ghost base = oldg.entries@.len() as int;
        let si0 = self.service_index;
        let ci0 = self.characteristic_index;
        let di0 = self.descriptor_index;
        let spath = service_path(si0);
        let ghost sprev = self.entries@;
        self.entries = Ghost(sprev.push(PathCoord::Service { si: si0 }));
        self.service_index = self.service_index + 1;
        proof {
            let new_coord = PathCoord::Service { si: si0 };
            assert(self.entries@ =~= sprev.push(new_coord));
            assert forall|k2: int| 0 <= k2 < sprev.len() implies self.entries@[k2]
                == sprev[k2] by {}
            assert(self.entries@[sprev.len() as int] == new_coord);
            assert forall|k2: int| 0 <= k2 < sprev.len() implies sprev[k2] != new_coord by {}
            assert(entries_distinct(self.entries@));
        }
        let mut characteristics: Vec<CharacteristicPaths> = Vec::new();
        let mut i: usize = 0;
        while i < n
            invariant
                0 <= i <= n,
                n == chars.len(),
                chars == service.characteristics@,
                spath@ == service_path_spec(si0 as nat),
                si0 == oldg.service_index,
                ci0 == oldg.characteristic_index,
                di0 == oldg.descriptor_index,
                si0 < 10000,
                ci0 + n <= 10000,
                di0 + descs_before(chars, n as int) <= 10000,
                base == oldg.entries@.len(),
                oldg.wf(),
                !self.registered,
                self.service_index == si0 + 1,
                self.characteristic_index == ci0 + i,
                self.descriptor_index == di0 + descs_before(chars, i as int),
                entries_gatt_kinds(self.entries@),
                entries_bounded(
                    self.entries@,
                    self.service_index as int,
                    self.characteristic_index as int,
                    self.descriptor_index as int,
                ),
                forall|k2: int|
                    0 <= k2 < self.entries@.len() ==> coord_wf(#[trigger] self.entries@[k2]),
                entries_distinct(self.entries@),
                self.entries@.len() == base + 1 + i + descs_before(chars, i as int),
                forall|k2: int| 0 <= k2 < base ==> #[trigger] self.entries@[k2] == oldg.entries@[k2],
                self.entries@[base] == (PathCoord::Service { si: si0 }),
                forall|i2: int|
                    0 <= i2 < i ==> self.entries@[#[trigger] char_slot(base, chars, i2)] == (
                    PathCoord::Characteristic { si: si0, ci: (ci0 + i2) as u64 }),
                forall|i2: int, j2: int|
                    0 <= i2 < i && 0 <= j2 < chars[i2].descriptors@.len() ==> self.entries@[
                        #[trigger] desc_slot(base, chars, i2, j2)
                    ] == (PathCoord::Descriptor {
                        si: si0,
                        ci: (ci0 + i2) as u64,
                        di: (di0 + descs_before(chars, i2) + j2) as u64,
                    }),
                characteristics@.len() == i,
                forall|i2: int|
                    0 <= i2 < i ==> (#[trigger] characteristics@[i2]).path@
                        == characteristic_path_spec(si0 as nat, (ci0 + i2) as nat),
                forall|i2: int|
                    0 <= i2 < i ==> (#[trigger] characteristics@[i2]).descriptors@.len()
                        == chars[i2].descriptors@.len(),
                forall|i2: int, j2: int|
                    0 <= i2 < i && 0 <= j2 < chars[i2].descriptors@.len() ==> (
                    #[trigger] characteristics@[i2].descriptors@[j2])@ == descriptor_path_spec(
                        si0 as nat,
                        (ci0 + i2) as nat,
                        (di0 + descs_before(chars, i2) + j2) as nat,
                    ),
            decreases n - i,
        {
            proof {
                lemma_descs_before_mono(chars, i as int + 1, n as int);
            }
            let cidx = self.characteristic_index;
            let cpath = characteristic_path(spath.as_str(), cidx);
            let ghost prev = self.entries@;
            self.entries = Ghost(prev.push(PathCoord::Characteristic { si: si0, ci: cidx }));
            self.characteristic_index = self.characteristic_index + 1;
            proof {
                let new_coord = PathCoord::Characteristic { si: si0, ci: cidx };
                assert(self.entries@ =~= prev.push(new_coord));
                assert forall|k2: int| 0 <= k2 < prev.len() implies self.entries@[k2]
                    == prev[k2] by {}
                assert(self.entries@[prev.len() as int] == new_coord);
                assert forall|k2: int| 0 <= k2 < prev.len() implies prev[k2] != new_coord by {}
                assert(entries_distinct(self.entries@));
                assert forall|i2: int| 0 <= i2 < i + 1 implies self.entries@[#[trigger] char_slot(
                    base,
                    chars,
                    i2,
                )] == (PathCoord::Characteristic { si: si0, ci: (ci0 + i2) as u64 }) by {
                    lemma_descs_before_mono(chars, i2, i as int);
                    if i2 < i {
                        assert(char_slot(base, chars, i2) < prev.len());
                        assert(self.entries@[char_slot(base, chars, i2)] == prev[char_slot(
                            base,
                            chars,
                            i2,
                        )]);
                    } else {
                        assert(char_slot(base, chars, i2) == prev.len() as int);
                    }
                }
                assert forall|i2: int, j2: int|
                    0 <= i2 < i && 0 <= j2 < chars[i2].descriptors@.len() implies self.entries@[
                    #[trigger] desc_slot(base, chars, i2, j2)
                ] == (PathCoord::Descriptor {
                    si: si0,
                    ci: (ci0 + i2) as u64,
                    di: (di0 + descs_before(chars, i2) + j2) as u64,
                }) by {
                    lemma_descs_before_mono(chars, i2 + 1, i as int);
                    assert(desc_slot(base, chars, i2, j2) < prev.len());
                    assert(self.entries@[desc_slot(base, chars, i2, j2)] == prev[desc_slot(
                        base,
                        chars,
                        i2,
                        j2,
                    )]);
                }
            }
            let descriptors = &service.characteristics[i].descriptors;
            let m = descriptors.len();
            let mut dpaths: Vec<String> = Vec::new();
            let mut j: usize = 0;
            while j < m
                invariant
                    0 <= j <= m,
                    0 <= i < n,
                    n == chars.len(),
                    chars == service.characteristics@,
                    m == chars[i as int].descriptors@.len(),
                    base == oldg.entries@.len(),
                    oldg.wf(),
                    cidx == ci0 + i,
                    cpath@ == characteristic_path_spec(si0 as nat, (ci0 + i) as nat),
                    si0 < 10000,
                    ci0 + n <= 10000,
                    di0 + descs_before(chars, n as int) <= 10000,
                    descs_before(chars, i as int + 1) == descs_before(chars, i as int) + m,
                    descs_before(chars, i as int + 1) <= descs_before(chars, n as int),
                    !self.registered,
                    self.service_index == si0 + 1,
                    self.characteristic_index == ci0 + i + 1,
                    self.descriptor_index == di0 + descs_before(chars, i as int) + j,
                    entries_gatt_kinds(self.entries@),
                    entries_bounded(
                        self.entries@,
                        self.service_index as int,
                        self.characteristic_index as int,
                        self.descriptor_index as int,
                    ),
                    forall|k2: int|
                        0 <= k2 < self.entries@.len() ==> coord_wf(#[trigger] self.entries@[k2]),
                    entries_distinct(self.entries@),
                    self.entries@.len() == base + 2 + i + descs_before(chars, i as int) + j,
                    forall|k2: int|
                        0 <= k2 < base ==> #[trigger] self.entries@[k2] == oldg.entries@[k2],
                    self.entries@[base] == (PathCoord::Service { si: si0 }),
                    forall|i2: int|
                        0 <= i2 < i + 1 ==> self.entries@[#[trigger] char_slot(base, chars, i2)]
                            == (PathCoord::Characteristic { si: si0, ci: (ci0 + i2) as u64 }),
                    forall|i2: int, j2: int|
                        0 <= i2 < i && 0 <= j2 < chars[i2].descriptors@.len() ==> self.entries@[
                            #[trigger] desc_slot(base, chars, i2, j2)
                        ] == (PathCoord::Descriptor {
                            si: si0,
                            ci: (ci0 + i2) as u64,
                            di: (di0 + descs_before(chars, i2) + j2) as u64,
                        }),
                    forall|j2: int|
                        0 <= j2 < j ==> self.entries@[
                            #[trigger] desc_slot(base, chars, i as int, j2)
                        ] == (PathCoord::Descriptor {
                            si: si0,
                            ci: (ci0 + i) as u64,
                            di: (di0 + descs_before(chars, i as int) + j2) as u64,
                        }),
                    dpaths@.len() == j,
                    forall|j2: int|
                        0 <= j2 < j ==> (#[trigger] dpaths@[j2])@ == descriptor_path_spec(
                            si0 as nat,
                            (ci0 + i) as nat,
                            (di0 + descs_before(chars, i as int) + j2) as nat,
                        ),
                decreases m - j,
            {
                let didx = self.descriptor_index;
                let dpath = descriptor_path(cpath.as_str(), didx);
                let ghost dprev = self.entries@;
                self.entries = Ghost(dprev.push(PathCoord::Descriptor { si: si0, ci: cidx, di: didx }));
                self.descriptor_index = self.descriptor_index + 1;
                dpaths.push(dpath);
                proof {
                    let new_coord = PathCoord::Descriptor { si: si0, ci: cidx, di: didx };
                    assert(self.entries@ =~= dprev.push(new_coord));
                    assert forall|k2: int| 0 <= k2 < dprev.len() implies self.entries@[k2]
                        == dprev[k2] by {}
                    assert(self.entries@[dprev.len() as int] == new_coord);
                    assert forall|k2: int| 0 <= k2 < dprev.len() implies dprev[k2]
                        != new_coord by {}
                    assert(entries_distinct(self.entries@));
                    assert forall|i2: int| 0 <= i2 < i + 1 implies self.entries@[
                        #[trigger] char_slot(base, chars, i2)
                    ] == (PathCoord::Characteristic { si: si0, ci: (ci0 + i2) as u64 }) by {
                        lemma_descs_before_mono(chars, i2, i as int);
                        assert(char_slot(base, chars, i2) < dprev.len());
                        vstd::seq::axiom_seq_push_index_different(
                            dprev,
                            new_coord,
                            char_slot(base, chars, i2),
                        );
                        assert(self.entries@[char_slot(base, chars, i2)] == dprev[char_slot(
                            base,
                            chars,
                            i2,
                        )]);
                    }
                    assert forall|i2: int, j2: int|
                        0 <= i2 < i && 0 <= j2 < chars[i2].descriptors@.len() implies self.entries@[
                        #[trigger] desc_slot(base, chars, i2, j2)
                    ] == (PathCoord::Descriptor {
                        si: si0,
                        ci: (ci0 + i2) as u64,
                        di: (di0 + descs_before(chars, i2) + j2) as u64,
                    }) by {
                        lemma_descs_before_mono(chars, i2 + 1, i as int);
                        assert(desc_slot(base, chars, i2, j2) < dprev.len());
                        vstd::seq::axiom_seq_push_index_different(
                            dprev,
                            new_coord,
                            desc_slot(base, chars, i2, j2),
                        );
                        assert(self.entries@[desc_slot(base, chars, i2, j2)] == dprev[desc_slot(
                            base,
                            chars,
                            i2,
                            j2,
                        )]);
                    }
                    assert forall|j2: int| 0 <= j2 < j + 1 implies self.entries@[
                        #[trigger] desc_slot(base, chars, i as int, j2)
                    ] == (PathCoord::Descriptor {
                        si: si0,
                        ci: (ci0 + i) as u64,
                        di: (di0 + descs_before(chars, i as int) + j2) as u64,
                    }) by {
                        if j2 < j {
                            assert(desc_slot(base, chars, i as int, j2) < dprev.len());
                            vstd::seq::axiom_seq_push_index_different(
                                dprev,
                                new_coord,
                                desc_slot(base, chars, i as int, j2),
                            );
                            assert(self.entries@[desc_slot(base, chars, i as int, j2)]
                                == dprev[desc_slot(base, chars, i as int, j2)]);
                        } else {
                            assert(desc_slot(base, chars, i as int, j2) == dprev.len() as int);
                        }
                    }
                }
                j = j + 1;
            }
            characteristics.push(CharacteristicPaths { path: cpath, descriptors: dpaths });
            i = i + 1;
            proof {
                assert forall|i2: int, j2: int|
                    0 <= i2 < i && 0 <= j2 < chars[i2].descriptors@.len() implies self.entries@[
                    #[trigger] desc_slot(base, chars, i2, j2)
                ] == (PathCoord::Descriptor {
                    si: si0,
                    ci: (ci0 + i2) as u64,
                    di: (di0 + descs_before(chars, i2) + j2) as u64,
                }) by {}
            }
        }
        Ok(ServicePaths { service_path: spath, characteristics })
    }
}

/// The error returned on an operation out of its lifecycle order.
pub fn invalid_state_error() -> (r: Error)
    ensures
        r.name@ == "InvalidState"@,
        r.error_type == ErrorType::Bluez,
{
    Error::new(
        String::from_str("InvalidState"),
        String::from_str("the operation is not allowed in the peripheral's current state"),
        ErrorType::Bluez,
    )
}

/// The error returned when a service would push an attribute counter past
/// the four-digit path scheme.
pub fn too_many_attributes_error() -> (r: Error)
    ensures
        r.name@ == "TooManyAttributes"@,
        r.error_type == ErrorType::Bluez,
{
    Error::new(
        String::from_str("TooManyAttributes"),
        String::from_str("the object-path numbering scheme holds at most 10000 of each attribute"),
        ErrorType::Bluez,
    )
}

/// Every coordinate the registrar has handed out carries a unique object
/// path: the paths of distinct recorded entries differ.
pub proof fn lemma_assigned_paths_unique(g: Gatt)
    requires
        g.wf(),
    ensures
        forall|k1: int, k2: int|
            0 <= k1 < k2 < g.entries@.len() ==> coord_path(#[trigger] g.entries@[k1])
                != coord_path(#[trigger] g.entries@[k2]),
{
    assert forall|k1: int, k2: int| 0 <= k1 < k2 < g.entries@.len() implies coord_path(
        #[trigger] g.entries@[k1],
    ) != coord_path(#[trigger] g.entries@[k2]) by {
        if coord_path(g.entries@[k1]) == coord_path(g.entries@[k2]) {
            lemma_coord_path_injective(g.entries@[k1], g.entries@[k2]);
        }
    }
}

} // verus!
