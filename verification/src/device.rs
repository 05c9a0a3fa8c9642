//! Platform-agnostic device descriptor.
//!
//! The platform input layer translates its device enumeration into a
//! [`DeviceDescriptor`] so the core never depends on platform device APIs.

use crate::axis::AxisInfo;
use crate::contact::{finding_of, unframed, Finding};
use crate::diagnostic::{Diagnostic, DiagnosticCode, DiagnosticLevel};
use crate::text::{decimal, decimal_text, join};
use std::collections::BTreeMap;
use vstd::std_specs::iter::IteratorSpec;
use vstd::prelude::*;

verus! {

broadcast use vstd::std_specs::btree::group_btree_axioms;

/// Opaque identifier for a device axis, assigned by the platform input
/// layer.
#[derive(Clone, Copy, Debug, PartialEq, Eq, Hash, PartialOrd, Ord, Structural)]
pub struct AxisId(u32);

impl View for AxisId {
    type V = u32;

    /// The raw id value.
    closed spec fn view(&self) -> u32 {
        self.0
    }
}

impl AxisId {
    /// Creates an axis id.
    pub fn new(id: u32) -> (r: AxisId)
        ensures
            r@ == id,
    {
        AxisId(id)
    }

    /// The raw id value.
    pub fn as_u32(self) -> (r: u32)
        ensures
            r == self@,
    {
        self.0
    }
}

/// A device as discovered by the platform input layer.
#[derive(Clone, Debug, PartialEq)]
pub struct DeviceDescriptor {
    /// Device name as reported by the platform.
    pub name: String,
    /// USB vendor id (0 when unknown).
    pub vendor_id: u16,
    /// USB product id (0 when unknown).
    pub product_id: u16,
    /// Axis descriptions keyed by the raw value of their [`AxisId`].
    pub axes: BTreeMap<u32, AxisInfo>,
    /// Number of Type-B slots, when the device exposes MT slots.
    pub slot_count: Option<u32>,
    /// Whether the device reports multitouch via the Type-B slot protocol.
    pub supports_type_b_mt: bool,
    /// Whether the device has dedicated physical button events.
    pub has_physical_buttons: bool,
}

/// The ids of the axes whose description is structurally invalid.
pub open spec fn invalid_axes(axes: Map<u32, AxisInfo>) -> Set<u32> {
    axes.dom().filter(|k: u32| !axes[k].spec_is_valid())
}

/// Whether an (id, axis) entry describes an invalid axis.
pub open spec fn entry_is_invalid(entry: (&u32, &AxisInfo)) -> bool {
    !entry.1.spec_is_valid()
}

/// The predicate selecting invalid (id, axis) entries.
pub open spec fn invalid_entry<'a>() -> spec_fn((&'a u32, &'a AxisInfo)) -> bool {
    |e: (&u32, &AxisInfo)| entry_is_invalid(e)
}

/// Filtering keeps a sequence free of duplicates.
proof fn lemma_filter_no_duplicates<A>(s: Seq<A>, p: spec_fn(A) -> bool)
    requires
        s.no_duplicates(),
    ensures
        s.filter(p).no_duplicates(),
        forall|x: A| #[trigger] s.filter(p).contains(x) ==> s.contains(x) && p(x),
    decreases s.len(),
{
    reveal(Seq::filter);
    if s.len() > 0 {
        let rest = s.drop_last();
        assert(rest.no_duplicates());
        lemma_filter_no_duplicates(rest, p);
        assert(s =~= rest.push(s.last()));
        rest.lemma_filter_push(s.last(), p);
        assert forall|x: A| #[trigger] s.filter(p).contains(x) implies s.contains(x) && p(x) by {
            if x != s.last() {
                assert(rest.filter(p).contains(x));
                let j = choose|j: int| 0 <= j < rest.len() && rest[j] == x;
                assert(s[j] == x);
            } else {
                assert(s[s.len() - 1] == x);
            }
        }
        if p(s.last()) {
            assert(!rest.contains(s.last())) by {
                if rest.contains(s.last()) {
                    let j = choose|j: int| 0 <= j < rest.len() && rest[j] == s.last();
                    assert(s[j] == s[s.len() - 1]);
                }
            }
            let fr = rest.filter(p);
            let l = s.last();
            assert(!fr.contains(l));
            assert forall|i: int, j: int|
                0 <= i < fr.push(l).len() && 0 <= j < fr.push(l).len() && i != j implies fr.push(
                l,
            )[i] != fr.push(l)[j] by {
                if i == fr.len() {
                    assert(fr.contains(fr[j]));
                } else if j == fr.len() {
                    assert(fr.contains(fr[i]));
                }
            }
        }
    }
}

/// Keeping only some entries of a sequence whose keys strictly increase
/// leaves keys that strictly increase.
proof fn lemma_filter_keeps_increasing(
    s: Seq<(&u32, &AxisInfo)>,
    p: spec_fn((&u32, &AxisInfo)) -> bool,
)
    requires
        forall|i: int, j: int| 0 <= i < j < s.len() ==> *s[i].0 < *s[j].0,
    ensures
        forall|i: int, j: int|
            0 <= i < j < s.filter(p).len() ==> *s.filter(p)[i].0 < *s.filter(p)[j].0,
    decreases s.len(),
{
    reveal(Seq::filter);
    if s.len() > 0 {
        let rest = s.drop_last();
        let last = s.last();
        lemma_filter_keeps_increasing(rest, p);
        assert(s =~= rest.push(last));
        rest.lemma_filter_push(last, p);
        let fr = rest.filter(p);
        if p(last) {
            assert forall|i: int| 0 <= i < fr.len() implies *fr[i].0 < *last.0 by {
                lemma_filtered_entry_source(rest, p, i);
                let j = choose|j: int| 0 <= j < rest.len() && rest[j] == fr[i];
                assert(s[j] == rest[j]);
            }
        }
    }
}

/// Each entry kept by a filter is an entry of the sequence.
proof fn lemma_filtered_entry_source<A>(s: Seq<A>, p: spec_fn(A) -> bool, i: int)
    requires
        0 <= i < s.filter(p).len(),
    ensures
        exists|j: int| 0 <= j < s.len() && s[j] == s.filter(p)[i],
    decreases s.len(),
{
    reveal(Seq::filter);
    let rest = s.drop_last();
    assert(s =~= rest.push(s.last()));
    rest.lemma_filter_push(s.last(), p);
    if i < rest.filter(p).len() {
        lemma_filtered_entry_source(rest, p, i);
        let j = choose|j: int| 0 <= j < rest.len() && rest[j] == rest.filter(p)[i];
        assert(s[j] == rest[j]);
    } else {
        assert(s[s.len() - 1] == s.filter(p)[i]);
    }
}

/// `u32` keys of a `BTreeMap` follow the integer order.
proof fn lemma_u32_keys_are_ordered()
    ensures
        vstd::std_specs::btree::key_obeys_cmp_spec::<u32>(),
{
    broadcast use vstd::laws_cmp::group_laws_cmp;

}

/// A key sequence that a `BTreeMap` walk yields in increasing order
/// strictly increases.
proof fn lemma_increasing_keys(keys: Seq<u32>)
    requires
        vstd::std_specs::btree::increasing_seq(keys),
    ensures
        forall|i: int, j: int| 0 <= i < j < keys.len() ==> keys[i] < keys[j],
{
    broadcast use vstd::laws_cmp::group_laws_cmp;

    assert(vstd::laws_cmp::obeys_cmp::<u32>());
    assert forall|i: int, j: int| 0 <= i < j < keys.len() implies keys[i] < keys[j] by {
        assert(vstd::std_specs::cmp::OrdSpec::cmp_spec(&keys[i], &keys[j]) is Less);
    }
}

/// Message for an axis whose description is structurally invalid.
pub open spec fn invalid_axis_text(axis: u32, info: AxisInfo) -> Seq<char> {
    "axis AxisId("@ + decimal_text(axis as int) + ") has invalid range min="@ + decimal_text(
        info.min as int,
    ) + " max="@ + decimal_text(info.max as int) + " (fuzz="@ + decimal_text(info.fuzz as int)
        + ", flat="@ + decimal_text(info.flat as int) + ")"@
}

/// What [`DeviceDescriptor::validate`] reports for an invalid axis.
pub open spec fn invalid_axis_finding(axis: u32, info: AxisInfo) -> Finding {
    (DiagnosticLevel::Error, DiagnosticCode::InvalidAxisRange, invalid_axis_text(axis, info))
}

/// Counting the invalid entries of an iteration over a map counts the
/// invalid axes of the map.
proof fn lemma_invalid_count(m: Map<u32, AxisInfo>, s: Seq<(&u32, &AxisInfo)>)
    requires
        m.dom().finite(),
        s.no_duplicates(),
        forall|i: int| 0 <= i < s.len() ==> #[trigger] m.contains_key(*s[i].0) && m[*s[i].0] == *s[i].1,
        forall|k: u32| #[trigger] m.contains_key(k) ==> s.contains((&k, &m[k])),
    ensures
        s.filter(invalid_entry()).len() == invalid_axes(m).len(),
        s.filter(invalid_entry()).map_values(|e: (&u32, &AxisInfo)| *e.0).to_set() == invalid_axes(m),
{
    let f = s.filter(invalid_entry());
    lemma_filter_no_duplicates(s, invalid_entry());
    let keys = f.map_values(|e: (&u32, &AxisInfo)| *e.0);
    assert(keys.no_duplicates()) by {
        assert forall|i: int, j: int| 0 <= i < keys.len() && 0 <= j < keys.len() && i != j implies keys[i] != keys[j] by {
            assert(f.contains(f[i]));
            assert(f.contains(f[j]));
            let a = choose|a: int| 0 <= a < s.len() && s[a] == f[i];
            let b = choose|b: int| 0 <= b < s.len() && s[b] == f[j];
            if keys[i] == keys[j] {
                assert(m.contains_key(*s[a].0));
                assert(m.contains_key(*s[b].0));
                assert(f[i] == f[j]);
            }
        }
    }
    assert(keys.to_set() =~= invalid_axes(m)) by {
        assert forall|k: u32| #[trigger] keys.to_set().contains(k) implies invalid_axes(m).contains(k) by {
            let i = choose|i: int| 0 <= i < keys.len() && keys[i] == k;
            assert(f.contains(f[i]));
            let a = choose|a: int| 0 <= a < s.len() && s[a] == f[i];
            assert(m.contains_key(*s[a].0));
        }
        assert forall|k: u32| #[trigger] invalid_axes(m).contains(k) implies keys.to_set().contains(k) by {
            assert(s.contains((&k, &m[k])));
            let a = choose|a: int| 0 <= a < s.len() && s[a] == (&k, &m[k]);
            s.lemma_filter_contains(invalid_entry(), a);
            let i = choose|i: int| 0 <= i < f.len() && f[i] == s[a];
            assert(keys[i] == k);
        }
    }
    keys.unique_seq_to_set();
}

/// Builds [`invalid_axis_text`].
fn invalid_axis_message(axis: u32, info: &AxisInfo) -> (r: String)
    ensures
        r@ == invalid_axis_text(axis, *info),
{
    let axis_text = decimal(axis as i128);
    let text = join("axis AxisId(", axis_text.as_str());
    let text = join(text.as_str(), ") has invalid range min=");
    let min_text = decimal(info.min as i128);
    let text = join(text.as_str(), min_text.as_str());
    let text = join(text.as_str(), " max=");
    let max_text = decimal(info.max as i128);
    let text = join(text.as_str(), max_text.as_str());
    let text = join(text.as_str(), " (fuzz=");
    let fuzz_text = decimal(info.fuzz as i128);
    let text = join(text.as_str(), fuzz_text.as_str());
    let text = join(text.as_str(), ", flat=");
    let flat_text = decimal(info.flat as i128);
    let text = join(text.as_str(), flat_text.as_str());
    join(text.as_str(), ")")
}

impl DeviceDescriptor {
    /// Creates a descriptor with no axes and no slots; the platform layer
    /// fills in the public fields as it discovers them.
    pub fn new(name: &str, vendor_id: u16, product_id: u16) -> (d: DeviceDescriptor)
        ensures
            d.name@ == name@,
            d.vendor_id == vendor_id,
            d.product_id == product_id,
            d.axes@ == Map::<u32, AxisInfo>::empty(),
            d.slot_count is None,
            !d.supports_type_b_mt,
            !d.has_physical_buttons,
    {
        DeviceDescriptor {
            name: name.to_owned(),
            vendor_id,
            product_id,
            axes: BTreeMap::new(),
            slot_count: None,
            supports_type_b_mt: false,
            has_physical_buttons: false,
        }
    }

    /// Structural validation, returning diagnostics instead of panicking:
    /// one `Error`/`InvalidAxisRange` diagnostic per invalid axis, in
    /// increasing axis order.
    pub fn validate(&self) -> (out: Vec<Diagnostic>)
        ensures
            out@.len() == invalid_axes(self.axes@).len(),
            unframed(out@),
            exists|ids: Seq<u32>|
                {
                    &&& #[trigger] ids.to_set() == invalid_axes(self.axes@)
                    &&& forall|i: int, j: int| 0 <= i < j < ids.len() ==> ids[i] < ids[j]
                    &&& out@.map_values(|d: Diagnostic| finding_of(d)) == ids.map_values(
                        |k: u32| invalid_axis_finding(k, self.axes@[k]),
                    )
                },
    {
        let mut out: Vec<Diagnostic> = Vec::new();
        for (axis, info) in it: self.axes.iter()
            invariant
                it.seq() == vstd::std_specs::btree::spec_btree_map_iter(&self.axes).remaining(),
                out@.map_values(|d: Diagnostic| finding_of(d)) == it.seq().take(
                    it.index() as int,
                ).filter(invalid_entry()).map_values(
                    |e: (&u32, &AxisInfo)| invalid_axis_finding(*e.0, *e.1),
                ),
                unframed(out@),
        {
            let ghost i = it.index() as int;
            let ghost entries = it.seq();
            let ghost before = out@;
            proof {
                assert(entries.take(i + 1) =~= entries.take(i).push(entries[i]));
                entries.take(i).lemma_filter_push(entries[i], invalid_entry());
            }
            if !info.is_valid() {
                let message = invalid_axis_message(*axis, info);
                out.push(
                    Diagnostic::new(
                        DiagnosticLevel::Error,
                        DiagnosticCode::InvalidAxisRange,
                        message.as_str(),
                    ),
                );
                proof {
                    assert(out@.map_values(|d: Diagnostic| finding_of(d)) =~= before.map_values(
                        |d: Diagnostic| finding_of(d),
                    ).push(invalid_axis_finding(*axis, *info)));
                }
            }
            proof {
                let g = |e: (&u32, &AxisInfo)| invalid_axis_finding(*e.0, *e.1);
                assert(out@.map_values(|d: Diagnostic| finding_of(d)) =~= entries.take(i + 1).filter(
                    invalid_entry(),
                ).map_values(g));
            }
        }
        proof {
            let m = self.axes@;
            let entries = vstd::std_specs::btree::spec_btree_map_iter(&self.axes).remaining();
            let kept = entries.filter(invalid_entry());
            let ids = kept.map_values(|e: (&u32, &AxisInfo)| *e.0);
            assert(entries.take(entries.len() as int) =~= entries);
            lemma_invalid_count(m, entries);
            lemma_u32_keys_are_ordered();
            let keys = entries.map_values(|e: (&u32, &AxisInfo)| *e.0);
            lemma_increasing_keys(keys);
            assert forall|i: int, j: int| 0 <= i < j < entries.len() implies *entries[i].0
                < *entries[j].0 by {
                assert(keys[i] == *entries[i].0);
                assert(keys[j] == *entries[j].0);
            }
            lemma_filter_keeps_increasing(entries, invalid_entry());
            assert forall|i: int| 0 <= i < kept.len() implies m[*kept[i].0] == *kept[i].1 by {
                lemma_filtered_entry_source(entries, invalid_entry(), i);
            }
            assert(out@.map_values(|d: Diagnostic| finding_of(d)) =~= ids.map_values(
                |k: u32| invalid_axis_finding(k, m[k]),
            ));
            assert(ids.to_set() == invalid_axes(m));
        }
        out
    }
}

/// Validation reports an axis exactly when the device has it and its range
/// is inverted or its fuzz or flat is negative.
pub proof fn lemma_invalid_axes_are_the_malformed_ones(axes: Map<u32, AxisInfo>, k: u32)
    ensures
        invalid_axes(axes).contains(k) <==> (axes.contains_key(k) && (axes[k].min > axes[k].max
            || axes[k].fuzz < 0 || axes[k].flat < 0)),
{
}

} // verus!
