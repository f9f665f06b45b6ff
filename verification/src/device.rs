//! Choosing the devices that a message goes to.

use vstd::prelude::*;
use vstd::string::*;
use crate::error::{describe_descriptor, descriptor_text, ErrorView, QmkError};

verus! {

/// The four values by which a class of devices is addressed.  Several
/// attached devices may carry the same four values.
#[derive(Clone, Copy, Debug, PartialEq, Eq, Structural)]
pub struct DeviceDescriptor {
    pub vendor_id: u16,
    pub product_id: u16,
    pub usage_page: u16,
    pub usage: u16,
}

impl DeviceDescriptor {
    /// A descriptor of the four values given.
    pub fn new(vendor_id: u16, product_id: u16, usage_page: u16, usage: u16) -> (d: Self)
        ensures
            d == (DeviceDescriptor { vendor_id, product_id, usage_page, usage }),
    {
        DeviceDescriptor { vendor_id, product_id, usage_page, usage }
    }

    /// Whether a device with the descriptor `other` is one of those that `self` asks for:
    /// all four values are equal.
    pub fn matches(&self, other: &DeviceDescriptor) -> (r: bool)
        ensures
            r == (*self == *other),
    {
        self.vendor_id == other.vendor_id && self.product_id == other.product_id
            && self.usage_page == other.usage_page && self.usage == other.usage
    }

    /// The four values as they are shown to the user.
    pub fn describe(&self) -> (s: String)
        ensures
            s@ == descriptor_text(self.vendor_id, self.product_id, self.usage_page, self.usage),
    {
        describe_descriptor(self.vendor_id, self.product_id, self.usage_page, self.usage)
    }
}

/// Whether `found` lists, in ascending order, exactly the positions at which `marked` is true.
pub open spec fn lists_marked(found: Seq<usize>, marked: Seq<bool>) -> bool {
    &&& forall|k: int|
        0 <= k < found.len() ==> (#[trigger] found[k]) < marked.len() && marked[found[k] as int]
    &&& forall|j: int, k: int| 0 <= j < k < found.len() ==> found[j] < found[k]
    &&& forall|i: int| 0 <= i < marked.len() && #[trigger] marked[i] ==> found.contains(i as usize)
}

/// Whether `found` lists, in ascending order, the positions of exactly those
/// of `devices` that equal `wanted`.
pub open spec fn is_selection(
    found: Seq<usize>,
    devices: Seq<DeviceDescriptor>,
    wanted: DeviceDescriptor,
) -> bool {
    &&& forall|k: int|
        0 <= k < found.len() ==> (#[trigger] found[k]) < devices.len() && devices[found[k] as int]
            == wanted
    &&& forall|j: int, k: int| 0 <= j < k < found.len() ==> found[j] < found[k]
    &&& forall|i: int|
        0 <= i < devices.len() && #[trigger] devices[i] == wanted ==> found.contains(i as usize)
}

/// What is said when devices matched and none of them could be opened.
pub open spec fn open_failure_text() -> Seq<char> {
    "Found matching HID devices, but could not open any of them for communication. \
Check permissions (udev rules on Linux)."@
}

/// Lists the positions at which `marked` is true, in ascending order.
fn marked_positions(marked: &[bool]) -> (found: Vec<usize>)
    ensures
        lists_marked(found@, marked@),
{
    let mut found: Vec<usize> = Vec::new();
    let mut i: usize = 0;
    while i < marked.len()
        invariant
            i <= marked@.len(),
            lists_marked(found@, marked@.take(i as int)),
        decreases marked.len() - i,
    {
        let ghost before = found@;
        if marked[i] {
            found.push(i);
            assert(found@.last() == i);
            assert forall|m: int|
                0 <= m < i + 1 && #[trigger] marked@.take(i + 1)[m] implies found@.contains(
                m as usize,
            ) by {
                if m < i {
                    assert(marked@.take(i as int)[m]);
                    let k = choose|k: int| 0 <= k < before.len() && before[k] == m as usize;
                    assert(found@[k] == m as usize);
                } else {
                    assert(found@[found@.len() - 1] == m as usize);
                }
            }
        } else {
            assert forall|m: int|
                0 <= m < i + 1 && #[trigger] marked@.take(i + 1)[m] implies found@.contains(
                m as usize,
            ) by {
                assert(marked@.take(i as int)[m]);
            }
        }
        assert forall|k: int| 0 <= k < found@.len() implies (#[trigger] found@[k]) < i + 1
            && marked@.take(i + 1)[found@[k] as int] by {
            if k < before.len() {
                assert(before[k] < i);
                assert(marked@.take(i as int)[before[k] as int]);
            }
        }
        i = i + 1;
    }
    assert(marked@.take(i as int) =~= marked@);
    found
}

/// Selects from the attached devices, given in the order of their
/// enumeration, those that `wanted` asks for, and returns their positions in
/// that order.  Where no device matches, the search fails with
/// `DeviceNotFound` and the four values that were asked for.
pub fn find_matching(devices: &[DeviceDescriptor], wanted: &DeviceDescriptor) -> (r: Result<
    Vec<usize>,
    QmkError,
>)
    ensures
        match r {
            Ok(found) => found@.len() > 0 && is_selection(found@, devices@, *wanted),
            Err(e) => {
                &&& forall|i: int| 0 <= i < devices@.len() ==> devices@[i] != *wanted
                &&& e@ == ErrorView::DeviceNotFound(
                    wanted.vendor_id,
                    wanted.product_id,
                    wanted.usage_page,
                    wanted.usage,
                )
            },
        },
{
    let mut marked: Vec<bool> = Vec::with_capacity(devices.len());
    let mut i: usize = 0;
    while i < devices.len()
        invariant
            i <= devices@.len(),
            marked@.len() == i,
            forall|k: int| 0 <= k < i ==> #[trigger] marked@[k] == (devices@[k] == *wanted),
        decreases devices.len() - i,
    {
        marked.push(wanted.matches(&devices[i]));
        i = i + 1;
    }
    let found = marked_positions(marked.as_slice());
    assert forall|m: int|
        0 <= m < devices@.len() && #[trigger] devices@[m] == *wanted implies found@.contains(
        m as usize,
    ) by {
        assert(marked@[m]);
    }
    if found.len() == 0 {
        assert forall|m: int| 0 <= m < devices@.len() implies devices@[m] != *wanted by {
            if devices@[m] == *wanted {
                assert(found@.contains(m as usize));
            }
        }
        Err(
            QmkError::DeviceNotFound(
                wanted.vendor_id,
                wanted.product_id,
                wanted.usage_page,
                wanted.usage,
            ),
        )
    } else {
        Ok(found)
    }
}

/// Judges the attempt to open the devices that matched.  `opened` says of
/// each, in the order in which they were found, whether it could be opened.
/// Those that could not are left out without a word; the positions of the
/// others come back in the same order.  Where none could be opened, the
/// attempt fails with `DeviceOpenError`.
pub fn select_opened(opened: &[bool]) -> (r: Result<Vec<usize>, QmkError>)
    ensures
        match r {
            Ok(kept) => kept@.len() > 0 && lists_marked(kept@, opened@),
            Err(e) => {
                &&& forall|i: int| 0 <= i < opened@.len() ==> !opened@[i]
                &&& e@ == ErrorView::DeviceOpenError(open_failure_text())
            },
        },
{
    let kept = marked_positions(opened);
    if kept.len() == 0 {
        assert forall|m: int| 0 <= m < opened@.len() implies !opened@[m] by {
            if opened@[m] {
                assert(kept@.contains(m as usize));
            }
        }
        Err(
            QmkError::DeviceOpenError(
                String::from_str(
                    "Found matching HID devices, but could not open any of them for communication. \
Check permissions (udev rules on Linux).",
                ),
            ),
        )
    } else {
        Ok(kept)
    }
}

/// The marks of a selection: for each device, whether it equals `wanted`.
pub open spec fn marks(devices: Seq<DeviceDescriptor>, wanted: DeviceDescriptor) -> Seq<bool> {
    Seq::new(devices.len(), |i: int| devices[i] == wanted)
}

/// A list of positions is determined by the marks: two lists that both list
/// the marked positions in ascending order are the same list.
pub proof fn lemma_marked_unique(a: Seq<usize>, b: Seq<usize>, marked: Seq<bool>)
    requires
        lists_marked(a, marked),
        lists_marked(b, marked),
    ensures
        a == b,
{
    lemma_marked_prefix(a, b, marked, a.len());
    lemma_marked_prefix(b, a, marked, b.len());
    if a.len() < b.len() {
        lemma_marked_prefix(b, a, marked, a.len());
        let x = b[a.len() as int];
        assert(marked[x as int]);
        let m = choose|m: int| 0 <= m < a.len() && a[m] == x;
        assert(b[m] == a[m]);
    }
    if b.len() < a.len() {
        lemma_marked_prefix(a, b, marked, b.len());
        let x = a[b.len() as int];
        assert(marked[x as int]);
        let m = choose|m: int| 0 <= m < b.len() && b[m] == x;
        assert(a[m] == b[m]);
    }
    assert(a =~= b);
}

/// Two lists of the marked positions agree on their first `n` places, as far as both reach.
proof fn lemma_marked_prefix(a: Seq<usize>, b: Seq<usize>, marked: Seq<bool>, n: nat)
    requires
        lists_marked(a, marked),
        lists_marked(b, marked),
    ensures
        forall|k: int| 0 <= k < n && k < a.len() && k < b.len() ==> a[k] == b[k],
    decreases n,
{
    if n > 0 {
        lemma_marked_prefix(a, b, marked, (n - 1) as nat);
        let k = n - 1;
        if k < a.len() && k < b.len() {
            let x = a[k];
            assert(marked[x as int]);
            let m = choose|m: int| 0 <= m < b.len() && b[m] == x;
            if m < k {
                assert(a[m] == b[m]);
            }
            let y = b[k];
            assert(marked[y as int]);
            let p = choose|p: int| 0 <= p < a.len() && a[p] == y;
            if p < k {
                assert(b[p] == a[p]);
            }
            assert(m >= k && p >= k);
            if m > k {
                assert(b[k] < b[m]);
            }
            if p > k {
                assert(a[k] < a[p]);
            }
        }
    }
}

/// A selection is determined by the devices and the descriptor: two lists
/// that both are selections are the same list.
pub proof fn lemma_selection_unique(
    a: Seq<usize>,
    b: Seq<usize>,
    devices: Seq<DeviceDescriptor>,
    wanted: DeviceDescriptor,
)
    requires
        is_selection(a, devices, wanted),
        is_selection(b, devices, wanted),
    ensures
        a == b,
{
    let marked = marks(devices, wanted);
    assert forall|i: int| 0 <= i < marked.len() && #[trigger] marked[i] implies a.contains(
        i as usize,
    ) && b.contains(i as usize) by {
        assert(devices[i] == wanted);
    }
    lemma_marked_unique(a, b, marked);
}

} // verus!
