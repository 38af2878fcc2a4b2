//! The library of captures: its order and its labels.
use vstd::prelude::*;

use crate::replay::filter_none;
use crate::text::{ends_in, ends_with};

verus! {

/// An entry of the captures directory.
pub struct LibraryItem {
    /// Where the entry stands in the directory scan it comes from.
    pub slot: usize,
    /// The bytes of the file name, by which the entries are ordered.
    pub name: Vec<u8>,
    /// The file name as it is shown.
    pub file_name: String,
}

/// What a [`LibraryItem`] holds.
#[verifier::ext_equal]
pub struct ItemView {
    pub slot: usize,
    pub name: Seq<u8>,
    pub file_name: Seq<char>,
}

impl View for LibraryItem {
    type V = ItemView;

    open spec fn view(&self) -> ItemView {
        ItemView { slot: self.slot, name: self.name@, file_name: self.file_name@ }
    }
}

/// What the items of a list hold.
pub open spec fn item_views(items: Seq<LibraryItem>) -> Seq<ItemView> {
    items.map_values(|item: LibraryItem| item@)
}

/// `a` comes before `b` in the byte-wise lexicographic order.
pub open spec fn bytes_less(a: Seq<u8>, b: Seq<u8>) -> bool
    decreases a.len(),
{
    if b.len() == 0 {
        false
    } else if a.len() == 0 {
        true
    } else if a[0] != b[0] {
        a[0] < b[0]
    } else {
        bytes_less(a.drop_first(), b.drop_first())
    }
}

/// Whether `a` comes before `b` in the byte-wise lexicographic order.
fn is_less(a: &Vec<u8>, b: &Vec<u8>) -> (less: bool)
    ensures
        less == bytes_less(a@, b@),
{
    let mut i: usize = 0;
    assert(a@.skip(0) =~= a@);
    assert(b@.skip(0) =~= b@);
    while i < a.len() && i < b.len()
        invariant
            i <= a@.len(),
            i <= b@.len(),
            bytes_less(a@, b@) == bytes_less(a@.skip(i as int), b@.skip(i as int)),
        decreases a@.len() - i,
    {
        if a[i] != b[i] {
            return a[i] < b[i];
        }
        assert(a@.skip(i as int).drop_first() =~= a@.skip(i + 1));
        assert(b@.skip(i as int).drop_first() =~= b@.skip(i + 1));
        i += 1;
    }
    i < b.len()
}

/// The byte-wise order is a strict total order.
pub proof fn bytes_order_is_strict_and_total(a: Seq<u8>, b: Seq<u8>, c: Seq<u8>)
    ensures
        !bytes_less(a, a),
        bytes_less(a, b) && bytes_less(b, c) ==> bytes_less(a, c),
        a == b || bytes_less(a, b) || bytes_less(b, a),
        !(bytes_less(a, b) && bytes_less(b, a)),
        bytes_less(a, c) ==> bytes_less(a, b) || bytes_less(b, c),
    decreases a.len() + b.len() + c.len(),
{
    if a.len() > 0 && b.len() > 0 && c.len() > 0 {
        bytes_order_is_strict_and_total(a.drop_first(), b.drop_first(), c.drop_first());
        if a.drop_first() == b.drop_first() && a[0] == b[0] {
            assert(a =~= seq![a[0]] + a.drop_first());
            assert(b =~= seq![b[0]] + b.drop_first());
        }
    } else if a.len() > 0 && b.len() > 0 {
        bytes_order_is_strict_and_total(a.drop_first(), b.drop_first(), c);
        if a.drop_first() == b.drop_first() && a[0] == b[0] {
            assert(a =~= seq![a[0]] + a.drop_first());
            assert(b =~= seq![b[0]] + b.drop_first());
        }
    } else if a.len() > 0 {
        bytes_order_is_strict_and_total(a.drop_first(), b, c);
    } else if b.len() == 0 {
        assert(a =~= b);
    }
}

/// `item` put into `items` before the trailing items with lesser names.
pub open spec fn placed(items: Seq<ItemView>, item: ItemView) -> Seq<ItemView>
    decreases items.len(),
{
    if items.len() > 0 && bytes_less(items.last().name, item.name) {
        placed(items.drop_last(), item).push(items.last())
    } else {
        items.push(item)
    }
}

/// The entries in descending order of their names; entries of one name keep their order.
pub open spec fn listing(entries: Seq<ItemView>) -> Seq<ItemView>
    decreases entries.len(),
{
    if entries.len() == 0 {
        Seq::empty()
    } else {
        placed(listing(entries.drop_last()), entries.last())
    }
}

/// No item stands before one with a greater name.
pub open spec fn descending(items: Seq<ItemView>) -> bool {
    forall|i: int, j: int|
        0 <= i < j < items.len() ==> !bytes_less(#[trigger] items[i].name, #[trigger] items[j].name)
}

/// `item` goes to the position that parts the greater or equal names from the lesser ones.
proof fn placed_at(items: Seq<ItemView>, item: ItemView, at: int)
    requires
        0 <= at <= items.len(),
        forall|i: int| 0 <= i < at ==> !bytes_less(#[trigger] items[i].name, item.name),
        forall|i: int| at <= i < items.len() ==> bytes_less(#[trigger] items[i].name, item.name),
    ensures
        placed(items, item) == items.insert(at, item),
    decreases items.len(),
{
    if at < items.len() {
        placed_at(items.drop_last(), item, at);
        assert(items.drop_last().insert(at, item).push(items.last()) =~= items.insert(at, item));
    } else {
        if items.len() > 0 {
            assert(!bytes_less(items[items.len() - 1].name, item.name));
        }
        assert(items.push(item) =~= items.insert(at, item));
    }
}

/// In a descending list there is a position that parts the names below `name` from the rest.
proof fn placing_point(items: Seq<ItemView>, item: ItemView) -> (at: int)
    requires
        descending(items),
    ensures
        0 <= at <= items.len(),
        forall|i: int| 0 <= i < at ==> !bytes_less(#[trigger] items[i].name, item.name),
        forall|i: int| at <= i < items.len() ==> bytes_less(#[trigger] items[i].name, item.name),
    decreases items.len(),
{
    if items.len() > 0 && bytes_less(items.last().name, item.name) {
        let at = placing_point(items.drop_last(), item);
        assert forall|i: int| 0 <= i < at implies !bytes_less(#[trigger] items[i].name, item.name) by {
            assert(items[i] == items.drop_last()[i]);
        }
        assert forall|i: int| at <= i < items.len() implies bytes_less(
            #[trigger] items[i].name,
            item.name,
        ) by {
            if i < items.len() - 1 {
                assert(items[i] == items.drop_last()[i]);
            }
        }
        at
    } else {
        assert forall|i: int| 0 <= i < items.len() implies !bytes_less(
            #[trigger] items[i].name,
            item.name,
        ) by {
            let last = items[items.len() - 1];
            if i < items.len() - 1 {
                assert(!bytes_less(items[i].name, last.name));
            }
            bytes_order_is_strict_and_total(items[i].name, last.name, item.name);
        }
        items.len() as int
    }
}

/// Placing an item keeps a list descending.
proof fn placing_keeps_descending(items: Seq<ItemView>, item: ItemView)
    requires
        descending(items),
    ensures
        descending(placed(items, item)),
{
    let at = placing_point(items, item);
    placed_at(items, item, at);
    let result = items.insert(at, item);
    assert forall|i: int, j: int| 0 <= i < j < result.len() implies !bytes_less(
        #[trigger] result[i].name,
        #[trigger] result[j].name,
    ) by {
        let a = if i < at { items[i] } else if i == at { item } else { items[i - 1] };
        let b = if j < at { items[j] } else if j == at { item } else { items[j - 1] };
        assert(result[i] == a && result[j] == b);
        bytes_order_is_strict_and_total(a.name, b.name, a.name);
    }
}

/// The library is listed in descending order of the file names.
pub proof fn listing_is_descending(entries: Seq<ItemView>)
    ensures
        descending(listing(entries)),
    decreases entries.len(),
{
    if entries.len() > 0 {
        listing_is_descending(entries.drop_last());
        placing_keeps_descending(listing(entries.drop_last()), entries.last());
    }
}

/// The library lists every entry of the directory as often as it was scanned, and no other.
pub proof fn listing_holds_the_entries(entries: Seq<ItemView>)
    ensures
        listing(entries).to_multiset() == entries.to_multiset(),
        listing(entries).len() == entries.len(),
    decreases entries.len(),
{
    broadcast use vstd::seq_lib::group_to_multiset_ensures;

    if entries.len() > 0 {
        let before = entries.drop_last();
        let item = entries.last();
        listing_holds_the_entries(before);
        listing_is_descending(before);
        let at = placing_point(listing(before), item);
        placed_at(listing(before), item, at);
        assert(entries =~= before.push(item));
        assert(listing(before).insert(at, item).to_multiset() =~= listing(before).to_multiset().insert(item));
    } else {
        assert(listing(entries) =~= entries);
    }
}

/// Entries of one name are listed in the order in which they were scanned.
pub proof fn listing_is_stable(entries: Seq<ItemView>, name: Seq<u8>)
    ensures
        listing(entries).filter(|item: ItemView| item.name == name) == entries.filter(
            |item: ItemView| item.name == name,
        ),
    decreases entries.len(),
{
    let same = |item: ItemView| item.name == name;
    if entries.len() > 0 {
        let before = entries.drop_last();
        let item = entries.last();
        let listed = listing(before);
        listing_is_stable(before, name);
        listing_is_descending(before);
        let at = placing_point(listed, item);
        placed_at(listed, item, at);
        let upper = listed.take(at);
        let lower = listed.skip(at);
        let single = seq![item];
        assert(listed =~= upper + lower);
        assert(listed.insert(at, item) =~= (upper + single) + lower);
        assert(entries =~= before + single);
        Seq::filter_distributes_over_add(upper, lower, same);
        Seq::filter_distributes_over_add(upper + single, lower, same);
        Seq::filter_distributes_over_add(upper, single, same);
        Seq::filter_distributes_over_add(before, single, same);
        if item.name == name {
            assert forall|i: int| 0 <= i < lower.len() implies !same(#[trigger] lower[i]) by {
                assert(lower[i] == listed[at + i]);
                bytes_order_is_strict_and_total(name, name, name);
            }
            filter_none(lower, same);
        } else {
            filter_none(single, same);
        }
        assert(listing(entries).filter(same) =~= entries.filter(same));
    }
}

/// Listing a descending list changes nothing; so listing twice is listing once.
pub proof fn listing_is_idempotent(items: Seq<ItemView>)
    ensures
        descending(items) ==> listing(items) == items,
        listing(listing(items)) == listing(items),
    decreases items.len(),
{
    if descending(items) {
        descending_lists_as_is(items);
    }
    listing_is_descending(items);
    descending_lists_as_is(listing(items));
}

proof fn descending_lists_as_is(items: Seq<ItemView>)
    requires
        descending(items),
    ensures
        listing(items) == items,
    decreases items.len(),
{
    if items.len() > 0 {
        let before = items.drop_last();
        assert forall|i: int, j: int| 0 <= i < j < before.len() implies !bytes_less(
            #[trigger] before[i].name,
            #[trigger] before[j].name,
        ) by {
            assert(before[i] == items[i] && before[j] == items[j]);
        }
        descending_lists_as_is(before);
        if before.len() > 0 {
            assert(before.last() == items[items.len() - 2]);
            assert(!bytes_less(items[items.len() - 2].name, items[items.len() - 1].name));
        }
        assert(before.push(items.last()) =~= items);
    } else {
        assert(listing(items) =~= items);
    }
}

/// No two items have the same name.
pub open spec fn distinct_names(items: Seq<ItemView>) -> bool {
    forall|i: int, j: int|
        0 <= i < j < items.len() ==> #[trigger] items[i].name != #[trigger] items[j].name
}

/// What the library shows of each item: its name, as it is and as it is displayed. Where the
/// item stood in the scan is left out.
pub open spec fn shown(items: Seq<ItemView>) -> Seq<(Seq<u8>, Seq<char>)> {
    items.map_values(|item: ItemView| (item.name, item.file_name))
}

/// The listing does not depend on the order in which the directory was scanned, as long as
/// no two files have the same name: two scans that found the same files show the same list.
pub proof fn listing_ignores_scan_order(a: Seq<ItemView>, b: Seq<ItemView>)
    requires
        shown(a).to_multiset() == shown(b).to_multiset(),
        distinct_names(a),
    ensures
        shown(listing(a)) == shown(listing(b)),
{
    listing_is_descending(a);
    listing_is_descending(b);
    listing_shows_the_entries(a);
    listing_shows_the_entries(b);
    let pool = shown(a);
    assert forall|p: (Seq<u8>, Seq<char>), q: (Seq<u8>, Seq<char>)|
        #[trigger] pool.contains(p) && #[trigger] pool.contains(q) && p.0 == q.0 implies p == q by {
        let i = pool.index_of(p);
        let j = pool.index_of(q);
        if i < j {
            assert(a[i].name != a[j].name);
        } else if j < i {
            assert(a[j].name != a[i].name);
        }
    }
    shown_is_descending(listing(a));
    shown_is_descending(listing(b));
    same_files_same_order(shown(listing(a)), shown(listing(b)), pool);
}

/// No name stands before a greater one.
spec fn names_descend(files: Seq<(Seq<u8>, Seq<char>)>) -> bool {
    forall|i: int, j: int|
        0 <= i < j < files.len() ==> !bytes_less(#[trigger] files[i].0, #[trigger] files[j].0)
}

proof fn shown_is_descending(items: Seq<ItemView>)
    requires
        descending(items),
    ensures
        names_descend(shown(items)),
{
    assert forall|i: int, j: int| 0 <= i < j < shown(items).len() implies !bytes_less(
        #[trigger] shown(items)[i].0,
        #[trigger] shown(items)[j].0,
    ) by {
        assert(!bytes_less(items[i].name, items[j].name));
    }
}

/// The listing shows every file that was scanned as often as it was, and no other.
proof fn listing_shows_the_entries(entries: Seq<ItemView>)
    ensures
        shown(listing(entries)).to_multiset() == shown(entries).to_multiset(),
    decreases entries.len(),
{
    broadcast use vstd::seq_lib::group_to_multiset_ensures;

    if entries.len() > 0 {
        let before = entries.drop_last();
        let item = entries.last();
        let file = (item.name, item.file_name);
        let listed = listing(before);
        listing_shows_the_entries(before);
        listing_is_descending(before);
        let at = placing_point(listed, item);
        placed_at(listed, item, at);
        assert(shown(entries) =~= shown(before).push(file));
        assert(shown(listed.insert(at, item)) =~= shown(listed).insert(at, file));
        assert(shown(listed).insert(at, file).to_multiset() =~= shown(listed).to_multiset().insert(
            file,
        ));
    } else {
        assert(listing(entries) =~= entries);
    }
}

/// Two descending lists of the same files are equal, where a name belongs to one file only.
proof fn same_files_same_order(
    x: Seq<(Seq<u8>, Seq<char>)>,
    y: Seq<(Seq<u8>, Seq<char>)>,
    pool: Seq<(Seq<u8>, Seq<char>)>,
)
    requires
        names_descend(x),
        names_descend(y),
        x.to_multiset() == y.to_multiset(),
        x.to_multiset().subset_of(pool.to_multiset()),
        forall|p: (Seq<u8>, Seq<char>), q: (Seq<u8>, Seq<char>)|
            #[trigger] pool.contains(p) && #[trigger] pool.contains(q) && p.0 == q.0 ==> p == q,
    ensures
        x == y,
    decreases x.len(),
{
    broadcast use vstd::seq_lib::group_to_multiset_ensures;

    assert(x.len() == x.to_multiset().len());
    assert(y.len() == y.to_multiset().len());
    if x.len() > 0 {
        let p = x.last();
        let q = y.last();
        assert(x.contains(p));
        assert(y.contains(q));
        assert(x.to_multiset().count(p) > 0);
        assert(y.to_multiset().count(q) > 0);
        assert(y.contains(p));
        assert(x.contains(q));
        assert(pool.contains(p));
        assert(pool.contains(q));
        let i = x.index_of(q);
        let j = y.index_of(p);
        assert(i < x.len() - 1 ==> !bytes_less(x[i].0, x[x.len() - 1].0));
        assert(j < y.len() - 1 ==> !bytes_less(y[j].0, y[y.len() - 1].0));
        bytes_order_is_strict_and_total(p.0, q.0, p.0);
        assert(p == q);
        let x1 = x.drop_last();
        let y1 = y.drop_last();
        assert(x =~= x1.push(p));
        assert(y =~= y1.push(p));
        assert(x1.to_multiset() =~= x.to_multiset().remove(p));
        assert(y1.to_multiset() =~= y.to_multiset().remove(p));
        assert(x1.to_multiset().subset_of(pool.to_multiset()));
        assert(names_descend(x1)) by {
            assert(forall|k: int| 0 <= k < x1.len() ==> #[trigger] x1[k] == x[k]);
        }
        assert(names_descend(y1)) by {
            assert(forall|k: int| 0 <= k < y1.len() ==> #[trigger] y1[k] == y[k]);
        }
        same_files_same_order(x1, y1, pool);
    } else {
        assert(x =~= y);
    }
}

/// Puts `item` into a descending list, behind the items of its own name.
fn place(items: &mut Vec<LibraryItem>, item: LibraryItem)
    requires
        descending(item_views(old(items)@)),
    ensures
        item_views(final(items)@) == placed(item_views(old(items)@), item@),
{
    let ghost views = item_views(items@);
    let mut low: usize = 0;
    let mut high: usize = items.len();
    while low < high
        invariant
            views == item_views(items@),
            descending(views),
            low <= high <= items@.len(),
            forall|i: int| 0 <= i < low ==> !bytes_less(#[trigger] views[i].name, item@.name),
            forall|i: int| high <= i < views.len() ==> bytes_less(#[trigger] views[i].name, item@.name),
        decreases high - low,
    {
        let mid: usize = low + (high - low) / 2;
        if is_less(&items[mid].name, &item.name) {
            proof {
                assert(views[mid as int].name == items@[mid as int].name@);
                assert forall|i: int| mid <= i < views.len() implies bytes_less(
                    #[trigger] views[i].name,
                    item@.name,
                ) by {
                    if i > mid {
                        assert(!bytes_less(views[mid as int].name, views[i].name));
                    }
                    bytes_order_is_strict_and_total(views[mid as int].name, views[i].name, item@.name);
                }
            }
            high = mid;
        } else {
            proof {
                assert(views[mid as int].name == items@[mid as int].name@);
                assert forall|i: int| 0 <= i < mid + 1 implies !bytes_less(
                    #[trigger] views[i].name,
                    item@.name,
                ) by {
                    if i < mid {
                        assert(!bytes_less(views[i].name, views[mid as int].name));
                    }
                    bytes_order_is_strict_and_total(views[i].name, views[mid as int].name, item@.name);
                }
            }
            low = mid + 1;
        }
    }
    proof {
        placed_at(views, item@, low as int);
    }
    let ghost inserted = item@;
    items.insert(low, item);
    assert(item_views(items@) =~= views.insert(low as int, inserted));
}

/// Puts the entries of a directory scan into the order in which the library lists them.
pub fn arrange(entries: Vec<LibraryItem>) -> (items: Vec<LibraryItem>)
    ensures
        item_views(items@) == listing(item_views(entries@)),
{
    let ghost all = item_views(entries@);
    let mut items: Vec<LibraryItem> = Vec::new();
    assert(item_views(items@) =~= listing(all.take(0)));
    for entry in it: entries
        invariant
            item_views(it.seq()) == all,
            item_views(items@) == listing(all.take(it.index() as int)),
    {
        proof {
            let i = it.index() as int;
            listing_is_descending(all.take(i));
            assert(all[i] == entry@);
            assert(all.take(i + 1).drop_last() =~= all.take(i));
            assert(all.take(i + 1).last() == entry@);
        }
        place(&mut items, entry);
    }
    assert(all.take(all.len() as int) =~= all);
    items
}

/// The label of a capture: clips and images are told apart by the extension.
pub open spec fn capture_label(file_name: Seq<char>) -> Seq<char> {
    if ends_in(file_name, ".mp4"@) {
        "🎬 [MP4 Clip] "@ + file_name
    } else {
        "🖼 [Image] "@ + file_name
    }
}

impl LibraryItem {
    /// The label under which the library shows the item.
    pub fn label(&self) -> (label: String)
        ensures
            label@ == capture_label(self@.file_name),
    {
        let prefix = if ends_with(self.file_name.as_str(), ".mp4") {
            "🎬 [MP4 Clip] "
        } else {
            "🖼 [Image] "
        };
        prefix.to_owned().concat(self.file_name.as_str())
    }
}

} // verus!
