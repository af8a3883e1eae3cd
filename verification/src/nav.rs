//! Ordered, circular navigation over the sibling image paths of the current
//! directory: a lexicographically sorted list of paths and the index of the
//! image being shown.  Advancing wraps around unconditionally; the caller
//! commits a new index only after the image at it actually loaded.

use vstd::prelude::*;

verus! {

/// Which neighbour of the current image to move to.
#[derive(Clone, Copy, PartialEq, Eq, Structural, Debug)]
pub enum NavDirection {
    Next,
    Prev,
}

/// Byte-wise lexicographic order on paths, the order the list is kept in.
pub open spec fn lex_le(a: Seq<u8>, b: Seq<u8>) -> bool
    decreases a.len(),
{
    if a.len() == 0 {
        true
    } else if b.len() == 0 {
        false
    } else if a[0] < b[0] {
        true
    } else if a[0] > b[0] {
        false
    } else {
        lex_le(a.skip(1), b.skip(1))
    }
}

/// The lexicographic order is total.
pub proof fn lemma_lex_total(a: Seq<u8>, b: Seq<u8>)
    ensures
        lex_le(a, b) || lex_le(b, a),
    decreases a.len(),
{
    if a.len() > 0 && b.len() > 0 && a[0] == b[0] {
        lemma_lex_total(a.skip(1), b.skip(1));
    }
}

/// The lexicographic order is transitive.
pub proof fn lemma_lex_trans(a: Seq<u8>, b: Seq<u8>, c: Seq<u8>)
    requires
        lex_le(a, b),
        lex_le(b, c),
    ensures
        lex_le(a, c),
    decreases a.len(),
{
    if a.len() > 0 && b.len() > 0 && c.len() > 0 && a[0] == b[0] && b[0] == c[0] {
        lemma_lex_trans(a.skip(1), b.skip(1), c.skip(1));
    }
}

/// Compare two paths in the lexicographic byte order.
pub fn lex_le_bytes(a: &Vec<u8>, b: &Vec<u8>) -> (r: bool)
    ensures
        r == lex_le(a@, b@),
{
    proof {
        assert(a@.skip(0) =~= a@);
        assert(b@.skip(0) =~= b@);
    }
    let mut i: usize = 0;
    loop
        invariant
            i <= a@.len(),
            i <= b@.len(),
            lex_le(a@, b@) == lex_le(a@.skip(i as int), b@.skip(i as int)),
        decreases a@.len() - i,
    {
        if i >= a.len() {
            return true;
        }
        if i >= b.len() {
            return false;
        }
        let x = a[i];
        let y = b[i];
        if x < y {
            return true;
        }
        if x > y {
            return false;
        }
        proof {
            assert(a@.skip(i as int).skip(1) =~= a@.skip(i as int + 1));
            assert(b@.skip(i as int).skip(1) =~= b@.skip(i as int + 1));
        }
        i = i + 1;
    }
}

/// Whether two paths hold the same bytes.
pub fn bytes_equal(a: &Vec<u8>, b: &Vec<u8>) -> (r: bool)
    ensures
        r == (a@ == b@),
{
    if a.len() != b.len() {
        return false;
    }
    let mut i: usize = 0;
    while i < a.len()
        invariant
            i <= a@.len(),
            a@.len() == b@.len(),
            forall|k: int| 0 <= k < i ==> a@[k] == b@[k],
        decreases a@.len() - i,
    {
        if a[i] != b[i] {
            return false;
        }
        i = i + 1;
    }
    proof {
        assert(a@ =~= b@);
    }
    true
}

/// A run of paths in lexicographic order.
pub open spec fn entries_sorted(s: Seq<Vec<u8>>) -> bool {
    forall|i: int, j: int| 0 <= i < j < s.len() ==> lex_le(#[trigger] s[i]@, #[trigger] s[j]@)
}

/// The byte strings of a run of paths, the level contracts are stated at
/// (two distinct `Vec`s holding the same bytes are the same path).
pub open spec fn paths_view(s: Seq<Vec<u8>>) -> Seq<Seq<u8>> {
    Seq::new(s.len(), |i: int| s[i]@)
}

/// Sort paths lexicographically by insertion, keeping the multiset of
/// entries.
fn sort_paths(v: &mut Vec<Vec<u8>>)
    ensures
        entries_sorted(final(v)@),
        paths_view(final(v)@).to_multiset() == paths_view(old(v)@).to_multiset(),
        final(v)@.len() == old(v)@.len(),
{
    broadcast use vstd::seq_lib::group_to_multiset_ensures;
    broadcast use vstd::multiset::group_multiset_axioms;

    let ghost orig = v@;
    if v.len() <= 1 {
        return ;
    }
    let mut i: usize = 1;
    while i < v.len()
        invariant
            1 <= i,
            i <= v@.len() || v@.len() < 1,
            entries_sorted(v@.take(i as int)),
            paths_view(v@).to_multiset() == paths_view(orig).to_multiset(),
            v@.len() == orig.len(),
        decreases v@.len() - i,
    {
        let ghost prev = v@;
        let x = v.remove(i);
        let ghost mid = v@;
        proof {
            prev.remove_ensures(i as int);
            paths_view(prev).remove_ensures(i as int);
            assert(mid.take(i as int) =~= prev.take(i as int));
            assert(paths_view(mid) =~= paths_view(prev).remove(i as int));
        }
        let mut j: usize = 0;
        while j < i && lex_le_bytes(&v[j], &x)
            invariant
                j <= i,
                i < prev.len(),
                v@ == mid,
                mid == prev.remove(i as int),
                mid.len() == prev.len() - 1,
                forall|k: int| 0 <= k < j ==> lex_le(#[trigger] mid[k]@, x@),
            decreases i - j,
        {
            j = j + 1;
        }
        proof {
            if j < i {
                lemma_lex_total(mid[j as int]@, x@);
            }
        }
        v.insert(j, x);
        proof {
            mid.insert_ensures(j as int, x);
            assert(paths_view(v@).to_multiset() == paths_view(orig).to_multiset()) by {
                paths_view(mid).insert_ensures(j as int, x@);
                assert(paths_view(v@) =~= paths_view(mid).insert(j as int, x@));
                vstd::seq_lib::to_multiset_remove(paths_view(prev), i as int);
                vstd::seq_lib::to_multiset_insert(paths_view(mid), j as int, x@);
                assert(paths_view(prev)[i as int] == x@);
                assert(paths_view(prev).contains(x@));
                paths_view(prev).to_multiset_ensures();
                assert(paths_view(prev).to_multiset().count(x@) > 0);
                assert(paths_view(prev).to_multiset().remove(x@).insert(x@) =~= paths_view(
                    prev,
                ).to_multiset());
            }
            assert forall|a: int, b: int| 0 <= a < b < i + 1 implies lex_le(
                #[trigger] v@[a]@,
                #[trigger] v@[b]@,
            ) by {
                let jj = j as int;
                let ii = i as int;
                if b < jj {
                    assert(v@[a] == mid[a] && v@[b] == mid[b]);
                    assert(lex_le(prev.take(ii)[a]@, prev.take(ii)[b]@));
                } else if a < jj && b == jj {
                    assert(v@[a] == mid[a] && v@[b] == x);
                } else if a < jj && b > jj {
                    assert(v@[a] == mid[a] && v@[b] == mid[b - 1]);
                    assert(lex_le(prev.take(ii)[a]@, prev.take(ii)[b - 1]@));
                } else if a == jj && b > jj {
                    assert(v@[a] == x && v@[b] == mid[b - 1]);
                    assert(lex_le(x@, mid[jj]@));
                    if b - 1 > jj {
                        assert(lex_le(prev.take(ii)[jj]@, prev.take(ii)[b - 1]@));
                        lemma_lex_trans(x@, mid[jj]@, mid[b - 1]@);
                    }
                } else {
                    assert(v@[a] == mid[a - 1] && v@[b] == mid[b - 1]);
                    assert(lex_le(prev.take(ii)[a - 1]@, prev.take(ii)[b - 1]@));
                }
            }
            assert(entries_sorted(v@.take(i + 1 as int)));
        }
        i = i + 1;
    }
    proof {
        if orig.len() > 0 {
            assert(v@.take(v@.len() as int) =~= v@);
        }
    }
}

/// An ASCII byte lowered: letters `A`..`Z` gain 32, all else is unchanged.
pub open spec fn lower_byte(b: u8) -> u8 {
    if 65 <= b <= 90 {
        (b + 32) as u8
    } else {
        b
    }
}

/// A byte string lowered byte by byte.
pub open spec fn lower_seq(s: Seq<u8>) -> Seq<u8> {
    s.map_values(|b: u8| lower_byte(b))
}

/// The position of the last `.` in the file name of `p`: the last dot that
/// comes after the last `/`, scanning from the end.
pub open spec fn last_dot_in_name(p: Seq<u8>) -> Option<int>
    decreases p.len(),
{
    if p.len() == 0 {
        None
    } else if p[p.len() - 1] == 46u8 {
        Some(p.len() - 1)
    } else if p[p.len() - 1] == 47u8 {
        None
    } else {
        last_dot_in_name(p.drop_last())
    }
}

/// The extension of a path: the bytes after the last dot of its file name,
/// none when the file name has no dot or only its leading character is one
/// (a leading dot marks a hidden file, not an empty stem).
pub open spec fn extension_of(p: Seq<u8>) -> Option<Seq<u8>> {
    match last_dot_in_name(p) {
        Option::None => None,
        Option::Some(d) => if d > 0 && p[d - 1] != 47u8 {
            Some(p.subrange(d + 1, p.len() as int))
        } else {
            None
        },
    }
}

/// The recognized image extensions, compared case-insensitively.
pub open spec fn is_supported_extension(e: Seq<u8>) -> bool {
    ||| lower_seq(e) == seq![106u8, 112u8, 103u8]  // jpg
    ||| lower_seq(e) == seq![106u8, 112u8, 101u8, 103u8]  // jpeg
    ||| lower_seq(e) == seq![112u8, 110u8, 103u8]  // png
    ||| lower_seq(e) == seq![103u8, 105u8, 102u8]  // gif
    ||| lower_seq(e) == seq![119u8, 101u8, 98u8, 112u8]  // webp
    ||| lower_seq(e) == seq![98u8, 109u8, 112u8]  // bmp
    ||| lower_seq(e) == seq![115u8, 118u8, 103u8]  // svg
}

/// A path the navigation list keeps: its extension is a recognized image
/// extension.
pub open spec fn is_supported_path(p: Seq<u8>) -> bool {
    extension_of(p) matches Some(e) && is_supported_extension(e)
}

/// A path of a vector document, re-rasterized on zoom rather than decoded
/// once.
pub open spec fn is_vector_path(p: Seq<u8>) -> bool {
    extension_of(p) matches Some(e) && lower_seq(e) == seq![115u8, 118u8, 103u8]  // svg
}

/// The entries a directory listing contributes to the navigation list, in
/// listing order.
pub open spec fn keeps_supported(l: Seq<Seq<u8>>) -> Seq<Seq<u8>> {
    l.filter(|p: Seq<u8>| is_supported_path(p))
}

/// One step of `keeps_supported`, unfolded at the back of the listing.
proof fn lemma_keeps_supported_step(l: Seq<Seq<u8>>)
    requires
        l.len() > 0,
    ensures
        keeps_supported(l) == (if is_supported_path(l.last()) {
            keeps_supported(l.drop_last()).push(l.last())
        } else {
            keeps_supported(l.drop_last())
        }),
{
    reveal(Seq::filter);
}

/// Where the extension of `p` starts, one past its file name's last dot;
/// `None` when the path has no extension.
fn extension_start(p: &Vec<u8>) -> (r: Option<usize>)
    ensures
        (r is Some) <==> (extension_of(p@) is Some),
        r matches Some(s) ==> 0 < s <= p@.len() && extension_of(p@) == Some(
            p@.subrange(s as int, p@.len() as int),
        ),
{
    proof {
        assert(p@.take(p@.len() as int) =~= p@);
    }
    let mut k: usize = p.len();
    loop
        invariant
            k <= p@.len(),
            last_dot_in_name(p@) == last_dot_in_name(p@.take(k as int)),
        decreases k,
    {
        if k == 0 {
            return None;
        }
        let c = p[k - 1];
        if c == 46 {
            if k >= 2 && p[k - 2] != 47 {
                return Some(k);
            }
            return None;
        }
        if c == 47 {
            return None;
        }
        proof {
            assert(p@.take(k as int).drop_last() =~= p@.take(k - 1 as int));
        }
        k = k - 1;
    }
}

/// The extension of `p`, lowered, ready to compare against the recognized
/// set.
fn lowered_extension(p: &Vec<u8>) -> (r: Option<Vec<u8>>)
    ensures
        (r is Some) <==> (extension_of(p@) is Some),
        r matches Some(e) ==> extension_of(p@) matches Some(x) && e@ == lower_seq(x),
{
    match extension_start(p) {
        None => None,
        Some(s) => {
            let mut e: Vec<u8> = Vec::new();
            let mut t: usize = s;
            while t < p.len()
                invariant
                    s <= t <= p@.len(),
                    e@.len() == t - s,
                    forall|k: int| 0 <= k < e@.len() ==> e@[k] == lower_byte(p@[s + k]),
                decreases p@.len() - t,
            {
                let b = p[t];
                let low = if 65 <= b && b <= 90 {
                    b + 32
                } else {
                    b
                };
                e.push(low);
                t = t + 1;
            }
            proof {
                assert(e@ =~= lower_seq(p@.subrange(s as int, p@.len() as int)));
            }
            Some(e)
        },
    }
}

/// Whether a lowered extension is in the recognized set.
fn lowered_ext_supported(e: &Vec<u8>) -> (r: bool)
    ensures
        r == ({
            ||| e@ == seq![106u8, 112u8, 103u8]
            ||| e@ == seq![106u8, 112u8, 101u8, 103u8]
            ||| e@ == seq![112u8, 110u8, 103u8]
            ||| e@ == seq![103u8, 105u8, 102u8]
            ||| e@ == seq![119u8, 101u8, 98u8, 112u8]
            ||| e@ == seq![98u8, 109u8, 112u8]
            ||| e@ == seq![115u8, 118u8, 103u8]
        }),
{
    let n = e.len();
    let r = if n == 3 {
        let a = e[0];
        let b = e[1];
        let c = e[2];
        (a == 106 && b == 112 && c == 103) || (a == 112 && b == 110 && c == 103) || (a == 103 && b
            == 105 && c == 102) || (a == 98 && b == 109 && c == 112) || (a == 115 && b == 118 && c
            == 103)
    } else if n == 4 {
        (e[0] == 106 && e[1] == 112 && e[2] == 101 && e[3] == 103) || (e[0] == 119 && e[1] == 101
            && e[2] == 98 && e[3] == 112)
    } else {
        false
    };
    proof {
        if r {
            if e@.len() == 3 {
                assert(e@ =~= seq![e@[0], e@[1], e@[2]]);
            } else {
                assert(e@ =~= seq![e@[0], e@[1], e@[2], e@[3]]);
            }
        }
    }
    r
}

/// Whether the navigation list keeps this path: its extension is one of the
/// recognized image extensions, compared case-insensitively.
pub fn supported_image_path(p: &Vec<u8>) -> (r: bool)
    ensures
        r == is_supported_path(p@),
{
    match lowered_extension(p) {
        None => false,
        Some(e) => lowered_ext_supported(&e),
    }
}

/// Whether this path names a vector document.
pub fn vector_image_path(p: &Vec<u8>) -> (r: bool)
    ensures
        r == is_vector_path(p@),
{
    match lowered_extension(p) {
        None => false,
        Some(e) => e.len() == 3 && {
            let r = e[0] == 115 && e[1] == 118 && e[2] == 103;
            proof {
                if r {
                    assert(e@ =~= seq![e@[0], e@[1], e@[2]]);
                }
            }
            r
        },
    }
}

/// The index `advance` yields: one step from `current` in `dir`, wrapping at
/// both ends of a list of length `len`.
pub open spec fn advanced_index(current: int, len: int, dir: NavDirection) -> int {
    match dir {
        NavDirection::Next => if current + 1 < len {
            current + 1
        } else {
            0
        },
        NavDirection::Prev => if current > 0 {
            current - 1
        } else {
            len - 1
        },
    }
}

/// The sibling image paths of the current directory, sorted, and the
/// position of the displayed image among them.
pub struct NavigationList {
    /// Sorted paths, as raw bytes.
    pub entries: Vec<Vec<u8>>,
    /// Index of the displayed image; `None` exactly while the list is empty.
    pub current_index: Option<usize>,
}

impl NavigationList {
    /// The index is present if and only if the list is nonempty, and then in
    /// range; the entries are sorted.
    pub open spec fn wf(self) -> bool {
        &&& (self.current_index is Some <==> self.entries@.len() > 0)
        &&& (self.current_index matches Some(i) ==> i < self.entries@.len())
        &&& forall|i: int, j: int|
            0 <= i < j < self.entries@.len() ==> lex_le(#[trigger] self.entries@[i]@, #[trigger] self.entries@[j]@)
    }

    /// An empty list: nothing to navigate yet.
    pub fn new() -> (r: NavigationList)
        ensures
            r.wf(),
            r.entries@.len() == 0,
            r.current_index is None,
    {
        NavigationList { entries: Vec::new(), current_index: None }
    }

    /// The index one navigation step away, wrapping around at both ends;
    /// `None` exactly when the list is empty.  The stored index is not
    /// touched: the caller commits it only after the image at the returned
    /// index has loaded.
    pub fn advance(&self, dir: NavDirection) -> (r: Option<usize>)
        requires
            self.wf(),
        ensures
            (r is Some) <==> (self.current_index is Some),
            r matches Some(i) ==> i == advanced_index(self.current_index->0 as int, self.entries@.len() as int, dir),
            r matches Some(i) ==> i < self.entries@.len(),
    {
        match self.current_index {
            None => None,
            Some(current) => {
                let len = self.entries.len();
                let next = match dir {
                    NavDirection::Next => if current + 1 < len {
                        current + 1
                    } else {
                        0
                    },
                    NavDirection::Prev => if current > 0 {
                        current - 1
                    } else {
                        len - 1
                    },
                };
                Some(next)
            },
        }
    }

    /// The path at `index`, cloned for the caller to load.
    pub fn path_at(&self, index: usize) -> (r: Option<Vec<u8>>)
        ensures
            (r is Some) <==> (index < self.entries@.len()),
            r matches Some(p) ==> p@ == self.entries@[index as int]@,
    {
        if index < self.entries.len() {
            Some(self.entries[index].clone())
        } else {
            None
        }
    }

    /// Commit a navigation step: record `index` as the displayed image.
    /// Called only once the image at `index` has actually loaded, so a
    /// failed load never desynchronizes the list from the display.
    pub fn commit_index(&mut self, index: usize)
        requires
            old(self).wf(),
            index < old(self).entries@.len(),
        ensures
            final(self).wf(),
            final(self).entries == old(self).entries,
            final(self).current_index == Some(index),
    {
        self.current_index = Some(index);
    }
}

impl NavigationList {
    /// Rebuild the list from a fresh directory listing: keep the entries
    /// with a recognized image extension, sort them lexicographically, and
    /// point at the first occurrence of `opened` (at index 0 when `opened`
    /// is absent, a recoverable anomaly rather than an error).  A directory
    /// read failure never reaches this function: the caller keeps the
    /// previous list.
    pub fn rebuild(&mut self, listing: &Vec<Vec<u8>>, opened: &Vec<u8>)
        ensures
            final(self).wf(),
            paths_view(final(self).entries@).to_multiset() == keeps_supported(
                paths_view(listing@),
            ).to_multiset(),
            final(self).entries@.len() == keeps_supported(paths_view(listing@)).len(),
            (final(self).current_index matches Some(ix) ==> if (exists|j: int|
                0 <= j < final(self).entries@.len() && final(self).entries@[j]@ == opened@) {
                &&& final(self).entries@[ix as int]@ == opened@
                &&& forall|j: int| 0 <= j < ix ==> final(self).entries@[j]@ != opened@
            } else {
                ix == 0
            }),
    {
        let ghost pv = paths_view(listing@);
        let mut files: Vec<Vec<u8>> = Vec::new();
        let mut i: usize = 0;
        proof {
            assert(pv.take(0) =~= Seq::<Seq<u8>>::empty());
            assert(paths_view(files@) =~= keeps_supported(pv.take(0)));
        }
        while i < listing.len()
            invariant
                i <= listing@.len(),
                pv == paths_view(listing@),
                paths_view(files@) == keeps_supported(pv.take(i as int)),
            decreases listing@.len() - i,
        {
            let ghost before = files@;
            let keep = supported_image_path(&listing[i]);
            if keep {
                files.push(listing[i].clone());
            }
            proof {
                lemma_keeps_supported_step(pv.take(i + 1 as int));
                assert(pv.take(i + 1 as int).drop_last() =~= pv.take(i as int));
                assert(pv.take(i + 1 as int).last() == listing@[i as int]@);
                if keep {
                    assert(paths_view(files@) =~= keeps_supported(pv.take(i as int)).push(
                        listing@[i as int]@,
                    ));
                }
                assert(paths_view(files@) == keeps_supported(pv.take(i + 1 as int)));
            }
            i = i + 1;
        }
        proof {
            assert(pv.take(listing@.len() as int) =~= pv);
        }
        sort_paths(&mut files);
        proof {
            vstd::seq_lib::to_multiset_len(paths_view(files@));
            vstd::seq_lib::to_multiset_len(keeps_supported(pv));
        }
        let mut index: usize = 0;
        let mut found = false;
        let mut k: usize = 0;
        while k < files.len()
            invariant_except_break
                k <= files@.len(),
                !found,
                forall|j: int| 0 <= j < k ==> files@[j]@ != opened@,
            ensures
                found ==> index < files@.len() && files@[index as int]@ == opened@ && (forall|
                    j: int,
                |
                    0 <= j < index ==> files@[j]@ != opened@),
                !found ==> forall|j: int| 0 <= j < files@.len() ==> files@[j]@ != opened@,
            decreases files@.len() - k,
        {
            if bytes_equal(&files[k], opened) {
                index = k;
                found = true;
                break ;
            }
            k = k + 1;
        }
        let len = files.len();
        self.entries = files;
        self.current_index = if len == 0 {
            None
        } else if found {
            Some(index)
        } else {
            Some(0)
        };
    }
}

/// Navigation wraparound law: in a nonempty list, stepping forward from the
/// last index yields the first, and stepping backward from the first yields
/// the last; every other step moves by exactly one.
pub proof fn lemma_advance_wraps(current: int, len: int)
    requires
        0 <= current < len,
    ensures
        current == len - 1 ==> advanced_index(current, len, NavDirection::Next) == 0,
        current < len - 1 ==> advanced_index(current, len, NavDirection::Next) == current + 1,
        current == 0 ==> advanced_index(current, len, NavDirection::Prev) == len - 1,
        current > 0 ==> advanced_index(current, len, NavDirection::Prev) == current - 1,
        0 <= advanced_index(current, len, NavDirection::Next) < len,
        0 <= advanced_index(current, len, NavDirection::Prev) < len,
{
}

} // verus!
