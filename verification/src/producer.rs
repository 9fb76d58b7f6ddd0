//! The random file producer.
//!
//! One *epoch* is a full pass over the catalog that a walk of the root
//! directories found. Within an epoch files are drawn uniformly at random
//! without replacement: a drawn path is swap-removed from the catalog, so no
//! path can be drawn twice before the catalog is exhausted and a new epoch
//! begins. A drawn file is emitted to the player only when its probe found
//! at least one stream in it.

use vstd::prelude::*;
use rand::RngExt;

use crate::media::MediaInfo;

verus! {

/// Relies on rand::RngExt::random_range over `0..n`: the result is drawn
/// uniformly from the range, so it is always below `n`. The range must not
/// be empty, or the call panics.
#[verifier::external_body]
fn random_index(n: usize) -> (r: usize)
    requires
        n > 0,
    ensures
        r < n,
{
    rand::rng().random_range(0..n)
}

/// A sequence of paths, each path seen as its character sequence.
pub open spec fn paths_view(v: Seq<String>) -> Seq<Seq<char>> {
    v.map_values(|p: String| p@)
}

/// An endless source of uniformly random, non-repeating playable files.
pub struct RandomFiles {
    roots: Vec<String>,
    catalog: Vec<String>,
    drawn: Vec<String>,
}

impl RandomFiles {
    /// The root directories the walker enumerates for each epoch.
    pub closed spec fn spec_roots(&self) -> Seq<Seq<char>> {
        paths_view(self.roots@)
    }

    /// The paths still undrawn in the current epoch.
    pub closed spec fn catalog_view(&self) -> Seq<Seq<char>> {
        paths_view(self.catalog@)
    }

    /// The paths already drawn in the current epoch, in draw order.
    pub closed spec fn drawn_view(&self) -> Seq<Seq<char>> {
        paths_view(self.drawn@)
    }

    /// No path appears twice across the whole epoch: the undrawn catalog and
    /// the drawn record are each duplicate-free and share no path.
    pub closed spec fn wf(&self) -> bool {
        &&& self.catalog_view().no_duplicates()
        &&& self.drawn_view().no_duplicates()
        &&& forall|i: int, j: int|
            0 <= i < self.catalog_view().len() && 0 <= j < self.drawn_view().len()
                ==> self.catalog_view()[i] != self.drawn_view()[j]
    }

    /// A fresh producer over the given roots, with no catalog yet.
    pub fn new(root_dirs: Vec<String>) -> (r: Self)
        ensures
            r.wf(),
            r.spec_roots() == paths_view(root_dirs@),
            r.catalog_view().len() == 0,
            r.drawn_view().len() == 0,
    {
        RandomFiles { roots: root_dirs, catalog: Vec::new(), drawn: Vec::new() }
    }

    /// The stored roots, for the walker.
    pub fn roots(&self) -> (r: &Vec<String>)
        ensures
            paths_view(r@) == self.spec_roots(),
    {
        &self.roots
    }

    /// How many paths the current epoch still holds.
    pub fn catalog_len(&self) -> (n: usize)
        ensures
            n == self.catalog_view().len(),
    {
        self.catalog.len()
    }

    /// Start a new epoch from a fresh walker pass: the catalog becomes the
    /// given paths with duplicates dropped (first occurrence kept), and the
    /// record of drawn paths is cleared.
    pub fn begin_epoch(&mut self, files: Vec<String>)
        ensures
            final(self).wf(),
            final(self).spec_roots() == old(self).spec_roots(),
            final(self).drawn_view().len() == 0,
            forall|p: Seq<char>|
                final(self).catalog_view().contains(p) <==> paths_view(files@).contains(p),
    {
        let mut catalog: Vec<String> = Vec::new();
        let mut k: usize = 0;
        while k < files.len()
            invariant
                k <= files.len(),
                paths_view(catalog@).no_duplicates(),
                forall|p: Seq<char>|
                    paths_view(catalog@).contains(p) <==> paths_view(files@.take(k as int)).contains(
                        p,
                    ),
            decreases files.len() - k,
        {
            let ghost prev = paths_view(catalog@);
            let ghost fk = files@[k as int]@;
            let f = &files[k];
            let had = vec_contains_path(&catalog, f);
            if !had {
                catalog.push(f.clone());
                proof {
                    assert(paths_view(catalog@) =~= prev.push(fk));
                }
            }
            proof {
                let cur = paths_view(catalog@);
                let t = paths_view(files@.take(k as int));
                let t1 = paths_view(files@.take(k as int + 1));
                assert(t1 =~= t.push(fk));
                lemma_contains_push(t, fk);
                if !had {
                    lemma_contains_push(prev, fk);
                }
                assert forall|p: Seq<char>|
                    paths_view(catalog@).contains(p) <==> paths_view(
                        files@.take(k as int + 1),
                    ).contains(p) by {
                    assert(t1.contains(p) <==> t.contains(p) || p == fk);
                    assert(prev.contains(p) <==> t.contains(p));
                    if had {
                        assert(cur == prev);
                        assert(prev.contains(fk));
                    } else {
                        assert(cur.contains(p) <==> prev.contains(p) || p == fk);
                    }
                }
            }
            k = k + 1;
        }
        proof {
            assert(files@.take(files@.len() as int) =~= files@);
        }
        self.catalog = catalog;
        self.drawn = Vec::new();
    }

    /// Draw one path uniformly at random and remove it from the catalog.
    /// Returns nothing exactly when the catalog is exhausted; a drawn path
    /// was in the catalog and had not been drawn before in this epoch.
    pub fn draw(&mut self) -> (r: Option<String>)
        requires
            old(self).wf(),
        ensures
            final(self).wf(),
            final(self).spec_roots() == old(self).spec_roots(),
            r is None <==> old(self).catalog_view().len() == 0,
            r is None ==> *final(self) == *old(self),
            r matches Some(p) ==> {
                &&& old(self).catalog_view().contains(p@)
                &&& !old(self).drawn_view().contains(p@)
                &&& final(self).drawn_view() == old(self).drawn_view().push(p@)
                &&& final(self).catalog_view().len() == old(self).catalog_view().len() - 1
                &&& final(self).catalog_view().to_multiset() == old(self).catalog_view().to_multiset().remove(p@)
            },
    {
        if self.catalog.len() == 0 {
            return None;
        }
        let i = random_index(self.catalog.len());
        let ghost before = self.catalog_view();
        let ghost drawn0 = self.drawn_view();
        let p = self.catalog.swap_remove(i);
        self.drawn.push(p.clone());
        proof {
            let after = self.catalog_view();
            let t = before.update(i as int, before.last()).drop_last();
            assert(after =~= t);
            assert(self.drawn_view() =~= drawn0.push(p@));
            assert(before[i as int] == p@);
            lemma_swap_remove_no_duplicates(before, i as int);
            lemma_swap_removed_gone(before, i as int);
            lemma_swap_remove_multiset(before, i as int);
            assert(!drawn0.contains(p@)) by {
                if drawn0.contains(p@) {
                    let j = choose|j: int| 0 <= j < drawn0.len() && drawn0[j] == p@;
                    assert(before[i as int] != drawn0[j]);
                }
            }
            assert forall|a: int, b: int|
                0 <= a < after.len() && 0 <= b < self.drawn_view().len() implies after[a]
                != self.drawn_view()[b] by {
                assert(before.contains(after[a])) by {
                    if a == i && i < t.len() {
                        assert(t[a] == before.last());
                    } else {
                        assert(t[a] == before[a]);
                    }
                }
                let w = choose|w: int| 0 <= w < before.len() && before[w] == after[a];
                if b < drawn0.len() {
                    assert(before[w] != drawn0[b]);
                } else {
                    assert(self.drawn_view()[b] == p@);
                    assert(!t.contains(p@));
                    assert(after[a] != p@);
                }
            }
        }
        Some(p)
    }

    /// Decide whether a drawn and probed file is emitted to the player:
    /// it is exactly when the probe found at least one stream.
    pub fn offer(path: String, info: MediaInfo) -> (r: Option<(String, MediaInfo)>)
        ensures
            r is Some <==> info.spec_is_playable(),
            r matches Some(e) ==> e.0@ == path@ && e.1 == info,
    {
        if info.is_playable() {
            Some((path, info))
        } else {
            None
        }
    }
}

/// Whether some path in the vector has these characters.
fn vec_contains_path(v: &Vec<String>, s: &String) -> (r: bool)
    ensures
        r == paths_view(v@).contains(s@),
{
    let mut k: usize = 0;
    while k < v.len()
        invariant
            k <= v.len(),
            forall|j: int| 0 <= j < k ==> paths_view(v@)[j] != s@,
        decreases v.len() - k,
    {
        let a = &v[k];
        if a.eq(s) {
            assert(paths_view(v@)[k as int] == s@);
            return true;
        }
        k = k + 1;
    }
    assert forall|j: int| 0 <= j < paths_view(v@).len() implies paths_view(v@)[j] != s@ by {}
    false
}

/// A sequence extended by one element contains exactly what it contained
/// before, plus that element.
proof fn lemma_contains_push<T>(s: Seq<T>, x: T)
    ensures
        forall|p: T| #[trigger] s.push(x).contains(p) <==> s.contains(p) || p == x,
{
    assert forall|p: T| #[trigger] s.push(x).contains(p) implies s.contains(p) || p == x by {
        let w = choose|w: int| 0 <= w < s.push(x).len() && s.push(x)[w] == p;
        if w < s.len() {
            assert(s[w] == p);
        }
    }
    assert forall|p: T| s.contains(p) || p == x implies #[trigger] s.push(x).contains(p) by {
        if s.contains(p) {
            let w = choose|w: int| 0 <= w < s.len() && s[w] == p;
            assert(s.push(x)[w] == p);
        } else {
            assert(s.push(x)[s.len() as int] == p);
        }
    }
}

/// Removing one place from a duplicate-free sequence by the swap-remove step
/// keeps it duplicate-free.
proof fn lemma_swap_remove_no_duplicates<T>(s: Seq<T>, i: int)
    requires
        s.no_duplicates(),
        0 <= i < s.len(),
    ensures
        s.update(i, s.last()).drop_last().no_duplicates(),
{
    let t = s.update(i, s.last()).drop_last();
    assert forall|a: int, b: int| 0 <= a < b < t.len() implies t[a] != t[b] by {
        if a == i {
            assert(t[a] == s[s.len() - 1]);
            assert(t[b] == s[b]);
        } else if b == i {
            assert(t[b] == s[s.len() - 1]);
            assert(t[a] == s[a]);
        } else {
            assert(t[a] == s[a]);
            assert(t[b] == s[b]);
        }
    }
}

/// After the swap-remove step on a duplicate-free sequence, the removed
/// element is gone.
proof fn lemma_swap_removed_gone<T>(s: Seq<T>, i: int)
    requires
        s.no_duplicates(),
        0 <= i < s.len(),
    ensures
        !s.update(i, s.last()).drop_last().contains(s[i]),
{
    let t = s.update(i, s.last()).drop_last();
    assert forall|a: int| 0 <= a < t.len() implies t[a] != s[i] by {
        if a == i {
            assert(t[a] == s[s.len() - 1]);
        } else {
            assert(t[a] == s[a]);
        }
    }
}

/// The swap-remove step takes exactly one occurrence of the removed element
/// out of the sequence's multiset.
proof fn lemma_swap_remove_multiset<T>(s: Seq<T>, i: int)
    requires
        0 <= i < s.len(),
    ensures
        s.update(i, s.last()).drop_last().to_multiset() == s.to_multiset().remove(s[i]),
{
    let t = s.update(i, s.last()).drop_last();
    s.to_multiset_ensures();
    if i == s.len() - 1 {
        assert(s.update(i, s.last()) =~= s);
        assert(t =~= s.remove(i));
        assert(s.remove(i).to_multiset() =~= s.to_multiset().remove(s[i]));
    } else {
        let u = s.update(i, s.last());
        u.to_multiset_ensures();
        t.to_multiset_ensures();
        assert(u.remove(i) =~= s.remove(i));
        assert(u.remove(i).to_multiset() =~= u.to_multiset().remove(u[i]));
        assert(s.remove(i).to_multiset() =~= s.to_multiset().remove(s[i]));
        assert(u.to_multiset().remove(s.last()) == s.to_multiset().remove(s[i]));
        assert(u =~= t.push(u.last()));
        assert(t.push(u.last()).to_multiset() =~= t.to_multiset().insert(u.last()));
        assert(u.last() == s.last());
        assert(u.to_multiset() == t.to_multiset().insert(s.last()));
        assert(t.to_multiset().insert(s.last()).remove(s.last()) =~= t.to_multiset());
    }
}

/// Within one epoch, no two positions of the drawn record hold the same
/// path: nothing the producer has drawn repeats before the next epoch.
pub proof fn lemma_epoch_no_repeat(p: &RandomFiles)
    requires
        p.wf(),
    ensures
        forall|i: int, j: int|
            0 <= i < j < p.drawn_view().len() ==> p.drawn_view()[i] != p.drawn_view()[j],
{
}

} // verus!
