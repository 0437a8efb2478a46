use vstd::prelude::*;

verus! {

/// A filesystem path, held as the plain sequence of its components.
///
/// The resolution logic only ever compares paths, appends components, and
/// builds file names; all of that is done on the components themselves, so a
/// path is a vector of component strings (a caller that works with absolute
/// paths encodes the root directory as a leading component). The view of a
/// path is the sequence of the views of its components.
#[derive(Debug)]
pub struct FsPath {
    pub components: Vec<String>,
}

impl View for FsPath {
    type V = Seq<Seq<char>>;

    open spec fn view(&self) -> Seq<Seq<char>> {
        Seq::new(self.components@.len(), |i: int| self.components@[i]@)
    }
}

impl FsPath {
    /// Appends one component at the end of the path.
    pub fn push(&mut self, component: String)
        ensures
            final(self)@ == old(self)@.push(component@),
    {
        self.components.push(component);
        proof {
            assert(self@ =~= old(self)@.push(component@));
        }
    }

    /// An exact copy of the path.
    pub fn duplicate(&self) -> (r: FsPath)
        ensures
            r@ == self@,
    {
        let mut components: Vec<String> = Vec::new();
        let mut i: usize = 0;
        while i < self.components.len()
            invariant
                i <= self.components@.len(),
                components@.len() == i as int,
                forall|j: int| 0 <= j < i ==> components@[j] == self.components@[j],
            decreases self.components@.len() - i,
        {
            components.push(self.components[i].clone());
            i = i + 1;
        }
        let r = FsPath { components };
        proof {
            assert(r@ =~= self@);
        }
        r
    }

    /// The path without its last component, or nothing for the empty path.
    pub fn parent(&self) -> (r: Option<FsPath>)
        ensures
            self@.len() > 0 ==> (r matches Option::Some(d) && d@ == self@.drop_last()),
            self@.len() == 0 ==> r is None,
    {
        if self.components.len() == 0 {
            return None;
        }
        let mut d = self.duplicate();
        d.components.pop();
        proof {
            assert(d@ =~= self@.drop_last());
        }
        Some(d)
    }

    /// Whether two paths consist of exactly the same components.
    pub fn same_path(&self, other: &FsPath) -> (r: bool)
        ensures
            r == (self@ == other@),
    {
        let n = self.components.len();
        if n != other.components.len() {
            proof {
                assert(self@.len() != other@.len());
            }
            return false;
        }
        let mut i: usize = 0;
        while i < n
            invariant
                n == self.components@.len(),
                n == other.components@.len(),
                i <= n,
                forall|j: int| 0 <= j < i ==> self@[j] == other@[j],
            decreases n - i,
        {
            if !(self.components[i] == other.components[i]) {
                proof {
                    assert(self@[i as int] != other@[i as int]);
                }
                return false;
            }
            i = i + 1;
        }
        proof {
            assert(self@ =~= other@);
        }
        true
    }
}

/// Where the stem of a file name ends, searching the separator among the
/// first `i` characters: the position of the last `.` that does not stand
/// first, or the full length of the name when there is no such `.` (the
/// whole name is then the stem).
pub open spec fn stem_end_at(name: Seq<char>, i: int) -> int
    decreases i,
{
    if i <= 1 {
        name.len() as int
    } else if name[i - 1] == '.' {
        i - 1
    } else {
        stem_end_at(name, i - 1)
    }
}

/// Where the stem of a file name ends.
pub open spec fn stem_end(name: Seq<char>) -> int {
    stem_end_at(name, name.len() as int)
}

/// The stem of a file name: everything before the extension separator.
pub open spec fn stem_of(name: Seq<char>) -> Seq<char> {
    name.subrange(0, stem_end(name))
}

/// A file name with its extension replaced: the stem of the original name,
/// one `.`, then the new extension.
pub open spec fn with_ext(name: Seq<char>, ext: Seq<char>) -> Seq<char> {
    stem_of(name) + seq!['.'] + ext
}

fn stem_end_exec(name: &str, i: usize) -> (r: usize)
    requires
        i <= name@.len(),
    ensures
        r as int == stem_end_at(name@, i as int),
        r <= name@.len(),
    decreases i,
{
    if i <= 1 {
        name.unicode_len()
    } else if name.get_char(i - 1) == '.' {
        i - 1
    } else {
        stem_end_exec(name, i - 1)
    }
}

/// Replaces the extension of a file name, the way the toolchain's path
/// library does: the extension starts after the last `.` of the name, a `.`
/// in first position not counting as a separator; a name without an
/// extension gets one appended.
pub fn replace_extension(name: &str, ext: &str) -> (r: String)
    ensures
        r@ == with_ext(name@, ext@),
{
    let n = name.unicode_len();
    let end = stem_end_exec(name, n);
    let stem = name.substring_char(0, end);
    let mut r = String::from_str(stem);
    r.append(".");
    r.append(ext);
    proof {
        reveal_strlit(".");
        assert(r@ =~= with_ext(name@, ext@));
    }
    r
}

} // verus!
