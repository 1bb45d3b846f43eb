//! Paths as sequences of components, and the mapping of a file found under a
//! backup root onto the absolute path it restores to.
use vstd::prelude::*;

verus! {

/// Why a path was refused.
#[derive(Debug, Clone, PartialEq, Eq)]
pub enum PathError {
    /// The file does not lie under the backup root.
    NotUnderRoot,
    /// A component is `..`.
    ParentDirectory,
    /// A component begins with two dots (a disguised traversal); it is carried.
    SuspiciousComponent(String),
    /// The path does not begin at the root directory.
    NotAbsolute,
    /// The resolved path lies outside the allowed base directory.
    OutsideBase,
}

/// A piece between separators that normalisation keeps: empty pieces (from
/// repeated or trailing separators) and `.` are dropped.
pub open spec fn is_kept(seg: Seq<char>) -> bool {
    seg.len() > 0 && seg != seq!['.']
}

/// Left-to-right scan of a path: the components finished so far and the piece
/// under way.
pub open spec fn scan(p: Seq<char>) -> (Seq<Seq<char>>, Seq<char>)
    decreases p.len(),
{
    if p.len() == 0 {
        (Seq::empty(), Seq::empty())
    } else {
        let (done, cur) = scan(p.drop_last());
        if p.last() == '/' {
            (if is_kept(cur) { done.push(cur) } else { done }, Seq::empty())
        } else {
            (done, cur.push(p.last()))
        }
    }
}

/// The normal components of a path, in order.
pub open spec fn components(p: Seq<char>) -> Seq<Seq<char>> {
    let (done, cur) = scan(p);
    if is_kept(cur) {
        done.push(cur)
    } else {
        done
    }
}

/// The path begins at the root directory.
pub open spec fn is_absolute(p: Seq<char>) -> bool {
    p.len() > 0 && p[0] == '/'
}

/// A component that begins with two dots: `..` itself or a disguised form of it.
pub open spec fn is_traversal(c: Seq<char>) -> bool {
    c.len() >= 2 && c[0] == '.' && c[1] == '.'
}

/// A component as `components` yields it: kept, and free of separators.
pub open spec fn is_proper(c: Seq<char>) -> bool {
    is_kept(c) && forall|j: int| 0 <= j < c.len() ==> c[j] != '/'
}

pub open spec fn no_traversal(cs: Seq<Seq<char>>) -> bool {
    forall|i: int| 0 <= i < cs.len() ==> !is_traversal(cs[i])
}

/// `i` is the first component of `cs` that is a traversal.
pub open spec fn first_traversal_at(cs: Seq<Seq<char>>, i: int) -> bool {
    &&& 0 <= i < cs.len()
    &&& is_traversal(cs[i])
    &&& forall|j: int| 0 <= j < i ==> !is_traversal(cs[j])
}

/// The error that names traversal component `c`.
pub open spec fn traversal_error(c: Seq<char>, e: PathError) -> bool {
    if c == seq!['.', '.'] {
        e is ParentDirectory
    } else {
        e matches PathError::SuspiciousComponent(n) && n@ == c
    }
}

/// A path that may be written to inside the container: absolute, with no
/// traversal component.
pub open spec fn path_is_safe(p: Seq<char>) -> bool {
    is_absolute(p) && no_traversal(components(p))
}

/// The components of `file` below `root`, when `root` is a component-wise
/// prefix of `file` (both absolute, or both relative).
pub open spec fn relative_components(file: Seq<char>, root: Seq<char>) -> Option<
    Seq<Seq<char>>,
> {
    let fc = components(file);
    let rc = components(root);
    if is_absolute(file) == is_absolute(root) && rc.len() <= fc.len() && fc.subrange(
        0,
        rc.len() as int,
    ) == rc {
        Some(fc.subrange(rc.len() as int, fc.len() as int))
    } else {
        None
    }
}

/// The absolute path made of `cs`: `/` followed by the components joined by `/`.
pub open spec fn rooted(cs: Seq<Seq<char>>) -> Seq<char>
    decreases cs.len(),
{
    if cs.len() == 0 {
        seq!['/']
    } else if cs.len() == 1 {
        seq!['/'] + cs[0]
    } else {
        rooted(cs.drop_last()) + seq!['/'] + cs.last()
    }
}

pub open spec fn comp_views(v: Seq<String>) -> Seq<Seq<char>> {
    v.map_values(|s: String| s@)
}

/// Whether the piece `p[a..b]` is kept by normalisation.
fn piece_is_kept(p: &str, a: usize, b: usize) -> (r: bool)
    requires
        a <= b <= p@.len(),
    ensures
        r == is_kept(p@.subrange(a as int, b as int)),
{
    if b == a {
        return false;
    }
    if b - a == 1 && p.get_char(a) == '.' {
        assert(p@.subrange(a as int, b as int) =~= seq!['.']);
        return false;
    }
    if b - a == 1 {
        assert(p@.subrange(a as int, b as int)[0] != seq!['.'][0]);
    }
    true
}

/// The normal components of `p`, in order.
pub fn path_components(p: &str) -> (r: Vec<String>)
    ensures
        comp_views(r@) == components(p@),
{
    let n = p.unicode_len();
    let mut out: Vec<String> = Vec::new();
    let mut start: usize = 0;
    let mut i: usize = 0;
    while i < n
        invariant
            n == p@.len(),
            start <= i <= n,
            scan(p@.subrange(0, i as int)) == (comp_views(out@), p@.subrange(
                start as int,
                i as int,
            )),
        decreases n - i,
    {
        let c = p.get_char(i);
        let ghost pre = p@.subrange(0, i as int);
        let ghost next = p@.subrange(0, i + 1);
        assert(next.drop_last() == pre);
        assert(next.last() == c);
        if c == '/' {
            if piece_is_kept(p, start, i) {
                let piece = String::from_str(p.substring_char(start, i));
                let ghost before = out@;
                out.push(piece);
                assert(comp_views(out@) =~= comp_views(before).push(piece@));
            }
            start = i + 1;
            assert(p@.subrange(start as int, i + 1) =~= Seq::<char>::empty());
        } else {
            assert(p@.subrange(start as int, i + 1) =~= p@.subrange(start as int, i as int).push(
                c,
            ));
        }
        i += 1;
    }
    assert(p@.subrange(0, n as int) =~= p@);
    if piece_is_kept(p, start, n) {
        let piece = String::from_str(p.substring_char(start, n));
        let ghost before = out@;
        out.push(piece);
        assert(comp_views(out@) =~= comp_views(before).push(piece@));
    }
    out
}

/// Whether `p` begins at the root directory.
pub fn path_is_absolute(p: &str) -> (r: bool)
    ensures
        r == is_absolute(p@),
{
    p.unicode_len() > 0 && p.get_char(0) == '/'
}

/// Whether component `c` is a traversal.
pub fn component_is_traversal(c: &str) -> (r: bool)
    ensures
        r == is_traversal(c@),
{
    c.unicode_len() >= 2 && c.get_char(0) == '.' && c.get_char(1) == '.'
}

/// The error for traversal component `c`.
fn traversal_error_for(c: &String) -> (e: PathError)
    ensures
        traversal_error(c@, e),
{
    let s = c.as_str();
    if s.unicode_len() == 2 && s.get_char(0) == '.' && s.get_char(1) == '.' {
        assert(c@ =~= seq!['.', '.']);
        PathError::ParentDirectory
    } else {
        proof {
            if c@.len() != 2 {
                assert(c@.len() != seq!['.', '.'].len());
            } else if c@[0] != '.' {
                assert(c@[0] != seq!['.', '.'][0]);
            } else {
                assert(c@[1] != seq!['.', '.'][1]);
            }
        }
        PathError::SuspiciousComponent(c.clone())
    }
}

/// Finds the first traversal among `cs[from..]`: `None` when there is none.
fn find_traversal(cs: &Vec<String>, from: usize) -> (r: Option<usize>)
    requires
        from <= cs@.len(),
    ensures
        match r {
            Some(i) => from <= i < cs@.len() && is_traversal(cs@[i as int]@) && forall|j: int|
                from <= j < i ==> !is_traversal(#[trigger] cs@[j]@),
            None => forall|j: int| from <= j < cs@.len() ==> !is_traversal(#[trigger] cs@[j]@),
        },
{
    let mut i = from;
    while i < cs.len()
        invariant
            from <= i <= cs@.len(),
            forall|j: int| from <= j < i ==> !is_traversal(#[trigger] cs@[j]@),
        decreases cs@.len() - i,
    {
        if component_is_traversal(cs[i].as_str()) {
            return Some(i);
        }
        i += 1;
    }
    None
}

/// Checks a container path: no component may be a traversal (the first one
/// found is reported), and the path must be absolute.
pub fn validate_container_path(path: &str) -> (r: Result<(), PathError>)
    ensures
        r is Ok <==> path_is_safe(path@),
        r matches Err(e) ==> (exists|i: int|
            first_traversal_at(components(path@), i) && traversal_error(components(path@)[i], e))
            || (no_traversal(components(path@)) && e is NotAbsolute),
{
    let cs = path_components(path);
    let ghost cv = components(path@);
    assert(forall|j: int| 0 <= j < cs@.len() ==> cs@[j]@ == #[trigger] cv[j]);
    match find_traversal(&cs, 0) {
        Some(i) => {
            let e = traversal_error_for(&cs[i]);
            assert(first_traversal_at(cv, i as int));
            Err(e)
        },
        None => {
            if path_is_absolute(path) {
                Ok(())
            } else {
                Err(PathError::NotAbsolute)
            }
        },
    }
}

/// Whether the component lists `a` and `b` are equal.
fn components_equal(a: &String, b: &String) -> (r: bool)
    ensures
        r == (a@ == b@),
{
    a.eq(b)
}

/// Whether `prefix` is a component-wise prefix of `cs`.
fn is_component_prefix(prefix: &Vec<String>, cs: &Vec<String>) -> (r: bool)
    ensures
        r == (comp_views(prefix@).len() <= comp_views(cs@).len() && comp_views(cs@).subrange(
            0,
            comp_views(prefix@).len() as int,
        ) == comp_views(prefix@)),
{
    if prefix.len() > cs.len() {
        return false;
    }
    let mut i: usize = 0;
    while i < prefix.len()
        invariant
            prefix@.len() <= cs@.len(),
            i <= prefix@.len(),
            forall|j: int| 0 <= j < i ==> #[trigger] prefix@[j]@ == cs@[j]@,
        decreases prefix@.len() - i,
    {
        if !components_equal(&prefix[i], &cs[i]) {
            assert(comp_views(cs@).subrange(0, comp_views(prefix@).len() as int)[i as int]
                != comp_views(prefix@)[i as int]);
            return false;
        }
        i += 1;
    }
    assert(comp_views(cs@).subrange(0, comp_views(prefix@).len() as int) =~= comp_views(
        prefix@,
    ));
    true
}

/// Splits `file` below `root`: the components of `file` and the index where
/// those below `root` begin, or `None` when `file` is not under `root`.
fn split_below(file: &str, root: &str) -> (r: Option<(Vec<String>, usize)>)
    ensures
        match relative_components(file@, root@) {
            None => r is None,
            Some(rel) => r matches Some((fc, k)) && comp_views(fc@) == components(file@) && k
                <= fc@.len() && comp_views(fc@).subrange(k as int, fc@.len() as int) == rel,
        },
{
    let fc = path_components(file);
    let rc = path_components(root);
    if path_is_absolute(file) != path_is_absolute(root) {
        return None;
    }
    if !is_component_prefix(&rc, &fc) {
        return None;
    }
    let k = rc.len();
    Some((fc, k))
}

/// Joins `fc[k..]` into a rooted path.
fn join_rooted(fc: &Vec<String>, k: usize) -> (r: String)
    requires
        k <= fc@.len(),
    ensures
        r@ == rooted(comp_views(fc@).subrange(k as int, fc@.len() as int)),
{
    let ghost cv = comp_views(fc@);
    let mut out = String::from_str("/");
    proof {
        reveal_strlit("/");
        assert(cv.subrange(k as int, k as int) =~= Seq::<Seq<char>>::empty());
        assert(out@ =~= seq!['/']);
    }
    let mut i = k;
    while i < fc.len()
        invariant
            k <= i <= fc@.len(),
            cv == comp_views(fc@),
            out@ == rooted(cv.subrange(k as int, i as int)),
        decreases fc@.len() - i,
    {
        let ghost prev = cv.subrange(k as int, i as int);
        let ghost next = cv.subrange(k as int, i + 1);
        assert(next.drop_last() =~= prev);
        assert(next.last() == fc@[i as int]@);
        if i > k {
            out.append("/");
            proof {
                reveal_strlit("/");
            }
        } else {
            assert(next.len() == 1);
        }
        out.append(fc[i].as_str());
        proof {
            if i > k {
                assert(out@ =~= rooted(prev) + seq!['/'] + next.last());
            } else {
                assert(out@ =~= seq!['/'] + next[0]);
            }
        }
        i += 1;
    }
    out
}

/// `r` is what mapping `file` below `root` gives: refused when `file` is not
/// under `root`, or for the first traversal component below it; otherwise
/// `/` followed by the components below the root.
pub open spec fn mapping_holds(file: Seq<char>, root: Seq<char>, r: Result<String, PathError>) -> bool {
    match relative_components(file, root) {
        None => r == Err::<String, PathError>(PathError::NotUnderRoot),
        Some(rel) => {
            &&& r is Ok <==> no_traversal(rel)
            &&& r matches Ok(p) ==> p@ == rooted(rel)
            &&& r matches Err(e) ==> exists|i: int|
                first_traversal_at(rel, i) && traversal_error(rel[i], e)
        },
    }
}

/// Maps a file found under `backup_root` onto its path in the container:
/// `/` followed by its components below the root. The result is refused when
/// a component is a traversal.
pub fn map_backup_path(backup_file: &str, backup_root: &str) -> (r: Result<String, PathError>)
    ensures
        mapping_holds(backup_file@, backup_root@, r),
{
    match split_below(backup_file, backup_root) {
        None => Err(PathError::NotUnderRoot),
        Some((fc, k)) => {
            let ghost rel = comp_views(fc@).subrange(k as int, fc@.len() as int);
            match find_traversal(&fc, k) {
                Some(i) => {
                    let e = traversal_error_for(&fc[i]);
                    assert(first_traversal_at(rel, i - k)) by {
                        assert(rel[i - k] == fc@[i as int]@);
                        assert forall|j: int| 0 <= j < i - k implies !is_traversal(rel[j]) by {
                            assert(rel[j] == fc@[j + k]@);
                        }
                    }
                    Err(e)
                },
                None => {
                    assert forall|j: int| 0 <= j < rel.len() implies !is_traversal(rel[j]) by {
                        assert(rel[j] == fc@[j + k]@);
                    }
                    Ok(join_rooted(&fc, k))
                },
            }
        },
    }
}

/// Appending text without separators extends the piece under way.
proof fn lemma_scan_append_plain(p: Seq<char>, x: Seq<char>)
    requires
        forall|j: int| 0 <= j < x.len() ==> x[j] != '/',
    ensures
        scan(p + x) == (scan(p).0, scan(p).1 + x),
    decreases x.len(),
{
    if x.len() == 0 {
        assert(p + x =~= p);
        assert(scan(p).1 + x =~= scan(p).1);
    } else {
        let y = x.drop_last();
        lemma_scan_append_plain(p, y);
        assert((p + x).drop_last() =~= p + y);
        assert((p + x).last() == x.last());
        assert(scan(p).1 + x =~= (scan(p).1 + y).push(x.last()));
    }
}

/// Every component that the scan yields is proper, and the piece under way
/// holds no separator.
proof fn lemma_scan_proper(p: Seq<char>)
    ensures
        forall|i: int| 0 <= i < scan(p).0.len() ==> is_proper(#[trigger] scan(p).0[i]),
        forall|j: int| 0 <= j < scan(p).1.len() ==> scan(p).1[j] != '/',
    decreases p.len(),
{
    if p.len() > 0 {
        let q = p.drop_last();
        lemma_scan_proper(q);
        let done = scan(q).0;
        let cur = scan(q).1;
        if p.last() == '/' {
            if is_kept(cur) {
                assert forall|i: int| 0 <= i < done.push(cur).len() implies is_proper(
                    #[trigger] done.push(cur)[i],
                ) by {
                    if i < done.len() {
                        assert(done.push(cur)[i] == done[i]);
                    }
                }
            }
        } else {
            assert forall|j: int| 0 <= j < cur.push(p.last()).len() implies cur.push(p.last())[j]
                != '/' by {
                if j < cur.len() {
                    assert(cur.push(p.last())[j] == cur[j]);
                }
            }
        }
    }
}

/// Every component of a path is proper.
pub proof fn lemma_components_proper(p: Seq<char>)
    ensures
        forall|i: int| 0 <= i < components(p).len() ==> is_proper(#[trigger] components(p)[i]),
{
    lemma_scan_proper(p);
}

/// Scanning a rooted path leaves its last component under way.
proof fn lemma_scan_rooted(cs: Seq<Seq<char>>)
    requires
        cs.len() >= 1,
        forall|i: int| 0 <= i < cs.len() ==> is_proper(#[trigger] cs[i]),
    ensures
        scan(rooted(cs)) == (cs.drop_last(), cs.last()),
    decreases cs.len(),
{
    if cs.len() == 1 {
        assert(seq!['/'].drop_last() =~= Seq::<char>::empty());
        assert(scan(Seq::<char>::empty()) == (Seq::<Seq<char>>::empty(), Seq::<char>::empty()));
        assert(seq!['/'].last() == '/');
        assert(scan(seq!['/']) == (Seq::<Seq<char>>::empty(), Seq::<char>::empty()));
        lemma_scan_append_plain(seq!['/'], cs[0]);
        assert(Seq::<char>::empty() + cs[0] =~= cs[0]);
        assert(cs.drop_last() =~= Seq::<Seq<char>>::empty());
    } else {
        let d = cs.drop_last();
        lemma_scan_rooted(d);
        let q = rooted(d) + seq!['/'];
        assert(q.drop_last() =~= rooted(d));
        assert(d.drop_last().push(d.last()) =~= d);
        assert(scan(q) == (d, Seq::<char>::empty()));
        lemma_scan_append_plain(q, cs.last());
        assert(Seq::<char>::empty() + cs.last() =~= cs.last());
    }
}

/// The components of a rooted path are those it was made of.
pub proof fn lemma_components_rooted(cs: Seq<Seq<char>>)
    requires
        forall|i: int| 0 <= i < cs.len() ==> is_proper(#[trigger] cs[i]),
    ensures
        components(rooted(cs)) == cs,
        is_absolute(rooted(cs)),
    decreases cs.len(),
{
    if cs.len() == 0 {
        assert(seq!['/'].drop_last() =~= Seq::<char>::empty());
        assert(scan(Seq::<char>::empty()) == (Seq::<Seq<char>>::empty(), Seq::<char>::empty()));
        assert(seq!['/'].last() == '/');
        assert(scan(seq!['/']) == (Seq::<Seq<char>>::empty(), Seq::<char>::empty()));
    } else {
        lemma_scan_rooted(cs);
        assert(cs.drop_last().push(cs.last()) =~= cs);
        if cs.len() > 1 {
            lemma_components_rooted(cs.drop_last());
            assert((rooted(cs.drop_last()) + seq!['/'] + cs.last())[0] == rooted(cs.drop_last())[0]);
        }
    }
}

/// The path below the root is made of proper components.
proof fn lemma_relative_proper(file: Seq<char>, root: Seq<char>)
    requires
        relative_components(file, root) is Some,
    ensures
        forall|i: int|
            0 <= i < relative_components(file, root)->0.len() ==> is_proper(
                #[trigger] relative_components(file, root)->0[i],
            ),
{
    lemma_components_proper(file);
    let fc = components(file);
    let k = components(root).len() as int;
    assert forall|i: int| 0 <= i < relative_components(file, root)->0.len() implies is_proper(
        #[trigger] relative_components(file, root)->0[i],
    ) by {
        assert(relative_components(file, root)->0[i] == fc[i + k]);
    }
}

/// Law: a file under the backup root maps onto `/` followed by its path below
/// the root. That path's components are exactly those below the root, so it
/// passes the container path check exactly when no such component is a
/// traversal, which is when the mapping succeeds.
pub proof fn law_mapped_path_is_rooted_relative(file: Seq<char>, root: Seq<char>)
    requires
        relative_components(file, root) is Some,
    ensures
        ({
            let rel = relative_components(file, root)->0;
            &&& components(rooted(rel)) == rel
            &&& is_absolute(rooted(rel))
            &&& path_is_safe(rooted(rel)) <==> no_traversal(rel)
        }),
{
    lemma_relative_proper(file, root);
    lemma_components_rooted(relative_components(file, root)->0);
}

/// Some mount point in `mounts` is `cs` itself or one of its ancestors.
pub open spec fn mounted_by(abs: bool, cs: Seq<Seq<char>>, mounts: Seq<Seq<char>>) -> bool {
    exists|m: int|
        #![trigger mounts[m]]
        0 <= m < mounts.len() && is_absolute(mounts[m]) == abs && components(mounts[m]).len()
            <= cs.len() && cs.subrange(0, components(mounts[m]).len() as int) == components(
            mounts[m],
        )
}

/// Whether `path`, or one of its ancestors, is a mount point in `mounted_paths`.
pub fn is_path_mounted(path: &str, mounted_paths: &Vec<String>) -> (r: bool)
    ensures
        r == mounted_by(is_absolute(path@), components(path@), comp_views(mounted_paths@)),
{
    let pc = path_components(path);
    let abs = path_is_absolute(path);
    is_mounted_components(abs, &pc, mounted_paths)
}

fn is_mounted_components(abs: bool, pc: &Vec<String>, mounted_paths: &Vec<String>) -> (r: bool)
    ensures
        r == mounted_by(abs, comp_views(pc@), comp_views(mounted_paths@)),
{
    let ghost mv = comp_views(mounted_paths@);
    let mut m: usize = 0;
    while m < mounted_paths.len()
        invariant
            m <= mounted_paths@.len(),
            mv == comp_views(mounted_paths@),
            forall|k: int|
                0 <= k < m ==> !(is_absolute(#[trigger] mv[k]) == abs && components(mv[k]).len()
                    <= comp_views(pc@).len() && comp_views(pc@).subrange(
                    0,
                    components(mv[k]).len() as int,
                ) == components(mv[k])),
        decreases mounted_paths@.len() - m,
    {
        let mp = mounted_paths[m].as_str();
        assert(mp@ == mv[m as int]);
        if path_is_absolute(mp) == abs {
            let mc = path_components(mp);
            if is_component_prefix(&mc, pc) {
                return true;
            }
        }
        m += 1;
    }
    false
}

/// Whether an entry found under `source_root` is to be left alone because its
/// mapped destination is a mount point or lies below one.
pub open spec fn excluded_by_mounts(file: Seq<char>, root: Seq<char>, mounts: Seq<Seq<char>>) -> bool {
    match relative_components(file, root) {
        None => false,
        Some(rel) => mounted_by(true, rel, mounts),
    }
}

/// Whether the entry `file_path` found under `source_root` maps onto a mounted
/// destination; an entry not under the root is never excluded.
pub fn is_path_excluded(file_path: &str, source_root: &str, mounted_paths: &Vec<String>) -> (r:
    bool)
    ensures
        r == excluded_by_mounts(file_path@, source_root@, comp_views(mounted_paths@)),
{
    match split_below(file_path, source_root) {
        None => false,
        Some((fc, k)) => {
            let mut rel: Vec<String> = Vec::new();
            let mut i = k;
            while i < fc.len()
                invariant
                    k <= i <= fc@.len(),
                    comp_views(rel@) == comp_views(fc@).subrange(k as int, i as int),
                decreases fc@.len() - i,
            {
                let ghost before = rel@;
                let c = fc[i].clone();
                rel.push(c);
                assert(comp_views(rel@) =~= comp_views(before).push(fc@[i as int]@));
                assert(comp_views(rel@) =~= comp_views(fc@).subrange(k as int, i + 1));
                i += 1;
            }
            is_mounted_components(true, &rel, mounted_paths)
        },
    }
}

/// Law: an entry whose mapped destination is a mount point, or lies below
/// one, is excluded from a mount-aware transfer.
pub proof fn law_mounted_destination_excluded(
    file: Seq<char>,
    root: Seq<char>,
    mounts: Seq<Seq<char>>,
    m: int,
)
    requires
        relative_components(file, root) is Some,
        0 <= m < mounts.len(),
        is_absolute(mounts[m]),
        ({
            let dest = components(rooted(relative_components(file, root)->0));
            components(mounts[m]).len() <= dest.len() && dest.subrange(
                0,
                components(mounts[m]).len() as int,
            ) == components(mounts[m])
        }),
    ensures
        excluded_by_mounts(file, root, mounts),
{
    law_mapped_path_is_rooted_relative(file, root);
}

/// Checks a path against an allowed base: the resolved path must lie under the
/// resolved base, and the path as given may hold no traversal component. The
/// caller resolves both (following links) beforehand.
pub fn validate_path_security(path: &str, canonical_path: &str, canonical_base: &str) -> (r:
    Result<(), PathError>)
    ensures
        relative_components(canonical_path@, canonical_base@) is None ==> r == Err::<
            (),
            PathError,
        >(PathError::OutsideBase),
        relative_components(canonical_path@, canonical_base@) is Some ==> {
            &&& r is Ok <==> no_traversal(components(path@))
            &&& r matches Err(e) ==> exists|i: int|
                first_traversal_at(components(path@), i) && traversal_error(
                    components(path@)[i],
                    e,
                )
        },
{
    if split_below(canonical_path, canonical_base).is_none() {
        return Err(PathError::OutsideBase);
    }
    let cs = path_components(path);
    let ghost cv = components(path@);
    assert(forall|j: int| 0 <= j < cs@.len() ==> cs@[j]@ == #[trigger] cv[j]);
    match find_traversal(&cs, 0) {
        Some(i) => {
            let e = traversal_error_for(&cs[i]);
            assert(first_traversal_at(cv, i as int));
            Err(e)
        },
        None => Ok(()),
    }
}

/// The text that describes a path error.
pub open spec fn path_error_text(e: PathError) -> Seq<char> {
    match e {
        PathError::NotUnderRoot => "Backup file path is not under backup root"@,
        PathError::ParentDirectory => "Path contains parent directory (..) component"@,
        PathError::SuspiciousComponent(n) => "Path contains suspicious component: "@ + n@,
        PathError::NotAbsolute => "Container path must be absolute"@,
        PathError::OutsideBase => "Path traversal detected: path is outside allowed base"@,
    }
}

impl PathError {
    /// Describes the error.
    pub fn message(&self) -> (r: String)
        ensures
            r@ == path_error_text(*self),
    {
        match self {
            PathError::NotUnderRoot => String::from_str("Backup file path is not under backup root"),
            PathError::ParentDirectory => String::from_str(
                "Path contains parent directory (..) component",
            ),
            PathError::SuspiciousComponent(n) => {
                let mut r = String::from_str("Path contains suspicious component: ");
                r.append(n.as_str());
                r
            },
            PathError::NotAbsolute => String::from_str("Container path must be absolute"),
            PathError::OutsideBase => String::from_str(
                "Path traversal detected: path is outside allowed base",
            ),
        }
    }
}

/// Whether two texts are equal.
pub fn same_text(a: &str, b: &str) -> (r: bool)
    ensures
        r == (a@ == b@),
{
    let n = a.unicode_len();
    if n != b.unicode_len() {
        return false;
    }
    let mut i: usize = 0;
    while i < n
        invariant
            n == a@.len(),
            n == b@.len(),
            i <= n,
            forall|j: int| 0 <= j < i ==> a@[j] == b@[j],
        decreases n - i,
    {
        if a.get_char(i) != b.get_char(i) {
            return false;
        }
        i += 1;
    }
    assert(a@ =~= b@);
    true
}

/// The components of `dir` below `root`, when there is exactly one: its name.
pub fn single_component_below(dir: &str, root: &str) -> (r: Option<String>)
    ensures
        match relative_components(dir@, root@) {
            Some(rel) => if rel.len() == 1 {
                r matches Some(n) && n@ == rel[0]
            } else {
                r is None
            },
            None => r is None,
        },
{
    match split_below(dir, root) {
        None => None,
        Some((fc, k)) => {
            if fc.len() - k == 1 {
                Some(fc[k].clone())
            } else {
                None
            }
        },
    }
}

/// `/` followed by the components of `path` below `root` (traversals
/// included), or `None` when `path` is not under `root`.
pub fn rooted_relative(path: &str, root: &str) -> (r: Option<String>)
    ensures
        match relative_components(path@, root@) {
            None => r is None,
            Some(rel) => r matches Some(s) && s@ == rooted(rel),
        },
{
    match split_below(path, root) {
        None => None,
        Some((fc, k)) => Some(join_rooted(&fc, k)),
    }
}

/// What `std::path::Path::with_extension` makes of a path and an extension.
pub uninterp spec fn with_extension_of(path: Seq<char>, extension: Seq<char>) -> Seq<char>;

/// Relies on `std::path::Path::with_extension`: the file name's extension is
/// replaced (or added); the result depends on the two texts alone. An
/// extension holding a separator makes it panic, so none is admitted.
#[verifier::external_body]
pub(crate) fn with_extension(path: &str, extension: &str) -> (r: String)
    requires
        forall|i: int| 0 <= i < extension@.len() ==> extension@[i] != '/',
    ensures
        r@ == with_extension_of(path@, extension@),
{
    std::path::Path::new(path).with_extension(extension).to_string_lossy().into_owned()
}

} // verus!
