//! The mount table's text: which mount points it lists.
use vstd::prelude::*;
use crate::path_map::same_text;

verus! {

/// A character that separates pieces: a line break for lines, blank space
/// for the fields of a line.
pub open spec fn separates(c: char, lines: bool) -> bool {
    if lines {
        c == '\n'
    } else {
        c == ' ' || c == '\t' || c == '\r' || c == '\u{b}' || c == '\u{c}' || c == '\n'
    }
}

/// Left-to-right scan: the non-empty pieces finished so far and the piece
/// under way.
pub open spec fn piece_scan(p: Seq<char>, lines: bool) -> (Seq<Seq<char>>, Seq<char>)
    decreases p.len(),
{
    if p.len() == 0 {
        (Seq::empty(), Seq::empty())
    } else {
        let (done, cur) = piece_scan(p.drop_last(), lines);
        if separates(p.last(), lines) {
            (if cur.len() > 0 { done.push(cur) } else { done }, Seq::empty())
        } else {
            (done, cur.push(p.last()))
        }
    }
}

/// The non-empty pieces of `p` between separators, in order.
pub open spec fn pieces(p: Seq<char>, lines: bool) -> Seq<Seq<char>> {
    let (done, cur) = piece_scan(p, lines);
    if cur.len() > 0 {
        done.push(cur)
    } else {
        done
    }
}

pub open spec fn views(v: Seq<String>) -> Seq<Seq<char>> {
    v.map_values(|s: String| s@)
}

fn is_separator(c: char, lines: bool) -> (r: bool)
    ensures
        r == separates(c, lines),
{
    if lines {
        c == '\n'
    } else {
        c == ' ' || c == '\t' || c == '\r' || c == '\u{b}' || c == '\u{c}' || c == '\n'
    }
}

/// The non-empty lines of `p` (`lines`), or the blank-separated fields of `p`.
pub fn split_pieces(p: &str, lines: bool) -> (r: Vec<String>)
    ensures
        views(r@) == pieces(p@, lines),
{
    let n = p.unicode_len();
    let mut out: Vec<String> = Vec::new();
    let mut start: usize = 0;
    let mut i: usize = 0;
    while i < n
        invariant
            n == p@.len(),
            start <= i <= n,
            piece_scan(p@.subrange(0, i as int), lines) == (views(out@), p@.subrange(
                start as int,
                i as int,
            )),
        decreases n - i,
    {
        let c = p.get_char(i);
        let ghost next = p@.subrange(0, i + 1);
        assert(next.drop_last() == p@.subrange(0, i as int));
        assert(next.last() == c);
        if is_separator(c, lines) {
            if i > start {
                let piece = String::from_str(p.substring_char(start, i));
                let ghost before = out@;
                out.push(piece);
                assert(views(out@) =~= views(before).push(piece@));
            }
            start = i + 1;
            assert(p@.subrange(start as int, i + 1) =~= Seq::<char>::empty());
        } else {
            assert(p@.subrange(start as int, i + 1) =~= p@.subrange(start as int, i as int).push(
                c,
            ));
        }
        i += 1;
    }
    assert(p@.subrange(0, n as int) =~= p@);
    if n > start {
        let piece = String::from_str(p.substring_char(start, n));
        let ghost before = out@;
        out.push(piece);
        assert(views(out@) =~= views(before).push(piece@));
    }
    out
}

/// The mount points that the lines of a mount table list, each once, in
/// order of first mention: the second field of each line that has one, the
/// root directory left out.
pub open spec fn mount_points_of(lines: Seq<Seq<char>>) -> Seq<Seq<char>>
    decreases lines.len(),
{
    if lines.len() == 0 {
        Seq::empty()
    } else {
        let prev = mount_points_of(lines.drop_last());
        let fields = pieces(lines.last(), false);
        if fields.len() >= 2 && fields[1] != "/"@ && !prev.contains(fields[1]) {
            prev.push(fields[1])
        } else {
            prev
        }
    }
}

fn listed(points: &Vec<String>, p: &String) -> (r: bool)
    ensures
        r == views(points@).contains(p@),
{
    let mut i: usize = 0;
    while i < points.len()
        invariant
            i <= points@.len(),
            forall|j: int| 0 <= j < i ==> points@[j]@ != p@,
        decreases points@.len() - i,
    {
        if same_text(points[i].as_str(), p.as_str()) {
            assert(views(points@)[i as int] == p@);
            return true;
        }
        i += 1;
    }
    assert forall|j: int| 0 <= j < views(points@).len() implies views(points@)[j] != p@ by {
        assert(views(points@)[j] == points@[j]@);
    }
    false
}

/// The mount points listed in the text of a mount table (one mount per line,
/// the mount point in the second field), each once, the root left out.
pub fn parse_mount_points(table: &str) -> (r: Vec<String>)
    ensures
        views(r@) == mount_points_of(pieces(table@, true)),
{
    let lines = split_pieces(table, true);
    let ghost lv = views(lines@);
    let mut out: Vec<String> = Vec::new();
    let mut i: usize = 0;
    while i < lines.len()
        invariant
            i <= lines@.len(),
            lv == views(lines@),
            lv == pieces(table@, true),
            views(out@) == mount_points_of(lv.subrange(0, i as int)),
        decreases lines@.len() - i,
    {
        let ghost prefix = lv.subrange(0, i + 1);
        assert(prefix.drop_last() =~= lv.subrange(0, i as int));
        assert(prefix.last() == lines@[i as int]@);
        let fields = split_pieces(lines[i].as_str(), false);
        if fields.len() >= 2 {
            proof {
                reveal_strlit("/");
                assert(views(fields@)[1] == fields@[1]@);
            }
            if !same_text(fields[1].as_str(), "/") && !listed(&out, &fields[1]) {
                let ghost before = out@;
                out.push(fields[1].clone());
                assert(views(out@) =~= views(before).push(fields@[1]@));
            }
        }
        i += 1;
    }
    assert(lv.subrange(0, lines@.len() as int) =~= lv);
    out
}

} // verus!
