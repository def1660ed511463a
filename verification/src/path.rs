//! Paths as the container specification names them, and when two of them name the same place.

use vstd::prelude::*;
use vstd::string::*;

verus! {

/// A path.
pub enum FsPath {
    /// A path that is valid UTF-8.
    Text(String),
    /// The bytes of a path that is not.
    Raw(Vec<u8>),
}

/// The pieces of a path between its separators, empty ones included.
///
/// There is always at least one: a path without a separator is one piece.
pub open spec fn pieces(path: Seq<char>) -> Seq<Seq<char>>
    decreases path.len(),
{
    if path.len() == 0 {
        seq![Seq::empty()]
    } else {
        let before = pieces(path.drop_last());
        if path.last() == '/' {
            before.push(Seq::empty())
        } else {
            before.drop_last().push(before.last().push(path.last()))
        }
    }
}

/// A piece that names an entry: neither empty nor a single dot.
pub open spec fn is_name(piece: Seq<char>) -> bool {
    piece.len() > 0 && piece != seq!['.']
}

/// The entries that a path walks through, outermost first.
pub open spec fn names(path: Seq<char>) -> Seq<Seq<char>> {
    pieces(path).filter(|piece: Seq<char>| is_name(piece))
}

/// The path starts at the root.
pub open spec fn is_absolute(path: Seq<char>) -> bool {
    path.len() > 0 && path[0] == '/'
}

/// The path starts with a dot that stands for the current directory.
pub open spec fn starts_at_dot(path: Seq<char>) -> bool {
    pieces(path)[0] == seq!['.']
}

/// Two paths are the same component by component.
///
/// Repeated and trailing separators make no difference, nor does a single dot past the start.
/// Nothing else is resolved: `a/../b` and `b` differ.
pub open spec fn same_path_spec(a: Seq<char>, b: Seq<char>) -> bool {
    &&& is_absolute(a) == is_absolute(b)
    &&& starts_at_dot(a) == starts_at_dot(b)
    &&& names(a) == names(b)
}

/// The characters of each piece.
spec fn piece_views(pieces: Seq<Vec<char>>) -> Seq<Seq<char>> {
    pieces.map_values(|piece: Vec<char>| piece@)
}

proof fn lemma_pieces_nonempty(path: Seq<char>)
    ensures
        pieces(path).len() > 0,
    decreases path.len(),
{
    if path.len() > 0 {
        lemma_pieces_nonempty(path.drop_last());
    }
}

/// Cuts a path at its separators.
fn split(path: &str) -> (r: Vec<Vec<char>>)
    ensures
        piece_views(r@) == pieces(path@),
        r@.len() > 0,
{
    let n: usize = path.unicode_len();
    let mut done: Vec<Vec<char>> = Vec::new();
    let mut current: Vec<char> = Vec::new();
    let mut i: usize = 0;
    assert(path@.take(0) =~= Seq::empty());
    assert(piece_views(done@).push(current@) =~= pieces(path@.take(0)));
    while i < n
        invariant
            n == path@.len(),
            i <= n,
            piece_views(done@).push(current@) == pieces(path@.take(i as int)),
        decreases n - i,
    {
        let c = path.get_char(i);
        let ghost before = piece_views(done@);
        let ghost piece = current@;
        proof {
            assert(path@.take(i + 1).drop_last() =~= path@.take(i as int));
            assert(before.push(piece).drop_last() =~= before);
        }
        if c == '/' {
            done.push(current);
            current = Vec::new();
            assert(piece_views(done@) =~= before.push(piece));
            assert(current@ =~= Seq::<char>::empty());
        } else {
            current.push(c);
        }
        i = i + 1;
    }
    assert(path@.take(n as int) =~= path@);
    let ghost before = piece_views(done@);
    let ghost piece = current@;
    done.push(current);
    assert(piece_views(done@) =~= before.push(piece));
    done
}

/// Whether two pieces hold the same characters.
fn same_chars(a: &Vec<char>, b: &Vec<char>) -> (r: bool)
    ensures
        r == (a@ == b@),
{
    if a.len() != b.len() {
        return false;
    }
    let mut i: usize = 0;
    while i < a.len()
        invariant
            a@.len() == b@.len(),
            i <= a@.len(),
            forall|j: int| 0 <= j < i ==> a@[j] == b@[j],
        decreases a@.len() - i,
    {
        if a[i] != b[i] {
            return false;
        }
        i = i + 1;
    }
    assert(a@ =~= b@);
    true
}

/// Whether a piece is a single dot.
fn is_dot(piece: &Vec<char>) -> (r: bool)
    ensures
        r == (piece@ == seq!['.']),
{
    let r = piece.len() == 1 && piece[0] == '.';
    assert(r ==> piece@ =~= seq!['.']);
    r
}

/// The pieces that name an entry.
fn keep_names(all: Vec<Vec<char>>) -> (r: Vec<Vec<char>>)
    ensures
        piece_views(r@) == piece_views(all@).filter(|piece: Seq<char>| is_name(piece)),
{
    let ghost names_entry = |piece: Seq<char>| is_name(piece);
    let ghost views = piece_views(all@);
    let mut kept: Vec<Vec<char>> = Vec::new();
    let mut rest = all;
    reveal(Seq::filter);
    assert(piece_views(kept@) =~= views.take(0).filter(names_entry));
    let n: usize = rest.len();
    let mut i: usize = 0;
    while i < n
        invariant
            n == views.len(),
            i <= n,
            names_entry == (|piece: Seq<char>| is_name(piece)),
            piece_views(rest@) == views.skip(i as int),
            piece_views(kept@) == views.take(i as int).filter(names_entry),
        decreases n - i,
    {
        assert(piece_views(rest@).len() == n - i);
        let ghost held = rest@;
        let piece = rest.remove(0);
        proof {
            assert(piece@ == views.skip(i as int)[0]);
            assert forall|j: int| 0 <= j < rest@.len() implies #[trigger] piece_views(rest@)[j]
                == views.skip(i + 1)[j] by {
                assert(rest@[j] == held[j + 1]);
                assert(piece_views(held)[j + 1] == views.skip(i as int)[j + 1]);
            }
            assert(piece_views(rest@) =~= views.skip(i + 1));
            assert(views.take(i + 1).drop_last() =~= views.take(i as int));
            reveal(Seq::filter);
        }
        let ghost before = piece_views(kept@);
        if piece.len() > 0 && !is_dot(&piece) {
            kept.push(piece);
            assert(piece_views(kept@) =~= before.push(piece@));
        }
        i = i + 1;
    }
    assert(views.take(n as int) =~= views);
    kept
}

/// Whether two paths are the same component by component.
pub fn same_path(a: &str, b: &str) -> (r: bool)
    ensures
        r == same_path_spec(a@, b@),
{
    proof {
        lemma_pieces_nonempty(a@);
        lemma_pieces_nonempty(b@);
    }
    let absolute_a = a.unicode_len() > 0 && a.get_char(0) == '/';
    let absolute_b = b.unicode_len() > 0 && b.get_char(0) == '/';
    let pieces_a = split(a);
    let pieces_b = split(b);
    let dot_a = is_dot(&pieces_a[0]);
    let dot_b = is_dot(&pieces_b[0]);
    assert(piece_views(pieces_a@)[0] == pieces_a@[0]@);
    assert(piece_views(pieces_b@)[0] == pieces_b@[0]@);
    let names_a = keep_names(pieces_a);
    let names_b = keep_names(pieces_b);
    if absolute_a != absolute_b || dot_a != dot_b || names_a.len() != names_b.len() {
        assert(piece_views(names_a@).len() == names_a@.len());
        assert(piece_views(names_b@).len() == names_b@.len());
        return false;
    }
    let mut i: usize = 0;
    while i < names_a.len()
        invariant
            names_a@.len() == names_b@.len(),
            piece_views(names_a@) == names(a@),
            piece_views(names_b@) == names(b@),
            i <= names_a@.len(),
            forall|j: int| 0 <= j < i ==> (#[trigger] names_a@[j])@ == names_b@[j]@,
        decreases names_a@.len() - i,
    {
        if !same_chars(&names_a[i], &names_b[i]) {
            assert(piece_views(names_a@)[i as int] != piece_views(names_b@)[i as int]);
            return false;
        }
        i = i + 1;
    }
    assert(piece_views(names_a@) =~= piece_views(names_b@));
    true
}

} // verus!
