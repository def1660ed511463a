//! What maps keep, how strings are cut, and which paths are the same.

use vstd::prelude::*;

use crate::path::same_path;
use crate::string_map::StringMap;
use crate::text::{join, starts_with, str_eq, strip_prefix};

verus! {

/// What was put under a key is found there, and what was under every other key is still found.
pub proof fn insert_is_found<V>(
    map: &mut StringMap<V>,
    key: String,
    value: V,
    previous: Option<V>,
    asked: &str,
    before: Option<&V>,
    found: Option<&V>,
)
    requires
        call_ensures(StringMap::<V>::get, (&*old(map), asked), before),
        call_ensures(StringMap::<V>::insert, (map, key, value), previous),
        call_ensures(StringMap::<V>::get, (&*final(map), asked), found),
    ensures
        asked@ == key@ ==> found is Some && *found->0 == value,
        asked@ == key@ ==> (previous is Some <==> before is Some),
        asked@ == key@ && before is Some ==> previous->0 == *before->0,
        asked@ != key@ ==> found == before,
{
}

/// What was taken out is not found any more, is what was there, and every other key keeps its value.
pub proof fn removed_is_not_found<V>(
    map: &mut StringMap<V>,
    key: &str,
    taken: Option<V>,
    asked: &str,
    before: Option<&V>,
    found: Option<&V>,
    contained: bool,
)
    requires
        call_ensures(StringMap::<V>::get, (&*old(map), asked), before),
        call_ensures(StringMap::<V>::contains_key, (&*old(map), asked), contained),
        call_ensures(StringMap::<V>::remove, (map, key), taken),
        call_ensures(StringMap::<V>::get, (&*final(map), asked), found),
    ensures
        contained <==> before is Some,
        asked@ == key@ ==> found is None,
        asked@ == key@ ==> (taken is Some <==> before is Some),
        asked@ == key@ && before is Some ==> taken->0 == *before->0,
        asked@ != key@ ==> found == before,
{
}

/// A new map has nothing, and a duplicate has what the map has.
pub proof fn duplicate_has_the_same(
    none: StringMap<String>,
    map: &StringMap<String>,
    copy: StringMap<String>,
    asked: &str,
    in_none: Option<&String>,
    in_map: Option<&String>,
    in_copy: Option<&String>,
)
    requires
        call_ensures(StringMap::<String>::new, (), none),
        call_ensures(StringMap::<String>::duplicate, (map,), copy),
        call_ensures(StringMap::<String>::get, (&none, asked), in_none),
        call_ensures(StringMap::<String>::get, (map, asked), in_map),
        call_ensures(StringMap::<String>::get, (&copy, asked), in_copy),
    ensures
        in_none is None,
        in_copy == in_map,
{
}

/// The entries of a map are what is found in it: each key once, with its value.
pub proof fn entries_are_what_is_found<V>(
    map: StringMap<V>,
    entries: Vec<(String, V)>,
    asked: &str,
    found: Option<&V>,
)
    requires
        call_ensures(StringMap::<V>::into_entries, (map,), entries),
        call_ensures(StringMap::<V>::get, (&map, asked), found),
    ensures
        found is None ==> forall|i: int|
            0 <= i < entries@.len() ==> (#[trigger] entries@[i]).0@ != asked@,
        found matches Some(value) ==> exists|i: int|
            0 <= i < entries@.len() && (#[trigger] entries@[i]).0@ == asked@ && entries@[i].1
                == *value,
        forall|i: int, j: int|
            0 <= i < j < entries@.len() ==> (#[trigger] entries@[i]).0@ != (
            #[trigger] entries@[j]).0@,
{
    if found is Some {
        assert(map@.contains_key(asked@));
        assert(crate::string_map::has_entry(entries@, asked@));
        let i = choose|i: int| 0 <= i < entries@.len() && (#[trigger] entries@[i]).0@ == asked@;
        assert(map@[entries@[i].0@] == entries@[i].1);
        assert(*found->0 == map@[asked@]);
    }
}

/// Two strings are equal if and only if they hold the same characters. What is left when a prefix is
/// cut off, put behind that prefix, is the string; there is something left to put there if and only
/// if the string begins with the prefix.
pub proof fn cutting_and_joining_are_inverse(
    s: &str,
    prefix: &str,
    begins: bool,
    rest: Option<String>,
    rest_text: &str,
    joined: String,
    joined_text: &str,
    equal: bool,
)
    requires
        call_ensures(starts_with, (s, prefix), begins),
        call_ensures(strip_prefix, (s, prefix), rest),
        rest is Some ==> rest_text@ == rest->0@,
        call_ensures(join, (prefix, rest_text), joined),
        joined_text@ == joined@,
        call_ensures(str_eq, (s, joined_text), equal),
    ensures
        begins <==> rest is Some,
        begins <==> exists|end: Seq<char>| s@ == #[trigger] (prefix@ + end),
        equal <==> s@ == joined@,
        rest is Some ==> equal,
        joined@ == prefix@ + rest_text@,
{
    if begins {
        assert(s@ =~= prefix@ + s@.skip(prefix@.len() as int));
    }
    if exists|end: Seq<char>| s@ == #[trigger] (prefix@ + end) {
        let end = choose|end: Seq<char>| s@ == #[trigger] (prefix@ + end);
        assert(s@.take(prefix@.len() as int) =~= prefix@);
        assert(prefix@.is_prefix_of(s@));
    }
}

/// The pieces of two paths with a separator between them are those of the first and then those of
/// the second.
proof fn lemma_pieces_join(a: Seq<char>, b: Seq<char>)
    ensures
        crate::path::pieces(a + seq!['/'] + b) == crate::path::pieces(a) + crate::path::pieces(b),
    decreases b.len(),
{
    let whole = a + seq!['/'] + b;
    if b.len() == 0 {
        assert(whole =~= a.push('/'));
        assert(whole.drop_last() =~= a);
        assert(crate::path::pieces(whole) =~= crate::path::pieces(a) + crate::path::pieces(b));
    } else {
        lemma_pieces_join(a, b.drop_last());
        lemma_pieces_some(b.drop_last());
        assert(whole.drop_last() =~= a + seq!['/'] + b.drop_last());
        assert(whole.last() == b.last());
        let before = crate::path::pieces(a) + crate::path::pieces(b.drop_last());
        assert(before.drop_last() =~= crate::path::pieces(a) + crate::path::pieces(
            b.drop_last(),
        ).drop_last());
        assert(before.last() == crate::path::pieces(b.drop_last()).last());
        assert(crate::path::pieces(whole) =~= crate::path::pieces(a) + crate::path::pieces(b));
    }
}

proof fn lemma_pieces_some(path: Seq<char>)
    ensures
        crate::path::pieces(path).len() > 0,
    decreases path.len(),
{
    if path.len() > 0 {
        lemma_pieces_some(path.drop_last());
    }
}

/// A path without a separator is one piece.
proof fn lemma_one_piece(path: Seq<char>)
    requires
        !path.contains('/'),
    ensures
        crate::path::pieces(path) == seq![path],
    decreases path.len(),
{
    if path.len() == 0 {
        assert(path =~= Seq::<char>::empty());
    } else {
        let rest = path.drop_last();
        assert(path.contains(path.last()));
        assert forall|c: char| rest.contains(c) implies path.contains(c) by {
            let i = choose|i: int| 0 <= i < rest.len() && rest[i] == c;
            assert(path[i] == c);
        }
        lemma_one_piece(rest);
        assert(seq![rest].drop_last() =~= Seq::<Seq<char>>::empty());
        assert(rest.push(path.last()) =~= path);
        assert(crate::path::pieces(path) =~= seq![path]);
    }
}

/// The entries that two paths with a separator between them walk through are those of the first and
/// then those of the second.
proof fn lemma_names_join(a: Seq<char>, b: Seq<char>)
    ensures
        crate::path::names(a + seq!['/'] + b) == crate::path::names(a) + crate::path::names(b),
{
    lemma_pieces_join(a, b);
    Seq::filter_distributes_over_add(
        crate::path::pieces(a),
        crate::path::pieces(b),
        |piece: Seq<char>| crate::path::is_name(piece),
    );
}

/// A path with something after a separator starts where it starts without.
proof fn lemma_start_join(a: Seq<char>, b: Seq<char>)
    requires
        a.len() > 0,
    ensures
        crate::path::is_absolute(a + seq!['/'] + b) == crate::path::is_absolute(a),
        crate::path::starts_at_dot(a + seq!['/'] + b) == crate::path::starts_at_dot(a),
{
    lemma_pieces_join(a, b);
    lemma_pieces_some(a);
    assert((a + seq!['/'] + b)[0] == a[0]);
}

/// Every path is the same as itself, in whichever order two are compared the answer is the same, and
/// two that are the same as a third are the same as each other.
pub proof fn same_path_is_an_equivalence(
    a: &str,
    b: &str,
    c: &str,
    aa: bool,
    ab: bool,
    ba: bool,
    bc: bool,
    ac: bool,
)
    requires
        call_ensures(same_path, (a, a), aa),
        call_ensures(same_path, (a, b), ab),
        call_ensures(same_path, (b, a), ba),
        call_ensures(same_path, (b, c), bc),
        call_ensures(same_path, (a, c), ac),
    ensures
        aa,
        ab == ba,
        ab && bc ==> ac,
{
}

/// A separator at the end, a second one in the middle, and a single dot between two make no
/// difference.
pub proof fn extra_separators_and_dots_make_no_difference(
    start: Seq<char>,
    end: Seq<char>,
    plain: &str,
    trailing: &str,
    doubled: &str,
    dotted: &str,
    same_trailing: bool,
    same_doubled: bool,
    same_dotted: bool,
)
    requires
        start.len() > 0,
        plain@ == start + seq!['/'] + end,
        trailing@ == plain@ + seq!['/'],
        doubled@ == start + seq!['/'] + (seq!['/'] + end),
        dotted@ == start + seq!['/'] + (seq!['.'] + seq!['/'] + end),
        call_ensures(same_path, (plain, trailing), same_trailing),
        call_ensures(same_path, (plain, doubled), same_doubled),
        call_ensures(same_path, (plain, dotted), same_dotted),
    ensures
        same_trailing,
        same_doubled,
        same_dotted,
{
    let empty = Seq::<char>::empty();
    let dot = seq!['.'];
    reveal_with_fuel(Seq::filter, 3);
    lemma_one_piece(empty);
    assert(seq![empty].drop_last() =~= Seq::<Seq<char>>::empty());
    assert(crate::path::names(empty) =~= Seq::<Seq<char>>::empty());
    assert(!dot.contains('/'));
    lemma_one_piece(dot);
    assert(seq![dot].drop_last() =~= Seq::<Seq<char>>::empty());
    assert(crate::path::names(dot) =~= Seq::<Seq<char>>::empty());
    lemma_names_join(start, end);
    lemma_start_join(start, end);
    assert(trailing@ =~= plain@ + seq!['/'] + empty);
    lemma_names_join(plain@, empty);
    lemma_start_join(plain@, empty);
    assert(seq!['/'] + end =~= empty + seq!['/'] + end);
    lemma_names_join(empty, end);
    lemma_names_join(start, seq!['/'] + end);
    lemma_start_join(start, seq!['/'] + end);
    lemma_names_join(dot, end);
    lemma_names_join(start, dot + seq!['/'] + end);
    lemma_start_join(start, dot + seq!['/'] + end);
    assert(crate::path::names(plain@) =~= crate::path::names(trailing@));
    assert(crate::path::names(plain@) =~= crate::path::names(doubled@));
    assert(crate::path::names(plain@) =~= crate::path::names(dotted@));
}

/// Two entries of one directory are the same path if and only if they have the same name.
pub proof fn different_entries_are_different_paths(
    directory: Seq<char>,
    a_name: Seq<char>,
    b_name: Seq<char>,
    a: &str,
    b: &str,
    r: bool,
)
    requires
        directory.len() > 0,
        !a_name.contains('/') && a_name.len() > 0 && a_name != seq!['.'],
        !b_name.contains('/') && b_name.len() > 0 && b_name != seq!['.'],
        a@ == directory + seq!['/'] + a_name,
        b@ == directory + seq!['/'] + b_name,
        call_ensures(same_path, (a, b), r),
    ensures
        r <==> a_name == b_name,
{
    reveal_with_fuel(Seq::filter, 3);
    lemma_one_piece(a_name);
    lemma_one_piece(b_name);
    assert(seq![a_name].drop_last() =~= Seq::<Seq<char>>::empty());
    assert(seq![b_name].drop_last() =~= Seq::<Seq<char>>::empty());
    assert(crate::path::names(a_name) =~= seq![a_name]);
    assert(crate::path::names(b_name) =~= seq![b_name]);
    lemma_names_join(directory, a_name);
    lemma_names_join(directory, b_name);
    lemma_start_join(directory, a_name);
    lemma_start_join(directory, b_name);
    let a_names = crate::path::names(a@);
    let b_names = crate::path::names(b@);
    assert(a_names.last() == a_name);
    assert(b_names.last() == b_name);
}

/// Entries of one name are the same path if and only if their directories are.
pub proof fn same_entries_are_in_the_same_directory(
    a_directory: &str,
    b_directory: &str,
    name: Seq<char>,
    a: &str,
    b: &str,
    same_directory: bool,
    r: bool,
)
    requires
        a_directory@.len() > 0,
        b_directory@.len() > 0,
        a@ == a_directory@ + seq!['/'] + name,
        b@ == b_directory@ + seq!['/'] + name,
        call_ensures(same_path, (a_directory, b_directory), same_directory),
        call_ensures(same_path, (a, b), r),
    ensures
        r <==> same_directory,
{
    lemma_names_join(a_directory@, name);
    lemma_names_join(b_directory@, name);
    lemma_start_join(a_directory@, name);
    lemma_start_join(b_directory@, name);
    let a_names = crate::path::names(a_directory@);
    let b_names = crate::path::names(b_directory@);
    let last = crate::path::names(name);
    if a_names + last == b_names + last {
        assert((a_names + last).len() == a_names.len() + last.len());
        assert((b_names + last).len() == b_names.len() + last.len());
        assert((a_names + last).take(a_names.len() as int) =~= a_names);
        assert((b_names + last).take(b_names.len() as int) =~= b_names);
    }
}

/// An absolute path and a relative one are never the same.
pub proof fn absolute_and_relative_paths_differ(a: &str, b: &str, r: bool)
    requires
        call_ensures(same_path, (a, b), r),
        a@.len() > 0 && a@[0] == '/',
        b@.len() == 0 || b@[0] != '/',
    ensures
        !r,
{
}

} // verus!
