//! File paths as the bytes that the system uses for them.
use vstd::prelude::*;

verus! {

/// The non-empty runs of bytes between the separators of `s`, in order.
pub open spec fn pieces(s: Seq<u8>, sep: u8) -> Seq<Seq<u8>>
    decreases s.len(),
{
    if s.len() == 0 {
        seq![]
    } else {
        let before = pieces(s.drop_last(), sep);
        if s.last() == sep {
            before
        } else if s.len() > 1 && s[s.len() - 2] != sep {
            before.drop_last().push(before.last().push(s.last()))
        } else {
            before.push(seq![s.last()])
        }
    }
}

/// The file name that ends a list of path components. A `.` component
/// stands for nothing; after a `..` there is no name.
pub open spec fn last_name(components: Seq<Seq<u8>>) -> Option<Seq<u8>>
    decreases components.len(),
{
    if components.len() == 0 || components.last() == seq![0x2eu8, 0x2eu8] {
        None
    } else if components.last() == seq![0x2eu8] {
        last_name(components.drop_last())
    } else {
        Some(components.last())
    }
}

/// The name of the file that `path` leads to.
pub open spec fn file_name(path: Seq<u8>) -> Option<Seq<u8>> {
    last_name(pieces(path, 0x2f))
}

/// Where the last dot of `name` is that does not begin it.
pub open spec fn last_dot(name: Seq<u8>) -> Option<int>
    decreases name.len(),
{
    if name.len() <= 1 {
        None
    } else if name.last() == 0x2e {
        Some(name.len() - 1)
    } else {
        last_dot(name.drop_last())
    }
}

/// What follows the last dot of the file name, unless that dot begins it.
pub open spec fn extension(path: Seq<u8>) -> Option<Seq<u8>> {
    match file_name(path) {
        Some(name) => match last_dot(name) {
            Some(dot) => Some(name.skip(dot + 1)),
            None => None,
        },
        None => None,
    }
}

/// An ASCII capital letter as a small one, any other byte as it is.
pub open spec fn lower_byte(b: u8) -> u8 {
    if 0x41 <= b <= 0x5a {
        (b + 0x20) as u8
    } else {
        b
    }
}

/// `s` with its ASCII capital letters made small.
pub open spec fn lower(s: Seq<u8>) -> Seq<u8> {
    s.map_values(|b: u8| lower_byte(b))
}

/// The relative path `name` under the directory `base`.
pub open spec fn joined(base: Seq<u8>, name: Seq<u8>) -> Seq<u8> {
    if base.len() > 0 && base.last() != 0x2f {
        base.push(0x2f) + name
    } else {
        base + name
    }
}

/// A non-empty byte run that is not cut short by a separator is the last piece.
proof fn lemma_pieces_nonempty(s: Seq<u8>, sep: u8)
    ensures
        s.len() > 0 && s.last() != sep ==> pieces(s, sep).len() > 0,
    decreases s.len(),
{
    if s.len() > 0 {
        lemma_pieces_nonempty(s.drop_last(), sep);
    }
}

/// A copy of `bytes` from `start` up to `end`.
pub fn copy_range(bytes: &[u8], start: usize, end: usize) -> (copy: Vec<u8>)
    requires
        start <= end <= bytes@.len(),
    ensures
        copy@ == bytes@.subrange(start as int, end as int),
{
    let mut copy: Vec<u8> = Vec::new();
    let mut i: usize = start;
    while i < end
        invariant
            start <= i <= end <= bytes@.len(),
            copy@ == bytes@.subrange(start as int, i as int),
        decreases end - i,
    {
        copy.push(bytes[i]);
        i = i + 1;
        assert(copy@ =~= bytes@.subrange(start as int, i as int));
    }
    copy
}

/// A copy of `bytes`.
pub fn copy_bytes(bytes: &[u8]) -> (copy: Vec<u8>)
    ensures
        copy@ == bytes@,
{
    let copy = copy_range(bytes, 0, bytes.len());
    assert(copy@ =~= bytes@);
    copy
}

/// The non-empty runs between the separators of `bytes`.
pub fn split_pieces(bytes: &[u8], sep: u8) -> (parts: Vec<Vec<u8>>)
    ensures
        parts@.map_values(|p: Vec<u8>| p@) == pieces(bytes@, sep),
{
    let mut parts: Vec<Vec<u8>> = Vec::new();
    let mut i: usize = 0;
    assert(parts@.map_values(|p: Vec<u8>| p@) =~= pieces(bytes@.take(0), sep));
    while i < bytes.len()
        invariant
            i <= bytes@.len(),
            parts@.map_values(|p: Vec<u8>| p@) == pieces(bytes@.take(i as int), sep),
        decreases bytes@.len() - i,
    {
        let ghost done = bytes@.take(i as int);
        let ghost next = bytes@.take(i + 1);
        let ghost before = parts@.map_values(|p: Vec<u8>| p@);
        assert(next.drop_last() =~= done);
        assert(next.last() == bytes@[i as int]);
        let b: u8 = bytes[i];
        if b != sep {
            if i > 0 && bytes[i - 1] != sep {
                proof {
                    assert(done.last() == bytes@[i - 1]);
                    lemma_pieces_nonempty(done, sep);
                    assert(next[next.len() - 2] == bytes@[i - 1]);
                    assert(before.len() == parts@.len());
                }
                let ghost old_parts = parts@;
                match parts.pop() {
                    Some(mut last) => {
                        proof {
                            assert(before.last() == old_parts.last()@);
                        }
                        last.push(b);
                        parts.push(last);
                        assert(parts@.map_values(|p: Vec<u8>| p@) =~= before.drop_last().push(
                            before.last().push(b),
                        ));
                    },
                    None => {},
                }
            } else {
                let mut fresh: Vec<u8> = Vec::new();
                fresh.push(b);
                assert(fresh@ =~= seq![b]);
                if i > 0 {
                    assert(next[next.len() - 2] == bytes@[i - 1]);
                }
                parts.push(fresh);
                assert(parts@.map_values(|p: Vec<u8>| p@) =~= before.push(seq![b]));
            }
        }
        i = i + 1;
    }
    assert(bytes@.take(i as int) =~= bytes@);
    parts
}

/// The extension of the file name that `path` ends in.
pub fn path_extension(path: &[u8]) -> (ext: Option<Vec<u8>>)
    ensures
        match ext {
            Some(e) => extension(path@) == Some(e@),
            None => extension(path@) is None,
        },
{
    let mut parts = split_pieces(path, 0x2f);
    let ghost components = pieces(path@, 0x2f);
    assert(components.take(components.len() as int) =~= components);
    while parts.len() > 0
        invariant
            parts@.map_values(|p: Vec<u8>| p@) == components.take(parts@.len() as int),
            parts@.len() <= components.len(),
            components == pieces(path@, 0x2f),
            last_name(components) == last_name(components.take(parts@.len() as int)),
        decreases parts.len(),
    {
        let ghost here = components.take(parts@.len() as int);
        let name = &parts[parts.len() - 1];
        let len: usize = name.len();
        assert(here.last() == parts@.map_values(|p: Vec<u8>| p@)[parts@.len() - 1]);
        assert(here.last() == name@);
        if len == 2 && name[0] == 0x2e && name[1] == 0x2e {
            assert(name@ =~= seq![0x2eu8, 0x2eu8]);
            return None;
        }
        if len == 1 && name[0] == 0x2e {
            assert(name@ =~= seq![0x2eu8]);
            assert(here.drop_last() =~= components.take(parts@.len() - 1));
            let ghost old_parts = parts@;
            let _ = parts.pop();
            assert(parts@.map_values(|p: Vec<u8>| p@) =~= components.take(parts@.len() as int)) by {
                assert forall|i: int| 0 <= i < parts@.len() implies parts@[i]@ == components[i] by {
                    assert(old_parts.map_values(|p: Vec<u8>| p@)[i] == components.take(old_parts.len() as int)[i]);
                }
            }
            continue;
        }
        proof {
            if name@ == seq![0x2eu8] {
                assert(name@.len() == 1 && name@[0] == 0x2e);
            }
            if name@ == seq![0x2eu8, 0x2eu8] {
                assert(name@.len() == 2 && name@[0] == 0x2e && name@[1] == 0x2e);
            }
            assert(last_name(here) == Some(name@));
        }
        let mut end: usize = len;
        assert(name@.take(end as int) =~= name@);
        while end > 1
            invariant
                end <= name@.len(),
                file_name(path@) == Some(name@),
                last_dot(name@) == last_dot(name@.take(end as int)),
            decreases end,
        {
            assert(name@.take(end as int).last() == name@[end - 1]);
            if name[end - 1] == 0x2e {
                let ext = copy_range(name.as_slice(), end, name.len());
                assert(ext@ =~= name@.skip(end as int));
                return Some(ext);
            }
            assert(name@.take(end as int).drop_last() =~= name@.take(end - 1));
            end = end - 1;
        }
        return None;
    }
    None
}

/// `bytes` with its ASCII capital letters made small.
pub fn lower_bytes(bytes: &Vec<u8>) -> (out: Vec<u8>)
    ensures
        out@ == lower(bytes@),
{
    let mut out: Vec<u8> = Vec::new();
    let mut i: usize = 0;
    while i < bytes.len()
        invariant
            i <= bytes@.len(),
            out@ == lower(bytes@.take(i as int)),
        decreases bytes@.len() - i,
    {
        let b: u8 = bytes[i];
        out.push(if 0x41 <= b && b <= 0x5a { b + 0x20 } else { b });
        i = i + 1;
        assert(out@ =~= lower(bytes@.take(i as int)));
    }
    assert(bytes@.take(i as int) =~= bytes@);
    out
}

/// The relative path `name` under the directory `base`.
pub fn join(base: &[u8], name: &[u8]) -> (path: Vec<u8>)
    ensures
        path@ == joined(base@, name@),
{
    let mut path = copy_bytes(base);
    if base.len() > 0 && base[base.len() - 1] != 0x2f {
        path.push(0x2f);
    }
    let mut tail = copy_bytes(name);
    path.append(&mut tail);
    path
}

/// The last piece of bytes that do not end in a separator is what follows
/// the last separator.
proof fn lemma_last_piece(s: Seq<u8>, sep: u8)
    requires
        s.len() > 0,
        s.last() != sep,
    ensures
        pieces(s, sep).len() > 0,
        ({
            let p = pieces(s, sep).last();
            &&& 0 < p.len() <= s.len()
            &&& p == s.skip(s.len() - p.len())
            &&& forall|i: int| 0 <= i < p.len() ==> #[trigger] p[i] != sep
            &&& p.len() < s.len() ==> s[s.len() - p.len() - 1] == sep
        }),
    decreases s.len(),
{
    let before = s.drop_last();
    let p = pieces(s, sep).last();
    if s.len() > 1 && s[s.len() - 2] != sep {
        lemma_last_piece(before, sep);
        let q = pieces(before, sep).last();
        assert(p == q.push(s.last()));
        assert(p =~= s.skip(s.len() - p.len()));
        assert forall|i: int| 0 <= i < p.len() implies #[trigger] p[i] != sep by {
            if i < q.len() {
                assert(p[i] == q[i]);
            }
        }
    } else {
        assert(p =~= s.skip(s.len() - 1));
    }
}

/// The last dot is the last one.
proof fn lemma_last_dot(name: Seq<u8>)
    ensures
        match last_dot(name) {
            Some(d) => 0 < d < name.len() && name[d] == 0x2e && forall|i: int|
                d < i < name.len() ==> #[trigger] name[i] != 0x2e,
            None => forall|i: int| 0 < i < name.len() ==> #[trigger] name[i] != 0x2e,
        },
    decreases name.len(),
{
    if name.len() > 1 && name.last() != 0x2e {
        let before = name.drop_last();
        lemma_last_dot(before);
        assert forall|i: int| 0 < i < name.len() - 1 implies #[trigger] name[i] == before[i] by {}
        if let Some(d) = last_dot(name) {
            assert(name[d] == before[d]);
            assert forall|i: int| d < i < name.len() implies #[trigger] name[i] != 0x2e by {
                if i < name.len() - 1 {
                    assert(name[i] == before[i]);
                }
            }
        } else {
            assert forall|i: int| 0 < i < name.len() implies #[trigger] name[i] != 0x2e by {
                if i < name.len() - 1 {
                    assert(name[i] == before[i]);
                }
            }
        }
    }
}

/// The extension of a path that ends in a file name is what follows its last
/// dot, as long as something other than a slash precedes that dot. Without
/// such a dot there is none.
pub proof fn law_extension_follows_the_last_dot(path: Seq<u8>, dot: int)
    requires
        path.len() > 0,
        path.last() != 0x2f && path.last() != 0x2e,
        0 <= dot < path.len(),
        forall|i: int| dot < i < path.len() ==> #[trigger] path[i] != 0x2e && path[i] != 0x2f,
    ensures
        path[dot] == 0x2e && dot > 0 && path[dot - 1] != 0x2f ==> extension(path) == Some(
            path.skip(dot + 1),
        ),
        path[dot] == 0x2f ==> extension(path) is None,
        path[dot] == 0x2e && (dot == 0 || path[dot - 1] == 0x2f) ==> extension(path) is None,
{
    lemma_last_piece(path, 0x2f);
    let p = pieces(path, 0x2f).last();
    let k = path.len() - p.len();
    assert(p.last() == path.last());
    assert(p != seq![0x2eu8] && p != seq![0x2eu8, 0x2eu8]) by {
        assert(seq![0x2eu8].last() == 0x2e);
        assert(seq![0x2eu8, 0x2eu8].last() == 0x2e);
    }
    assert(file_name(path) == Some(p));
    lemma_last_dot(p);
    assert forall|i: int| 0 <= i < p.len() implies #[trigger] p[i] == path[k + i] by {}
    if path[dot] == 0x2e && dot > 0 && path[dot - 1] != 0x2f {
        if k > dot - 1 {
            assert(path[k - 1] == 0x2f);
            assert(k - 1 >= dot - 1);
        }
        assert(k <= dot - 1);
        let d = dot - k;
        assert(p[d] == 0x2e);
        let e = last_dot(p)->0;
        assert(last_dot(p) is Some);
        if e < d {
            assert(p[d] != 0x2e);
        }
        if e > d {
            assert(p[e] == path[k + e]);
        }
        assert(e == d);
        assert(p.skip(d + 1) =~= path.skip(dot + 1));
    } else {
        if last_dot(p) is Some {
            let e = last_dot(p)->0;
            assert(p[e] == path[k + e]);
            assert(k + e <= dot);
            if path[dot] == 0x2f {
                assert(k <= dot);
                assert(p[dot - k] == path[dot]);
            } else {
                if dot > 0 && path[dot - 1] == 0x2f && k <= dot - 1 {
                    assert(p[dot - 1 - k] == path[dot - 1]);
                }
            }
        }
    }
}

/// A slash at the end of a path changes nothing of its extension.
pub proof fn law_trailing_slash_changes_nothing(path: Seq<u8>)
    ensures
        extension(path.push(0x2f)) == extension(path),
{
    assert(path.push(0x2f).drop_last() =~= path);
}

/// What is joined to a directory is in it: behind the directory comes a
/// single slash, unless the directory ends in one or is empty, and then the
/// name.
pub proof fn law_joined_is_in_the_directory(base: Seq<u8>, name: Seq<u8>)
    ensures
        joined(base, name).take(base.len() as int) == base,
        joined(base, name).skip(joined(base, name).len() - name.len()) == name,
        base.len() > 0 && base.last() != 0x2f ==> joined(base, name).len() == base.len() + 1
            + name.len() && joined(base, name)[base.len() as int] == 0x2f,
        base.len() == 0 || base.last() == 0x2f ==> joined(base, name).len() == base.len()
            + name.len(),
{
    assert(joined(base, name).take(base.len() as int) =~= base);
    assert(joined(base, name).skip(joined(base, name).len() - name.len()) =~= name);
}

/// A bare name without any dot has no extension.
pub proof fn law_extension_of_a_bare_name(path: Seq<u8>)
    requires
        path.len() > 0,
        forall|i: int| 0 <= i < path.len() ==> #[trigger] path[i] != 0x2e && path[i] != 0x2f,
    ensures
        extension(path) is None,
{
    lemma_last_piece(path, 0x2f);
    let p = pieces(path, 0x2f).last();
    let k = path.len() - p.len();
    assert(p.last() == path.last());
    assert(p != seq![0x2eu8] && p != seq![0x2eu8, 0x2eu8]) by {
        assert(seq![0x2eu8].last() == 0x2e);
        assert(seq![0x2eu8, 0x2eu8].last() == 0x2e);
    }
    lemma_last_dot(p);
    if last_dot(p) is Some {
        let d = last_dot(p)->0;
        assert(p[d] == path[k + d]);
    }
}

/// Separators part bytes into pieces: a run of other bytes that stands
/// behind one, or at the very front, is a piece of its own, and a separator
/// adds none.
pub proof fn law_separators_part_the_pieces(before: Seq<u8>, run: Seq<u8>, sep: u8)
    requires
        before.len() == 0 || before.last() == sep,
        run.len() > 0,
        forall|i: int| 0 <= i < run.len() ==> #[trigger] run[i] != sep,
    ensures
        pieces(before + run, sep) == pieces(before, sep).push(run),
        pieces((before + run).push(sep), sep) == pieces(before, sep).push(run),
        pieces(Seq::<u8>::empty(), sep) == Seq::<Seq<u8>>::empty(),
    decreases run.len(),
{
    let s = before + run;
    assert(s.push(sep).drop_last() =~= s);
    assert(pieces(s.push(sep), sep) == pieces(s, sep)) by {
        assert(s.push(sep).last() == sep);
    }
    assert(s.last() == run.last());
    if run.len() == 1 {
        assert(s.drop_last() =~= before);
        assert(run =~= seq![run.last()]);
        if s.len() > 1 {
            assert(s[s.len() - 2] == before.last());
        }
    } else {
        let shorter = run.drop_last();
        assert(s.drop_last() =~= before + shorter);
        assert(shorter.last() != sep);
        assert(s[s.len() - 2] == shorter.last());
        law_separators_part_the_pieces(before, shorter, sep);
        assert(pieces(before, sep).push(shorter).drop_last() =~= pieces(before, sep));
        assert(shorter.push(run.last()) =~= run);
    }
}

/// A path that ends in a dot has no extension to speak of. Where the dot is
/// all that its last part is made of, it stands for nothing.
pub proof fn law_dot_at_the_end_is_no_extension(path: Seq<u8>)
    requires
        path.len() > 0,
        path.last() == 0x2e,
    ensures
        path.len() == 1 ==> extension(path) is None,
        path.len() > 1 && path[path.len() - 2] != 0x2f ==> (extension(path) matches Some(ext)
            ==> ext.len() == 0),
        path.len() > 1 && path[path.len() - 2] == 0x2f ==> extension(path) == extension(
            path.drop_last(),
        ),
{
    let dot = seq![0x2eu8];
    let dots = seq![0x2eu8, 0x2eu8];
    assert(dots.len() == 2 && dot.len() == 1);
    if path.len() > 1 && path[path.len() - 2] != 0x2f {
        lemma_last_piece(path, 0x2f);
        let p = pieces(path, 0x2f).last();
        assert(p.last() == path.last());
        if p.len() == 1 {
            assert(path[path.len() - 2] == 0x2f);
        }
        if p != dots {
            assert(last_dot(p) == Some(p.len() - 1));
            assert(p.skip(p.len() as int).len() == 0);
        }
    } else {
        let before = pieces(path.drop_last(), 0x2f);
        assert(pieces(path, 0x2f) == before.push(dot));
        assert(before.push(dot).last() == dot);
        assert(before.push(dot).drop_last() =~= before);
        if path.len() == 1 {
            assert(path.drop_last().len() == 0);
            assert(before.len() == 0);
        }
    }
}

/// Only capital letters are made small, and each into its own small letter.
pub proof fn law_only_capitals_are_made_small(s: Seq<u8>, i: int)
    requires
        0 <= i < s.len(),
    ensures
        lower(s).len() == s.len(),
        'A' as u8 <= s[i] <= 'Z' as u8 ==> lower(s)[i] - 'a' as u8 == s[i] - 'A' as u8,
        !('A' as u8 <= s[i] <= 'Z' as u8) ==> lower(s)[i] == s[i],
{
}

} // verus!
